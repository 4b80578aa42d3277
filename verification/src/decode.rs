use vstd::prelude::*;
use vstd::string::StringExecFns;

use crate::model::{
    Channel, ChannelV, Helm, HelmV, Image, ImageSetConfig, ImageSetConfigV, ImageV, IncludeChannel,
    IncludeChannelV, Mirror, MirrorV, Operator, OperatorV, Package, PackageV, Platform, PlatformV,
};
use crate::errors::ParseError;
use crate::yaml::{YamlNode, YamlNodeV, entries_view, nodes_view, read_yaml_tree, yaml_error_text, yaml_tree_of};

verus! {

// The schema's decoding rules, stated once as spec functions over node
// trees.  Each `..._of` function says exactly which trees decode into a
// record and what the record then holds; `None` means the tree is refused.
// The executable builders below are proved to return exactly these values.

/// The value of the first entry of a mapping whose key is the given text.
/// An entry whose key is not a string never matches a field name.
pub open spec fn lookup(es: Seq<(YamlNodeV, YamlNodeV)>, key: Seq<char>) -> Option<YamlNodeV>
    decreases es.len(),
{
    if es.len() == 0 {
        None
    } else if es[0].0 matches YamlNodeV::Str(k) && k == key {
        Some(es[0].1)
    } else {
        lookup(es.drop_first(), key)
    }
}

/// A required string field: it decodes only when the key is present and
/// its value is a string, and then to exactly that string.
pub open spec fn req_str(es: Seq<(YamlNodeV, YamlNodeV)>, key: Seq<char>) -> Option<Seq<char>> {
    match lookup(es, key) {
        Some(YamlNodeV::Str(s)) => Some(s),
        _ => None,
    }
}

/// A required boolean field.
pub open spec fn req_bool(es: Seq<(YamlNodeV, YamlNodeV)>, key: Seq<char>) -> Option<bool> {
    match lookup(es, key) {
        Some(YamlNodeV::Bool(b)) => Some(b),
        _ => None,
    }
}

/// An optional field: an absent key and an explicit null both mean "not
/// requested" (`Some(None)`); a present value must decode by `f`.  The
/// outer `None` means the whole document is refused.
pub open spec fn opt_field<T>(
    es: Seq<(YamlNodeV, YamlNodeV)>,
    key: Seq<char>,
    f: spec_fn(YamlNodeV) -> Option<T>,
) -> Option<Option<T>> {
    match lookup(es, key) {
        None => Some(None),
        Some(YamlNodeV::Null) => Some(None),
        Some(v) => match f(v) {
            Some(t) => Some(Some(t)),
            None => None,
        },
    }
}

/// An optional string field.
pub open spec fn opt_str(es: Seq<(YamlNodeV, YamlNodeV)>, key: Seq<char>) -> Option<
    Option<Seq<char>>,
> {
    opt_field(
        es,
        key,
        |n: YamlNodeV|
            match n {
                YamlNodeV::Str(s) => Some(s),
                _ => None,
            },
    )
}

/// A platform channel: a mapping with required `name` and `type`.
pub open spec fn channel_of(n: YamlNodeV) -> Option<ChannelV> {
    match n {
        YamlNodeV::Mapping(es) => match (req_str(es, "name"@), req_str(es, "type"@)) {
            (Some(name), Some(t)) => Some(ChannelV { name, channel_type: t }),
            _ => None,
        },
        _ => None,
    }
}

/// An additional image: a mapping with a required `name`.
pub open spec fn image_of(n: YamlNodeV) -> Option<ImageV> {
    match n {
        YamlNodeV::Mapping(es) => match req_str(es, "name"@) {
            Some(name) => Some(ImageV { name }),
            _ => None,
        },
        _ => None,
    }
}

/// The helm marker: any mapping; it carries no fields of its own.
pub open spec fn helm_of(n: YamlNodeV) -> Option<HelmV> {
    match n {
        YamlNodeV::Mapping(_) => Some(HelmV {}),
        _ => None,
    }
}

/// Element-wise decoding of a channel sequence: every element must decode,
/// and the results keep document order.  The sequence decoders below all
/// follow this shape.
pub open spec fn channels_seq_of(ns: Seq<YamlNodeV>) -> Option<Seq<ChannelV>>
    decreases ns.len(),
{
    if ns.len() == 0 {
        Some(Seq::empty())
    } else {
        match (channels_seq_of(ns.drop_last()), channel_of(ns.last())) {
            (Some(ts), Some(t)) => Some(ts.push(t)),
            _ => None,
        }
    }
}

/// Element-wise decoding of an image sequence.
pub open spec fn images_seq_of(ns: Seq<YamlNodeV>) -> Option<Seq<ImageV>>
    decreases ns.len(),
{
    if ns.len() == 0 {
        Some(Seq::empty())
    } else {
        match (images_seq_of(ns.drop_last()), image_of(ns.last())) {
            (Some(ts), Some(t)) => Some(ts.push(t)),
            _ => None,
        }
    }
}

/// Element-wise decoding of a channel-constraint sequence.
pub open spec fn include_channels_seq_of(ns: Seq<YamlNodeV>) -> Option<Seq<IncludeChannelV>>
    decreases ns.len(),
{
    if ns.len() == 0 {
        Some(Seq::empty())
    } else {
        match (include_channels_seq_of(ns.drop_last()), include_channel_of(ns.last())) {
            (Some(ts), Some(t)) => Some(ts.push(t)),
            _ => None,
        }
    }
}

/// Element-wise decoding of a package sequence.
pub open spec fn packages_seq_of(ns: Seq<YamlNodeV>) -> Option<Seq<PackageV>>
    decreases ns.len(),
{
    if ns.len() == 0 {
        Some(Seq::empty())
    } else {
        match (packages_seq_of(ns.drop_last()), package_of(ns.last())) {
            (Some(ts), Some(t)) => Some(ts.push(t)),
            _ => None,
        }
    }
}

/// Element-wise decoding of an operator sequence.
pub open spec fn operators_seq_of(ns: Seq<YamlNodeV>) -> Option<Seq<OperatorV>>
    decreases ns.len(),
{
    if ns.len() == 0 {
        Some(Seq::empty())
    } else {
        match (operators_seq_of(ns.drop_last()), operator_of(ns.last())) {
            (Some(ts), Some(t)) => Some(ts.push(t)),
            _ => None,
        }
    }
}

/// A platform section: a mapping whose `channels` is a sequence of
/// channels and whose `graph` is a boolean; both are required here.
pub open spec fn platform_of(n: YamlNodeV) -> Option<PlatformV> {
    match n {
        YamlNodeV::Mapping(es) => {
            let cs = match lookup(es, "channels"@) {
                Some(YamlNodeV::List(ns)) => channels_seq_of(ns),
                _ => None,
            };
            match (cs, req_bool(es, "graph"@)) {
                (Some(channels), Some(graph)) => Some(PlatformV { channels, graph }),
                _ => None,
            }
        },
        _ => None,
    }
}

/// A channel-scoped constraint: required `name`, optional bounds.
pub open spec fn include_channel_of(n: YamlNodeV) -> Option<IncludeChannelV> {
    match n {
        YamlNodeV::Mapping(es) => match (
            req_str(es, "name"@),
            opt_str(es, "minVersion"@),
            opt_str(es, "maxVersion"@),
            opt_str(es, "minBundle"@),
        ) {
            (Some(name), Some(min_version), Some(max_version), Some(min_bundle)) => Some(
                IncludeChannelV { name, min_version, max_version, min_bundle },
            ),
            _ => None,
        },
        _ => None,
    }
}

/// A package: required `name`, optional channel selections and bounds.
pub open spec fn package_of(n: YamlNodeV) -> Option<PackageV> {
    match n {
        YamlNodeV::Mapping(es) => {
            let chans = opt_field(
                es,
                "channels"@,
                |m: YamlNodeV|
                    match m {
                        YamlNodeV::List(ns) => include_channels_seq_of(ns),
                        _ => None,
                    },
            );
            match (
                req_str(es, "name"@),
                chans,
                opt_str(es, "minVersion"@),
                opt_str(es, "maxVersion"@),
                opt_str(es, "minBundle"@),
            ) {
                (
                    Some(name),
                    Some(channels),
                    Some(min_version),
                    Some(max_version),
                    Some(min_bundle),
                ) => Some(PackageV { name, channels, min_version, max_version, min_bundle }),
                _ => None,
            }
        },
        _ => None,
    }
}

/// An operator catalog: required `catalog`, optional `packages`.
pub open spec fn operator_of(n: YamlNodeV) -> Option<OperatorV> {
    match n {
        YamlNodeV::Mapping(es) => {
            let pkgs = opt_field(
                es,
                "packages"@,
                |m: YamlNodeV|
                    match m {
                        YamlNodeV::List(ns) => packages_seq_of(ns),
                        _ => None,
                    },
            );
            match (req_str(es, "catalog"@), pkgs) {
                (Some(catalog), Some(packages)) => Some(OperatorV { catalog, packages }),
                _ => None,
            }
        },
        _ => None,
    }
}

/// The mirror payload: a mapping in which every field is optional.
pub open spec fn mirror_of(n: YamlNodeV) -> Option<MirrorV> {
    match n {
        YamlNodeV::Mapping(es) => {
            let platform = opt_field(es, "platform"@, |m: YamlNodeV| platform_of(m));
            let release = opt_str(es, "release"@);
            let operators = opt_field(
                es,
                "operators"@,
                |m: YamlNodeV|
                    match m {
                        YamlNodeV::List(ns) => operators_seq_of(ns),
                        _ => None,
                    },
            );
            let images = opt_field(
                es,
                "additionalImages"@,
                |m: YamlNodeV|
                    match m {
                        YamlNodeV::List(ns) => images_seq_of(ns),
                        _ => None,
                    },
            );
            let helm = opt_field(es, "helm"@, |m: YamlNodeV| helm_of(m));
            match (platform, release, operators, images, helm) {
                (
                    Some(platform),
                    Some(release),
                    Some(operators),
                    Some(additional_images),
                    Some(helm),
                ) => Some(MirrorV { platform, release, operators, additional_images, helm }),
                _ => None,
            }
        },
        _ => None,
    }
}

/// A whole document: a mapping with required `kind`, `apiVersion` and
/// `mirror`, in which `mirror` must itself decode.
pub open spec fn document_of(n: YamlNodeV) -> Option<ImageSetConfigV> {
    match n {
        YamlNodeV::Mapping(es) => {
            let mirror = match lookup(es, "mirror"@) {
                Some(m) => mirror_of(m),
                None => None,
            };
            match (req_str(es, "kind"@), req_str(es, "apiVersion"@), mirror) {
                (Some(kind), Some(api_version), Some(mirror)) => Some(
                    ImageSetConfigV { kind, api_version, mirror },
                ),
                _ => None,
            }
        },
        _ => None,
    }
}

/// What parsing a text yields: the YAML tree of the text, decoded by the
/// schema; `None` where either step refuses.
pub open spec fn parse_result(s: Seq<char>) -> Option<ImageSetConfigV> {
    match yaml_tree_of(s) {
        Some(n) => document_of(n),
        None => None,
    }
}

// The executable builders.  Each one is proved to return `Ok` exactly where
// its spec decoder yields a value, and then a record whose mathematical
// form is that value.

/// Compares a string's characters with a fixed key.
fn text_eq(a: &String, b: &str) -> (r: bool)
    ensures
        r == (a@ == b@),
{
    let b_owned: String = b.to_owned();
    a.eq(&b_owned)
}

fn missing_field_error(key: &str) -> ParseError {
    let mut message: String = "missing required field ".to_owned();
    message.append(key);
    ParseError { message }
}

fn wrong_shape_error(key: &str) -> ParseError {
    let mut message: String = "field ".to_owned();
    message.append(key);
    message.append(" has the wrong shape");
    ParseError { message }
}

fn not_a_mapping_error() -> ParseError {
    ParseError { message: "expected a mapping".to_owned() }
}

/// Finds the value of the first entry whose key is the given text.
fn find_field<'a>(es: &'a Vec<(YamlNode, YamlNode)>, key: &str) -> (r: Option<&'a YamlNode>)
    ensures
        r matches Some(v) ==> lookup(entries_view(*es), key@) == Some(v.deep_view()),
        r is None ==> lookup(entries_view(*es), key@) is None,
{
    proof {
        assert(entries_view(*es).skip(0) =~= entries_view(*es));
    }
    let mut i: usize = 0;
    while i < es.len()
        invariant
            i <= es@.len(),
            lookup(entries_view(*es), key@) == lookup(
                entries_view(*es).skip(i as int),
                key@,
            ),
        decreases es@.len() - i,
    {
        let entry = &es[i];
        let hit = match &entry.0 {
            YamlNode::Str(k) => text_eq(k, key),
            _ => false,
        };
        if hit {
            return Some(&entry.1);
        }
        proof {
            assert(entries_view(*es).skip(i as int).drop_first() =~= entries_view(*es).skip(
                i as int + 1,
            ));
        }
        i += 1;
    }
    proof {
        assert(entries_view(*es).skip(es@.len() as int).len() == 0);
    }
    None
}

/// A required string field, or the error naming what is wrong.
fn req_str_field(es: &Vec<(YamlNode, YamlNode)>, key: &str) -> (r: Result<String, ParseError>)
    ensures
        r is Ok <==> req_str(entries_view(*es), key@) is Some,
        r matches Ok(s) ==> req_str(entries_view(*es), key@) == Some(s@),
{
    match find_field(es, key) {
        Some(YamlNode::Str(s)) => Ok(s.clone()),
        Some(_) => Err(wrong_shape_error(key)),
        None => Err(missing_field_error(key)),
    }
}

/// A required boolean field, or the error naming what is wrong.
fn req_bool_field(es: &Vec<(YamlNode, YamlNode)>, key: &str) -> (r: Result<bool, ParseError>)
    ensures
        r is Ok <==> req_bool(entries_view(*es), key@) is Some,
        r matches Ok(b) ==> req_bool(entries_view(*es), key@) == Some(b),
{
    match find_field(es, key) {
        Some(YamlNode::Bool(b)) => Ok(*b),
        Some(_) => Err(wrong_shape_error(key)),
        None => Err(missing_field_error(key)),
    }
}

/// An optional string field: absent and null both yield `None`.
fn opt_str_field(es: &Vec<(YamlNode, YamlNode)>, key: &str) -> (r: Result<
    Option<String>,
    ParseError,
>)
    ensures
        r is Ok <==> opt_str(entries_view(*es), key@) is Some,
        r matches Ok(o) ==> opt_str(entries_view(*es), key@) == Some(o.deep_view()),
{
    match find_field(es, key) {
        None => Ok(None),
        Some(YamlNode::Null) => Ok(None),
        Some(YamlNode::Str(s)) => Ok(Some(s.clone())),
        Some(_) => Err(wrong_shape_error(key)),
    }
}

fn channel_from_node(n: &YamlNode) -> (r: Result<Channel, ParseError>)
    ensures
        r is Ok <==> channel_of(n.deep_view()) is Some,
        r matches Ok(c) ==> channel_of(n.deep_view()) == Some(c.deep_view()),
{
    match n {
        YamlNode::Mapping(es) => {
            let name = req_str_field(es, "name")?;
            let channel_type = req_str_field(es, "type")?;
            Ok(Channel { name, channel_type })
        },
        _ => Err(not_a_mapping_error()),
    }
}

fn image_from_node(n: &YamlNode) -> (r: Result<Image, ParseError>)
    ensures
        r is Ok <==> image_of(n.deep_view()) is Some,
        r matches Ok(c) ==> image_of(n.deep_view()) == Some(c.deep_view()),
{
    match n {
        YamlNode::Mapping(es) => {
            let name = req_str_field(es, "name")?;
            Ok(Image { name })
        },
        _ => Err(not_a_mapping_error()),
    }
}

fn helm_from_node(n: &YamlNode) -> (r: Result<Helm, ParseError>)
    ensures
        r is Ok <==> helm_of(n.deep_view()) is Some,
        r matches Ok(h) ==> helm_of(n.deep_view()) == Some(h.deep_view()),
{
    match n {
        YamlNode::Mapping(_) => Ok(Helm {}),
        _ => Err(not_a_mapping_error()),
    }
}

fn include_channel_from_node(n: &YamlNode) -> (r: Result<IncludeChannel, ParseError>)
    ensures
        r is Ok <==> include_channel_of(n.deep_view()) is Some,
        r matches Ok(c) ==> include_channel_of(n.deep_view()) == Some(c.deep_view()),
{
    match n {
        YamlNode::Mapping(es) => {
            let name = req_str_field(es, "name")?;
            let min_version = opt_str_field(es, "minVersion")?;
            let max_version = opt_str_field(es, "maxVersion")?;
            let min_bundle = opt_str_field(es, "minBundle")?;
            Ok(IncludeChannel { name, min_version, max_version, min_bundle })
        },
        _ => Err(not_a_mapping_error()),
    }
}

/// An element that does not decode refuses its whole sequence.
proof fn lemma_channels_seq_fails(ns: Seq<YamlNodeV>, i: int)
    requires
        0 <= i < ns.len(),
        channel_of(ns[i]) is None,
    ensures
        channels_seq_of(ns) is None,
    decreases ns.len(),
{
    if i < ns.len() - 1 {
        lemma_channels_seq_fails(ns.drop_last(), i);
    }
}

proof fn lemma_images_seq_fails(ns: Seq<YamlNodeV>, i: int)
    requires
        0 <= i < ns.len(),
        image_of(ns[i]) is None,
    ensures
        images_seq_of(ns) is None,
    decreases ns.len(),
{
    if i < ns.len() - 1 {
        lemma_images_seq_fails(ns.drop_last(), i);
    }
}

proof fn lemma_include_channels_seq_fails(ns: Seq<YamlNodeV>, i: int)
    requires
        0 <= i < ns.len(),
        include_channel_of(ns[i]) is None,
    ensures
        include_channels_seq_of(ns) is None,
    decreases ns.len(),
{
    if i < ns.len() - 1 {
        lemma_include_channels_seq_fails(ns.drop_last(), i);
    }
}

proof fn lemma_packages_seq_fails(ns: Seq<YamlNodeV>, i: int)
    requires
        0 <= i < ns.len(),
        package_of(ns[i]) is None,
    ensures
        packages_seq_of(ns) is None,
    decreases ns.len(),
{
    if i < ns.len() - 1 {
        lemma_packages_seq_fails(ns.drop_last(), i);
    }
}

proof fn lemma_operators_seq_fails(ns: Seq<YamlNodeV>, i: int)
    requires
        0 <= i < ns.len(),
        operator_of(ns[i]) is None,
    ensures
        operators_seq_of(ns) is None,
    decreases ns.len(),
{
    if i < ns.len() - 1 {
        lemma_operators_seq_fails(ns.drop_last(), i);
    }
}

fn channels_from_nodes(ns: &Vec<YamlNode>) -> (r: Result<Vec<Channel>, ParseError>)
    ensures
        r is Ok <==> channels_seq_of(nodes_view(*ns)) is Some,
        r matches Ok(cs) ==> channels_seq_of(nodes_view(*ns)) == Some(cs.deep_view()),
{
    let mut out: Vec<Channel> = Vec::new();
    proof {
        assert(nodes_view(*ns).take(0) =~= Seq::<YamlNodeV>::empty());
        assert(out.deep_view() =~= Seq::<ChannelV>::empty());
    }
    let mut i: usize = 0;
    while i < ns.len()
        invariant
            i <= ns@.len(),
            out@.len() == i,
            channels_seq_of(nodes_view(*ns).take(i as int)) == Some(out.deep_view()),
        decreases ns@.len() - i,
    {
        let ghost prefix = out.deep_view();
        let c = match channel_from_node(&ns[i]) {
            Ok(c) => c,
            Err(e) => {
                proof {
                    lemma_channels_seq_fails(nodes_view(*ns), i as int);
                }
                return Err(e);
            },
        };
        out.push(c);
        proof {
            assert(nodes_view(*ns).take(i as int + 1).drop_last() =~= nodes_view(*ns).take(
                i as int,
            ));
            assert(out.deep_view() =~= prefix.push(out@[i as int].deep_view()));
        }
        i += 1;
    }
    proof {
        assert(nodes_view(*ns).take(ns@.len() as int) =~= nodes_view(*ns));
    }
    Ok(out)
}

fn images_from_nodes(ns: &Vec<YamlNode>) -> (r: Result<Vec<Image>, ParseError>)
    ensures
        r is Ok <==> images_seq_of(nodes_view(*ns)) is Some,
        r matches Ok(cs) ==> images_seq_of(nodes_view(*ns)) == Some(cs.deep_view()),
{
    let mut out: Vec<Image> = Vec::new();
    proof {
        assert(nodes_view(*ns).take(0) =~= Seq::<YamlNodeV>::empty());
        assert(out.deep_view() =~= Seq::<ImageV>::empty());
    }
    let mut i: usize = 0;
    while i < ns.len()
        invariant
            i <= ns@.len(),
            out@.len() == i,
            images_seq_of(nodes_view(*ns).take(i as int)) == Some(out.deep_view()),
        decreases ns@.len() - i,
    {
        let ghost prefix = out.deep_view();
        let c = match image_from_node(&ns[i]) {
            Ok(c) => c,
            Err(e) => {
                proof {
                    lemma_images_seq_fails(nodes_view(*ns), i as int);
                }
                return Err(e);
            },
        };
        out.push(c);
        proof {
            assert(nodes_view(*ns).take(i as int + 1).drop_last() =~= nodes_view(*ns).take(
                i as int,
            ));
            assert(out.deep_view() =~= prefix.push(out@[i as int].deep_view()));
        }
        i += 1;
    }
    proof {
        assert(nodes_view(*ns).take(ns@.len() as int) =~= nodes_view(*ns));
    }
    Ok(out)
}

fn include_channels_from_nodes(ns: &Vec<YamlNode>) -> (r: Result<Vec<IncludeChannel>, ParseError>)
    ensures
        r is Ok <==> include_channels_seq_of(nodes_view(*ns)) is Some,
        r matches Ok(cs) ==> include_channels_seq_of(nodes_view(*ns)) == Some(cs.deep_view()),
{
    let mut out: Vec<IncludeChannel> = Vec::new();
    proof {
        assert(nodes_view(*ns).take(0) =~= Seq::<YamlNodeV>::empty());
        assert(out.deep_view() =~= Seq::<IncludeChannelV>::empty());
    }
    let mut i: usize = 0;
    while i < ns.len()
        invariant
            i <= ns@.len(),
            out@.len() == i,
            include_channels_seq_of(nodes_view(*ns).take(i as int)) == Some(out.deep_view()),
        decreases ns@.len() - i,
    {
        let ghost prefix = out.deep_view();
        let c = match include_channel_from_node(&ns[i]) {
            Ok(c) => c,
            Err(e) => {
                proof {
                    lemma_include_channels_seq_fails(nodes_view(*ns), i as int);
                }
                return Err(e);
            },
        };
        out.push(c);
        proof {
            assert(nodes_view(*ns).take(i as int + 1).drop_last() =~= nodes_view(*ns).take(
                i as int,
            ));
            assert(out.deep_view() =~= prefix.push(out@[i as int].deep_view()));
        }
        i += 1;
    }
    proof {
        assert(nodes_view(*ns).take(ns@.len() as int) =~= nodes_view(*ns));
    }
    Ok(out)
}

fn package_from_node(n: &YamlNode) -> (r: Result<Package, ParseError>)
    ensures
        r is Ok <==> package_of(n.deep_view()) is Some,
        r matches Ok(p) ==> package_of(n.deep_view()) == Some(p.deep_view()),
{
    match n {
        YamlNode::Mapping(es) => {
            let name = req_str_field(es, "name")?;
            let channels = match find_field(es, "channels") {
                None => None,
                Some(YamlNode::Null) => None,
                Some(YamlNode::List(xs)) => Some(include_channels_from_nodes(xs)?),
                Some(_) => {
                    return Err(wrong_shape_error("channels"));
                },
            };
            let min_version = opt_str_field(es, "minVersion")?;
            let max_version = opt_str_field(es, "maxVersion")?;
            let min_bundle = opt_str_field(es, "minBundle")?;
            Ok(Package { name, channels, min_version, max_version, min_bundle })
        },
        _ => Err(not_a_mapping_error()),
    }
}

fn packages_from_nodes(ns: &Vec<YamlNode>) -> (r: Result<Vec<Package>, ParseError>)
    ensures
        r is Ok <==> packages_seq_of(nodes_view(*ns)) is Some,
        r matches Ok(cs) ==> packages_seq_of(nodes_view(*ns)) == Some(cs.deep_view()),
{
    let mut out: Vec<Package> = Vec::new();
    proof {
        assert(nodes_view(*ns).take(0) =~= Seq::<YamlNodeV>::empty());
        assert(out.deep_view() =~= Seq::<PackageV>::empty());
    }
    let mut i: usize = 0;
    while i < ns.len()
        invariant
            i <= ns@.len(),
            out@.len() == i,
            packages_seq_of(nodes_view(*ns).take(i as int)) == Some(out.deep_view()),
        decreases ns@.len() - i,
    {
        let ghost prefix = out.deep_view();
        let c = match package_from_node(&ns[i]) {
            Ok(c) => c,
            Err(e) => {
                proof {
                    lemma_packages_seq_fails(nodes_view(*ns), i as int);
                }
                return Err(e);
            },
        };
        out.push(c);
        proof {
            assert(nodes_view(*ns).take(i as int + 1).drop_last() =~= nodes_view(*ns).take(
                i as int,
            ));
            assert(out.deep_view() =~= prefix.push(out@[i as int].deep_view()));
        }
        i += 1;
    }
    proof {
        assert(nodes_view(*ns).take(ns@.len() as int) =~= nodes_view(*ns));
    }
    Ok(out)
}

fn operator_from_node(n: &YamlNode) -> (r: Result<Operator, ParseError>)
    ensures
        r is Ok <==> operator_of(n.deep_view()) is Some,
        r matches Ok(o) ==> operator_of(n.deep_view()) == Some(o.deep_view()),
{
    match n {
        YamlNode::Mapping(es) => {
            let catalog = req_str_field(es, "catalog")?;
            let packages = match find_field(es, "packages") {
                None => None,
                Some(YamlNode::Null) => None,
                Some(YamlNode::List(xs)) => Some(packages_from_nodes(xs)?),
                Some(_) => {
                    return Err(wrong_shape_error("packages"));
                },
            };
            Ok(Operator { catalog, packages })
        },
        _ => Err(not_a_mapping_error()),
    }
}

fn operators_from_nodes(ns: &Vec<YamlNode>) -> (r: Result<Vec<Operator>, ParseError>)
    ensures
        r is Ok <==> operators_seq_of(nodes_view(*ns)) is Some,
        r matches Ok(cs) ==> operators_seq_of(nodes_view(*ns)) == Some(cs.deep_view()),
{
    let mut out: Vec<Operator> = Vec::new();
    proof {
        assert(nodes_view(*ns).take(0) =~= Seq::<YamlNodeV>::empty());
        assert(out.deep_view() =~= Seq::<OperatorV>::empty());
    }
    let mut i: usize = 0;
    while i < ns.len()
        invariant
            i <= ns@.len(),
            out@.len() == i,
            operators_seq_of(nodes_view(*ns).take(i as int)) == Some(out.deep_view()),
        decreases ns@.len() - i,
    {
        let ghost prefix = out.deep_view();
        let c = match operator_from_node(&ns[i]) {
            Ok(c) => c,
            Err(e) => {
                proof {
                    lemma_operators_seq_fails(nodes_view(*ns), i as int);
                }
                return Err(e);
            },
        };
        out.push(c);
        proof {
            assert(nodes_view(*ns).take(i as int + 1).drop_last() =~= nodes_view(*ns).take(
                i as int,
            ));
            assert(out.deep_view() =~= prefix.push(out@[i as int].deep_view()));
        }
        i += 1;
    }
    proof {
        assert(nodes_view(*ns).take(ns@.len() as int) =~= nodes_view(*ns));
    }
    Ok(out)
}

fn platform_from_node(n: &YamlNode) -> (r: Result<Platform, ParseError>)
    ensures
        r is Ok <==> platform_of(n.deep_view()) is Some,
        r matches Ok(p) ==> platform_of(n.deep_view()) == Some(p.deep_view()),
{
    match n {
        YamlNode::Mapping(es) => {
            let channels = match find_field(es, "channels") {
                Some(YamlNode::List(xs)) => channels_from_nodes(xs)?,
                Some(_) => {
                    return Err(wrong_shape_error("channels"));
                },
                None => {
                    return Err(missing_field_error("channels"));
                },
            };
            let graph = req_bool_field(es, "graph")?;
            Ok(Platform { channels, graph })
        },
        _ => Err(not_a_mapping_error()),
    }
}

fn mirror_from_node(n: &YamlNode) -> (r: Result<Mirror, ParseError>)
    ensures
        r is Ok <==> mirror_of(n.deep_view()) is Some,
        r matches Ok(m) ==> mirror_of(n.deep_view()) == Some(m.deep_view()),
{
    match n {
        YamlNode::Mapping(es) => {
            let platform = match find_field(es, "platform") {
                None => None,
                Some(YamlNode::Null) => None,
                Some(p) => Some(platform_from_node(p)?),
            };
            let release = opt_str_field(es, "release")?;
            let operators = match find_field(es, "operators") {
                None => None,
                Some(YamlNode::Null) => None,
                Some(YamlNode::List(xs)) => Some(operators_from_nodes(xs)?),
                Some(_) => {
                    return Err(wrong_shape_error("operators"));
                },
            };
            let additional_images = match find_field(es, "additionalImages") {
                None => None,
                Some(YamlNode::Null) => None,
                Some(YamlNode::List(xs)) => Some(images_from_nodes(xs)?),
                Some(_) => {
                    return Err(wrong_shape_error("additionalImages"));
                },
            };
            let helm = match find_field(es, "helm") {
                None => None,
                Some(YamlNode::Null) => None,
                Some(h) => Some(helm_from_node(h)?),
            };
            Ok(Mirror { platform, release, operators, additional_images, helm })
        },
        _ => Err(not_a_mapping_error()),
    }
}

/// Decodes one YAML node tree into a document.  This is the whole of the
/// schema logic: callers that already hold a tree — however it was read —
/// get exactly what `document_of` says for it.
pub fn document_from_node(n: &YamlNode) -> (r: Result<ImageSetConfig, ParseError>)
    ensures
        r is Ok <==> document_of(n.deep_view()) is Some,
        r matches Ok(d) ==> document_of(n.deep_view()) == Some(d.deep_view()),
{
    match n {
        YamlNode::Mapping(es) => {
            let kind = req_str_field(es, "kind")?;
            let api_version = req_str_field(es, "apiVersion")?;
            let mirror = match find_field(es, "mirror") {
                Some(m) => mirror_from_node(m)?,
                None => {
                    return Err(missing_field_error("mirror"));
                },
            };
            Ok(ImageSetConfig { kind, api_version, mirror })
        },
        _ => Err(not_a_mapping_error()),
    }
}

impl ImageSetConfig {
    /// Decodes one configuration text into a document, or reports why the
    /// text is refused: malformed syntax, a missing required field, or a
    /// value of the wrong shape.  The result is a function of the text
    /// alone, so parsing the same text twice yields equal documents.
    pub fn parse_yaml_config(data: String) -> (r: Result<ImageSetConfig, ParseError>)
        ensures
            r is Ok <==> parse_result(data@) is Some,
            r matches Ok(d) ==> parse_result(data@) == Some(d.deep_view()),
    {
        match read_yaml_tree(data.as_str()) {
            Ok(node) => document_from_node(&node),
            Err(e) => Err(ParseError { message: yaml_error_text(&e) }),
        }
    }
}

} // verus!
