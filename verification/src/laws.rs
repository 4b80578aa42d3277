use vstd::prelude::*;

use crate::decode::{
    include_channel_of, lookup, mirror_of, parse_result, req_str,
};
use crate::model::{ImageSetConfigV, IncludeChannelV, MirrorV};
use crate::yaml::{YamlNodeV, yaml_tree_of};

verus! {

/// Parsing is deterministic: one text decodes to at most one document, so
/// parsing the same text twice yields structurally equal documents.
pub proof fn lemma_parse_deterministic(s: Seq<char>, d1: ImageSetConfigV, d2: ImageSetConfigV)
    requires
        parse_result(s) == Some(d1),
        parse_result(s) == Some(d2),
    ensures
        d1 == d2,
{
}

/// A text whose top level lacks any of the required fields `kind`,
/// `apiVersion` or `mirror` does not parse.
pub proof fn lemma_missing_required_field(s: Seq<char>, es: Seq<(YamlNodeV, YamlNodeV)>)
    requires
        yaml_tree_of(s) == Some(YamlNodeV::Mapping(es)),
        lookup(es, "kind"@) is None || lookup(es, "apiVersion"@) is None || lookup(
            es,
            "mirror"@,
        ) is None,
    ensures
        parse_result(s) is None,
{
}

/// When every optional field under `mirror` is absent, the mirror decodes,
/// and every one of its fields is explicitly absent — not empty.
pub proof fn lemma_mirror_all_optional_absent(es: Seq<(YamlNodeV, YamlNodeV)>)
    requires
        lookup(es, "platform"@) is None,
        lookup(es, "release"@) is None,
        lookup(es, "operators"@) is None,
        lookup(es, "additionalImages"@) is None,
        lookup(es, "helm"@) is None,
    ensures
        mirror_of(YamlNodeV::Mapping(es)) == Some(
            MirrorV {
                platform: None,
                release: None,
                operators: None,
                additional_images: None,
                helm: None,
            },
        ),
{
}

/// A version bound given as a string is carried over exactly: no
/// coercion, no trimming.
pub proof fn lemma_min_version_preserved(
    es: Seq<(YamlNodeV, YamlNodeV)>,
    s: Seq<char>,
    c: IncludeChannelV,
)
    requires
        lookup(es, "minVersion"@) == Some(YamlNodeV::Str(s)),
        include_channel_of(YamlNodeV::Mapping(es)) == Some(c),
    ensures
        c.min_version == Some(s),
{
}

/// The required top-level strings are carried over exactly as well.
pub proof fn lemma_required_strings_preserved(
    es: Seq<(YamlNodeV, YamlNodeV)>,
    k: Seq<char>,
    a: Seq<char>,
)
    requires
        lookup(es, "kind"@) == Some(YamlNodeV::Str(k)),
        lookup(es, "apiVersion"@) == Some(YamlNodeV::Str(a)),
    ensures
        req_str(es, "kind"@) == Some(k),
        req_str(es, "apiVersion"@) == Some(a),
{
}

} // verus!
