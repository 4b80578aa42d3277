use vstd::prelude::*;

verus! {

// The configuration document is a tree of plain records.  Field keys on the
// wire are fixed, case-sensitive texts (`apiVersion`, `minVersion`,
// `additionalImages`, `type`); the decoder in `decode` reads exactly those
// keys.  Every optional field is an `Option`, so that an absent field stays
// distinguishable from an empty one.
//
// Each record has a mathematical form (the `...V` struct) over `Seq<char>`
// and `Seq`; `deep_view` maps a record to it, and every contract of the
// decoder speaks of these forms.

/// The root of a configuration document: its kind tag, its wire format
/// version, and the one mirror payload.  All three are required.
#[derive(Debug, PartialEq)]
pub struct ImageSetConfig {
    pub kind: String,
    pub api_version: String,
    pub mirror: Mirror,
}

/// What content is to be mirrored.  Every field is optional: an absent
/// field means that nothing of that kind was requested.
#[derive(Debug, PartialEq)]
pub struct Mirror {
    pub platform: Option<Platform>,
    pub release: Option<String>,
    pub operators: Option<Vec<Operator>>,
    pub additional_images: Option<Vec<Image>>,
    pub helm: Option<Helm>,
}

/// Platform release content: its update channels and whether the update
/// graph is requested.  Both fields are required once `platform` is given.
#[derive(Debug, PartialEq)]
pub struct Platform {
    pub channels: Vec<Channel>,
    pub graph: bool,
}

/// One platform update channel: a name and a free-form category tag.
#[derive(Debug, PartialEq)]
pub struct Channel {
    pub name: String,
    pub channel_type: String,
}

/// One operator catalog: where it lives, and which packages to take from
/// it.  An absent package list means every package of the catalog.
#[derive(Debug, PartialEq, Clone)]
pub struct Operator {
    pub catalog: String,
    pub packages: Option<Vec<Package>>,
}

/// One operator package, with optional channel selections and optional
/// version and bundle bounds.  The bounds are layered, not exclusive.
#[derive(Debug, PartialEq, Clone)]
pub struct Package {
    pub name: String,
    pub channels: Option<Vec<IncludeChannel>>,
    pub min_version: Option<String>,
    pub max_version: Option<String>,
    pub min_bundle: Option<String>,
}

/// A channel-scoped selection constraint: the channel's name and the same
/// optional bounds as on the package, scoped to this one channel.
#[derive(Debug, PartialEq, Clone)]
pub struct IncludeChannel {
    pub name: String,
    pub min_version: Option<String>,
    pub max_version: Option<String>,
    pub min_bundle: Option<String>,
}

/// A single additional image reference.
#[derive(Debug, PartialEq, Clone)]
pub struct Image {
    pub name: String,
}

/// A marker: helm mirroring is requested.  It carries no fields.
#[derive(Debug, PartialEq)]
pub struct Helm {}

/// Mathematical form of `ImageSetConfig`.
pub ghost struct ImageSetConfigV {
    pub kind: Seq<char>,
    pub api_version: Seq<char>,
    pub mirror: MirrorV,
}

/// Mathematical form of `Mirror`.
pub ghost struct MirrorV {
    pub platform: Option<PlatformV>,
    pub release: Option<Seq<char>>,
    pub operators: Option<Seq<OperatorV>>,
    pub additional_images: Option<Seq<ImageV>>,
    pub helm: Option<HelmV>,
}

/// Mathematical form of `Platform`.
pub ghost struct PlatformV {
    pub channels: Seq<ChannelV>,
    pub graph: bool,
}

/// Mathematical form of `Channel`.
pub ghost struct ChannelV {
    pub name: Seq<char>,
    pub channel_type: Seq<char>,
}

/// Mathematical form of `Operator`.
pub ghost struct OperatorV {
    pub catalog: Seq<char>,
    pub packages: Option<Seq<PackageV>>,
}

/// Mathematical form of `Package`.
pub ghost struct PackageV {
    pub name: Seq<char>,
    pub channels: Option<Seq<IncludeChannelV>>,
    pub min_version: Option<Seq<char>>,
    pub max_version: Option<Seq<char>>,
    pub min_bundle: Option<Seq<char>>,
}

/// Mathematical form of `IncludeChannel`.
pub ghost struct IncludeChannelV {
    pub name: Seq<char>,
    pub min_version: Option<Seq<char>>,
    pub max_version: Option<Seq<char>>,
    pub min_bundle: Option<Seq<char>>,
}

/// Mathematical form of `Image`.
pub ghost struct ImageV {
    pub name: Seq<char>,
}

/// Mathematical form of `Helm`.
pub ghost struct HelmV {}

impl DeepView for ImageSetConfig {
    type V = ImageSetConfigV;

    open spec fn deep_view(&self) -> ImageSetConfigV {
        ImageSetConfigV {
            kind: self.kind@,
            api_version: self.api_version@,
            mirror: self.mirror.deep_view(),
        }
    }
}

impl DeepView for Mirror {
    type V = MirrorV;

    open spec fn deep_view(&self) -> MirrorV {
        MirrorV {
            platform: self.platform.deep_view(),
            release: self.release.deep_view(),
            operators: self.operators.deep_view(),
            additional_images: self.additional_images.deep_view(),
            helm: self.helm.deep_view(),
        }
    }
}

impl DeepView for Platform {
    type V = PlatformV;

    open spec fn deep_view(&self) -> PlatformV {
        PlatformV { channels: self.channels.deep_view(), graph: self.graph }
    }
}

impl DeepView for Channel {
    type V = ChannelV;

    open spec fn deep_view(&self) -> ChannelV {
        ChannelV { name: self.name@, channel_type: self.channel_type@ }
    }
}

impl DeepView for Operator {
    type V = OperatorV;

    open spec fn deep_view(&self) -> OperatorV {
        OperatorV { catalog: self.catalog@, packages: self.packages.deep_view() }
    }
}

impl DeepView for Package {
    type V = PackageV;

    open spec fn deep_view(&self) -> PackageV {
        PackageV {
            name: self.name@,
            channels: self.channels.deep_view(),
            min_version: self.min_version.deep_view(),
            max_version: self.max_version.deep_view(),
            min_bundle: self.min_bundle.deep_view(),
        }
    }
}

impl DeepView for IncludeChannel {
    type V = IncludeChannelV;

    open spec fn deep_view(&self) -> IncludeChannelV {
        IncludeChannelV {
            name: self.name@,
            min_version: self.min_version.deep_view(),
            max_version: self.max_version.deep_view(),
            min_bundle: self.min_bundle.deep_view(),
        }
    }
}

impl DeepView for Image {
    type V = ImageV;

    open spec fn deep_view(&self) -> ImageV {
        ImageV { name: self.name@ }
    }
}

impl DeepView for Helm {
    type V = HelmV;

    open spec fn deep_view(&self) -> HelmV {
        HelmV {}
    }
}

} // verus!
