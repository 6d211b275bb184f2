//! One package: what the manifest says of it, and what introspection of its
//! derivation adds.
use vstd::prelude::*;
use crate::json::{Json, member_of, text_of, flag_of, string_items, texts, text_value, flag_value, string_item_values};

verus! {

/// A package's fields as plain values.
pub struct PackageView {
    pub name: Seq<char>,
    pub version: Seq<char>,
    pub available: bool,
    pub broken: bool,
    pub description: Option<Seq<char>>,
    pub homepage: Option<Seq<char>>,
    pub license_short_name: Seq<char>,
    pub long_description: Option<Seq<char>>,
    pub maintainers: Seq<Seq<char>>,
    pub platforms: Seq<Seq<char>>,
    pub drv_path: Seq<char>,
    pub outputs: Seq<Seq<char>>,
    pub input_srcs: Seq<Seq<char>>,
    pub dependencies: Seq<Seq<char>>,
}

/// What the build system reports of one derivation.
pub struct DerivationView {
    pub drv_path: Seq<char>,
    pub outputs: Seq<Seq<char>>,
    pub input_srcs: Seq<Seq<char>>,
    pub dependencies: Seq<Seq<char>>,
}

/// One package of the manifest. Its build fields stay empty until its
/// derivation has been introspected, and are then all set at once.
pub struct PackageRecord {
    pub name: String,
    pub version: String,
    pub available: bool,
    pub broken: bool,
    pub description: Option<String>,
    pub homepage: Option<String>,
    pub license_short_name: String,
    pub long_description: Option<String>,
    pub maintainers: Vec<String>,
    pub platforms: Vec<String>,
    pub drv_path: String,
    pub outputs: Vec<String>,
    pub input_srcs: Vec<String>,
    pub dependencies: Vec<String>,
}

/// What introspection of one derivation found.
pub struct Derivation {
    pub drv_path: String,
    pub outputs: Vec<String>,
    pub input_srcs: Vec<String>,
    pub dependencies: Vec<String>,
}

/// The view of an optional string.
pub open spec fn opt_text(o: Option<String>) -> Option<Seq<char>> {
    match o {
        Some(s) => Some(s@),
        None => None,
    }
}

/// The placeholder for a missing version or licence.
pub open spec fn unknown_text() -> Seq<char> {
    "unknown"@
}

/// A text, or the placeholder where there is none.
pub open spec fn or_unknown(o: Option<Seq<char>>) -> Seq<char> {
    match o {
        Some(s) => s,
        None => unknown_text(),
    }
}

/// The package that a manifest entry describes, before introspection. Fields
/// that are missing or of another JSON type fall back to a default: the
/// placeholder for version and licence, `false` for the raw flags, nothing for
/// texts and lists. `available` is the negation of the raw `meta.available`.
pub open spec fn manifest_view(name: Seq<char>, info: Json) -> PackageView {
    let meta = member_of(Some(info), "meta"@);
    PackageView {
        name: name,
        version: or_unknown(text_of(member_of(Some(info), "version"@))),
        available: !(flag_of(member_of(meta, "available"@)) == Some(true)),
        broken: flag_of(member_of(meta, "broken"@)) == Some(true),
        description: text_of(member_of(meta, "description"@)),
        homepage: text_of(member_of(meta, "homepage"@)),
        license_short_name: or_unknown(
            text_of(member_of(member_of(Some(info), "license"@), "shortName"@)),
        ),
        long_description: text_of(member_of(meta, "longDescription"@)),
        maintainers: string_items(member_of(meta, "maintainers"@)),
        platforms: string_items(member_of(meta, "platforms"@)),
        drv_path: seq![],
        outputs: seq![],
        input_srcs: seq![],
        dependencies: seq![],
    }
}

/// `p` with the build fields of `d`.
pub open spec fn enriched_view(p: PackageView, d: DerivationView) -> PackageView {
    PackageView {
        drv_path: d.drv_path,
        outputs: d.outputs,
        input_srcs: d.input_srcs,
        dependencies: d.dependencies,
        ..p
    }
}

impl View for Derivation {
    type V = DerivationView;

    open spec fn view(&self) -> DerivationView {
        DerivationView {
            drv_path: self.drv_path@,
            outputs: texts(self.outputs@),
            input_srcs: texts(self.input_srcs@),
            dependencies: texts(self.dependencies@),
        }
    }
}

impl View for PackageRecord {
    type V = PackageView;

    open spec fn view(&self) -> PackageView {
        PackageView {
            name: self.name@,
            version: self.version@,
            available: self.available,
            broken: self.broken,
            description: opt_text(self.description),
            homepage: opt_text(self.homepage),
            license_short_name: self.license_short_name@,
            long_description: opt_text(self.long_description),
            maintainers: texts(self.maintainers@),
            platforms: texts(self.platforms@),
            drv_path: self.drv_path@,
            outputs: texts(self.outputs@),
            input_srcs: texts(self.input_srcs@),
            dependencies: texts(self.dependencies@),
        }
    }
}

impl Derivation {
    /// A derivation always has an identifier.
    pub open spec fn wf(&self) -> bool {
        self.drv_path@.len() > 0
    }
}

impl PackageRecord {
    /// Either not introspected (no identifier and no build fields) or
    /// introspected (an identifier).
    pub open spec fn wf(&self) -> bool {
        self.drv_path@.len() == 0 ==> {
            &&& self.outputs@.len() == 0
            &&& self.input_srcs@.len() == 0
            &&& self.dependencies@.len() == 0
        }
    }

    /// Whether the build fields have been filled in.
    pub open spec fn is_enriched(&self) -> bool {
        self.drv_path@.len() > 0
    }

    /// The record of manifest entry `name`, with defaults for what the entry
    /// lacks; not yet introspected.
    pub fn from_manifest(name: &str, info: &Json) -> (r: PackageRecord)
        ensures
            r@ == manifest_view(name@, *info),
            r.wf(),
            !r.is_enriched(),
    {
        let meta = info.member("meta");
        let meta_field = |key: &str| -> (r: Option<&Json>)
            ensures
                match r {
                    Some(j) => member_of(member_of(Some(*info), "meta"@), key@) == Some(*j),
                    None => member_of(member_of(Some(*info), "meta"@), key@) is None,
                },
        {
            match meta {
                Some(m) => m.member(key),
                None => None,
            }
        };
        let version = match text_value(info.member("version")) {
            Some(v) => v,
            None => String::from_str("unknown"),
        };
        let license = match info.member("license") {
            Some(l) => text_value(l.member("shortName")),
            None => None,
        };
        let license_short_name = match license {
            Some(v) => v,
            None => String::from_str("unknown"),
        };
        let raw_available = match flag_value(meta_field("available")) {
            Some(b) => b,
            None => false,
        };
        let broken = match flag_value(meta_field("broken")) {
            Some(b) => b,
            None => false,
        };
        let r = PackageRecord {
            name: String::from_str(name),
            version,
            available: !raw_available,
            broken,
            description: text_value(meta_field("description")),
            homepage: text_value(meta_field("homepage")),
            license_short_name,
            long_description: text_value(meta_field("longDescription")),
            maintainers: string_item_values(meta_field("maintainers")),
            platforms: string_item_values(meta_field("platforms")),
            drv_path: String::new(),
            outputs: Vec::new(),
            input_srcs: Vec::new(),
            dependencies: Vec::new(),
        };
        let ghost m = manifest_view(name@, *info);
        assert(r@.maintainers == m.maintainers);
        assert(r@.outputs == m.outputs);
        assert(r@.platforms == m.platforms);
        assert(r@.input_srcs == m.input_srcs);
        assert(r@.dependencies == m.dependencies);
        r
    }

    /// Fills in all build fields at once from an introspected derivation.
    pub fn enrich(&mut self, d: Derivation)
        requires
            d.wf(),
        ensures
            final(self)@ == enriched_view(old(self)@, d@),
            final(self).wf(),
            final(self).is_enriched(),
    {
        self.drv_path = d.drv_path;
        self.outputs = d.outputs;
        self.input_srcs = d.input_srcs;
        self.dependencies = d.dependencies;
    }
}

} // verus!
