//! The version-profile model and its inheritance merge: optional scalar
//! fields adopt the parent's value only where the child has none, comparable
//! numeric fields take the larger value, library and structured-argument
//! lists append the parent's entries after the child's, and a parent of a
//! different argument-schema shape is rejected without touching the child.

use vstd::prelude::*;
use crate::arguments::{ArgumentDeclaration, V14ArgumentDeclaration};
use crate::error::LauncherError;
use crate::library::Library;

verus! {

/// The list of available remote versions.
pub struct VersionManifest {
    pub versions: Vec<ManifestVersion>,
}

/// One version descriptor of the manifest: identity, kind, where its profile
/// document lives, and its timestamps.
pub struct ManifestVersion {
    pub id: String,
    pub version_type: String,
    pub url: String,
    pub time: String,
    pub release_time: String,
}

/// Where a version's asset index lives and what it should hash to.
pub struct AssetIndexLocation {
    pub id: String,
    pub sha1: String,
    pub size: i64,
    pub total_size: i64,
    pub url: String,
}

impl AssetIndexLocation {
    /// The file name the index is stored under in the local assets root.
    pub fn index_file_name(&self) -> (r: String)
        ensures
            r@ == self.id@ + ".json"@,
    {
        let mut name = self.id.clone();
        name.append(".json");
        name
    }
}

/// A parsed asset index: logical asset names with their content hash and
/// byte size.
pub struct AssetIndex {
    pub objects: Vec<(String, AssetObject)>,
}

/// One asset object: its content hash (which doubles as integrity checksum
/// and storage key) and byte size.
pub struct AssetObject {
    pub hash: String,
    pub size: i64,
}

impl AssetObject {
    /// The content-addressed relative path of this object: the first two
    /// hash characters as a shard directory, then the full hash.
    pub fn object_relative_path(&self) -> (r: String)
        requires
            self.hash@.len() >= 2,
        ensures
            r@ == self.hash@.subrange(0, 2) + "/"@ + self.hash@,
    {
        let mut p = String::from_str(self.hash.as_str().substring_char(0, 2));
        p.append("/");
        p.append(self.hash.as_str());
        p
    }

    /// The public download URL of this object, sharded the same way as the
    /// local store.
    pub fn object_url(&self) -> (r: String)
        requires
            self.hash@.len() >= 2,
        ensures
            r@ == "https://resources.download.minecraft.net/"@ + self.hash@.subrange(0, 2) + "/"@
                + self.hash@,
    {
        let mut u = String::from_str("https://resources.download.minecraft.net/");
        u.append(self.hash.as_str().substring_char(0, 2));
        u.append("/");
        u.append(self.hash.as_str());
        u
    }

    /// The branch-scoped cosmetic-asset endpoint for this object under a
    /// given launcher API base.
    pub fn cosmetic_url(&self, api_base: &str, branch: &String) -> (r: String)
        requires
            self.hash@.len() >= 2,
        ensures
            r@ == api_base@ + "/launcherapi/v1/assets/"@ + branch@ + "/"@ + self.hash@.subrange(
                0,
                2,
            ) + "/"@ + self.hash@,
    {
        let mut u = String::from_str(api_base);
        u.append("/launcherapi/v1/assets/");
        u.append(branch.as_str());
        u.append("/");
        u.append(self.hash.as_str().substring_char(0, 2));
        u.append("/");
        u.append(self.hash.as_str());
        u
    }
}

/// A version's downloadable binaries, each a {checksum, size, URL} triple.
pub struct Downloads {
    pub client: Option<Download>,
    pub client_mappings: Option<Download>,
    pub server: Option<Download>,
    pub server_mappings: Option<Download>,
    pub windows_server: Option<Download>,
}

/// One downloadable binary.
pub struct Download {
    pub sha1: String,
    pub size: i64,
    pub url: String,
}

/// A version's logging configuration. The engine carries it through merges
/// but does not otherwise exercise it.
pub struct Logging {}

/// The build description of one version. Partial until every declared
/// ancestor has been merged in; only then is it fit for downstream use.
pub struct VersionProfile {
    pub id: String,
    pub asset_index_location: Option<AssetIndexLocation>,
    pub assets: Option<String>,
    pub inherits_from: Option<String>,
    pub minimum_launcher_version: Option<i32>,
    pub downloads: Option<Downloads>,
    pub compliance_level: Option<i32>,
    pub libraries: Vec<Library>,
    pub main_class: Option<String>,
    pub logging: Option<Logging>,
    pub version_type: String,
    pub arguments: ArgumentDeclaration,
}

/// Child-precedence choice: the child's value where present, else the
/// parent's.
pub open spec fn merge_opt<T>(a: Option<T>, b: Option<T>) -> Option<T> {
    if a is Some {
        a
    } else {
        b
    }
}

/// Larger-wins choice for comparable numeric fields: the larger of two
/// present values, or whichever side is present.
pub open spec fn merge_larger_spec(a: Option<i32>, b: Option<i32>) -> Option<i32> {
    match (a, b) {
        (Option::Some(x), Option::Some(y)) => if x < y {
            Option::Some(y)
        } else {
            Option::Some(x)
        },
        (Option::Some(x), Option::None) => Option::Some(x),
        (Option::None, Option::Some(y)) => Option::Some(y),
        (Option::None, Option::None) => Option::None,
    }
}

/// Whether two argument schemas have the same shape; a profile may only
/// inherit from a parent of the same shape.
pub open spec fn compatible_schemas(c: ArgumentDeclaration, p: ArgumentDeclaration) -> bool {
    ||| (c is V14 && p is V14)
    ||| (c is V21 && p is V21)
}

/// What merging compatible argument schemas yields: the legacy string
/// follows child precedence; structured token lists append the parent's
/// entries after the child's.
pub open spec fn merged_schema(
    c: ArgumentDeclaration,
    p: ArgumentDeclaration,
    m: ArgumentDeclaration,
) -> bool {
    match (c, p) {
        (ArgumentDeclaration::V14(a), ArgumentDeclaration::V14(b)) => m == ArgumentDeclaration::V14(
            V14ArgumentDeclaration {
                minecraft_arguments: merge_opt(a.minecraft_arguments, b.minecraft_arguments),
            },
        ),
        (ArgumentDeclaration::V21(a), ArgumentDeclaration::V21(b)) => {
            &&& m matches ArgumentDeclaration::V21(x)
            &&& m->V21_0.arguments.game@ == a.arguments.game@ + b.arguments.game@
            &&& m->V21_0.arguments.jvm@ == a.arguments.jvm@ + b.arguments.jvm@
        },
        _ => false,
    }
}

impl VersionProfile {
    /// Child-precedence adoption of an optional field.
    pub fn merge_options<T>(a: &mut Option<T>, b: Option<T>)
        ensures
            *final(a) == merge_opt(*old(a), b),
    {
        if !a.is_some() {
            *a = b;
        }
    }

    /// Larger-wins adoption of an optional numeric field.
    pub fn merge_larger(a: &mut Option<i32>, b: Option<i32>)
        ensures
            *final(a) == merge_larger_spec(*old(a), b),
    {
        match (&*a, &b) {
            (Option::Some(x), Option::Some(y)) => {
                if *x < *y {
                    *a = b;
                }
            },
            (Option::None, _) => {
                *a = b;
            },
            (Option::Some(_), Option::None) => {},
        }
    }

    /// Merge a declared parent profile into this one. Fails, leaving this
    /// profile untouched, when the parent's argument schema has a different
    /// shape; otherwise applies the per-field policy: child precedence for
    /// optional scalars, larger-wins for numeric fields, parent's libraries
    /// and structured argument entries appended after the child's.
    pub fn merge(&mut self, parent: VersionProfile) -> (r: Result<(), LauncherError>)
        ensures
            r is Ok <==> compatible_schemas(old(self).arguments, parent.arguments),
            r is Ok ==> {
                &&& final(self).id == old(self).id
                &&& final(self).inherits_from == old(self).inherits_from
                &&& final(self).version_type == old(self).version_type
                &&& final(self).asset_index_location == merge_opt(
                    old(self).asset_index_location,
                    parent.asset_index_location,
                )
                &&& final(self).assets == merge_opt(old(self).assets, parent.assets)
                &&& final(self).minimum_launcher_version == merge_larger_spec(
                    old(self).minimum_launcher_version,
                    parent.minimum_launcher_version,
                )
                &&& final(self).downloads == merge_opt(old(self).downloads, parent.downloads)
                &&& final(self).compliance_level == merge_larger_spec(
                    old(self).compliance_level,
                    parent.compliance_level,
                )
                &&& final(self).libraries@ == old(self).libraries@ + parent.libraries@
                &&& final(self).main_class == merge_opt(old(self).main_class, parent.main_class)
                &&& final(self).logging == merge_opt(old(self).logging, parent.logging)
                &&& merged_schema(old(self).arguments, parent.arguments, final(self).arguments)
            },
            r is Err ==> *final(self) == *old(self),
            r matches Err(e) ==> e matches LauncherError::InvalidVersionProfile(m)
                && m@ == "version profile inherits from incompatible profile"@,
    {
        let compatible = match (&self.arguments, &parent.arguments) {
            (ArgumentDeclaration::V14(_), ArgumentDeclaration::V14(_)) => true,
            (ArgumentDeclaration::V21(_), ArgumentDeclaration::V21(_)) => true,
            _ => false,
        };
        if !compatible {
            return Err(
                LauncherError::InvalidVersionProfile(
                    String::from_str("version profile inherits from incompatible profile"),
                ),
            );
        }
        let mut parent = parent;
        Self::merge_options(&mut self.asset_index_location, parent.asset_index_location);
        Self::merge_options(&mut self.assets, parent.assets);
        Self::merge_larger(&mut self.minimum_launcher_version, parent.minimum_launcher_version);
        Self::merge_options(&mut self.downloads, parent.downloads);
        Self::merge_larger(&mut self.compliance_level, parent.compliance_level);
        self.libraries.append(&mut parent.libraries);
        Self::merge_options(&mut self.main_class, parent.main_class);
        Self::merge_options(&mut self.logging, parent.logging);
        match (&mut self.arguments, parent.arguments) {
            (ArgumentDeclaration::V14(a), ArgumentDeclaration::V14(b)) => {
                Self::merge_options(&mut a.minecraft_arguments, b.minecraft_arguments);
            },
            (ArgumentDeclaration::V21(a), ArgumentDeclaration::V21(b)) => {
                let mut b = b;
                a.arguments.game.append(&mut b.arguments.game);
                a.arguments.jvm.append(&mut b.arguments.jvm);
            },
            _ => {
                proof {
                    assert(false);
                }
            },
        }
        Ok(())
    }

    /// Take and clear the declared parent identifier, so that a resolution
    /// driver walking the ancestor chain visits each link exactly once.
    pub fn take_parent_id(&mut self) -> (r: Option<String>)
        ensures
            r == old(self).inherits_from,
            final(self).inherits_from is None,
            final(self).id == old(self).id,
            final(self).asset_index_location == old(self).asset_index_location,
            final(self).assets == old(self).assets,
            final(self).minimum_launcher_version == old(self).minimum_launcher_version,
            final(self).downloads == old(self).downloads,
            final(self).compliance_level == old(self).compliance_level,
            final(self).libraries == old(self).libraries,
            final(self).main_class == old(self).main_class,
            final(self).logging == old(self).logging,
            final(self).version_type == old(self).version_type,
            final(self).arguments == old(self).arguments,
    {
        let r = match &self.inherits_from {
            Option::Some(s) => Option::Some(s.clone()),
            Option::None => Option::None,
        };
        self.inherits_from = Option::None;
        r
    }
}

/// The merge-repetition law: merging the same parent twice changes nothing
/// further on child-precedence scalar fields or larger-wins numeric fields —
/// the value adopted by the first merge is stable — while a library (or
/// structured-argument) list grows by the parent's length with every merge,
/// so repetition is never idempotent there for a parent with entries.
pub proof fn lemma_merge_repetition<T>(
    scalar_child: Option<T>,
    scalar_parent: Option<T>,
    numeric_child: Option<i32>,
    numeric_parent: Option<i32>,
    libs_child: Seq<Library>,
    libs_parent: Seq<Library>,
)
    ensures
        merge_opt(merge_opt(scalar_child, scalar_parent), scalar_parent) == merge_opt(
            scalar_child,
            scalar_parent,
        ),
        merge_larger_spec(merge_larger_spec(numeric_child, numeric_parent), numeric_parent)
            == merge_larger_spec(numeric_child, numeric_parent),
        (libs_child + libs_parent).len() == libs_child.len() + libs_parent.len(),
        libs_parent.len() > 0 ==> ((libs_child + libs_parent) + libs_parent).len()
            > (libs_child + libs_parent).len(),
{
}

} // verus!
