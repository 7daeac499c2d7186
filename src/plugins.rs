//! Plugin records and the rules that decide which plugin folders are usable.
//! The caller inspects the file system; these functions decide.

use vstd::prelude::*;

verus! {

/// Contents of a plugin's manifest file.
#[derive(Clone, Debug)]
pub struct PluginManifest {
    pub id: String,
    pub name: String,
    pub version: String,
    pub description: String,
    pub author: Option<String>,
    /// Bundle file, relative to the plugin folder.
    pub main: String,
    pub category: String,
    pub min_width: Option<u32>,
    pub has_compact_mode: bool,
    pub compact_priority: Option<u32>,
    pub permissions: Vec<String>,
}

/// A plugin whose manifest and bundle were found.
#[derive(Clone, Debug)]
pub struct PluginInfo {
    pub manifest: PluginManifest,
    pub bundle_path: String,
    pub plugin_dir: String,
}

/// What became of reading a folder's manifest.
#[derive(Debug)]
pub enum ManifestStatus {
    Missing,
    Unreadable,
    Invalid,
    Parsed(PluginManifest),
}

/// What the file system showed of one folder.
#[derive(Debug)]
pub struct PluginCandidate {
    pub plugin_dir: String,
    pub is_dir: bool,
    pub manifest: ManifestStatus,
    /// Path of the bundle that the manifest names, when it was parsed.
    pub bundle_path: String,
    pub bundle_exists: bool,
}

/// Why a plugin folder cannot be used or removed.
#[derive(Clone, Copy, Debug, PartialEq, Eq, Structural)]
pub enum PluginError {
    ManifestMissing,
    ManifestUnreadable,
    ManifestInvalid,
    BundleMissing,
    NotFound,
    NotADirectory,
    OutsidePluginsDir,
}

/// A folder is a usable plugin when its manifest parsed and its bundle
/// exists.
pub open spec fn validation(c: PluginCandidate) -> Result<PluginInfo, PluginError> {
    match c.manifest {
        ManifestStatus::Missing => Err(PluginError::ManifestMissing),
        ManifestStatus::Unreadable => Err(PluginError::ManifestUnreadable),
        ManifestStatus::Invalid => Err(PluginError::ManifestInvalid),
        ManifestStatus::Parsed(m) => if c.bundle_exists {
            Ok(PluginInfo { manifest: m, bundle_path: c.bundle_path, plugin_dir: c.plugin_dir })
        } else {
            Err(PluginError::BundleMissing)
        },
    }
}

/// Checks one plugin folder.
pub fn validate_plugin_folder(c: PluginCandidate) -> (r: Result<PluginInfo, PluginError>)
    ensures
        r == validation(c),
{
    match c.manifest {
        ManifestStatus::Missing => Err(PluginError::ManifestMissing),
        ManifestStatus::Unreadable => Err(PluginError::ManifestUnreadable),
        ManifestStatus::Invalid => Err(PluginError::ManifestInvalid),
        ManifestStatus::Parsed(m) => if c.bundle_exists {
            Ok(PluginInfo { manifest: m, bundle_path: c.bundle_path, plugin_dir: c.plugin_dir })
        } else {
            Err(PluginError::BundleMissing)
        },
    }
}

/// The plugins found among the entries of the plugins directory, in order:
/// entries that are not folders or that fail validation are skipped.
pub open spec fn scan_spec(entries: Seq<PluginCandidate>) -> Seq<PluginInfo>
    decreases entries.len(),
{
    if entries.len() == 0 {
        Seq::empty()
    } else {
        let rest = scan_spec(entries.drop_last());
        let last = entries.last();
        if last.is_dir && validation(last) is Ok {
            rest.push(validation(last)->Ok_0)
        } else {
            rest
        }
    }
}

/// Keeps the usable plugins among the entries of the plugins directory.
pub fn scan_plugins(entries: Vec<PluginCandidate>) -> (r: Vec<PluginInfo>)
    ensures
        r@ == scan_spec(entries@),
{
    let ghost all = entries@;
    let mut rest = entries;
    let mut found: Vec<PluginInfo> = Vec::new();
    while rest.len() > 0
        invariant
            scan_spec(all) == scan_spec(rest@) + found@,
        decreases rest@.len(),
    {
        let ghost before = rest@;
        let c = rest.pop().unwrap();
        proof {
            assert(before.drop_last() =~= rest@);
        }
        if c.is_dir {
            match validate_plugin_folder(c) {
                Ok(info) => {
                    proof {
                        assert(found@.insert(0, info) =~= seq![info] + found@);
                    }
                    found.insert(0, info);
                },
                Err(_) => {},
            }
        }
    }
    proof {
        assert(rest@ =~= Seq::<PluginCandidate>::empty());
        assert(seq![] + found@ =~= found@);
    }
    found
}

/// Whether an installed plugin may be removed: it must exist, be a folder,
/// and lie inside the plugins directory, checked in that order.
pub fn check_removal(exists: bool, is_dir: bool, inside_plugins_dir: bool) -> (r: Result<(), PluginError>)
    ensures
        !exists ==> r == Err::<(), PluginError>(PluginError::NotFound),
        exists && !is_dir ==> r == Err::<(), PluginError>(PluginError::NotADirectory),
        exists && is_dir && !inside_plugins_dir ==> r == Err::<(), PluginError>(
            PluginError::OutsidePluginsDir,
        ),
        r is Ok <==> exists && is_dir && inside_plugins_dir,
{
    if !exists {
        Err(PluginError::NotFound)
    } else if !is_dir {
        Err(PluginError::NotADirectory)
    } else if !inside_plugins_dir {
        Err(PluginError::OutsidePluginsDir)
    } else {
        Ok(())
    }
}

} // verus!
