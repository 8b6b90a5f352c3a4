//! Install location, removal of a previous installation, and the placement
//! of archive entries during extraction.

use vstd::prelude::*;
use vstd::string::*;
use crate::downloader::{DownloadEvent, Phase};
use crate::error::InstallError;
use crate::platform::Platform;
use crate::path::{
    check_contained, is_contained, is_sep, join, join_spec, normalize, normalized, same_directory, views,
};

verus! {

/// Relies on `dirs::home_dir`: the user's home directory, if the
/// environment names one. Nothing is known of the value.
#[verifier::external_body]
pub(crate) fn home_dir() -> (r: Option<String>) {
    dirs::home_dir().map(|p| p.to_string_lossy().into_owned())
}

/// Relies on `dirs::data_local_dir`: the user's local data directory, if the
/// environment names one. Nothing is known of the value.
#[verifier::external_body]
fn data_local_dir() -> (r: Option<String>) {
    dirs::data_local_dir().map(|p| p.to_string_lossy().into_owned())
}

pub const MAC_INSTALL_PATH: &'static str = "/Applications/Spatialshot.app";
pub const WINDOWS_INSTALL_DIR: &'static str = "Programs\\Spatialshot";
pub const LINUX_INSTALL_DIR: &'static str = "spatialshot";

/// The install directory of a platform, given the user's local data directory.
pub open spec fn install_path_spec(platform: Platform, data_local: Seq<char>) -> Seq<char> {
    match platform {
        Platform::WindowsX64 => join_spec(platform, data_local, WINDOWS_INSTALL_DIR@),
        Platform::LinuxX64 => join_spec(platform, data_local, LINUX_INSTALL_DIR@),
        _ => MAC_INSTALL_PATH@,
    }
}

/// The install directory of a platform: a fixed bundle path on macOS, and a
/// directory under the user's local data directory elsewhere, which must then
/// be known.
pub fn install_path_for(platform: Platform, data_local: Option<String>) -> (r: Result<String, InstallError>)
    ensures
        platform.is_mac() ==> r is Ok && r->Ok_0@ == MAC_INSTALL_PATH@,
        !platform.is_mac() ==> match data_local {
            Some(d) => r is Ok && r->Ok_0@ == install_path_spec(platform, d@),
            None => r == Err::<String, InstallError>(InstallError::HomeDirectoryUnknown),
        },
{
    match platform {
        Platform::MacArm64 | Platform::MacX64 => Ok(String::from_str(MAC_INSTALL_PATH)),
        Platform::WindowsX64 => match data_local {
            Some(d) => Ok(join(platform, d.as_str(), WINDOWS_INSTALL_DIR)),
            None => Err(InstallError::HomeDirectoryUnknown),
        },
        Platform::LinuxX64 => match data_local {
            Some(d) => Ok(join(platform, d.as_str(), LINUX_INSTALL_DIR)),
            None => Err(InstallError::HomeDirectoryUnknown),
        },
    }
}

/// Resolves the install directory once for the run, reading the user's
/// local data directory where the platform needs it.
pub fn resolve_install_path(platform: Platform) -> (r: Result<String, InstallError>)
    ensures
        platform.is_mac() ==> r is Ok && r->Ok_0@ == MAC_INSTALL_PATH@,
        !platform.is_mac() ==> r is Ok ==> exists|d: Seq<char>|
            r->Ok_0@ == #[trigger] install_path_spec(platform, d),
        r is Err ==> r == Err::<String, InstallError>(InstallError::HomeDirectoryUnknown),
{
    install_path_for(platform, data_local_dir())
}

/// The path resolves, lexically, to the file-system root (or is empty).
pub open spec fn is_root(p: Platform, path: Seq<char>) -> bool {
    let n = normalize(p, path);
    n.len() == 0 || (p is WindowsX64 && n.len() == 1 && is_drive(n[0]))
}

/// A Windows drive name such as `C:`.
pub open spec fn is_drive(seg: Seq<char>) -> bool {
    seg.len() > 0 && seg.last() == ':'
}

/// The path resolves, lexically, to the same directory as `home`.
pub open spec fn is_home(p: Platform, path: Seq<char>, home: Seq<char>) -> bool {
    normalize(p, path) == normalize(p, home)
}

/// What to do with a previous installation.
#[derive(Debug, Clone, Copy, PartialEq, Eq)]
pub enum NukeAction {
    /// No previous installation exists.
    NothingToRemove,
    /// Delete the install directory recursively.
    RemoveTree,
}

/// Decides on the removal of a previous installation at `install_path`,
/// where `exists` tells whether that path exists and `home` is the user's
/// home directory, if known. A path that resolves to the root or to the
/// home directory is never removed.
pub fn nuke_decision(platform: Platform, install_path: &str, exists: bool, home: Option<String>) -> (r: Result<NukeAction, InstallError>)
    ensures
        !exists ==> r == Ok::<NukeAction, InstallError>(NukeAction::NothingToRemove),
        exists && is_root(platform, install_path@) ==> r == Err::<NukeAction, InstallError>(InstallError::SafetyViolation),
        exists && !is_root(platform, install_path@) ==> match home {
            None => r == Err::<NukeAction, InstallError>(InstallError::HomeDirectoryUnknown),
            Some(h) => if is_home(platform, install_path@, h@) {
                r == Err::<NukeAction, InstallError>(InstallError::SafetyViolation)
            } else {
                r == Ok::<NukeAction, InstallError>(NukeAction::RemoveTree)
            },
        },
{
    if !exists {
        return Ok(NukeAction::NothingToRemove);
    }
    let n = normalized(platform, install_path);
    if n.len() == 0 {
        return Err(InstallError::SafetyViolation);
    }
    if matches!(platform, Platform::WindowsX64) && n.len() == 1 {
        let seg = &n[0];
        assert(seg@ == views(n@)[0]);
        if seg.len() > 0 && seg[seg.len() - 1] == ':' {
            return Err(InstallError::SafetyViolation);
        }
    }
    match home {
        None => Err(InstallError::HomeDirectoryUnknown),
        Some(h) => {
            if same_directory(platform, install_path, h.as_str()) {
                Err(InstallError::SafetyViolation)
            } else {
                Ok(NukeAction::RemoveTree)
            }
        },
    }
}

/// Decides on the removal of a previous installation at `install_path`,
/// reading the user's home directory when the path exists and is not the root.
pub fn nuke_previous_version(platform: Platform, install_path: &str, exists: bool) -> (r: Result<NukeAction, InstallError>)
    ensures
        !exists ==> r == Ok::<NukeAction, InstallError>(NukeAction::NothingToRemove),
        exists && is_root(platform, install_path@) ==> r == Err::<NukeAction, InstallError>(InstallError::SafetyViolation),
        exists && !is_root(platform, install_path@) ==> {
            ||| r == Ok::<NukeAction, InstallError>(NukeAction::RemoveTree)
            ||| r == Err::<NukeAction, InstallError>(InstallError::SafetyViolation)
            ||| r == Err::<NukeAction, InstallError>(InstallError::HomeDirectoryUnknown)
        },
{
    nuke_decision(platform, install_path, exists, home_dir())
}

/// What extraction reads of one archive entry.
#[derive(Debug, Clone, PartialEq, Eq)]
pub struct ArchiveEntry {
    /// The entry's name as stored in the archive.
    pub name: String,
    /// The archive's relative path for the entry, absent where the stored
    /// name is absolute or climbs out of the archive's root.
    pub enclosed: Option<String>,
    /// POSIX permission bits, where the archive records them.
    pub unix_mode: Option<u32>,
}

/// What extraction does with one archive entry.
#[derive(Debug, Clone, PartialEq, Eq)]
pub enum EntryAction {
    /// Write nothing for the entry.
    Skip,
    /// Create the directory and its missing parents.
    CreateDir { path: String, mode: Option<u32> },
    /// Create missing parent directories, then copy the entry's bytes
    /// unchanged into the file.
    WriteFile { path: String, mode: Option<u32> },
}

/// The action of an entry, with its path as a character sequence.
pub enum EntryActionSpec {
    Skip,
    CreateDir { path: Seq<char>, mode: Option<u32> },
    WriteFile { path: Seq<char>, mode: Option<u32> },
}

impl View for EntryAction {
    type V = EntryActionSpec;

    open spec fn view(&self) -> EntryActionSpec {
        match self {
            EntryAction::Skip => EntryActionSpec::Skip,
            EntryAction::CreateDir { path, mode } => EntryActionSpec::CreateDir { path: path@, mode: *mode },
            EntryAction::WriteFile { path, mode } => EntryActionSpec::WriteFile { path: path@, mode: *mode },
        }
    }
}

/// The name denotes a directory: it ends with a separator.
pub open spec fn is_dir_name(name: Seq<char>) -> bool {
    name.len() > 0 && name.last() == '/'
}

pub open spec fn entry_action_spec(p: Platform, install: Seq<char>, entry: ArchiveEntry) -> EntryActionSpec {
    match entry.enclosed {
        None => EntryActionSpec::Skip,
        Some(rel) => if !is_contained(p, rel@) {
            EntryActionSpec::Skip
        } else if is_dir_name(entry.name@) {
            EntryActionSpec::CreateDir { path: join_spec(p, install, rel@), mode: entry.unix_mode }
        } else {
            EntryActionSpec::WriteFile { path: join_spec(p, install, rel@), mode: entry.unix_mode }
        },
    }
}

/// Places one archive entry under `install_path`: entries without a
/// contained relative path are skipped, directory entries become
/// directories, other entries become files, and the recorded permission
/// bits are carried over unchanged.
pub fn plan_entry(platform: Platform, install_path: &str, entry: &ArchiveEntry) -> (r: EntryAction)
    ensures
        r@ == entry_action_spec(platform, install_path@, *entry),
{
    match &entry.enclosed {
        None => EntryAction::Skip,
        Some(rel) => {
            if !check_contained(platform, rel.as_str()) {
                return EntryAction::Skip;
            }
            let path = join(platform, install_path, rel.as_str());
            let n: usize = entry.name.as_str().unicode_len();
            if n > 0 && entry.name.as_str().get_char(n - 1) == '/' {
                EntryAction::CreateDir { path, mode: entry.unix_mode }
            } else {
                EntryAction::WriteFile { path, mode: entry.unix_mode }
            }
        },
    }
}

/// The path that an action writes, if any.
pub open spec fn written_path(a: EntryActionSpec) -> Option<Seq<char>> {
    match a {
        EntryActionSpec::Skip => None,
        EntryActionSpec::CreateDir { path, .. } => Some(path),
        EntryActionSpec::WriteFile { path, .. } => Some(path),
    }
}

/// Extraction never writes outside the install directory: every path it
/// writes is the install directory followed, after at most one separator,
/// by a contained relative path, whatever the archive's entry names hold.
pub proof fn lemma_extraction_stays_inside(p: Platform, install: Seq<char>, entry: ArchiveEntry)
    ensures
        written_path(entry_action_spec(p, install, entry)) matches Some(w) ==> {
            let k = install.len() as int;
            &&& w.len() > k
            &&& w.subrange(0, k) == install
            &&& is_contained(p, w.subrange(k, w.len() as int)) || {
                &&& is_sep(p, w[k])
                &&& is_contained(p, w.subrange(k + 1, w.len() as int))
            }
        },
{
    if let Some(rel) = entry.enclosed {
        if is_contained(p, rel@) {
            reveal_strlit("/");
            reveal_strlit("\\");
            let w = join_spec(p, install, rel@);
            let k = install.len() as int;
            assert(w.subrange(0, k) =~= install);
            if install.len() == 0 || is_sep(p, install.last()) {
                assert(w.subrange(k, w.len() as int) =~= rel@);
            } else {
                assert(is_sep(p, w[k]));
                assert(w.subrange(k + 1, w.len() as int) =~= rel@);
            }
        }
    }
}

/// The progress event of extraction after entry `index` of `total`: one for
/// every tenth entry, at the floor of `index * 100 / total` percent.
pub fn extract_progress(component: &str, index: usize, total: usize) -> (r: Option<DownloadEvent>)
    requires
        index < total,
    ensures
        index % 10 == 0 ==> r is Some && r->Some_0.says(
            component@,
            ((index as int) * 100 / (total as int)) as u64,
            Phase::Extracting,
        ),
        index % 10 != 0 ==> r is None,
{
    if index % 10 == 0 {
        let i: u128 = index as u128;
        let t: u128 = total as u128;
        let p: u128 = i * 100 / t;
        assert(p <= 100) by (nonlinear_arith)
            requires
                p as int == (i as int) * 100 / (t as int),
                i < t,
        ;
        Some(DownloadEvent::new(component, p as u64, Phase::Extracting))
    } else {
        None
    }
}

} // verus!
