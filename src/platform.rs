//! Host platforms that the installer supports, and what differs between them.

use vstd::prelude::*;
use crate::error::InstallError;

pub mod linux;
pub mod macos;
pub mod win32;

verus! {

/// Host operating system as reported by the running program.
#[derive(Debug, Clone, Copy, PartialEq, Eq)]
pub enum Os {
    Windows,
    Linux,
    MacOs,
    Other,
}

/// Host processor architecture as reported by the running program.
#[derive(Debug, Clone, Copy, PartialEq, Eq)]
pub enum Arch {
    X64,
    Arm64,
    Other,
}

/// A supported operating system and architecture pair: one per release artifact.
#[derive(Debug, Clone, Copy, PartialEq, Eq)]
pub enum Platform {
    WindowsX64,
    LinuxX64,
    MacArm64,
    MacX64,
}

/// The supported pairs; every other pair has no artifact.
pub open spec fn platform_of(os: Os, arch: Arch) -> Option<Platform> {
    match (os, arch) {
        (Os::Windows, Arch::X64) => Some(Platform::WindowsX64),
        (Os::Linux, Arch::X64) => Some(Platform::LinuxX64),
        (Os::MacOs, Arch::Arm64) => Some(Platform::MacArm64),
        (Os::MacOs, Arch::X64) => Some(Platform::MacX64),
        _ => None,
    }
}

impl Platform {
    /// The artifact suffix that follows `<component>-` in a download URL.
    pub open spec fn suffix_spec(self) -> Seq<char> {
        match self {
            Platform::WindowsX64 => "win-x64.zip"@,
            Platform::LinuxX64 => "linux-x64.zip"@,
            Platform::MacArm64 => "mac-arm64.zip"@,
            Platform::MacX64 => "mac-x64.zip"@,
        }
    }

    /// The path separator of the platform's file system.
    pub open spec fn separator_spec(self) -> Seq<char> {
        match self {
            Platform::WindowsX64 => "\\"@,
            _ => "/"@,
        }
    }

    pub open spec fn is_mac(self) -> bool {
        self is MacArm64 || self is MacX64
    }

    /// Selects the platform once, failing on a pair that has no artifact.
    pub fn resolve(os: Os, arch: Arch) -> (r: Result<Platform, InstallError>)
        ensures
            match platform_of(os, arch) {
                Some(p) => r == Ok::<Platform, InstallError>(p),
                None => r == Err::<Platform, InstallError>(InstallError::UnsupportedPlatform),
            },
    {
        match (os, arch) {
            (Os::Windows, Arch::X64) => Ok(Platform::WindowsX64),
            (Os::Linux, Arch::X64) => Ok(Platform::LinuxX64),
            (Os::MacOs, Arch::Arm64) => Ok(Platform::MacArm64),
            (Os::MacOs, Arch::X64) => Ok(Platform::MacX64),
            _ => Err(InstallError::UnsupportedPlatform),
        }
    }

    pub fn url_suffix(&self) -> (r: &'static str)
        ensures
            r@ == self.suffix_spec(),
    {
        match self {
            Platform::WindowsX64 => "win-x64.zip",
            Platform::LinuxX64 => "linux-x64.zip",
            Platform::MacArm64 => "mac-arm64.zip",
            Platform::MacX64 => "mac-x64.zip",
        }
    }

    pub fn separator(&self) -> (r: &'static str)
        ensures
            r@ == self.separator_spec(),
    {
        match self {
            Platform::WindowsX64 => "\\",
            _ => "/",
        }
    }
}

} // verus!

verus! {

/// One file-system or registry write of a platform's finalization.
#[derive(Debug, Clone, PartialEq, Eq)]
pub enum FinalizeStep {
    /// Create the directory and its missing parents.
    CreateDirAll { path: String },
    /// Write the application's icon image to the file.
    WriteIcon { path: String },
    /// Create or truncate the file and write the text to it.
    WriteText { path: String, contents: String },
    /// Set the file's POSIX permission bits.
    SetMode { path: String, mode: u32 },
    /// Create the per-user registry key if needed and set a string value in it.
    SetRegistryValue { key: String, name: String, value: String },
}

/// What a [`FinalizeStep`] does, with its strings as character sequences.
pub enum StepSpec {
    CreateDirAll { path: Seq<char> },
    WriteIcon { path: Seq<char> },
    WriteText { path: Seq<char>, contents: Seq<char> },
    SetMode { path: Seq<char>, mode: u32 },
    SetRegistryValue { key: Seq<char>, name: Seq<char>, value: Seq<char> },
}

impl View for FinalizeStep {
    type V = StepSpec;

    open spec fn view(&self) -> StepSpec {
        match self {
            FinalizeStep::CreateDirAll { path } => StepSpec::CreateDirAll { path: path@ },
            FinalizeStep::WriteIcon { path } => StepSpec::WriteIcon { path: path@ },
            FinalizeStep::WriteText { path, contents } => StepSpec::WriteText {
                path: path@,
                contents: contents@,
            },
            FinalizeStep::SetMode { path, mode } => StepSpec::SetMode { path: path@, mode: *mode },
            FinalizeStep::SetRegistryValue { key, name, value } => StepSpec::SetRegistryValue {
                key: key@,
                name: name@,
                value: value@,
            },
        }
    }
}

impl Platform {
    /// The finalization steps of this platform, in the order they are performed.
    pub open spec fn finalize_spec(self, install_dir: Seq<char>, home: Seq<char>) -> Seq<StepSpec> {
        match self {
            Platform::WindowsX64 => win32::finalize_spec(install_dir),
            Platform::LinuxX64 => linux::finalize_spec(install_dir, home),
            _ => Seq::empty(),
        }
    }

    /// Selects the finalization of this platform; `home` is the user's home directory.
    pub fn finalize_steps(&self, install_dir: &str, home: &str) -> (r: Vec<FinalizeStep>)
        ensures
            r@.map_values(|s: FinalizeStep| s@) == self.finalize_spec(install_dir@, home@),
    {
        match self {
            Platform::WindowsX64 => win32::finalize_install(install_dir),
            Platform::LinuxX64 => linux::finalize_install(install_dir, home),
            _ => {
                let r = macos::finalize_install(install_dir);
                assert(r@.map_values(|s: FinalizeStep| s@) =~= Seq::<StepSpec>::empty());
                r
            },
        }
    }

    /// The finalization steps for an installation in `install_dir`, where
    /// `home` is the user's home directory if known. Linux writes under the
    /// home directory and fails without it; the other platforms never need it.
    pub fn finalize_for_home(&self, install_dir: &str, home: Option<String>) -> (r: Result<Vec<FinalizeStep>, InstallError>)
        ensures
            *self is LinuxX64 ==> match home {
                Some(h) => r is Ok && r->Ok_0@.map_values(|s: FinalizeStep| s@)
                    == self.finalize_spec(install_dir@, h@),
                None => r == Err::<Vec<FinalizeStep>, InstallError>(InstallError::HomeDirectoryUnknown),
            },
            !(*self is LinuxX64) ==> r is Ok && r->Ok_0@.map_values(|s: FinalizeStep| s@)
                == self.finalize_spec(install_dir@, Seq::empty()),
    {
        match self {
            Platform::LinuxX64 => match home {
                Some(h) => Ok(self.finalize_steps(install_dir, h.as_str())),
                None => Err(InstallError::HomeDirectoryUnknown),
            },
            _ => Ok(self.finalize_steps(install_dir, "")),
        }
    }

    /// The finalization steps for an installation in `install_dir`, reading
    /// the user's home directory where the platform writes under it.
    pub fn finalize_plan(&self, install_dir: &str) -> (r: Result<Vec<FinalizeStep>, InstallError>)
        ensures
            !(*self is LinuxX64) ==> r is Ok && r->Ok_0@.map_values(|s: FinalizeStep| s@)
                == self.finalize_spec(install_dir@, Seq::empty()),
            r is Ok ==> exists|h: Seq<char>|
                r->Ok_0@.map_values(|s: FinalizeStep| s@) == #[trigger] self.finalize_spec(install_dir@, h),
            r is Err ==> r == Err::<Vec<FinalizeStep>, InstallError>(InstallError::HomeDirectoryUnknown),
    {
        let home = match self {
            Platform::LinuxX64 => crate::setup::home_dir(),
            _ => None,
        };
        self.finalize_for_home(install_dir, home)
    }
}

} // verus!
