//! Windows finalization: per-user uninstall registration in the registry.

use vstd::prelude::*;
use vstd::string::*;
use crate::platform::{FinalizeStep, StepSpec};
use crate::path::{join, join_spec};
use crate::platform::Platform;
use crate::text::concat3;


verus! {

pub const UNINSTALL_KEY: &'static str = "Software\\Microsoft\\Windows\\CurrentVersion\\Uninstall\\Spatialshot";
pub const DISPLAY_NAME: &'static str = "Spatialshot";
pub const PUBLISHER: &'static str = "a7mddra";
pub const EXE_FILE: &'static str = "spatialshot-orchestrator.exe";
pub const QUOTE: &'static str = "\"";
pub const UNINSTALL_FLAG: &'static str = "\" --uninstall";

/// The command that Windows runs to uninstall: the quoted main executable
/// followed by `--uninstall`.
pub open spec fn uninstall_command_spec(install_dir: Seq<char>) -> Seq<char> {
    QUOTE@ + join_spec(Platform::WindowsX64, install_dir, EXE_FILE@) + UNINSTALL_FLAG@
}

pub open spec fn finalize_spec(install_dir: Seq<char>) -> Seq<StepSpec> {
    seq![
        StepSpec::SetRegistryValue { key: UNINSTALL_KEY@, name: "DisplayName"@, value: DISPLAY_NAME@ },
        StepSpec::SetRegistryValue {
            key: UNINSTALL_KEY@,
            name: "UninstallString"@,
            value: uninstall_command_spec(install_dir),
        },
        StepSpec::SetRegistryValue { key: UNINSTALL_KEY@, name: "Publisher"@, value: PUBLISHER@ },
    ]
}

pub fn uninstall_command(install_dir: &str) -> (r: String)
    ensures
        r@ == uninstall_command_spec(install_dir@),
{
    let exe = join(Platform::WindowsX64, install_dir, EXE_FILE);
    concat3(QUOTE, exe.as_str(), UNINSTALL_FLAG)
}

/// The registry values that register the installation in `install_dir` for
/// uninstallation by the current user.
pub fn finalize_install(install_dir: &str) -> (r: Vec<FinalizeStep>)
    ensures
        r@.map_values(|s: FinalizeStep| s@) == finalize_spec(install_dir@),
{
    let mut r: Vec<FinalizeStep> = Vec::new();
    r.push(FinalizeStep::SetRegistryValue {
        key: String::from_str(UNINSTALL_KEY),
        name: String::from_str("DisplayName"),
        value: String::from_str(DISPLAY_NAME),
    });
    r.push(FinalizeStep::SetRegistryValue {
        key: String::from_str(UNINSTALL_KEY),
        name: String::from_str("UninstallString"),
        value: uninstall_command(install_dir),
    });
    r.push(FinalizeStep::SetRegistryValue {
        key: String::from_str(UNINSTALL_KEY),
        name: String::from_str("Publisher"),
        value: String::from_str(PUBLISHER),
    });
    assert(r@.map_values(|s: FinalizeStep| s@) =~= finalize_spec(install_dir@));
    r
}

} // verus!
