//! Linux finalization: icon, desktop entry and a command-line wrapper with an
//! `uninstall` subcommand, all under the user's home directory.

use vstd::prelude::*;
use crate::platform::{FinalizeStep, StepSpec};
use crate::path::{join, join_spec};
use crate::platform::Platform;
use crate::text::concat3;

verus! {

pub const ICON_DIR: &'static str = ".local/share/icons/hicolor/512x512/apps";
pub const ICON_FILE: &'static str = "spatialshot.png";
pub const APPLICATIONS_DIR: &'static str = ".local/share/applications";
pub const DESKTOP_FILE: &'static str = "spatialshot.desktop";
pub const BIN_DIR: &'static str = ".local/bin";
pub const WRAPPER_FILE: &'static str = "spatialshot";
pub const WRAPPER_MODE: u32 = 0o755;

pub const DESKTOP_HEAD: &'static str = "[Desktop Entry]\nVersion=1.0\nType=Application\nName=Spatialshot\nExec=";
pub const DESKTOP_TAIL: &'static str = "/spatialshot-orchestrator\nIcon=spatialshot\nTerminal=false\nCategories=Utility;\n";

pub const WRAPPER_HEAD: &'static str = "#!/bin/bash\nif [ \"$1\" == \"uninstall\" ]; then\n    echo \"Uninstalling...\"\n    rm -rf \"";
pub const WRAPPER_MIDDLE: &'static str = "\"\n    rm -f \"$HOME/.local/share/applications/spatialshot.desktop\"\n    rm -f \"$HOME/.local/bin/spatialshot\"\nelse\n    \"";
pub const WRAPPER_TAIL: &'static str = "/spatialshot-orchestrator\" \"$@\"\nfi\n";

/// The desktop entry, whose `Exec` line runs the installed main executable.
pub open spec fn desktop_entry_spec(install_dir: Seq<char>) -> Seq<char> {
    DESKTOP_HEAD@ + install_dir + DESKTOP_TAIL@
}

/// The wrapper script: `uninstall` removes the install directory, the desktop
/// entry and the script itself; any other invocation runs the main executable
/// with all arguments.
pub open spec fn wrapper_script_spec(install_dir: Seq<char>) -> Seq<char> {
    WRAPPER_HEAD@ + install_dir + WRAPPER_MIDDLE@ + install_dir + WRAPPER_TAIL@
}

pub open spec fn finalize_spec(install_dir: Seq<char>, home: Seq<char>) -> Seq<StepSpec> {
    let p = Platform::LinuxX64;
    let icon_dir = join_spec(p, home, ICON_DIR@);
    let apps_dir = join_spec(p, home, APPLICATIONS_DIR@);
    let bin_dir = join_spec(p, home, BIN_DIR@);
    seq![
        StepSpec::CreateDirAll { path: icon_dir },
        StepSpec::WriteIcon { path: join_spec(p, icon_dir, ICON_FILE@) },
        StepSpec::CreateDirAll { path: apps_dir },
        StepSpec::WriteText { path: join_spec(p, apps_dir, DESKTOP_FILE@), contents: desktop_entry_spec(install_dir) },
        StepSpec::CreateDirAll { path: bin_dir },
        StepSpec::WriteText { path: join_spec(p, bin_dir, WRAPPER_FILE@), contents: wrapper_script_spec(install_dir) },
        StepSpec::SetMode { path: join_spec(p, bin_dir, WRAPPER_FILE@), mode: WRAPPER_MODE },
    ]
}

pub fn desktop_entry(install_dir: &str) -> (r: String)
    ensures
        r@ == desktop_entry_spec(install_dir@),
{
    concat3(DESKTOP_HEAD, install_dir, DESKTOP_TAIL)
}

pub fn wrapper_script(install_dir: &str) -> (r: String)
    ensures
        r@ == wrapper_script_spec(install_dir@),
{
    let mut s = concat3(WRAPPER_HEAD, install_dir, WRAPPER_MIDDLE);
    s.append(install_dir);
    s.append(WRAPPER_TAIL);
    s
}

/// The Linux finalization steps for an installation in `install_dir`, where
/// `home` is the user's home directory.
pub fn finalize_install(install_dir: &str, home: &str) -> (r: Vec<FinalizeStep>)
    ensures
        r@.map_values(|s: FinalizeStep| s@) == finalize_spec(install_dir@, home@),
{
    let p = Platform::LinuxX64;
    let icon_dir = join(p, home, ICON_DIR);
    let icon_path = join(p, icon_dir.as_str(), ICON_FILE);
    let apps_dir = join(p, home, APPLICATIONS_DIR);
    let desktop_path = join(p, apps_dir.as_str(), DESKTOP_FILE);
    let bin_dir = join(p, home, BIN_DIR);
    let wrapper_path = join(p, bin_dir.as_str(), WRAPPER_FILE);
    let mut r: Vec<FinalizeStep> = Vec::new();
    r.push(FinalizeStep::CreateDirAll { path: icon_dir });
    r.push(FinalizeStep::WriteIcon { path: icon_path });
    r.push(FinalizeStep::CreateDirAll { path: apps_dir });
    r.push(FinalizeStep::WriteText { path: desktop_path, contents: desktop_entry(install_dir) });
    r.push(FinalizeStep::CreateDirAll { path: bin_dir });
    r.push(FinalizeStep::WriteText { path: wrapper_path.clone(), contents: wrapper_script(install_dir) });
    r.push(FinalizeStep::SetMode { path: wrapper_path, mode: WRAPPER_MODE });
    assert(r@.map_values(|s: FinalizeStep| s@) =~= finalize_spec(install_dir@, home@));
    r
}

} // verus!
