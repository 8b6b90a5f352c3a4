use spatialshot_installer::error::InstallError;
use spatialshot_installer::platform::{linux, macos, win32, FinalizeStep, Platform};

fn s(x: &str) -> String {
    x.to_string()
}

#[test]
fn linux_steps() {
    let steps = linux::finalize_install("/home/u/.local/share/spatialshot", "/home/u");
    let desktop = "[Desktop Entry]\nVersion=1.0\nType=Application\nName=Spatialshot\nExec=/home/u/.local/share/spatialshot/spatialshot-orchestrator\nIcon=spatialshot\nTerminal=false\nCategories=Utility;\n";
    let wrapper = "#!/bin/bash\nif [ \"$1\" == \"uninstall\" ]; then\n    echo \"Uninstalling...\"\n    rm -rf \"/home/u/.local/share/spatialshot\"\n    rm -f \"$HOME/.local/share/applications/spatialshot.desktop\"\n    rm -f \"$HOME/.local/bin/spatialshot\"\nelse\n    \"/home/u/.local/share/spatialshot/spatialshot-orchestrator\" \"$@\"\nfi\n";
    assert_eq!(
        steps,
        vec![
            FinalizeStep::CreateDirAll { path: s("/home/u/.local/share/icons/hicolor/512x512/apps") },
            FinalizeStep::WriteIcon { path: s("/home/u/.local/share/icons/hicolor/512x512/apps/spatialshot.png") },
            FinalizeStep::CreateDirAll { path: s("/home/u/.local/share/applications") },
            FinalizeStep::WriteText {
                path: s("/home/u/.local/share/applications/spatialshot.desktop"),
                contents: s(desktop),
            },
            FinalizeStep::CreateDirAll { path: s("/home/u/.local/bin") },
            FinalizeStep::WriteText { path: s("/home/u/.local/bin/spatialshot"), contents: s(wrapper) },
            FinalizeStep::SetMode { path: s("/home/u/.local/bin/spatialshot"), mode: 0o755 },
        ]
    );
    assert_eq!(linux::desktop_entry("/home/u/.local/share/spatialshot"), desktop);
    assert_eq!(linux::wrapper_script("/home/u/.local/share/spatialshot"), wrapper);
}

#[test]
fn windows_steps() {
    let dir = "C:\\Users\\a\\AppData\\Local\\Programs\\Spatialshot";
    let key = "Software\\Microsoft\\Windows\\CurrentVersion\\Uninstall\\Spatialshot";
    let cmd = "\"C:\\Users\\a\\AppData\\Local\\Programs\\Spatialshot\\spatialshot-orchestrator.exe\" --uninstall";
    assert_eq!(win32::uninstall_command(dir), cmd);
    assert_eq!(
        win32::finalize_install(dir),
        vec![
            FinalizeStep::SetRegistryValue { key: s(key), name: s("DisplayName"), value: s("Spatialshot") },
            FinalizeStep::SetRegistryValue { key: s(key), name: s("UninstallString"), value: s(cmd) },
            FinalizeStep::SetRegistryValue { key: s(key), name: s("Publisher"), value: s("a7mddra") },
        ]
    );
}

#[test]
fn macos_has_no_steps() {
    assert!(macos::finalize_install("/Applications/Spatialshot.app").is_empty());
    assert!(Platform::MacArm64.finalize_steps("/Applications/Spatialshot.app", "/Users/a").is_empty());
}

#[test]
fn platform_dispatch() {
    assert_eq!(
        Platform::LinuxX64.finalize_steps("/d", "/h"),
        linux::finalize_install("/d", "/h")
    );
    assert_eq!(Platform::WindowsX64.finalize_steps("C:\\d", "C:\\h"), win32::finalize_install("C:\\d"));
}

#[test]
fn linux_needs_a_home_directory() {
    assert_eq!(
        Platform::LinuxX64.finalize_for_home("/d", None),
        Err(InstallError::HomeDirectoryUnknown)
    );
    assert_eq!(
        Platform::LinuxX64.finalize_for_home("/d", Some("/h".to_string())),
        Ok(linux::finalize_install("/d", "/h"))
    );
    assert_eq!(Platform::MacX64.finalize_for_home("/d", None), Ok(vec![]));
    assert_eq!(
        Platform::WindowsX64.finalize_for_home("C:\\d", None),
        Ok(win32::finalize_install("C:\\d"))
    );
}

#[test]
fn windows_install_dir_with_trailing_separator() {
    assert_eq!(
        win32::uninstall_command("C:\\d\\"),
        "\"C:\\d\\spatialshot-orchestrator.exe\" --uninstall"
    );
}

#[test]
fn linux_home_with_trailing_separator() {
    assert_eq!(linux::finalize_install("/d", "/h/"), linux::finalize_install("/d", "/h"));
}
