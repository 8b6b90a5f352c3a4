use spatialshot_installer::downloader::{get_artifact_url, RELEASES_URL};
use spatialshot_installer::error::InstallError;
use spatialshot_installer::platform::{Arch, Os, Platform};

#[test]
fn engine_url_on_linux_x64() {
    let url = get_artifact_url("engine", Os::Linux, Arch::X64).unwrap();
    assert_eq!(url, format!("{}/engine-linux-x64.zip", RELEASES_URL));
    assert_eq!(
        url,
        "https://github.com/a7mddra/spatialshot/releases/latest/download/engine-linux-x64.zip"
    );
}

#[test]
fn urls_for_every_supported_pair() {
    assert_eq!(
        get_artifact_url("kernel", Os::Windows, Arch::X64).unwrap(),
        format!("{}/kernel-win-x64.zip", RELEASES_URL)
    );
    assert_eq!(
        get_artifact_url("app", Os::MacOs, Arch::Arm64).unwrap(),
        format!("{}/app-mac-arm64.zip", RELEASES_URL)
    );
    assert_eq!(
        get_artifact_url("app", Os::MacOs, Arch::X64).unwrap(),
        format!("{}/app-mac-x64.zip", RELEASES_URL)
    );
}

#[test]
fn unsupported_pairs_are_refused() {
    let pairs = [
        (Os::Other, Arch::X64),
        (Os::Other, Arch::Arm64),
        (Os::Linux, Arch::Arm64),
        (Os::Windows, Arch::Arm64),
        (Os::MacOs, Arch::Other),
        (Os::Linux, Arch::Other),
    ];
    for (os, arch) in pairs {
        let r = get_artifact_url("engine", os, arch);
        assert_eq!(r, Err(InstallError::UnsupportedPlatform));
        assert_eq!(Platform::resolve(os, arch), Err(InstallError::UnsupportedPlatform));
    }
}

#[test]
fn resolve_selects_each_platform() {
    assert_eq!(Platform::resolve(Os::Windows, Arch::X64), Ok(Platform::WindowsX64));
    assert_eq!(Platform::resolve(Os::Linux, Arch::X64), Ok(Platform::LinuxX64));
    assert_eq!(Platform::resolve(Os::MacOs, Arch::Arm64), Ok(Platform::MacArm64));
    assert_eq!(Platform::resolve(Os::MacOs, Arch::X64), Ok(Platform::MacX64));
}

#[test]
fn platform_url_and_separator() {
    assert_eq!(
        Platform::LinuxX64.artifact_url("kernel"),
        format!("{}/kernel-linux-x64.zip", RELEASES_URL)
    );
    assert_eq!(Platform::WindowsX64.separator(), "\\");
    assert_eq!(Platform::MacX64.separator(), "/");
    assert_eq!(Platform::MacArm64.url_suffix(), "mac-arm64.zip");
}

#[test]
fn urls_never_hold_the_unknown_sentinel() {
    let pairs = [
        (Os::Windows, Arch::X64),
        (Os::Linux, Arch::X64),
        (Os::MacOs, Arch::Arm64),
        (Os::MacOs, Arch::X64),
        (Os::Other, Arch::Other),
        (Os::Linux, Arch::Arm64),
    ];
    for (os, arch) in pairs {
        for c in ["kernel", "engine", "spatialshot"] {
            if let Ok(url) = get_artifact_url(c, os, arch) {
                assert!(!url.contains("unknown"));
            }
        }
    }
}
