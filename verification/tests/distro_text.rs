use linux_init::distro::detect::{detect_distro, is_wsl, parse_os_release};
use linux_init::distro::{detect, install_packages, package_name, refresh_cache, Distro, DistroFamily};
use linux_init::text::{u64_text, i64_text};

fn args(c: &linux_init::utils::ShellCommand) -> Vec<&str> {
    c.args.iter().map(|s| s.as_str()).collect()
}

#[test]
fn detects_ubuntu_with_version() {
    let d = detect_distro(Some("NAME=\"Ubuntu\"\nID=ubuntu\nVERSION_ID=\"22.04\"\n"));
    match d {
        Distro::Ubuntu(v) => assert_eq!(v, "22.04"),
        _ => panic!("expected Ubuntu"),
    }
}

#[test]
fn detects_arch_like_and_unknown() {
    assert!(matches!(detect_distro(Some("ID=endeavouros\nID_LIKE=arch\n")), Distro::Arch));
    match detect_distro(Some("ID=gentoo\n")) {
        Distro::Unknown(s) => assert_eq!(s, "gentoo"),
        _ => panic!("expected Unknown"),
    }
    match detect_distro(None) {
        Distro::Unknown(s) => assert_eq!(s, "无法读取 /etc/os-release"),
        _ => panic!("expected Unknown"),
    }
}

#[test]
fn fedora_ostree_variant_is_refused() {
    match detect(Some("ID=fedora\nVARIANT_ID=silverblue\nVERSION_ID=40\n")) {
        Distro::Unknown(s) => assert_eq!(s, "Fedora silverblue（ostree 变体不支持）"),
        _ => panic!("expected Unknown"),
    }
    assert!(matches!(detect(Some("ID=fedora\nVERSION_ID=40\n")), Distro::Fedora(_)));
}

#[test]
fn os_release_fields_drop_quotes() {
    let f = parse_os_release("ID='debian'\nnoequals\nVERSION_ID=\"12\"");
    assert_eq!(f.len(), 2);
    assert_eq!(f[0], ("ID".to_string(), "debian".to_string()));
    assert_eq!(f[1], ("VERSION_ID".to_string(), "12".to_string()));
}

#[test]
fn display_names() {
    assert_eq!(Distro::Debian("12".into()).display_name(), "Debian 12");
    assert_eq!(Distro::Unknown("x".into()).display_name(), "Unknown (x)");
    assert_eq!(Distro::Arch.display_name(), "Arch Linux");
}

#[test]
fn wsl_detection_uses_lowercase() {
    assert!(is_wsl(false, Some("Linux version 5.15 (Microsoft@Microsoft.com)")));
    assert!(is_wsl(false, Some("4.4.0-19041-WSL")));
    assert!(!is_wsl(false, Some("Linux version 6.1 generic")));
    assert!(is_wsl(true, None));
    assert!(!is_wsl(false, None));
}

#[test]
fn install_commands_by_family() {
    let c = install_packages(&Distro::Arch, &["zsh", "git"]).unwrap().unwrap();
    assert_eq!(c.program, "sudo");
    assert_eq!(args(&c), vec!["pacman", "-S", "--noconfirm", "--needed", "zsh", "git"]);
    let e = install_packages(&Distro::Unknown("x".into()), &["zsh"]).unwrap_err();
    assert_eq!(e, "不支持的发行版: Unknown (x)");
    let r = refresh_cache(&Distro::Debian("12".into())).unwrap().unwrap();
    assert_eq!(args(&r), vec!["apt", "update"]);
}

#[test]
fn package_names_by_family() {
    assert_eq!(package_name(DistroFamily::Debian, "fd"), Some("fd-find"));
    assert_eq!(package_name(DistroFamily::Arch, "fd"), Some("fd"));
    assert_eq!(package_name(DistroFamily::Unknown, "fd"), None);
}

#[test]
fn decimal_texts() {
    assert_eq!(u64_text(0), "0");
    assert_eq!(u64_text(4096), "4096");
    assert_eq!(i64_text(-1), "-1");
    assert_eq!(i64_text(i64::MIN), "-9223372036854775808");
}
