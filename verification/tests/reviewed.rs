use linux_init::modules::tools::{aliases_update, direnv_update, rc_target};
use linux_init::modules::tools::{install_via_github_release, release_plan, ReleasePlan};
use linux_init::modules::tools::ToolsRun;
use linux_init::distro::{package_name, Distro, DistroFamily};
use linux_init::modules::locale::{clear_locale, install_cjk_fonts};
use linux_init::modules::shell::install_oh_my_zsh;
use linux_init::modules::tools::{
    clear_tools, configure_aliases, github_tarball_name, install_github_tarball, resolve_shell_for_config,
};

fn args(c: &linux_init::utils::ShellCommand) -> Vec<&str> {
    c.args.iter().map(|s| s.as_str()).collect()
}

#[test]
fn config_shell_is_zsh_bash_or_nothing() {
    assert_eq!(resolve_shell_for_config("/usr/bin/fish", Some("fish")), None);
    assert_eq!(resolve_shell_for_config("/usr/bin/fish", Some("zsh")), Some("zsh".to_string()));
    assert_eq!(resolve_shell_for_config("/bin/bash", Some("zsh")), Some("bash".to_string()));
    assert_eq!(resolve_shell_for_config("", None), None);
}

#[test]
fn offered_tools_have_packages() {
    for f in [DistroFamily::Arch, DistroFamily::Debian, DistroFamily::Fedora] {
        assert_eq!(package_name(f, "htop"), Some("htop"));
        assert_eq!(package_name(f, "zoxide"), Some("zoxide"));
    }
    assert_eq!(package_name(DistroFamily::Arch, "fzf"), Some("fzf"));
}

#[test]
fn debian_aliases_point_at_renamed_binaries() {
    let deb = configure_aliases(&Distro::Debian("12".into()), &["bat", "fd", "eza"]);
    assert_eq!(deb, vec!["alias la='eza -lah'", "alias bat='batcat'", "alias fd='fdfind'"]);
    let arch = configure_aliases(&Distro::Arch, &["bat", "fd"]);
    assert!(arch.is_empty());
}

#[test]
fn fonts_named_per_family() {
    let plan = install_cjk_fonts(&Distro::Debian("12".into()), false, &[false, true, false]).unwrap();
    assert_eq!(plan.len(), 2);
    assert_eq!(args(&plan[0]), vec!["apt", "install", "-y", "fonts-noto-cjk"]);
    assert_eq!(args(&plan[1]), vec!["apt", "install", "-y", "fonts-wqy-zenhei"]);
    let arch = install_cjk_fonts(&Distro::Arch, false, &[false, true, true]).unwrap();
    assert_eq!(args(&arch[0]).last(), Some(&"noto-fonts-cjk"));
    assert!(install_cjk_fonts(&Distro::Arch, true, &[false, false, false]).unwrap().is_empty());
    let clear = clear_locale(&Distro::Debian("12".into())).unwrap().unwrap();
    assert!(args(&clear).contains(&"fonts-wqy-microhei"));
}

#[test]
fn omz_falls_back_to_gitee() {
    let plan = install_oh_my_zsh(&Distro::Arch, true, true, false, None).unwrap();
    assert!(plan.prepare.is_empty());
    assert_eq!(plan.attempts.len(), 2);
    assert_eq!(
        args(&plan.attempts[0].0).last(),
        Some(&"https://raw.githubusercontent.com/ohmyzsh/ohmyzsh/master/tools/install.sh")
    );
    assert_eq!(plan.attempts[0].1.program, "sh");
    assert_eq!(
        args(&plan.attempts[1].0).last(),
        Some(&"https://gitee.com/mirrors/oh-my-zsh/raw/master/tools/install.sh")
    );
    assert_eq!(plan.attempts[1].1.program, "env");
    assert_eq!(args(&plan.attempts[1].1)[0], "REMOTE=https://gitee.com/mirrors/oh-my-zsh.git");
    let done = install_oh_my_zsh(&Distro::Arch, true, true, true, None).unwrap();
    assert!(done.attempts.is_empty());
}

#[test]
fn clear_tools_accepts_unselected_tail() {
    let mut sel = vec![false; 15];
    sel[3] = true;
    let c = clear_tools(&Distro::Arch, &sel).unwrap().unwrap();
    assert_eq!(args(&c), vec!["pacman", "-R", "--noconfirm", "htop"]);
    assert!(clear_tools(&Distro::Arch, &[false, false]).unwrap().is_none());
}

#[test]
fn eza_archive_takes_any_tag() {
    assert_eq!(
        github_tarball_name("eza-community", "eza", "", Some("aarch64")),
        Ok("eza_aarch64-unknown-linux-gnu.tar.gz".to_string())
    );
    assert_eq!(github_tarball_name("x", "y", "", Some("x86_64")), Err("未知的 GitHub 仓库: x/y".to_string()));
    assert!(install_github_tarball("dalance", "procs", "procs", "", None).is_err());
}

#[test]
fn every_selected_tool_is_attempted() {
    let selected = vec!["git".to_string(), "eza".to_string(), "fd".to_string()];
    let mut run = ToolsRun::new();
    let mut tried = Vec::new();
    while let Some(t) = run.next_tool(&selected) {
        let result = if t == "git" { Ok(()) } else { Err(format!("no {}", t)) };
        tried.push(t);
        run = run.record(&selected, result);
    }
    assert_eq!(tried, selected);
    assert_eq!(run.finish(&selected), Err("以下工具安装失败:\neza: no eza\nfd: no fd".to_string()));
    let none: Vec<String> = Vec::new();
    let empty = ToolsRun::new();
    assert_eq!(empty.next_tool(&none), None);
    assert_eq!(empty.finish(&none), Ok(()));
}

#[test]
fn release_plan_checks_answer_and_tag() {
    let duf = install_via_github_release("duf").unwrap();
    assert_eq!(release_plan(&duf, None, Some("x86_64")).unwrap_err(), "获取 muesli/duf 最新版本信息失败");
    assert_eq!(release_plan(&duf, Some(""), Some("x86_64")).unwrap_err(), "获取 muesli/duf 最新版本信息失败");
    let api = "https://api.github.com/repos/muesli/duf/releases/latest";
    assert_eq!(
        release_plan(&duf, Some("  \"tag_name\": \"\"\n"), None).unwrap_err(),
        format!("无法解析 {} 的 tag_name", api)
    );
    match release_plan(&duf, Some("  \"tag_name\": \"v0.8.1\"\n"), None).unwrap() {
        ReleasePlan::Deb(p) => assert_eq!(p.file, "/tmp/linux-init-duf.deb"),
        other => panic!("unexpected {:?}", other),
    }
    let eza = install_via_github_release("eza").unwrap();
    match release_plan(&eza, Some("  \"tag_name\": \"\"\n"), Some("x86_64")).unwrap() {
        ReleasePlan::Archive(p) => assert!(p.url.ends_with("eza_x86_64-unknown-linux-gnu.tar.gz")),
        other => panic!("unexpected {:?}", other),
    }
}

#[test]
fn direnv_and_aliases_go_to_the_resolved_file_once() {
    assert_eq!(rc_target("/home/u", "/bin/zsh", None), ("/home/u/.zshrc".to_string(), "zsh"));
    assert_eq!(rc_target("/home/u", "/usr/bin/fish", Some("fish")), ("/home/u/.bashrc".to_string(), "bash"));
    assert_eq!(direnv_update(false, Some("x\n"), "bash"), None);
    assert_eq!(direnv_update(true, None, "bash"), None);
    let once = direnv_update(true, Some("x\n"), "bash").unwrap();
    assert!(once.starts_with("x\n"));
    assert!(once.contains("eval \"$(direnv hook bash)\""));
    assert_eq!(direnv_update(true, Some(&once), "bash"), None);
    let a = aliases_update(&["alias la='eza -lah'"], Some(""), "zsh").unwrap();
    assert!(a.contains("alias la='eza -lah'"));
    assert_eq!(aliases_update(&["alias la='eza -lah'"], Some(&a), "zsh"), None);
    assert_eq!(aliases_update(&[], Some(""), "zsh"), None);
}
