use linux_init::app::{read_current_plugins, read_current_theme};
use linux_init::distro::Distro;
use linux_init::modules::docker::{install_compose, install_docker, is_user_in_docker_group};
use linux_init::modules::locale::configure_locale_debian;
use linux_init::modules::nvm::{ensure_shell_integration, get_real_home, home_from_passwd};
use linux_init::modules::shell::{
    get_bundled_theme_list, install_third_party_plugin, omz_download_error, set_default_shell,
    set_plugins, set_theme,
};
use linux_init::modules::sources::{
    docker_daemon_json, pacman_mirrorlist, DaemonUpdate, recommend_index, replace_apt_mirror, switch_docker_mirror,
    switch_npm_registry, switch_pacman_mirror,
};
use linux_init::modules::ssh_server::{disable_root_login, is_root_login_disabled};
use linux_init::modules::tools::{
    append_aliases_to_file, append_direnv_hook_to_file, fetch_latest_tag, find_binary,
    github_deb_name, github_tarball_name, install_github_tarball, get_tool_status, install_single_tool, install_tools,
    ToolEvent, ToolStep,
};
use linux_init::modules::vim::{get_installed_plugin_count, install_vundle};

fn args(c: &linux_init::utils::ShellCommand) -> Vec<&str> {
    c.args.iter().map(|s| s.as_str()).collect()
}

#[test]
fn theme_written_then_read_back() {
    let zshrc = "export ZSH=\"$HOME/.oh-my-zsh\"\nZSH_THEME=\"robbyrussell\"\nsource $ZSH/oh-my-zsh.sh\n";
    let out = set_theme(zshrc, "agnoster");
    assert!(out.contains("ZSH_THEME=\"agnoster\""));
    assert!(!out.contains("robbyrussell"));
    assert_eq!(read_current_theme(Some(out.as_str())), "agnoster");
}

#[test]
fn theme_added_when_missing() {
    let out = set_theme("export PATH=$PATH\n", "ys");
    assert_eq!(read_current_theme(Some(out.as_str())), "ys");
    assert_eq!(read_current_theme(None), "robbyrussell");
}

#[test]
fn plugins_written_then_read_back() {
    let list = vec!["git".to_string(), "docker".to_string(), "z".to_string()];
    let out = set_plugins("plugins=(git)\n", &list);
    assert!(out.contains("plugins=(git docker z)"));
    assert_eq!(read_current_plugins(Some(out.as_str())), list);
    assert_eq!(read_current_plugins(None), vec!["git".to_string()]);
}

#[test]
fn root_login_disabled_after_edit() {
    let cfg = "Port 22\n#PermitRootLogin prohibit-password\n";
    assert!(!is_root_login_disabled(Some(cfg)));
    let out = disable_root_login(cfg);
    assert_eq!(out, "Port 22\nPermitRootLogin no\n");
    assert!(is_root_login_disabled(Some(out.as_str())));
    let added = disable_root_login("Port 22");
    assert_eq!(added, "Port 22\n\nPermitRootLogin no\n");
    assert!(is_root_login_disabled(Some(added.as_str())));
}

#[test]
fn locale_enabled_in_debian_list() {
    let out = configure_locale_debian("#zh_CN.UTF-8 UTF-8\nen_US.UTF-8 UTF-8\n");
    assert_eq!(out, "zh_CN.UTF-8 UTF-8\nen_US.UTF-8 UTF-8\n");
    let appended = configure_locale_debian("# zh_CN.UTF-8 UTF-8\n");
    assert_eq!(appended, "# zh_CN.UTF-8 UTF-8\nzh_CN.UTF-8 UTF-8\n");
}

#[test]
fn nvm_snippet_added_once() {
    let rc = "alias ll='ls -l'\n";
    let add = ensure_shell_integration(rc, "/home/u/.nvm/nvm.sh").expect("added");
    let once = format!("{}{}", rc, add);
    assert!(add.starts_with('\n'));
    assert!(once.contains("export NVM_DIR=\"$HOME/.nvm\""));
    assert!(once.contains("[ -s \"/home/u/.nvm/nvm.sh\" ] && \\. \"/home/u/.nvm/nvm.sh\""));
    assert_eq!(ensure_shell_integration(once.as_str(), "/home/u/.nvm/nvm.sh"), None);
}

#[test]
fn real_home_from_getent() {
    assert_eq!(home_from_passwd("alice:x:1000:1000:Alice:/home/alice:/bin/zsh\n"), Some("/home/alice".to_string()));
    assert_eq!(get_real_home(Some("bad line"), Some("/root")), Ok("/root".to_string()));
    assert_eq!(get_real_home(None, None), Err("无法获取 home 目录".to_string()));
}

#[test]
fn aliases_and_direnv_hook_added_once() {
    let content = "# rc\n";
    let once = append_aliases_to_file(content, &["alias cat='bat'"], "zsh").expect("added");
    assert!(once.contains("alias cat='bat'"));
    assert_eq!(append_aliases_to_file(once.as_str(), &["alias cat='bat'"], "zsh"), None);
    let hooked = append_direnv_hook_to_file(content, "bash").expect("added");
    assert!(hooked.contains("direnv hook bash"));
    assert_eq!(append_direnv_hook_to_file(hooked.as_str(), "bash"), None);
}

#[test]
fn apt_mirror_replaced_keeping_options() {
    let src = "deb [arch=amd64] http://archive.ubuntu.com/ubuntu jammy main\ndeb-src http://archive.ubuntu.com/ubuntu jammy main\n# comment";
    let out = replace_apt_mirror(src, "https://mirrors.ustc.edu.cn/ubuntu");
    let plain = replace_apt_mirror("deb http://archive.ubuntu.com/ubuntu jammy main", "http://m.cn/ubuntu");
    assert_eq!(plain, "deb https://m.cn/ubuntu jammy main");
    assert_eq!(
        out,
        "deb [arch=amd64] https://mirrors.ustc.edu.cn/ubuntu jammy main\ndeb-src http://archive.ubuntu.com/ubuntu jammy main\n# comment"
    );
}

#[test]
fn pacman_mirror_put_first() {
    let out = pacman_mirrorlist("## linux-init mirror\nServer = old\nServer = b", "https://m/$repo");
    assert_eq!(out, "## linux-init mirror\nServer = https://m/$repo\n\nServer = old\nServer = b");
}

#[test]
fn fastest_mirror_recommended() {
    assert_eq!(recommend_index(&[None, Some(30), Some(12), Some(12)]), Some(2));
    assert_eq!(recommend_index(&[None, None]), None);
    assert_eq!(recommend_index(&[]), None);
}

#[test]
fn docker_mirror_set_and_removed() {
    let set = switch_docker_mirror(Some("{\"debug\": true}"), "https://mirror.ccs.tencentyun.com");
    assert_eq!(set.get("debug"), Some(&serde_json::Value::Bool(true)));
    assert_eq!(
        set.get("registry-mirrors"),
        Some(&serde_json::Value::Array(vec![serde_json::Value::String(
            "https://mirror.ccs.tencentyun.com".to_string()
        )]))
    );
    let removed = switch_docker_mirror(Some("{\"registry-mirrors\": [\"x\"], \"a\": 1}"), "");
    assert!(removed.get("registry-mirrors").is_none());
    assert!(removed.get("a").is_some());
    let fresh = switch_docker_mirror(None, "");
    assert!(fresh.is_empty());
    let (config, text) = match docker_daemon_json(Some("{\"debug\": true, \"registry-mirrors\": [\"old\"]}"), "https://m") {
        DaemonUpdate::Write(m, t) => (m, t),
        other => panic!("expected a write, got {:?}", other),
    };
    assert_eq!(config.len(), 2);
    assert!(matches!(docker_daemon_json(Some("[1]"), ""), DaemonUpdate::Keep));
    assert!(matches!(docker_daemon_json(Some("null"), ""), DaemonUpdate::Keep));
    assert!(matches!(docker_daemon_json(Some("[1]"), "https://m"), DaemonUpdate::Refused));
    match docker_daemon_json(Some("null"), "https://m") {
        DaemonUpdate::Write(m, _) => assert_eq!(m.len(), 1),
        other => panic!("expected a write, got {:?}", other),
    }
    match docker_daemon_json(Some("not json"), "") {
        DaemonUpdate::Write(m, t) => {
            assert!(m.is_empty());
            assert_eq!(t, "{}");
        }
        other => panic!("expected a write, got {:?}", other),
    }
    let back: serde_json::Value = serde_json::from_str(&text).unwrap();
    assert_eq!(back["debug"], serde_json::Value::Bool(true));
    assert_eq!(back["registry-mirrors"], serde_json::Value::Array(vec![serde_json::Value::String("https://m".to_string())]));
}

#[test]
fn npm_registry_needs_address() {
    assert_eq!(switch_npm_registry("", None).unwrap_err(), "npm registry URL 不能为空");
    let c = switch_npm_registry("https://registry.npmmirror.com", Some("bob")).unwrap();
    assert_eq!(c.program, "sudo");
    assert_eq!(args(&c), vec!["-u", "bob", "npm", "config", "set", "registry", "https://registry.npmmirror.com"]);
}

#[test]
fn pacman_switch_plan() {
    let p = switch_pacman_mirror("", false);
    assert!(p.backup.is_some());
    assert!(p.rewrite.is_none());
    let restore = p.restore.expect("restore");
    assert_eq!(args(&restore), vec!["cp", "/etc/pacman.d/mirrorlist.linux-init.bak", "/etc/pacman.d/mirrorlist"]);
    let q = switch_pacman_mirror("https://m", true);
    assert!(q.backup.is_none());
    assert_eq!(q.rewrite.expect("rewrite").0, "/tmp/linux-init-mirrorlist");
}

#[test]
fn latest_tag_parsed_from_api_answer() {
    let json = "{\n  \"url\": \"x\",\n  \"tag_name\": \"v0.10.1\",\n  \"name\": \"y\"\n}";
    // Quotes are trimmed before the trailing comma, so a quote stays behind it.
    assert_eq!(fetch_latest_tag(json, "https://api"), Ok("v0.10.1\"".to_string()));
    assert_eq!(fetch_latest_tag("  \"tag_name\": \"v2\"\n", "https://api"), Ok("v2".to_string()));
    assert_eq!(fetch_latest_tag("{}", "https://api"), Err("无法解析 https://api 的 tag_name".to_string()));
}

#[test]
fn release_file_names() {
    assert_eq!(github_deb_name("duf", "v0.8.1"), "duf_0.8.1_linux_amd64.deb");
    assert_eq!(
        github_tarball_name("dalance", "procs", "v0.14.5", Some("x86_64")),
        Ok("procs-v0.14.5-x86_64-linux.zip".to_string())
    );
    assert_eq!(github_tarball_name("eza-community", "eza", "v0.18.0", None), Err("不支持的 CPU 架构".to_string()));
    assert_eq!(
        github_tarball_name("a", "b", "v1", Some("aarch64")),
        Err("未知的 GitHub 仓库: a/b".to_string())
    );
}

#[test]
fn tarball_plan_unpacks_by_extension() {
    let zip = install_github_tarball("dalance", "procs", "procs", "v0.14.5", Some("x86_64")).unwrap();
    assert_eq!(zip.extract.program, "unzip");
    assert_eq!(zip.archive, "/tmp/linux-init-procs.archive");
    let tar = install_github_tarball("eza-community", "eza", "eza", "v0.18.0", Some("x86_64")).unwrap();
    assert_eq!(tar.extract.program, "tar");
    assert_eq!(
        tar.url,
        "https://github.com/eza-community/eza/releases/download/v0.18.0/eza_x86_64-unknown-linux-gnu.tar.gz"
    );
}

#[test]
fn binary_found_by_file_name() {
    let files = vec![
        ("/tmp/x/README".to_string(), "README".to_string()),
        ("/tmp/x/bin/eza".to_string(), "eza".to_string()),
    ];
    assert_eq!(find_binary(&files, "eza"), Ok("/tmp/x/bin/eza".to_string()));
    assert_eq!(find_binary(&files, "procs"), Err("未在解压目录中找到二进制: procs".to_string()));
}

#[test]
fn tool_failures_collected() {
    assert_eq!(install_tools(&[]), Ok(()));
    let e = install_tools(&[("eza".to_string(), "boom".to_string()), ("fd".to_string(), "x".to_string())]).unwrap_err();
    assert_eq!(e, "以下工具安装失败:\neza: boom\nfd: x");
}

#[test]
fn omz_download_errors() {
    assert_eq!(omz_download_error(Some(28)), "下载超时（60秒），请检查网络连接");
    assert_eq!(omz_download_error(Some(7)), "Oh My Zsh 安装脚本下载失败 (exit code: 7)");
    assert_eq!(omz_download_error(None), "Oh My Zsh 安装脚本下载失败 (exit code: -1)");
}

#[test]
fn third_party_plugin_clone() {
    let arch = Distro::Arch;
    let (prep, clone) = install_third_party_plugin(&arch, true, "/home/u", "zsh-autosuggestions", false, None).unwrap();
    assert!(prep.is_empty());
    let c = clone.expect("clone");
    assert_eq!(
        args(&c),
        vec!["clone", "https://github.com/zsh-users/zsh-autosuggestions.git", "/home/u/.oh-my-zsh/custom/plugins/zsh-autosuggestions"]
    );
    assert_eq!(c.on_failure, "插件 zsh-autosuggestions 下载失败");
    let (_, none) = install_third_party_plugin(&arch, true, "/home/u", "git", false, None).unwrap();
    assert!(none.is_none());
}

#[test]
fn default_shell_needs_zsh_path() {
    assert_eq!(set_default_shell("  \n").unwrap_err(), "未找到 zsh");
    let c = set_default_shell("/usr/bin/zsh\n").unwrap();
    assert_eq!(c.program, "chsh");
    assert_eq!(args(&c), vec!["-s", "/usr/bin/zsh"]);
}

#[test]
fn bundled_themes_sorted() {
    let files = vec![
        "ys.zsh-theme".to_string(),
        "README.md".to_string(),
        "agnoster.zsh-theme".to_string(),
        ".zsh-theme".to_string(),
        "bira.zsh-theme".to_string(),
    ];
    let list = get_bundled_theme_list(&files);
    let names: Vec<&str> = list.iter().map(|p| p.0.as_str()).collect();
    assert_eq!(names, vec!["agnoster", "bira", "ys"]);
    assert!(list.iter().all(|p| p.1.is_empty()));
}

#[test]
fn vundle_tries_sources_in_order() {
    let (check, first) = install_vundle("/h", false, 0, None).unwrap().unwrap();
    assert_eq!(check.program, "curl");
    assert_eq!(args(&check).last(), Some(&"https://github.com/VundleVim/Vundle.vim.git"));
    assert_eq!(args(&first), vec!["clone", "https://github.com/VundleVim/Vundle.vim.git", "/h/.vim/bundle/Vundle.vim"]);
    let (_, second) = install_vundle("/h", false, 1, Some("u")).unwrap().unwrap();
    assert_eq!(second.program, "sudo");
    assert_eq!(args(&second)[4], "https://gitee.com/mirrors/Vundle.vim.git");
    assert_eq!(install_vundle("/h", false, 2, None).unwrap_err(), "Vundle 安装失败，所有下载源均失败");
    assert!(matches!(install_vundle("/h", true, 0, None), Ok(None)));
    let entries = vec!["Vundle.vim".to_string(), "nerdtree".to_string(), "tagbar".to_string()];
    assert_eq!(get_installed_plugin_count(&entries), 2);
}

#[test]
fn docker_plans_by_family() {
    let arch = install_docker(&Distro::Arch, true).unwrap();
    assert_eq!(arch.len(), 2);
    assert_eq!(args(&arch[1]), vec!["systemctl", "enable", "--now", "docker"]);
    let deb = install_docker(&Distro::Debian("12".into()), false).unwrap();
    assert_eq!(deb.len(), 4);
    assert_eq!(deb[1].program, "curl");
    assert_eq!(install_docker(&Distro::Unknown("x".into()), true).unwrap_err(), "不支持的发行版");
    assert!(install_compose(&Distro::Debian("12".into()), true).unwrap().is_empty());
    assert!(is_user_in_docker_group(Some("alice wheel docker")));
    assert!(!is_user_in_docker_group(Some("alice wheel")));
    assert!(!is_user_in_docker_group(None));
}

#[test]
fn installed_tool_is_left_alone() {
    match install_single_tool(&Distro::Arch, "git", ToolEvent::Start) {
        ToolStep::CheckInstalled(c) => {
            assert_eq!(c.program, "pacman");
            assert_eq!(args(&c), vec!["-Qi", "git"]);
        }
        other => panic!("unexpected {:?}", other),
    }
    assert!(matches!(install_single_tool(&Distro::Arch, "git", ToolEvent::Checked(true)), ToolStep::Done));
    match install_single_tool(&Distro::Arch, "git", ToolEvent::Checked(false)) {
        ToolStep::Install(c) => assert_eq!(args(&c), vec!["pacman", "-S", "--noconfirm", "--needed", "git"]),
        other => panic!("unexpected {:?}", other),
    }
    match install_single_tool(&Distro::Arch, "git", ToolEvent::Installed(false)) {
        ToolStep::Failed(e) => assert_eq!(e, "git 安装失败（包管理器和兜底方案均不可用）"),
        other => panic!("unexpected {:?}", other),
    }
    match install_single_tool(&Distro::Debian("12".into()), "duf", ToolEvent::Installed(false)) {
        ToolStep::Snap(c) => {
            assert_eq!(c.program, "sudo");
            assert_eq!(args(&c), vec!["snap", "install", "duf"]);
        }
        other => panic!("unexpected {:?}", other),
    }
    match install_single_tool(&Distro::Debian("12".into()), "duf", ToolEvent::SnapInstalled(false)) {
        ToolStep::Github(g) => assert_eq!((g.owner, g.repo, g.bin), ("muesli", "duf", "duf")),
        other => panic!("unexpected {:?}", other),
    }
    assert!(matches!(
        install_single_tool(&Distro::Debian("12".into()), "duf", ToolEvent::SnapInstalled(true)),
        ToolStep::Done
    ));
    let probes = get_tool_status(&Distro::Debian("12".into()), "eza");
    let programs: Vec<&str> = probes.iter().map(|c| c.program.as_str()).collect();
    assert_eq!(programs, vec!["dpkg", "snap", "test"]);
    assert_eq!(args(&probes[2]), vec!["-x", "/usr/local/bin/eza"]);
}
