use linux_init::app::{App, Detected, Page, StartupProbe};
use linux_init::config::{CompletedModules, Config};
use linux_init::distro::Distro;
use linux_init::ui::{handle_event, toggle_plugin, Action, Key};
use linux_init::view::{line_tone, scroll_offset, shell_rows, source_rows, status_bar_keys, Mark, Tone};

fn probe(zsh: bool, omz: bool, zshrc: Option<&str>) -> StartupProbe {
    StartupProbe {
        zsh_installed: zsh,
        omz_installed: omz,
        docker_installed: false,
        compose_installed: false,
        ssh_key_exists: false,
        shell_env: "/bin/bash".to_string(),
        zshrc: zshrc.map(|s| s.to_string()),
        config: Config::new(),
    }
}

fn detected() -> Detected {
    Detected {
        zsh_installed: true,
        omz_installed: false,
        docker_installed: true,
        compose_installed: false,
        docker_user_configured: false,
        docker_service_running: false,
        ed25519_exists: false,
        rsa_exists: true,
        sshd_installed: false,
        sshd_root_disabled: false,
        sshd_running: false,
        locale_configured: false,
        fcitx_installed: false,
        fonts_installed: false,
        vim_installed: false,
        vundle_installed: false,
        nvm_installed: false,
        node_installed: false,
        shell_env: "/usr/bin/zsh".to_string(),
    }
}

fn press(app: App, key: Key) -> (App, Option<Action>) {
    handle_event(app, &key)
}

#[test]
fn new_wizard_reads_zshrc() {
    let app = App::new(Distro::Arch, probe(true, true, Some("ZSH_THEME=\"ys\"\nplugins=(git z)\n")));
    assert!(app.running);
    assert!(matches!(app.page, Page::MainMenu));
    assert_eq!(app.selected_theme, "ys");
    assert_eq!(app.selected_plugins, vec!["git".to_string(), "z".to_string()]);
    assert_eq!(app.selected_tools.len(), 11);
    assert!(!app.default_shell_set);
    let fresh = App::new(Distro::Arch, probe(false, false, None));
    assert_eq!(fresh.selected_theme, "robbyrussell");
    assert_eq!(fresh.selected_plugins, vec!["git".to_string()]);
}

#[test]
fn menu_navigation_stays_in_range() {
    let mut app = App::new(Distro::Arch, probe(false, false, None));
    for _ in 0..3 {
        app = press(app, Key::Up).0;
    }
    assert_eq!(app.menu_index, 0);
    for _ in 0..10 {
        app = press(app, Key::Down).0;
    }
    assert_eq!(app.menu_index, 5);
    let app = press(app, Key::Up).0;
    let (app, action) = press(app, Key::Enter);
    assert!(action.is_none());
    assert!(matches!(app.page, Page::Locale));
    assert_eq!(app.status_msg, "按 Esc 返回主菜单");
}

#[test]
fn q_quits_but_not_on_tool_page() {
    let app = App::new(Distro::Arch, probe(false, false, None));
    let (app, action) = press(app, Key::Char('q'));
    assert!(matches!(action, Some(Action::Quit)));
    assert!(!app.running);
    let app = App::new(Distro::Arch, probe(false, false, None));
    let app = press(press(press(press(app, Key::Down).0, Key::Down).0, Key::Down).0, Key::Enter).0;
    assert!(matches!(app.page, Page::Tools));
    let (app, action) = press(app, Key::Char('q'));
    assert!(action.is_none());
    assert!(app.running);
}

#[test]
fn shell_enter_asks_for_install_then_reports() {
    let app = App::new(Distro::Arch, probe(false, false, None));
    let app = press(app, Key::Enter).0;
    assert!(matches!(app.page, Page::Shell));
    let (app, action) = press(app, Key::Enter);
    assert!(matches!(action, Some(Action::InstallZsh)));
    assert_eq!(app.status_msg, "正在安装 zsh...");
    let app = app.finish(&Action::InstallZsh, Err("boom".to_string()));
    assert_eq!(app.status_msg, "❌ zsh 安装失败: boom");
    assert!(!app.zsh_installed);
    let app = app.finish(&Action::InstallZsh, Ok(String::new()));
    assert_eq!(app.status_msg, "✅ zsh 安装成功");
    assert!(app.zsh_installed);
    let (app, action) = press(press(app, Key::Down).0, Key::Enter);
    assert!(matches!(action, Some(Action::InstallOhMyZsh)));
    assert_eq!(app.status_msg, "正在安装 Oh My Zsh...");
}

#[test]
fn omz_needs_zsh_first() {
    let app = App::new(Distro::Arch, probe(false, false, None));
    let app = press(press(app, Key::Enter).0, Key::Down).0;
    let (app, action) = press(app, Key::Enter);
    assert!(action.is_none());
    assert_eq!(app.status_msg, "❌ 请先安装 zsh");
}

#[test]
fn theme_page_opens_at_current_theme() {
    let app = App::new(Distro::Arch, probe(true, true, Some("ZSH_THEME=\"bira\"\n")));
    assert_eq!(app.shell_menu_count(), 5);
    let app = press(app, Key::Enter).0;
    let app = press(press(app, Key::Down).0, Key::Down).0;
    let app = press(app, Key::Enter).0;
    assert!(matches!(app.page, Page::ShellZshTheme));
    assert_eq!(app.shell_theme_index, 3);
    let (app, action) = press(press(app, Key::Down).0, Key::Enter);
    match action {
        Some(Action::SetTheme(t)) => assert_eq!(t, "clean"),
        _ => panic!("expected SetTheme"),
    }
    assert_eq!(app.selected_theme, "clean");
    assert!(matches!(app.page, Page::Shell));
    let app = app.finish(&Action::SetTheme("clean".to_string()), Ok(String::new()));
    assert_eq!(app.status_msg, "✅ 主题已设置为: clean");
}

#[test]
fn plugin_toggle_twice_restores_selection() {
    let list = vec!["git".to_string(), "z".to_string()];
    let once = toggle_plugin(list.clone(), "docker".to_string());
    assert_eq!(once, vec!["git".to_string(), "z".to_string(), "docker".to_string()]);
    let twice = toggle_plugin(once, "docker".to_string());
    assert_eq!(twice, list);
    assert_eq!(toggle_plugin(list, "git".to_string()), vec!["z".to_string()]);
}

#[test]
fn plugins_written_on_leaving_list() {
    let app = App::new(Distro::Arch, probe(true, true, Some("plugins=(git)\n")));
    let app = press(app, Key::Enter).0;
    let app = press(press(press(app, Key::Down).0, Key::Down).0, Key::Down).0;
    let app = press(app, Key::Enter).0;
    assert!(matches!(app.page, Page::ShellZshPlugins));
    let app = press(press(app, Key::Down).0, Key::Char(' ')).0;
    assert_eq!(app.selected_plugins, vec!["git".to_string(), "zsh-autosuggestions".to_string()]);
    assert_eq!(app.plugin_index, 2);
    let (app, action) = press(app, Key::Esc);
    match &action {
        Some(Action::SetPlugins(p)) => assert_eq!(p.len(), 2),
        _ => panic!("expected SetPlugins"),
    }
    let app = app.finish(action.as_ref().unwrap(), Ok(String::new()));
    assert_eq!(app.status_msg, "✅ 已配置 2 个插件");
}

#[test]
fn tools_selected_and_installed() {
    let app = App::new(Distro::Arch, probe(false, false, None));
    let app = press(press(press(press(app, Key::Down).0, Key::Down).0, Key::Down).0, Key::Enter).0;
    let (app, action) = press(app, Key::Enter);
    assert!(action.is_none());
    assert_eq!(app.status_msg, "请先选择要安装的工具");
    let app = press(app, Key::Char(' ')).0;
    let app = press(press(app, Key::Down).0, Key::Char(' ')).0;
    assert_eq!(app.tool_index, 3);
    let (app, action) = press(app, Key::Enter);
    match &action {
        Some(Action::InstallTools(t)) => assert_eq!(t, &vec!["git".to_string(), "wget".to_string()]),
        _ => panic!("expected InstallTools"),
    }
    assert_eq!(app.status_msg, "正在安装 2 个工具...");
    let app = app.finish(action.as_ref().unwrap(), Ok(String::new()));
    assert_eq!(app.status_msg, "✅ 2 个工具安装成功");
    let all = press(app, Key::Char('a')).0;
    assert!(all.selected_tools.iter().all(|v| *v));
    let none = press(all, Key::Char('a')).0;
    assert!(none.selected_tools.iter().all(|v| !*v));
}

#[test]
fn ssh_keys_and_leaving_clears_key() {
    let app = App::new(Distro::Arch, probe(false, false, None));
    let app = press(press(press(app, Key::Down).0, Key::Down).0, Key::Enter).0;
    assert!(matches!(app.page, Page::Ssh));
    let (app, action) = press(app, Key::Enter);
    assert!(matches!(action, Some(Action::GenerateEd25519)));
    let app = app.finish(&Action::GenerateEd25519, Ok("ssh-ed25519 AAAA u@h".to_string()));
    assert_eq!(app.last_pubkey, "ssh-ed25519 AAAA u@h");
    assert!(app.ssh_key_exists);
    assert_eq!(app.status_msg, "✅ Ed25519 密钥已生成");
    let app = app.finish(&Action::ReadPublicKey, Err("none".to_string()));
    assert_eq!(app.status_msg, "❌ 读取失败: none");
    let app = press(app, Key::Esc).0;
    assert!(app.last_pubkey.is_empty());
    assert!(matches!(app.page, Page::MainMenu));
}

#[test]
fn docker_start_always_offered() {
    let app = App::new(Distro::Arch, probe(false, false, None));
    let app = press(press(app, Key::Down).0, Key::Enter).0;
    let app = press(press(press(app, Key::Down).0, Key::Down).0, Key::Down).0;
    let (app, action) = press(app, Key::Enter);
    assert!(matches!(action, Some(Action::StartDockerService)));
    assert_eq!(app.status_msg, "正在启动 Docker 服务...");
    let app = app.finish(&Action::StartDockerService, Err("no systemd".to_string()));
    assert_eq!(app.status_msg, "❌ no systemd");
}

#[test]
fn refresh_syncs_config_once() {
    let app = App::new(Distro::Arch, probe(false, false, None));
    let (app, changed) = app.refresh_state(detected());
    assert!(changed);
    assert!(app.zsh_installed && app.docker_installed && app.default_shell_set);
    assert!(app.config.completed.zsh_installed);
    assert!(app.config.completed.ssh_key_generated);
    assert!(!app.config.completed.omz_installed);
    let (app, changed_again) = app.refresh_state(detected());
    assert!(!changed_again);
    assert!(app.config.completed.docker_installed);
}

#[test]
fn empty_completion_record() {
    let c = CompletedModules::new();
    assert!(!c.zsh_installed && c.zsh_plugins.is_empty() && c.zsh_theme.is_none());
    assert!(Config::new().language.is_none());
    assert_eq!(Config::config_path("/home/u"), "/home/u/.config/linux-init/config.json");
}

#[test]
fn shell_page_rows_follow_state() {
    let app = App::new(Distro::Arch, probe(true, true, Some("ZSH_THEME=\"ys\"\n")));
    let rows = shell_rows(&app);
    assert_eq!(rows.len(), 5);
    assert_eq!(rows[2].detail, "  当前: ys");
    assert_eq!(rows[3].detail, "  已选 1 个");
    assert!(rows[0].current);
    assert_eq!(rows[0].mark, Mark::Done);
    assert_eq!(rows[4].mark, Mark::Blank);
}

#[test]
fn status_lines_and_hints() {
    assert_eq!(line_tone("✅ done"), Tone::Success);
    assert_eq!(line_tone("❌ failed"), Tone::Error);
    assert_eq!(line_tone("执行: ls"), Tone::Warning);
    assert_eq!(line_tone("plain"), Tone::Plain);
    assert_eq!(scroll_offset(10, 5), 6);
    assert_eq!(scroll_offset(3, 5), 0);
    assert_eq!(scroll_offset(3, 0), 3);
    assert_eq!(status_bar_keys(&Page::MainMenu), "↑↓ 导航  Enter 选择  q 退出");
    assert_eq!(status_bar_keys(&Page::Docker), "↑↓ 导航  Enter 选择  Esc 返回  q 退出");
}

#[test]
fn system_looked_at_again_after_page_work() {
    assert!(Action::Quit.refreshes());
    assert!(Action::InstallDocker.refreshes());
    assert!(Action::InstallTools(vec!["jq".to_string()]).refreshes());
    assert!(Action::InstallFcitx5.refreshes());
    assert!(!Action::InstallZsh.refreshes());
    assert!(!Action::SetTheme("ys".to_string()).refreshes());
    assert!(!Action::GenerateRsa.refreshes());
}

#[test]
fn vi_keys_and_digits_move_the_cursor() {
    let app = App::new(Distro::Arch, probe(false, false, None));
    let app = press(app, Key::Char('j')).0;
    let app = press(app, Key::Char('j')).0;
    assert_eq!(app.menu_index, 2);
    let app = press(app, Key::Char('k')).0;
    assert_eq!(app.menu_index, 1);
    let app = press(app, Key::Char('4')).0;
    assert_eq!(app.menu_index, 3);
    let app = press(app, Key::Char('9')).0;
    assert_eq!(app.menu_index, 3);
    let (app, action) = press(app, Key::Enter);
    assert!(action.is_none());
    assert!(matches!(app.page, Page::Tools));
    let app = press(app, Key::Char('2')).0;
    assert_eq!(app.tool_index, 1);
}

#[test]
fn clearing_asks_twice() {
    let app = App::new(Distro::Arch, probe(false, false, None));
    let app = press(press(app, Key::Down).0, Key::Enter).0;
    assert!(matches!(app.page, Page::Docker));
    let app = press(app, Key::Char('5')).0;
    assert_eq!(app.docker_index, 4);
    let (app, action) = press(app, Key::Enter);
    assert!(action.is_none());
    assert_eq!(app.status_msg, "⚠️ 再次按 Enter 确认清除");
    let (app, action) = press(app, Key::Enter);
    assert!(matches!(action, Some(Action::ClearDocker)));
    assert_eq!(app.status_msg, "正在清除 Docker 配置...");
    let app = app.finish(&Action::ClearDocker, Ok(String::new()));
    assert_eq!(app.status_msg, "✅ Docker 配置已清除");
    assert!(Action::ClearDocker.refreshes());
}

#[test]
fn cleared_keys_are_forgotten() {
    let app = App::new(Distro::Arch, probe(false, false, None));
    let app = app.finish(&Action::GenerateRsa, Ok("ssh-rsa AAAA u@h".to_string()));
    assert!(app.ssh_key_exists);
    let app = app.finish(&Action::ClearSshKeys, Ok(String::new()));
    assert!(!app.ssh_key_exists);
    assert!(app.last_pubkey.is_empty());
    assert_eq!(app.status_msg, "✅ SSH 密钥已清除");
}

#[test]
fn mirror_page_recommends_fastest() {
    let app = App::new(Distro::Arch, probe(false, false, None));
    let app = press(app, Key::Char('6')).0;
    let (app, action) = press(app, Key::Enter);
    assert!(matches!(action, Some(Action::TestMirrors)));
    assert!(matches!(app.page, Page::Sources));
    let app = app.with_latencies(vec![None, Some(30), Some(12), None, Some(50)]);
    assert_eq!(app.sources_index, 2);
    let rows = source_rows(&app);
    assert_eq!(rows.len(), 5);
    assert_eq!(rows[2].tag.as_deref(), Some(" [推荐]"));
    assert_eq!(rows[2].detail, "  12 ms");
    assert_eq!(rows[3].detail, "  超时");
    assert_eq!(rows[0].detail, "  默认");
    let (app, action) = press(app, Key::Enter);
    match action {
        Some(Action::SwitchSystemMirror(u)) => assert_eq!(u, "https://mirrors.ustc.edu.cn/archlinux/$repo/os/$arch"),
        _ => panic!("expected a mirror switch"),
    }
    let app = app.finish(&Action::SwitchSystemMirror(String::new()), Ok(String::new()));
    assert_eq!(app.status_msg, "✅ 系统源已切换");
    let app = press(app, Key::Esc).0;
    assert!(matches!(app.page, Page::MainMenu));
}
