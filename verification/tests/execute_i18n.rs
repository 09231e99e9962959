use linux_init::execute::{begin_action, end_action, ActionSpec, Begin};
use linux_init::distro::Distro;
use linux_init::execute::{
    all_passed, default_true, dispatch_action, ensure_ssh_keygen, file_holds, found_binary,
    in_container, is_root, outcome_of, run_verification, setup_container_root_env, summarize,
    ActionArgs, Check, ExecuteEnv, Outcome, Task,
};
use linux_init::i18n::{
    docker_menu, main_menu, msg_fail, nvm_menu, plugin_kind, tool_desc, shell_select_plugins, theme_desc, tool_category, vim_menu,
    Lang,
};

fn env(container: bool, root: bool) -> ExecuteEnv {
    ExecuteEnv { in_container: container, is_root: root }
}

#[test]
fn environment_probes() {
    assert!(in_container(false, true));
    assert!(!in_container(false, false));
    assert!(is_root(Some("0\n")));
    assert!(!is_root(Some("1000\n")));
    assert!(!is_root(None));
    assert!(default_true());
    let shim = setup_container_root_env(true, true, "/usr/bin").expect("shim");
    assert_eq!(shim.path, "/tmp:/usr/bin");
    assert_eq!(shim.script, "#!/bin/sh\nexec \"$@\"\n");
    assert!(setup_container_root_env(true, false, "/usr/bin").is_none());
}

#[test]
fn dispatch_fills_defaults() {
    let args = ActionArgs::default();
    match dispatch_action("set_zsh_theme", &args, &env(false, false)) {
        Ok(Task::SetZshTheme(t)) => assert_eq!(t, "robbyrussell"),
        _ => panic!("expected SetZshTheme"),
    }
    match dispatch_action("generate_rsa_key", &args, &env(false, false)) {
        Ok(Task::GenerateRsaKey(e)) => assert_eq!(e, "ci@linux-init.test"),
        _ => panic!("expected GenerateRsaKey"),
    }
    match dispatch_action("install_tools", &args, &env(false, false)) {
        Ok(Task::InstallTools(t)) => assert_eq!(t, vec!["git", "curl", "wget"]),
        _ => panic!("expected InstallTools"),
    }
    assert!(matches!(dispatch_action("install_plugins", &args, &env(false, false)), Ok(Task::Nothing)));
}

#[test]
fn dispatch_skips_and_unknown() {
    let args = ActionArgs::default();
    assert_eq!(
        dispatch_action("set_default_shell", &args, &env(true, false)).err(),
        Some("SKIP:chsh_not_available_in_container".to_string())
    );
    assert_eq!(
        dispatch_action("add_user_to_docker_group", &args, &env(false, true)).err(),
        Some("SKIP:root_no_need_docker_group".to_string())
    );
    assert!(matches!(dispatch_action("start_ssh_service", &args, &env(false, false)), Ok(Task::StartSshService)));
    assert_eq!(dispatch_action("fly", &args, &env(false, false)).err(), Some("未知 action: fly".to_string()));
}

#[test]
fn verification_checks() {
    let mut args = ActionArgs::default();
    assert!(matches!(run_verification("install_zsh", &args), Some(Check::ZshInstalled)));
    assert!(matches!(run_verification("install_node_lts", &args), Some(Check::NodeVersion)));
    assert!(run_verification("clear_docker", &args).is_none());
    args.tools = Some(vec!["jq".to_string()]);
    match run_verification("install_tools", &args) {
        Some(Check::ToolStatuses(t)) => assert_eq!(t, vec!["jq"]),
        _ => panic!("expected ToolStatuses"),
    }
    assert!(file_holds(Some("ZSH_THEME=\"x\""), "ZSH_THEME="));
    assert!(!file_holds(None, "ZSH_THEME="));
    assert!(found_binary(Some("/usr/bin/zsh\n")));
    assert!(!found_binary(Some("  \n")));
}

#[test]
fn keygen_package_by_family() {
    let c = ensure_ssh_keygen(&Distro::Debian("12".into()), false).unwrap().unwrap();
    assert!(c.args.iter().any(|a| a == "openssh-client"));
    assert!(ensure_ssh_keygen(&Distro::Arch, true).unwrap().is_none());
}

#[test]
fn outcomes_counted_once() {
    let outs = vec![
        outcome_of(true, Ok(())),
        outcome_of(false, Ok(())),
        outcome_of(false, Err("SKIP:no_systemd_in_container".to_string())),
        outcome_of(false, Err("boom".to_string())),
    ];
    match &outs[2] {
        Outcome::Skip(r) => assert_eq!(r, "no_systemd_in_container"),
        _ => panic!("expected skip"),
    }
    match &outs[0] {
        Outcome::Skip(r) => assert_eq!(r, "flagged"),
        _ => panic!("expected skip"),
    }
    assert_eq!(outs[3].status(), "fail");
    let s = summarize(&outs);
    assert_eq!((s.total, s.ok, s.skip, s.fail), (4, 1, 2, 1));
    assert!(!all_passed(&s));
    assert!(all_passed(&summarize(&vec![])));
}

#[test]
fn texts_in_both_languages() {
    assert_eq!(main_menu(Lang::English).len(), 9);
    assert_eq!(main_menu(Lang::Chinese)[8].0, "🔁 系统源管理");
    assert_eq!(docker_menu(Lang::English).last().unwrap().0, "🗑️ Clear Docker");
    assert_eq!(nvm_menu(Lang::English)[1].0, "Install Node.js Latest");
    assert_eq!(tool_desc(Lang::English, "direnv"), "Per-directory environment variables");
    assert_eq!(main_menu(Lang::Chinese)[4].0, "🖥️ SSH 服务");
    assert_eq!(theme_desc(Lang::English, "ys"), "Info-rich two-line prompt");
    assert_eq!(theme_desc(Lang::Chinese, "nope"), "");
    assert_eq!(plugin_kind(Lang::English, "第三方"), "3rd-party");
    assert_eq!(plugin_kind(Lang::English, "other"), "other");
    assert_eq!(tool_category(Lang::English, "CLI 增强"), "CLI");
    assert_eq!(shell_select_plugins(Lang::Chinese, 3), ("选择插件".to_string(), "已选 3 个".to_string()));
    assert_eq!(shell_select_plugins(Lang::English, 12).1, "12 selected");
    assert_eq!(msg_fail(Lang::English, "zsh", "x"), "❌ zsh failed: x");
    assert_eq!(vim_menu(Lang::English)[1].0, "Install Vundle");
    assert_eq!(Lang::Chinese.name(), "中文");
}

#[test]
fn run_steps_skip_flagged_and_check_successes() {
    let flagged = ActionSpec { id: "install_zsh".to_string(), skip: true, verify: true, args: ActionArgs::default() };
    assert!(matches!(begin_action(&flagged, &env(false, false)), Begin::Flagged));
    let e = end_action(&flagged, Ok(()), 42);
    assert_eq!(e.duration_ms, 0);
    assert!(e.check.is_none());
    assert!(matches!(e.outcome, Outcome::Skip(ref r) if r == "flagged"));
    let zsh = ActionSpec { id: "install_zsh".to_string(), skip: false, verify: true, args: ActionArgs::default() };
    assert!(matches!(begin_action(&zsh, &env(false, false)), Begin::Perform(Task::InstallZsh)));
    let done = end_action(&zsh, Ok(()), 7);
    assert_eq!(done.duration_ms, 7);
    assert!(matches!(done.check, Some(Check::ZshInstalled)));
    let failed = end_action(&zsh, Err("boom".to_string()), 3);
    assert!(failed.check.is_none());
    let quiet = ActionSpec { id: "install_zsh".to_string(), skip: false, verify: false, args: ActionArgs::default() };
    assert!(end_action(&quiet, Ok(()), 1).check.is_none());
    let unknown = ActionSpec { id: "fly".to_string(), skip: false, verify: true, args: ActionArgs::default() };
    assert!(matches!(begin_action(&unknown, &env(false, false)), Begin::Refused(ref m) if m == "未知 action: fly"));
}
