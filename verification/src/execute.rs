//! Running a list of actions without the interactive interface: what each
//! action asks to be done, which check follows it, and how the results are
//! counted.
use vstd::prelude::*;
use vstd::string::*;
use crate::distro::{family_of, install_packages, install_packages_spec, res_cmd, Distro, DistroFamily, DistroV};
use crate::text::{chars_of, contains, contains_str, str_eq, trim, trim_vec, eq_str, starts_with, starts_with_str, slice_of, string_of};
use crate::ui::clone_strings;
use crate::utils::{cmd, command, lits, owned, strs, CommandV, ShellCommand};

verus! {

// ── the environment ──────────────────────────────────────────

/// Whether the program runs inside a container: `/.dockerenv` or
/// `/run/.containerenv` exists.
pub fn in_container(dockerenv_exists: bool, containerenv_exists: bool) -> (r: bool)
    ensures
        r == (dockerenv_exists || containerenv_exists),
{
    dockerenv_exists || containerenv_exists
}

/// Whether the program runs as root, from what `id -u` printed (`None`
/// when it could not be run): the output, trimmed, is `0`.
pub fn is_root(id_output: Option<&str>) -> (r: bool)
    ensures
        r == match id_output {
            Some(o) => trim(o@) == "0"@,
            None => false,
        },
{
    match id_output {
        Some(o) => {
            let v = trim_vec(&chars_of(o));
            eq_str(&v, "0")
        },
        None => false,
    }
}

/// A `sudo` that only runs its arguments, for a container where the program
/// runs as root: the script, where it goes, the command that makes it
/// executable, and the `PATH` that puts it first.
#[derive(Debug)]
pub struct SudoShim {
    pub script_path: String,
    pub script: String,
    pub chmod: ShellCommand,
    pub path: String,
}

/// The `sudo` shim, needed only in a container when running as root.
pub fn setup_container_root_env(in_container: bool, is_root: bool, path: &str) -> (r: Option<SudoShim>)
    ensures
        r is Some <==> in_container && is_root,
        r matches Some(s) ==> {
            &&& s.script_path@ == "/tmp/sudo"@
            &&& s.script@ == "#!/bin/sh\nexec \"$@\"\n"@
            &&& s.chmod@ == cmd("chmod"@, seq!["+x"@, "/tmp/sudo"@], "chmod 失败"@)
            &&& s.path@ == "/tmp:"@ + path@
        },
{
    if !in_container || !is_root {
        return None;
    }
    let a: &[&str] = &["+x", "/tmp/sudo"];
    assert(a@ == seq!["+x", "/tmp/sudo"]);
    assert(lits(seq!["+x", "/tmp/sudo"]) =~= seq!["+x"@, "/tmp/sudo"@]);
    Some(SudoShim {
        script_path: owned("/tmp/sudo"),
        script: owned("#!/bin/sh\nexec \"$@\"\n"),
        chmod: command("chmod", a, "chmod 失败"),
        path: owned("/tmp:").concat(path),
    })
}

/// Where the actions run.
pub struct ExecuteEnv {
    pub in_container: bool,
    pub is_root: bool,
}

// ── the list of actions ──────────────────────────────────────

/// The actions to run, in order.
pub struct ExecuteSpec {
    pub actions: Vec<ActionSpec>,
}

/// One action: its id, whether it is skipped, whether its result is checked
/// afterwards (by default it is), and its arguments.
#[derive(Debug)]
pub struct ActionSpec {
    pub id: String,
    pub skip: bool,
    pub verify: bool,
    pub args: ActionArgs,
}

/// The value of `verify` when the list does not give one.
pub fn default_true() -> (r: bool)
    ensures
        r,
{
    true
}

/// The arguments of an action, each optional.
#[derive(Debug)]
pub struct ActionArgs {
    pub email: Option<String>,
    pub tools: Option<Vec<String>>,
    pub theme: Option<String>,
    pub plugins: Option<Vec<String>>,
    pub vim_plugins: Option<Vec<usize>>,
    pub vim_opts: Option<Vec<usize>>,
    pub mirror_url: Option<String>,
    pub shell: Option<String>,
}

impl Default for ActionArgs {
    fn default() -> (r: ActionArgs)
        ensures
            r@ == (ArgsV {
                email: None,
                tools: None,
                theme: None,
                plugins: None,
                vim_plugins: None,
                vim_opts: None,
                mirror_url: None,
                shell: None,
            }),
    {
        ActionArgs {
            email: None,
            tools: None,
            theme: None,
            plugins: None,
            vim_plugins: None,
            vim_opts: None,
            mirror_url: None,
            shell: None,
        }
    }
}

/// The arguments, their texts as character sequences.
pub ghost struct ArgsV {
    pub email: Option<Seq<char>>,
    pub tools: Option<Seq<Seq<char>>>,
    pub theme: Option<Seq<char>>,
    pub plugins: Option<Seq<Seq<char>>>,
    pub vim_plugins: Option<Seq<usize>>,
    pub vim_opts: Option<Seq<usize>>,
    pub mirror_url: Option<Seq<char>>,
    pub shell: Option<Seq<char>>,
}

/// An optional string, by its characters.
pub open spec fn opt_text(o: Option<String>) -> Option<Seq<char>> {
    match o {
        Some(s) => Some(s@),
        None => None,
    }
}

/// An optional list of strings, by their characters.
pub open spec fn opt_texts(o: Option<Vec<String>>) -> Option<Seq<Seq<char>>> {
    match o {
        Some(v) => Some(strs(v@)),
        None => None,
    }
}

/// An optional list of numbers.
pub open spec fn opt_nums(o: Option<Vec<usize>>) -> Option<Seq<usize>> {
    match o {
        Some(v) => Some(v@),
        None => None,
    }
}

impl View for ActionArgs {
    type V = ArgsV;

    open spec fn view(&self) -> ArgsV {
        ArgsV {
            email: opt_text(self.email),
            tools: opt_texts(self.tools),
            theme: opt_text(self.theme),
            plugins: opt_texts(self.plugins),
            vim_plugins: opt_nums(self.vim_plugins),
            vim_opts: opt_nums(self.vim_opts),
            mirror_url: opt_text(self.mirror_url),
            shell: opt_text(self.shell),
        }
    }
}

/// A text argument, or a default.
pub open spec fn or_default(o: Option<Seq<char>>, d: Seq<char>) -> Seq<char> {
    match o {
        Some(s) => s,
        None => d,
    }
}

/// A list argument, or nothing.
pub open spec fn or_empty(o: Option<Seq<Seq<char>>>) -> Seq<Seq<char>> {
    match o {
        Some(s) => s,
        None => Seq::empty(),
    }
}

/// A list of numbers, or nothing.
pub open spec fn or_none(o: Option<Seq<usize>>) -> Seq<usize> {
    match o {
        Some(s) => s,
        None => Seq::empty(),
    }
}

/// The tools installed when the action names none.
pub open spec fn default_tools() -> Seq<Seq<char>> {
    seq!["git"@, "curl"@, "wget"@]
}

fn text_or(o: &Option<String>, d: &str) -> (r: String)
    ensures
        r@ == or_default(opt_text(*o), d@),
{
    match o {
        Some(s) => s.clone(),
        None => owned(d),
    }
}

fn opt_text_of(o: &Option<String>) -> (r: Option<String>)
    ensures
        opt_text(r) == opt_text(*o),
{
    match o {
        Some(s) => Some(s.clone()),
        None => None,
    }
}

fn strings_or_empty(o: &Option<Vec<String>>) -> (r: Vec<String>)
    ensures
        strs(r@) == or_empty(opt_texts(*o)),
{
    match o {
        Some(v) => clone_strings(v),
        None => {
            let r: Vec<String> = Vec::new();
            assert(strs(r@) =~= Seq::<Seq<char>>::empty());
            r
        },
    }
}

fn indices_or_empty(o: &Option<Vec<usize>>) -> (r: Vec<usize>)
    ensures
        r@ == or_none(opt_nums(*o)),
{
    let mut r: Vec<usize> = Vec::new();
    match o {
        Some(v) => {
            let mut i: usize = 0;
            while i < v.len()
                invariant
                    i <= v.len(),
                    r@ == v@.take(i as int),
                decreases v.len() - i,
            {
                r.push(v[i]);
                i = i + 1;
                assert(r@ =~= v@.take(i as int));
            }
            assert(v@.take(v.len() as int) =~= v@);
        },
        None => {
            assert(r@ =~= Seq::<usize>::empty());
        },
    }
    r
}

fn default_tool_list() -> (r: Vec<String>)
    ensures
        strs(r@) == default_tools(),
{
    let mut r: Vec<String> = Vec::new();
    r.push(owned("git"));
    r.push(owned("curl"));
    r.push(owned("wget"));
    assert(strs(r@) =~= default_tools());
    r
}

// ── what each action asks for ────────────────────────────────

/// What an action asks to be done, with its arguments settled.
#[derive(Debug)]
pub enum Task {
    /// Nothing to do.
    Nothing,
    DetectDistro,
    RefreshPackageCache,
    InstallZsh,
    InstallOhMyZsh,
    SetZshTheme(String),
    /// Write the plugin list into `~/.zshrc`, then fetch the third-party ones.
    InstallPlugins(Vec<String>),
    SetDefaultShell,
    ClearShell,
    InstallDocker,
    InstallCompose,
    AddUserToDockerGroup,
    StartDockerService,
    ClearDocker,
    /// Generate an Ed25519 key with this comment.
    GenerateEd25519Key(String),
    /// Generate an RSA key with this comment.
    GenerateRsaKey(String),
    ReadPublicKey,
    ClearSshKeys,
    InstallSshServer,
    DisableRootLogin,
    StartSshService,
    ClearSshServer,
    InstallTools(Vec<String>),
    /// Aliases for the tools, into the shell's file (the shell, when given).
    ConfigureAliases(Vec<String>, Option<String>),
    ConfigureDirenvHook(Option<String>),
    InstallVim,
    InstallVundle,
    /// The chosen plugins and options, by their positions in the lists.
    WriteVimrc(Vec<usize>, Vec<usize>),
    InstallNvm,
    InstallNodeLatest,
    InstallNodeLts,
    ClearNvm,
    ConfigureLocale,
    InstallCjkFonts,
    InstallFcitx5,
    ClearLocale,
    SwitchSystemMirror(String),
    SwitchDockerMirror(String),
    SwitchNpmRegistry(String),
}

/// A task, its texts as character sequences.
pub ghost enum TaskV {
    Nothing,
    DetectDistro,
    RefreshPackageCache,
    InstallZsh,
    InstallOhMyZsh,
    SetZshTheme(Seq<char>),
    InstallPlugins(Seq<Seq<char>>),
    SetDefaultShell,
    ClearShell,
    InstallDocker,
    InstallCompose,
    AddUserToDockerGroup,
    StartDockerService,
    ClearDocker,
    GenerateEd25519Key(Seq<char>),
    GenerateRsaKey(Seq<char>),
    ReadPublicKey,
    ClearSshKeys,
    InstallSshServer,
    DisableRootLogin,
    StartSshService,
    ClearSshServer,
    InstallTools(Seq<Seq<char>>),
    ConfigureAliases(Seq<Seq<char>>, Option<Seq<char>>),
    ConfigureDirenvHook(Option<Seq<char>>),
    InstallVim,
    InstallVundle,
    WriteVimrc(Seq<usize>, Seq<usize>),
    InstallNvm,
    InstallNodeLatest,
    InstallNodeLts,
    ClearNvm,
    ConfigureLocale,
    InstallCjkFonts,
    InstallFcitx5,
    ClearLocale,
    SwitchSystemMirror(Seq<char>),
    SwitchDockerMirror(Seq<char>),
    SwitchNpmRegistry(Seq<char>),
}

impl View for Task {
    type V = TaskV;

    open spec fn view(&self) -> TaskV {
        match self {
            Task::Nothing => TaskV::Nothing,
            Task::DetectDistro => TaskV::DetectDistro,
            Task::RefreshPackageCache => TaskV::RefreshPackageCache,
            Task::InstallZsh => TaskV::InstallZsh,
            Task::InstallOhMyZsh => TaskV::InstallOhMyZsh,
            Task::SetZshTheme(t) => TaskV::SetZshTheme(t@),
            Task::InstallPlugins(p) => TaskV::InstallPlugins(strs(p@)),
            Task::SetDefaultShell => TaskV::SetDefaultShell,
            Task::ClearShell => TaskV::ClearShell,
            Task::InstallDocker => TaskV::InstallDocker,
            Task::InstallCompose => TaskV::InstallCompose,
            Task::AddUserToDockerGroup => TaskV::AddUserToDockerGroup,
            Task::StartDockerService => TaskV::StartDockerService,
            Task::ClearDocker => TaskV::ClearDocker,
            Task::GenerateEd25519Key(e) => TaskV::GenerateEd25519Key(e@),
            Task::GenerateRsaKey(e) => TaskV::GenerateRsaKey(e@),
            Task::ReadPublicKey => TaskV::ReadPublicKey,
            Task::ClearSshKeys => TaskV::ClearSshKeys,
            Task::InstallSshServer => TaskV::InstallSshServer,
            Task::DisableRootLogin => TaskV::DisableRootLogin,
            Task::StartSshService => TaskV::StartSshService,
            Task::ClearSshServer => TaskV::ClearSshServer,
            Task::InstallTools(t) => TaskV::InstallTools(strs(t@)),
            Task::ConfigureAliases(t, s) => TaskV::ConfigureAliases(strs(t@), opt_text(*s)),
            Task::ConfigureDirenvHook(s) => TaskV::ConfigureDirenvHook(opt_text(*s)),
            Task::InstallVim => TaskV::InstallVim,
            Task::InstallVundle => TaskV::InstallVundle,
            Task::WriteVimrc(p, o) => TaskV::WriteVimrc(p@, o@),
            Task::InstallNvm => TaskV::InstallNvm,
            Task::InstallNodeLatest => TaskV::InstallNodeLatest,
            Task::InstallNodeLts => TaskV::InstallNodeLts,
            Task::ClearNvm => TaskV::ClearNvm,
            Task::ConfigureLocale => TaskV::ConfigureLocale,
            Task::InstallCjkFonts => TaskV::InstallCjkFonts,
            Task::InstallFcitx5 => TaskV::InstallFcitx5,
            Task::ClearLocale => TaskV::ClearLocale,
            Task::SwitchSystemMirror(u) => TaskV::SwitchSystemMirror(u@),
            Task::SwitchDockerMirror(u) => TaskV::SwitchDockerMirror(u@),
            Task::SwitchNpmRegistry(u) => TaskV::SwitchNpmRegistry(u@),
        }
    }
}

/// A task or an error, by their views.
pub open spec fn result_view(r: Result<Task, String>) -> Result<TaskV, Seq<char>> {
    match r {
        Ok(t) => Ok(t@),
        Err(e) => Err(e@),
    }
}

/// An optional task or error, by their views.
pub open spec fn dispatch_view(r: Option<Result<Task, String>>) -> Option<Result<TaskV, Seq<char>>> {
    match r {
        Some(x) => Some(result_view(x)),
        None => None,
    }
}

/// The task of an action about the system and the shell; `None` for other actions.
pub open spec fn dispatch_system_spec(id: Seq<char>, args: ArgsV, env: ExecuteEnv) -> Option<Result<TaskV, Seq<char>>> {
    if id == "detect_distro"@ {
        Some(Ok(TaskV::DetectDistro))
    } else if id == "refresh_package_cache"@ {
        Some(Ok(TaskV::RefreshPackageCache))
    } else if id == "install_zsh"@ {
        Some(Ok(TaskV::InstallZsh))
    } else if id == "install_oh_my_zsh"@ {
        Some(Ok(TaskV::InstallOhMyZsh))
    } else if id == "set_zsh_theme"@ {
        Some(Ok(TaskV::SetZshTheme(or_default(args.theme, "robbyrussell"@))))
    } else if id == "install_plugins"@ {
        Some(Ok(if or_empty(args.plugins).len() == 0 { TaskV::Nothing } else { TaskV::InstallPlugins(or_empty(args.plugins)) }))
    } else if id == "set_default_shell"@ {
        Some(if env.in_container { Err("SKIP:chsh_not_available_in_container"@) } else { Ok(TaskV::SetDefaultShell) })
    } else if id == "clear_shell"@ {
        Some(Ok(TaskV::ClearShell))
    } else {
        None
    }
}

fn dispatch_system(id: &str, args: &ActionArgs, env: &ExecuteEnv) -> (r: Option<Result<Task, String>>)
    ensures
        dispatch_view(r) == dispatch_system_spec(id@, args@, *env),
{
    if str_eq(id, "detect_distro") {
        Some(Ok(Task::DetectDistro))
    } else if str_eq(id, "refresh_package_cache") {
        Some(Ok(Task::RefreshPackageCache))
    } else if str_eq(id, "install_zsh") {
        Some(Ok(Task::InstallZsh))
    } else if str_eq(id, "install_oh_my_zsh") {
        Some(Ok(Task::InstallOhMyZsh))
    } else if str_eq(id, "set_zsh_theme") {
        Some(Ok(Task::SetZshTheme(text_or(&args.theme, "robbyrussell"))))
    } else if str_eq(id, "install_plugins") {
        Some({
            let plugins = strings_or_empty(&args.plugins);
            if plugins.len() == 0 {
                Ok(Task::Nothing)
            } else {
                Ok(Task::InstallPlugins(plugins))
            }
        })
    } else if str_eq(id, "set_default_shell") {
        Some(if env.in_container { Err(owned("SKIP:chsh_not_available_in_container")) } else { Ok(Task::SetDefaultShell) })
    } else if str_eq(id, "clear_shell") {
        Some(Ok(Task::ClearShell))
    } else {
        None
    }
}

/// The task of an action about Docker; `None` for other actions.
pub open spec fn dispatch_docker_spec(id: Seq<char>, args: ArgsV, env: ExecuteEnv) -> Option<Result<TaskV, Seq<char>>> {
    if id == "install_docker"@ {
        Some(Ok(TaskV::InstallDocker))
    } else if id == "install_compose"@ {
        Some(Ok(TaskV::InstallCompose))
    } else if id == "add_user_to_docker_group"@ {
        Some(if env.is_root { Err("SKIP:root_no_need_docker_group"@) } else { Ok(TaskV::AddUserToDockerGroup) })
    } else if id == "start_docker_service"@ {
        Some(if env.in_container { Err("SKIP:no_systemd_in_container"@) } else { Ok(TaskV::StartDockerService) })
    } else if id == "clear_docker"@ {
        Some(Ok(TaskV::ClearDocker))
    } else {
        None
    }
}

fn dispatch_docker(id: &str, args: &ActionArgs, env: &ExecuteEnv) -> (r: Option<Result<Task, String>>)
    ensures
        dispatch_view(r) == dispatch_docker_spec(id@, args@, *env),
{
    if str_eq(id, "install_docker") {
        Some(Ok(Task::InstallDocker))
    } else if str_eq(id, "install_compose") {
        Some(Ok(Task::InstallCompose))
    } else if str_eq(id, "add_user_to_docker_group") {
        Some(if env.is_root { Err(owned("SKIP:root_no_need_docker_group")) } else { Ok(Task::AddUserToDockerGroup) })
    } else if str_eq(id, "start_docker_service") {
        Some(if env.in_container { Err(owned("SKIP:no_systemd_in_container")) } else { Ok(Task::StartDockerService) })
    } else if str_eq(id, "clear_docker") {
        Some(Ok(Task::ClearDocker))
    } else {
        None
    }
}

/// The task of an action about SSH keys and the SSH server; `None` for other actions.
pub open spec fn dispatch_ssh_spec(id: Seq<char>, args: ArgsV, env: ExecuteEnv) -> Option<Result<TaskV, Seq<char>>> {
    if id == "generate_ed25519_key"@ {
        Some(Ok(TaskV::GenerateEd25519Key(or_default(args.email, "ci@linux-init.test"@))))
    } else if id == "generate_rsa_key"@ {
        Some(Ok(TaskV::GenerateRsaKey(or_default(args.email, "ci@linux-init.test"@))))
    } else if id == "read_public_key"@ {
        Some(Ok(TaskV::ReadPublicKey))
    } else if id == "clear_ssh_keys"@ {
        Some(Ok(TaskV::ClearSshKeys))
    } else if id == "install_ssh_server"@ {
        Some(Ok(TaskV::InstallSshServer))
    } else if id == "disable_root_login"@ {
        Some(Ok(TaskV::DisableRootLogin))
    } else if id == "start_ssh_service"@ {
        Some(if env.in_container { Err("SKIP:no_systemd_in_container"@) } else { Ok(TaskV::StartSshService) })
    } else if id == "clear_ssh_server"@ {
        Some(Ok(TaskV::ClearSshServer))
    } else {
        None
    }
}

fn dispatch_ssh(id: &str, args: &ActionArgs, env: &ExecuteEnv) -> (r: Option<Result<Task, String>>)
    ensures
        dispatch_view(r) == dispatch_ssh_spec(id@, args@, *env),
{
    if str_eq(id, "generate_ed25519_key") {
        Some(Ok(Task::GenerateEd25519Key(text_or(&args.email, "ci@linux-init.test"))))
    } else if str_eq(id, "generate_rsa_key") {
        Some(Ok(Task::GenerateRsaKey(text_or(&args.email, "ci@linux-init.test"))))
    } else if str_eq(id, "read_public_key") {
        Some(Ok(Task::ReadPublicKey))
    } else if str_eq(id, "clear_ssh_keys") {
        Some(Ok(Task::ClearSshKeys))
    } else if str_eq(id, "install_ssh_server") {
        Some(Ok(Task::InstallSshServer))
    } else if str_eq(id, "disable_root_login") {
        Some(Ok(Task::DisableRootLogin))
    } else if str_eq(id, "start_ssh_service") {
        Some(if env.in_container { Err(owned("SKIP:no_systemd_in_container")) } else { Ok(Task::StartSshService) })
    } else if str_eq(id, "clear_ssh_server") {
        Some(Ok(Task::ClearSshServer))
    } else {
        None
    }
}

/// The task of an action about tools, Vim and Node.js; `None` for other actions.
pub open spec fn dispatch_tools_spec(id: Seq<char>, args: ArgsV, env: ExecuteEnv) -> Option<Result<TaskV, Seq<char>>> {
    if id == "install_tools"@ {
        Some(Ok(TaskV::InstallTools(match args.tools { Some(t) => t, None => default_tools() })))
    } else if id == "configure_aliases"@ {
        Some(Ok(TaskV::ConfigureAliases(or_empty(args.tools), args.shell)))
    } else if id == "configure_direnv_hook"@ {
        Some(Ok(TaskV::ConfigureDirenvHook(args.shell)))
    } else if id == "install_vim"@ {
        Some(Ok(TaskV::InstallVim))
    } else if id == "install_vundle"@ {
        Some(Ok(TaskV::InstallVundle))
    } else if id == "write_vimrc"@ {
        Some(Ok(TaskV::WriteVimrc(or_none(args.vim_plugins), or_none(args.vim_opts))))
    } else if id == "install_nvm"@ {
        Some(Ok(TaskV::InstallNvm))
    } else if id == "install_node_latest"@ {
        Some(Ok(TaskV::InstallNodeLatest))
    } else if id == "install_node_lts"@ {
        Some(Ok(TaskV::InstallNodeLts))
    } else if id == "clear_nvm"@ {
        Some(Ok(TaskV::ClearNvm))
    } else {
        None
    }
}

fn dispatch_tools(id: &str, args: &ActionArgs, env: &ExecuteEnv) -> (r: Option<Result<Task, String>>)
    ensures
        dispatch_view(r) == dispatch_tools_spec(id@, args@, *env),
{
    if str_eq(id, "install_tools") {
        Some({
            let tools = match &args.tools {
                Some(t) => clone_strings(t),
                None => default_tool_list(),
            };
            Ok(Task::InstallTools(tools))
        })
    } else if str_eq(id, "configure_aliases") {
        Some(Ok(Task::ConfigureAliases(strings_or_empty(&args.tools), opt_text_of(&args.shell))))
    } else if str_eq(id, "configure_direnv_hook") {
        Some(Ok(Task::ConfigureDirenvHook(opt_text_of(&args.shell))))
    } else if str_eq(id, "install_vim") {
        Some(Ok(Task::InstallVim))
    } else if str_eq(id, "install_vundle") {
        Some(Ok(Task::InstallVundle))
    } else if str_eq(id, "write_vimrc") {
        Some(Ok(Task::WriteVimrc(indices_or_empty(&args.vim_plugins), indices_or_empty(&args.vim_opts))))
    } else if str_eq(id, "install_nvm") {
        Some(Ok(Task::InstallNvm))
    } else if str_eq(id, "install_node_latest") {
        Some(Ok(Task::InstallNodeLatest))
    } else if str_eq(id, "install_node_lts") {
        Some(Ok(Task::InstallNodeLts))
    } else if str_eq(id, "clear_nvm") {
        Some(Ok(Task::ClearNvm))
    } else {
        None
    }
}

/// The task of an action about the Chinese environment and the mirrors; `None` for other actions.
pub open spec fn dispatch_locale_spec(id: Seq<char>, args: ArgsV, env: ExecuteEnv) -> Option<Result<TaskV, Seq<char>>> {
    if id == "configure_locale"@ {
        Some(Ok(TaskV::ConfigureLocale))
    } else if id == "install_cjk_fonts"@ {
        Some(Ok(TaskV::InstallCjkFonts))
    } else if id == "install_fcitx5"@ {
        Some(Ok(TaskV::InstallFcitx5))
    } else if id == "clear_locale"@ {
        Some(Ok(TaskV::ClearLocale))
    } else if id == "switch_system_mirror"@ {
        Some(Ok(TaskV::SwitchSystemMirror(or_default(args.mirror_url, ""@))))
    } else if id == "switch_docker_mirror"@ {
        Some(Ok(TaskV::SwitchDockerMirror(or_default(args.mirror_url, ""@))))
    } else if id == "switch_npm_registry"@ {
        Some(Ok(TaskV::SwitchNpmRegistry(or_default(args.mirror_url, ""@))))
    } else {
        None
    }
}

fn dispatch_locale(id: &str, args: &ActionArgs, env: &ExecuteEnv) -> (r: Option<Result<Task, String>>)
    ensures
        dispatch_view(r) == dispatch_locale_spec(id@, args@, *env),
{
    if str_eq(id, "configure_locale") {
        Some(Ok(Task::ConfigureLocale))
    } else if str_eq(id, "install_cjk_fonts") {
        Some(Ok(Task::InstallCjkFonts))
    } else if str_eq(id, "install_fcitx5") {
        Some(Ok(Task::InstallFcitx5))
    } else if str_eq(id, "clear_locale") {
        Some(Ok(Task::ClearLocale))
    } else if str_eq(id, "switch_system_mirror") {
        Some(Ok(Task::SwitchSystemMirror(text_or(&args.mirror_url, ""))))
    } else if str_eq(id, "switch_docker_mirror") {
        Some(Ok(Task::SwitchDockerMirror(text_or(&args.mirror_url, ""))))
    } else if str_eq(id, "switch_npm_registry") {
        Some(Ok(Task::SwitchNpmRegistry(text_or(&args.mirror_url, ""))))
    } else {
        None
    }
}

/// The task of an action: each known action with its arguments settled
/// (defaults filled in), `SKIP:` and a reason for an action that does not
/// apply where the program runs, and an error for an unknown action.
pub open spec fn dispatch_spec(id: Seq<char>, args: ArgsV, env: ExecuteEnv) -> Result<TaskV, Seq<char>> {
    match dispatch_system_spec(id, args, env) {
        Some(r) => r,
        None => match dispatch_docker_spec(id, args, env) {
            Some(r) => r,
            None => match dispatch_ssh_spec(id, args, env) {
                Some(r) => r,
                None => match dispatch_tools_spec(id, args, env) {
                    Some(r) => r,
                    None => match dispatch_locale_spec(id, args, env) {
                        Some(r) => r,
                        None => Err("未知 action: "@ + id),
                    },
                },
            },
        },
    }
}

/// The action that asks for a task: the task's own name in snake case
/// (`Nothing` is what `install_plugins` asks for when no plugin is listed).
pub open spec fn task_action(t: TaskV) -> Seq<char> {
    match t {
        TaskV::Nothing => "install_plugins"@,
        TaskV::DetectDistro => "detect_distro"@,
        TaskV::RefreshPackageCache => "refresh_package_cache"@,
        TaskV::InstallZsh => "install_zsh"@,
        TaskV::InstallOhMyZsh => "install_oh_my_zsh"@,
        TaskV::SetZshTheme(_) => "set_zsh_theme"@,
        TaskV::InstallPlugins(_) => "install_plugins"@,
        TaskV::SetDefaultShell => "set_default_shell"@,
        TaskV::ClearShell => "clear_shell"@,
        TaskV::InstallDocker => "install_docker"@,
        TaskV::InstallCompose => "install_compose"@,
        TaskV::AddUserToDockerGroup => "add_user_to_docker_group"@,
        TaskV::StartDockerService => "start_docker_service"@,
        TaskV::ClearDocker => "clear_docker"@,
        TaskV::GenerateEd25519Key(_) => "generate_ed25519_key"@,
        TaskV::GenerateRsaKey(_) => "generate_rsa_key"@,
        TaskV::ReadPublicKey => "read_public_key"@,
        TaskV::ClearSshKeys => "clear_ssh_keys"@,
        TaskV::InstallSshServer => "install_ssh_server"@,
        TaskV::DisableRootLogin => "disable_root_login"@,
        TaskV::StartSshService => "start_ssh_service"@,
        TaskV::ClearSshServer => "clear_ssh_server"@,
        TaskV::InstallTools(_) => "install_tools"@,
        TaskV::ConfigureAliases(_, _) => "configure_aliases"@,
        TaskV::ConfigureDirenvHook(_) => "configure_direnv_hook"@,
        TaskV::InstallVim => "install_vim"@,
        TaskV::InstallVundle => "install_vundle"@,
        TaskV::WriteVimrc(_, _) => "write_vimrc"@,
        TaskV::InstallNvm => "install_nvm"@,
        TaskV::InstallNodeLatest => "install_node_latest"@,
        TaskV::InstallNodeLts => "install_node_lts"@,
        TaskV::ClearNvm => "clear_nvm"@,
        TaskV::ConfigureLocale => "configure_locale"@,
        TaskV::InstallCjkFonts => "install_cjk_fonts"@,
        TaskV::InstallFcitx5 => "install_fcitx5"@,
        TaskV::ClearLocale => "clear_locale"@,
        TaskV::SwitchSystemMirror(_) => "switch_system_mirror"@,
        TaskV::SwitchDockerMirror(_) => "switch_docker_mirror"@,
        TaskV::SwitchNpmRegistry(_) => "switch_npm_registry"@,
    }
}

/// Law: each action is dispatched to the task of the same name, whatever its
/// arguments and the environment: the task that comes out names back the
/// action that asked for it (`clear_docker` gives `ClearDocker`, never
/// `InstallDocker`).
pub proof fn law_task_names_its_action(id: Seq<char>, args: ArgsV, env: ExecuteEnv)
    ensures
        dispatch_spec(id, args, env) matches Ok(t) ==> task_action(t) == id,
{
}

/// A task that its action asks for with no argument and in every
/// environment.
pub open spec fn plain_task(t: TaskV) -> bool {
    match t {
        TaskV::DetectDistro | TaskV::RefreshPackageCache | TaskV::InstallZsh
        | TaskV::InstallOhMyZsh | TaskV::ClearShell | TaskV::InstallDocker | TaskV::InstallCompose
        | TaskV::ClearDocker | TaskV::ReadPublicKey | TaskV::ClearSshKeys | TaskV::InstallSshServer
        | TaskV::DisableRootLogin | TaskV::ClearSshServer | TaskV::InstallVim | TaskV::InstallVundle
        | TaskV::InstallNvm | TaskV::InstallNodeLatest | TaskV::InstallNodeLts | TaskV::ClearNvm
        | TaskV::ConfigureLocale | TaskV::InstallCjkFonts | TaskV::InstallFcitx5
        | TaskV::ClearLocale => true,
        _ => false,
    }
}

proof fn lemma_dispatch_detect_distro(args: ArgsV, env: ExecuteEnv)
    ensures
        dispatch_spec("detect_distro"@, args, env) == Ok::<TaskV, Seq<char>>(TaskV::DetectDistro),
{
    reveal_strlit("detect_distro");
    assert("detect_distro"@.len() == 13);
}

proof fn lemma_dispatch_refresh_package_cache(args: ArgsV, env: ExecuteEnv)
    ensures
        dispatch_spec("refresh_package_cache"@, args, env) == Ok::<TaskV, Seq<char>>(TaskV::RefreshPackageCache),
{
    reveal_strlit("detect_distro");
    reveal_strlit("refresh_package_cache");
    assert("refresh_package_cache"@.len() == 21);
    assert("detect_distro"@.len() == 13);
}

proof fn lemma_dispatch_install_zsh(args: ArgsV, env: ExecuteEnv)
    ensures
        dispatch_spec("install_zsh"@, args, env) == Ok::<TaskV, Seq<char>>(TaskV::InstallZsh),
{
    reveal_strlit("detect_distro");
    reveal_strlit("install_zsh");
    reveal_strlit("refresh_package_cache");
    assert("install_zsh"@.len() == 11);
    assert("detect_distro"@.len() == 13);
    assert("refresh_package_cache"@.len() == 21);
}

proof fn lemma_dispatch_install_oh_my_zsh(args: ArgsV, env: ExecuteEnv)
    ensures
        dispatch_spec("install_oh_my_zsh"@, args, env) == Ok::<TaskV, Seq<char>>(TaskV::InstallOhMyZsh),
{
    reveal_strlit("detect_distro");
    reveal_strlit("install_oh_my_zsh");
    reveal_strlit("install_zsh");
    reveal_strlit("refresh_package_cache");
    assert("install_oh_my_zsh"@.len() == 17);
    assert("detect_distro"@.len() == 13);
    assert("install_zsh"@.len() == 11);
    assert("refresh_package_cache"@.len() == 21);
}

proof fn lemma_dispatch_clear_shell(args: ArgsV, env: ExecuteEnv)
    ensures
        dispatch_spec("clear_shell"@, args, env) == Ok::<TaskV, Seq<char>>(TaskV::ClearShell),
{
    reveal_strlit("clear_shell");
    reveal_strlit("detect_distro");
    reveal_strlit("install_oh_my_zsh");
    reveal_strlit("install_plugins");
    reveal_strlit("install_zsh");
    reveal_strlit("refresh_package_cache");
    reveal_strlit("set_default_shell");
    reveal_strlit("set_zsh_theme");
    assert("clear_shell"@.len() == 11);
    assert("detect_distro"@.len() == 13);
    assert("install_oh_my_zsh"@.len() == 17);
    assert("install_plugins"@.len() == 15);
    assert("clear_shell"@[0] == 'c' && "install_zsh"@[0] == 'i');
    assert("refresh_package_cache"@.len() == 21);
    assert("set_default_shell"@.len() == 17);
    assert("set_zsh_theme"@.len() == 13);
}

proof fn lemma_dispatch_install_docker(args: ArgsV, env: ExecuteEnv)
    ensures
        dispatch_spec("install_docker"@, args, env) == Ok::<TaskV, Seq<char>>(TaskV::InstallDocker),
{
    reveal_strlit("clear_shell");
    reveal_strlit("detect_distro");
    reveal_strlit("install_docker");
    reveal_strlit("install_oh_my_zsh");
    reveal_strlit("install_plugins");
    reveal_strlit("install_zsh");
    reveal_strlit("refresh_package_cache");
    reveal_strlit("set_default_shell");
    reveal_strlit("set_zsh_theme");
    assert("install_docker"@.len() == 14);
    assert("clear_shell"@.len() == 11);
    assert("detect_distro"@.len() == 13);
    assert("install_oh_my_zsh"@.len() == 17);
    assert("install_plugins"@.len() == 15);
    assert("install_zsh"@.len() == 11);
    assert("refresh_package_cache"@.len() == 21);
    assert("set_default_shell"@.len() == 17);
    assert("set_zsh_theme"@.len() == 13);
    assert(dispatch_system_spec("install_docker"@, args, env) is None);
}

proof fn lemma_dispatch_install_compose(args: ArgsV, env: ExecuteEnv)
    ensures
        dispatch_spec("install_compose"@, args, env) == Ok::<TaskV, Seq<char>>(TaskV::InstallCompose),
{
    reveal_strlit("clear_shell");
    reveal_strlit("detect_distro");
    reveal_strlit("install_compose");
    reveal_strlit("install_docker");
    reveal_strlit("install_oh_my_zsh");
    reveal_strlit("install_plugins");
    reveal_strlit("install_zsh");
    reveal_strlit("refresh_package_cache");
    reveal_strlit("set_default_shell");
    reveal_strlit("set_zsh_theme");
    assert("install_compose"@.len() == 15);
    assert("clear_shell"@.len() == 11);
    assert("detect_distro"@.len() == 13);
    assert("install_docker"@.len() == 14);
    assert("install_oh_my_zsh"@.len() == 17);
    assert("install_compose"@[8] == 'c' && "install_plugins"@[8] == 'p');
    assert("install_zsh"@.len() == 11);
    assert("refresh_package_cache"@.len() == 21);
    assert("set_default_shell"@.len() == 17);
    assert("set_zsh_theme"@.len() == 13);
    assert(dispatch_system_spec("install_compose"@, args, env) is None);
}

proof fn lemma_dispatch_clear_docker(args: ArgsV, env: ExecuteEnv)
    ensures
        dispatch_spec("clear_docker"@, args, env) == Ok::<TaskV, Seq<char>>(TaskV::ClearDocker),
{
    reveal_strlit("add_user_to_docker_group");
    reveal_strlit("clear_docker");
    reveal_strlit("clear_shell");
    reveal_strlit("detect_distro");
    reveal_strlit("install_compose");
    reveal_strlit("install_docker");
    reveal_strlit("install_oh_my_zsh");
    reveal_strlit("install_plugins");
    reveal_strlit("install_zsh");
    reveal_strlit("refresh_package_cache");
    reveal_strlit("set_default_shell");
    reveal_strlit("set_zsh_theme");
    reveal_strlit("start_docker_service");
    assert("clear_docker"@.len() == 12);
    assert("add_user_to_docker_group"@.len() == 24);
    assert("clear_shell"@.len() == 11);
    assert("detect_distro"@.len() == 13);
    assert("install_compose"@.len() == 15);
    assert("install_docker"@.len() == 14);
    assert("install_oh_my_zsh"@.len() == 17);
    assert("install_plugins"@.len() == 15);
    assert("install_zsh"@.len() == 11);
    assert("refresh_package_cache"@.len() == 21);
    assert("set_default_shell"@.len() == 17);
    assert("set_zsh_theme"@.len() == 13);
    assert("start_docker_service"@.len() == 20);
    assert(dispatch_system_spec("clear_docker"@, args, env) is None);
}

proof fn lemma_dispatch_read_public_key(args: ArgsV, env: ExecuteEnv)
    ensures
        dispatch_spec("read_public_key"@, args, env) == Ok::<TaskV, Seq<char>>(TaskV::ReadPublicKey),
{
    reveal_strlit("add_user_to_docker_group");
    reveal_strlit("clear_docker");
    reveal_strlit("clear_shell");
    reveal_strlit("detect_distro");
    reveal_strlit("generate_ed25519_key");
    reveal_strlit("generate_rsa_key");
    reveal_strlit("install_compose");
    reveal_strlit("install_docker");
    reveal_strlit("install_oh_my_zsh");
    reveal_strlit("install_plugins");
    reveal_strlit("install_zsh");
    reveal_strlit("read_public_key");
    reveal_strlit("refresh_package_cache");
    reveal_strlit("set_default_shell");
    reveal_strlit("set_zsh_theme");
    reveal_strlit("start_docker_service");
    assert("read_public_key"@.len() == 15);
    assert("add_user_to_docker_group"@.len() == 24);
    assert("clear_docker"@.len() == 12);
    assert("clear_shell"@.len() == 11);
    assert("detect_distro"@.len() == 13);
    assert("generate_ed25519_key"@.len() == 20);
    assert("generate_rsa_key"@.len() == 16);
    assert("read_public_key"@[0] == 'r' && "install_compose"@[0] == 'i');
    assert("install_docker"@.len() == 14);
    assert("install_oh_my_zsh"@.len() == 17);
    assert("read_public_key"@[0] == 'r' && "install_plugins"@[0] == 'i');
    assert("install_zsh"@.len() == 11);
    assert("refresh_package_cache"@.len() == 21);
    assert("set_default_shell"@.len() == 17);
    assert("set_zsh_theme"@.len() == 13);
    assert("start_docker_service"@.len() == 20);
    assert(dispatch_system_spec("read_public_key"@, args, env) is None);
    assert(dispatch_docker_spec("read_public_key"@, args, env) is None);
}

proof fn lemma_dispatch_clear_ssh_keys(args: ArgsV, env: ExecuteEnv)
    ensures
        dispatch_spec("clear_ssh_keys"@, args, env) == Ok::<TaskV, Seq<char>>(TaskV::ClearSshKeys),
{
    reveal_strlit("add_user_to_docker_group");
    reveal_strlit("clear_docker");
    reveal_strlit("clear_shell");
    reveal_strlit("clear_ssh_keys");
    reveal_strlit("detect_distro");
    reveal_strlit("generate_ed25519_key");
    reveal_strlit("generate_rsa_key");
    reveal_strlit("install_compose");
    reveal_strlit("install_docker");
    reveal_strlit("install_oh_my_zsh");
    reveal_strlit("install_plugins");
    reveal_strlit("install_zsh");
    reveal_strlit("read_public_key");
    reveal_strlit("refresh_package_cache");
    reveal_strlit("set_default_shell");
    reveal_strlit("set_zsh_theme");
    reveal_strlit("start_docker_service");
    assert("clear_ssh_keys"@.len() == 14);
    assert("add_user_to_docker_group"@.len() == 24);
    assert("clear_docker"@.len() == 12);
    assert("clear_shell"@.len() == 11);
    assert("detect_distro"@.len() == 13);
    assert("generate_ed25519_key"@.len() == 20);
    assert("generate_rsa_key"@.len() == 16);
    assert("install_compose"@.len() == 15);
    assert("clear_ssh_keys"@[0] == 'c' && "install_docker"@[0] == 'i');
    assert("install_oh_my_zsh"@.len() == 17);
    assert("install_plugins"@.len() == 15);
    assert("install_zsh"@.len() == 11);
    assert("read_public_key"@.len() == 15);
    assert("refresh_package_cache"@.len() == 21);
    assert("set_default_shell"@.len() == 17);
    assert("set_zsh_theme"@.len() == 13);
    assert("start_docker_service"@.len() == 20);
    assert(dispatch_system_spec("clear_ssh_keys"@, args, env) is None);
    assert(dispatch_docker_spec("clear_ssh_keys"@, args, env) is None);
}

proof fn lemma_dispatch_install_ssh_server(args: ArgsV, env: ExecuteEnv)
    ensures
        dispatch_spec("install_ssh_server"@, args, env) == Ok::<TaskV, Seq<char>>(TaskV::InstallSshServer),
{
    reveal_strlit("add_user_to_docker_group");
    reveal_strlit("clear_docker");
    reveal_strlit("clear_shell");
    reveal_strlit("clear_ssh_keys");
    reveal_strlit("detect_distro");
    reveal_strlit("generate_ed25519_key");
    reveal_strlit("generate_rsa_key");
    reveal_strlit("install_compose");
    reveal_strlit("install_docker");
    reveal_strlit("install_oh_my_zsh");
    reveal_strlit("install_plugins");
    reveal_strlit("install_ssh_server");
    reveal_strlit("install_zsh");
    reveal_strlit("read_public_key");
    reveal_strlit("refresh_package_cache");
    reveal_strlit("set_default_shell");
    reveal_strlit("set_zsh_theme");
    reveal_strlit("start_docker_service");
    assert("install_ssh_server"@.len() == 18);
    assert("add_user_to_docker_group"@.len() == 24);
    assert("clear_docker"@.len() == 12);
    assert("clear_shell"@.len() == 11);
    assert("clear_ssh_keys"@.len() == 14);
    assert("detect_distro"@.len() == 13);
    assert("generate_ed25519_key"@.len() == 20);
    assert("generate_rsa_key"@.len() == 16);
    assert("install_compose"@.len() == 15);
    assert("install_docker"@.len() == 14);
    assert("install_oh_my_zsh"@.len() == 17);
    assert("install_plugins"@.len() == 15);
    assert("install_zsh"@.len() == 11);
    assert("read_public_key"@.len() == 15);
    assert("refresh_package_cache"@.len() == 21);
    assert("set_default_shell"@.len() == 17);
    assert("set_zsh_theme"@.len() == 13);
    assert("start_docker_service"@.len() == 20);
    assert(dispatch_system_spec("install_ssh_server"@, args, env) is None);
    assert(dispatch_docker_spec("install_ssh_server"@, args, env) is None);
}

proof fn lemma_dispatch_disable_root_login(args: ArgsV, env: ExecuteEnv)
    ensures
        dispatch_spec("disable_root_login"@, args, env) == Ok::<TaskV, Seq<char>>(TaskV::DisableRootLogin),
{
    reveal_strlit("add_user_to_docker_group");
    reveal_strlit("clear_docker");
    reveal_strlit("clear_shell");
    reveal_strlit("clear_ssh_keys");
    reveal_strlit("detect_distro");
    reveal_strlit("disable_root_login");
    reveal_strlit("generate_ed25519_key");
    reveal_strlit("generate_rsa_key");
    reveal_strlit("install_compose");
    reveal_strlit("install_docker");
    reveal_strlit("install_oh_my_zsh");
    reveal_strlit("install_plugins");
    reveal_strlit("install_ssh_server");
    reveal_strlit("install_zsh");
    reveal_strlit("read_public_key");
    reveal_strlit("refresh_package_cache");
    reveal_strlit("set_default_shell");
    reveal_strlit("set_zsh_theme");
    reveal_strlit("start_docker_service");
    assert("disable_root_login"@.len() == 18);
    assert("add_user_to_docker_group"@.len() == 24);
    assert("clear_docker"@.len() == 12);
    assert("clear_shell"@.len() == 11);
    assert("clear_ssh_keys"@.len() == 14);
    assert("detect_distro"@.len() == 13);
    assert("generate_ed25519_key"@.len() == 20);
    assert("generate_rsa_key"@.len() == 16);
    assert("install_compose"@.len() == 15);
    assert("install_docker"@.len() == 14);
    assert("install_oh_my_zsh"@.len() == 17);
    assert("install_plugins"@.len() == 15);
    assert("disable_root_login"@[0] == 'd' && "install_ssh_server"@[0] == 'i');
    assert("install_zsh"@.len() == 11);
    assert("read_public_key"@.len() == 15);
    assert("refresh_package_cache"@.len() == 21);
    assert("set_default_shell"@.len() == 17);
    assert("set_zsh_theme"@.len() == 13);
    assert("start_docker_service"@.len() == 20);
    assert(dispatch_system_spec("disable_root_login"@, args, env) is None);
    assert(dispatch_docker_spec("disable_root_login"@, args, env) is None);
}

proof fn lemma_dispatch_clear_ssh_server(args: ArgsV, env: ExecuteEnv)
    ensures
        dispatch_spec("clear_ssh_server"@, args, env) == Ok::<TaskV, Seq<char>>(TaskV::ClearSshServer),
{
    reveal_strlit("add_user_to_docker_group");
    reveal_strlit("clear_docker");
    reveal_strlit("clear_shell");
    reveal_strlit("clear_ssh_keys");
    reveal_strlit("clear_ssh_server");
    reveal_strlit("detect_distro");
    reveal_strlit("disable_root_login");
    reveal_strlit("generate_ed25519_key");
    reveal_strlit("generate_rsa_key");
    reveal_strlit("install_compose");
    reveal_strlit("install_docker");
    reveal_strlit("install_oh_my_zsh");
    reveal_strlit("install_plugins");
    reveal_strlit("install_ssh_server");
    reveal_strlit("install_zsh");
    reveal_strlit("read_public_key");
    reveal_strlit("refresh_package_cache");
    reveal_strlit("set_default_shell");
    reveal_strlit("set_zsh_theme");
    reveal_strlit("start_docker_service");
    reveal_strlit("start_ssh_service");
    assert("clear_ssh_server"@.len() == 16);
    assert("add_user_to_docker_group"@.len() == 24);
    assert("clear_docker"@.len() == 12);
    assert("clear_shell"@.len() == 11);
    assert("clear_ssh_keys"@.len() == 14);
    assert("detect_distro"@.len() == 13);
    assert("disable_root_login"@.len() == 18);
    assert("generate_ed25519_key"@.len() == 20);
    assert("clear_ssh_server"@[0] == 'c' && "generate_rsa_key"@[0] == 'g');
    assert("install_compose"@.len() == 15);
    assert("install_docker"@.len() == 14);
    assert("install_oh_my_zsh"@.len() == 17);
    assert("install_plugins"@.len() == 15);
    assert("install_ssh_server"@.len() == 18);
    assert("install_zsh"@.len() == 11);
    assert("read_public_key"@.len() == 15);
    assert("refresh_package_cache"@.len() == 21);
    assert("set_default_shell"@.len() == 17);
    assert("set_zsh_theme"@.len() == 13);
    assert("start_docker_service"@.len() == 20);
    assert("start_ssh_service"@.len() == 17);
    assert(dispatch_system_spec("clear_ssh_server"@, args, env) is None);
    assert(dispatch_docker_spec("clear_ssh_server"@, args, env) is None);
}

proof fn lemma_dispatch_install_vim(args: ArgsV, env: ExecuteEnv)
    ensures
        dispatch_spec("install_vim"@, args, env) == Ok::<TaskV, Seq<char>>(TaskV::InstallVim),
{
    reveal_strlit("add_user_to_docker_group");
    reveal_strlit("clear_docker");
    reveal_strlit("clear_shell");
    reveal_strlit("clear_ssh_keys");
    reveal_strlit("clear_ssh_server");
    reveal_strlit("configure_aliases");
    reveal_strlit("configure_direnv_hook");
    reveal_strlit("detect_distro");
    reveal_strlit("disable_root_login");
    reveal_strlit("generate_ed25519_key");
    reveal_strlit("generate_rsa_key");
    reveal_strlit("install_compose");
    reveal_strlit("install_docker");
    reveal_strlit("install_oh_my_zsh");
    reveal_strlit("install_plugins");
    reveal_strlit("install_ssh_server");
    reveal_strlit("install_tools");
    reveal_strlit("install_vim");
    reveal_strlit("install_zsh");
    reveal_strlit("read_public_key");
    reveal_strlit("refresh_package_cache");
    reveal_strlit("set_default_shell");
    reveal_strlit("set_zsh_theme");
    reveal_strlit("start_docker_service");
    reveal_strlit("start_ssh_service");
    assert("install_vim"@.len() == 11);
    assert("add_user_to_docker_group"@.len() == 24);
    assert("clear_docker"@.len() == 12);
    assert("install_vim"@[0] == 'i' && "clear_shell"@[0] == 'c');
    assert("clear_ssh_keys"@.len() == 14);
    assert("clear_ssh_server"@.len() == 16);
    assert("configure_aliases"@.len() == 17);
    assert("configure_direnv_hook"@.len() == 21);
    assert("detect_distro"@.len() == 13);
    assert("disable_root_login"@.len() == 18);
    assert("generate_ed25519_key"@.len() == 20);
    assert("generate_rsa_key"@.len() == 16);
    assert("install_compose"@.len() == 15);
    assert("install_docker"@.len() == 14);
    assert("install_oh_my_zsh"@.len() == 17);
    assert("install_plugins"@.len() == 15);
    assert("install_ssh_server"@.len() == 18);
    assert("install_tools"@.len() == 13);
    assert("install_vim"@[8] == 'v' && "install_zsh"@[8] == 'z');
    assert("read_public_key"@.len() == 15);
    assert("refresh_package_cache"@.len() == 21);
    assert("set_default_shell"@.len() == 17);
    assert("set_zsh_theme"@.len() == 13);
    assert("start_docker_service"@.len() == 20);
    assert("start_ssh_service"@.len() == 17);
    assert(dispatch_system_spec("install_vim"@, args, env) is None);
    assert(dispatch_docker_spec("install_vim"@, args, env) is None);
    assert(dispatch_ssh_spec("install_vim"@, args, env) is None);
}

proof fn lemma_dispatch_install_vundle(args: ArgsV, env: ExecuteEnv)
    ensures
        dispatch_spec("install_vundle"@, args, env) == Ok::<TaskV, Seq<char>>(TaskV::InstallVundle),
{
    reveal_strlit("add_user_to_docker_group");
    reveal_strlit("clear_docker");
    reveal_strlit("clear_shell");
    reveal_strlit("clear_ssh_keys");
    reveal_strlit("clear_ssh_server");
    reveal_strlit("configure_aliases");
    reveal_strlit("configure_direnv_hook");
    reveal_strlit("detect_distro");
    reveal_strlit("disable_root_login");
    reveal_strlit("generate_ed25519_key");
    reveal_strlit("generate_rsa_key");
    reveal_strlit("install_compose");
    reveal_strlit("install_docker");
    reveal_strlit("install_oh_my_zsh");
    reveal_strlit("install_plugins");
    reveal_strlit("install_ssh_server");
    reveal_strlit("install_tools");
    reveal_strlit("install_vim");
    reveal_strlit("install_vundle");
    reveal_strlit("install_zsh");
    reveal_strlit("read_public_key");
    reveal_strlit("refresh_package_cache");
    reveal_strlit("set_default_shell");
    reveal_strlit("set_zsh_theme");
    reveal_strlit("start_docker_service");
    reveal_strlit("start_ssh_service");
    assert("install_vundle"@.len() == 14);
    assert("add_user_to_docker_group"@.len() == 24);
    assert("clear_docker"@.len() == 12);
    assert("clear_shell"@.len() == 11);
    assert("install_vundle"@[0] == 'i' && "clear_ssh_keys"@[0] == 'c');
    assert("clear_ssh_server"@.len() == 16);
    assert("configure_aliases"@.len() == 17);
    assert("configure_direnv_hook"@.len() == 21);
    assert("detect_distro"@.len() == 13);
    assert("disable_root_login"@.len() == 18);
    assert("generate_ed25519_key"@.len() == 20);
    assert("generate_rsa_key"@.len() == 16);
    assert("install_compose"@.len() == 15);
    assert("install_vundle"@[8] == 'v' && "install_docker"@[8] == 'd');
    assert("install_oh_my_zsh"@.len() == 17);
    assert("install_plugins"@.len() == 15);
    assert("install_ssh_server"@.len() == 18);
    assert("install_tools"@.len() == 13);
    assert("install_vim"@.len() == 11);
    assert("install_zsh"@.len() == 11);
    assert("read_public_key"@.len() == 15);
    assert("refresh_package_cache"@.len() == 21);
    assert("set_default_shell"@.len() == 17);
    assert("set_zsh_theme"@.len() == 13);
    assert("start_docker_service"@.len() == 20);
    assert("start_ssh_service"@.len() == 17);
    assert(dispatch_system_spec("install_vundle"@, args, env) is None);
    assert(dispatch_docker_spec("install_vundle"@, args, env) is None);
    assert(dispatch_ssh_spec("install_vundle"@, args, env) is None);
}

proof fn lemma_dispatch_install_nvm(args: ArgsV, env: ExecuteEnv)
    ensures
        dispatch_spec("install_nvm"@, args, env) == Ok::<TaskV, Seq<char>>(TaskV::InstallNvm),
{
    reveal_strlit("add_user_to_docker_group");
    reveal_strlit("clear_docker");
    reveal_strlit("clear_shell");
    reveal_strlit("clear_ssh_keys");
    reveal_strlit("clear_ssh_server");
    reveal_strlit("configure_aliases");
    reveal_strlit("configure_direnv_hook");
    reveal_strlit("detect_distro");
    reveal_strlit("disable_root_login");
    reveal_strlit("generate_ed25519_key");
    reveal_strlit("generate_rsa_key");
    reveal_strlit("install_compose");
    reveal_strlit("install_docker");
    reveal_strlit("install_nvm");
    reveal_strlit("install_oh_my_zsh");
    reveal_strlit("install_plugins");
    reveal_strlit("install_ssh_server");
    reveal_strlit("install_tools");
    reveal_strlit("install_vim");
    reveal_strlit("install_vundle");
    reveal_strlit("install_zsh");
    reveal_strlit("read_public_key");
    reveal_strlit("refresh_package_cache");
    reveal_strlit("set_default_shell");
    reveal_strlit("set_zsh_theme");
    reveal_strlit("start_docker_service");
    reveal_strlit("start_ssh_service");
    reveal_strlit("write_vimrc");
    assert("install_nvm"@.len() == 11);
    assert("add_user_to_docker_group"@.len() == 24);
    assert("clear_docker"@.len() == 12);
    assert("install_nvm"@[0] == 'i' && "clear_shell"@[0] == 'c');
    assert("clear_ssh_keys"@.len() == 14);
    assert("clear_ssh_server"@.len() == 16);
    assert("configure_aliases"@.len() == 17);
    assert("configure_direnv_hook"@.len() == 21);
    assert("detect_distro"@.len() == 13);
    assert("disable_root_login"@.len() == 18);
    assert("generate_ed25519_key"@.len() == 20);
    assert("generate_rsa_key"@.len() == 16);
    assert("install_compose"@.len() == 15);
    assert("install_docker"@.len() == 14);
    assert("install_oh_my_zsh"@.len() == 17);
    assert("install_plugins"@.len() == 15);
    assert("install_ssh_server"@.len() == 18);
    assert("install_tools"@.len() == 13);
    assert("install_nvm"@[8] == 'n' && "install_vim"@[8] == 'v');
    assert("install_vundle"@.len() == 14);
    assert("install_nvm"@[8] == 'n' && "install_zsh"@[8] == 'z');
    assert("read_public_key"@.len() == 15);
    assert("refresh_package_cache"@.len() == 21);
    assert("set_default_shell"@.len() == 17);
    assert("set_zsh_theme"@.len() == 13);
    assert("start_docker_service"@.len() == 20);
    assert("start_ssh_service"@.len() == 17);
    assert("install_nvm"@[0] == 'i' && "write_vimrc"@[0] == 'w');
    assert(dispatch_system_spec("install_nvm"@, args, env) is None);
    assert(dispatch_docker_spec("install_nvm"@, args, env) is None);
    assert(dispatch_ssh_spec("install_nvm"@, args, env) is None);
}

proof fn lemma_dispatch_install_node_latest(args: ArgsV, env: ExecuteEnv)
    ensures
        dispatch_spec("install_node_latest"@, args, env) == Ok::<TaskV, Seq<char>>(TaskV::InstallNodeLatest),
{
    reveal_strlit("add_user_to_docker_group");
    reveal_strlit("clear_docker");
    reveal_strlit("clear_shell");
    reveal_strlit("clear_ssh_keys");
    reveal_strlit("clear_ssh_server");
    reveal_strlit("configure_aliases");
    reveal_strlit("configure_direnv_hook");
    reveal_strlit("detect_distro");
    reveal_strlit("disable_root_login");
    reveal_strlit("generate_ed25519_key");
    reveal_strlit("generate_rsa_key");
    reveal_strlit("install_compose");
    reveal_strlit("install_docker");
    reveal_strlit("install_node_latest");
    reveal_strlit("install_nvm");
    reveal_strlit("install_oh_my_zsh");
    reveal_strlit("install_plugins");
    reveal_strlit("install_ssh_server");
    reveal_strlit("install_tools");
    reveal_strlit("install_vim");
    reveal_strlit("install_vundle");
    reveal_strlit("install_zsh");
    reveal_strlit("read_public_key");
    reveal_strlit("refresh_package_cache");
    reveal_strlit("set_default_shell");
    reveal_strlit("set_zsh_theme");
    reveal_strlit("start_docker_service");
    reveal_strlit("start_ssh_service");
    reveal_strlit("write_vimrc");
    assert("install_node_latest"@.len() == 19);
    assert("add_user_to_docker_group"@.len() == 24);
    assert("clear_docker"@.len() == 12);
    assert("clear_shell"@.len() == 11);
    assert("clear_ssh_keys"@.len() == 14);
    assert("clear_ssh_server"@.len() == 16);
    assert("configure_aliases"@.len() == 17);
    assert("configure_direnv_hook"@.len() == 21);
    assert("detect_distro"@.len() == 13);
    assert("disable_root_login"@.len() == 18);
    assert("generate_ed25519_key"@.len() == 20);
    assert("generate_rsa_key"@.len() == 16);
    assert("install_compose"@.len() == 15);
    assert("install_docker"@.len() == 14);
    assert("install_nvm"@.len() == 11);
    assert("install_oh_my_zsh"@.len() == 17);
    assert("install_plugins"@.len() == 15);
    assert("install_ssh_server"@.len() == 18);
    assert("install_tools"@.len() == 13);
    assert("install_vim"@.len() == 11);
    assert("install_vundle"@.len() == 14);
    assert("install_zsh"@.len() == 11);
    assert("read_public_key"@.len() == 15);
    assert("refresh_package_cache"@.len() == 21);
    assert("set_default_shell"@.len() == 17);
    assert("set_zsh_theme"@.len() == 13);
    assert("start_docker_service"@.len() == 20);
    assert("start_ssh_service"@.len() == 17);
    assert("write_vimrc"@.len() == 11);
    assert(dispatch_system_spec("install_node_latest"@, args, env) is None);
    assert(dispatch_docker_spec("install_node_latest"@, args, env) is None);
    assert(dispatch_ssh_spec("install_node_latest"@, args, env) is None);
}

proof fn lemma_dispatch_install_node_lts(args: ArgsV, env: ExecuteEnv)
    ensures
        dispatch_spec("install_node_lts"@, args, env) == Ok::<TaskV, Seq<char>>(TaskV::InstallNodeLts),
{
    reveal_strlit("add_user_to_docker_group");
    reveal_strlit("clear_docker");
    reveal_strlit("clear_shell");
    reveal_strlit("clear_ssh_keys");
    reveal_strlit("clear_ssh_server");
    reveal_strlit("configure_aliases");
    reveal_strlit("configure_direnv_hook");
    reveal_strlit("detect_distro");
    reveal_strlit("disable_root_login");
    reveal_strlit("generate_ed25519_key");
    reveal_strlit("generate_rsa_key");
    reveal_strlit("install_compose");
    reveal_strlit("install_docker");
    reveal_strlit("install_node_latest");
    reveal_strlit("install_node_lts");
    reveal_strlit("install_nvm");
    reveal_strlit("install_oh_my_zsh");
    reveal_strlit("install_plugins");
    reveal_strlit("install_ssh_server");
    reveal_strlit("install_tools");
    reveal_strlit("install_vim");
    reveal_strlit("install_vundle");
    reveal_strlit("install_zsh");
    reveal_strlit("read_public_key");
    reveal_strlit("refresh_package_cache");
    reveal_strlit("set_default_shell");
    reveal_strlit("set_zsh_theme");
    reveal_strlit("start_docker_service");
    reveal_strlit("start_ssh_service");
    reveal_strlit("write_vimrc");
    assert("install_node_lts"@.len() == 16);
    assert("add_user_to_docker_group"@.len() == 24);
    assert("clear_docker"@.len() == 12);
    assert("clear_shell"@.len() == 11);
    assert("clear_ssh_keys"@.len() == 14);
    assert("install_node_lts"@[0] == 'i' && "clear_ssh_server"@[0] == 'c');
    assert("configure_aliases"@.len() == 17);
    assert("configure_direnv_hook"@.len() == 21);
    assert("detect_distro"@.len() == 13);
    assert("disable_root_login"@.len() == 18);
    assert("generate_ed25519_key"@.len() == 20);
    assert("install_node_lts"@[0] == 'i' && "generate_rsa_key"@[0] == 'g');
    assert("install_compose"@.len() == 15);
    assert("install_docker"@.len() == 14);
    assert("install_node_latest"@.len() == 19);
    assert("install_nvm"@.len() == 11);
    assert("install_oh_my_zsh"@.len() == 17);
    assert("install_plugins"@.len() == 15);
    assert("install_ssh_server"@.len() == 18);
    assert("install_tools"@.len() == 13);
    assert("install_vim"@.len() == 11);
    assert("install_vundle"@.len() == 14);
    assert("install_zsh"@.len() == 11);
    assert("read_public_key"@.len() == 15);
    assert("refresh_package_cache"@.len() == 21);
    assert("set_default_shell"@.len() == 17);
    assert("set_zsh_theme"@.len() == 13);
    assert("start_docker_service"@.len() == 20);
    assert("start_ssh_service"@.len() == 17);
    assert("write_vimrc"@.len() == 11);
    assert(dispatch_system_spec("install_node_lts"@, args, env) is None);
    assert(dispatch_docker_spec("install_node_lts"@, args, env) is None);
    assert(dispatch_ssh_spec("install_node_lts"@, args, env) is None);
}

proof fn lemma_dispatch_clear_nvm(args: ArgsV, env: ExecuteEnv)
    ensures
        dispatch_spec("clear_nvm"@, args, env) == Ok::<TaskV, Seq<char>>(TaskV::ClearNvm),
{
    reveal_strlit("add_user_to_docker_group");
    reveal_strlit("clear_docker");
    reveal_strlit("clear_nvm");
    reveal_strlit("clear_shell");
    reveal_strlit("clear_ssh_keys");
    reveal_strlit("clear_ssh_server");
    reveal_strlit("configure_aliases");
    reveal_strlit("configure_direnv_hook");
    reveal_strlit("detect_distro");
    reveal_strlit("disable_root_login");
    reveal_strlit("generate_ed25519_key");
    reveal_strlit("generate_rsa_key");
    reveal_strlit("install_compose");
    reveal_strlit("install_docker");
    reveal_strlit("install_node_latest");
    reveal_strlit("install_node_lts");
    reveal_strlit("install_nvm");
    reveal_strlit("install_oh_my_zsh");
    reveal_strlit("install_plugins");
    reveal_strlit("install_ssh_server");
    reveal_strlit("install_tools");
    reveal_strlit("install_vim");
    reveal_strlit("install_vundle");
    reveal_strlit("install_zsh");
    reveal_strlit("read_public_key");
    reveal_strlit("refresh_package_cache");
    reveal_strlit("set_default_shell");
    reveal_strlit("set_zsh_theme");
    reveal_strlit("start_docker_service");
    reveal_strlit("start_ssh_service");
    reveal_strlit("write_vimrc");
    assert("clear_nvm"@.len() == 9);
    assert("add_user_to_docker_group"@.len() == 24);
    assert("clear_docker"@.len() == 12);
    assert("clear_shell"@.len() == 11);
    assert("clear_ssh_keys"@.len() == 14);
    assert("clear_ssh_server"@.len() == 16);
    assert("configure_aliases"@.len() == 17);
    assert("configure_direnv_hook"@.len() == 21);
    assert("detect_distro"@.len() == 13);
    assert("disable_root_login"@.len() == 18);
    assert("generate_ed25519_key"@.len() == 20);
    assert("generate_rsa_key"@.len() == 16);
    assert("install_compose"@.len() == 15);
    assert("install_docker"@.len() == 14);
    assert("install_node_latest"@.len() == 19);
    assert("install_node_lts"@.len() == 16);
    assert("install_nvm"@.len() == 11);
    assert("install_oh_my_zsh"@.len() == 17);
    assert("install_plugins"@.len() == 15);
    assert("install_ssh_server"@.len() == 18);
    assert("install_tools"@.len() == 13);
    assert("install_vim"@.len() == 11);
    assert("install_vundle"@.len() == 14);
    assert("install_zsh"@.len() == 11);
    assert("read_public_key"@.len() == 15);
    assert("refresh_package_cache"@.len() == 21);
    assert("set_default_shell"@.len() == 17);
    assert("set_zsh_theme"@.len() == 13);
    assert("start_docker_service"@.len() == 20);
    assert("start_ssh_service"@.len() == 17);
    assert("write_vimrc"@.len() == 11);
    assert(dispatch_system_spec("clear_nvm"@, args, env) is None);
    assert(dispatch_docker_spec("clear_nvm"@, args, env) is None);
    assert(dispatch_ssh_spec("clear_nvm"@, args, env) is None);
}

proof fn lemma_dispatch_configure_locale(args: ArgsV, env: ExecuteEnv)
    ensures
        dispatch_spec("configure_locale"@, args, env) == Ok::<TaskV, Seq<char>>(TaskV::ConfigureLocale),
{
    reveal_strlit("add_user_to_docker_group");
    reveal_strlit("clear_docker");
    reveal_strlit("clear_nvm");
    reveal_strlit("clear_shell");
    reveal_strlit("clear_ssh_keys");
    reveal_strlit("clear_ssh_server");
    reveal_strlit("configure_aliases");
    reveal_strlit("configure_direnv_hook");
    reveal_strlit("configure_locale");
    reveal_strlit("detect_distro");
    reveal_strlit("disable_root_login");
    reveal_strlit("generate_ed25519_key");
    reveal_strlit("generate_rsa_key");
    reveal_strlit("install_compose");
    reveal_strlit("install_docker");
    reveal_strlit("install_node_latest");
    reveal_strlit("install_node_lts");
    reveal_strlit("install_nvm");
    reveal_strlit("install_oh_my_zsh");
    reveal_strlit("install_plugins");
    reveal_strlit("install_ssh_server");
    reveal_strlit("install_tools");
    reveal_strlit("install_vim");
    reveal_strlit("install_vundle");
    reveal_strlit("install_zsh");
    reveal_strlit("read_public_key");
    reveal_strlit("refresh_package_cache");
    reveal_strlit("set_default_shell");
    reveal_strlit("set_zsh_theme");
    reveal_strlit("start_docker_service");
    reveal_strlit("start_ssh_service");
    reveal_strlit("write_vimrc");
    assert("configure_locale"@.len() == 16);
    assert("add_user_to_docker_group"@.len() == 24);
    assert("clear_docker"@.len() == 12);
    assert("clear_nvm"@.len() == 9);
    assert("clear_shell"@.len() == 11);
    assert("clear_ssh_keys"@.len() == 14);
    assert("configure_locale"@[1] == 'o' && "clear_ssh_server"@[1] == 'l');
    assert("configure_aliases"@.len() == 17);
    assert("configure_direnv_hook"@.len() == 21);
    assert("detect_distro"@.len() == 13);
    assert("disable_root_login"@.len() == 18);
    assert("generate_ed25519_key"@.len() == 20);
    assert("configure_locale"@[0] == 'c' && "generate_rsa_key"@[0] == 'g');
    assert("install_compose"@.len() == 15);
    assert("install_docker"@.len() == 14);
    assert("install_node_latest"@.len() == 19);
    assert("configure_locale"@[0] == 'c' && "install_node_lts"@[0] == 'i');
    assert("install_nvm"@.len() == 11);
    assert("install_oh_my_zsh"@.len() == 17);
    assert("install_plugins"@.len() == 15);
    assert("install_ssh_server"@.len() == 18);
    assert("install_tools"@.len() == 13);
    assert("install_vim"@.len() == 11);
    assert("install_vundle"@.len() == 14);
    assert("install_zsh"@.len() == 11);
    assert("read_public_key"@.len() == 15);
    assert("refresh_package_cache"@.len() == 21);
    assert("set_default_shell"@.len() == 17);
    assert("set_zsh_theme"@.len() == 13);
    assert("start_docker_service"@.len() == 20);
    assert("start_ssh_service"@.len() == 17);
    assert("write_vimrc"@.len() == 11);
    assert(dispatch_system_spec("configure_locale"@, args, env) is None);
    assert(dispatch_docker_spec("configure_locale"@, args, env) is None);
    assert(dispatch_ssh_spec("configure_locale"@, args, env) is None);
    assert(dispatch_tools_spec("configure_locale"@, args, env) is None);
}

proof fn lemma_dispatch_install_cjk_fonts(args: ArgsV, env: ExecuteEnv)
    ensures
        dispatch_spec("install_cjk_fonts"@, args, env) == Ok::<TaskV, Seq<char>>(TaskV::InstallCjkFonts),
{
    reveal_strlit("add_user_to_docker_group");
    reveal_strlit("clear_docker");
    reveal_strlit("clear_nvm");
    reveal_strlit("clear_shell");
    reveal_strlit("clear_ssh_keys");
    reveal_strlit("clear_ssh_server");
    reveal_strlit("configure_aliases");
    reveal_strlit("configure_direnv_hook");
    reveal_strlit("configure_locale");
    reveal_strlit("detect_distro");
    reveal_strlit("disable_root_login");
    reveal_strlit("generate_ed25519_key");
    reveal_strlit("generate_rsa_key");
    reveal_strlit("install_cjk_fonts");
    reveal_strlit("install_compose");
    reveal_strlit("install_docker");
    reveal_strlit("install_node_latest");
    reveal_strlit("install_node_lts");
    reveal_strlit("install_nvm");
    reveal_strlit("install_oh_my_zsh");
    reveal_strlit("install_plugins");
    reveal_strlit("install_ssh_server");
    reveal_strlit("install_tools");
    reveal_strlit("install_vim");
    reveal_strlit("install_vundle");
    reveal_strlit("install_zsh");
    reveal_strlit("read_public_key");
    reveal_strlit("refresh_package_cache");
    reveal_strlit("set_default_shell");
    reveal_strlit("set_zsh_theme");
    reveal_strlit("start_docker_service");
    reveal_strlit("start_ssh_service");
    reveal_strlit("write_vimrc");
    assert("install_cjk_fonts"@.len() == 17);
    assert("add_user_to_docker_group"@.len() == 24);
    assert("clear_docker"@.len() == 12);
    assert("clear_nvm"@.len() == 9);
    assert("clear_shell"@.len() == 11);
    assert("clear_ssh_keys"@.len() == 14);
    assert("clear_ssh_server"@.len() == 16);
    assert("install_cjk_fonts"@[0] == 'i' && "configure_aliases"@[0] == 'c');
    assert("configure_direnv_hook"@.len() == 21);
    assert("configure_locale"@.len() == 16);
    assert("detect_distro"@.len() == 13);
    assert("disable_root_login"@.len() == 18);
    assert("generate_ed25519_key"@.len() == 20);
    assert("generate_rsa_key"@.len() == 16);
    assert("install_compose"@.len() == 15);
    assert("install_docker"@.len() == 14);
    assert("install_node_latest"@.len() == 19);
    assert("install_node_lts"@.len() == 16);
    assert("install_nvm"@.len() == 11);
    assert("install_cjk_fonts"@[8] == 'c' && "install_oh_my_zsh"@[8] == 'o');
    assert("install_plugins"@.len() == 15);
    assert("install_ssh_server"@.len() == 18);
    assert("install_tools"@.len() == 13);
    assert("install_vim"@.len() == 11);
    assert("install_vundle"@.len() == 14);
    assert("install_zsh"@.len() == 11);
    assert("read_public_key"@.len() == 15);
    assert("refresh_package_cache"@.len() == 21);
    assert("install_cjk_fonts"@[0] == 'i' && "set_default_shell"@[0] == 's');
    assert("set_zsh_theme"@.len() == 13);
    assert("start_docker_service"@.len() == 20);
    assert("install_cjk_fonts"@[0] == 'i' && "start_ssh_service"@[0] == 's');
    assert("write_vimrc"@.len() == 11);
    assert(dispatch_system_spec("install_cjk_fonts"@, args, env) is None);
    assert(dispatch_docker_spec("install_cjk_fonts"@, args, env) is None);
    assert(dispatch_ssh_spec("install_cjk_fonts"@, args, env) is None);
    assert(dispatch_tools_spec("install_cjk_fonts"@, args, env) is None);
}

proof fn lemma_dispatch_install_fcitx5(args: ArgsV, env: ExecuteEnv)
    ensures
        dispatch_spec("install_fcitx5"@, args, env) == Ok::<TaskV, Seq<char>>(TaskV::InstallFcitx5),
{
    reveal_strlit("add_user_to_docker_group");
    reveal_strlit("clear_docker");
    reveal_strlit("clear_nvm");
    reveal_strlit("clear_shell");
    reveal_strlit("clear_ssh_keys");
    reveal_strlit("clear_ssh_server");
    reveal_strlit("configure_aliases");
    reveal_strlit("configure_direnv_hook");
    reveal_strlit("configure_locale");
    reveal_strlit("detect_distro");
    reveal_strlit("disable_root_login");
    reveal_strlit("generate_ed25519_key");
    reveal_strlit("generate_rsa_key");
    reveal_strlit("install_cjk_fonts");
    reveal_strlit("install_compose");
    reveal_strlit("install_docker");
    reveal_strlit("install_fcitx5");
    reveal_strlit("install_node_latest");
    reveal_strlit("install_node_lts");
    reveal_strlit("install_nvm");
    reveal_strlit("install_oh_my_zsh");
    reveal_strlit("install_plugins");
    reveal_strlit("install_ssh_server");
    reveal_strlit("install_tools");
    reveal_strlit("install_vim");
    reveal_strlit("install_vundle");
    reveal_strlit("install_zsh");
    reveal_strlit("read_public_key");
    reveal_strlit("refresh_package_cache");
    reveal_strlit("set_default_shell");
    reveal_strlit("set_zsh_theme");
    reveal_strlit("start_docker_service");
    reveal_strlit("start_ssh_service");
    reveal_strlit("write_vimrc");
    assert("install_fcitx5"@.len() == 14);
    assert("add_user_to_docker_group"@.len() == 24);
    assert("clear_docker"@.len() == 12);
    assert("clear_nvm"@.len() == 9);
    assert("clear_shell"@.len() == 11);
    assert("install_fcitx5"@[0] == 'i' && "clear_ssh_keys"@[0] == 'c');
    assert("clear_ssh_server"@.len() == 16);
    assert("configure_aliases"@.len() == 17);
    assert("configure_direnv_hook"@.len() == 21);
    assert("configure_locale"@.len() == 16);
    assert("detect_distro"@.len() == 13);
    assert("disable_root_login"@.len() == 18);
    assert("generate_ed25519_key"@.len() == 20);
    assert("generate_rsa_key"@.len() == 16);
    assert("install_cjk_fonts"@.len() == 17);
    assert("install_compose"@.len() == 15);
    assert("install_fcitx5"@[8] == 'f' && "install_docker"@[8] == 'd');
    assert("install_node_latest"@.len() == 19);
    assert("install_node_lts"@.len() == 16);
    assert("install_nvm"@.len() == 11);
    assert("install_oh_my_zsh"@.len() == 17);
    assert("install_plugins"@.len() == 15);
    assert("install_ssh_server"@.len() == 18);
    assert("install_tools"@.len() == 13);
    assert("install_vim"@.len() == 11);
    assert("install_fcitx5"@[8] == 'f' && "install_vundle"@[8] == 'v');
    assert("install_zsh"@.len() == 11);
    assert("read_public_key"@.len() == 15);
    assert("refresh_package_cache"@.len() == 21);
    assert("set_default_shell"@.len() == 17);
    assert("set_zsh_theme"@.len() == 13);
    assert("start_docker_service"@.len() == 20);
    assert("start_ssh_service"@.len() == 17);
    assert("write_vimrc"@.len() == 11);
    assert(dispatch_system_spec("install_fcitx5"@, args, env) is None);
    assert(dispatch_docker_spec("install_fcitx5"@, args, env) is None);
    assert(dispatch_ssh_spec("install_fcitx5"@, args, env) is None);
    assert(dispatch_tools_spec("install_fcitx5"@, args, env) is None);
}

proof fn lemma_dispatch_clear_locale(args: ArgsV, env: ExecuteEnv)
    ensures
        dispatch_spec("clear_locale"@, args, env) == Ok::<TaskV, Seq<char>>(TaskV::ClearLocale),
{
    reveal_strlit("add_user_to_docker_group");
    reveal_strlit("clear_docker");
    reveal_strlit("clear_locale");
    reveal_strlit("clear_nvm");
    reveal_strlit("clear_shell");
    reveal_strlit("clear_ssh_keys");
    reveal_strlit("clear_ssh_server");
    reveal_strlit("configure_aliases");
    reveal_strlit("configure_direnv_hook");
    reveal_strlit("configure_locale");
    reveal_strlit("detect_distro");
    reveal_strlit("disable_root_login");
    reveal_strlit("generate_ed25519_key");
    reveal_strlit("generate_rsa_key");
    reveal_strlit("install_cjk_fonts");
    reveal_strlit("install_compose");
    reveal_strlit("install_docker");
    reveal_strlit("install_fcitx5");
    reveal_strlit("install_node_latest");
    reveal_strlit("install_node_lts");
    reveal_strlit("install_nvm");
    reveal_strlit("install_oh_my_zsh");
    reveal_strlit("install_plugins");
    reveal_strlit("install_ssh_server");
    reveal_strlit("install_tools");
    reveal_strlit("install_vim");
    reveal_strlit("install_vundle");
    reveal_strlit("install_zsh");
    reveal_strlit("read_public_key");
    reveal_strlit("refresh_package_cache");
    reveal_strlit("set_default_shell");
    reveal_strlit("set_zsh_theme");
    reveal_strlit("start_docker_service");
    reveal_strlit("start_ssh_service");
    reveal_strlit("write_vimrc");
    assert("clear_locale"@.len() == 12);
    assert("add_user_to_docker_group"@.len() == 24);
    assert("clear_locale"@[6] == 'l' && "clear_docker"@[6] == 'd');
    assert("clear_nvm"@.len() == 9);
    assert("clear_shell"@.len() == 11);
    assert("clear_ssh_keys"@.len() == 14);
    assert("clear_ssh_server"@.len() == 16);
    assert("configure_aliases"@.len() == 17);
    assert("configure_direnv_hook"@.len() == 21);
    assert("configure_locale"@.len() == 16);
    assert("detect_distro"@.len() == 13);
    assert("disable_root_login"@.len() == 18);
    assert("generate_ed25519_key"@.len() == 20);
    assert("generate_rsa_key"@.len() == 16);
    assert("install_cjk_fonts"@.len() == 17);
    assert("install_compose"@.len() == 15);
    assert("install_docker"@.len() == 14);
    assert("install_fcitx5"@.len() == 14);
    assert("install_node_latest"@.len() == 19);
    assert("install_node_lts"@.len() == 16);
    assert("install_nvm"@.len() == 11);
    assert("install_oh_my_zsh"@.len() == 17);
    assert("install_plugins"@.len() == 15);
    assert("install_ssh_server"@.len() == 18);
    assert("install_tools"@.len() == 13);
    assert("install_vim"@.len() == 11);
    assert("install_vundle"@.len() == 14);
    assert("install_zsh"@.len() == 11);
    assert("read_public_key"@.len() == 15);
    assert("refresh_package_cache"@.len() == 21);
    assert("set_default_shell"@.len() == 17);
    assert("set_zsh_theme"@.len() == 13);
    assert("start_docker_service"@.len() == 20);
    assert("start_ssh_service"@.len() == 17);
    assert("write_vimrc"@.len() == 11);
    assert(dispatch_system_spec("clear_locale"@, args, env) is None);
    assert(dispatch_docker_spec("clear_locale"@, args, env) is None);
    assert(dispatch_ssh_spec("clear_locale"@, args, env) is None);
    assert(dispatch_tools_spec("clear_locale"@, args, env) is None);
}

/// Law: the action named after a task without arguments yields exactly that
/// task, whatever the arguments and the environment: `clear_docker` gives
/// `ClearDocker`, `install_docker` gives `InstallDocker`, and so on.
pub proof fn law_action_gives_its_task(t: TaskV, args: ArgsV, env: ExecuteEnv)
    requires
        plain_task(t),
    ensures
        dispatch_spec(task_action(t), args, env) == Ok::<TaskV, Seq<char>>(t),
{
    match t {
        TaskV::DetectDistro => lemma_dispatch_detect_distro(args, env),
        TaskV::RefreshPackageCache => lemma_dispatch_refresh_package_cache(args, env),
        TaskV::InstallZsh => lemma_dispatch_install_zsh(args, env),
        TaskV::InstallOhMyZsh => lemma_dispatch_install_oh_my_zsh(args, env),
        TaskV::ClearShell => lemma_dispatch_clear_shell(args, env),
        TaskV::InstallDocker => lemma_dispatch_install_docker(args, env),
        TaskV::InstallCompose => lemma_dispatch_install_compose(args, env),
        TaskV::ClearDocker => lemma_dispatch_clear_docker(args, env),
        TaskV::ReadPublicKey => lemma_dispatch_read_public_key(args, env),
        TaskV::ClearSshKeys => lemma_dispatch_clear_ssh_keys(args, env),
        TaskV::InstallSshServer => lemma_dispatch_install_ssh_server(args, env),
        TaskV::DisableRootLogin => lemma_dispatch_disable_root_login(args, env),
        TaskV::ClearSshServer => lemma_dispatch_clear_ssh_server(args, env),
        TaskV::InstallVim => lemma_dispatch_install_vim(args, env),
        TaskV::InstallVundle => lemma_dispatch_install_vundle(args, env),
        TaskV::InstallNvm => lemma_dispatch_install_nvm(args, env),
        TaskV::InstallNodeLatest => lemma_dispatch_install_node_latest(args, env),
        TaskV::InstallNodeLts => lemma_dispatch_install_node_lts(args, env),
        TaskV::ClearNvm => lemma_dispatch_clear_nvm(args, env),
        TaskV::ConfigureLocale => lemma_dispatch_configure_locale(args, env),
        TaskV::InstallCjkFonts => lemma_dispatch_install_cjk_fonts(args, env),
        TaskV::InstallFcitx5 => lemma_dispatch_install_fcitx5(args, env),
        TaskV::ClearLocale => lemma_dispatch_clear_locale(args, env),
        _ => {},
    }
}

proof fn lemma_dispatch_set_zsh_theme(args: ArgsV, env: ExecuteEnv)
    ensures
        dispatch_spec("set_zsh_theme"@, args, env) == (Result::<TaskV, Seq<char>>::Ok(TaskV::SetZshTheme(or_default(args.theme, "robbyrussell"@)))),
{
    reveal_strlit("detect_distro");
    reveal_strlit("install_oh_my_zsh");
    reveal_strlit("install_zsh");
    reveal_strlit("refresh_package_cache");
    reveal_strlit("set_zsh_theme");
    assert("set_zsh_theme"@.len() == 13);
    assert("set_zsh_theme"@[0] == 's' && "detect_distro"@[0] == 'd');
    assert("install_oh_my_zsh"@.len() == 17);
    assert("install_zsh"@.len() == 11);
    assert("refresh_package_cache"@.len() == 21);
}

proof fn lemma_dispatch_install_plugins(args: ArgsV, env: ExecuteEnv)
    ensures
        dispatch_spec("install_plugins"@, args, env) == (Result::<TaskV, Seq<char>>::Ok(if or_empty(args.plugins).len() == 0 { TaskV::Nothing } else { TaskV::InstallPlugins(or_empty(args.plugins)) })),
{
    reveal_strlit("detect_distro");
    reveal_strlit("install_oh_my_zsh");
    reveal_strlit("install_plugins");
    reveal_strlit("install_zsh");
    reveal_strlit("refresh_package_cache");
    reveal_strlit("set_zsh_theme");
    assert("install_plugins"@.len() == 15);
    assert("detect_distro"@.len() == 13);
    assert("install_oh_my_zsh"@.len() == 17);
    assert("install_zsh"@.len() == 11);
    assert("refresh_package_cache"@.len() == 21);
    assert("set_zsh_theme"@.len() == 13);
}

proof fn lemma_dispatch_set_default_shell(args: ArgsV, env: ExecuteEnv)
    ensures
        dispatch_spec("set_default_shell"@, args, env) == (if env.in_container { Result::<TaskV, Seq<char>>::Err("SKIP:chsh_not_available_in_container"@) } else { Result::<TaskV, Seq<char>>::Ok(TaskV::SetDefaultShell) }),
{
    reveal_strlit("detect_distro");
    reveal_strlit("install_oh_my_zsh");
    reveal_strlit("install_plugins");
    reveal_strlit("install_zsh");
    reveal_strlit("refresh_package_cache");
    reveal_strlit("set_default_shell");
    reveal_strlit("set_zsh_theme");
    assert("set_default_shell"@.len() == 17);
    assert("detect_distro"@.len() == 13);
    assert("set_default_shell"@[0] == 's' && "install_oh_my_zsh"@[0] == 'i');
    assert("install_plugins"@.len() == 15);
    assert("install_zsh"@.len() == 11);
    assert("refresh_package_cache"@.len() == 21);
    assert("set_zsh_theme"@.len() == 13);
}

proof fn lemma_dispatch_add_user_to_docker_group(args: ArgsV, env: ExecuteEnv)
    ensures
        dispatch_spec("add_user_to_docker_group"@, args, env) == (if env.is_root { Result::<TaskV, Seq<char>>::Err("SKIP:root_no_need_docker_group"@) } else { Result::<TaskV, Seq<char>>::Ok(TaskV::AddUserToDockerGroup) }),
{
    reveal_strlit("add_user_to_docker_group");
    reveal_strlit("clear_shell");
    reveal_strlit("detect_distro");
    reveal_strlit("install_compose");
    reveal_strlit("install_docker");
    reveal_strlit("install_oh_my_zsh");
    reveal_strlit("install_plugins");
    reveal_strlit("install_zsh");
    reveal_strlit("refresh_package_cache");
    reveal_strlit("set_default_shell");
    reveal_strlit("set_zsh_theme");
    assert("add_user_to_docker_group"@.len() == 24);
    assert("clear_shell"@.len() == 11);
    assert("detect_distro"@.len() == 13);
    assert("install_compose"@.len() == 15);
    assert("install_docker"@.len() == 14);
    assert("install_oh_my_zsh"@.len() == 17);
    assert("install_plugins"@.len() == 15);
    assert("install_zsh"@.len() == 11);
    assert("refresh_package_cache"@.len() == 21);
    assert("set_default_shell"@.len() == 17);
    assert("set_zsh_theme"@.len() == 13);
    assert(dispatch_system_spec("add_user_to_docker_group"@, args, env) is None);
}

proof fn lemma_dispatch_start_docker_service(args: ArgsV, env: ExecuteEnv)
    ensures
        dispatch_spec("start_docker_service"@, args, env) == (if env.in_container { Result::<TaskV, Seq<char>>::Err("SKIP:no_systemd_in_container"@) } else { Result::<TaskV, Seq<char>>::Ok(TaskV::StartDockerService) }),
{
    reveal_strlit("add_user_to_docker_group");
    reveal_strlit("clear_shell");
    reveal_strlit("detect_distro");
    reveal_strlit("install_compose");
    reveal_strlit("install_docker");
    reveal_strlit("install_oh_my_zsh");
    reveal_strlit("install_plugins");
    reveal_strlit("install_zsh");
    reveal_strlit("refresh_package_cache");
    reveal_strlit("set_default_shell");
    reveal_strlit("set_zsh_theme");
    reveal_strlit("start_docker_service");
    assert("start_docker_service"@.len() == 20);
    assert("add_user_to_docker_group"@.len() == 24);
    assert("clear_shell"@.len() == 11);
    assert("detect_distro"@.len() == 13);
    assert("install_compose"@.len() == 15);
    assert("install_docker"@.len() == 14);
    assert("install_oh_my_zsh"@.len() == 17);
    assert("install_plugins"@.len() == 15);
    assert("install_zsh"@.len() == 11);
    assert("refresh_package_cache"@.len() == 21);
    assert("set_default_shell"@.len() == 17);
    assert("set_zsh_theme"@.len() == 13);
    assert(dispatch_system_spec("start_docker_service"@, args, env) is None);
}

proof fn lemma_dispatch_generate_ed25519_key(args: ArgsV, env: ExecuteEnv)
    ensures
        dispatch_spec("generate_ed25519_key"@, args, env) == (Result::<TaskV, Seq<char>>::Ok(TaskV::GenerateEd25519Key(or_default(args.email, "ci@linux-init.test"@)))),
{
    reveal_strlit("add_user_to_docker_group");
    reveal_strlit("clear_docker");
    reveal_strlit("clear_shell");
    reveal_strlit("detect_distro");
    reveal_strlit("generate_ed25519_key");
    reveal_strlit("install_compose");
    reveal_strlit("install_docker");
    reveal_strlit("install_oh_my_zsh");
    reveal_strlit("install_plugins");
    reveal_strlit("install_zsh");
    reveal_strlit("refresh_package_cache");
    reveal_strlit("set_default_shell");
    reveal_strlit("set_zsh_theme");
    reveal_strlit("start_docker_service");
    assert("generate_ed25519_key"@.len() == 20);
    assert("add_user_to_docker_group"@.len() == 24);
    assert("clear_docker"@.len() == 12);
    assert("clear_shell"@.len() == 11);
    assert("detect_distro"@.len() == 13);
    assert("install_compose"@.len() == 15);
    assert("install_docker"@.len() == 14);
    assert("install_oh_my_zsh"@.len() == 17);
    assert("install_plugins"@.len() == 15);
    assert("install_zsh"@.len() == 11);
    assert("refresh_package_cache"@.len() == 21);
    assert("set_default_shell"@.len() == 17);
    assert("set_zsh_theme"@.len() == 13);
    assert("generate_ed25519_key"@[0] == 'g' && "start_docker_service"@[0] == 's');
    assert(dispatch_system_spec("generate_ed25519_key"@, args, env) is None);
    assert(dispatch_docker_spec("generate_ed25519_key"@, args, env) is None);
}

proof fn lemma_dispatch_generate_rsa_key(args: ArgsV, env: ExecuteEnv)
    ensures
        dispatch_spec("generate_rsa_key"@, args, env) == (Result::<TaskV, Seq<char>>::Ok(TaskV::GenerateRsaKey(or_default(args.email, "ci@linux-init.test"@)))),
{
    reveal_strlit("add_user_to_docker_group");
    reveal_strlit("clear_docker");
    reveal_strlit("clear_shell");
    reveal_strlit("detect_distro");
    reveal_strlit("generate_ed25519_key");
    reveal_strlit("generate_rsa_key");
    reveal_strlit("install_compose");
    reveal_strlit("install_docker");
    reveal_strlit("install_oh_my_zsh");
    reveal_strlit("install_plugins");
    reveal_strlit("install_zsh");
    reveal_strlit("refresh_package_cache");
    reveal_strlit("set_default_shell");
    reveal_strlit("set_zsh_theme");
    reveal_strlit("start_docker_service");
    assert("generate_rsa_key"@.len() == 16);
    assert("add_user_to_docker_group"@.len() == 24);
    assert("clear_docker"@.len() == 12);
    assert("clear_shell"@.len() == 11);
    assert("detect_distro"@.len() == 13);
    assert("generate_ed25519_key"@.len() == 20);
    assert("install_compose"@.len() == 15);
    assert("install_docker"@.len() == 14);
    assert("install_oh_my_zsh"@.len() == 17);
    assert("install_plugins"@.len() == 15);
    assert("install_zsh"@.len() == 11);
    assert("refresh_package_cache"@.len() == 21);
    assert("set_default_shell"@.len() == 17);
    assert("set_zsh_theme"@.len() == 13);
    assert("start_docker_service"@.len() == 20);
    assert(dispatch_system_spec("generate_rsa_key"@, args, env) is None);
    assert(dispatch_docker_spec("generate_rsa_key"@, args, env) is None);
}

proof fn lemma_dispatch_start_ssh_service(args: ArgsV, env: ExecuteEnv)
    ensures
        dispatch_spec("start_ssh_service"@, args, env) == (if env.in_container { Result::<TaskV, Seq<char>>::Err("SKIP:no_systemd_in_container"@) } else { Result::<TaskV, Seq<char>>::Ok(TaskV::StartSshService) }),
{
    reveal_strlit("add_user_to_docker_group");
    reveal_strlit("clear_docker");
    reveal_strlit("clear_shell");
    reveal_strlit("clear_ssh_keys");
    reveal_strlit("detect_distro");
    reveal_strlit("disable_root_login");
    reveal_strlit("generate_ed25519_key");
    reveal_strlit("generate_rsa_key");
    reveal_strlit("install_compose");
    reveal_strlit("install_docker");
    reveal_strlit("install_oh_my_zsh");
    reveal_strlit("install_plugins");
    reveal_strlit("install_ssh_server");
    reveal_strlit("install_zsh");
    reveal_strlit("read_public_key");
    reveal_strlit("refresh_package_cache");
    reveal_strlit("set_default_shell");
    reveal_strlit("set_zsh_theme");
    reveal_strlit("start_docker_service");
    reveal_strlit("start_ssh_service");
    assert("start_ssh_service"@.len() == 17);
    assert("add_user_to_docker_group"@.len() == 24);
    assert("clear_docker"@.len() == 12);
    assert("clear_shell"@.len() == 11);
    assert("clear_ssh_keys"@.len() == 14);
    assert("detect_distro"@.len() == 13);
    assert("disable_root_login"@.len() == 18);
    assert("generate_ed25519_key"@.len() == 20);
    assert("generate_rsa_key"@.len() == 16);
    assert("install_compose"@.len() == 15);
    assert("install_docker"@.len() == 14);
    assert("start_ssh_service"@[0] == 's' && "install_oh_my_zsh"@[0] == 'i');
    assert("install_plugins"@.len() == 15);
    assert("install_ssh_server"@.len() == 18);
    assert("install_zsh"@.len() == 11);
    assert("read_public_key"@.len() == 15);
    assert("refresh_package_cache"@.len() == 21);
    assert("start_ssh_service"@[1] == 't' && "set_default_shell"@[1] == 'e');
    assert("set_zsh_theme"@.len() == 13);
    assert("start_docker_service"@.len() == 20);
    assert(dispatch_system_spec("start_ssh_service"@, args, env) is None);
    assert(dispatch_docker_spec("start_ssh_service"@, args, env) is None);
}

proof fn lemma_dispatch_install_tools(args: ArgsV, env: ExecuteEnv)
    ensures
        dispatch_spec("install_tools"@, args, env) == (Result::<TaskV, Seq<char>>::Ok(TaskV::InstallTools(match args.tools { Some(t) => t, None => seq!["git"@, "curl"@, "wget"@] }))),
{
    reveal_strlit("add_user_to_docker_group");
    reveal_strlit("clear_docker");
    reveal_strlit("clear_shell");
    reveal_strlit("clear_ssh_keys");
    reveal_strlit("clear_ssh_server");
    reveal_strlit("detect_distro");
    reveal_strlit("disable_root_login");
    reveal_strlit("generate_ed25519_key");
    reveal_strlit("generate_rsa_key");
    reveal_strlit("install_compose");
    reveal_strlit("install_docker");
    reveal_strlit("install_oh_my_zsh");
    reveal_strlit("install_plugins");
    reveal_strlit("install_ssh_server");
    reveal_strlit("install_tools");
    reveal_strlit("install_zsh");
    reveal_strlit("read_public_key");
    reveal_strlit("refresh_package_cache");
    reveal_strlit("set_default_shell");
    reveal_strlit("set_zsh_theme");
    reveal_strlit("start_docker_service");
    reveal_strlit("start_ssh_service");
    assert("install_tools"@.len() == 13);
    assert("add_user_to_docker_group"@.len() == 24);
    assert("clear_docker"@.len() == 12);
    assert("clear_shell"@.len() == 11);
    assert("clear_ssh_keys"@.len() == 14);
    assert("clear_ssh_server"@.len() == 16);
    assert("install_tools"@[0] == 'i' && "detect_distro"@[0] == 'd');
    assert("disable_root_login"@.len() == 18);
    assert("generate_ed25519_key"@.len() == 20);
    assert("generate_rsa_key"@.len() == 16);
    assert("install_compose"@.len() == 15);
    assert("install_docker"@.len() == 14);
    assert("install_oh_my_zsh"@.len() == 17);
    assert("install_plugins"@.len() == 15);
    assert("install_ssh_server"@.len() == 18);
    assert("install_zsh"@.len() == 11);
    assert("read_public_key"@.len() == 15);
    assert("refresh_package_cache"@.len() == 21);
    assert("set_default_shell"@.len() == 17);
    assert("install_tools"@[0] == 'i' && "set_zsh_theme"@[0] == 's');
    assert("start_docker_service"@.len() == 20);
    assert("start_ssh_service"@.len() == 17);
    assert(dispatch_system_spec("install_tools"@, args, env) is None);
    assert(dispatch_docker_spec("install_tools"@, args, env) is None);
    assert(dispatch_ssh_spec("install_tools"@, args, env) is None);
}

proof fn lemma_dispatch_configure_aliases(args: ArgsV, env: ExecuteEnv)
    ensures
        dispatch_spec("configure_aliases"@, args, env) == (Result::<TaskV, Seq<char>>::Ok(TaskV::ConfigureAliases(or_empty(args.tools), args.shell))),
{
    reveal_strlit("add_user_to_docker_group");
    reveal_strlit("clear_docker");
    reveal_strlit("clear_shell");
    reveal_strlit("clear_ssh_keys");
    reveal_strlit("clear_ssh_server");
    reveal_strlit("configure_aliases");
    reveal_strlit("detect_distro");
    reveal_strlit("disable_root_login");
    reveal_strlit("generate_ed25519_key");
    reveal_strlit("generate_rsa_key");
    reveal_strlit("install_compose");
    reveal_strlit("install_docker");
    reveal_strlit("install_oh_my_zsh");
    reveal_strlit("install_plugins");
    reveal_strlit("install_ssh_server");
    reveal_strlit("install_tools");
    reveal_strlit("install_zsh");
    reveal_strlit("read_public_key");
    reveal_strlit("refresh_package_cache");
    reveal_strlit("set_default_shell");
    reveal_strlit("set_zsh_theme");
    reveal_strlit("start_docker_service");
    reveal_strlit("start_ssh_service");
    assert("configure_aliases"@.len() == 17);
    assert("add_user_to_docker_group"@.len() == 24);
    assert("clear_docker"@.len() == 12);
    assert("clear_shell"@.len() == 11);
    assert("clear_ssh_keys"@.len() == 14);
    assert("clear_ssh_server"@.len() == 16);
    assert("detect_distro"@.len() == 13);
    assert("disable_root_login"@.len() == 18);
    assert("generate_ed25519_key"@.len() == 20);
    assert("generate_rsa_key"@.len() == 16);
    assert("install_compose"@.len() == 15);
    assert("install_docker"@.len() == 14);
    assert("configure_aliases"@[0] == 'c' && "install_oh_my_zsh"@[0] == 'i');
    assert("install_plugins"@.len() == 15);
    assert("install_ssh_server"@.len() == 18);
    assert("install_tools"@.len() == 13);
    assert("install_zsh"@.len() == 11);
    assert("read_public_key"@.len() == 15);
    assert("refresh_package_cache"@.len() == 21);
    assert("configure_aliases"@[0] == 'c' && "set_default_shell"@[0] == 's');
    assert("set_zsh_theme"@.len() == 13);
    assert("start_docker_service"@.len() == 20);
    assert("configure_aliases"@[0] == 'c' && "start_ssh_service"@[0] == 's');
    assert(dispatch_system_spec("configure_aliases"@, args, env) is None);
    assert(dispatch_docker_spec("configure_aliases"@, args, env) is None);
    assert(dispatch_ssh_spec("configure_aliases"@, args, env) is None);
}

proof fn lemma_dispatch_configure_direnv_hook(args: ArgsV, env: ExecuteEnv)
    ensures
        dispatch_spec("configure_direnv_hook"@, args, env) == (Result::<TaskV, Seq<char>>::Ok(TaskV::ConfigureDirenvHook(args.shell))),
{
    reveal_strlit("add_user_to_docker_group");
    reveal_strlit("clear_docker");
    reveal_strlit("clear_shell");
    reveal_strlit("clear_ssh_keys");
    reveal_strlit("clear_ssh_server");
    reveal_strlit("configure_aliases");
    reveal_strlit("configure_direnv_hook");
    reveal_strlit("detect_distro");
    reveal_strlit("disable_root_login");
    reveal_strlit("generate_ed25519_key");
    reveal_strlit("generate_rsa_key");
    reveal_strlit("install_compose");
    reveal_strlit("install_docker");
    reveal_strlit("install_oh_my_zsh");
    reveal_strlit("install_plugins");
    reveal_strlit("install_ssh_server");
    reveal_strlit("install_tools");
    reveal_strlit("install_zsh");
    reveal_strlit("read_public_key");
    reveal_strlit("refresh_package_cache");
    reveal_strlit("set_default_shell");
    reveal_strlit("set_zsh_theme");
    reveal_strlit("start_docker_service");
    reveal_strlit("start_ssh_service");
    assert("configure_direnv_hook"@.len() == 21);
    assert("add_user_to_docker_group"@.len() == 24);
    assert("clear_docker"@.len() == 12);
    assert("clear_shell"@.len() == 11);
    assert("clear_ssh_keys"@.len() == 14);
    assert("clear_ssh_server"@.len() == 16);
    assert("configure_aliases"@.len() == 17);
    assert("detect_distro"@.len() == 13);
    assert("disable_root_login"@.len() == 18);
    assert("generate_ed25519_key"@.len() == 20);
    assert("generate_rsa_key"@.len() == 16);
    assert("install_compose"@.len() == 15);
    assert("install_docker"@.len() == 14);
    assert("install_oh_my_zsh"@.len() == 17);
    assert("install_plugins"@.len() == 15);
    assert("install_ssh_server"@.len() == 18);
    assert("install_tools"@.len() == 13);
    assert("install_zsh"@.len() == 11);
    assert("read_public_key"@.len() == 15);
    assert("configure_direnv_hook"@[0] == 'c' && "refresh_package_cache"@[0] == 'r');
    assert("set_default_shell"@.len() == 17);
    assert("set_zsh_theme"@.len() == 13);
    assert("start_docker_service"@.len() == 20);
    assert("start_ssh_service"@.len() == 17);
    assert(dispatch_system_spec("configure_direnv_hook"@, args, env) is None);
    assert(dispatch_docker_spec("configure_direnv_hook"@, args, env) is None);
    assert(dispatch_ssh_spec("configure_direnv_hook"@, args, env) is None);
}

proof fn lemma_dispatch_write_vimrc(args: ArgsV, env: ExecuteEnv)
    ensures
        dispatch_spec("write_vimrc"@, args, env) == (Result::<TaskV, Seq<char>>::Ok(TaskV::WriteVimrc(or_none(args.vim_plugins), or_none(args.vim_opts)))),
{
    reveal_strlit("add_user_to_docker_group");
    reveal_strlit("clear_docker");
    reveal_strlit("clear_shell");
    reveal_strlit("clear_ssh_keys");
    reveal_strlit("clear_ssh_server");
    reveal_strlit("configure_aliases");
    reveal_strlit("configure_direnv_hook");
    reveal_strlit("detect_distro");
    reveal_strlit("disable_root_login");
    reveal_strlit("generate_ed25519_key");
    reveal_strlit("generate_rsa_key");
    reveal_strlit("install_compose");
    reveal_strlit("install_docker");
    reveal_strlit("install_oh_my_zsh");
    reveal_strlit("install_plugins");
    reveal_strlit("install_ssh_server");
    reveal_strlit("install_tools");
    reveal_strlit("install_vim");
    reveal_strlit("install_vundle");
    reveal_strlit("install_zsh");
    reveal_strlit("read_public_key");
    reveal_strlit("refresh_package_cache");
    reveal_strlit("set_default_shell");
    reveal_strlit("set_zsh_theme");
    reveal_strlit("start_docker_service");
    reveal_strlit("start_ssh_service");
    reveal_strlit("write_vimrc");
    assert("write_vimrc"@.len() == 11);
    assert("add_user_to_docker_group"@.len() == 24);
    assert("clear_docker"@.len() == 12);
    assert("write_vimrc"@[0] == 'w' && "clear_shell"@[0] == 'c');
    assert("clear_ssh_keys"@.len() == 14);
    assert("clear_ssh_server"@.len() == 16);
    assert("configure_aliases"@.len() == 17);
    assert("configure_direnv_hook"@.len() == 21);
    assert("detect_distro"@.len() == 13);
    assert("disable_root_login"@.len() == 18);
    assert("generate_ed25519_key"@.len() == 20);
    assert("generate_rsa_key"@.len() == 16);
    assert("install_compose"@.len() == 15);
    assert("install_docker"@.len() == 14);
    assert("install_oh_my_zsh"@.len() == 17);
    assert("install_plugins"@.len() == 15);
    assert("install_ssh_server"@.len() == 18);
    assert("install_tools"@.len() == 13);
    assert("write_vimrc"@[0] == 'w' && "install_vim"@[0] == 'i');
    assert("install_vundle"@.len() == 14);
    assert("write_vimrc"@[0] == 'w' && "install_zsh"@[0] == 'i');
    assert("read_public_key"@.len() == 15);
    assert("refresh_package_cache"@.len() == 21);
    assert("set_default_shell"@.len() == 17);
    assert("set_zsh_theme"@.len() == 13);
    assert("start_docker_service"@.len() == 20);
    assert("start_ssh_service"@.len() == 17);
    assert(dispatch_system_spec("write_vimrc"@, args, env) is None);
    assert(dispatch_docker_spec("write_vimrc"@, args, env) is None);
    assert(dispatch_ssh_spec("write_vimrc"@, args, env) is None);
}

proof fn lemma_dispatch_switch_system_mirror(args: ArgsV, env: ExecuteEnv)
    ensures
        dispatch_spec("switch_system_mirror"@, args, env) == (Result::<TaskV, Seq<char>>::Ok(TaskV::SwitchSystemMirror(or_default(args.mirror_url, ""@)))),
{
    reveal_strlit("add_user_to_docker_group");
    reveal_strlit("clear_docker");
    reveal_strlit("clear_locale");
    reveal_strlit("clear_nvm");
    reveal_strlit("clear_shell");
    reveal_strlit("clear_ssh_keys");
    reveal_strlit("clear_ssh_server");
    reveal_strlit("configure_aliases");
    reveal_strlit("configure_direnv_hook");
    reveal_strlit("configure_locale");
    reveal_strlit("detect_distro");
    reveal_strlit("disable_root_login");
    reveal_strlit("generate_ed25519_key");
    reveal_strlit("generate_rsa_key");
    reveal_strlit("install_cjk_fonts");
    reveal_strlit("install_compose");
    reveal_strlit("install_docker");
    reveal_strlit("install_fcitx5");
    reveal_strlit("install_node_latest");
    reveal_strlit("install_node_lts");
    reveal_strlit("install_nvm");
    reveal_strlit("install_oh_my_zsh");
    reveal_strlit("install_plugins");
    reveal_strlit("install_ssh_server");
    reveal_strlit("install_tools");
    reveal_strlit("install_vim");
    reveal_strlit("install_vundle");
    reveal_strlit("install_zsh");
    reveal_strlit("read_public_key");
    reveal_strlit("refresh_package_cache");
    reveal_strlit("set_default_shell");
    reveal_strlit("set_zsh_theme");
    reveal_strlit("start_docker_service");
    reveal_strlit("start_ssh_service");
    reveal_strlit("switch_system_mirror");
    reveal_strlit("write_vimrc");
    assert("switch_system_mirror"@.len() == 20);
    assert("add_user_to_docker_group"@.len() == 24);
    assert("clear_docker"@.len() == 12);
    assert("clear_locale"@.len() == 12);
    assert("clear_nvm"@.len() == 9);
    assert("clear_shell"@.len() == 11);
    assert("clear_ssh_keys"@.len() == 14);
    assert("clear_ssh_server"@.len() == 16);
    assert("configure_aliases"@.len() == 17);
    assert("configure_direnv_hook"@.len() == 21);
    assert("configure_locale"@.len() == 16);
    assert("detect_distro"@.len() == 13);
    assert("disable_root_login"@.len() == 18);
    assert("switch_system_mirror"@[0] == 's' && "generate_ed25519_key"@[0] == 'g');
    assert("generate_rsa_key"@.len() == 16);
    assert("install_cjk_fonts"@.len() == 17);
    assert("install_compose"@.len() == 15);
    assert("install_docker"@.len() == 14);
    assert("install_fcitx5"@.len() == 14);
    assert("install_node_latest"@.len() == 19);
    assert("install_node_lts"@.len() == 16);
    assert("install_nvm"@.len() == 11);
    assert("install_oh_my_zsh"@.len() == 17);
    assert("install_plugins"@.len() == 15);
    assert("install_ssh_server"@.len() == 18);
    assert("install_tools"@.len() == 13);
    assert("install_vim"@.len() == 11);
    assert("install_vundle"@.len() == 14);
    assert("install_zsh"@.len() == 11);
    assert("read_public_key"@.len() == 15);
    assert("refresh_package_cache"@.len() == 21);
    assert("set_default_shell"@.len() == 17);
    assert("set_zsh_theme"@.len() == 13);
    assert("switch_system_mirror"@[1] == 'w' && "start_docker_service"@[1] == 't');
    assert("start_ssh_service"@.len() == 17);
    assert("write_vimrc"@.len() == 11);
    assert(dispatch_system_spec("switch_system_mirror"@, args, env) is None);
    assert(dispatch_docker_spec("switch_system_mirror"@, args, env) is None);
    assert(dispatch_ssh_spec("switch_system_mirror"@, args, env) is None);
    assert(dispatch_tools_spec("switch_system_mirror"@, args, env) is None);
}

proof fn lemma_dispatch_switch_docker_mirror(args: ArgsV, env: ExecuteEnv)
    ensures
        dispatch_spec("switch_docker_mirror"@, args, env) == (Result::<TaskV, Seq<char>>::Ok(TaskV::SwitchDockerMirror(or_default(args.mirror_url, ""@)))),
{
    reveal_strlit("add_user_to_docker_group");
    reveal_strlit("clear_docker");
    reveal_strlit("clear_locale");
    reveal_strlit("clear_nvm");
    reveal_strlit("clear_shell");
    reveal_strlit("clear_ssh_keys");
    reveal_strlit("clear_ssh_server");
    reveal_strlit("configure_aliases");
    reveal_strlit("configure_direnv_hook");
    reveal_strlit("configure_locale");
    reveal_strlit("detect_distro");
    reveal_strlit("disable_root_login");
    reveal_strlit("generate_ed25519_key");
    reveal_strlit("generate_rsa_key");
    reveal_strlit("install_cjk_fonts");
    reveal_strlit("install_compose");
    reveal_strlit("install_docker");
    reveal_strlit("install_fcitx5");
    reveal_strlit("install_node_latest");
    reveal_strlit("install_node_lts");
    reveal_strlit("install_nvm");
    reveal_strlit("install_oh_my_zsh");
    reveal_strlit("install_plugins");
    reveal_strlit("install_ssh_server");
    reveal_strlit("install_tools");
    reveal_strlit("install_vim");
    reveal_strlit("install_vundle");
    reveal_strlit("install_zsh");
    reveal_strlit("read_public_key");
    reveal_strlit("refresh_package_cache");
    reveal_strlit("set_default_shell");
    reveal_strlit("set_zsh_theme");
    reveal_strlit("start_docker_service");
    reveal_strlit("start_ssh_service");
    reveal_strlit("switch_docker_mirror");
    reveal_strlit("switch_system_mirror");
    reveal_strlit("write_vimrc");
    assert("switch_docker_mirror"@.len() == 20);
    assert("add_user_to_docker_group"@.len() == 24);
    assert("clear_docker"@.len() == 12);
    assert("clear_locale"@.len() == 12);
    assert("clear_nvm"@.len() == 9);
    assert("clear_shell"@.len() == 11);
    assert("clear_ssh_keys"@.len() == 14);
    assert("clear_ssh_server"@.len() == 16);
    assert("configure_aliases"@.len() == 17);
    assert("configure_direnv_hook"@.len() == 21);
    assert("configure_locale"@.len() == 16);
    assert("detect_distro"@.len() == 13);
    assert("disable_root_login"@.len() == 18);
    assert("switch_docker_mirror"@[0] == 's' && "generate_ed25519_key"@[0] == 'g');
    assert("generate_rsa_key"@.len() == 16);
    assert("install_cjk_fonts"@.len() == 17);
    assert("install_compose"@.len() == 15);
    assert("install_docker"@.len() == 14);
    assert("install_fcitx5"@.len() == 14);
    assert("install_node_latest"@.len() == 19);
    assert("install_node_lts"@.len() == 16);
    assert("install_nvm"@.len() == 11);
    assert("install_oh_my_zsh"@.len() == 17);
    assert("install_plugins"@.len() == 15);
    assert("install_ssh_server"@.len() == 18);
    assert("install_tools"@.len() == 13);
    assert("install_vim"@.len() == 11);
    assert("install_vundle"@.len() == 14);
    assert("install_zsh"@.len() == 11);
    assert("read_public_key"@.len() == 15);
    assert("refresh_package_cache"@.len() == 21);
    assert("set_default_shell"@.len() == 17);
    assert("set_zsh_theme"@.len() == 13);
    assert("switch_docker_mirror"@[1] == 'w' && "start_docker_service"@[1] == 't');
    assert("start_ssh_service"@.len() == 17);
    assert("switch_docker_mirror"@[7] == 'd' && "switch_system_mirror"@[7] == 's');
    assert("write_vimrc"@.len() == 11);
    assert(dispatch_system_spec("switch_docker_mirror"@, args, env) is None);
    assert(dispatch_docker_spec("switch_docker_mirror"@, args, env) is None);
    assert(dispatch_ssh_spec("switch_docker_mirror"@, args, env) is None);
    assert(dispatch_tools_spec("switch_docker_mirror"@, args, env) is None);
}

proof fn lemma_dispatch_switch_npm_registry(args: ArgsV, env: ExecuteEnv)
    ensures
        dispatch_spec("switch_npm_registry"@, args, env) == (Result::<TaskV, Seq<char>>::Ok(TaskV::SwitchNpmRegistry(or_default(args.mirror_url, ""@)))),
{
    reveal_strlit("add_user_to_docker_group");
    reveal_strlit("clear_docker");
    reveal_strlit("clear_locale");
    reveal_strlit("clear_nvm");
    reveal_strlit("clear_shell");
    reveal_strlit("clear_ssh_keys");
    reveal_strlit("clear_ssh_server");
    reveal_strlit("configure_aliases");
    reveal_strlit("configure_direnv_hook");
    reveal_strlit("configure_locale");
    reveal_strlit("detect_distro");
    reveal_strlit("disable_root_login");
    reveal_strlit("generate_ed25519_key");
    reveal_strlit("generate_rsa_key");
    reveal_strlit("install_cjk_fonts");
    reveal_strlit("install_compose");
    reveal_strlit("install_docker");
    reveal_strlit("install_fcitx5");
    reveal_strlit("install_node_latest");
    reveal_strlit("install_node_lts");
    reveal_strlit("install_nvm");
    reveal_strlit("install_oh_my_zsh");
    reveal_strlit("install_plugins");
    reveal_strlit("install_ssh_server");
    reveal_strlit("install_tools");
    reveal_strlit("install_vim");
    reveal_strlit("install_vundle");
    reveal_strlit("install_zsh");
    reveal_strlit("read_public_key");
    reveal_strlit("refresh_package_cache");
    reveal_strlit("set_default_shell");
    reveal_strlit("set_zsh_theme");
    reveal_strlit("start_docker_service");
    reveal_strlit("start_ssh_service");
    reveal_strlit("switch_docker_mirror");
    reveal_strlit("switch_npm_registry");
    reveal_strlit("switch_system_mirror");
    reveal_strlit("write_vimrc");
    assert("switch_npm_registry"@.len() == 19);
    assert("add_user_to_docker_group"@.len() == 24);
    assert("clear_docker"@.len() == 12);
    assert("clear_locale"@.len() == 12);
    assert("clear_nvm"@.len() == 9);
    assert("clear_shell"@.len() == 11);
    assert("clear_ssh_keys"@.len() == 14);
    assert("clear_ssh_server"@.len() == 16);
    assert("configure_aliases"@.len() == 17);
    assert("configure_direnv_hook"@.len() == 21);
    assert("configure_locale"@.len() == 16);
    assert("detect_distro"@.len() == 13);
    assert("disable_root_login"@.len() == 18);
    assert("generate_ed25519_key"@.len() == 20);
    assert("generate_rsa_key"@.len() == 16);
    assert("install_cjk_fonts"@.len() == 17);
    assert("install_compose"@.len() == 15);
    assert("install_docker"@.len() == 14);
    assert("install_fcitx5"@.len() == 14);
    assert("switch_npm_registry"@[0] == 's' && "install_node_latest"@[0] == 'i');
    assert("install_node_lts"@.len() == 16);
    assert("install_nvm"@.len() == 11);
    assert("install_oh_my_zsh"@.len() == 17);
    assert("install_plugins"@.len() == 15);
    assert("install_ssh_server"@.len() == 18);
    assert("install_tools"@.len() == 13);
    assert("install_vim"@.len() == 11);
    assert("install_vundle"@.len() == 14);
    assert("install_zsh"@.len() == 11);
    assert("read_public_key"@.len() == 15);
    assert("refresh_package_cache"@.len() == 21);
    assert("set_default_shell"@.len() == 17);
    assert("set_zsh_theme"@.len() == 13);
    assert("start_docker_service"@.len() == 20);
    assert("start_ssh_service"@.len() == 17);
    assert("switch_docker_mirror"@.len() == 20);
    assert("switch_system_mirror"@.len() == 20);
    assert("write_vimrc"@.len() == 11);
    assert(dispatch_system_spec("switch_npm_registry"@, args, env) is None);
    assert(dispatch_docker_spec("switch_npm_registry"@, args, env) is None);
    assert(dispatch_ssh_spec("switch_npm_registry"@, args, env) is None);
    assert(dispatch_tools_spec("switch_npm_registry"@, args, env) is None);
}

/// Law: the actions that cannot work where the program runs are skipped, with
/// a reason that starts with `SKIP:`, and are carried out otherwise: the
/// default shell and the services need a system outside a container, and
/// the Docker group is pointless for root.
pub proof fn law_skip_rules(args: ArgsV, env: ExecuteEnv)
    ensures
        dispatch_spec("set_default_shell"@, args, env) == (if env.in_container { Result::<TaskV, Seq<char>>::Err("SKIP:chsh_not_available_in_container"@) } else { Result::<TaskV, Seq<char>>::Ok(TaskV::SetDefaultShell) }),
        dispatch_spec("add_user_to_docker_group"@, args, env) == (if env.is_root { Result::<TaskV, Seq<char>>::Err("SKIP:root_no_need_docker_group"@) } else { Result::<TaskV, Seq<char>>::Ok(TaskV::AddUserToDockerGroup) }),
        dispatch_spec("start_docker_service"@, args, env) == (if env.in_container { Result::<TaskV, Seq<char>>::Err("SKIP:no_systemd_in_container"@) } else { Result::<TaskV, Seq<char>>::Ok(TaskV::StartDockerService) }),
        dispatch_spec("start_ssh_service"@, args, env) == (if env.in_container { Result::<TaskV, Seq<char>>::Err("SKIP:no_systemd_in_container"@) } else { Result::<TaskV, Seq<char>>::Ok(TaskV::StartSshService) }),
{
    lemma_dispatch_set_default_shell(args, env);
    lemma_dispatch_add_user_to_docker_group(args, env);
    lemma_dispatch_start_docker_service(args, env);
    lemma_dispatch_start_ssh_service(args, env);
}

/// Law: an action's arguments are settled with their defaults: the theme
/// `robbyrussell`, the key comment `ci@linux-init.test`, the tools `git`,
/// `curl` and `wget`, no plugin (nothing to do), no alias, no Vim plugin or
/// option, and an empty mirror address; given values are passed on as they are.
pub proof fn law_argument_defaults(args: ArgsV, env: ExecuteEnv)
    ensures
        dispatch_spec("set_zsh_theme"@, args, env) == (Result::<TaskV, Seq<char>>::Ok(TaskV::SetZshTheme(or_default(args.theme, "robbyrussell"@)))),
        dispatch_spec("install_plugins"@, args, env) == (Result::<TaskV, Seq<char>>::Ok(if or_empty(args.plugins).len() == 0 { TaskV::Nothing } else { TaskV::InstallPlugins(or_empty(args.plugins)) })),
        dispatch_spec("generate_ed25519_key"@, args, env) == (Result::<TaskV, Seq<char>>::Ok(TaskV::GenerateEd25519Key(or_default(args.email, "ci@linux-init.test"@)))),
        dispatch_spec("generate_rsa_key"@, args, env) == (Result::<TaskV, Seq<char>>::Ok(TaskV::GenerateRsaKey(or_default(args.email, "ci@linux-init.test"@)))),
        dispatch_spec("install_tools"@, args, env) == (Result::<TaskV, Seq<char>>::Ok(TaskV::InstallTools(match args.tools { Some(t) => t, None => seq!["git"@, "curl"@, "wget"@] }))),
        dispatch_spec("configure_aliases"@, args, env) == (Result::<TaskV, Seq<char>>::Ok(TaskV::ConfigureAliases(or_empty(args.tools), args.shell))),
        dispatch_spec("configure_direnv_hook"@, args, env) == (Result::<TaskV, Seq<char>>::Ok(TaskV::ConfigureDirenvHook(args.shell))),
        dispatch_spec("write_vimrc"@, args, env) == (Result::<TaskV, Seq<char>>::Ok(TaskV::WriteVimrc(or_none(args.vim_plugins), or_none(args.vim_opts)))),
        dispatch_spec("switch_system_mirror"@, args, env) == (Result::<TaskV, Seq<char>>::Ok(TaskV::SwitchSystemMirror(or_default(args.mirror_url, ""@)))),
        dispatch_spec("switch_docker_mirror"@, args, env) == (Result::<TaskV, Seq<char>>::Ok(TaskV::SwitchDockerMirror(or_default(args.mirror_url, ""@)))),
        dispatch_spec("switch_npm_registry"@, args, env) == (Result::<TaskV, Seq<char>>::Ok(TaskV::SwitchNpmRegistry(or_default(args.mirror_url, ""@)))),
{
    lemma_dispatch_set_zsh_theme(args, env);
    lemma_dispatch_install_plugins(args, env);
    lemma_dispatch_generate_ed25519_key(args, env);
    lemma_dispatch_generate_rsa_key(args, env);
    lemma_dispatch_install_tools(args, env);
    lemma_dispatch_configure_aliases(args, env);
    lemma_dispatch_configure_direnv_hook(args, env);
    lemma_dispatch_write_vimrc(args, env);
    lemma_dispatch_switch_system_mirror(args, env);
    lemma_dispatch_switch_docker_mirror(args, env);
    lemma_dispatch_switch_npm_registry(args, env);
}

/// Law: an action is refused only to skip it, with a reason that starts with
/// `SKIP:`, or because it is unknown, with the error that names it.
pub proof fn law_refusals(id: Seq<char>, args: ArgsV, env: ExecuteEnv)
    ensures
        dispatch_spec(id, args, env) matches Err(e) ==> starts_with(e, "SKIP:"@) || e
            == "未知 action: "@ + id,
{
    reveal_strlit("SKIP:");
    reveal_strlit("SKIP:chsh_not_available_in_container");
    reveal_strlit("SKIP:root_no_need_docker_group");
    reveal_strlit("SKIP:no_systemd_in_container");
    assert("SKIP:chsh_not_available_in_container"@.take(5) =~= "SKIP:"@);
    assert("SKIP:root_no_need_docker_group"@.take(5) =~= "SKIP:"@);
    assert("SKIP:no_systemd_in_container"@.take(5) =~= "SKIP:"@);
}

/// The task of an action.
pub fn dispatch_action(id: &str, args: &ActionArgs, env: &ExecuteEnv) -> (r: Result<Task, String>)
    ensures
        result_view(r) == dispatch_spec(id@, args@, *env),
{
    if let Some(r) = dispatch_system(id, args, env) {
        return r;
    }
    if let Some(r) = dispatch_docker(id, args, env) {
        return r;
    }
    if let Some(r) = dispatch_ssh(id, args, env) {
        return r;
    }
    if let Some(r) = dispatch_tools(id, args, env) {
        return r;
    }
    if let Some(r) = dispatch_locale(id, args, env) {
        return r;
    }
    Err(owned("未知 action: ").concat(id))
}

// ── the check after each action ──────────────────────────────

/// What is looked at after an action succeeded.
#[derive(Debug)]
pub enum Check {
    /// `zsh` installed as a package, and where `which zsh` finds it.
    ZshInstalled,
    /// `~/.oh-my-zsh` and `~/.zshrc` exist.
    OhMyZsh,
    /// `~/.zshrc` holds `ZSH_THEME=`.
    ZshrcHasTheme,
    /// `~/.zshrc` holds `plugins=(`.
    ZshrcHasPlugins,
    /// `$SHELL`, and whether it names zsh.
    CurrentShell,
    /// `docker` installed, and where `which docker` finds it.
    DockerInstalled,
    /// Whether `which docker-compose` finds it and `docker compose version` works.
    Compose,
    /// Whether the user is in the `docker` group.
    InDockerGroup,
    /// Whether the Docker service runs.
    DockerRunning,
    /// Whether the Ed25519 key exists.
    Ed25519Key,
    /// Whether the RSA key exists.
    RsaKey,
    /// Whether sshd is installed.
    SshdInstalled,
    /// Whether root login is disabled.
    RootLoginDisabled,
    /// Whether sshd runs.
    SshdRunning,
    /// Whether each named tool is installed.
    ToolStatuses(Vec<String>),
    /// Whether the `vim` package is installed.
    VimInstalled,
    /// Whether `~/.vim/bundle/Vundle.vim` exists.
    VundleDir,
    /// Whether `~/.vimrc` exists.
    VimrcExists,
    /// Whether `~/.nvm/nvm.sh` exists.
    NvmInstalled,
    /// The Node.js version installed.
    NodeVersion,
    /// Whether the Chinese locale is configured.
    LocaleConfigured,
    /// Whether the CJK fonts are installed.
    CjkFonts,
    /// Whether Fcitx5 is installed.
    Fcitx5,
}

/// A check, its texts as character sequences.
pub ghost enum CheckV {
    ZshInstalled,
    OhMyZsh,
    ZshrcHasTheme,
    ZshrcHasPlugins,
    CurrentShell,
    DockerInstalled,
    Compose,
    InDockerGroup,
    DockerRunning,
    Ed25519Key,
    RsaKey,
    SshdInstalled,
    RootLoginDisabled,
    SshdRunning,
    ToolStatuses(Seq<Seq<char>>),
    VimInstalled,
    VundleDir,
    VimrcExists,
    NvmInstalled,
    NodeVersion,
    LocaleConfigured,
    CjkFonts,
    Fcitx5,
}

impl View for Check {
    type V = CheckV;

    open spec fn view(&self) -> CheckV {
        match self {
            Check::ZshInstalled => CheckV::ZshInstalled,
            Check::OhMyZsh => CheckV::OhMyZsh,
            Check::ZshrcHasTheme => CheckV::ZshrcHasTheme,
            Check::ZshrcHasPlugins => CheckV::ZshrcHasPlugins,
            Check::CurrentShell => CheckV::CurrentShell,
            Check::DockerInstalled => CheckV::DockerInstalled,
            Check::Compose => CheckV::Compose,
            Check::InDockerGroup => CheckV::InDockerGroup,
            Check::DockerRunning => CheckV::DockerRunning,
            Check::Ed25519Key => CheckV::Ed25519Key,
            Check::RsaKey => CheckV::RsaKey,
            Check::SshdInstalled => CheckV::SshdInstalled,
            Check::RootLoginDisabled => CheckV::RootLoginDisabled,
            Check::SshdRunning => CheckV::SshdRunning,
            Check::ToolStatuses(t) => CheckV::ToolStatuses(strs(t@)),
            Check::VimInstalled => CheckV::VimInstalled,
            Check::VundleDir => CheckV::VundleDir,
            Check::VimrcExists => CheckV::VimrcExists,
            Check::NvmInstalled => CheckV::NvmInstalled,
            Check::NodeVersion => CheckV::NodeVersion,
            Check::LocaleConfigured => CheckV::LocaleConfigured,
            Check::CjkFonts => CheckV::CjkFonts,
            Check::Fcitx5 => CheckV::Fcitx5,
        }
    }
}

/// An optional check, by its view.
pub open spec fn check_view(c: Option<Check>) -> Option<CheckV> {
    match c {
        Some(c) => Some(c@),
        None => None,
    }
}

/// The check after some of the actions.
pub open spec fn check_part0(id: Seq<char>, args: ArgsV) -> Option<CheckV> {
    if id == "install_zsh"@ {
        Some(CheckV::ZshInstalled)
    } else if id == "install_oh_my_zsh"@ {
        Some(CheckV::OhMyZsh)
    } else if id == "set_zsh_theme"@ {
        Some(CheckV::ZshrcHasTheme)
    } else if id == "install_plugins"@ {
        Some(CheckV::ZshrcHasPlugins)
    } else if id == "set_default_shell"@ {
        Some(CheckV::CurrentShell)
    } else if id == "install_docker"@ {
        Some(CheckV::DockerInstalled)
    } else if id == "install_compose"@ {
        Some(CheckV::Compose)
    } else if id == "add_user_to_docker_group"@ {
        Some(CheckV::InDockerGroup)
    } else {
        None
    }
}

fn check_part0_of(id: &str, args: &ActionArgs) -> (r: Option<Check>)
    ensures
        check_view(r) == check_part0(id@, args@),
{
    if str_eq(id, "install_zsh") {
        Some(Check::ZshInstalled)
    } else if str_eq(id, "install_oh_my_zsh") {
        Some(Check::OhMyZsh)
    } else if str_eq(id, "set_zsh_theme") {
        Some(Check::ZshrcHasTheme)
    } else if str_eq(id, "install_plugins") {
        Some(Check::ZshrcHasPlugins)
    } else if str_eq(id, "set_default_shell") {
        Some(Check::CurrentShell)
    } else if str_eq(id, "install_docker") {
        Some(Check::DockerInstalled)
    } else if str_eq(id, "install_compose") {
        Some(Check::Compose)
    } else if str_eq(id, "add_user_to_docker_group") {
        Some(Check::InDockerGroup)
    } else {
        None
    }
}

/// The check after some of the actions.
pub open spec fn check_part1(id: Seq<char>, args: ArgsV) -> Option<CheckV> {
    if id == "start_docker_service"@ {
        Some(CheckV::DockerRunning)
    } else if id == "generate_ed25519_key"@ {
        Some(CheckV::Ed25519Key)
    } else if id == "generate_rsa_key"@ {
        Some(CheckV::RsaKey)
    } else if id == "install_ssh_server"@ {
        Some(CheckV::SshdInstalled)
    } else if id == "disable_root_login"@ {
        Some(CheckV::RootLoginDisabled)
    } else if id == "start_ssh_service"@ {
        Some(CheckV::SshdRunning)
    } else if id == "install_tools"@ {
        Some(CheckV::ToolStatuses(or_empty(args.tools)))
    } else if id == "install_vim"@ {
        Some(CheckV::VimInstalled)
    } else {
        None
    }
}

fn check_part1_of(id: &str, args: &ActionArgs) -> (r: Option<Check>)
    ensures
        check_view(r) == check_part1(id@, args@),
{
    if str_eq(id, "start_docker_service") {
        Some(Check::DockerRunning)
    } else if str_eq(id, "generate_ed25519_key") {
        Some(Check::Ed25519Key)
    } else if str_eq(id, "generate_rsa_key") {
        Some(Check::RsaKey)
    } else if str_eq(id, "install_ssh_server") {
        Some(Check::SshdInstalled)
    } else if str_eq(id, "disable_root_login") {
        Some(Check::RootLoginDisabled)
    } else if str_eq(id, "start_ssh_service") {
        Some(Check::SshdRunning)
    } else if str_eq(id, "install_tools") {
        Some(Check::ToolStatuses(strings_or_empty(&args.tools)))
    } else if str_eq(id, "install_vim") {
        Some(Check::VimInstalled)
    } else {
        None
    }
}

/// The check after some of the actions.
pub open spec fn check_part2(id: Seq<char>, args: ArgsV) -> Option<CheckV> {
    if id == "install_vundle"@ {
        Some(CheckV::VundleDir)
    } else if id == "write_vimrc"@ {
        Some(CheckV::VimrcExists)
    } else if id == "install_nvm"@ {
        Some(CheckV::NvmInstalled)
    } else if id == "install_node_latest"@ {
        Some(CheckV::NodeVersion)
    } else if id == "install_node_lts"@ {
        Some(CheckV::NodeVersion)
    } else if id == "configure_locale"@ {
        Some(CheckV::LocaleConfigured)
    } else if id == "install_cjk_fonts"@ {
        Some(CheckV::CjkFonts)
    } else if id == "install_fcitx5"@ {
        Some(CheckV::Fcitx5)
    } else {
        None
    }
}

fn check_part2_of(id: &str, args: &ActionArgs) -> (r: Option<Check>)
    ensures
        check_view(r) == check_part2(id@, args@),
{
    if str_eq(id, "install_vundle") {
        Some(Check::VundleDir)
    } else if str_eq(id, "write_vimrc") {
        Some(Check::VimrcExists)
    } else if str_eq(id, "install_nvm") {
        Some(Check::NvmInstalled)
    } else if str_eq(id, "install_node_latest") {
        Some(Check::NodeVersion)
    } else if str_eq(id, "install_node_lts") {
        Some(Check::NodeVersion)
    } else if str_eq(id, "configure_locale") {
        Some(Check::LocaleConfigured)
    } else if str_eq(id, "install_cjk_fonts") {
        Some(Check::CjkFonts)
    } else if str_eq(id, "install_fcitx5") {
        Some(Check::Fcitx5)
    } else {
        None
    }
}

/// The check after an action: one for each action whose effect can be
/// seen (for `install_tools`, the tools it names, none when it names none);
/// `None` for the others.
pub open spec fn verification_spec(id: Seq<char>, args: ArgsV) -> Option<CheckV> {
    match check_part0(id, args) {
        Some(c) => Some(c),
        None => match check_part1(id, args) {
            Some(c) => Some(c),
            None => check_part2(id, args),
        },
    }
}

/// The check after an action.
pub fn run_verification(id: &str, args: &ActionArgs) -> (r: Option<Check>)
    ensures
        check_view(r) == verification_spec(id@, args@),
{
    if let Some(c) = check_part0_of(id, args) {
        return Some(c);
    }
    if let Some(c) = check_part1_of(id, args) {
        return Some(c);
    }
    check_part2_of(id, args)
}

/// Whether a file read (`None` when it could not be read) holds `needle`.
pub fn file_holds(content: Option<&str>, needle: &str) -> (r: bool)
    ensures
        r == match content {
            Some(c) => contains(c@, needle@),
            None => false,
        },
{
    match content {
        Some(c) => contains_str(&chars_of(c), needle),
        None => false,
    }
}

/// What `which` printed (`None` when it could not be run), trimmed.
pub fn binary_path(which_output: Option<&str>) -> (r: Option<String>)
    ensures
        match (r, which_output) {
            (Some(p), Some(o)) => p@ == trim(o@),
            (None, None) => true,
            _ => false,
        },
{
    match which_output {
        Some(o) => Some(string_of(&trim_vec(&chars_of(o)))),
        None => None,
    }
}

/// Whether `which` found something: it printed more than whitespace.
pub fn found_binary(which_output: Option<&str>) -> (r: bool)
    ensures
        r == match which_output {
            Some(o) => trim(o@).len() > 0,
            None => false,
        },
{
    match which_output {
        Some(o) => trim_vec(&chars_of(o)).len() > 0,
        None => false,
    }
}

/// The package that brings `ssh-keygen`: `openssh-client` on Debian,
/// `openssh` elsewhere.
pub open spec fn keygen_package(f: DistroFamily) -> Seq<char> {
    match f {
        DistroFamily::Debian => "openssh-client"@,
        _ => "openssh"@,
    }
}

/// Makes sure `ssh-keygen` is there: nothing when it is, else the install
/// of the package that brings it.
pub fn ensure_ssh_keygen(distro: &Distro, keygen_exists: bool) -> (r: Result<Option<ShellCommand>, String>)
    ensures
        keygen_exists ==> res_cmd(r) == Ok::<Option<CommandV>, Seq<char>>(None),
        !keygen_exists ==> res_cmd(r) == install_packages_spec(
            distro@,
            seq![keygen_package(family_of(distro@))],
        ),
{
    if keygen_exists {
        return Ok(None);
    }
    let pkg: &str = match distro.family() {
        DistroFamily::Debian => "openssh-client",
        _ => "openssh",
    };
    let p: &[&str] = &[pkg];
    assert(p@ == seq![pkg]);
    assert(lits(seq![pkg]) =~= seq![keygen_package(family_of(distro@))]);
    install_packages(distro, p)
}

// ── results ──────────────────────────────────────────────────

/// How an action ended.
#[derive(Debug)]
pub enum Outcome {
    /// Done.
    Done,
    /// Skipped, with the reason.
    Skip(String),
    /// Failed, with the error.
    Fail(String),
}

/// An outcome, its texts as character sequences.
pub ghost enum OutcomeV {
    Done,
    Skip(Seq<char>),
    Fail(Seq<char>),
}

impl View for Outcome {
    type V = OutcomeV;

    open spec fn view(&self) -> OutcomeV {
        match self {
            Outcome::Done => OutcomeV::Done,
            Outcome::Skip(r) => OutcomeV::Skip(r@),
            Outcome::Fail(e) => OutcomeV::Fail(e@),
        }
    }
}

/// How an action ended: skipped as `flagged` when the list says so; else
/// done, or skipped for the reason after `SKIP:`, or failed with the error.
pub open spec fn outcome_spec(flagged: bool, result: Result<(), Seq<char>>) -> OutcomeV {
    if flagged {
        OutcomeV::Skip("flagged"@)
    } else {
        match result {
            Ok(_) => OutcomeV::Done,
            Err(e) => if starts_with(e, "SKIP:"@) {
                OutcomeV::Skip(e.skip(5))
            } else {
                OutcomeV::Fail(e)
            },
        }
    }
}

/// How an action ended.
pub fn outcome_of(flagged: bool, result: Result<(), String>) -> (r: Outcome)
    ensures
        r@ == outcome_spec(
            flagged,
            match result {
                Ok(_) => Ok(()),
                Err(e) => Err(e@),
            },
        ),
{
    if flagged {
        return Outcome::Skip(owned("flagged"));
    }
    match result {
        Ok(_) => Outcome::Done,
        Err(e) => {
            let v = chars_of(e.as_str());
            if starts_with_str(&v, "SKIP:") {
                proof {
                    reveal_strlit("SKIP:");
                }
                let rest = slice_of(&v, 5, v.len());
                assert(rest@ =~= e@.skip(5));
                Outcome::Skip(string_of(&rest))
            } else {
                Outcome::Fail(e)
            }
        },
    }
}

/// The status word of an outcome.
pub open spec fn status_word(o: OutcomeV) -> Seq<char> {
    match o {
        OutcomeV::Done => "ok"@,
        OutcomeV::Skip(_) => "skip"@,
        OutcomeV::Fail(_) => "fail"@,
    }
}

impl Outcome {
    /// `ok`, `skip` or `fail`.
    pub fn status(&self) -> (r: &'static str)
        ensures
            r@ == status_word(self@),
    {
        match self {
            Outcome::Done => "ok",
            Outcome::Skip(_) => "skip",
            Outcome::Fail(_) => "fail",
        }
    }
}

/// The counts of a run.
#[derive(Debug)]
pub struct Summary {
    pub total: usize,
    pub ok: usize,
    pub skip: usize,
    pub fail: usize,
}

/// The kind of an outcome: 0 done, 1 skipped, 2 failed.
pub open spec fn kind(o: OutcomeV) -> nat {
    match o {
        OutcomeV::Done => 0,
        OutcomeV::Skip(_) => 1,
        OutcomeV::Fail(_) => 2,
    }
}

/// How many outcomes are of a kind.
pub open spec fn count_kind(os: Seq<OutcomeV>, k: nat) -> nat
    decreases os.len(),
{
    if os.len() == 0 {
        0
    } else {
        count_kind(os.drop_last(), k) + if kind(os.last()) == k { 1nat } else { 0 }
    }
}

/// The outcomes, by their views.
pub open spec fn outcomes_view(v: Seq<Outcome>) -> Seq<OutcomeV> {
    v.map_values(|o: Outcome| o@)
}

/// Law: every outcome counts once, as done, skipped or failed.
pub proof fn law_counts_add_up(os: Seq<OutcomeV>)
    ensures
        count_kind(os, 0) + count_kind(os, 1) + count_kind(os, 2) == os.len(),
    decreases os.len(),
{
    if os.len() > 0 {
        law_counts_add_up(os.drop_last());
    }
}

/// The counts of a run: how many actions, and how many were done, skipped
/// and failed.
pub fn summarize(outcomes: &Vec<Outcome>) -> (s: Summary)
    ensures
        s.total == outcomes@.len(),
        s.ok == count_kind(outcomes_view(outcomes@), 0),
        s.skip == count_kind(outcomes_view(outcomes@), 1),
        s.fail == count_kind(outcomes_view(outcomes@), 2),
        s.ok + s.skip + s.fail == s.total,
{
    let ghost os = outcomes_view(outcomes@);
    let mut ok: usize = 0;
    let mut skip: usize = 0;
    let mut fail: usize = 0;
    let mut i: usize = 0;
    while i < outcomes.len()
        invariant
            i <= outcomes.len(),
            os == outcomes_view(outcomes@),
            ok == count_kind(os.take(i as int), 0),
            skip == count_kind(os.take(i as int), 1),
            fail == count_kind(os.take(i as int), 2),
            ok + skip + fail == i,
        decreases outcomes.len() - i,
    {
        assert(os.take(i + 1).drop_last() =~= os.take(i as int));
        assert(os.take(i + 1).last() == outcomes@[i as int]@);
        match &outcomes[i] {
            Outcome::Done => {
                ok = ok + 1;
            },
            Outcome::Skip(_) => {
                skip = skip + 1;
            },
            Outcome::Fail(_) => {
                fail = fail + 1;
            },
        }
        i = i + 1;
    }
    assert(os.take(outcomes.len() as int) =~= os);
    Summary { total: outcomes.len(), ok, skip, fail }
}

/// Whether the run passed: no action failed.
pub fn all_passed(s: &Summary) -> (r: bool)
    ensures
        r == (s.fail == 0),
{
    s.fail == 0
}

// ── one action of a run ──────────────────────────────────────

/// How an action of a run starts.
#[derive(Debug)]
pub enum Begin {
    /// The list flags it to be skipped: nothing is dispatched.
    Flagged,
    /// The task to perform.
    Perform(Task),
    /// Dispatching it gave this error (or a `SKIP:` reason).
    Refused(String),
}

/// How an action of a run starts: flagged actions are not dispatched; the
/// others give their task, or the error dispatching them gave.
pub fn begin_action(a: &ActionSpec, env: &ExecuteEnv) -> (r: Begin)
    ensures
        a.skip ==> r is Flagged,
        !a.skip ==> match dispatch_spec(a.id@, a.args@, *env) {
            Ok(t) => r matches Begin::Perform(x) && x@ == t,
            Err(e) => r matches Begin::Refused(x) && x@ == e,
        },
{
    if a.skip {
        return Begin::Flagged;
    }
    match dispatch_action(a.id.as_str(), &a.args, env) {
        Ok(t) => Begin::Perform(t),
        Err(e) => Begin::Refused(e),
    }
}

/// How an action of a run ended: its outcome, the check to run, and how
/// long it took.
#[derive(Debug)]
pub struct Ending {
    pub outcome: Outcome,
    pub check: Option<Check>,
    pub duration_ms: u64,
}

/// How an action ended, given its result (`Ok` for a flagged one) and the
/// time it took: the outcome; the check after a success, only when the
/// list asks for checking; no time for a flagged action.
pub fn end_action(a: &ActionSpec, result: Result<(), String>, elapsed_ms: u64) -> (r: Ending)
    ensures
        r.outcome@ == outcome_spec(
            a.skip,
            match result {
                Ok(_) => Ok(()),
                Err(e) => Err(e@),
            },
        ),
        check_view(r.check) == if r.outcome@ is Done && a.verify {
            verification_spec(a.id@, a.args@)
        } else {
            None
        },
        r.duration_ms == if a.skip { 0 } else { elapsed_ms },
{
    let outcome = outcome_of(a.skip, result);
    let done = match &outcome {
        Outcome::Done => true,
        _ => false,
    };
    let check = if done && a.verify {
        run_verification(a.id.as_str(), &a.args)
    } else {
        None
    };
    let duration_ms = if a.skip { 0 } else { elapsed_ms };
    Ending { outcome, check, duration_ms }
}

} // verus!
