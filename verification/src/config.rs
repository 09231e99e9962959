//! What the wizard remembers between runs:
//! `~/.config/linux-init/config.json`.
use vstd::prelude::*;
use vstd::string::*;
use crate::text::{path_join, path_join_str};
use crate::utils::{cmd, command, lits, owned, CommandV, ShellCommand};

verus! {

/// The saved configuration.
#[derive(Debug)]
pub struct Config {
    pub language: Option<String>,
    pub completed: CompletedModules,
}

/// Which setup steps have been completed.
#[derive(Debug)]
pub struct CompletedModules {
    pub zsh_installed: bool,
    pub omz_installed: bool,
    pub zsh_theme: Option<String>,
    pub zsh_plugins: Vec<String>,
    pub zsh_default: bool,
    pub docker_installed: bool,
    pub docker_compose_installed: bool,
    pub docker_user_configured: bool,
    pub docker_service_running: bool,
    pub ssh_key_generated: bool,
    pub ssh_key_type: Option<String>,
    pub tools_installed: Vec<String>,
    pub vim_installed: bool,
    pub vundle_installed: bool,
    pub vim_plugins: Vec<String>,
    pub nvm_installed: bool,
    pub node_installed: bool,
    pub ssh_server_installed: bool,
    pub ssh_server_configured: bool,
    pub ssh_server_running: bool,
    pub chinese_locale_configured: bool,
    pub chinese_fonts_installed: bool,
    pub fcitx5_installed: bool,
}

impl CompletedModules {
    /// Nothing completed.
    pub fn new() -> (c: CompletedModules)
        ensures
            c.is_empty(),
    {
        CompletedModules {
            zsh_installed: false,
            omz_installed: false,
            zsh_theme: None,
            zsh_plugins: Vec::new(),
            zsh_default: false,
            docker_installed: false,
            docker_compose_installed: false,
            docker_user_configured: false,
            docker_service_running: false,
            ssh_key_generated: false,
            ssh_key_type: None,
            tools_installed: Vec::new(),
            vim_installed: false,
            vundle_installed: false,
            vim_plugins: Vec::new(),
            nvm_installed: false,
            node_installed: false,
            ssh_server_installed: false,
            ssh_server_configured: false,
            ssh_server_running: false,
            chinese_locale_configured: false,
            chinese_fonts_installed: false,
            fcitx5_installed: false,
        }
    }

    /// Whether nothing is recorded.
    pub open spec fn is_empty(self) -> bool {
        &&& !self.zsh_installed && !self.omz_installed && self.zsh_theme is None
        &&& self.zsh_plugins@.len() == 0 && !self.zsh_default
        &&& !self.docker_installed && !self.docker_compose_installed
        &&& !self.docker_user_configured && !self.docker_service_running
        &&& !self.ssh_key_generated && self.ssh_key_type is None
        &&& self.tools_installed@.len() == 0
        &&& !self.vim_installed && !self.vundle_installed && self.vim_plugins@.len() == 0
        &&& !self.nvm_installed && !self.node_installed
        &&& !self.ssh_server_installed && !self.ssh_server_configured && !self.ssh_server_running
        &&& !self.chinese_locale_configured && !self.chinese_fonts_installed
        &&& !self.fcitx5_installed
    }
}

impl Config {
    /// The configuration of a first run: no language, nothing completed.
    pub fn new() -> (c: Config)
        ensures
            c.language is None,
            c.completed.is_empty(),
    {
        Config { language: None, completed: CompletedModules::new() }
    }

    /// `~/.config/linux-init/config.json` under a home directory.
    pub open spec fn config_path_spec(home: Seq<char>) -> Seq<char> {
        path_join(path_join(path_join(home, ".config"@), "linux-init"@), "config.json"@)
    }

    /// `~/.config/linux-init/config.json` under the real user's home.
    pub fn config_path(home: &str) -> (r: String)
        ensures
            r@ == Self::config_path_spec(home@),
    {
        let a = path_join_str(home, ".config");
        let b = path_join_str(a.as_str(), "linux-init");
        path_join_str(b.as_str(), "config.json")
    }
}

/// Saving the configuration: the directory to create, the file to write,
/// and, when running under sudo, the commands that give both back to the
/// real user.
#[derive(Debug)]
pub struct SavePlan {
    pub dir: String,
    pub file: String,
    pub chown_dir: Option<ShellCommand>,
    pub chown_file: Option<ShellCommand>,
}

/// Giving a path to a user: `chown <user>:<user> <path>`.
pub open spec fn chown_spec(user: Seq<char>, path: Seq<char>) -> CommandV {
    cmd("chown"@, seq![user + ":"@ + user, path], "chown 失败"@)
}

fn chown(user: &str, path: &str) -> (c: ShellCommand)
    ensures
        c@ == chown_spec(user@, path@),
{
    let owner = owned(user).concat(":").concat(user);
    let o = owner.as_str();
    let a: &[&str] = &[o, path];
    assert(a@ == seq![o, path]);
    assert(lits(a@) =~= seq![o@, path@]);
    command("chown", a, "chown 失败")
}

impl Config {
    /// The configuration read back: what was parsed from the file, or the
    /// configuration of a first run when there was no file or it did not
    /// parse.
    pub fn load(parsed: Option<Config>) -> (c: Config)
        ensures
            match parsed {
                Some(p) => c == p,
                None => c.language is None && c.completed.is_empty(),
            },
    {
        match parsed {
            Some(p) => p,
            None => Config::new(),
        }
    }

    /// Saving the configuration under the real user's home.
    pub fn save(home: &str, sudo_user: Option<&str>) -> (r: SavePlan)
        ensures
            r.dir@ == path_join(path_join(home@, ".config"@), "linux-init"@),
            r.file@ == Self::config_path_spec(home@),
            match sudo_user {
                Some(u) => (r.chown_dir matches Some(c) && c@ == chown_spec(u@, r.dir@))
                    && (r.chown_file matches Some(c) && c@ == chown_spec(u@, r.file@)),
                None => r.chown_dir is None && r.chown_file is None,
            },
    {
        let a = path_join_str(home, ".config");
        let dir = path_join_str(a.as_str(), "linux-init");
        let file = Self::config_path(home);
        match sudo_user {
            Some(u) => {
                let cd = chown(u, dir.as_str());
                let cf = chown(u, file.as_str());
                SavePlan { dir, file, chown_dir: Some(cd), chown_file: Some(cf) }
            },
            None => SavePlan { dir, file, chown_dir: None, chown_file: None },
        }
    }
}

} // verus!
