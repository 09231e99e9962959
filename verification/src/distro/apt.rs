//! Debian's package manager: apt, with dpkg and apt-cache.
use vstd::prelude::*;
use crate::text::str_eq;
use crate::utils::{cmd, command, lits, opt_cmd, opt_lit, with_args, CommandV, ShellCommand};

verus! {

/// Refreshes the package lists: `sudo apt update`, run once before installing.
pub open spec fn update_spec() -> CommandV {
    cmd("sudo"@, seq!["apt"@, "update"@], "apt update 失败"@)
}

/// Refreshes the package lists: `sudo apt update`, run once before installing.
pub fn update() -> (c: ShellCommand)
    ensures
        c@ == update_spec(),
{
    let args: &[&str] = &["apt", "update"];
    assert(args@ == seq!["apt", "update"]);
    assert(lits(seq!["apt", "update"]) =~= seq!["apt"@, "update"@]);
    let c = command("sudo", args, "apt update 失败");
    c
}

/// Installs packages: `sudo apt install -y ...`; nothing to run for an empty list.
pub open spec fn install_spec(packages: Seq<Seq<char>>) -> Option<CommandV> {
    if packages.len() == 0 {
        None
    } else {
        Some(cmd("sudo"@, seq!["apt"@, "install"@, "-y"@] + packages, "apt 安装失败"@))
    }
}

/// Installs packages: `sudo apt install -y ...`; nothing to run for an empty list.
pub fn install(packages: &[&str]) -> (r: Option<ShellCommand>)
    ensures
        opt_cmd(r) == install_spec(lits(packages@)),
{
    if packages.len() == 0 {
        return None;
    }
    let args: &[&str] = &["apt", "install", "-y"];
    assert(args@ == seq!["apt", "install", "-y"]);
    assert(lits(seq!["apt", "install", "-y"]) =~= seq!["apt"@, "install"@, "-y"@]);
    let c = command("sudo", args, "apt 安装失败");
    Some(with_args(c, packages))
}

/// Removes packages: `sudo apt remove -y ...`; nothing to run for an empty list.
pub open spec fn uninstall_spec(packages: Seq<Seq<char>>) -> Option<CommandV> {
    if packages.len() == 0 {
        None
    } else {
        Some(cmd("sudo"@, seq!["apt"@, "remove"@, "-y"@] + packages, "apt 卸载失败"@))
    }
}

/// Removes packages: `sudo apt remove -y ...`; nothing to run for an empty list.
pub fn uninstall(packages: &[&str]) -> (r: Option<ShellCommand>)
    ensures
        opt_cmd(r) == uninstall_spec(lits(packages@)),
{
    if packages.len() == 0 {
        return None;
    }
    let args: &[&str] = &["apt", "remove", "-y"];
    assert(args@ == seq!["apt", "remove", "-y"]);
    assert(lits(seq!["apt", "remove", "-y"]) =~= seq!["apt"@, "remove"@, "-y"@]);
    let c = command("sudo", args, "apt 卸载失败");
    Some(with_args(c, packages))
}

/// Whether a package is installed: `dpkg -s` succeeds.
pub open spec fn is_installed_spec(package: Seq<char>) -> CommandV {
    cmd("dpkg"@, seq!["-s"@] + seq![package], ""@)
}

/// Whether a package is installed: `dpkg -s` succeeds.
pub fn is_installed(package: &str) -> (c: ShellCommand)
    ensures
        c@ == is_installed_spec(package@),
{
    let args: &[&str] = &["-s"];
    assert(args@ == seq!["-s"]);
    assert(lits(seq!["-s"]) =~= seq!["-s"@]);
    let c = command("dpkg", args, "");
    let more: &[&str] = &[package];
    assert(more@ == seq![package]);
    assert(lits(seq![package]) =~= seq![package@]);
    with_args(c, more)
}

/// Whether the repositories offer a package: `apt-cache show` succeeds.
pub open spec fn package_exists_spec(package: Seq<char>) -> CommandV {
    cmd("apt-cache"@, seq!["show"@] + seq![package], ""@)
}

/// Whether the repositories offer a package: `apt-cache show` succeeds.
pub fn package_exists(package: &str) -> (c: ShellCommand)
    ensures
        c@ == package_exists_spec(package@),
{
    let args: &[&str] = &["show"];
    assert(args@ == seq!["show"]);
    assert(lits(seq!["show"]) =~= seq!["show"@]);
    let c = command("apt-cache", args, "");
    let more: &[&str] = &[package];
    assert(more@ == seq![package]);
    assert(lits(seq![package]) =~= seq![package@]);
    with_args(c, more)
}

/// The Debian package that provides a tool.
pub open spec fn apt_package(tool: Seq<char>) -> Option<Seq<char>> {
    if tool == "git"@ {
        Some("git"@)
    } else if tool == "curl"@ {
        Some("curl"@)
    } else if tool == "wget"@ {
        Some("wget"@)
    } else if tool == "btop"@ {
        Some("btop"@)
    } else if tool == "htop"@ {
        Some("htop"@)
    } else if tool == "zoxide"@ {
        Some("zoxide"@)
    } else if tool == "fzf"@ {
        Some("fzf"@)
    } else if tool == "neovim"@ {
        Some("neovim"@)
    } else if tool == "tmux"@ {
        Some("tmux"@)
    } else if tool == "jq"@ {
        Some("jq"@)
    } else if tool == "ripgrep"@ {
        Some("ripgrep"@)
    } else if tool == "fd"@ {
        Some("fd-find"@)
    } else if tool == "bat"@ {
        Some("bat"@)
    } else if tool == "eza"@ {
        Some("eza"@)
    } else if tool == "trash-cli"@ {
        Some("trash-cli"@)
    } else if tool == "procs"@ {
        Some("procs"@)
    } else if tool == "dust"@ {
        Some("du-dust"@)
    } else if tool == "duf"@ {
        Some("duf"@)
    } else if tool == "direnv"@ {
        Some("direnv"@)
    } else if tool == "zsh"@ {
        Some("zsh"@)
    } else if tool == "noto-fonts-cjk"@ {
        Some("fonts-noto-cjk"@)
    } else if tool == "wqy-microhei"@ {
        Some("fonts-wqy-microhei"@)
    } else if tool == "wqy-zenhei"@ {
        Some("fonts-wqy-zenhei"@)
    } else if tool == "fcitx5"@ {
        Some("fcitx5"@)
    } else if tool == "fcitx5-chinese-addons"@ {
        Some("fcitx5-chinese-addons"@)
    } else if tool == "fcitx5-configtool"@ {
        Some("fcitx5-configtool"@)
    } else if tool == "vim"@ {
        Some("vim"@)
    } else if tool == "openssh-server"@ {
        Some("openssh-server"@)
    } else {
        None
    }
}

/// The Debian package that provides a tool.
pub fn package_name(tool: &str) -> (r: Option<&'static str>)
    ensures
        opt_lit(r) == apt_package(tool@),
{
    if str_eq(tool, "git") {
        return Some("git");
    }
    if str_eq(tool, "curl") {
        return Some("curl");
    }
    if str_eq(tool, "wget") {
        return Some("wget");
    }
    if str_eq(tool, "btop") {
        return Some("btop");
    }
    if str_eq(tool, "htop") {
        return Some("htop");
    }
    if str_eq(tool, "zoxide") {
        return Some("zoxide");
    }
    if str_eq(tool, "fzf") {
        return Some("fzf");
    }
    if str_eq(tool, "neovim") {
        return Some("neovim");
    }
    if str_eq(tool, "tmux") {
        return Some("tmux");
    }
    if str_eq(tool, "jq") {
        return Some("jq");
    }
    if str_eq(tool, "ripgrep") {
        return Some("ripgrep");
    }
    if str_eq(tool, "fd") {
        return Some("fd-find");
    }
    if str_eq(tool, "bat") {
        return Some("bat");
    }
    if str_eq(tool, "eza") {
        return Some("eza");
    }
    if str_eq(tool, "trash-cli") {
        return Some("trash-cli");
    }
    if str_eq(tool, "procs") {
        return Some("procs");
    }
    if str_eq(tool, "dust") {
        return Some("du-dust");
    }
    if str_eq(tool, "duf") {
        return Some("duf");
    }
    if str_eq(tool, "direnv") {
        return Some("direnv");
    }
    if str_eq(tool, "zsh") {
        return Some("zsh");
    }
    if str_eq(tool, "noto-fonts-cjk") {
        return Some("fonts-noto-cjk");
    }
    if str_eq(tool, "wqy-microhei") {
        return Some("fonts-wqy-microhei");
    }
    if str_eq(tool, "wqy-zenhei") {
        return Some("fonts-wqy-zenhei");
    }
    if str_eq(tool, "fcitx5") {
        return Some("fcitx5");
    }
    if str_eq(tool, "fcitx5-chinese-addons") {
        return Some("fcitx5-chinese-addons");
    }
    if str_eq(tool, "fcitx5-configtool") {
        return Some("fcitx5-configtool");
    }
    if str_eq(tool, "vim") {
        return Some("vim");
    }
    if str_eq(tool, "openssh-server") {
        return Some("openssh-server");
    }
    None
}

} // verus!
