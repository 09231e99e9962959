//! Fedora's package manager: dnf, with rpm.
use vstd::prelude::*;
use crate::text::str_eq;
use crate::utils::{cmd, command, lits, opt_cmd, opt_lit, with_args, CommandV, ShellCommand};

verus! {

/// Refreshes the package metadata: `sudo dnf makecache`.
pub open spec fn update_spec() -> CommandV {
    cmd("sudo"@, seq!["dnf"@, "makecache"@], "dnf makecache 失败"@)
}

/// Refreshes the package metadata: `sudo dnf makecache`.
pub fn update() -> (c: ShellCommand)
    ensures
        c@ == update_spec(),
{
    let args: &[&str] = &["dnf", "makecache"];
    assert(args@ == seq!["dnf", "makecache"]);
    assert(lits(seq!["dnf", "makecache"]) =~= seq!["dnf"@, "makecache"@]);
    let c = command("sudo", args, "dnf makecache 失败");
    c
}

/// Installs packages: `sudo dnf install -y ...`; nothing to run for an empty list.
pub open spec fn install_spec(packages: Seq<Seq<char>>) -> Option<CommandV> {
    if packages.len() == 0 {
        None
    } else {
        Some(cmd("sudo"@, seq!["dnf"@, "install"@, "-y"@] + packages, "dnf 安装失败"@))
    }
}

/// Installs packages: `sudo dnf install -y ...`; nothing to run for an empty list.
pub fn install(packages: &[&str]) -> (r: Option<ShellCommand>)
    ensures
        opt_cmd(r) == install_spec(lits(packages@)),
{
    if packages.len() == 0 {
        return None;
    }
    let args: &[&str] = &["dnf", "install", "-y"];
    assert(args@ == seq!["dnf", "install", "-y"]);
    assert(lits(seq!["dnf", "install", "-y"]) =~= seq!["dnf"@, "install"@, "-y"@]);
    let c = command("sudo", args, "dnf 安装失败");
    Some(with_args(c, packages))
}

/// Removes packages: `sudo dnf remove -y ...`; nothing to run for an empty list.
pub open spec fn uninstall_spec(packages: Seq<Seq<char>>) -> Option<CommandV> {
    if packages.len() == 0 {
        None
    } else {
        Some(cmd("sudo"@, seq!["dnf"@, "remove"@, "-y"@] + packages, "dnf 卸载失败"@))
    }
}

/// Removes packages: `sudo dnf remove -y ...`; nothing to run for an empty list.
pub fn uninstall(packages: &[&str]) -> (r: Option<ShellCommand>)
    ensures
        opt_cmd(r) == uninstall_spec(lits(packages@)),
{
    if packages.len() == 0 {
        return None;
    }
    let args: &[&str] = &["dnf", "remove", "-y"];
    assert(args@ == seq!["dnf", "remove", "-y"]);
    assert(lits(seq!["dnf", "remove", "-y"]) =~= seq!["dnf"@, "remove"@, "-y"@]);
    let c = command("sudo", args, "dnf 卸载失败");
    Some(with_args(c, packages))
}

/// Whether a package is installed: `rpm -q` succeeds.
pub open spec fn is_installed_spec(package: Seq<char>) -> CommandV {
    cmd("rpm"@, seq!["-q"@] + seq![package], ""@)
}

/// Whether a package is installed: `rpm -q` succeeds.
pub fn is_installed(package: &str) -> (c: ShellCommand)
    ensures
        c@ == is_installed_spec(package@),
{
    let args: &[&str] = &["-q"];
    assert(args@ == seq!["-q"]);
    assert(lits(seq!["-q"]) =~= seq!["-q"@]);
    let c = command("rpm", args, "");
    let more: &[&str] = &[package];
    assert(more@ == seq![package]);
    assert(lits(seq![package]) =~= seq![package@]);
    with_args(c, more)
}

/// Whether the repositories offer a package: `dnf list available` succeeds.
pub open spec fn package_exists_spec(package: Seq<char>) -> CommandV {
    cmd("dnf"@, seq!["list"@, "available"@] + seq![package], ""@)
}

/// Whether the repositories offer a package: `dnf list available` succeeds.
pub fn package_exists(package: &str) -> (c: ShellCommand)
    ensures
        c@ == package_exists_spec(package@),
{
    let args: &[&str] = &["list", "available"];
    assert(args@ == seq!["list", "available"]);
    assert(lits(seq!["list", "available"]) =~= seq!["list"@, "available"@]);
    let c = command("dnf", args, "");
    let more: &[&str] = &[package];
    assert(more@ == seq![package]);
    assert(lits(seq![package]) =~= seq![package@]);
    with_args(c, more)
}

/// The Fedora package that provides a tool.
pub open spec fn dnf_package(tool: Seq<char>) -> Option<Seq<char>> {
    if tool == "git"@ {
        Some("git"@)
    } else if tool == "curl"@ {
        Some("curl"@)
    } else if tool == "wget"@ {
        Some("wget"@)
    } else if tool == "btop"@ {
        Some("btop"@)
    } else if tool == "htop"@ {
        Some("htop"@)
    } else if tool == "zoxide"@ {
        Some("zoxide"@)
    } else if tool == "neovim"@ {
        Some("neovim"@)
    } else if tool == "tmux"@ {
        Some("tmux"@)
    } else if tool == "jq"@ {
        Some("jq"@)
    } else if tool == "ripgrep"@ {
        Some("ripgrep"@)
    } else if tool == "fd"@ {
        Some("fd-find"@)
    } else if tool == "bat"@ {
        Some("bat"@)
    } else if tool == "eza"@ {
        Some("eza"@)
    } else if tool == "trash-cli"@ {
        Some("trash-cli"@)
    } else if tool == "procs"@ {
        Some("procs"@)
    } else if tool == "dust"@ {
        Some("du-dust"@)
    } else if tool == "duf"@ {
        Some("duf"@)
    } else if tool == "direnv"@ {
        Some("direnv"@)
    } else if tool == "zsh"@ {
        Some("zsh"@)
    } else if tool == "noto-fonts-cjk"@ {
        Some("google-noto-sans-cjk-fonts"@)
    } else if tool == "wqy-microhei"@ {
        Some("wqy-microhei-fonts"@)
    } else if tool == "wqy-zenhei"@ {
        Some("wqy-zenhei-fonts"@)
    } else if tool == "fcitx5"@ {
        Some("fcitx5"@)
    } else if tool == "fcitx5-chinese-addons"@ {
        Some("fcitx5-chinese-addons"@)
    } else if tool == "fcitx5-configtool"@ {
        Some("fcitx5-configtool"@)
    } else if tool == "vim"@ {
        Some("vim-enhanced"@)
    } else if tool == "openssh-server"@ {
        Some("openssh-server"@)
    } else if tool == "glibc-langpack-zh"@ {
        Some("glibc-langpack-zh"@)
    } else if tool == "fzf"@ {
        Some("fzf"@)
    } else {
        None
    }
}

/// The Fedora package that provides a tool.
pub fn package_name(tool: &str) -> (r: Option<&'static str>)
    ensures
        opt_lit(r) == dnf_package(tool@),
{
    if str_eq(tool, "git") {
        return Some("git");
    }
    if str_eq(tool, "curl") {
        return Some("curl");
    }
    if str_eq(tool, "wget") {
        return Some("wget");
    }
    if str_eq(tool, "btop") {
        return Some("btop");
    }
    if str_eq(tool, "htop") {
        return Some("htop");
    }
    if str_eq(tool, "zoxide") {
        return Some("zoxide");
    }
    if str_eq(tool, "neovim") {
        return Some("neovim");
    }
    if str_eq(tool, "tmux") {
        return Some("tmux");
    }
    if str_eq(tool, "jq") {
        return Some("jq");
    }
    if str_eq(tool, "ripgrep") {
        return Some("ripgrep");
    }
    if str_eq(tool, "fd") {
        return Some("fd-find");
    }
    if str_eq(tool, "bat") {
        return Some("bat");
    }
    if str_eq(tool, "eza") {
        return Some("eza");
    }
    if str_eq(tool, "trash-cli") {
        return Some("trash-cli");
    }
    if str_eq(tool, "procs") {
        return Some("procs");
    }
    if str_eq(tool, "dust") {
        return Some("du-dust");
    }
    if str_eq(tool, "duf") {
        return Some("duf");
    }
    if str_eq(tool, "direnv") {
        return Some("direnv");
    }
    if str_eq(tool, "zsh") {
        return Some("zsh");
    }
    if str_eq(tool, "noto-fonts-cjk") {
        return Some("google-noto-sans-cjk-fonts");
    }
    if str_eq(tool, "wqy-microhei") {
        return Some("wqy-microhei-fonts");
    }
    if str_eq(tool, "wqy-zenhei") {
        return Some("wqy-zenhei-fonts");
    }
    if str_eq(tool, "fcitx5") {
        return Some("fcitx5");
    }
    if str_eq(tool, "fcitx5-chinese-addons") {
        return Some("fcitx5-chinese-addons");
    }
    if str_eq(tool, "fcitx5-configtool") {
        return Some("fcitx5-configtool");
    }
    if str_eq(tool, "vim") {
        return Some("vim-enhanced");
    }
    if str_eq(tool, "openssh-server") {
        return Some("openssh-server");
    }
    if str_eq(tool, "glibc-langpack-zh") {
        return Some("glibc-langpack-zh");
    }
    if str_eq(tool, "fzf") {
        return Some("fzf");
    }
    None
}

} // verus!
