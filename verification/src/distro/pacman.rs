//! Arch's package manager: pacman.
use vstd::prelude::*;
use crate::text::str_eq;
use crate::utils::{cmd, command, lits, opt_cmd, opt_lit, with_args, CommandV, ShellCommand};

verus! {

/// Refreshes the package databases: `sudo pacman -Syy`.
pub open spec fn update_spec() -> CommandV {
    cmd("sudo"@, seq!["pacman"@, "-Syy"@], "pacman -Syy 失败"@)
}

/// Refreshes the package databases: `sudo pacman -Syy`.
pub fn update() -> (c: ShellCommand)
    ensures
        c@ == update_spec(),
{
    let args: &[&str] = &["pacman", "-Syy"];
    assert(args@ == seq!["pacman", "-Syy"]);
    assert(lits(seq!["pacman", "-Syy"]) =~= seq!["pacman"@, "-Syy"@]);
    let c = command("sudo", args, "pacman -Syy 失败");
    c
}

/// Installs packages: `sudo pacman -S --noconfirm --needed ...`; nothing to run for an empty list.
pub open spec fn install_spec(packages: Seq<Seq<char>>) -> Option<CommandV> {
    if packages.len() == 0 {
        None
    } else {
        Some(cmd("sudo"@, seq!["pacman"@, "-S"@, "--noconfirm"@, "--needed"@] + packages, "pacman 安装失败"@))
    }
}

/// Installs packages: `sudo pacman -S --noconfirm --needed ...`; nothing to run for an empty list.
pub fn install(packages: &[&str]) -> (r: Option<ShellCommand>)
    ensures
        opt_cmd(r) == install_spec(lits(packages@)),
{
    if packages.len() == 0 {
        return None;
    }
    let args: &[&str] = &["pacman", "-S", "--noconfirm", "--needed"];
    assert(args@ == seq!["pacman", "-S", "--noconfirm", "--needed"]);
    assert(lits(seq!["pacman", "-S", "--noconfirm", "--needed"]) =~= seq!["pacman"@, "-S"@, "--noconfirm"@, "--needed"@]);
    let c = command("sudo", args, "pacman 安装失败");
    Some(with_args(c, packages))
}

/// Removes packages: `sudo pacman -R --noconfirm ...`; nothing to run for an empty list.
pub open spec fn uninstall_spec(packages: Seq<Seq<char>>) -> Option<CommandV> {
    if packages.len() == 0 {
        None
    } else {
        Some(cmd("sudo"@, seq!["pacman"@, "-R"@, "--noconfirm"@] + packages, "pacman 卸载失败"@))
    }
}

/// Removes packages: `sudo pacman -R --noconfirm ...`; nothing to run for an empty list.
pub fn uninstall(packages: &[&str]) -> (r: Option<ShellCommand>)
    ensures
        opt_cmd(r) == uninstall_spec(lits(packages@)),
{
    if packages.len() == 0 {
        return None;
    }
    let args: &[&str] = &["pacman", "-R", "--noconfirm"];
    assert(args@ == seq!["pacman", "-R", "--noconfirm"]);
    assert(lits(seq!["pacman", "-R", "--noconfirm"]) =~= seq!["pacman"@, "-R"@, "--noconfirm"@]);
    let c = command("sudo", args, "pacman 卸载失败");
    Some(with_args(c, packages))
}

/// Whether a package is installed: `pacman -Qi` succeeds.
pub open spec fn is_installed_spec(package: Seq<char>) -> CommandV {
    cmd("pacman"@, seq!["-Qi"@] + seq![package], ""@)
}

/// Whether a package is installed: `pacman -Qi` succeeds.
pub fn is_installed(package: &str) -> (c: ShellCommand)
    ensures
        c@ == is_installed_spec(package@),
{
    let args: &[&str] = &["-Qi"];
    assert(args@ == seq!["-Qi"]);
    assert(lits(seq!["-Qi"]) =~= seq!["-Qi"@]);
    let c = command("pacman", args, "");
    let more: &[&str] = &[package];
    assert(more@ == seq![package]);
    assert(lits(seq![package]) =~= seq![package@]);
    with_args(c, more)
}

/// The Arch package that provides a tool.
pub open spec fn pacman_package(tool: Seq<char>) -> Option<Seq<char>> {
    if tool == "git"@ {
        Some("git"@)
    } else if tool == "curl"@ {
        Some("curl"@)
    } else if tool == "wget"@ {
        Some("wget"@)
    } else if tool == "btop"@ {
        Some("btop"@)
    } else if tool == "htop"@ {
        Some("htop"@)
    } else if tool == "zoxide"@ {
        Some("zoxide"@)
    } else if tool == "fzf"@ {
        Some("fzf"@)
    } else if tool == "neovim"@ {
        Some("neovim"@)
    } else if tool == "tmux"@ {
        Some("tmux"@)
    } else if tool == "jq"@ {
        Some("jq"@)
    } else if tool == "ripgrep"@ {
        Some("ripgrep"@)
    } else if tool == "fd"@ {
        Some("fd"@)
    } else if tool == "bat"@ {
        Some("bat"@)
    } else if tool == "eza"@ {
        Some("eza"@)
    } else if tool == "trash-cli"@ {
        Some("trash-cli"@)
    } else if tool == "procs"@ {
        Some("procs"@)
    } else if tool == "dust"@ {
        Some("du-dust"@)
    } else if tool == "duf"@ {
        Some("duf"@)
    } else if tool == "direnv"@ {
        Some("direnv"@)
    } else if tool == "zsh"@ {
        Some("zsh"@)
    } else if tool == "docker"@ {
        Some("docker"@)
    } else if tool == "docker-compose"@ {
        Some("docker-compose"@)
    } else if tool == "noto-fonts-cjk"@ {
        Some("noto-fonts-cjk"@)
    } else if tool == "fcitx5"@ {
        Some("fcitx5"@)
    } else if tool == "fcitx5-chinese-addons"@ {
        Some("fcitx5-chinese-addons"@)
    } else if tool == "fcitx5-configtool"@ {
        Some("fcitx5-configtool"@)
    } else if tool == "vim"@ {
        Some("vim"@)
    } else if tool == "openssh"@ {
        Some("openssh"@)
    } else {
        None
    }
}

/// The Arch package that provides a tool.
pub fn package_name(tool: &str) -> (r: Option<&'static str>)
    ensures
        opt_lit(r) == pacman_package(tool@),
{
    if str_eq(tool, "git") {
        return Some("git");
    }
    if str_eq(tool, "curl") {
        return Some("curl");
    }
    if str_eq(tool, "wget") {
        return Some("wget");
    }
    if str_eq(tool, "btop") {
        return Some("btop");
    }
    if str_eq(tool, "htop") {
        return Some("htop");
    }
    if str_eq(tool, "zoxide") {
        return Some("zoxide");
    }
    if str_eq(tool, "fzf") {
        return Some("fzf");
    }
    if str_eq(tool, "neovim") {
        return Some("neovim");
    }
    if str_eq(tool, "tmux") {
        return Some("tmux");
    }
    if str_eq(tool, "jq") {
        return Some("jq");
    }
    if str_eq(tool, "ripgrep") {
        return Some("ripgrep");
    }
    if str_eq(tool, "fd") {
        return Some("fd");
    }
    if str_eq(tool, "bat") {
        return Some("bat");
    }
    if str_eq(tool, "eza") {
        return Some("eza");
    }
    if str_eq(tool, "trash-cli") {
        return Some("trash-cli");
    }
    if str_eq(tool, "procs") {
        return Some("procs");
    }
    if str_eq(tool, "dust") {
        return Some("du-dust");
    }
    if str_eq(tool, "duf") {
        return Some("duf");
    }
    if str_eq(tool, "direnv") {
        return Some("direnv");
    }
    if str_eq(tool, "zsh") {
        return Some("zsh");
    }
    if str_eq(tool, "docker") {
        return Some("docker");
    }
    if str_eq(tool, "docker-compose") {
        return Some("docker-compose");
    }
    if str_eq(tool, "noto-fonts-cjk") {
        return Some("noto-fonts-cjk");
    }
    if str_eq(tool, "fcitx5") {
        return Some("fcitx5");
    }
    if str_eq(tool, "fcitx5-chinese-addons") {
        return Some("fcitx5-chinese-addons");
    }
    if str_eq(tool, "fcitx5-configtool") {
        return Some("fcitx5-configtool");
    }
    if str_eq(tool, "vim") {
        return Some("vim");
    }
    if str_eq(tool, "openssh") {
        return Some("openssh");
    }
    None
}

} // verus!
