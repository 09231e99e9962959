//! Node.js through nvm.
use vstd::prelude::*;
use vstd::string::*;
use crate::distro::{Distro, DistroV};
use crate::text::{
    chars_of, contains, contains_str, lemma_contains_append, lemma_contains_at, path_join,
    path_join_str, seqs, split_char, split_char_vec, starts_with, string_of, trim, trim_vec,
};
use crate::utils::{
    cmd, cmds, command, ensure_command, ensure_command_spec, lits, owned, plan_view, push_cmd,
    then, then_plan, with_args, CommandV, ShellCommand,
};

verus! {

/// The home directory in a `getent passwd` line: its sixth `:`-separated
/// field, without surrounding whitespace.
pub open spec fn passwd_home(line: Seq<char>) -> Option<Seq<char>> {
    let fields = split_char(line, ':');
    if fields.len() > 5 {
        Some(trim(fields[5]))
    } else {
        None
    }
}

/// The home directory in the output of `getent passwd <user>`.
pub fn home_from_passwd(line: &str) -> (r: Option<String>)
    ensures
        match r {
            Some(h) => passwd_home(line@) == Some(h@),
            None => passwd_home(line@) is None,
        },
{
    let cs = chars_of(line);
    let fields = split_char_vec(&cs, ':');
    if fields.len() > 5 {
        let t = trim_vec(&fields[5]);
        Some(string_of(&t))
    } else {
        None
    }
}

/// The real user's home directory: under sudo, the one that `getent passwd`
/// gives for `$SUDO_USER`; else (or when that gives none) the process's own
/// home directory; an error when neither is known.
pub open spec fn real_home_spec(getent_output: Option<Seq<char>>, home_dir: Option<Seq<char>>) -> Result<
    Seq<char>,
    Seq<char>,
> {
    match getent_output {
        Some(o) if passwd_home(o) is Some => Ok(passwd_home(o)->0),
        _ => match home_dir {
            Some(h) => Ok(h),
            None => Err("无法获取 home 目录"@),
        },
    }
}

/// The real user's home directory; `getent_output` is the output of
/// `getent passwd $SUDO_USER` when running under sudo.
pub fn get_real_home(getent_output: Option<&str>, home_dir: Option<&str>) -> (r: Result<String, String>)
    ensures
        match r {
            Ok(h) => real_home_spec(
                match getent_output {
                    Some(o) => Some(o@),
                    None => None,
                },
                match home_dir {
                    Some(h) => Some(h@),
                    None => None,
                },
            ) == Ok::<Seq<char>, Seq<char>>(h@),
            Err(e) => real_home_spec(
                match getent_output {
                    Some(o) => Some(o@),
                    None => None,
                },
                match home_dir {
                    Some(h) => Some(h@),
                    None => None,
                },
            ) == Err::<Seq<char>, Seq<char>>(e@),
        },
{
    if let Some(o) = getent_output {
        if let Some(h) = home_from_passwd(o) {
            return Ok(h);
        }
    }
    match home_dir {
        Some(h) => Ok(owned(h)),
        None => Err(owned("无法获取 home 目录")),
    }
}

/// `~/.nvm`.
pub open spec fn nvm_dir_spec(home: Seq<char>) -> Seq<char> {
    path_join(home, ".nvm"@)
}

/// `~/.nvm/nvm.sh`, whose presence means nvm is installed.
pub open spec fn nvm_sh_spec(home: Seq<char>) -> Seq<char> {
    path_join(nvm_dir_spec(home), "nvm.sh"@)
}

/// `~/.nvm`.
pub fn nvm_dir(home: &str) -> (r: String)
    ensures
        r@ == nvm_dir_spec(home@),
{
    path_join_str(home, ".nvm")
}

/// `~/.nvm/nvm.sh`.
pub fn nvm_sh(home: &str) -> (r: String)
    ensures
        r@ == nvm_sh_spec(home@),
{
    path_join_str(nvm_dir(home).as_str(), "nvm.sh")
}

/// Where nvm's script is; nvm is installed when this file exists.
pub fn is_nvm_installed(home: &str) -> (r: String)
    ensures
        r@ == nvm_sh_spec(home@),
{
    nvm_sh(home)
}

/// The official nvm installation, piped from curl into bash.
pub open spec fn install_script_spec() -> CommandV {
    cmd(
        "bash"@,
        seq!["-c"@, "curl -o- https://raw.githubusercontent.com/nvm-sh/nvm/v0.40.1/install.sh | bash"@],
        "nvm 安装脚本执行失败"@,
    )
}

/// Installing nvm: making sure curl exists, then (unless nvm is installed)
/// the official script.
pub open spec fn install_nvm_spec(d: DistroV, curl_exists: bool, nvm_installed: bool) -> Result<
    Seq<CommandV>,
    Seq<char>,
> {
    then(
        ensure_command_spec(d, "curl"@, curl_exists),
        Ok(
            if nvm_installed {
                seq![]
            } else {
                seq![install_script_spec()]
            },
        ),
    )
}

/// Installing nvm; `curl_exists` tells whether curl is there,
/// `nvm_installed` whether `~/.nvm/nvm.sh` exists.
pub fn install_nvm(distro: &Distro, curl_exists: bool, nvm_installed: bool) -> (r: Result<
    Vec<ShellCommand>,
    String,
>)
    ensures
        plan_view(r) == install_nvm_spec(distro@, curl_exists, nvm_installed),
{
    let first = ensure_command(distro, "curl", curl_exists);
    let mut rest: Vec<ShellCommand> = Vec::new();
    if !nvm_installed {
        let args: &[&str] = &[
            "-c",
            "curl -o- https://raw.githubusercontent.com/nvm-sh/nvm/v0.40.1/install.sh | bash",
        ];
        assert(args@ == seq![
            "-c",
            "curl -o- https://raw.githubusercontent.com/nvm-sh/nvm/v0.40.1/install.sh | bash",
        ]);
        assert(lits(
            seq![
                "-c",
                "curl -o- https://raw.githubusercontent.com/nvm-sh/nvm/v0.40.1/install.sh | bash",
            ],
        ) =~= seq![
            "-c"@,
            "curl -o- https://raw.githubusercontent.com/nvm-sh/nvm/v0.40.1/install.sh | bash"@,
        ]);
        push_cmd(&mut rest, command("bash", args, "nvm 安装脚本执行失败"));
        assert(cmds(rest@) =~= seq![install_script_spec()]);
    } else {
        assert(cmds(rest@) =~= Seq::<CommandV>::empty());
    }
    then_plan(first, Ok(rest))
}

/// `bash -c "<script>"`, the script loading nvm first.
pub open spec fn nvm_script_spec(nvm_sh: Seq<char>, rest: Seq<char>, fail: Seq<char>) -> CommandV {
    cmd("bash"@, seq!["-c"@, "source '"@ + nvm_sh + "'"@ + rest], fail)
}

fn nvm_script(nvm_sh: &str, rest: &str, fail: &str) -> (c: ShellCommand)
    ensures
        c@ == nvm_script_spec(nvm_sh@, rest@, fail@),
{
    let script = owned("source '").concat(nvm_sh).concat("'").concat(rest);
    let sc = script.as_str();
    let args: &[&str] = &["-c", sc];
    assert(args@ == seq!["-c", sc]);
    assert(lits(seq!["-c", sc]) =~= seq!["-c"@, script@]);
    command("bash", args, fail)
}

/// Installing the latest LTS Node.js and making it the default; refused
/// when nvm is not installed.
pub fn install_node_lts(nvm_sh: &str, nvm_installed: bool) -> (r: Result<ShellCommand, String>)
    ensures
        !nvm_installed ==> (r matches Err(e) && e@ == "nvm 未安装"@),
        nvm_installed ==> (r matches Ok(c) && c@ == nvm_script_spec(
            nvm_sh@,
            " && nvm install --lts && nvm alias default lts/*"@,
            "Node.js LTS 安装失败"@,
        )),
{
    if !nvm_installed {
        return Err(owned("nvm 未安装"));
    }
    Ok(nvm_script(nvm_sh, " && nvm install --lts && nvm alias default lts/*", "Node.js LTS 安装失败"))
}

/// Installing the latest Node.js and making it the default; refused when
/// nvm is not installed.
pub fn install_node_latest(nvm_sh: &str, nvm_installed: bool) -> (r: Result<ShellCommand, String>)
    ensures
        !nvm_installed ==> (r matches Err(e) && e@ == "nvm 未安装"@),
        nvm_installed ==> (r matches Ok(c) && c@ == nvm_script_spec(
            nvm_sh@,
            " && nvm install node && nvm alias default node"@,
            "Node.js Latest 安装失败"@,
        )),
{
    if !nvm_installed {
        return Err(owned("nvm 未安装"));
    }
    Ok(nvm_script(nvm_sh, " && nvm install node && nvm alias default node", "Node.js Latest 安装失败"))
}

/// The command that prints the Node.js version with nvm loaded.
pub fn node_version_probe(nvm_sh: &str) -> (c: ShellCommand)
    ensures
        c@ == nvm_script_spec(nvm_sh@, " && node --version 2>/dev/null"@, ""@),
{
    nvm_script(nvm_sh, " && node --version 2>/dev/null", "")
}

/// The installed Node.js version: none without nvm or when the probe failed
/// (`None`) or printed nothing; else its output without surrounding
/// whitespace.
pub fn installed_node_version(nvm_installed: bool, probe_output: Option<&str>) -> (r: Option<String>)
    ensures
        !nvm_installed ==> r is None,
        nvm_installed ==> match probe_output {
            None => r is None,
            Some(o) => if trim(o@).len() == 0 {
                r is None
            } else {
                r matches Some(v) && v@ == trim(o@)
            },
        },
{
    if !nvm_installed {
        return None;
    }
    match probe_output {
        None => None,
        Some(o) => {
            let cs = chars_of(o);
            let t = trim_vec(&cs);
            if t.len() == 0 {
                None
            } else {
                Some(string_of(&t))
            }
        },
    }
}

/// The lines that load nvm in a shell, added to its configuration.
pub open spec fn nvm_snippet_spec(nvm_sh: Seq<char>) -> Seq<char> {
    "\nexport NVM_DIR=\"$HOME/.nvm\"\n[ -s \""@ + nvm_sh + "\" ] && \\. \""@ + nvm_sh
        + "\"\n[ -s \"$NVM_DIR/bash_completion\" ] && \\. \"$NVM_DIR/bash_completion\"\n"@
}

/// What to append to a shell configuration so that it loads nvm: nothing
/// when it mentions `NVM_DIR` already.
pub open spec fn shell_integration_spec(rc: Seq<char>, nvm_sh: Seq<char>) -> Option<Seq<char>> {
    if contains(rc, "NVM_DIR"@) {
        None
    } else {
        Some(nvm_snippet_spec(nvm_sh))
    }
}

/// What to append to a shell configuration (`.bashrc`, `.zshrc`) so that it
/// loads nvm.
pub fn ensure_shell_integration(rc: &str, nvm_sh: &str) -> (r: Option<String>)
    ensures
        match r {
            Some(s) => shell_integration_spec(rc@, nvm_sh@) == Some(s@),
            None => shell_integration_spec(rc@, nvm_sh@) is None,
        },
{
    let cs = chars_of(rc);
    if contains_str(&cs, "NVM_DIR") {
        return None;
    }
    let s = owned("\nexport NVM_DIR=\"$HOME/.nvm\"\n[ -s \"").concat(nvm_sh).concat(
        "\" ] && \\. \"",
    ).concat(nvm_sh).concat(
        "\"\n[ -s \"$NVM_DIR/bash_completion\" ] && \\. \"$NVM_DIR/bash_completion\"\n",
    );
    Some(s)
}

/// Law: the shell integration is added at most once: after appending what
/// `ensure_shell_integration` gives, it gives nothing more.
pub proof fn law_shell_integration_once(rc: Seq<char>, nvm_sh: Seq<char>)
    ensures
        match shell_integration_spec(rc, nvm_sh) {
            Some(add) => shell_integration_spec(rc + add, nvm_sh) is None,
            None => true,
        },
{
    reveal_strlit("\nexport NVM_DIR=\"$HOME/.nvm\"\n[ -s \"");
    reveal_strlit("NVM_DIR");
    let add = nvm_snippet_spec(nvm_sh);
    let head = "\nexport NVM_DIR=\"$HOME/.nvm\"\n[ -s \""@;
    assert(add.skip(8).take(7) =~= "NVM_DIR"@);
    lemma_contains_at(add, "NVM_DIR"@, 8);
    lemma_contains_append(rc, add, "NVM_DIR"@);
}

} // verus!
