//! Zsh and Oh My Zsh: editing `~/.zshrc`, and the commands that install and
//! select the shell.
use vstd::prelude::*;
use vstd::string::*;
use crate::distro::{install_packages, install_packages_spec, res_cmd, Distro, DistroV};
use crate::text::{
    chars_of, int_decimal, i64_text, join, join_vec, path_join, path_join_str, push_str, seqs,
    ends_with_str, set_line, set_line_spec, slice_of, str_eq, string_of, trim, trim_vec,
    LineTest,
};
use crate::utils::{
    as_user, as_user_spec, cmd, cmds, command, ensure_command, ensure_command_spec, lits,
    opt_lit, owned, plan_view, strs, then, then_plan, CommandV, ShellCommand,
};

verus! {

/// The lines of `~/.zshrc` that choose the theme.
pub open spec fn theme_test() -> LineTest {
    LineTest::Prefix("ZSH_THEME=")
}

/// The lines of `~/.zshrc` that list the plugins.
pub open spec fn plugins_test() -> LineTest {
    LineTest::Prefix("plugins=")
}

/// The line that chooses a theme.
pub open spec fn theme_setting(theme: Seq<char>) -> Seq<char> {
    "ZSH_THEME=\""@ + theme + "\""@
}

/// The line that lists plugins.
pub open spec fn plugins_setting(plugins: Seq<Seq<char>>) -> Seq<char> {
    "plugins=("@ + join(plugins, " "@) + ")"@
}

/// `~/.zshrc` with the theme set.
pub open spec fn set_theme_spec(zshrc: Seq<char>, theme: Seq<char>) -> Seq<char> {
    set_line_spec(zshrc, theme_test(), theme_setting(theme), true)
}

/// `~/.zshrc` with the plugin list set.
pub open spec fn set_plugins_spec(zshrc: Seq<char>, plugins: Seq<Seq<char>>) -> Seq<char> {
    set_line_spec(zshrc, plugins_test(), plugins_setting(plugins), true)
}

/// `~/.zshrc` with the theme set: every line that starts (after whitespace)
/// with `ZSH_THEME=` becomes `ZSH_THEME="theme"`, or that line is added.
pub fn set_theme(zshrc: &str, theme: &str) -> (r: String)
    ensures
        r@ == set_theme_spec(zshrc@, theme@),
{
    let mut setting: Vec<char> = Vec::new();
    push_str(&mut setting, "ZSH_THEME=\"");
    push_str(&mut setting, theme);
    push_str(&mut setting, "\"");
    set_line(zshrc, &LineTest::Prefix("ZSH_THEME="), &setting, true)
}

/// `~/.zshrc` with the plugin list set: every line that starts (after
/// whitespace) with `plugins=` becomes `plugins=(a b ...)`, or that line is
/// added.
pub fn set_plugins(zshrc: &str, plugins: &[String]) -> (r: String)
    ensures
        r@ == set_plugins_spec(zshrc@, strs(plugins@)),
{
    let mut names: Vec<Vec<char>> = Vec::new();
    let mut i: usize = 0;
    while i < plugins.len()
        invariant
            i <= plugins.len(),
            seqs(names@) == strs(plugins@).take(i as int),
        decreases plugins.len() - i,
    {
        let ghost before = names@;
        let c = chars_of(plugins[i].as_str());
        names.push(c);
        assert(seqs(names@) =~= seqs(before).push(plugins@[i as int]@));
        i = i + 1;
        assert(seqs(names@) =~= strs(plugins@).take(i as int));
    }
    assert(strs(plugins@).take(i as int) =~= strs(plugins@));
    let mut setting: Vec<char> = Vec::new();
    push_str(&mut setting, "plugins=(");
    let joined = join_vec(&names, " ");
    crate::text::push_all(&mut setting, &joined);
    push_str(&mut setting, ")");
    set_line(zshrc, &LineTest::Prefix("plugins="), &setting, true)
}

/// Installs zsh with the package manager.
pub fn install_zsh(distro: &Distro) -> (r: Result<Option<ShellCommand>, String>)
    ensures
        res_cmd(r) == install_packages_spec(distro@, seq!["zsh"@]),
{
    let pkgs: &[&str] = &["zsh"];
    assert(pkgs@ == seq!["zsh"]);
    assert(lits(seq!["zsh"]) =~= seq!["zsh"@]);
    install_packages(distro, pkgs)
}


/// Where the Oh My Zsh installer is downloaded to.
pub const OMZ_SCRIPT: &'static str = "/tmp/linux-init-omz-install.sh";

/// `~/.oh-my-zsh`; its presence means Oh My Zsh is installed.
pub fn omz_dir(home: &str) -> (r: String)
    ensures
        r@ == path_join(home@, ".oh-my-zsh"@),
{
    path_join_str(home, ".oh-my-zsh")
}

/// Installing Oh My Zsh: what makes sure curl and git are there, then, when
/// `~/.oh-my-zsh` is not there yet, one attempt per source, tried in order
/// until one succeeds: the download of the installer and its run (as the
/// real user, unattended). The installer is removed after each run.
#[derive(Debug)]
pub struct OmzInstall {
    pub prepare: Vec<ShellCommand>,
    /// (download, install) for GitHub, then for the Gitee mirror.
    pub attempts: Vec<(ShellCommand, ShellCommand)>,
}

/// Making sure curl and git are there.
pub open spec fn omz_prepare_spec(d: DistroV, curl_exists: bool, git_exists: bool) -> Result<Seq<CommandV>, Seq<char>> {
    then(ensure_command_spec(d, "curl"@, curl_exists), ensure_command_spec(d, "git"@, git_exists))
}

/// Where Oh My Zsh comes from, in the order tried: the installer's address,
/// and the repository it clones when that is not its default (GitHub).
pub open spec fn omz_sources_spec() -> Seq<(Seq<char>, Option<Seq<char>>)> {
    seq![
        ("https://raw.githubusercontent.com/ohmyzsh/ohmyzsh/master/tools/install.sh"@, None),
        (
            "https://gitee.com/mirrors/oh-my-zsh/raw/master/tools/install.sh"@,
            Some("https://gitee.com/mirrors/oh-my-zsh.git"@),
        ),
    ]
}

/// Downloading the Oh My Zsh installer from an address.
pub open spec fn omz_download_spec(url: Seq<char>) -> CommandV {
    cmd(
        "curl"@,
        seq!["-fSL"@, "--max-time"@, "60"@, "-o"@, "/tmp/linux-init-omz-install.sh"@, url],
        "Oh My Zsh 安装脚本下载失败"@,
    )
}

/// Running the Oh My Zsh installer unattended, cloning from `remote` when
/// one is given.
pub open spec fn omz_run_spec(remote: Option<Seq<char>>) -> CommandV {
    match remote {
        None => cmd("sh"@, seq!["/tmp/linux-init-omz-install.sh"@, ""@, "--unattended"@], "Oh My Zsh 安装失败"@),
        Some(r) => cmd(
            "env"@,
            seq!["REMOTE="@ + r, "sh"@, "/tmp/linux-init-omz-install.sh"@, ""@, "--unattended"@],
            "Oh My Zsh 安装失败"@,
        ),
    }
}

/// The attempt for a source: its download, and its run as the real user.
pub open spec fn omz_attempt_spec(src: (Seq<char>, Option<Seq<char>>), sudo_user: Option<Seq<char>>) -> (CommandV, CommandV) {
    (omz_download_spec(src.0), as_user_spec(omz_run_spec(src.1), sudo_user))
}

/// The attempts, by their views.
pub open spec fn attempts_view(v: Seq<(ShellCommand, ShellCommand)>) -> Seq<(CommandV, CommandV)> {
    v.map_values(|a: (ShellCommand, ShellCommand)| (a.0@, a.1@))
}

fn omz_attempt(url: &str, remote: Option<&str>, sudo_user: Option<&str>) -> (r: (ShellCommand, ShellCommand))
    ensures
        (r.0@, r.1@) == omz_attempt_spec((url@, opt_lit(remote)), opt_lit(sudo_user)),
{
    let a: &[&str] = &["-fSL", "--max-time", "60", "-o", "/tmp/linux-init-omz-install.sh", url];
    assert(a@ == seq!["-fSL", "--max-time", "60", "-o", "/tmp/linux-init-omz-install.sh", url]);
    assert(lits(a@) =~= omz_download_spec(url@).args);
    let download = command("curl", a, "Oh My Zsh 安装脚本下载失败");
    let run = match remote {
        None => {
            let b: &[&str] = &["/tmp/linux-init-omz-install.sh", "", "--unattended"];
            assert(b@ == seq!["/tmp/linux-init-omz-install.sh", "", "--unattended"]);
            assert(lits(b@) =~= omz_run_spec(None).args);
            command("sh", b, "Oh My Zsh 安装失败")
        },
        Some(r) => {
            let setting = owned("REMOTE=").concat(r);
            let s = setting.as_str();
            let b: &[&str] = &[s, "sh", "/tmp/linux-init-omz-install.sh", "", "--unattended"];
            assert(b@ == seq![s, "sh", "/tmp/linux-init-omz-install.sh", "", "--unattended"]);
            assert(lits(b@) =~= omz_run_spec(Some(r@)).args);
            command("env", b, "Oh My Zsh 安装失败")
        },
    };
    (download, as_user(run, sudo_user))
}

/// Installing Oh My Zsh.
pub fn install_oh_my_zsh(
    distro: &Distro,
    curl_exists: bool,
    git_exists: bool,
    omz_exists: bool,
    sudo_user: Option<&str>,
) -> (r: Result<OmzInstall, String>)
    ensures
        match omz_prepare_spec(distro@, curl_exists, git_exists) {
            Err(e) => r matches Err(f) && f@ == e,
            Ok(p) => r matches Ok(i) && {
                &&& cmds(i.prepare@) == p
                &&& attempts_view(i.attempts@) == if omz_exists {
                    Seq::<(CommandV, CommandV)>::empty()
                } else {
                    omz_sources_spec().map_values(
                        |src: (Seq<char>, Option<Seq<char>>)| omz_attempt_spec(src, opt_lit(sudo_user)),
                    )
                }
            },
        },
{
    let prepare = match then_plan(ensure_command(distro, "curl", curl_exists), ensure_command(distro, "git", git_exists)) {
        Ok(p) => p,
        Err(e) => {
            return Err(e);
        },
    };
    let mut attempts: Vec<(ShellCommand, ShellCommand)> = Vec::new();
    if !omz_exists {
        let gh = omz_attempt(
            "https://raw.githubusercontent.com/ohmyzsh/ohmyzsh/master/tools/install.sh",
            None,
            sudo_user,
        );
        let ge = omz_attempt(
            "https://gitee.com/mirrors/oh-my-zsh/raw/master/tools/install.sh",
            Some("https://gitee.com/mirrors/oh-my-zsh.git"),
            sudo_user,
        );
        attempts.push(gh);
        attempts.push(ge);
    }
    assert(attempts_view(attempts@) =~= if omz_exists {
        Seq::<(CommandV, CommandV)>::empty()
    } else {
        omz_sources_spec().map_values(
            |src: (Seq<char>, Option<Seq<char>>)| omz_attempt_spec(src, opt_lit(sudo_user)),
        )
    });
    Ok(OmzInstall { prepare, attempts })
}

/// The error after the installer download failed with an exit code (`None`
/// when it had none): a timeout for curl's code 28.
pub open spec fn omz_download_error_spec(code: Option<i32>) -> Seq<char> {
    let c: int = match code {
        Some(c) => c as int,
        None => -1,
    };
    if c == 28 {
        "下载超时（60秒），请检查网络连接"@
    } else {
        "Oh My Zsh 安装脚本下载失败 (exit code: "@ + int_decimal(c) + ")"@
    }
}

/// The error after the installer download failed.
pub fn omz_download_error(code: Option<i32>) -> (r: String)
    ensures
        r@ == omz_download_error_spec(code),
{
    let c: i64 = match code {
        Some(c) => c as i64,
        None => -1,
    };
    if c == 28 {
        owned("下载超时（60秒），请检查网络连接")
    } else {
        owned("Oh My Zsh 安装脚本下载失败 (exit code: ").concat(i64_text(c).as_str()).concat(")")
    }
}

/// How the installation ended: it failed unless the installer succeeded
/// and `~/.oh-my-zsh` is there afterwards.
pub fn omz_finished(success: bool, installed: bool) -> (r: Result<(), String>)
    ensures
        r is Ok <==> success && installed,
        r matches Err(e) ==> e@ == "Oh My Zsh 安装失败"@,
{
    if !success || !installed {
        Err(owned("Oh My Zsh 安装失败"))
    } else {
        Ok(())
    }
}

/// The Git repository of a third-party plugin; `None` for a plugin that is
/// not fetched.
pub open spec fn plugin_repo_spec(name: Seq<char>) -> Option<Seq<char>> {
    if name == "zsh-autosuggestions"@ {
        Some("https://github.com/zsh-users/zsh-autosuggestions.git"@)
    } else if name == "zsh-syntax-highlighting"@ {
        Some("https://github.com/zsh-users/zsh-syntax-highlighting.git"@)
    } else if name == "zsh-completions"@ {
        Some("https://github.com/zsh-users/zsh-completions.git"@)
    } else if name == "fzf"@ {
        Some("https://github.com/chitoku-k/fzf-zsh-completions.git"@)
    } else if name == "you-should-use"@ {
        Some("https://github.com/MichaelAqworka/zsh-you-should-use.git"@)
    } else {
        None
    }
}

/// The Git repository of a third-party plugin.
pub fn plugin_repo(name: &str) -> (r: Option<&'static str>)
    ensures
        opt_lit(r) == plugin_repo_spec(name@),
{
    if str_eq(name, "zsh-autosuggestions") {
        Some("https://github.com/zsh-users/zsh-autosuggestions.git")
    } else if str_eq(name, "zsh-syntax-highlighting") {
        Some("https://github.com/zsh-users/zsh-syntax-highlighting.git")
    } else if str_eq(name, "zsh-completions") {
        Some("https://github.com/zsh-users/zsh-completions.git")
    } else if str_eq(name, "fzf") {
        Some("https://github.com/chitoku-k/fzf-zsh-completions.git")
    } else if str_eq(name, "you-should-use") {
        Some("https://github.com/MichaelAqworka/zsh-you-should-use.git")
    } else {
        None
    }
}

/// Where a third-party plugin lives: `~/.oh-my-zsh/custom/plugins/<name>`;
/// its presence means it is installed.
pub fn is_third_party_plugin_installed(home: &str, name: &str) -> (r: String)
    ensures
        r@ == path_join(path_join(home@, ".oh-my-zsh/custom/plugins"@), name@),
{
    let dir = path_join_str(home, ".oh-my-zsh/custom/plugins");
    path_join_str(dir.as_str(), name)
}

/// Fetching a third-party plugin: what makes sure git is there, then a
/// clone of its repository (as the real user) when it is not there yet and
/// its repository is known.
pub fn install_third_party_plugin(
    distro: &Distro,
    git_exists: bool,
    home: &str,
    name: &str,
    plugin_exists: bool,
    sudo_user: Option<&str>,
) -> (r: Result<(Vec<ShellCommand>, Option<ShellCommand>), String>)
    ensures
        match ensure_command_spec(distro@, "git"@, git_exists) {
            Err(e) => r matches Err(f) && f@ == e,
            Ok(p) => r matches Ok((prep, clone)) && {
                &&& cmds(prep@) == p
                &&& match (clone, plugin_repo_spec(name@)) {
                    (Some(c), Some(repo)) => !plugin_exists && c@ == as_user_spec(
                        cmd(
                            "git"@,
                            seq!["clone"@, repo, path_join(path_join(home@, ".oh-my-zsh/custom/plugins"@), name@)],
                            "插件 "@ + name@ + " 下载失败"@,
                        ),
                        opt_lit(sudo_user),
                    ),
                    (None, repo) => plugin_exists || repo is None,
                    _ => false,
                }
            },
        },
{
    let prep = match ensure_command(distro, "git", git_exists) {
        Ok(p) => p,
        Err(e) => {
            return Err(e);
        },
    };
    if plugin_exists {
        return Ok((prep, None));
    }
    match plugin_repo(name) {
        None => Ok((prep, None)),
        Some(repo) => {
            let dir = is_third_party_plugin_installed(home, name);
            let d = dir.as_str();
            let a: &[&str] = &["clone", repo, d];
            assert(a@ == seq!["clone", repo, d]);
            assert(lits(a@) =~= seq!["clone"@, repo@, d@]);
            let fail = owned("插件 ").concat(name).concat(" 下载失败");
            let c = command("git", a, fail.as_str());
            Ok((prep, Some(as_user(c, sudo_user))))
        },
    }
}

/// Making zsh the login shell, given what `which zsh` printed: `chsh -s`
/// with that path; an error when it printed nothing.
pub fn set_default_shell(which_output: &str) -> (r: Result<ShellCommand, String>)
    ensures
        trim(which_output@).len() == 0 ==> (r matches Err(e) && e@ == "未找到 zsh"@),
        trim(which_output@).len() > 0 ==> (r matches Ok(c) && c@ == cmd(
            "chsh"@,
            seq!["-s"@, trim(which_output@)],
            "chsh 命令失败"@,
        )),
{
    let path = trim_vec(&chars_of(which_output));
    if path.len() == 0 {
        return Err(owned("未找到 zsh"));
    }
    let p = string_of(&path);
    let ps = p.as_str();
    let a: &[&str] = &["-s", ps];
    assert(a@ == seq!["-s", ps]);
    assert(lits(a@) =~= seq!["-s"@, ps@]);
    Ok(command("chsh", a, "chsh 命令失败"))
}

/// The theme a file of `~/.oh-my-zsh/themes` provides: the name before the
/// `.zsh-theme` extension; `None` for any other file.
pub open spec fn theme_stem(file: Seq<char>) -> Option<Seq<char>> {
    if file.len() > 10 && file.skip(file.len() - 10) == ".zsh-theme"@ {
        Some(file.take(file.len() - 10))
    } else {
        None
    }
}

/// The themes the files provide, in the order of the files.
pub open spec fn theme_stems(files: Seq<Seq<char>>) -> Seq<Seq<char>>
    decreases files.len(),
{
    if files.len() == 0 {
        Seq::empty()
    } else {
        let rest = theme_stems(files.drop_last());
        match theme_stem(files.last()) {
            Some(t) => rest.push(t),
            None => rest,
        }
    }
}

/// The order of `String`s: character by character (which is also the
/// order of their UTF-8 bytes), a prefix first.
pub open spec fn lex_le(a: Seq<char>, b: Seq<char>) -> bool
    decreases a.len(),
{
    if a.len() == 0 {
        true
    } else if b.len() == 0 {
        false
    } else if (a[0] as u32) < (b[0] as u32) {
        true
    } else if (a[0] as u32) > (b[0] as u32) {
        false
    } else {
        lex_le(a.drop_first(), b.drop_first())
    }
}

/// Any two texts are in order one way or the other.
pub proof fn lemma_lex_total(a: Seq<char>, b: Seq<char>)
    ensures
        lex_le(a, b) || lex_le(b, a),
    decreases a.len(),
{
    if a.len() > 0 && b.len() > 0 && (a[0] as u32) == (b[0] as u32) {
        lemma_lex_total(a.drop_first(), b.drop_first());
    }
}

/// The order is transitive.
pub proof fn lemma_lex_trans(a: Seq<char>, b: Seq<char>, c: Seq<char>)
    requires
        lex_le(a, b),
        lex_le(b, c),
    ensures
        lex_le(a, c),
    decreases a.len(),
{
    if a.len() > 0 && b.len() > 0 && c.len() > 0 && (a[0] as u32) == (b[0] as u32) && (b[0] as u32) == (c[0] as u32) {
        lemma_lex_trans(a.drop_first(), b.drop_first(), c.drop_first());
    }
}

/// Whether `a` comes before `b`, or is equal to it.
pub fn lex_le_vec(a: &Vec<char>, b: &Vec<char>) -> (r: bool)
    ensures
        r == lex_le(a@, b@),
{
    let mut i: usize = 0;
    assert(a@.skip(0) =~= a@);
    assert(b@.skip(0) =~= b@);
    while i < a.len()
        invariant
            i <= a.len(),
            i <= b.len(),
            lex_le(a@, b@) == lex_le(a@.skip(i as int), b@.skip(i as int)),
        decreases a.len() - i,
    {
        assert(a@.skip(i as int).drop_first() =~= a@.skip(i + 1));
        assert(a@.skip(i as int)[0] == a@[i as int]);
        if i == b.len() {
            return false;
        }
        assert(b@.skip(i as int).drop_first() =~= b@.skip(i + 1));
        assert(b@.skip(i as int)[0] == b@[i as int]);
        let x = a[i] as u32;
        let y = b[i] as u32;
        if x < y {
            return true;
        }
        if x > y {
            return false;
        }
        i = i + 1;
    }
    true
}

/// Whether names are in order.
pub open spec fn names_sorted(v: Seq<Seq<char>>) -> bool {
    forall|i: int, j: int| 0 <= i < j < v.len() ==> lex_le(v[i], v[j])
}

/// The names of a theme list.
pub open spec fn theme_names(v: Seq<(String, String)>) -> Seq<Seq<char>> {
    v.map_values(|p: (String, String)| p.0@)
}

/// Puts a theme into a sorted list, after the names not after it.
fn insert_sorted(list: &mut Vec<(String, String)>, name: String)
    requires
        names_sorted(theme_names(old(list)@)),
        forall|k: int| 0 <= k < old(list)@.len() ==> old(list)@[k].1@.len() == 0,
    ensures
        names_sorted(theme_names(final(list)@)),
        theme_names(final(list)@).to_multiset() == theme_names(old(list)@).to_multiset().insert(name@),
        forall|k: int| 0 <= k < final(list)@.len() ==> final(list)@[k].1@.len() == 0,
{
    let ghost before = theme_names(list@);
    let nv = chars_of(name.as_str());
    let mut p: usize = 0;
    while p < list.len()
        invariant
            p <= list.len(),
            before == theme_names(list@),
            names_sorted(before),
            nv@ == name@,
            forall|k: int| 0 <= k < p ==> lex_le(before[k], name@),
        ensures
            p <= list.len(),
            before == theme_names(list@),
            forall|k: int| 0 <= k < p ==> lex_le(before[k], name@),
            p < list.len() ==> !lex_le(before[p as int], name@),
        decreases list.len() - p,
    {
        let cur = chars_of(list[p].0.as_str());
        if !lex_le_vec(&cur, &nv) {
            break;
        }
        p = p + 1;
    }
    proof {
        if p < list.len() {
            lemma_lex_total(before[p as int], name@);
            assert forall|k: int| p <= k < before.len() implies lex_le(name@, before[k]) by {
                if k > p {
                    lemma_lex_trans(name@, before[p as int], before[k]);
                }
            }
        }
    }
    list.insert(p, (name, String::new()));
    let ghost after = theme_names(list@);
    assert(after =~= before.insert(p as int, nv@));
    proof {
        vstd::seq_lib::to_multiset_insert(before, p as int, nv@);
        assert forall|i: int, j: int| 0 <= i < j < after.len() implies lex_le(after[i], after[j]) by {
            if j < p {
            } else if j == p {
            } else if i < p {
                lemma_lex_trans(before[i], name@, before[j - 1]);
            } else if i == p {
            } else {
            }
        }
    }
}

/// The themes found in `~/.oh-my-zsh/themes`, given its file names: one
/// `(name, "")` per `.zsh-theme` file, sorted by name.
pub fn get_bundled_theme_list(files: &Vec<String>) -> (r: Vec<(String, String)>)
    ensures
        names_sorted(theme_names(r@)),
        theme_names(r@).to_multiset() == theme_stems(strs(files@)).to_multiset(),
        forall|k: int| 0 <= k < r@.len() ==> r@[k].1@.len() == 0,
{
    let ghost fs = strs(files@);
    let mut list: Vec<(String, String)> = Vec::new();
    let mut i: usize = 0;
    proof {
        reveal_strlit(".zsh-theme");
        assert(theme_names(list@) =~= Seq::<Seq<char>>::empty());
        assert(theme_stems(fs.take(0)) =~= Seq::<Seq<char>>::empty());
    }
    while i < files.len()
        invariant
            i <= files.len(),
            fs == strs(files@),
            names_sorted(theme_names(list@)),
            theme_names(list@).to_multiset() == theme_stems(fs.take(i as int)).to_multiset(),
            forall|k: int| 0 <= k < list@.len() ==> list@[k].1@.len() == 0,
        decreases files.len() - i,
    {
        assert(fs.take(i + 1).drop_last() =~= fs.take(i as int));
        assert(fs.take(i + 1).last() == files@[i as int]@);
        proof {
            reveal_strlit(".zsh-theme");
        }
        let f = chars_of(files[i].as_str());
        if f.len() > 10 && ends_with_str(&f, ".zsh-theme") {
            let stem = slice_of(&f, 0, f.len() - 10);
            assert(stem@ =~= f@.take(f@.len() - 10));
            let ghost rest = theme_stems(fs.take(i as int));
            insert_sorted(&mut list, string_of(&stem));
            proof {
                vstd::seq_lib::to_multiset_build(rest, stem@);
            }
        }
        i = i + 1;
    }
    assert(fs.take(files.len() as int) =~= fs);
    list
}

} // verus!
