//! Command-line tools: installing them (package manager first, GitHub
//! releases as a fallback on Debian), aliases and the direnv hook.
use vstd::prelude::*;
use vstd::string::*;
use crate::app::{tools, tools_spec, triples_of};
use crate::distro::{
    family_of, install_packages, install_packages_spec, is_package_installed,
    is_package_installed_spec, is_tool_installed, is_tool_installed_spec, package_name,
    package_name_spec, res_cmd, uninstall_packages, uninstall_packages_spec, Distro,
    DistroFamily, DistroV,
};
use crate::text::{
    chars_of, contains, contains_str, ends_with, ends_with_str, first_match, first_match_vec,
    lemma_contains_append,
    lemma_contains_at, lines, lines_vec, push_all, push_str, seqs, string_of, trim, trim_char,
    trim_char_vec, trim_start_str, trim_start_str_vec, trim_vec, LineTest, path_join, path_join_str,
};
use crate::utils::{
    cmd, cmds, command, lits, opt_cmd, opt_lit, opt_seq, owned, push_cmd, push_opt, strs, CommandV,
    ShellCommand,
};

verus! {

/// How a release is packaged on GitHub.
#[derive(PartialEq, Eq, Structural, Clone, Copy, Debug)]
pub enum ReleaseKind {
    /// A `.deb` package, installed with `dpkg -i`.
    Deb,
    /// An archive holding the binary, copied to `/usr/local/bin`.
    Archive,
}

/// A GitHub repository whose releases provide a tool.
#[derive(Debug)]
pub struct GithubRelease {
    pub owner: &'static str,
    pub repo: &'static str,
    pub bin: &'static str,
    pub kind: ReleaseKind,
}

/// The GitHub fallback of a tool: duf ships `.deb` packages, procs and eza
/// archives; other tools have none.
pub open spec fn github_release_spec(tool: Seq<char>) -> Option<(Seq<char>, Seq<char>, Seq<char>, ReleaseKind)> {
    if tool == "duf"@ {
        Some(("muesli"@, "duf"@, "duf"@, ReleaseKind::Deb))
    } else if tool == "procs"@ {
        Some(("dalance"@, "procs"@, "procs"@, ReleaseKind::Archive))
    } else if tool == "eza"@ {
        Some(("eza-community"@, "eza"@, "eza"@, ReleaseKind::Archive))
    } else {
        None
    }
}

/// The GitHub release that provides a tool; an error for a tool without
/// one.
pub fn install_via_github_release(tool: &str) -> (r: Result<GithubRelease, String>)
    ensures
        match r {
            Ok(g) => github_release_spec(tool@) == Some((g.owner@, g.repo@, g.bin@, g.kind)),
            Err(e) => github_release_spec(tool@) is None && e@ == tool@ + " 在当前系统无可用安装方式"@,
        },
{
    if crate::text::str_eq(tool, "duf") {
        Ok(GithubRelease { owner: "muesli", repo: "duf", bin: "duf", kind: ReleaseKind::Deb })
    } else if crate::text::str_eq(tool, "procs") {
        Ok(GithubRelease { owner: "dalance", repo: "procs", bin: "procs", kind: ReleaseKind::Archive })
    } else if crate::text::str_eq(tool, "eza") {
        Ok(GithubRelease { owner: "eza-community", repo: "eza", bin: "eza", kind: ReleaseKind::Archive })
    } else {
        Err(owned(tool).concat(" 在当前系统无可用安装方式"))
    }
}

/// The next thing to do while installing one tool.
#[derive(Debug)]
pub enum ToolStep {
    /// Run this command; its success means the tool's package is installed.
    CheckInstalled(ShellCommand),
    /// Run this installation with the package manager.
    Install(ShellCommand),
    /// Run this installation with snap.
    Snap(ShellCommand),
    /// Install from this GitHub release.
    Github(GithubRelease),
    /// The tool is there.
    Done,
    /// The tool cannot be installed.
    Failed(String),
}

/// What happened at the previous step.
#[derive(PartialEq, Eq, Structural, Clone, Copy, Debug)]
pub enum ToolEvent {
    /// Nothing yet.
    Start,
    /// The installed-check ran; whether it succeeded.
    Checked(bool),
    /// The package-manager installation ran; whether it succeeded.
    Installed(bool),
    /// The snap installation ran; whether it succeeded.
    SnapInstalled(bool),
}

/// A step, its texts as character sequences.
pub ghost enum ToolStepV {
    CheckInstalled(CommandV),
    Install(CommandV),
    Snap(CommandV),
    Github(Seq<char>, Seq<char>, Seq<char>, ReleaseKind),
    Done,
    Failed(Seq<char>),
}

impl View for ToolStep {
    type V = ToolStepV;

    open spec fn view(&self) -> ToolStepV {
        match self {
            ToolStep::CheckInstalled(c) => ToolStepV::CheckInstalled(c@),
            ToolStep::Install(c) => ToolStepV::Install(c@),
            ToolStep::Snap(c) => ToolStepV::Snap(c@),
            ToolStep::Github(g) => ToolStepV::Github(g.owner@, g.repo@, g.bin@, g.kind),
            ToolStep::Done => ToolStepV::Done,
            ToolStep::Failed(e) => ToolStepV::Failed(e@),
        }
    }
}

/// Installing a tool with snap.
pub open spec fn snap_install_spec(tool: Seq<char>) -> CommandV {
    cmd("sudo"@, seq!["snap"@, "install"@, tool], tool + " snap 安装失败"@)
}

/// When the package manager cannot help: snap on Debian, else a failure.
pub open spec fn fallback_spec(d: DistroV, tool: Seq<char>) -> ToolStepV {
    if family_of(d) == DistroFamily::Debian {
        ToolStepV::Snap(snap_install_spec(tool))
    } else {
        ToolStepV::Failed(tool + " 安装失败（包管理器和兜底方案均不可用）"@)
    }
}

/// When snap cannot help either: the GitHub release, else a failure.
pub open spec fn github_step_spec(tool: Seq<char>) -> ToolStepV {
    match github_release_spec(tool) {
        Some(g) => ToolStepV::Github(g.0, g.1, g.2, g.3),
        None => ToolStepV::Failed(tool + " 在当前系统无可用安装方式"@),
    }
}

/// Installing a package that is not installed yet: by the package manager,
/// or the fallback when the distribution has none.
pub open spec fn install_step_spec(d: DistroV, tool: Seq<char>, pkg: Seq<char>) -> ToolStepV {
    match install_packages_spec(d, seq![pkg]) {
        Ok(Some(c)) => ToolStepV::Install(c),
        _ => fallback_spec(d, tool),
    }
}

/// The next step of installing a tool: check whether its package is
/// installed; if not, install it with the package manager; if that is
/// impossible or fails, with snap on Debian; if that fails too, from its
/// GitHub release.
pub open spec fn install_single_tool_spec(d: DistroV, tool: Seq<char>, event: ToolEvent) -> ToolStepV {
    match event {
        ToolEvent::SnapInstalled(true) => ToolStepV::Done,
        ToolEvent::SnapInstalled(false) => github_step_spec(tool),
        _ => match package_name_spec(family_of(d), tool) {
        None => fallback_spec(d, tool),
        Some(pkg) => match event {
            ToolEvent::Start => match is_package_installed_spec(family_of(d), pkg) {
                Some(c) => ToolStepV::CheckInstalled(c),
                None => install_step_spec(d, tool, pkg),
            },
            ToolEvent::Checked(true) => ToolStepV::Done,
            ToolEvent::Checked(false) => install_step_spec(d, tool, pkg),
            ToolEvent::Installed(true) => ToolStepV::Done,
            ToolEvent::Installed(false) => fallback_spec(d, tool),
            ToolEvent::SnapInstalled(_) => fallback_spec(d, tool),
        },
        },
    }
}

fn fallback(distro: &Distro, tool: &str) -> (r: ToolStep)
    ensures
        r@ == fallback_spec(distro@, tool@),
{
    if distro.family() == DistroFamily::Debian {
        let a: &[&str] = &["snap", "install", tool];
        assert(a@ == seq!["snap", "install", tool]);
        assert(lits(a@) =~= seq!["snap"@, "install"@, tool@]);
        ToolStep::Snap(command("sudo", a, owned(tool).concat(" snap 安装失败").as_str()))
    } else {
        ToolStep::Failed(owned(tool).concat(" 安装失败（包管理器和兜底方案均不可用）"))
    }
}

fn github_step(tool: &str) -> (r: ToolStep)
    ensures
        r@ == github_step_spec(tool@),
{
    match install_via_github_release(tool) {
        Ok(g) => ToolStep::Github(g),
        Err(e) => ToolStep::Failed(e),
    }
}

fn install_step(distro: &Distro, tool: &str, pkg: &str) -> (r: ToolStep)
    ensures
        r@ == install_step_spec(distro@, tool@, pkg@),
{
    let p: &[&str] = &[pkg];
    assert(p@ == seq![pkg]);
    assert(lits(seq![pkg]) =~= seq![pkg@]);
    match install_packages(distro, p) {
        Ok(Some(c)) => ToolStep::Install(c),
        _ => fallback(distro, tool),
    }
}

/// The next step of installing one tool, after `event`.
pub fn install_single_tool(distro: &Distro, tool: &str, event: ToolEvent) -> (r: ToolStep)
    ensures
        r@ == install_single_tool_spec(distro@, tool@, event),
{
    match event {
        ToolEvent::SnapInstalled(true) => {
            return ToolStep::Done;
        },
        ToolEvent::SnapInstalled(false) => {
            return github_step(tool);
        },
        _ => {},
    }
    match package_name(distro.family(), tool) {
        None => fallback(distro, tool),
        Some(pkg) => match event {
            ToolEvent::Start => match is_package_installed(distro, pkg) {
                Some(c) => ToolStep::CheckInstalled(c),
                None => install_step(distro, tool, pkg),
            },
            ToolEvent::Checked(true) => ToolStep::Done,
            ToolEvent::Checked(false) => install_step(distro, tool, pkg),
            ToolEvent::Installed(true) => ToolStep::Done,
            ToolEvent::Installed(false) => fallback(distro, tool),
            ToolEvent::SnapInstalled(_) => fallback(distro, tool),
        },
    }
}

/// Law: a tool whose package the package manager reports as installed is
/// never installed again: the step after a successful check is `Done`.
pub proof fn law_installed_tool_left_alone(d: DistroV, tool: Seq<char>)
    requires
        package_name_spec(family_of(d), tool) is Some,
    ensures
        install_single_tool_spec(d, tool, ToolEvent::Checked(true)) == ToolStepV::Done,
{
}

/// Law: a successful installation ends the work on a tool. After the package
/// manager installed a tool that has a package on the distribution's family,
/// the next step is `Done` (no snap, no GitHub download, no failure); the
/// same after a successful snap installation, for every tool.
pub proof fn law_successful_install_finishes(d: DistroV, tool: Seq<char>)
    ensures
        package_name_spec(family_of(d), tool) is Some ==> install_single_tool_spec(
            d,
            tool,
            ToolEvent::Installed(true),
        ) == ToolStepV::Done,
        install_single_tool_spec(d, tool, ToolEvent::SnapInstalled(true)) == ToolStepV::Done,
{
}

/// Law: a failure never ends the work as if it had succeeded. A tool whose
/// package is missing is installed by the package manager (`sudo`, ending
/// with that package); when that fails, Debian tries `sudo snap install
/// <tool>` and the other families report that no way is left; when snap fails
/// too, the GitHub release or a failure follows, never `Done`.
pub proof fn law_failure_falls_back(d: DistroV, tool: Seq<char>)
    ensures
        package_name_spec(family_of(d), tool) matches Some(pkg) ==> (install_single_tool_spec(
            d,
            tool,
            ToolEvent::Checked(false),
        ) matches ToolStepV::Install(c) && c.program == "sudo"@ && c.args.last() == pkg),
        package_name_spec(family_of(d), tool) is Some ==> install_single_tool_spec(
            d,
            tool,
            ToolEvent::Installed(false),
        ) == if family_of(d) == DistroFamily::Debian {
            ToolStepV::Snap(cmd("sudo"@, seq!["snap"@, "install"@, tool], tool + " snap 安装失败"@))
        } else {
            ToolStepV::Failed(tool + " 安装失败（包管理器和兜底方案均不可用）"@)
        },
        install_single_tool_spec(d, tool, ToolEvent::SnapInstalled(false)) != ToolStepV::Done,
{
}

/// `tool: error` lines, one per failed tool.
pub open spec fn failure_lines(fs: Seq<(Seq<char>, Seq<char>)>) -> Seq<Seq<char>> {
    fs.map_values(|f: (Seq<char>, Seq<char>)| f.0 + ": "@ + f.1)
}

/// The outcome of installing tools one by one: success when none failed,
/// else one error listing each failure.
pub open spec fn install_tools_spec(fs: Seq<(Seq<char>, Seq<char>)>) -> Result<(), Seq<char>> {
    if fs.len() == 0 {
        Ok(())
    } else {
        Err("以下工具安装失败:\n"@ + crate::text::join(failure_lines(fs), "\n"@))
    }
}

/// The outcome of installing tools one by one, given each failure as
/// (tool, error); a failure does not stop the tools after it.
pub fn install_tools(failures: &[(String, String)]) -> (r: Result<(), String>)
    ensures
        match r {
            Ok(()) => install_tools_spec(crate::distro::detect::pairs(failures@)) == Ok::<(), Seq<char>>(()),
            Err(e) => install_tools_spec(crate::distro::detect::pairs(failures@)) == Err::<(), Seq<char>>(e@),
        },
{
    if failures.len() == 0 {
        return Ok(());
    }
    let ghost fs = crate::distro::detect::pairs(failures@);
    let mut ls: Vec<Vec<char>> = Vec::new();
    let mut i: usize = 0;
    while i < failures.len()
        invariant
            fs == crate::distro::detect::pairs(failures@),
            i <= failures.len(),
            seqs(ls@) == failure_lines(fs).take(i as int),
        decreases failures.len() - i,
    {
        let mut l = chars_of(failures[i].0.as_str());
        push_str(&mut l, ": ");
        push_str(&mut l, failures[i].1.as_str());
        let ghost before = ls@;
        let ghost lv = l@;
        ls.push(l);
        assert(seqs(ls@) =~= seqs(before).push(lv));
        i = i + 1;
        assert(seqs(ls@) =~= failure_lines(fs).take(i as int));
    }
    assert(failure_lines(fs).take(i as int) =~= failure_lines(fs));
    let mut out = chars_of("以下工具安装失败:\n");
    let joined = crate::text::join_vec(&ls, "\n");
    push_all(&mut out, &joined);
    Err(string_of(&out))
}

/// An outcome, its error as a character sequence.
pub open spec fn result_view(r: Result<(), String>) -> Result<(), Seq<char>> {
    match r {
        Ok(_) => Ok(()),
        Err(e) => Err(e@),
    }
}

/// The failures among the results of attempting the selected tools in
/// order: the tool and its error, for each attempt that failed.
pub open spec fn run_failures(selected: Seq<Seq<char>>, results: Seq<Result<(), Seq<char>>>) -> Seq<(Seq<char>, Seq<char>)>
    decreases results.len(),
{
    if results.len() == 0 {
        seq![]
    } else {
        let k = results.len() - 1;
        run_failures(selected, results.drop_last()) + match results.last() {
            Ok(_) => Seq::<(Seq<char>, Seq<char>)>::empty(),
            Err(e) => seq![(selected[k], e)],
        }
    }
}

/// Installing the selected tools one by one: how many were attempted, the
/// failures so far, and (as proof state) the result of each attempt.
pub struct ToolsRun {
    pub attempted: usize,
    pub failures: Vec<(String, String)>,
    pub results: Ghost<Seq<Result<(), Seq<char>>>>,
}

impl ToolsRun {
    /// The run agrees with the selection: one result per attempt, and the
    /// failures are those of the results.
    pub open spec fn wf(&self, selected: Seq<Seq<char>>) -> bool {
        &&& self.results@.len() == self.attempted
        &&& self.attempted <= selected.len()
        &&& crate::distro::detect::pairs(self.failures@) == run_failures(selected, self.results@)
    }

    /// A run before any attempt.
    pub fn new() -> (r: ToolsRun)
        ensures
            r.attempted == 0,
            r.results@ == Seq::<Result<(), Seq<char>>>::empty(),
            forall|selected: Seq<Seq<char>>| #[trigger] r.wf(selected),
    {
        let r = ToolsRun { attempted: 0, failures: Vec::new(), results: Ghost(Seq::empty()) };
        assert(crate::distro::detect::pairs(r.failures@) =~= Seq::<(Seq<char>, Seq<char>)>::empty());
        r
    }

    /// The next tool to attempt: every selected tool in turn, whatever
    /// happened to those before it; none once all were attempted.
    pub fn next_tool(&self, selected: &[String]) -> (r: Option<String>)
        requires
            self.attempted <= selected@.len(),
        ensures
            match r {
                Some(t) => self.attempted < selected@.len() && t@ == selected@[self.attempted as int]@,
                None => self.attempted == selected@.len(),
            },
    {
        if self.attempted < selected.len() {
            Some(selected[self.attempted].clone())
        } else {
            None
        }
    }

    /// Takes in the result of attempting the next tool.
    pub fn record(self, selected: &[String], result: Result<(), String>) -> (r: ToolsRun)
        requires
            self.wf(strs(selected@)),
            self.attempted < selected@.len(),
        ensures
            r.wf(strs(selected@)),
            r.attempted == self.attempted + 1,
            r.results@ == self.results@.push(result_view(result)),
    {
        let ghost rs = self.results@.push(result_view(result));
        let ghost before = self.failures@;
        let mut failures = self.failures;
        let k = self.attempted;
        assert(k < selected.len());
        match result {
            Ok(_) => {},
            Err(e) => {
                failures.push((selected[k].clone(), e));
            },
        }
        proof {
            assert(rs.drop_last() =~= self.results@);
            assert(crate::distro::detect::pairs(failures@) =~= run_failures(strs(selected@), rs));
        }
        ToolsRun { attempted: k + 1, failures, results: Ghost(rs) }
    }

    /// The outcome once every selected tool was attempted: success when
    /// none failed, else one error listing each failure in order.
    pub fn finish(&self, selected: &[String]) -> (r: Result<(), String>)
        requires
            self.wf(strs(selected@)),
            self.attempted == selected@.len(),
        ensures
            result_view(r) == install_tools_spec(run_failures(strs(selected@), self.results@)),
    {
        install_tools(self.failures.as_slice())
    }
}

/// Law: after every selected tool was attempted, installing them succeeds
/// exactly when every attempt succeeded.
pub proof fn law_tools_ok_iff_all_ok(selected: Seq<Seq<char>>, results: Seq<Result<(), Seq<char>>>)
    ensures
        install_tools_spec(run_failures(selected, results)) is Ok <==> forall|i: int|
            0 <= i < results.len() ==> #[trigger] results[i] is Ok,
    decreases results.len(),
{
    if results.len() > 0 {
        let d = results.drop_last();
        law_tools_ok_iff_all_ok(selected, d);
        assert forall|i: int| 0 <= i < d.len() implies #[trigger] d[i] == results[i] by {}
        let fs = run_failures(selected, results);
        let fd = run_failures(selected, d);
        if results.last() is Err {
            assert(fs.len() == fd.len() + 1);
            assert(!(results[results.len() - 1] is Ok));
        } else {
            assert(fs =~= fd);
            if install_tools_spec(fd) is Ok {
                assert forall|i: int| 0 <= i < results.len() implies #[trigger] results[i] is Ok by {
                    if i < d.len() {
                        assert(d[i] is Ok);
                    }
                }
            } else {
                let j = choose|j: int| 0 <= j < d.len() && !(#[trigger] d[j] is Ok);
                assert(!(results[j] is Ok));
            }
        }
    }
}

/// The `.deb` file of a release: `<bin>_<version>_linux_amd64.deb`, the
/// version being the tag without its first character (the `v`).
pub open spec fn deb_name_spec(bin: Seq<char>, tag: Seq<char>) -> Seq<char> {
    bin + "_"@ + tag.skip(1) + "_linux_amd64.deb"@
}

/// The `.deb` file of a release.
pub fn github_deb_name(bin: &str, tag: &str) -> (r: String)
    requires
        tag@.len() > 0,
        (tag@[0] as u32) < 128,
    ensures
        r@ == deb_name_spec(bin@, tag@),
{
    let t = chars_of(tag);
    let rest = crate::text::slice_of(&t, 1, t.len());
    assert(rest@ =~= tag@.skip(1));
    owned(bin).concat("_").concat(string_of(&rest).as_str()).concat("_linux_amd64.deb")
}

/// The download address of a release file.
pub open spec fn release_url_spec(owner: Seq<char>, repo: Seq<char>, tag: Seq<char>, file: Seq<char>) -> Seq<char> {
    "https://github.com/"@ + owner + "/"@ + repo + "/releases/download/"@ + tag + "/"@ + file
}

/// The download address of a release file.
pub fn release_url(owner: &str, repo: &str, tag: &str, file: &str) -> (r: String)
    ensures
        r@ == release_url_spec(owner@, repo@, tag@, file@),
{
    owned("https://github.com/").concat(owner).concat("/").concat(repo).concat(
        "/releases/download/",
    ).concat(tag).concat("/").concat(file)
}

/// Whether naming the archive cuts the first character off the tag: only
/// procs's archives, for a supported architecture, carry the bare version.
pub open spec fn cuts_tag(owner: Seq<char>, repo: Seq<char>, arch: Option<Seq<char>>) -> bool {
    arch is Some && owner == "dalance"@ && repo == "procs"@
}

/// The archive file of a release for a CPU architecture (`x86_64` or
/// `aarch64`; `None` for others, which are refused).
pub open spec fn tarball_spec(owner: Seq<char>, repo: Seq<char>, tag: Seq<char>, arch: Option<Seq<char>>) -> Result<
    Seq<char>,
    Seq<char>,
> {
    match arch {
        None => Err("不支持的 CPU 架构"@),
        Some(a) => if owner == "dalance"@ && repo == "procs"@ {
            Ok("procs-v"@ + tag.skip(1) + "-"@ + a + "-linux.zip"@)
        } else if owner == "eza-community"@ && repo == "eza"@ {
            Ok("eza_"@ + a + "-unknown-linux-gnu.tar.gz"@)
        } else {
            Err("未知的 GitHub 仓库: "@ + owner + "/"@ + repo)
        },
    }
}

/// The archive file of a release for a CPU architecture.
pub fn github_tarball_name(owner: &str, repo: &str, tag: &str, arch: Option<&str>) -> (r: Result<String, String>)
    requires
        cuts_tag(owner@, repo@, opt_lit(arch)) ==> tag@.len() > 0 && (tag@[0] as u32) < 128,
    ensures
        match r {
            Ok(n) => tarball_spec(owner@, repo@, tag@, match arch { Some(a) => Some(a@), None => None }) == Ok::<Seq<char>, Seq<char>>(n@),
            Err(e) => tarball_spec(owner@, repo@, tag@, match arch { Some(a) => Some(a@), None => None }) == Err::<Seq<char>, Seq<char>>(e@),
        },
{
    let a = match arch {
        None => {
            return Err(owned("不支持的 CPU 架构"));
        },
        Some(a) => a,
    };
    if crate::text::str_eq(owner, "dalance") && crate::text::str_eq(repo, "procs") {
        let t = chars_of(tag);
        let rest = crate::text::slice_of(&t, 1, t.len());
        assert(rest@ =~= tag@.skip(1));
        Ok(owned("procs-v").concat(string_of(&rest).as_str()).concat("-").concat(a).concat("-linux.zip"))
    } else if crate::text::str_eq(owner, "eza-community") && crate::text::str_eq(repo, "eza") {
        Ok(owned("eza_").concat(a).concat("-unknown-linux-gnu.tar.gz"))
    } else {
        Err(owned("未知的 GitHub 仓库: ").concat(owner).concat("/").concat(repo))
    }
}

/// Downloading a release file: `curl -fsSL --max-time 120 -o <to> <url>`.
pub open spec fn download_spec(bin: Seq<char>, url: Seq<char>, to: Seq<char>) -> CommandV {
    cmd("curl"@, seq!["-fsSL"@, "--max-time"@, "120"@, "-o"@, to, url], bin + " 下载失败: "@ + url)
}

fn download(bin: &str, url: &str, to: &str) -> (c: ShellCommand)
    ensures
        c@ == download_spec(bin@, url@, to@),
{
    let a: &[&str] = &["-fsSL", "--max-time", "120", "-o", to, url];
    assert(a@ == seq!["-fsSL", "--max-time", "120", "-o", to, url]);
    assert(lits(a@) =~= seq!["-fsSL"@, "--max-time"@, "120"@, "-o"@, to@, url@]);
    let fail = owned(bin).concat(" 下载失败: ").concat(url);
    command("curl", a, fail.as_str())
}

/// Installing a tool from a `.deb` of a GitHub release: where it is
/// downloaded from and to, and the two commands (download, `dpkg -i`); the
/// downloaded file is removed afterwards.
#[derive(Debug)]
pub struct DebInstall {
    pub url: String,
    pub file: String,
    pub download: ShellCommand,
    pub install: ShellCommand,
}

/// The `.deb` install of a release: the download address, the file it is
/// downloaded to, the download, and `sudo dpkg -i` of the file.
pub open spec fn deb_plan_is(p: DebInstall, owner: Seq<char>, repo: Seq<char>, bin: Seq<char>, tag: Seq<char>) -> bool {
    &&& p.url@ == release_url_spec(owner, repo, tag, deb_name_spec(bin, tag))
    &&& p.file@ == "/tmp/linux-init-"@ + bin + ".deb"@
    &&& p.download@ == download_spec(bin, p.url@, p.file@)
    &&& p.install@ == cmd("sudo"@, seq!["dpkg"@, "-i"@, p.file@], bin + " deb 安装失败"@)
}

/// The `.deb` install of a release with tag `tag`.
pub fn install_github_deb(owner: &str, repo: &str, bin_name: &str, tag: &str) -> (r: DebInstall)
    requires
        tag@.len() > 0,
        (tag@[0] as u32) < 128,
    ensures
        deb_plan_is(r, owner@, repo@, bin_name@, tag@),
{
    let deb = github_deb_name(bin_name, tag);
    let url = release_url(owner, repo, tag, deb.as_str());
    let file = owned("/tmp/linux-init-").concat(bin_name).concat(".deb");
    let dl = download(bin_name, url.as_str(), file.as_str());
    let f = file.as_str();
    let a: &[&str] = &["dpkg", "-i", f];
    assert(a@ == seq!["dpkg", "-i", f]);
    assert(lits(a@) =~= seq!["dpkg"@, "-i"@, file@]);
    let fail = owned(bin_name).concat(" deb 安装失败");
    let install = command("sudo", a, fail.as_str());
    DebInstall { url, file, download: dl, install }
}

/// Installing a tool from an archive of a GitHub release: where it is
/// downloaded from and to, the directory it is unpacked into, and the
/// download and unpack commands; the binary found in the directory is then
/// installed with [`install_binary`].
#[derive(Debug)]
pub struct TarballInstall {
    pub url: String,
    pub archive: String,
    pub dir: String,
    pub download: ShellCommand,
    pub extract: ShellCommand,
}

/// Unpacking an archive: `unzip` for a `.zip`, `tar -xzf` otherwise.
pub open spec fn extract_spec(bin: Seq<char>, file_name: Seq<char>, archive: Seq<char>, dir: Seq<char>) -> CommandV {
    if ends_with(file_name, ".zip"@) {
        cmd("unzip"@, seq!["-o"@, archive, "-d"@, dir], bin + " 解压失败（需要 unzip 命令）"@)
    } else {
        cmd("tar"@, seq!["-xzf"@, archive, "-C"@, dir], bin + " 解压失败"@)
    }
}

/// The archive install of a release whose archive is `name`: the download
/// address, where the archive goes and is unpacked, the download, and the
/// unpacking.
pub open spec fn tarball_plan_is(t: TarballInstall, owner: Seq<char>, repo: Seq<char>, bin: Seq<char>, tag: Seq<char>, name: Seq<char>) -> bool {
    &&& t.url@ == release_url_spec(owner, repo, tag, name)
    &&& t.archive@ == "/tmp/linux-init-"@ + bin + ".archive"@
    &&& t.dir@ == "/tmp/linux-init-"@ + bin + "-extract"@
    &&& t.download@ == download_spec(bin, t.url@, t.archive@)
    &&& t.extract@ == extract_spec(bin, name, t.archive@, t.dir@)
}

/// The archive install of a release with tag `tag` for a CPU architecture
/// (`None` for one without builds); an error for an unknown repository or
/// architecture.
pub fn install_github_tarball(owner: &str, repo: &str, bin_name: &str, tag: &str, arch: Option<&str>) -> (r: Result<TarballInstall, String>)
    requires
        cuts_tag(owner@, repo@, opt_lit(arch)) ==> tag@.len() > 0 && (tag@[0] as u32) < 128,
    ensures
        match tarball_spec(owner@, repo@, tag@, match arch { Some(a) => Some(a@), None => None }) {
            Err(e) => r matches Err(f) && f@ == e,
            Ok(name) => r matches Ok(t) && tarball_plan_is(t, owner@, repo@, bin_name@, tag@, name),
        },
{
    let name = match github_tarball_name(owner, repo, tag, arch) {
        Ok(n) => n,
        Err(e) => {
            return Err(e);
        },
    };
    let url = release_url(owner, repo, tag, name.as_str());
    let archive = owned("/tmp/linux-init-").concat(bin_name).concat(".archive");
    let dir = owned("/tmp/linux-init-").concat(bin_name).concat("-extract");
    let dl = download(bin_name, url.as_str(), archive.as_str());
    let extract = if ends_with_str(&chars_of(name.as_str()), ".zip") {
        let (ar, d) = (archive.as_str(), dir.as_str());
        let a: &[&str] = &["-o", ar, "-d", d];
        assert(a@ == seq!["-o", ar, "-d", d]);
        assert(lits(a@) =~= seq!["-o"@, archive@, "-d"@, dir@]);
        let fail = owned(bin_name).concat(" 解压失败（需要 unzip 命令）");
        command("unzip", a, fail.as_str())
    } else {
        let (ar, d) = (archive.as_str(), dir.as_str());
        let a: &[&str] = &["-xzf", ar, "-C", d];
        assert(a@ == seq!["-xzf", ar, "-C", d]);
        assert(lits(a@) =~= seq!["-xzf"@, archive@, "-C"@, dir@]);
        let fail = owned(bin_name).concat(" 解压失败");
        command("tar", a, fail.as_str())
    };
    Ok(TarballInstall { url, archive, dir, download: dl, extract })
}

/// A GitHub release install, of either kind.
#[derive(Debug)]
pub enum ReleasePlan {
    Deb(DebInstall),
    Archive(TarballInstall),
}

/// Whether the version can be read off a tag by dropping its first
/// character: the tag is not empty and starts with an ASCII character.
pub open spec fn bare_version_ok(tag: Seq<char>) -> bool {
    tag.len() > 0 && (tag[0] as u32) < 128
}

/// Whether a release's file name carries the bare version.
pub open spec fn needs_bare_version(g: GithubRelease, arch: Option<Seq<char>>) -> bool {
    g.kind == ReleaseKind::Deb || cuts_tag(g.owner@, g.repo@, arch)
}

/// The error when the release information could not be had.
pub open spec fn release_info_error(g: GithubRelease) -> Seq<char> {
    "获取 "@ + g.owner@ + "/"@ + g.repo@ + " 最新版本信息失败"@
}

/// Installing a tool from its latest GitHub release, given what the release
/// API answered (`None` when it could not be asked) and the CPU
/// architecture: an error for no or an empty answer, for an answer without
/// a tag, and for a tag whose version cannot be read where the file name
/// needs it; else the plan of the release's kind for that tag.
pub fn release_plan(g: &GithubRelease, api_output: Option<&str>, arch: Option<&str>) -> (r: Result<ReleasePlan, String>)
    ensures
        ({
            let api = api_url_spec(g.owner@, g.repo@);
            match api_output {
                None => r matches Err(e) && e@ == release_info_error(*g),
                Some(o) => if o@.len() == 0 {
                    r matches Err(e) && e@ == release_info_error(*g)
                } else {
                    match parse_tag_spec(o@, api) {
                        Err(e) => r matches Err(f) && f@ == e,
                        Ok(tag) => if needs_bare_version(*g, opt_lit(arch)) && !bare_version_ok(tag) {
                            r matches Err(f) && f@ == "无法解析 "@ + api + " 的 tag_name"@
                        } else if g.kind == ReleaseKind::Deb {
                            r matches Ok(ReleasePlan::Deb(p)) && deb_plan_is(p, g.owner@, g.repo@, g.bin@, tag)
                        } else {
                            match tarball_spec(g.owner@, g.repo@, tag, opt_lit(arch)) {
                                Err(e) => r matches Err(f) && f@ == e,
                                Ok(name) => r matches Ok(ReleasePlan::Archive(t))
                                    && tarball_plan_is(t, g.owner@, g.repo@, g.bin@, tag, name),
                            }
                        },
                    }
                },
            }
        }),
{
    let api = api_url(g.owner, g.repo);
    let o = match api_output {
        Some(o) => o,
        None => {
            return Err(owned("获取 ").concat(g.owner).concat("/").concat(g.repo).concat(" 最新版本信息失败"));
        },
    };
    if chars_of(o).len() == 0 {
        return Err(owned("获取 ").concat(g.owner).concat("/").concat(g.repo).concat(" 最新版本信息失败"));
    }
    let tag = match fetch_latest_tag(o, api.as_str()) {
        Ok(t) => t,
        Err(e) => {
            return Err(e);
        },
    };
    let tv = chars_of(tag.as_str());
    let bare_ok = tv.len() > 0 && (tv[0] as u32) < 128;
    let is_deb = match g.kind {
        ReleaseKind::Deb => true,
        ReleaseKind::Archive => false,
    };
    let cuts = arch.is_some() && crate::text::str_eq(g.owner, "dalance") && crate::text::str_eq(g.repo, "procs");
    if (is_deb || cuts) && !bare_ok {
        return Err(owned("无法解析 ").concat(api.as_str()).concat(" 的 tag_name"));
    }
    if is_deb {
        Ok(ReleasePlan::Deb(install_github_deb(g.owner, g.repo, g.bin, tag.as_str())))
    } else {
        match install_github_tarball(g.owner, g.repo, g.bin, tag.as_str(), arch) {
            Ok(t) => Ok(ReleasePlan::Archive(t)),
            Err(e) => Err(e),
        }
    }
}

/// Copying the binary found in the unpacked archive to `/usr/local/bin`.
pub fn install_binary(bin_path: &str, bin_name: &str) -> (c: ShellCommand)
    ensures
        c@ == cmd(
            "sudo"@,
            seq!["install"@, "-m"@, "755"@, bin_path@, "/usr/local/bin/"@ + bin_name@],
            bin_name@ + " 安装到 /usr/local/bin 失败"@,
        ),
{
    let target = owned("/usr/local/bin/").concat(bin_name);
    let t = target.as_str();
    let a: &[&str] = &["install", "-m", "755", bin_path, t];
    assert(a@ == seq!["install", "-m", "755", bin_path, t]);
    assert(lits(a@) =~= seq!["install"@, "-m"@, "755"@, bin_path@, target@]);
    let fail = owned(bin_name).concat(" 安装到 /usr/local/bin 失败");
    command("sudo", a, fail.as_str())
}

/// The binary in an unpacked archive: the first file called `name`, the
/// files given as (path, file name) in the order the directory walk meets
/// them; an error when there is none.
pub open spec fn find_binary_spec(files: Seq<(Seq<char>, Seq<char>)>, name: Seq<char>) -> Result<Seq<char>, Seq<char>>
    decreases files.len(),
{
    if files.len() == 0 {
        Err("未在解压目录中找到二进制: "@ + name)
    } else if files[0].1 == name {
        Ok(files[0].0)
    } else {
        find_binary_spec(files.drop_first(), name)
    }
}

/// The files of a walk, by their characters.
pub open spec fn file_pairs(v: Seq<(String, String)>) -> Seq<(Seq<char>, Seq<char>)> {
    v.map_values(|p: (String, String)| (p.0@, p.1@))
}

/// The binary in an unpacked archive.
pub fn find_binary(files: &Vec<(String, String)>, name: &str) -> (r: Result<String, String>)
    ensures
        match r {
            Ok(p) => find_binary_spec(file_pairs(files@), name@) == Ok::<Seq<char>, Seq<char>>(p@),
            Err(e) => find_binary_spec(file_pairs(files@), name@) == Err::<Seq<char>, Seq<char>>(e@),
        },
{
    let ghost fs = file_pairs(files@);
    assert(fs.skip(0) =~= fs);
    let mut i: usize = 0;
    while i < files.len()
        invariant
            i <= files.len(),
            fs == file_pairs(files@),
            find_binary_spec(fs, name@) == find_binary_spec(fs.skip(i as int), name@),
        decreases files.len() - i,
    {
        assert(fs.skip(i as int)[0] == fs[i as int]);
        assert(fs.skip(i as int).drop_first() =~= fs.skip(i + 1));
        if crate::text::str_eq(files[i].1.as_str(), name) {
            return Ok(files[i].0.clone());
        }
        i = i + 1;
    }
    Err(owned("未在解压目录中找到二进制: ").concat(name))
}

/// The GitHub API address of a repository's latest release.
pub open spec fn api_url_spec(owner: Seq<char>, repo: Seq<char>) -> Seq<char> {
    "https://api.github.com/repos/"@ + owner + "/"@ + repo + "/releases/latest"@
}

/// The GitHub API address of a repository's latest release.
pub fn api_url(owner: &str, repo: &str) -> (r: String)
    ensures
        r@ == api_url_spec(owner@, repo@),
{
    owned("https://api.github.com/repos/").concat(owner).concat("/").concat(repo).concat("/releases/latest")
}

/// The lines of the API answer that give the tag.
pub open spec fn tag_test() -> LineTest {
    LineTest::Prefix("\"tag_name\":")
}

/// The tag read off a `"tag_name": ...` line: the key removed, then
/// whitespace, then double quotes, then commas at either end.
pub open spec fn tag_value(l: Seq<char>) -> Seq<char> {
    trim_char(trim_char(trim(trim_start_str(trim(l), "\"tag_name\":"@)), '"'), ',')
}

/// The latest tag in the API answer, from its first `"tag_name":` line; an
/// error naming the address when there is none.
pub open spec fn parse_tag_spec(json: Seq<char>, api_url: Seq<char>) -> Result<Seq<char>, Seq<char>> {
    let ls = lines(json);
    let i = first_match(ls, tag_test());
    if i < 0 {
        Err("无法解析 "@ + api_url + " 的 tag_name"@)
    } else {
        Ok(tag_value(ls[i]))
    }
}

/// The latest tag in the API answer.
pub fn fetch_latest_tag(json: &str, api_url: &str) -> (r: Result<String, String>)
    ensures
        match r {
            Ok(t) => parse_tag_spec(json@, api_url@) == Ok::<Seq<char>, Seq<char>>(t@),
            Err(e) => parse_tag_spec(json@, api_url@) == Err::<Seq<char>, Seq<char>>(e@),
        },
{
    let cs = chars_of(json);
    let ls = lines_vec(&cs);
    match first_match_vec(&ls, &LineTest::Prefix("\"tag_name\":")) {
        Some(i) => {
            let t = trim_vec(&ls[i]);
            let v = trim_start_str_vec(&t, "\"tag_name\":");
            let v = trim_vec(&v);
            let v = trim_char_vec(&v, '"');
            let v = trim_char_vec(&v, ',');
            Ok(string_of(&v))
        },
        None => Err(owned("无法解析 ").concat(api_url).concat(" 的 tag_name")),
    }
}

/// The probes that tell whether a tool is installed; it is when any of them
/// succeeds: its package, by the package manager; on Debian also a snap of
/// that name, and the binary that the GitHub fallback copies to
/// `/usr/local/bin`.
pub open spec fn tool_status_spec(f: DistroFamily, tool: Seq<char>) -> Seq<CommandV> {
    let pm = opt_seq(is_tool_installed_spec(f, tool));
    if f == DistroFamily::Debian {
        let snap = seq![cmd("snap"@, seq!["list"@, tool], ""@)];
        match github_release_spec(tool) {
            Some(g) => pm + snap + seq![cmd("test"@, seq!["-x"@, "/usr/local/bin/"@ + g.2], ""@)],
            None => pm + snap,
        }
    } else {
        pm
    }
}

/// The probes that tell whether a tool is installed (any one succeeding).
pub fn get_tool_status(distro: &Distro, tool: &str) -> (r: Vec<ShellCommand>)
    ensures
        cmds(r@) == tool_status_spec(family_of(distro@), tool@),
{
    let mut r: Vec<ShellCommand> = Vec::new();
    push_opt(&mut r, is_tool_installed(distro, tool));
    assert(cmds(r@) =~= opt_seq(is_tool_installed_spec(family_of(distro@), tool@)));
    if distro.family() == DistroFamily::Debian {
        let a: &[&str] = &["list", tool];
        assert(a@ == seq!["list", tool]);
        assert(lits(a@) =~= seq!["list"@, tool@]);
        push_cmd(&mut r, command("snap", a, ""));
        match install_via_github_release(tool) {
            Ok(g) => {
                let bin = owned("/usr/local/bin/").concat(g.bin);
                let bs = bin.as_str();
                let b: &[&str] = &["-x", bs];
                assert(b@ == seq!["-x", bs]);
                assert(lits(b@) =~= seq!["-x"@, bin@]);
                push_cmd(&mut r, command("test", b, ""));
            },
            Err(_) => {},
        }
    }
    assert(cmds(r@) =~= tool_status_spec(family_of(distro@), tool@));
    r
}

/// The shell named by a text: zsh or bash when the text mentions it,
/// nothing otherwise.
pub open spec fn known_shell(t: Seq<char>) -> Option<Seq<char>> {
    if contains(t, "zsh"@) {
        Some("zsh"@)
    } else if contains(t, "bash"@) {
        Some("bash"@)
    } else {
        None
    }
}

/// The shell whose configuration to edit, `zsh` or `bash`: the login shell
/// (`$SHELL`) when it is one of them, else the one chosen in this session
/// when it is one of them; nothing when neither can be told.
pub open spec fn resolve_shell_spec(shell_env: Seq<char>, selected: Option<Seq<char>>) -> Option<Seq<char>> {
    match known_shell(shell_env) {
        Some(s) => Some(s),
        None => match selected {
            Some(t) => known_shell(t),
            None => None,
        },
    }
}

fn known_shell_of(t: &str) -> (r: Option<String>)
    ensures
        match r {
            Some(s) => known_shell(t@) == Some(s@),
            None => known_shell(t@) is None,
        },
{
    let cs = chars_of(t);
    if contains_str(&cs, "zsh") {
        Some(owned("zsh"))
    } else if contains_str(&cs, "bash") {
        Some(owned("bash"))
    } else {
        None
    }
}

/// The shell whose configuration to edit: `zsh`, `bash` or nothing.
pub fn resolve_shell_for_config(shell_env: &str, selected: Option<&str>) -> (r: Option<String>)
    ensures
        match r {
            Some(s) => resolve_shell_spec(shell_env@, opt_lit(selected)) == Some(s@),
            None => resolve_shell_spec(shell_env@, opt_lit(selected)) is None,
        },
        match r {
            Some(s) => s@ == "zsh"@ || s@ == "bash"@,
            None => true,
        },
{
    match known_shell_of(shell_env) {
        Some(s) => Some(s),
        None => match selected {
            Some(t) => known_shell_of(t),
            None => None,
        },
    }
}

/// The configuration file and shell name for a resolved shell: `.zshrc`
/// for zsh, `.bashrc` otherwise.
pub fn config_target(shell: Option<&str>) -> (r: (&'static str, &'static str))
    ensures
        (match shell {
            Some(s) => s@ == "zsh"@,
            None => false,
        }) ==> r.0@ == ".zshrc"@ && r.1@ == "zsh"@,
        !(match shell {
            Some(s) => s@ == "zsh"@,
            None => false,
        }) ==> r.0@ == ".bashrc"@ && r.1@ == "bash"@,
{
    match shell {
        Some(s) => if crate::text::str_eq(s, "zsh") {
            (".zshrc", "zsh")
        } else {
            (".bashrc", "bash")
        },
        None => (".bashrc", "bash"),
    }
}

/// Whether a tool is among the installed ones.
pub open spec fn has_tool(tools: Seq<Seq<char>>, t: Seq<char>) -> bool {
    tools.contains(t)
}

/// The aliases for the installed tools, in a fixed order: `rm` to trash,
/// `ps` to procs, `du` to dust, `df` to duf, `la` to eza; on Debian, where
/// bat and fd are installed as `batcat` and `fdfind`, also `bat` and `fd`
/// to those.
pub open spec fn alias_lines_spec(f: DistroFamily, tools: Seq<Seq<char>>) -> Seq<Seq<char>> {
    let deb = f == DistroFamily::Debian;
    (if has_tool(tools, "trash-cli"@) { seq!["alias rm='trash '"@] } else { seq![] })
        + (if has_tool(tools, "procs"@) { seq!["alias ps='procs '"@] } else { seq![] })
        + (if has_tool(tools, "dust"@) { seq!["alias du='dust '"@] } else { seq![] })
        + (if has_tool(tools, "duf"@) { seq!["alias df='duf '"@] } else { seq![] })
        + (if has_tool(tools, "eza"@) { seq!["alias la='eza -lah'"@] } else { seq![] })
        + (if deb && has_tool(tools, "bat"@) { seq!["alias bat='batcat'"@] } else { seq![] })
        + (if deb && has_tool(tools, "fd"@) { seq!["alias fd='fdfind'"@] } else { seq![] })
}

fn has_tool_exec(tools: &[&str], t: &str) -> (r: bool)
    ensures
        r == has_tool(lits(tools@), t@),
{
    let mut i: usize = 0;
    while i < tools.len()
        invariant
            i <= tools.len(),
            forall|j: int| 0 <= j < i ==> lits(tools@)[j] != t@,
        decreases tools.len() - i,
    {
        if crate::text::str_eq(tools[i], t) {
            assert(lits(tools@)[i as int] == t@);
            return true;
        }
        i = i + 1;
    }
    false
}

fn push_alias(v: &mut Vec<&'static str>, a: &'static str)
    ensures
        lits(final(v)@) == lits(old(v)@) + seq![a@],
{
    let ghost before = v@;
    v.push(a);
    assert(lits(v@) =~= lits(before) + seq![a@]);
}

/// The aliases for the installed tools.
pub fn configure_aliases(distro: &Distro, installed_tools: &[&str]) -> (r: Vec<&'static str>)
    ensures
        lits(r@) == alias_lines_spec(family_of(distro@), lits(installed_tools@)),
{
    let deb = distro.family() == DistroFamily::Debian;
    let mut v: Vec<&'static str> = Vec::new();
    let ghost t = lits(installed_tools@);
    let ghost e = Seq::<Seq<char>>::empty();
    let ghost s0 = lits(v@);
    if has_tool_exec(installed_tools, "trash-cli") {
        push_alias(&mut v, "alias rm='trash '");
    }
    let ghost s1 = lits(v@);
    if has_tool_exec(installed_tools, "procs") {
        push_alias(&mut v, "alias ps='procs '");
    }
    let ghost s2 = lits(v@);
    if has_tool_exec(installed_tools, "dust") {
        push_alias(&mut v, "alias du='dust '");
    }
    let ghost s3 = lits(v@);
    if has_tool_exec(installed_tools, "duf") {
        push_alias(&mut v, "alias df='duf '");
    }
    let ghost s4 = lits(v@);
    if has_tool_exec(installed_tools, "eza") {
        push_alias(&mut v, "alias la='eza -lah'");
    }
    let ghost s5 = lits(v@);
    if deb && has_tool_exec(installed_tools, "bat") {
        push_alias(&mut v, "alias bat='batcat'");
    }
    let ghost s6 = lits(v@);
    if deb && has_tool_exec(installed_tools, "fd") {
        push_alias(&mut v, "alias fd='fdfind'");
    }
    assert(s0 =~= e);
    assert(lits(v@) =~= alias_lines_spec(family_of(distro@), t));
    v
}

/// The comment that marks the aliases added for a shell.
pub open spec fn alias_marker(shell: Seq<char>) -> Seq<char> {
    "# Linux Init - "@ + shell + " aliases"@
}

/// Lines, each with a line ending.
pub open spec fn with_newlines(ls: Seq<Seq<char>>) -> Seq<char>
    decreases ls.len(),
{
    if ls.len() == 0 {
        seq![]
    } else {
        with_newlines(ls.drop_last()) + ls.last() + "\n"@
    }
}

/// What to append to a shell configuration for the aliases: nothing when
/// its marker is there already, else an empty line, the marker and the
/// aliases.
pub open spec fn aliases_addition_spec(content: Seq<char>, aliases: Seq<Seq<char>>, shell: Seq<char>) -> Option<
    Seq<char>,
> {
    if contains(content, alias_marker(shell)) {
        None
    } else {
        Some("\n"@ + alias_marker(shell) + "\n"@ + with_newlines(aliases))
    }
}

/// What to append to a shell configuration for the aliases.
pub fn append_aliases_to_file(content: &str, aliases: &[&str], shell: &str) -> (r: Option<String>)
    ensures
        match r {
            Some(s) => aliases_addition_spec(content@, lits(aliases@), shell@) == Some(s@),
            None => aliases_addition_spec(content@, lits(aliases@), shell@) is None,
        },
{
    let marker = owned("# Linux Init - ").concat(shell).concat(" aliases");
    let cs = chars_of(content);
    if contains_str(&cs, marker.as_str()) {
        return None;
    }
    let mut out = chars_of("\n");
    push_str(&mut out, marker.as_str());
    push_str(&mut out, "\n");
    let ghost base = out@;
    let mut i: usize = 0;
    while i < aliases.len()
        invariant
            i <= aliases.len(),
            out@ == base + with_newlines(lits(aliases@).take(i as int)),
        decreases aliases.len() - i,
    {
        proof {
            assert(lits(aliases@).take(i + 1).drop_last() =~= lits(aliases@).take(i as int));
            assert(lits(aliases@).take(i + 1).last() == aliases@[i as int]@);
        }
        push_str(&mut out, aliases[i]);
        push_str(&mut out, "\n");
        i = i + 1;
        assert(out@ =~= base + with_newlines(lits(aliases@).take(i as int)));
    }
    assert(lits(aliases@).take(i as int) =~= lits(aliases@));
    Some(string_of(&out))
}

/// Law: the aliases are added at most once: after appending what
/// `append_aliases_to_file` gives, it gives nothing more.
pub proof fn law_aliases_once(content: Seq<char>, aliases: Seq<Seq<char>>, shell: Seq<char>)
    ensures
        match aliases_addition_spec(content, aliases, shell) {
            Some(add) => aliases_addition_spec(content + add, aliases, shell) is None,
            None => true,
        },
{
    reveal_strlit("\n");
    let m = alias_marker(shell);
    let add = "\n"@ + m + "\n"@ + with_newlines(aliases);
    assert(add.skip(1).take(m.len() as int) =~= m);
    lemma_contains_at(add, m, 1);
    lemma_contains_append(content, add, m);
}

/// The comment that marks the direnv hook added for a shell.
pub open spec fn direnv_marker(shell: Seq<char>) -> Seq<char> {
    "# Linux Init - direnv hook for "@ + shell
}

/// What to append to a shell configuration for the direnv hook: nothing
/// when its marker is there already.
pub open spec fn direnv_addition_spec(content: Seq<char>, shell: Seq<char>) -> Option<Seq<char>> {
    if contains(content, direnv_marker(shell)) {
        None
    } else {
        Some("\n"@ + direnv_marker(shell) + "\n"@ + "eval \"$(direnv hook "@ + shell + ")\"\n"@)
    }
}

/// What to append to a shell configuration for the direnv hook.
pub fn append_direnv_hook_to_file(content: &str, shell: &str) -> (r: Option<String>)
    ensures
        match r {
            Some(s) => direnv_addition_spec(content@, shell@) == Some(s@),
            None => direnv_addition_spec(content@, shell@) is None,
        },
{
    let marker = owned("# Linux Init - direnv hook for ").concat(shell);
    let cs = chars_of(content);
    if contains_str(&cs, marker.as_str()) {
        return None;
    }
    Some(owned("\n").concat(marker.as_str()).concat("\n").concat("eval \"$(direnv hook ").concat(shell).concat(")\"\n"))
}

/// Law: the direnv hook is added at most once.
pub proof fn law_direnv_hook_once(content: Seq<char>, shell: Seq<char>)
    ensures
        match direnv_addition_spec(content, shell) {
            Some(add) => direnv_addition_spec(content + add, shell) is None,
            None => true,
        },
{
    reveal_strlit("\n");
    let m = direnv_marker(shell);
    let add = "\n"@ + m + "\n"@ + "eval \"$(direnv hook "@ + shell + ")\"\n"@;
    assert(add.skip(1).take(m.len() as int) =~= m);
    lemma_contains_at(add, m, 1);
    lemma_contains_append(content, add, m);
}

/// The command whose success tells that direnv is installed.
pub open spec fn direnv_probe_spec(f: DistroFamily) -> Option<CommandV> {
    is_package_installed_spec(
        f,
        match package_name_spec(f, "direnv"@) {
            Some(p) => p,
            None => "direnv"@,
        },
    )
}

/// The command whose success tells that direnv is installed (the hook is
/// only added then).
pub fn configure_direnv_hook(distro: &Distro) -> (r: Option<ShellCommand>)
    ensures
        opt_cmd(r) == direnv_probe_spec(family_of(distro@)),
{
    let pkg = match package_name(distro.family(), "direnv") {
        Some(p) => p,
        None => "direnv",
    };
    is_package_installed(distro, pkg)
}

/// The packages of the selected tools (by index into the tool list), those
/// without a package on the distribution left out.
pub open spec fn selected_packages(f: DistroFamily, selected: Seq<bool>) -> Seq<Seq<char>>
    decreases selected.len(),
{
    if selected.len() == 0 {
        seq![]
    } else {
        let i = selected.len() - 1;
        selected_packages(f, selected.drop_last()) + if selected.last() {
            match package_name_spec(f, tools_spec()[i].0) {
                Some(p) => seq![p],
                None => seq![],
            }
        } else {
            seq![]
        }
    }
}

/// Removing the selected tools: nothing when none of them has a package.
pub open spec fn clear_tools_spec(d: DistroV, selected: Seq<bool>) -> Result<Option<CommandV>, Seq<char>> {
    let pkgs = selected_packages(family_of(d), selected);
    if pkgs.len() == 0 {
        Ok(None)
    } else {
        uninstall_packages_spec(d, pkgs)
    }
}

/// Removing the selected tools; `selected[i]` tells whether tool `i` of the
/// tool list is selected.
pub fn clear_tools(distro: &Distro, selected: &[bool]) -> (r: Result<Option<ShellCommand>, String>)
    requires
        forall|i: int| 0 <= i < selected@.len() && #[trigger] selected@[i] ==> i < tools_spec().len(),
    ensures
        res_cmd(r) == clear_tools_spec(distro@, selected@),
{
    let all = tools();
    let fam = distro.family();
    let mut pkgs: Vec<&'static str> = Vec::new();
    let mut i: usize = 0;
    while i < selected.len()
        invariant
            i <= selected.len(),
            forall|k: int| 0 <= k < selected@.len() && #[trigger] selected@[k] ==> k < tools_spec().len(),
            triples_of(all@) == tools_spec(),
            fam == family_of(distro@),
            lits(pkgs@) == selected_packages(fam, selected@.take(i as int)),
        decreases selected.len() - i,
    {
        proof {
            assert(selected@.take(i + 1).drop_last() =~= selected@.take(i as int));
            assert(selected@.take(i + 1).last() == selected@[i as int]);
            if selected@[i as int] {
                assert(all@[i as int].0@ == tools_spec()[i as int].0);
            }
        }
        let ghost before = pkgs@;
        if selected[i] {
            match package_name(fam, all[i].0) {
                Some(p) => {
                    pkgs.push(p);
                    assert(lits(pkgs@) =~= lits(before) + seq![p@]);
                },
                None => {
                    assert(lits(pkgs@) =~= lits(before) + Seq::<Seq<char>>::empty());
                },
            }
        } else {
            assert(lits(pkgs@) =~= lits(before) + Seq::<Seq<char>>::empty());
        }
        i = i + 1;
    }
    assert(selected@.take(i as int) =~= selected@);
    if pkgs.len() == 0 {
        return Ok(None);
    }
    uninstall_packages(distro, pkgs.as_slice())
}

/// The shell configuration file that aliases and the direnv hook go into,
/// with the shell's name: `~/.zshrc` when the shell resolves to zsh,
/// `~/.bashrc` otherwise.
pub open spec fn rc_target_spec(home: Seq<char>, shell_env: Seq<char>, selected: Option<Seq<char>>) -> (Seq<char>, Seq<char>) {
    if resolve_shell_spec(shell_env, selected) == Some("zsh"@) {
        (path_join(home, ".zshrc"@), "zsh"@)
    } else {
        (path_join(home, ".bashrc"@), "bash"@)
    }
}

/// The shell configuration file to edit, and the shell's name.
pub fn rc_target(home: &str, shell_env: &str, selected: Option<&str>) -> (r: (String, &'static str))
    ensures
        (r.0@, r.1@) == rc_target_spec(home@, shell_env@, opt_lit(selected)),
{
    let target = resolve_shell_for_config(shell_env, selected);
    let is_zsh = match &target {
        Some(t) => crate::text::str_eq(t.as_str(), "zsh"),
        None => false,
    };
    if is_zsh {
        (path_join_str(home, ".zshrc"), "zsh")
    } else {
        (path_join_str(home, ".bashrc"), "bash")
    }
}

/// The new contents of the shell configuration for the direnv hook: nothing
/// to write when direnv is not installed, when the file does not exist
/// (`rc` is `None`) or when it holds the hook already; else the file with
/// the hook appended.
pub open spec fn direnv_update_spec(direnv_installed: bool, rc: Option<Seq<char>>, shell: Seq<char>) -> Option<Seq<char>> {
    if !direnv_installed {
        None
    } else {
        match rc {
            None => None,
            Some(c) => match direnv_addition_spec(c, shell) {
                Some(a) => Some(c + a),
                None => None,
            },
        }
    }
}

/// The new contents of the shell configuration for the direnv hook.
pub fn direnv_update(direnv_installed: bool, rc: Option<&str>, shell: &str) -> (r: Option<String>)
    ensures
        match r {
            Some(n) => direnv_update_spec(direnv_installed, opt_lit(rc), shell@) == Some(n@),
            None => direnv_update_spec(direnv_installed, opt_lit(rc), shell@) is None,
        },
{
    if !direnv_installed {
        return None;
    }
    match rc {
        None => None,
        Some(c) => match append_direnv_hook_to_file(c, shell) {
            Some(a) => Some(owned(c).concat(a.as_str())),
            None => None,
        },
    }
}

/// The new contents of the shell configuration for the aliases: nothing to
/// write when there is no alias, when the file does not exist or when it
/// holds the aliases already; else the file with them appended.
pub open spec fn aliases_update_spec(aliases: Seq<Seq<char>>, rc: Option<Seq<char>>, shell: Seq<char>) -> Option<Seq<char>> {
    if aliases.len() == 0 {
        None
    } else {
        match rc {
            None => None,
            Some(c) => match aliases_addition_spec(c, aliases, shell) {
                Some(a) => Some(c + a),
                None => None,
            },
        }
    }
}

/// The new contents of the shell configuration for the aliases.
pub fn aliases_update(aliases: &[&str], rc: Option<&str>, shell: &str) -> (r: Option<String>)
    ensures
        match r {
            Some(n) => aliases_update_spec(lits(aliases@), opt_lit(rc), shell@) == Some(n@),
            None => aliases_update_spec(lits(aliases@), opt_lit(rc), shell@) is None,
        },
{
    if aliases.len() == 0 {
        return None;
    }
    match rc {
        None => None,
        Some(c) => match append_aliases_to_file(c, aliases, shell) {
            Some(a) => Some(owned(c).concat(a.as_str())),
            None => None,
        },
    }
}

/// Law: configuring the direnv hook twice changes the file once: whichever
/// file is chosen, after writing what `direnv_update` gives, it gives
/// nothing more; without direnv nothing is ever written.
pub proof fn law_direnv_update_once(direnv_installed: bool, rc: Seq<char>, shell: Seq<char>)
    ensures
        match direnv_update_spec(direnv_installed, Some(rc), shell) {
            Some(n) => direnv_update_spec(direnv_installed, Some(n), shell) is None,
            None => true,
        },
        !direnv_installed ==> direnv_update_spec(direnv_installed, Some(rc), shell) is None,
{
    law_direnv_hook_once(rc, shell);
}

/// Law: configuring the aliases twice changes the file once.
pub proof fn law_aliases_update_once(aliases: Seq<Seq<char>>, rc: Seq<char>, shell: Seq<char>)
    ensures
        match aliases_update_spec(aliases, Some(rc), shell) {
            Some(n) => aliases_update_spec(aliases, Some(n), shell) is None,
            None => true,
        },
{
    law_aliases_once(rc, aliases, shell);
}

} // verus!
