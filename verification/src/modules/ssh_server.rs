//! The OpenSSH server: installing it, forbidding root logins, running it.
use vstd::prelude::*;
use vstd::string::*;
use crate::distro::{
    family_of, install_packages, install_packages_spec, is_package_installed,
    is_package_installed_spec, res_cmd, uninstall_packages, uninstall_packages_spec, Distro,
    DistroFamily,
};
use crate::text::{
    any_line, chars_of, lemma_set_line_present, lemma_trim_id, lines, lines_vec, first_match_vec,
    lemma_first_match_bounds, set_line, set_line_spec, starts_with, test_line, trim, LineTest,
};
use crate::utils::{cmd, command, lits, opt_cmd, owned, CommandV, ShellCommand};

verus! {

/// The path of the server's configuration.
pub const SSHD_CONFIG: &'static str = "/etc/ssh/sshd_config";

/// The server's package on a family of distributions.
pub open spec fn server_package(f: DistroFamily) -> Option<Seq<char>> {
    match f {
        DistroFamily::Arch => Some("openssh"@),
        DistroFamily::Debian => Some("openssh-server"@),
        _ => None,
    }
}

/// The command whose success tells that the server is installed; `None`
/// means not installed.
pub fn is_installed(distro: &Distro) -> (r: Option<ShellCommand>)
    ensures
        opt_cmd(r) == match server_package(family_of(distro@)) {
            Some(p) => is_package_installed_spec(family_of(distro@), p),
            None => None,
        },
{
    match distro.family() {
        DistroFamily::Arch => is_package_installed(distro, "openssh"),
        DistroFamily::Debian => is_package_installed(distro, "openssh-server"),
        _ => None,
    }
}

/// The command that installs the server; an error where the distribution
/// has no known server package.
pub fn install(distro: &Distro) -> (r: Result<Option<ShellCommand>, String>)
    ensures
        res_cmd(r) == match server_package(family_of(distro@)) {
            Some(p) => install_packages_spec(distro@, seq![p]),
            None => Err("不支持的发行版"@),
        },
{
    match distro.family() {
        DistroFamily::Arch => {
            let pkgs: &[&str] = &["openssh"];
            assert(pkgs@ == seq!["openssh"]);
            assert(lits(seq!["openssh"]) =~= seq!["openssh"@]);
            install_packages(distro, pkgs)
        },
        DistroFamily::Debian => {
            let pkgs: &[&str] = &["openssh-server"];
            assert(pkgs@ == seq!["openssh-server"]);
            assert(lits(seq!["openssh-server"]) =~= seq!["openssh-server"@]);
            install_packages(distro, pkgs)
        },
        _ => Err(owned("不支持的发行版")),
    }
}

/// The lines that forbid root logins.
pub open spec fn root_login_off_test() -> LineTest {
    LineTest::EitherEqual("PermitRootLogin no", "PermitRootLogin no")
}

/// The lines that set whether root may log in, commented out or not.
pub open spec fn root_login_test() -> LineTest {
    LineTest::EitherPrefix("PermitRootLogin", "#PermitRootLogin")
}

/// Whether the server configuration forbids root logins: some line reads
/// `PermitRootLogin no`, whitespace around it aside. `None`: the file could
/// not be read.
pub open spec fn root_login_disabled_spec(sshd_config: Option<Seq<char>>) -> bool {
    match sshd_config {
        Some(c) => any_line(lines(c), root_login_off_test()),
        None => false,
    }
}

/// Whether the server configuration forbids root logins.
pub fn is_root_login_disabled(sshd_config: Option<&str>) -> (r: bool)
    ensures
        r == root_login_disabled_spec(
            match sshd_config {
                Some(c) => Some(c@),
                None => None,
            },
        ),
{
    match sshd_config {
        Some(c) => {
            let cs = chars_of(c);
            let ls = lines_vec(&cs);
            let m = first_match_vec(&ls, &LineTest::EitherEqual("PermitRootLogin no", "PermitRootLogin no"));
            proof {
                lemma_first_match_bounds(lines(c@), root_login_off_test());
            }
            m.is_some()
        },
        None => false,
    }
}

/// The server configuration with root logins forbidden.
pub open spec fn disable_root_login_spec(sshd_config: Seq<char>) -> Seq<char> {
    set_line_spec(sshd_config, root_login_test(), "PermitRootLogin no"@, true)
}

/// The server configuration with root logins forbidden: every line that sets
/// `PermitRootLogin` (commented out or not) becomes `PermitRootLogin no`, or
/// that line is added.
pub fn disable_root_login(sshd_config: &str) -> (r: String)
    ensures
        r@ == disable_root_login_spec(sshd_config@),
{
    let setting = chars_of("PermitRootLogin no");
    set_line(sshd_config, &LineTest::EitherPrefix("PermitRootLogin", "#PermitRootLogin"), &setting, true)
}

/// Law: after `disable_root_login`, the configuration reads as forbidding
/// root logins, whatever it held before.
pub proof fn law_root_login_disabled(sshd_config: Seq<char>)
    ensures
        root_login_disabled_spec(Some(disable_root_login_spec(sshd_config))),
{
    reveal_strlit("PermitRootLogin no");
    reveal_strlit("PermitRootLogin");
    let s = "PermitRootLogin no"@;
    lemma_trim_id(s);
    assert(s.take("PermitRootLogin"@.len() as int) =~= "PermitRootLogin"@);
    assert(test_line(root_login_test(), s));
    lemma_set_line_present(sshd_config, root_login_test(), s, true);
    let all = lines(disable_root_login_spec(sshd_config));
    let k = choose|k: int| 0 <= k < all.len() && #[trigger] all[k] == s;
    assert(test_line(root_login_off_test(), all[k]));
}

/// `sudo systemctl enable --now sshd`.
pub open spec fn start_service_spec() -> CommandV {
    cmd("sudo"@, seq!["systemctl"@, "enable"@, "--now"@, "sshd"@], "systemctl 命令失败"@)
}

/// Enables and starts the server.
pub fn start_service() -> (c: ShellCommand)
    ensures
        c@ == start_service_spec(),
{
    let args: &[&str] = &["systemctl", "enable", "--now", "sshd"];
    assert(args@ == seq!["systemctl", "enable", "--now", "sshd"]);
    assert(lits(seq!["systemctl", "enable", "--now", "sshd"]) =~= seq![
        "systemctl"@,
        "enable"@,
        "--now"@,
        "sshd"@,
    ]);
    command("sudo", args, "systemctl 命令失败")
}

/// The command whose success tells that the server runs:
/// `systemctl is-active --quiet sshd`.
pub fn is_running() -> (c: ShellCommand)
    ensures
        c@ == cmd("systemctl"@, seq!["is-active"@, "--quiet"@, "sshd"@], ""@),
{
    let args: &[&str] = &["is-active", "--quiet", "sshd"];
    assert(args@ == seq!["is-active", "--quiet", "sshd"]);
    assert(lits(seq!["is-active", "--quiet", "sshd"]) =~= seq!["is-active"@, "--quiet"@, "sshd"@]);
    command("systemctl", args, "")
}

/// Removing the server: stopping it (its failure ignored), then removing
/// the package.
pub fn clear_ssh_server(distro: &Distro) -> (r: (ShellCommand, Result<Option<ShellCommand>, String>))
    ensures
        r.0@ == cmd("sudo"@, seq!["systemctl"@, "stop"@, "sshd"@], ""@),
        res_cmd(r.1) == uninstall_packages_spec(distro@, seq!["openssh-server"@]),
{
    let args: &[&str] = &["systemctl", "stop", "sshd"];
    assert(args@ == seq!["systemctl", "stop", "sshd"]);
    assert(lits(seq!["systemctl", "stop", "sshd"]) =~= seq!["systemctl"@, "stop"@, "sshd"@]);
    let stop = command("sudo", args, "");
    let pkgs: &[&str] = &["openssh-server"];
    assert(pkgs@ == seq!["openssh-server"]);
    assert(lits(seq!["openssh-server"]) =~= seq!["openssh-server"@]);
    (stop, uninstall_packages(distro, pkgs))
}

} // verus!
