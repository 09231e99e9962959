//! Docker: the engine, Compose, the docker group and the service.
use vstd::prelude::*;
use vstd::string::*;
use crate::distro::{
    family_of, install_packages, install_packages_spec, uninstall_packages,
    uninstall_packages_spec, res_cmd, Distro, DistroFamily, DistroV,
};
use crate::text::{chars_of, contains, contains_str};
use crate::utils::{
    cmd, cmds, command, ensure_command, ensure_command_spec, from_opt, lits, opt_seq, owned,
    plan_view, push_cmd, single, then, then_plan, with_args, CommandV, ShellCommand,
};

verus! {

/// Where the official installation script is downloaded to.
pub const DOCKER_SCRIPT: &'static str = "/tmp/linux-init-get-docker.sh";

/// Enables and starts the Docker service: `sudo systemctl enable --now docker`.
pub open spec fn start_docker_service_spec() -> CommandV {
    cmd("sudo"@, seq!["systemctl"@, "enable"@, "--now"@, "docker"@], "systemctl 命令失败"@)
}

/// Enables and starts the Docker service: `sudo systemctl enable --now docker`.
pub fn start_docker_service() -> (c: ShellCommand)
    ensures
        c@ == start_docker_service_spec(),
{
    let args: &[&str] = &["systemctl", "enable", "--now", "docker"];
    assert(args@ == seq!["systemctl", "enable", "--now", "docker"]);
    assert(lits(seq!["systemctl", "enable", "--now", "docker"]) =~= seq!["systemctl"@, "enable"@, "--now"@, "docker"@]);
    let c = command("sudo", args, "systemctl 命令失败");
    c
}

/// Downloads the official installation script from get.docker.com.
pub open spec fn download_docker_script_spec() -> CommandV {
    cmd("curl"@, seq!["-fsSL"@, "https://get.docker.com"@, "-o"@, "/tmp/linux-init-get-docker.sh"@], "Docker 官方脚本下载失败，请检查网络连接"@)
}

/// Downloads the official installation script from get.docker.com.
pub fn download_docker_script() -> (c: ShellCommand)
    ensures
        c@ == download_docker_script_spec(),
{
    let args: &[&str] = &["-fsSL", "https://get.docker.com", "-o", "/tmp/linux-init-get-docker.sh"];
    assert(args@ == seq!["-fsSL", "https://get.docker.com", "-o", "/tmp/linux-init-get-docker.sh"]);
    assert(lits(seq!["-fsSL", "https://get.docker.com", "-o", "/tmp/linux-init-get-docker.sh"]) =~= seq!["-fsSL"@, "https://get.docker.com"@, "-o"@, "/tmp/linux-init-get-docker.sh"@]);
    let c = command("curl", args, "Docker 官方脚本下载失败，请检查网络连接");
    c
}

/// Runs the official installation script as root.
pub open spec fn run_docker_script_spec() -> CommandV {
    cmd("sudo"@, seq!["sh"@, "/tmp/linux-init-get-docker.sh"@], "Docker 官方脚本执行失败"@)
}

/// Runs the official installation script as root.
pub fn run_docker_script() -> (c: ShellCommand)
    ensures
        c@ == run_docker_script_spec(),
{
    let args: &[&str] = &["sh", "/tmp/linux-init-get-docker.sh"];
    assert(args@ == seq!["sh", "/tmp/linux-init-get-docker.sh"]);
    assert(lits(seq!["sh", "/tmp/linux-init-get-docker.sh"]) =~= seq!["sh"@, "/tmp/linux-init-get-docker.sh"@]);
    let c = command("sudo", args, "Docker 官方脚本执行失败");
    c
}

/// The command whose success tells that the Docker service runs.
pub open spec fn is_docker_running_spec() -> CommandV {
    cmd("systemctl"@, seq!["is-active"@, "--quiet"@, "docker"@], ""@)
}

/// The command whose success tells that the Docker service runs.
pub fn is_docker_running() -> (c: ShellCommand)
    ensures
        c@ == is_docker_running_spec(),
{
    let args: &[&str] = &["is-active", "--quiet", "docker"];
    assert(args@ == seq!["is-active", "--quiet", "docker"]);
    assert(lits(seq!["is-active", "--quiet", "docker"]) =~= seq!["is-active"@, "--quiet"@, "docker"@]);
    let c = command("systemctl", args, "");
    c
}

/// The command whose success tells that the `docker compose` plugin works.
pub open spec fn is_compose_plugin_available_spec() -> CommandV {
    cmd("docker"@, seq!["compose"@, "version"@], ""@)
}

/// The command whose success tells that the `docker compose` plugin works.
pub fn is_compose_plugin_available() -> (c: ShellCommand)
    ensures
        c@ == is_compose_plugin_available_spec(),
{
    let args: &[&str] = &["compose", "version"];
    assert(args@ == seq!["compose", "version"]);
    assert(lits(seq!["compose", "version"]) =~= seq!["compose"@, "version"@]);
    let c = command("docker", args, "");
    c
}

/// Installing Docker: by pacman on Arch; by the official script (after
/// making sure curl exists) on Debian; then the service is started. Other
/// distributions are refused.
pub open spec fn install_docker_spec(d: DistroV, curl_exists: bool) -> Result<Seq<CommandV>, Seq<char>> {
    match family_of(d) {
        DistroFamily::Arch => then(
            match install_packages_spec(d, seq!["docker"@]) {
                Ok(o) => Ok(opt_seq(o)),
                Err(e) => Err(e),
            },
            Ok(seq![start_docker_service_spec()]),
        ),
        DistroFamily::Debian => then(
            official_script_spec(d, curl_exists),
            Ok(seq![start_docker_service_spec()]),
        ),
        _ => Err("不支持的发行版"@),
    }
}

/// Installing Docker with its official script (Debian): making sure curl
/// is there, downloading the script, running it as root; the script is
/// removed afterwards.
pub open spec fn official_script_spec(d: DistroV, curl_exists: bool) -> Result<Seq<CommandV>, Seq<char>> {
    then(
        ensure_command_spec(d, "curl"@, curl_exists),
        Ok(seq![download_docker_script_spec(), run_docker_script_spec()]),
    )
}

/// Installing Docker with its official script.
pub fn install_docker_via_official_script(distro: &Distro, curl_exists: bool) -> (r: Result<
    Vec<ShellCommand>,
    String,
>)
    ensures
        plan_view(r) == official_script_spec(distro@, curl_exists),
{
    let first = ensure_command(distro, "curl", curl_exists);
    let mut rest: Vec<ShellCommand> = Vec::new();
    push_cmd(&mut rest, download_docker_script());
    push_cmd(&mut rest, run_docker_script());
    assert(cmds(rest@) =~= seq![download_docker_script_spec(), run_docker_script_spec()]);
    then_plan(first, Ok(rest))
}

/// Installing Docker; `curl_exists` tells whether curl is there.
pub fn install_docker(distro: &Distro, curl_exists: bool) -> (r: Result<Vec<ShellCommand>, String>)
    ensures
        plan_view(r) == install_docker_spec(distro@, curl_exists),
{
    match distro.family() {
        DistroFamily::Arch => {
    let p: &[&str] = &["docker"];
    assert(p@ == seq!["docker"]);
    assert(lits(seq!["docker"]) =~= seq!["docker"@]);
            let first = from_opt(install_packages(distro, p));
            let rest = single(start_docker_service());
            then_plan(first, Ok(rest))
        },
        DistroFamily::Debian => {
            let first = install_docker_via_official_script(distro, curl_exists);
            let rest = single(start_docker_service());
            then_plan(first, Ok(rest))
        },
        _ => Err(owned("不支持的发行版")),
    }
}

/// Installing Docker Compose: by pacman on Arch; on Debian nothing when the
/// `docker compose` plugin works already, else the `docker-compose-v2`
/// package. Other distributions are refused.
pub open spec fn install_compose_spec(d: DistroV, plugin_available: bool) -> Result<Seq<CommandV>, Seq<char>> {
    match family_of(d) {
        DistroFamily::Arch => match install_packages_spec(d, seq!["docker-compose"@]) {
            Ok(o) => Ok(opt_seq(o)),
            Err(e) => Err(e),
        },
        DistroFamily::Debian => if plugin_available {
            Ok(seq![])
        } else {
            match install_packages_spec(d, seq!["docker-compose-v2"@]) {
                Ok(o) => Ok(opt_seq(o)),
                Err(e) => Err(e),
            }
        },
        _ => Err("不支持的发行版"@),
    }
}

/// Installing Docker Compose; `plugin_available` tells whether
/// `docker compose version` succeeded.
pub fn install_compose(distro: &Distro, plugin_available: bool) -> (r: Result<Vec<ShellCommand>, String>)
    ensures
        plan_view(r) == install_compose_spec(distro@, plugin_available),
{
    match distro.family() {
        DistroFamily::Arch => {
    let p: &[&str] = &["docker-compose"];
    assert(p@ == seq!["docker-compose"]);
    assert(lits(seq!["docker-compose"]) =~= seq!["docker-compose"@]);
            from_opt(install_packages(distro, p))
        },
        DistroFamily::Debian => {
            if plugin_available {
                let v: Vec<ShellCommand> = Vec::new();
                assert(cmds(v@) =~= Seq::<CommandV>::empty());
                return Ok(v);
            }
    let p: &[&str] = &["docker-compose-v2"];
    assert(p@ == seq!["docker-compose-v2"]);
    assert(lits(seq!["docker-compose-v2"]) =~= seq!["docker-compose-v2"@]);
            from_opt(install_packages(distro, p))
        },
        _ => Err(owned("不支持的发行版")),
    }
}

/// `sudo usermod -aG docker <user>`, the user being `root` when unknown.
pub open spec fn add_user_spec(user: Option<Seq<char>>) -> CommandV {
    cmd(
        "sudo"@,
        seq!["usermod"@, "-aG"@, "docker"@, match user {
            Some(u) => u,
            None => "root"@,
        }],
        "usermod 命令失败"@,
    )
}

/// Adds the user (`$USER`; `root` when unset) to the docker group.
pub fn add_user_to_docker_group(user: Option<&str>) -> (c: ShellCommand)
    ensures
        c@ == add_user_spec(
            match user {
                Some(u) => Some(u@),
                None => None,
            },
        ),
{
    let u = match user {
        Some(u) => u,
        None => "root",
    };
    assert(u@ == match user {
        Some(x) => x@,
        None => "root"@,
    });
    let args: &[&str] = &["usermod", "-aG", "docker"];
    assert(args@ == seq!["usermod", "-aG", "docker"]);
    assert(lits(seq!["usermod", "-aG", "docker"]) =~= seq!["usermod"@, "-aG"@, "docker"@]);
    let c = command("sudo", args, "usermod 命令失败");
    let more: &[&str] = &[u];
    assert(more@ == seq![u]);
    assert(lits(seq![u]) =~= seq![u@]);
    let r = with_args(c, more);
    assert(r@.args =~= seq!["usermod"@, "-aG"@, "docker"@, u@]);
    let ghost uo = match user {
        Some(x) => Some(x@),
        None => None,
    };
    assert(add_user_spec(uo).args =~= seq!["usermod"@, "-aG"@, "docker"@, u@]);
    assert(add_user_spec(uo).program == r@.program);
    assert(add_user_spec(uo).on_failure == r@.on_failure);
    r
}

/// The command that lists the groups of a user: `groups <user>`.
pub fn docker_group_probe(user: &str) -> (c: ShellCommand)
    ensures
        c@ == cmd("groups"@, seq![user@], ""@),
{
    let c = command("groups", &[], "");
    let more: &[&str] = &[user];
    assert(more@ == seq![user]);
    assert(lits(seq![user]) =~= seq![user@]);
    assert(lits(Seq::<&str>::empty()) =~= Seq::<Seq<char>>::empty());
    with_args(c, more)
}

/// Whether the output of `groups` names the docker group; `None`: the
/// command could not be run.
pub fn is_user_in_docker_group(groups_output: Option<&str>) -> (r: bool)
    ensures
        r == match groups_output {
            Some(o) => contains(o@, "docker"@),
            None => false,
        },
{
    match groups_output {
        Some(o) => {
            let cs = chars_of(o);
            contains_str(&cs, "docker")
        },
        None => false,
    }
}

/// Removing Docker: stopping the service and taking the user out of the
/// docker group (both failures ignored), then removing the packages.
pub fn clear_docker(distro: &Distro, sudo_user: &str) -> (r: (Vec<ShellCommand>, Result<Option<ShellCommand>, String>))
    ensures
        cmds(r.0@) == seq![
            cmd("sudo"@, seq!["systemctl"@, "stop"@, "docker"@], ""@),
            cmd("sudo"@, seq!["gpasswd"@, "-d"@, sudo_user@, "docker"@], ""@),
        ],
        res_cmd(r.1) == uninstall_packages_spec(distro@, seq!["docker"@, "docker-compose"@]),
{
    let mut pre: Vec<ShellCommand> = Vec::new();
    let args: &[&str] = &["systemctl", "stop", "docker"];
    assert(args@ == seq!["systemctl", "stop", "docker"]);
    assert(lits(seq!["systemctl", "stop", "docker"]) =~= seq!["systemctl"@, "stop"@, "docker"@]);
    let stop = command("sudo", args, "");
    push_cmd(&mut pre, stop);
    let a2: &[&str] = &["gpasswd", "-d", sudo_user, "docker"];
    assert(a2@ == seq!["gpasswd", "-d", sudo_user, "docker"]);
    assert(lits(seq!["gpasswd", "-d", sudo_user, "docker"]) =~= seq!["gpasswd"@, "-d"@, sudo_user@, "docker"@]);
    let gp = command("sudo", a2, "");
    push_cmd(&mut pre, gp);
    let p: &[&str] = &["docker", "docker-compose"];
    assert(p@ == seq!["docker", "docker-compose"]);
    assert(lits(seq!["docker", "docker-compose"]) =~= seq!["docker"@, "docker-compose"@]);
    assert(cmds(pre@) =~= seq![
        cmd("sudo"@, seq!["systemctl"@, "stop"@, "docker"@], ""@),
        cmd("sudo"@, seq!["gpasswd"@, "-d"@, sudo_user@, "docker"@], ""@),
    ]);
    (pre, uninstall_packages(distro, p))
}

} // verus!
