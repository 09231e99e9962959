pub mod apt;
pub mod detect;
pub mod dnf;
pub mod pacman;

use vstd::prelude::*;
use vstd::string::*;
use crate::utils::{lits, opt_cmd, opt_lit, owned, CommandV, ShellCommand};

verus! {

/// A Linux distribution.
#[derive(Debug)]
pub enum Distro {
    Arch,
    CachyOS,
    Manjaro,
    Ubuntu(String),
    Debian(String),
    Fedora(String),
    Unknown(String),
}

/// A distribution, its texts as character sequences.
pub ghost enum DistroV {
    Arch,
    CachyOS,
    Manjaro,
    Ubuntu(Seq<char>),
    Debian(Seq<char>),
    Fedora(Seq<char>),
    Unknown(Seq<char>),
}

impl View for Distro {
    type V = DistroV;

    open spec fn view(&self) -> DistroV {
        match self {
            Distro::Arch => DistroV::Arch,
            Distro::CachyOS => DistroV::CachyOS,
            Distro::Manjaro => DistroV::Manjaro,
            Distro::Ubuntu(v) => DistroV::Ubuntu(v@),
            Distro::Debian(v) => DistroV::Debian(v@),
            Distro::Fedora(v) => DistroV::Fedora(v@),
            Distro::Unknown(s) => DistroV::Unknown(s@),
        }
    }
}

/// The package-manager family of a distribution.
#[derive(PartialEq, Eq, Structural, Clone, Copy, Debug)]
pub enum DistroFamily {
    Arch,
    Debian,
    Fedora,
    Unknown,
}

pub open spec fn family_of(d: DistroV) -> DistroFamily {
    match d {
        DistroV::Arch | DistroV::CachyOS | DistroV::Manjaro => DistroFamily::Arch,
        DistroV::Ubuntu(_) | DistroV::Debian(_) => DistroFamily::Debian,
        DistroV::Fedora(_) => DistroFamily::Fedora,
        DistroV::Unknown(_) => DistroFamily::Unknown,
    }
}

/// The name under which a distribution is shown.
pub open spec fn display_spec(d: DistroV) -> Seq<char> {
    match d {
        DistroV::Arch => "Arch Linux"@,
        DistroV::CachyOS => "CachyOS"@,
        DistroV::Manjaro => "Manjaro"@,
        DistroV::Ubuntu(v) => "Ubuntu "@ + v,
        DistroV::Debian(v) => "Debian "@ + v,
        DistroV::Fedora(v) => "Fedora "@ + v,
        DistroV::Unknown(s) => "Unknown ("@ + s + ")"@,
    }
}

impl Distro {
    /// The package-manager family.
    pub fn family(&self) -> (f: DistroFamily)
        ensures
            f == family_of(self@),
    {
        match self {
            Distro::Arch | Distro::CachyOS | Distro::Manjaro => DistroFamily::Arch,
            Distro::Ubuntu(_) | Distro::Debian(_) => DistroFamily::Debian,
            Distro::Fedora(_) => DistroFamily::Fedora,
            Distro::Unknown(_) => DistroFamily::Unknown,
        }
    }

    /// The name under which the distribution is shown.
    pub fn display_name(&self) -> (s: String)
        ensures
            s@ == display_spec(self@),
    {
        match self {
            Distro::Arch => owned("Arch Linux"),
            Distro::CachyOS => owned("CachyOS"),
            Distro::Manjaro => owned("Manjaro"),
            Distro::Ubuntu(v) => owned("Ubuntu ").concat(v.as_str()),
            Distro::Debian(v) => owned("Debian ").concat(v.as_str()),
            Distro::Fedora(v) => owned("Fedora ").concat(v.as_str()),
            Distro::Unknown(s) => owned("Unknown (").concat(s.as_str()).concat(")"),
        }
    }
}

/// The distribution that an os-release file describes; `None` when the file
/// could not be read.
pub fn detect(os_release: Option<&str>) -> (d: Distro)
    ensures
        d@ == detect::detect_spec(
            match os_release {
                Some(c) => Some(c@),
                None => None,
            },
        ),
{
    detect::detect_distro(os_release)
}


/// The contents of a command decision that may fail.
pub open spec fn res_cmd(r: Result<Option<ShellCommand>, String>) -> Result<Option<CommandV>, Seq<char>> {
    match r {
        Ok(c) => Ok(opt_cmd(c)),
        Err(e) => Err(e@),
    }
}

/// The error for a distribution without a supported package manager.
pub open spec fn unsupported_spec(d: DistroV) -> Seq<char> {
    "不支持的发行版: "@ + display_spec(d)
}

fn unsupported(d: &Distro) -> (s: String)
    ensures
        s@ == unsupported_spec(d@),
{
    owned("不支持的发行版: ").concat(d.display_name().as_str())
}

/// The command that installs packages on a distribution.
pub open spec fn install_packages_spec(d: DistroV, packages: Seq<Seq<char>>) -> Result<
    Option<CommandV>,
    Seq<char>,
> {
    match family_of(d) {
        DistroFamily::Arch => Ok(pacman::install_spec(packages)),
        DistroFamily::Debian => Ok(apt::install_spec(packages)),
        DistroFamily::Fedora => Ok(dnf::install_spec(packages)),
        DistroFamily::Unknown => Err(unsupported_spec(d)),
    }
}

/// The command that installs packages: by the distribution's package
/// manager, nothing for an empty list, an error for an unknown distribution.
pub fn install_packages(distro: &Distro, packages: &[&str]) -> (r: Result<
    Option<ShellCommand>,
    String,
>)
    ensures
        res_cmd(r) == install_packages_spec(distro@, lits(packages@)),
{
    match distro.family() {
        DistroFamily::Arch => Ok(pacman::install(packages)),
        DistroFamily::Debian => Ok(apt::install(packages)),
        DistroFamily::Fedora => Ok(dnf::install(packages)),
        DistroFamily::Unknown => Err(unsupported(distro)),
    }
}

/// The command that removes packages on a distribution.
pub open spec fn uninstall_packages_spec(d: DistroV, packages: Seq<Seq<char>>) -> Result<
    Option<CommandV>,
    Seq<char>,
> {
    match family_of(d) {
        DistroFamily::Arch => Ok(pacman::uninstall_spec(packages)),
        DistroFamily::Debian => Ok(apt::uninstall_spec(packages)),
        DistroFamily::Fedora => Ok(dnf::uninstall_spec(packages)),
        DistroFamily::Unknown => Err(unsupported_spec(d)),
    }
}

/// The command that removes packages: by the distribution's package manager,
/// nothing for an empty list, an error for an unknown distribution.
pub fn uninstall_packages(distro: &Distro, packages: &[&str]) -> (r: Result<
    Option<ShellCommand>,
    String,
>)
    ensures
        res_cmd(r) == uninstall_packages_spec(distro@, lits(packages@)),
{
    match distro.family() {
        DistroFamily::Arch => Ok(pacman::uninstall(packages)),
        DistroFamily::Debian => Ok(apt::uninstall(packages)),
        DistroFamily::Fedora => Ok(dnf::uninstall(packages)),
        DistroFamily::Unknown => Err(unsupported(distro)),
    }
}

/// Law: installing packages runs the family's package manager under `sudo`
/// with its installation sub-command, followed by exactly the given packages:
/// `apt install -y` on the Debian family, `pacman -S --noconfirm --needed` on
/// the Arch family, `dnf install -y` on the Fedora family; an unknown
/// distribution is refused with the error that names it.
pub proof fn law_install_installs(d: DistroV, packages: Seq<Seq<char>>)
    requires
        packages.len() > 0,
    ensures
        family_of(d) == DistroFamily::Unknown ==> install_packages_spec(d, packages)
            == Err::<Option<CommandV>, Seq<char>>("不支持的发行版: "@ + display_spec(d)),
        family_of(d) != DistroFamily::Unknown ==> {
            &&& install_packages_spec(d, packages) matches Ok(Some(c))
            &&& c.program == "sudo"@
            &&& family_of(d) == DistroFamily::Debian ==> c.args == seq![
                "apt"@,
                "install"@,
                "-y"@,
            ] + packages
            &&& family_of(d) == DistroFamily::Arch ==> c.args == seq![
                "pacman"@,
                "-S"@,
                "--noconfirm"@,
                "--needed"@,
            ] + packages
            &&& family_of(d) == DistroFamily::Fedora ==> c.args == seq![
                "dnf"@,
                "install"@,
                "-y"@,
            ] + packages
        },
{
}

/// Law: removing packages runs the family's package manager under `sudo` with
/// its removal sub-command, followed by exactly the given packages: `apt
/// remove -y` on the Debian family, `pacman -R --noconfirm` on the Arch family,
/// `dnf remove -y` on the Fedora family. Its arguments always differ from those
/// that install the same packages, and an empty list runs nothing either way.
pub proof fn law_uninstall_removes(d: DistroV, packages: Seq<Seq<char>>)
    requires
        family_of(d) != DistroFamily::Unknown,
    ensures
        packages.len() == 0 ==> uninstall_packages_spec(d, packages) == Ok::<Option<CommandV>, Seq<char>>(None)
            && install_packages_spec(d, packages) == Ok::<Option<CommandV>, Seq<char>>(None),
        packages.len() > 0 ==> {
            &&& uninstall_packages_spec(d, packages) matches Ok(Some(c))
            &&& install_packages_spec(d, packages) matches Ok(Some(i))
            &&& c.program == "sudo"@
            &&& family_of(d) == DistroFamily::Debian ==> c.args.take(3) == seq![
                "apt"@,
                "remove"@,
                "-y"@,
            ] && c.args.skip(3) == packages
            &&& family_of(d) == DistroFamily::Arch ==> c.args.take(3) == seq![
                "pacman"@,
                "-R"@,
                "--noconfirm"@,
            ] && c.args.skip(3) == packages
            &&& family_of(d) == DistroFamily::Fedora ==> c.args.take(3) == seq![
                "dnf"@,
                "remove"@,
                "-y"@,
            ] && c.args.skip(3) == packages
            &&& c.args != i.args
        },
{
    reveal_strlit("remove");
    reveal_strlit("install");
    reveal_strlit("-R");
    reveal_strlit("-S");
    if packages.len() > 0 {
        let c = uninstall_packages_spec(d, packages)->Ok_0->Some_0;
        let i = install_packages_spec(d, packages)->Ok_0->Some_0;
        match family_of(d) {
            DistroFamily::Debian => {
                assert(c.args[1] == "remove"@ && i.args[1] == "install"@);
                assert("remove"@.len() != "install"@.len());
                assert(c.args.take(3) =~= seq!["apt"@, "remove"@, "-y"@]);
                assert(c.args.skip(3) =~= packages);
            },
            DistroFamily::Arch => {
                assert(c.args[1] == "-R"@ && i.args[1] == "-S"@);
                assert("-R"@[1] != "-S"@[1]);
                assert(c.args.take(3) =~= seq!["pacman"@, "-R"@, "--noconfirm"@]);
                assert(c.args.skip(3) =~= packages);
            },
            DistroFamily::Fedora => {
                assert(c.args[1] == "remove"@ && i.args[1] == "install"@);
                assert("remove"@.len() != "install"@.len());
                assert(c.args.take(3) =~= seq!["dnf"@, "remove"@, "-y"@]);
                assert(c.args.skip(3) =~= packages);
            },
            DistroFamily::Unknown => {},
        }
    }
}

/// The command that refreshes the package cache.
pub open spec fn refresh_cache_spec(d: DistroV) -> Result<Option<CommandV>, Seq<char>> {
    match family_of(d) {
        DistroFamily::Arch => Ok(Some(pacman::update_spec())),
        DistroFamily::Debian => Ok(Some(apt::update_spec())),
        DistroFamily::Fedora => Ok(Some(dnf::update_spec())),
        DistroFamily::Unknown => Err(unsupported_spec(d)),
    }
}

/// The command that refreshes the package cache of the distribution's
/// package manager; an error for an unknown distribution.
pub fn refresh_cache(distro: &Distro) -> (r: Result<Option<ShellCommand>, String>)
    ensures
        res_cmd(r) == refresh_cache_spec(distro@),
{
    match distro.family() {
        DistroFamily::Arch => Ok(Some(pacman::update())),
        DistroFamily::Debian => Ok(Some(apt::update())),
        DistroFamily::Fedora => Ok(Some(dnf::update())),
        DistroFamily::Unknown => Err(unsupported(distro)),
    }
}

/// The command whose success tells that a package is installed; none (not
/// installed) on an unknown distribution.
pub open spec fn is_package_installed_spec(f: DistroFamily, package: Seq<char>) -> Option<CommandV> {
    match f {
        DistroFamily::Arch => Some(pacman::is_installed_spec(package)),
        DistroFamily::Debian => Some(apt::is_installed_spec(package)),
        DistroFamily::Fedora => Some(dnf::is_installed_spec(package)),
        DistroFamily::Unknown => None,
    }
}

/// The command whose success tells that a package is installed; `None` means
/// not installed.
pub fn is_package_installed(distro: &Distro, package: &str) -> (r: Option<ShellCommand>)
    ensures
        opt_cmd(r) == is_package_installed_spec(family_of(distro@), package@),
{
    match distro.family() {
        DistroFamily::Arch => Some(pacman::is_installed(package)),
        DistroFamily::Debian => Some(apt::is_installed(package)),
        DistroFamily::Fedora => Some(dnf::is_installed(package)),
        DistroFamily::Unknown => None,
    }
}

/// The package that provides a tool on a family of distributions.
pub open spec fn package_name_spec(f: DistroFamily, tool: Seq<char>) -> Option<Seq<char>> {
    match f {
        DistroFamily::Arch => pacman::pacman_package(tool),
        DistroFamily::Debian => apt::apt_package(tool),
        DistroFamily::Fedora => dnf::dnf_package(tool),
        DistroFamily::Unknown => None,
    }
}

/// The package that provides a tool on a family of distributions.
pub fn package_name(family: DistroFamily, tool: &str) -> (r: Option<&'static str>)
    ensures
        opt_lit(r) == package_name_spec(family, tool@),
{
    match family {
        DistroFamily::Arch => pacman::package_name(tool),
        DistroFamily::Debian => apt::package_name(tool),
        DistroFamily::Fedora => dnf::package_name(tool),
        DistroFamily::Unknown => None,
    }
}

/// The command whose success tells that the package providing a tool is
/// installed.
pub open spec fn is_tool_installed_spec(f: DistroFamily, tool: Seq<char>) -> Option<CommandV> {
    match package_name_spec(f, tool) {
        Some(p) => is_package_installed_spec(f, p),
        None => None,
    }
}

/// The command whose success tells that the package providing a tool is
/// installed; `None` means not installed.
pub fn is_tool_installed(distro: &Distro, tool: &str) -> (r: Option<ShellCommand>)
    ensures
        opt_cmd(r) == is_tool_installed_spec(family_of(distro@), tool@),
{
    match package_name(distro.family(), tool) {
        Some(p) => is_package_installed(distro, p),
        None => None,
    }
}

} // verus!
