//! Chinese locale, fonts and input method.
use vstd::prelude::*;
use vstd::string::*;
use crate::distro::{
    family_of, install_packages, install_packages_spec, is_package_installed,
    is_package_installed_spec, res_cmd, uninstall_packages, uninstall_packages_spec, Distro,
    DistroFamily, DistroV,
};
use crate::text::{
    chars_of, contains, contains_str, lemma_set_line_present, lemma_trim_id, lines, path_join,
    path_join_str, set_line, set_line_spec, test_line, trim, trim_vec, LineTest,
};
use crate::utils::{
    cmd, cmds, command, from_opt, lits, opt_cmd, opt_seq, owned, plan_view, then, then_plan,
    CommandV, ShellCommand,
};

verus! {

/// The locale list of glibc.
pub const LOCALE_GEN: &'static str = "/etc/locale.gen";

/// `~/.pam_environment`: the input method for X11 sessions.
pub const PAM_ENVIRONMENT: &'static str = "GTK_IM_MODULE_DEFAULT=fcitx5\nQT_IM_MODULE_DEFAULT=fcitx5\nXMODIFIERS_DEFAULT=@im=fcitx\nSDL_IM_MODULE_DEFAULT=fcitx\n";

/// `~/.config/environment.d/fcitx5.conf`: the input method for Wayland.
pub const WAYLAND_ENVIRONMENT: &'static str = "INPUT_METHOD=fcitx5\nGTK_IM_MODULE=fcitx5\nQT_IM_MODULE=fcitx5\nXMODIFIERS=@im=fcitx5\n";

/// `~/.xprofile`: starts fcitx5 with an X11 session (written only when
/// the file does not exist).
pub const XPROFILE: &'static str = "fcitx5 -d &\n";

/// The lines of `/etc/locale.gen` that name the Chinese UTF-8 locale,
/// commented out or not.
pub open spec fn zh_locale_test() -> LineTest {
    LineTest::EitherEqual("#zh_CN.UTF-8 UTF-8", "zh_CN.UTF-8 UTF-8")
}

/// `/etc/locale.gen` with the Chinese UTF-8 locale enabled.
pub open spec fn locale_gen_spec(content: Seq<char>) -> Seq<char> {
    set_line_spec(content, zh_locale_test(), "zh_CN.UTF-8 UTF-8"@, false)
}

/// `/etc/locale.gen` with the Chinese UTF-8 locale enabled: its line is
/// uncommented, or added at the end.
pub fn configure_locale_arch(locale_gen: &str) -> (r: String)
    ensures
        r@ == locale_gen_spec(locale_gen@),
{
    let setting = chars_of("zh_CN.UTF-8 UTF-8");
    set_line(locale_gen, &LineTest::EitherEqual("#zh_CN.UTF-8 UTF-8", "zh_CN.UTF-8 UTF-8"), &setting, false)
}

/// On Debian `/etc/locale.gen` is edited as on Arch.
pub fn configure_locale_debian(locale_gen: &str) -> (r: String)
    ensures
        r@ == locale_gen_spec(locale_gen@),
{
    configure_locale_arch(locale_gen)
}

/// Law: after the edit, `/etc/locale.gen` holds the line
/// `zh_CN.UTF-8 UTF-8`, whatever it held before.
pub proof fn law_locale_enabled(content: Seq<char>)
    ensures
        exists|k: int|
            0 <= k < lines(locale_gen_spec(content)).len() && #[trigger] lines(locale_gen_spec(content))[k]
                == "zh_CN.UTF-8 UTF-8"@,
{
    reveal_strlit("zh_CN.UTF-8 UTF-8");
    let s = "zh_CN.UTF-8 UTF-8"@;
    lemma_trim_id(s);
    assert(test_line(zh_locale_test(), s));
    lemma_set_line_present(content, zh_locale_test(), s, false);
    let all = lines(set_line_spec(content, zh_locale_test(), s, false));
    let k = choose|k: int| 0 <= k < all.len() && #[trigger] all[k] == s;
    assert(lines(locale_gen_spec(content))[k] == "zh_CN.UTF-8 UTF-8"@);
}

/// The new `/etc/locale.gen` on a supported distribution (Arch or Debian
/// family); other distributions are refused.
pub fn configure_locale(distro: &Distro, locale_gen: &str) -> (r: Result<String, String>)
    ensures
        match family_of(distro@) {
            DistroFamily::Arch | DistroFamily::Debian => r matches Ok(c) && c@ == locale_gen_spec(locale_gen@),
            _ => r matches Err(e) && e@ == "不支持的发行版"@,
        },
{
    match distro.family() {
        DistroFamily::Arch => Ok(configure_locale_arch(locale_gen)),
        DistroFamily::Debian => Ok(configure_locale_debian(locale_gen)),
        _ => Err(owned("不支持的发行版")),
    }
}

/// Generates the locales: `sudo locale-gen`.
pub open spec fn locale_gen_command_spec() -> CommandV {
    cmd("sudo"@, seq!["locale-gen"@], "locale-gen 失败"@)
}

/// Generates the locales: `sudo locale-gen`.
pub fn locale_gen_command() -> (c: ShellCommand)
    ensures
        c@ == locale_gen_command_spec(),
{
    let args: &[&str] = &["locale-gen"];
    assert(args@ == seq!["locale-gen"]);
    assert(lits(seq!["locale-gen"]) =~= seq!["locale-gen"@]);
    let c = command("sudo", args, "locale-gen 失败");
    c
}

/// Lists the available locales: `locale -a`.
pub open spec fn list_locales_spec() -> CommandV {
    cmd("locale"@, seq!["-a"@], ""@)
}

/// Lists the available locales: `locale -a`.
pub fn list_locales() -> (c: ShellCommand)
    ensures
        c@ == list_locales_spec(),
{
    let args: &[&str] = &["-a"];
    assert(args@ == seq!["-a"]);
    assert(lits(seq!["-a"]) =~= seq!["-a"@]);
    let c = command("locale", args, "");
    c
}

/// Lists the fonts that cover Chinese: `fc-list :lang=zh`.
pub open spec fn list_cjk_fonts_spec() -> CommandV {
    cmd("fc-list"@, seq![":lang=zh"@], ""@)
}

/// Lists the fonts that cover Chinese: `fc-list :lang=zh`.
pub fn list_cjk_fonts() -> (c: ShellCommand)
    ensures
        c@ == list_cjk_fonts_spec(),
{
    let args: &[&str] = &[":lang=zh"];
    assert(args@ == seq![":lang=zh"]);
    assert(lits(seq![":lang=zh"]) =~= seq![":lang=zh"@]);
    let c = command("fc-list", args, "");
    c
}

/// Whether the output of `locale -a` holds the Chinese UTF-8 locale.
pub fn is_locale_configured(locale_output: Option<&str>) -> (r: bool)
    ensures
        r == match locale_output {
            Some(o) => contains(o@, "zh_CN.utf8"@) || contains(o@, "zh_CN.UTF-8"@),
            None => false,
        },
{
    match locale_output {
        Some(o) => {
            let cs = chars_of(o);
            contains_str(&cs, "zh_CN.utf8") || contains_str(&cs, "zh_CN.UTF-8")
        },
        None => false,
    }
}

/// Whether the output of `fc-list :lang=zh` names any font.
pub fn is_cjk_fonts_installed(fc_list_output: Option<&str>) -> (r: bool)
    ensures
        r == match fc_list_output {
            Some(o) => trim(o@).len() > 0,
            None => false,
        },
{
    match fc_list_output {
        Some(o) => {
            let cs = chars_of(o);
            trim_vec(&cs).len() > 0
        },
        None => false,
    }
}

/// The command whose success tells that fcitx5 is installed.
pub fn is_fcitx_installed(distro: &Distro) -> (r: Option<ShellCommand>)
    ensures
        opt_cmd(r) == is_package_installed_spec(family_of(distro@), "fcitx5"@),
{
    is_package_installed(distro, "fcitx5")
}

/// The font packages of a distribution family: Noto CJK, WenQuanYi Micro
/// Hei (which WPS Office needs) and WenQuanYi Zen Hei, under the names the
/// family gives them.
pub open spec fn cjk_font_packages(f: DistroFamily) -> Seq<Seq<char>> {
    match f {
        DistroFamily::Debian => seq!["fonts-noto-cjk"@, "fonts-wqy-microhei"@, "fonts-wqy-zenhei"@],
        DistroFamily::Fedora => seq!["google-noto-sans-cjk-fonts"@, "wqy-microhei-fonts"@, "wqy-zenhei-fonts"@],
        _ => seq!["noto-fonts-cjk"@, "wqy-microhei"@, "wqy-zenhei"@],
    }
}

/// The font packages of a distribution's family.
pub fn cjk_font_package_names(distro: &Distro) -> (r: Vec<&'static str>)
    ensures
        r@.len() == 3,
        lits(r@) == cjk_font_packages(family_of(distro@)),
{
    let mut v: Vec<&'static str> = Vec::new();
    match distro.family() {
        DistroFamily::Debian => {
            v.push("fonts-noto-cjk");
            v.push("fonts-wqy-microhei");
            v.push("fonts-wqy-zenhei");
        },
        DistroFamily::Fedora => {
            v.push("google-noto-sans-cjk-fonts");
            v.push("wqy-microhei-fonts");
            v.push("wqy-zenhei-fonts");
        },
        _ => {
            v.push("noto-fonts-cjk");
            v.push("wqy-microhei");
            v.push("wqy-zenhei");
        },
    }
    assert(lits(v@) =~= cjk_font_packages(family_of(distro@)));
    v
}

/// Installing one font package unless it is there already.
pub open spec fn font_step(d: DistroV, present: bool, pkg: Seq<char>) -> Result<Seq<CommandV>, Seq<char>> {
    if present {
        Ok(seq![])
    } else {
        match install_packages_spec(d, seq![pkg]) {
            Ok(o) => Ok(opt_seq(o)),
            Err(e) => Err(e),
        }
    }
}

/// Installing the Chinese fonts: nothing when some Chinese font is there;
/// else each font package that is not installed, one at a time.
pub open spec fn install_cjk_fonts_spec(d: DistroV, fonts_present: bool, installed: Seq<bool>) -> Result<
    Seq<CommandV>,
    Seq<char>,
> {
    let pkgs = cjk_font_packages(family_of(d));
    if fonts_present {
        Ok(seq![])
    } else {
        then(
            font_step(d, installed[0], pkgs[0]),
            then(font_step(d, installed[1], pkgs[1]), font_step(d, installed[2], pkgs[2])),
        )
    }
}

fn font_plan(distro: &Distro, present: bool, pkg: &str) -> (r: Result<Vec<ShellCommand>, String>)
    ensures
        plan_view(r) == font_step(distro@, present, pkg@),
{
    if present {
        let v: Vec<ShellCommand> = Vec::new();
        assert(cmds(v@) =~= Seq::<CommandV>::empty());
        return Ok(v);
    }
    let p: &[&str] = &[pkg];
    assert(p@ == seq![pkg]);
    assert(lits(seq![pkg]) =~= seq![pkg@]);
    from_opt(install_packages(distro, p))
}

/// Installing the Chinese fonts; `fonts_present` tells whether `fc-list`
/// found a Chinese font, `installed` whether each package of
/// `cjk_font_package_names` is installed.
pub fn install_cjk_fonts(distro: &Distro, fonts_present: bool, installed: &[bool]) -> (r: Result<
    Vec<ShellCommand>,
    String,
>)
    requires
        installed@.len() == 3,
    ensures
        plan_view(r) == install_cjk_fonts_spec(distro@, fonts_present, installed@),
{
    if fonts_present {
        let v: Vec<ShellCommand> = Vec::new();
        assert(cmds(v@) =~= Seq::<CommandV>::empty());
        return Ok(v);
    }
    let names = cjk_font_package_names(distro);
    assert(names@[0]@ == lits(names@)[0] && names@[1]@ == lits(names@)[1] && names@[2]@ == lits(names@)[2]);
    let a = font_plan(distro, installed[0], names[0]);
    let b = font_plan(distro, installed[1], names[1]);
    let c = font_plan(distro, installed[2], names[2]);
    then_plan(a, then_plan(b, c))
}

/// Installing fcitx5 with the Chinese add-ons and its configuration tool.
pub fn install_fcitx5(distro: &Distro) -> (r: Result<Option<ShellCommand>, String>)
    ensures
        res_cmd(r) == install_packages_spec(
            distro@,
            seq!["fcitx5"@, "fcitx5-chinese-addons"@, "fcitx5-configtool"@],
        ),
{
    let p: &[&str] = &["fcitx5", "fcitx5-chinese-addons", "fcitx5-configtool"];
    assert(p@ == seq!["fcitx5", "fcitx5-chinese-addons", "fcitx5-configtool"]);
    assert(lits(seq!["fcitx5", "fcitx5-chinese-addons", "fcitx5-configtool"]) =~= seq!["fcitx5"@, "fcitx5-chinese-addons"@, "fcitx5-configtool"@]);
    install_packages(distro, p)
}

/// Removing the fonts and the input method; `locale_files` names the files
/// that go with them.
pub fn clear_locale(distro: &Distro) -> (r: Result<Option<ShellCommand>, String>)
    ensures
        res_cmd(r) == uninstall_packages_spec(
            distro@,
            cjk_font_packages(family_of(distro@)) + seq!["fcitx5"@, "fcitx5-chinese-addons"@, "fcitx5-configtool"@],
        ),
{
    let names = cjk_font_package_names(distro);
    let p: &[&str] = &[names[0], names[1], names[2], "fcitx5", "fcitx5-chinese-addons", "fcitx5-configtool"];
    assert(p@ == seq![names@[0], names@[1], names@[2], "fcitx5", "fcitx5-chinese-addons", "fcitx5-configtool"]);
    assert(lits(p@) =~= cjk_font_packages(family_of(distro@)) + seq!["fcitx5"@, "fcitx5-chinese-addons"@, "fcitx5-configtool"@]);
    uninstall_packages(distro, p)
}

/// The input method's environment files under the home directory, deleted
/// when the Chinese environment is removed.
pub fn locale_files(home: &str) -> (r: Vec<String>)
    ensures
        r@.len() == 3,
        r@[0]@ == path_join(home@, ".pam_environment"@),
        r@[1]@ == path_join(home@, ".xprofile"@),
        r@[2]@ == path_join(home@, ".config/environment.d/fcitx5.conf"@),
{
    let mut r: Vec<String> = Vec::new();
    r.push(path_join_str(home, ".pam_environment"));
    r.push(path_join_str(home, ".xprofile"));
    r.push(path_join_str(home, ".config/environment.d/fcitx5.conf"));
    r
}

} // verus!
