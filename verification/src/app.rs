//! The state of the interactive wizard, and what it reads back from
//! `~/.zshrc`.
use vstd::prelude::*;
use vstd::string::*;
use crate::modules::shell::{
    plugins_setting, plugins_test, set_plugins_spec, set_theme_spec, theme_setting,
    theme_test,
};
use crate::text::{
    lemma_set_line_reread, set_line_spec,
    lemma_join_chars, lemma_trim_char_close, lemma_trim_char_open, replace_lines, any_line, chars_of, first_match, first_match_vec, is_ws, join, lacks, lemma_first_match_bounds,
    lemma_first_match_reread, lemma_join_first, lemma_join_last, lemma_lines_lack_nl,
    lemma_replace_reread, lemma_split_join, lemma_trim_char_id, lemma_trim_char_wrapped,
    lemma_trim_id, lemma_lines_cons, lemma_lines_single, lines, lines_vec, reread, seqs,
    split_whitespace_vec, split_ws, starts_with, string_of, strip_cr, test_line, trim, trim_char,
    trim_char_vec, trim_start_str, trim_start_str_vec, trim_vec, LineTest,
};
use crate::config::{CompletedModules, Config};
use crate::distro::{Distro, DistroV};
use crate::modules::sources::{mirrors_view, system_mirrors, system_mirrors_spec};
use crate::utils::{owned, strs};

verus! {

/// The contents of a list of string-slice pairs.
pub open spec fn pairs_of(v: Seq<(&str, &str)>) -> Seq<(Seq<char>, Seq<char>)> {
    v.map_values(|p: (&str, &str)| (p.0@, p.1@))
}

/// The contents of a list of string-slice triples.
pub open spec fn triples_of(v: Seq<(&str, &str, &str)>) -> Seq<(Seq<char>, Seq<char>, Seq<char>)> {
    v.map_values(|p: (&str, &str, &str)| (p.0@, p.1@, p.2@))
}

/// The main menu: entry and description.
pub open spec fn main_menu_items_spec() -> Seq<(Seq<char>, Seq<char>)> {
    seq![("🐚 Shell 配置"@, "配置 bash/zsh, oh-my-zsh"@), ("🐳 Docker 安装"@, "安装 Docker 和 Docker Compose"@), ("🔑 SSH Key 生成"@, "生成 SSH 密钥对"@), ("🔧 基础工具"@, "安装常用开发工具"@), ("🇨🇳 中文配置"@, "配置中文 locale、字体和输入法"@), ("🔁 系统源管理"@, "切换系统镜像源（自动测速）"@)]
}

/// The main menu: entry and description.
pub fn main_menu_items() -> (r: Vec<(&'static str, &'static str)>)
    ensures
        pairs_of(r@) == main_menu_items_spec(),
{
    let mut v: Vec<(&'static str, &'static str)> = Vec::new();
    v.push(("🐚 Shell 配置", "配置 bash/zsh, oh-my-zsh"));
    v.push(("🐳 Docker 安装", "安装 Docker 和 Docker Compose"));
    v.push(("🔑 SSH Key 生成", "生成 SSH 密钥对"));
    v.push(("🔧 基础工具", "安装常用开发工具"));
    v.push(("🇨🇳 中文配置", "配置中文 locale、字体和输入法"));
    v.push(("🔁 系统源管理", "切换系统镜像源（自动测速）"));
    assert(pairs_of(v@) =~= main_menu_items_spec());
    v
}

/// The Oh My Zsh entries of the shell menu.
pub open spec fn shell_menu_items_spec() -> Seq<(Seq<char>, Seq<char>)> {
    seq![("安装 Oh My Zsh"@, "安装 oh-my-zsh 框架"@), ("选择主题"@, "选择 oh-my-zsh 主题"@), ("选择插件"@, "选择 oh-my-zsh 插件"@), ("设为默认 Shell"@, "将 zsh 设为默认登录 shell"@)]
}

/// The Oh My Zsh entries of the shell menu.
pub fn shell_menu_items() -> (r: Vec<(&'static str, &'static str)>)
    ensures
        pairs_of(r@) == shell_menu_items_spec(),
{
    let mut v: Vec<(&'static str, &'static str)> = Vec::new();
    v.push(("安装 Oh My Zsh", "安装 oh-my-zsh 框架"));
    v.push(("选择主题", "选择 oh-my-zsh 主题"));
    v.push(("选择插件", "选择 oh-my-zsh 插件"));
    v.push(("设为默认 Shell", "将 zsh 设为默认登录 shell"));
    assert(pairs_of(v@) =~= shell_menu_items_spec());
    v
}

/// The Oh My Zsh themes offered: name and description.
pub open spec fn themes_spec() -> Seq<(Seq<char>, Seq<char>)> {
    seq![("robbyrussell"@, "默认主题，简洁带 git 状态"@), ("af-magic"@, "双行提示，显示路径和 git 分支"@), ("agnoster"@, "紧凑的 powerline 风格"@), ("bira"@, "双行彩色提示，信息丰富"@), ("clean"@, "极简风格，仅显示路径和符号"@), ("dst"@, "经典单行提示"@), ("gallifrey"@, "Doctor Who 风格主题"@), ("maran"@, "简洁的单行 git 提示"@), ("minimal"@, "极简主义者的选择"@), ("powerlevel10k"@, "高性能、高度可定制主题 (需额外安装)"@), ("refined"@, "精炼的单行提示"@), ("suvash"@, "简洁带 git 状态和路径"@), ("ys"@, "信息丰富的双行提示"@)]
}

/// The Oh My Zsh themes offered: name and description.
pub fn themes() -> (r: Vec<(&'static str, &'static str)>)
    ensures
        pairs_of(r@) == themes_spec(),
{
    let mut v: Vec<(&'static str, &'static str)> = Vec::new();
    v.push(("robbyrussell", "默认主题，简洁带 git 状态"));
    v.push(("af-magic", "双行提示，显示路径和 git 分支"));
    v.push(("agnoster", "紧凑的 powerline 风格"));
    v.push(("bira", "双行彩色提示，信息丰富"));
    v.push(("clean", "极简风格，仅显示路径和符号"));
    v.push(("dst", "经典单行提示"));
    v.push(("gallifrey", "Doctor Who 风格主题"));
    v.push(("maran", "简洁的单行 git 提示"));
    v.push(("minimal", "极简主义者的选择"));
    v.push(("powerlevel10k", "高性能、高度可定制主题 (需额外安装)"));
    v.push(("refined", "精炼的单行提示"));
    v.push(("suvash", "简洁带 git 状态和路径"));
    v.push(("ys", "信息丰富的双行提示"));
    assert(pairs_of(v@) =~= themes_spec());
    v
}

/// The Oh My Zsh plugins offered: name, kind (built in or third party) and description.
pub open spec fn plugins_spec() -> Seq<(Seq<char>, Seq<char>, Seq<char>)> {
    seq![("git"@, "内置"@, "Git 别名和补全"@), ("zsh-autosuggestions"@, "第三方"@, "根据历史记录自动建议补全"@), ("zsh-syntax-highlighting"@, "第三方"@, "命令语法高亮"@), ("docker"@, "内置"@, "Docker 命令补全"@), ("docker-compose"@, "内置"@, "Docker Compose 命令补全"@), ("kubectl"@, "内置"@, "Kubernetes 命令补全"@), ("sudo"@, "内置"@, "双击 ESC 自动添加 sudo"@), ("extract"@, "内置"@, "统一解压命令 extract"@), ("colorize"@, "内置"@, "彩色输出增强"@), ("copypath"@, "内置"@, "复制当前路径到剪贴板"@), ("z"@, "内置"@, "快速跳转常用目录"@), ("fzf"@, "第三方"@, "模糊搜索增强 (需安装 fzf)"@), ("zsh-completions"@, "第三方"@, "额外的补全定义"@), ("you-should-use"@, "第三方"@, "提示你有可用的别名"@)]
}

/// The Oh My Zsh plugins offered: name, kind (built in or third party) and description.
pub fn plugins() -> (r: Vec<(&'static str, &'static str, &'static str)>)
    ensures
        triples_of(r@) == plugins_spec(),
{
    let mut v: Vec<(&'static str, &'static str, &'static str)> = Vec::new();
    v.push(("git", "内置", "Git 别名和补全"));
    v.push(("zsh-autosuggestions", "第三方", "根据历史记录自动建议补全"));
    v.push(("zsh-syntax-highlighting", "第三方", "命令语法高亮"));
    v.push(("docker", "内置", "Docker 命令补全"));
    v.push(("docker-compose", "内置", "Docker Compose 命令补全"));
    v.push(("kubectl", "内置", "Kubernetes 命令补全"));
    v.push(("sudo", "内置", "双击 ESC 自动添加 sudo"));
    v.push(("extract", "内置", "统一解压命令 extract"));
    v.push(("colorize", "内置", "彩色输出增强"));
    v.push(("copypath", "内置", "复制当前路径到剪贴板"));
    v.push(("z", "内置", "快速跳转常用目录"));
    v.push(("fzf", "第三方", "模糊搜索增强 (需安装 fzf)"));
    v.push(("zsh-completions", "第三方", "额外的补全定义"));
    v.push(("you-should-use", "第三方", "提示你有可用的别名"));
    assert(triples_of(v@) =~= plugins_spec());
    v
}

/// The tools offered: name, category and description.
pub open spec fn tools_spec() -> Seq<(Seq<char>, Seq<char>, Seq<char>)> {
    seq![("git"@, "开发工具"@, "版本控制系统"@), ("curl"@, "开发工具"@, "HTTP 客户端工具"@), ("wget"@, "开发工具"@, "文件下载工具"@), ("htop"@, "系统工具"@, "交互式进程管理器"@), ("neovim"@, "开发工具"@, "现代化 Vim 编辑器"@), ("tmux"@, "系统工具"@, "终端复用器"@), ("jq"@, "开发工具"@, "JSON 处理器"@), ("ripgrep"@, "CLI 增强"@, "超快速搜索工具 (rg)"@), ("fd"@, "CLI 增强"@, "更友好的 find 替代"@), ("bat"@, "CLI 增强"@, "带语法高亮的 cat 替代"@), ("eza"@, "CLI 增强"@, "现代化的 ls 替代"@)]
}

/// The tools offered: name, category and description.
pub fn tools() -> (r: Vec<(&'static str, &'static str, &'static str)>)
    ensures
        triples_of(r@) == tools_spec(),
{
    let mut v: Vec<(&'static str, &'static str, &'static str)> = Vec::new();
    v.push(("git", "开发工具", "版本控制系统"));
    v.push(("curl", "开发工具", "HTTP 客户端工具"));
    v.push(("wget", "开发工具", "文件下载工具"));
    v.push(("htop", "系统工具", "交互式进程管理器"));
    v.push(("neovim", "开发工具", "现代化 Vim 编辑器"));
    v.push(("tmux", "系统工具", "终端复用器"));
    v.push(("jq", "开发工具", "JSON 处理器"));
    v.push(("ripgrep", "CLI 增强", "超快速搜索工具 (rg)"));
    v.push(("fd", "CLI 增强", "更友好的 find 替代"));
    v.push(("bat", "CLI 增强", "带语法高亮的 cat 替代"));
    v.push(("eza", "CLI 增强", "现代化的 ls 替代"));
    assert(triples_of(v@) =~= tools_spec());
    v
}

/// The Docker menu: entry and description.
pub open spec fn docker_menu_items_spec() -> Seq<(Seq<char>, Seq<char>)> {
    seq![("安装 Docker"@, "安装 Docker 引擎"@), ("安装 Docker Compose"@, "安装 Docker Compose 插件"@), ("配置非 root 用户"@, "将当前用户加入 docker 组"@), ("启动 Docker 服务"@, "启用并启动 docker.service"@), ("🗑️ 清除 Docker 配置"@, "停止服务并卸载 Docker"@)]
}

/// The Docker menu: entry and description.
pub fn docker_menu_items() -> (r: Vec<(&'static str, &'static str)>)
    ensures
        pairs_of(r@) == docker_menu_items_spec(),
{
    let mut v: Vec<(&'static str, &'static str)> = Vec::new();
    v.push(("安装 Docker", "安装 Docker 引擎"));
    v.push(("安装 Docker Compose", "安装 Docker Compose 插件"));
    v.push(("配置非 root 用户", "将当前用户加入 docker 组"));
    v.push(("启动 Docker 服务", "启用并启动 docker.service"));
    v.push(("🗑️ 清除 Docker 配置", "停止服务并卸载 Docker"));
    assert(pairs_of(v@) =~= docker_menu_items_spec());
    v
}

/// The SSH key menu: entry and description.
pub open spec fn ssh_menu_items_spec() -> Seq<(Seq<char>, Seq<char>)> {
    seq![("生成 Ed25519 密钥"@, "推荐 - 更安全、更快"@), ("生成 RSA 4096 密钥"@, "兼容性最好"@), ("查看已有公钥"@, "显示当前公钥内容"@), ("🗑️ 清除已有密钥"@, "删除 Ed25519 和 RSA 密钥对"@)]
}

/// The SSH key menu: entry and description.
pub fn ssh_menu_items() -> (r: Vec<(&'static str, &'static str)>)
    ensures
        pairs_of(r@) == ssh_menu_items_spec(),
{
    let mut v: Vec<(&'static str, &'static str)> = Vec::new();
    v.push(("生成 Ed25519 密钥", "推荐 - 更安全、更快"));
    v.push(("生成 RSA 4096 密钥", "兼容性最好"));
    v.push(("查看已有公钥", "显示当前公钥内容"));
    v.push(("🗑️ 清除已有密钥", "删除 Ed25519 和 RSA 密钥对"));
    assert(pairs_of(v@) =~= ssh_menu_items_spec());
    v
}

/// The Chinese environment menu: entry and description.
pub open spec fn locale_menu_items_spec() -> Seq<(Seq<char>, Seq<char>)> {
    seq![("配置中文 locale"@, "生成 zh_CN.UTF-8 locale"@), ("安装中文字体"@, "安装 Noto CJK 字体"@), ("安装 Fcitx5 输入法"@, "安装 fcitx5 + 拼音输入法"@), ("🗑️ 清除中文配置"@, "卸载字体和输入法"@)]
}

/// The Chinese environment menu: entry and description.
pub fn locale_menu_items() -> (r: Vec<(&'static str, &'static str)>)
    ensures
        pairs_of(r@) == locale_menu_items_spec(),
{
    let mut v: Vec<(&'static str, &'static str)> = Vec::new();
    v.push(("配置中文 locale", "生成 zh_CN.UTF-8 locale"));
    v.push(("安装中文字体", "安装 Noto CJK 字体"));
    v.push(("安装 Fcitx5 输入法", "安装 fcitx5 + 拼音输入法"));
    v.push(("🗑️ 清除中文配置", "卸载字体和输入法"));
    assert(pairs_of(v@) =~= locale_menu_items_spec());
    v
}


/// The theme named on a `ZSH_THEME=` line.
pub open spec fn theme_value(l: Seq<char>) -> Seq<char> {
    trim_char(trim_char(trim_start_str(trim(l), "ZSH_THEME="@), '"'), '\'')
}

/// The plugins named on a `plugins=` line.
pub open spec fn plugins_value(l: Seq<char>) -> Seq<Seq<char>> {
    split_ws(trim_char(trim_char(trim_char(trim_start_str(trim(l), "plugins="@), '('), ')'), '"'))
}

/// The theme that `~/.zshrc` chooses: from its first `ZSH_THEME=` line;
/// `robbyrussell` when there is none or the file could not be read.
pub open spec fn read_theme_spec(zshrc: Option<Seq<char>>) -> Seq<char> {
    match zshrc {
        None => "robbyrussell"@,
        Some(c) => {
            let ls = lines(c);
            let i = first_match(ls, theme_test());
            if i < 0 {
                "robbyrussell"@
            } else {
                theme_value(ls[i])
            }
        },
    }
}

/// The plugins that `~/.zshrc` lists: from its first `plugins=` line;
/// `git` alone when there is none or the file could not be read.
pub open spec fn read_plugins_spec(zshrc: Option<Seq<char>>) -> Seq<Seq<char>> {
    match zshrc {
        None => seq!["git"@],
        Some(c) => {
            let ls = lines(c);
            let i = first_match(ls, plugins_test());
            if i < 0 {
                seq!["git"@]
            } else {
                plugins_value(ls[i])
            }
        },
    }
}

pub open spec fn opt_view(o: Option<&str>) -> Option<Seq<char>> {
    match o {
        Some(s) => Some(s@),
        None => None,
    }
}

/// The theme that `~/.zshrc` chooses; `None` when it could not be read.
pub fn read_current_theme(zshrc: Option<&str>) -> (r: String)
    ensures
        r@ == read_theme_spec(opt_view(zshrc)),
{
    if let Some(content) = zshrc {
        let cs = chars_of(content);
        let ls = lines_vec(&cs);
        if let Some(i) = first_match_vec(&ls, &LineTest::Prefix("ZSH_THEME=")) {
            let t = trim_vec(&ls[i]);
            let v = trim_start_str_vec(&t, "ZSH_THEME=");
            let v = trim_char_vec(&v, '"');
            let v = trim_char_vec(&v, '\'');
            return string_of(&v);
        }
    }
    owned("robbyrussell")
}

/// The plugins that `~/.zshrc` lists; `None` when it could not be read.
pub fn read_current_plugins(zshrc: Option<&str>) -> (r: Vec<String>)
    ensures
        strs(r@) == read_plugins_spec(opt_view(zshrc)),
{
    if let Some(content) = zshrc {
        let cs = chars_of(content);
        let ls = lines_vec(&cs);
        if let Some(i) = first_match_vec(&ls, &LineTest::Prefix("plugins=")) {
            let t = trim_vec(&ls[i]);
            let v = trim_start_str_vec(&t, "plugins=");
            let v = trim_char_vec(&v, '(');
            let v = trim_char_vec(&v, ')');
            let v = trim_char_vec(&v, '"');
            let parts = split_whitespace_vec(&v);
            let mut r: Vec<String> = Vec::new();
            let mut k: usize = 0;
            while k < parts.len()
                invariant
                    k <= parts.len(),
                    strs(r@) == seqs(parts@).take(k as int),
                decreases parts.len() - k,
            {
                let ghost before = r@;
                r.push(string_of(&parts[k]));
                assert(strs(r@) =~= strs(before).push(parts@[k as int]@));
                k = k + 1;
                assert(strs(r@) =~= seqs(parts@).take(k as int));
            }
            assert(seqs(parts@).take(k as int) =~= seqs(parts@));
            return r;
        }
    }
    let mut r: Vec<String> = Vec::new();
    r.push(owned("git"));
    assert(strs(r@) =~= seq!["git"@]);
    r
}

// ───────────────────────── reading back what was written ─────────────────

/// Facts about the setting lines that make them read back unchanged.
proof fn lemma_setting_line(setting: Seq<char>, t: LineTest)
    requires
        setting.len() > 0,
        !is_ws(setting[0]),
        !is_ws(setting.last()),
        setting.last() != '\r',
        test_line(t, setting),
    ensures
        strip_cr(setting) == setting,
        trim(setting) == setting,
{
    lemma_trim_id(setting);
}

/// Law: the theme that `set_theme` writes into `~/.zshrc` is the theme that
/// is read back from it, for any previous file contents and any theme name
/// that holds no line break and neither starts nor ends with a quote.
pub proof fn law_theme_read_back(zshrc: Seq<char>, theme: Seq<char>)
    requires
        lacks(theme, '\n'),
        theme.len() > 0 ==> theme[0] != '"' && theme.last() != '"' && theme[0] != '\''
            && theme.last() != '\'',
    ensures
        read_theme_spec(Some(set_theme_spec(zshrc, theme))) == theme,
{
    reveal_strlit("ZSH_THEME=\"");
    reveal_strlit("\"");
    reveal_strlit("ZSH_THEME=");
    let t = theme_test();
    let setting = theme_setting(theme);
    let pre = "ZSH_THEME="@;
    let q = seq!['"'];
    assert(setting =~= pre + (q + theme + q));
    assert(setting[0] == 'Z');
    assert(setting.last() == '"');
    assert forall|j: int| 0 <= j < setting.len() implies setting[j] != '\n' by {
        if pre.len() + 1 <= j < pre.len() + 1 + theme.len() {
            assert(setting[j] == theme[j - pre.len() - 1]);
        }
    }
    lemma_trim_id(setting);
    assert(setting.take(pre.len() as int) =~= pre);
    assert(test_line(t, setting));
    lemma_setting_line(setting, t);
    lemma_set_line_reread(zshrc, t, setting, true);
    let ls = lines(zshrc);
    let more = if any_line(ls, t) {
        Seq::<Seq<char>>::empty()
    } else {
        seq![Seq::<char>::empty(), setting]
    };
    lemma_first_match_reread(ls, t, setting, more);
    lemma_first_match_bounds(ls, t);
    let all = lines(set_theme_spec(zshrc, theme));
    let i = first_match(all, t);
    if !any_line(ls, t) {
        let e = Seq::<char>::empty();
        reveal_with_fuel(first_match, 3);
        assert(trim(e) =~= e);
        assert(!test_line(t, e));
        assert(more.drop_first() =~= seq![setting]);
        assert(first_match(more, t) == 1);
        assert(all[i] == more[1]);
    }
    assert(all[i] == setting);
    // Reading the value off the line.
    let rest = q + theme + q;
    assert(setting.skip(pre.len() as int) =~= rest);
    assert(rest[0] == '"');
    assert(!starts_with(rest, pre));
    assert(trim_start_str(rest, pre) == rest);
    assert(trim_start_str(setting, pre) == trim_start_str(rest, pre));
    lemma_trim_char_wrapped(theme, '"');
    lemma_trim_char_id(theme, '\'');
}


/// The characters a plugin name may hold for the list to read back as
/// written: no whitespace, parenthesis or double quote.
pub open spec fn plugin_char_ok(c: char) -> bool {
    !is_ws(c) && c != '(' && c != ')' && c != '"'
}

/// Law: the plugins that `set_plugins` writes into `~/.zshrc` are the
/// plugins read back from it, for any previous file contents and any
/// non-empty plugin names without whitespace, parentheses or double quotes.
pub proof fn law_plugins_read_back(zshrc: Seq<char>, plugins: Seq<Seq<char>>)
    requires
        forall|i: int|
            0 <= i < plugins.len() ==> (#[trigger] plugins[i]).len() > 0 && forall|j: int|
                0 <= j < plugins[i].len() ==> plugin_char_ok(plugins[i][j]),
    ensures
        read_plugins_spec(Some(set_plugins_spec(zshrc, plugins))) == plugins,
{
    reveal_strlit("plugins=(");
    reveal_strlit(")");
    reveal_strlit("plugins=");
    reveal_strlit(" ");
    let t = plugins_test();
    let setting = plugins_setting(plugins);
    let pre = "plugins="@;
    let sp = " "@;
    let jn = join(plugins, sp);
    let rest = seq!['('] + jn + seq![')'];
    assert(setting =~= pre + rest);
    assert(setting[0] == 'p');
    assert(setting.last() == ')');
    let ok = |c: char| plugin_char_ok(c) || c == ' ';
    assert forall|i: int, j: int| 0 <= i < plugins.len() && 0 <= j < plugins[i].len() implies ok(
        #[trigger] plugins[i][j],
    ) by {
        assert(plugin_char_ok(plugins[i][j]));
    }
    assert forall|j: int| 0 <= j < sp.len() implies ok(sp[j]) by {}
    lemma_join_chars(plugins, sp, ok);
    assert forall|j: int| 0 <= j < setting.len() implies setting[j] != '\n' by {
        if pre.len() + 1 <= j < pre.len() + 1 + jn.len() {
            assert(setting[j] == jn[j - pre.len() - 1]);
            assert(ok(jn[j - pre.len() - 1]));
        }
    }
    lemma_trim_id(setting);
    assert(setting.take(pre.len() as int) =~= pre);
    assert(test_line(t, setting));
    lemma_set_line_reread(zshrc, t, setting, true);
    let ls = lines(zshrc);
    let more = if any_line(ls, t) {
        Seq::<Seq<char>>::empty()
    } else {
        seq![Seq::<char>::empty(), setting]
    };
    lemma_first_match_reread(ls, t, setting, more);
    lemma_first_match_bounds(ls, t);
    let all = lines(set_plugins_spec(zshrc, plugins));
    let i = first_match(all, t);
    if !any_line(ls, t) {
        let e = Seq::<char>::empty();
        reveal_with_fuel(first_match, 3);
        assert(trim(e) =~= e);
        assert(!test_line(t, e));
        assert(more.drop_first() =~= seq![setting]);
        assert(first_match(more, t) == 1);
        assert(all[i] == more[1]);
    }
    assert(all[i] == setting);
    // Reading the list off the line.
    assert(setting.skip(pre.len() as int) =~= rest);
    assert(rest[0] == '(');
    assert(!starts_with(rest, pre));
    assert(trim_start_str(rest, pre) == rest);
    assert(trim_start_str(setting, pre) == trim_start_str(rest, pre));
    if plugins.len() > 0 {
        lemma_join_first(plugins, sp);
        lemma_join_last(plugins, sp);
        assert(plugin_char_ok(plugins[0][0]));
        assert(plugin_char_ok(plugins.last()[plugins.last().len() - 1]));
    } else {
        assert(jn =~= Seq::<char>::empty());
    }
    lemma_trim_char_open(jn, '(', ')');
    assert(rest =~= seq!['('] + jn + seq![')']);
    lemma_trim_char_close(jn, ')');
    lemma_trim_char_id(jn, '"');
    lemma_split_join(plugins);
    assert(sp =~= seq![' ']);
    assert(split_ws(jn) == plugins);
    assert(trim(setting) == setting);
    let a = trim_start_str(trim(setting), pre);
    assert(a == rest);
    let b = trim_char(a, '(');
    assert(b == jn + seq![')']);
    let c = trim_char(b, ')');
    assert(c == jn);
    let d = trim_char(c, '"');
    assert(d == jn);
    assert(plugins_value(setting) == plugins);
}


// ───────────────────────── the wizard's state ─────────────────────────

/// The page on screen.
#[derive(Debug)]
pub enum Page {
    MainMenu,
    Shell,
    ShellZshTheme,
    ShellZshPlugins,
    Docker,
    Ssh,
    Tools,
    Locale,
    Sources,
    Status(Box<StatusData>),
}

/// A page of result lines, and where Esc leads back to.
#[derive(Debug)]
pub struct StatusData {
    pub title: String,
    pub lines: Vec<String>,
    pub back: Page,
}

/// The state of the interactive wizard.
#[derive(Debug)]
pub struct App {
    pub distro: Distro,
    pub running: bool,
    pub page: Page,
    pub status_msg: String,
    pub config: Config,
    pub menu_index: usize,
    pub shell_index: usize,
    pub zsh_installed: bool,
    pub omz_installed: bool,
    pub omz_configured: bool,
    pub default_shell_set: bool,
    pub shell_theme_index: usize,
    pub selected_theme: String,
    pub plugin_index: usize,
    pub selected_plugins: Vec<String>,
    pub docker_index: usize,
    pub docker_installed: bool,
    pub compose_installed: bool,
    pub docker_user_configured: bool,
    pub docker_service_running: bool,
    pub ssh_index: usize,
    pub ssh_key_exists: bool,
    pub ed25519_exists: bool,
    pub rsa_exists: bool,
    pub last_pubkey: String,
    pub tool_index: usize,
    pub selected_tools: Vec<bool>,
    pub sshd_installed: bool,
    pub sshd_root_disabled: bool,
    pub sshd_running: bool,
    pub vim_installed: bool,
    pub vundle_installed: bool,
    pub nvm_installed: bool,
    pub node_installed: bool,
    pub locale_index: usize,
    pub locale_configured: bool,
    pub fonts_installed: bool,
    pub fcitx_installed: bool,
    /// The cursor on the system-mirror page.
    pub sources_index: usize,
    /// The measured latency of each system mirror, in milliseconds; `None`
    /// where it could not be reached.
    pub mirror_latencies: Vec<Option<u64>>,
}

/// A page, its texts as character sequences.
pub ghost enum PageV {
    MainMenu,
    Shell,
    ShellZshTheme,
    ShellZshPlugins,
    Docker,
    Ssh,
    Tools,
    Locale,
    Sources,
    Status { title: Seq<char>, lines: Seq<Seq<char>>, back: Box<PageV> },
}

impl View for Page {
    type V = PageV;

    open spec fn view(&self) -> PageV
        decreases self,
    {
        match self {
            Page::MainMenu => PageV::MainMenu,
            Page::Shell => PageV::Shell,
            Page::ShellZshTheme => PageV::ShellZshTheme,
            Page::ShellZshPlugins => PageV::ShellZshPlugins,
            Page::Docker => PageV::Docker,
            Page::Ssh => PageV::Ssh,
            Page::Tools => PageV::Tools,
            Page::Locale => PageV::Locale,
            Page::Sources => PageV::Sources,
            Page::Status(data) => PageV::Status {
                title: data.title@,
                lines: strs(data.lines@),
                back: Box::new(data.back.view()),
            },
        }
    }
}

/// The wizard's state, its texts as character sequences.
pub ghost struct AppV {
    pub distro: DistroV,
    pub running: bool,
    pub page: PageV,
    pub status_msg: Seq<char>,
    pub config: Config,
    pub menu_index: usize,
    pub shell_index: usize,
    pub zsh_installed: bool,
    pub omz_installed: bool,
    pub omz_configured: bool,
    pub default_shell_set: bool,
    pub shell_theme_index: usize,
    pub selected_theme: Seq<char>,
    pub plugin_index: usize,
    pub selected_plugins: Seq<Seq<char>>,
    pub docker_index: usize,
    pub docker_installed: bool,
    pub compose_installed: bool,
    pub docker_user_configured: bool,
    pub docker_service_running: bool,
    pub ssh_index: usize,
    pub ssh_key_exists: bool,
    pub ed25519_exists: bool,
    pub rsa_exists: bool,
    pub last_pubkey: Seq<char>,
    pub tool_index: usize,
    pub selected_tools: Seq<bool>,
    pub sshd_installed: bool,
    pub sshd_root_disabled: bool,
    pub sshd_running: bool,
    pub vim_installed: bool,
    pub vundle_installed: bool,
    pub nvm_installed: bool,
    pub node_installed: bool,
    pub locale_index: usize,
    pub locale_configured: bool,
    pub fonts_installed: bool,
    pub fcitx_installed: bool,
    pub sources_index: usize,
    pub mirror_latencies: Seq<Option<u64>>,
}

impl View for App {
    type V = AppV;

    open spec fn view(&self) -> AppV {
        AppV {
            distro: self.distro@,
            running: self.running,
            page: self.page@,
            status_msg: self.status_msg@,
            config: self.config,
            menu_index: self.menu_index,
            shell_index: self.shell_index,
            zsh_installed: self.zsh_installed,
            omz_installed: self.omz_installed,
            omz_configured: self.omz_configured,
            default_shell_set: self.default_shell_set,
            shell_theme_index: self.shell_theme_index,
            selected_theme: self.selected_theme@,
            plugin_index: self.plugin_index,
            selected_plugins: strs(self.selected_plugins@),
            docker_index: self.docker_index,
            docker_installed: self.docker_installed,
            compose_installed: self.compose_installed,
            docker_user_configured: self.docker_user_configured,
            docker_service_running: self.docker_service_running,
            ssh_index: self.ssh_index,
            ssh_key_exists: self.ssh_key_exists,
            ed25519_exists: self.ed25519_exists,
            rsa_exists: self.rsa_exists,
            last_pubkey: self.last_pubkey@,
            tool_index: self.tool_index,
            selected_tools: self.selected_tools@,
            sshd_installed: self.sshd_installed,
            sshd_root_disabled: self.sshd_root_disabled,
            sshd_running: self.sshd_running,
            vim_installed: self.vim_installed,
            vundle_installed: self.vundle_installed,
            nvm_installed: self.nvm_installed,
            node_installed: self.node_installed,
            locale_index: self.locale_index,
            locale_configured: self.locale_configured,
            fonts_installed: self.fonts_installed,
            fcitx_installed: self.fcitx_installed,
            sources_index: self.sources_index,
            mirror_latencies: self.mirror_latencies@,
        }
    }
}

/// The selection indices stay inside their lists, and there is one
/// selection flag per tool.
pub open spec fn indices_in(a: AppV) -> bool {
    &&& a.menu_index < main_menu_items_spec().len()
    &&& a.shell_theme_index < themes_spec().len()
    &&& a.plugin_index < plugins_spec().len()
    &&& a.docker_index < docker_menu_items_spec().len()
    &&& a.ssh_index < ssh_menu_items_spec().len()
    &&& a.tool_index < tools_spec().len()
    &&& a.locale_index < locale_menu_items_spec().len()
    &&& a.selected_tools.len() == tool_count()
    &&& (a.sources_index == 0 || a.sources_index < system_mirrors_spec(a.distro).len())
}

/// What the wizard finds on the system when it starts.
#[derive(Debug)]
pub struct StartupProbe {
    pub zsh_installed: bool,
    pub omz_installed: bool,
    pub docker_installed: bool,
    pub compose_installed: bool,
    /// `~/.ssh/id_ed25519.pub` or `~/.ssh/id_rsa.pub` exists.
    pub ssh_key_exists: bool,
    /// `$SHELL`, empty when unset.
    pub shell_env: String,
    /// `~/.zshrc`, `None` when it could not be read.
    pub zshrc: Option<String>,
    pub config: Config,
}

/// What the wizard finds on the system after each action.
#[derive(Debug)]
pub struct Detected {
    pub zsh_installed: bool,
    pub omz_installed: bool,
    pub docker_installed: bool,
    pub compose_installed: bool,
    pub docker_user_configured: bool,
    pub docker_service_running: bool,
    pub ed25519_exists: bool,
    pub rsa_exists: bool,
    pub sshd_installed: bool,
    pub sshd_root_disabled: bool,
    pub sshd_running: bool,
    pub locale_configured: bool,
    pub fcitx_installed: bool,
    pub fonts_installed: bool,
    pub vim_installed: bool,
    pub vundle_installed: bool,
    pub nvm_installed: bool,
    pub node_installed: bool,
    /// `$SHELL`, empty when unset.
    pub shell_env: String,
}

/// The number of tools offered.
pub open spec fn tool_count() -> nat {
    tools_spec().len()
}

impl App {
    /// The wizard at start: the main menu, the theme and plugins read from
    /// `~/.zshrc` when Oh My Zsh is installed (else `robbyrussell` and `git`),
    /// no tool selected.
    pub fn new(distro: Distro, probe: StartupProbe) -> (app: App)
        ensures
            app.distro@ == distro@,
            app.running,
            app.page == Page::MainMenu,
            app.status_msg@ == "检测到发行版: 按 ↑↓ 导航, Enter 选择, q 退出"@,
            app.config == probe.config,
            app.menu_index == 0 && app.shell_index == 0 && app.shell_theme_index == 0,
            app.plugin_index == 0 && app.docker_index == 0 && app.ssh_index == 0,
            app.tool_index == 0 && app.locale_index == 0,
            app.zsh_installed == probe.zsh_installed,
            app.omz_installed == probe.omz_installed,
            app.omz_configured == probe.omz_installed,
            app.default_shell_set == crate::text::contains(probe.shell_env@, "zsh"@),
            app.selected_theme@ == if probe.omz_installed {
                read_theme_spec(match probe.zshrc {
                    Some(z) => Some(z@),
                    None => None,
                })
            } else {
                "robbyrussell"@
            },
            strs(app.selected_plugins@) == if probe.omz_installed {
                read_plugins_spec(match probe.zshrc {
                    Some(z) => Some(z@),
                    None => None,
                })
            } else {
                seq!["git"@]
            },
            app.docker_installed == probe.docker_installed,
            app.compose_installed == probe.compose_installed,
            !app.docker_user_configured,
            app.ssh_key_exists == probe.ssh_key_exists,
            app.last_pubkey@.len() == 0,
            app.selected_tools@.len() == tool_count(),
            forall|i: int| 0 <= i < app.selected_tools@.len() ==> !app.selected_tools@[i],
            !app.locale_configured && !app.fonts_installed && !app.fcitx_installed,
            !app.docker_service_running && !app.ed25519_exists && !app.rsa_exists,
            !app.sshd_installed && !app.sshd_root_disabled && !app.sshd_running,
            !app.vim_installed && !app.vundle_installed && !app.nvm_installed && !app.node_installed,
            app.indices_ok(),
    {
        let shell = chars_of(probe.shell_env.as_str());
        let default_shell_set = crate::text::contains_str(&shell, "zsh");
        let zshrc = match &probe.zshrc {
            Some(z) => Some(z.as_str()),
            None => None,
        };
        let selected_theme = if probe.omz_installed {
            read_current_theme(zshrc)
        } else {
            owned("robbyrussell")
        };
        let selected_plugins = if probe.omz_installed {
            read_current_plugins(zshrc)
        } else {
            let mut v: Vec<String> = Vec::new();
            v.push(owned("git"));
            assert(strs(v@) =~= seq!["git"@]);
            v
        };
        let n = tools().len();
        let mut selected_tools: Vec<bool> = Vec::new();
        let mut i: usize = 0;
        while i < n
            invariant
                i <= n,
                n == tool_count(),
                selected_tools@.len() == i,
                forall|j: int| 0 <= j < i ==> !selected_tools@[j],
            decreases n - i,
        {
            selected_tools.push(false);
            i = i + 1;
        }
        App {
            distro,
            running: true,
            page: Page::MainMenu,
            status_msg: owned("检测到发行版: 按 ↑↓ 导航, Enter 选择, q 退出"),
            config: probe.config,
            menu_index: 0,
            shell_index: 0,
            zsh_installed: probe.zsh_installed,
            omz_installed: probe.omz_installed,
            omz_configured: probe.omz_installed,
            default_shell_set,
            shell_theme_index: 0,
            selected_theme,
            plugin_index: 0,
            selected_plugins,
            docker_index: 0,
            docker_installed: probe.docker_installed,
            compose_installed: probe.compose_installed,
            docker_user_configured: false,
            docker_service_running: false,
            ssh_index: 0,
            ssh_key_exists: probe.ssh_key_exists,
            ed25519_exists: false,
            rsa_exists: false,
            last_pubkey: String::new(),
            tool_index: 0,
            selected_tools,
            sshd_installed: false,
            sshd_root_disabled: false,
            sshd_running: false,
            vim_installed: false,
            vundle_installed: false,
            nvm_installed: false,
            node_installed: false,
            locale_index: 0,
            locale_configured: false,
            fonts_installed: false,
            fcitx_installed: false,
            sources_index: 0,
            mirror_latencies: Vec::new(),
        }
    }

    /// The selection indices stay inside their lists, and there is one
    /// selection flag per tool.
    pub open spec fn indices_ok(self) -> bool {
        indices_in(self@)
    }

    /// Whether the selection indices stay inside their lists and there is
    /// one selection flag per tool.
    pub fn indices_valid(&self) -> (r: bool)
        ensures
            r == self.indices_ok(),
    {
        let tool_count = tools().len();
        self.menu_index < main_menu_items().len()
            && self.shell_theme_index < themes().len()
            && self.plugin_index < plugins().len()
            && self.docker_index < docker_menu_items().len()
            && self.ssh_index < ssh_menu_items().len()
            && self.tool_index < tool_count
            && self.locale_index < locale_menu_items().len()
            && self.selected_tools.len() == tool_count
            && (self.sources_index == 0 || self.sources_index < system_mirrors(&self.distro).len())
    }
}

/// `n` is `c` synced with `d`, field by field.
#[verifier::opaque]
pub open spec fn synced_from(n: CompletedModules, c: CompletedModules, d: Detected) -> bool {
    &&& n.zsh_theme == c.zsh_theme
    &&& n.zsh_plugins == c.zsh_plugins
    &&& n.zsh_default == c.zsh_default
    &&& n.ssh_key_type == c.ssh_key_type
    &&& n.tools_installed == c.tools_installed
    &&& n.vim_plugins == c.vim_plugins
    &&& n.zsh_installed == (c.zsh_installed || d.zsh_installed)
    &&& n.omz_installed == (c.omz_installed || d.omz_installed)
    &&& n.docker_installed == (c.docker_installed || d.docker_installed)
    &&& n.docker_compose_installed == (c.docker_compose_installed || d.compose_installed)
    &&& n.docker_user_configured == (c.docker_user_configured || d.docker_user_configured)
    &&& n.docker_service_running == (c.docker_service_running || d.docker_service_running)
    &&& n.ssh_key_generated == (c.ssh_key_generated || (d.ed25519_exists || d.rsa_exists))
    &&& n.ssh_server_installed == (c.ssh_server_installed || d.sshd_installed)
    &&& n.ssh_server_configured == (c.ssh_server_configured || d.sshd_root_disabled)
    &&& n.ssh_server_running == (c.ssh_server_running || d.sshd_running)
    &&& n.vim_installed == (c.vim_installed || d.vim_installed)
    &&& n.vundle_installed == (c.vundle_installed || d.vundle_installed)
    &&& n.nvm_installed == (c.nvm_installed || d.nvm_installed)
    &&& n.node_installed == (c.node_installed || d.node_installed)
    &&& n.chinese_locale_configured == (c.chinese_locale_configured || d.locale_configured)
    &&& n.chinese_fonts_installed == (c.chinese_fonts_installed || d.fonts_installed)
    &&& n.fcitx5_installed == (c.fcitx5_installed || d.fcitx_installed)
}

/// Whether syncing records anything new.
#[verifier::opaque]
pub open spec fn sync_changes(c: CompletedModules, d: Detected) -> bool {
    ||| !c.zsh_installed && d.zsh_installed
    ||| !c.omz_installed && d.omz_installed
    ||| !c.docker_installed && d.docker_installed
    ||| !c.docker_compose_installed && d.compose_installed
    ||| !c.docker_user_configured && d.docker_user_configured
    ||| !c.docker_service_running && d.docker_service_running
    ||| !c.ssh_key_generated && (d.ed25519_exists || d.rsa_exists)
    ||| !c.ssh_server_installed && d.sshd_installed
    ||| !c.ssh_server_configured && d.sshd_root_disabled
    ||| !c.ssh_server_running && d.sshd_running
    ||| !c.vim_installed && d.vim_installed
    ||| !c.vundle_installed && d.vundle_installed
    ||| !c.nvm_installed && d.nvm_installed
    ||| !c.node_installed && d.node_installed
    ||| !c.chinese_locale_configured && d.locale_configured
    ||| !c.chinese_fonts_installed && d.fonts_installed
    ||| !c.fcitx5_installed && d.fcitx_installed
}

/// Law: syncing a second time with the same findings records nothing
/// more, and reports no change (so the file is not written again).
pub proof fn law_sync_idempotent(c: CompletedModules, n1: CompletedModules, n2: CompletedModules, d: Detected)
    requires
        synced_from(n1, c, d),
        synced_from(n2, n1, d),
    ensures
        n2 == n1,
        !sync_changes(n1, d),
{
    reveal(synced_from);
    reveal(sync_changes);
}

/// Law: syncing never forgets a completed step, and it reports a change
/// exactly when the recorded completions differ afterwards.
pub proof fn law_sync_monotone(c: CompletedModules, n: CompletedModules, d: Detected)
    requires
        synced_from(n, c, d),
    ensures
        c.zsh_installed ==> n.zsh_installed,
        c.omz_installed ==> n.omz_installed,
        c.docker_installed ==> n.docker_installed,
        c.docker_compose_installed ==> n.docker_compose_installed,
        c.docker_user_configured ==> n.docker_user_configured,
        c.docker_service_running ==> n.docker_service_running,
        c.ssh_key_generated ==> n.ssh_key_generated,
        c.ssh_server_installed ==> n.ssh_server_installed,
        c.ssh_server_configured ==> n.ssh_server_configured,
        c.ssh_server_running ==> n.ssh_server_running,
        c.vim_installed ==> n.vim_installed,
        c.vundle_installed ==> n.vundle_installed,
        c.nvm_installed ==> n.nvm_installed,
        c.node_installed ==> n.node_installed,
        c.chinese_locale_configured ==> n.chinese_locale_configured,
        c.chinese_fonts_installed ==> n.chinese_fonts_installed,
        c.fcitx5_installed ==> n.fcitx5_installed,
        sync_changes(c, d) <==> n != c,
{
    reveal(synced_from);
    reveal(sync_changes);
}

fn either(a: bool, b: bool) -> (r: bool)
    ensures
        r == (a || b),
{
    a || b
}

/// Whether `found` records something that `done` did not hold.
fn newly(done: bool, found: bool) -> (r: bool)
    ensures
        r == (!done && found),
{
    !done && found
}

/// `c` with each step that `d` finds done recorded, and whether anything
/// new was recorded.
pub fn sync_completed(c: CompletedModules, d: &Detected) -> (r: (CompletedModules, bool))
    ensures
        synced_from(r.0, c, *d),
        r.1 == sync_changes(c, *d),
{
    reveal(synced_from);
    reveal(sync_changes);
    let ssh_key = either(d.ed25519_exists, d.rsa_exists);
    let mut changed = false;
    let new_zsh_installed = newly(c.zsh_installed, d.zsh_installed);
    changed = either(changed, new_zsh_installed);
    let new_omz_installed = newly(c.omz_installed, d.omz_installed);
    changed = either(changed, new_omz_installed);
    let new_docker_installed = newly(c.docker_installed, d.docker_installed);
    changed = either(changed, new_docker_installed);
    let new_docker_compose_installed = newly(c.docker_compose_installed, d.compose_installed);
    changed = either(changed, new_docker_compose_installed);
    let new_docker_user_configured = newly(c.docker_user_configured, d.docker_user_configured);
    changed = either(changed, new_docker_user_configured);
    let new_docker_service_running = newly(c.docker_service_running, d.docker_service_running);
    changed = either(changed, new_docker_service_running);
    let new_ssh_key_generated = newly(c.ssh_key_generated, ssh_key);
    changed = either(changed, new_ssh_key_generated);
    let new_ssh_server_installed = newly(c.ssh_server_installed, d.sshd_installed);
    changed = either(changed, new_ssh_server_installed);
    let new_ssh_server_configured = newly(c.ssh_server_configured, d.sshd_root_disabled);
    changed = either(changed, new_ssh_server_configured);
    let new_ssh_server_running = newly(c.ssh_server_running, d.sshd_running);
    changed = either(changed, new_ssh_server_running);
    let new_vim_installed = newly(c.vim_installed, d.vim_installed);
    changed = either(changed, new_vim_installed);
    let new_vundle_installed = newly(c.vundle_installed, d.vundle_installed);
    changed = either(changed, new_vundle_installed);
    let new_nvm_installed = newly(c.nvm_installed, d.nvm_installed);
    changed = either(changed, new_nvm_installed);
    let new_node_installed = newly(c.node_installed, d.node_installed);
    changed = either(changed, new_node_installed);
    let new_chinese_locale_configured = newly(c.chinese_locale_configured, d.locale_configured);
    changed = either(changed, new_chinese_locale_configured);
    let new_chinese_fonts_installed = newly(c.chinese_fonts_installed, d.fonts_installed);
    changed = either(changed, new_chinese_fonts_installed);
    let new_fcitx5_installed = newly(c.fcitx5_installed, d.fcitx_installed);
    changed = either(changed, new_fcitx5_installed);
    let synced_c = CompletedModules {
        zsh_installed: either(c.zsh_installed, d.zsh_installed),
        omz_installed: either(c.omz_installed, d.omz_installed),
        docker_installed: either(c.docker_installed, d.docker_installed),
        docker_compose_installed: either(c.docker_compose_installed, d.compose_installed),
        docker_user_configured: either(c.docker_user_configured, d.docker_user_configured),
        docker_service_running: either(c.docker_service_running, d.docker_service_running),
        ssh_key_generated: either(c.ssh_key_generated, ssh_key),
        ssh_server_installed: either(c.ssh_server_installed, d.sshd_installed),
        ssh_server_configured: either(c.ssh_server_configured, d.sshd_root_disabled),
        ssh_server_running: either(c.ssh_server_running, d.sshd_running),
        vim_installed: either(c.vim_installed, d.vim_installed),
        vundle_installed: either(c.vundle_installed, d.vundle_installed),
        nvm_installed: either(c.nvm_installed, d.nvm_installed),
        node_installed: either(c.node_installed, d.node_installed),
        chinese_locale_configured: either(c.chinese_locale_configured, d.locale_configured),
        chinese_fonts_installed: either(c.chinese_fonts_installed, d.fonts_installed),
        fcitx5_installed: either(c.fcitx5_installed, d.fcitx_installed),
        ..c
    };
    (synced_c, changed)
}

impl App {
    /// Everything but the detected status flags and the configuration is as
    /// in `o`: the page, the status line, the cursors and the choices made.
    pub open spec fn keeps_choices(self, o: App) -> bool {
        &&& self.distro@ == o.distro@
        &&& self.running == o.running
        &&& self.page == o.page
        &&& self.status_msg@ == o.status_msg@
        &&& self.menu_index == o.menu_index
        &&& self.shell_index == o.shell_index
        &&& self.omz_configured == o.omz_configured
        &&& self.shell_theme_index == o.shell_theme_index
        &&& self.selected_theme@ == o.selected_theme@
        &&& self.plugin_index == o.plugin_index
        &&& self.selected_plugins@ == o.selected_plugins@
        &&& self.docker_index == o.docker_index
        &&& self.ssh_index == o.ssh_index
        &&& self.ssh_key_exists == o.ssh_key_exists
        &&& self.last_pubkey@ == o.last_pubkey@
        &&& self.tool_index == o.tool_index
        &&& self.selected_tools@ == o.selected_tools@
        &&& self.locale_index == o.locale_index
        &&& self.sources_index == o.sources_index
        &&& self.mirror_latencies@ == o.mirror_latencies@
    }

    /// The status flags after `d` was detected.
    pub open spec fn shows(self, d: Detected) -> bool {
        &&& self.zsh_installed == d.zsh_installed
        &&& self.omz_installed == d.omz_installed
        &&& self.docker_installed == d.docker_installed
        &&& self.compose_installed == d.compose_installed
        &&& self.docker_user_configured == d.docker_user_configured
        &&& self.docker_service_running == d.docker_service_running
        &&& self.ed25519_exists == d.ed25519_exists
        &&& self.rsa_exists == d.rsa_exists
        &&& self.sshd_installed == d.sshd_installed
        &&& self.sshd_root_disabled == d.sshd_root_disabled
        &&& self.sshd_running == d.sshd_running
        &&& self.locale_configured == d.locale_configured
        &&& self.fcitx_installed == d.fcitx_installed
        &&& self.fonts_installed == d.fonts_installed
        &&& self.vim_installed == d.vim_installed
        &&& self.vundle_installed == d.vundle_installed
        &&& self.nvm_installed == d.nvm_installed
        &&& self.node_installed == d.node_installed
        &&& self.default_shell_set == crate::text::contains(d.shell_env@, "zsh"@)
    }

    /// Takes in what was detected on the system: the status flags become
    /// the findings (the default shell is set when `$SHELL` names zsh), and
    /// the recorded completions are synced with them. Also returns whether
    /// the configuration changed and should be saved.
    pub fn refresh_state(self, d: Detected) -> (r: (App, bool))
        ensures
            r.0.shows(d),
            synced_from(r.0.config.completed, self.config.completed, d),
            r.0.config.language == self.config.language,
            r.1 == sync_changes(self.config.completed, d),
            r.0.keeps_choices(self),
            r.0.indices_ok() == self.indices_ok(),
    {
        let shell = chars_of(d.shell_env.as_str());
        let default_shell_set = crate::text::contains_str(&shell, "zsh");
        let (completed, changed) = sync_completed(self.config.completed, &d);
        let app = App {
            zsh_installed: d.zsh_installed,
            omz_installed: d.omz_installed,
            docker_installed: d.docker_installed,
            compose_installed: d.compose_installed,
            docker_user_configured: d.docker_user_configured,
            docker_service_running: d.docker_service_running,
            ed25519_exists: d.ed25519_exists,
            rsa_exists: d.rsa_exists,
            sshd_installed: d.sshd_installed,
            sshd_root_disabled: d.sshd_root_disabled,
            sshd_running: d.sshd_running,
            locale_configured: d.locale_configured,
            fcitx_installed: d.fcitx_installed,
            fonts_installed: d.fonts_installed,
            vim_installed: d.vim_installed,
            vundle_installed: d.vundle_installed,
            nvm_installed: d.nvm_installed,
            node_installed: d.node_installed,
            default_shell_set,
            config: Config { language: self.config.language, completed },
            ..self
        };
        (app, changed)
    }
}

} // verus!
