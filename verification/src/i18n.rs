//! The wizard's texts in Chinese and in English.
use vstd::prelude::*;
use vstd::string::*;
use crate::app::pairs_of;
use crate::text::{decimal, str_eq, u64_text};
use crate::utils::owned;

verus! {

/// The language of the texts.
#[derive(Clone, Copy, Debug, PartialEq, Eq, Structural)]
pub enum Lang {
    Chinese,
    English,
}

impl Lang {
    /// The name of the language, as it is shown.
    pub fn name(&self) -> (r: &'static str)
        ensures
            r@ == match *self {
                Lang::Chinese => "中文"@,
                Lang::English => "English"@,
            },
    {
        match self {
            Lang::Chinese => "中文",
            Lang::English => "English",
        }
    }
}

/// The value of the first entry of `table` under `key`.
pub open spec fn lookup(table: Seq<(Seq<char>, Seq<char>)>, key: Seq<char>) -> Option<Seq<char>>
    decreases table.len(),
{
    if table.len() == 0 {
        None
    } else if table[0].0 == key {
        Some(table[0].1)
    } else {
        lookup(table.drop_first(), key)
    }
}

/// The value of the first entry of `table` under `key`.
fn find(table: &Vec<(&'static str, &'static str)>, key: &str) -> (r: Option<&'static str>)
    ensures
        match (r, lookup(pairs_of(table@), key@)) {
            (Some(v), Some(w)) => v@ == w,
            (None, None) => true,
            _ => false,
        },
{
    let ghost t = pairs_of(table@);
    assert(t.skip(0) =~= t);
    let mut i: usize = 0;
    while i < table.len()
        invariant
            i <= table.len(),
            t == pairs_of(table@),
            lookup(t, key@) == lookup(t.skip(i as int), key@),
        decreases table.len() - i,
    {
        assert(t.skip(i as int)[0] == t[i as int]);
        assert(t.skip(i as int).drop_first() =~= t.skip(i + 1));
        if str_eq(table[i].0, key) {
            return Some(table[i].1);
        }
        i = i + 1;
    }
    None
}

/// `main_title` in each language.
pub open spec fn main_title_spec(lang: Lang) -> Seq<char> {
    match lang {
        Lang::Chinese => "Linux Init — 环境初始化向导"@,
        Lang::English => "Linux Init — Environment Setup Wizard"@,
    }
}

pub fn main_title(lang: Lang) -> (r: &'static str)
    ensures
        r@ == main_title_spec(lang),
{
    match lang {
        Lang::Chinese => "Linux Init — 环境初始化向导",
        Lang::English => "Linux Init — Environment Setup Wizard",
    }
}

/// `main_menu`: entries and descriptions, in each language.
pub open spec fn main_menu_spec(lang: Lang) -> Seq<(Seq<char>, Seq<char>)> {
    match lang {
        Lang::Chinese => seq![("🐚 Shell 配置"@, "配置 bash/zsh, oh-my-zsh"@), ("🐳 Docker 安装"@, "安装 Docker 和 Docker Compose"@), ("🔑 SSH Key 生成"@, "生成 SSH 密钥对"@), ("🔧 基础工具"@, "安装常用开发工具"@), ("🖥️ SSH 服务"@, "安装并配置 SSH 远程登录"@), ("📝 Vim 配置"@, "安装 Vim, Vundle 和插件"@), ("🟢 Node.js (nvm)"@, "安装 nvm 和 Node.js LTS"@), ("🇨🇳 中文配置"@, "配置中文 locale、字体和输入法"@), ("🔁 系统源管理"@, "切换系统/Docker/NPM 镜像源"@)],
        Lang::English => seq![("🐚 Shell Config"@, "Configure bash/zsh, oh-my-zsh"@), ("🐳 Docker Setup"@, "Install Docker and Docker Compose"@), ("🔑 SSH Key Gen"@, "Generate SSH key pair"@), ("🔧 Basic Tools"@, "Install common dev tools"@), ("🖥️ SSH Server"@, "Install and configure SSH server"@), ("📝 Vim Config"@, "Install Vim, Vundle and plugins"@), ("🟢 Node.js (nvm)"@, "Install nvm and Node.js LTS"@), ("🇨🇳 Chinese Config"@, "Configure Chinese locale, fonts and input"@), ("🔁 System Sources"@, "Switch system/Docker/NPM mirrors"@)],
    }
}

pub fn main_menu(lang: Lang) -> (r: Vec<(&'static str, &'static str)>)
    ensures
        pairs_of(r@) == main_menu_spec(lang),
{
    let mut v: Vec<(&'static str, &'static str)> = Vec::new();
    match lang {
        Lang::Chinese => {
            v.push(("🐚 Shell 配置", "配置 bash/zsh, oh-my-zsh"));
            v.push(("🐳 Docker 安装", "安装 Docker 和 Docker Compose"));
            v.push(("🔑 SSH Key 生成", "生成 SSH 密钥对"));
            v.push(("🔧 基础工具", "安装常用开发工具"));
            v.push(("🖥️ SSH 服务", "安装并配置 SSH 远程登录"));
            v.push(("📝 Vim 配置", "安装 Vim, Vundle 和插件"));
            v.push(("🟢 Node.js (nvm)", "安装 nvm 和 Node.js LTS"));
            v.push(("🇨🇳 中文配置", "配置中文 locale、字体和输入法"));
            v.push(("🔁 系统源管理", "切换系统/Docker/NPM 镜像源"));
        },
        Lang::English => {
            v.push(("🐚 Shell Config", "Configure bash/zsh, oh-my-zsh"));
            v.push(("🐳 Docker Setup", "Install Docker and Docker Compose"));
            v.push(("🔑 SSH Key Gen", "Generate SSH key pair"));
            v.push(("🔧 Basic Tools", "Install common dev tools"));
            v.push(("🖥️ SSH Server", "Install and configure SSH server"));
            v.push(("📝 Vim Config", "Install Vim, Vundle and plugins"));
            v.push(("🟢 Node.js (nvm)", "Install nvm and Node.js LTS"));
            v.push(("🇨🇳 Chinese Config", "Configure Chinese locale, fonts and input"));
            v.push(("🔁 System Sources", "Switch system/Docker/NPM mirrors"));
        },
    }
    assert(pairs_of(v@) =~= main_menu_spec(lang));
    v
}

/// `shell_title` in each language.
pub open spec fn shell_title_spec(lang: Lang) -> Seq<char> {
    match lang {
        Lang::Chinese => "Shell 配置"@,
        Lang::English => "Shell Configuration"@,
    }
}

pub fn shell_title(lang: Lang) -> (r: &'static str)
    ensures
        r@ == shell_title_spec(lang),
{
    match lang {
        Lang::Chinese => "Shell 配置",
        Lang::English => "Shell Configuration",
    }
}

/// `shell_install_zsh`: entry and description, in each language.
pub open spec fn shell_install_zsh_spec(lang: Lang) -> (Seq<char>, Seq<char>) {
    match lang {
        Lang::Chinese => ("安装 Zsh"@, "现代交互式 shell"@),
        Lang::English => ("Install Zsh"@, "Modern interactive shell"@),
    }
}

pub fn shell_install_zsh(lang: Lang) -> (r: (&'static str, &'static str))
    ensures
        (r.0@, r.1@) == shell_install_zsh_spec(lang),
{
    match lang {
        Lang::Chinese => ("安装 Zsh", "现代交互式 shell"),
        Lang::English => ("Install Zsh", "Modern interactive shell"),
    }
}

/// `shell_install_omz`: entry and description, in each language.
pub open spec fn shell_install_omz_spec(lang: Lang) -> (Seq<char>, Seq<char>) {
    match lang {
        Lang::Chinese => ("安装 Oh My Zsh"@, "zsh 配置管理框架"@),
        Lang::English => ("Install Oh My Zsh"@, "Zsh configuration framework"@),
    }
}

pub fn shell_install_omz(lang: Lang) -> (r: (&'static str, &'static str))
    ensures
        (r.0@, r.1@) == shell_install_omz_spec(lang),
{
    match lang {
        Lang::Chinese => ("安装 Oh My Zsh", "zsh 配置管理框架"),
        Lang::English => ("Install Oh My Zsh", "Zsh configuration framework"),
    }
}

/// The theme entry of the shell page, with the current theme.
pub open spec fn shell_select_theme_spec(lang: Lang, current: Seq<char>) -> (Seq<char>, Seq<char>) {
    match lang {
        Lang::Chinese => ("选择主题"@, "当前: "@ + current),
        Lang::English => ("Select Theme"@, "Current: "@ + current),
    }
}

pub fn shell_select_theme(lang: Lang, current: &str) -> (r: (String, String))
    ensures
        (r.0@, r.1@) == shell_select_theme_spec(lang, current@),
{
    match lang {
        Lang::Chinese => (owned("选择主题"), owned("当前: ").concat(current)),
        Lang::English => (owned("Select Theme"), owned("Current: ").concat(current)),
    }
}

/// The plugin entry of the shell page, with how many plugins are selected.
pub open spec fn shell_select_plugins_spec(lang: Lang, count: nat) -> (Seq<char>, Seq<char>) {
    match lang {
        Lang::Chinese => ("选择插件"@, "已选 "@ + decimal(count) + " 个"@),
        Lang::English => ("Select Plugins"@, decimal(count) + " selected"@),
    }
}

pub fn shell_select_plugins(lang: Lang, count: usize) -> (r: (String, String))
    ensures
        (r.0@, r.1@) == shell_select_plugins_spec(lang, count as nat),
{
    let n = u64_text(count as u64);
    match lang {
        Lang::Chinese => (owned("选择插件"), owned("已选 ").concat(n.as_str()).concat(" 个")),
        Lang::English => (owned("Select Plugins"), n.concat(" selected")),
    }
}

/// `shell_set_default`: entry and description, in each language.
pub open spec fn shell_set_default_spec(lang: Lang) -> (Seq<char>, Seq<char>) {
    match lang {
        Lang::Chinese => ("设为默认 Shell"@, "将 zsh 设为登录 shell"@),
        Lang::English => ("Set Default Shell"@, "Set zsh as login shell"@),
    }
}

pub fn shell_set_default(lang: Lang) -> (r: (&'static str, &'static str))
    ensures
        (r.0@, r.1@) == shell_set_default_spec(lang),
{
    match lang {
        Lang::Chinese => ("设为默认 Shell", "将 zsh 设为登录 shell"),
        Lang::English => ("Set Default Shell", "Set zsh as login shell"),
    }
}

/// `theme_title` in each language.
pub open spec fn theme_title_spec(lang: Lang) -> Seq<char> {
    match lang {
        Lang::Chinese => "Oh My Zsh — 选择主题"@,
        Lang::English => "Oh My Zsh — Select Theme"@,
    }
}

pub fn theme_title(lang: Lang) -> (r: &'static str)
    ensures
        r@ == theme_title_spec(lang),
{
    match lang {
        Lang::Chinese => "Oh My Zsh — 选择主题",
        Lang::English => "Oh My Zsh — Select Theme",
    }
}

/// The table behind `theme_desc`, in each language.
pub open spec fn theme_desc_table_spec(lang: Lang) -> Seq<(Seq<char>, Seq<char>)> {
    match lang {
        Lang::Chinese => seq![("robbyrussell"@, "默认主题，简洁带 git 状态"@), ("af-magic"@, "双行提示，显示路径和 git 分支"@), ("agnoster"@, "紧凑的 powerline 风格"@), ("bira"@, "双行彩色提示，信息丰富"@), ("clean"@, "极简风格，仅显示路径和符号"@), ("dst"@, "经典单行提示"@), ("gallifrey"@, "Doctor Who 风格主题"@), ("maran"@, "简洁的单行 git 提示"@), ("minimal"@, "极简主义者的选择"@), ("powerlevel10k"@, "高性能、高度可定制主题 (需额外安装)"@), ("refined"@, "精炼的单行提示"@), ("suvash"@, "简洁带 git 状态和路径"@), ("ys"@, "信息丰富的双行提示"@)],
        Lang::English => seq![("robbyrussell"@, "Default theme, minimal with git status"@), ("af-magic"@, "Two-line prompt with path and git branch"@), ("agnoster"@, "Compact powerline style"@), ("bira"@, "Two-line colorful prompt, info-rich"@), ("clean"@, "Minimal, only path and symbol"@), ("dst"@, "Classic single-line prompt"@), ("gallifrey"@, "Doctor Who themed"@), ("maran"@, "Clean single-line git prompt"@), ("minimal"@, "Minimalist's choice"@), ("powerlevel10k"@, "High-performance, highly customizable (extra install)"@), ("refined"@, "Refined single-line prompt"@), ("suvash"@, "Clean with git status and path"@), ("ys"@, "Info-rich two-line prompt"@)],
    }
}

fn theme_desc_table(lang: Lang) -> (r: Vec<(&'static str, &'static str)>)
    ensures
        pairs_of(r@) == theme_desc_table_spec(lang),
{
    let mut v: Vec<(&'static str, &'static str)> = Vec::new();
    match lang {
        Lang::Chinese => {
            v.push(("robbyrussell", "默认主题，简洁带 git 状态"));
            v.push(("af-magic", "双行提示，显示路径和 git 分支"));
            v.push(("agnoster", "紧凑的 powerline 风格"));
            v.push(("bira", "双行彩色提示，信息丰富"));
            v.push(("clean", "极简风格，仅显示路径和符号"));
            v.push(("dst", "经典单行提示"));
            v.push(("gallifrey", "Doctor Who 风格主题"));
            v.push(("maran", "简洁的单行 git 提示"));
            v.push(("minimal", "极简主义者的选择"));
            v.push(("powerlevel10k", "高性能、高度可定制主题 (需额外安装)"));
            v.push(("refined", "精炼的单行提示"));
            v.push(("suvash", "简洁带 git 状态和路径"));
            v.push(("ys", "信息丰富的双行提示"));
        },
        Lang::English => {
            v.push(("robbyrussell", "Default theme, minimal with git status"));
            v.push(("af-magic", "Two-line prompt with path and git branch"));
            v.push(("agnoster", "Compact powerline style"));
            v.push(("bira", "Two-line colorful prompt, info-rich"));
            v.push(("clean", "Minimal, only path and symbol"));
            v.push(("dst", "Classic single-line prompt"));
            v.push(("gallifrey", "Doctor Who themed"));
            v.push(("maran", "Clean single-line git prompt"));
            v.push(("minimal", "Minimalist's choice"));
            v.push(("powerlevel10k", "High-performance, highly customizable (extra install)"));
            v.push(("refined", "Refined single-line prompt"));
            v.push(("suvash", "Clean with git status and path"));
            v.push(("ys", "Info-rich two-line prompt"));
        },
    }
    assert(pairs_of(v@) =~= theme_desc_table_spec(lang));
    v
}

/// `theme_desc`: the text for a name of the list, empty for any other.
pub open spec fn theme_desc_spec(lang: Lang, name: Seq<char>) -> Seq<char> {
    match lookup(theme_desc_table_spec(lang), name) {
        Some(d) => d,
        None => Seq::empty(),
    }
}

pub fn theme_desc(lang: Lang, name: &str) -> (r: &'static str)
    ensures
        r@ == theme_desc_spec(lang, name@),
{
    match find(&theme_desc_table(lang), name) {
        Some(d) => d,
        None => {
            proof {
                reveal_strlit("");
            }
            ""
        },
    }
}

/// `plugin_title` in each language.
pub open spec fn plugin_title_spec(lang: Lang) -> Seq<char> {
    match lang {
        Lang::Chinese => "Oh My Zsh — 选择插件 (Space 切换)"@,
        Lang::English => "Oh My Zsh — Select Plugins (Space to toggle)"@,
    }
}

pub fn plugin_title(lang: Lang) -> (r: &'static str)
    ensures
        r@ == plugin_title_spec(lang),
{
    match lang {
        Lang::Chinese => "Oh My Zsh — 选择插件 (Space 切换)",
        Lang::English => "Oh My Zsh — Select Plugins (Space to toggle)",
    }
}

/// The table behind `plugin_kind`, in each language.
pub open spec fn plugin_kind_table_spec(lang: Lang) -> Seq<(Seq<char>, Seq<char>)> {
    match lang {
        Lang::Chinese => seq![("内置"@, "内置"@), ("第三方"@, "第三方"@)],
        Lang::English => seq![("内置"@, "builtin"@), ("第三方"@, "3rd-party"@)],
    }
}

fn plugin_kind_table(lang: Lang) -> (r: Vec<(&'static str, &'static str)>)
    ensures
        pairs_of(r@) == plugin_kind_table_spec(lang),
{
    let mut v: Vec<(&'static str, &'static str)> = Vec::new();
    match lang {
        Lang::Chinese => {
            v.push(("内置", "内置"));
            v.push(("第三方", "第三方"));
        },
        Lang::English => {
            v.push(("内置", "builtin"));
            v.push(("第三方", "3rd-party"));
        },
    }
    assert(pairs_of(v@) =~= plugin_kind_table_spec(lang));
    v
}

/// `plugin_kind`: the text for a name of the list, the name itself for any
/// other.
pub open spec fn plugin_kind_spec(lang: Lang, kind: Seq<char>) -> Seq<char> {
    match lookup(plugin_kind_table_spec(lang), kind) {
        Some(d) => d,
        None => kind,
    }
}

pub fn plugin_kind(lang: Lang, kind: &str) -> (r: String)
    ensures
        r@ == plugin_kind_spec(lang, kind@),
{
    match find(&plugin_kind_table(lang), kind) {
        Some(d) => owned(d),
        None => owned(kind),
    }
}

/// The table behind `plugin_desc`, in each language.
pub open spec fn plugin_desc_table_spec(lang: Lang) -> Seq<(Seq<char>, Seq<char>)> {
    match lang {
        Lang::Chinese => seq![("git"@, "Git 别名和补全"@), ("zsh-autosuggestions"@, "根据历史记录自动建议补全"@), ("zsh-syntax-highlighting"@, "命令语法高亮"@), ("docker"@, "Docker 命令补全"@), ("docker-compose"@, "Docker Compose 命令补全"@), ("kubectl"@, "Kubernetes 命令补全"@), ("sudo"@, "双击 ESC 自动添加 sudo"@), ("extract"@, "统一解压命令 extract"@), ("colorize"@, "彩色输出增强"@), ("copypath"@, "复制当前路径到剪贴板"@), ("z"@, "快速跳转常用目录"@), ("fzf"@, "模糊搜索增强 (需安装 fzf)"@), ("zsh-completions"@, "额外的补全定义"@), ("you-should-use"@, "提示你有可用的别名"@)],
        Lang::English => seq![("git"@, "Git aliases and completions"@), ("zsh-autosuggestions"@, "Auto-suggest completions from history"@), ("zsh-syntax-highlighting"@, "Command syntax highlighting"@), ("docker"@, "Docker command completions"@), ("docker-compose"@, "Docker Compose command completions"@), ("kubectl"@, "Kubernetes command completions"@), ("sudo"@, "Double-ESC to prepend sudo"@), ("extract"@, "Universal extract command"@), ("colorize"@, "Colorized output enhancement"@), ("copypath"@, "Copy current path to clipboard"@), ("z"@, "Quick jump to frequent directories"@), ("fzf"@, "Fuzzy search enhancement (requires fzf)"@), ("zsh-completions"@, "Additional completion definitions"@), ("you-should-use"@, "Notify you about available aliases"@)],
    }
}

fn plugin_desc_table(lang: Lang) -> (r: Vec<(&'static str, &'static str)>)
    ensures
        pairs_of(r@) == plugin_desc_table_spec(lang),
{
    let mut v: Vec<(&'static str, &'static str)> = Vec::new();
    match lang {
        Lang::Chinese => {
            v.push(("git", "Git 别名和补全"));
            v.push(("zsh-autosuggestions", "根据历史记录自动建议补全"));
            v.push(("zsh-syntax-highlighting", "命令语法高亮"));
            v.push(("docker", "Docker 命令补全"));
            v.push(("docker-compose", "Docker Compose 命令补全"));
            v.push(("kubectl", "Kubernetes 命令补全"));
            v.push(("sudo", "双击 ESC 自动添加 sudo"));
            v.push(("extract", "统一解压命令 extract"));
            v.push(("colorize", "彩色输出增强"));
            v.push(("copypath", "复制当前路径到剪贴板"));
            v.push(("z", "快速跳转常用目录"));
            v.push(("fzf", "模糊搜索增强 (需安装 fzf)"));
            v.push(("zsh-completions", "额外的补全定义"));
            v.push(("you-should-use", "提示你有可用的别名"));
        },
        Lang::English => {
            v.push(("git", "Git aliases and completions"));
            v.push(("zsh-autosuggestions", "Auto-suggest completions from history"));
            v.push(("zsh-syntax-highlighting", "Command syntax highlighting"));
            v.push(("docker", "Docker command completions"));
            v.push(("docker-compose", "Docker Compose command completions"));
            v.push(("kubectl", "Kubernetes command completions"));
            v.push(("sudo", "Double-ESC to prepend sudo"));
            v.push(("extract", "Universal extract command"));
            v.push(("colorize", "Colorized output enhancement"));
            v.push(("copypath", "Copy current path to clipboard"));
            v.push(("z", "Quick jump to frequent directories"));
            v.push(("fzf", "Fuzzy search enhancement (requires fzf)"));
            v.push(("zsh-completions", "Additional completion definitions"));
            v.push(("you-should-use", "Notify you about available aliases"));
        },
    }
    assert(pairs_of(v@) =~= plugin_desc_table_spec(lang));
    v
}

/// `plugin_desc`: the text for a name of the list, empty for any other.
pub open spec fn plugin_desc_spec(lang: Lang, name: Seq<char>) -> Seq<char> {
    match lookup(plugin_desc_table_spec(lang), name) {
        Some(d) => d,
        None => Seq::empty(),
    }
}

pub fn plugin_desc(lang: Lang, name: &str) -> (r: &'static str)
    ensures
        r@ == plugin_desc_spec(lang, name@),
{
    match find(&plugin_desc_table(lang), name) {
        Some(d) => d,
        None => {
            proof {
                reveal_strlit("");
            }
            ""
        },
    }
}

/// `docker_title` in each language.
pub open spec fn docker_title_spec(lang: Lang) -> Seq<char> {
    match lang {
        Lang::Chinese => "Docker 安装与配置"@,
        Lang::English => "Docker Setup"@,
    }
}

pub fn docker_title(lang: Lang) -> (r: &'static str)
    ensures
        r@ == docker_title_spec(lang),
{
    match lang {
        Lang::Chinese => "Docker 安装与配置",
        Lang::English => "Docker Setup",
    }
}

/// `docker_menu`: entries and descriptions, in each language.
pub open spec fn docker_menu_spec(lang: Lang) -> Seq<(Seq<char>, Seq<char>)> {
    match lang {
        Lang::Chinese => seq![("安装 Docker"@, "安装 Docker 引擎"@), ("安装 Docker Compose"@, "安装 Docker Compose 插件"@), ("配置非 root 用户"@, "将当前用户加入 docker 组"@), ("启动 Docker 服务"@, "启用并启动 docker.service"@), ("🗑️ 清除 Docker 配置"@, "停止服务并卸载 Docker"@)],
        Lang::English => seq![("Install Docker"@, "Install Docker engine"@), ("Install Docker Compose"@, "Install Docker Compose plugin"@), ("Configure non-root"@, "Add current user to docker group"@), ("Start Docker Service"@, "Enable and start docker.service"@), ("🗑️ Clear Docker"@, "Stop the service and uninstall Docker"@)],
    }
}

pub fn docker_menu(lang: Lang) -> (r: Vec<(&'static str, &'static str)>)
    ensures
        pairs_of(r@) == docker_menu_spec(lang),
{
    let mut v: Vec<(&'static str, &'static str)> = Vec::new();
    match lang {
        Lang::Chinese => {
            v.push(("安装 Docker", "安装 Docker 引擎"));
            v.push(("安装 Docker Compose", "安装 Docker Compose 插件"));
            v.push(("配置非 root 用户", "将当前用户加入 docker 组"));
            v.push(("启动 Docker 服务", "启用并启动 docker.service"));
            v.push(("🗑️ 清除 Docker 配置", "停止服务并卸载 Docker"));
        },
        Lang::English => {
            v.push(("Install Docker", "Install Docker engine"));
            v.push(("Install Docker Compose", "Install Docker Compose plugin"));
            v.push(("Configure non-root", "Add current user to docker group"));
            v.push(("Start Docker Service", "Enable and start docker.service"));
            v.push(("🗑️ Clear Docker", "Stop the service and uninstall Docker"));
        },
    }
    assert(pairs_of(v@) =~= docker_menu_spec(lang));
    v
}

/// `ssh_title` in each language.
pub open spec fn ssh_title_spec(lang: Lang) -> Seq<char> {
    match lang {
        Lang::Chinese => "SSH Key 生成"@,
        Lang::English => "SSH Key Generation"@,
    }
}

pub fn ssh_title(lang: Lang) -> (r: &'static str)
    ensures
        r@ == ssh_title_spec(lang),
{
    match lang {
        Lang::Chinese => "SSH Key 生成",
        Lang::English => "SSH Key Generation",
    }
}

/// `ssh_pubkey_title` in each language.
pub open spec fn ssh_pubkey_title_spec(lang: Lang) -> Seq<char> {
    match lang {
        Lang::Chinese => " 公钥 (Esc 关闭) "@,
        Lang::English => " Public Key (Esc to close) "@,
    }
}

pub fn ssh_pubkey_title(lang: Lang) -> (r: &'static str)
    ensures
        r@ == ssh_pubkey_title_spec(lang),
{
    match lang {
        Lang::Chinese => " 公钥 (Esc 关闭) ",
        Lang::English => " Public Key (Esc to close) ",
    }
}

/// `ssh_menu`: entries and descriptions, in each language.
pub open spec fn ssh_menu_spec(lang: Lang) -> Seq<(Seq<char>, Seq<char>)> {
    match lang {
        Lang::Chinese => seq![("生成 Ed25519 密钥"@, "推荐 - 更安全、更快"@), ("生成 RSA 4096 密钥"@, "兼容性最好"@), ("查看已有公钥"@, "显示当前公钥内容"@), ("🗑️ 清除已有密钥"@, "删除 Ed25519 和 RSA 密钥对"@)],
        Lang::English => seq![("Generate Ed25519 Key"@, "Recommended - more secure and faster"@), ("Generate RSA 4096 Key"@, "Best compatibility"@), ("View Existing Key"@, "Show current public key"@), ("🗑️ Clear Keys"@, "Delete the Ed25519 and RSA key pairs"@)],
    }
}

pub fn ssh_menu(lang: Lang) -> (r: Vec<(&'static str, &'static str)>)
    ensures
        pairs_of(r@) == ssh_menu_spec(lang),
{
    let mut v: Vec<(&'static str, &'static str)> = Vec::new();
    match lang {
        Lang::Chinese => {
            v.push(("生成 Ed25519 密钥", "推荐 - 更安全、更快"));
            v.push(("生成 RSA 4096 密钥", "兼容性最好"));
            v.push(("查看已有公钥", "显示当前公钥内容"));
            v.push(("🗑️ 清除已有密钥", "删除 Ed25519 和 RSA 密钥对"));
        },
        Lang::English => {
            v.push(("Generate Ed25519 Key", "Recommended - more secure and faster"));
            v.push(("Generate RSA 4096 Key", "Best compatibility"));
            v.push(("View Existing Key", "Show current public key"));
            v.push(("🗑️ Clear Keys", "Delete the Ed25519 and RSA key pairs"));
        },
    }
    assert(pairs_of(v@) =~= ssh_menu_spec(lang));
    v
}

/// `tools_title` in each language.
pub open spec fn tools_title_spec(lang: Lang) -> Seq<char> {
    match lang {
        Lang::Chinese => "基础工具安装 (Space 切换, a 全选)"@,
        Lang::English => "Basic Tools (Space to toggle, a to select all)"@,
    }
}

pub fn tools_title(lang: Lang) -> (r: &'static str)
    ensures
        r@ == tools_title_spec(lang),
{
    match lang {
        Lang::Chinese => "基础工具安装 (Space 切换, a 全选)",
        Lang::English => "Basic Tools (Space to toggle, a to select all)",
    }
}

/// The table behind `tool_category`, in each language.
pub open spec fn tool_category_table_spec(lang: Lang) -> Seq<(Seq<char>, Seq<char>)> {
    match lang {
        Lang::Chinese => seq![("开发工具"@, "开发工具"@), ("系统工具"@, "系统工具"@), ("CLI 增强"@, "CLI 增强"@)],
        Lang::English => seq![("开发工具"@, "dev"@), ("系统工具"@, "system"@), ("CLI 增强"@, "CLI"@)],
    }
}

fn tool_category_table(lang: Lang) -> (r: Vec<(&'static str, &'static str)>)
    ensures
        pairs_of(r@) == tool_category_table_spec(lang),
{
    let mut v: Vec<(&'static str, &'static str)> = Vec::new();
    match lang {
        Lang::Chinese => {
            v.push(("开发工具", "开发工具"));
            v.push(("系统工具", "系统工具"));
            v.push(("CLI 增强", "CLI 增强"));
        },
        Lang::English => {
            v.push(("开发工具", "dev"));
            v.push(("系统工具", "system"));
            v.push(("CLI 增强", "CLI"));
        },
    }
    assert(pairs_of(v@) =~= tool_category_table_spec(lang));
    v
}

/// `tool_category`: the text for a name of the list, the name itself for any
/// other.
pub open spec fn tool_category_spec(lang: Lang, cat: Seq<char>) -> Seq<char> {
    match lookup(tool_category_table_spec(lang), cat) {
        Some(d) => d,
        None => cat,
    }
}

pub fn tool_category(lang: Lang, cat: &str) -> (r: String)
    ensures
        r@ == tool_category_spec(lang, cat@),
{
    match find(&tool_category_table(lang), cat) {
        Some(d) => owned(d),
        None => owned(cat),
    }
}

/// The table behind `tool_desc`, in each language.
pub open spec fn tool_desc_table_spec(lang: Lang) -> Seq<(Seq<char>, Seq<char>)> {
    match lang {
        Lang::Chinese => seq![("git"@, "版本控制系统"@), ("curl"@, "HTTP 客户端工具"@), ("wget"@, "文件下载工具"@), ("btop"@, "现代化系统资源监控工具"@), ("neovim"@, "现代化 Vim 编辑器"@), ("tmux"@, "终端复用器"@), ("jq"@, "JSON 处理器"@), ("ripgrep"@, "超快速搜索工具 (rg)"@), ("fd"@, "更友好的 find 替代"@), ("bat"@, "带语法高亮的 cat 替代"@), ("eza"@, "现代化的 ls 替代"@), ("htop"@, "交互式进程管理器"@), ("direnv"@, "按目录自动加载环境变量"@), ("dust"@, "更直观的 du 替代"@), ("duf"@, "更友好的 df 替代"@), ("procs"@, "现代化的 ps 替代"@), ("zoxide"@, "更智能的 cd 替代"@), ("fzf"@, "命令行模糊搜索工具"@)],
        Lang::English => seq![("git"@, "Version control system"@), ("curl"@, "HTTP client tool"@), ("wget"@, "File download tool"@), ("btop"@, "Modern system resource monitor"@), ("neovim"@, "Modern Vim editor"@), ("tmux"@, "Terminal multiplexer"@), ("jq"@, "JSON processor"@), ("ripgrep"@, "Ultra-fast search tool (rg)"@), ("fd"@, "User-friendly find alternative"@), ("bat"@, "Cat clone with syntax highlighting"@), ("eza"@, "Modern ls replacement"@), ("htop"@, "Interactive process viewer"@), ("direnv"@, "Per-directory environment variables"@), ("dust"@, "More intuitive du alternative"@), ("duf"@, "User-friendly df alternative"@), ("procs"@, "Modern ps replacement"@), ("zoxide"@, "Smarter cd command"@), ("fzf"@, "Command-line fuzzy finder"@)],
    }
}

fn tool_desc_table(lang: Lang) -> (r: Vec<(&'static str, &'static str)>)
    ensures
        pairs_of(r@) == tool_desc_table_spec(lang),
{
    let mut v: Vec<(&'static str, &'static str)> = Vec::new();
    match lang {
        Lang::Chinese => {
            v.push(("git", "版本控制系统"));
            v.push(("curl", "HTTP 客户端工具"));
            v.push(("wget", "文件下载工具"));
            v.push(("btop", "现代化系统资源监控工具"));
            v.push(("neovim", "现代化 Vim 编辑器"));
            v.push(("tmux", "终端复用器"));
            v.push(("jq", "JSON 处理器"));
            v.push(("ripgrep", "超快速搜索工具 (rg)"));
            v.push(("fd", "更友好的 find 替代"));
            v.push(("bat", "带语法高亮的 cat 替代"));
            v.push(("eza", "现代化的 ls 替代"));
            v.push(("htop", "交互式进程管理器"));
            v.push(("direnv", "按目录自动加载环境变量"));
            v.push(("dust", "更直观的 du 替代"));
            v.push(("duf", "更友好的 df 替代"));
            v.push(("procs", "现代化的 ps 替代"));
            v.push(("zoxide", "更智能的 cd 替代"));
            v.push(("fzf", "命令行模糊搜索工具"));
        },
        Lang::English => {
            v.push(("git", "Version control system"));
            v.push(("curl", "HTTP client tool"));
            v.push(("wget", "File download tool"));
            v.push(("btop", "Modern system resource monitor"));
            v.push(("neovim", "Modern Vim editor"));
            v.push(("tmux", "Terminal multiplexer"));
            v.push(("jq", "JSON processor"));
            v.push(("ripgrep", "Ultra-fast search tool (rg)"));
            v.push(("fd", "User-friendly find alternative"));
            v.push(("bat", "Cat clone with syntax highlighting"));
            v.push(("eza", "Modern ls replacement"));
            v.push(("htop", "Interactive process viewer"));
            v.push(("direnv", "Per-directory environment variables"));
            v.push(("dust", "More intuitive du alternative"));
            v.push(("duf", "User-friendly df alternative"));
            v.push(("procs", "Modern ps replacement"));
            v.push(("zoxide", "Smarter cd command"));
            v.push(("fzf", "Command-line fuzzy finder"));
        },
    }
    assert(pairs_of(v@) =~= tool_desc_table_spec(lang));
    v
}

/// `tool_desc`: the text for a name of the list, empty for any other.
pub open spec fn tool_desc_spec(lang: Lang, name: Seq<char>) -> Seq<char> {
    match lookup(tool_desc_table_spec(lang), name) {
        Some(d) => d,
        None => Seq::empty(),
    }
}

pub fn tool_desc(lang: Lang, name: &str) -> (r: &'static str)
    ensures
        r@ == tool_desc_spec(lang, name@),
{
    match find(&tool_desc_table(lang), name) {
        Some(d) => d,
        None => {
            proof {
                reveal_strlit("");
            }
            ""
        },
    }
}

/// `ssh_server_title` in each language.
pub open spec fn ssh_server_title_spec(lang: Lang) -> Seq<char> {
    match lang {
        Lang::Chinese => "SSH 服务配置"@,
        Lang::English => "SSH Server Configuration"@,
    }
}

pub fn ssh_server_title(lang: Lang) -> (r: &'static str)
    ensures
        r@ == ssh_server_title_spec(lang),
{
    match lang {
        Lang::Chinese => "SSH 服务配置",
        Lang::English => "SSH Server Configuration",
    }
}

/// `ssh_server_menu`: entries and descriptions, in each language.
pub open spec fn ssh_server_menu_spec(lang: Lang) -> Seq<(Seq<char>, Seq<char>)> {
    match lang {
        Lang::Chinese => seq![("安装 OpenSSH Server"@, "安装 sshd 服务端"@), ("配置安全选项"@, "禁止 root 远程登录"@), ("启动 SSH 服务"@, "启用并启动 sshd 服务"@), ("🗑️ 清除 SSH 服务"@, "停止并卸载 sshd"@)],
        Lang::English => seq![("Install OpenSSH Server"@, "Install sshd server"@), ("Configure Security"@, "Disable root remote login"@), ("Start SSH Service"@, "Enable and start sshd service"@), ("🗑️ Clear SSH Server"@, "Stop and uninstall sshd"@)],
    }
}

pub fn ssh_server_menu(lang: Lang) -> (r: Vec<(&'static str, &'static str)>)
    ensures
        pairs_of(r@) == ssh_server_menu_spec(lang),
{
    let mut v: Vec<(&'static str, &'static str)> = Vec::new();
    match lang {
        Lang::Chinese => {
            v.push(("安装 OpenSSH Server", "安装 sshd 服务端"));
            v.push(("配置安全选项", "禁止 root 远程登录"));
            v.push(("启动 SSH 服务", "启用并启动 sshd 服务"));
            v.push(("🗑️ 清除 SSH 服务", "停止并卸载 sshd"));
        },
        Lang::English => {
            v.push(("Install OpenSSH Server", "Install sshd server"));
            v.push(("Configure Security", "Disable root remote login"));
            v.push(("Start SSH Service", "Enable and start sshd service"));
            v.push(("🗑️ Clear SSH Server", "Stop and uninstall sshd"));
        },
    }
    assert(pairs_of(v@) =~= ssh_server_menu_spec(lang));
    v
}

/// `vim_title` in each language.
pub open spec fn vim_title_spec(lang: Lang) -> Seq<char> {
    match lang {
        Lang::Chinese => "Vim 配置"@,
        Lang::English => "Vim Configuration"@,
    }
}

pub fn vim_title(lang: Lang) -> (r: &'static str)
    ensures
        r@ == vim_title_spec(lang),
{
    match lang {
        Lang::Chinese => "Vim 配置",
        Lang::English => "Vim Configuration",
    }
}

/// `vim_plugin_title` in each language.
pub open spec fn vim_plugin_title_spec(lang: Lang) -> Seq<char> {
    match lang {
        Lang::Chinese => "Vim 插件选择 (Space 切换)"@,
        Lang::English => "Vim Plugins (Space to toggle)"@,
    }
}

pub fn vim_plugin_title(lang: Lang) -> (r: &'static str)
    ensures
        r@ == vim_plugin_title_spec(lang),
{
    match lang {
        Lang::Chinese => "Vim 插件选择 (Space 切换)",
        Lang::English => "Vim Plugins (Space to toggle)",
    }
}

/// The Vim page: entries and descriptions, in each language.
pub open spec fn vim_menu_spec(lang: Lang) -> Seq<(Seq<char>, Seq<char>)> {
    match lang {
        Lang::Chinese => seq![("安装 Vim"@, "终端文本编辑器"@), ("安装 Vundle"@, "Vim 插件管理器"@), ("选择插件"@, "选择要安装的 Vim 插件"@), ("🗑️ 清除 Vim 配置"@, "卸载 Vim"@)],
        Lang::English => seq![("Install Vim"@, "Terminal text editor"@), ("Install Vundle"@, "Vim plugin manager"@), ("Select Plugins"@, "Choose Vim plugins to install"@), ("🗑️ Clear Vim"@, "Uninstall Vim"@)],
    }
}

/// The contents of a list of string pairs.
pub open spec fn string_pairs(v: Seq<(String, String)>) -> Seq<(Seq<char>, Seq<char>)> {
    v.map_values(|p: (String, String)| (p.0@, p.1@))
}

pub fn vim_menu(lang: Lang) -> (r: Vec<(String, String)>)
    ensures
        string_pairs(r@) == vim_menu_spec(lang),
{
    let mut v: Vec<(String, String)> = Vec::new();
    match lang {
        Lang::Chinese => {
            v.push((owned("安装 Vim"), owned("终端文本编辑器")));
            v.push((owned("安装 Vundle"), owned("Vim 插件管理器")));
            v.push((owned("选择插件"), owned("选择要安装的 Vim 插件")));
            v.push((owned("🗑️ 清除 Vim 配置"), owned("卸载 Vim")));
        },
        Lang::English => {
            v.push((owned("Install Vim"), owned("Terminal text editor")));
            v.push((owned("Install Vundle"), owned("Vim plugin manager")));
            v.push((owned("Select Plugins"), owned("Choose Vim plugins to install")));
            v.push((owned("🗑️ Clear Vim"), owned("Uninstall Vim")));
        },
    }
    assert(string_pairs(v@) =~= vim_menu_spec(lang));
    v
}

/// The table behind `vim_plugin_desc`, in each language.
pub open spec fn vim_plugin_desc_table_spec(lang: Lang) -> Seq<(Seq<char>, Seq<char>)> {
    match lang {
        Lang::Chinese => seq![("nerdtree"@, "侧边栏文件浏览器，可视化管理目录结构"@), ("vim-airline"@, "底部状态栏美化，显示行号、模式、分支等信息"@), ("vim-fugitive"@, "在 Vim 内使用 Git 命令，查看状态、diff、blame"@), ("nerdcommenter"@, "快速注释/取消注释代码块 (gcc 注释当前行)"@), ("vim-surround"@, "快速增删改括号/引号 (cs\"' 把双引号换单引号)"@), ("vim-commentary"@, "轻量注释插件 (gc 注释选中区域)"@), ("auto-pairs"@, "自动补全成对括号和引号"@), ("vim-gitgutter"@, "在行号区显示 Git 修改标记 (+/-/~)"@), ("vim-easymotion"@, "高效光标跳转，按前缀字符快速定位到任意位置"@), ("ctrlp.vim"@, "模糊搜索文件 (Ctrl+P 快速打开文件)"@), ("vim-markdown"@, "Markdown 语法高亮和折叠"@), ("tagbar"@, "侧边栏显示代码结构/函数列表 (需 ctags)"@)],
        Lang::English => seq![("nerdtree"@, "Sidebar file explorer for directory navigation"@), ("vim-airline"@, "Beautified status/tabline with mode, branch info"@), ("vim-fugitive"@, "Git wrapper - status, diff, blame inside Vim"@), ("nerdcommenter"@, "Quickly comment/uncomment code blocks (gcc)"@), ("vim-surround"@, "Add/change/delete surrounding brackets/quotes"@), ("vim-commentary"@, "Lightweight comment toggle (gc on selection)"@), ("auto-pairs"@, "Auto-insert paired brackets and quotes"@), ("vim-gitgutter"@, "Show Git diff markers in gutter (+/-/~)"@), ("vim-easymotion"@, "Fast cursor jump with leader + character prefix"@), ("ctrlp.vim"@, "Fuzzy file finder (Ctrl+P to open files)"@), ("vim-markdown"@, "Markdown syntax highlighting and folding"@), ("tagbar"@, "Sidebar code structure/function list (needs ctags)"@)],
    }
}

fn vim_plugin_desc_table(lang: Lang) -> (r: Vec<(&'static str, &'static str)>)
    ensures
        pairs_of(r@) == vim_plugin_desc_table_spec(lang),
{
    let mut v: Vec<(&'static str, &'static str)> = Vec::new();
    match lang {
        Lang::Chinese => {
            v.push(("nerdtree", "侧边栏文件浏览器，可视化管理目录结构"));
            v.push(("vim-airline", "底部状态栏美化，显示行号、模式、分支等信息"));
            v.push(("vim-fugitive", "在 Vim 内使用 Git 命令，查看状态、diff、blame"));
            v.push(("nerdcommenter", "快速注释/取消注释代码块 (gcc 注释当前行)"));
            v.push(("vim-surround", "快速增删改括号/引号 (cs\"' 把双引号换单引号)"));
            v.push(("vim-commentary", "轻量注释插件 (gc 注释选中区域)"));
            v.push(("auto-pairs", "自动补全成对括号和引号"));
            v.push(("vim-gitgutter", "在行号区显示 Git 修改标记 (+/-/~)"));
            v.push(("vim-easymotion", "高效光标跳转，按前缀字符快速定位到任意位置"));
            v.push(("ctrlp.vim", "模糊搜索文件 (Ctrl+P 快速打开文件)"));
            v.push(("vim-markdown", "Markdown 语法高亮和折叠"));
            v.push(("tagbar", "侧边栏显示代码结构/函数列表 (需 ctags)"));
        },
        Lang::English => {
            v.push(("nerdtree", "Sidebar file explorer for directory navigation"));
            v.push(("vim-airline", "Beautified status/tabline with mode, branch info"));
            v.push(("vim-fugitive", "Git wrapper - status, diff, blame inside Vim"));
            v.push(("nerdcommenter", "Quickly comment/uncomment code blocks (gcc)"));
            v.push(("vim-surround", "Add/change/delete surrounding brackets/quotes"));
            v.push(("vim-commentary", "Lightweight comment toggle (gc on selection)"));
            v.push(("auto-pairs", "Auto-insert paired brackets and quotes"));
            v.push(("vim-gitgutter", "Show Git diff markers in gutter (+/-/~)"));
            v.push(("vim-easymotion", "Fast cursor jump with leader + character prefix"));
            v.push(("ctrlp.vim", "Fuzzy file finder (Ctrl+P to open files)"));
            v.push(("vim-markdown", "Markdown syntax highlighting and folding"));
            v.push(("tagbar", "Sidebar code structure/function list (needs ctags)"));
        },
    }
    assert(pairs_of(v@) =~= vim_plugin_desc_table_spec(lang));
    v
}

/// `vim_plugin_desc`: the text for a name of the list, empty for any other.
pub open spec fn vim_plugin_desc_spec(lang: Lang, name: Seq<char>) -> Seq<char> {
    match lookup(vim_plugin_desc_table_spec(lang), name) {
        Some(d) => d,
        None => Seq::empty(),
    }
}

pub fn vim_plugin_desc(lang: Lang, name: &str) -> (r: &'static str)
    ensures
        r@ == vim_plugin_desc_spec(lang, name@),
{
    match find(&vim_plugin_desc_table(lang), name) {
        Some(d) => d,
        None => {
            proof {
                reveal_strlit("");
            }
            ""
        },
    }
}

/// `locale_title` in each language.
pub open spec fn locale_title_spec(lang: Lang) -> Seq<char> {
    match lang {
        Lang::Chinese => "中文环境配置"@,
        Lang::English => "Chinese Environment Setup"@,
    }
}

pub fn locale_title(lang: Lang) -> (r: &'static str)
    ensures
        r@ == locale_title_spec(lang),
{
    match lang {
        Lang::Chinese => "中文环境配置",
        Lang::English => "Chinese Environment Setup",
    }
}

/// `locale_menu`: entries and descriptions, in each language.
pub open spec fn locale_menu_spec(lang: Lang) -> Seq<(Seq<char>, Seq<char>)> {
    match lang {
        Lang::Chinese => seq![("配置中文 locale"@, "生成 zh_CN.UTF-8 locale"@), ("安装中文字体"@, "安装 Noto CJK 字体"@), ("安装 Fcitx5 输入法"@, "安装 fcitx5 + 拼音输入法"@), ("🗑️ 清除中文配置"@, "卸载字体和输入法"@)],
        Lang::English => seq![("Configure Chinese Locale"@, "Generate zh_CN.UTF-8 locale"@), ("Install Chinese Fonts"@, "Install Noto CJK fonts"@), ("Install Fcitx5 Input"@, "Install fcitx5 + pinyin input method"@), ("🗑️ Clear Chinese Config"@, "Uninstall fonts and input method"@)],
    }
}

pub fn locale_menu(lang: Lang) -> (r: Vec<(&'static str, &'static str)>)
    ensures
        pairs_of(r@) == locale_menu_spec(lang),
{
    let mut v: Vec<(&'static str, &'static str)> = Vec::new();
    match lang {
        Lang::Chinese => {
            v.push(("配置中文 locale", "生成 zh_CN.UTF-8 locale"));
            v.push(("安装中文字体", "安装 Noto CJK 字体"));
            v.push(("安装 Fcitx5 输入法", "安装 fcitx5 + 拼音输入法"));
            v.push(("🗑️ 清除中文配置", "卸载字体和输入法"));
        },
        Lang::English => {
            v.push(("Configure Chinese Locale", "Generate zh_CN.UTF-8 locale"));
            v.push(("Install Chinese Fonts", "Install Noto CJK fonts"));
            v.push(("Install Fcitx5 Input", "Install fcitx5 + pinyin input method"));
            v.push(("🗑️ Clear Chinese Config", "Uninstall fonts and input method"));
        },
    }
    assert(pairs_of(v@) =~= locale_menu_spec(lang));
    v
}

/// The title of the language choice.
pub fn lang_select_title() -> (r: &'static str)
    ensures
        r@ == "Select Language / 选择语言"@,
{
    "Select Language / 选择语言"
}

/// `statusbar_nav` in each language.
pub open spec fn statusbar_nav_spec(lang: Lang) -> Seq<char> {
    match lang {
        Lang::Chinese => "↑↓ 导航  Enter 选择  Esc 返回  q 退出"@,
        Lang::English => "↑↓ nav  Enter select  Esc back  q quit"@,
    }
}

pub fn statusbar_nav(lang: Lang) -> (r: &'static str)
    ensures
        r@ == statusbar_nav_spec(lang),
{
    match lang {
        Lang::Chinese => "↑↓ 导航  Enter 选择  Esc 返回  q 退出",
        Lang::English => "↑↓ nav  Enter select  Esc back  q quit",
    }
}

/// `statusbar_main` in each language.
pub open spec fn statusbar_main_spec(lang: Lang) -> Seq<char> {
    match lang {
        Lang::Chinese => "↑↓ 导航  Enter 选择  q 退出"@,
        Lang::English => "↑↓ nav  Enter select  q quit"@,
    }
}

pub fn statusbar_main(lang: Lang) -> (r: &'static str)
    ensures
        r@ == statusbar_main_spec(lang),
{
    match lang {
        Lang::Chinese => "↑↓ 导航  Enter 选择  q 退出",
        Lang::English => "↑↓ nav  Enter select  q quit",
    }
}

/// `statusbar_multi` in each language.
pub open spec fn statusbar_multi_spec(lang: Lang) -> Seq<char> {
    match lang {
        Lang::Chinese => "↑↓ 导航  Space 切换  Enter 确认  Esc 返回"@,
        Lang::English => "↑↓ nav  Space toggle  Enter confirm  Esc back"@,
    }
}

pub fn statusbar_multi(lang: Lang) -> (r: &'static str)
    ensures
        r@ == statusbar_multi_spec(lang),
{
    match lang {
        Lang::Chinese => "↑↓ 导航  Space 切换  Enter 确认  Esc 返回",
        Lang::English => "↑↓ nav  Space toggle  Enter confirm  Esc back",
    }
}

/// `statusbar_tools` in each language.
pub open spec fn statusbar_tools_spec(lang: Lang) -> Seq<char> {
    match lang {
        Lang::Chinese => "↑↓ 导航  Space 切换  a 全选  Enter 安装  Esc 返回"@,
        Lang::English => "↑↓ nav  Space toggle  a select all  Enter install  Esc back"@,
    }
}

pub fn statusbar_tools(lang: Lang) -> (r: &'static str)
    ensures
        r@ == statusbar_tools_spec(lang),
{
    match lang {
        Lang::Chinese => "↑↓ 导航  Space 切换  a 全选  Enter 安装  Esc 返回",
        Lang::English => "↑↓ nav  Space toggle  a select all  Enter install  Esc back",
    }
}

/// `statusbar_status` in each language.
pub open spec fn statusbar_status_spec(lang: Lang) -> Seq<char> {
    match lang {
        Lang::Chinese => "↑↓ 滚动  Esc 返回"@,
        Lang::English => "↑↓ scroll  Esc back"@,
    }
}

pub fn statusbar_status(lang: Lang) -> (r: &'static str)
    ensures
        r@ == statusbar_status_spec(lang),
{
    match lang {
        Lang::Chinese => "↑↓ 滚动  Esc 返回",
        Lang::English => "↑↓ scroll  Esc back",
    }
}

/// `msg_press_esc` in each language.
pub open spec fn msg_press_esc_spec(lang: Lang) -> Seq<char> {
    match lang {
        Lang::Chinese => "按 Esc 返回主菜单"@,
        Lang::English => "Press Esc to return to main menu"@,
    }
}

pub fn msg_press_esc(lang: Lang) -> (r: &'static str)
    ensures
        r@ == msg_press_esc_spec(lang),
{
    match lang {
        Lang::Chinese => "按 Esc 返回主菜单",
        Lang::English => "Press Esc to return to main menu",
    }
}

/// The status while something is installed.
pub open spec fn msg_installing_spec(lang: Lang, name: Seq<char>) -> Seq<char> {
    match lang {
        Lang::Chinese => "正在安装 "@ + name + "..."@,
        Lang::English => "Installing "@ + name + "..."@,
    }
}

pub fn msg_installing(lang: Lang, name: &str) -> (r: String)
    ensures
        r@ == msg_installing_spec(lang, name@),
{
    match lang {
        Lang::Chinese => owned("正在安装 ").concat(name).concat("..."),
        Lang::English => owned("Installing ").concat(name).concat("..."),
    }
}

/// The status after something was installed.
pub open spec fn msg_success_spec(lang: Lang, name: Seq<char>) -> Seq<char> {
    match lang {
        Lang::Chinese => "✅ "@ + name + " 安装成功"@,
        Lang::English => "✅ "@ + name + " installed successfully"@,
    }
}

pub fn msg_success(lang: Lang, name: &str) -> (r: String)
    ensures
        r@ == msg_success_spec(lang, name@),
{
    match lang {
        Lang::Chinese => owned("✅ ").concat(name).concat(" 安装成功"),
        Lang::English => owned("✅ ").concat(name).concat(" installed successfully"),
    }
}

/// The status after an install failed.
pub open spec fn msg_fail_spec(lang: Lang, name: Seq<char>, err: Seq<char>) -> Seq<char> {
    match lang {
        Lang::Chinese => "❌ "@ + name + " 安装失败: "@ + err,
        Lang::English => "❌ "@ + name + " failed: "@ + err,
    }
}

pub fn msg_fail(lang: Lang, name: &str, err: &str) -> (r: String)
    ensures
        r@ == msg_fail_spec(lang, name@, err@),
{
    match lang {
        Lang::Chinese => owned("❌ ").concat(name).concat(" 安装失败: ").concat(err),
        Lang::English => owned("❌ ").concat(name).concat(" failed: ").concat(err),
    }
}

/// `nvm_title` in each language.
pub open spec fn nvm_title_spec(lang: Lang) -> Seq<char> {
    match lang {
        Lang::Chinese => "Node.js 环境 (nvm)"@,
        Lang::English => "Node.js Environment (nvm)"@,
    }
}

pub fn nvm_title(lang: Lang) -> (r: &'static str)
    ensures
        r@ == nvm_title_spec(lang),
{
    match lang {
        Lang::Chinese => "Node.js 环境 (nvm)",
        Lang::English => "Node.js Environment (nvm)",
    }
}

/// `nvm_menu`: entries and descriptions, in each language.
pub open spec fn nvm_menu_spec(lang: Lang) -> Seq<(Seq<char>, Seq<char>)> {
    match lang {
        Lang::Chinese => seq![("安装 nvm"@, "Node Version Manager，管理多版本 Node.js"@), ("安装 Node.js Latest"@, "安装最新版本的 Node.js"@), ("安装 Node.js LTS"@, "安装最新长期支持版本的 Node.js"@), ("配置 Shell 集成"@, "确保 .bashrc/.zshrc 中包含 nvm 加载脚本"@), ("🗑️ 清除 nvm"@, "删除 ~/.nvm"@)],
        Lang::English => seq![("Install nvm"@, "Node Version Manager - manage multiple Node.js versions"@), ("Install Node.js Latest"@, "Install the latest version of Node.js"@), ("Install Node.js LTS"@, "Install latest Long Term Support version of Node.js"@), ("Configure Shell Integration"@, "Ensure nvm load script is in .bashrc/.zshrc"@), ("🗑️ Clear nvm"@, "Delete ~/.nvm"@)],
    }
}

pub fn nvm_menu(lang: Lang) -> (r: Vec<(&'static str, &'static str)>)
    ensures
        pairs_of(r@) == nvm_menu_spec(lang),
{
    let mut v: Vec<(&'static str, &'static str)> = Vec::new();
    match lang {
        Lang::Chinese => {
            v.push(("安装 nvm", "Node Version Manager，管理多版本 Node.js"));
            v.push(("安装 Node.js Latest", "安装最新版本的 Node.js"));
            v.push(("安装 Node.js LTS", "安装最新长期支持版本的 Node.js"));
            v.push(("配置 Shell 集成", "确保 .bashrc/.zshrc 中包含 nvm 加载脚本"));
            v.push(("🗑️ 清除 nvm", "删除 ~/.nvm"));
        },
        Lang::English => {
            v.push(("Install nvm", "Node Version Manager - manage multiple Node.js versions"));
            v.push(("Install Node.js Latest", "Install the latest version of Node.js"));
            v.push(("Install Node.js LTS", "Install latest Long Term Support version of Node.js"));
            v.push(("Configure Shell Integration", "Ensure nvm load script is in .bashrc/.zshrc"));
            v.push(("🗑️ Clear nvm", "Delete ~/.nvm"));
        },
    }
    assert(pairs_of(v@) =~= nvm_menu_spec(lang));
    v
}

} // verus!
