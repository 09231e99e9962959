//! What each page shows: its rows (which one is under the cursor, the mark
//! before each, its texts), the key hints, and how result lines are
//! coloured. Drawing them is left to the terminal front end.
use vstd::prelude::*;
use vstd::string::*;
use crate::app::{
    docker_menu_items, docker_menu_items_spec, locale_menu_items, locale_menu_items_spec,
    main_menu_items, main_menu_items_spec, pairs_of, plugins, plugins_spec, ssh_menu_items,
    ssh_menu_items_spec, themes, themes_spec, tools, tools_spec, triples_of, App, AppV, PageV,
    Page,
};
use crate::modules::sources::{mirrors_view, recommend_index, recommend_of, system_mirrors, system_mirrors_spec};
use crate::text::{chars_of, decimal, starts_with, starts_with_str, str_eq, u64_text};
use crate::utils::{owned, strs};

verus! {

/// The mark before a row.
#[derive(PartialEq, Eq, Structural, Clone, Copy, Debug)]
pub enum Mark {
    /// No mark at all.
    Nothing,
    /// `✓ `: done.
    Done,
    /// Two spaces: not done.
    Blank,
    /// `● `: the option in use.
    Chosen,
    /// `○ `: another option.
    Unchosen,
    /// `■ `: selected.
    Checked,
    /// `■ `, in the warning colour: selected, not installed yet.
    Pending,
    /// `□ `: not selected.
    Unchecked,
}

/// A row of a list.
#[derive(Debug)]
pub struct Row {
    /// Under the cursor.
    pub current: bool,
    pub mark: Mark,
    pub name: String,
    /// A bracketed tag after the name, where the page has one.
    pub tag: Option<String>,
    /// The dimmed text after the name.
    pub detail: String,
}

/// A row, its texts as character sequences.
pub ghost struct RowV {
    pub current: bool,
    pub mark: Mark,
    pub name: Seq<char>,
    pub tag: Option<Seq<char>>,
    pub detail: Seq<char>,
}

impl View for Row {
    type V = RowV;

    open spec fn view(&self) -> RowV {
        RowV {
            current: self.current,
            mark: self.mark,
            name: self.name@,
            tag: match self.tag {
                Some(t) => Some(t@),
                None => None,
            },
            detail: self.detail@,
        }
    }
}

/// Rows, by their views.
pub open spec fn rows_view(v: Seq<Row>) -> Seq<RowV> {
    v.map_values(|r: Row| r@)
}

/// The contents of a list of string pairs.
pub open spec fn text_pairs(v: Seq<(String, String)>) -> Seq<(Seq<char>, Seq<char>)> {
    v.map_values(|p: (String, String)| (p.0@, p.1@))
}

/// A row of a plain list: `✓ ` where its status says done.
pub open spec fn list_row(items: Seq<(Seq<char>, Seq<char>)>, selected: usize, statuses: Seq<bool>, i: int) -> RowV {
    RowV {
        current: i == selected,
        mark: if i < statuses.len() && statuses[i] { Mark::Done } else { Mark::Blank },
        name: items[i].0,
        tag: None,
        detail: "  "@ + items[i].1,
    }
}

/// The rows of a plain list.
pub open spec fn list_rows(items: Seq<(Seq<char>, Seq<char>)>, selected: usize, statuses: Seq<bool>) -> Seq<RowV> {
    Seq::new(items.len(), |i: int| list_row(items, selected, statuses, i))
}

/// The rows of a plain list: entry and description, the mark from the
/// status at the same position (none where there is none).
pub fn make_list_items(items: &Vec<(String, String)>, selected: usize, statuses: &Vec<bool>) -> (r: Vec<Row>)
    ensures
        rows_view(r@) == list_rows(text_pairs(items@), selected, statuses@),
{
    let ghost its = text_pairs(items@);
    let mut r: Vec<Row> = Vec::new();
    let mut i: usize = 0;
    while i < items.len()
        invariant
            i <= items.len(),
            its == text_pairs(items@),
            r@.len() == i,
            forall|k: int| 0 <= k < i ==> r@[k]@ == list_row(its, selected, statuses@, k),
        decreases items.len() - i,
    {
        let done = i < statuses.len() && statuses[i];
        let row = Row {
            current: i == selected,
            mark: if done { Mark::Done } else { Mark::Blank },
            name: items[i].0.clone(),
            tag: None,
            detail: owned("  ").concat(items[i].1.as_str()),
        };
        r.push(row);
        i = i + 1;
    }
    assert(rows_view(r@) =~= list_rows(its, selected, statuses@));
    r
}

/// Static pairs as owned strings.
fn owned_pairs(v: &Vec<(&'static str, &'static str)>) -> (r: Vec<(String, String)>)
    ensures
        text_pairs(r@) == pairs_of(v@),
{
    let mut r: Vec<(String, String)> = Vec::new();
    let mut i: usize = 0;
    while i < v.len()
        invariant
            i <= v.len(),
            r@.len() == i,
            forall|k: int| 0 <= k < i ==> r@[k].0@ == v@[k].0@ && r@[k].1@ == v@[k].1@,
        decreases v.len() - i,
    {
        r.push((owned(v[i].0), owned(v[i].1)));
        i = i + 1;
    }
    assert(text_pairs(r@) =~= pairs_of(v@));
    r
}

/// A row of the main menu: no mark, the description after a dash.
pub open spec fn menu_row(selected: usize, i: int) -> RowV {
    RowV {
        current: i == selected,
        mark: Mark::Nothing,
        name: main_menu_items_spec()[i].0,
        tag: None,
        detail: "  — "@ + main_menu_items_spec()[i].1,
    }
}

/// The rows of the main menu.
pub fn main_menu_rows(app: &App) -> (r: Vec<Row>)
    ensures
        rows_view(r@) == Seq::new(main_menu_items_spec().len(), |i: int| menu_row(app.menu_index, i)),
{
    let items = main_menu_items();
    let mut r: Vec<Row> = Vec::new();
    let mut i: usize = 0;
    while i < items.len()
        invariant
            i <= items.len(),
            pairs_of(items@) == main_menu_items_spec(),
            r@.len() == i,
            forall|k: int| 0 <= k < i ==> r@[k]@ == menu_row(app.menu_index, k),
        decreases items.len() - i,
    {
        assert(items@[i as int].0@ == main_menu_items_spec()[i as int].0);
        assert(items@[i as int].1@ == main_menu_items_spec()[i as int].1);
        r.push(Row {
            current: i == app.menu_index,
            mark: Mark::Nothing,
            name: owned(items[i].0),
            tag: None,
            detail: owned("  — ").concat(items[i].1),
        });
        i = i + 1;
    }
    assert(rows_view(r@) =~= Seq::new(main_menu_items_spec().len(), |i: int| menu_row(app.menu_index, i)));
    r
}

/// The entries of the shell page with their statuses: install zsh, install
/// Oh My Zsh, the theme (with the current one) and the plugins (with how
/// many are selected) once Oh My Zsh is there, the default shell once zsh
/// is there.
pub open spec fn shell_items_spec(a: AppV) -> (Seq<(Seq<char>, Seq<char>)>, Seq<bool>) {
    let base_items = seq![("安装 Zsh"@, "现代交互式 shell"@), ("安装 Oh My Zsh"@, "zsh 配置管理框架"@)];
    let base_status = seq![a.zsh_installed, a.omz_installed];
    let omz = a.omz_installed || a.omz_configured;
    let items1 = if omz {
        base_items + seq![
            ("选择主题"@, "当前: "@ + a.selected_theme),
            ("选择插件"@, "已选 "@ + decimal(a.selected_plugins.len()) + " 个"@),
        ]
    } else {
        base_items
    };
    let status1 = if omz { base_status + seq![false, false] } else { base_status };
    if a.zsh_installed {
        (
            items1.push(("设为默认 Shell"@, "将 zsh 设为登录 shell"@)),
            status1.push(a.default_shell_set),
        )
    } else {
        (items1, status1)
    }
}

/// The entries of the shell page with their statuses.
pub fn shell_items(app: &App) -> (r: (Vec<(String, String)>, Vec<bool>))
    ensures
        text_pairs(r.0@) == shell_items_spec(app@).0,
        r.1@ == shell_items_spec(app@).1,
{
    let mut items: Vec<(String, String)> = Vec::new();
    let mut statuses: Vec<bool> = Vec::new();
    items.push((owned("安装 Zsh"), owned("现代交互式 shell")));
    statuses.push(app.zsh_installed);
    items.push((owned("安装 Oh My Zsh"), owned("zsh 配置管理框架")));
    statuses.push(app.omz_installed);
    let ghost i1 = text_pairs(items@);
    if app.omz_installed || app.omz_configured {
        items.push((owned("选择主题"), owned("当前: ").concat(app.selected_theme.as_str())));
        statuses.push(false);
        let n = u64_text(app.selected_plugins.len() as u64);
        items.push((owned("选择插件"), owned("已选 ").concat(n.as_str()).concat(" 个")));
        statuses.push(false);
    }
    if app.zsh_installed {
        items.push((owned("设为默认 Shell"), owned("将 zsh 设为登录 shell")));
        statuses.push(app.default_shell_set);
    }
    assert(text_pairs(items@) =~= shell_items_spec(app@).0);
    assert(statuses@ =~= shell_items_spec(app@).1);
    (items, statuses)
}

/// Law: the shell page shows as many entries as the cursor can reach, each
/// with its status.
pub proof fn law_shell_rows_match_menu(a: AppV)
    ensures
        shell_items_spec(a).0.len() == crate::ui::shell_menu_len(a),
        shell_items_spec(a).1.len() == shell_items_spec(a).0.len(),
{
}

/// The rows of the shell page.
pub fn shell_rows(app: &App) -> (r: Vec<Row>)
    ensures
        rows_view(r@) == list_rows(shell_items_spec(app@).0, app.shell_index, shell_items_spec(app@).1),
{
    let (items, statuses) = shell_items(app);
    make_list_items(&items, app.shell_index, &statuses)
}

/// A row of the theme list: `● ` for the theme in use.
pub open spec fn theme_row(a: AppV, i: int) -> RowV {
    RowV {
        current: i == a.shell_theme_index,
        mark: if themes_spec()[i].0 == a.selected_theme { Mark::Chosen } else { Mark::Unchosen },
        name: themes_spec()[i].0,
        tag: None,
        detail: "  "@ + themes_spec()[i].1,
    }
}

/// The rows of the theme list.
pub fn theme_rows(app: &App) -> (r: Vec<Row>)
    ensures
        rows_view(r@) == Seq::new(themes_spec().len(), |i: int| theme_row(app@, i)),
{
    let items = themes();
    let mut r: Vec<Row> = Vec::new();
    let mut i: usize = 0;
    while i < items.len()
        invariant
            i <= items.len(),
            pairs_of(items@) == themes_spec(),
            r@.len() == i,
            forall|k: int| 0 <= k < i ==> r@[k]@ == theme_row(app@, k),
        decreases items.len() - i,
    {
        assert(items@[i as int].0@ == themes_spec()[i as int].0);
        assert(items@[i as int].1@ == themes_spec()[i as int].1);
        let chosen = str_eq(items[i].0, app.selected_theme.as_str());
        r.push(Row {
            current: i == app.shell_theme_index,
            mark: if chosen { Mark::Chosen } else { Mark::Unchosen },
            name: owned(items[i].0),
            tag: None,
            detail: owned("  ").concat(items[i].1),
        });
        i = i + 1;
    }
    assert(rows_view(r@) =~= Seq::new(themes_spec().len(), |i: int| theme_row(app@, i)));
    r
}

/// Whether a name is in a list.
fn has_name(list: &Vec<String>, name: &str) -> (r: bool)
    ensures
        r == strs(list@).contains(name@),
{
    let mut i: usize = 0;
    while i < list.len()
        invariant
            i <= list.len(),
            forall|k: int| 0 <= k < i ==> list@[k]@ != name@,
        decreases list.len() - i,
    {
        if str_eq(list[i].as_str(), name) {
            assert(strs(list@)[i as int] == name@);
            return true;
        }
        i = i + 1;
    }
    assert(!strs(list@).contains(name@)) by {
        if strs(list@).contains(name@) {
            let k = choose|k: int| 0 <= k < strs(list@).len() && strs(list@)[k] == name@;
            assert(list@[k]@ == name@);
        }
    }
    false
}

/// A row of the plugin list: `■ ` for a selected plugin, its kind as a tag.
pub open spec fn plugin_row(a: AppV, i: int) -> RowV {
    RowV {
        current: i == a.plugin_index,
        mark: if a.selected_plugins.contains(plugins_spec()[i].0) { Mark::Checked } else { Mark::Unchecked },
        name: plugins_spec()[i].0,
        tag: Some(" ["@ + plugins_spec()[i].1 + "]"@),
        detail: " "@ + plugins_spec()[i].2,
    }
}

/// The rows of the plugin list.
pub fn plugin_rows(app: &App) -> (r: Vec<Row>)
    ensures
        rows_view(r@) == Seq::new(plugins_spec().len(), |i: int| plugin_row(app@, i)),
{
    let items = plugins();
    let mut r: Vec<Row> = Vec::new();
    let mut i: usize = 0;
    while i < items.len()
        invariant
            i <= items.len(),
            triples_of(items@) == plugins_spec(),
            r@.len() == i,
            forall|k: int| 0 <= k < i ==> r@[k]@ == plugin_row(app@, k),
        decreases items.len() - i,
    {
        assert(items@[i as int].0@ == plugins_spec()[i as int].0);
        assert(items@[i as int].1@ == plugins_spec()[i as int].1);
        assert(items@[i as int].2@ == plugins_spec()[i as int].2);
        let selected = has_name(&app.selected_plugins, items[i].0);
        r.push(Row {
            current: i == app.plugin_index,
            mark: if selected { Mark::Checked } else { Mark::Unchecked },
            name: owned(items[i].0),
            tag: Some(owned(" [").concat(items[i].1).concat("]")),
            detail: owned(" ").concat(items[i].2),
        });
        i = i + 1;
    }
    assert(rows_view(r@) =~= Seq::new(plugins_spec().len(), |i: int| plugin_row(app@, i)));
    r
}

/// A row of the tools page: `✓ ` for an installed tool, else `■ ` for a
/// selected one; its category as a tag.
pub open spec fn tool_row(a: AppV, installed: Seq<bool>, i: int) -> RowV {
    RowV {
        current: i == a.tool_index,
        mark: if i < installed.len() && installed[i] {
            Mark::Done
        } else if i < a.selected_tools.len() && a.selected_tools[i] {
            Mark::Pending
        } else {
            Mark::Unchecked
        },
        name: tools_spec()[i].0,
        tag: Some(" ["@ + tools_spec()[i].1 + "]"@),
        detail: " "@ + tools_spec()[i].2,
    }
}

/// The rows of the tools page, given which tools are installed.
pub fn tool_rows(app: &App, installed: &Vec<bool>) -> (r: Vec<Row>)
    ensures
        rows_view(r@) == Seq::new(tools_spec().len(), |i: int| tool_row(app@, installed@, i)),
{
    let items = tools();
    let mut r: Vec<Row> = Vec::new();
    let mut i: usize = 0;
    while i < items.len()
        invariant
            i <= items.len(),
            triples_of(items@) == tools_spec(),
            r@.len() == i,
            forall|k: int| 0 <= k < i ==> r@[k]@ == tool_row(app@, installed@, k),
        decreases items.len() - i,
    {
        assert(items@[i as int].0@ == tools_spec()[i as int].0);
        assert(items@[i as int].1@ == tools_spec()[i as int].1);
        assert(items@[i as int].2@ == tools_spec()[i as int].2);
        let done = i < installed.len() && installed[i];
        let chosen = i < app.selected_tools.len() && app.selected_tools[i];
        r.push(Row {
            current: i == app.tool_index,
            mark: if done {
                Mark::Done
            } else if chosen {
                Mark::Pending
            } else {
                Mark::Unchecked
            },
            name: owned(items[i].0),
            tag: Some(owned(" [").concat(items[i].1).concat("]")),
            detail: owned(" ").concat(items[i].2),
        });
        i = i + 1;
    }
    assert(rows_view(r@) =~= Seq::new(tools_spec().len(), |i: int| tool_row(app@, installed@, i)));
    r
}

/// The rows of the Docker page: done marks for Docker, Compose and the
/// group; never for the service.
pub fn docker_rows(app: &App) -> (r: Vec<Row>)
    ensures
        rows_view(r@) == list_rows(
            docker_menu_items_spec(),
            app.docker_index,
            seq![app.docker_installed, app.compose_installed, app.docker_user_configured, false],
        ),
{
    let items = owned_pairs(&docker_menu_items());
    let mut statuses: Vec<bool> = Vec::new();
    statuses.push(app.docker_installed);
    statuses.push(app.compose_installed);
    statuses.push(app.docker_user_configured);
    statuses.push(false);
    assert(statuses@ =~= seq![app.docker_installed, app.compose_installed, app.docker_user_configured, false]);
    make_list_items(&items, app.docker_index, &statuses)
}

/// The rows of the SSH key page: both key entries marked done once a key
/// exists.
pub fn ssh_rows(app: &App) -> (r: Vec<Row>)
    ensures
        rows_view(r@) == list_rows(
            ssh_menu_items_spec(),
            app.ssh_index,
            seq![app.ssh_key_exists, app.ssh_key_exists, false],
        ),
{
    let items = owned_pairs(&ssh_menu_items());
    let mut statuses: Vec<bool> = Vec::new();
    statuses.push(app.ssh_key_exists);
    statuses.push(app.ssh_key_exists);
    statuses.push(false);
    assert(statuses@ =~= seq![app.ssh_key_exists, app.ssh_key_exists, false]);
    make_list_items(&items, app.ssh_index, &statuses)
}

/// The rows of the Chinese environment page.
pub fn locale_rows(app: &App) -> (r: Vec<Row>)
    ensures
        rows_view(r@) == list_rows(
            locale_menu_items_spec(),
            app.locale_index,
            seq![app.locale_configured, app.fonts_installed, app.fcitx_installed],
        ),
{
    let items = owned_pairs(&locale_menu_items());
    let mut statuses: Vec<bool> = Vec::new();
    statuses.push(app.locale_configured);
    statuses.push(app.fonts_installed);
    statuses.push(app.fcitx_installed);
    assert(statuses@ =~= seq![app.locale_configured, app.fonts_installed, app.fcitx_installed]);
    make_list_items(&items, app.locale_index, &statuses)
}

/// The latency shown after a mirror: `<ms> ms`, or `超时` when it did not
/// answer; `默认` for the default source, which is not measured.
pub open spec fn latency_text(ping_host: Seq<char>, l: Option<u64>) -> Seq<char> {
    if ping_host.len() == 0 {
        "  默认"@
    } else {
        match l {
            Some(ms) => "  "@ + decimal(ms as nat) + " ms"@,
            None => "  超时"@,
        }
    }
}

/// A row of the system-mirror page: the mirror's name, `[推荐]` after the
/// recommended one, and its latency.
pub open spec fn source_row(a: AppV, i: int) -> RowV {
    let m = system_mirrors_spec(a.distro)[i];
    let l = if i < a.mirror_latencies.len() { a.mirror_latencies[i] } else { None };
    RowV {
        current: i == a.sources_index,
        mark: Mark::Nothing,
        name: m.0,
        tag: match recommend_of(a.mirror_latencies) {
            Some(k) => if k == i { Some(" [推荐]"@) } else { None },
            None => None,
        },
        detail: latency_text(m.3, l),
    }
}

fn latency_of(ping_host: &str, l: Option<u64>) -> (r: String)
    ensures
        r@ == latency_text(ping_host@, l),
{
    if chars_of(ping_host).len() == 0 {
        owned("  默认")
    } else {
        match l {
            Some(ms) => owned("  ").concat(u64_text(ms).as_str()).concat(" ms"),
            None => owned("  超时"),
        }
    }
}

/// The rows of the system-mirror page.
pub fn source_rows(app: &App) -> (r: Vec<Row>)
    ensures
        rows_view(r@) == Seq::new(system_mirrors_spec(app@.distro).len(), |i: int| source_row(app@, i)),
{
    let ms = system_mirrors(&app.distro);
    let rec = recommend_index(app.mirror_latencies.as_slice());
    let mut r: Vec<Row> = Vec::new();
    let mut i: usize = 0;
    while i < ms.len()
        invariant
            i <= ms.len(),
            mirrors_view(ms@) == system_mirrors_spec(app@.distro),
            rec == recommend_of(app@.mirror_latencies),
            r@.len() == i,
            forall|k: int| 0 <= k < i ==> r@[k]@ == source_row(app@, k),
        decreases ms.len() - i,
    {
        let l = if i < app.mirror_latencies.len() { app.mirror_latencies[i] } else { None };
        let tag = match rec {
            Some(k) => if k == i { Some(owned(" [推荐]")) } else { None },
            None => None,
        };
        let row = Row {
            current: i == app.sources_index,
            mark: Mark::Nothing,
            name: owned(ms[i].name_cn),
            tag,
            detail: latency_of(ms[i].ping_host, l),
        };
        assert(row@ == source_row(app@, i as int));
        r.push(row);
        i = i + 1;
    }
    assert(rows_view(r@) =~= Seq::new(system_mirrors_spec(app@.distro).len(), |i: int| source_row(app@, i)));
    r
}

/// Whether the public key is shown over the SSH page.
pub fn shows_pubkey(app: &App) -> (r: bool)
    ensures
        r == (app.last_pubkey@.len() > 0),
{
    chars_of(app.last_pubkey.as_str()).len() > 0
}

/// The key hints of a page.
pub open spec fn status_bar_keys_spec(page: PageV) -> Seq<char> {
    match page {
        PageV::MainMenu => "↑↓ 导航  Enter 选择  q 退出"@,
        PageV::Status { .. } => "↑↓ 滚动  Esc 返回"@,
        PageV::Tools => "↑↓ 导航  Space 切换  a 全选  Enter 安装  Esc 返回"@,
        PageV::ShellZshPlugins => "↑↓ 导航  Space 切换  Enter 确认  Esc 返回"@,
        _ => "↑↓ 导航  Enter 选择  Esc 返回  q 退出"@,
    }
}

/// The key hints of a page.
pub fn status_bar_keys(page: &Page) -> (r: &'static str)
    ensures
        r@ == status_bar_keys_spec(page@),
{
    match page {
        Page::MainMenu => "↑↓ 导航  Enter 选择  q 退出",
        Page::Status(_) => "↑↓ 滚动  Esc 返回",
        Page::Tools => "↑↓ 导航  Space 切换  a 全选  Enter 安装  Esc 返回",
        Page::ShellZshPlugins => "↑↓ 导航  Space 切换  Enter 确认  Esc 返回",
        _ => "↑↓ 导航  Enter 选择  Esc 返回  q 退出",
    }
}

/// How a result line is coloured.
#[derive(PartialEq, Eq, Structural, Clone, Copy, Debug)]
pub enum Tone {
    Success,
    Error,
    Warning,
    Plain,
}

/// How a result line is coloured: by its first character `✅` or `❌`, or
/// by a leading `执行:`.
pub open spec fn line_tone_spec(line: Seq<char>) -> Tone {
    if line.len() > 0 && line[0] == '✅' {
        Tone::Success
    } else if line.len() > 0 && line[0] == '❌' {
        Tone::Error
    } else if starts_with(line, "执行:"@) {
        Tone::Warning
    } else {
        Tone::Plain
    }
}

/// How a result line is coloured.
pub fn line_tone(line: &str) -> (r: Tone)
    ensures
        r == line_tone_spec(line@),
{
    let v = chars_of(line);
    if v.len() > 0 && v[0] == '✅' {
        Tone::Success
    } else if v.len() > 0 && v[0] == '❌' {
        Tone::Error
    } else if starts_with_str(&v, "执行:") {
        Tone::Warning
    } else {
        Tone::Plain
    }
}

/// How far result lines are scrolled so that the last ones show, in an
/// area of `height` rows (one of which is taken by the border).
pub open spec fn scroll_offset_spec(total: nat, height: nat) -> nat {
    let visible: nat = if height == 0 { 0 } else { (height - 1) as nat };
    if total > visible { (total - visible) as nat } else { 0 }
}

/// How far result lines are scrolled so that the last ones show, in an
/// area of `height` rows (one of which is taken by the border).
pub fn scroll_offset(total: usize, height: u16) -> (r: usize)
    ensures
        r == scroll_offset_spec(total as nat, height as nat),
{
    let visible: usize = if height == 0 { 0 } else { (height - 1) as usize };
    if total > visible {
        total - visible
    } else {
        0
    }
}

} // verus!
