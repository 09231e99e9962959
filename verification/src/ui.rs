//! What the wizard does with each key: the page, selection and status that
//! follow, and the work to be carried out outside (installs, file edits,
//! key generation), whose outcome comes back through [`App::finish`].
use vstd::prelude::*;
use vstd::string::*;
use crate::app::{
    indices_in, pairs_of, docker_menu_items, docker_menu_items_spec, locale_menu_items, locale_menu_items_spec,
    main_menu_items, main_menu_items_spec, plugins, plugins_spec, ssh_menu_items, ssh_menu_items_spec, themes,
    themes_spec, tools, tools_spec, App, AppV, Page, PageV,
};
use crate::modules::sources::{mirrors_view, recommend_index, recommend_of, system_mirrors, system_mirrors_spec};
use crate::text::{decimal, str_eq, u64_text};
use crate::utils::{owned, strs};

verus! {

/// A key press, as far as the wizard tells keys apart.
#[derive(Debug)]
pub enum Key {
    Up,
    Down,
    Enter,
    Esc,
    Backspace,
    Char(char),
    Other,
}

/// Work that a key press asks for, carried out outside the library.
#[derive(Debug)]
pub enum Action {
    Quit,
    InstallZsh,
    InstallOhMyZsh,
    SetDefaultShell,
    /// Write the theme into `~/.zshrc`.
    SetTheme(String),
    /// Write the plugin list into `~/.zshrc`.
    SetPlugins(Vec<String>),
    InstallDocker,
    InstallCompose,
    AddUserToDockerGroup,
    StartDockerService,
    GenerateEd25519,
    GenerateRsa,
    ReadPublicKey,
    /// Install the named tools.
    InstallTools(Vec<String>),
    ConfigureLocale,
    InstallCjkFonts,
    InstallFcitx5,
    /// Stop Docker and uninstall it.
    ClearDocker,
    /// Delete both key pairs.
    ClearSshKeys,
    /// Uninstall the fonts and the input method.
    ClearLocale,
    /// Measure the latency of each system mirror.
    TestMirrors,
    /// Switch the system's package mirror to this address (back to the
    /// default for an empty one).
    SwitchSystemMirror(String),
}

/// A piece of work, its texts as character sequences.
pub ghost enum ActionV {
    Quit,
    InstallZsh,
    InstallOhMyZsh,
    SetDefaultShell,
    SetTheme(Seq<char>),
    SetPlugins(Seq<Seq<char>>),
    InstallDocker,
    InstallCompose,
    AddUserToDockerGroup,
    StartDockerService,
    GenerateEd25519,
    GenerateRsa,
    ReadPublicKey,
    InstallTools(Seq<Seq<char>>),
    ConfigureLocale,
    InstallCjkFonts,
    InstallFcitx5,
    ClearDocker,
    ClearSshKeys,
    ClearLocale,
    TestMirrors,
    SwitchSystemMirror(Seq<char>),
}

impl View for Action {
    type V = ActionV;

    open spec fn view(&self) -> ActionV {
        match self {
            Action::Quit => ActionV::Quit,
            Action::InstallZsh => ActionV::InstallZsh,
            Action::InstallOhMyZsh => ActionV::InstallOhMyZsh,
            Action::SetDefaultShell => ActionV::SetDefaultShell,
            Action::SetTheme(t) => ActionV::SetTheme(t@),
            Action::SetPlugins(p) => ActionV::SetPlugins(strs(p@)),
            Action::InstallDocker => ActionV::InstallDocker,
            Action::InstallCompose => ActionV::InstallCompose,
            Action::AddUserToDockerGroup => ActionV::AddUserToDockerGroup,
            Action::StartDockerService => ActionV::StartDockerService,
            Action::GenerateEd25519 => ActionV::GenerateEd25519,
            Action::GenerateRsa => ActionV::GenerateRsa,
            Action::ReadPublicKey => ActionV::ReadPublicKey,
            Action::InstallTools(t) => ActionV::InstallTools(strs(t@)),
            Action::ConfigureLocale => ActionV::ConfigureLocale,
            Action::InstallCjkFonts => ActionV::InstallCjkFonts,
            Action::InstallFcitx5 => ActionV::InstallFcitx5,
            Action::ClearDocker => ActionV::ClearDocker,
            Action::ClearSshKeys => ActionV::ClearSshKeys,
            Action::ClearLocale => ActionV::ClearLocale,
            Action::TestMirrors => ActionV::TestMirrors,
            Action::SwitchSystemMirror(u) => ActionV::SwitchSystemMirror(u@),
        }
    }
}

/// Whether the system is looked at again after a piece of work: after
/// quitting and after the work of the Docker, tools and Chinese-environment
/// pages; the shell and key pages record what they did themselves.
pub open spec fn refreshes_spec(e: ActionV) -> bool {
    match e {
        ActionV::Quit | ActionV::InstallDocker | ActionV::InstallCompose | ActionV::AddUserToDockerGroup
        | ActionV::StartDockerService | ActionV::InstallTools(_) | ActionV::ConfigureLocale
        | ActionV::InstallCjkFonts | ActionV::InstallFcitx5 | ActionV::ClearDocker | ActionV::ClearLocale => true,
        _ => false,
    }
}

impl Action {
    /// Whether the system is looked at again after this work.
    pub fn refreshes(&self) -> (r: bool)
        ensures
            r == refreshes_spec(self@),
    {
        match self {
            Action::Quit | Action::InstallDocker | Action::InstallCompose | Action::AddUserToDockerGroup
            | Action::StartDockerService | Action::InstallTools(_) | Action::ConfigureLocale
            | Action::InstallCjkFonts | Action::InstallFcitx5 | Action::ClearDocker | Action::ClearLocale => true,
            _ => false,
        }
    }
}

/// An optional piece of work, by its view.
pub open spec fn action_of(e: Option<Action>) -> Option<ActionV> {
    match e {
        Some(e) => Some(e@),
        None => None,
    }
}

/// One step up a list: stays at the top.
#[verifier::opaque]
pub open spec fn up(i: usize) -> usize {
    if i == 0 {
        0
    } else {
        (i - 1) as usize
    }
}

/// One step down a list whose last entry is at `last`: stays at the bottom.
#[verifier::opaque]
pub open spec fn down(i: usize, last: usize) -> usize {
    if i < last {
        (i + 1) as usize
    } else {
        last
    }
}

fn step_up(i: usize) -> (r: usize)
    ensures
        r == up(i),
{
    reveal(up);
    if i == 0 {
        0
    } else {
        i - 1
    }
}

fn step_down(i: usize, last: usize) -> (r: usize)
    ensures
        r == down(i, last),
{
    reveal(down);
    if i < last {
        i + 1
    } else {
        last
    }
}

/// The page that a main-menu entry opens.
pub open spec fn menu_page(i: usize) -> Option<PageV> {
    if i == 0 {
        Some(PageV::Shell)
    } else if i == 1 {
        Some(PageV::Docker)
    } else if i == 2 {
        Some(PageV::Ssh)
    } else if i == 3 {
        Some(PageV::Tools)
    } else if i == 4 {
        Some(PageV::Locale)
    } else if i == 5 {
        Some(PageV::Sources)
    } else {
        None
    }
}

/// The wizard after a key on the main menu: arrows move, Enter opens the
/// chosen page.
pub open spec fn main_menu_next(a: AppV, key: Key) -> AppV {
    match key {
        Key::Up => AppV { menu_index: up(a.menu_index), ..a },
        Key::Down => AppV { menu_index: down(a.menu_index, 5), ..a },
        Key::Enter => match menu_page(a.menu_index) {
            Some(p) => AppV { page: p, status_msg: "按 Esc 返回主菜单"@, ..a },
            None => a,
        },
        _ => a,
    }
}

impl App {
    /// The main menu: arrows move, Enter opens the chosen page.
    pub fn handle_main_menu(self, key: &Key) -> (r: App)
        ensures
            r@ == main_menu_next(self@, *key),
    {
        match key {
            Key::Up => {
                let i = step_up(self.menu_index);
                self.with_menu_index(i)
            },
            Key::Down => {
                let i = step_down(self.menu_index, 5);
                self.with_menu_index(i)
            },
            Key::Enter => match menu_page_of(self.menu_index) {
                Some(page) => self.open(page),
                None => self,
            },
            _ => self,
        }
    }

    fn with_menu_index(self, i: usize) -> (r: App)
        ensures
            r@ == (AppV { menu_index: i, ..self@ }),
    {
        App { menu_index: i, ..self }
    }

    /// Opens a page, with the hint to go back.
    fn open(self, page: Page) -> (r: App)
        ensures
            r@ == (AppV { page: page@, status_msg: "按 Esc 返回主菜单"@, ..self@ }),
    {
        App { page, status_msg: owned("按 Esc 返回主菜单"), ..self }
    }
}

fn menu_page_of(i: usize) -> (r: Option<Page>)
    ensures
        match (r, menu_page(i)) {
            (Some(p), Some(q)) => p@ == q,
            (None, None) => true,
            _ => false,
        },
{
    if i == 0 {
        Some(Page::Shell)
    } else if i == 1 {
        Some(Page::Docker)
    } else if i == 2 {
        Some(Page::Ssh)
    } else if i == 3 {
        Some(Page::Tools)
    } else if i == 4 {
        Some(Page::Locale)
    } else if i == 5 {
        Some(Page::Sources)
    } else {
        None
    }
}

/// The names in a list of name-description pairs.
pub open spec fn names_of(v: Seq<(Seq<char>, Seq<char>)>) -> Seq<Seq<char>> {
    v.map_values(|p: (Seq<char>, Seq<char>)| p.0)
}

/// The position of the first `t` in `names`; the length when there is none.
pub open spec fn first_pos(names: Seq<Seq<char>>, t: Seq<char>) -> nat
    decreases names.len(),
{
    if names.len() == 0 {
        0
    } else if names[0] == t {
        0
    } else {
        1 + first_pos(names.drop_first(), t)
    }
}

/// `first_pos` is the first position holding `t`.
pub proof fn lemma_first_pos(names: Seq<Seq<char>>, t: Seq<char>, i: int)
    requires
        0 <= i <= names.len(),
        forall|j: int| 0 <= j < i ==> names[j] != t,
        i < names.len() ==> names[i] == t,
    ensures
        first_pos(names, t) == i,
    decreases i,
{
    if i > 0 {
        assert forall|j: int| 0 <= j < i - 1 implies names.drop_first()[j] != t by {
            assert(names.drop_first()[j] == names[j + 1]);
        }
        lemma_first_pos(names.drop_first(), t, i - 1);
    }
}

/// Where the theme list opens: at the current theme, else at the top.
pub open spec fn theme_position(t: Seq<char>) -> usize {
    let p = first_pos(names_of(themes_spec()), t);
    if p < themes_spec().len() {
        p as usize
    } else {
        0
    }
}

/// The entries of the shell page: install zsh, install Oh My Zsh, the theme
/// and plugin choices once Oh My Zsh is there, the default shell once zsh is
/// there.
pub open spec fn shell_menu_len(a: AppV) -> usize {
    let omz: usize = if a.omz_installed || a.omz_configured { 2 } else { 0 };
    let zsh: usize = if a.zsh_installed { 1 } else { 0 };
    (2 + omz + zsh) as usize
}

/// The entry that sets zsh as the login shell.
pub open spec fn default_shell_entry(a: AppV) -> usize {
    if a.omz_installed || a.omz_configured { 4 } else { 2 }
}

/// Enter on the shell page.
pub open spec fn shell_enter(a: AppV) -> (AppV, Option<ActionV>) {
    let omz = a.omz_installed || a.omz_configured;
    if a.shell_index == 0 {
        if !a.zsh_installed {
            (AppV { status_msg: "正在安装 zsh..."@, ..a }, Some(ActionV::InstallZsh))
        } else {
            (a, None)
        }
    } else if a.shell_index == 1 {
        if a.omz_installed {
            (a, None)
        } else if !a.zsh_installed {
            (AppV { status_msg: "❌ 请先安装 zsh"@, ..a }, None)
        } else {
            (AppV { status_msg: "正在安装 Oh My Zsh..."@, ..a }, Some(ActionV::InstallOhMyZsh))
        }
    } else if omz && a.shell_index == 2 {
        (
            AppV {
                page: PageV::ShellZshTheme,
                shell_theme_index: theme_position(a.selected_theme),
                ..a
            },
            None,
        )
    } else if omz && a.shell_index == 3 {
        (AppV { page: PageV::ShellZshPlugins, plugin_index: 0, ..a }, None)
    } else if a.zsh_installed && a.shell_index == default_shell_entry(a) && !a.default_shell_set {
        (AppV { status_msg: "正在设置默认 Shell..."@, ..a }, Some(ActionV::SetDefaultShell))
    } else {
        (a, None)
    }
}

/// A key on the shell page.
pub open spec fn shell_next(a: AppV, key: Key) -> (AppV, Option<ActionV>) {
    match key {
        Key::Esc | Key::Backspace => (AppV { page: PageV::MainMenu, shell_index: 0, ..a }, None),
        Key::Up => (AppV { shell_index: up(a.shell_index), ..a }, None),
        Key::Down => (
            AppV { shell_index: down(a.shell_index, (shell_menu_len(a) - 1) as usize), ..a },
            None,
        ),
        Key::Enter => shell_enter(a),
        _ => (a, None),
    }
}

/// Where the theme list opens for the current theme.
fn theme_position_of(t: &String) -> (r: usize)
    ensures
        r == theme_position(t@),
{
    let list = themes();
    let ghost names = names_of(themes_spec());
    assert(names.len() == 13);
    let mut i: usize = 0;
    while i < list.len()
        invariant
            i <= list.len(),
            list.len() == 13,
            names == names_of(themes_spec()),
            pairs_of(list@) == themes_spec(),
            forall|j: int| 0 <= j < i ==> names[j] != t@,
        decreases list.len() - i,
    {
        assert(names[i as int] == list@[i as int].0@);
        if str_eq(list[i].0, t.as_str()) {
            proof {
                lemma_first_pos(names, t@, i as int);
            }
            return i;
        }
        i = i + 1;
    }
    proof {
        lemma_first_pos(names, t@, 13);
    }
    0
}

impl App {
    /// The number of entries on the shell page.
    pub fn shell_menu_count(&self) -> (r: usize)
        ensures
            r == shell_menu_len(self@),
    {
        let mut count: usize = 2;
        if self.omz_installed || self.omz_configured {
            count = count + 2;
        }
        if self.zsh_installed {
            count = count + 1;
        }
        count
    }

    fn with_status(self, msg: String) -> (r: App)
        ensures
            r@ == (AppV { status_msg: msg@, ..self@ }),
    {
        App { status_msg: msg, ..self }
    }

    fn with_shell_index(self, i: usize) -> (r: App)
        ensures
            r@ == (AppV { shell_index: i, ..self@ }),
    {
        App { shell_index: i, ..self }
    }

    fn leave_shell(self) -> (r: App)
        ensures
            r@ == (AppV { page: PageV::MainMenu, shell_index: 0, ..self@ }),
    {
        App { page: Page::MainMenu, shell_index: 0, ..self }
    }

    fn open_themes(self, i: usize) -> (r: App)
        ensures
            r@ == (AppV { page: PageV::ShellZshTheme, shell_theme_index: i, ..self@ }),
    {
        App { page: Page::ShellZshTheme, shell_theme_index: i, ..self }
    }

    fn open_plugins(self) -> (r: App)
        ensures
            r@ == (AppV { page: PageV::ShellZshPlugins, plugin_index: 0, ..self@ }),
    {
        App { page: Page::ShellZshPlugins, plugin_index: 0, ..self }
    }

    /// Enter on the shell page: installs zsh or Oh My Zsh, opens the theme
    /// or plugin list, or sets zsh as the login shell, each only where it is
    /// not done yet.
    pub fn handle_shell_enter(self) -> (r: (App, Option<Action>))
        ensures
            r.0@ == shell_enter(self@).0,
            action_of(r.1) == shell_enter(self@).1,
    {
        let omz = self.omz_installed || self.omz_configured;
        let default_entry: usize = if omz { 4 } else { 2 };
        if self.shell_index == 0 {
            if !self.zsh_installed {
                (self.with_status(owned("正在安装 zsh...")), Some(Action::InstallZsh))
            } else {
                (self, None)
            }
        } else if self.shell_index == 1 {
            if self.omz_installed {
                (self, None)
            } else if !self.zsh_installed {
                (self.with_status(owned("❌ 请先安装 zsh")), None)
            } else {
                (self.with_status(owned("正在安装 Oh My Zsh...")), Some(Action::InstallOhMyZsh))
            }
        } else if omz && self.shell_index == 2 {
            let i = theme_position_of(&self.selected_theme);
            (self.open_themes(i), None)
        } else if omz && self.shell_index == 3 {
            (self.open_plugins(), None)
        } else if self.zsh_installed && self.shell_index == default_entry && !self.default_shell_set {
            (self.with_status(owned("正在设置默认 Shell...")), Some(Action::SetDefaultShell))
        } else {
            (self, None)
        }
    }

    /// A key on the shell page.
    pub fn handle_shell(self, key: &Key) -> (r: (App, Option<Action>))
        ensures
            r.0@ == shell_next(self@, *key).0,
            action_of(r.1) == shell_next(self@, *key).1,
    {
        match key {
            Key::Esc | Key::Backspace => (self.leave_shell(), None),
            Key::Up => {
                let i = step_up(self.shell_index);
                (self.with_shell_index(i), None)
            },
            Key::Down => {
                let n = self.shell_menu_count();
                let i = step_down(self.shell_index, n - 1);
                (self.with_shell_index(i), None)
            },
            Key::Enter => self.handle_shell_enter(),
            _ => (self, None),
        }
    }
}

/// The names in a list of triples.
pub open spec fn names3(v: Seq<(Seq<char>, Seq<char>, Seq<char>)>) -> Seq<Seq<char>> {
    v.map_values(|p: (Seq<char>, Seq<char>, Seq<char>)| p.0)
}

/// A key on the theme list: Enter picks the theme under the cursor and
/// goes back to the shell page.
pub open spec fn theme_next(a: AppV, key: Key) -> (AppV, Option<ActionV>) {
    match key {
        Key::Esc | Key::Backspace => (AppV { page: PageV::Shell, ..a }, None),
        Key::Up => (AppV { shell_theme_index: up(a.shell_theme_index), ..a }, None),
        Key::Down => (AppV { shell_theme_index: down(a.shell_theme_index, 12), ..a }, None),
        Key::Enter => {
            let t = themes_spec()[a.shell_theme_index as int].0;
            (AppV { selected_theme: t, page: PageV::Shell, ..a }, Some(ActionV::SetTheme(t)))
        },
        _ => (a, None),
    }
}

/// The plugin list with `name` taken out where it is (its first
/// occurrence), or added at the end where it is not.
pub open spec fn toggled(list: Seq<Seq<char>>, name: Seq<char>) -> Seq<Seq<char>> {
    let p = first_pos(list, name);
    if p < list.len() {
        list.remove(p as int)
    } else {
        list.push(name)
    }
}

/// A key on the plugin list: Space toggles the plugin under the cursor and
/// moves down; Enter or Esc goes back, writing the choice when there is one.
pub open spec fn plugins_next(a: AppV, key: Key) -> (AppV, Option<ActionV>) {
    match key {
        Key::Esc | Key::Backspace | Key::Enter => if a.selected_plugins.len() > 0 {
            (AppV { page: PageV::Shell, ..a }, Some(ActionV::SetPlugins(a.selected_plugins)))
        } else {
            (AppV { page: PageV::Shell, ..a }, None)
        },
        Key::Up => (AppV { plugin_index: up(a.plugin_index), ..a }, None),
        Key::Down => (AppV { plugin_index: down(a.plugin_index, 13), ..a }, None),
        Key::Char(c) => if c == ' ' {
            (
                AppV {
                    selected_plugins: toggled(
                        a.selected_plugins,
                        names3(plugins_spec())[a.plugin_index as int],
                    ),
                    plugin_index: down(a.plugin_index, 13),
                    ..a
                },
                None,
            )
        } else {
            (a, None)
        },
        _ => (a, None),
    }
}

/// The name of a theme of the list.
fn theme_name(i: usize) -> (r: String)
    requires
        i < themes_spec().len(),
    ensures
        r@ == themes_spec()[i as int].0,
{
    let list = themes();
    assert(list@[i as int].0@ == pairs_of(list@)[i as int].0);
    owned(list[i].0)
}

/// The name of a plugin of the list.
fn plugin_name(i: usize) -> (r: String)
    requires
        i < plugins_spec().len(),
    ensures
        r@ == names3(plugins_spec())[i as int],
{
    let list = plugins();
    assert(list@[i as int].0@ == crate::app::triples_of(list@)[i as int].0);
    owned(list[i].0)
}

/// Takes `name` out of the list where it is, else adds it at the end.
pub fn toggle_plugin(plugins: Vec<String>, name: String) -> (r: Vec<String>)
    ensures
        strs(r@) == toggled(strs(plugins@), name@),
{
    let mut list = plugins;
    let ghost names = strs(plugins@);
    let mut i: usize = 0;
    while i < list.len()
        invariant
            i <= list.len(),
            names == strs(list@),
            names == strs(plugins@),
            forall|j: int| 0 <= j < i ==> names[j] != name@,
        decreases list.len() - i,
    {
        if str_eq(list[i].as_str(), name.as_str()) {
            proof {
                lemma_first_pos(names, name@, i as int);
            }
            list.remove(i);
            assert(strs(list@) =~= names.remove(i as int));
            assert(toggled(names, name@) == names.remove(i as int));
            return list;
        }
        i = i + 1;
    }
    proof {
        lemma_first_pos(names, name@, names.len() as int);
    }
    list.push(name);
    assert(strs(list@) =~= names.push(name@));
    list
}

impl App {
    fn with_theme_index(self, i: usize) -> (r: App)
        ensures
            r@ == (AppV { shell_theme_index: i, ..self@ }),
    {
        App { shell_theme_index: i, ..self }
    }

    fn with_plugin_index(self, i: usize) -> (r: App)
        ensures
            r@ == (AppV { plugin_index: i, ..self@ }),
    {
        App { plugin_index: i, ..self }
    }

    fn with_page(self, page: Page) -> (r: App)
        ensures
            r@ == (AppV { page: page@, ..self@ }),
    {
        App { page, ..self }
    }

    fn choose_theme(self, t: String) -> (r: App)
        ensures
            r@ == (AppV { selected_theme: t@, page: PageV::Shell, ..self@ }),
    {
        App { selected_theme: t, page: Page::Shell, ..self }
    }

    fn toggle_at(self, name: String, i: usize) -> (r: App)
        ensures
            r@ == (AppV {
                selected_plugins: toggled(self@.selected_plugins, name@),
                plugin_index: i,
                ..self@
            }),
    {
        let list = toggle_plugin(self.selected_plugins, name);
        App { selected_plugins: list, plugin_index: i, ..self }
    }

    /// A key on the theme list.
    pub fn handle_theme(self, key: &Key) -> (r: (App, Option<Action>))
        requires
            self.shell_theme_index < themes_spec().len(),
        ensures
            r.0@ == theme_next(self@, *key).0,
            action_of(r.1) == theme_next(self@, *key).1,
    {
        match key {
            Key::Esc | Key::Backspace => (self.with_page(Page::Shell), None),
            Key::Up => {
                let i = step_up(self.shell_theme_index);
                (self.with_theme_index(i), None)
            },
            Key::Down => {
                let i = step_down(self.shell_theme_index, 12);
                (self.with_theme_index(i), None)
            },
            Key::Enter => {
                let t = theme_name(self.shell_theme_index);
                let e = Action::SetTheme(t.clone());
                (self.choose_theme(t), Some(e))
            },
            _ => (self, None),
        }
    }

    /// A key on the plugin list.
    pub fn handle_plugins(self, key: &Key) -> (r: (App, Option<Action>))
        requires
            self.plugin_index < plugins_spec().len(),
        ensures
            r.0@ == plugins_next(self@, *key).0,
            action_of(r.1) == plugins_next(self@, *key).1,
    {
        match key {
            Key::Esc | Key::Backspace | Key::Enter => {
                if self.selected_plugins.len() > 0 {
                    let e = Action::SetPlugins(clone_strings(&self.selected_plugins));
                    (self.with_page(Page::Shell), Some(e))
                } else {
                    (self.with_page(Page::Shell), None)
                }
            },
            Key::Up => {
                let i = step_up(self.plugin_index);
                (self.with_plugin_index(i), None)
            },
            Key::Down => {
                let i = step_down(self.plugin_index, 13);
                (self.with_plugin_index(i), None)
            },
            Key::Char(c) => {
                if *c == ' ' {
                    let name = plugin_name(self.plugin_index);
                    let i = step_down(self.plugin_index, 13);
                    (self.toggle_at(name, i), None)
                } else {
                    (self, None)
                }
            },
            _ => (self, None),
        }
    }
}

/// A copy of a list of strings.
pub fn clone_strings(v: &Vec<String>) -> (r: Vec<String>)
    ensures
        strs(r@) == strs(v@),
{
    let mut r: Vec<String> = Vec::new();
    let mut i: usize = 0;
    while i < v.len()
        invariant
            i <= v.len(),
            r@.len() == i,
            forall|j: int| 0 <= j < i ==> r@[j]@ == v@[j]@,
        decreases v.len() - i,
    {
        r.push(v[i].clone());
        i = i + 1;
    }
    assert(strs(r@) =~= strs(v@));
    r
}

/// A key on the Docker page.
pub open spec fn docker_next(a: AppV, key: Key) -> (AppV, Option<ActionV>) {
    match key {
        Key::Esc | Key::Backspace => (AppV { page: PageV::MainMenu, docker_index: 0, ..a }, None),
        Key::Up => (AppV { docker_index: up(a.docker_index), ..a }, None),
        Key::Down => (AppV { docker_index: down(a.docker_index, 4), ..a }, None),
        Key::Enter => if a.docker_index == 0 && !a.docker_installed {
            (AppV { status_msg: "正在安装 Docker..."@, ..a }, Some(ActionV::InstallDocker))
        } else if a.docker_index == 1 && !a.compose_installed {
            (AppV { status_msg: "正在安装 Docker Compose..."@, ..a }, Some(ActionV::InstallCompose))
        } else if a.docker_index == 2 && !a.docker_user_configured {
            (
                AppV { status_msg: "正在配置 docker 用户组..."@, ..a },
                Some(ActionV::AddUserToDockerGroup),
            )
        } else if a.docker_index == 3 {
            (
                AppV { status_msg: "正在启动 Docker 服务..."@, ..a },
                Some(ActionV::StartDockerService),
            )
        } else if a.docker_index == 4 {
            clear_enter(a, ActionV::ClearDocker, "正在清除 Docker 配置..."@)
        } else {
            (a, None)
        },
        _ => (a, None),
    }
}

/// The question a clear entry asks before it runs.
pub open spec fn confirm_prompt() -> Seq<char> {
    "⚠️ 再次按 Enter 确认清除"@
}

/// Enter on a clear entry: the first asks to confirm; a second one, while
/// the question stands, starts the clearing.
pub open spec fn clear_enter(a: AppV, e: ActionV, doing: Seq<char>) -> (AppV, Option<ActionV>) {
    if a.status_msg == confirm_prompt() {
        (AppV { status_msg: doing, ..a }, Some(e))
    } else {
        (AppV { status_msg: confirm_prompt(), ..a }, None)
    }
}

/// A key on the SSH key page: Esc also closes the public key shown.
pub open spec fn ssh_next(a: AppV, key: Key) -> (AppV, Option<ActionV>) {
    match key {
        Key::Esc | Key::Backspace => (
            AppV { last_pubkey: Seq::empty(), page: PageV::MainMenu, ssh_index: 0, ..a },
            None,
        ),
        Key::Up => (AppV { ssh_index: up(a.ssh_index), ..a }, None),
        Key::Down => (AppV { ssh_index: down(a.ssh_index, 3), ..a }, None),
        Key::Enter => if a.ssh_index == 0 {
            (a, Some(ActionV::GenerateEd25519))
        } else if a.ssh_index == 1 {
            (a, Some(ActionV::GenerateRsa))
        } else if a.ssh_index == 2 {
            (a, Some(ActionV::ReadPublicKey))
        } else if a.ssh_index == 3 {
            clear_enter(a, ActionV::ClearSshKeys, "正在清除 SSH 密钥..."@)
        } else {
            (a, None)
        },
        _ => (a, None),
    }
}

/// A key on the Chinese environment page.
pub open spec fn locale_next(a: AppV, key: Key) -> (AppV, Option<ActionV>) {
    match key {
        Key::Esc | Key::Backspace => (AppV { page: PageV::MainMenu, locale_index: 0, ..a }, None),
        Key::Up => (AppV { locale_index: up(a.locale_index), ..a }, None),
        Key::Down => (AppV { locale_index: down(a.locale_index, 3), ..a }, None),
        Key::Enter => if a.locale_index == 0 {
            (AppV { status_msg: "正在配置中文 locale..."@, ..a }, Some(ActionV::ConfigureLocale))
        } else if a.locale_index == 1 {
            (AppV { status_msg: "正在安装中文字体..."@, ..a }, Some(ActionV::InstallCjkFonts))
        } else if a.locale_index == 2 {
            (AppV { status_msg: "正在安装 Fcitx5 输入法..."@, ..a }, Some(ActionV::InstallFcitx5))
        } else if a.locale_index == 3 {
            clear_enter(a, ActionV::ClearLocale, "正在清除中文配置..."@)
        } else {
            (a, None)
        },
        _ => (a, None),
    }
}

impl App {
    fn with_docker_index(self, i: usize) -> (r: App)
        ensures
            r@ == (AppV { docker_index: i, ..self@ }),
    {
        App { docker_index: i, ..self }
    }

    fn with_ssh_index(self, i: usize) -> (r: App)
        ensures
            r@ == (AppV { ssh_index: i, ..self@ }),
    {
        App { ssh_index: i, ..self }
    }

    fn with_locale_index(self, i: usize) -> (r: App)
        ensures
            r@ == (AppV { locale_index: i, ..self@ }),
    {
        App { locale_index: i, ..self }
    }

    fn leave_docker(self) -> (r: App)
        ensures
            r@ == (AppV { page: PageV::MainMenu, docker_index: 0, ..self@ }),
    {
        App { page: Page::MainMenu, docker_index: 0, ..self }
    }

    fn leave_ssh(self) -> (r: App)
        ensures
            r@ == (AppV { last_pubkey: Seq::empty(), page: PageV::MainMenu, ssh_index: 0, ..self@ }),
    {
        App { last_pubkey: String::new(), page: Page::MainMenu, ssh_index: 0, ..self }
    }

    fn leave_locale(self) -> (r: App)
        ensures
            r@ == (AppV { page: PageV::MainMenu, locale_index: 0, ..self@ }),
    {
        App { page: Page::MainMenu, locale_index: 0, ..self }
    }

    /// A key on the Docker page: Enter installs Docker or Compose, or adds
    /// the user to the `docker` group, each where it is not done yet, or
    /// starts the service.
    pub fn handle_docker(self, key: &Key) -> (r: (App, Option<Action>))
        ensures
            r.0@ == docker_next(self@, *key).0,
            action_of(r.1) == docker_next(self@, *key).1,
    {
        match key {
            Key::Esc | Key::Backspace => (self.leave_docker(), None),
            Key::Up => {
                let i = step_up(self.docker_index);
                (self.with_docker_index(i), None)
            },
            Key::Down => {
                let i = step_down(self.docker_index, 4);
                (self.with_docker_index(i), None)
            },
            Key::Enter => {
                if self.docker_index == 0 && !self.docker_installed {
                    (self.with_status(owned("正在安装 Docker...")), Some(Action::InstallDocker))
                } else if self.docker_index == 1 && !self.compose_installed {
                    (
                        self.with_status(owned("正在安装 Docker Compose...")),
                        Some(Action::InstallCompose),
                    )
                } else if self.docker_index == 2 && !self.docker_user_configured {
                    (
                        self.with_status(owned("正在配置 docker 用户组...")),
                        Some(Action::AddUserToDockerGroup),
                    )
                } else if self.docker_index == 3 {
                    (
                        self.with_status(owned("正在启动 Docker 服务...")),
                        Some(Action::StartDockerService),
                    )
                } else if self.docker_index == 4 {
                    self.clear_entry(Action::ClearDocker, "正在清除 Docker 配置...")
                } else {
                    (self, None)
                }
            },
            _ => (self, None),
        }
    }

    /// A key on the SSH key page: Enter generates an Ed25519 or RSA key, or
    /// reads the public key.
    pub fn handle_ssh(self, key: &Key) -> (r: (App, Option<Action>))
        ensures
            r.0@ == ssh_next(self@, *key).0,
            action_of(r.1) == ssh_next(self@, *key).1,
    {
        match key {
            Key::Esc | Key::Backspace => (self.leave_ssh(), None),
            Key::Up => {
                let i = step_up(self.ssh_index);
                (self.with_ssh_index(i), None)
            },
            Key::Down => {
                let i = step_down(self.ssh_index, 3);
                (self.with_ssh_index(i), None)
            },
            Key::Enter => {
                if self.ssh_index == 0 {
                    (self, Some(Action::GenerateEd25519))
                } else if self.ssh_index == 1 {
                    (self, Some(Action::GenerateRsa))
                } else if self.ssh_index == 2 {
                    (self, Some(Action::ReadPublicKey))
                } else if self.ssh_index == 3 {
                    self.clear_entry(Action::ClearSshKeys, "正在清除 SSH 密钥...")
                } else {
                    (self, None)
                }
            },
            _ => (self, None),
        }
    }

    /// A key on the Chinese environment page: Enter configures the locale,
    /// installs the CJK fonts or installs Fcitx5.
    pub fn handle_locale(self, key: &Key) -> (r: (App, Option<Action>))
        ensures
            r.0@ == locale_next(self@, *key).0,
            action_of(r.1) == locale_next(self@, *key).1,
    {
        match key {
            Key::Esc | Key::Backspace => (self.leave_locale(), None),
            Key::Up => {
                let i = step_up(self.locale_index);
                (self.with_locale_index(i), None)
            },
            Key::Down => {
                let i = step_down(self.locale_index, 3);
                (self.with_locale_index(i), None)
            },
            Key::Enter => {
                if self.locale_index == 0 {
                    (self.with_status(owned("正在配置中文 locale...")), Some(Action::ConfigureLocale))
                } else if self.locale_index == 1 {
                    (self.with_status(owned("正在安装中文字体...")), Some(Action::InstallCjkFonts))
                } else if self.locale_index == 2 {
                    (
                        self.with_status(owned("正在安装 Fcitx5 输入法...")),
                        Some(Action::InstallFcitx5),
                    )
                } else if self.locale_index == 3 {
                    self.clear_entry(Action::ClearLocale, "正在清除中文配置...")
                } else {
                    (self, None)
                }
            },
            _ => (self, None),
        }
    }

    /// Enter on a clear entry.
    fn clear_entry(self, e: Action, doing: &str) -> (r: (App, Option<Action>))
        ensures
            r.0@ == clear_enter(self@, e@, doing@).0,
            action_of(r.1) == clear_enter(self@, e@, doing@).1,
    {
        let prompt = "⚠️ 再次按 Enter 确认清除";
        proof {
            reveal_strlit("⚠️ 再次按 Enter 确认清除");
        }
        if str_eq(self.status_msg.as_str(), prompt) {
            (self.with_status(owned(doing)), Some(e))
        } else {
            (self.with_status(owned(prompt)), None)
        }
    }
}

/// The names of the tools offered.
pub open spec fn tool_names() -> Seq<Seq<char>> {
    names3(tools_spec())
}

/// The selection with the flag at `i` flipped, where there is one.
pub open spec fn flip(flags: Seq<bool>, i: usize) -> Seq<bool> {
    if i < flags.len() {
        flags.update(i as int, !flags[i as int])
    } else {
        flags
    }
}

/// Whether every tool is selected.
pub open spec fn all_true(flags: Seq<bool>) -> bool {
    forall|j: int| 0 <= j < flags.len() ==> flags[j]
}

/// The selection after `a`: everything deselected when everything was
/// selected, else everything selected.
pub open spec fn select_all(flags: Seq<bool>) -> Seq<bool> {
    Seq::new(flags.len(), |j: int| !all_true(flags))
}

/// The names whose flag is set, in the order of the list.
pub open spec fn chosen(names: Seq<Seq<char>>, flags: Seq<bool>) -> Seq<Seq<char>>
    decreases names.len(),
{
    if names.len() == 0 {
        Seq::empty()
    } else {
        let k = names.len() - 1;
        let rest = chosen(names.drop_last(), flags);
        if k < flags.len() && flags[k] {
            rest.push(names[k])
        } else {
            rest
        }
    }
}

/// The status while `n` tools are installed.
pub open spec fn installing_tools(n: nat) -> Seq<char> {
    "正在安装 "@ + decimal(n) + " 个工具..."@
}

/// A key on the tools page: Space flips the tool under the cursor and moves
/// down, `a` selects or deselects all, Enter installs the selected tools.
pub open spec fn tools_next(a: AppV, key: Key) -> (AppV, Option<ActionV>) {
    match key {
        Key::Esc | Key::Backspace => (AppV { page: PageV::MainMenu, tool_index: 0, ..a }, None),
        Key::Up => (AppV { tool_index: up(a.tool_index), ..a }, None),
        Key::Down => (AppV { tool_index: down(a.tool_index, 10), ..a }, None),
        Key::Char(c) => if c == ' ' {
            (
                AppV {
                    selected_tools: flip(a.selected_tools, a.tool_index),
                    tool_index: down(a.tool_index, 10),
                    ..a
                },
                None,
            )
        } else if c == 'a' {
            (AppV { selected_tools: select_all(a.selected_tools), ..a }, None)
        } else {
            (a, None)
        },
        Key::Enter => {
            let names = chosen(tool_names(), a.selected_tools);
            if names.len() == 0 {
                (AppV { status_msg: "请先选择要安装的工具"@, ..a }, None)
            } else {
                (
                    AppV { status_msg: installing_tools(names.len()), ..a },
                    Some(ActionV::InstallTools(names)),
                )
            }
        },
        _ => (a, None),
    }
}

/// Flips the flag at `i`, where there is one.
pub fn flip_flag(flags: Vec<bool>, i: usize) -> (r: Vec<bool>)
    ensures
        r@ == flip(flags@, i),
{
    let mut flags = flags;
    if i < flags.len() {
        let v = !flags[i];
        flags.set(i, v);
    }
    flags
}

/// The selection after `a`.
pub fn select_all_flags(flags: &Vec<bool>) -> (r: Vec<bool>)
    ensures
        r@ == select_all(flags@),
{
    let mut all = true;
    let mut i: usize = 0;
    while i < flags.len()
        invariant
            i <= flags.len(),
            all == (forall|j: int| 0 <= j < i ==> flags@[j]),
        decreases flags.len() - i,
    {
        if !flags[i] {
            all = false;
        }
        i = i + 1;
    }
    let mut r: Vec<bool> = Vec::new();
    let mut k: usize = 0;
    while k < flags.len()
        invariant
            k <= flags.len(),
            all == all_true(flags@),
            r@.len() == k,
            forall|j: int| 0 <= j < k ==> r@[j] == !all,
        decreases flags.len() - k,
    {
        r.push(!all);
        k = k + 1;
    }
    assert(r@ =~= select_all(flags@));
    r
}

/// The names of the selected tools, in the order of the list.
pub fn chosen_tools(flags: &Vec<bool>) -> (r: Vec<String>)
    ensures
        strs(r@) == chosen(tool_names(), flags@),
{
    let list = tools();
    let ghost names = tool_names();
    assert(names.len() == list@.len());
    let mut r: Vec<String> = Vec::new();
    let mut i: usize = 0;
    while i < list.len()
        invariant
            i <= list.len(),
            names.len() == list@.len(),
            names == tool_names(),
            crate::app::triples_of(list@) == tools_spec(),
            strs(r@) == chosen(names.take(i as int), flags@),
        decreases list.len() - i,
    {
        assert(names.take(i + 1).drop_last() =~= names.take(i as int));
        assert(names[i as int] == list@[i as int].0@);
        if i < flags.len() && flags[i] {
            r.push(owned(list[i].0));
            assert(strs(r@) =~= chosen(names.take(i as int), flags@).push(names[i as int]));
        }
        i = i + 1;
    }
    assert(names.take(list.len() as int) =~= names);
    r
}

impl App {
    fn with_tool_index(self, i: usize) -> (r: App)
        ensures
            r@ == (AppV { tool_index: i, ..self@ }),
    {
        App { tool_index: i, ..self }
    }

    fn leave_tools(self) -> (r: App)
        ensures
            r@ == (AppV { page: PageV::MainMenu, tool_index: 0, ..self@ }),
    {
        App { page: Page::MainMenu, tool_index: 0, ..self }
    }

    fn flip_at(self) -> (r: App)
        ensures
            r@ == (AppV {
                selected_tools: flip(self@.selected_tools, self.tool_index),
                tool_index: down(self.tool_index, 10),
                ..self@
            }),
    {
        let i = self.tool_index;
        let next = step_down(i, 10);
        let flags = flip_flag(self.selected_tools, i);
        App { selected_tools: flags, tool_index: next, ..self }
    }

    fn select_all_tools(self) -> (r: App)
        ensures
            r@ == (AppV { selected_tools: select_all(self@.selected_tools), ..self@ }),
    {
        let flags = select_all_flags(&self.selected_tools);
        App { selected_tools: flags, ..self }
    }

    /// A key on the tools page.
    pub fn handle_tools(self, key: &Key) -> (r: (App, Option<Action>))
        ensures
            r.0@ == tools_next(self@, *key).0,
            action_of(r.1) == tools_next(self@, *key).1,
    {
        match key {
            Key::Esc | Key::Backspace => (self.leave_tools(), None),
            Key::Up => {
                let i = step_up(self.tool_index);
                (self.with_tool_index(i), None)
            },
            Key::Down => {
                let i = step_down(self.tool_index, 10);
                (self.with_tool_index(i), None)
            },
            Key::Char(c) => {
                if *c == ' ' {
                    (self.flip_at(), None)
                } else if *c == 'a' {
                    (self.select_all_tools(), None)
                } else {
                    (self, None)
                }
            },
            Key::Enter => {
                let names = chosen_tools(&self.selected_tools);
                if names.len() == 0 {
                    (self.with_status(owned("请先选择要安装的工具")), None)
                } else {
                    let n = u64_text(names.len() as u64);
                    let msg = owned("正在安装 ").concat(n.as_str()).concat(" 个工具...");
                    (self.with_status(msg), Some(Action::InstallTools(names)))
                }
            },
            _ => (self, None),
        }
    }
}

/// A key on a page of result lines: Esc, Backspace or Enter goes back.
pub open spec fn status_next(a: AppV, key: Key) -> (AppV, Option<ActionV>) {
    match key {
        Key::Esc | Key::Backspace | Key::Enter => (AppV { page: back_of(a.page), ..a }, None),
        _ => (a, None),
    }
}

/// Where Esc leads from a page of result lines; other pages stay.
pub open spec fn back_of(p: PageV) -> PageV {
    match p {
        PageV::Status { back, .. } => *back,
        _ => p,
    }
}

fn back_page(p: Page) -> (r: Page)
    ensures
        r@ == back_of(p@),
{
    match p {
        Page::Status(data) => data.back,
        other => other,
    }
}

/// Whether `q` quits on a page: everywhere but where keys select items and
/// on result pages.
pub open spec fn quits_on(page: PageV) -> bool {
    !(page is ShellZshPlugins || page is Tools || page is Status)
}

/// The entry a digit key `1` to `9` jumps to, counted from 0; `None` for
/// any other key.
pub open spec fn digit_entry(key: Key) -> Option<usize> {
    match key {
        Key::Char(c) => if 49 <= (c as u32) && (c as u32) <= 57 {
            Some(((c as u32) - 49) as usize)
        } else {
            None
        },
        _ => None,
    }
}

/// `j` and `k` move down and up as the arrows do; other keys are themselves.
pub open spec fn nav_key(key: Key) -> Key {
    if key == Key::Char('j') {
        Key::Down
    } else if key == Key::Char('k') {
        Key::Up
    } else {
        key
    }
}

/// How many entries the list of the page shown has (none on a result page).
pub open spec fn list_len(a: AppV) -> nat {
    match a.page {
        PageV::MainMenu => main_menu_items_spec().len(),
        PageV::Shell => shell_menu_len(a) as nat,
        PageV::ShellZshTheme => themes_spec().len(),
        PageV::ShellZshPlugins => plugins_spec().len(),
        PageV::Docker => docker_menu_items_spec().len(),
        PageV::Ssh => ssh_menu_items_spec().len(),
        PageV::Tools => tools_spec().len(),
        PageV::Locale => locale_menu_items_spec().len(),
        PageV::Sources => system_mirrors_spec(a.distro).len(),
        PageV::Status { .. } => 0,
    }
}

/// The wizard with the cursor of the page shown on entry `n`; unchanged
/// when the list has no such entry.
pub open spec fn jump(a: AppV, n: usize) -> AppV {
    if n < list_len(a) {
        match a.page {
            PageV::MainMenu => AppV { menu_index: n, ..a },
            PageV::Shell => AppV { shell_index: n, ..a },
            PageV::ShellZshTheme => AppV { shell_theme_index: n, ..a },
            PageV::ShellZshPlugins => AppV { plugin_index: n, ..a },
            PageV::Docker => AppV { docker_index: n, ..a },
            PageV::Ssh => AppV { ssh_index: n, ..a },
            PageV::Tools => AppV { tool_index: n, ..a },
            PageV::Locale => AppV { locale_index: n, ..a },
            PageV::Sources => AppV { sources_index: n, ..a },
            PageV::Status { .. } => a,
        }
    } else {
        a
    }
}

/// A key on the system-mirror page: the arrows move over the mirrors, Enter
/// switches to the one under the cursor.
pub open spec fn sources_next(a: AppV, key: Key) -> (AppV, Option<ActionV>) {
    let ms = system_mirrors_spec(a.distro);
    match key {
        Key::Esc | Key::Backspace => (AppV { page: PageV::MainMenu, sources_index: 0, ..a }, None),
        Key::Up => (AppV { sources_index: up(a.sources_index), ..a }, None),
        Key::Down => if ms.len() > 0 {
            (AppV { sources_index: down(a.sources_index, (ms.len() - 1) as usize), ..a }, None)
        } else {
            (a, None)
        },
        Key::Enter => if a.sources_index < ms.len() {
            (
                AppV { status_msg: "正在切换系统源..."@, ..a },
                Some(ActionV::SwitchSystemMirror(ms[a.sources_index as int].2)),
            )
        } else {
            (a, None)
        },
        _ => (a, None),
    }
}

/// The cursor on the system-mirror page after the latencies were measured:
/// on the recommended mirror, or the first when none answered.
pub open spec fn recommended_entry(a: AppV, rec: Option<usize>) -> usize {
    match rec {
        Some(i) => if i < system_mirrors_spec(a.distro).len() { i } else { 0 },
        None => 0,
    }
}

impl App {
    fn with_sources_index(self, i: usize) -> (r: App)
        ensures
            r@ == (AppV { sources_index: i, ..self@ }),
    {
        App { sources_index: i, ..self }
    }

    fn sources_down(self) -> (r: App)
        ensures
            r@ == sources_next(self@, Key::Down).0,
    {
        let n = system_mirrors(&self.distro).len();
        if n > 0 {
            let i = step_down(self.sources_index, n - 1);
            self.with_sources_index(i)
        } else {
            self
        }
    }

    fn sources_enter(self) -> (r: (App, Option<Action>))
        ensures
            r.0@ == sources_next(self@, Key::Enter).0,
            action_of(r.1) == sources_next(self@, Key::Enter).1,
    {
        let ms = system_mirrors(&self.distro);
        if self.sources_index < ms.len() {
            let url = ms[self.sources_index].url.clone();
            proof {
                assert(mirrors_view(ms@)[self.sources_index as int].2 == ms@[self.sources_index as int].url@);
            }
            (self.with_status(owned("正在切换系统源...")), Some(Action::SwitchSystemMirror(url)))
        } else {
            (self, None)
        }
    }

    fn leave_sources(self) -> (r: App)
        ensures
            r@ == (AppV { page: PageV::MainMenu, sources_index: 0, ..self@ }),
    {
        App { page: Page::MainMenu, sources_index: 0, ..self }
    }

    /// A key on the system-mirror page.
    pub fn handle_sources(self, key: &Key) -> (r: (App, Option<Action>))
        ensures
            r.0@ == sources_next(self@, *key).0,
            action_of(r.1) == sources_next(self@, *key).1,
    {
        match key {
            Key::Esc | Key::Backspace => (self.leave_sources(), None),
            Key::Up => {
                let i = step_up(self.sources_index);
                (self.with_sources_index(i), None)
            },
            Key::Down => (self.sources_down(), None),
            Key::Enter => self.sources_enter(),
            _ => (self, None),
        }
    }

    /// Takes in the measured latency of each system mirror, and puts the
    /// cursor on the recommended one.
    pub fn with_latencies(self, latencies: Vec<Option<u64>>) -> (r: App)
        ensures
            r@ == (AppV {
                mirror_latencies: latencies@,
                sources_index: recommended_entry(self@, recommend_of(latencies@)),
                ..self@
            }),
            self.indices_ok() ==> r.indices_ok(),
    {
        let n = system_mirrors(&self.distro).len();
        let rec = recommend_index(latencies.as_slice());
        let i = match rec {
            Some(i) => if i < n { i } else { 0 },
            None => 0,
        };
        App { mirror_latencies: latencies, sources_index: i, ..self }
    }
}

/// The wizard after a key, and the work it asks for: `q` quits where it is
/// not meant for a list, a digit jumps to that entry of the list, `j` and
/// `k` move like the arrows, and every other key goes to the page shown.
pub open spec fn event_next(a: AppV, key: Key) -> (AppV, Option<ActionV>) {
    if key == Key::Char('q') && quits_on(a.page) {
        (AppV { running: false, ..a }, Some(ActionV::Quit))
    } else {
        match digit_entry(key) {
            Some(n) => (jump(a, n), None),
            None => key_next(a, nav_key(key)),
        }
    }
}

fn digit_of(key: &Key) -> (r: Option<usize>)
    ensures
        r == digit_entry(*key),
{
    match key {
        Key::Char(c) => {
            let v: u32 = *c as u32;
            if 49 <= v && v <= 57 {
                Some((v - 49) as usize)
            } else {
                None
            }
        },
        _ => None,
    }
}

fn nav_of(key: &Key) -> (r: Key)
    ensures
        r == nav_key(*key),
{
    match key {
        Key::Up => Key::Up,
        Key::Down => Key::Down,
        Key::Enter => Key::Enter,
        Key::Esc => Key::Esc,
        Key::Backspace => Key::Backspace,
        Key::Other => Key::Other,
        Key::Char(c) => if *c == 'j' {
            Key::Down
        } else if *c == 'k' {
            Key::Up
        } else {
            Key::Char(*c)
        },
    }
}

impl App {
    /// The cursor of the page shown on entry `n`, when the list has one.
    pub fn jump_to(self, n: usize) -> (r: App)
        ensures
            r@ == jump(self@, n),
    {
        let len: usize = match &self.page {
            Page::MainMenu => main_menu_items().len(),
            Page::Shell => self.shell_menu_count(),
            Page::ShellZshTheme => themes().len(),
            Page::ShellZshPlugins => plugins().len(),
            Page::Docker => docker_menu_items().len(),
            Page::Ssh => ssh_menu_items().len(),
            Page::Tools => tools().len(),
            Page::Locale => locale_menu_items().len(),
            Page::Sources => system_mirrors(&self.distro).len(),
            Page::Status(_) => 0,
        };
        if n >= len {
            return self;
        }
        match &self.page {
            Page::MainMenu => self.with_menu_index(n),
            Page::Shell => self.with_shell_index(n),
            Page::ShellZshTheme => self.with_theme_index(n),
            Page::ShellZshPlugins => self.with_plugin_index(n),
            Page::Docker => self.with_docker_index(n),
            Page::Ssh => self.with_ssh_index(n),
            Page::Tools => self.with_tool_index(n),
            Page::Locale => self.with_locale_index(n),
            Page::Sources => self.with_sources_index(n),
            Page::Status(_) => self,
        }
    }
}

impl App {
    fn go_back(self) -> (r: App)
        ensures
            r@ == (AppV { page: back_of(self@.page), ..self@ }),
    {
        let page = back_page(self.page);
        App { page, ..self }
    }

    fn stop(self) -> (r: App)
        ensures
            r@ == (AppV { running: false, ..self@ }),
    {
        App { running: false, ..self }
    }

    /// A key on a page of result lines.
    pub fn handle_status(self, key: &Key) -> (r: App)
        ensures
            r@ == status_next(self@, *key).0,
    {
        match key {
            Key::Esc | Key::Backspace | Key::Enter => self.go_back(),
            _ => self,
        }
    }
}

/// A key: `q` quits except where it could be meant for a list, a digit
/// jumps to that entry, `j` and `k` move like the arrows; every other key
/// goes to the page shown. Returns the wizard after the key and the
/// work it asks for.
pub fn handle_event(app: App, key: &Key) -> (r: (App, Option<Action>))
    requires
        app.indices_ok(),
    ensures
        r.0@ == event_next(app@, *key).0,
        action_of(r.1) == event_next(app@, *key).1,
{
    let is_q = match key {
        Key::Char(c) => *c == 'q',
        _ => false,
    };
    let quits = match &app.page {
        Page::ShellZshPlugins | Page::Tools | Page::Status(_) => false,
        _ => true,
    };
    if is_q && quits {
        return (app.stop(), Some(Action::Quit));
    }
    if let Some(n) = digit_of(key) {
        return (app.jump_to(n), None);
    }
    let k = nav_of(key);
    handle_key(app, &k)
}

/// The wizard after a key on the page shown, and the work it asks for.
pub open spec fn key_next(a: AppV, key: Key) -> (AppV, Option<ActionV>) {
    match a.page {
        PageV::MainMenu => (
            main_menu_next(a, key),
            if key == Key::Enter && a.menu_index == 5 { Some(ActionV::TestMirrors) } else { None },
        ),
        PageV::Shell => shell_next(a, key),
        PageV::ShellZshTheme => theme_next(a, key),
        PageV::ShellZshPlugins => plugins_next(a, key),
        PageV::Docker => docker_next(a, key),
        PageV::Ssh => ssh_next(a, key),
        PageV::Tools => tools_next(a, key),
        PageV::Locale => locale_next(a, key),
        PageV::Sources => sources_next(a, key),
        PageV::Status { .. } => status_next(a, key),
    }
}

/// A key on the page shown.
pub fn handle_key(app: App, key: &Key) -> (r: (App, Option<Action>))
    requires
        app.indices_ok(),
    ensures
        r.0@ == key_next(app@, *key).0,
        action_of(r.1) == key_next(app@, *key).1,
{
    match &app.page {
        Page::MainMenu => {
            let test = match key {
                Key::Enter => app.menu_index == 5,
                _ => false,
            };
            let next = app.handle_main_menu(key);
            (next, if test { Some(Action::TestMirrors) } else { None })
        },
        Page::Shell => app.handle_shell(key),
        Page::ShellZshTheme => app.handle_theme(key),
        Page::ShellZshPlugins => app.handle_plugins(key),
        Page::Docker => app.handle_docker(key),
        Page::Ssh => app.handle_ssh(key),
        Page::Tools => app.handle_tools(key),
        Page::Locale => app.handle_locale(key),
        Page::Sources => app.handle_sources(key),
        Page::Status(_) => (app.handle_status(key), None),
    }
}

/// An outcome, its texts as character sequences.
pub open spec fn outcome_of(o: Result<String, String>) -> Result<Seq<char>, Seq<char>> {
    match o {
        Ok(m) => Ok(m@),
        Err(e) => Err(e@),
    }
}

/// The status after work whose success says `done`, or whose failure is
/// told after `failed`.
pub open spec fn reported(outcome: Result<Seq<char>, Seq<char>>, done: Seq<char>, failed: Seq<char>) -> Seq<char> {
    match outcome {
        Ok(_) => done,
        Err(e) => failed + e,
    }
}

/// The status after the outcome of a piece of work.
pub open spec fn status_after(e: ActionV, outcome: Result<Seq<char>, Seq<char>>) -> Seq<char> {
    match e {
        ActionV::InstallZsh => reported(outcome, "✅ zsh 安装成功"@, "❌ zsh 安装失败: "@),
        ActionV::InstallOhMyZsh => reported(outcome, "✅ Oh My Zsh 安装成功"@, "❌ Oh My Zsh 安装失败: "@),
        ActionV::SetDefaultShell => reported(
            outcome,
            "✅ zsh 已设为默认 Shell (重新登录生效)"@,
            "❌ 设置失败: "@,
        ),
        ActionV::SetTheme(t) => reported(outcome, "✅ 主题已设置为: "@ + t, "❌ 主题设置失败: "@),
        ActionV::SetPlugins(p) => reported(
            outcome,
            "✅ 已配置 "@ + decimal(p.len()) + " 个插件"@,
            "❌ 插件配置失败: "@,
        ),
        ActionV::InstallDocker => reported(outcome, "✅ Docker 安装成功"@, "❌ "@),
        ActionV::InstallCompose => reported(outcome, "✅ Docker Compose 安装成功"@, "❌ "@),
        ActionV::AddUserToDockerGroup => reported(
            outcome,
            "✅ 已将当前用户加入 docker 组 (重新登录生效)"@,
            "❌ "@,
        ),
        ActionV::StartDockerService => reported(outcome, "✅ Docker 服务已启动并设为开机自启"@, "❌ "@),
        ActionV::GenerateEd25519 => reported(outcome, "✅ Ed25519 密钥已生成"@, "❌ 生成失败: "@),
        ActionV::GenerateRsa => reported(outcome, "✅ RSA 4096 密钥已生成"@, "❌ 生成失败: "@),
        ActionV::InstallTools(names) => reported(
            outcome,
            "✅ "@ + decimal(names.len()) + " 个工具安装成功"@,
            "❌ "@,
        ),
        ActionV::ConfigureLocale => reported(outcome, "✅ 中文 locale 配置成功"@, "❌ "@),
        ActionV::InstallCjkFonts => reported(outcome, "✅ 中文字体安装成功"@, "❌ "@),
        ActionV::InstallFcitx5 => reported(
            outcome,
            "✅ Fcitx5 输入法安装成功 (重新登录生效)"@,
            "❌ "@,
        ),
        ActionV::ClearDocker => reported(outcome, "✅ Docker 配置已清除"@, "❌ "@),
        ActionV::ClearSshKeys => reported(outcome, "✅ SSH 密钥已清除"@, "❌ "@),
        ActionV::ClearLocale => reported(outcome, "✅ 中文配置已清除"@, "❌ "@),
        ActionV::SwitchSystemMirror(_) => reported(outcome, "✅ 系统源已切换"@, "❌ "@),
        _ => Seq::empty(),
    }
}

/// The wizard after the outcome of a piece of work: the status tells
/// success or the error, and what succeeded is marked done; a key that was
/// generated or read is shown.
pub open spec fn finish_next(a: AppV, e: ActionV, outcome: Result<Seq<char>, Seq<char>>) -> AppV {
    let ok = outcome is Ok;
    let msg = status_after(e, outcome);
    match e {
        ActionV::Quit | ActionV::TestMirrors => a,
        ActionV::InstallZsh => AppV { zsh_installed: a.zsh_installed || ok, status_msg: msg, ..a },
        ActionV::InstallOhMyZsh => AppV {
            omz_installed: a.omz_installed || ok,
            omz_configured: a.omz_configured || ok,
            status_msg: msg,
            ..a
        },
        ActionV::SetDefaultShell => AppV {
            default_shell_set: a.default_shell_set || ok,
            status_msg: msg,
            ..a
        },
        ActionV::GenerateEd25519 | ActionV::GenerateRsa => match outcome {
            Ok(k) => AppV { ssh_key_exists: true, last_pubkey: k, status_msg: msg, ..a },
            Err(_) => AppV { status_msg: msg, ..a },
        },
        ActionV::ReadPublicKey => match outcome {
            Ok(k) => AppV { last_pubkey: k, ..a },
            Err(m) => AppV { status_msg: "❌ 读取失败: "@ + m, ..a },
        },
        ActionV::ClearSshKeys => if ok {
            AppV { ssh_key_exists: false, last_pubkey: Seq::empty(), status_msg: msg, ..a }
        } else {
            AppV { status_msg: msg, ..a }
        },
        _ => AppV { status_msg: msg, ..a },
    }
}

/// The status after an outcome.
fn report(outcome: &Result<String, String>, done: String, failed: &str) -> (r: String)
    ensures
        r@ == reported(outcome_of(*outcome), done@, failed@),
{
    match outcome {
        Ok(_) => done,
        Err(e) => owned(failed).concat(e.as_str()),
    }
}

impl App {
    fn finished(self, msg: String, zsh: bool, omz: bool, default_shell: bool) -> (r: App)
        ensures
            r@ == (AppV {
                status_msg: msg@,
                zsh_installed: self.zsh_installed || zsh,
                omz_installed: self.omz_installed || omz,
                omz_configured: self.omz_configured || omz,
                default_shell_set: self.default_shell_set || default_shell,
                ..self@
            }),
    {
        let z = self.zsh_installed || zsh;
        let o = self.omz_installed || omz;
        let c = self.omz_configured || omz;
        let d = self.default_shell_set || default_shell;
        App {
            status_msg: msg,
            zsh_installed: z,
            omz_installed: o,
            omz_configured: c,
            default_shell_set: d,
            ..self
        }
    }

    fn key_made(self, key: String, msg: String) -> (r: App)
        ensures
            r@ == (AppV { ssh_key_exists: true, last_pubkey: key@, status_msg: msg@, ..self@ }),
    {
        App { ssh_key_exists: true, last_pubkey: key, status_msg: msg, ..self }
    }

    fn with_pubkey(self, key: String) -> (r: App)
        ensures
            r@ == (AppV { last_pubkey: key@, ..self@ }),
    {
        App { last_pubkey: key, ..self }
    }

    /// Takes in the outcome of a piece of work: `Ok` with what it produced
    /// (the public key, for the key pages), or `Err` with the error.
    pub fn finish(self, effect: &Action, outcome: Result<String, String>) -> (r: App)
        ensures
            r@ == finish_next(self@, effect@, outcome_of(outcome)),
    {
        match effect {
            Action::Quit | Action::TestMirrors => self,
            Action::InstallZsh | Action::InstallOhMyZsh | Action::SetDefaultShell => {
                self.finish_shell(effect, outcome)
            },
            Action::GenerateEd25519 | Action::GenerateRsa | Action::ReadPublicKey => {
                self.finish_key(effect, outcome)
            },
            Action::ClearSshKeys => {
                let ok = outcome.is_ok();
                let m = status_text(effect, &outcome);
                if ok {
                    self.keys_cleared(m)
                } else {
                    self.with_status(m)
                }
            },
            _ => self.finish_other(effect, outcome),
        }
    }

    fn finish_shell(self, effect: &Action, outcome: Result<String, String>) -> (r: App)
        requires
            effect is InstallZsh || effect is InstallOhMyZsh || effect is SetDefaultShell,
        ensures
            r@ == finish_next(self@, effect@, outcome_of(outcome)),
    {
        let ok = outcome.is_ok();
        let m = status_text(effect, &outcome);
        match effect {
            Action::InstallZsh => self.finished(m, ok, false, false),
            Action::InstallOhMyZsh => self.finished(m, false, ok, false),
            _ => self.finished(m, false, false, ok),
        }
    }

    fn finish_key(self, effect: &Action, outcome: Result<String, String>) -> (r: App)
        requires
            effect is GenerateEd25519 || effect is GenerateRsa || effect is ReadPublicKey,
        ensures
            r@ == finish_next(self@, effect@, outcome_of(outcome)),
    {
        let m = status_text(effect, &outcome);
        match effect {
            Action::ReadPublicKey => match outcome {
                Ok(k) => self.with_pubkey(k),
                Err(e) => self.with_status(owned("❌ 读取失败: ").concat(e.as_str())),
            },
            _ => match outcome {
                Ok(k) => self.key_made(k, m),
                Err(_) => self.with_status(m),
            },
        }
    }

    fn keys_cleared(self, msg: String) -> (r: App)
        ensures
            r@ == (AppV { ssh_key_exists: false, last_pubkey: Seq::empty(), status_msg: msg@, ..self@ }),
    {
        App { ssh_key_exists: false, last_pubkey: String::new(), status_msg: msg, ..self }
    }

    fn finish_other(self, effect: &Action, outcome: Result<String, String>) -> (r: App)
        requires
            !(effect is Quit || effect is TestMirrors || effect is InstallZsh || effect is InstallOhMyZsh
                || effect is SetDefaultShell || effect is GenerateEd25519 || effect is GenerateRsa
                || effect is ReadPublicKey || effect is ClearSshKeys),
        ensures
            r@ == finish_next(self@, effect@, outcome_of(outcome)),
    {
        let m = status_text(effect, &outcome);
        self.with_status(m)
    }
}

/// The status after the outcome of a piece of work.
fn status_text(effect: &Action, outcome: &Result<String, String>) -> (m: String)
    ensures
        m@ == status_after(effect@, outcome_of(*outcome)),
{
    match effect {
        Action::InstallZsh => report(outcome, owned("✅ zsh 安装成功"), "❌ zsh 安装失败: "),
        Action::InstallOhMyZsh => report(outcome, owned("✅ Oh My Zsh 安装成功"), "❌ Oh My Zsh 安装失败: "),
        Action::SetDefaultShell => report(
            outcome,
            owned("✅ zsh 已设为默认 Shell (重新登录生效)"),
            "❌ 设置失败: ",
        ),
        Action::SetTheme(t) => report(outcome, owned("✅ 主题已设置为: ").concat(t.as_str()), "❌ 主题设置失败: "),
        Action::SetPlugins(p) => {
            let n = u64_text(p.len() as u64);
            let done = owned("✅ 已配置 ").concat(n.as_str()).concat(" 个插件");
            report(outcome, done, "❌ 插件配置失败: ")
        },
        Action::InstallDocker => report(outcome, owned("✅ Docker 安装成功"), "❌ "),
        Action::InstallCompose => report(outcome, owned("✅ Docker Compose 安装成功"), "❌ "),
        Action::AddUserToDockerGroup => report(
            outcome,
            owned("✅ 已将当前用户加入 docker 组 (重新登录生效)"),
            "❌ ",
        ),
        Action::StartDockerService => report(outcome, owned("✅ Docker 服务已启动并设为开机自启"), "❌ "),
        Action::GenerateEd25519 => report(outcome, owned("✅ Ed25519 密钥已生成"), "❌ 生成失败: "),
        Action::GenerateRsa => report(outcome, owned("✅ RSA 4096 密钥已生成"), "❌ 生成失败: "),
        Action::ClearDocker => report(outcome, owned("✅ Docker 配置已清除"), "❌ "),
        Action::ClearSshKeys => report(outcome, owned("✅ SSH 密钥已清除"), "❌ "),
        Action::ClearLocale => report(outcome, owned("✅ 中文配置已清除"), "❌ "),
        Action::SwitchSystemMirror(_) => report(outcome, owned("✅ 系统源已切换"), "❌ "),
        Action::InstallTools(names) => {
            let n = u64_text(names.len() as u64);
            let done = owned("✅ ").concat(n.as_str()).concat(" 个工具安装成功");
            report(outcome, done, "❌ ")
        },
        Action::ConfigureLocale => report(outcome, owned("✅ 中文 locale 配置成功"), "❌ "),
        Action::InstallCjkFonts => report(outcome, owned("✅ 中文字体安装成功"), "❌ "),
        Action::InstallFcitx5 => report(
            outcome,
            owned("✅ Fcitx5 输入法安装成功 (重新登录生效)"),
            "❌ ",
        ),
        _ => String::new(),
    }
}

/// Where `first_pos` lands: on the first `t`, or past the end when there
/// is none.
pub proof fn lemma_first_pos_found(names: Seq<Seq<char>>, t: Seq<char>)
    ensures
        first_pos(names, t) <= names.len(),
        first_pos(names, t) < names.len() ==> names[first_pos(names, t) as int] == t,
        forall|j: int| 0 <= j < first_pos(names, t) ==> names[j] != t,
        first_pos(names, t) == names.len() <==> !names.contains(t),
    decreases names.len(),
{
    if names.len() > 0 && names[0] != t {
        let rest = names.drop_first();
        lemma_first_pos_found(rest, t);
        assert forall|j: int| 0 <= j < first_pos(names, t) implies names[j] != t by {
            if j > 0 {
                assert(names[j] == rest[j - 1]);
            }
        }
        if names.contains(t) {
            let k = choose|k: int| 0 <= k < names.len() && names[k] == t;
            assert(rest[k - 1] == t);
        }
        if rest.contains(t) {
            let k = choose|k: int| 0 <= k < rest.len() && rest[k] == t;
            assert(names[k + 1] == t);
        }
    } else if names.len() > 0 {
        assert(names.contains(t));
    }
}

/// No name occurs twice.
pub open spec fn no_dups(l: Seq<Seq<char>>) -> bool {
    forall|i: int, j: int| 0 <= i < j < l.len() ==> l[i] != l[j]
}

/// Law: Space on a plugin selects it when it was not selected and
/// deselects it when it was, leaves every other plugin as it was, and keeps
/// a selection without repeats free of repeats.
pub proof fn law_toggle_flips(l: Seq<Seq<char>>, n: Seq<char>)
    requires
        no_dups(l),
    ensures
        toggled(l, n).contains(n) == !l.contains(n),
        forall|x: Seq<char>| x != n ==> (toggled(l, n).contains(x) == l.contains(x)),
        no_dups(toggled(l, n)),
{
    lemma_first_pos_found(l, n);
    let p = first_pos(l, n);
    let r = toggled(l, n);
    if p < l.len() {
        assert(r == l.remove(p as int));
        assert forall|x: Seq<char>| x != n implies (r.contains(x) == l.contains(x)) by {
            if l.contains(x) {
                let k = choose|k: int| 0 <= k < l.len() && l[k] == x;
                if k < p {
                    assert(r[k] == x);
                } else {
                    assert(k != p);
                    assert(r[k - 1] == x);
                }
            }
            if r.contains(x) {
                let k = choose|k: int| 0 <= k < r.len() && r[k] == x;
                if k < p {
                    assert(l[k] == x);
                } else {
                    assert(l[k + 1] == x);
                }
            }
        }
        if r.contains(n) {
            let k = choose|k: int| 0 <= k < r.len() && r[k] == n;
            if k < p {
                assert(l[k] == n);
            } else {
                assert(l[k + 1] == n);
                assert(l[p as int] == l[k + 1]);
            }
        }
    } else {
        assert(r == l.push(n));
        assert(r[l.len() as int] == n);
        assert forall|x: Seq<char>| x != n implies (r.contains(x) == l.contains(x)) by {
            if l.contains(x) {
                let k = choose|k: int| 0 <= k < l.len() && l[k] == x;
                assert(r[k] == x);
            }
            if r.contains(x) {
                let k = choose|k: int| 0 <= k < r.len() && r[k] == x;
                assert(k < l.len());
                assert(l[k] == x);
            }
        }
    }
}

/// Law: Enter on the tools page asks to install exactly the selected
/// tools.
pub proof fn law_installs_selected(names: Seq<Seq<char>>, flags: Seq<bool>, x: Seq<char>)
    ensures
        chosen(names, flags).contains(x) <==> exists|i: int|
            0 <= i < names.len() && i < flags.len() && flags[i] && names[i] == x,
    decreases names.len(),
{
    if names.len() > 0 {
        let k = names.len() - 1;
        let init = names.drop_last();
        law_installs_selected(init, flags, x);
        let rest = chosen(init, flags);
        if chosen(names, flags).contains(x) {
            if k < flags.len() && flags[k] && x == names[k] {
                assert(0 <= k < names.len() && k < flags.len() && flags[k] && names[k] == x);
            } else {
                if k < flags.len() && flags[k] {
                    let j = choose|j: int| 0 <= j < rest.push(names[k]).len() && rest.push(names[k])[j] == x;
                    assert(j < rest.len());
                    assert(rest[j] == x);
                }
                assert(rest.contains(x));
                let i = choose|i: int| 0 <= i < init.len() && i < flags.len() && flags[i] && init[i] == x;
                assert(names[i] == x);
            }
        }
        if exists|i: int| 0 <= i < names.len() && i < flags.len() && flags[i] && names[i] == x {
            let i = choose|i: int| 0 <= i < names.len() && i < flags.len() && flags[i] && names[i] == x;
            if i == k {
                assert(chosen(names, flags) == rest.push(names[k]));
                assert(chosen(names, flags)[rest.len() as int] == x);
            } else {
                assert(init[i] == x);
                assert(rest.contains(x));
                let j = choose|j: int| 0 <= j < rest.len() && rest[j] == x;
                if k < flags.len() && flags[k] {
                    assert(rest.push(names[k])[j] == x);
                } else {
                    assert(chosen(names, flags)[j] == x);
                }
            }
        }
    }
}

proof fn lemma_list_lengths()
    ensures
        themes_spec().len() == 13,
        plugins_spec().len() == 14,
        tools_spec().len() == 11,
        main_menu_items_spec().len() == 6,
        docker_menu_items_spec().len() == 5,
        ssh_menu_items_spec().len() == 4,
        locale_menu_items_spec().len() == 4,
{
}

proof fn lemma_steps(i: usize, last: usize)
    ensures
        up(i) <= i,
        down(i, last) <= last,
{
    reveal(up);
    reveal(down);
}

proof fn lemma_main_menu_keeps_indices(a: AppV, key: Key)
    requires
        indices_in(a),
    ensures
        indices_in((main_menu_next(a, key), None::<ActionV>).0),
{
    lemma_list_lengths();
    lemma_steps(a.menu_index, 5);
    lemma_steps(a.shell_theme_index, 12);
    lemma_steps(a.plugin_index, 13);
    lemma_steps(a.docker_index, 4);
    lemma_steps(a.ssh_index, 3);
    lemma_steps(a.tool_index, 10);
    lemma_steps(a.locale_index, 3);
}

proof fn lemma_shell_keeps_indices(a: AppV, key: Key)
    requires
        indices_in(a),
    ensures
        indices_in(shell_next(a, key).0),
{
    lemma_list_lengths();
    lemma_steps(a.menu_index, 5);
    lemma_steps(a.shell_theme_index, 12);
    lemma_steps(a.plugin_index, 13);
    lemma_steps(a.docker_index, 4);
    lemma_steps(a.ssh_index, 3);
    lemma_steps(a.tool_index, 10);
    lemma_steps(a.locale_index, 3);
    assert(theme_position(a.selected_theme) < 13);
}

proof fn lemma_theme_keeps_indices(a: AppV, key: Key)
    requires
        indices_in(a),
    ensures
        indices_in(theme_next(a, key).0),
{
    lemma_list_lengths();
    lemma_steps(a.menu_index, 5);
    lemma_steps(a.shell_theme_index, 12);
    lemma_steps(a.plugin_index, 13);
    lemma_steps(a.docker_index, 4);
    lemma_steps(a.ssh_index, 3);
    lemma_steps(a.tool_index, 10);
    lemma_steps(a.locale_index, 3);
}

proof fn lemma_plugins_keeps_indices(a: AppV, key: Key)
    requires
        indices_in(a),
    ensures
        indices_in(plugins_next(a, key).0),
{
    lemma_list_lengths();
    lemma_steps(a.menu_index, 5);
    lemma_steps(a.shell_theme_index, 12);
    lemma_steps(a.plugin_index, 13);
    lemma_steps(a.docker_index, 4);
    lemma_steps(a.ssh_index, 3);
    lemma_steps(a.tool_index, 10);
    lemma_steps(a.locale_index, 3);
}

proof fn lemma_docker_keeps_indices(a: AppV, key: Key)
    requires
        indices_in(a),
    ensures
        indices_in(docker_next(a, key).0),
{
    lemma_list_lengths();
    lemma_steps(a.menu_index, 5);
    lemma_steps(a.shell_theme_index, 12);
    lemma_steps(a.plugin_index, 13);
    lemma_steps(a.docker_index, 4);
    lemma_steps(a.ssh_index, 3);
    lemma_steps(a.tool_index, 10);
    lemma_steps(a.locale_index, 3);
}

proof fn lemma_ssh_keeps_indices(a: AppV, key: Key)
    requires
        indices_in(a),
    ensures
        indices_in(ssh_next(a, key).0),
{
    lemma_list_lengths();
    lemma_steps(a.menu_index, 5);
    lemma_steps(a.shell_theme_index, 12);
    lemma_steps(a.plugin_index, 13);
    lemma_steps(a.docker_index, 4);
    lemma_steps(a.ssh_index, 3);
    lemma_steps(a.tool_index, 10);
    lemma_steps(a.locale_index, 3);
}

proof fn lemma_tools_keeps_indices(a: AppV, key: Key)
    requires
        indices_in(a),
    ensures
        indices_in(tools_next(a, key).0),
{
    lemma_list_lengths();
    lemma_steps(a.menu_index, 5);
    lemma_steps(a.shell_theme_index, 12);
    lemma_steps(a.plugin_index, 13);
    lemma_steps(a.docker_index, 4);
    lemma_steps(a.ssh_index, 3);
    lemma_steps(a.tool_index, 10);
    lemma_steps(a.locale_index, 3);
    assert(select_all(a.selected_tools).len() == a.selected_tools.len());
    assert(flip(a.selected_tools, a.tool_index).len() == a.selected_tools.len());
}

proof fn lemma_locale_keeps_indices(a: AppV, key: Key)
    requires
        indices_in(a),
    ensures
        indices_in(locale_next(a, key).0),
{
    lemma_list_lengths();
    lemma_steps(a.menu_index, 5);
    lemma_steps(a.shell_theme_index, 12);
    lemma_steps(a.plugin_index, 13);
    lemma_steps(a.docker_index, 4);
    lemma_steps(a.ssh_index, 3);
    lemma_steps(a.tool_index, 10);
    lemma_steps(a.locale_index, 3);
}

proof fn lemma_status_keeps_indices(a: AppV, key: Key)
    requires
        indices_in(a),
    ensures
        indices_in(status_next(a, key).0),
{
    lemma_list_lengths();
    lemma_steps(a.menu_index, 5);
    lemma_steps(a.shell_theme_index, 12);
    lemma_steps(a.plugin_index, 13);
    lemma_steps(a.docker_index, 4);
    lemma_steps(a.ssh_index, 3);
    lemma_steps(a.tool_index, 10);
    lemma_steps(a.locale_index, 3);
}

proof fn lemma_sources_keeps_indices(a: AppV, key: Key)
    requires
        indices_in(a),
    ensures
        indices_in(sources_next(a, key).0),
{
    lemma_list_lengths();
    let n = system_mirrors_spec(a.distro).len();
    if n > 0 {
        lemma_steps(a.sources_index, (n - 1) as usize);
    }
    lemma_steps(a.sources_index, 0);
}

/// Law: every key, and every outcome taken in, keeps the selections inside
/// their lists.
pub proof fn law_keys_keep_indices(a: AppV, key: Key, e: ActionV, outcome: Result<Seq<char>, Seq<char>>)
    requires
        indices_in(a),
    ensures
        indices_in(event_next(a, key).0),
        indices_in(finish_next(a, e, outcome)),
{
    lemma_list_lengths();
    let k = nav_key(key);
    match a.page {
        PageV::MainMenu => lemma_main_menu_keeps_indices(a, k),
        PageV::Shell => lemma_shell_keeps_indices(a, k),
        PageV::ShellZshTheme => lemma_theme_keeps_indices(a, k),
        PageV::ShellZshPlugins => lemma_plugins_keeps_indices(a, k),
        PageV::Docker => lemma_docker_keeps_indices(a, k),
        PageV::Ssh => lemma_ssh_keeps_indices(a, k),
        PageV::Tools => lemma_tools_keeps_indices(a, k),
        PageV::Locale => lemma_locale_keeps_indices(a, k),
        PageV::Sources => lemma_sources_keeps_indices(a, k),
        PageV::Status { .. } => lemma_status_keeps_indices(a, k),
    }
}

/// Law: `q` stops the wizard on every page but the plugin list, the tools
/// page and result pages, and changes nothing else.
pub proof fn law_q_quits(a: AppV)
    ensures
        quits_on(a.page) ==> event_next(a, Key::Char('q')) == (
            AppV { running: false, ..a },
            Some(ActionV::Quit),
        ),
        !quits_on(a.page) ==> event_next(a, Key::Char('q')).1 != Some(ActionV::Quit),
{
}

} // verus!
