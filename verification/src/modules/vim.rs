//! Vim: the editor, the Vundle plugin manager and `~/.vimrc`.
use vstd::prelude::*;
use vstd::string::*;
use crate::distro::{
    family_of, install_packages, install_packages_spec, is_package_installed,
    is_package_installed_spec, res_cmd, uninstall_packages, uninstall_packages_spec, Distro,
    DistroV,
};
use crate::text::{
    chars_of, contains, lemma_contains_append, lemma_contains_extend, lemma_contains_self, path_join,
    path_join_str, push_str, string_of,
};
use crate::utils::{
    as_user, as_user_spec, cmd, cmds, command, ensure_command, ensure_command_spec, lits, opt_cmd,
    opt_lit, owned, plan_view, single, strs, then, then_plan, with_args, CommandV, ShellCommand,
};

verus! {

/// The plugins offered, by index: name and GitHub repository.
pub open spec fn vim_plugin_spec(i: int) -> Option<(Seq<char>, Seq<char>)> {
    if i == 0 {
        Some(("nerdtree"@, "preservim/nerdtree"@))
    } else if i == 1 {
        Some(("vim-airline"@, "vim-airline/vim-airline"@))
    } else if i == 2 {
        Some(("vim-fugitive"@, "tpope/vim-fugitive"@))
    } else if i == 3 {
        Some(("nerdcommenter"@, "preservim/nerdcommenter"@))
    } else if i == 4 {
        Some(("vim-surround"@, "tpope/vim-surround"@))
    } else if i == 5 {
        Some(("vim-commentary"@, "tpope/vim-commentary"@))
    } else if i == 6 {
        Some(("auto-pairs"@, "jiangmiao/auto-pairs"@))
    } else if i == 7 {
        Some(("vim-gitgutter"@, "airblade/vim-gitgutter"@))
    } else if i == 8 {
        Some(("vim-easymotion"@, "easymotion/vim-easymotion"@))
    } else if i == 9 {
        Some(("ctrlp.vim"@, "ctrlpvim/ctrlp.vim"@))
    } else if i == 10 {
        Some(("vim-markdown"@, "preservim/vim-markdown"@))
    } else if i == 11 {
        Some(("tagbar"@, "preservim/tagbar"@))
    } else {
        None
    }
}

/// The plugins offered, by index: name and GitHub repository.
pub fn vim_plugin(i: usize) -> (r: Option<(&'static str, &'static str)>)
    ensures
        match r {
            Some(p) => vim_plugin_spec(i as int) == Some((p.0@, p.1@)),
            None => vim_plugin_spec(i as int) is None,
        },
{
    if i == 0 {
        return Some(("nerdtree", "preservim/nerdtree"));
    }
    if i == 1 {
        return Some(("vim-airline", "vim-airline/vim-airline"));
    }
    if i == 2 {
        return Some(("vim-fugitive", "tpope/vim-fugitive"));
    }
    if i == 3 {
        return Some(("nerdcommenter", "preservim/nerdcommenter"));
    }
    if i == 4 {
        return Some(("vim-surround", "tpope/vim-surround"));
    }
    if i == 5 {
        return Some(("vim-commentary", "tpope/vim-commentary"));
    }
    if i == 6 {
        return Some(("auto-pairs", "jiangmiao/auto-pairs"));
    }
    if i == 7 {
        return Some(("vim-gitgutter", "airblade/vim-gitgutter"));
    }
    if i == 8 {
        return Some(("vim-easymotion", "easymotion/vim-easymotion"));
    }
    if i == 9 {
        return Some(("ctrlp.vim", "ctrlpvim/ctrlp.vim"));
    }
    if i == 10 {
        return Some(("vim-markdown", "preservim/vim-markdown"));
    }
    if i == 11 {
        return Some(("tagbar", "preservim/tagbar"));
    }
    None
}

/// The editor options offered, by index: a name and the lines that set it.
pub open spec fn vim_opt_spec(i: int) -> Option<(Seq<char>, Seq<Seq<char>>)> {
    if i == 0 {
        Some(("mouse"@, seq!["set mouse=a"@]))
    } else if i == 1 {
        Some(("scrolloff"@, seq!["set scrolloff=5"@]))
    } else if i == 2 {
        Some(("laststatus"@, seq!["set laststatus=2"@]))
    } else if i == 3 {
        Some(("ignorecase"@, seq!["set ignorecase"@]))
    } else if i == 4 {
        Some(("fileformat"@, seq!["set fileformat=unix"@]))
    } else if i == 5 {
        Some(("cindent"@, seq!["set cindent"@]))
    } else if i == 6 {
        Some(("autoread"@, seq!["set autoread"@]))
    } else if i == 7 {
        Some(("whichwrap"@, seq!["set whichwrap+=<,>,h,l"@]))
    } else if i == 8 {
        Some(("matchtime"@, seq!["set matchtime=5"@]))
    } else if i == 9 {
        Some(("selection"@, seq!["set selection=exclusive"@, "set selectmode=mouse,key"@]))
    } else if i == 10 {
        Some(("guioptions"@, seq!["set guioptions-=r"@, "set guioptions-=L"@, "set guioptions-=b"@]))
    } else if i == 11 {
        Some(("showtabline"@, seq!["set showtabline=0"@]))
    } else {
        None
    }
}

/// The editor options offered, by index.
pub fn vim_opt(i: usize) -> (r: Option<(&'static str, Vec<&'static str>)>)
    ensures
        match r {
            Some(p) => vim_opt_spec(i as int) == Some((p.0@, lits(p.1@))),
            None => vim_opt_spec(i as int) is None,
        },
{
    if i == 0 {
        let v: Vec<&'static str> = vec!["set mouse=a"];
        assert(lits(v@) =~= seq!["set mouse=a"@]);
        return Some(("mouse", v));
    }
    if i == 1 {
        let v: Vec<&'static str> = vec!["set scrolloff=5"];
        assert(lits(v@) =~= seq!["set scrolloff=5"@]);
        return Some(("scrolloff", v));
    }
    if i == 2 {
        let v: Vec<&'static str> = vec!["set laststatus=2"];
        assert(lits(v@) =~= seq!["set laststatus=2"@]);
        return Some(("laststatus", v));
    }
    if i == 3 {
        let v: Vec<&'static str> = vec!["set ignorecase"];
        assert(lits(v@) =~= seq!["set ignorecase"@]);
        return Some(("ignorecase", v));
    }
    if i == 4 {
        let v: Vec<&'static str> = vec!["set fileformat=unix"];
        assert(lits(v@) =~= seq!["set fileformat=unix"@]);
        return Some(("fileformat", v));
    }
    if i == 5 {
        let v: Vec<&'static str> = vec!["set cindent"];
        assert(lits(v@) =~= seq!["set cindent"@]);
        return Some(("cindent", v));
    }
    if i == 6 {
        let v: Vec<&'static str> = vec!["set autoread"];
        assert(lits(v@) =~= seq!["set autoread"@]);
        return Some(("autoread", v));
    }
    if i == 7 {
        let v: Vec<&'static str> = vec!["set whichwrap+=<,>,h,l"];
        assert(lits(v@) =~= seq!["set whichwrap+=<,>,h,l"@]);
        return Some(("whichwrap", v));
    }
    if i == 8 {
        let v: Vec<&'static str> = vec!["set matchtime=5"];
        assert(lits(v@) =~= seq!["set matchtime=5"@]);
        return Some(("matchtime", v));
    }
    if i == 9 {
        let v: Vec<&'static str> = vec!["set selection=exclusive", "set selectmode=mouse,key"];
        assert(lits(v@) =~= seq!["set selection=exclusive"@, "set selectmode=mouse,key"@]);
        return Some(("selection", v));
    }
    if i == 10 {
        let v: Vec<&'static str> = vec!["set guioptions-=r", "set guioptions-=L", "set guioptions-=b"];
        assert(lits(v@) =~= seq!["set guioptions-=r"@, "set guioptions-=L"@, "set guioptions-=b"@]);
        return Some(("guioptions", v));
    }
    if i == 11 {
        let v: Vec<&'static str> = vec!["set showtabline=0"];
        assert(lits(v@) =~= seq!["set showtabline=0"@]);
        return Some(("showtabline", v));
    }
    None
}

/// The beginning of `~/.vimrc`, up to the plugin list.
pub open spec fn vimrc_header() -> Seq<char> {
    "set nocompatible\nfiletype off\n\nset rtp+=~/.vim/bundle/Vundle.vim\ncall vundle#begin()\n\nPlugin 'VundleVim/Vundle.vim'\n\n"@
}

/// The part of `~/.vimrc` after the plugin list: the editor settings.
pub open spec fn vimrc_middle() -> Seq<char> {
    "\ncall vundle#end()\nfiletype plugin indent on\n\nsyntax on\nset number\nset relativenumber\nset cursorline\nset showmatch\nset hlsearch\nset incsearch\nset tabstop=4\nset shiftwidth=4\nset expandtab\nset autoindent\nset smartindent\nset encoding=utf-8\nset termencoding=utf-8\nset backspace=indent,eol,start\n"@
}

/// The `Plugin` lines of the selected plugins, in the order given; indices
/// that name no plugin are skipped.
pub open spec fn plugin_lines(ps: Seq<usize>) -> Seq<char>
    decreases ps.len(),
{
    if ps.len() == 0 {
        seq![]
    } else {
        plugin_lines(ps.drop_last()) + match vim_plugin_spec(ps.last() as int) {
            Some(p) => "Plugin '"@ + p.1 + "'\n"@,
            None => seq![],
        }
    }
}

/// Extra settings for some selected plugins.
pub open spec fn plugin_sections(ps: Seq<usize>) -> Seq<char> {
    (if ps.contains(0) {
        "\n\" NERDTree\nnnoremap <C-n> :NERDTreeToggle<CR>\n"@
    } else {
        seq![]
    }) + (if ps.contains(1) {
        "\n\" vim-airline\nlet g:airline_powerline_fonts = 1\n"@
    } else {
        seq![]
    }) + (if ps.contains(9) {
        "\n\" CtrlP\nlet g:ctrlp_map = '<c-p>'\n"@
    } else {
        seq![]
    }) + (if ps.contains(8) {
        "\n\" vim-easymotion\nlet g:EasyMotion_smartcase = 1\n"@
    } else {
        seq![]
    })
}

/// The lines that set one option: a comment with its name, then its lines.
pub open spec fn opt_block(name: Seq<char>, ls: Seq<Seq<char>>) -> Seq<char> {
    "\" "@ + name + "\n"@ + lines_block(ls)
}

/// Lines, each with a line ending.
pub open spec fn lines_block(ls: Seq<Seq<char>>) -> Seq<char>
    decreases ls.len(),
{
    if ls.len() == 0 {
        seq![]
    } else {
        lines_block(ls.drop_last()) + ls.last() + "\n"@
    }
}

/// The blocks of the selected options, in the order given; indices that
/// name no option are skipped.
pub open spec fn opt_lines(os: Seq<usize>) -> Seq<char>
    decreases os.len(),
{
    if os.len() == 0 {
        seq![]
    } else {
        opt_lines(os.drop_last()) + match vim_opt_spec(os.last() as int) {
            Some(o) => opt_block(o.0, o.1),
            None => seq![],
        }
    }
}

/// The option section: empty when no option is selected.
pub open spec fn opt_section(os: Seq<usize>) -> Seq<char> {
    if os.len() == 0 {
        seq![]
    } else {
        "\n\" ===== Vim Optimizations =====\n"@ + opt_lines(os)
    }
}

/// The whole `~/.vimrc` for the selected plugins and options.
pub open spec fn vimrc_spec(ps: Seq<usize>, os: Seq<usize>) -> Seq<char> {
    vimrc_header() + plugin_lines(ps) + vimrc_middle() + plugin_sections(ps) + opt_section(os)
}

/// The line that has Vundle fetch a plugin from its GitHub repository.
pub open spec fn plugin_line(repo: Seq<char>) -> Seq<char> {
    "Plugin '"@ + repo + "'\n"@
}

/// A repository path `owner/name` for a plugin called `name`.
pub open spec fn names_plugin(repo: Seq<char>, name: Seq<char>) -> bool {
    &&& repo.len() > name.len() + 1
    &&& repo[repo.len() - name.len() - 1] == '/'
    &&& repo.skip(repo.len() - name.len()) == name
}

/// Law: each plugin is fetched by its GitHub repository, `owner/name`, not by
/// its bare name; plugin 0 is NERDTree from `preservim/nerdtree`.
pub proof fn law_plugin_repository(i: int)
    ensures
        vim_plugin_spec(i) matches Some(p) ==> names_plugin(p.1, p.0) && p.1 != p.0,
        vim_plugin_spec(0) == Some(("nerdtree"@, "preservim/nerdtree"@)),
{
    if vim_plugin_spec(i) is Some {
        let p = vim_plugin_spec(i)->Some_0;
        if i == 0 {
            reveal_strlit("nerdtree");
            reveal_strlit("preservim/nerdtree");
        } else if i == 1 {
            reveal_strlit("vim-airline");
            reveal_strlit("vim-airline/vim-airline");
        } else if i == 2 {
            reveal_strlit("vim-fugitive");
            reveal_strlit("tpope/vim-fugitive");
        } else if i == 3 {
            reveal_strlit("nerdcommenter");
            reveal_strlit("preservim/nerdcommenter");
        } else if i == 4 {
            reveal_strlit("vim-surround");
            reveal_strlit("tpope/vim-surround");
        } else if i == 5 {
            reveal_strlit("vim-commentary");
            reveal_strlit("tpope/vim-commentary");
        } else if i == 6 {
            reveal_strlit("auto-pairs");
            reveal_strlit("jiangmiao/auto-pairs");
        } else if i == 7 {
            reveal_strlit("vim-gitgutter");
            reveal_strlit("airblade/vim-gitgutter");
        } else if i == 8 {
            reveal_strlit("vim-easymotion");
            reveal_strlit("easymotion/vim-easymotion");
        } else if i == 9 {
            reveal_strlit("ctrlp.vim");
            reveal_strlit("ctrlpvim/ctrlp.vim");
        } else if i == 10 {
            reveal_strlit("vim-markdown");
            reveal_strlit("preservim/vim-markdown");
        } else {
            reveal_strlit("tagbar");
            reveal_strlit("preservim/tagbar");
        }
        assert(p.1.skip(p.1.len() - p.0.len()) =~= p.0);
        assert(p.1.len() != p.0.len());
    }
}

proof fn lemma_plugin_line_listed(ps: Seq<usize>, k: int)
    requires
        0 <= k < ps.len(),
        vim_plugin_spec(ps[k] as int) is Some,
    ensures
        contains(plugin_lines(ps), plugin_line(vim_plugin_spec(ps[k] as int)->Some_0.1)),
    decreases ps.len(),
{
    let line = plugin_line(vim_plugin_spec(ps[k] as int)->Some_0.1);
    let rest = plugin_lines(ps.drop_last());
    let last = match vim_plugin_spec(ps.last() as int) {
        Some(p) => "Plugin '"@ + p.1 + "'\n"@,
        None => seq![],
    };
    assert(plugin_lines(ps) == rest + last);
    if k == ps.len() - 1 {
        lemma_contains_self(line);
        lemma_contains_append(rest, line, line);
    } else {
        assert(ps.drop_last()[k] == ps[k]);
        lemma_plugin_line_listed(ps.drop_last(), k);
        lemma_contains_extend(rest, last, line);
    }
}

/// Law: for every selected index that names a plugin, `~/.vimrc` holds the
/// line `Plugin '<repository>'` with that plugin's GitHub repository.
pub proof fn law_vimrc_lists_selected_plugins(ps: Seq<usize>, os: Seq<usize>, k: int)
    requires
        0 <= k < ps.len(),
    ensures
        vim_plugin_spec(ps[k] as int) matches Some(p) ==> contains(
            vimrc_spec(ps, os),
            "Plugin '"@ + p.1 + "'\n"@,
        ),
{
    if vim_plugin_spec(ps[k] as int) is Some {
        let line = plugin_line(vim_plugin_spec(ps[k] as int)->Some_0.1);
        lemma_plugin_line_listed(ps, k);
        lemma_contains_append(vimrc_header(), plugin_lines(ps), line);
        lemma_contains_extend(vimrc_header() + plugin_lines(ps), vimrc_middle(), line);
        lemma_contains_extend(
            vimrc_header() + plugin_lines(ps) + vimrc_middle(),
            plugin_sections(ps),
            line,
        );
        lemma_contains_extend(
            vimrc_header() + plugin_lines(ps) + vimrc_middle() + plugin_sections(ps),
            opt_section(os),
            line,
        );
    }
}

proof fn lemma_opt_block_listed(os: Seq<usize>, k: int)
    requires
        0 <= k < os.len(),
        vim_opt_spec(os[k] as int) is Some,
    ensures
        contains(
            opt_lines(os),
            opt_block(vim_opt_spec(os[k] as int)->Some_0.0, vim_opt_spec(os[k] as int)->Some_0.1),
        ),
    decreases os.len(),
{
    let o = vim_opt_spec(os[k] as int)->Some_0;
    let block = opt_block(o.0, o.1);
    let rest = opt_lines(os.drop_last());
    let last = match vim_opt_spec(os.last() as int) {
        Some(o) => opt_block(o.0, o.1),
        None => seq![],
    };
    assert(opt_lines(os) == rest + last);
    if k == os.len() - 1 {
        lemma_contains_self(block);
        lemma_contains_append(rest, block, block);
    } else {
        assert(os.drop_last()[k] == os[k]);
        lemma_opt_block_listed(os.drop_last(), k);
        lemma_contains_extend(rest, last, block);
    }
}

/// Law: for every selected index that names an option, `~/.vimrc` holds that
/// option's block: a comment with its name, then its lines.
pub proof fn law_vimrc_holds_selected_options(ps: Seq<usize>, os: Seq<usize>, k: int)
    requires
        0 <= k < os.len(),
    ensures
        vim_opt_spec(os[k] as int) matches Some(o) ==> contains(
            vimrc_spec(ps, os),
            "\" "@ + o.0 + "\n"@ + lines_block(o.1),
        ),
{
    if vim_opt_spec(os[k] as int) is Some {
        let o = vim_opt_spec(os[k] as int)->Some_0;
        let block = opt_block(o.0, o.1);
        lemma_opt_block_listed(os, k);
        lemma_contains_append("\n\" ===== Vim Optimizations =====\n"@, opt_lines(os), block);
        lemma_contains_append(
            vimrc_header() + plugin_lines(ps) + vimrc_middle() + plugin_sections(ps),
            opt_section(os),
            block,
        );
    }
}

/// Law: choosing NERDTree, vim-airline, CtrlP or vim-easymotion adds that
/// plugin's settings to `~/.vimrc`.
pub proof fn law_vimrc_plugin_settings(ps: Seq<usize>, os: Seq<usize>)
    ensures
        ps.contains(0) ==> contains(vimrc_spec(ps, os), "\n\" NERDTree\nnnoremap <C-n> :NERDTreeToggle<CR>\n"@),
        ps.contains(1) ==> contains(vimrc_spec(ps, os), "\n\" vim-airline\nlet g:airline_powerline_fonts = 1\n"@),
        ps.contains(9) ==> contains(vimrc_spec(ps, os), "\n\" CtrlP\nlet g:ctrlp_map = '<c-p>'\n"@),
        ps.contains(8) ==> contains(vimrc_spec(ps, os), "\n\" vim-easymotion\nlet g:EasyMotion_smartcase = 1\n"@),
{
    let a = if ps.contains(0) { "\n\" NERDTree\nnnoremap <C-n> :NERDTreeToggle<CR>\n"@ } else { seq![] };
    let b = if ps.contains(1) { "\n\" vim-airline\nlet g:airline_powerline_fonts = 1\n"@ } else { seq![] };
    let c = if ps.contains(9) { "\n\" CtrlP\nlet g:ctrlp_map = '<c-p>'\n"@ } else { seq![] };
    let d = if ps.contains(8) { "\n\" vim-easymotion\nlet g:EasyMotion_smartcase = 1\n"@ } else { seq![] };
    let pre = vimrc_header() + plugin_lines(ps) + vimrc_middle();
    assert(plugin_sections(ps) == a + b + c + d);
    assert(vimrc_spec(ps, os) == pre + (a + b + c + d) + opt_section(os));
    if ps.contains(0) {
        lemma_contains_self(a);
        lemma_contains_extend(a, b, a);
        lemma_contains_extend(a + b, c, a);
        lemma_contains_extend(a + b + c, d, a);
        lemma_contains_append(pre, a + b + c + d, a);
        lemma_contains_extend(pre + (a + b + c + d), opt_section(os), a);
    }
    if ps.contains(1) {
        lemma_contains_self(b);
        lemma_contains_append(a, b, b);
        lemma_contains_extend(a + b, c, b);
        lemma_contains_extend(a + b + c, d, b);
        lemma_contains_append(pre, a + b + c + d, b);
        lemma_contains_extend(pre + (a + b + c + d), opt_section(os), b);
    }
    if ps.contains(9) {
        lemma_contains_self(c);
        lemma_contains_append(a + b, c, c);
        lemma_contains_extend(a + b + c, d, c);
        lemma_contains_append(pre, a + b + c + d, c);
        lemma_contains_extend(pre + (a + b + c + d), opt_section(os), c);
    }
    if ps.contains(8) {
        lemma_contains_self(d);
        lemma_contains_append(a + b + c, d, d);
        lemma_contains_append(pre, a + b + c + d, d);
        lemma_contains_extend(pre + (a + b + c + d), opt_section(os), d);
    }
}

fn contains_index(v: &[usize], x: usize) -> (r: bool)
    ensures
        r == v@.contains(x),
{
    let mut i: usize = 0;
    while i < v.len()
        invariant
            i <= v.len(),
            forall|j: int| 0 <= j < i ==> v@[j] != x,
        decreases v.len() - i,
    {
        if v[i] == x {
            assert(v@[i as int] == x);
            return true;
        }
        i = i + 1;
    }
    false
}

/// The whole `~/.vimrc`: the Vundle preamble, a `Plugin` line per selected
/// plugin, the editor settings, extra settings for NERDTree, vim-airline,
/// CtrlP and vim-easymotion when selected, then the selected options.
pub fn write_vimrc(selected_plugins: &[usize], selected_opts: &[usize]) -> (r: String)
    ensures
        r@ == vimrc_spec(selected_plugins@, selected_opts@),
{
    let ps = selected_plugins;
    let os = selected_opts;
    let mut out: Vec<char> = Vec::new();
    push_str(&mut out, "set nocompatible\nfiletype off\n\nset rtp+=~/.vim/bundle/Vundle.vim\ncall vundle#begin()\n\nPlugin 'VundleVim/Vundle.vim'\n\n");
    let ghost base = out@;
    let mut i: usize = 0;
    while i < ps.len()
        invariant
            i <= ps.len(),
            out@ == base + plugin_lines(ps@.take(i as int)),
        decreases ps.len() - i,
    {
        proof {
            assert(ps@.take(i + 1).drop_last() =~= ps@.take(i as int));
            assert(ps@.take(i + 1).last() == ps@[i as int]);
        }
        match vim_plugin(ps[i]) {
            Some((_, repo)) => {
                push_str(&mut out, "Plugin '");
                push_str(&mut out, repo);
                push_str(&mut out, "'\n");
            },
            None => {},
        }
        i = i + 1;
        assert(out@ =~= base + plugin_lines(ps@.take(i as int)));
    }
    assert(ps@.take(i as int) =~= ps@);
    push_str(&mut out, "\ncall vundle#end()\nfiletype plugin indent on\n\nsyntax on\nset number\nset relativenumber\nset cursorline\nset showmatch\nset hlsearch\nset incsearch\nset tabstop=4\nset shiftwidth=4\nset expandtab\nset autoindent\nset smartindent\nset encoding=utf-8\nset termencoding=utf-8\nset backspace=indent,eol,start\n");
    let ghost mid = out@;
    let ghost before_0 = out@;
    if contains_index(ps, 0) {
        push_str(&mut out, "\n\" NERDTree\nnnoremap <C-n> :NERDTreeToggle<CR>\n");
    }
    let ghost before_1 = out@;
    if contains_index(ps, 1) {
        push_str(&mut out, "\n\" vim-airline\nlet g:airline_powerline_fonts = 1\n");
    }
    let ghost before_9 = out@;
    if contains_index(ps, 9) {
        push_str(&mut out, "\n\" CtrlP\nlet g:ctrlp_map = '<c-p>'\n");
    }
    let ghost before_8 = out@;
    if contains_index(ps, 8) {
        push_str(&mut out, "\n\" vim-easymotion\nlet g:EasyMotion_smartcase = 1\n");
    }
    assert(out@ =~= mid + plugin_sections(ps@));
    if os.len() > 0 {
        let ghost before = out@;
        push_str(&mut out, "\n\" ===== Vim Optimizations =====\n");
        let ghost base2 = out@;
        let mut k: usize = 0;
        while k < os.len()
            invariant
                k <= os.len(),
                out@ == base2 + opt_lines(os@.take(k as int)),
            decreases os.len() - k,
        {
            proof {
                assert(os@.take(k + 1).drop_last() =~= os@.take(k as int));
                assert(os@.take(k + 1).last() == os@[k as int]);
            }
            match vim_opt(os[k]) {
                Some((key, ls)) => {
                    let ghost b0 = out@;
                    push_str(&mut out, "\" ");
                    push_str(&mut out, key);
                    push_str(&mut out, "\n");
                    let ghost b1 = out@;
                    let mut j: usize = 0;
                    while j < ls.len()
                        invariant
                            j <= ls.len(),
                            out@ == b1 + lines_block(lits(ls@).take(j as int)),
                        decreases ls.len() - j,
                    {
                        proof {
                            assert(lits(ls@).take(j + 1).drop_last() =~= lits(ls@).take(j as int));
                            assert(lits(ls@).take(j + 1).last() == ls@[j as int]@);
                        }
                        push_str(&mut out, ls[j]);
                        push_str(&mut out, "\n");
                        j = j + 1;
                        assert(out@ =~= b1 + lines_block(lits(ls@).take(j as int)));
                    }
                    assert(lits(ls@).take(j as int) =~= lits(ls@));
                    assert(out@ =~= b0 + opt_block(key@, lits(ls@)));
                },
                None => {},
            }
            k = k + 1;
            assert(out@ =~= base2 + opt_lines(os@.take(k as int)));
        }
        assert(os@.take(k as int) =~= os@);
        assert(out@ =~= before + opt_section(os@));
    } else {
        assert(out@ =~= out@ + opt_section(os@));
    }
    string_of(&out)
}

/// Installs the plugins listed in `~/.vimrc`: `vim +PluginInstall +qall`.
pub open spec fn vim_plugin_install_spec() -> CommandV {
    cmd("vim"@, seq!["+PluginInstall"@, "+qall"@], "Vim 插件安装失败"@)
}

/// Installs the plugins listed in `~/.vimrc`: `vim +PluginInstall +qall`.
pub fn vim_plugin_install() -> (c: ShellCommand)
    ensures
        c@ == vim_plugin_install_spec(),
{
    let args: &[&str] = &["+PluginInstall", "+qall"];
    assert(args@ == seq!["+PluginInstall", "+qall"]);
    assert(lits(seq!["+PluginInstall", "+qall"]) =~= seq!["+PluginInstall"@, "+qall"@]);
    let c = command("vim", args, "Vim 插件安装失败");
    c
}

/// Installs Vim.
pub fn install_vim(distro: &Distro) -> (r: Result<Option<ShellCommand>, String>)
    ensures
        res_cmd(r) == install_packages_spec(distro@, seq!["vim"@]),
{
    let p: &[&str] = &["vim"];
    assert(p@ == seq!["vim"]);
    assert(lits(seq!["vim"]) =~= seq!["vim"@]);
    install_packages(distro, p)
}

/// The command whose success tells that Vim is installed.
pub fn is_vim_installed(distro: &Distro) -> (r: Option<ShellCommand>)
    ensures
        opt_cmd(r) == is_package_installed_spec(family_of(distro@), "vim"@),
{
    is_package_installed(distro, "vim")
}

/// Where Vundle lives: `~/.vim/bundle/Vundle.vim`; its presence means it is
/// installed.
pub fn is_vundle_installed(home: &str) -> (r: String)
    ensures
        r@ == path_join(home@, ".vim/bundle/Vundle.vim"@),
{
    path_join_str(home, ".vim/bundle/Vundle.vim")
}

/// Where Vundle is cloned from, in the order tried: GitHub, then the Gitee
/// mirror.
pub fn vundle_sources() -> (r: Vec<(&'static str, &'static str)>)
    ensures
        r@.len() == 2,
        r@[0].0@ == "GitHub"@ && r@[0].1@ == "https://github.com/VundleVim/Vundle.vim.git"@,
        r@[1].0@ == "Gitee"@ && r@[1].1@ == "https://gitee.com/mirrors/Vundle.vim.git"@,
{
    let mut v: Vec<(&'static str, &'static str)> = Vec::new();
    v.push(("GitHub", "https://github.com/VundleVim/Vundle.vim.git"));
    v.push(("Gitee", "https://gitee.com/mirrors/Vundle.vim.git"));
    v
}

/// A `git clone` of a repository into a directory; as the real user
/// (`sudo -u <user>`) when running under sudo.
pub open spec fn clone_spec(repo: Seq<char>, dir: Seq<char>, sudo_user: Option<Seq<char>>) -> CommandV {
    match sudo_user {
        Some(u) => cmd("sudo"@, seq!["-u"@, u, "git"@, "clone"@, repo, dir], ""@),
        None => cmd("git"@, seq!["clone"@, repo, dir], ""@),
    }
}

/// A `git clone` of a repository into a directory, as the real user when
/// running under sudo.
pub fn git_clone(repo: &str, dir: &str, sudo_user: Option<&str>) -> (c: ShellCommand)
    ensures
        c@ == clone_spec(
            repo@,
            dir@,
            match sudo_user {
                Some(u) => Some(u@),
                None => None,
            },
        ),
{
    match sudo_user {
        Some(u) => {
            let a: &[&str] = &["-u", u, "git", "clone", repo, dir];
            assert(a@ == seq!["-u", u, "git", "clone", repo, dir]);
            assert(lits(seq!["-u", u, "git", "clone", repo, dir]) =~= seq!["-u"@, u@, "git"@, "clone"@, repo@, dir@]);
            command("sudo", a, "")
        },
        None => {
            let a: &[&str] = &["clone", repo, dir];
            assert(a@ == seq!["clone", repo, dir]);
            assert(lits(seq!["clone", repo, dir]) =~= seq!["clone"@, repo@, dir@]);
            command("git", a, "")
        },
    }
}

/// Checking that a source can be reached before cloning from it.
pub open spec fn reach_check_spec(url: Seq<char>) -> CommandV {
    cmd("curl"@, seq!["-fsS"@, "-o"@, "/dev/null"@, "--max-time"@, "10"@, url], ""@)
}

/// Checking that a source can be reached.
pub fn reach_check(url: &str) -> (c: ShellCommand)
    ensures
        c@ == reach_check_spec(url@),
{
    let a: &[&str] = &["-fsS", "-o", "/dev/null", "--max-time", "10", url];
    assert(a@ == seq!["-fsS", "-o", "/dev/null", "--max-time", "10", url]);
    assert(lits(a@) =~= seq!["-fsS"@, "-o"@, "/dev/null"@, "--max-time"@, "10"@, url@]);
    command("curl", a, "")
}

/// Installing Vundle, attempt `attempt` (from 0): nothing when it is there;
/// else, for the next source (the one before could not be reached or failed
/// to clone), a reachability check and the clone to run when it succeeds;
/// an error once every source was tried.
pub open spec fn install_vundle_spec(home: Seq<char>, installed: bool, attempt: nat, sudo_user: Option<Seq<char>>) -> Result<
    Option<(CommandV, CommandV)>,
    Seq<char>,
> {
    let dir = path_join(home, ".vim/bundle/Vundle.vim"@);
    if installed {
        Ok(None)
    } else if attempt == 0 {
        let repo = "https://github.com/VundleVim/Vundle.vim.git"@;
        Ok(Some((reach_check_spec(repo), clone_spec(repo, dir, sudo_user))))
    } else if attempt == 1 {
        let repo = "https://gitee.com/mirrors/Vundle.vim.git"@;
        Ok(Some((reach_check_spec(repo), clone_spec(repo, dir, sudo_user))))
    } else {
        Err("Vundle 安装失败，所有下载源均失败"@)
    }
}

/// A step of the Vundle installation, its commands by their views.
pub open spec fn vundle_step_view(r: Result<Option<(ShellCommand, ShellCommand)>, String>) -> Result<
    Option<(CommandV, CommandV)>,
    Seq<char>,
> {
    match r {
        Ok(Some(p)) => Ok(Some((p.0@, p.1@))),
        Ok(None) => Ok(None),
        Err(e) => Err(e@),
    }
}

/// Installing Vundle, attempt `attempt`.
pub fn install_vundle(home: &str, installed: bool, attempt: usize, sudo_user: Option<&str>) -> (r: Result<
    Option<(ShellCommand, ShellCommand)>,
    String,
>)
    ensures
        vundle_step_view(r) == install_vundle_spec(home@, installed, attempt as nat, opt_lit(sudo_user)),
{
    if installed {
        return Ok(None);
    }
    let dir = is_vundle_installed(home);
    let sources = vundle_sources();
    if attempt < sources.len() {
        let repo = sources[attempt].1;
        Ok(Some((reach_check(repo), git_clone(repo, dir.as_str(), sudo_user))))
    } else {
        Err(owned("Vundle 安装失败，所有下载源均失败"))
    }
}

/// Installing the plugins listed in `~/.vimrc` (`vim +PluginInstall +qall`,
/// as the real user), after making sure Vim is there.
pub open spec fn install_plugin_bundle_spec(d: DistroV, vim_exists: bool, sudo_user: Option<Seq<char>>) -> Result<
    Seq<CommandV>,
    Seq<char>,
> {
    then(
        ensure_command_spec(d, "vim"@, vim_exists),
        Ok(seq![as_user_spec(vim_plugin_install_spec(), sudo_user)]),
    )
}

/// Installing the plugins listed in `~/.vimrc`.
pub fn install_plugin_bundle(distro: &Distro, vim_exists: bool, sudo_user: Option<&str>) -> (r: Result<
    Vec<ShellCommand>,
    String,
>)
    ensures
        plan_view(r) == install_plugin_bundle_spec(distro@, vim_exists, opt_lit(sudo_user)),
{
    let first = ensure_command(distro, "vim", vim_exists);
    let c = as_user(vim_plugin_install(), sudo_user);
    let ghost cv = c@;
    let rest = single(c);
    assert(cmds(rest@) =~= seq![cv]);
    then_plan(first, Ok(rest))
}

/// The number of plugins in `~/.vim/bundle`, given its entries: all but
/// Vundle itself.
pub open spec fn plugin_count_spec(entries: Seq<Seq<char>>) -> nat
    decreases entries.len(),
{
    if entries.len() == 0 {
        0
    } else {
        plugin_count_spec(entries.drop_last()) + if entries.last() == "Vundle.vim"@ { 0nat } else { 1 }
    }
}

/// The number of plugins in `~/.vim/bundle`, given its entries.
pub fn get_installed_plugin_count(entries: &Vec<String>) -> (r: usize)
    ensures
        r == plugin_count_spec(strs(entries@)),
{
    let ghost es = strs(entries@);
    let mut n: usize = 0;
    let mut i: usize = 0;
    while i < entries.len()
        invariant
            i <= entries.len(),
            es == strs(entries@),
            n == plugin_count_spec(es.take(i as int)),
            n <= i,
        decreases entries.len() - i,
    {
        assert(es.take(i + 1).drop_last() =~= es.take(i as int));
        if !crate::text::str_eq(entries[i].as_str(), "Vundle.vim") {
            n = n + 1;
        }
        i = i + 1;
    }
    assert(es.take(entries.len() as int) =~= es);
    n
}

/// Removing Vim: the package (`~/.vimrc` and `~/.vim` are deleted too).
pub fn clear_vim(distro: &Distro) -> (r: Result<Option<ShellCommand>, String>)
    ensures
        res_cmd(r) == uninstall_packages_spec(distro@, seq!["vim"@]),
{
    let p: &[&str] = &["vim"];
    assert(p@ == seq!["vim"]);
    assert(lits(seq!["vim"]) =~= seq!["vim"@]);
    uninstall_packages(distro, p)
}

} // verus!
