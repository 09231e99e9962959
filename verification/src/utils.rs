//! Commands the library asks its caller to run, and small helpers around
//! them.
use vstd::prelude::*;
use vstd::string::*;
use crate::distro::{install_packages, install_packages_spec, Distro, DistroV};

verus! {

/// A program with its arguments, for the caller to run.
#[derive(Debug)]
pub struct ShellCommand {
    pub program: String,
    pub args: Vec<String>,
    /// The error reported when the program exits unsuccessfully.
    pub on_failure: String,
}

/// The contents of a sequence of strings.
pub open spec fn strs(v: Seq<String>) -> Seq<Seq<char>> {
    v.map_values(|s: String| s@)
}

/// The contents of a sequence of string slices.
pub open spec fn lits(v: Seq<&str>) -> Seq<Seq<char>> {
    v.map_values(|s: &str| s@)
}

/// The contents of an optional string slice.
pub open spec fn opt_lit(r: Option<&str>) -> Option<Seq<char>> {
    match r {
        Some(p) => Some(p@),
        None => None,
    }
}

/// A command, its texts as character sequences.
pub ghost struct CommandV {
    pub program: Seq<char>,
    pub args: Seq<Seq<char>>,
    pub on_failure: Seq<char>,
}

pub open spec fn cmd(program: Seq<char>, args: Seq<Seq<char>>, on_failure: Seq<char>) -> CommandV {
    CommandV { program, args, on_failure }
}

impl View for ShellCommand {
    type V = CommandV;

    open spec fn view(&self) -> CommandV {
        cmd(self.program@, strs(self.args@), self.on_failure@)
    }
}

/// The contents of an optional command.
pub open spec fn opt_cmd(c: Option<ShellCommand>) -> Option<CommandV> {
    match c {
        Some(c) => Some(c@),
        None => None,
    }
}

impl ShellCommand {
    /// Whether this is `program` with `args`, reporting `fail` when it fails.
    pub open spec fn is(self, program: Seq<char>, args: Seq<Seq<char>>, fail: Seq<char>) -> bool {
        self@ == cmd(program, args, fail)
    }
}

/// An owned copy of a string slice.
pub fn owned(s: &str) -> (r: String)
    ensures
        r@ == s@,
{
    String::from_str(s)
}

/// Owned copies of string slices.
pub fn owned_all(v: &[&str]) -> (r: Vec<String>)
    ensures
        strs(r@) == lits(v@),
{
    let mut r: Vec<String> = Vec::new();
    let mut i: usize = 0;
    while i < v.len()
        invariant
            i <= v.len(),
            strs(r@) == lits(v@).take(i as int),
        decreases v.len() - i,
    {
        let ghost before = r@;
        let o = owned(v[i]);
        assert(o@ == v@[i as int]@);
        r.push(o);
        assert(strs(r@) =~= strs(before).push(v@[i as int]@));
        i = i + 1;
        assert(strs(r@) =~= lits(v@).take(i as int));
    }
    assert(lits(v@).take(i as int) =~= lits(v@));
    r
}

/// A command with the given program, arguments and failure message.
pub fn command(program: &str, args: &[&str], on_failure: &str) -> (c: ShellCommand)
    ensures
        c.is(program@, lits(args@), on_failure@),
{
    ShellCommand { program: owned(program), args: owned_all(args), on_failure: owned(on_failure) }
}

/// The same command with more arguments at the end.
pub fn with_args(c: ShellCommand, more: &[&str]) -> (r: ShellCommand)
    ensures
        r.program@ == c.program@,
        strs(r.args@) == strs(c.args@) + lits(more@),
        r.on_failure@ == c.on_failure@,
{
    let mut c = c;
    let mut extra = owned_all(more);
    let ghost a = c.args@;
    let ghost e = extra@;
    c.args.append(&mut extra);
    assert(strs(c.args@) =~= strs(a) + strs(e));
    c
}


/// The contents of a list of commands.
pub open spec fn cmds(v: Seq<ShellCommand>) -> Seq<CommandV> {
    v.map_values(|c: ShellCommand| c@)
}

/// The contents of a plan: commands to run in order, stopping at the first
/// that fails; or the error that prevents any.
pub open spec fn plan_view(r: Result<Vec<ShellCommand>, String>) -> Result<Seq<CommandV>, Seq<char>> {
    match r {
        Ok(v) => Ok(cmds(v@)),
        Err(e) => Err(e@),
    }
}

/// No command or one.
pub open spec fn opt_seq(o: Option<CommandV>) -> Seq<CommandV> {
    match o {
        Some(c) => seq![c],
        None => seq![],
    }
}

/// Adds a command, if there is one, to a list.
pub fn push_opt(v: &mut Vec<ShellCommand>, c: Option<ShellCommand>)
    ensures
        cmds(final(v)@) == cmds(old(v)@) + opt_seq(opt_cmd(c)),
{
    let ghost before = v@;
    match c {
        Some(c) => {
            let ghost cv = c@;
            v.push(c);
            assert(cmds(v@) =~= cmds(before) + seq![cv]);
        },
        None => {
            assert(cmds(v@) =~= cmds(before) + Seq::<CommandV>::empty());
        },
    }
}

/// Adds a command to a list.
pub fn push_cmd(v: &mut Vec<ShellCommand>, c: ShellCommand)
    ensures
        cmds(final(v)@) == cmds(old(v)@).push(c@),
{
    let ghost before = v@;
    let ghost cv = c@;
    v.push(c);
    assert(cmds(v@) =~= cmds(before).push(cv));
}

/// The command whose success tells that a command exists: `which`.
pub open spec fn command_exists_spec(name: Seq<char>) -> CommandV {
    cmd("which"@, seq![name], ""@)
}

/// The command whose success tells that a command exists: `which`.
pub fn command_exists(name: &str) -> (c: ShellCommand)
    ensures
        c@ == command_exists_spec(name@),
{
    let c = command("which", &[], "");
    let more: &[&str] = &[name];
    assert(more@ == seq![name]);
    assert(lits(seq![name]) =~= seq![name@]);
    let r = with_args(c, more);
    assert(lits(Seq::<&str>::empty()) =~= Seq::<Seq<char>>::empty());
    r
}

/// What makes sure that a command exists: nothing when it does, else the
/// installation of the package of the same name.
pub open spec fn ensure_command_spec(d: DistroV, name: Seq<char>, exists: bool) -> Result<
    Seq<CommandV>,
    Seq<char>,
> {
    if exists {
        Ok(seq![])
    } else {
        match install_packages_spec(d, seq![name]) {
            Ok(o) => Ok(opt_seq(o)),
            Err(e) => Err(e),
        }
    }
}

/// What makes sure that a command exists; `exists` is whether `which` found
/// it.
pub fn ensure_command(distro: &Distro, name: &str, exists: bool) -> (r: Result<
    Vec<ShellCommand>,
    String,
>)
    ensures
        plan_view(r) == ensure_command_spec(distro@, name@, exists),
{
    let mut v: Vec<ShellCommand> = Vec::new();
    if exists {
        assert(cmds(v@) =~= Seq::<CommandV>::empty());
        return Ok(v);
    }
    let pkgs: &[&str] = &[name];
    assert(pkgs@ == seq![name]);
    assert(lits(seq![name]) =~= seq![name@]);
    match install_packages(distro, pkgs) {
        Ok(c) => {
            assert(cmds(v@) =~= Seq::<CommandV>::empty());
            push_opt(&mut v, c);
            assert(cmds(v@) =~= opt_seq(opt_cmd(c)));
            Ok(v)
        },
        Err(e) => Err(e),
    }
}

/// Two plans, one after the other.
pub open spec fn then(a: Result<Seq<CommandV>, Seq<char>>, b: Result<Seq<CommandV>, Seq<char>>) -> Result<
    Seq<CommandV>,
    Seq<char>,
> {
    match a {
        Err(e) => Err(e),
        Ok(x) => match b {
            Err(e) => Err(e),
            Ok(y) => Ok(x + y),
        },
    }
}

/// Two plans, one after the other.
pub fn then_plan(a: Result<Vec<ShellCommand>, String>, b: Result<Vec<ShellCommand>, String>) -> (r: Result<
    Vec<ShellCommand>,
    String,
>)
    ensures
        plan_view(r) == then(plan_view(a), plan_view(b)),
{
    match a {
        Err(e) => Err(e),
        Ok(mut x) => match b {
            Err(e) => Err(e),
            Ok(mut y) => {
                let ghost xs = x@;
                let ghost ys = y@;
                x.append(&mut y);
                assert(cmds(x@) =~= cmds(xs) + cmds(ys));
                Ok(x)
            },
        },
    }
}

/// A plan of one command.
pub fn single(c: ShellCommand) -> (r: Vec<ShellCommand>)
    ensures
        cmds(r@) == seq![c@],
{
    let mut v: Vec<ShellCommand> = Vec::new();
    push_cmd(&mut v, c);
    assert(cmds(v@) =~= seq![c@]);
    v
}

/// A plan from a package-manager decision.
pub fn from_opt(r: Result<Option<ShellCommand>, String>) -> (p: Result<Vec<ShellCommand>, String>)
    ensures
        plan_view(p) == match r {
            Ok(o) => Ok(opt_seq(opt_cmd(o))),
            Err(e) => Err(e@),
        },
{
    match r {
        Ok(o) => {
            let mut v: Vec<ShellCommand> = Vec::new();
            push_opt(&mut v, o);
            assert(cmds(v@) =~= opt_seq(opt_cmd(o)));
            Ok(v)
        },
        Err(e) => Err(e),
    }
}

/// A command run as the real user (`sudo -u <user> ...`) when running under
/// sudo, else as it is.
pub open spec fn as_user_spec(c: CommandV, sudo_user: Option<Seq<char>>) -> CommandV {
    match sudo_user {
        Some(u) => cmd("sudo"@, seq!["-u"@, u, c.program] + c.args, c.on_failure),
        None => c,
    }
}

/// A command run as the real user when running under sudo.
pub fn as_user(c: ShellCommand, sudo_user: Option<&str>) -> (r: ShellCommand)
    ensures
        r@ == as_user_spec(c@, opt_lit(sudo_user)),
{
    match sudo_user {
        Some(u) => {
            let mut args: Vec<String> = Vec::new();
            args.push(owned("-u"));
            args.push(owned(u));
            args.push(c.program);
            let ghost head = strs(args@);
            assert(head =~= seq!["-u"@, u@, c@.program]);
            let mut rest = c.args;
            let ghost tail = strs(rest@);
            args.append(&mut rest);
            assert(strs(args@) =~= head + tail);
            ShellCommand { program: owned("sudo"), args, on_failure: c.on_failure }
        },
        None => c,
    }
}

} // verus!
