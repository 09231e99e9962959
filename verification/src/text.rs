//! Character-level text handling: the line, trimming and matching rules of
//! Rust's `str`, stated over `Seq<char>` and implemented over `Vec<char>`.
use vstd::prelude::*;
use vstd::std_specs::iter::IteratorSpec;

verus! {

/// `String::push` appends one character to the end of the string.
pub assume_specification[ String::push ](s: &mut String, ch: char)
    ensures
        final(s)@ == old(s)@.push(ch),
;

// ───────────────────────── specifications ─────────────────────────

/// Unicode `White_Space`, the set that `char::is_whitespace` accepts.
pub open spec fn is_ws(c: char) -> bool {
    ||| c == ' '
    ||| ('\t' <= c && c <= '\r')
    ||| c == '\u{85}'
    ||| c == '\u{A0}'
    ||| c == '\u{1680}'
    ||| ('\u{2000}' <= c && c <= '\u{200A}')
    ||| c == '\u{2028}'
    ||| c == '\u{2029}'
    ||| c == '\u{202F}'
    ||| c == '\u{205F}'
    ||| c == '\u{3000}'
}

/// `str::trim_start`.
pub open spec fn trim_start(s: Seq<char>) -> Seq<char>
    decreases s.len(),
{
    if s.len() > 0 && is_ws(s[0]) {
        trim_start(s.drop_first())
    } else {
        s
    }
}

/// `str::trim_end`.
pub open spec fn trim_end(s: Seq<char>) -> Seq<char>
    decreases s.len(),
{
    if s.len() > 0 && is_ws(s.last()) {
        trim_end(s.drop_last())
    } else {
        s
    }
}

/// `str::trim`.
pub open spec fn trim(s: Seq<char>) -> Seq<char> {
    trim_end(trim_start(s))
}

/// `str::trim_start_matches` with a single character.
pub open spec fn trim_start_char(s: Seq<char>, c: char) -> Seq<char>
    decreases s.len(),
{
    if s.len() > 0 && s[0] == c {
        trim_start_char(s.drop_first(), c)
    } else {
        s
    }
}

/// `str::trim_end_matches` with a single character.
pub open spec fn trim_end_char(s: Seq<char>, c: char) -> Seq<char>
    decreases s.len(),
{
    if s.len() > 0 && s.last() == c {
        trim_end_char(s.drop_last(), c)
    } else {
        s
    }
}

/// `str::trim_matches` with a single character.
pub open spec fn trim_char(s: Seq<char>, c: char) -> Seq<char> {
    trim_end_char(trim_start_char(s, c), c)
}

/// `str::starts_with`.
pub open spec fn starts_with(s: Seq<char>, p: Seq<char>) -> bool {
    p.len() <= s.len() && s.take(p.len() as int) == p
}

/// `str::trim_start_matches` with a string pattern: the prefix is removed as
/// long as it is there.
pub open spec fn trim_start_str(s: Seq<char>, p: Seq<char>) -> Seq<char>
    decreases s.len(),
{
    if p.len() > 0 && starts_with(s, p) {
        trim_start_str(s.skip(p.len() as int), p)
    } else {
        s
    }
}

/// Index of the first `c` in `s`, or -1.
pub open spec fn find_char(s: Seq<char>, c: char) -> int
    decreases s.len(),
{
    if s.len() == 0 {
        -1
    } else if s[0] == c {
        0
    } else {
        let r = find_char(s.drop_first(), c);
        if r < 0 {
            -1
        } else {
            r + 1
        }
    }
}

/// Index of the first occurrence of `p` in `s`, or -1.
pub open spec fn find_sub(s: Seq<char>, p: Seq<char>) -> int
    decreases s.len(),
{
    if starts_with(s, p) {
        0
    } else if s.len() == 0 {
        -1
    } else {
        let r = find_sub(s.drop_first(), p);
        if r < 0 {
            -1
        } else {
            r + 1
        }
    }
}

/// `str::contains` with a string pattern.
pub open spec fn contains(s: Seq<char>, p: Seq<char>) -> bool {
    find_sub(s, p) >= 0
}

/// Drops one `'\r'` at the end, as `str::lines` does before a `'\n'`.
pub open spec fn strip_cr(s: Seq<char>) -> Seq<char> {
    if s.len() > 0 && s.last() == '\r' {
        s.drop_last()
    } else {
        s
    }
}

/// `str::lines`: split at `'\n'`, a `'\r'` before it dropped, the final line
/// ending optional.
pub open spec fn lines(s: Seq<char>) -> Seq<Seq<char>>
    decreases s.len(),
{
    if s.len() == 0 {
        seq![]
    } else {
        let i = find_char(s, '\n');
        if i < 0 {
            seq![s]
        } else {
            proof {
                lemma_find_char_bounds(s, '\n');
            }
            seq![strip_cr(s.take(i))] + lines(s.skip(i + 1))
        }
    }
}

/// Index of the first whitespace character of `s`, or -1.
pub open spec fn find_ws(s: Seq<char>) -> int
    decreases s.len(),
{
    if s.len() == 0 {
        -1
    } else if is_ws(s[0]) {
        0
    } else {
        let r = find_ws(s.drop_first());
        if r < 0 {
            -1
        } else {
            r + 1
        }
    }
}

/// `str::split_whitespace`.
pub open spec fn split_ws(s: Seq<char>) -> Seq<Seq<char>>
    decreases s.len(),
{
    let t = trim_start(s);
    if t.len() == 0 {
        seq![]
    } else {
        let i = find_ws(t);
        proof {
            lemma_trim_start_len(s);
            lemma_find_ws_bounds(t);
        }
        if i < 0 {
            seq![t]
        } else {
            seq![t.take(i)] + split_ws(t.skip(i))
        }
    }
}

/// The contents of a vector of character vectors.
pub open spec fn seqs(v: Seq<Vec<char>>) -> Seq<Seq<char>> {
    v.map_values(|x: Vec<char>| x@)
}

/// Whether no character of `s` is `c`.
pub open spec fn lacks(s: Seq<char>, c: char) -> bool {
    forall|i: int| 0 <= i < s.len() ==> s[i] != c
}

/// A test on one line of a configuration file, made on the line without its
/// surrounding whitespace.
#[derive(Debug)]
pub enum LineTest {
    /// The trimmed line starts with the pattern.
    Prefix(&'static str),
    /// The trimmed line starts with one of the two patterns.
    EitherPrefix(&'static str, &'static str),
    /// The trimmed line is one of the two patterns.
    EitherEqual(&'static str, &'static str),
}

pub open spec fn test_line(t: LineTest, l: Seq<char>) -> bool {
    match t {
        LineTest::Prefix(p) => starts_with(trim(l), p@),
        LineTest::EitherPrefix(p, q) => starts_with(trim(l), p@) || starts_with(trim(l), q@),
        LineTest::EitherEqual(p, q) => trim(l) == p@ || trim(l) == q@,
    }
}

/// Each line, or `repl` in place of a line that passes the test, with a
/// `'\n'` after it.
pub open spec fn replace_lines(ls: Seq<Seq<char>>, t: LineTest, repl: Seq<char>) -> Seq<char>
    decreases ls.len(),
{
    if ls.len() == 0 {
        seq![]
    } else {
        (if test_line(t, ls[0]) {
            repl
        } else {
            ls[0]
        }) + seq!['\n'] + replace_lines(ls.drop_first(), t, repl)
    }
}

/// Whether some line passes the test.
pub open spec fn any_line(ls: Seq<Seq<char>>, t: LineTest) -> bool {
    exists|i: int| 0 <= i < ls.len() && test_line(t, #[trigger] ls[i])
}

/// Index of the first line that passes the test, or -1.
pub open spec fn first_match(ls: Seq<Seq<char>>, t: LineTest) -> int
    decreases ls.len(),
{
    if ls.len() == 0 {
        -1
    } else if test_line(t, ls[0]) {
        0
    } else {
        let r = first_match(ls.drop_first(), t);
        if r < 0 {
            -1
        } else {
            r + 1
        }
    }
}

/// The lines that `replace_lines` writes, as `str::lines` reads them back.
pub open spec fn reread(ls: Seq<Seq<char>>, t: LineTest, repl: Seq<char>) -> Seq<Seq<char>> {
    Seq::new(
        ls.len(),
        |i: int|
            strip_cr(
                if test_line(t, ls[i]) {
                    repl
                } else {
                    ls[i]
                },
            ),
    )
}

/// The pieces joined, `sep` between each two.
pub open spec fn join(ps: Seq<Seq<char>>, sep: Seq<char>) -> Seq<char>
    decreases ps.len(),
{
    if ps.len() == 0 {
        seq![]
    } else if ps.len() == 1 {
        ps[0]
    } else {
        ps[0] + sep + join(ps.drop_first(), sep)
    }
}

/// Each line of `content` with a line ending, those that pass `t` replaced by
/// `setting`; when none passed, `setting` is added on a line of its own (after
/// an empty line when `blank`).
pub open spec fn set_line_spec(content: Seq<char>, t: LineTest, setting: Seq<char>, blank: bool) -> Seq<
    char,
> {
    let ls = lines(content);
    replace_lines(ls, t, setting) + if any_line(ls, t) {
        Seq::<char>::empty()
    } else {
        (if blank {
            seq!['\n']
        } else {
            Seq::<char>::empty()
        }) + setting + seq!['\n']
    }
}

/// The lines that `set_line_spec` adds when no line passed the test.
pub open spec fn added_lines(setting: Seq<char>, blank: bool) -> Seq<Seq<char>> {
    if blank {
        seq![Seq::<char>::empty(), setting]
    } else {
        seq![setting]
    }
}

/// `Path::join` of a relative path: a `/` between the two unless the base
/// ends with one (or is empty).
pub open spec fn path_join(base: Seq<char>, rel: Seq<char>) -> Seq<char> {
    if base.len() == 0 || base.last() == '/' {
        base + rel
    } else {
        base + seq!['/'] + rel
    }
}

/// The decimal digit for `d < 10`.
pub open spec fn digit(d: nat) -> char {
    if d == 0 {
        '0'
    } else if d == 1 {
        '1'
    } else if d == 2 {
        '2'
    } else if d == 3 {
        '3'
    } else if d == 4 {
        '4'
    } else if d == 5 {
        '5'
    } else if d == 6 {
        '6'
    } else if d == 7 {
        '7'
    } else if d == 8 {
        '8'
    } else {
        '9'
    }
}

/// The decimal text of a natural number, as `Display` writes it.
pub open spec fn decimal(n: nat) -> Seq<char>
    decreases n,
{
    if n < 10 {
        seq![digit(n)]
    } else {
        decimal(n / 10).push(digit(n % 10))
    }
}

/// The decimal text of an integer, a `-` before a negative one.
pub open spec fn int_decimal(n: int) -> Seq<char> {
    if n < 0 {
        seq!['-'] + decimal((-n) as nat)
    } else {
        decimal(n as nat)
    }
}

/// `str::split` at a character: the pieces between the separators.
pub open spec fn split_char(s: Seq<char>, c: char) -> Seq<Seq<char>>
    decreases s.len(),
{
    let i = find_char(s, c);
    if i < 0 {
        seq![s]
    } else {
        proof {
            lemma_find_char_bounds(s, c);
        }
        seq![s.take(i)] + split_char(s.skip(i + 1), c)
    }
}

// ───────────────────────── lemmas ─────────────────────────

pub proof fn lemma_find_char_bounds(s: Seq<char>, c: char)
    ensures
        -1 <= find_char(s, c) < s.len(),
        find_char(s, c) >= 0 ==> s[find_char(s, c)] == c,
        forall|j: int| 0 <= j < find_char(s, c) ==> s[j] != c,
        find_char(s, c) < 0 ==> lacks(s, c),
    decreases s.len(),
{
    if s.len() > 0 && s[0] != c {
        lemma_find_char_bounds(s.drop_first(), c);
        assert forall|j: int| 0 < j < s.len() implies s[j] == s.drop_first()[j - 1] by {}
        if find_char(s.drop_first(), c) < 0 {
            assert forall|i: int| 0 <= i < s.len() implies s[i] != c by {
                if i > 0 {
                    assert(s[i] == s.drop_first()[i - 1]);
                }
            }
        }
    }
}

pub proof fn lemma_find_char_of(s: Seq<char>, c: char, k: int)
    requires
        -1 <= k < s.len(),
        k >= 0 ==> s[k] == c,
        forall|j: int| 0 <= j < k ==> s[j] != c,
        k < 0 ==> lacks(s, c),
    ensures
        find_char(s, c) == k,
{
    lemma_find_char_bounds(s, c);
    let r = find_char(s, c);
    if r >= 0 && k >= 0 {
        if r < k {
        } else if k < r {
        }
    }
}

pub proof fn lemma_find_ws_bounds(s: Seq<char>)
    ensures
        -1 <= find_ws(s) < s.len(),
        find_ws(s) >= 0 ==> is_ws(s[find_ws(s)]),
        forall|j: int| 0 <= j < find_ws(s) ==> !is_ws(s[j]),
        find_ws(s) < 0 ==> forall|j: int| 0 <= j < s.len() ==> !is_ws(s[j]),
    decreases s.len(),
{
    if s.len() > 0 && !is_ws(s[0]) {
        lemma_find_ws_bounds(s.drop_first());
        assert forall|j: int| 0 < j < s.len() implies s[j] == s.drop_first()[j - 1] by {}
    }
}

pub proof fn lemma_trim_start_len(s: Seq<char>)
    ensures
        trim_start(s).len() <= s.len(),
        trim_start(s) == s.skip(s.len() - trim_start(s).len()),
        trim_start(s).len() > 0 ==> !is_ws(trim_start(s)[0]),
    decreases s.len(),
{
    if s.len() > 0 && is_ws(s[0]) {
        lemma_trim_start_len(s.drop_first());
        assert(s.drop_first().skip(s.drop_first().len() - trim_start(s).len()) =~= s.skip(
            s.len() - trim_start(s).len(),
        ));
    } else {
        assert(s.skip(0) =~= s);
    }
}

/// Splitting at the first `'\n'`: the lines of `a + "\n" + b` are the line `a`
/// (its `'\r'` dropped) followed by the lines of `b`.
pub proof fn lemma_lines_cons(a: Seq<char>, b: Seq<char>)
    requires
        lacks(a, '\n'),
    ensures
        lines(a + seq!['\n'] + b) == seq![strip_cr(a)] + lines(b),
{
    let s = a + seq!['\n'] + b;
    assert forall|j: int| 0 <= j < a.len() implies s[j] != '\n' by {
        assert(s[j] == a[j]);
    }
    assert(s[a.len() as int] == '\n');
    lemma_find_char_of(s, '\n', a.len() as int);
    assert(s.take(a.len() as int) =~= a);
    assert(s.skip(a.len() as int + 1) =~= b);
}

/// A last line without a line ending.
pub proof fn lemma_lines_single(a: Seq<char>)
    requires
        lacks(a, '\n'),
        a.len() > 0,
    ensures
        lines(a) == seq![a],
{
    lemma_find_char_of(a, '\n', -1);
}

pub proof fn lemma_find_ws_of(s: Seq<char>, k: int)
    requires
        -1 <= k < s.len(),
        k >= 0 ==> is_ws(s[k]),
        forall|j: int| 0 <= j < k ==> !is_ws(s[j]),
        k < 0 ==> forall|j: int| 0 <= j < s.len() ==> !is_ws(s[j]),
    ensures
        find_ws(s) == k,
{
    lemma_find_ws_bounds(s);
}

/// `trim_start` of a suffix that starts at the first non-whitespace character.
pub proof fn lemma_trim_start_skip(s: Seq<char>, i: int)
    requires
        0 <= i <= s.len(),
        forall|j: int| 0 <= j < i ==> is_ws(s[j]),
        i < s.len() ==> !is_ws(s[i]),
    ensures
        trim_start(s) == s.skip(i),
    decreases i,
{
    if i == 0 {
        assert(s.skip(0) =~= s);
    } else {
        assert forall|j: int| 0 <= j < i - 1 implies is_ws(s.drop_first()[j]) by {
            assert(s.drop_first()[j] == s[j + 1]);
        }
        lemma_trim_start_skip(s.drop_first(), i - 1);
        assert(s.drop_first().skip(i - 1) =~= s.skip(i));
    }
}

pub proof fn lemma_first_match_bounds(ls: Seq<Seq<char>>, t: LineTest)
    ensures
        -1 <= first_match(ls, t) < ls.len(),
        first_match(ls, t) >= 0 ==> test_line(t, ls[first_match(ls, t)]),
        forall|j: int| 0 <= j < first_match(ls, t) ==> !test_line(t, #[trigger] ls[j]),
        first_match(ls, t) < 0 ==> forall|j: int| 0 <= j < ls.len() ==> !test_line(t, #[trigger] ls[j]),
        first_match(ls, t) >= 0 <==> any_line(ls, t),
    decreases ls.len(),
{
    if ls.len() > 0 && !test_line(t, ls[0]) {
        lemma_first_match_bounds(ls.drop_first(), t);
        assert forall|j: int| 0 < j < ls.len() implies ls[j] == ls.drop_first()[j - 1] by {}
        if any_line(ls.drop_first(), t) {
            let i = choose|i: int| 0 <= i < ls.drop_first().len() && test_line(t, #[trigger] ls.drop_first()[i]);
            assert(test_line(t, ls[i + 1]));
        }
    }
}

pub proof fn lemma_first_match_of(ls: Seq<Seq<char>>, t: LineTest, k: int)
    requires
        -1 <= k < ls.len(),
        k >= 0 ==> test_line(t, ls[k]),
        forall|j: int| 0 <= j < k ==> !test_line(t, #[trigger] ls[j]),
        k < 0 ==> forall|j: int| 0 <= j < ls.len() ==> !test_line(t, #[trigger] ls[j]),
    ensures
        first_match(ls, t) == k,
{
    lemma_first_match_bounds(ls, t);
    let r = first_match(ls, t);
    if r >= 0 && k >= 0 {
        if r < k {
            assert(!test_line(t, ls[r]));
        } else if k < r {
            assert(!test_line(t, ls[k]));
        }
    } else if r >= 0 {
        assert(!test_line(t, ls[r]));
    } else if k >= 0 {
        assert(!test_line(t, ls[k]));
    }
}

/// No line that `str::lines` gives holds a `'\n'`.
pub proof fn lemma_lines_lack_nl(s: Seq<char>)
    ensures
        forall|k: int| 0 <= k < lines(s).len() ==> lacks(#[trigger] lines(s)[k], '\n'),
    decreases s.len(),
{
    if s.len() > 0 {
        let i = find_char(s, '\n');
        lemma_find_char_bounds(s, '\n');
        if i >= 0 {
            lemma_lines_lack_nl(s.skip(i + 1));
            let a = strip_cr(s.take(i));
            assert(lacks(a, '\n')) by {
                assert forall|j: int| 0 <= j < a.len() implies a[j] != '\n' by {
                    assert(a[j] == s[j]);
                }
            }
            assert forall|k: int| 0 <= k < lines(s).len() implies lacks(#[trigger] lines(s)[k], '\n') by {
                if k > 0 {
                    assert(lines(s)[k] == lines(s.skip(i + 1))[k - 1]);
                }
            }
        }
    }
}

/// `trim_start` of a sequence with one more character at the end.
pub proof fn lemma_trim_start_push(x: Seq<char>, w: char)
    ensures
        trim_start(x.push(w)) == if trim_start(x).len() == 0 {
            trim_start(seq![w])
        } else {
            trim_start(x).push(w)
        },
    decreases x.len(),
{
    if x.len() == 0 {
        assert(x.push(w) =~= seq![w]);
    } else if is_ws(x[0]) {
        assert(x.push(w).drop_first() =~= x.drop_first().push(w));
        lemma_trim_start_push(x.drop_first(), w);
    }
}

/// Whitespace at the end does not change `trim`.
pub proof fn lemma_trim_push_ws(x: Seq<char>, w: char)
    requires
        is_ws(w),
    ensures
        trim(x.push(w)) == trim(x),
{
    lemma_trim_start_push(x, w);
    if trim_start(x).len() == 0 {
        let sw = seq![w];
        assert(sw[0] == w);
        assert(sw.drop_first() =~= Seq::<char>::empty());
        assert(trim_start(sw.drop_first()) =~= Seq::<char>::empty());
        assert(trim_start(sw) =~= Seq::<char>::empty());
    } else {
        assert(trim_start(x).push(w).drop_last() =~= trim_start(x));
    }
}

/// A `'\r'` at the end does not change `trim`.
pub proof fn lemma_trim_strip_cr(l: Seq<char>)
    ensures
        trim(strip_cr(l)) == trim(l),
        forall|t: LineTest| test_line(t, strip_cr(l)) == test_line(t, l),
{
    if l.len() > 0 && l.last() == '\r' {
        assert(l.drop_last().push('\r') =~= l);
        lemma_trim_push_ws(l.drop_last(), '\r');
    }
}

/// Reading back what `replace_lines` wrote.
pub proof fn lemma_replace_reread(ls: Seq<Seq<char>>, t: LineTest, repl: Seq<char>, tail: Seq<char>)
    requires
        lacks(repl, '\n'),
        forall|i: int| 0 <= i < ls.len() ==> lacks(#[trigger] ls[i], '\n'),
    ensures
        lines(replace_lines(ls, t, repl) + tail) == reread(ls, t, repl) + lines(tail),
    decreases ls.len(),
{
    if ls.len() == 0 {
        assert(replace_lines(ls, t, repl) + tail =~= tail);
        assert(reread(ls, t, repl) + lines(tail) =~= lines(tail));
    } else {
        let p = if test_line(t, ls[0]) {
            repl
        } else {
            ls[0]
        };
        let rest = ls.drop_first();
        assert forall|i: int| 0 <= i < rest.len() implies lacks(#[trigger] rest[i], '\n') by {
            assert(rest[i] == ls[i + 1]);
        }
        lemma_replace_reread(rest, t, repl, tail);
        assert(replace_lines(ls, t, repl) + tail =~= p + seq!['\n'] + (replace_lines(rest, t, repl)
            + tail));
        lemma_lines_cons(p, replace_lines(rest, t, repl) + tail);
        assert(reread(ls, t, repl) =~= seq![strip_cr(p)] + reread(rest, t, repl));
        assert(reread(ls, t, repl) + lines(tail) =~= seq![strip_cr(p)] + (reread(rest, t, repl)
            + lines(tail)));
    }
}

/// The first line that passes the test, among what `replace_lines` wrote and
/// whatever follows it.
pub proof fn lemma_first_match_reread(
    ls: Seq<Seq<char>>,
    t: LineTest,
    repl: Seq<char>,
    more: Seq<Seq<char>>,
)
    requires
        test_line(t, repl),
        strip_cr(repl) == repl,
    ensures
        first_match(reread(ls, t, repl) + more, t) == if first_match(ls, t) >= 0 {
            first_match(ls, t)
        } else if first_match(more, t) >= 0 {
            ls.len() + first_match(more, t)
        } else {
            -1
        },
        first_match(ls, t) >= 0 ==> (reread(ls, t, repl) + more)[first_match(ls, t)] == repl,
{
    let m = reread(ls, t, repl);
    let all = m + more;
    assert forall|i: int| 0 <= i < ls.len() implies test_line(t, #[trigger] all[i]) == test_line(
        t,
        ls[i],
    ) && (test_line(t, ls[i]) ==> all[i] == repl) by {
        assert(all[i] == m[i]);
        lemma_trim_strip_cr(ls[i]);
    }
    assert forall|i: int| 0 <= i < more.len() implies #[trigger] all[ls.len() + i] == more[i] by {}
    lemma_first_match_bounds(ls, t);
    lemma_first_match_bounds(more, t);
    let fl = first_match(ls, t);
    let fm = first_match(more, t);
    let k = if fl >= 0 {
        fl
    } else if fm >= 0 {
        ls.len() + fm
    } else {
        -1
    };
    assert forall|j: int| 0 <= j < k implies !test_line(t, #[trigger] all[j]) by {
        if j >= ls.len() {
            assert(all[ls.len() + (j - ls.len())] == more[j - ls.len()]);
        }
    }
    if k < 0 {
        assert forall|j: int| 0 <= j < all.len() implies !test_line(t, #[trigger] all[j]) by {
            if j >= ls.len() {
                assert(all[ls.len() + (j - ls.len())] == more[j - ls.len()]);
            }
        }
    }
    if k >= ls.len() {
        assert(all[ls.len() + fm] == more[fm]);
    }
    lemma_first_match_of(all, t, k);
}

/// `join` with one more piece.
pub proof fn lemma_join_push(ps: Seq<Seq<char>>, x: Seq<char>, sep: Seq<char>)
    requires
        ps.len() >= 1,
    ensures
        join(ps.push(x), sep) == join(ps, sep) + sep + x,
    decreases ps.len(),
{
    if ps.len() == 1 {
        assert(ps.push(x).drop_first() =~= seq![x]);
        assert(join(seq![x], sep) == x);
        assert(ps.push(x)[0] == ps[0]);
        assert(join(ps.push(x), sep) == ps[0] + sep + join(seq![x], sep));
    } else {
        assert(ps.push(x).drop_first() =~= ps.drop_first().push(x));
        lemma_join_push(ps.drop_first(), x, sep);
        assert(join(ps.push(x), sep) =~= join(ps, sep) + sep + x);
    }
}

/// The first character of a join of non-empty pieces.
pub proof fn lemma_join_first(ps: Seq<Seq<char>>, sep: Seq<char>)
    requires
        ps.len() >= 1,
        ps[0].len() > 0,
    ensures
        join(ps, sep).len() > 0,
        join(ps, sep)[0] == ps[0][0],
{
}

/// Splitting at whitespace undoes joining with a space, for non-empty pieces
/// without whitespace.
pub proof fn lemma_split_join(ps: Seq<Seq<char>>)
    requires
        forall|i: int|
            0 <= i < ps.len() ==> (#[trigger] ps[i]).len() > 0 && forall|j: int|
                0 <= j < ps[i].len() ==> !is_ws(ps[i][j]),
    ensures
        split_ws(join(ps, seq![' '])) == ps,
    decreases ps.len(),
{
    let sp = seq![' '];
    if ps.len() == 0 {
        assert(trim_start(join(ps, sp)) =~= Seq::<char>::empty());
        assert(split_ws(join(ps, sp)) =~= ps);
    } else {
        let p = ps[0];
        let s = join(ps, sp);
        lemma_join_first(ps, sp);
        lemma_trim_start_skip(s, 0);
        assert(trim_start(s) == s);
        if ps.len() == 1 {
            lemma_find_ws_of(s, -1);
            assert(split_ws(s) =~= ps);
        } else {
            let rest = ps.drop_first();
            let jr = join(rest, sp);
            assert(s == p + sp + jr);
            assert forall|j: int| 0 <= j < p.len() implies !is_ws(#[trigger] s[j]) by {
                assert(s[j] == p[j]);
            }
            assert(s[p.len() as int] == ' ');
            lemma_find_ws_of(s, p.len() as int);
            assert(s.take(p.len() as int) =~= p);
            assert(s.skip(p.len() as int) =~= sp + jr);
            assert forall|i: int| 0 <= i < rest.len() implies (#[trigger] rest[i]).len() > 0 && forall|j: int|
                0 <= j < rest[i].len() ==> !is_ws(rest[i][j]) by {
                assert(rest[i] == ps[i + 1]);
            }
            lemma_split_join(rest);
            lemma_join_first(rest, sp);
            lemma_trim_start_skip(jr, 0);
            assert((sp + jr).drop_first() =~= jr);
            assert(trim_start(sp + jr) == trim_start(jr));
            assert(split_ws(sp + jr) == split_ws(jr));
            assert(split_ws(s) =~= ps);
        }
    }
}

/// `trim` leaves alone a sequence that neither starts nor ends with
/// whitespace.
pub proof fn lemma_trim_id(s: Seq<char>)
    requires
        s.len() > 0 ==> !is_ws(s[0]) && !is_ws(s.last()),
    ensures
        trim(s) == s,
{
    lemma_trim_start_skip(s, 0);
    assert(s.skip(0) =~= s);
}

/// `trim_matches(c)` leaves alone a sequence that neither starts nor ends
/// with `c`.
pub proof fn lemma_trim_char_id(s: Seq<char>, c: char)
    requires
        s.len() > 0 ==> s[0] != c && s.last() != c,
    ensures
        trim_char(s, c) == s,
{
}

/// `trim_matches(c)` of `c x c`, where `x` neither starts nor ends with `c`.
pub proof fn lemma_trim_char_wrapped(x: Seq<char>, c: char)
    requires
        x.len() > 0 ==> x[0] != c && x.last() != c,
    ensures
        trim_char(seq![c] + x + seq![c], c) == x,
{
    let w = seq![c] + x + seq![c];
    assert(w[0] == c);
    assert(w.drop_first() =~= x + seq![c]);
    let y = x + seq![c];
    if x.len() > 0 {
        assert(y[0] == x[0]);
        assert(trim_start_char(w, c) == trim_start_char(w.drop_first(), c));
        assert(trim_start_char(y, c) == y);
        assert(trim_start_char(w, c) == y);
        assert(y.last() == c);
        assert(y.drop_last() =~= x);
        assert(trim_end_char(y, c) == trim_end_char(x, c));
    } else {
        assert(y =~= seq![c]);
        assert(y[0] == c);
        assert(trim_start_char(w, c) == trim_start_char(w.drop_first(), c));
        assert(y.drop_first() =~= Seq::<char>::empty());
        assert(trim_start_char(y, c) == trim_start_char(y.drop_first(), c));
        assert(trim_start_char(y.drop_first(), c) =~= Seq::<char>::empty());
        assert(trim_start_char(w, c) =~= Seq::<char>::empty());
        assert(x =~= Seq::<char>::empty());
    }
}

/// The last character of a join of non-empty pieces.
pub proof fn lemma_join_last(ps: Seq<Seq<char>>, sep: Seq<char>)
    requires
        ps.len() >= 1,
        ps.last().len() > 0,
    ensures
        join(ps, sep).len() > 0,
        join(ps, sep).last() == ps.last().last(),
    decreases ps.len(),
{
    if ps.len() > 1 {
        assert(ps.drop_first().last() == ps.last());
        lemma_join_last(ps.drop_first(), sep);
    }
}

/// `trim_matches(c)` of `c x d`: only the leading `c` goes.
pub proof fn lemma_trim_char_open(x: Seq<char>, c: char, d: char)
    requires
        c != d,
        x.len() > 0 ==> x[0] != c,
    ensures
        trim_char(seq![c] + x + seq![d], c) == x + seq![d],
{
    let w = seq![c] + x + seq![d];
    let y = x + seq![d];
    assert(w[0] == c);
    assert(w.drop_first() =~= y);
    assert(trim_start_char(w, c) == trim_start_char(y, c));
    if x.len() > 0 {
        assert(y[0] == x[0]);
    } else {
        assert(y[0] == d);
    }
    assert(trim_start_char(y, c) == y);
    assert(y.last() == d);
}

/// `trim_matches(d)` of `x d`, where `x` neither starts nor ends with `d`.
pub proof fn lemma_trim_char_close(x: Seq<char>, d: char)
    requires
        x.len() > 0 ==> x[0] != d && x.last() != d,
    ensures
        trim_char(x + seq![d], d) == x,
{
    let y = x + seq![d];
    if x.len() > 0 {
        assert(y[0] == x[0]);
        assert(trim_start_char(y, d) == y);
        assert(y.last() == d);
        assert(y.drop_last() =~= x);
        assert(trim_end_char(y, d) == trim_end_char(x, d));
    } else {
        assert(y =~= seq![d]);
        assert(y[0] == d);
        assert(y.drop_first() =~= Seq::<char>::empty());
        assert(trim_start_char(y, d) == trim_start_char(y.drop_first(), d));
        assert(x =~= Seq::<char>::empty());
    }
}

/// Every character of a join comes from a piece or from the separator.
pub proof fn lemma_join_chars(ps: Seq<Seq<char>>, sep: Seq<char>, ok: spec_fn(char) -> bool)
    requires
        forall|j: int| 0 <= j < sep.len() ==> ok(sep[j]),
        forall|i: int, j: int| 0 <= i < ps.len() && 0 <= j < ps[i].len() ==> ok(#[trigger] ps[i][j]),
    ensures
        forall|k: int| 0 <= k < join(ps, sep).len() ==> ok(#[trigger] join(ps, sep)[k]),
    decreases ps.len(),
{
    if ps.len() == 1 {
        assert forall|k: int| 0 <= k < join(ps, sep).len() implies ok(#[trigger] join(ps, sep)[k]) by {
            assert(join(ps, sep)[k] == ps[0][k]);
        }
    } else if ps.len() > 1 {
        let rest = ps.drop_first();
        assert forall|i: int, j: int| 0 <= i < rest.len() && 0 <= j < rest[i].len() implies ok(
            #[trigger] rest[i][j],
        ) by {
            assert(rest[i] == ps[i + 1]);
        }
        lemma_join_chars(rest, sep, ok);
        let jr = join(rest, sep);
        let whole = ps[0] + sep + jr;
        assert(join(ps, sep) == whole);
        assert forall|k: int| 0 <= k < whole.len() implies ok(#[trigger] whole[k]) by {
            if k < ps[0].len() {
                assert(whole[k] == ps[0][k]);
            } else if k < ps[0].len() + sep.len() {
                assert(whole[k] == sep[k - ps[0].len()]);
            } else {
                assert(whole[k] == jr[k - ps[0].len() - sep.len()]);
            }
        }
    }
}

/// What `set_line_spec` writes, read back as lines: the old lines with the
/// setting in place of the matching ones, then (when none matched) the added
/// lines.
pub proof fn lemma_set_line_reread(content: Seq<char>, t: LineTest, setting: Seq<char>, blank: bool)
    requires
        lacks(setting, '\n'),
        setting.len() > 0,
        setting.last() != '\r',
    ensures
        lines(set_line_spec(content, t, setting, blank)) == reread(lines(content), t, setting)
            + if any_line(lines(content), t) {
            Seq::<Seq<char>>::empty()
        } else {
            added_lines(setting, blank)
        },
{
    let ls = lines(content);
    lemma_lines_lack_nl(content);
    let e = Seq::<char>::empty();
    if any_line(ls, t) {
        lemma_replace_reread(ls, t, setting, e);
        assert(lines(e) =~= Seq::<Seq<char>>::empty());
        assert(set_line_spec(content, t, setting, blank) == replace_lines(ls, t, setting) + e);
        assert(reread(ls, t, setting) + lines(e) =~= reread(ls, t, setting));
    } else {
        assert(lines(e) =~= Seq::<Seq<char>>::empty());
        assert(strip_cr(e) =~= e);
        assert(strip_cr(setting) == setting);
        lemma_lines_cons(setting, e);
        assert(setting + seq!['\n'] =~= setting + seq!['\n'] + e);
        if blank {
            let tail = seq!['\n'] + setting + seq!['\n'];
            lemma_replace_reread(ls, t, setting, tail);
            assert(tail =~= e + seq!['\n'] + (setting + seq!['\n'] + e));
            lemma_lines_cons(e, setting + seq!['\n'] + e);
            assert(lines(tail) =~= seq![e, setting]);
            assert(set_line_spec(content, t, setting, blank) == replace_lines(ls, t, setting) + tail);
        } else {
            let tail = setting + seq!['\n'];
            lemma_replace_reread(ls, t, setting, tail);
            assert(lines(tail) =~= seq![setting]);
            assert(set_line_spec(content, t, setting, blank) =~= replace_lines(ls, t, setting) + tail);
        }
    }
}

/// What `set_line_spec` writes holds the setting as a line.
pub proof fn lemma_set_line_present(content: Seq<char>, t: LineTest, setting: Seq<char>, blank: bool)
    requires
        lacks(setting, '\n'),
        setting.len() > 0,
        setting.last() != '\r',
        test_line(t, setting),
    ensures
        exists|k: int|
            0 <= k < lines(set_line_spec(content, t, setting, blank)).len() && #[trigger] lines(
                set_line_spec(content, t, setting, blank),
            )[k] == setting,
{
    lemma_set_line_reread(content, t, setting, blank);
    let ls = lines(content);
    let all = lines(set_line_spec(content, t, setting, blank));
    let m = reread(ls, t, setting);
    if any_line(ls, t) {
        let i = choose|i: int| 0 <= i < ls.len() && test_line(t, #[trigger] ls[i]);
        assert(all[i] == m[i]);
        assert(all[i] == setting);
    } else {
        let k = m.len() + added_lines(setting, blank).len() - 1;
        assert(all[k] == setting);
    }
}

/// A pattern that starts at some position occurs.
pub proof fn lemma_contains_at(s: Seq<char>, p: Seq<char>, i: int)
    requires
        0 <= i <= s.len(),
        starts_with(s.skip(i), p),
    ensures
        contains(s, p),
    decreases i,
{
    if i == 0 {
        assert(s.skip(0) =~= s);
    } else if !starts_with(s, p) {
        assert(s.drop_first().skip(i - 1) =~= s.skip(i));
        lemma_contains_at(s.drop_first(), p, i - 1);
    }
}

/// A pattern in the second part occurs in the whole.
pub proof fn lemma_contains_append(a: Seq<char>, b: Seq<char>, p: Seq<char>)
    requires
        contains(b, p),
    ensures
        contains(a + b, p),
    decreases b.len(),
{
    lemma_find_sub_bounds(b, p);
    let j = find_sub(b, p);
    assert((a + b).skip(a.len() + j) =~= b.skip(j));
    lemma_contains_at(a + b, p, a.len() + j);
}

/// A pattern in the first part occurs in the whole.
pub proof fn lemma_contains_extend(a: Seq<char>, b: Seq<char>, p: Seq<char>)
    requires
        contains(a, p),
    ensures
        contains(a + b, p),
{
    lemma_find_sub_bounds(a, p);
    let j = find_sub(a, p);
    assert((a + b).skip(j).take(p.len() as int) =~= a.skip(j).take(p.len() as int));
    lemma_contains_at(a + b, p, j);
}

/// Every text occurs in itself.
pub proof fn lemma_contains_self(p: Seq<char>)
    ensures
        contains(p, p),
{
    assert(p.skip(0).take(p.len() as int) =~= p);
    lemma_contains_at(p, p, 0);
}

pub proof fn lemma_find_sub_bounds(s: Seq<char>, p: Seq<char>)
    ensures
        -1 <= find_sub(s, p) <= s.len(),
        find_sub(s, p) >= 0 ==> starts_with(s.skip(find_sub(s, p)), p),
    decreases s.len(),
{
    if starts_with(s, p) {
        assert(s.skip(0) =~= s);
    } else if s.len() > 0 {
        lemma_find_sub_bounds(s.drop_first(), p);
        let r = find_sub(s.drop_first(), p);
        if r >= 0 {
            assert(s.drop_first().skip(r) =~= s.skip(r + 1));
        }
    }
}

// ───────────────────────── executable code ─────────────────────────

/// The characters of `s`, in order.
pub fn chars_of(s: &str) -> (v: Vec<char>)
    ensures
        v@ == s@,
{
    let mut v: Vec<char> = Vec::new();
    proof {
        broadcast use vstd::string::group_string_axioms;
    }
    for c in it: s.chars()
        invariant
            it.seq() == s@,
            v@ == s@.take(it.index() as int),
    {
        v.push(c);
    }
    assert(v@ == s@);
    v
}

/// A string holding exactly the given characters.
pub fn string_of(v: &Vec<char>) -> (s: String)
    ensures
        s@ == v@,
{
    let mut s = String::new();
    let mut i: usize = 0;
    while i < v.len()
        invariant
            i <= v.len(),
            s@ == v@.subrange(0, i as int),
        decreases v.len() - i,
    {
        s.push(v[i]);
        i = i + 1;
        assert(s@ =~= v@.subrange(0, i as int));
    }
    assert(v@.subrange(0, v.len() as int) =~= v@);
    s
}

/// The characters of `v` from `a` up to `b`.
pub fn slice_of(v: &Vec<char>, a: usize, b: usize) -> (r: Vec<char>)
    requires
        a <= b <= v.len(),
    ensures
        r@ == v@.subrange(a as int, b as int),
{
    let mut r: Vec<char> = Vec::new();
    let mut i: usize = a;
    while i < b
        invariant
            a <= i <= b <= v.len(),
            r@ == v@.subrange(a as int, i as int),
        decreases b - i,
    {
        r.push(v[i]);
        i = i + 1;
        assert(r@ =~= v@.subrange(a as int, i as int));
    }
    r
}

/// Appends the characters of `s` to `out`.
pub fn push_all(out: &mut Vec<char>, s: &Vec<char>)
    ensures
        final(out)@ == old(out)@ + s@,
{
    let mut i: usize = 0;
    while i < s.len()
        invariant
            i <= s.len(),
            out@ == old(out)@ + s@.subrange(0, i as int),
        decreases s.len() - i,
    {
        out.push(s[i]);
        i = i + 1;
        assert(out@ =~= old(out)@ + s@.subrange(0, i as int));
    }
    assert(s@.subrange(0, s.len() as int) =~= s@);
}

/// Appends the characters of `s` to `out`.
pub fn push_str(out: &mut Vec<char>, s: &str)
    ensures
        final(out)@ == old(out)@ + s@,
{
    let v = chars_of(s);
    push_all(out, &v);
}

/// Whether two character sequences are equal.
pub fn seq_eq(a: &Vec<char>, b: &Vec<char>) -> (r: bool)
    ensures
        r == (a@ == b@),
{
    if a.len() != b.len() {
        return false;
    }
    let mut i: usize = 0;
    while i < a.len()
        invariant
            a.len() == b.len(),
            i <= a.len(),
            forall|j: int| 0 <= j < i ==> a@[j] == b@[j],
        decreases a.len() - i,
    {
        if a[i] != b[i] {
            return false;
        }
        i = i + 1;
    }
    assert(a@ =~= b@);
    true
}

/// Whether `v` holds exactly the characters of `s`.
pub fn eq_str(v: &Vec<char>, s: &str) -> (r: bool)
    ensures
        r == (v@ == s@),
{
    let w = chars_of(s);
    seq_eq(v, &w)
}

/// Whether two string slices hold the same characters.
pub fn str_eq(a: &str, b: &str) -> (r: bool)
    ensures
        r == (a@ == b@),
{
    let va = chars_of(a);
    eq_str(&va, b)
}

/// `char::is_whitespace`.
pub fn is_whitespace(c: char) -> (r: bool)
    ensures
        r == is_ws(c),
{
    c == ' ' || ('\t' <= c && c <= '\r') || c == '\u{85}' || c == '\u{A0}' || c == '\u{1680}' || (
    '\u{2000}' <= c && c <= '\u{200A}') || c == '\u{2028}' || c == '\u{2029}' || c == '\u{202F}'
        || c == '\u{205F}' || c == '\u{3000}'
}

/// Whether `p` is a prefix of `s`, from position `at` on.
pub fn starts_with_at(s: &Vec<char>, at: usize, p: &Vec<char>) -> (r: bool)
    requires
        at <= s.len(),
    ensures
        r == starts_with(s@.skip(at as int), p@),
{
    if p.len() > s.len() - at {
        return false;
    }
    let mut i: usize = 0;
    while i < p.len()
        invariant
            at <= s.len(),
            p.len() <= s.len() - at,
            i <= p.len(),
            forall|j: int| 0 <= j < i ==> s@[at + j] == p@[j],
        decreases p.len() - i,
    {
        if s[at + i] != p[i] {
            assert(s@.skip(at as int).take(p.len() as int)[i as int] != p@[i as int]);
            return false;
        }
        i = i + 1;
    }
    assert(s@.skip(at as int).take(p.len() as int) =~= p@);
    true
}

/// `str::starts_with`.
pub fn starts_with_str(s: &Vec<char>, p: &str) -> (r: bool)
    ensures
        r == starts_with(s@, p@),
{
    let pv = chars_of(p);
    let r = starts_with_at(s, 0, &pv);
    assert(s@.skip(0) =~= s@);
    r
}

/// `str::ends_with`.
pub open spec fn ends_with(s: Seq<char>, p: Seq<char>) -> bool {
    p.len() <= s.len() && s.skip(s.len() - p.len()) == p
}

/// `str::ends_with`.
pub fn ends_with_str(s: &Vec<char>, p: &str) -> (r: bool)
    ensures
        r == ends_with(s@, p@),
{
    let pv = chars_of(p);
    if pv.len() > s.len() {
        return false;
    }
    let at = s.len() - pv.len();
    let r = starts_with_at(s, at, &pv);
    assert(s@.skip(at as int).take(pv.len() as int) =~= s@.skip(at as int));
    r
}

/// `str::trim_start`.
pub fn trim_start_vec(s: &Vec<char>) -> (r: Vec<char>)
    ensures
        r@ == trim_start(s@),
{
    let mut i: usize = 0;
    assert(s@.skip(0) =~= s@);
    while i < s.len() && is_whitespace(s[i])
        invariant
            i <= s.len(),
            trim_start(s@) == trim_start(s@.skip(i as int)),
        decreases s.len() - i,
    {
        assert(s@.skip(i as int).drop_first() =~= s@.skip(i + 1));
        i = i + 1;
    }
    assert(s@.skip(i as int) =~= s@.subrange(i as int, s.len() as int));
    slice_of(s, i, s.len())
}

/// `str::trim`.
pub fn trim_vec(s: &Vec<char>) -> (r: Vec<char>)
    ensures
        r@ == trim(s@),
{
    let u = trim_start_vec(s);
    let mut j: usize = u.len();
    assert(u@.take(j as int) =~= u@);
    while j > 0 && is_whitespace(u[j - 1])
        invariant
            j <= u.len(),
            trim_end(u@) == trim_end(u@.take(j as int)),
        decreases j,
    {
        assert(u@.take(j as int).drop_last() =~= u@.take(j - 1));
        j = j - 1;
    }
    assert(u@.take(j as int) =~= u@.subrange(0, j as int));
    slice_of(&u, 0, j)
}

/// `str::trim_matches` with a single character.
pub fn trim_char_vec(s: &Vec<char>, c: char) -> (r: Vec<char>)
    ensures
        r@ == trim_char(s@, c),
{
    let mut i: usize = 0;
    assert(s@.skip(0) =~= s@);
    while i < s.len() && s[i] == c
        invariant
            i <= s.len(),
            trim_start_char(s@, c) == trim_start_char(s@.skip(i as int), c),
        decreases s.len() - i,
    {
        assert(s@.skip(i as int).drop_first() =~= s@.skip(i + 1));
        i = i + 1;
    }
    let u = slice_of(s, i, s.len());
    assert(s@.skip(i as int) =~= u@);
    let mut j: usize = u.len();
    assert(u@.take(j as int) =~= u@);
    while j > 0 && u[j - 1] == c
        invariant
            j <= u.len(),
            trim_end_char(u@, c) == trim_end_char(u@.take(j as int), c),
        decreases j,
    {
        assert(u@.take(j as int).drop_last() =~= u@.take(j - 1));
        j = j - 1;
    }
    assert(u@.take(j as int) =~= u@.subrange(0, j as int));
    slice_of(&u, 0, j)
}

/// `str::trim_start_matches` with a string pattern.
pub fn trim_start_str_vec(s: &Vec<char>, p: &str) -> (r: Vec<char>)
    ensures
        r@ == trim_start_str(s@, p@),
{
    let pv = chars_of(p);
    if pv.len() == 0 {
        return slice_of(s, 0, s.len());
    }
    let mut i: usize = 0;
    assert(s@.skip(0) =~= s@);
    while starts_with_at(s, i, &pv)
        invariant
            pv@ == p@,
            pv.len() > 0,
            i <= s.len(),
            trim_start_str(s@, p@) == trim_start_str(s@.skip(i as int), p@),
        decreases s.len() - i,
    {
        assert(s@.skip(i as int).skip(pv.len() as int) =~= s@.skip(i + pv.len()));
        i = i + pv.len();
    }
    assert(s@.skip(i as int) =~= s@.subrange(i as int, s.len() as int));
    slice_of(s, i, s.len())
}

/// Position of the first `c` in `s` from `from` on.
pub fn find_char_from(s: &Vec<char>, from: usize, c: char) -> (r: Option<usize>)
    requires
        from <= s.len(),
    ensures
        match r {
            Some(k) => from <= k < s.len() && find_char(s@.skip(from as int), c) == k - from,
            None => find_char(s@.skip(from as int), c) == -1,
        },
{
    let mut i: usize = from;
    while i < s.len()
        invariant
            from <= i <= s.len(),
            forall|j: int| from <= j < i ==> s@[j] != c,
        decreases s.len() - i,
    {
        if s[i] == c {
            proof {
                let t = s@.skip(from as int);
                assert forall|j: int| 0 <= j < i - from implies t[j] != c by {
                    assert(t[j] == s@[from + j]);
                }
                lemma_find_char_of(t, c, i - from);
            }
            return Some(i);
        }
        i = i + 1;
    }
    proof {
        let t = s@.skip(from as int);
        assert forall|j: int| 0 <= j < t.len() implies t[j] != c by {
            assert(t[j] == s@[from + j]);
        }
        lemma_find_char_of(t, c, -1);
    }
    None
}

/// `str::find` with a string pattern, from position `from` on.
pub fn find_sub_from(s: &Vec<char>, from: usize, p: &Vec<char>) -> (r: Option<usize>)
    requires
        from <= s.len(),
    ensures
        match r {
            Some(k) => from <= k <= s.len() && find_sub(s@.skip(from as int), p@) == k - from,
            None => find_sub(s@.skip(from as int), p@) == -1,
        },
    decreases s.len() - from,
{
    if starts_with_at(s, from, p) {
        return Some(from);
    }
    if from == s.len() {
        return None;
    }
    let r = find_sub_from(s, from + 1, p);
    assert(s@.skip(from as int).drop_first() =~= s@.skip(from + 1));
    r
}

/// `str::contains` with a string pattern.
pub fn contains_str(s: &Vec<char>, p: &str) -> (r: bool)
    ensures
        r == contains(s@, p@),
{
    let pv = chars_of(p);
    let r = find_sub_from(s, 0, &pv);
    assert(s@.skip(0) =~= s@);
    r.is_some()
}

/// Drops one `'\r'` at the end.
pub fn strip_cr_vec(v: Vec<char>) -> (r: Vec<char>)
    ensures
        r@ == strip_cr(v@),
{
    let mut v = v;
    if v.len() > 0 && v[v.len() - 1] == '\r' {
        v.pop();
    }
    v
}

/// `str::lines`.
pub fn lines_vec(s: &Vec<char>) -> (r: Vec<Vec<char>>)
    ensures
        seqs(r@) == lines(s@),
{
    let mut r: Vec<Vec<char>> = Vec::new();
    let mut start: usize = 0;
    assert(s@.skip(0) =~= s@);
    assert(seqs(r@) =~= Seq::<Seq<char>>::empty());
    while start < s.len()
        invariant
            start <= s.len(),
            lines(s@) == seqs(r@) + lines(s@.skip(start as int)),
        decreases s.len() - start,
    {
        let t = Ghost(s@.skip(start as int));
        match find_char_from(s, start, '\n') {
            Some(k) => {
                let piece = slice_of(s, start, k);
                let piece = strip_cr_vec(piece);
                proof {
                    assert(t@.take(k - start) =~= s@.subrange(start as int, k as int));
                    assert(t@.skip(k - start + 1) =~= s@.skip(k + 1));
                    assert(lines(t@) == seq![piece@] + lines(s@.skip(k + 1)));
                }
                let ghost before = r@;
                let ghost pv = piece@;
                r.push(piece);
                assert(seqs(r@) =~= seqs(before).push(pv));
                start = k + 1;
                proof {
                    assert(seqs(r@) + lines(s@.skip(start as int)) =~= lines(s@));
                }
            },
            None => {
                let piece = slice_of(s, start, s.len());
                proof {
                    assert(t@ =~= piece@);
                }
                let ghost before = r@;
                let ghost pv = piece@;
                r.push(piece);
                assert(seqs(r@) =~= seqs(before).push(pv));
                start = s.len();
                proof {
                    assert(s@.skip(start as int) =~= Seq::<char>::empty());
                }
            },
        }
    }
    proof {
        assert(s@.skip(start as int) =~= Seq::<char>::empty());
    }
    r
}


/// Whether a line passes the test.
pub fn line_matches(t: &LineTest, l: &Vec<char>) -> (r: bool)
    ensures
        r == test_line(*t, l@),
{
    let tl = trim_vec(l);
    match t {
        LineTest::Prefix(p) => starts_with_str(&tl, p),
        LineTest::EitherPrefix(p, q) => starts_with_str(&tl, p) || starts_with_str(&tl, q),
        LineTest::EitherEqual(p, q) => eq_str(&tl, p) || eq_str(&tl, q),
    }
}

/// Writes each line with a `'\n'` after it, `repl` in place of the lines that
/// pass the test; also tells whether any did.
pub fn replace_lines_vec(ls: &Vec<Vec<char>>, t: &LineTest, repl: &Vec<char>) -> (r: (
    Vec<char>,
    bool,
))
    ensures
        r.0@ == replace_lines(seqs(ls@), *t, repl@),
        r.1 == any_line(seqs(ls@), *t),
{
    let ghost all = seqs(ls@);
    let mut out: Vec<char> = Vec::new();
    let mut found = false;
    let mut k: usize = 0;
    assert(all.skip(0) =~= all);
    while k < ls.len()
        invariant
            all == seqs(ls@),
            k <= ls.len(),
            out@ + replace_lines(all.skip(k as int), *t, repl@) == replace_lines(all, *t, repl@),
            found == exists|i: int| 0 <= i < k && test_line(*t, #[trigger] all[i]),
        decreases ls.len() - k,
    {
        let m = line_matches(t, &ls[k]);
        let ghost before = out@;
        proof {
            assert(all.skip(k as int).drop_first() =~= all.skip(k + 1));
            assert(all.skip(k as int)[0] == ls@[k as int]@);
        }
        if m {
            push_all(&mut out, repl);
            found = true;
        } else {
            push_all(&mut out, &ls[k]);
        }
        out.push('\n');
        proof {
            let piece = if test_line(*t, all[k as int]) {
                repl@
            } else {
                all[k as int]
            };
            assert(out@ == before + piece + seq!['\n']);
            assert(out@ + replace_lines(all.skip(k + 1), *t, repl@) =~= before + replace_lines(
                all.skip(k as int),
                *t,
                repl@,
            ));
            if m {
                assert(test_line(*t, all[k as int]));
            }
        }
        k = k + 1;
    }
    assert(all.skip(k as int) =~= Seq::<Seq<char>>::empty());
    assert(out@ + Seq::<char>::empty() =~= out@);
    (out, found)
}

/// Index of the first line that passes the test.
pub fn first_match_vec(ls: &Vec<Vec<char>>, t: &LineTest) -> (r: Option<usize>)
    ensures
        match r {
            Some(k) => k < ls.len() && first_match(seqs(ls@), *t) == k,
            None => first_match(seqs(ls@), *t) == -1,
        },
{
    let ghost all = seqs(ls@);
    let mut k: usize = 0;
    while k < ls.len()
        invariant
            all == seqs(ls@),
            k <= ls.len(),
            forall|j: int| 0 <= j < k ==> !test_line(*t, #[trigger] all[j]),
        decreases ls.len() - k,
    {
        if line_matches(t, &ls[k]) {
            proof {
                lemma_first_match_of(all, *t, k as int);
            }
            return Some(k);
        }
        k = k + 1;
    }
    proof {
        lemma_first_match_of(all, *t, -1);
    }
    None
}

/// `str::split_whitespace`.
pub fn split_whitespace_vec(v: &Vec<char>) -> (r: Vec<Vec<char>>)
    ensures
        seqs(r@) == split_ws(v@),
{
    let mut r: Vec<Vec<char>> = Vec::new();
    let mut i: usize = 0;
    assert(v@.skip(0) =~= v@);
    assert(seqs(r@) =~= Seq::<Seq<char>>::empty());
    while i < v.len()
        invariant
            i <= v.len(),
            seqs(r@) + split_ws(v@.skip(i as int)) == split_ws(v@),
        decreases v.len() - i,
    {
        let ghost rest = v@.skip(i as int);
        let mut j: usize = i;
        while j < v.len() && is_whitespace(v[j])
            invariant
                i <= j <= v.len(),
                forall|q: int| i <= q < j ==> is_ws(v@[q]),
            decreases v.len() - j,
        {
            j = j + 1;
        }
        proof {
            assert forall|q: int| 0 <= q < j - i implies is_ws(rest[q]) by {
                assert(rest[q] == v@[i + q]);
            }
            lemma_trim_start_skip(rest, j - i);
            assert(rest.skip(j - i) =~= v@.skip(j as int));
        }
        if j == v.len() {
            proof {
                assert(trim_start(rest).len() == 0);
                assert(split_ws(rest) =~= Seq::<Seq<char>>::empty());
                assert(v@.skip(j as int) =~= Seq::<char>::empty());
                assert(trim_start(v@.skip(j as int)) =~= Seq::<char>::empty());
            }
            i = j;
        } else {
            let mut e: usize = j;
            while e < v.len() && !is_whitespace(v[e])
                invariant
                    j <= e <= v.len(),
                    forall|q: int| j <= q < e ==> !is_ws(v@[q]),
                decreases v.len() - e,
            {
                e = e + 1;
            }
            let piece = slice_of(v, j, e);
            proof {
                let tt = v@.skip(j as int);
                assert(trim_start(rest) == tt);
                if e < v.len() {
                    assert forall|q: int| 0 <= q < e - j implies !is_ws(tt[q]) by {
                        assert(tt[q] == v@[j + q]);
                    }
                    lemma_find_ws_of(tt, e - j);
                    assert(tt.take(e - j) =~= piece@);
                    assert(tt.skip(e - j) =~= v@.skip(e as int));
                } else {
                    assert forall|q: int| 0 <= q < tt.len() implies !is_ws(tt[q]) by {
                        assert(tt[q] == v@[j + q]);
                    }
                    lemma_find_ws_of(tt, -1);
                    assert(tt =~= piece@);
                    assert(v@.skip(e as int) =~= Seq::<char>::empty());
                    assert(trim_start(v@.skip(e as int)) =~= Seq::<char>::empty());
                    assert(split_ws(v@.skip(e as int)) =~= Seq::<Seq<char>>::empty());
                }
                assert(split_ws(rest) == seq![piece@] + split_ws(v@.skip(e as int)));
            }
            let ghost before = r@;
            let ghost pv = piece@;
            r.push(piece);
            assert(seqs(r@) =~= seqs(before).push(pv));
            assert(seqs(r@) + split_ws(v@.skip(e as int)) =~= seqs(before) + split_ws(rest));
            i = e;
        }
    }
    assert(v@.skip(i as int) =~= Seq::<char>::empty());
    assert(trim_start(v@.skip(i as int)) =~= Seq::<char>::empty());
    assert(seqs(r@) + Seq::<Seq<char>>::empty() =~= seqs(r@));
    r
}

/// The pieces joined, `sep` between each two.
pub fn join_vec(ps: &Vec<Vec<char>>, sep: &str) -> (r: Vec<char>)
    ensures
        r@ == join(seqs(ps@), sep@),
{
    let ghost all = seqs(ps@);
    if ps.len() == 0 {
        return Vec::new();
    }
    let sv = chars_of(sep);
    let mut out = slice_of(&ps[0], 0, ps[0].len());
    let mut k: usize = 1;
    assert(all.take(1) =~= seq![all[0]]);
    assert(out@ =~= all[0]);
    while k < ps.len()
        invariant
            all == seqs(ps@),
            sv@ == sep@,
            1 <= k <= ps.len(),
            out@ == join(all.take(k as int), sep@),
        decreases ps.len() - k,
    {
        proof {
            lemma_join_push(all.take(k as int), all[k as int], sep@);
            assert(all.take(k as int).push(all[k as int]) =~= all.take(k + 1));
        }
        push_all(&mut out, &sv);
        push_all(&mut out, &ps[k]);
        k = k + 1;
    }
    assert(all.take(k as int) =~= all);
    out
}


/// Each line of `content` with a line ending, those that pass `t` replaced by
/// `setting`; `setting` added on a line of its own (after an empty line when
/// `blank`) when none passed.
pub fn set_line(content: &str, t: &LineTest, setting: &Vec<char>, blank: bool) -> (r: String)
    ensures
        r@ == set_line_spec(content@, *t, setting@, blank),
{
    let cs = chars_of(content);
    let ls = lines_vec(&cs);
    let (mut out, found) = replace_lines_vec(&ls, t, setting);
    let ghost base = out@;
    if !found {
        if blank {
            out.push('\n');
        }
        let ghost before = out@;
        push_all(&mut out, setting);
        out.push('\n');
        assert(out@ =~= before + setting@ + seq!['\n']);
        if blank {
            assert(out@ =~= base + (seq!['\n'] + setting@ + seq!['\n']));
        } else {
            assert(out@ =~= base + (Seq::<char>::empty() + setting@ + seq!['\n']));
        }
    } else {
        assert(out@ =~= base + Seq::<char>::empty());
    }
    string_of(&out)
}


/// `Path::join` of a relative path.
pub fn path_join_str(base: &str, rel: &str) -> (r: String)
    ensures
        r@ == path_join(base@, rel@),
{
    let b = chars_of(base);
    let mut out = slice_of(&b, 0, b.len());
    assert(out@ =~= b@);
    if b.len() > 0 && b[b.len() - 1] != '/' {
        out.push('/');
    }
    push_str(&mut out, rel);
    string_of(&out)
}

/// The decimal digit for `d < 10`.
pub fn digit_char(d: u64) -> (c: char)
    requires
        d < 10,
    ensures
        c == digit(d as nat),
{
    if d == 0 {
        '0'
    } else if d == 1 {
        '1'
    } else if d == 2 {
        '2'
    } else if d == 3 {
        '3'
    } else if d == 4 {
        '4'
    } else if d == 5 {
        '5'
    } else if d == 6 {
        '6'
    } else if d == 7 {
        '7'
    } else if d == 8 {
        '8'
    } else {
        '9'
    }
}

/// The decimal digits of a number.
pub fn decimal_vec(n: u64) -> (r: Vec<char>)
    ensures
        r@ == decimal(n as nat),
    decreases n,
{
    if n < 10 {
        let mut v: Vec<char> = Vec::new();
        v.push(digit_char(n));
        assert(v@ =~= seq![digit(n as nat)]);
        v
    } else {
        let mut v = decimal_vec(n / 10);
        v.push(digit_char(n % 10));
        v
    }
}

/// The decimal text of a number, as `Display` writes it.
pub fn u64_text(n: u64) -> (r: String)
    ensures
        r@ == decimal(n as nat),
{
    string_of(&decimal_vec(n))
}

/// The decimal text of an integer, as `Display` writes it.
pub fn i64_text(n: i64) -> (r: String)
    ensures
        r@ == int_decimal(n as int),
{
    if n < 0 {
        let m: u64 = if n == i64::MIN {
            9223372036854775808u64
        } else {
            (-n) as u64
        };
        let mut v: Vec<char> = Vec::new();
        v.push('-');
        let d = decimal_vec(m);
        push_all(&mut v, &d);
        string_of(&v)
    } else {
        u64_text(n as u64)
    }
}

/// `str::split` at a character.
pub fn split_char_vec(s: &Vec<char>, c: char) -> (r: Vec<Vec<char>>)
    ensures
        seqs(r@) == split_char(s@, c),
{
    let mut r: Vec<Vec<char>> = Vec::new();
    let mut start: usize = 0;
    assert(s@.skip(0) =~= s@);
    assert(seqs(r@) =~= Seq::<Seq<char>>::empty());
    loop
        invariant
            start <= s.len(),
            split_char(s@, c) == seqs(r@) + split_char(s@.skip(start as int), c),
        decreases s.len() - start,
    {
        let ghost t = s@.skip(start as int);
        match find_char_from(s, start, c) {
            Some(k) => {
                let piece = slice_of(s, start, k);
                proof {
                    assert(t.take(k - start) =~= piece@);
                    assert(t.skip(k - start + 1) =~= s@.skip(k + 1));
                }
                let ghost before = r@;
                let ghost pv = piece@;
                r.push(piece);
                assert(seqs(r@) =~= seqs(before).push(pv));
                start = k + 1;
                assert(split_char(s@, c) =~= seqs(r@) + split_char(s@.skip(start as int), c));
            },
            None => {
                let piece = slice_of(s, start, s.len());
                assert(t =~= piece@);
                let ghost before = r@;
                let ghost pv = piece@;
                r.push(piece);
                assert(seqs(r@) =~= seqs(before).push(pv));
                assert(split_char(s@, c) =~= seqs(r@));
                return r;
            },
        }
    }
}


/// Position of the first whitespace character from `from` on.
pub fn find_ws_from(s: &Vec<char>, from: usize) -> (r: Option<usize>)
    requires
        from <= s.len(),
    ensures
        match r {
            Some(k) => from <= k < s.len() && find_ws(s@.skip(from as int)) == k - from,
            None => find_ws(s@.skip(from as int)) == -1,
        },
{
    let mut i: usize = from;
    while i < s.len()
        invariant
            from <= i <= s.len(),
            forall|j: int| from <= j < i ==> !is_ws(s@[j]),
        decreases s.len() - i,
    {
        if is_whitespace(s[i]) {
            proof {
                let t = s@.skip(from as int);
                assert forall|j: int| 0 <= j < i - from implies !is_ws(t[j]) by {
                    assert(t[j] == s@[from + j]);
                }
                lemma_find_ws_of(t, i - from);
            }
            return Some(i);
        }
        i = i + 1;
    }
    proof {
        let t = s@.skip(from as int);
        assert forall|j: int| 0 <= j < t.len() implies !is_ws(t[j]) by {
            assert(t[j] == s@[from + j]);
        }
        lemma_find_ws_of(t, -1);
    }
    None
}

} // verus!
