//! Verified text utilities shared by the renderers: joining parts with a
//! separator, one-level indentation, splitting into lines, and decimal
//! formatting of integers.

use vstd::prelude::*;
use vstd::string::StringExecFns;
use vstd::string::StrSliceExecFns;

verus! {

/// Relies on std's `String::push`: appends exactly the one character.
#[verifier::external_body]
pub(crate) fn push_char(s: &mut String, c: char)
    ensures
        final(s)@ == old(s)@ + seq![c],
{
    s.push(c)
}

/// The decimal digit character for `d` in 0..10.
pub open spec fn spec_dec_digit(d: nat) -> char {
    if d == 0 {
        '0'
    } else if d == 1 {
        '1'
    } else if d == 2 {
        '2'
    } else if d == 3 {
        '3'
    } else if d == 4 {
        '4'
    } else if d == 5 {
        '5'
    } else if d == 6 {
        '6'
    } else if d == 7 {
        '7'
    } else if d == 8 {
        '8'
    } else {
        '9'
    }
}

/// The decimal rendering of a non-negative integer, most significant digit first.
pub open spec fn spec_dec(n: nat) -> Seq<char>
    decreases n,
{
    if n < 10 {
        seq![spec_dec_digit(n)]
    } else {
        spec_dec(n / 10) + seq![spec_dec_digit(n % 10)]
    }
}

/// The decimal rendering of a signed integer: a minus sign for negatives.
pub open spec fn spec_dec_int(n: int) -> Seq<char> {
    if n < 0 {
        seq!['-'] + spec_dec((-n) as nat)
    } else {
        spec_dec(n as nat)
    }
}

fn dec_digit(d: u128) -> (c: char)
    requires
        d < 10,
    ensures
        c == spec_dec_digit(d as nat),
{
    if d == 0 {
        '0'
    } else if d == 1 {
        '1'
    } else if d == 2 {
        '2'
    } else if d == 3 {
        '3'
    } else if d == 4 {
        '4'
    } else if d == 5 {
        '5'
    } else if d == 6 {
        '6'
    } else if d == 7 {
        '7'
    } else if d == 8 {
        '8'
    } else {
        '9'
    }
}

/// Renders `n` in decimal.
pub fn u128_to_dec(n: u128) -> (r: String)
    ensures
        r@ == spec_dec(n as nat),
    decreases n,
{
    if n < 10 {
        let mut s = String::new();
        push_char(&mut s, dec_digit(n));
        s
    } else {
        let mut s = u128_to_dec(n / 10);
        push_char(&mut s, dec_digit(n % 10));
        s
    }
}

/// The parts joined with `sep` between consecutive parts.
pub open spec fn spec_join(parts: Seq<Seq<char>>, sep: Seq<char>) -> Seq<char>
    decreases parts.len(),
{
    if parts.len() == 0 {
        Seq::empty()
    } else if parts.len() == 1 {
        parts[0]
    } else {
        spec_join(parts.drop_last(), sep) + sep + parts.last()
    }
}

/// Joins the parts with `sep` between consecutive parts.
pub fn join_strings(parts: &Vec<String>, sep: &str) -> (r: String)
    ensures
        r@ == spec_join(parts@.map_values(|p: String| p@), sep@),
{
    let ghost mapped = parts@.map_values(|p: String| p@);
    let mut out = String::new();
    let mut k: usize = 0;
    proof {
        assert(mapped.take(0) =~= Seq::<Seq<char>>::empty());
        assert(out@ =~= spec_join(mapped.take(0), sep@));
    }
    while k < parts.len()
        invariant
            k <= parts.len(),
            mapped == parts@.map_values(|p: String| p@),
            mapped.len() == parts@.len(),
            out@ == spec_join(mapped.take(k as int), sep@),
        decreases parts.len() - k,
    {
        if k > 0 {
            out.append(sep);
        }
        out.append(parts[k].as_str());
        proof {
            let taken = mapped.take(k + 1);
            assert(taken.drop_last() =~= mapped.take(k as int));
            assert(taken.last() == mapped[k as int]);
            if k == 0 {
                assert(Seq::<char>::empty() + mapped[0] =~= mapped[0]);
            }
        }
        k = k + 1;
    }
    proof {
        assert(mapped.take(parts@.len() as int) =~= mapped);
    }
    out
}

/// The text with a tab inserted after every newline.
pub open spec fn spec_tabbed(s: Seq<char>) -> Seq<char>
    decreases s.len(),
{
    if s.len() == 0 {
        Seq::empty()
    } else {
        (if s[0] == '\n' {
            seq!['\n', '\t']
        } else {
            seq![s[0]]
        }) + spec_tabbed(s.drop_first())
    }
}

/// The text indented one level: a leading tab, and a tab after every newline.
pub open spec fn spec_indent(s: Seq<char>) -> Seq<char> {
    seq!['\t'] + spec_tabbed(s)
}

proof fn lemma_tabbed_push(s: Seq<char>, c: char)
    ensures
        spec_tabbed(s.push(c)) == spec_tabbed(s) + (if c == '\n' {
            seq!['\n', '\t']
        } else {
            seq![c]
        }),
    decreases s.len(),
{
    let piece = if c == '\n' {
        seq!['\n', '\t']
    } else {
        seq![c]
    };
    if s.len() == 0 {
        let t = s.push(c);
        assert(t[0] == c);
        assert(t.drop_first() =~= Seq::<char>::empty());
        assert(spec_tabbed(t.drop_first()) =~= Seq::<char>::empty());
        assert(spec_tabbed(t) =~= piece + Seq::<char>::empty());
        assert(piece + Seq::<char>::empty() =~= piece);
        assert(spec_tabbed(s) + piece =~= piece);
    } else {
        lemma_tabbed_push(s.drop_first(), c);
        assert(s.push(c).drop_first() =~= s.drop_first().push(c));
        assert(s.push(c)[0] == s[0]);
        let head = if s[0] == '\n' {
            seq!['\n', '\t']
        } else {
            seq![s[0]]
        };
        assert(spec_tabbed(s.push(c)) == head + (spec_tabbed(s.drop_first()) + piece));
        assert(head + (spec_tabbed(s.drop_first()) + piece) =~= (head + spec_tabbed(s.drop_first()))
            + piece);
    }
}

/// Indents the text one level.
pub fn indent(s: &str) -> (r: String)
    ensures
        r@ == spec_indent(s@),
{
    let n = s.unicode_len();
    let mut out = String::new();
    push_char(&mut out, '\t');
    let mut i: usize = 0;
    proof {
        assert(s@.take(0) =~= Seq::<char>::empty());
        assert(out@ =~= seq!['\t'] + spec_tabbed(s@.take(0)));
    }
    while i < n
        invariant
            i <= n == s@.len(),
            out@ == seq!['\t'] + spec_tabbed(s@.take(i as int)),
        decreases n - i,
    {
        let c = s.get_char(i);
        proof {
            lemma_tabbed_push(s@.take(i as int), c);
            assert(s@.take(i as int).push(c) =~= s@.take(i + 1));
        }
        if c == '\n' {
            push_char(&mut out, '\n');
            push_char(&mut out, '\t');
            proof {
                assert(out@ =~= seq!['\t'] + spec_tabbed(s@.take(i + 1)));
            }
        } else {
            push_char(&mut out, c);
            proof {
                assert(out@ =~= seq!['\t'] + spec_tabbed(s@.take(i + 1)));
            }
        }
        i = i + 1;
    }
    proof {
        assert(s@.take(n as int) =~= s@);
    }
    out
}

/// The lines of the text, split on every newline; text without a newline is
/// one line, and a trailing newline yields a final empty line.
pub open spec fn spec_lines(s: Seq<char>) -> Seq<Seq<char>>
    decreases s.len(),
{
    if s.len() == 0 {
        seq![Seq::<char>::empty()]
    } else if s[0] == '\n' {
        seq![Seq::<char>::empty()] + spec_lines(s.drop_first())
    } else {
        let rest = spec_lines(s.drop_first());
        seq![seq![s[0]] + rest[0]] + rest.drop_first()
    }
}

proof fn lemma_lines_nonempty(s: Seq<char>)
    ensures
        spec_lines(s).len() >= 1,
    decreases s.len(),
{
    if s.len() > 0 {
        lemma_lines_nonempty(s.drop_first());
    }
}

proof fn lemma_lines_cons_other(c: char, s: Seq<char>)
    requires
        c != '\n',
    ensures
        spec_lines(seq![c] + s) == seq![seq![c] + spec_lines(s)[0]] + spec_lines(s).drop_first(),
{
    let t = seq![c] + s;
    assert(t[0] == c);
    assert(t.drop_first() =~= s);
}

proof fn lemma_lines_cons_nl(s: Seq<char>)
    ensures
        spec_lines(seq!['\n'] + s) == seq![Seq::<char>::empty()] + spec_lines(s),
{
    let t = seq!['\n'] + s;
    assert(t[0] == '\n');
    assert(t.drop_first() =~= s);
}

proof fn lemma_indent_lines_map(s: Seq<char>)
    ensures
        spec_lines(spec_indent(s)) =~= spec_lines(s).map_values(|l: Seq<char>| seq!['\t'] + l),
    decreases s.len(),
{
    let tab = seq!['\t'];
    let goal_map = spec_lines(s).map_values(|l: Seq<char>| tab + l);
    lemma_lines_nonempty(s);
    if s.len() == 0 {
        assert(spec_indent(s) =~= tab);
        lemma_lines_cons_other('\t', Seq::<char>::empty());
        assert(spec_lines(tab) =~= seq![tab]);
        assert(goal_map =~= seq![tab + Seq::<char>::empty()]);
        assert(tab + Seq::<char>::empty() =~= tab);
        assert(spec_lines(spec_indent(s)) =~= goal_map);
    } else if s[0] == '\n' {
        let s1 = s.drop_first();
        lemma_indent_lines_map(s1);
        lemma_lines_nonempty(s1);
        // indent(s) = tab + ('\n' + indent(s1))
        assert(spec_tabbed(s) == seq!['\n', '\t'] + spec_tabbed(s1));
        assert(spec_indent(s) =~= tab + (seq!['\n'] + spec_indent(s1)));
        lemma_lines_cons_nl(spec_indent(s1));
        lemma_lines_cons_other('\t', seq!['\n'] + spec_indent(s1));
        let inner = spec_lines(seq!['\n'] + spec_indent(s1));
        assert(inner == seq![Seq::<char>::empty()] + spec_lines(spec_indent(s1)));
        assert(inner[0] =~= Seq::<char>::empty());
        assert(spec_lines(spec_indent(s)) == seq![tab + inner[0]] + inner.drop_first());
        assert(tab + inner[0] =~= tab);
        assert(inner.drop_first() =~= spec_lines(spec_indent(s1)));
        // the right-hand side
        assert(s.drop_first() == s1);
        assert(spec_lines(s) == seq![Seq::<char>::empty()] + spec_lines(s1));
        let m1 = spec_lines(s1).map_values(|l: Seq<char>| tab + l);
        assert(goal_map.len() == 1 + m1.len());
        assert(goal_map[0] == tab + Seq::<char>::empty());
        assert(goal_map[0] =~= tab);
        assert forall|i: int| 1 <= i < goal_map.len() implies goal_map[i] == m1[i - 1] by {
            assert(spec_lines(s)[i] == spec_lines(s1)[i - 1]);
        }
        assert(spec_lines(spec_indent(s)) =~= goal_map);
    } else {
        let c = s[0];
        let s1 = s.drop_first();
        lemma_indent_lines_map(s1);
        lemma_lines_nonempty(s1);
        let p = spec_lines(s1);
        let b = spec_lines(spec_tabbed(s1));
        // indent(s) = tab + (c + tabbed(s1))
        assert(spec_tabbed(s) == seq![c] + spec_tabbed(s1));
        assert(spec_indent(s) =~= tab + (seq![c] + spec_tabbed(s1)));
        lemma_lines_cons_other(c, spec_tabbed(s1));
        let a = spec_lines(seq![c] + spec_tabbed(s1));
        lemma_lines_nonempty(spec_tabbed(s1));
        assert(a == seq![seq![c] + b[0]] + b.drop_first());
        lemma_lines_cons_other('\t', seq![c] + spec_tabbed(s1));
        assert(spec_lines(spec_indent(s)) == seq![tab + a[0]] + a.drop_first());
        assert(a[0] == seq![c] + b[0]);
        assert(a.drop_first() =~= b.drop_first());
        // the induction hypothesis, unfolded one step on the left
        lemma_lines_cons_other('\t', spec_tabbed(s1));
        assert(spec_indent(s1) =~= seq!['\t'] + spec_tabbed(s1));
        assert(spec_lines(spec_indent(s1)) == seq![tab + b[0]] + b.drop_first());
        let m1 = p.map_values(|l: Seq<char>| tab + l);
        assert(seq![tab + b[0]] + b.drop_first() =~= m1);
        assert(tab + b[0] == m1[0]);
        assert(m1[0] == tab + p[0]);
        assert((tab + b[0]).len() == (tab + p[0]).len());
        assert forall|j: int| 0 <= j < b[0].len() implies b[0][j] == p[0][j] by {
            assert(b[0][j] == (tab + b[0])[j + 1]);
            assert(p[0][j] == (tab + p[0])[j + 1]);
        }
        assert(b[0] =~= p[0]);
        // assemble both sides
        assert(spec_lines(s) == seq![seq![c] + p[0]] + p.drop_first());
        assert(goal_map.len() == spec_lines(s).len());
        assert(goal_map[0] == tab + (seq![c] + p[0]));
        assert(tab + a[0] =~= goal_map[0]);
        assert forall|i: int| 1 <= i < goal_map.len() implies spec_lines(spec_indent(s))[i]
            == goal_map[i] by {
            assert(spec_lines(spec_indent(s))[i] == b.drop_first()[i - 1]);
            assert(b.drop_first()[i - 1] == m1[i]);
            assert(goal_map[i] == tab + spec_lines(s)[i]);
            assert(spec_lines(s)[i] == p.drop_first()[i - 1]);
            assert(m1[i] == tab + p[i]);
        }
        assert(spec_lines(spec_indent(s)) =~= goal_map);
    }
}

/// Splitting at an explicit newline splits the lines: the text before it and
/// the text after it contribute their own lines, in order.
pub proof fn lemma_lines_split_at_newline(x: Seq<char>, y: Seq<char>)
    ensures
        spec_lines(x + seq!['\n'] + y) =~= spec_lines(x) + spec_lines(y),
    decreases x.len(),
{
    lemma_lines_nonempty(x);
    lemma_lines_nonempty(y);
    if x.len() == 0 {
        assert(x + seq!['\n'] + y =~= seq!['\n'] + y);
        lemma_lines_cons_nl(y);
    } else {
        let c = x[0];
        let x1 = x.drop_first();
        lemma_lines_split_at_newline(x1, y);
        lemma_lines_nonempty(x1);
        assert(x =~= seq![c] + x1);
        assert(x + seq!['\n'] + y =~= seq![c] + (x1 + seq!['\n'] + y));
        if c == '\n' {
            lemma_lines_cons_nl(x1);
            lemma_lines_cons_nl(x1 + seq!['\n'] + y);
            assert(spec_lines(x + seq!['\n'] + y) == seq![Seq::<char>::empty()] + spec_lines(
                x1 + seq!['\n'] + y,
            ));
        } else {
            let inner = spec_lines(x1 + seq!['\n'] + y);
            lemma_lines_cons_other(c, x1 + seq!['\n'] + y);
            lemma_lines_cons_other(c, x1);
            assert(inner == spec_lines(x1) + spec_lines(y));
            assert(inner[0] == spec_lines(x1)[0]);
            assert(inner.drop_first() =~= spec_lines(x1).drop_first() + spec_lines(y));
            assert(spec_lines(x + seq!['\n'] + y) == seq![seq![c] + inner[0]]
                + inner.drop_first());
            assert(spec_lines(x) == seq![seq![c] + spec_lines(x1)[0]] + spec_lines(
                x1,
            ).drop_first());
        }
    }
}

/// Law: indenting one level keeps the number of lines and prefixes exactly one
/// tab to every line. Each nesting level of an edge or query block indents its
/// predicate block once, so a predicate at nesting depth N carries exactly N
/// tabs relative to the outermost wrapper.
pub proof fn lemma_indent_adds_one_tab_per_line(s: Seq<char>)
    ensures
        spec_lines(spec_indent(s)).len() == spec_lines(s).len(),
        forall|i: int|
            0 <= i < spec_lines(s).len() ==> spec_lines(spec_indent(s))[i] == seq!['\t']
                + spec_lines(s)[i],
{
    lemma_indent_lines_map(s);
}

/// Renders `n` in decimal, with a leading minus sign when negative.
pub fn i64_to_dec(n: i64) -> (r: String)
    ensures
        r@ == spec_dec_int(n as int),
{
    if n >= 0 {
        u128_to_dec(n as u128)
    } else {
        let magnitude: u128 = (-(n as i128)) as u128;
        let mut s = String::new();
        push_char(&mut s, '-');
        let digits = u128_to_dec(magnitude);
        s.append(digits.as_str());
        s
    }
}

} // verus!
