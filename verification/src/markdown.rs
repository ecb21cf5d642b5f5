//! Text cleanup for scraped forum content: tabs are dropped, every line is
//! trimmed, blank lines disappear, and the remaining lines are joined with
//! single newlines.

use vstd::prelude::*;

verus! {

use vstd::string::StrSliceExecFns;
use vstd::string::StringExecFns;

/// Whether a character counts as Unicode whitespace.
pub uninterp spec fn is_unicode_whitespace(c: char) -> bool;

/// Relies on char::is_whitespace: whether a character has the Unicode
/// White_Space property, a function of the character alone.
pub assume_specification[ char::is_whitespace ](c: char) -> (r: bool)
    ensures
        r == is_unicode_whitespace(c),
;

/// A character that survives the tab removal.
pub open spec fn keeps_no_tab(c: char) -> bool {
    c != '\t'
}

/// The line segments of `s`: the (possibly empty) runs of characters
/// between newline characters, in order.
pub open spec fn split_lines_spec(s: Seq<char>) -> Seq<Seq<char>>
    decreases s.len(),
{
    if s.len() == 0 {
        seq![Seq::<char>::empty()]
    } else if s[0] == '\n' {
        seq![Seq::<char>::empty()] + split_lines_spec(s.skip(1))
    } else {
        let rest = split_lines_spec(s.skip(1));
        seq![seq![s[0]] + rest[0]] + rest.skip(1)
    }
}

/// `s` without its leading whitespace.
pub open spec fn trim_start_spec(s: Seq<char>) -> Seq<char>
    decreases s.len(),
{
    if s.len() > 0 && is_unicode_whitespace(s[0]) {
        trim_start_spec(s.skip(1))
    } else {
        s
    }
}

/// `s` without its trailing whitespace.
pub open spec fn trim_end_spec(s: Seq<char>) -> Seq<char>
    decreases s.len(),
{
    if s.len() > 0 && is_unicode_whitespace(s[s.len() - 1]) {
        trim_end_spec(s.drop_last())
    } else {
        s
    }
}

/// `s` without leading and trailing whitespace.
pub open spec fn trim_spec(s: Seq<char>) -> Seq<char> {
    trim_end_spec(trim_start_spec(s))
}

/// The lines that survive the cleanup: each line trimmed, empties dropped.
pub open spec fn cleaned_lines(lines: Seq<Seq<char>>) -> Seq<Seq<char>> {
    lines.map_values(|l: Seq<char>| trim_spec(l)).filter(|l: Seq<char>| l.len() > 0)
}

/// The lines joined with single newlines between them.
pub open spec fn join_lines_spec(lines: Seq<Seq<char>>) -> Seq<char>
    decreases lines.len(),
{
    if lines.len() == 0 {
        Seq::empty()
    } else if lines.len() == 1 {
        lines[0]
    } else {
        lines[0] + seq!['\n'] + join_lines_spec(lines.skip(1))
    }
}

/// `s` with every tab character removed.
pub open spec fn without_tabs(s: Seq<char>) -> Seq<char> {
    s.filter(|c: char| keeps_no_tab(c))
}

/// The cleaned form of `s`: tabs removed, lines trimmed, blank lines
/// dropped, and the rest joined with newlines.
pub open spec fn clean_spec(s: Seq<char>) -> Seq<char> {
    join_lines_spec(cleaned_lines(split_lines_spec(without_tabs(s))))
}

/// A string without newlines is one single line.
pub(crate) proof fn lemma_split_lines_no_newline(s: Seq<char>)
    requires
        forall|j: int| 0 <= j < s.len() ==> s[j] != '\n',
    ensures
        split_lines_spec(s) == seq![s],
    decreases s.len(),
{
    if s.len() == 0 {
        assert(s =~= Seq::<char>::empty());
    } else {
        lemma_split_lines_no_newline(s.skip(1));
        let rest = split_lines_spec(s.skip(1));
        assert(rest == seq![s.skip(1)]);
        assert(seq![s[0]] + s.skip(1) =~= s);
        assert(rest.skip(1) =~= Seq::<Seq<char>>::empty());
        assert(split_lines_spec(s) =~= seq![s]);
    }
}

/// Splitting at the first newline: the prefix before it is the first line,
/// and the rest of the lines come from the text after it.
pub(crate) proof fn lemma_split_lines_at_newline(s: Seq<char>, k: int)
    requires
        0 <= k < s.len(),
        s[k] == '\n',
        forall|j: int| 0 <= j < k ==> s[j] != '\n',
    ensures
        split_lines_spec(s) == seq![s.take(k)] + split_lines_spec(s.skip(k + 1)),
    decreases k,
{
    if k == 0 {
        assert(s.take(0) =~= Seq::<char>::empty());
        assert(split_lines_spec(s) =~= seq![s.take(0)] + split_lines_spec(s.skip(1)));
    } else {
        lemma_split_lines_at_newline(s.skip(1), k - 1);
        let rest = split_lines_spec(s.skip(1));
        assert(s.skip(1).skip(k) =~= s.skip(k + 1));
        assert(rest == seq![s.skip(1).take(k - 1)] + split_lines_spec(s.skip(k + 1)));
        assert(seq![s[0]] + rest[0] =~= s.take(k));
        assert(rest.skip(1) =~= split_lines_spec(s.skip(k + 1)));
        assert(split_lines_spec(s) =~= seq![s.take(k)] + split_lines_spec(s.skip(k + 1)));
    }
}

/// The exec scan for the first non-whitespace character computes the
/// trimmed-start form.
proof fn lemma_trim_start_at(l: Seq<char>, a: int)
    requires
        0 <= a <= l.len(),
        forall|j: int| 0 <= j < a ==> is_unicode_whitespace(l[j]),
        a < l.len() ==> !is_unicode_whitespace(l[a]),
    ensures
        trim_start_spec(l) == l.skip(a),
    decreases a,
{
    if a == 0 {
        assert(l.skip(0) =~= l);
    } else {
        lemma_trim_start_at(l.skip(1), a - 1);
        assert(l.skip(1).skip(a - 1) =~= l.skip(a));
    }
}

/// The exec scan back from the end for the last non-whitespace character
/// computes the trimmed-end form.
proof fn lemma_trim_end_at(l: Seq<char>, b: int)
    requires
        0 <= b <= l.len(),
        forall|j: int| b <= j < l.len() ==> is_unicode_whitespace(l[j]),
        b > 0 ==> !is_unicode_whitespace(l[b - 1]),
    ensures
        trim_end_spec(l) == l.take(b),
    decreases l.len() - b,
{
    if b == l.len() {
        assert(l.take(b) =~= l);
    } else {
        lemma_trim_end_at(l.drop_last(), b);
        assert(l.drop_last().take(b) =~= l.take(b));
    }
}

/// Appending one more line to a join adds one separator and the line.
proof fn lemma_join_lines_push(lines: Seq<Seq<char>>, line: Seq<char>)
    ensures
        lines.len() == 0 ==> join_lines_spec(lines.push(line)) == line,
        lines.len() > 0 ==> join_lines_spec(lines.push(line)) == join_lines_spec(lines)
            + seq!['\n'] + line,
    decreases lines.len(),
{
    if lines.len() == 0 {
        assert(lines.push(line) =~= seq![line]);
        assert(join_lines_spec(seq![line]) == line);
    } else if lines.len() == 1 {
        let both = lines.push(line);
        assert(both.skip(1) =~= seq![line]);
        assert(join_lines_spec(both) == both[0] + seq!['\n'] + join_lines_spec(seq![line]));
        assert(both[0] == lines[0]);
        assert(join_lines_spec(lines) == lines[0]);
    } else {
        lemma_join_lines_push(lines.skip(1), line);
        let both = lines.push(line);
        assert(both.skip(1) =~= lines.skip(1).push(line));
        assert(join_lines_spec(both) == both[0] + seq!['\n'] + join_lines_spec(
            lines.skip(1).push(line),
        ));
        assert(join_lines_spec(lines.skip(1).push(line)) == join_lines_spec(lines.skip(1))
            + seq!['\n'] + line);
        assert(join_lines_spec(lines) == lines[0] + seq!['\n'] + join_lines_spec(lines.skip(1)));
        assert((lines[0] + seq!['\n'] + (join_lines_spec(lines.skip(1)) + seq!['\n'] + line))
            =~= (lines[0] + seq!['\n'] + join_lines_spec(lines.skip(1))) + seq!['\n'] + line);
    }
}

/// Cleans scraped text: removes tabs, trims every line, drops blank lines,
/// and joins what remains with single newlines.
pub fn clean_text(text: &str) -> (r: String)
    ensures
        r@ == clean_spec(text@),
{
    let n0 = text.unicode_len();
    let mut detabbed = String::new();
    let mut i: usize = 0;
    proof {
        assert(without_tabs(text@.take(0)) =~= Seq::<char>::empty());
    }
    while i < n0
        invariant
            n0 == text@.len(),
            i <= n0,
            detabbed@ == without_tabs(text@.take(i as int)),
        decreases n0 - i,
    {
        let c = text.get_char(i);
        proof {
            reveal_with_fuel(Seq::<_>::filter, 2);
            assert(text@.take(i + 1).drop_last() =~= text@.take(i as int));
            assert(text@.take(i + 1).last() == text@[i as int]);
        }
        if c != '\t' {
            detabbed.append(text.substring_char(i, i + 1));
            proof {
                reveal_with_fuel(Seq::<_>::filter, 2);
                assert(text@.subrange(i as int, i + 1) =~= seq![text@[i as int]]);
                assert(without_tabs(text@.take(i + 1)) =~= without_tabs(text@.take(i as int))
                    + seq![text@[i as int]]);
            }
        }
        i = i + 1;
    }
    proof {
        assert(text@.take(n0 as int) =~= text@);
    }

    let n = detabbed.as_str().unicode_len();
    let ghost ds = detabbed@;
    let mut out = String::new();
    let ghost mut produced: Seq<Seq<char>> = Seq::empty();
    let mut first: bool = true;
    let mut pos: usize = 0;
    let mut done: bool = false;
    proof {
        assert(ds.skip(0) =~= ds);
    }
    while !done
        invariant
            ds == detabbed@,
            n == ds.len(),
            pos <= n,
            out@ == join_lines_spec(produced),
            first <==> produced.len() == 0,
            !done ==> cleaned_lines(split_lines_spec(ds)) == produced + cleaned_lines(
                split_lines_spec(ds.skip(pos as int)),
            ),
            done ==> cleaned_lines(split_lines_spec(ds)) == produced,
        decreases n - pos, (if done { 0int } else { 1int }),
    {
        let mut j: usize = pos;
        while j < n && detabbed.as_str().get_char(j) != '\n'
            invariant
                ds == detabbed@,
                n == ds.len(),
                pos <= j <= n,
                forall|q: int| pos <= q < j ==> ds[q] != '\n',
            decreases n - j,
        {
            j = j + 1;
        }
        let mut a: usize = pos;
        while a < j && detabbed.as_str().get_char(a).is_whitespace()
            invariant
                ds == detabbed@,
                n == ds.len(),
                j <= n,
                pos <= a <= j,
                forall|q: int| pos <= q < a ==> is_unicode_whitespace(ds[q]),
            decreases j - a,
        {
            a = a + 1;
        }
        let mut b: usize = j;
        while b > a && detabbed.as_str().get_char(b - 1).is_whitespace()
            invariant
                ds == detabbed@,
                n == ds.len(),
                j <= n,
                a <= b <= j,
                forall|q: int| b <= q < j ==> is_unicode_whitespace(ds[q]),
            decreases b,
        {
            b = b - 1;
        }

        let ghost line = ds.subrange(pos as int, j as int);
        proof {
            lemma_trim_start_at(line, a - pos);
            let started = line.skip(a - pos);
            assert(started =~= ds.subrange(a as int, j as int));
            lemma_trim_end_at(started, b - a);
            assert(trim_spec(line) =~= ds.subrange(a as int, b as int));
        }

        let ghost prev = produced;
        if a < b {
            if !first {
                out.append("\n");
            }
            out.append(detabbed.as_str().substring_char(a, b));
            first = false;
            proof {
                produced = prev.push(trim_spec(line));
                lemma_join_lines_push(prev, trim_spec(line));
                reveal_strlit("\n");
                assert("\n"@ =~= seq!['\n']);
                assert(out@ =~= join_lines_spec(produced));
            }
        } else {
            proof {
                assert(ds.subrange(a as int, b as int) =~= Seq::<char>::empty());
                assert(trim_spec(line).len() == 0);
            }
        }

        if j < n {
            proof {
                let rem = ds.skip(pos as int);
                lemma_split_lines_at_newline(rem, j - pos);
                assert(rem.take(j - pos) =~= line);
                assert(rem.skip(j - pos + 1) =~= ds.skip(j + 1));
                assert(seq![rem.take(j - pos)] =~= seq![line]);
                assert(split_lines_spec(rem) == seq![line] + split_lines_spec(ds.skip(j + 1)));
                lemma_cleaned_lines_step(line, split_lines_spec(ds.skip(j + 1)));
                assert(cleaned_lines(split_lines_spec(ds)) =~= produced + cleaned_lines(
                    split_lines_spec(ds.skip(j + 1)),
                ));
            }
            pos = j + 1;
        } else {
            proof {
                let rem = ds.skip(pos as int);
                lemma_split_lines_no_newline(rem);
                assert(rem =~= line);
                assert(split_lines_spec(rem) == seq![line]);
                lemma_cleaned_lines_step(line, Seq::<Seq<char>>::empty());
                assert(seq![line] + Seq::<Seq<char>>::empty() =~= seq![line]);
                assert(Seq::<Seq<char>>::empty().map_values(|l: Seq<char>| trim_spec(l))
                    =~= Seq::<Seq<char>>::empty());
                assert(cleaned_lines(Seq::<Seq<char>>::empty())
                    =~= Seq::<Seq<char>>::empty());
                assert(cleaned_lines(split_lines_spec(ds)) =~= produced);
            }
            done = true;
        }
    }
    out
}

/// One line's contribution to the cleaned lines: its trimmed form when that
/// is non-empty, nothing otherwise.
proof fn lemma_cleaned_lines_step(line: Seq<char>, rest: Seq<Seq<char>>)
    ensures
        trim_spec(line).len() > 0 ==> cleaned_lines(seq![line] + rest) == seq![trim_spec(line)]
            + cleaned_lines(rest),
        trim_spec(line).len() == 0 ==> cleaned_lines(seq![line] + rest) == cleaned_lines(rest),
{
    broadcast use vstd::seq_lib::group_seq_properties;

    reveal_with_fuel(Seq::<_>::filter, 2);
    let f = |l: Seq<char>| trim_spec(l);
    let p = |l: Seq<char>| l.len() > 0;
    let single = seq![line];
    assert((single + rest).map_values(f) =~= single.map_values(f) + rest.map_values(f));
    assert(single.map_values(f) =~= seq![trim_spec(line)]);
    Seq::filter_distributes_over_add(single.map_values(f), rest.map_values(f), p);
    let t = seq![trim_spec(line)];
    assert(t.drop_last() =~= Seq::<Seq<char>>::empty());
    assert(Seq::<Seq<char>>::empty().filter(p) =~= Seq::<Seq<char>>::empty());
    assert(t.last() == trim_spec(line));
    assert(Seq::<Seq<char>>::empty().push(trim_spec(line)) =~= seq![trim_spec(line)]);
    if trim_spec(line).len() > 0 {
        assert(t.filter(p) =~= seq![trim_spec(line)]);
    } else {
        assert(t.filter(p) =~= Seq::<Seq<char>>::empty());
        assert(Seq::<Seq<char>>::empty() + rest.map_values(f).filter(p) =~= rest.map_values(
            f,
        ).filter(p));
    }
}

} // verus!
