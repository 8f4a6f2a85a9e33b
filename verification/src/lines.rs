//! Texts as lists of lines.
use crate::text;
use vstd::prelude::*;

verus! {

/// The position of the first `c` in `s`, or the length of `s` where there is none.
pub open spec fn first_index(s: Seq<char>, c: char) -> int
    decreases s.len(),
{
    if s.len() == 0 || s[0] == c {
        0
    } else {
        1 + first_index(s.drop_first(), c)
    }
}

/// What `first_index` finds is the first position that holds `c`.
pub proof fn lemma_first_index(s: Seq<char>, c: char, at: int)
    requires
        0 <= at <= s.len(),
        forall|k: int| 0 <= k < at ==> s[k] != c,
        at < s.len() ==> s[at] == c,
    ensures
        first_index(s, c) == at,
    decreases s.len(),
{
    if at > 0 {
        let rest = s.drop_first();
        assert forall|k: int| 0 <= k < at - 1 implies rest[k] != c by {
            assert(rest[k] == s[k + 1]);
        }
        lemma_first_index(rest, c, at - 1);
    }
}

/// A line that ended in a line feed, without the carriage return before that line feed.
pub open spec fn without_return(line: Seq<char>) -> Seq<char> {
    if text::ends_in(line, '\r') {
        line.drop_last()
    } else {
        line
    }
}

/// The lines of a text: each ends before a line feed, or before a carriage return that a line
/// feed follows; the last may be left without a line feed.
pub open spec fn lines(s: Seq<char>) -> Seq<Seq<char>>
    decreases s.len(),
{
    if s.len() == 0 {
        Seq::empty()
    } else {
        let at = first_index(s, '\n');
        if 0 <= at < s.len() {
            seq![without_return(s.take(at))] + lines(s.skip(at + 1))
        } else {
            seq![s]
        }
    }
}

/// Splits a string into its lines.
pub fn lines_of(s: &str) -> (r: Vec<String>)
    ensures
        text::texts(r@) == lines(s@),
{
    let chars: Vec<char> = text::chars_of(s);
    let mut out: Vec<String> = Vec::new();
    let mut from: usize = 0;
    let mut i: usize = 0;
    proof {
        assert(s@.skip(0) =~= s@);
        assert(text::texts(out@) + lines(s@) =~= lines(s@));
    }
    while i < chars.len()
        invariant
            from <= i <= chars@.len(),
            chars@ == s@,
            forall|k: int| from <= k < i ==> s@[k] != '\n',
            text::texts(out@) + lines(s@.skip(from as int)) == lines(s@),
        decreases chars@.len() - i,
    {
        if chars[i] == '\n' {
            let ghost rest = s@.skip(from as int);
            let ghost before = text::texts(out@);
            let to: usize = if i > from && chars[i - 1] == '\r' {
                i - 1
            } else {
                i
            };
            let line: String = text::text_between(&chars, from, to);
            proof {
                assert forall|k: int| 0 <= k < i - from implies rest[k] != '\n' by {
                    assert(rest[k] == s@[from + k]);
                }
                assert(rest[i - from] == s@[i as int]);
                lemma_first_index(rest, '\n', i - from);
                assert(rest.take(i - from) =~= s@.subrange(from as int, i as int));
                assert(line@ =~= without_return(rest.take(i - from)));
                assert(rest.skip(i - from + 1) =~= s@.skip(i + 1));
                text::lemma_texts_push(out@, line);
                assert(before.push(line@) + lines(s@.skip(i + 1)) =~= before + (seq![line@]
                    + lines(s@.skip(i + 1))));
            }
            out.push(line);
            from = i + 1;
        }
        i = i + 1;
    }
    if from < chars.len() {
        let line: String = text::text_between(&chars, from, chars.len());
        proof {
            let rest = s@.skip(from as int);
            assert forall|k: int| 0 <= k < rest.len() implies rest[k] != '\n' by {
                assert(rest[k] == s@[from + k]);
            }
            lemma_first_index(rest, '\n', rest.len() as int);
            assert(line@ =~= rest);
            text::lemma_texts_push(out@, line);
            assert(text::texts(out@).push(line@) =~= text::texts(out@) + seq![line@]);
        }
        out.push(line);
    } else {
        proof {
            assert(s@.skip(from as int) =~= Seq::<char>::empty());
            assert(text::texts(out@) + Seq::<Seq<char>>::empty() =~= text::texts(out@));
        }
    }
    out
}

/// A joined list is its first text, the separator and the rest, joined.
pub proof fn lemma_joined_front(list: Seq<Seq<char>>, sep: Seq<char>)
    requires
        list.len() >= 2,
    ensures
        text::joined(list, sep) == list[0] + sep + text::joined(list.drop_first(), sep),
    decreases list.len(),
{
    if list.len() == 2 {
        assert(text::joined(list.drop_last(), sep) == list[0]);
        assert(text::joined(list.drop_first(), sep) == list[1]);
        assert(list.last() == list[1]);
    } else {
        lemma_joined_front(list.drop_last(), sep);
        assert(list.drop_last().drop_first() =~= list.drop_first().drop_last());
        assert(text::joined(list, sep) =~= list[0] + sep + text::joined(list.drop_first(), sep));
    }
}

/// Whether a text can stand as one line of a file: it is not empty, holds no line feed and does
/// not end in a carriage return.
pub open spec fn is_single_line(line: Seq<char>) -> bool {
    &&& line.len() > 0
    &&& !text::ends_in(line, '\r')
    &&& forall|k: int| 0 <= k < line.len() ==> #[trigger] line[k] != '\n'
}

/// Joining single lines with line feeds and splitting the result gives the lines back.
pub proof fn lemma_lines_of_joined(list: Seq<Seq<char>>)
    requires
        forall|i: int| 0 <= i < list.len() ==> is_single_line(#[trigger] list[i]),
    ensures
        lines(text::joined(list, seq!['\n'])) == list,
    decreases list.len(),
{
    let sep = seq!['\n'];
    if list.len() == 0 {
        assert(lines(text::joined(list, sep)) =~= list);
    } else if list.len() == 1 {
        let line = list[0];
        assert(is_single_line(line));
        lemma_first_index(line, '\n', line.len() as int);
        assert(seq![line] =~= list);
    } else {
        let line = list[0];
        assert(is_single_line(line));
        let whole = text::joined(list, sep);
        let tail = text::joined(list.drop_first(), sep);
        lemma_joined_front(list, sep);
        assert forall|k: int| 0 <= k < line.len() implies whole[k] != '\n' by {
            assert(whole[k] == line[k]);
        }
        assert(whole[line.len() as int] == '\n');
        lemma_first_index(whole, '\n', line.len() as int);
        assert(whole.take(line.len() as int) =~= line);
        assert(whole.skip(line.len() as int + 1) =~= tail);
        lemma_lines_of_joined(list.drop_first());
        assert(seq![line] + list.drop_first() =~= list);
    }
}

/// A line feed ends a line, with the carriage return before it if there is one; what follows is split
/// in the same way. A text without line feeds is one line, and an empty text has none.
pub proof fn law_lines_end_at_line_feeds(line: Seq<char>, rest: Seq<char>)
    requires
        !line.contains('\n'),
    ensures
        line.len() == 0 || line.last() != '\r' ==> lines(line + seq!['\n'] + rest) == seq![line]
            + lines(rest),
        lines(line + seq!['\r', '\n'] + rest) == seq![line] + lines(rest),
        line.len() > 0 ==> lines(line) == seq![line],
        lines(Seq::<char>::empty()) == Seq::<Seq<char>>::empty(),
{
    let n = line.len() as int;
    assert forall|k: int| 0 <= k < n implies line[k] != '\n' by {
        assert(line.contains(line[k]));
    }
    let plain = line + seq!['\n'] + rest;
    lemma_first_index(plain, '\n', n);
    assert(plain.take(n) =~= line);
    assert(plain.skip(n + 1) =~= rest);
    let marked = line + seq!['\r', '\n'] + rest;
    assert forall|k: int| 0 <= k < n + 1 implies marked[k] != '\n' by {
        if k < n {
            assert(marked[k] == line[k]);
        }
    }
    lemma_first_index(marked, '\n', n + 1);
    assert(marked.take(n + 1) =~= line.push('\r'));
    assert(marked.take(n + 1).drop_last() =~= line);
    assert(marked.skip(n + 2) =~= rest);
    lemma_first_index(line, '\n', n);
}

} // verus!
