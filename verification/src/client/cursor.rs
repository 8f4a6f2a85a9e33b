//! Editing a string at a byte position.
use crate::text;
use vstd::prelude::*;

verus! {

/// The number of bytes of a text.
pub open spec fn byte_len(s: Seq<char>) -> nat {
    vstd::utf8::encode_utf8(s).len()
}

/// Whether a byte position lies between two characters of a text or at one of its ends.
pub open spec fn is_boundary(s: Seq<char>, pos: usize) -> bool {
    exists|k: int| 0 <= k <= s.len() && #[trigger] byte_len(s.take(k)) == pos
}

/// The number of characters that end at or before a byte position.
pub open spec fn chars_before(s: Seq<char>, pos: usize) -> nat
    decreases s.len(),
{
    if s.len() == 0 || byte_len(s) <= pos {
        s.len()
    } else {
        chars_before(s.drop_last(), pos)
    }
}

/// A text with a character put in at a byte position.
pub open spec fn with_char(s: Seq<char>, pos: usize, c: char) -> Seq<char> {
    let k = chars_before(s, pos) as int;
    s.take(k).push(c) + s.skip(k)
}

/// A text without the character that starts at a byte position.
pub open spec fn without_char(s: Seq<char>, pos: usize) -> Seq<char> {
    s.remove(chars_before(s, pos) as int)
}

/// A text with a bar at a byte position; beyond the end the bar stands at the end.
pub open spec fn with_bar(s: Seq<char>, pos: usize) -> Seq<char> {
    let k = chars_before(s, pos) as int;
    s.take(k) + "|"@ + s.skip(k)
}

/// The characters before a position are not more than there are, and fewer where the position lies
/// before the end.
pub proof fn lemma_chars_before(s: Seq<char>, pos: usize)
    ensures
        chars_before(s, pos) <= s.len(),
        s.len() > 0 && pos < byte_len(s) ==> chars_before(s, pos) < s.len(),
    decreases s.len(),
{
    if s.len() > 0 && byte_len(s) > pos {
        lemma_chars_before(s.drop_last(), pos);
    }
}

/// The bytes of two texts, one after the other.
proof fn lemma_bytes_concat(a: Seq<char>, b: Seq<char>)
    ensures
        vstd::utf8::encode_utf8(a + b) == vstd::utf8::encode_utf8(a) + vstd::utf8::encode_utf8(b),
    decreases a.len(),
{
    if a.len() == 0 {
        assert(a + b =~= b);
        assert(vstd::utf8::encode_utf8(a) =~= Seq::<u8>::empty());
        assert(vstd::utf8::encode_utf8(a) + vstd::utf8::encode_utf8(b) =~= vstd::utf8::encode_utf8(
            b,
        ));
    } else {
        lemma_bytes_concat(a.drop_first(), b);
        assert((a + b).drop_first() =~= a.drop_first() + b);
        assert(vstd::utf8::encode_utf8(a + b) =~= vstd::utf8::encode_utf8(a)
            + vstd::utf8::encode_utf8(b));
    }
}

/// Longer texts have more bytes.
proof fn lemma_bytes_grow(s: Seq<char>, k: int)
    requires
        0 <= k < s.len(),
    ensures
        byte_len(s.take(k)) < byte_len(s.take(k + 1)),
{
    let one = seq![s[k]];
    assert(s.take(k + 1) =~= s.take(k) + one);
    lemma_bytes_concat(s.take(k), one);
    vstd::utf8::encode_utf8_decode_utf8(one);
    assert(vstd::utf8::encode_utf8(one).len() > 0) by {
        if vstd::utf8::encode_utf8(one).len() == 0 {
            assert(vstd::utf8::decode_utf8(vstd::utf8::encode_utf8(one)).len() == 0);
        }
    }
}

/// Where a position lies between characters, the characters before it fill it exactly.
pub proof fn law_boundary_parts_the_text(s: Seq<char>, pos: usize)
    requires
        is_boundary(s, pos),
    ensures
        byte_len(s.take(chars_before(s, pos) as int)) == pos,
    decreases s.len(),
{
    let k = choose|k: int| 0 <= k <= s.len() && #[trigger] byte_len(s.take(k)) == pos;
    assert(s.take(s.len() as int) =~= s);
    if s.len() > 0 && byte_len(s) > pos {
        assert(k < s.len());
        let front = s.drop_last();
        assert(front.take(k) =~= s.take(k));
        law_boundary_parts_the_text(front, pos);
        lemma_chars_before(front, pos);
        let n = chars_before(front, pos) as int;
        assert(front.take(n) =~= s.take(n));
    } else if k < s.len() {
        lemma_bytes_monotone(s, k, s.len() as int);
    }
}

proof fn lemma_bytes_monotone(s: Seq<char>, a: int, b: int)
    requires
        0 <= a < b <= s.len(),
    ensures
        byte_len(s.take(a)) < byte_len(s.take(b)),
    decreases b - a,
{
    lemma_bytes_grow(s, b - 1);
    if a < b - 1 {
        lemma_bytes_monotone(s, a, b - 1);
    }
}

/// Counts the bytes of a string.
pub fn count_bytes(s: &str) -> (r: usize)
    ensures
        r == byte_len(s@),
{
    s.as_bytes().len()
}

/// Counts the characters that end at or before a byte position.
fn count_before(chars: &Vec<char>, pos: usize) -> (r: usize)
    ensures
        r == chars_before(chars@, pos),
        r <= chars@.len(),
{
    let mut k: usize = chars.len();
    proof {
        assert(chars@.take(k as int) =~= chars@);
    }
    while k > 0
        invariant
            k <= chars@.len(),
            chars_before(chars@.take(k as int), pos) == chars_before(chars@, pos),
        decreases k,
    {
        let front: String = text::text_between(chars, 0, k);
        proof {
            assert(front@ =~= chars@.take(k as int));
            assert(chars@.take(k as int).drop_last() =~= chars@.take(k - 1));
        }
        if count_bytes(&front) <= pos {
            return k;
        }
        k = k - 1;
    }
    k
}

/// Tells whether a byte position lies between two characters of a string or at one of its ends.
pub fn is_at_boundary(s: &str, pos: usize) -> (r: bool)
    ensures
        r == is_boundary(s@, pos),
{
    let chars: Vec<char> = text::chars_of(s);
    let k: usize = count_before(&chars, pos);
    let front: String = text::text_between(&chars, 0, k);
    let r: bool = count_bytes(&front) == pos;
    proof {
        assert(front@ =~= s@.take(k as int));
        if is_boundary(s@, pos) {
            law_boundary_parts_the_text(s@, pos);
        }
    }
    r
}

/// Puts a character into a string at a byte position.
pub fn insert_char(s: &str, pos: usize, c: char) -> (r: String)
    requires
        is_boundary(s@, pos),
    ensures
        r@ == with_char(s@, pos, c),
{
    let chars: Vec<char> = text::chars_of(s);
    let k: usize = count_before(&chars, pos);
    let mut out: String = text::text_between(&chars, 0, k);
    out.push(c);
    let rest: String = text::text_between(&chars, k, chars.len());
    let r: String = text::cat2(&out, &rest);
    proof {
        assert(r@ =~= with_char(s@, pos, c));
    }
    r
}

/// Takes the character out of a string that starts at a byte position.
pub fn remove_char(s: &str, pos: usize) -> (r: String)
    requires
        is_boundary(s@, pos),
        pos < byte_len(s@),
    ensures
        r@ == without_char(s@, pos),
{
    let chars: Vec<char> = text::chars_of(s);
    proof {
        lemma_chars_before(s@, pos);
        if s@.len() == 0 {
            assert(s@.take(0) =~= s@);
        }
    }
    let k: usize = count_before(&chars, pos);
    let size: usize = chars.len();
    let front: String = text::text_between(&chars, 0, k);
    let rest: String = text::text_between(&chars, k + 1, size);
    let r: String = text::cat2(&front, &rest);
    proof {
        assert(r@ =~= without_char(s@, pos));
    }
    r
}

/// Shows a string with a bar at a byte position.
pub fn show_cursor(s: &str, pos: usize) -> (r: String)
    requires
        pos < byte_len(s@) ==> is_boundary(s@, pos),
    ensures
        r@ == with_bar(s@, pos),
{
    let chars: Vec<char> = text::chars_of(s);
    let k: usize = count_before(&chars, pos);
    let front: String = text::text_between(&chars, 0, k);
    let rest: String = text::text_between(&chars, k, chars.len());
    let r: String = text::cat3(&front, "|", &rest);
    proof {
        assert(r@ =~= with_bar(s@, pos));
    }
    r
}

/// Takes the last character off a string.
pub fn pop_char(s: &str) -> (r: String)
    ensures
        r@ == (if s@.len() > 0 {
            s@.drop_last()
        } else {
            s@
        }),
{
    let chars: Vec<char> = text::chars_of(s);
    if chars.len() == 0 {
        return s.to_owned();
    }
    let r: String = text::text_between(&chars, 0, chars.len() - 1);
    proof {
        assert(r@ =~= s@.drop_last());
    }
    r
}

/// What was typed is taken back by one step to the left and a removal: putting a character in at a
/// position and taking out the one that starts there gives the text back.
pub proof fn law_typing_is_undone(s: Seq<char>, pos: usize, c: char)
    requires
        is_boundary(s, pos),
    ensures
        without_char(with_char(s, pos, c), pos) == s,
{
    law_boundary_parts_the_text(s, pos);
    lemma_chars_before(s, pos);
    let k = chars_before(s, pos) as int;
    let t = with_char(s, pos, c);
    assert(t.take(k) =~= s.take(k));
    assert(byte_len(t.take(k)) == pos);
    law_boundary_parts_the_text(t, pos);
    lemma_chars_before(t, pos);
    let n = chars_before(t, pos) as int;
    assert(n == k) by {
        if n < k {
            lemma_bytes_monotone(t, n, k);
        } else if k < n {
            lemma_bytes_monotone(t, k, n);
        }
    }
    assert(t.remove(k) =~= s);
}

/// At the position behind some characters, a character is put in, the character that follows is taken
/// out, and the cursor is shown, with all of these characters before it and all the others after it.
pub proof fn law_texts_are_edited_between_characters(
    front: Seq<char>,
    c: char,
    back: Seq<char>,
    pos: usize,
)
    requires
        pos == vstd::utf8::encode_utf8(front).len(),
    ensures
        with_char(front + back, pos, c) == front.push(c) + back,
        without_char(front.push(c) + back, pos) == front + back,
        with_bar(front + back, pos) == front + seq!['|'] + back,
{
    let s = front + back;
    let t = front.push(c) + back;
    let n = front.len() as int;
    reveal_strlit("|");
    assert("|"@ =~= seq!['|']);
    assert(s.take(n) =~= front);
    assert(t.take(n) =~= front);
    lemma_place(s, pos, n);
    lemma_place(t, pos, n);
    assert(s.skip(n) =~= back);
    assert(with_char(s, pos, c) =~= front.push(c) + back);
    assert(without_char(t, pos) =~= front + back);
}

proof fn lemma_place(s: Seq<char>, pos: usize, n: int)
    requires
        0 <= n <= s.len(),
        byte_len(s.take(n)) == pos,
    ensures
        chars_before(s, pos) == n,
{
    law_boundary_parts_the_text(s, pos);
    lemma_chars_before(s, pos);
    let k = chars_before(s, pos) as int;
    if k < n {
        lemma_bytes_monotone(s, k, n);
    }
    if n < k {
        lemma_bytes_monotone(s, n, k);
    }
}

} // verus!
