//! Moving through directories, and reading a host and its port.
use crate::{number, text};
use vstd::prelude::*;

verus! {

/// What `std::path::Path::parent` gives for the path that a text spells.
pub uninterp spec fn parent_path(p: Seq<char>) -> Option<Seq<char>>;

/// Whether a text is the plain name of an entry.
pub open spec fn is_plain_name(name: Seq<char>) -> bool {
    name.len() > 0 && !name.contains('/') && name != "."@
}

/// Whether `parent` is what is left of a path without its last component: the path is the root or
/// a parent that ends neither with a slash nor with a dot, and then a plain name.
pub open spec fn is_child_of(p: Seq<char>, parent: Seq<char>) -> bool {
    exists|name: Seq<char>|
        #![trigger is_plain_name(name)]
        is_plain_name(name) && {
            ||| parent == "/"@ && p == "/"@ + name
            ||| parent.len() > 0 && parent.last() != '/' && parent.last() != '.' && p == parent
                + "/"@ + name
        }
}

/// Calls `std::path::Path::parent`: the path without its last component. The root and the empty
/// path have none, and what is left of a path that ends with a plain name is what stands before
/// it; of other paths, whose components have to be told apart first, the parent is only named.
#[verifier::external_body]
fn parent_text(p: &str) -> (r: Option<String>)
    ensures
        text::optional_text(r) == parent_path(p@),
        p@.len() == 0 || p@ == "/"@ ==> r is None,
        forall|parent: Seq<char>| #[trigger]
            is_child_of(p@, parent) ==> text::optional_text(r) == Some(parent),
{
    std::path::Path::new(p).parent().map(|q| q.to_string_lossy().into_owned())
}

/// A path under another one.
pub open spec fn child(p: Seq<char>, name: Seq<char>) -> Seq<char> {
    if p == "/"@ {
        "/"@ + name
    } else {
        p + "/"@ + name
    }
}

/// The local directory above another one; the root is above itself.
pub open spec fn local_above(parent: Option<Seq<char>>) -> Seq<char> {
    match parent {
        Some(q) => text::single_slashes(q),
        None => text::single_slashes("/"@),
    }
}

/// The remote directory above another one; one without a parent stays.
pub open spec fn remote_above(p: Seq<char>, parent: Option<Seq<char>>) -> Seq<char> {
    match parent {
        Some(q) => if q.len() == 0 {
            "/"@
        } else {
            q
        },
        None => p,
    }
}

/// A path under another one.
pub fn join_child(p: &str, name: &str) -> (r: String)
    ensures
        r@ == child(p@, name@),
{
    if text::same_text(p, "/") {
        text::cat2("/", name)
    } else {
        text::cat3(p, "/", name)
    }
}

/// The local directory above another one, from what its parent is.
pub fn local_from_parent(parent: &Option<String>) -> (r: String)
    ensures
        r@ == local_above(text::optional_text(*parent)),
{
    match parent {
        Some(q) => text::squeeze_slashes(q),
        None => text::squeeze_slashes("/"),
    }
}

/// The local directory above another one.
pub fn local_parent(p: &str) -> (r: String)
    ensures
        r@ == local_above(parent_path(p@)),
        forall|parent: Seq<char>| #[trigger]
            is_child_of(p@, parent) && is_tidy(parent) ==> r@ == parent,
{
    let parent: Option<String> = parent_text(p);
    proof {
        assert forall|q: Seq<char>| #[trigger] is_child_of(p@, q) && is_tidy(q) implies local_above(
            parent_path(p@),
        ) == q by {
            lemma_tidy_stays(q);
        }
    }
    local_from_parent(&parent)
}

/// The remote directory above another one, from what its parent is.
pub fn remote_from_parent(p: &str, parent: &Option<String>) -> (r: String)
    ensures
        r@ == remote_above(p@, text::optional_text(*parent)),
{
    match parent {
        Some(q) => if q.as_str().is_empty() {
            "/".to_owned()
        } else {
            q.clone()
        },
        None => p.to_owned(),
    }
}

/// The remote directory above another one.
pub fn remote_parent(p: &str) -> (r: String)
    ensures
        r@ == remote_above(p@, parent_path(p@)),
        forall|parent: Seq<char>| #[trigger] is_child_of(p@, parent) ==> r@ == parent,
{
    let parent: Option<String> = parent_text(p);
    proof {
        reveal_strlit("/");
    }
    remote_from_parent(p, &parent)
}

/// Whether a path holds no two slashes in a row.
pub open spec fn is_tidy(p: Seq<char>) -> bool {
    forall|i: int| 0 <= i && i + 1 < p.len() ==> !(#[trigger] p[i] == '/' && p[i + 1] == '/')
}

/// A path without two slashes in a row is left as it is.
pub proof fn lemma_tidy_stays(p: Seq<char>)
    requires
        is_tidy(p),
    ensures
        text::single_slashes(p) == p,
    decreases p.len(),
{
    if p.len() > 0 {
        let rest = p.skip(1);
        assert forall|i: int| 0 <= i && i + 1 < rest.len() implies !(#[trigger] rest[i] == '/'
            && rest[i + 1] == '/') by {
            assert(rest[i] == p[i + 1]);
            assert(rest[i + 1] == p[i + 2]);
        }
        lemma_tidy_stays(rest);
        if p.len() >= 2 {
            assert(!(p[0] == '/' && p[1] == '/'));
        }
        assert(seq![p[0]] + rest =~= p);
    }
}

/// Entering a directory by a plain name and going up again leads back: the path that was entered
/// has the earlier one as its parent.
pub proof fn law_entering_can_be_undone(p: Seq<char>, name: Seq<char>)
    requires
        is_plain_name(name),
        is_tidy(p),
        p == "/"@ || (p.len() > 0 && p.last() != '/' && p.last() != '.'),
    ensures
        text::single_slashes(child(p, name)) == child(p, name),
        is_child_of(child(p, name), p),
        remote_above(child(p, name), Some(p)) == p,
        local_above(Some(p)) == p,
{
    reveal_strlit("/");
    lemma_tidy_stays(p);
    let q = child(p, name);
    let n = if p == "/"@ {
        1int
    } else {
        p.len() as int + 1
    };
    assert forall|i: int| 0 <= i && i + 1 < q.len() implies !(#[trigger] q[i] == '/' && q[i + 1]
        == '/') by {
        if i + 1 >= n {
            assert(q[i + 1] == name[i + 1 - n]);
            assert(name.contains(name[i + 1 - n]));
        } else if p != "/"@ {
            assert(q[i] == p[i]);
            if i + 1 < p.len() {
                assert(q[i + 1] == p[i + 1]);
            }
        }
    }
    lemma_tidy_stays(q);
    assert(is_plain_name(name));
}

// ---------------------------------------------------------------------------
// Hosts with ports
// ---------------------------------------------------------------------------
/// The place of the last colon; below zero where there is none.
pub open spec fn last_colon(s: Seq<char>) -> int
    decreases s.len(),
{
    if s.len() == 0 {
        -1
    } else if s.last() == ':' {
        s.len() - 1
    } else {
        last_colon(s.drop_last())
    }
}

/// Whether a port can follow a host: the host holds no colon, or ends with a bracket, as an address
/// in brackets does.
pub open spec fn can_have_port(host: Seq<char>) -> bool {
    !host.contains(':') || host.last() == ']'
}

/// The host that a text names, and its port: what follows the last colon, where it is a number of
/// 16 bits and what is before it can have a port. A bare address with its colons is a host as a
/// whole.
pub open spec fn host_and_port(s: Seq<char>) -> (Seq<char>, Option<Seq<char>>) {
    let at = last_colon(s);
    if at >= 0 && can_have_port(s.take(at)) && number::parsed(
        s.skip(at + 1),
        u16::MAX as nat,
    ) is Some {
        (s.take(at), Some(s.skip(at + 1)))
    } else {
        (s, None)
    }
}

/// The last colon stands in the text.
pub proof fn lemma_last_colon(s: Seq<char>)
    ensures
        -1 <= last_colon(s) < s.len(),
    decreases s.len(),
{
    if s.len() > 0 {
        lemma_last_colon(s.drop_last());
    }
}

/// Tells whether a port can follow the host in the first `end` characters.
fn takes_port(chars: &Vec<char>, end: usize) -> (r: bool)
    requires
        end <= chars@.len(),
    ensures
        r == can_have_port(chars@.take(end as int)),
{
    if end > 0 && chars[end - 1] == ']' {
        return true;
    }
    let mut i: usize = 0;
    while i < end
        invariant
            i <= end <= chars@.len(),
            end > 0 ==> chars@[end - 1] != ']',
            forall|k: int| 0 <= k < i ==> #[trigger] chars@[k] != ':',
        decreases end - i,
    {
        if chars[i] == ':' {
            proof {
                assert(chars@.take(end as int)[i as int] == ':');
            }
            return false;
        }
        i = i + 1;
    }
    true
}

/// Reads the host that a string names, and its port.
pub fn split_host(s: &str) -> (r: (String, Option<String>))
    ensures
        (r.0@, text::optional_text(r.1)) == host_and_port(s@),
{
    let chars: Vec<char> = text::chars_of(s);
    let size: usize = chars.len();
    let mut end: usize = size;
    proof {
        assert(s@.take(size as int) =~= s@);
    }
    while end > 0 && chars[end - 1] != ':'
        invariant
            end <= size,
            size == chars@.len(),
            chars@ == s@,
            last_colon(s@.take(end as int)) == last_colon(s@),
        decreases end,
    {
        proof {
            assert(s@.take(end as int).drop_last() =~= s@.take(end - 1));
        }
        end = end - 1;
    }
    if end == 0 {
        return (s.to_owned(), None);
    }
    let port: String = text::text_between(&chars, end, size);
    proof {
        assert(s@.take(end as int).last() == ':');
        assert(last_colon(s@) == end - 1);
        assert(port@ =~= s@.skip(end as int));
    }
    if takes_port(&chars, end - 1) && number::parse_number(&port, 65535).is_some() {
        let host: String = text::text_between(&chars, 0, end - 1);
        proof {
            assert(host@ =~= s@.take(end - 1));
        }
        (host, Some(port))
    } else {
        (s.to_owned(), None)
    }
}

/// A host and a port that are written with a colon between them are read back, whatever the host
/// holds, as long as it holds no colon itself or ends with a bracket.
pub proof fn law_host_and_port_are_read_back(host: Seq<char>, port: u16)
    requires
        can_have_port(host),
    ensures
        host_and_port(host + seq![':'] + number::decimal(port as nat)) == (
            host,
            Some(number::decimal(port as nat)),
        ),
{
    let digits = number::decimal(port as nat);
    let s = host + seq![':'] + digits;
    number::lemma_decimal_digits(port as nat);
    number::law_decimal_round_trip(port as nat, u16::MAX as nat);
    lemma_colon_before_digits(host + seq![':'], digits);
    assert((host + seq![':']).last() == ':');
    assert(s.skip(host.len() as int + 1) =~= digits);
    assert(s.take(host.len() as int) =~= host);
}

/// A text with two or more colons, the last of which does not follow a bracket, is never parted:
/// nothing of a bare address is taken for a port.
pub proof fn law_addresses_stay_whole(s: Seq<char>, i: int, j: int)
    requires
        0 <= i < j < s.len(),
        s[i] == ':',
        s[j] == ':',
        s[last_colon(s) - 1] != ']',
    ensures
        host_and_port(s) == (s, None::<Seq<char>>),
{
    lemma_colon_at_or_after(s, j);
    assert(s.take(last_colon(s))[i] == ':');
}

proof fn lemma_colon_at_or_after(s: Seq<char>, j: int)
    requires
        0 <= j < s.len(),
        s[j] == ':',
    ensures
        j <= last_colon(s) < s.len(),
    decreases s.len(),
{
    if s.last() != ':' {
        lemma_colon_at_or_after(s.drop_last(), j);
    }
}

proof fn lemma_colon_before_digits(front: Seq<char>, digits: Seq<char>)
    requires
        forall|i: int| 0 <= i < digits.len() ==> text::is_digit(#[trigger] digits[i]),
    ensures
        last_colon(front + digits) == last_colon(front),
    decreases digits.len(),
{
    if digits.len() == 0 {
        assert(front + digits =~= front);
    } else {
        assert(text::is_digit(digits[digits.len() - 1]));
        lemma_colon_before_digits(front, digits.drop_last());
        assert((front + digits).drop_last() =~= front + digits.drop_last());
    }
}

} // verus!
