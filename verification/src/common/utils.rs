//! Where the daemon listens, where hosts are kept, and which hosts are accepted.
use crate::text;
use vstd::prelude::*;

verus! {

/// Where the daemon listens.
pub fn get_socket_path(home: &str) -> (r: String)
    ensures
        r@ == home@ + "/.sync_daemon.sock"@,
{
    text::cat2(home, "/.sync_daemon.sock")
}

/// Where the saved hosts are kept.
pub fn get_host_path(home: &str) -> (r: String)
    ensures
        r@ == home@ + "/.sync_hosts"@,
{
    text::cat2(home, "/.sync_hosts")
}

/// The characters of user and host names.
pub open spec fn is_host_char(c: char) -> bool {
    text::is_alphanumeric(c) || c == '.' || c == '-'
}

/// Whether a text is a user or host name. None starts with a hyphen: it could be read as an option.
pub open spec fn is_host_name(s: Seq<char>) -> bool {
    s.len() > 0 && s[0] != '-' && forall|i: int| 0 <= i < s.len() ==> is_host_char(#[trigger] s[i])
}

/// Whether an at sign at `at` parts a text into a user and a host name.
pub open spec fn parts_at(s: Seq<char>, at: int) -> bool {
    0 <= at < s.len() && s[at] == '@' && is_host_name(s.take(at)) && is_host_name(s.skip(at + 1))
}

/// Whether a text names a host: a host name, or a user name, an at sign and a host name.
pub open spec fn is_host(s: Seq<char>) -> bool {
    is_host_name(s) || exists|at: int| parts_at(s, at)
}

/// Tells whether a stretch of a string is a user or host name.
fn is_name_between(chars: &Vec<char>, from: usize, to: usize) -> (r: bool)
    requires
        from <= to <= chars@.len(),
    ensures
        r == is_host_name(chars@.subrange(from as int, to as int)),
{
    let ghost part = chars@.subrange(from as int, to as int);
    let mut i: usize = from;
    while i < to
        invariant
            from <= i <= to <= chars@.len(),
            part == chars@.subrange(from as int, to as int),
            forall|k: int| 0 <= k < i - from ==> is_host_char(#[trigger] part[k]),
        decreases to - i,
    {
        let c: char = chars[i];
        assert(part[i - from] == c);
        if !(text::is_alphanumeric_char(c) || c == '.' || c == '-') {
            return false;
        }
        i = i + 1;
    }
    proof {
        assert(from < to ==> part[0] == chars@[from as int]);
    }
    from < to && chars[from] != '-'
}

/// Tells whether a string names a host. Only letters, digits, dots, hyphens and one at sign are
/// accepted, and no hyphen at the start of a name.
pub fn is_valid_host(host: &str) -> (r: bool)
    ensures
        r == is_host(host@),
{
    let chars: Vec<char> = text::chars_of(host);
    let size: usize = chars.len();
    let ghost s = host@;
    let mut at: usize = 0;
    while at < size && chars[at] != '@'
        invariant
            at <= size,
            size == chars@.len(),
            chars@ == s,
            forall|k: int| 0 <= k < at ==> #[trigger] s[k] != '@',
        decreases size - at,
    {
        at = at + 1;
    }
    if at == size {
        proof {
            assert(s.subrange(0, size as int) =~= s);
            assert forall|k: int| !parts_at(s, k) by {}
        }
        return is_name_between(&chars, 0, size);
    }
    proof {
        assert(s[at as int] == '@');
        assert(!is_host_char(s[at as int]));
        assert(!is_host_name(s));
        assert(s.subrange(0, at as int) =~= s.take(at as int));
        assert(s.subrange(at as int + 1, size as int) =~= s.skip(at as int + 1));
        assert forall|k: int| parts_at(s, k) implies k == at by {
            if k > at {
                assert(s.take(k)[at as int] == '@');
            }
        }
    }
    let r: bool = is_name_between(&chars, 0, at) && is_name_between(&chars, at + 1, size);
    assert(r == parts_at(s, at as int));
    r
}

/// An accepted host holds nothing but letters, digits, dots, hyphens and at most one at sign: no
/// blank, no equals sign, no quote and no other character that a shell could read anything into.
/// Neither it nor the host after an at sign starts with a hyphen, so it is not taken for an option.
pub proof fn law_hosts_are_plain(s: Seq<char>)
    requires
        is_host(s),
    ensures
        s.len() > 0,
        forall|i: int| 0 <= i < s.len() ==> is_host_char(#[trigger] s[i]) || s[i] == '@',
        forall|i: int, j: int|
            0 <= i < j < s.len() ==> !(#[trigger] s[i] == '@' && #[trigger] s[j] == '@'),
        s[0] != '-',
        forall|i: int| 0 <= i < s.len() - 1 && #[trigger] s[i] == '@' ==> s[i + 1] != '-',
{
    if !is_host_name(s) {
        let at = choose|at: int| parts_at(s, at);
        let user = s.take(at);
        let host = s.skip(at + 1);
        assert forall|i: int| 0 <= i < s.len() && i != at implies is_host_char(#[trigger] s[i]) by {
            if i < at {
                assert(user[i] == s[i]);
            } else {
                assert(host[i - at - 1] == s[i]);
            }
        }
        assert(user[0] == s[0]);
        assert(host[0] == s[at + 1]);
    }
}

/// A host is accepted exactly where it is a name of letters, digits, dots and hyphens that does not
/// start with a hyphen, or two such names with an at sign between them.
pub proof fn law_names_are_hosts(user: Seq<char>, name: Seq<char>)
    requires
        name.len() > 0 && name[0] != '-',
        user.len() > 0 && user[0] != '-',
        forall|i: int|
            #![trigger name[i]]
            0 <= i < name.len() ==> 'a' <= name[i] <= 'z' || 'A' <= name[i] <= 'Z' || '0' <= name[i]
                <= '9' || name[i] == '.' || name[i] == '-',
        forall|i: int|
            #![trigger user[i]]
            0 <= i < user.len() ==> 'a' <= user[i] <= 'z' || 'A' <= user[i] <= 'Z' || '0' <= user[i]
                <= '9' || user[i] == '.' || user[i] == '-',
    ensures
        is_host(name),
        is_host(user + seq!['@'] + name),
{
    assert(is_host_name(name));
    assert(is_host_name(user));
    let s = user + seq!['@'] + name;
    let at = user.len() as int;
    assert(s.take(at) =~= user);
    assert(s.skip(at + 1) =~= name);
    assert(parts_at(s, at));
}

} // verus!
