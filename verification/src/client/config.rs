//! The saved hosts.
use crate::{lines, text};
use vstd::prelude::*;

verus! {

/// Whether a line names a host: it is not empty and no comment.
pub open spec fn is_host_line(line: Seq<char>) -> bool {
    line.len() > 0 && line[0] != '#'
}

/// The hosts among lines, without the white space around them.
pub open spec fn hosts_among(list: Seq<Seq<char>>) -> Seq<Seq<char>>
    decreases list.len(),
{
    if list.len() == 0 {
        Seq::empty()
    } else {
        let line = text::trimmed(list.last());
        if is_host_line(line) {
            hosts_among(list.drop_last()).push(line)
        } else {
            hosts_among(list.drop_last())
        }
    }
}

/// The hosts that a file holds; none where it cannot be read.
pub open spec fn hosts_in(content: Option<Seq<char>>) -> Seq<Seq<char>> {
    match content {
        Some(c) => hosts_among(lines::lines(c)),
        None => Seq::empty(),
    }
}

/// The hosts that a file holds.
pub fn load_hosts(content: Option<&str>) -> (r: Vec<String>)
    ensures
        text::texts(r@) == hosts_in(text::optional_str(content)),
{
    let mut out: Vec<String> = Vec::new();
    proof {
        assert(text::texts(out@) =~= Seq::<Seq<char>>::empty());
    }
    let content: &str = match content {
        None => {
            return out;
        },
        Some(c) => c,
    };
    let all: Vec<String> = lines::lines_of(content);
    let ghost list = text::texts(all@);
    let mut i: usize = 0;
    while i < all.len()
        invariant
            i <= all@.len(),
            list == text::texts(all@),
            text::texts(out@) == hosts_among(list.take(i as int)),
        decreases all@.len() - i,
    {
        proof {
            assert(list.take(i as int + 1).drop_last() =~= list.take(i as int));
            assert(list[i as int] == all@[i as int]@);
        }
        let line: String = text::trim(&all[i]);
        let chars: Vec<char> = text::chars_of(&line);
        if chars.len() > 0 && chars[0] != '#' {
            text::push_text(&mut out, &line);
        }
        i = i + 1;
    }
    proof {
        assert(list.take(list.len() as int) =~= list);
    }
    out
}

/// What the file of hosts holds: one host on each line.
pub fn save_hosts(hosts: &Vec<String>) -> (r: String)
    ensures
        r@ == text::joined(text::texts(hosts@), "\n"@),
{
    text::join(hosts, "\n")
}

/// Whether a host can be kept in the file: one line without white space around it, and no comment.
pub open spec fn can_be_saved(host: Seq<char>) -> bool {
    &&& is_host_line(host)
    &&& lines::is_single_line(host)
    &&& text::trimmed(host) == host
}

proof fn lemma_hosts_stay(list: Seq<Seq<char>>)
    requires
        forall|i: int| 0 <= i < list.len() ==> can_be_saved(#[trigger] list[i]),
    ensures
        hosts_among(list) == list,
    decreases list.len(),
{
    if list.len() > 0 {
        let front = list.drop_last();
        assert forall|i: int| 0 <= i < front.len() implies can_be_saved(#[trigger] front[i]) by {
            assert(front[i] == list[i]);
        }
        lemma_hosts_stay(front);
        assert(can_be_saved(list[list.len() - 1]));
        assert(hosts_among(list) =~= list);
    } else {
        assert(hosts_among(list) =~= list);
    }
}

/// Saved hosts are read back as they were, in their order.
pub proof fn law_saved_hosts_are_read_back(hosts: Seq<Seq<char>>)
    requires
        forall|i: int| 0 <= i < hosts.len() ==> can_be_saved(#[trigger] hosts[i]),
    ensures
        hosts_in(Some(text::joined(hosts, "\n"@))) == hosts,
{
    reveal_strlit("\n");
    assert("\n"@ =~= seq!['\n']);
    assert forall|i: int| 0 <= i < hosts.len() implies lines::is_single_line(
        #[trigger] hosts[i],
    ) by {
        assert(can_be_saved(hosts[i]));
    }
    lines::lemma_lines_of_joined(hosts);
    lemma_hosts_stay(hosts);
}

} // verus!
