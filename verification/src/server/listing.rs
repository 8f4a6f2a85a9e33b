//! Listing a local directory.
use crate::{order, text};
use vstd::prelude::*;

verus! {

/// An entry of a directory.
#[derive(Debug)]
pub struct DirEntry {
    pub name: String,
    pub is_dir: bool,
}

/// What a list of entries holds.
pub open spec fn entry_views(list: Seq<DirEntry>) -> Seq<(Seq<char>, bool)> {
    list.map_values(|e: DirEntry| (e.name@, e.is_dir))
}

/// The names that are shown: none that starts with a dot, and a slash behind each directory.
pub open spec fn shown(entries: Seq<(Seq<char>, bool)>) -> Seq<Seq<char>>
    decreases entries.len(),
{
    if entries.len() == 0 {
        Seq::empty()
    } else {
        let rest = shown(entries.drop_last());
        let entry = entries.last();
        if entry.0.len() > 0 && entry.0[0] == '.' {
            rest
        } else if entry.1 {
            rest.push(entry.0 + "/"@)
        } else {
            rest.push(entry.0)
        }
    }
}

/// Whether a shown name comes before another: directories before files, and otherwise by their
/// characters.
pub open spec fn shown_before(a: Seq<char>, b: Seq<char>) -> bool {
    if text::ends_in(a, '/') != text::ends_in(b, '/') {
        text::ends_in(a, '/')
    } else {
        order::lexical(order::char_codes(a), order::char_codes(b))
    }
}

/// The order of shown names.
pub open spec fn shown_order() -> spec_fn(Seq<char>, Seq<char>) -> bool {
    |a: Seq<char>, b: Seq<char>| shown_before(a, b)
}

/// The listing of a directory.
pub open spec fn listing(entries: Seq<(Seq<char>, bool)>) -> Seq<Seq<char>> {
    order::sorted(shown(entries), shown_order())
}

proof fn lemma_shown_orders()
    ensures
        order::can_order(shown_order()),
{
    let before = shown_order();
    assert forall|x: Seq<char>, y: Seq<char>| #[trigger] before(x, y) implies !before(y, x) by {
        order::lemma_lexical_asymmetric(order::char_codes(x), order::char_codes(y));
    }
    assert forall|x: Seq<char>, y: Seq<char>, z: Seq<char>|
        !(#[trigger] before(x, y)) && !(#[trigger] before(y, z)) implies !before(x, z) by {
        if text::ends_in(x, '/') == text::ends_in(y, '/') && text::ends_in(y, '/')
            == text::ends_in(z, '/') {
            order::lemma_lexical_chain(order::char_codes(x), order::char_codes(y), order::char_codes(z));
        }
    }
}

/// In a listing every shown name stands as often as it is shown, and each directory stands before
/// each file.
pub proof fn law_directories_come_first(entries: Seq<(Seq<char>, bool)>)
    ensures
        listing(entries).to_multiset() == shown(entries).to_multiset(),
        forall|i: int, j: int|
            0 <= i < j < listing(entries).len() ==> !(!text::ends_in(
                #[trigger] listing(entries)[i],
                '/',
            ) && text::ends_in(#[trigger] listing(entries)[j], '/')),
        forall|i: int, j: int|
            0 <= i < j < listing(entries).len() ==> !shown_before(
                #[trigger] listing(entries)[j],
                #[trigger] listing(entries)[i],
            ),
{
    lemma_shown_orders();
    order::law_sorted_is_in_order(shown(entries), shown_order());
    let list = listing(entries);
    let before = shown_order();
    assert forall|i: int, j: int| 0 <= i < j < list.len() implies !shown_before(
        #[trigger] list[j],
        #[trigger] list[i],
    ) by {
        assert(!before(list[j], list[i]));
    }
}

/// Tells whether a string comes before another by its characters.
fn is_lexical(a: &Vec<char>, b: &Vec<char>) -> (r: bool)
    ensures
        r == order::lexical(order::char_codes(a@), order::char_codes(b@)),
{
    let ghost x = order::char_codes(a@);
    let ghost y = order::char_codes(b@);
    let mut i: usize = 0;
    proof {
        assert(x.skip(0) =~= x);
        assert(y.skip(0) =~= y);
    }
    while i < a.len() && i < b.len()
        invariant
            i <= a@.len(),
            i <= b@.len(),
            x == order::char_codes(a@),
            y == order::char_codes(b@),
            order::lexical(x.skip(i as int), y.skip(i as int)) == order::lexical(x, y),
        decreases a@.len() - i,
    {
        proof {
            assert(x.skip(i as int)[0] == a@[i as int] as int);
            assert(y.skip(i as int)[0] == b@[i as int] as int);
            assert(x.skip(i as int).drop_first() =~= x.skip(i as int + 1));
            assert(y.skip(i as int).drop_first() =~= y.skip(i as int + 1));
        }
        if a[i] != b[i] {
            return a[i] < b[i];
        }
        i = i + 1;
    }
    i < b.len()
}

/// Tells whether a shown name comes before another.
fn is_shown_before(a: &str, b: &str) -> (r: bool)
    ensures
        r == shown_before(a@, b@),
{
    let x: bool = text::ends_with_char(a, '/');
    let y: bool = text::ends_with_char(b, '/');
    if x != y {
        x
    } else {
        is_lexical(&text::chars_of(a), &text::chars_of(b))
    }
}

/// Puts a shown name in its place.
fn insert_shown(names: &mut Vec<String>, name: String)
    ensures
        text::texts(final(names)@) == order::inserted(
            text::texts(old(names)@),
            name@,
            shown_order(),
        ),
{
    let ghost before = text::texts(names@);
    let mut at: usize = names.len();
    proof {
        assert(before.take(at as int) =~= before);
        assert(order::inserted(before, name@, shown_order()) + before.skip(at as int)
            =~= order::inserted(before, name@, shown_order()));
    }
    while at > 0 && is_shown_before(&name, &names[at - 1])
        invariant
            at <= names@.len(),
            before == text::texts(names@),
            order::inserted(before, name@, shown_order()) == order::inserted(
                before.take(at as int),
                name@,
                shown_order(),
            ) + before.skip(at as int),
        decreases at,
    {
        proof {
            let part = before.take(at as int);
            assert(part.last() == names@[at - 1]@);
            assert(part.drop_last() =~= before.take(at - 1));
            assert(order::inserted(part, name@, shown_order()) + before.skip(at as int)
                =~= order::inserted(before.take(at - 1), name@, shown_order()) + before.skip(
                at - 1,
            ));
        }
        at = at - 1;
    }
    proof {
        let part = before.take(at as int);
        if at > 0 {
            assert(part.last() == names@[at - 1]@);
        }
        assert(order::inserted(part, name@, shown_order()) =~= part.push(name@));
        assert(text::texts(names@.insert(at as int, name)) =~= part.push(name@) + before.skip(
            at as int,
        ));
    }
    names.insert(at, name);
}

/// The names that are shown of a directory.
fn show(entries: &Vec<DirEntry>) -> (r: Vec<String>)
    ensures
        text::texts(r@) == shown(entry_views(entries@)),
{
    let ghost all = entry_views(entries@);
    let mut out: Vec<String> = Vec::new();
    let mut i: usize = 0;
    proof {
        assert(text::texts(out@) =~= shown(all.take(0)));
    }
    while i < entries.len()
        invariant
            i <= entries@.len(),
            all == entry_views(entries@),
            text::texts(out@) == shown(all.take(i as int)),
        decreases entries@.len() - i,
    {
        proof {
            assert(all.take(i as int + 1).drop_last() =~= all.take(i as int));
            assert(all[i as int] == (entries@[i as int].name@, entries@[i as int].is_dir));
        }
        let chars: Vec<char> = text::chars_of(&entries[i].name);
        if !(chars.len() > 0 && chars[0] == '.') {
            if entries[i].is_dir {
                let name: String = text::cat2(&entries[i].name, "/");
                text::push_text(&mut out, &name);
            } else {
                text::push_text(&mut out, &entries[i].name);
            }
        }
        i = i + 1;
    }
    proof {
        assert(all.take(all.len() as int) =~= all);
    }
    out
}

/// Lists a directory: directories first, with a slash behind their names, then files, both in the
/// order of their characters, and no hidden entries.
pub fn list_entries(entries: &Vec<DirEntry>) -> (r: Vec<String>)
    ensures
        text::texts(r@) == listing(entry_views(entries@)),
{
    let names: Vec<String> = show(entries);
    let ghost all = text::texts(names@);
    let mut out: Vec<String> = Vec::new();
    let mut i: usize = 0;
    proof {
        assert(text::texts(out@) =~= order::sorted(all.take(0), shown_order()));
    }
    while i < names.len()
        invariant
            i <= names@.len(),
            all == text::texts(names@),
            text::texts(out@) == order::sorted(all.take(i as int), shown_order()),
        decreases names@.len() - i,
    {
        proof {
            assert(all.take(i as int + 1).drop_last() =~= all.take(i as int));
            assert(all[i as int] == names@[i as int]@);
        }
        insert_shown(&mut out, names[i].clone());
        i = i + 1;
    }
    proof {
        assert(all.take(all.len() as int) =~= all);
    }
    out
}

} // verus!
