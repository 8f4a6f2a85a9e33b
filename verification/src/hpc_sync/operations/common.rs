//! What the operations share: places, fingerprints and the order of runs.
use super::super::config;
use super::super::config::AppConfig;
use super::super::error;
use super::super::error::{AppError, AppResult};
use super::super::moment;
use super::super::process;
use super::super::rsync;
use super::step;
use crate::path::FilePath;
use crate::{order, path, text};
use vstd::prelude::*;

verus! {

// ---------------------------------------------------------------------------
// Places
// ---------------------------------------------------------------------------
/// The path that a name spells, under another path.
pub open spec fn under(p: Seq<u8>, name: Seq<char>) -> Seq<u8> {
    path::joined_path(p, vstd::utf8::encode_utf8(name))
}

/// Where the runs of a job are kept.
pub open spec fn runs_place(state_dir: Seq<u8>, job_id: Seq<char>) -> Seq<u8> {
    under(under(state_dir, "runs"@), job_id)
}

/// Where one run of a job is kept.
pub open spec fn run_place(state_dir: Seq<u8>, job_id: Seq<char>, run_id: Seq<char>) -> Seq<u8> {
    under(runs_place(state_dir, job_id), run_id)
}

/// Where the lock of a job lies.
pub open spec fn lock_place(state_dir: Seq<u8>, job_id: Seq<char>) -> Seq<u8> {
    under(under(state_dir, "locks"@), job_id + ".lock"@)
}

/// Where the latest result of a job lies.
pub open spec fn latest_place(state_dir: Seq<u8>, job_id: Seq<char>) -> Seq<u8> {
    under(under(state_dir, "latest"@), job_id + ".json"@)
}

/// Where the runs of a job are kept.
pub fn runs_dir(config: &AppConfig, job_id: &str) -> (r: FilePath)
    ensures
        r@ == runs_place(config@.state_dir, job_id@),
{
    config.state_dir.join_text("runs").join_text(job_id)
}

/// Where one run of a job is kept.
pub fn run_dir(config: &AppConfig, job_id: &str, run_id: &str) -> (r: FilePath)
    ensures
        r@ == run_place(config@.state_dir, job_id@, run_id@),
{
    runs_dir(config, job_id).join_text(run_id)
}

/// Where the lock of a job lies.
pub fn lock_path(config: &AppConfig, job_id: &str) -> (r: FilePath)
    ensures
        r@ == lock_place(config@.state_dir, job_id@),
{
    config.state_dir.join_text("locks").join_text(&text::cat2(job_id, ".lock"))
}

/// Where the latest result of a job lies.
pub fn latest_path(config: &AppConfig, job_id: &str) -> (r: FilePath)
    ensures
        r@ == latest_place(config@.state_dir, job_id@),
{
    config.state_dir.join_text("latest").join_text(&text::cat2(job_id, ".json"))
}

// ---------------------------------------------------------------------------
// Fingerprints
// ---------------------------------------------------------------------------
/// The fingerprint of a job's configuration.
pub open spec fn job_hash(job_id: Seq<char>, payload: Seq<char>) -> Seq<char> {
    process::fingerprint(seq!["1"@, job_id, payload])
}

/// Why a job's configuration has no fingerprint.
pub open spec fn serialize_fault(job_id: Seq<char>, cause: Seq<char>) -> error::ErrorView {
    error::plain_error(
        "config_serialize_failed"@,
        "cannot fingerprint job "@ + job_id + ": "@ + cause,
        false,
        "Report this hpc-sync serialization defect."@,
    )
}

/// The fingerprint of a job's configuration, or why there is none.
pub open spec fn hashed(
    config: config::ConfigView,
    job_id: Seq<char>,
    payload: Result<Seq<char>, Seq<char>>,
) -> Result<Seq<char>, error::ErrorView> {
    if config::find_job(config.jobs, job_id) is None {
        Err(config::unknown_job(job_id))
    } else {
        match payload {
            Ok(p) => Ok(job_hash(job_id, p)),
            Err(cause) => Err(serialize_fault(job_id, cause)),
        }
    }
}

/// The contents of a text or an error.
pub open spec fn text_outcome(r: AppResult<String>) -> Result<Seq<char>, error::ErrorView> {
    match r {
        Ok(s) => Ok(s@),
        Err(e) => Err(e@),
    }
}

/// Fingerprints a job's configuration, which is given in its serialized form.
pub fn config_hash(config: &AppConfig, job_id: &str, payload: &Result<String, String>) -> (r:
    AppResult<String>)
    ensures
        text_outcome(r) == hashed(config@, job_id@, step::text_result(*payload)),
        r matches Ok(hash) ==> process::is_fingerprint(hash@),
{
    match config.job(job_id) {
        Err(e) => {
            return Err(e);
        },
        Ok(_) => {},
    }
    match payload {
        Err(cause) => Err(
            AppError::new(
                "config_serialize_failed",
                text::cat4("cannot fingerprint job ", job_id, ": ", cause),
                false,
                "Report this hpc-sync serialization defect.",
            ),
        ),
        Ok(p) => {
            let parts: Vec<&str> = vec!["1", job_id, p.as_str()];
            proof {
                assert(process::slices(parts@) =~= seq!["1"@, job_id@, p@]);
            }
            Ok(process::stable_hash(parts.as_slice()))
        },
    }
}

// ---------------------------------------------------------------------------
// The order of runs
// ---------------------------------------------------------------------------
/// The numbers of a sequence of bytes.
pub open spec fn byte_codes(name: Seq<u8>) -> Seq<int> {
    name.map_values(|b: u8| b as int)
}

/// Whether a name comes before another in the order of bytes.
pub open spec fn comes_before(a: Seq<u8>, b: Seq<u8>) -> bool {
    order::lexical(byte_codes(a), byte_codes(b))
}

/// The later of two names comes first.
pub open spec fn newer() -> spec_fn(Seq<u8>, Seq<u8>) -> bool {
    |a: Seq<u8>, b: Seq<u8>| comes_before(b, a)
}

/// Names in descending order, so that the newest run comes first.
pub open spec fn newest_first(names: Seq<Seq<u8>>) -> Seq<Seq<u8>> {
    order::sorted(names, newer())
}

proof fn lemma_newer_orders()
    ensures
        order::can_order(newer()),
{
    let before = newer();
    assert forall|x: Seq<u8>, y: Seq<u8>| #[trigger] before(x, y) implies !before(y, x) by {
        order::lemma_lexical_asymmetric(byte_codes(x), byte_codes(y));
    }
    assert forall|x: Seq<u8>, y: Seq<u8>, z: Seq<u8>|
        !(#[trigger] before(x, y)) && !(#[trigger] before(y, z)) implies !before(x, z) by {
        order::lemma_lexical_chain(byte_codes(z), byte_codes(y), byte_codes(x));
    }
}

/// The order of runs holds each name as often as the list does, and no name stands ahead of a
/// later one.
pub proof fn law_newest_first_is_an_order(names: Seq<Seq<u8>>)
    ensures
        forall|i: int, j: int|
            0 <= i < j < names.len() ==> !comes_before(
                #[trigger] newest_first(names)[i],
                #[trigger] newest_first(names)[j],
            ),
        newest_first(names).to_multiset() == names.to_multiset(),
        newest_first(names).len() == names.len(),
{
    lemma_newer_orders();
    order::law_sorted_is_in_order(names, newer());
    let list = newest_first(names);
    let before = newer();
    assert forall|i: int, j: int| 0 <= i < j < names.len() implies !comes_before(
        #[trigger] list[i],
        #[trigger] list[j],
    ) by {
        assert(!before(list[j], list[i]));
    }
}

/// Of two different names one comes before the other, so there is one order only.
pub proof fn law_names_are_ordered(a: Seq<u8>, b: Seq<u8>)
    ensures
        a != b ==> (comes_before(a, b) <==> !comes_before(b, a)),
        !comes_before(a, a),
{
    order::lemma_lexical_asymmetric(byte_codes(a), byte_codes(a));
    order::lemma_lexical_asymmetric(byte_codes(a), byte_codes(b));
    if !comes_before(a, b) && !comes_before(b, a) {
        order::lemma_lexical_total(byte_codes(a), byte_codes(b));
        assert forall|i: int| 0 <= i < a.len() implies a[i] == b[i] by {
            assert(byte_codes(a)[i] == byte_codes(b)[i]);
        }
        assert(byte_codes(a).len() == a.len() && byte_codes(b).len() == b.len());
        assert(a =~= b);
    }
}

/// The directories of runs stand in the order of their run ids, and so in the order of time: a run
/// id that comes after another has a name that comes after the other's.
pub proof fn law_run_ids_are_ordered_as_names(a: Seq<char>, b: Seq<char>)
    requires
        rsync::is_run_id(a),
        rsync::is_run_id(b),
        moment::is_before(a, b),
    ensures
        comes_before(vstd::utf8::encode_utf8(a), vstd::utf8::encode_utf8(b)),
        newer()(vstd::utf8::encode_utf8(b), vstd::utf8::encode_utf8(a)),
{
    lemma_run_id_codes(a);
    lemma_run_id_codes(b);
}

/// A run id is made of single bytes.
proof fn lemma_run_id_codes(id: Seq<char>)
    requires
        rsync::is_run_id(id),
    ensures
        byte_codes(vstd::utf8::encode_utf8(id)) == order::char_codes(id),
{
    assert forall|i: int| 0 <= i < id.len() implies 0 <= #[trigger] id[i] as u32 <= 127 by {
        assert(rsync::is_run_id_char(i, id[i]));
    }
    assert(vstd::utf8::is_ascii_chars(id));
    vstd::utf8::is_ascii_chars_encode_utf8(id);
    let bytes = vstd::utf8::encode_utf8(id);
    assert(byte_codes(bytes) =~= order::char_codes(id));
}

/// Tells whether a name comes before another in the order of bytes.
pub fn is_before(a: &FilePath, b: &FilePath) -> (r: bool)
    ensures
        r == comes_before(a@, b@),
{
    let ghost x = byte_codes(a@);
    let ghost y = byte_codes(b@);
    let mut i: usize = 0;
    proof {
        assert(x.skip(0) =~= x);
        assert(y.skip(0) =~= y);
    }
    while i < a.bytes.len() && i < b.bytes.len()
        invariant
            i <= a@.len(),
            i <= b@.len(),
            x == byte_codes(a@),
            y == byte_codes(b@),
            order::lexical(x.skip(i as int), y.skip(i as int)) == comes_before(a@, b@),
        decreases a@.len() - i,
    {
        proof {
            assert(x.skip(i as int)[0] == a@[i as int]);
            assert(y.skip(i as int)[0] == b@[i as int]);
            assert(x.skip(i as int).drop_first() =~= x.skip(i as int + 1));
            assert(y.skip(i as int).drop_first() =~= y.skip(i as int + 1));
        }
        if a.bytes[i] != b.bytes[i] {
            return a.bytes[i] < b.bytes[i];
        }
        i = i + 1;
    }
    i < b.bytes.len()
}

/// Puts a name in its place in a descending list.
fn insert_name(names: &mut Vec<FilePath>, name: FilePath)
    ensures
        step::path_views(final(names)@) == order::inserted(
            step::path_views(old(names)@),
            name@,
            newer(),
        ),
{
    let ghost before = step::path_views(names@);
    let mut at: usize = names.len();
    proof {
        assert(before.take(at as int) =~= before);
        assert(order::inserted(before, name@, newer()) + before.skip(at as int)
            =~= order::inserted(before, name@, newer()));
    }
    while at > 0 && is_before(&names[at - 1], &name)
        invariant
            at <= names@.len(),
            before == step::path_views(names@),
            order::inserted(before, name@, newer()) == order::inserted(
                before.take(at as int),
                name@,
                newer(),
            ) + before.skip(at as int),
        decreases at,
    {
        proof {
            let part = before.take(at as int);
            assert(part.last() == names@[at - 1]@);
            assert(part.drop_last() =~= before.take(at - 1));
            assert(order::inserted(part, name@, newer()) + before.skip(at as int)
                =~= order::inserted(before.take(at - 1), name@, newer()) + before.skip(at - 1));
        }
        at = at - 1;
    }
    proof {
        let part = before.take(at as int);
        if at > 0 {
            assert(part.last() == names@[at - 1]@);
        }
        assert(order::inserted(part, name@, newer()) =~= part.push(name@));
        assert(step::path_views(names@.insert(at as int, name)) =~= part.push(name@) + before.skip(
            at as int,
        ));
    }
    names.insert(at, name);
}

/// Puts names in descending order, so that the newest run comes first.
pub fn sort_newest_first(names: Vec<FilePath>) -> (r: Vec<FilePath>)
    ensures
        step::path_views(r@) == newest_first(step::path_views(names@)),
{
    let ghost all = step::path_views(names@);
    let mut out: Vec<FilePath> = Vec::new();
    let mut i: usize = 0;
    proof {
        assert(step::path_views(out@) =~= newest_first(all.take(0)));
    }
    while i < names.len()
        invariant
            i <= names@.len(),
            all == step::path_views(names@),
            step::path_views(out@) == newest_first(all.take(i as int)),
        decreases names@.len() - i,
    {
        proof {
            assert(all.take(i as int + 1).drop_last() =~= all.take(i as int));
            assert(all[i as int] == names@[i as int]@);
        }
        insert_name(&mut out, names[i].copy());
        i = i + 1;
    }
    proof {
        assert(all.take(all.len() as int) =~= all);
    }
    out
}

} // verus!
