//! Moments in time, and the names and texts that are made of them.
use super::process;
use super::rsync;
use crate::{number, order, text};
use vstd::prelude::*;

verus! {

/// A moment: seconds since the start of 1970 in UTC, and nanoseconds in that second.
#[derive(Debug, Clone, Copy)]
pub struct Moment {
    pub seconds: i64,
    pub nanos: u32,
}

/// Whether the calendar reaches a moment. Its last year is 262142.
pub open spec fn in_calendar(m: Moment) -> bool {
    0 <= m.seconds <= 8_210_266_876_799 && m.nanos < 1_000_000_000
}

/// Whether a moment lies before the year 10000.
pub open spec fn has_short_year(m: Moment) -> bool {
    0 <= m.seconds <= 253_402_300_799
}

/// The form in which run ids spell their time.
pub open spec fn stamp_form() -> Seq<char> {
    "%Y%m%dT%H%M%SZ"@
}

/// What `chrono` writes for a moment in RFC 3339, with milliseconds and the letter `Z`.
pub uninterp spec fn rfc3339(seconds: i64, nanos: u32) -> Seq<char>;

/// What `chrono` writes for a moment in a given form.
pub uninterp spec fn written(seconds: i64, nanos: u32, form: Seq<char>) -> Seq<char>;

/// Calls `chrono::Utc::now`. Whatever the time is, the calendar reaches it: `chrono` panics where
/// the clock of the host stands before 1970 or after the last year of the calendar.
#[verifier::external_body]
fn clock() -> (r: Moment)
    ensures
        in_calendar(r),
{
    let now = chrono::Utc::now();
    Moment { seconds: now.timestamp(), nanos: now.timestamp_subsec_nanos() }
}

/// Calls `chrono::DateTime::to_rfc3339_opts` with milliseconds and the letter `Z`; the text is
/// only named.
#[verifier::external_body]
fn rfc3339_text(m: Moment) -> (r: String)
    requires
        in_calendar(m),
    ensures
        r@ == rfc3339(m.seconds, m.nanos),
{
    chrono::DateTime::from_timestamp(m.seconds, m.nanos).unwrap().to_rfc3339_opts(
        chrono::SecondsFormat::Millis,
        true,
    )
}

/// Whether the stamps of all earlier seconds come before a text.
pub open spec fn follows_earlier_stamps(s: Seq<char>, m: Moment) -> bool {
    forall|seconds: i64, nanos: u32|
        0 <= seconds < m.seconds && nanos < 1_000_000_000 ==> is_stamp(
            #[trigger] written(seconds, nanos, stamp_form()),
        ) && is_before(written(seconds, nanos, stamp_form()), s)
}

/// Calls `chrono::DateTime::format` in UTC and writes the result out. The text is named, and of a
/// moment before the year 10000 two things are said. It has the digits and letters of a stamp. And
/// since these are fixed places for the year, the month, the day, the hour, the minute and the
/// second, each with its leading zeros, the stamp of every earlier second comes before it.
#[verifier::external_body]
fn form_text(m: Moment, form: &str) -> (r: String)
    requires
        in_calendar(m),
        form@ == stamp_form(),
    ensures
        r@ == written(m.seconds, m.nanos, form@),
        has_short_year(m) ==> is_stamp(r@),
        has_short_year(m) ==> follows_earlier_stamps(r@, m),
{
    chrono::DateTime::from_timestamp(m.seconds, m.nanos).unwrap().format(form).to_string()
}

/// Whether a text has the shape of a UTC time such as `20260721T120000Z`.
pub open spec fn is_stamp(s: Seq<char>) -> bool {
    s.len() == 16 && forall|i: int| 0 <= i < 16 ==> rsync::is_run_id_char(i, #[trigger] s[i])
}

/// Whether a text comes before another in the order of characters.
pub open spec fn is_before(a: Seq<char>, b: Seq<char>) -> bool {
    order::lexical(order::char_codes(a), order::char_codes(b))
}

/// The current time. Only that the calendar reaches it can be said of it.
pub fn current_moment() -> (r: Moment)
    ensures
        in_calendar(r),
{
    clock()
}

/// A moment as it stands in records.
pub fn moment_text(m: Moment) -> (r: String)
    requires
        in_calendar(m),
    ensures
        r@ == rfc3339(m.seconds, m.nanos),
{
    rfc3339_text(m)
}

/// The current time as it stands in records.
pub fn utc_now() -> (r: String)
    ensures
        exists|m: Moment| in_calendar(m) && r@ == #[trigger] rfc3339(m.seconds, m.nanos),
{
    let m: Moment = current_moment();
    moment_text(m)
}

/// The nanoseconds since the start of 1970, or zero where 64 bits do not hold them.
pub open spec fn nanoseconds(m: Moment) -> int {
    let n = m.seconds * 1_000_000_000 + m.nanos;
    if n <= i64::MAX {
        n
    } else {
        0
    }
}

/// Counts the nanoseconds since the start of 1970.
fn count_nanoseconds(m: Moment) -> (r: i64)
    requires
        in_calendar(m),
    ensures
        r == nanoseconds(m),
{
    let n: i128 = (m.seconds as i128) * 1_000_000_000 + (m.nanos as i128);
    if n <= i64::MAX as i128 {
        n as i64
    } else {
        0
    }
}

/// The run id that a process makes at a moment: the time, and the start of a fingerprint of the
/// nanoseconds and the process.
pub open spec fn made_run_id(m: Moment, process_id: u32) -> Seq<char> {
    let seed = number::signed_decimal(nanoseconds(m)) + ":"@ + number::decimal(process_id as nat);
    written(m.seconds, m.nanos, stamp_form()) + "-"@ + process::fingerprint(seq![seed]).take(8)
}

/// Whether every run id that any process makes in an earlier second comes before a text.
pub open spec fn follows_earlier_ids(id: Seq<char>, m: Moment) -> bool {
    forall|earlier: Moment, process_id: u32|
        in_calendar(earlier) && earlier.seconds < m.seconds ==> is_before(
            #[trigger] made_run_id(earlier, process_id),
            id,
        )
}

/// A text that starts with a later stamp comes later.
proof fn lemma_later_stamp(stamp: Seq<char>, more: Seq<char>, later: Seq<char>, other: Seq<char>)
    requires
        is_stamp(stamp),
        is_stamp(later),
        is_before(stamp, later),
    ensures
        is_before(stamp + more, later + other),
{
    order::lemma_lexical_extended(
        order::char_codes(stamp),
        order::char_codes(later),
        order::char_codes(more),
        order::char_codes(other),
    );
    assert(order::char_codes(stamp + more) =~= order::char_codes(stamp) + order::char_codes(more));
    assert(order::char_codes(later + other) =~= order::char_codes(later) + order::char_codes(
        other,
    ));
}

/// Makes the run id of a process at a moment. Until the year 9999 ends it is a valid run id, and of
/// two run ids of different seconds the later one is the greater.
pub fn run_id_at(m: Moment, process_id: u32) -> (r: String)
    requires
        in_calendar(m),
    ensures
        r@ == made_run_id(m, process_id),
        has_short_year(m) ==> rsync::is_run_id(r@) && follows_earlier_ids(r@, m),
{
    let seed: String = text::cat3(
        &number::signed_text(count_nanoseconds(m)),
        ":",
        &number::decimal_text(process_id as u64),
    );
    let parts: Vec<&str> = vec![seed.as_str()];
    let hash: String = process::stable_hash(parts.as_slice());
    proof {
        assert(process::slices(parts@) =~= seq![seed@]);
    }
    let digits: Vec<char> = text::chars_of(&hash);
    let suffix: String = text::text_between(&digits, 0, 8);
    proof {
        assert(suffix@ =~= hash@.take(8));
    }
    let stamp: String = form_text(m, "%Y%m%dT%H%M%SZ");
    let id: String = text::cat3(&stamp, "-", &suffix);
    proof {
        reveal_strlit("-");
        if has_short_year(m) {
            assert forall|i: int| 0 <= i < 25 implies rsync::is_run_id_char(
                i,
                #[trigger] id@[i],
            ) by {
                if i < 16 {
                    assert(id@[i] == stamp@[i]);
                } else if i > 16 {
                    assert(id@[i] == hash@[i - 17]);
                }
            }
            assert forall|earlier: Moment, other: u32|
                in_calendar(earlier) && earlier.seconds < m.seconds implies is_before(
                #[trigger] made_run_id(earlier, other),
                id@,
            ) by {
                let before = written(earlier.seconds, earlier.nanos, stamp_form());
                let seed = number::signed_decimal(nanoseconds(earlier)) + ":"@ + number::decimal(
                    other as nat,
                );
                let more = "-"@ + process::fingerprint(seq![seed]).take(8);
                lemma_later_stamp(before, more, stamp@, "-"@ + suffix@);
                assert(made_run_id(earlier, other) =~= before + more);
                assert(id@ =~= stamp@ + ("-"@ + suffix@));
            }
        }
    }
    id
}

/// Makes a run id for the current time. Until the year 9999 ends it is a valid run id, and comes
/// after every run id of an earlier second.
pub fn new_run_id(process_id: u32) -> (r: String)
    ensures
        exists|m: Moment|
            {
                &&& in_calendar(m)
                &&& r@ == #[trigger] made_run_id(m, process_id)
                &&& has_short_year(m) ==> rsync::is_run_id(r@) && follows_earlier_ids(r@, m)
            },
{
    let m: Moment = current_moment();
    run_id_at(m, process_id)
}

/// A run id tells its second: it starts with the stamp of that second, and then a hyphen and the
/// first eight digits of a fingerprint of the nanoseconds and the process follow.
pub proof fn law_run_ids_tell_their_time(m: Moment, process_id: u32)
    requires
        is_stamp(written(m.seconds, m.nanos, "%Y%m%dT%H%M%SZ"@)),
        process::is_fingerprint(
            process::fingerprint(
                seq![
                    number::signed_decimal(nanoseconds(m)) + ":"@ + number::decimal(
                        process_id as nat,
                    ),
                ],
            ),
        ),
    ensures
        made_run_id(m, process_id).len() == 25,
        made_run_id(m, process_id).take(16) == written(m.seconds, m.nanos, "%Y%m%dT%H%M%SZ"@),
        made_run_id(m, process_id)[16] == '-',
        made_run_id(m, process_id).skip(17) == process::fingerprint(
            seq![
                number::signed_decimal(nanoseconds(m)) + ":"@ + number::decimal(process_id as nat),
            ],
        ).take(8),
        m.seconds * 1_000_000_000 + m.nanos <= i64::MAX ==> nanoseconds(m) == m.seconds
            * 1_000_000_000 + m.nanos,
{
    reveal_strlit("-");
    let id = made_run_id(m, process_id);
    let stamp = written(m.seconds, m.nanos, "%Y%m%dT%H%M%SZ"@);
    assert(id.take(16) =~= stamp);
    assert(id.skip(17) =~= process::fingerprint(
        seq![number::signed_decimal(nanoseconds(m)) + ":"@ + number::decimal(process_id as nat)],
    ).take(8));
}

} // verus!
