//! Running commands: what is run, what comes back, and how it is summed up.
use super::error;
use super::error::{AppError, AppResult};
use crate::path::FilePath;
use crate::{lines, path, text};
use sha2::Digest;
use vstd::prelude::*;

verus! {

/// What a command left behind.
#[derive(Debug)]
pub struct CommandOutput {
    pub exit_code: i32,
    pub stdout: String,
    pub stderr: String,
}

/// What a [`CommandOutput`] holds.
#[verifier::ext_equal]
pub struct OutputView {
    pub exit_code: i32,
    pub stdout: Seq<char>,
    pub stderr: Seq<char>,
}

impl View for CommandOutput {
    type V = OutputView;

    open spec fn view(&self) -> OutputView {
        OutputView { exit_code: self.exit_code, stdout: self.stdout@, stderr: self.stderr@ }
    }
}

/// A command to run, how long it may take and where its output goes.
#[derive(Debug)]
pub struct Execution {
    pub command: Vec<String>,
    pub timeout_seconds: u64,
    pub stdout_path: FilePath,
    pub stderr_path: FilePath,
}

/// What an [`Execution`] holds.
#[verifier::ext_equal]
pub struct ExecutionView {
    pub command: Seq<Seq<char>>,
    pub timeout_seconds: u64,
    pub stdout_path: Seq<u8>,
    pub stderr_path: Seq<u8>,
}

impl View for Execution {
    type V = ExecutionView;

    open spec fn view(&self) -> ExecutionView {
        ExecutionView {
            command: text::texts(self.command@),
            timeout_seconds: self.timeout_seconds,
            stdout_path: self.stdout_path@,
            stderr_path: self.stderr_path@,
        }
    }
}

// ---------------------------------------------------------------------------
// Running
// ---------------------------------------------------------------------------
/// The program of a command: its first word.
pub fn program(command: &Vec<String>) -> (r: AppResult<&String>)
    ensures
        match r {
            Ok(p) => command@.len() > 0 && *p == command@[0],
            Err(e) => command@.len() == 0 && e@ == error::plain_error(
                "command_empty"@,
                "cannot execute an empty command"@,
                false,
                "Report this hpc-sync command-construction defect."@,
            ),
        },
{
    if command.len() == 0 {
        return Err(
            AppError::new(
                "command_empty",
                "cannot execute an empty command".to_owned(),
                false,
                "Report this hpc-sync command-construction defect.",
            ),
        );
    }
    Ok(&command[0])
}

/// The error for a program that does not start.
pub fn spawn_error(program: &str, cause: &str) -> (r: AppError)
    ensures
        r@ == error::plain_error(
            "command_spawn_failed"@,
            "cannot start "@ + program@ + ": "@ + cause@,
            false,
            "Check that required binaries are installed and executable."@,
        ),
{
    AppError::new(
        "command_spawn_failed",
        text::cat4("cannot start ", program, ": ", cause),
        false,
        "Check that required binaries are installed and executable.",
    )
}

/// The error for a program that cannot be waited for.
pub fn wait_error(program: &str, cause: &str) -> (r: AppError)
    ensures
        r@ == error::plain_error(
            "command_wait_failed"@,
            "cannot wait for "@ + program@ + ": "@ + cause@,
            true,
            "Inspect the host process state and retry once safe."@,
        ),
{
    AppError::new(
        "command_wait_failed",
        text::cat4("cannot wait for ", program, ": ", cause),
        true,
        "Inspect the host process state and retry once safe.",
    )
}

/// The error for output files that cannot be read or written.
pub fn read_error(p: &FilePath, cause: &str) -> (r: AppError)
    ensures
        r@ == error::plain_error(
            "command_output_failed"@,
            "cannot access command output "@ + path::lossy(p@) + ": "@ + cause@,
            false,
            "Check state directory permissions and free disk space."@,
        ),
{
    AppError::new(
        "command_output_failed",
        text::cat4("cannot access command output ", &p.display(), ": ", cause),
        false,
        "Check state directory permissions and free disk space.",
    )
}

/// What a look at a running program shows.
#[derive(Debug, Clone, Copy)]
pub enum Poll {
    /// It still runs.
    Running,
    /// It ended with a code, or without one where a signal ended it.
    Ended(Option<i32>),
}

/// What to do after a look at a running program.
#[derive(Debug, Clone, Copy)]
pub enum WaitStep {
    /// Look again after a short while.
    Sleep,
    /// End the program and take the code of a timeout.
    Kill(i32),
    /// Take this exit code.
    Take(i32),
}

/// What follows from a look at a program.
pub open spec fn waited(poll: Poll, past_deadline: bool) -> WaitStep {
    match poll {
        Poll::Ended(Some(code)) => WaitStep::Take(code),
        Poll::Ended(None) => WaitStep::Take(128),
        Poll::Running => if past_deadline {
            WaitStep::Kill(30)
        } else {
            WaitStep::Sleep
        },
    }
}

/// Decides what to do after a look at a program. One that has ended is never killed.
pub fn wait_step(poll: Poll, past_deadline: bool) -> (r: WaitStep)
    ensures
        r == waited(poll, past_deadline),
{
    match poll {
        Poll::Ended(Some(code)) => WaitStep::Take(code),
        Poll::Ended(None) => WaitStep::Take(128),
        Poll::Running => if past_deadline {
            WaitStep::Kill(30)
        } else {
            WaitStep::Sleep
        },
    }
}

/// The diagnostics of a command: those of one that ended with the code of a timeout say so.
pub open spec fn noted_stderr(exit_code: i32, stderr: Seq<char>) -> Seq<char> {
    if exit_code == 30 && !text::has_part(stderr, "hpc-sync timeout"@) {
        stderr + "\nhpc-sync timeout\n"@
    } else {
        stderr
    }
}

/// The output of a command, and whether its diagnostics have to be written anew.
pub fn collect_output(exit_code: i32, stdout: String, stderr: String) -> (r: (CommandOutput, bool))
    ensures
        r.0@ == (OutputView {
            exit_code,
            stdout: stdout@,
            stderr: noted_stderr(exit_code, stderr@),
        }),
        r.1 == (exit_code == 30 && !text::has_part(stderr@, "hpc-sync timeout"@)),
{
    if exit_code == 30 && !text::contains(&stderr, "hpc-sync timeout") {
        let noted: String = text::cat2(&stderr, "\nhpc-sync timeout\n");
        (CommandOutput { exit_code, stdout, stderr: noted }, true)
    } else {
        (CommandOutput { exit_code, stdout, stderr }, false)
    }
}

// ---------------------------------------------------------------------------
// Itemized changes
// ---------------------------------------------------------------------------
/// Whether a line of `rsync` output names a change: its first character is one of `<>ch.*`.
pub open spec fn is_item(line: Seq<char>) -> bool {
    line.len() > 0 && (line[0] == '<' || line[0] == '>' || line[0] == 'c' || line[0] == 'h'
        || line[0] == '.' || line[0] == '*')
}

/// The number of lines that name a change.
pub open spec fn items_among(list: Seq<Seq<char>>) -> nat
    decreases list.len(),
{
    if list.len() == 0 {
        0
    } else {
        items_among(list.drop_last()) + if is_item(list.last()) {
            1nat
        } else {
            0nat
        }
    }
}

/// The number of changes that the output of `rsync` names.
pub open spec fn item_count(output: Seq<char>) -> nat {
    items_among(lines::lines(output))
}

/// Counts the changes that the output of `rsync` names.
pub fn count_itemized_changes(output: &str) -> (r: usize)
    ensures
        r == item_count(output@),
{
    let list: Vec<String> = lines::lines_of(output);
    let ghost all = text::texts(list@);
    let mut count: usize = 0;
    let mut i: usize = 0;
    while i < list.len()
        invariant
            i <= list@.len(),
            count <= i,
            all == text::texts(list@),
            count == items_among(all.take(i as int)),
        decreases list@.len() - i,
    {
        proof {
            assert(all.take(i as int + 1).drop_last() =~= all.take(i as int));
            assert(all[i as int] == list@[i as int]@);
        }
        let chars: Vec<char> = text::chars_of(&list[i]);
        if chars.len() > 0 && (chars[0] == '<' || chars[0] == '>' || chars[0] == 'c' || chars[0]
            == 'h' || chars[0] == '.' || chars[0] == '*') {
            count = count + 1;
        }
        i = i + 1;
    }
    proof {
        assert(all.take(all.len() as int) =~= all);
    }
    count
}

// ---------------------------------------------------------------------------
// Fingerprints
// ---------------------------------------------------------------------------
/// The SHA-256 digest of a sequence of bytes.
pub uninterp spec fn sha256(data: Seq<u8>) -> Seq<u8>;

/// Calls `sha2::Sha256::digest`. The digest has 32 bytes and depends on the data alone; which
/// bytes it has is only named.
#[verifier::external_body]
fn digest(data: &[u8]) -> (r: Vec<u8>)
    ensures
        r@ == sha256(data@),
        r@.len() == 32,
{
    sha2::Sha256::digest(data).to_vec()
}

/// The bytes of a number, the lowest first.
pub open spec fn le_bytes(n: nat, width: nat) -> Seq<u8>
    decreases width,
{
    if width == 0 {
        Seq::empty()
    } else {
        seq![(n % 256) as u8] + le_bytes(n / 256, (width - 1) as nat)
    }
}

/// The number of bytes in which the host holds a length.
pub open spec fn length_width() -> nat {
    (usize::BITS / 8) as nat
}

/// One part with its length before it.
pub open spec fn framed(part: Seq<char>) -> Seq<u8> {
    let bytes = vstd::utf8::encode_utf8(part);
    le_bytes(bytes.len(), length_width()) + bytes
}

/// Parts, each with its length before it, one after the other.
pub open spec fn frame(parts: Seq<Seq<char>>) -> Seq<u8>
    decreases parts.len(),
{
    if parts.len() == 0 {
        Seq::empty()
    } else {
        frame(parts.drop_last()) + framed(parts.last())
    }
}

/// A hexadecimal digit.
pub open spec fn hex_digit(d: int) -> char {
    if d < 10 {
        (('0' as int) + d) as char
    } else {
        (('a' as int) + d - 10) as char
    }
}

/// Bytes as lower-case hexadecimal digits, two for each byte.
pub open spec fn hex(bytes: Seq<u8>) -> Seq<char>
    decreases bytes.len(),
{
    if bytes.len() == 0 {
        Seq::empty()
    } else {
        hex(bytes.drop_last()).push(hex_digit(bytes.last() as int / 16)).push(
            hex_digit(bytes.last() as int % 16),
        )
    }
}

/// The contents of a list of string slices.
pub open spec fn slices(parts: Seq<&str>) -> Seq<Seq<char>> {
    parts.map_values(|s: &str| s@)
}

/// The fingerprint of a list of parts.
pub open spec fn fingerprint(parts: Seq<Seq<char>>) -> Seq<char> {
    hex(sha256(frame(parts)))
}

/// Appends the bytes of a length.
fn push_length(out: &mut Vec<u8>, n: usize)
    ensures
        final(out)@ == old(out)@ + le_bytes(n as nat, length_width()),
{
    let width: usize = (usize::BITS / 8) as usize;
    let ghost before = out@;
    let ghost whole = le_bytes(n as nat, length_width());
    let mut rest: usize = n;
    let mut i: usize = 0;
    proof {
        assert(before + whole =~= out@ + le_bytes(rest as nat, (width - i) as nat));
    }
    while i < width
        invariant
            i <= width,
            before + whole == out@ + le_bytes(rest as nat, (width - i) as nat),
        decreases width - i,
    {
        let low: u8 = (rest % 256) as u8;
        proof {
            let tail = le_bytes((rest / 256) as nat, (width - i - 1) as nat);
            assert(out@ + (seq![low] + tail) =~= out@.push(low) + tail);
        }
        out.push(low);
        rest = rest / 256;
        i = i + 1;
    }
    proof {
        assert(out@ + Seq::<u8>::empty() =~= out@);
    }
}

/// Writes one hexadecimal digit.
fn hex_char(d: u8) -> (r: char)
    requires
        d < 16,
    ensures
        r == hex_digit(d as int),
{
    if d < 10 {
        (48 + d) as char
    } else {
        (87 + d) as char
    }
}

/// Writes bytes as lower-case hexadecimal digits.
fn hex_text(bytes: &Vec<u8>) -> (r: String)
    ensures
        r@ == hex(bytes@),
{
    let mut out: String = String::new();
    let mut i: usize = 0;
    while i < bytes.len()
        invariant
            i <= bytes@.len(),
            out@ == hex(bytes@.take(i as int)),
        decreases bytes@.len() - i,
    {
        proof {
            assert(bytes@.take(i as int + 1).drop_last() =~= bytes@.take(i as int));
        }
        out.push(hex_char(bytes[i] / 16));
        out.push(hex_char(bytes[i] % 16));
        i = i + 1;
    }
    proof {
        assert(bytes@.take(bytes@.len() as int) =~= bytes@);
    }
    out
}

/// Whether a text has the shape of a fingerprint: 64 hexadecimal digits, the letters small.
pub open spec fn is_fingerprint(s: Seq<char>) -> bool {
    s.len() == 64 && forall|i: int| 0 <= i < 64 ==> super::rsync::is_hex_digit(#[trigger] s[i])
}

/// The fingerprint of a list of parts: the SHA-256 digest, in hexadecimal digits, of the parts
/// with the length of each before it.
pub fn stable_hash(parts: &[&str]) -> (r: String)
    ensures
        r@ == fingerprint(slices(parts@)),
        is_fingerprint(r@),
{
    let mut data: Vec<u8> = Vec::new();
    let mut i: usize = 0;
    while i < parts.len()
        invariant
            i <= parts@.len(),
            data@ == frame(slices(parts@).take(i as int)),
        decreases parts@.len() - i,
    {
        let part: &str = parts[i];
        proof {
            let all = slices(parts@);
            assert(all.take(i as int + 1).drop_last() =~= all.take(i as int));
            assert(all[i as int] == part@);
        }
        let ghost before = data@;
        let mut bytes: Vec<u8> = part.as_bytes_vec();
        push_length(&mut data, bytes.len());
        data.append(&mut bytes);
        proof {
            assert(data@ =~= before + framed(part@));
        }
        i = i + 1;
    }
    proof {
        assert(slices(parts@).take(parts@.len() as int) =~= slices(parts@));
    }
    let bytes: Vec<u8> = digest(data.as_slice());
    proof {
        lemma_hex(bytes@);
    }
    hex_text(&bytes)
}

/// Hexadecimal text has two digits for each byte.
pub proof fn lemma_hex(bytes: Seq<u8>)
    ensures
        hex(bytes).len() == 2 * bytes.len(),
        forall|i: int|
            0 <= i < hex(bytes).len() ==> super::rsync::is_hex_digit(#[trigger] hex(bytes)[i]),
    decreases bytes.len(),
{
    if bytes.len() > 0 {
        lemma_hex(bytes.drop_last());
    }
}

/// A power of 256.
spec fn power(width: nat) -> nat
    decreases width,
{
    if width == 0 {
        1
    } else {
        256 * power((width - 1) as nat)
    }
}

proof fn lemma_le_bytes_len(n: nat, width: nat)
    ensures
        le_bytes(n, width).len() == width,
    decreases width,
{
    if width > 0 {
        lemma_le_bytes_len(n / 256, (width - 1) as nat);
    }
}

/// The bytes of a number fix it.
proof fn lemma_le_bytes_injective(a: nat, b: nat, width: nat)
    requires
        a < power(width),
        b < power(width),
        le_bytes(a, width) == le_bytes(b, width),
    ensures
        a == b,
    decreases width,
{
    if width > 0 {
        let x = le_bytes(a, width);
        let y = le_bytes(b, width);
        let less = (width - 1) as nat;
        assert(x[0] == y[0]);
        assert(a % 256 == b % 256);
        assert(le_bytes(a / 256, less) =~= x.drop_first());
        assert(le_bytes(b / 256, less) =~= y.drop_first());
        lemma_le_bytes_injective(a / 256, b / 256, less);
    }
}

/// A frame, read from its front.
proof fn lemma_frame_front(parts: Seq<Seq<char>>)
    requires
        parts.len() > 0,
    ensures
        frame(parts) == framed(parts[0]) + frame(parts.drop_first()),
    decreases parts.len(),
{
    if parts.len() == 1 {
        assert(parts.drop_last() =~= Seq::<Seq<char>>::empty());
        assert(parts.drop_first() =~= Seq::<Seq<char>>::empty());
        assert(frame(parts) =~= framed(parts[0]) + frame(parts.drop_first()));
    } else {
        let front = parts.drop_last();
        lemma_frame_front(front);
        assert(front.drop_first() =~= parts.drop_first().drop_last());
        assert(frame(parts) =~= framed(parts[0]) + frame(parts.drop_first()));
    }
}

/// What is hashed is unambiguous: two lists of parts that a host can hold have the same frame only
/// where they are the same list.
pub proof fn law_frames_are_unambiguous(a: Seq<Seq<char>>, b: Seq<Seq<char>>)
    requires
        frame(a) == frame(b),
        forall|i: int|
            0 <= i < a.len() ==> vstd::utf8::encode_utf8(#[trigger] a[i]).len() <= usize::MAX,
        forall|i: int|
            0 <= i < b.len() ==> vstd::utf8::encode_utf8(#[trigger] b[i]).len() <= usize::MAX,
    ensures
        a == b,
    decreases a.len(),
{
    let width = length_width();
    if a.len() > 0 {
        lemma_frame_front(a);
        lemma_le_bytes_len(vstd::utf8::encode_utf8(a[0]).len(), width);
    }
    if b.len() > 0 {
        lemma_frame_front(b);
        lemma_le_bytes_len(vstd::utf8::encode_utf8(b[0]).len(), width);
    }
    if a.len() == 0 || b.len() == 0 {
        assert(frame(a).len() == 0 || frame(b).len() == 0);
        assert(a =~= b);
    } else {
        let whole = frame(a);
        let x = vstd::utf8::encode_utf8(a[0]);
        let y = vstd::utf8::encode_utf8(b[0]);
        let w = width as int;
        assert(le_bytes(x.len(), width) =~= whole.take(w));
        assert(le_bytes(y.len(), width) =~= whole.take(w));
        reveal_with_fuel(power, 9);
        lemma_le_bytes_injective(x.len(), y.len(), width);
        assert(x =~= whole.subrange(w, w + x.len()));
        assert(y =~= whole.subrange(w, w + y.len()));
        vstd::utf8::encode_utf8_decode_utf8(a[0]);
        vstd::utf8::encode_utf8_decode_utf8(b[0]);
        assert(a[0] == b[0]);
        let rest_a = a.drop_first();
        let rest_b = b.drop_first();
        assert(frame(rest_a) =~= whole.skip(w + x.len()));
        assert(frame(rest_b) =~= whole.skip(w + y.len()));
        assert forall|i: int| 0 <= i < rest_a.len() implies vstd::utf8::encode_utf8(
            #[trigger] rest_a[i],
        ).len() <= usize::MAX by {
            assert(rest_a[i] == a[i + 1]);
        }
        assert forall|i: int| 0 <= i < rest_b.len() implies vstd::utf8::encode_utf8(
            #[trigger] rest_b[i],
        ).len() <= usize::MAX by {
            assert(rest_b[i] == b[i + 1]);
        }
        law_frames_are_unambiguous(rest_a, rest_b);
        assert(a =~= seq![a[0]] + rest_a);
        assert(b =~= seq![b[0]] + rest_b);
    }
}

/// The changes that are counted are the lines whose first character is one of those with which
/// `rsync` names a change; messages and deletions of other forms are not.
pub proof fn law_changes_are_counted(output: Seq<char>)
    ensures
        item_count(output) == lines::lines(output).filter(
            |line: Seq<char>| line.len() > 0 && seq!['<', '>', 'c', 'h', '.', '*'].contains(line[0]),
        ).len(),
{
    lemma_items_among(lines::lines(output));
}

proof fn lemma_items_among(list: Seq<Seq<char>>)
    ensures
        items_among(list) == list.filter(
            |line: Seq<char>| line.len() > 0 && seq!['<', '>', 'c', 'h', '.', '*'].contains(line[0]),
        ).len(),
    decreases list.len(),
{
    reveal(Seq::filter);
    if list.len() > 0 {
        lemma_items_among(list.drop_last());
        let line = list.last();
        let marks = seq!['<', '>', 'c', 'h', '.', '*'];
        assert(marks[0] == '<' && marks[1] == '>' && marks[2] == 'c' && marks[3] == 'h' && marks[4]
            == '.' && marks[5] == '*');
        if line.len() > 0 && marks.contains(line[0]) {
            let k = choose|k: int| 0 <= k < marks.len() && marks[k] == line[0];
            assert(k == 0 || k == 1 || k == 2 || k == 3 || k == 4 || k == 5);
        }
    }
}

/// The output of a transfer without changes counts none: lines of other forms do not count, however
/// many there are.
pub proof fn law_other_lines_are_not_counted(output: Seq<char>)
    requires
        forall|i: int|
            0 <= i < lines::lines(output).len() ==> {
                let line = #[trigger] lines::lines(output)[i];
                line.len() == 0 || !seq!['<', '>', 'c', 'h', '.', '*'].contains(line[0])
            },
    ensures
        item_count(output) == 0,
{
    law_changes_are_counted(output);
    let list = lines::lines(output);
    let marked = |line: Seq<char>|
        line.len() > 0 && seq!['<', '>', 'c', 'h', '.', '*'].contains(line[0]);
    if list.filter(marked).len() > 0 {
        list.lemma_filter_contains_rev(marked, list.filter(marked)[0]);
        list.filter_lemma(marked);
        let k = choose|k: int| 0 <= k < list.len() && list[k] == list.filter(marked)[0];
        assert(marked(list.filter(marked)[0]));
        assert(marked(list[k]));
    }
}

/// The diagnostics of a command that was killed say so, behind what the command wrote itself; those
/// of any other command stay as they are.
pub proof fn law_timeouts_are_noted(exit_code: i32, stderr: Seq<char>)
    ensures
        exit_code != 30 ==> noted_stderr(exit_code, stderr) == stderr,
        stderr.is_prefix_of(noted_stderr(exit_code, stderr)),
        exit_code == 30 ==> text::has_part(noted_stderr(exit_code, stderr), "hpc-sync timeout"@),
        text::has_part(stderr, "hpc-sync timeout"@) ==> noted_stderr(exit_code, stderr) == stderr,
{
    let note = "\nhpc-sync timeout\n"@;
    let part = "hpc-sync timeout"@;
    reveal_strlit("\nhpc-sync timeout\n");
    reveal_strlit("hpc-sync timeout");
    let noted = stderr + note;
    let at = stderr.len() as int + 1;
    assert(noted.subrange(at, at + part.len()) =~= part);
    assert(text::occurs_at(noted, part, at));
    assert(stderr =~= noted.take(stderr.len() as int));
}

/// A program that ended is taken at its exit code, one that a signal ended at a code of its own; one
/// that still runs is killed only after its deadline.
pub proof fn law_programs_are_waited_for(poll: Poll, past_deadline: bool)
    ensures
        poll matches Poll::Ended(Some(code)) ==> waited(poll, past_deadline) == WaitStep::Take(
            code,
        ),
        poll matches Poll::Ended(None) ==> waited(poll, past_deadline) == WaitStep::Take(128),
        poll is Running && past_deadline ==> waited(poll, past_deadline) == WaitStep::Kill(30),
        poll is Running && !past_deadline ==> waited(poll, past_deadline) is Sleep,
{
}

} // verus!
