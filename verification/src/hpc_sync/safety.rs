//! What holds of every command line of the backup tool.
use super::{config, rsync};
use crate::{number, path, text};
use vstd::prelude::*;

verus! {

// ---------------------------------------------------------------------------
// How a shell splits a line into words
// ---------------------------------------------------------------------------
/// Whether a shell reads inside quotes, and inside which.
pub enum Quoting {
    Bare,
    Single,
    Double,
}

/// What a shell has read of a line. A character that asks for more than splitting (an expansion,
/// an escape, a separator of commands) clears `understood`.
#[verifier::ext_equal]
pub struct ShellState {
    pub words: Seq<Seq<char>>,
    pub word: Option<Seq<char>>,
    pub quoting: Quoting,
    pub understood: bool,
}

/// The word that is being read.
pub open spec fn current_word(st: ShellState) -> Seq<char> {
    match st.word {
        Some(w) => w,
        None => Seq::empty(),
    }
}

/// A state with one more character in its word.
pub open spec fn with_char(st: ShellState, c: char) -> ShellState {
    ShellState { word: Some(current_word(st).push(c)), ..st }
}

/// A state inside or outside quotes, with a word begun.
pub open spec fn with_quoting(st: ShellState, quoting: Quoting) -> ShellState {
    ShellState { word: Some(current_word(st)), quoting, ..st }
}

/// Reads one character of a line.
pub open spec fn shell_step(st: ShellState, c: char) -> ShellState {
    match st.quoting {
        Quoting::Bare => if c == ' ' {
            ShellState {
                words: match st.word {
                    Some(w) => st.words.push(w),
                    None => st.words,
                },
                word: None,
                ..st
            }
        } else if c == '\'' {
            with_quoting(st, Quoting::Single)
        } else if c == '"' {
            with_quoting(st, Quoting::Double)
        } else if rsync::is_plain(c) {
            with_char(st, c)
        } else {
            ShellState { understood: false, ..st }
        },
        Quoting::Single => if c == '\'' {
            with_quoting(st, Quoting::Bare)
        } else {
            with_char(st, c)
        },
        Quoting::Double => if c == '"' {
            with_quoting(st, Quoting::Bare)
        } else if c == '$' || c == '`' || c == '\\' {
            ShellState { understood: false, ..st }
        } else {
            with_char(st, c)
        },
    }
}

/// Reads a line, or a part of one.
pub open spec fn shell_read(st: ShellState, s: Seq<char>) -> ShellState
    decreases s.len(),
{
    if s.len() == 0 {
        st
    } else {
        shell_step(shell_read(st, s.drop_last()), s.last())
    }
}

/// The state before the first character.
pub open spec fn shell_start() -> ShellState {
    ShellState { words: Seq::empty(), word: None, quoting: Quoting::Bare, understood: true }
}

/// The words that a shell reads in a line, where it reads nothing but words.
pub open spec fn shell_words(s: Seq<char>) -> Option<Seq<Seq<char>>> {
    let st = shell_read(shell_start(), s);
    if st.understood && st.quoting is Bare {
        Some(
            match st.word {
                Some(w) => st.words.push(w),
                None => st.words,
            },
        )
    } else {
        None
    }
}

proof fn lemma_read_push(st: ShellState, s: Seq<char>, c: char)
    ensures
        shell_read(st, s.push(c)) == shell_step(shell_read(st, s), c),
{
    assert(s.push(c).drop_last() =~= s);
}

proof fn lemma_read_concat(st: ShellState, a: Seq<char>, b: Seq<char>)
    ensures
        shell_read(st, a + b) == shell_read(shell_read(st, a), b),
    decreases b.len(),
{
    if b.len() == 0 {
        assert(a + b =~= a);
    } else {
        lemma_read_concat(st, a, b.drop_last());
        assert((a + b).drop_last() =~= a + b.drop_last());
    }
}

/// A plain text is read as it stands.
proof fn lemma_read_plain(st: ShellState, s: Seq<char>)
    requires
        st.quoting is Bare,
        rsync::is_plain_text(s),
        s.len() > 0,
    ensures
        shell_read(st, s) == (ShellState { word: Some(current_word(st) + s), ..st }),
    decreases s.len(),
{
    let front = s.drop_last();
    assert(rsync::is_plain(s.last()));
    if front.len() > 0 {
        assert forall|i: int| 0 <= i < front.len() implies rsync::is_plain(#[trigger] front[i]) by {
            assert(front[i] == s[i]);
        }
        lemma_read_plain(st, front);
        assert((current_word(st) + front).push(s.last()) =~= current_word(st) + s);
    } else {
        assert(shell_read(st, front) == st);
        assert(current_word(st).push(s.last()) =~= current_word(st) + s);
    }
}

/// Inside single quotes a text with its single quotes replaced is read as the text.
proof fn lemma_read_quoted_body(st: ShellState, s: Seq<char>)
    requires
        st.quoting is Single,
        st.word is Some,
    ensures
        shell_read(st, text::replaced(s, '\'', "'\"'\"'"@)) == (ShellState {
            word: Some(current_word(st) + s),
            ..st
        }),
    decreases s.len(),
{
    let to = "'\"'\"'"@;
    if s.len() == 0 {
        assert(current_word(st) + s =~= current_word(st));
    } else {
        let front = s.drop_last();
        let done = text::replaced(front, '\'', to);
        lemma_read_quoted_body(st, front);
        let mid = shell_read(st, done);
        if s.last() == '\'' {
            reveal_strlit("'\"'\"'");
            let e = Seq::<char>::empty();
            assert(to =~= e.push('\'').push('"').push('\'').push('"').push('\''));
            lemma_read_push(mid, e, '\'');
            lemma_read_push(mid, e.push('\''), '"');
            lemma_read_push(mid, e.push('\'').push('"'), '\'');
            lemma_read_push(mid, e.push('\'').push('"').push('\''), '"');
            lemma_read_push(mid, e.push('\'').push('"').push('\'').push('"'), '\'');
            lemma_read_concat(st, done, to);
            assert((current_word(st) + front).push('\'') =~= current_word(st) + s);
        } else {
            lemma_read_push(st, done, s.last());
            assert((current_word(st) + front).push(s.last()) =~= current_word(st) + s);
        }
    }
}

/// A quoted text is read as the text.
proof fn lemma_read_quoted(st: ShellState, s: Seq<char>)
    requires
        st.quoting is Bare,
        s.len() > 0,
    ensures
        shell_read(st, rsync::quoted(s)) == (ShellState { word: Some(current_word(st) + s), ..st }),
{
    if rsync::is_plain_text(s) {
        lemma_read_plain(st, s);
    } else {
        reveal_strlit("'");
        let body = text::replaced(s, '\'', "'\"'\"'"@);
        let e = Seq::<char>::empty();
        assert("'"@ =~= e.push('\''));
        lemma_read_push(st, e, '\'');
        let opened = shell_read(st, "'"@);
        lemma_read_quoted_body(opened, s);
        lemma_read_concat(st, "'"@, body);
        assert("'"@ + body + "'"@ =~= ("'"@ + body).push('\''));
        lemma_read_push(st, "'"@ + body, '\'');
    }
}

/// A line of quoted words is read word by word.
proof fn lemma_read_line(words: Seq<Seq<char>>)
    requires
        words.len() > 0,
        forall|i: int| 0 <= i < words.len() ==> (#[trigger] words[i]).len() > 0,
    ensures
        shell_read(shell_start(), rsync::shell_line(words)) == (ShellState {
            words: words.drop_last(),
            word: Some(words.last()),
            ..shell_start()
        }),
    decreases words.len(),
{
    let quotes = words.map_values(|w: Seq<char>| rsync::quoted(w));
    let last = words.last();
    assert(last.len() > 0);
    if words.len() == 1 {
        lemma_read_quoted(shell_start(), last);
        assert(quotes[0] == rsync::quoted(last));
        assert(Seq::<char>::empty() + last =~= last);
        assert(words.drop_last() =~= Seq::<Seq<char>>::empty());
    } else {
        let front = words.drop_last();
        assert forall|i: int| 0 <= i < front.len() implies (#[trigger] front[i]).len() > 0 by {
            assert(front[i] == words[i]);
        }
        lemma_read_line(front);
        assert(quotes.drop_last() =~= front.map_values(|w: Seq<char>| rsync::quoted(w)));
        reveal_strlit(" ");
        let begun = rsync::shell_line(front);
        assert(" "@ =~= Seq::<char>::empty().push(' '));
        assert(begun + " "@ =~= begun.push(' '));
        lemma_read_push(shell_start(), begun, ' ');
        let st = shell_read(shell_start(), begun + " "@);
        assert(front.drop_last().push(front.last()) =~= front);
        lemma_read_quoted(st, last);
        assert(Seq::<char>::empty() + last =~= last);
        lemma_read_concat(shell_start(), begun + " "@, rsync::quoted(last));
        assert(quotes.last() == rsync::quoted(last));
    }
}

/// Quoting is faithful: a shell splits a line of quoted, non-empty words into those words, and
/// takes nothing in them for anything else.
pub proof fn law_quoting_is_faithful(words: Seq<Seq<char>>)
    requires
        words.len() > 0,
        forall|i: int| 0 <= i < words.len() ==> (#[trigger] words[i]).len() > 0,
    ensures
        shell_words(rsync::shell_line(words)) == Some(words),
{
    lemma_read_line(words);
    assert(words.drop_last().push(words.last()) =~= words);
}

// ---------------------------------------------------------------------------
// The remote shell
// ---------------------------------------------------------------------------
/// The text of an absolute path starts with the separator.
pub proof fn lemma_absolute_text(p: Seq<u8>)
    requires
        vstd::utf8::valid_utf8(p),
        path::is_absolute(p),
    ensures
        vstd::utf8::decode_utf8(p).len() > 0,
        vstd::utf8::decode_utf8(p)[0] == '/',
{
    assert(47u8 & 0x7f == 47u8) by (bit_vector);
    assert(47u8 & 0x80 == 0u8) by (bit_vector);
    assert(vstd::utf8::decode_first_scalar(p) == 47);
}

/// In the remote shell of an accepted job, the key is the configured one, the host keys are the
/// pinned ones, and neither an unknown host nor a password is ever asked about.
pub proof fn law_remote_shell_is_strict(job: config::JobView)
    requires
        config::job_fault(job) is None,
    ensures
        shell_words(rsync::remote_shell(job.ssh)) == Some(rsync::ssh_words(job.ssh)),
        rsync::ssh_words(job.ssh)[0] == "ssh"@,
        rsync::ssh_words(job.ssh)[3] == "-i"@,
        rsync::ssh_words(job.ssh)[4] == vstd::utf8::decode_utf8(job.ssh.identity_file),
        rsync::ssh_words(job.ssh)[6] == "BatchMode=yes"@,
        rsync::ssh_words(job.ssh)[8] == "StrictHostKeyChecking=yes"@,
        rsync::ssh_words(job.ssh)[10] == "UserKnownHostsFile="@ + vstd::utf8::decode_utf8(
            job.ssh.known_hosts_file,
        ),
        rsync::ssh_words(job.ssh)[16] == "IdentitiesOnly=yes"@,
        rsync::ssh_words(job.ssh)[18] == "PasswordAuthentication=no"@,
        rsync::ssh_words(job.ssh)[20] == "KbdInteractiveAuthentication=no"@,
        forall|i: int|
            5 <= i < rsync::ssh_words(job.ssh).len() && i % 2 == 1 ==> #[trigger] rsync::ssh_words(
                job.ssh,
            )[i] == "-o"@,
{
    lemma_ssh_words_not_empty(job);
    law_quoting_is_faithful(rsync::ssh_words(job.ssh));
}

proof fn lemma_ssh_words_not_empty(job: config::JobView)
    requires
        config::job_fault(job) is None,
    ensures
        forall|i: int|
            0 <= i < rsync::ssh_words(job.ssh).len() ==> (#[trigger] rsync::ssh_words(
                job.ssh,
            )[i]).len() > 0,
{
    lemma_absolute_text(job.ssh.identity_file);
    number::lemma_decimal_digits(job.ssh.port as nat);
    reveal_strlit("ssh");
    reveal_strlit("-p");
    reveal_strlit("-i");
    reveal_strlit("-o");
    reveal_strlit("BatchMode=yes");
    reveal_strlit("StrictHostKeyChecking=yes");
    reveal_strlit("UserKnownHostsFile=");
    reveal_strlit("KnownHostsCommand=none");
    reveal_strlit("ProxyCommand=none");
    reveal_strlit("IdentitiesOnly=yes");
    reveal_strlit("PasswordAuthentication=no");
    reveal_strlit("KbdInteractiveAuthentication=no");
    reveal_strlit("ConnectTimeout=");
    reveal_strlit("ServerAliveInterval=30");
    reveal_strlit("ServerAliveCountMax=3");
}

// ---------------------------------------------------------------------------
// Snapshots
// ---------------------------------------------------------------------------
/// Each run has its own snapshot: different run ids never share a place at the receiver.
pub proof fn law_snapshots_are_distinct(job: config::JobView, a: Seq<char>, b: Seq<char>)
    requires
        rsync::is_run_id(a),
        rsync::is_run_id(b),
        rsync::snapshot(job, a) == rsync::snapshot(job, b),
    ensures
        a == b,
{
    let front = rsync::bare_dir(job.destination_root) + "/snapshots/"@;
    let n = front.len() as int;
    let sa = rsync::snapshot(job, a);
    let sb = rsync::snapshot(job, b);
    assert forall|i: int| 0 <= i < 25 implies a[i] == b[i] by {
        assert(sa[n + i] == a[i]);
        assert(sb[n + i] == b[i]);
    }
    assert(a =~= b);
}

/// For an accepted job a transfer can be built for every run id, with any earlier run as its
/// baseline; so can a comparison.
pub proof fn law_accepted_jobs_have_commands(
    job: config::JobView,
    run_id: Seq<char>,
    previous: Option<Seq<char>>,
)
    requires
        config::job_fault(job) is None,
        rsync::is_run_id(run_id),
        previous matches Some(p) ==> rsync::is_run_id(p),
    ensures
        rsync::transfer_fault(job, run_id, previous) is None,
        rsync::endpoints_fault(job, run_id) is None,
        rsync::snapshot_fault(job, run_id) is None,
{
}

// ---------------------------------------------------------------------------
// No deletion
// ---------------------------------------------------------------------------
/// The options of `rsync` that delete files or write into existing ones, and those that the
/// restricted receiver does not take.
pub open spec fn is_forbidden(argument: Seq<char>) -> bool {
    ||| argument == "--del"@
    ||| "--delete"@.is_prefix_of(argument)
    ||| "--remove"@.is_prefix_of(argument)
    ||| "--inplace"@.is_prefix_of(argument)
    ||| "--protect-args"@.is_prefix_of(argument)
    ||| argument == "-s"@
    ||| "--mkpath"@.is_prefix_of(argument)
}

/// Whether no argument of a list is forbidden.
pub open spec fn is_gentle(list: Seq<Seq<char>>) -> bool {
    forall|i: int| 0 <= i < list.len() ==> !is_forbidden(#[trigger] list[i])
}

/// A forbidden option starts with one of these.
proof fn lemma_forbidden_shape(argument: Seq<char>)
    requires
        is_forbidden(argument),
    ensures
        argument.len() >= 2,
        argument[0] == '-',
        argument[1] == 's' ==> argument.len() == 2,
        argument[1] != 's' ==> {
            &&& argument.len() >= 5
            &&& argument[1] == '-'
            &&& {
                ||| argument[2] == 'd' && argument[3] == 'e' && argument[4] == 'l' && (
                argument.len() == 5 || argument.len() >= 8 && argument[5] == 'e')
                ||| argument[2] == 'r' && argument[3] == 'e'
                ||| argument[2] == 'i' && argument[3] == 'n'
                ||| argument[2] == 'p' && argument[3] == 'r'
                ||| argument[2] == 'm' && argument[3] == 'k'
            }
        },
{
    reveal_strlit("--del");
    reveal_strlit("--delete");
    reveal_strlit("--remove");
    reveal_strlit("--inplace");
    reveal_strlit("--protect-args");
    reveal_strlit("-s");
    reveal_strlit("--mkpath");
    if "--delete"@.is_prefix_of(argument) {
        assert(argument.take(8) == "--delete"@);
        assert(forall|i: int| 0 <= i < 8 ==> argument[i] == argument.take(8)[i]);
    }
    if "--remove"@.is_prefix_of(argument) {
        assert(forall|i: int| 0 <= i < 8 ==> argument[i] == "--remove"@[i]);
    }
    if "--inplace"@.is_prefix_of(argument) {
        assert(forall|i: int| 0 <= i < 9 ==> argument[i] == "--inplace"@[i]);
    }
    if "--protect-args"@.is_prefix_of(argument) {
        assert(forall|i: int| 0 <= i < 14 ==> argument[i] == "--protect-args"@[i]);
    }
    if "--mkpath"@.is_prefix_of(argument) {
        assert(forall|i: int| 0 <= i < 8 ==> argument[i] == "--mkpath"@[i]);
    }
}

proof fn lemma_gentle_push(list: Seq<Seq<char>>, item: Seq<char>)
    requires
        is_gentle(list),
        !is_forbidden(item),
    ensures
        is_gentle(list.push(item)),
{
}

proof fn lemma_fixed_options()
    ensures
        !is_forbidden("rsync"@),
        !is_forbidden("--archive"@),
        !is_forbidden("--no-owner"@),
        !is_forbidden("--no-group"@),
        !is_forbidden("--no-devices"@),
        !is_forbidden("--no-specials"@),
        !is_forbidden("--partial-dir=.rsync-partial"@),
        !is_forbidden("--delay-updates"@),
        !is_forbidden("--itemize-changes"@),
        !is_forbidden("--hard-links"@),
        !is_forbidden("--acls"@),
        !is_forbidden("--xattrs"@),
        !is_forbidden("--dry-run"@),
        !is_forbidden("--info=stats2"@),
        !is_forbidden("--omit-dir-times"@),
        !is_forbidden("--checksum"@),
        !is_forbidden("-e"@),
{
    reveal_strlit("rsync");
    reveal_strlit("--archive");
    reveal_strlit("--no-owner");
    reveal_strlit("--no-group");
    reveal_strlit("--no-devices");
    reveal_strlit("--no-specials");
    reveal_strlit("--partial-dir=.rsync-partial");
    reveal_strlit("--delay-updates");
    reveal_strlit("--itemize-changes");
    reveal_strlit("--hard-links");
    reveal_strlit("--acls");
    reveal_strlit("--xattrs");
    reveal_strlit("--dry-run");
    reveal_strlit("--info=stats2");
    reveal_strlit("--omit-dir-times");
    reveal_strlit("--checksum");
    reveal_strlit("-e");
    lemma_not_forbidden("rsync"@);
    lemma_not_forbidden("--archive"@);
    lemma_not_forbidden("--no-owner"@);
    lemma_not_forbidden("--no-group"@);
    lemma_not_forbidden("--no-devices"@);
    lemma_not_forbidden("--no-specials"@);
    lemma_not_forbidden("--partial-dir=.rsync-partial"@);
    lemma_not_forbidden("--delay-updates"@);
    lemma_not_forbidden("--itemize-changes"@);
    lemma_not_forbidden("--hard-links"@);
    lemma_not_forbidden("--acls"@);
    lemma_not_forbidden("--xattrs"@);
    lemma_not_forbidden("--dry-run"@);
    lemma_info_is_not_inplace();
    lemma_not_forbidden("--omit-dir-times"@);
    lemma_not_forbidden("--checksum"@);
    lemma_not_forbidden("-e"@);
}

/// `--info` and `--inplace` share their first letters only.
proof fn lemma_info_is_not_inplace()
    ensures
        !is_forbidden("--info=stats2"@),
{
    reveal_strlit("--info=stats2");
    reveal_strlit("--inplace");
    let argument = "--info=stats2"@;
    if is_forbidden(argument) {
        lemma_forbidden_shape(argument);
        reveal_strlit("--del");
        reveal_strlit("--delete");
        reveal_strlit("--remove");
        reveal_strlit("--protect-args");
        reveal_strlit("-s");
        reveal_strlit("--mkpath");
        assert("--inplace"@.is_prefix_of(argument) ==> argument[4] == "--inplace"@[4]);
        assert("--delete"@.is_prefix_of(argument) ==> argument[2] == "--delete"@[2]);
        assert("--remove"@.is_prefix_of(argument) ==> argument[2] == "--remove"@[2]);
        assert("--protect-args"@.is_prefix_of(argument) ==> argument[2] == "--protect-args"@[2]);
        assert("--mkpath"@.is_prefix_of(argument) ==> argument[2] == "--mkpath"@[2]);
        assert(false);
    }
}

/// An argument whose first letters fit no forbidden option is none.
proof fn lemma_not_forbidden(argument: Seq<char>)
    requires
        ({
            ||| argument.len() == 0
            ||| argument[0] != '-'
            ||| argument.len() >= 2 && argument[1] != '-' && argument[1] != 's'
            ||| argument.len() >= 6 && argument[1] == '-' && {
                ||| argument[2] == 'd' && (argument[3] != 'e' || argument[5] != 'e')
                ||| argument[2] == 'i' && argument[3] != 'n'
                ||| argument[2] == 'p' && argument[3] != 'r'
                ||| argument[2] != 'd' && argument[2] != 'r' && argument[2] != 'i' && argument[2]
                    != 'p' && argument[2] != 'm'
            }
        }),
    ensures
        !is_forbidden(argument),
{
    if is_forbidden(argument) {
        lemma_forbidden_shape(argument);
    }
}

/// The shared options delete nothing.
proof fn lemma_shared_options_gentle(job: config::JobView)
    ensures
        is_gentle(rsync::shared_options(job)),
{
    lemma_fixed_options();
    let all = rsync::shared_options(job);
    let extra = rsync::exclude_options(job.excludes);
    assert forall|i: int| 0 <= i < extra.len() implies !is_forbidden(#[trigger] extra[i]) by {
        reveal_strlit("--exclude=");
        assert(extra[i] == "--exclude="@ + job.excludes[i]);
        lemma_not_forbidden(extra[i]);
    }
    assert forall|i: int| 0 <= i < all.len() implies !is_forbidden(#[trigger] all[i]) by {
        let n = all.len() - extra.len();
        if i >= n {
            assert(all[i] == extra[i - n]);
        }
    }
}

/// The words of a line of quoted words start as the first word does, where that one is plain.
pub proof fn lemma_remote_shell_starts(ssh: config::SshView)
    ensures
        rsync::remote_shell(ssh).len() > 0,
        rsync::remote_shell(ssh)[0] == 's',
{
    reveal_strlit("ssh");
    let words = rsync::ssh_words(ssh);
    let quotes = words.map_values(|w: Seq<char>| rsync::quoted(w));
    assert(words[0] == "ssh"@);
    assert(rsync::is_plain_text("ssh"@));
    assert(quotes[0] == "ssh"@);
    lemma_joined_starts(quotes, " "@);
    let line = text::joined(quotes, " "@);
    assert(line == rsync::remote_shell(ssh));
    assert(line[0] == line.subrange(0, 3)[0]);
}

/// A joined list starts with its first text.
proof fn lemma_joined_starts(list: Seq<Seq<char>>, sep: Seq<char>)
    requires
        list.len() > 0,
    ensures
        list[0].is_prefix_of(text::joined(list, sep)),
    decreases list.len(),
{
    if list.len() > 1 {
        lemma_joined_starts(list.drop_last(), sep);
        let front = text::joined(list.drop_last(), sep);
        let whole = text::joined(list, sep);
        assert(list.drop_last()[0] == list[0]);
        assert(forall|i: int| 0 <= i < list[0].len() ==> whole[i] == front[i]);
        assert(whole.take(list[0].len() as int) =~= list[0]);
    }
}

/// The remote shell is no forbidden option.
proof fn lemma_shell_gentle(options: Seq<Seq<char>>, job: config::JobView)
    requires
        is_gentle(options),
    ensures
        is_gentle(options.push("-e"@).push(rsync::remote_shell(job.ssh))),
{
    lemma_fixed_options();
    lemma_remote_shell_starts(job.ssh);
    lemma_not_forbidden(rsync::remote_shell(job.ssh));
    lemma_gentle_push(options, "-e"@);
    lemma_gentle_push(options.push("-e"@), rsync::remote_shell(job.ssh));
}

/// A source that is an absolute path is no forbidden option.
proof fn lemma_source_gentle(job: config::JobView)
    requires
        config::job_fault(job) is None,
    ensures
        !is_forbidden(rsync::bare_dir(job.source) + "/"@),
{
    let source = rsync::bare_dir(job.source) + "/"@;
    reveal_strlit("/");
    lemma_absolute_text(job.source);
    text::lemma_without_trailing(vstd::utf8::decode_utf8(job.source), '/');
    let whole = vstd::utf8::decode_utf8(job.source);
    let bare = rsync::bare_dir(job.source);
    assert(source[0] == '/') by {
        if bare.len() > 0 {
            assert(source[0] == bare[0]);
            assert(bare[0] == whole[0]);
        } else {
            assert(source[0] == "/"@[0]);
        }
    }
    lemma_not_forbidden(source);
}

/// The options of a command that copies: all but what is copied and where to.
pub open spec fn options_of(command: Seq<Seq<char>>) -> Seq<Seq<char>> {
    command.take(command.len() - 2)
}

/// No command asks for a deletion or rewrites a file in place: whatever the job is, no option of a
/// transfer, of a comparison or of the upload of a completion marker does.
pub proof fn law_options_never_delete(
    job: config::JobView,
    run_id: Seq<char>,
    previous: Option<Seq<char>>,
    dry_run: bool,
    checksum: bool,
    marker: Seq<u8>,
)
    ensures
        is_gentle(options_of(rsync::transfer_command(job, run_id, previous, dry_run))),
        is_gentle(options_of(rsync::verify_command(job, run_id, checksum))),
        is_gentle(options_of(rsync::marker_command(job, run_id, marker))),
{
    lemma_fixed_options();
    lemma_shared_options_gentle(job);
    let shared = rsync::shared_options(job);
    let planned = shared.push("--dry-run"@).push("--info=stats2"@);
    lemma_gentle_push(shared, "--dry-run"@);
    lemma_gentle_push(shared.push("--dry-run"@), "--info=stats2"@);
    let options = if dry_run {
        planned
    } else {
        shared
    };
    let with_baseline = match rsync::baseline(job, previous) {
        Some(option) => options.push(option),
        None => options,
    };
    if rsync::baseline(job, previous) is Some {
        reveal_strlit("--link-dest=");
        lemma_not_forbidden(rsync::baseline(job, previous)->0);
        lemma_gentle_push(options, rsync::baseline(job, previous)->0);
    }
    lemma_shell_gentle(with_baseline, job);
    assert(options_of(rsync::transfer_command(job, run_id, previous, dry_run))
        =~= with_baseline.push("-e"@).push(rsync::remote_shell(job.ssh)));
    let compared = shared.push("--dry-run"@).push("--omit-dir-times"@);
    lemma_gentle_push(shared.push("--dry-run"@), "--omit-dir-times"@);
    lemma_gentle_push(compared, "--checksum"@);
    let checked = rsync::pushed_if(compared, checksum, "--checksum"@);
    lemma_shell_gentle(checked, job);
    assert(options_of(rsync::verify_command(job, run_id, checksum)) =~= checked.push("-e"@).push(
        rsync::remote_shell(job.ssh),
    ));
    let few = seq!["rsync"@, "--archive"@, "--no-owner"@, "--no-group"@];
    lemma_shell_gentle(few, job);
    assert(options_of(rsync::marker_command(job, run_id, marker)) =~= few.push("-e"@).push(
        rsync::remote_shell(job.ssh),
    ));
}

/// Nothing that an accepted job copies is taken for such an option either: its source and a marker
/// with an absolute path start with the separator. What is left is the last argument, which is the
/// snapshot at the receiver, or the marker in it.
pub proof fn law_commands_never_delete(
    job: config::JobView,
    run_id: Seq<char>,
    previous: Option<Seq<char>>,
    dry_run: bool,
    checksum: bool,
    marker: Seq<u8>,
)
    requires
        config::job_fault(job) is None,
        vstd::utf8::valid_utf8(marker),
        path::is_absolute(marker),
    ensures
        is_gentle(rsync::transfer_command(job, run_id, previous, dry_run).drop_last()),
        is_gentle(rsync::verify_command(job, run_id, checksum).drop_last()),
        is_gentle(rsync::marker_command(job, run_id, marker).drop_last()),
        rsync::transfer_command(job, run_id, previous, dry_run).last() == rsync::target(
            job,
            rsync::snapshot(job, run_id),
        ),
        rsync::verify_command(job, run_id, checksum).last() == rsync::target(
            job,
            rsync::snapshot(job, run_id),
        ),
        rsync::marker_command(job, run_id, marker).last() == rsync::target(
            job,
            rsync::snapshot(job, run_id) + ".hpc-sync-complete.json"@,
        ),
{
    law_options_never_delete(job, run_id, previous, dry_run, checksum, marker);
    lemma_source_gentle(job);
    let source = rsync::bare_dir(job.source) + "/"@;
    let transfer = rsync::transfer_command(job, run_id, previous, dry_run);
    let comparison = rsync::verify_command(job, run_id, checksum);
    let upload = rsync::marker_command(job, run_id, marker);
    assert(transfer.drop_last() =~= options_of(transfer).push(source));
    assert(comparison.drop_last() =~= options_of(comparison).push(source));
    let copied = vstd::utf8::decode_utf8(marker);
    lemma_absolute_text(marker);
    lemma_not_forbidden(copied);
    assert(upload.drop_last() =~= options_of(upload).push(copied));
}

/// A comparison changes nothing: it is always a dry run.
pub proof fn law_comparison_is_a_dry_run(job: config::JobView, run_id: Seq<char>, checksum: bool)
    ensures
        rsync::verify_command(job, run_id, checksum).contains("--dry-run"@),
        rsync::verify_command(job, run_id, checksum).contains("--omit-dir-times"@),
{
    let n = rsync::shared_options(job).len() as int;
    assert(rsync::verify_command(job, run_id, checksum)[n] == "--dry-run"@);
    assert(rsync::verify_command(job, run_id, checksum)[n + 1] == "--omit-dir-times"@);
}

/// A plan and the transfer that applies it differ only in the options of the dry run.
pub proof fn law_plan_and_transfer_agree(
    job: config::JobView,
    run_id: Seq<char>,
    previous: Option<Seq<char>>,
)
    ensures
        ({
            let n = rsync::shared_options(job).len() as int;
            let plan = rsync::transfer_command(job, run_id, previous, true);
            let run = rsync::transfer_command(job, run_id, previous, false);
            &&& plan.take(n) == run.take(n)
            &&& plan[n] == "--dry-run"@
            &&& plan[n + 1] == "--info=stats2"@
            &&& plan.skip(n + 2) == run.skip(n)
        }),
{
    let n = rsync::shared_options(job).len() as int;
    let plan = rsync::transfer_command(job, run_id, previous, true);
    let run = rsync::transfer_command(job, run_id, previous, false);
    assert(plan.take(n) =~= run.take(n));
    assert(plan.skip(n + 2) =~= run.skip(n));
}

} // verus!
