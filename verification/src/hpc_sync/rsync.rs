//! The `rsync` command lines of the backup tool.
use super::config::JobConfig;
use super::error::{AppError, AppResult};
use super::{config, error};
use crate::path::{debug_text, FilePath};
use crate::{number, path, text};
use vstd::prelude::*;

verus! {

/// A transfer into a new snapshot.
pub struct TransferRequest<'a> {
    pub job: &'a JobConfig,
    pub run_id: &'a str,
    pub previous_run_id: Option<&'a str>,
    pub dry_run: bool,
}

// ---------------------------------------------------------------------------
// Run ids
// ---------------------------------------------------------------------------
/// The lower-case hexadecimal digits.
pub open spec fn is_hex_digit(c: char) -> bool {
    text::is_digit(c) || 'a' <= c <= 'f'
}

/// Whether a character can stand at position `i` of a run id.
pub open spec fn is_run_id_char(i: int, c: char) -> bool {
    if i == 8 {
        c == 'T'
    } else if i == 15 {
        c == 'Z'
    } else if i == 16 {
        c == '-'
    } else if i < 16 {
        text::is_digit(c)
    } else {
        is_hex_digit(c)
    }
}

/// Whether a text is a run id: a UTC time such as `20260721T120000Z`, a hyphen and eight
/// lower-case hexadecimal digits.
pub open spec fn is_run_id(s: Seq<char>) -> bool {
    s.len() == 25 && forall|i: int| 0 <= i < 25 ==> is_run_id_char(i, #[trigger] s[i])
}

/// The error for a text that is no run id.
pub open spec fn run_id_error(run_id: Seq<char>) -> error::ErrorView {
    error::plain_error(
        "run_id_invalid"@,
        "invalid run id "@ + path::debug_form(run_id),
        false,
        "Use the run id returned by hpc-sync plan."@,
    )
}

/// Checks that a string is a run id.
pub fn validate_run_id(run_id: &str) -> (r: AppResult<()>)
    ensures
        r is Ok <==> is_run_id(run_id@),
        r matches Err(e) ==> e@ == run_id_error(run_id@),
{
    let chars: Vec<char> = text::chars_of(run_id);
    let mut valid: bool = chars.len() == 25;
    let mut i: usize = 0;
    while valid && i < 25
        invariant
            i <= 25,
            chars@ == run_id@,
            valid ==> chars@.len() == 25,
            valid ==> forall|k: int| 0 <= k < i ==> is_run_id_char(k, #[trigger] chars@[k]),
            !valid ==> !is_run_id(run_id@),
        decreases 25 - i + (if valid { 1int } else { 0int }),
    {
        let c: char = chars[i];
        let fits: bool = if i == 8 {
            c == 'T'
        } else if i == 15 {
            c == 'Z'
        } else if i == 16 {
            c == '-'
        } else if i < 16 {
            text::is_digit_char(c)
        } else {
            text::is_digit_char(c) || ('a' <= c && c <= 'f')
        };
        assert(fits == is_run_id_char(i as int, run_id@[i as int]));
        if fits {
            i = i + 1;
        } else {
            valid = false;
        }
    }
    if valid {
        Ok(())
    } else {
        Err(
            AppError::new(
                "run_id_invalid",
                text::cat2("invalid run id ", &debug_text(run_id)),
                false,
                "Use the run id returned by hpc-sync plan.",
            ),
        )
    }
}

// ---------------------------------------------------------------------------
// Paths
// ---------------------------------------------------------------------------
/// The error for a path that is no text.
pub open spec fn path_error(p: Seq<u8>) -> error::ErrorView {
    error::plain_error(
        "path_invalid"@,
        "path is not valid UTF-8: "@ + path::lossy(p),
        false,
        "Use UTF-8 paths in the job configuration."@,
    )
}

/// The path as text.
pub fn path_text(p: &FilePath) -> (r: AppResult<String>)
    ensures
        match r {
            Ok(s) => vstd::utf8::valid_utf8(p@) && s@ == vstd::utf8::decode_utf8(p@),
            Err(e) => !vstd::utf8::valid_utf8(p@) && e@ == path_error(p@),
        },
{
    match p.to_text() {
        Some(s) => Ok(s),
        None => Err(
            AppError::new(
                "path_invalid",
                text::cat2("path is not valid UTF-8: ", &p.display()),
                false,
                "Use UTF-8 paths in the job configuration.",
            ),
        ),
    }
}

/// A directory as text, without the separators at its end.
pub open spec fn bare_dir(p: Seq<u8>) -> Seq<char> {
    text::without_trailing(vstd::utf8::decode_utf8(p), '/')
}

/// Where the snapshot of a run lies at the receiver.
pub open spec fn snapshot(job: config::JobView, run_id: Seq<char>) -> Seq<char> {
    bare_dir(job.destination_root) + "/snapshots/"@ + run_id + "/"@
}

/// Why the snapshot of a run has no place.
pub open spec fn snapshot_fault(job: config::JobView, run_id: Seq<char>) -> Option<
    error::ErrorView,
> {
    if !is_run_id(run_id) {
        Some(run_id_error(run_id))
    } else if !vstd::utf8::valid_utf8(job.destination_root) {
        Some(path_error(job.destination_root))
    } else {
        None
    }
}

/// Where the snapshot of a run lies at the receiver.
pub fn snapshot_path(job: &JobConfig, run_id: &str) -> (r: AppResult<String>)
    ensures
        error::fault(r) == snapshot_fault(job@, run_id@),
        r matches Ok(s) ==> s@ == snapshot(job@, run_id@),
{
    match validate_run_id(run_id) {
        Err(e) => {
            return Err(e);
        },
        Ok(_) => {},
    }
    let root: String = match path_text(&job.destination_root) {
        Err(e) => {
            return Err(e);
        },
        Ok(s) => s,
    };
    let root: String = text::trim_end_char(&root, '/');
    Ok(text::cat4(&root, "/snapshots/", run_id, "/"))
}

// ---------------------------------------------------------------------------
// Quoting for the shell
// ---------------------------------------------------------------------------
/// The characters that need no quotes.
pub open spec fn is_plain(c: char) -> bool {
    text::is_alphanumeric(c) || c == '/' || c == '.' || c == '_' || c == '-' || c == '=' || c
        == ':'
}

/// Whether a text needs no quotes.
pub open spec fn is_plain_text(s: Seq<char>) -> bool {
    forall|i: int| 0 <= i < s.len() ==> is_plain(#[trigger] s[i])
}

/// A text as one word of a shell command.
pub open spec fn quoted(s: Seq<char>) -> Seq<char> {
    if is_plain_text(s) {
        s
    } else {
        "'"@ + text::replaced(s, '\'', "'\"'\"'"@) + "'"@
    }
}

/// Quotes a string for the shell.
pub fn shell_quote(value: &str) -> (r: String)
    ensures
        r@ == quoted(value@),
{
    let chars: Vec<char> = text::chars_of(value);
    let mut i: usize = 0;
    while i < chars.len()
        invariant
            i <= chars@.len(),
            chars@ == value@,
            forall|k: int| 0 <= k < i ==> is_plain(#[trigger] chars@[k]),
        decreases chars@.len() - i,
    {
        let c: char = chars[i];
        if !(text::is_alphanumeric_char(c) || c == '/' || c == '.' || c == '_' || c == '-' || c
            == '=' || c == ':') {
            assert(!is_plain(value@[i as int]));
            return text::cat3("'", &text::replace_char(value, '\'', "'\"'\"'"), "'");
        }
        i = i + 1;
    }
    value.to_owned()
}

// ---------------------------------------------------------------------------
// Options
// ---------------------------------------------------------------------------
/// A list with one more text, if `wanted`.
pub open spec fn pushed_if(list: Seq<Seq<char>>, wanted: bool, item: Seq<char>) -> Seq<Seq<char>> {
    if wanted {
        list.push(item)
    } else {
        list
    }
}

/// The exclude patterns as options.
pub open spec fn exclude_options(excludes: Seq<Seq<char>>) -> Seq<Seq<char>> {
    excludes.map_values(|item: Seq<char>| "--exclude="@ + item)
}

/// The options that a transfer and a comparison share.
pub open spec fn shared_options(job: config::JobView) -> Seq<Seq<char>> {
    let base = seq![
        "rsync"@,
        "--archive"@,
        "--no-owner"@,
        "--no-group"@,
        "--no-devices"@,
        "--no-specials"@,
        "--partial-dir=.rsync-partial"@,
        "--delay-updates"@,
        "--itemize-changes"@,
    ];
    let with_links = pushed_if(base, job.preserve_hard_links, "--hard-links"@);
    let with_acls = pushed_if(with_links, job.preserve_acls, "--acls"@);
    let with_xattrs = pushed_if(with_acls, job.preserve_xattrs, "--xattrs"@);
    with_xattrs + exclude_options(job.excludes)
}

/// The options that a transfer and a comparison share.
pub fn common_options(job: &JobConfig) -> (r: Vec<String>)
    ensures
        text::texts(r@) == shared_options(job@),
{
    let mut options: Vec<String> = Vec::new();
    proof {
        assert(text::texts(options@) =~= Seq::<Seq<char>>::empty());
    }
    text::push_text(&mut options, "rsync");
    text::push_text(&mut options, "--archive");
    text::push_text(&mut options, "--no-owner");
    text::push_text(&mut options, "--no-group");
    text::push_text(&mut options, "--no-devices");
    text::push_text(&mut options, "--no-specials");
    text::push_text(&mut options, "--partial-dir=.rsync-partial");
    text::push_text(&mut options, "--delay-updates");
    text::push_text(&mut options, "--itemize-changes");
    if job.preserve_hard_links {
        text::push_text(&mut options, "--hard-links");
    }
    if job.preserve_acls {
        text::push_text(&mut options, "--acls");
    }
    if job.preserve_xattrs {
        text::push_text(&mut options, "--xattrs");
    }
    let ghost fixed = text::texts(options@);
    let ghost extra = exclude_options(job@.excludes);
    let mut i: usize = 0;
    proof {
        assert(fixed + extra.take(0) =~= fixed);
    }
    while i < job.excludes.len()
        invariant
            i <= job.excludes@.len(),
            extra == exclude_options(job@.excludes),
            text::texts(options@) == fixed + extra.take(i as int),
        decreases job.excludes@.len() - i,
    {
        let option: String = text::cat2("--exclude=", &job.excludes[i]);
        proof {
            assert(extra[i as int] == option@);
            assert(fixed + extra.take(i as int + 1) =~= (fixed + extra.take(i as int)).push(
                option@,
            ));
        }
        text::push_text(&mut options, &option);
        i = i + 1;
    }
    proof {
        assert(extra.take(extra.len() as int) =~= extra);
    }
    options
}

/// The words of the remote shell: a dedicated key, pinned host keys and no interaction.
pub open spec fn ssh_words(ssh: config::SshView) -> Seq<Seq<char>> {
    seq![
        "ssh"@,
        "-p"@,
        number::decimal(ssh.port as nat),
        "-i"@,
        vstd::utf8::decode_utf8(ssh.identity_file),
        "-o"@,
        "BatchMode=yes"@,
        "-o"@,
        "StrictHostKeyChecking=yes"@,
        "-o"@,
        "UserKnownHostsFile="@ + vstd::utf8::decode_utf8(ssh.known_hosts_file),
        "-o"@,
        "KnownHostsCommand=none"@,
        "-o"@,
        "ProxyCommand=none"@,
        "-o"@,
        "IdentitiesOnly=yes"@,
        "-o"@,
        "PasswordAuthentication=no"@,
        "-o"@,
        "KbdInteractiveAuthentication=no"@,
        "-o"@,
        "ConnectTimeout="@ + number::decimal(ssh.connect_timeout_seconds as nat),
        "-o"@,
        "ServerAliveInterval=30"@,
        "-o"@,
        "ServerAliveCountMax=3"@,
    ]
}

/// Words, each quoted, with blanks between them.
pub open spec fn shell_line(words: Seq<Seq<char>>) -> Seq<char> {
    text::joined(words.map_values(|w: Seq<char>| quoted(w)), " "@)
}

/// The remote shell as one argument.
pub open spec fn remote_shell(ssh: config::SshView) -> Seq<char> {
    shell_line(ssh_words(ssh))
}

/// Why there is no remote shell.
pub open spec fn shell_fault(ssh: config::SshView) -> Option<error::ErrorView> {
    if !vstd::utf8::valid_utf8(ssh.identity_file) {
        Some(path_error(ssh.identity_file))
    } else if !vstd::utf8::valid_utf8(ssh.known_hosts_file) {
        Some(path_error(ssh.known_hosts_file))
    } else {
        None
    }
}

/// Quotes each word and joins them with blanks.
fn quote_words(words: &Vec<String>) -> (r: String)
    ensures
        r@ == shell_line(text::texts(words@)),
{
    let ghost all = text::texts(words@).map_values(|w: Seq<char>| quoted(w));
    let mut out: Vec<String> = Vec::new();
    let mut i: usize = 0;
    proof {
        assert(text::texts(out@) =~= all.take(0));
    }
    while i < words.len()
        invariant
            i <= words@.len(),
            all == text::texts(words@).map_values(|w: Seq<char>| quoted(w)),
            text::texts(out@) == all.take(i as int),
        decreases words@.len() - i,
    {
        let word: String = shell_quote(&words[i]);
        proof {
            assert(all[i as int] == word@);
            assert(all.take(i as int + 1) =~= all.take(i as int).push(word@));
        }
        text::push_text(&mut out, &word);
        i = i + 1;
    }
    proof {
        assert(all.take(all.len() as int) =~= all);
    }
    text::join(&out, " ")
}

/// The remote shell as one argument.
pub fn ssh_shell(job: &JobConfig) -> (r: AppResult<String>)
    ensures
        error::fault(r) == shell_fault(job@.ssh),
        r matches Ok(s) ==> s@ == remote_shell(job@.ssh),
{
    let identity: String = match path_text(&job.ssh.identity_file) {
        Err(e) => {
            return Err(e);
        },
        Ok(s) => s,
    };
    let known_hosts: String = match path_text(&job.ssh.known_hosts_file) {
        Err(e) => {
            return Err(e);
        },
        Ok(s) => s,
    };
    let mut words: Vec<String> = Vec::new();
    proof {
        assert(text::texts(words@) =~= Seq::<Seq<char>>::empty());
    }
    text::push_text(&mut words, "ssh");
    text::push_text(&mut words, "-p");
    text::push_text(&mut words, &number::decimal_text(job.ssh.port as u64));
    text::push_text(&mut words, "-i");
    text::push_text(&mut words, &identity);
    text::push_text(&mut words, "-o");
    text::push_text(&mut words, "BatchMode=yes");
    text::push_text(&mut words, "-o");
    text::push_text(&mut words, "StrictHostKeyChecking=yes");
    text::push_text(&mut words, "-o");
    text::push_text(&mut words, &text::cat2("UserKnownHostsFile=", &known_hosts));
    text::push_text(&mut words, "-o");
    text::push_text(&mut words, "KnownHostsCommand=none");
    text::push_text(&mut words, "-o");
    text::push_text(&mut words, "ProxyCommand=none");
    text::push_text(&mut words, "-o");
    text::push_text(&mut words, "IdentitiesOnly=yes");
    text::push_text(&mut words, "-o");
    text::push_text(&mut words, "PasswordAuthentication=no");
    text::push_text(&mut words, "-o");
    text::push_text(&mut words, "KbdInteractiveAuthentication=no");
    text::push_text(&mut words, "-o");
    text::push_text(
        &mut words,
        &text::cat2("ConnectTimeout=", &number::decimal_text(job.ssh.connect_timeout_seconds)),
    );
    text::push_text(&mut words, "-o");
    text::push_text(&mut words, "ServerAliveInterval=30");
    text::push_text(&mut words, "-o");
    text::push_text(&mut words, "ServerAliveCountMax=3");
    proof {
        assert(text::texts(words@) =~= ssh_words(job@.ssh));
    }
    Ok(quote_words(&words))
}

/// A path at the receiver.
pub open spec fn target(job: config::JobView, p: Seq<char>) -> Seq<char> {
    job.ssh.user + "@"@ + job.ssh.host + ":"@ + p
}

/// A path at the receiver.
pub fn remote_target(job: &JobConfig, p: &str) -> (r: String)
    ensures
        r@ == target(job@, p@),
{
    text::cat5(&job.ssh.user, "@", &job.ssh.host, ":", p)
}

// ---------------------------------------------------------------------------
// Commands
// ---------------------------------------------------------------------------
/// The last arguments of a command that copies the source into the snapshot of a run.
pub open spec fn with_endpoints(
    options: Seq<Seq<char>>,
    job: config::JobView,
    run_id: Seq<char>,
) -> Seq<Seq<char>> {
    options.push("-e"@).push(remote_shell(job.ssh)).push(bare_dir(job.source) + "/"@).push(
        target(job, snapshot(job, run_id)),
    )
}

/// Why a command cannot name both ends of a copy.
pub open spec fn endpoints_fault(job: config::JobView, run_id: Seq<char>) -> Option<
    error::ErrorView,
> {
    if shell_fault(job.ssh) is Some {
        shell_fault(job.ssh)
    } else if !vstd::utf8::valid_utf8(job.source) {
        Some(path_error(job.source))
    } else {
        snapshot_fault(job, run_id)
    }
}

/// The baseline of a transfer: the snapshot of the previous run, or the destination root where
/// the job says so.
pub open spec fn baseline(job: config::JobView, previous: Option<Seq<char>>) -> Option<Seq<char>> {
    match previous {
        Some(p) => Some(
            "--link-dest="@ + text::without_trailing(snapshot(job, p), '/'),
        ),
        None => if job.bootstrap_from_destination_root {
            Some("--link-dest="@ + vstd::utf8::decode_utf8(job.destination_root))
        } else {
            None
        },
    }
}

/// The command that copies the source into a new snapshot, or only plans to.
pub open spec fn transfer_command(
    job: config::JobView,
    run_id: Seq<char>,
    previous: Option<Seq<char>>,
    dry_run: bool,
) -> Seq<Seq<char>> {
    let options = if dry_run {
        shared_options(job).push("--dry-run"@).push("--info=stats2"@)
    } else {
        shared_options(job)
    };
    let with_baseline = match baseline(job, previous) {
        Some(option) => options.push(option),
        None => options,
    };
    with_endpoints(with_baseline, job, run_id)
}

/// Why there is no transfer command.
pub open spec fn transfer_fault(
    job: config::JobView,
    run_id: Seq<char>,
    previous: Option<Seq<char>>,
) -> Option<error::ErrorView> {
    if !is_run_id(run_id) {
        Some(run_id_error(run_id))
    } else if previous is Some && snapshot_fault(job, previous->0) is Some {
        snapshot_fault(job, previous->0)
    } else if previous is None && job.bootstrap_from_destination_root && !vstd::utf8::valid_utf8(
        job.destination_root,
    ) {
        Some(path_error(job.destination_root))
    } else {
        endpoints_fault(job, run_id)
    }
}

/// Appends the arguments that name both ends of a copy.
fn push_endpoints(command: &mut Vec<String>, job: &JobConfig, run_id: &str) -> (r: AppResult<()>)
    ensures
        error::fault(r) == endpoints_fault(job@, run_id@),
        r is Ok ==> text::texts(final(command)@) == with_endpoints(
            text::texts(old(command)@),
            job@,
            run_id@,
        ),
{
    let shell: String = match ssh_shell(job) {
        Err(e) => {
            return Err(e);
        },
        Ok(s) => s,
    };
    let source: String = match path_text(&job.source) {
        Err(e) => {
            return Err(e);
        },
        Ok(s) => s,
    };
    let snapshot: String = match snapshot_path(job, run_id) {
        Err(e) => {
            return Err(e);
        },
        Ok(s) => s,
    };
    text::push_text(command, "-e");
    text::push_text(command, &shell);
    text::push_text(command, &text::cat2(&text::trim_end_char(&source, '/'), "/"));
    text::push_text(command, &remote_target(job, &snapshot));
    Ok(())
}

/// The command that copies the source into a new snapshot, or only plans to.
pub fn build_transfer(request: TransferRequest<'_>) -> (r: AppResult<Vec<String>>)
    ensures
        error::fault(r) == transfer_fault(
            request.job@,
            request.run_id@,
            text::optional_str(request.previous_run_id),
        ),
        r matches Ok(command) ==> text::texts(command@) == transfer_command(
            request.job@,
            request.run_id@,
            text::optional_str(request.previous_run_id),
            request.dry_run,
        ),
{
    let job: &JobConfig = request.job;
    match validate_run_id(request.run_id) {
        Err(e) => {
            return Err(e);
        },
        Ok(_) => {},
    }
    let mut command: Vec<String> = common_options(job);
    if request.dry_run {
        text::push_text(&mut command, "--dry-run");
        text::push_text(&mut command, "--info=stats2");
    }
    match request.previous_run_id {
        Some(previous) => {
            let prior: String = match snapshot_path(job, previous) {
                Err(e) => {
                    return Err(e);
                },
                Ok(s) => s,
            };
            text::push_text(
                &mut command,
                &text::cat2("--link-dest=", &text::trim_end_char(&prior, '/')),
            );
        },
        None => {
            if job.bootstrap_from_destination_root {
                let root: String = match path_text(&job.destination_root) {
                    Err(e) => {
                        return Err(e);
                    },
                    Ok(s) => s,
                };
                text::push_text(&mut command, &text::cat2("--link-dest=", &root));
            }
        },
    }
    match push_endpoints(&mut command, job, request.run_id) {
        Err(e) => Err(e),
        Ok(_) => Ok(command),
    }
}

/// The command that compares the source with the snapshot of a run.
pub open spec fn verify_command(job: config::JobView, run_id: Seq<char>, checksum: bool) -> Seq<
    Seq<char>,
> {
    with_endpoints(
        pushed_if(
            shared_options(job).push("--dry-run"@).push("--omit-dir-times"@),
            checksum,
            "--checksum"@,
        ),
        job,
        run_id,
    )
}

/// The command that compares the source with the snapshot of a run.
pub fn build_verify(job: &JobConfig, run_id: &str, checksum: bool) -> (r: AppResult<Vec<String>>)
    ensures
        error::fault(r) == endpoints_fault(job@, run_id@),
        r matches Ok(command) ==> text::texts(command@) == verify_command(job@, run_id@, checksum),
{
    let mut command: Vec<String> = common_options(job);
    text::push_text(&mut command, "--dry-run");
    text::push_text(&mut command, "--omit-dir-times");
    if checksum {
        text::push_text(&mut command, "--checksum");
    }
    match push_endpoints(&mut command, job, run_id) {
        Err(e) => Err(e),
        Ok(_) => Ok(command),
    }
}

/// The command that uploads the completion marker of a run.
pub open spec fn marker_command(job: config::JobView, run_id: Seq<char>, marker: Seq<u8>) -> Seq<
    Seq<char>,
> {
    seq![
        "rsync"@,
        "--archive"@,
        "--no-owner"@,
        "--no-group"@,
        "-e"@,
        remote_shell(job.ssh),
        vstd::utf8::decode_utf8(marker),
        target(job, snapshot(job, run_id) + ".hpc-sync-complete.json"@),
    ]
}

/// Why there is no command for the completion marker.
pub open spec fn marker_fault(job: config::JobView, run_id: Seq<char>, marker: Seq<u8>) -> Option<
    error::ErrorView,
> {
    if shell_fault(job.ssh) is Some {
        shell_fault(job.ssh)
    } else if !vstd::utf8::valid_utf8(marker) {
        Some(path_error(marker))
    } else {
        snapshot_fault(job, run_id)
    }
}

/// The command that uploads the completion marker of a run.
pub fn build_marker(job: &JobConfig, run_id: &str, marker: &FilePath) -> (r: AppResult<
    Vec<String>,
>)
    ensures
        error::fault(r) == marker_fault(job@, run_id@, marker@),
        r matches Ok(command) ==> text::texts(command@) == marker_command(
            job@,
            run_id@,
            marker@,
        ),
{
    let shell: String = match ssh_shell(job) {
        Err(e) => {
            return Err(e);
        },
        Ok(s) => s,
    };
    let local: String = match path_text(marker) {
        Err(e) => {
            return Err(e);
        },
        Ok(s) => s,
    };
    let snapshot: String = match snapshot_path(job, run_id) {
        Err(e) => {
            return Err(e);
        },
        Ok(s) => s,
    };
    let mut command: Vec<String> = Vec::new();
    proof {
        assert(text::texts(command@) =~= Seq::<Seq<char>>::empty());
    }
    text::push_text(&mut command, "rsync");
    text::push_text(&mut command, "--archive");
    text::push_text(&mut command, "--no-owner");
    text::push_text(&mut command, "--no-group");
    text::push_text(&mut command, "-e");
    text::push_text(&mut command, &shell);
    text::push_text(&mut command, &local);
    text::push_text(
        &mut command,
        &remote_target(job, &text::cat2(&snapshot, ".hpc-sync-complete.json")),
    );
    Ok(command)
}

/// A run id is eight digits, a `T`, six digits, a `Z`, a hyphen and eight lower-case hexadecimal
/// digits. Nothing else is one: so it holds no slash, no blank and no dot, and does not start with a
/// hyphen.
pub proof fn law_run_ids_have_one_form(s: Seq<char>)
    ensures
        is_run_id(s) <==> {
            &&& s.len() == 25
            &&& s[8] == 'T'
            &&& s[15] == 'Z'
            &&& s[16] == '-'
            &&& forall|i: int|
                #![trigger s[i]]
                (0 <= i < 8 || 9 <= i < 15) ==> '0' <= s[i] <= '9'
            &&& forall|i: int|
                #![trigger s[i]]
                17 <= i < 25 ==> '0' <= s[i] <= '9' || 'a' <= s[i] <= 'f'
        },
        is_run_id(s) ==> !s.contains('/') && !s.contains(' ') && !s.contains('.') && s[0] != '-',
{
    if is_run_id(s) {
        assert(is_run_id_char(8, s[8]));
        assert(is_run_id_char(15, s[15]));
        assert(is_run_id_char(16, s[16]));
        assert(is_run_id_char(0, s[0]));
        assert forall|i: int| #![trigger s[i]] 0 <= i < 25 implies s[i] != '/' && s[i] != ' '
            && s[i] != '.' by {
            assert(is_run_id_char(i, s[i]));
        }
    }
    if s.len() == 25 && s[8] == 'T' && s[15] == 'Z' && s[16] == '-' && (forall|i: int|
        #![trigger s[i]]
        (0 <= i < 8 || 9 <= i < 15) ==> '0' <= s[i] <= '9') && (forall|i: int|
        #![trigger s[i]]
        17 <= i < 25 ==> '0' <= s[i] <= '9' || 'a' <= s[i] <= 'f') {
        assert forall|i: int| 0 <= i < 25 implies is_run_id_char(i, #[trigger] s[i]) by {}
    }
}

} // verus!
