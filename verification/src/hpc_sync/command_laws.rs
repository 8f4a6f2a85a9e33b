//! What holds of the `rsync` command lines of every job: which options they have, what they leave
//! out, and what they copy where.
use super::config;
use super::rsync;
use super::safety;
use crate::{number, text};
use vstd::prelude::*;

verus! {

/// The arguments of a command before its last two, which are what is copied and where to.
pub open spec fn options(command: Seq<Seq<char>>) -> Seq<Seq<char>> {
    command.take(command.len() - 2)
}

/// Whether an argument is one of the options that a transfer and a comparison of a job both have.
pub open spec fn is_common(job: config::JobView, a: Seq<char>) -> bool {
    ||| a == "rsync"@
    ||| a == "--archive"@
    ||| a == "--no-owner"@
    ||| a == "--no-group"@
    ||| a == "--no-devices"@
    ||| a == "--no-specials"@
    ||| a == "--partial-dir=.rsync-partial"@
    ||| a == "--delay-updates"@
    ||| a == "--itemize-changes"@
    ||| job.preserve_hard_links && a == "--hard-links"@
    ||| job.preserve_acls && a == "--acls"@
    ||| job.preserve_xattrs && a == "--xattrs"@
    ||| exists|i: int| 0 <= i < job.excludes.len() && a == "--exclude="@ + #[trigger] job.excludes[i]
    ||| a == "-e"@
    ||| a == rsync::remote_shell(job.ssh)
}

/// Whether an argument names the baseline of a transfer: the snapshot of the previous run, or the
/// destination root of a job that starts from it.
pub open spec fn is_baseline(job: config::JobView, previous: Option<Seq<char>>, a: Seq<char>) -> bool {
    match previous {
        Some(p) => rsync::baseline(job, previous) == Some(a),
        None => job.bootstrap_from_destination_root && a == "--link-dest="@
            + vstd::utf8::decode_utf8(job.destination_root),
    }
}

/// The shared options hold each of the common ones, and no others.
proof fn lemma_shared(job: config::JobView, a: Seq<char>)
    ensures
        rsync::shared_options(job).contains(a) || a == "-e"@ || a == rsync::remote_shell(job.ssh)
            <==> is_common(job, a),
{
    let all = rsync::shared_options(job);
    let extra = rsync::exclude_options(job.excludes);
    let n = all.len() - extra.len();
    let links: int = if job.preserve_hard_links {
        1
    } else {
        0
    };
    let acls: int = if job.preserve_acls {
        1
    } else {
        0
    };
    assert(all[0] == "rsync"@);
    assert(all[1] == "--archive"@);
    assert(all[2] == "--no-owner"@);
    assert(all[3] == "--no-group"@);
    assert(all[4] == "--no-devices"@);
    assert(all[5] == "--no-specials"@);
    assert(all[6] == "--partial-dir=.rsync-partial"@);
    assert(all[7] == "--delay-updates"@);
    assert(all[8] == "--itemize-changes"@);
    assert(job.preserve_hard_links ==> all[9] == "--hard-links"@);
    assert(job.preserve_acls ==> all[9 + links] == "--acls"@);
    assert(job.preserve_xattrs ==> all[9 + links + acls] == "--xattrs"@);
    assert forall|i: int| 0 <= i < job.excludes.len() implies all[n + i] == "--exclude="@
        + #[trigger] job.excludes[i] by {
        assert(all[n + i] == extra[i]);
    }
    if all.contains(a) {
        let k = choose|k: int| 0 <= k < all.len() && all[k] == a;
        if k >= n {
            assert(all[k] == extra[k - n]);
            assert(a == "--exclude="@ + job.excludes[k - n]);
        }
    }
    if exists|i: int| 0 <= i < job.excludes.len() && a == "--exclude="@ + #[trigger] job.excludes[i] {
        let i = choose|i: int|
            0 <= i < job.excludes.len() && a == "--exclude="@ + #[trigger] job.excludes[i];
        assert(all[n + i] == a);
    }
}

/// What is in a list with one more item.
proof fn lemma_contains_push(list: Seq<Seq<char>>, item: Seq<char>, a: Seq<char>)
    ensures
        list.push(item).contains(a) <==> list.contains(a) || a == item,
{
    if list.contains(a) {
        let k = choose|k: int| 0 <= k < list.len() && list[k] == a;
        assert(list.push(item)[k] == a);
    }
    if a == item {
        assert(list.push(item)[list.len() as int] == a);
    }
}

/// The options of a transfer are the common ones of the job, those of a dry run where it is one,
/// and its baseline where it has one. There are no others.
pub proof fn law_transfer_options(
    job: config::JobView,
    run_id: Seq<char>,
    previous: Option<Seq<char>>,
    dry_run: bool,
    a: Seq<char>,
)
    ensures
        options(rsync::transfer_command(job, run_id, previous, dry_run)).contains(a) <==> {
            ||| is_common(job, a)
            ||| dry_run && (a == "--dry-run"@ || a == "--info=stats2"@)
            ||| is_baseline(job, previous, a)
        },
{
    lemma_shared(job, a);
    let shared = rsync::shared_options(job);
    let planned = shared.push("--dry-run"@).push("--info=stats2"@);
    lemma_contains_push(shared, "--dry-run"@, a);
    lemma_contains_push(shared.push("--dry-run"@), "--info=stats2"@, a);
    let first = if dry_run {
        planned
    } else {
        shared
    };
    let second = match rsync::baseline(job, previous) {
        Some(option) => first.push(option),
        None => first,
    };
    if rsync::baseline(job, previous) is Some {
        lemma_contains_push(first, rsync::baseline(job, previous)->0, a);
    }
    lemma_contains_push(second, "-e"@, a);
    lemma_contains_push(second.push("-e"@), rsync::remote_shell(job.ssh), a);
    assert(options(rsync::transfer_command(job, run_id, previous, dry_run)) =~= second.push(
        "-e"@,
    ).push(rsync::remote_shell(job.ssh)));
}

/// The options of a comparison are the common ones of the job, `--dry-run`, `--omit-dir-times` and,
/// exactly where checksums are asked for, `--checksum`. There are no others: none that leaves files
/// of the snapshot out of the comparison, and none that changes anything.
pub proof fn law_comparison_options(
    job: config::JobView,
    run_id: Seq<char>,
    checksum: bool,
    a: Seq<char>,
)
    ensures
        options(rsync::verify_command(job, run_id, checksum)).contains(a) <==> {
            ||| is_common(job, a)
            ||| a == "--dry-run"@
            ||| a == "--omit-dir-times"@
            ||| checksum && a == "--checksum"@
        },
{
    lemma_shared(job, a);
    let shared = rsync::shared_options(job);
    let quick = shared.push("--dry-run"@).push("--omit-dir-times"@);
    lemma_contains_push(shared, "--dry-run"@, a);
    lemma_contains_push(shared.push("--dry-run"@), "--omit-dir-times"@, a);
    lemma_contains_push(quick, "--checksum"@, a);
    let all = rsync::pushed_if(quick, checksum, "--checksum"@);
    lemma_contains_push(all, "-e"@, a);
    lemma_contains_push(all.push("-e"@), rsync::remote_shell(job.ssh), a);
    assert(options(rsync::verify_command(job, run_id, checksum)) =~= all.push("-e"@).push(
        rsync::remote_shell(job.ssh),
    ));
}

/// A comparison is the transfer of the same run without a baseline, as a dry run that leaves out
/// the times of directories: up to there both have the same arguments, and they end with the same
/// remote shell, source and snapshot.
pub proof fn law_comparison_follows_the_transfer(
    job: config::JobView,
    run_id: Seq<char>,
    checksum: bool,
)
    requires
        !job.bootstrap_from_destination_root,
    ensures
        ({
            let transfer = rsync::transfer_command(job, run_id, None, false);
            let comparison = rsync::verify_command(job, run_id, checksum);
            let n = transfer.len() - 4;
            let more: int = if checksum {
                3
            } else {
                2
            };
            &&& comparison.len() == transfer.len() + more
            &&& comparison.take(n) == transfer.take(n)
            &&& comparison[n] == "--dry-run"@
            &&& comparison[n + 1] == "--omit-dir-times"@
            &&& checksum ==> comparison[n + 2] == "--checksum"@
            &&& comparison.skip(n + more) == transfer.skip(n)
        }),
{
    let transfer = rsync::transfer_command(job, run_id, None, false);
    let comparison = rsync::verify_command(job, run_id, checksum);
    let n = transfer.len() - 4;
    let more: int = if checksum {
        3
    } else {
        2
    };
    assert(comparison.take(n) =~= transfer.take(n));
    assert(comparison.skip(n + more) =~= transfer.skip(n));
}

/// Whether a command passes exactly these patterns on: from `n` on its arguments name them, one
/// after the other, and no other option names a pattern.
pub open spec fn excludes_exactly(command: Seq<Seq<char>>, patterns: Seq<Seq<char>>, n: int) -> bool {
    &&& 0 <= n
    &&& n + patterns.len() <= command.len() - 2
    &&& forall|i: int|
        0 <= i < patterns.len() ==> command[n + i] == "--exclude="@ + #[trigger] patterns[i]
    &&& forall|k: int|
        0 <= k < command.len() - 2 && !(n <= k < n + patterns.len()) ==> !"--exclude="@.is_prefix_of(
            #[trigger] command[k],
        )
}

/// A job leaves out exactly what it is configured to: a transfer and a comparison name each of its
/// exclude patterns, in their order, and no other pattern.
pub proof fn law_excludes_are_obeyed(
    job: config::JobView,
    run_id: Seq<char>,
    previous: Option<Seq<char>>,
    dry_run: bool,
    checksum: bool,
)
    ensures
        exists|n: int|
            excludes_exactly(
                rsync::transfer_command(job, run_id, previous, dry_run),
                job.excludes,
                n,
            ),
        exists|n: int|
            excludes_exactly(rsync::verify_command(job, run_id, checksum), job.excludes, n),
{
    let shared = rsync::shared_options(job);
    let extra = rsync::exclude_options(job.excludes);
    let n = shared.len() - extra.len();
    let transfer = rsync::transfer_command(job, run_id, previous, dry_run);
    let comparison = rsync::verify_command(job, run_id, checksum);
    assert forall|i: int| 0 <= i < job.excludes.len() implies transfer[n + i] == "--exclude="@
        + #[trigger] job.excludes[i] && comparison[n + i] == "--exclude="@ + job.excludes[i] by {
        assert(shared[n + i] == extra[i]);
        assert(transfer[n + i] == shared[n + i]);
        assert(comparison[n + i] == shared[n + i]);
    }
    assert forall|k: int|
        0 <= k < transfer.len() - 2 && !(n <= k < n + job.excludes.len()) implies !"--exclude="@.is_prefix_of(
        #[trigger] transfer[k],
    ) by {
        lemma_no_pattern(job, previous, transfer[k]);
    }
    assert forall|k: int|
        0 <= k < comparison.len() - 2 && !(n <= k < n + job.excludes.len()) implies !"--exclude="@.is_prefix_of(
        #[trigger] comparison[k],
    ) by {
        lemma_no_pattern(job, previous, comparison[k]);
    }
    assert(excludes_exactly(transfer, job.excludes, n));
    assert(excludes_exactly(comparison, job.excludes, n));
}

/// None of the other options names a pattern.
proof fn lemma_no_pattern(job: config::JobView, previous: Option<Seq<char>>, a: Seq<char>)
    requires
        ({
            ||| a == "rsync"@
            ||| a == "--archive"@
            ||| a == "--no-owner"@
            ||| a == "--no-group"@
            ||| a == "--no-devices"@
            ||| a == "--no-specials"@
            ||| a == "--partial-dir=.rsync-partial"@
            ||| a == "--delay-updates"@
            ||| a == "--itemize-changes"@
            ||| a == "--hard-links"@
            ||| a == "--acls"@
            ||| a == "--xattrs"@
            ||| a == "--dry-run"@
            ||| a == "--info=stats2"@
            ||| a == "--omit-dir-times"@
            ||| a == "--checksum"@
            ||| rsync::baseline(job, previous) == Some(a)
            ||| a == "-e"@
            ||| a == rsync::remote_shell(job.ssh)
        }),
    ensures
        !"--exclude="@.is_prefix_of(a),
{
    reveal_strlit("--exclude=");
    reveal_strlit("rsync");
    reveal_strlit("--archive");
    reveal_strlit("--no-owner");
    reveal_strlit("--no-group");
    reveal_strlit("--no-devices");
    reveal_strlit("--no-specials");
    reveal_strlit("--partial-dir=.rsync-partial");
    reveal_strlit("--delay-updates");
    reveal_strlit("--itemize-changes");
    reveal_strlit("--hard-links");
    reveal_strlit("--acls");
    reveal_strlit("--xattrs");
    reveal_strlit("--dry-run");
    reveal_strlit("--info=stats2");
    reveal_strlit("--omit-dir-times");
    reveal_strlit("--checksum");
    reveal_strlit("--link-dest=");
    reveal_strlit("-e");
    safety::lemma_remote_shell_starts(job.ssh);
    if "--exclude="@.is_prefix_of(a) {
        assert(a[0] == "--exclude="@[0]);
        assert(a[2] == "--exclude="@[2]);
        assert(a[2] == 'e');
    }
}

// ---------------------------------------------------------------------------
// What is copied, and where to
// ---------------------------------------------------------------------------
/// Whether a text is another one without the slashes at its end.
pub open spec fn is_bare(whole: Seq<char>, bare: Seq<char>) -> bool {
    &&& bare.is_prefix_of(whole)
    &&& bare.len() > 0 ==> bare.last() != '/'
    &&& forall|i: int| bare.len() <= i < whole.len() ==> whole[i] == '/'
}

/// Whether a command ends with a copy of the source of a job, with one slash behind it so that its
/// contents are copied, to a place under the destination root at the configured host.
pub open spec fn copies_to(job: config::JobView, command: Seq<Seq<char>>, place: Seq<char>) -> bool {
    let n = command.len() as int;
    &&& n >= 4
    &&& command[0] == "rsync"@
    &&& command[n - 4] == "-e"@
    &&& command[n - 3] == rsync::remote_shell(job.ssh)
    &&& exists|source: Seq<char>| #[trigger]
        is_bare(vstd::utf8::decode_utf8(job.source), source) && command[n - 2] == source + "/"@
    &&& exists|root: Seq<char>| #[trigger]
        is_bare(vstd::utf8::decode_utf8(job.destination_root), root) && command[n - 1]
            == job.ssh.user + "@"@ + job.ssh.host + ":"@ + (root + place)
}

proof fn lemma_endpoints(list: Seq<Seq<char>>, job: config::JobView, run_id: Seq<char>)
    requires
        list.len() > 0,
        list[0] == "rsync"@,
    ensures
        copies_to(
            job,
            rsync::with_endpoints(list, job, run_id),
            "/snapshots/"@ + run_id + "/"@,
        ),
{
    let source = rsync::bare_dir(job.source);
    let root = rsync::bare_dir(job.destination_root);
    text::lemma_without_trailing(vstd::utf8::decode_utf8(job.source), '/');
    text::lemma_without_trailing(vstd::utf8::decode_utf8(job.destination_root), '/');
    assert(is_bare(vstd::utf8::decode_utf8(job.source), source));
    assert(is_bare(vstd::utf8::decode_utf8(job.destination_root), root));
    assert(rsync::snapshot(job, run_id) =~= root + ("/snapshots/"@ + run_id + "/"@));
}

/// A transfer and a comparison run `rsync` through the remote shell of the job, from its source to
/// the snapshot of the run: `snapshots/` and the run id under the destination root.
pub proof fn law_source_goes_to_the_snapshot(
    job: config::JobView,
    run_id: Seq<char>,
    previous: Option<Seq<char>>,
    dry_run: bool,
    checksum: bool,
)
    ensures
        copies_to(
            job,
            rsync::transfer_command(job, run_id, previous, dry_run),
            "/snapshots/"@ + run_id + "/"@,
        ),
        copies_to(
            job,
            rsync::verify_command(job, run_id, checksum),
            "/snapshots/"@ + run_id + "/"@,
        ),
{
    let shared = rsync::shared_options(job);
    assert(shared[0] == "rsync"@);
    let first = if dry_run {
        shared.push("--dry-run"@).push("--info=stats2"@)
    } else {
        shared
    };
    let second = match rsync::baseline(job, previous) {
        Some(option) => first.push(option),
        None => first,
    };
    lemma_endpoints(second, job, run_id);
    let quick = shared.push("--dry-run"@).push("--omit-dir-times"@);
    lemma_endpoints(rsync::pushed_if(quick, checksum, "--checksum"@), job, run_id);
}

/// The baseline of a transfer is the snapshot that the transfer of the previous run made: where that
/// one went to a place at the receiver, with a slash behind it, this one names that place as its
/// baseline, without the slash.
pub proof fn law_baseline_is_the_previous_snapshot(
    job: config::JobView,
    run_id: Seq<char>,
    previous: Seq<char>,
    dry_run: bool,
    place: Seq<char>,
)
    requires
        rsync::is_run_id(previous),
        rsync::transfer_command(job, previous, None, false).last() == job.ssh.user + "@"@
            + job.ssh.host + ":"@ + (place + "/"@),
    ensures
        forall|a: Seq<char>| #[trigger]
            is_baseline(job, Some(previous), a) <==> a == "--link-dest="@ + place,
        options(rsync::transfer_command(job, run_id, Some(previous), dry_run)).contains(
            "--link-dest="@ + place,
        ),
{
    let found = rsync::bare_dir(job.destination_root) + "/snapshots/"@ + previous;
    let whole = rsync::snapshot(job, previous);
    let front = job.ssh.user + "@"@ + job.ssh.host + ":"@;
    reveal_strlit("/");
    assert(whole =~= found + "/"@);
    assert((front + whole).skip(front.len() as int) =~= whole);
    assert((front + (place + "/"@)).skip(front.len() as int) =~= place + "/"@);
    assert(whole.drop_last() =~= found);
    assert((place + "/"@).drop_last() =~= place);
    assert(rsync::is_run_id_char(24, previous[24]));
    assert(place.last() == previous[24]);
    assert(text::without_trailing(whole, '/') == text::without_trailing(whole.drop_last(), '/'));
    assert(text::without_trailing(place, '/') == place);
    law_transfer_options(job, run_id, Some(previous), dry_run, "--link-dest="@ + place);
}

/// The upload of a completion marker copies that marker, under its fixed name, into the snapshot
/// that the transfer of the run made, through the same remote shell. Its options are the four that
/// are named here and the remote shell, and no others.
pub proof fn law_marker_goes_into_the_snapshot(
    job: config::JobView,
    run_id: Seq<char>,
    marker: Seq<u8>,
    a: Seq<char>,
)
    ensures
        ({
            let transfer = rsync::transfer_command(job, run_id, None, false);
            let upload = rsync::marker_command(job, run_id, marker);
            let n = upload.len() as int;
            &&& upload[0] == "rsync"@
            &&& upload[n - 4] == "-e"@
            &&& upload[n - 3] == transfer[transfer.len() - 3]
            &&& upload[n - 2] == vstd::utf8::decode_utf8(marker)
            &&& upload[n - 1] == transfer.last() + ".hpc-sync-complete.json"@
            &&& options(upload).contains(a) <==> {
                ||| a == "rsync"@
                ||| a == "--archive"@
                ||| a == "--no-owner"@
                ||| a == "--no-group"@
                ||| a == "-e"@
                ||| a == transfer[transfer.len() - 3]
            }
        }),
{
    let transfer = rsync::transfer_command(job, run_id, None, false);
    let upload = rsync::marker_command(job, run_id, marker);
    let list = options(upload);
    assert(upload.last() =~= transfer.last() + ".hpc-sync-complete.json"@);
    assert(list[0] == "rsync"@);
    assert(list[1] == "--archive"@);
    assert(list[2] == "--no-owner"@);
    assert(list[3] == "--no-group"@);
    assert(list[4] == "-e"@);
    assert(list[5] == rsync::remote_shell(job.ssh));
    assert(list.len() == 6);
}

// ---------------------------------------------------------------------------
// The remote shell
// ---------------------------------------------------------------------------
/// The remote shell of an accepted job is `ssh` to the configured port with the configured key, and
/// every setting of it is one of those named here: the pinned host keys alone are believed, no
/// other key and no password is tried, no command and no proxy is run, and a connection is given up
/// after the configured time.
pub proof fn law_remote_shell_settings(job: config::JobView, setting: Seq<char>)
    requires
        config::job_fault(job) is None,
    ensures
        safety::shell_words(rsync::remote_shell(job.ssh)) matches Some(words) && {
            &&& words.len() >= 5
            &&& words.take(5) == seq![
                "ssh"@,
                "-p"@,
                number::decimal(job.ssh.port as nat),
                "-i"@,
                vstd::utf8::decode_utf8(job.ssh.identity_file),
            ]
            &&& forall|i: int|
                5 <= i < words.len() && i % 2 == 1 ==> i + 1 < words.len() && #[trigger] words[i]
                    == "-o"@
            &&& (exists|i: int|
                5 <= i < words.len() && i % 2 == 0 && #[trigger] words[i] == setting) <==> {
                ||| setting == "BatchMode=yes"@
                ||| setting == "StrictHostKeyChecking=yes"@
                ||| setting == "UserKnownHostsFile="@ + vstd::utf8::decode_utf8(
                    job.ssh.known_hosts_file,
                )
                ||| setting == "KnownHostsCommand=none"@
                ||| setting == "ProxyCommand=none"@
                ||| setting == "IdentitiesOnly=yes"@
                ||| setting == "PasswordAuthentication=no"@
                ||| setting == "KbdInteractiveAuthentication=no"@
                ||| setting == "ConnectTimeout="@ + number::decimal(
                    job.ssh.connect_timeout_seconds as nat,
                )
                ||| setting == "ServerAliveInterval=30"@
                ||| setting == "ServerAliveCountMax=3"@
            }
        },
{
    safety::law_remote_shell_is_strict(job);
    let words = rsync::ssh_words(job.ssh);
    assert(words.take(5) =~= seq![
        "ssh"@,
        "-p"@,
        number::decimal(job.ssh.port as nat),
        "-i"@,
        vstd::utf8::decode_utf8(job.ssh.identity_file),
    ]);
    assert(words.len() == 27);
    assert(words[6] == "BatchMode=yes"@);
    assert(words[8] == "StrictHostKeyChecking=yes"@);
    assert(words[10] == "UserKnownHostsFile="@ + vstd::utf8::decode_utf8(job.ssh.known_hosts_file));
    assert(words[12] == "KnownHostsCommand=none"@);
    assert(words[14] == "ProxyCommand=none"@);
    assert(words[16] == "IdentitiesOnly=yes"@);
    assert(words[18] == "PasswordAuthentication=no"@);
    assert(words[20] == "KbdInteractiveAuthentication=no"@);
    assert(words[22] == "ConnectTimeout="@ + number::decimal(
        job.ssh.connect_timeout_seconds as nat,
    ));
    assert(words[24] == "ServerAliveInterval=30"@);
    assert(words[26] == "ServerAliveCountMax=3"@);
}

/// A command is built exactly where it can be: the files of the remote shell, the source and the
/// destination are texts, and every run that it names has a run id. What stands in the way is told
/// apart by its code, and trying again does not help.
pub proof fn law_commands_are_built_where_they_can_be(
    job: config::JobView,
    run_id: Seq<char>,
    previous: Option<Seq<char>>,
    marker: Seq<u8>,
)
    ensures
        ({
            let shell = vstd::utf8::valid_utf8(job.ssh.identity_file) && vstd::utf8::valid_utf8(
                job.ssh.known_hosts_file,
            );
            let place = rsync::is_run_id(run_id) && vstd::utf8::valid_utf8(job.destination_root);
            &&& rsync::endpoints_fault(job, run_id) is None <==> shell && place
                && vstd::utf8::valid_utf8(job.source)
            &&& rsync::transfer_fault(job, run_id, previous) is None <==> shell && place
                && vstd::utf8::valid_utf8(job.source) && (previous matches Some(p)
                ==> rsync::is_run_id(p))
            &&& rsync::marker_fault(job, run_id, marker) is None <==> shell && place
                && vstd::utf8::valid_utf8(marker)
            &&& rsync::snapshot_fault(job, run_id) is None <==> place
            &&& !rsync::is_run_id(run_id) ==> rsync::transfer_fault(job, run_id, previous)->0.code
                == "run_id_invalid"@ && rsync::snapshot_fault(job, run_id)->0.code
                == "run_id_invalid"@
            &&& rsync::transfer_fault(job, run_id, previous) matches Some(e) ==> e.exit_code == 2
                && !e.retryable && (e.code == "run_id_invalid"@ || e.code == "path_invalid"@)
            &&& rsync::endpoints_fault(job, run_id) matches Some(e) ==> e.exit_code == 2
                && !e.retryable && (e.code == "run_id_invalid"@ || e.code == "path_invalid"@)
            &&& rsync::marker_fault(job, run_id, marker) matches Some(e) ==> e.exit_code == 2
                && !e.retryable && (e.code == "run_id_invalid"@ || e.code == "path_invalid"@)
        }),
{
}

} // verus!
