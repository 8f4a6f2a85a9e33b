//! What holds of the daemon: which arguments its programs get, what each request does, and what is
//! reported of a task.
use super::handler;
use super::handler::WorkResult;
use super::listing;
use super::ssh;
use super::state;
use super::worker;
use super::worker::{SyncEvent, WorkerEvent};
use crate::common::utils;
use crate::hpc_sync::{rsync, safety};
use crate::protocol;
use crate::protocol::{SyncDirection, SyncMode};
use crate::{lines, number, order, path, text};
use vstd::prelude::*;

verus! {

// ---------------------------------------------------------------------------
// What a synchronization asks of `rsync`
// ---------------------------------------------------------------------------
/// Whether an option says how a task treats files: compression, what is deleted or kept, and the
/// patterns of `.gitignore` files.
pub open spec fn is_treatment(task: protocol::TaskView, a: Seq<char>) -> bool {
    ||| task.compress && a == "-z"@
    ||| (task.sync_mode == SyncMode::Mirror || task.sync_mode == SyncMode::SafeSync) && a
        == "--delete"@
    ||| task.sync_mode == SyncMode::SafeSync && a == "--backup"@
    ||| task.sync_mode == SyncMode::SafeSync && a == "--backup-dir=.rsync-backup"@
    ||| task.sync_mode == SyncMode::Update && a == "--update"@
    ||| a == "--filter=:- .gitignore"@
}

/// The port of a task, or the usual one.
pub open spec fn port_text(port: Option<u16>) -> Seq<char> {
    match port {
        Some(p) => number::decimal(p as nat),
        None => "22"@,
    }
}

proof fn lemma_usual_port()
    ensures
        number::decimal(22) == "22"@,
{
    reveal_strlit("22");
    reveal_with_fuel(number::decimal, 3);
    assert(number::decimal(22) =~= "22"@);
}

proof fn lemma_treatment(task: protocol::TaskView, a: Seq<char>)
    ensures
        worker::shared_options(task).contains(a) <==> is_treatment(task, a),
{
    let all = worker::shared_options(task);
    let n: int = if task.compress {
        1
    } else {
        0
    };
    assert(task.compress ==> all[0] == "-z"@);
    match task.sync_mode {
        SyncMode::Mirror => {
            assert(all[n] == "--delete"@);
        },
        SyncMode::AddOnly => {},
        SyncMode::SafeSync => {
            assert(all[n] == "--delete"@);
            assert(all[n + 1] == "--backup"@);
            assert(all[n + 2] == "--backup-dir=.rsync-backup"@);
        },
        SyncMode::Update => {
            assert(all[n] == "--update"@);
        },
    }
    assert(all[all.len() - 1] == "--filter=:- .gitignore"@);
}

proof fn lemma_contains_add(x: Seq<Seq<char>>, y: Seq<Seq<char>>, a: Seq<char>)
    ensures
        (x + y).contains(a) <==> x.contains(a) || y.contains(a),
{
    if x.contains(a) {
        let k = choose|k: int| 0 <= k < x.len() && x[k] == a;
        assert((x + y)[k] == a);
    }
    if y.contains(a) {
        let k = choose|k: int| 0 <= k < y.len() && y[k] == a;
        assert((x + y)[x.len() + k] == a);
    }
}

/// After its two ends a synchronization has the options that are named here and those for how the
/// task treats files, and no others. Its remote shell goes to the port of the task.
pub proof fn law_synchronization_options(task: protocol::TaskView, is_file: bool, a: Seq<char>)
    ensures
        ({
            let args = worker::sync_args(task, is_file);
            let shell = "ssh -p "@ + port_text(task.remote_port)
                + " -T -c aes128-gcm@openssh.com -o Compression=no -o StrictHostKeyChecking=no -o ControlMaster=auto -o ControlPath=~/.ssh/sockets/%r@%h-%p -o ControlPersist=600"@;
            &&& args.skip(2).contains(a) <==> {
                ||| a == "-av"@
                ||| a == "--info=progress2"@
                ||| a == "--no-inc-recursive"@
                ||| a == "--partial"@
                ||| a == "--inplace"@
                ||| a == "-e"@
                ||| a == shell
                ||| is_treatment(task, a)
            }
            &&& args[7] == "-e"@
            &&& args[8] == shell
        }),
{
    lemma_usual_port();
    lemma_treatment(task, a);
    let args = worker::sync_args(task, is_file);
    let fixed = seq![
        "-av"@,
        "--info=progress2"@,
        "--no-inc-recursive"@,
        "--partial"@,
        "--inplace"@,
        "-e"@,
        worker::task_shell(task.remote_port),
    ];
    assert(args.skip(2) =~= fixed + worker::shared_options(task));
    lemma_contains_add(fixed, worker::shared_options(task), a);
    assert(fixed[0] == "-av"@);
    assert(fixed[1] == "--info=progress2"@);
    assert(fixed[2] == "--no-inc-recursive"@);
    assert(fixed[3] == "--partial"@);
    assert(fixed[4] == "--inplace"@);
    assert(fixed[5] == "-e"@);
    assert(fixed[6] == worker::task_shell(task.remote_port));
}

/// Before its two ends a dry run has the options that are named here, `-avn` among them, so that
/// nothing is changed, and those for how the task treats files. There are no others.
pub proof fn law_preview_options(task: protocol::TaskView, is_file: bool, a: Seq<char>)
    ensures
        ({
            let args = worker::dry_run_args(task, is_file);
            let shell =
                "ssh -T -c aes128-gcm@openssh.com -o Compression=no -o StrictHostKeyChecking=no -o ControlMaster=auto -o ControlPath=~/.ssh/sockets/%r@%h-%p -o ControlPersist=600"@;
            &&& args.take(args.len() - 2).contains(a) <==> {
                ||| a == "-avn"@
                ||| a == "--itemize-changes"@
                ||| a == "-e"@
                ||| a == shell
                ||| is_treatment(task, a)
            }
            &&& args[2] == "-e"@
            &&& args[3] == shell
        }),
{
    lemma_treatment(task, a);
    let args = worker::dry_run_args(task, is_file);
    let fixed = seq![
        "-avn"@,
        "--itemize-changes"@,
        "-e"@,
        "ssh -T -c aes128-gcm@openssh.com -o Compression=no -o StrictHostKeyChecking=no -o ControlMaster=auto -o ControlPath=~/.ssh/sockets/%r@%h-%p -o ControlPersist=600"@,
    ];
    assert(args.take(args.len() - 2) =~= fixed + worker::shared_options(task));
    lemma_contains_add(fixed, worker::shared_options(task), a);
    assert(fixed[0] == "-avn"@);
    assert(fixed[1] == "--itemize-changes"@);
    assert(fixed[2] == "-e"@);
    assert(fixed[3].len() >= 0);
}

/// The options for how files are treated are told apart.
proof fn lemma_treatments_differ(task: protocol::TaskView)
    ensures
        is_treatment(task, "--update"@) <==> task.sync_mode == SyncMode::Update,
        is_treatment(task, "--delete"@) <==> task.sync_mode == SyncMode::Mirror || task.sync_mode
            == SyncMode::SafeSync,
        is_treatment(task, "--backup"@) <==> task.sync_mode == SyncMode::SafeSync,
        is_treatment(task, "-z"@) <==> task.compress,
{
    reveal_strlit("-z");
    reveal_strlit("--delete");
    reveal_strlit("--backup");
    reveal_strlit("--backup-dir=.rsync-backup");
    reveal_strlit("--update");
    reveal_strlit("--filter=:- .gitignore");
    assert("-z"@.len() == 2);
    assert("--delete"@[2] == 'd');
    assert("--backup"@[2] == 'b');
    assert("--backup"@.len() == 8);
    assert("--backup-dir=.rsync-backup"@.len() == 26);
    assert("--update"@[2] == 'u');
    assert("--filter=:- .gitignore"@[2] == 'f');
}

/// The mode of a task decides what happens to files that differ, in its synchronization and in its
/// dry run alike: newer files at the receiver are left alone exactly in the mode Update, what the
/// sender lacks is deleted exactly in the modes Mirror and SafeSync, and what would be lost is kept
/// exactly in the mode SafeSync. Compression is used exactly where it is wanted.
pub proof fn law_modes_treat_files(task: protocol::TaskView, is_file: bool)
    ensures
        ({
            let sync = worker::sync_args(task, is_file).skip(2);
            let preview = worker::dry_run_args(task, is_file);
            let tried = preview.take(preview.len() - 2);
            let mode = task.sync_mode;
            &&& sync.contains("--update"@) <==> mode == SyncMode::Update
            &&& tried.contains("--update"@) <==> mode == SyncMode::Update
            &&& sync.contains("--delete"@) <==> mode == SyncMode::Mirror || mode
                == SyncMode::SafeSync
            &&& tried.contains("--delete"@) <==> mode == SyncMode::Mirror || mode
                == SyncMode::SafeSync
            &&& sync.contains("--backup"@) <==> mode == SyncMode::SafeSync
            &&& tried.contains("--backup"@) <==> mode == SyncMode::SafeSync
            &&& sync.contains("-z"@) <==> task.compress
            &&& tried.contains("-z"@) <==> task.compress
        }),
{
    lemma_treatments_differ(task);
    law_synchronization_options(task, is_file, "--update"@);
    law_synchronization_options(task, is_file, "--delete"@);
    law_synchronization_options(task, is_file, "--backup"@);
    law_synchronization_options(task, is_file, "-z"@);
    law_preview_options(task, is_file, "--update"@);
    law_preview_options(task, is_file, "--delete"@);
    law_preview_options(task, is_file, "--backup"@);
    law_preview_options(task, is_file, "-z"@);
    lemma_not_fixed("--update"@, port_text(task.remote_port));
    lemma_not_fixed("--delete"@, port_text(task.remote_port));
    lemma_not_fixed("--backup"@, port_text(task.remote_port));
    lemma_not_fixed("-z"@, port_text(task.remote_port));
}

/// None of the options that every task has says how files are treated.
proof fn lemma_not_fixed(a: Seq<char>, port: Seq<char>)
    requires
        a == "--update"@ || a == "--delete"@ || a == "--backup"@ || a == "-z"@,
    ensures
        a != "-av"@,
        a != "-avn"@,
        a != "--info=progress2"@,
        a != "--itemize-changes"@,
        a != "--no-inc-recursive"@,
        a != "--partial"@,
        a != "--inplace"@,
        a != "-e"@,
        a != "ssh -p "@ + port
            + " -T -c aes128-gcm@openssh.com -o Compression=no -o StrictHostKeyChecking=no -o ControlMaster=auto -o ControlPath=~/.ssh/sockets/%r@%h-%p -o ControlPersist=600"@,
        a
            != "ssh -T -c aes128-gcm@openssh.com -o Compression=no -o StrictHostKeyChecking=no -o ControlMaster=auto -o ControlPath=~/.ssh/sockets/%r@%h-%p -o ControlPersist=600"@,
{
    reveal_strlit("-z");
    reveal_strlit("--delete");
    reveal_strlit("--backup");
    reveal_strlit("--update");
    reveal_strlit("-av");
    reveal_strlit("-avn");
    reveal_strlit("--info=progress2");
    reveal_strlit("--itemize-changes");
    reveal_strlit("--no-inc-recursive");
    reveal_strlit("--partial");
    reveal_strlit("--inplace");
    reveal_strlit("-e");
    reveal_strlit("ssh -p ");
    reveal_strlit(
        "ssh -T -c aes128-gcm@openssh.com -o Compression=no -o StrictHostKeyChecking=no -o ControlMaster=auto -o ControlPath=~/.ssh/sockets/%r@%h-%p -o ControlPersist=600",
    );
    assert(a[0] == '-');
    assert(a.len() == 2 || a.len() == 8);
    assert("-av"@.len() == 3);
    assert("-avn"@.len() == 4);
    assert("--info=progress2"@.len() == 16);
    assert("--itemize-changes"@.len() == 17);
    assert("--no-inc-recursive"@.len() == 18);
    assert("--partial"@.len() == 9);
    assert("--inplace"@.len() == 9);
    assert("-e"@[1] == 'e');
    let shell = "ssh -p "@ + port
        + " -T -c aes128-gcm@openssh.com -o Compression=no -o StrictHostKeyChecking=no -o ControlMaster=auto -o ControlPath=~/.ssh/sockets/%r@%h-%p -o ControlPersist=600"@;
    assert(shell[0] == 's');
    assert("ssh -T -c aes128-gcm@openssh.com -o Compression=no -o StrictHostKeyChecking=no -o ControlMaster=auto -o ControlPath=~/.ssh/sockets/%r@%h-%p -o ControlPersist=600"@[0]
        == 's');
}

/// Two tasks that differ in their mode alone are never synchronized alike.
pub proof fn law_modes_differ(task: protocol::TaskView, other: SyncMode, is_file: bool)
    requires
        task.sync_mode != other,
    ensures
        ({
            let changed = protocol::TaskView { sync_mode: other, ..task };
            &&& worker::sync_args(task, is_file) != worker::sync_args(changed, is_file)
            &&& worker::dry_run_args(task, is_file) != worker::dry_run_args(changed, is_file)
        }),
{
    let changed = protocol::TaskView { sync_mode: other, ..task };
    law_modes_treat_files(task, is_file);
    law_modes_treat_files(changed, is_file);
}

/// A task that sends copies its source, a directory with a slash behind it so that its contents are
/// copied, to its place at its host; one that receives copies the contents of that place to its
/// source. A dry run has the source first and that place last.
pub proof fn law_tasks_copy_between_their_ends(task: protocol::TaskView, is_file: bool)
    ensures
        ({
            let args = worker::sync_args(task, is_file);
            let preview = worker::dry_run_args(task, is_file);
            let n = preview.len() as int;
            let place = task.remote_host + ":"@ + task.remote_path;
            &&& task.sync_direction == SyncDirection::Push ==> args[1] == place && args[0]
                == if is_file {
                task.source
            } else {
                task.source + "/"@
            }
            &&& task.sync_direction == SyncDirection::Pull ==> args[0] == place + "/"@ && args[1]
                == task.source
            &&& preview[n - 1] == place
            &&& preview[n - 2] == if is_file {
                task.source
            } else {
                task.source + "/"@
            }
        }),
{
}

// ---------------------------------------------------------------------------
// What a look at a remote host asks of `ssh`
// ---------------------------------------------------------------------------
/// Whether arguments of `ssh` run a command at a host: they name the port first and the host and
/// the command last, and every option between is one of those named here. Compression is turned
/// off exactly where `quick` is set.
pub open spec fn runs_at(
    args: Seq<Seq<char>>,
    host: Seq<char>,
    port: Option<u16>,
    quick: bool,
    command: Seq<char>,
) -> bool {
    let n = args.len() as int;
    &&& n >= 4
    &&& args[0] == "-p"@
    &&& args[1] == port_text(port)
    &&& args[n - 2] == host
    &&& args[n - 1] == command
    &&& forall|a: Seq<char>| #[trigger]
        args.subrange(2, n - 2).contains(a) <==> {
            ||| a == "-T"@
            ||| a == "-c"@
            ||| a == "aes128-gcm@openssh.com"@
            ||| a == "-o"@
            ||| quick && a == "Compression=no"@
            ||| a == "StrictHostKeyChecking=no"@
            ||| a == "ControlMaster=auto"@
            ||| a == "ControlPath=~/.ssh/sockets/%r@%h-%p"@
            ||| a == "ControlPersist=600"@
        }
}

proof fn lemma_runs_at(host: Seq<char>, port: Option<u16>, quick: bool, command: Seq<char>)
    ensures
        runs_at(ssh::ssh_args(host, port, quick, command), host, port, quick, command),
{
    lemma_usual_port();
    let args = ssh::ssh_args(host, port, quick, command);
    let n = args.len() as int;
    let inner = args.subrange(2, n - 2);
    let k: int = if quick {
        5
    } else {
        3
    };
    assert(inner[0] == "-T"@);
    assert(inner[1] == "-c"@);
    assert(inner[2] == "aes128-gcm@openssh.com"@);
    assert(quick ==> inner[3] == "-o"@ && inner[4] == "Compression=no"@);
    assert(inner[k] == "-o"@);
    assert(inner[k + 1] == "StrictHostKeyChecking=no"@);
    assert(inner[k + 3] == "ControlMaster=auto"@);
    assert(inner[k + 5] == "ControlPath=~/.ssh/sockets/%r@%h-%p"@);
    assert(inner[k + 7] == "ControlPersist=600"@);
}

/// A remote directory is listed where it is: the command names the path that was asked for, or the
/// directory of the login where none was, at the host, the port and with the password of the
/// request.
pub proof fn law_the_asked_directory_is_listed(
    before: state::StateView,
    host: Seq<char>,
    port: Option<u16>,
    p: Seq<char>,
    password: Option<Seq<char>>,
)
    requires
        utils::is_host(host),
    ensures
        handler::handled(
            before,
            protocol::RequestView::ListRemoteDirs(host, port, p, password),
        ).reply matches handler::ReplyView::After(
            handler::WorkView::ListRemote(args, used),
        ) && used == password && runs_at(
            args,
            host,
            port,
            true,
            if p.len() > 0 {
                "ls -1F --group-directories-first "@ + p
            } else {
                "ls -1F --group-directories-first ."@
            },
        ),
{
    lemma_runs_at(host, port, true, ssh::list_command(p));
    reveal_strlit(".");
    reveal_strlit("ls -1F --group-directories-first ");
    reveal_strlit("ls -1F --group-directories-first .");
    if p.len() == 0 {
        assert(ssh::list_command(p) =~= "ls -1F --group-directories-first ."@);
    }
}

/// Two different remote directories are listed by two different commands.
pub proof fn law_listings_differ(a: Seq<char>, b: Seq<char>)
    requires
        a.len() > 0,
        b.len() > 0,
        a != b,
    ensures
        ssh::list_command(a) != ssh::list_command(b),
{
    let n = "ls -1F --group-directories-first "@.len() as int;
    assert(ssh::list_command(a).skip(n) =~= a);
    assert(ssh::list_command(b).skip(n) =~= b);
}

/// The remote home directory is asked for with `pwd`, and a remote directory is made with
/// `mkdir -p` and its path as one word, which a shell reads back as it was given. Both run at the
/// host, the port and with the password of the request.
pub proof fn law_remote_commands_do_what_is_asked(
    before: state::StateView,
    host: Seq<char>,
    port: Option<u16>,
    p: Seq<char>,
    password: Option<Seq<char>>,
)
    requires
        utils::is_host(host),
    ensures
        handler::handled(
            before,
            protocol::RequestView::GetRemoteHome(host, port, password),
        ).reply matches handler::ReplyView::After(
            handler::WorkView::RemoteHome(args, used),
        ) && used == password && runs_at(args, host, port, false, "pwd"@),
        handler::handled(
            before,
            protocol::RequestView::CreateRemoteDir(host, port, p, password),
        ).reply matches handler::ReplyView::After(
            handler::WorkView::MakeRemoteDir(args, used),
        ) && used == password && runs_at(
            args,
            host,
            port,
            false,
            args[args.len() - 1],
        ) && (p.len() > 0 ==> safety::shell_words(args[args.len() - 1]) == Some(
            seq!["mkdir"@, "-p"@, p],
        )),
{
    lemma_runs_at(host, port, false, "pwd"@);
    lemma_runs_at(host, port, false, ssh::make_command(p));
    if p.len() > 0 {
        lemma_make_command(p);
    }
}

#[verifier::spinoff_prover]
proof fn lemma_joined_three(a: Seq<char>, b: Seq<char>, c: Seq<char>, sep: Seq<char>)
    ensures
        text::joined(seq![a, b, c], sep) == a + sep + b + sep + c,
{
    let all = seq![a, b, c];
    assert(all.drop_last() =~= seq![a, b]);
    assert(seq![a, b].drop_last() =~= seq![a]);
    assert(text::joined(seq![a], sep) == a);
    assert(text::joined(seq![a, b], sep) == text::joined(seq![a], sep) + sep + b);
    assert(text::joined(all, sep) == text::joined(seq![a, b], sep) + sep + c);
}

#[verifier::spinoff_prover]
proof fn lemma_make_words()
    ensures
        rsync::quoted("mkdir"@) == "mkdir"@,
        rsync::quoted("-p"@) == "-p"@,
        "mkdir"@ + " "@ + "-p"@ + " "@ == "mkdir -p "@,
{
    reveal_strlit("mkdir");
    reveal_strlit("-p");
    reveal_strlit(" ");
    reveal_strlit("mkdir -p ");
    assert forall|i: int| 0 <= i < "mkdir"@.len() implies rsync::is_plain(
        #[trigger] "mkdir"@[i],
    ) by {}
    assert forall|i: int| 0 <= i < "-p"@.len() implies rsync::is_plain(#[trigger] "-p"@[i]) by {}
    assert("mkdir"@ + " "@ + "-p"@ + " "@ =~= "mkdir -p "@);
}

#[verifier::spinoff_prover]
proof fn lemma_make_command(p: Seq<char>)
    requires
        p.len() > 0,
    ensures
        safety::shell_words(ssh::make_command(p)) == Some(seq!["mkdir"@, "-p"@, p]),
{
    let words = seq!["mkdir"@, "-p"@, p];
    lemma_make_words();
    assert(words[0].len() > 0 && words[1].len() > 0) by {
        reveal_strlit("mkdir");
        reveal_strlit("-p");
    }
    let quotes = words.map_values(|w: Seq<char>| rsync::quoted(w));
    assert(quotes =~= seq!["mkdir"@, "-p"@, rsync::quoted(p)]);
    lemma_joined_three("mkdir"@, "-p"@, rsync::quoted(p), " "@);
    assert(rsync::shell_line(words) == ssh::make_command(p));
    safety::law_quoting_is_faithful(words);
}

// ---------------------------------------------------------------------------
// What each request does
// ---------------------------------------------------------------------------
/// The tasks change only where a task is started, stopped or restarted. Every other request leaves
/// them and their workers alone.
pub proof fn law_other_requests_change_nothing(
    before: state::StateView,
    request: protocol::RequestView,
)
    ensures
        !(request is StartTask) && !(request is StopTask) && !(request is RestartTask) ==> {
            &&& handler::handled(before, request).state == before
            &&& handler::handled(before, request).effects.len() == 0
        },
        handler::handled(before, request).state.remote_host == before.remote_host,
{
}

/// The tasks that are there are told as they are; the local directory that was asked for is listed,
/// the root where none was; the log of the task that was asked for is read; and the local directory
/// that was named is made.
pub proof fn law_local_requests_are_carried_out(
    before: state::StateView,
    p: Seq<char>,
    id: Seq<char>,
)
    ensures
        handler::handled(before, protocol::RequestView::GetState).reply == handler::ReplyView::Now(
            protocol::ResponseView::State(before.tasks),
        ),
        handler::handled(before, protocol::RequestView::ListLocalDirs(p)).reply
            == handler::ReplyView::After(
            handler::WorkView::ListDir(
                if p.len() == 0 {
                    "/"@
                } else {
                    p
                },
            ),
        ),
        handler::handled(before, protocol::RequestView::GetTaskLog(id)).reply
            == handler::ReplyView::After(handler::WorkView::ReadLog(id)),
        handler::handled(before, protocol::RequestView::CreateLocalDir(p)).reply
            == handler::ReplyView::After(handler::WorkView::MakeLocalDir(p)),
{
}

/// In a sound state a task is found under its id, and nothing else is.
pub proof fn law_tasks_are_found_by_id(
    before: state::StateView,
    id: Seq<char>,
    task: protocol::TaskView,
)
    requires
        state::is_sound(before),
    ensures
        state::find_task(before.tasks, id) == Some(task) <==> before.tasks.contains(task) && task.id
            == id,
        state::find_task(before.tasks, id) is None <==> forall|i: int|
            0 <= i < before.tasks.len() ==> (#[trigger] before.tasks[i]).id != id,
{
    let all = state::ids(before.tasks);
    state::lemma_place_of(all, id);
    let at = state::place_of(all, id);
    if before.tasks.contains(task) && task.id == id {
        let k = choose|k: int| 0 <= k < before.tasks.len() && before.tasks[k] == task;
        assert(all[k] == id);
        if at != k {
            assert(at < k);
            assert(all[at] != all[k]);
        }
    }
    if at < before.tasks.len() {
        assert(all[at] == before.tasks[at].id);
    } else {
        assert forall|i: int| 0 <= i < before.tasks.len() implies (#[trigger] before.tasks[i]).id
            != id by {
            assert(all[i] == before.tasks[i].id);
        }
    }
}

/// A task is started where its host is accepted and its id is free: it is added behind the others,
/// its worker is started, and the tasks are written down with it. Otherwise nothing happens, and
/// the answer is an error.
pub proof fn law_starting_adds_the_task(before: state::StateView, task: protocol::TaskView)
    requires
        state::is_sound(before),
    ensures
        ({
            let after = handler::handled(before, protocol::RequestView::StartTask(task));
            let free = forall|i: int|
                0 <= i < before.tasks.len() ==> (#[trigger] before.tasks[i]).id != task.id;
            if utils::is_host(task.remote_host) && free {
                &&& after.state.tasks == before.tasks.push(task)
                &&& after.effects == seq![
                    handler::EffectView::StartWorker(task),
                    handler::EffectView::SaveTasks(before.tasks.push(task)),
                ]
                &&& after.reply == handler::ReplyView::Now(protocol::ResponseView::Ack)
            } else {
                &&& after.state == before
                &&& after.effects.len() == 0
                &&& after.reply matches handler::ReplyView::Now(protocol::ResponseView::Error(_))
            }
        }),
{
    law_tasks_are_found_by_id(before, task.id, task);
}

/// Stopping a task removes it and no other, ends its worker and no other, starts none, and writes
/// the remaining tasks down. Where no task has the id, the tasks stay as they are.
pub proof fn law_stopping_removes_the_task(before: state::StateView, id: Seq<char>)
    requires
        state::is_sound(before),
    ensures
        ({
            let after = handler::handled(before, protocol::RequestView::StopTask(id));
            let there = exists|i: int|
                0 <= i < before.tasks.len() && (#[trigger] before.tasks[i]).id == id;
            &&& after.state.tasks == before.tasks.filter(|t: protocol::TaskView| t.id != id)
            &&& after.effects == if there {
                seq![
                    handler::EffectView::StopWorker(id),
                    handler::EffectView::SaveTasks(after.state.tasks),
                ]
            } else {
                seq![handler::EffectView::SaveTasks(after.state.tasks)]
            }
            &&& after.reply == handler::ReplyView::Now(protocol::ResponseView::Ack)
        }),
{
    let all = state::ids(before.tasks);
    state::lemma_place_of(all, id);
    let at = state::place_of(all, id);
    let keep = |t: protocol::TaskView| t.id != id;
    assert forall|i: int| 0 <= i < before.tasks.len() && i != at implies keep(
        #[trigger] before.tasks[i],
    ) by {
        assert(all[i] == before.tasks[i].id);
        if at < all.len() {
            assert(all[at] == id);
            if i < at {
                assert(all[i] != all[at]);
            } else {
                assert(all[at] != all[i]);
            }
        }
    }
    if at < before.tasks.len() {
        assert(before.tasks[at].id == all[at]);
    }
    lemma_filter_without(before.tasks, keep, at);
    law_tasks_are_found_by_id(before, id, before.tasks[at]);
}

/// Filtering out the one item that is not wanted leaves the others.
proof fn lemma_filter_without(
    list: Seq<protocol::TaskView>,
    keep: spec_fn(protocol::TaskView) -> bool,
    at: int,
)
    requires
        0 <= at,
        at < list.len() ==> !keep(list[at]),
        forall|i: int| 0 <= i < list.len() && i != at ==> keep(#[trigger] list[i]),
    ensures
        list.filter(keep) == state::without(list, at),
    decreases list.len(),
{
    reveal(Seq::filter);
    if list.len() > 0 {
        let front = list.drop_last();
        if at < list.len() {
            if at < front.len() {
                assert(front[at] == list[at]);
            }
            assert forall|i: int| 0 <= i < front.len() && i != at implies keep(
                #[trigger] front[i],
            ) by {
                assert(front[i] == list[i]);
            }
            lemma_filter_without(front, keep, at);
            if at == front.len() {
                assert(state::without(front, at) =~= state::without(list, at));
            } else {
                assert(keep(list[list.len() - 1]));
                assert(state::without(front, at).push(list.last()) =~= state::without(list, at));
            }
        } else {
            assert forall|i: int| 0 <= i < front.len() && i != at implies keep(
                #[trigger] front[i],
            ) by {
                assert(front[i] == list[i]);
            }
            lemma_filter_without(front, keep, at);
            assert(keep(list[list.len() - 1]));
            assert(front.push(list.last()) =~= list);
        }
    }
}

/// Restarting a task ends its worker and starts a new one for the same task. The task says so in
/// its status and is otherwise as it was, and so is every other task. An id that no task has gives
/// an error, and nothing happens.
pub proof fn law_restarting_keeps_the_task(before: state::StateView, id: Seq<char>)
    requires
        state::is_sound(before),
    ensures
        ({
            let after = handler::handled(before, protocol::RequestView::RestartTask(id));
            &&& after.state.tasks.len() == before.tasks.len()
            &&& forall|i: int|
                0 <= i < before.tasks.len() ==> #[trigger] after.state.tasks[i] == if before.tasks[i].id
                    == id {
                    protocol::TaskView { status: "RESTARTING..."@, ..before.tasks[i] }
                } else {
                    before.tasks[i]
                }
            &&& forall|i: int|
                0 <= i < before.tasks.len() && (#[trigger] before.tasks[i]).id == id ==> {
                    &&& after.effects == seq![
                        handler::EffectView::StopWorker(id),
                        handler::EffectView::StartWorker(before.tasks[i]),
                    ]
                    &&& after.reply == handler::ReplyView::Now(protocol::ResponseView::Ack)
                }
            &&& (forall|i: int|
                0 <= i < before.tasks.len() ==> (#[trigger] before.tasks[i]).id != id) ==> {
                &&& after.effects.len() == 0
                &&& after.reply == handler::ReplyView::Now(
                    protocol::ResponseView::Error("Task "@ + id + " not found"@),
                )
            }
        }),
{
    let all = state::ids(before.tasks);
    state::lemma_place_of(all, id);
    let at = state::place_of(all, id);
    assert forall|i: int| 0 <= i < before.tasks.len() && (#[trigger] before.tasks[i]).id == id implies i
        == at by {
        assert(all[i] == id);
        if at < i {
            assert(all[at] != all[i]);
        }
    }
    if at < before.tasks.len() {
        assert(all[at] == before.tasks[at].id);
    }
}

/// A preview of a task is a dry run of that very task: nothing is started, stopped or changed. An
/// id that no task has gives an error.
pub proof fn law_previews_are_dry_runs(before: state::StateView, id: Seq<char>, task: protocol::TaskView)
    requires
        state::is_sound(before),
    ensures
        ({
            let after = handler::handled(before, protocol::RequestView::DryRun(id));
            &&& after.state == before
            &&& after.effects.len() == 0
            &&& before.tasks.contains(task) && task.id == id && utils::is_host(task.remote_host)
                ==> after.reply == handler::ReplyView::After(handler::WorkView::DryRun(task))
            &&& (forall|i: int|
                0 <= i < before.tasks.len() ==> (#[trigger] before.tasks[i]).id != id)
                ==> after.reply == handler::ReplyView::Now(
                protocol::ResponseView::Error("Task "@ + id + " not found"@),
            )
        }),
{
    law_tasks_are_found_by_id(before, id, task);
}

/// The answers tell what came of the work: the lines of a dry run, the log of the task that was
/// asked for, a success exactly where a directory was made, and otherwise why it was not.
pub proof fn law_answers_tell_what_came(
    outcome: ssh::ProcessOutcome,
    args: Seq<Seq<char>>,
    password: Option<Seq<char>>,
    task: protocol::TaskView,
    id: Seq<char>,
    p: Seq<char>,
    content: Option<String>,
    fault: Option<String>,
)
    ensures
        handler::answered(handler::WorkView::DryRun(task), WorkResult::Ran(outcome))
            == protocol::ResponseView::DryRunResult(
            match outcome@ {
                ssh::OutcomeView::Success(out) => lines::lines(path::lossy(out)),
                ssh::OutcomeView::Failure(err) => seq!["Error: "@ + path::lossy(err)],
                ssh::OutcomeView::NotRun(cause) => seq!["Exec Error: "@ + cause],
            },
        ),
        handler::answered(handler::WorkView::ReadLog(id), WorkResult::Content(content))
            == protocol::ResponseView::TaskLog(
            id,
            match content {
                Some(log) => log@,
                None => "No logs found yet."@,
            },
        ),
        handler::answered(handler::WorkView::MakeRemoteDir(args, password), WorkResult::Ran(outcome))
            == match outcome@ {
            ssh::OutcomeView::Success(_) => protocol::ResponseView::Ack,
            ssh::OutcomeView::Failure(err) => protocol::ResponseView::Error(
                "Mkdir failed: "@ + path::lossy(err),
            ),
            ssh::OutcomeView::NotRun(cause) => protocol::ResponseView::Error(
                "Mkdir failed: "@ + cause,
            ),
        },
        handler::answered(handler::WorkView::MakeLocalDir(p), WorkResult::Made(fault))
            == match fault {
            None => protocol::ResponseView::Ack,
            Some(e) => protocol::ResponseView::Error("Mkdir failed: "@ + e@),
        },
        handler::answered(handler::WorkView::RemoteHome(args, password), WorkResult::Ran(outcome))
            == protocol::ResponseView::RemoteHome(
            match outcome@ {
                ssh::OutcomeView::Success(out) => text::trimmed(path::lossy(out)),
                _ => "/"@,
            },
        ),
{
}

// ---------------------------------------------------------------------------
// Listings
// ---------------------------------------------------------------------------
/// The name under which an entry is listed: a directory with a slash behind it.
pub open spec fn listed_name(entry: (Seq<char>, bool)) -> Seq<char> {
    if entry.1 {
        entry.0 + "/"@
    } else {
        entry.0
    }
}

/// Whether an entry is hidden: its name starts with a dot.
pub open spec fn is_hidden(entry: (Seq<char>, bool)) -> bool {
    entry.0.len() > 0 && entry.0[0] == '.'
}

/// A listing holds every entry of a directory that is not hidden, as often as it is there, and
/// nothing else: one more entry is one more name, and a hidden one changes nothing.
pub proof fn law_entries_are_listed(entries: Seq<(Seq<char>, bool)>, entry: (Seq<char>, bool))
    ensures
        listing::listing(Seq::empty()).len() == 0,
        listing::listing(entries.push(entry)).to_multiset() == if is_hidden(entry) {
            listing::listing(entries).to_multiset()
        } else {
            listing::listing(entries).to_multiset().insert(listed_name(entry))
        },
{
    broadcast use vstd::seq_lib::group_to_multiset_ensures;

    listing::law_directories_come_first(entries);
    listing::law_directories_come_first(entries.push(entry));
    assert(entries.push(entry).drop_last() =~= entries);
    if !is_hidden(entry) {
        assert(listing::shown(entries.push(entry)) == listing::shown(entries).push(
            listed_name(entry),
        ));
    }
}

/// In a listing directories stand before files, and among either kind the names stand in the order
/// of their characters.
pub proof fn law_listings_are_in_order(entries: Seq<(Seq<char>, bool)>, i: int, j: int)
    requires
        0 <= i < j < listing::listing(entries).len(),
    ensures
        ({
            let a = listing::listing(entries)[i];
            let b = listing::listing(entries)[j];
            let a_dir = a.len() > 0 && a.last() == '/';
            let b_dir = b.len() > 0 && b.last() == '/';
            &&& b_dir ==> a_dir
            &&& a_dir == b_dir ==> !order::lexical(
                b.map_values(|c: char| c as int),
                a.map_values(|c: char| c as int),
            )
        }),
{
    listing::law_directories_come_first(entries);
    let a = listing::listing(entries)[i];
    let b = listing::listing(entries)[j];
    assert(!listing::shown_before(b, a));
    assert(order::char_codes(a) =~= a.map_values(|c: char| c as int));
    assert(order::char_codes(b) =~= b.map_values(|c: char| c as int));
}

/// Of the lines of a remote listing those that end with a slash are shown, without their slashes
/// and in their order. A listing that failed is shown as one line that says why.
pub proof fn law_remote_directories_are_shown(outcome: ssh::OutcomeView)
    ensures
        ssh::listed(outcome) == match outcome {
            ssh::OutcomeView::Success(out) => lines::lines(path::lossy(out)).filter(
                |line: Seq<char>| line.len() > 0 && line.last() == '/',
            ).map_values(|line: Seq<char>| line.filter(|c: char| c != '/')),
            ssh::OutcomeView::Failure(err) => seq!["SSH Error: "@ + path::lossy(err)],
            ssh::OutcomeView::NotRun(cause) => seq!["Exec Error: "@ + cause],
        },
{
    if let ssh::OutcomeView::Success(out) = outcome {
        lemma_dir_names(lines::lines(path::lossy(out)));
    }
}

proof fn lemma_dir_names(list: Seq<Seq<char>>)
    ensures
        ssh::dir_names(list) == list.filter(
            |line: Seq<char>| line.len() > 0 && line.last() == '/',
        ).map_values(|line: Seq<char>| line.filter(|c: char| c != '/')),
    decreases list.len(),
{
    reveal(Seq::filter);
    let pick = |line: Seq<char>| line.len() > 0 && line.last() == '/';
    let name = |line: Seq<char>| line.filter(|c: char| c != '/');
    if list.len() > 0 {
        let front = list.drop_last();
        lemma_dir_names(front);
        reveal_strlit("");
        text::law_replacing_by_nothing_removes(list.last(), '/');
        assert("".view() =~= Seq::<char>::empty());
        if pick(list.last()) {
            assert(list.filter(pick) == front.filter(pick).push(list.last()));
            assert(list.filter(pick).map_values(name) =~= front.filter(pick).map_values(name).push(
                name(list.last()),
            ));
        }
    }
    assert(ssh::dir_names(list) =~= list.filter(pick).map_values(name));
}

// ---------------------------------------------------------------------------
// What is reported of a task
// ---------------------------------------------------------------------------
/// The last status among reports, if there is one.
pub open spec fn last_status(reports: Seq<worker::ReportView>) -> Option<Seq<char>>
    decreases reports.len(),
{
    if reports.len() == 0 {
        None
    } else {
        match reports.last() {
            worker::ReportView::Status(s) => Some(s),
            _ => last_status(reports.drop_last()),
        }
    }
}

/// A synchronization goes its way: an accepted host is prepared for without a word, and then
/// `rsync` is started with the arguments of the task. It ends exactly where `rsync` ended, did not
/// start or could not be waited for, or where the host is not accepted. It is idle afterwards
/// exactly where `rsync` ended well.
pub proof fn law_synchronizations_run_rsync(task: protocol::TaskView, event: SyncEvent)
    ensures
        ({
            let step = worker::sync_next(task, event);
            let good = utils::is_host(task.remote_host);
            &&& event is Begin && good ==> step.next is Prepare && step.reports.len() == 0
                && step.state == worker::SyncState::Prepare
            &&& event is Begin && !good ==> last_status(step.reports) == Some("ERROR (Bad Host)"@)
            &&& event matches SyncEvent::Prepared(is_file) ==> step.next
                == worker::SyncNextView::Spawn(worker::sync_args(task, is_file))
                && last_status(step.reports) == Some("SYNCING 0%"@)
            &&& step.next is Over <==> {
                ||| event is Begin && !good
                ||| event is SpawnFailed
                ||| event is Ended
                ||| event is WaitFailed
            }
            &&& step.next is Wait <==> event is Stdout || event is Stderr
            &&& event matches SyncEvent::Ended(success, _) ==> last_status(step.reports) == Some(
                if success {
                    "IDLE"@
                } else {
                    "ERROR"@
                },
            )
            &&& event is SpawnFailed || event is WaitFailed ==> last_status(step.reports) == Some(
                "ERROR"@,
            )
        }),
{
    reveal_with_fuel(last_status, 4);
    let step = worker::sync_next(task, event);
    let r = step.reports;
    if event is Prepared {
        assert(r.drop_last().last() == r[1]);
    }
    if event is Begin && !utils::is_host(task.remote_host) {
        assert(r.drop_last().last() == r[0]);
    }
}

/// Each line of `rsync` goes to the log, under the name of the stream that it came from, and a line
/// that tells of the progress sets the status.
pub proof fn law_output_is_logged(task: protocol::TaskView, line: String, percent: Option<nat>)
    ensures
        worker::sync_next(task, SyncEvent::Stderr(line)).reports == seq![
            worker::ReportView::Line("STDERR"@, line@),
        ],
        worker::output_reports(line@, percent)[0] == worker::ReportView::Line("STDOUT"@, line@),
        last_status(worker::output_reports(line@, percent)) == match percent {
            Some(p) => Some("SYNCING "@ + number::decimal(p) + "%"@),
            None => None::<Seq<char>>,
        },
        worker::sync_next(task, SyncEvent::Stdout(line)).reports == worker::output_reports(
            line@,
            worker::percentage(worker::captured("\\s+(\\d+)%"@, line@)),
        ),
{
    reveal_with_fuel(last_status, 3);
    assert(worker::sync_next(task, SyncEvent::Stderr(line)).reports =~= seq![
        worker::ReportView::Line("STDERR"@, line@),
    ]);
}

/// A worker stops when it is told to, synchronizes when its time has come and not before, and waits
/// two seconds from the first change that it has not yet synchronized.
pub proof fn law_workers_wait_for_changes(deadline: Option<u64>, event: WorkerEvent)
    requires
        event matches WorkerEvent::Change(now) ==> now <= u64::MAX - 2000,
    ensures
        ({
            let (next, action) = worker::worker_next(deadline, event);
            &&& action is Stop <==> event is Kill
            &&& action is Sync <==> event is Timer
            &&& event is Timer ==> next is None
            &&& event matches WorkerEvent::Change(now) ==> match deadline {
                None => next == Some((now + 2000) as u64) && action is Tell,
                Some(d) => next == deadline && action is Rest,
            }
        }),
{
}

/// What a worker reports of a task changes that task alone, and nothing of it but its status or its
/// last log line.
pub proof fn law_reports_change_one_task(
    before: state::StateView,
    id: Seq<char>,
    s: Seq<char>,
    i: int,
)
    requires
        state::is_sound(before),
        0 <= i < before.tasks.len(),
    ensures
        state::with_status(before.tasks, id, s).len() == before.tasks.len(),
        state::with_log(before.tasks, id, s).len() == before.tasks.len(),
        state::with_status(before.tasks, id, s)[i] == if before.tasks[i].id == id {
            protocol::TaskView { status: s, ..before.tasks[i] }
        } else {
            before.tasks[i]
        },
        state::with_log(before.tasks, id, s)[i] == if before.tasks[i].id == id {
            protocol::TaskView { last_log: s, ..before.tasks[i] }
        } else {
            before.tasks[i]
        },
{
    let all = state::ids(before.tasks);
    state::lemma_place_of(all, id);
    let at = state::place_of(all, id);
    assert(all[i] == before.tasks[i].id);
    if before.tasks[i].id == id && at < i {
        assert(all[at] != all[i]);
    }
    if at < all.len() {
        assert(all[at] == before.tasks[at].id);
    }
}

/// A task counts as synchronized exactly where it is there and its status is idle.
pub proof fn law_synchronized_means_idle(before: state::StateView, task: protocol::TaskView)
    requires
        state::is_sound(before),
        before.tasks.contains(task),
    ensures
        worker::is_idle(before.tasks, task.id) <==> task.status == "IDLE"@,
{
    law_tasks_are_found_by_id(before, task.id, task);
}

/// The seconds between tries double, from two on.
pub proof fn law_waits_double(attempts: nat)
    requires
        attempts > 0,
    ensures
        worker::backoff(1) == 2,
        worker::backoff(attempts + 1) == 2 * worker::backoff(attempts),
{
    reveal_with_fuel(worker::backoff, 3);
}

/// A password is handed to `ssh` through the helper alone: the environment names the helper, forces
/// its use and carries the password. Without a password or a helper nothing is set.
pub proof fn law_passwords_go_through_the_helper(
    password: Option<Seq<char>>,
    script: Option<Seq<char>>,
    name: Seq<char>,
    value: Seq<char>,
)
    ensures
        ssh::password_env(password, script).contains((name, value)) <==> {
            &&& password is Some
            &&& script is Some
            &&& {
                ||| name == "SSH_ASKPASS"@ && value == script->0
                ||| name == "SSH_ASKPASS_REQUIRE"@ && value == "force"@
                ||| name == "SERVER_SYNC_PW"@ && value == password->0
                ||| name == "DISPLAY"@ && value == ":0"@
            }
        },
{
    let env = ssh::password_env(password, script);
    if password is Some && script is Some {
        assert(env[0] == ("SSH_ASKPASS"@, script->0));
        assert(env[1] == ("SSH_ASKPASS_REQUIRE"@, "force"@));
        assert(env[2] == ("SERVER_SYNC_PW"@, password->0));
        assert(env[3] == ("DISPLAY"@, ":0"@));
    }
}

/// A local directory is answered with the listing of its entries, or with why it cannot be read; a
/// remote one with the directories that were listed there.
pub proof fn law_listings_are_answered(
    p: Seq<char>,
    found: Result<Vec<listing::DirEntry>, String>,
    args: Seq<Seq<char>>,
    password: Option<Seq<char>>,
    outcome: ssh::ProcessOutcome,
)
    ensures
        handler::answered(handler::WorkView::ListDir(p), WorkResult::Entries(found)) == match found {
            Ok(entries) => protocol::ResponseView::DirList(
                listing::listing(listing::entry_views(entries@)),
            ),
            Err(e) => protocol::ResponseView::Error(e@),
        },
        handler::answered(
            handler::WorkView::ListRemote(args, password),
            WorkResult::Ran(outcome),
        ) == protocol::ResponseView::DirList(ssh::listed(outcome@)),
{
}

} // verus!
