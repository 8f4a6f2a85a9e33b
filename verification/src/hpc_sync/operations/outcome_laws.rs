//! What the operations come to: what they look at, where they keep things, and what they report of
//! what happened.
use super::super::config;
use super::super::exit_class;
use super::super::moment;
use super::super::moment::Moment;
use super::super::process;
use super::super::records;
use super::super::records::{RunStatus, VerifyStatus};
use super::super::rsync;
use super::check_plan;
use super::check_plan::CheckState;
use super::common;
use super::query;
use super::query::StatusState;
use super::run;
use super::step;
use super::verify;
use crate::{number, path};
use vstd::prelude::*;

verus! {

// ---------------------------------------------------------------------------
// Places
// ---------------------------------------------------------------------------
/// A file or directory in a directory.
pub open spec fn file_in(dir: Seq<u8>, name: Seq<char>) -> Seq<u8> {
    dir + seq![47u8] + vstd::utf8::encode_utf8(name)
}

/// Whether a text can name a file: it is not empty, holds ASCII characters and neither starts nor
/// ends with a slash.
pub open spec fn is_file_name(name: Seq<char>) -> bool {
    name.len() > 0 && vstd::utf8::is_ascii_chars(name) && name[0] != '/' && name.last() != '/'
}

/// Whether a path is that of a directory, written without a slash at its end.
pub open spec fn is_dir_path(p: Seq<u8>) -> bool {
    p.len() > 0 && p.last() != 47
}

proof fn lemma_under(dir: Seq<u8>, name: Seq<char>)
    requires
        is_dir_path(dir),
        is_file_name(name),
    ensures
        common::under(dir, name) == file_in(dir, name),
        is_dir_path(file_in(dir, name)),
{
    vstd::utf8::is_ascii_chars_encode_utf8(name);
    let bytes = vstd::utf8::encode_utf8(name);
    assert(bytes[0] == name[0] as u8);
    assert(bytes[bytes.len() - 1] == name[name.len() - 1] as u8);
    assert(name[0] as u32 != 47);
    assert(name[name.len() - 1] as u32 != 47);
    assert(file_in(dir, name).last() == bytes.last());
}

/// The files that the operations keep beside a run.
#[verifier::spinoff_prover]
proof fn lemma_run_files(dir: Seq<u8>)
    requires
        is_dir_path(dir),
    ensures
        common::under(dir, "items.txt"@) == file_in(dir, "items.txt"@),
        common::under(dir, "plan.stderr"@) == file_in(dir, "plan.stderr"@),
        common::under(dir, "plan.json"@) == file_in(dir, "plan.json"@),
        common::under(dir, "request.json"@) == file_in(dir, "request.json"@),
        common::under(dir, "result.json"@) == file_in(dir, "result.json"@),
        common::under(dir, "rsync.stdout"@) == file_in(dir, "rsync.stdout"@),
        common::under(dir, "rsync.stderr"@) == file_in(dir, "rsync.stderr"@),
        common::under(dir, "verify.stdout"@) == file_in(dir, "verify.stdout"@),
        common::under(dir, "verify.stderr"@) == file_in(dir, "verify.stderr"@),
        common::under(dir, "marker.stdout"@) == file_in(dir, "marker.stdout"@),
        common::under(dir, "marker.stderr"@) == file_in(dir, "marker.stderr"@),
        common::under(dir, "remote-complete.json"@) == file_in(dir, "remote-complete.json"@),
        common::under(dir, "COMPLETED"@) == file_in(dir, "COMPLETED"@),
{
    assert(is_file_name("items.txt"@)) by { reveal_strlit("items.txt"); }
    assert(is_file_name("plan.stderr"@)) by { reveal_strlit("plan.stderr"); }
    assert(is_file_name("plan.json"@)) by { reveal_strlit("plan.json"); }
    assert(is_file_name("request.json"@)) by { reveal_strlit("request.json"); }
    assert(is_file_name("result.json"@)) by { reveal_strlit("result.json"); }
    assert(is_file_name("rsync.stdout"@)) by { reveal_strlit("rsync.stdout"); }
    assert(is_file_name("rsync.stderr"@)) by { reveal_strlit("rsync.stderr"); }
    assert(is_file_name("verify.stdout"@)) by { reveal_strlit("verify.stdout"); }
    assert(is_file_name("verify.stderr"@)) by { reveal_strlit("verify.stderr"); }
    assert(is_file_name("marker.stdout"@)) by { reveal_strlit("marker.stdout"); }
    assert(is_file_name("marker.stderr"@)) by { reveal_strlit("marker.stderr"); }
    assert(is_file_name("remote-complete.json"@)) by { reveal_strlit("remote-complete.json"); }
    assert(is_file_name("COMPLETED"@)) by { reveal_strlit("COMPLETED"); }
    lemma_under(dir, "items.txt"@);
    lemma_under(dir, "plan.stderr"@);
    lemma_under(dir, "plan.json"@);
    lemma_under(dir, "request.json"@);
    lemma_under(dir, "result.json"@);
    lemma_under(dir, "rsync.stdout"@);
    lemma_under(dir, "rsync.stderr"@);
    lemma_under(dir, "verify.stdout"@);
    lemma_under(dir, "verify.stderr"@);
    lemma_under(dir, "marker.stdout"@);
    lemma_under(dir, "marker.stderr"@);
    lemma_under(dir, "remote-complete.json"@);
    lemma_under(dir, "COMPLETED"@);
}

/// Where one run of a job is kept.
pub open spec fn kept_at(state_dir: Seq<u8>, job_id: Seq<char>, run_id: Seq<char>) -> Seq<u8> {
    file_in(file_in(file_in(state_dir, "runs"@), job_id), run_id)
}

/// Whether the names that an operation works with can name files.
pub open spec fn has_names(state_dir: Seq<u8>, job_id: Seq<char>, run_id: Seq<char>) -> bool {
    is_dir_path(state_dir) && is_file_name(job_id) && is_file_name(run_id)
}

proof fn lemma_kept(state_dir: Seq<u8>, job_id: Seq<char>, run_id: Seq<char>)
    requires
        has_names(state_dir, job_id, run_id),
    ensures
        common::run_place(state_dir, job_id, run_id) == kept_at(state_dir, job_id, run_id),
        common::runs_place(state_dir, job_id) == file_in(file_in(state_dir, "runs"@), job_id),
        is_dir_path(kept_at(state_dir, job_id, run_id)),
{
    reveal_strlit("runs");
    lemma_under(state_dir, "runs"@);
    lemma_under(file_in(state_dir, "runs"@), job_id);
    lemma_under(file_in(file_in(state_dir, "runs"@), job_id), run_id);
}

/// The runs of a job are kept under the state directory in the directory `runs`, each under the id
/// of the job and then its own. The lock of the job and its latest result lie beside them, named
/// after the job.
pub proof fn law_things_are_kept_under_the_state_directory(
    state_dir: Seq<u8>,
    job_id: Seq<char>,
    run_id: Seq<char>,
)
    requires
        has_names(state_dir, job_id, run_id),
    ensures
        common::run_place(state_dir, job_id, run_id) == kept_at(state_dir, job_id, run_id),
        common::runs_place(state_dir, job_id) == file_in(file_in(state_dir, "runs"@), job_id),
        common::lock_place(state_dir, job_id) == file_in(
            file_in(state_dir, "locks"@),
            job_id + ".lock"@,
        ),
        common::latest_place(state_dir, job_id) == file_in(
            file_in(state_dir, "latest"@),
            job_id + ".json"@,
        ),
{
    lemma_kept(state_dir, job_id, run_id);
    reveal_strlit("locks");
    reveal_strlit("latest");
    reveal_strlit(".lock");
    reveal_strlit(".json");
    lemma_under(state_dir, "locks"@);
    lemma_under(state_dir, "latest"@);
    vstd::utf8::is_ascii_chars_concat(job_id + ".lock"@, job_id, ".lock"@);
    vstd::utf8::is_ascii_chars_concat(job_id + ".json"@, job_id, ".json"@);
    lemma_under(file_in(state_dir, "locks"@), job_id + ".lock"@);
    lemma_under(file_in(state_dir, "latest"@), job_id + ".json"@);
}

proof fn lemma_file_in_fixes(dir: Seq<u8>, a: Seq<char>, b: Seq<char>)
    requires
        file_in(dir, a) == file_in(dir, b),
    ensures
        a == b,
{
    let x = vstd::utf8::encode_utf8(a);
    let y = vstd::utf8::encode_utf8(b);
    let n = dir.len() as int + 1;
    assert(file_in(dir, a).skip(n) =~= x);
    assert(file_in(dir, b).skip(n) =~= y);
    vstd::utf8::encode_utf8_decode_utf8(a);
    vstd::utf8::encode_utf8_decode_utf8(b);
}

/// Two jobs share neither their lock nor their latest result nor their runs, and two runs of a job
/// are not kept in the same place.
pub proof fn law_jobs_and_runs_are_kept_apart(
    state_dir: Seq<u8>,
    a: Seq<char>,
    b: Seq<char>,
    x: Seq<char>,
    y: Seq<char>,
)
    requires
        has_names(state_dir, a, x),
        has_names(state_dir, b, y),
    ensures
        a != b ==> common::lock_place(state_dir, a) != common::lock_place(state_dir, b),
        a != b ==> common::latest_place(state_dir, a) != common::latest_place(state_dir, b),
        a != b ==> common::runs_place(state_dir, a) != common::runs_place(state_dir, b),
        x != y ==> common::run_place(state_dir, a, x) != common::run_place(state_dir, a, y),
{
    law_things_are_kept_under_the_state_directory(state_dir, a, x);
    law_things_are_kept_under_the_state_directory(state_dir, b, y);
    law_things_are_kept_under_the_state_directory(state_dir, a, y);
    if common::lock_place(state_dir, a) == common::lock_place(state_dir, b) {
        lemma_file_in_fixes(file_in(state_dir, "locks"@), a + ".lock"@, b + ".lock"@);
        lemma_same_end(a, b, ".lock"@);
    }
    if common::latest_place(state_dir, a) == common::latest_place(state_dir, b) {
        lemma_file_in_fixes(file_in(state_dir, "latest"@), a + ".json"@, b + ".json"@);
        lemma_same_end(a, b, ".json"@);
    }
    if common::runs_place(state_dir, a) == common::runs_place(state_dir, b) {
        lemma_file_in_fixes(file_in(state_dir, "runs"@), a, b);
    }
    if common::run_place(state_dir, a, x) == common::run_place(state_dir, a, y) {
        lemma_file_in_fixes(file_in(file_in(state_dir, "runs"@), a), x, y);
    }
}

proof fn lemma_same_end(a: Seq<char>, b: Seq<char>, end: Seq<char>)
    requires
        a + end == b + end,
    ensures
        a == b,
{
    assert(a.len() == (a + end).len() - end.len());
    assert(b.len() == (b + end).len() - end.len());
    assert((a + end).take(a.len() as int) =~= a);
    assert((b + end).take(b.len() as int) =~= b);
}

// ---------------------------------------------------------------------------
// Checking
// ---------------------------------------------------------------------------
/// Whether a host is ready for a job: the programs, the source with its marker, and the identity
/// and the known hosts are there, and nobody but the owner can read or write the identity.
pub open spec fn is_ready(job: config::JobView, facts: step::FactsView) -> bool {
    &&& facts.has_rsync
    &&& facts.has_ssh
    &&& facts.source_is_dir
    &&& job.source_complete_marker is Some ==> facts.marker_is_file
    &&& facts.identity_is_file
    &&& facts.known_hosts_is_file
    &&& facts.identity_mode matches Ok(bits) && bits & 0o777 == 0o600
}

/// A check looks at the source, the marker in it, the identity and the known hosts of the job
/// itself. It goes on, and with it a plan, exactly where the host is ready for the job.
pub proof fn law_checks_pass_where_the_host_is_ready(
    config: config::ConfigView,
    job_id: Seq<char>,
    job: config::JobView,
    facts: step::FactsView,
    process_id: u32,
    now: Moment,
)
    requires
        config::find_job(config.jobs, job_id) == Some(job),
    ensures
        ({
            let planning = check_plan::PlanInput { config, job_id, process_id };
            let looked = step::EventView::Facts(facts);
            &&& check_plan::check_next(
                config,
                job_id,
                CheckState::Start,
                step::EventView::Begin,
            ) matches step::StepView::Continue(_, step::ActionView::Inspect(i)) && {
                &&& i.source == job.source
                &&& i.identity_file == job.ssh.identity_file
                &&& i.known_hosts_file == job.ssh.known_hosts_file
                &&& i.marker is Some <==> job.source_complete_marker is Some
                &&& i.marker is Some ==> i.marker->0 == path::joined_path(
                    job.source,
                    job.source_complete_marker->0,
                )
                &&& check_plan::plan_next(
                    planning,
                    check_plan::PlanPhase::Start,
                    step::EventView::Begin,
                    now,
                ) matches step::StepView::Continue(_, step::ActionView::Inspect(j)) && j == i
            }
            &&& check_plan::check_next(
                config,
                job_id,
                CheckState::Inspect,
                looked,
            ) is Continue <==> is_ready(job, facts)
            &&& check_plan::plan_next(
                planning,
                check_plan::PlanPhase::Inspect,
                looked,
                now,
            ) is Continue <==> is_ready(job, facts)
        }),
{
}

/// What is missing for a job is told apart: a program, the source, its marker, a file of the remote
/// shell, or the permissions of the identity. Only a marker can still come.
pub proof fn law_missing_things_are_told_apart(
    config: config::ConfigView,
    job_id: Seq<char>,
    job: config::JobView,
    facts: step::FactsView,
)
    requires
        config::find_job(config.jobs, job_id) == Some(job),
        !is_ready(job, facts),
    ensures
        check_plan::check_next(
            config,
            job_id,
            CheckState::Inspect,
            step::EventView::Facts(facts),
        ) matches step::StepView::Finish(Err(e)) && {
            &&& e.exit_code == 2
            &&& e.code == if !facts.has_rsync || !facts.has_ssh {
                "binary_missing"@
            } else if !facts.source_is_dir {
                "source_missing"@
            } else if job.source_complete_marker is Some && !facts.marker_is_file {
                "source_incomplete"@
            } else if !facts.identity_is_file || !facts.known_hosts_is_file {
                "ssh_file_missing"@
            } else if facts.identity_mode is Err {
                "ssh_file_unreadable"@
            } else {
                "identity_permissions"@
            }
            &&& e.retryable <==> facts.has_rsync && facts.has_ssh && facts.source_is_dir
                && job.source_complete_marker is Some && !facts.marker_is_file
        },
{
}

/// A check that passes makes the state directory and says that the job is ready, with its own
/// source and destination.
pub proof fn law_ready_jobs_are_named(
    config: config::ConfigView,
    job_id: Seq<char>,
    job: config::JobView,
    facts: step::FactsView,
)
    requires
        config::find_job(config.jobs, job_id) == Some(job),
        is_ready(job, facts),
    ensures
        check_plan::check_next(
            config,
            job_id,
            CheckState::Inspect,
            step::EventView::Facts(facts),
        ) == step::StepView::<CheckState, records::CheckView>::Continue(
            CheckState::Prepare,
            step::ActionView::EnsureDir(config.state_dir),
        ),
        check_plan::check_next(
            config,
            job_id,
            CheckState::Prepare,
            step::EventView::Done,
        ) matches step::StepView::Finish(Ok(r)) && {
            &&& r.schema_version == 1
            &&& r.operation == "check"@
            &&& r.status == "ready"@
            &&& r.job_id == job_id
            &&& r.source == job.source
            &&& r.destination_root == job.destination_root
            &&& r.state_dir == config.state_dir
            &&& r.checks == if job.source_complete_marker is Some {
                seq![
                    "rsync_available"@,
                    "ssh_available"@,
                    "source_directory"@,
                    "source_complete_marker"@,
                ]
            } else {
                seq!["rsync_available"@, "ssh_available"@, "source_directory"@]
            }
            &&& r.next_actions == seq!["hpc-sync plan "@ + job_id + " --json"@]
        },
{
    let base = seq!["rsync_available"@, "ssh_available"@, "source_directory"@];
    assert(base.push("source_complete_marker"@) =~= seq![
        "rsync_available"@,
        "ssh_available"@,
        "source_directory"@,
        "source_complete_marker"@,
    ]);
}

/// A job that is not defined is refused by every operation, at every step, whatever came of it.
pub proof fn law_unknown_jobs_are_refused(
    config: config::ConfigView,
    job_id: Seq<char>,
    event: step::EventView,
    check: CheckState,
    planning: check_plan::PlanPhase,
    running: run::RunPhase,
    comparing: verify::VerifyPhase,
    looking: StatusState,
    listing: query::HistoryPhase,
    names: (Seq<char>, Seq<char>, bool, usize, u32),
    now: Moment,
    time: Seq<char>,
)
    requires
        forall|i: int| 0 <= i < config.jobs.len() ==> (#[trigger] config.jobs[i]).0 != job_id,
    ensures
        ({
            let run_input = run::RunInput {
                config,
                job_id,
                plan_run_id: names.0,
                approval: names.1,
            };
            let verify_input = verify::VerifyInput {
                config,
                job_id,
                run_id: names.0,
                checksum: names.2,
            };
            let plan_input = check_plan::PlanInput { config, job_id, process_id: names.4 };
            let refusal = config::unknown_job(job_id);
            &&& refusal.code == "job_not_found"@
            &&& refusal.exit_code == 2
            &&& !refusal.retryable
            &&& check_plan::check_next(config, job_id, check, event) == step::StepView::<
                CheckState,
                records::CheckView,
            >::Finish(Err(refusal))
            &&& check_plan::plan_next(plan_input, planning, event, now) == step::StepView::<
                check_plan::PlanPhase,
                records::PlanView,
            >::Finish(Err(refusal))
            &&& run::run_next(run_input, running, event, time) == step::StepView::<
                run::RunPhase,
                records::RunView,
            >::Finish(Err(refusal))
            &&& verify::verify_next(verify_input, comparing, event, time) == step::StepView::<
                verify::VerifyPhase,
                records::VerifyView,
            >::Finish(Err(refusal))
            &&& query::status_next(config, job_id, looking, event) == step::StepView::<
                StatusState,
                records::StatusView,
            >::Finish(Err(refusal))
            &&& query::history_next(config, job_id, names.3, listing, event) == step::StepView::<
                query::HistoryPhase,
                records::HistoryView,
            >::Finish(Err(refusal))
        }),
{
    config::law_only_predefined_jobs(config.jobs, job_id);
}

// ---------------------------------------------------------------------------
// Planning
// ---------------------------------------------------------------------------
/// A plan gets a directory of its own, under the id that it was given, and its dry run writes the
/// changes and the diagnostics into it. The dry run may take as long as the job allows.
pub proof fn law_plans_have_a_directory(
    input: check_plan::PlanInput,
    job: config::JobView,
    plan: check_plan::PreparedView,
    now: Moment,
)
    requires
        config::find_job(input.config.jobs, input.job_id) == Some(job),
        has_names(input.config.state_dir, input.job_id, plan.draft.run_id),
    ensures
        check_plan::plan_next(
            input,
            check_plan::PlanPhase::Prepare,
            step::EventView::Done,
            now,
        ) matches step::StepView::Continue(
            check_plan::PlanPhase::MakeDir(run_id),
            step::ActionView::EnsureDir(dir),
        ) && run_id == moment::made_run_id(now, input.process_id) && (is_file_name(run_id) ==> dir
            == kept_at(input.config.state_dir, input.job_id, run_id)),
        ({
            let dir = kept_at(input.config.state_dir, input.job_id, plan.draft.run_id);
            check_plan::plan_next(
                input,
                check_plan::PlanPhase::Lock(plan),
                step::EventView::Done,
                now,
            ) == step::StepView::<check_plan::PlanPhase, records::PlanView>::Continue(
                check_plan::PlanPhase::DryRun(plan),
                step::ActionView::Execute(
                    process::ExecutionView {
                        command: plan.command,
                        timeout_seconds: job.max_runtime_seconds,
                        stdout_path: file_in(dir, "items.txt"@),
                        stderr_path: file_in(dir, "plan.stderr"@),
                    },
                ),
            )
        }),
{
    lemma_kept(input.config.state_dir, input.job_id, plan.draft.run_id);
    lemma_run_files(kept_at(input.config.state_dir, input.job_id, plan.draft.run_id));
    let run_id = moment::made_run_id(now, input.process_id);
    if is_file_name(run_id) {
        lemma_kept(input.config.state_dir, input.job_id, run_id);
    }
}

/// A plan keeps the id, the time and the fingerprint that it was begun with, and looks for its
/// baseline among the runs of its own job, the newest first.
pub proof fn law_plans_keep_their_beginning(
    input: check_plan::PlanInput,
    job: config::JobView,
    run_id: Seq<char>,
    started_at: Seq<char>,
    payload: Seq<char>,
    names: Seq<Seq<u8>>,
    now: Moment,
)
    requires
        config::find_job(input.config.jobs, input.job_id) == Some(job),
        has_names(input.config.state_dir, input.job_id, run_id),
    ensures
        check_plan::plan_next(
            input,
            check_plan::PlanPhase::MakeDir(run_id),
            step::EventView::Done,
            now,
        ) == step::StepView::<check_plan::PlanPhase, records::PlanView>::Continue(
            check_plan::PlanPhase::Serialize(run_id, moment::rfc3339(now.seconds, now.nanos)),
            step::ActionView::SerializeJob,
        ),
        check_plan::plan_next(
            input,
            check_plan::PlanPhase::Serialize(run_id, started_at),
            step::EventView::Serialized(Ok(payload)),
            now,
        ) matches step::StepView::Continue(
            check_plan::PlanPhase::List(draft),
            step::ActionView::ListRuns(dir),
        ) && {
            &&& draft.run_id == run_id
            &&& draft.started_at == started_at
            &&& draft.config_hash == common::job_hash(input.job_id, payload)
            &&& dir == file_in(file_in(input.config.state_dir, "runs"@), input.job_id)
            &&& names.len() > 0 ==> (check_plan::plan_next(
                input,
                check_plan::PlanPhase::List(draft),
                step::EventView::Names(names),
                now,
            ) matches step::StepView::Continue(
                check_plan::PlanPhase::Scan(kept, list),
                step::ActionView::ReadRun(p),
            ) && kept == draft && list == common::newest_first(names) && p == common::under(
                path::joined_path(dir, list[0]),
                "result.json"@,
            ))
            &&& names.len() == 0 && rsync::transfer_fault(job, run_id, None) is None ==> (
            check_plan::plan_next(
                input,
                check_plan::PlanPhase::List(draft),
                step::EventView::Names(names),
                now,
            ) matches step::StepView::Continue(check_plan::PlanPhase::Lock(kept), _)
                && kept.draft == draft && kept.previous_run_id is None)
        },
{
    lemma_kept(input.config.state_dir, input.job_id, run_id);
    common::law_newest_first_is_an_order(names);
}

/// The baseline that was found is the one that is planned with, under the lock of the job: it is
/// named in the plan and used by its command.
pub proof fn law_the_baseline_is_planned_with(
    input: check_plan::PlanInput,
    job: config::JobView,
    draft: check_plan::DraftView,
    previous: Option<Seq<char>>,
)
    requires
        has_names(input.config.state_dir, input.job_id, draft.run_id),
        rsync::transfer_fault(job, draft.run_id, previous) is None,
    ensures
        check_plan::planned(input, job, draft, previous) matches step::StepView::Continue(
            check_plan::PlanPhase::Lock(plan),
            step::ActionView::Lock(p),
        ) && {
            &&& plan.draft == draft
            &&& plan.previous_run_id == previous
            &&& plan.command == rsync::transfer_command(job, draft.run_id, previous, true)
            &&& p == file_in(file_in(input.config.state_dir, "locks"@), input.job_id + ".lock"@)
        },
{
    law_things_are_kept_under_the_state_directory(
        input.config.state_dir,
        input.job_id,
        draft.run_id,
    );
}

/// A dry run that ended well gives a plan: it names the job, the run, its baseline, its snapshot
/// and its directory, the command that was executed, the changes that it counted and the file that
/// holds them, and it asks for approval by its own hash. Beside it the request keeps the job as it
/// was planned.
pub proof fn law_plans_tell_what_is_planned(
    input: check_plan::PlanInput,
    job: config::JobView,
    plan: check_plan::PreparedView,
    output: process::OutputView,
    now: Moment,
    later: Moment,
)
    requires
        config::find_job(input.config.jobs, input.job_id) == Some(job),
        has_names(input.config.state_dir, input.job_id, plan.draft.run_id),
        rsync::snapshot_fault(job, plan.draft.run_id) is None,
        output.exit_code == 0,
        process::item_count(output.stdout) <= usize::MAX,
    ensures
        ({
            let run_id = plan.draft.run_id;
            let dir = kept_at(input.config.state_dir, input.job_id, run_id);
            check_plan::plan_next(
                input,
                check_plan::PlanPhase::DryRun(plan),
                step::EventView::Output(output),
                now,
            ) matches step::StepView::Continue(
                check_plan::PlanPhase::WriteRequest(made),
                step::ActionView::WriteRequest(p, request),
            ) && {
                &&& p == file_in(dir, "request.json"@)
                &&& request == (records::RequestView {
                    schema_version: 1,
                    operation: "request"@,
                    job_id: input.job_id,
                    run_id,
                    config_hash: plan.draft.config_hash,
                    job,
                    created_at: plan.draft.started_at,
                })
                &&& made == (records::PlanView {
                    schema_version: 1,
                    operation: "plan"@,
                    status: "planned"@,
                    job_id: input.job_id,
                    run_id,
                    config_hash: plan.draft.config_hash,
                    plan_hash: made.plan_hash,
                    previous_run_id: plan.previous_run_id,
                    snapshot_path: rsync::snapshot(job, run_id),
                    started_at: plan.draft.started_at,
                    finished_at: moment::rfc3339(now.seconds, now.nanos),
                    rsync_exit_code: 0,
                    item_count: made.item_count,
                    run_dir: dir,
                    items_path: file_in(dir, "items.txt"@),
                    command: plan.command,
                    next_actions: seq![
                        "hpc-sync run "@ + input.job_id + " --plan-run-id "@ + run_id
                            + " --approval "@ + made.plan_hash + " --json"@,
                    ],
                })
                &&& made.item_count == process::item_count(output.stdout)
                &&& check_plan::plan_next(
                    input,
                    check_plan::PlanPhase::WriteRequest(made),
                    step::EventView::Done,
                    later,
                ) == step::StepView::<check_plan::PlanPhase, records::PlanView>::Continue(
                    check_plan::PlanPhase::WritePlan(made),
                    step::ActionView::WritePlan(file_in(dir, "plan.json"@), made),
                )
                &&& check_plan::plan_next(
                    input,
                    check_plan::PlanPhase::WritePlan(made),
                    step::EventView::Done,
                    later,
                ) == step::StepView::<check_plan::PlanPhase, records::PlanView>::Finish(Ok(made))
            }
        }),
{
    lemma_kept(input.config.state_dir, input.job_id, plan.draft.run_id);
    lemma_run_files(kept_at(input.config.state_dir, input.job_id, plan.draft.run_id));
}

/// A dry run that failed gives no plan. The error tells its exit code and class, whether to try
/// again, and where the diagnostics are; the process exits with the code of a failed transfer.
pub proof fn law_failed_dry_runs_give_no_plan(
    input: check_plan::PlanInput,
    job: config::JobView,
    plan: check_plan::PreparedView,
    output: process::OutputView,
    now: Moment,
)
    requires
        config::find_job(input.config.jobs, input.job_id) == Some(job),
        output.exit_code != 0,
    ensures
        check_plan::plan_next(
            input,
            check_plan::PlanPhase::DryRun(plan),
            step::EventView::Output(output),
            now,
        ) matches step::StepView::Finish(Err(e)) && {
            &&& e.code == "rsync_plan_failed"@
            &&& e.exit_code == 10
            &&& e.retryable == exit_class::class_of(output.exit_code as int, output.stderr).1
        },
{
}

/// The parts that the hash of a plan covers.
pub open spec fn covered(
    config_hash: Seq<char>,
    run_id: Seq<char>,
    previous: Option<Seq<char>>,
    snapshot: Seq<char>,
    items: Seq<char>,
) -> Seq<Seq<char>> {
    seq![
        config_hash,
        run_id,
        match previous {
            Some(p) => p,
            None => Seq::empty(),
        },
        snapshot,
        process::hex(process::sha256(process::frame(seq![items]))),
    ]
}

/// The hash of a plan is the digest of its configuration, its run, its baseline, its snapshot and
/// the digest of the changes. Plans that differ in one of these differ in what is hashed.
pub proof fn law_plan_hashes_cover_the_plan(
    config_hash: (Seq<char>, Seq<char>),
    run_id: (Seq<char>, Seq<char>),
    previous: (Option<Seq<char>>, Option<Seq<char>>),
    snapshot: (Seq<char>, Seq<char>),
    items: (Seq<char>, Seq<char>),
)
    ensures
        ({
            let a = covered(config_hash.0, run_id.0, previous.0, snapshot.0, items.0);
            let b = covered(config_hash.1, run_id.1, previous.1, snapshot.1, items.1);
            &&& check_plan::plan_hash(config_hash.0, run_id.0, previous.0, snapshot.0, items.0)
                == process::hex(process::sha256(process::frame(a)))
            &&& (forall|i: int|
                #![trigger a[i]]
                #![trigger b[i]]
                0 <= i < 5 ==> vstd::utf8::encode_utf8(a[i]).len() <= usize::MAX
                    && vstd::utf8::encode_utf8(b[i]).len() <= usize::MAX) && a != b
                ==> process::frame(a) != process::frame(b)
        }),
{
    reveal_strlit("");
    assert(""@ =~= Seq::<char>::empty());
    let a = covered(config_hash.0, run_id.0, previous.0, snapshot.0, items.0);
    let b = covered(config_hash.1, run_id.1, previous.1, snapshot.1, items.1);
    assert(a =~= seq![
        config_hash.0,
        run_id.0,
        check_plan::baseline_name(previous.0),
        snapshot.0,
        process::fingerprint(seq![items.0]),
    ]);
    if process::frame(a) == process::frame(b) && forall|i: int|
        #![trigger a[i]]
        #![trigger b[i]]
        0 <= i < 5 ==> vstd::utf8::encode_utf8(a[i]).len() <= usize::MAX
            && vstd::utf8::encode_utf8(b[i]).len() <= usize::MAX {
        process::law_frames_are_unambiguous(a, b);
    }
}

// ---------------------------------------------------------------------------
// Running
// ---------------------------------------------------------------------------
/// A plan is applied only for the job that it was made for and with its own hash. What does not fit
/// is told apart.
pub proof fn law_approval_is_exact(
    input: run::RunInput,
    job: config::JobView,
    plan: records::PlanView,
    request: records::RequestView,
    now: Seq<char>,
)
    requires
        config::find_job(input.config.jobs, input.job_id) == Some(job),
    ensures
        ({
            let next = run::run_next(
                input,
                run::RunPhase::ReadRequest(plan),
                step::EventView::Request(request),
                now,
            );
            let fits = plan.job_id == input.job_id && request.job_id == input.job_id;
            &&& fits && plan.plan_hash == input.approval <==> next == step::StepView::<
                run::RunPhase,
                records::RunView,
            >::Continue(run::RunPhase::Serialize(plan, request), step::ActionView::SerializeJob)
            &&& !fits ==> (next matches step::StepView::Finish(Err(e)) && e.code
                == "plan_job_mismatch"@ && e.exit_code == 2 && !e.retryable)
            &&& fits && plan.plan_hash != input.approval ==> (next matches step::StepView::Finish(
                Err(e),
            ) && e.code == "approval_mismatch"@ && e.exit_code == 2 && !e.retryable)
        }),
{
}

/// A run goes on from its approval only where the configuration of the job has the fingerprint that
/// both the plan and the request hold. It then holds the plan and the time, and waits for the lock
/// of its job.
pub proof fn law_runs_need_the_planned_configuration(
    input: run::RunInput,
    job: config::JobView,
    plan: records::PlanView,
    request: records::RequestView,
    payload: Seq<char>,
    now: Seq<char>,
)
    requires
        config::find_job(input.config.jobs, input.job_id) == Some(job),
        rsync::transfer_fault(job, input.plan_run_id, plan.previous_run_id) is None,
        has_names(input.config.state_dir, input.job_id, input.plan_run_id),
    ensures
        ({
            let next = run::run_next(
                input,
                run::RunPhase::Serialize(plan, request),
                step::EventView::Serialized(Ok(payload)),
                now,
            );
            let hash = common::job_hash(input.job_id, payload);
            &&& next is Continue <==> hash == plan.config_hash && hash == request.config_hash
            &&& next matches step::StepView::Continue(phase, action) ==> {
                &&& action == step::ActionView::Lock(
                    file_in(file_in(input.config.state_dir, "locks"@), input.job_id + ".lock"@),
                )
                &&& phase matches run::RunPhase::Lock(started) && started.plan == plan
                    && started.started_at == now && started.command == rsync::transfer_command(
                    job,
                    input.plan_run_id,
                    plan.previous_run_id,
                    false,
                )
            }
            &&& next matches step::StepView::Finish(end) ==> end matches Err(e) && e.code
                == "config_changed"@
        }),
{
    law_things_are_kept_under_the_state_directory(
        input.config.state_dir,
        input.job_id,
        input.plan_run_id,
    );
}

/// What a run reads and executes lies in its own directory: the result of an earlier attempt, the
/// plan, the request, and the output of the transfer. The transfer may take as long as the job
/// allows.
pub proof fn law_runs_work_in_their_directory(
    input: run::RunInput,
    job: config::JobView,
    started: run::StartedView,
    plan: records::PlanView,
    found: bool,
    now: Seq<char>,
)
    requires
        config::find_job(input.config.jobs, input.job_id) == Some(job),
        has_names(input.config.state_dir, input.job_id, input.plan_run_id),
    ensures
        ({
            let dir = kept_at(input.config.state_dir, input.job_id, input.plan_run_id);
            &&& run::run_next(input, run::RunPhase::Start, step::EventView::Begin, now)
                == step::StepView::<run::RunPhase, records::RunView>::Continue(
                run::RunPhase::FindResult,
                step::ActionView::FindFile(file_in(dir, "result.json"@)),
            )
            &&& run::run_next(input, run::RunPhase::FindResult, step::EventView::Found(found), now)
                == if found {
                step::StepView::<run::RunPhase, records::RunView>::Continue(
                    run::RunPhase::ReadResult,
                    step::ActionView::ReadRun(file_in(dir, "result.json"@)),
                )
            } else {
                step::StepView::<run::RunPhase, records::RunView>::Continue(
                    run::RunPhase::ReadPlan,
                    step::ActionView::ReadPlan(file_in(dir, "plan.json"@)),
                )
            }
            &&& run::run_next(input, run::RunPhase::ReadPlan, step::EventView::Plan(plan), now)
                == step::StepView::<run::RunPhase, records::RunView>::Continue(
                run::RunPhase::ReadRequest(plan),
                step::ActionView::ReadRequest(file_in(dir, "request.json"@)),
            )
            &&& run::run_next(input, run::RunPhase::Lock(started), step::EventView::Done, now)
                == step::StepView::<run::RunPhase, records::RunView>::Continue(
                run::RunPhase::Transfer(started),
                step::ActionView::Execute(
                    process::ExecutionView {
                        command: started.command,
                        timeout_seconds: job.max_runtime_seconds,
                        stdout_path: file_in(dir, "rsync.stdout"@),
                        stderr_path: file_in(dir, "rsync.stderr"@),
                    },
                ),
            )
        }),
{
    lemma_kept(input.config.state_dir, input.job_id, input.plan_run_id);
    lemma_run_files(kept_at(input.config.state_dir, input.job_id, input.plan_run_id));
}

/// A result that failed before does not end a run: the plan is applied once more.
pub proof fn law_failed_runs_are_tried_again(
    input: run::RunInput,
    job: config::JobView,
    result: records::RunView,
    now: Seq<char>,
)
    requires
        config::find_job(input.config.jobs, input.job_id) == Some(job),
        result.status != RunStatus::Success,
    ensures
        run::run_next(input, run::RunPhase::ReadResult, step::EventView::Run(result), now)
            == run::run_next(
            input,
            run::RunPhase::FindResult,
            step::EventView::Found(false),
            now,
        ),
{
}

/// Whether a step writes a result down in the directory of the run.
pub open spec fn writes(input: run::RunInput, next: run::RunStep, result: records::RunView) -> bool {
    next == step::StepView::<run::RunPhase, records::RunView>::Continue(
        run::RunPhase::WriteResult(result),
        step::ActionView::WriteRun(
            file_in(
                kept_at(input.config.state_dir, input.job_id, input.plan_run_id),
                "result.json"@,
            ),
            result,
        ),
    )
}

/// Whether a result is about a run: it names the job, the run, the plan and its baseline, the
/// snapshot, the times, the directory and the command.
pub open spec fn is_about(
    input: run::RunInput,
    started: run::StartedView,
    now: Seq<char>,
    result: records::RunView,
) -> bool {
    &&& result.schema_version == 1
    &&& result.operation == "run"@
    &&& result.job_id == input.job_id
    &&& result.run_id == input.plan_run_id
    &&& result.config_hash == started.plan.config_hash
    &&& result.plan_hash == started.plan.plan_hash
    &&& result.previous_run_id == started.plan.previous_run_id
    &&& result.snapshot_path == started.plan.snapshot_path
    &&& result.started_at == started.started_at
    &&& result.finished_at == now
    &&& result.run_dir == kept_at(input.config.state_dir, input.job_id, input.plan_run_id)
    &&& result.command == started.command
    &&& result.next_actions.len() == 1
}

/// A transfer that failed ends the run: nothing is compared or marked, and the result tells the
/// exit code of the transfer and its class.
pub proof fn law_failed_transfers_are_reported(
    input: run::RunInput,
    job: config::JobView,
    started: run::StartedView,
    output: process::OutputView,
    now: Seq<char>,
)
    requires
        config::find_job(input.config.jobs, input.job_id) == Some(job),
        has_names(input.config.state_dir, input.job_id, input.plan_run_id),
        output.exit_code != 0,
    ensures
        exists|result: records::RunView|
            {
                &&& #[trigger] is_about(input, started, now, result)
                &&& writes(
                    input,
                    run::run_next(
                        input,
                        run::RunPhase::Transfer(started),
                        step::EventView::Output(output),
                        now,
                    ),
                    result,
                )
                &&& result.status == RunStatus::Failed
                &&& result.rsync_exit_code == output.exit_code
                &&& (result.classification, result.retryable) == exit_class::class_of(
                    output.exit_code as int,
                    output.stderr,
                )
                &&& result.verify_exit_code is None
                &&& result.verify_item_count is None
                &&& result.marker_exit_code is None
                &&& result.completed_marker is None
            },
{
    let result = run::run_result(input, started, run::transfer_failed(input, output), now);
    lemma_kept(input.config.state_dir, input.job_id, input.plan_run_id);
    lemma_run_files(kept_at(input.config.state_dir, input.job_id, input.plan_run_id));
    assert(is_about(input, started, now, result));
}

/// A transfer that ended well is compared with its source, by time and size, with the output in
/// files of their own.
pub proof fn law_transfers_are_compared(
    input: run::RunInput,
    job: config::JobView,
    started: run::StartedView,
    output: process::OutputView,
    now: Seq<char>,
)
    requires
        config::find_job(input.config.jobs, input.job_id) == Some(job),
        has_names(input.config.state_dir, input.job_id, input.plan_run_id),
        rsync::endpoints_fault(job, input.plan_run_id) is None,
        output.exit_code == 0,
    ensures
        ({
            let dir = kept_at(input.config.state_dir, input.job_id, input.plan_run_id);
            run::run_next(
                input,
                run::RunPhase::Transfer(started),
                step::EventView::Output(output),
                now,
            ) == step::StepView::<run::RunPhase, records::RunView>::Continue(
                run::RunPhase::Compare(started),
                step::ActionView::Execute(
                    process::ExecutionView {
                        command: rsync::verify_command(job, input.plan_run_id, false),
                        timeout_seconds: job.max_runtime_seconds,
                        stdout_path: file_in(dir, "verify.stdout"@),
                        stderr_path: file_in(dir, "verify.stderr"@),
                    },
                ),
            )
        }),
{
    lemma_kept(input.config.state_dir, input.job_id, input.plan_run_id);
    lemma_run_files(kept_at(input.config.state_dir, input.job_id, input.plan_run_id));
}

/// A comparison that failed or named changes ends the run without a mark. The result tells both the
/// exit code and the number of changes; a comparison that ended well but named changes is a mismatch
/// that can be tried again.
pub proof fn law_failed_comparisons_are_reported(
    input: run::RunInput,
    job: config::JobView,
    started: run::StartedView,
    output: process::OutputView,
    now: Seq<char>,
)
    requires
        config::find_job(input.config.jobs, input.job_id) == Some(job),
        has_names(input.config.state_dir, input.job_id, input.plan_run_id),
        output.exit_code != 0 || process::item_count(output.stdout) > 0,
        process::item_count(output.stdout) <= usize::MAX,
    ensures
        exists|result: records::RunView|
            {
                &&& #[trigger] is_about(input, started, now, result)
                &&& writes(
                    input,
                    run::run_next(
                        input,
                        run::RunPhase::Compare(started),
                        step::EventView::Output(output),
                        now,
                    ),
                    result,
                )
                &&& result.status == RunStatus::VerificationFailed
                &&& result.rsync_exit_code == 0
                &&& result.verify_exit_code == Some(output.exit_code)
                &&& result.verify_item_count matches Some(n) && n == process::item_count(
                    output.stdout,
                )
                &&& output.exit_code == 0 ==> result.classification == "verification_mismatch"@
                    && result.retryable
                &&& output.exit_code != 0 ==> (result.classification, result.retryable)
                    == exit_class::class_of(output.exit_code as int, output.stderr)
                &&& result.marker_exit_code is None
                &&& result.completed_marker is None
            },
{
    let result = run::run_result(input, started, run::comparison_failed(input, output), now);
    lemma_kept(input.config.state_dir, input.job_id, input.plan_run_id);
    lemma_run_files(kept_at(input.config.state_dir, input.job_id, input.plan_run_id));
    assert(is_about(input, started, now, result));
}

/// A comparison that ended well and named nothing is followed by the completion marker, which names
/// the job, the run, its configuration, its snapshot and the time. It is written beside the run and
/// uploaded, and only then the run is marked complete with the same marker.
pub proof fn law_complete_runs_are_marked(
    input: run::RunInput,
    job: config::JobView,
    started: run::StartedView,
    output: process::OutputView,
    uploaded: process::OutputView,
    now: Seq<char>,
    later: Seq<char>,
)
    requires
        config::find_job(input.config.jobs, input.job_id) == Some(job),
        has_names(input.config.state_dir, input.job_id, input.plan_run_id),
        output.exit_code == 0,
        process::item_count(output.stdout) == 0,
        uploaded.exit_code == 0,
        rsync::marker_fault(
            job,
            input.plan_run_id,
            file_in(
                kept_at(input.config.state_dir, input.job_id, input.plan_run_id),
                "remote-complete.json"@,
            ),
        ) is None,
    ensures
        ({
            let dir = kept_at(input.config.state_dir, input.job_id, input.plan_run_id);
            let local = file_in(dir, "remote-complete.json"@);
            let marker = records::CompletionView {
                schema_version: 1,
                job_id: input.job_id,
                run_id: input.plan_run_id,
                config_hash: started.plan.config_hash,
                snapshot_path: started.plan.snapshot_path,
                completed_at: now,
            };
            &&& run::run_next(
                input,
                run::RunPhase::Compare(started),
                step::EventView::Output(output),
                now,
            ) == step::StepView::<run::RunPhase, records::RunView>::Continue(
                run::RunPhase::Marker(started, marker),
                step::ActionView::WriteCompletion(local, marker),
            )
            &&& run::run_next(
                input,
                run::RunPhase::Marker(started, marker),
                step::EventView::Done,
                later,
            ) == step::StepView::<run::RunPhase, records::RunView>::Continue(
                run::RunPhase::Upload(started, marker),
                step::ActionView::Execute(
                    process::ExecutionView {
                        command: rsync::marker_command(job, input.plan_run_id, local),
                        timeout_seconds: job.max_runtime_seconds,
                        stdout_path: file_in(dir, "marker.stdout"@),
                        stderr_path: file_in(dir, "marker.stderr"@),
                    },
                ),
            )
            &&& run::run_next(
                input,
                run::RunPhase::Upload(started, marker),
                step::EventView::Output(uploaded),
                later,
            ) == step::StepView::<run::RunPhase, records::RunView>::Continue(
                run::RunPhase::Complete(started),
                step::ActionView::WriteCompletion(file_in(dir, "COMPLETED"@), marker),
            )
        }),
{
    lemma_kept(input.config.state_dir, input.job_id, input.plan_run_id);
    lemma_run_files(kept_at(input.config.state_dir, input.job_id, input.plan_run_id));
}

/// A completion marker that was not uploaded ends the run without a mark; the result tells the exit
/// code of the upload and its class.
pub proof fn law_failed_uploads_are_reported(
    input: run::RunInput,
    job: config::JobView,
    started: run::StartedView,
    marker: records::CompletionView,
    output: process::OutputView,
    now: Seq<char>,
)
    requires
        config::find_job(input.config.jobs, input.job_id) == Some(job),
        has_names(input.config.state_dir, input.job_id, input.plan_run_id),
        output.exit_code != 0,
    ensures
        exists|result: records::RunView|
            {
                &&& #[trigger] is_about(input, started, now, result)
                &&& writes(
                    input,
                    run::run_next(
                        input,
                        run::RunPhase::Upload(started, marker),
                        step::EventView::Output(output),
                        now,
                    ),
                    result,
                )
                &&& result.status == RunStatus::Failed
                &&& result.rsync_exit_code == 0
                &&& result.verify_exit_code == Some(0i32)
                &&& result.verify_item_count == Some(0usize)
                &&& result.marker_exit_code == Some(output.exit_code)
                &&& (result.classification, result.retryable) == exit_class::class_of(
                    output.exit_code as int,
                    output.stderr,
                )
                &&& result.completed_marker is None
            },
{
    let result = run::run_result(input, started, run::upload_failed(input, output), now);
    lemma_kept(input.config.state_dir, input.job_id, input.plan_run_id);
    lemma_run_files(kept_at(input.config.state_dir, input.job_id, input.plan_run_id));
    assert(is_about(input, started, now, result));
}

/// A run that was marked complete is reported as a success, with the mark that it was given, and
/// points to the comparison by checksum.
pub proof fn law_complete_runs_are_successes(
    input: run::RunInput,
    job: config::JobView,
    started: run::StartedView,
    now: Seq<char>,
)
    requires
        config::find_job(input.config.jobs, input.job_id) == Some(job),
        has_names(input.config.state_dir, input.job_id, input.plan_run_id),
    ensures
        exists|result: records::RunView|
            {
                &&& #[trigger] is_about(input, started, now, result)
                &&& writes(
                    input,
                    run::run_next(
                        input,
                        run::RunPhase::Complete(started),
                        step::EventView::Done,
                        now,
                    ),
                    result,
                )
                &&& result.status == RunStatus::Success
                &&& result.rsync_exit_code == 0
                &&& result.verify_exit_code == Some(0i32)
                &&& result.verify_item_count == Some(0usize)
                &&& result.marker_exit_code == Some(0i32)
                &&& result.classification == "success"@
                &&& !result.retryable
                &&& result.completed_marker == Some(
                    file_in(
                        kept_at(input.config.state_dir, input.job_id, input.plan_run_id),
                        "COMPLETED"@,
                    ),
                )
                &&& result.next_actions == seq![
                    "hpc-sync verify "@ + input.job_id + " --run-id "@ + input.plan_run_id
                        + " --checksum --json"@,
                ]
            },
{
    let result = run::run_result(input, started, run::succeeded(input), now);
    lemma_kept(input.config.state_dir, input.job_id, input.plan_run_id);
    lemma_run_files(kept_at(input.config.state_dir, input.job_id, input.plan_run_id));
    assert(is_about(input, started, now, result));
}

/// The result that was written into the directory of a run is the one that becomes the latest of
/// its job and the one that is handed back.
pub proof fn law_results_are_kept_and_returned(
    input: run::RunInput,
    job: config::JobView,
    result: records::RunView,
    now: Seq<char>,
)
    requires
        config::find_job(input.config.jobs, input.job_id) == Some(job),
        has_names(input.config.state_dir, input.job_id, input.plan_run_id),
    ensures
        run::run_next(input, run::RunPhase::WriteResult(result), step::EventView::Done, now)
            == step::StepView::<run::RunPhase, records::RunView>::Continue(
            run::RunPhase::WriteLatest(result),
            step::ActionView::WriteRun(
                file_in(file_in(input.config.state_dir, "latest"@), input.job_id + ".json"@),
                result,
            ),
        ),
        run::run_next(input, run::RunPhase::WriteLatest(result), step::EventView::Done, now)
            == step::StepView::<run::RunPhase, records::RunView>::Finish(Ok(result)),
{
    law_things_are_kept_under_the_state_directory(
        input.config.state_dir,
        input.job_id,
        input.plan_run_id,
    );
}

// ---------------------------------------------------------------------------
// Comparing
// ---------------------------------------------------------------------------
/// The files of a comparison, by checksum or by time and size, for the end of its name.
pub open spec fn comparison_file(input: verify::VerifyInput, end: Seq<char>) -> Seq<u8> {
    file_in(
        kept_at(input.config.state_dir, input.job_id, input.run_id),
        (if input.checksum {
            "verify-checksum"@
        } else {
            "verify-quick"@
        }) + end,
    )
}

#[verifier::spinoff_prover]
proof fn lemma_comparison_file(input: verify::VerifyInput, end: Seq<char>)
    requires
        has_names(input.config.state_dir, input.job_id, input.run_id),
        end == ".stdout"@ || end == ".stderr"@ || end == ".json"@,
    ensures
        verify::file_place(input, end) == comparison_file(input, end),
{
    reveal_strlit("verify-");
    reveal_strlit("checksum");
    reveal_strlit("quick");
    reveal_strlit("verify-checksum");
    reveal_strlit("verify-quick");
    reveal_strlit(".stdout");
    reveal_strlit(".stderr");
    reveal_strlit(".json");
    lemma_kept(input.config.state_dir, input.job_id, input.run_id);
    let dir = kept_at(input.config.state_dir, input.job_id, input.run_id);
    assert("verify-"@ + "checksum"@ =~= "verify-checksum"@);
    assert("verify-"@ + "quick"@ =~= "verify-quick"@);
    let kind = if input.checksum {
        "verify-checksum"@
    } else {
        "verify-quick"@
    };
    vstd::utf8::is_ascii_chars_concat(kind + end, kind, end);
    assert((kind + end).last() == end.last());
    lemma_under(dir, kind + end);
}

/// A comparison reads the plan and the request of its own run, and executes the comparison under
/// the lock of the job, with its output in files that tell how it compared.
pub proof fn law_comparisons_work_in_the_directory_of_the_run(
    input: verify::VerifyInput,
    job: config::JobView,
    plan: records::PlanView,
    request: records::RequestView,
    begun: verify::ComparisonView,
    now: Seq<char>,
)
    requires
        config::find_job(input.config.jobs, input.job_id) == Some(job),
        has_names(input.config.state_dir, input.job_id, input.run_id),
    ensures
        ({
            let dir = kept_at(input.config.state_dir, input.job_id, input.run_id);
            &&& verify::verify_next(input, verify::VerifyPhase::Start, step::EventView::Begin, now)
                == step::StepView::<verify::VerifyPhase, records::VerifyView>::Continue(
                verify::VerifyPhase::ReadPlan,
                step::ActionView::ReadPlan(file_in(dir, "plan.json"@)),
            )
            &&& verify::verify_next(
                input,
                verify::VerifyPhase::ReadPlan,
                step::EventView::Plan(plan),
                now,
            ) == step::StepView::<verify::VerifyPhase, records::VerifyView>::Continue(
                verify::VerifyPhase::ReadRequest(plan),
                step::ActionView::ReadRequest(file_in(dir, "request.json"@)),
            )
            &&& verify::verify_next(
                input,
                verify::VerifyPhase::ReadRequest(plan),
                step::EventView::Request(request),
                now,
            ) == step::StepView::<verify::VerifyPhase, records::VerifyView>::Continue(
                verify::VerifyPhase::Serialize(plan, request),
                step::ActionView::SerializeJob,
            )
            &&& verify::verify_next(
                input,
                verify::VerifyPhase::Lock(begun),
                step::EventView::Done,
                now,
            ) == step::StepView::<verify::VerifyPhase, records::VerifyView>::Continue(
                verify::VerifyPhase::Compare(begun),
                step::ActionView::Execute(
                    process::ExecutionView {
                        command: begun.command,
                        timeout_seconds: job.max_runtime_seconds,
                        stdout_path: comparison_file(input, ".stdout"@),
                        stderr_path: comparison_file(input, ".stderr"@),
                    },
                ),
            )
        }),
{
    lemma_kept(input.config.state_dir, input.job_id, input.run_id);
    lemma_run_files(kept_at(input.config.state_dir, input.job_id, input.run_id));
    lemma_comparison_file(input, ".stdout"@);
    lemma_comparison_file(input, ".stderr"@);
}

/// A recovery point is compared only with the configuration that it was made with, whose
/// fingerprint its request holds. The comparison is of the asked kind, against the snapshot that
/// the plan names, and waits for the lock of the job.
pub proof fn law_comparisons_need_the_planned_configuration(
    input: verify::VerifyInput,
    job: config::JobView,
    plan: records::PlanView,
    request: records::RequestView,
    payload: Seq<char>,
    now: Seq<char>,
)
    requires
        config::find_job(input.config.jobs, input.job_id) == Some(job),
        rsync::endpoints_fault(job, input.run_id) is None,
        has_names(input.config.state_dir, input.job_id, input.run_id),
    ensures
        ({
            let next = verify::verify_next(
                input,
                verify::VerifyPhase::Serialize(plan, request),
                step::EventView::Serialized(Ok(payload)),
                now,
            );
            &&& next is Continue <==> common::job_hash(input.job_id, payload)
                == request.config_hash
            &&& next matches step::StepView::Continue(phase, action) ==> {
                &&& action == step::ActionView::Lock(
                    file_in(file_in(input.config.state_dir, "locks"@), input.job_id + ".lock"@),
                )
                &&& phase matches verify::VerifyPhase::Lock(begun) && begun.snapshot_path
                    == plan.snapshot_path && begun.started_at == now && begun.command
                    == rsync::verify_command(job, input.run_id, input.checksum)
            }
            &&& next matches step::StepView::Finish(end) ==> end matches Err(e) && e.code
                == "config_changed"@
        }),
{
    law_things_are_kept_under_the_state_directory(
        input.config.state_dir,
        input.job_id,
        input.run_id,
    );
}

/// A comparison finds a recovery point verified exactly where it ended well and named no change,
/// mismatched where it ended well and named some, and failed where it did not end well. The result
/// tells the job, the run, the kind, the exit code and the number of changes, and is written down
/// and handed back as it is.
pub proof fn law_verdicts_follow_the_comparison(
    input: verify::VerifyInput,
    job: config::JobView,
    begun: verify::ComparisonView,
    output: process::OutputView,
    now: Seq<char>,
    later: Seq<char>,
)
    requires
        config::find_job(input.config.jobs, input.job_id) == Some(job),
        has_names(input.config.state_dir, input.job_id, input.run_id),
        process::item_count(output.stdout) <= usize::MAX,
    ensures
        verify::verify_next(
            input,
            verify::VerifyPhase::Compare(begun),
            step::EventView::Output(output),
            now,
        ) matches step::StepView::Continue(
            verify::VerifyPhase::Write(result),
            step::ActionView::WriteVerify(p, written),
        ) && {
            &&& p == comparison_file(input, ".json"@)
            &&& written == result
            &&& result.status == VerifyStatus::Verified <==> output.exit_code == 0
                && process::item_count(output.stdout) == 0
            &&& result.status == VerifyStatus::Mismatch <==> output.exit_code == 0
                && process::item_count(output.stdout) > 0
            &&& result.status == VerifyStatus::Failed <==> output.exit_code != 0
            &&& (result.classification, result.retryable) == match result.status {
                VerifyStatus::Verified => ("success"@, false),
                VerifyStatus::Mismatch => ("verification_mismatch"@, true),
                VerifyStatus::Failed => exit_class::class_of(
                    output.exit_code as int,
                    output.stderr,
                ),
            }
            &&& result.schema_version == 1
            &&& result.operation == "verify"@
            &&& result.job_id == input.job_id
            &&& result.run_id == input.run_id
            &&& result.checksum == input.checksum
            &&& result.snapshot_path == begun.snapshot_path
            &&& result.started_at == begun.started_at
            &&& result.finished_at == now
            &&& result.rsync_exit_code == output.exit_code
            &&& result.item_count == process::item_count(output.stdout)
            &&& result.output_path == comparison_file(input, ".stdout"@)
            &&& verify::verify_next(
                input,
                verify::VerifyPhase::Write(result),
                step::EventView::Done,
                later,
            ) == step::StepView::<verify::VerifyPhase, records::VerifyView>::Finish(Ok(result))
        },
{
    lemma_comparison_file(input, ".stdout"@);
    lemma_comparison_file(input, ".json"@);
}

// ---------------------------------------------------------------------------
// Looking
// ---------------------------------------------------------------------------
/// The status of a job is its latest result, as it is stored, or that it never ran.
pub proof fn law_status_is_the_latest_result(
    config: config::ConfigView,
    job_id: Seq<char>,
    result: records::RunView,
)
    requires
        config::find_job(config.jobs, job_id) is Some,
        is_dir_path(config.state_dir),
        is_file_name(job_id),
    ensures
        ({
            let latest = file_in(file_in(config.state_dir, "latest"@), job_id + ".json"@);
            let told = |status: Seq<char>, run: Option<records::RunView>|
                step::StepView::<StatusState, records::StatusView>::Finish(
                    Ok(
                        records::StatusView {
                            schema_version: 1,
                            operation: "status"@,
                            status,
                            job_id,
                            latest: run,
                            next_actions: seq!["hpc-sync plan "@ + job_id + " --json"@],
                        },
                    ),
                );
            &&& query::status_next(config, job_id, StatusState::Start, step::EventView::Begin)
                == step::StepView::<StatusState, records::StatusView>::Continue(
                StatusState::Find,
                step::ActionView::FindFile(latest),
            )
            &&& query::status_next(config, job_id, StatusState::Find, step::EventView::Found(true))
                == step::StepView::<StatusState, records::StatusView>::Continue(
                StatusState::Read,
                step::ActionView::ReadRun(latest),
            )
            &&& query::status_next(config, job_id, StatusState::Find, step::EventView::Found(false))
                == told("never_run"@, None)
            &&& query::status_next(config, job_id, StatusState::Read, step::EventView::Run(result))
                == told("available"@, Some(result))
        }),
{
    law_things_are_kept_under_the_state_directory(config.state_dir, job_id, job_id);
}

/// A history reads the results of the runs of its own job, one after the other in the order in
/// which they are listed, and reports them as they are read, with their number.
pub proof fn law_histories_read_the_newest_runs(
    config: config::ConfigView,
    job_id: Seq<char>,
    limit: usize,
    names: Seq<Seq<u8>>,
    listed: Seq<Seq<u8>>,
    runs: Seq<records::RunView>,
    result: records::RunView,
)
    requires
        config::find_job(config.jobs, job_id) is Some,
        is_dir_path(config.state_dir),
        is_file_name(job_id),
        limit > 0,
        names.len() > 0,
        listed.len() > 0,
        runs.len() < usize::MAX,
    ensures
        ({
            let dir = file_in(file_in(config.state_dir, "runs"@), job_id);
            let read = |name: Seq<u8>|
                step::ActionView::ReadRun(
                    common::under(path::joined_path(dir, name), "result.json"@),
                );
            &&& query::history_next(
                config,
                job_id,
                limit,
                query::HistoryPhase::Start,
                step::EventView::Begin,
            ) == step::StepView::<query::HistoryPhase, records::HistoryView>::Continue(
                query::HistoryPhase::List,
                step::ActionView::ListRuns(dir),
            )
            &&& query::history_next(
                config,
                job_id,
                limit,
                query::HistoryPhase::List,
                step::EventView::Names(names),
            ) matches step::StepView::Continue(query::HistoryPhase::Read(wanted, none), action) && {
                let newest = common::newest_first(names);
                &&& none.len() == 0
                &&& wanted == if newest.len() <= limit {
                    newest
                } else {
                    newest.take(limit as int)
                }
                &&& action == read(newest[0])
            }
            &&& query::history_next(
                config,
                job_id,
                limit,
                query::HistoryPhase::Read(listed, runs),
                step::EventView::Run(result),
            ) == if listed.len() > 1 {
                step::StepView::<query::HistoryPhase, records::HistoryView>::Continue(
                    query::HistoryPhase::Read(listed.skip(1), runs.push(result)),
                    read(listed[1]),
                )
            } else {
                step::StepView::<query::HistoryPhase, records::HistoryView>::Finish(
                    Ok(
                        records::HistoryView {
                            schema_version: 1,
                            operation: "history"@,
                            status: "available"@,
                            job_id,
                            count: (runs.len() + 1) as usize,
                            runs: runs.push(result),
                            next_actions: seq!["hpc-sync status "@ + job_id + " --json"@],
                        },
                    ),
                )
            }
        }),
{
    lemma_kept(config.state_dir, job_id, job_id);
    common::law_newest_first_is_an_order(names);
    assert(listed.drop_first() =~= listed.skip(1));
}

/// What the host reports as failed ends an operation with that error, whichever operation it is and
/// however far it has come.
pub proof fn law_failures_are_passed_on(
    config: config::ConfigView,
    job_id: Seq<char>,
    e: super::super::error::ErrorView,
    check: CheckState,
    planning: check_plan::PlanPhase,
    running: run::RunPhase,
    comparing: verify::VerifyPhase,
    looking: StatusState,
    listing: query::HistoryPhase,
    names: (Seq<char>, Seq<char>, bool, usize, u32),
    now: Moment,
    time: Seq<char>,
)
    requires
        config::find_job(config.jobs, job_id) is Some,
    ensures
        ({
            let event = step::EventView::Failed(e);
            let run_input = run::RunInput {
                config,
                job_id,
                plan_run_id: names.0,
                approval: names.1,
            };
            let verify_input = verify::VerifyInput {
                config,
                job_id,
                run_id: names.0,
                checksum: names.2,
            };
            let plan_input = check_plan::PlanInput { config, job_id, process_id: names.4 };
            &&& check_plan::check_next(config, job_id, check, event) == step::StepView::<
                CheckState,
                records::CheckView,
            >::Finish(Err(e))
            &&& check_plan::plan_next(plan_input, planning, event, now) == step::StepView::<
                check_plan::PlanPhase,
                records::PlanView,
            >::Finish(Err(e))
            &&& run::run_next(run_input, running, event, time) == step::StepView::<
                run::RunPhase,
                records::RunView,
            >::Finish(Err(e))
            &&& verify::verify_next(verify_input, comparing, event, time) == step::StepView::<
                verify::VerifyPhase,
                records::VerifyView,
            >::Finish(Err(e))
            &&& query::status_next(config, job_id, looking, event) == step::StepView::<
                StatusState,
                records::StatusView,
            >::Finish(Err(e))
            &&& query::history_next(config, job_id, names.3, listing, event) == step::StepView::<
                query::HistoryPhase,
                records::HistoryView,
            >::Finish(Err(e))
        }),
{
}

// ---------------------------------------------------------------------------
// Advice
// ---------------------------------------------------------------------------
/// A run that failed points to the file that tells why: the diagnostics of the transfer or of the
/// upload, or the changes that the comparison named.
pub proof fn law_failed_runs_point_to_their_output(
    input: run::RunInput,
    started: run::StartedView,
    output: process::OutputView,
    now: Seq<char>,
)
    requires
        has_names(input.config.state_dir, input.job_id, input.plan_run_id),
    ensures
        ({
            let dir = kept_at(input.config.state_dir, input.job_id, input.plan_run_id);
            &&& run::run_result(
                input,
                started,
                run::transfer_failed(input, output),
                now,
            ).next_actions == seq!["Inspect "@ + path::lossy(file_in(dir, "rsync.stderr"@))]
            &&& run::run_result(
                input,
                started,
                run::comparison_failed(input, output),
                now,
            ).next_actions == seq!["Inspect "@ + path::lossy(file_in(dir, "verify.stdout"@))]
            &&& run::run_result(
                input,
                started,
                run::upload_failed(input, output),
                now,
            ).next_actions == seq!["Inspect "@ + path::lossy(file_in(dir, "marker.stderr"@))]
        }),
{
    lemma_kept(input.config.state_dir, input.job_id, input.plan_run_id);
    lemma_run_files(kept_at(input.config.state_dir, input.job_id, input.plan_run_id));
}

/// A dry run that failed tells its exit code and class, and points to its diagnostics.
pub proof fn law_failed_dry_runs_point_to_their_output(
    input: check_plan::PlanInput,
    draft: check_plan::DraftView,
    output: process::OutputView,
)
    requires
        has_names(input.config.state_dir, input.job_id, draft.run_id),
    ensures
        ({
            let e = check_plan::dry_run_fault(input, draft, output);
            let dir = kept_at(input.config.state_dir, input.job_id, draft.run_id);
            &&& e.message == "rsync plan failed with exit code "@ + number::signed_decimal(
                output.exit_code as int,
            ) + " ("@ + exit_class::class_of(output.exit_code as int, output.stderr).0 + ")"@
            &&& e.suggested_fix == "Inspect "@ + path::lossy(file_in(dir, "plan.stderr"@))
                + " before retrying."@
        }),
{
    lemma_kept(input.config.state_dir, input.job_id, draft.run_id);
    lemma_run_files(kept_at(input.config.state_dir, input.job_id, draft.run_id));
}

/// A comparison that found differences points to them, and one that failed to its diagnostics.
pub proof fn law_comparisons_point_to_their_output(
    input: verify::VerifyInput,
    begun: verify::ComparisonView,
    output: process::OutputView,
    now: Seq<char>,
)
    requires
        has_names(input.config.state_dir, input.job_id, input.run_id),
    ensures
        ({
            let advice = verify::verify_result(input, begun, output, now).next_actions;
            &&& output.exit_code != 0 ==> advice == seq![
                "Inspect "@ + path::lossy(comparison_file(input, ".stderr"@)),
            ]
            &&& output.exit_code == 0 && process::item_count(output.stdout) > 0 ==> advice == seq![
                "Inspect "@ + path::lossy(comparison_file(input, ".stdout"@)),
            ]
            &&& output.exit_code == 0 && process::item_count(output.stdout) == 0 ==> advice == seq![
                "Recovery point matches the current source scope."@,
            ]
        }),
{
    lemma_comparison_file(input, ".stdout"@);
    lemma_comparison_file(input, ".stderr"@);
}

/// What is missing on the host is named: the program, or the path of the source, the marker, the
/// identity or the known hosts. An identity that others can reach is told apart from one that only
/// has other permissions than a private file.
pub proof fn law_missing_things_are_named(job: config::JobView, facts: step::FactsView)
    requires
        !is_ready(job, facts),
    ensures
        ({
            let m = check_plan::check_fault(job, facts)->0.message;
            if !facts.has_rsync {
                m == "rsync"@ + " is not available on PATH"@
            } else if !facts.has_ssh {
                m == "ssh"@ + " is not available on PATH"@
            } else if !facts.source_is_dir {
                m == "source directory does not exist: "@ + path::lossy(job.source)
            } else if job.source_complete_marker is Some && !facts.marker_is_file {
                m == "required source marker is missing: "@ + path::lossy(
                    path::joined_path(job.source, job.source_complete_marker->0),
                )
            } else if !facts.identity_is_file {
                m == "required SSH file is missing: "@ + path::lossy(job.ssh.identity_file)
            } else if !facts.known_hosts_is_file {
                m == "required SSH file is missing: "@ + path::lossy(job.ssh.known_hosts_file)
            } else {
                match facts.identity_mode {
                    Err(cause) => m == cause,
                    Ok(bits) => m == (if bits & 0o077 != 0 {
                        "SSH identity is accessible by group or others: "@
                    } else {
                        "SSH identity must have mode 0600: "@
                    }) + path::lossy(job.ssh.identity_file),
                }
            }
        }),
{
}

} // verus!
