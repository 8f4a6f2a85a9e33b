//! What holds of every course of an operation.
use super::super::config;
use super::super::moment::Moment;
use super::super::process;
use super::super::records;
use super::super::records::RunStatus;
use super::super::rsync;
use super::{check_plan, common, query, run, step, verify};
use vstd::prelude::*;

verus! {

// ---------------------------------------------------------------------------
// No operation gets stuck
// ---------------------------------------------------------------------------
/// Whatever answers what a run asked for, the run goes on from there.
pub proof fn law_runs_take_every_answer(
    input: run::RunInput,
    phase: run::RunPhase,
    event: step::EventView,
    now: Seq<char>,
    answer: step::EventView,
)
    requires
        run::expects(phase, event),
        run::run_next(input, phase, event, now) matches step::StepView::Continue(_, action)
            && step::answers(action, answer),
    ensures
        run::run_next(input, phase, event, now) matches step::StepView::Continue(next, _)
            && run::expects(next, answer),
{
}

/// Whatever answers what a plan asked for, the plan goes on from there.
pub proof fn law_plans_take_every_answer(
    input: check_plan::PlanInput,
    phase: check_plan::PlanPhase,
    event: step::EventView,
    now: Moment,
    answer: step::EventView,
)
    requires
        check_plan::plan_expects(phase, event),
        check_plan::plan_next(input, phase, event, now) matches step::StepView::Continue(_, action)
            && step::answers(action, answer),
    ensures
        check_plan::plan_next(input, phase, event, now) matches step::StepView::Continue(next, _)
            && check_plan::plan_expects(next, answer),
{
}

/// Whatever answers what a comparison asked for, the comparison goes on from there.
pub proof fn law_comparisons_take_every_answer(
    input: verify::VerifyInput,
    phase: verify::VerifyPhase,
    event: step::EventView,
    now: Seq<char>,
    answer: step::EventView,
)
    requires
        verify::expects(phase, event),
        verify::verify_next(input, phase, event, now) matches step::StepView::Continue(_, action)
            && step::answers(action, answer),
    ensures
        verify::verify_next(input, phase, event, now) matches step::StepView::Continue(next, _)
            && verify::expects(next, answer),
{
}

/// Whatever answers what a query asked for, the query goes on from there.
pub proof fn law_queries_take_every_answer(
    config: config::ConfigView,
    job_id: Seq<char>,
    limit: usize,
    check: check_plan::CheckState,
    status: query::StatusState,
    history: query::HistoryPhase,
    event: step::EventView,
    answer: step::EventView,
)
    ensures
        check_plan::check_expects(check, event) ==> (check_plan::check_next(
            config,
            job_id,
            check,
            event,
        ) matches step::StepView::Continue(next, action) ==> step::answers(action, answer)
            ==> check_plan::check_expects(next, answer)),
        query::status_expects(status, event) ==> (query::status_next(
            config,
            job_id,
            status,
            event,
        ) matches step::StepView::Continue(next, action) ==> step::answers(action, answer)
            ==> query::status_expects(next, answer)),
        query::history_expects(history, event) ==> (query::history_next(
            config,
            job_id,
            limit,
            history,
            event,
        ) matches step::StepView::Continue(next, action) ==> step::answers(action, answer)
            ==> query::history_expects(next, answer)),
{
}

// ---------------------------------------------------------------------------
// The course of a run
// ---------------------------------------------------------------------------
/// The answers that a run got, each with the time at which it came.
pub type Course = Seq<(step::EventView, Seq<char>)>;

/// Where a run stands after a course, unless it has ended.
pub open spec fn phase_after(input: run::RunInput, course: Course) -> Option<run::RunPhase>
    decreases course.len(),
{
    if course.len() == 0 {
        Some(run::RunPhase::Start)
    } else {
        match phase_after(input, course.drop_last()) {
            None => None,
            Some(phase) => match run::run_next(input, phase, course.last().0, course.last().1) {
                step::StepView::Continue(next, _) => Some(next),
                step::StepView::Finish(_) => None,
            },
        }
    }
}

/// What a run said after the last answer of a course.
pub open spec fn last_step(input: run::RunInput, course: Course) -> run::RunStep {
    run::run_next(
        input,
        phase_after(input, course.drop_last())->0,
        course.last().0,
        course.last().1,
    )
}

/// Whether a run can take this course: each answer is one that it waits for.
pub open spec fn is_course(input: run::RunInput, course: Course) -> bool
    decreases course.len(),
{
    course.len() > 0 ==> {
        &&& is_course(input, course.drop_last())
        &&& phase_after(input, course.drop_last()) is Some
        &&& run::expects(phase_after(input, course.drop_last())->0, course.last().0)
    }
}

/// Whether the answer at `i` says that a command ended well, and named no changes where it was
/// to be `clean`.
pub open spec fn did(
    input: run::RunInput,
    course: Course,
    i: int,
    command: Seq<Seq<char>>,
    clean: bool,
) -> bool {
    &&& 0 < i < course.len()
    &&& last_step(input, course.take(i)) matches step::StepView::Continue(
        _,
        step::ActionView::Execute(e),
    ) && e.command == command
    &&& course[i].0 matches step::EventView::Output(output) && output.exit_code == 0 && (clean
        ==> process::item_count(output.stdout) == 0)
}

/// Whether the answer at `i` says that the lock of the job is held.
pub open spec fn locked_at(input: run::RunInput, course: Course, i: int) -> bool {
    &&& 0 < i < course.len()
    &&& last_step(input, course.take(i)) matches step::StepView::Continue(
        _,
        step::ActionView::Lock(p),
    ) && p == common::lock_place(input.config.state_dir, input.job_id)
    &&& course[i].0 is Done
}

/// Whether the answers at three places hold an approved plan, and a configuration that is still
/// the planned one.
pub open spec fn approved_at(
    input: run::RunInput,
    course: Course,
    plan: records::PlanView,
    a: int,
    b: int,
    c: int,
) -> bool {
    &&& 0 <= a < b < c < course.len()
    &&& course[a].0 == step::EventView::Plan(plan)
    &&& course[b].0 matches step::EventView::Request(request) && run::approval_fault(
        input,
        plan,
        request,
    ) is None && (course[c].0 matches step::EventView::Serialized(payload) && run::change_fault(
        input,
        plan,
        request,
        payload,
    ) is None)
}

/// Whether a plan was approved in a course.
pub open spec fn approved(input: run::RunInput, course: Course, plan: records::PlanView) -> bool {
    exists|a: int, b: int, c: int| approved_at(input, course, plan, a, b, c)
}

/// Whether the lock of the job was taken in a course.
pub open spec fn locked(input: run::RunInput, course: Course) -> bool {
    exists|i: int| locked_at(input, course, i)
}

/// The transfer that applies a plan.
pub open spec fn transfer_of(
    input: run::RunInput,
    job: config::JobView,
    plan: records::PlanView,
) -> Seq<Seq<char>> {
    rsync::transfer_command(job, input.plan_run_id, plan.previous_run_id, false)
}

/// The upload of the completion marker.
pub open spec fn upload_of(input: run::RunInput, job: config::JobView) -> Seq<Seq<char>> {
    rsync::marker_command(
        job,
        input.plan_run_id,
        common::under(run::place(input), "remote-complete.json"@),
    )
}

/// Whether the transfer ended well at `i`, and after it, at `j`, the comparison, which named no
/// changes.
pub open spec fn data_in_place(
    input: run::RunInput,
    job: config::JobView,
    course: Course,
    plan: records::PlanView,
    i: int,
    j: int,
) -> bool {
    &&& did(input, course, i, transfer_of(input, job, plan), false)
    &&& i < j
    &&& did(input, course, j, rsync::verify_command(job, input.plan_run_id, false), true)
}

/// Whether a course shows that a recovery point is complete: an approved plan, the lock, and then
/// the transfer, the comparison and the upload, each of which ended well.
pub open spec fn shows_completion(
    input: run::RunInput,
    job: config::JobView,
    course: Course,
    plan: records::PlanView,
) -> bool {
    &&& approved(input, course, plan)
    &&& locked(input, course)
    &&& exists|i: int, j: int, k: int|
        #[trigger] data_in_place(input, job, course, plan, i, j) && j < k && #[trigger] did(
            input,
            course,
            k,
            upload_of(input, job),
            false,
        )
}

/// What a phase of a run tells of the course that led to it.
pub open spec fn told(
    input: run::RunInput,
    job: config::JobView,
    course: Course,
    phase: run::RunPhase,
) -> bool {
    match phase {
        run::RunPhase::ReadRequest(plan) => course.len() > 0 && course.last().0
            == step::EventView::Plan(plan),
        run::RunPhase::Serialize(plan, request) => {
            &&& course.len() > 1
            &&& course[course.len() - 2].0 == step::EventView::Plan(plan)
            &&& course.last().0 == step::EventView::Request(request)
            &&& run::approval_fault(input, plan, request) is None
        },
        run::RunPhase::Lock(r) => {
            &&& approved(input, course, r.plan)
            &&& r.command == transfer_of(input, job, r.plan)
            &&& course.len() > 0
            &&& last_step(input, course) matches step::StepView::Continue(
                _,
                step::ActionView::Lock(p),
            ) && p == common::lock_place(input.config.state_dir, input.job_id)
        },
        run::RunPhase::Transfer(r) => {
            &&& approved(input, course, r.plan)
            &&& locked(input, course)
            &&& course.len() > 0
            &&& last_step(input, course) matches step::StepView::Continue(
                _,
                step::ActionView::Execute(e),
            ) && e.command == transfer_of(input, job, r.plan)
        },
        run::RunPhase::Compare(r) => {
            &&& approved(input, course, r.plan)
            &&& locked(input, course)
            &&& exists|i: int|
                #[trigger] did(input, course, i, transfer_of(input, job, r.plan), false)
            &&& course.len() > 0
            &&& last_step(input, course) matches step::StepView::Continue(
                _,
                step::ActionView::Execute(e),
            ) && e.command == rsync::verify_command(job, input.plan_run_id, false)
        },
        run::RunPhase::Marker(r, _) => {
            &&& approved(input, course, r.plan)
            &&& locked(input, course)
            &&& exists|i: int, j: int| data_in_place(input, job, course, r.plan, i, j)
        },
        run::RunPhase::Upload(r, _) => {
            &&& approved(input, course, r.plan)
            &&& locked(input, course)
            &&& exists|i: int, j: int|
                data_in_place(input, job, course.drop_last(), r.plan, i, j)
            &&& course.len() > 0
            &&& last_step(input, course) matches step::StepView::Continue(
                _,
                step::ActionView::Execute(e),
            ) && e.command == upload_of(input, job)
        },
        run::RunPhase::Complete(r) => shows_completion(input, job, course, r.plan),
        run::RunPhase::WriteResult(result) | run::RunPhase::WriteLatest(result) => result.status
            == RunStatus::Success ==> tells_of_success(input, job, course, result),
        _ => true,
    }
}

/// Whether a result of success is borne out by the course of its run.
pub open spec fn tells_of_success(
    input: run::RunInput,
    job: config::JobView,
    course: Course,
    result: records::RunView,
) -> bool {
    &&& exists|plan: records::PlanView|
        {
            &&& #[trigger] shows_completion(input, job, course, plan)
            &&& result.plan_hash == plan.plan_hash
            &&& result.plan_hash == input.approval
        }
    &&& result.job_id == input.job_id
    &&& result.run_id == input.plan_run_id
    &&& result.rsync_exit_code == 0
    &&& result.marker_exit_code == Some(0i32)
    &&& result.completed_marker == Some(run::completed_place(input))
    &&& result.verify_exit_code == Some(0i32)
    &&& result.verify_item_count == Some(0usize)
}

/// What was shown stays shown when the run goes on.
proof fn lemma_did_stays(
    input: run::RunInput,
    course: Course,
    more: (step::EventView, Seq<char>),
    i: int,
    command: Seq<Seq<char>>,
    clean: bool,
)
    requires
        did(input, course, i, command, clean),
    ensures
        did(input, course.push(more), i, command, clean),
{
    assert(course.push(more).take(i) =~= course.take(i));
}

proof fn lemma_basis_stays(
    input: run::RunInput,
    course: Course,
    more: (step::EventView, Seq<char>),
    plan: records::PlanView,
)
    ensures
        approved(input, course, plan) ==> approved(input, course.push(more), plan),
        locked(input, course) ==> locked(input, course.push(more)),
{
    if approved(input, course, plan) {
        let (a, b, c) = choose|a: int, b: int, c: int| approved_at(input, course, plan, a, b, c);
        assert(approved_at(input, course.push(more), plan, a, b, c));
    }
    if locked(input, course) {
        let i = choose|i: int| locked_at(input, course, i);
        assert(course.push(more).take(i) =~= course.take(i));
        assert(locked_at(input, course.push(more), i));
    }
}

proof fn lemma_data_stays(
    input: run::RunInput,
    job: config::JobView,
    course: Course,
    more: (step::EventView, Seq<char>),
    plan: records::PlanView,
    i: int,
    j: int,
)
    requires
        data_in_place(input, job, course, plan, i, j),
    ensures
        data_in_place(input, job, course.push(more), plan, i, j),
{
    lemma_did_stays(input, course, more, i, transfer_of(input, job, plan), false);
    lemma_did_stays(
        input,
        course,
        more,
        j,
        rsync::verify_command(job, input.plan_run_id, false),
        true,
    );
}

proof fn lemma_completion_stays(
    input: run::RunInput,
    job: config::JobView,
    course: Course,
    more: (step::EventView, Seq<char>),
    plan: records::PlanView,
)
    requires
        shows_completion(input, job, course, plan),
    ensures
        shows_completion(input, job, course.push(more), plan),
{
    lemma_basis_stays(input, course, more, plan);
    let (i, j, k) = choose|i: int, j: int, k: int|
        #[trigger] data_in_place(input, job, course, plan, i, j) && j < k && #[trigger] did(
            input,
            course,
            k,
            upload_of(input, job),
            false,
        );
    lemma_data_stays(input, job, course, more, plan, i, j);
    lemma_did_stays(input, course, more, k, upload_of(input, job), false);
}

/// The answer to a command that was asked for last.
proof fn lemma_did_last(
    input: run::RunInput,
    course: Course,
    command: Seq<Seq<char>>,
    clean: bool,
)
    requires
        course.len() > 1,
        last_step(input, course.drop_last()) matches step::StepView::Continue(
            _,
            step::ActionView::Execute(e),
        ) && e.command == command,
        course.last().0 matches step::EventView::Output(output) && output.exit_code == 0 && (clean
            ==> process::item_count(output.stdout) == 0),
    ensures
        did(input, course, course.len() - 1, command, clean),
{
    assert(course.take(course.len() - 1) =~= course.drop_last());
}

/// Each phase of a run tells the truth about the course that led to it.
proof fn lemma_told(input: run::RunInput, job: config::JobView, course: Course)
    requires
        config::find_job(input.config.jobs, input.job_id) == Some(job),
        is_course(input, course),
        phase_after(input, course) is Some,
    ensures
        told(input, job, course, phase_after(input, course)->0),
    decreases course.len(),
{
    if course.len() > 0 {
        let before = course.drop_last();
        let more = course.last();
        lemma_told(input, job, before);
        assert(course =~= before.push(more));
        lemma_told_step(input, job, before, more);
    }
}

/// One more answer keeps a phase truthful.
#[verifier::spinoff_prover]
#[verifier::rlimit(60)]
proof fn lemma_told_step(
    input: run::RunInput,
    job: config::JobView,
    before: Course,
    more: (step::EventView, Seq<char>),
)
    requires
        config::find_job(input.config.jobs, input.job_id) == Some(job),
        phase_after(input, before) is Some,
        run::expects(phase_after(input, before)->0, more.0),
        told(input, job, before, phase_after(input, before)->0),
    ensures
        run::run_next(input, phase_after(input, before)->0, more.0, more.1)
            matches step::StepView::Continue(next, _) ==> told(
            input,
            job,
            before.push(more),
            next,
        ),
{
    let course = before.push(more);
    let phase = phase_after(input, before)->0;
    assert(course.drop_last() =~= before);
    let n = before.len() as int;
    if let step::StepView::Continue(next, _) = run::run_next(input, phase, more.0, more.1) {
        match phase {
            run::RunPhase::ReadRequest(plan) => {
                assert(course[course.len() - 2] == before.last());
            },
            run::RunPhase::Serialize(plan, request) => {
                assert(approved_at(input, course, plan, n - 2, n - 1, n));
            },
            run::RunPhase::Lock(r) => {
                lemma_basis_stays(input, before, more, r.plan);
                assert(course.take(n) =~= before);
                assert(locked_at(input, course, n));
            },
            run::RunPhase::Transfer(r) => {
                lemma_basis_stays(input, before, more, r.plan);
                if more.0->Output_0.exit_code == 0 {
                    lemma_did_last(input, course, transfer_of(input, job, r.plan), false);
                }
            },
            run::RunPhase::Compare(r) => {
                lemma_basis_stays(input, before, more, r.plan);
                let i = choose|i: int|
                    #[trigger] did(input, before, i, transfer_of(input, job, r.plan), false);
                lemma_did_stays(input, before, more, i, transfer_of(input, job, r.plan), false);
                if more.0->Output_0.exit_code == 0 && process::item_count(more.0->Output_0.stdout)
                    == 0 {
                    lemma_did_last(
                        input,
                        course,
                        rsync::verify_command(job, input.plan_run_id, false),
                        true,
                    );
                    assert(data_in_place(input, job, course, r.plan, i, n));
                }
            },
            run::RunPhase::Marker(r, marker) => {
                lemma_basis_stays(input, before, more, r.plan);
            },
            run::RunPhase::Upload(r, marker) => {
                lemma_basis_stays(input, before, more, r.plan);
                let early = before.drop_last();
                let (i, j) = choose|i: int, j: int|
                    data_in_place(input, job, early, r.plan, i, j);
                assert(before =~= early.push(before.last()));
                lemma_data_stays(input, job, early, before.last(), r.plan, i, j);
                lemma_data_stays(input, job, before, more, r.plan, i, j);
                if more.0->Output_0.exit_code == 0 {
                    lemma_did_last(input, course, upload_of(input, job), false);
                    assert(shows_completion(input, job, course, r.plan));
                }
            },
            run::RunPhase::Complete(r) => {
                lemma_completion_stays(input, job, before, more, r.plan);
                lemma_approved_hash(input, course, r.plan);
            },
            run::RunPhase::WriteResult(result) => {
                if result.status == RunStatus::Success {
                    let plan = choose|plan: records::PlanView|
                        {
                            &&& #[trigger] shows_completion(input, job, before, plan)
                            &&& result.plan_hash == plan.plan_hash
                            &&& result.plan_hash == input.approval
                        };
                    lemma_completion_stays(input, job, before, more, plan);
                }
            },
            _ => {},
        }
    }
}

proof fn lemma_approved_hash(input: run::RunInput, course: Course, plan: records::PlanView)
    requires
        approved(input, course, plan),
    ensures
        plan.plan_hash == input.approval,
{
    let (a, b, c) = choose|a: int, b: int, c: int| approved_at(input, course, plan, a, b, c);
    assert(approved_at(input, course, plan, a, b, c));
}

/// A run reports success only for a result that was stored before, or after an approved plan, the
/// lock of the job, and then the transfer, the comparison and the upload of the completion marker
/// have all ended well, the comparison without naming a change.
pub proof fn law_success_is_earned(input: run::RunInput, job: config::JobView, course: Course)
    requires
        config::find_job(input.config.jobs, input.job_id) == Some(job),
        is_course(input, course),
        course.len() > 0,
        last_step(input, course) matches step::StepView::Finish(Ok(result)) && result.status
            == RunStatus::Success,
    ensures
        ({
            let result = last_step(input, course)->Finish_0->Ok_0;
            ||| course.last().0 == step::EventView::Run(result)
            ||| tells_of_success(input, job, course, result)
        }),
{
    let before = course.drop_last();
    let more = course.last();
    lemma_told(input, job, before);
    assert(course =~= before.push(more));
    if let run::RunPhase::WriteLatest(result) = phase_after(input, before)->0 {
        let plan = choose|plan: records::PlanView|
            {
                &&& #[trigger] shows_completion(input, job, before, plan)
                &&& result.plan_hash == plan.plan_hash
                &&& result.plan_hash == input.approval
            };
        lemma_completion_stays(input, job, before, more, plan);
    }
}

/// A run is marked complete only after an approved plan, the lock of the job, and then the
/// transfer, the comparison and the upload of the completion marker have all ended well, the
/// comparison without naming a change.
pub proof fn law_marked_complete_only_after_success(
    input: run::RunInput,
    job: config::JobView,
    course: Course,
)
    requires
        config::find_job(input.config.jobs, input.job_id) == Some(job),
        is_course(input, course),
        course.len() > 0,
        last_step(input, course) matches step::StepView::Continue(
            _,
            step::ActionView::WriteCompletion(p, _),
        ) && p == run::completed_place(input),
    ensures
        exists|plan: records::PlanView| #[trigger] shows_completion(input, job, course, plan),
{
    let before = course.drop_last();
    lemma_told(input, job, before);
    assert(course =~= before.push(course.last()));
    lemma_told_step(input, job, before, course.last());
    lemma_names_differ(run::place(input));
    if let run::RunPhase::Upload(r, _) = phase_after(input, before)->0 {
        assert(shows_completion(input, job, course, r.plan));
    }
}

/// The mark of a complete run is not the marker that is uploaded.
proof fn lemma_names_differ(dir: Seq<u8>)
    ensures
        common::under(dir, "COMPLETED"@) != common::under(dir, "remote-complete.json"@),
{
    let a = "COMPLETED"@;
    let b = "remote-complete.json"@;
    reveal_strlit("COMPLETED");
    reveal_strlit("remote-complete.json");
    vstd::utf8::is_ascii_chars_encode_utf8(a);
    vstd::utf8::is_ascii_chars_encode_utf8(b);
    let x = vstd::utf8::encode_utf8(a);
    let y = vstd::utf8::encode_utf8(b);
    assert(x[0] == a[0] as u8);
    assert(y[0] == b[0] as u8);
    assert(common::under(dir, a).len() != common::under(dir, b).len());
}

/// A run executes nothing before its plan was approved, its configuration was found unchanged and
/// the lock of the job was taken. What it executes is the planned transfer, the comparison with
/// its snapshot or the upload of its completion marker.
pub proof fn law_commands_are_approved(input: run::RunInput, job: config::JobView, course: Course)
    requires
        config::find_job(input.config.jobs, input.job_id) == Some(job),
        is_course(input, course),
        course.len() > 0,
        last_step(input, course) matches step::StepView::Continue(_, step::ActionView::Execute(_)),
    ensures
        locked(input, course),
        exists|plan: records::PlanView|
            {
                let e = last_step(input, course)->Continue_1->Execute_0;
                &&& #[trigger] approved(input, course, plan)
                &&& {
                    ||| e.command == transfer_of(input, job, plan)
                    ||| e.command == rsync::verify_command(job, input.plan_run_id, false)
                    ||| e.command == upload_of(input, job)
                }
            },
{
    let before = course.drop_last();
    lemma_told(input, job, before);
    assert(course =~= before.push(course.last()));
    lemma_told_step(input, job, before, course.last());
    let phase = phase_after(input, before)->0;
    let plan = match phase {
        run::RunPhase::Lock(r) => r.plan,
        run::RunPhase::Transfer(r) => r.plan,
        run::RunPhase::Marker(r, _) => r.plan,
        _ => arbitrary(),
    };
    assert(approved(input, course, plan));
}

/// A run that succeeded before is not repeated: its result is handed back, and nothing else is
/// asked for.
pub proof fn law_successful_runs_are_not_repeated(
    input: run::RunInput,
    result: records::RunView,
    now: Seq<char>,
)
    requires
        config::find_job(input.config.jobs, input.job_id) is Some,
        result.status == RunStatus::Success,
    ensures
        ({
            let begun = Seq::<(step::EventView, Seq<char>)>::empty().push(
                (step::EventView::Begin, now),
            );
            let found = begun.push((step::EventView::Found(true), now));
            let read = found.push((step::EventView::Run(result), now));
            &&& is_course(input, read)
            &&& last_step(input, begun)->Continue_1 is FindFile
            &&& last_step(input, found)->Continue_1 is ReadRun
            &&& last_step(input, read) == step::StepView::<run::RunPhase, records::RunView>::Finish(
                Ok(result),
            )
        }),
{
    let none = Seq::<(step::EventView, Seq<char>)>::empty();
    let begun = none.push((step::EventView::Begin, now));
    let found = begun.push((step::EventView::Found(true), now));
    let read = found.push((step::EventView::Run(result), now));
    assert(begun.drop_last() =~= none);
    assert(found.drop_last() =~= begun);
    assert(read.drop_last() =~= found);
    assert(is_course(input, none));
    assert(is_course(input, begun));
    assert(is_course(input, found));
}

// ---------------------------------------------------------------------------
// A plan and the run that applies it
// ---------------------------------------------------------------------------
/// The run that applies a plan, with the configuration as it is then and the approval that the plan
/// asks for.
pub open spec fn applying(
    planning: check_plan::PlanInput,
    later: config::ConfigView,
    made: records::PlanView,
) -> run::RunInput {
    run::RunInput {
        config: later,
        job_id: planning.job_id,
        plan_run_id: made.run_id,
        approval: made.plan_hash,
    }
}

/// A plan that was just made is approved by its own hash, as long as the configuration of the job
/// is serialized to the same text. It is found where it was kept, as long as the state directory is
/// the same.
pub proof fn law_a_fresh_plan_is_approved(
    planning: check_plan::PlanInput,
    later: config::ConfigView,
    job: config::JobView,
    plan: check_plan::PreparedView,
    output: process::OutputView,
    payload: Seq<char>,
    now: Seq<char>,
)
    requires
        config::find_job(planning.config.jobs, planning.job_id) == Some(job),
        config::find_job(later.jobs, planning.job_id) is Some,
        plan.draft.config_hash == common::job_hash(planning.job_id, payload),
    ensures
        ({
            let made = check_plan::plan_result(planning, job, plan, output, now);
            let request = check_plan::request_result(planning, job, plan.draft);
            let input = applying(planning, later, made);
            &&& run::approval_fault(input, made, request) is None
            &&& run::change_fault(input, made, request, Ok(payload)) is None
            &&& later.state_dir == planning.config.state_dir ==> run::place(input) == made.run_dir
        }),
{
}

/// A job that changed after it was planned is refused: the approval is the right one, but the
/// configuration is serialized to another text with another fingerprint, and so the run ends before
/// it has taken the lock or executed anything.
pub proof fn law_a_changed_job_is_refused(
    planning: check_plan::PlanInput,
    later: config::ConfigView,
    job: config::JobView,
    plan: check_plan::PreparedView,
    output: process::OutputView,
    planned: Seq<char>,
    payload: Seq<char>,
    now: Seq<char>,
    then: Seq<char>,
)
    requires
        config::find_job(planning.config.jobs, planning.job_id) == Some(job),
        config::find_job(later.jobs, planning.job_id) is Some,
        plan.draft.config_hash == common::job_hash(planning.job_id, planned),
        payload != planned,
        common::job_hash(planning.job_id, payload) != common::job_hash(planning.job_id, planned),
    ensures
        ({
            let made = check_plan::plan_result(planning, job, plan, output, now);
            let request = check_plan::request_result(planning, job, plan.draft);
            let input = applying(planning, later, made);
            let fault = run::change_fault(input, made, request, Ok(payload));
            &&& run::approval_fault(input, made, request) is None
            &&& fault is Some
            &&& fault->0.code == "config_changed"@
            &&& fault->0.exit_code == 2
            &&& run::run_next(
                input,
                run::RunPhase::Serialize(made, request),
                step::EventView::Serialized(Ok(payload)),
                then,
            ) == step::StepView::<run::RunPhase, records::RunView>::Finish(Err(fault->0))
        }),
{
}

/// Two texts to which a job is serialized differ in what is hashed, so their fingerprints are the
/// same only where SHA-256 has the same digest for both.
pub proof fn law_changed_jobs_are_hashed_apart(
    job_id: Seq<char>,
    planned: Seq<char>,
    payload: Seq<char>,
)
    requires
        payload != planned,
        vstd::utf8::encode_utf8(job_id).len() <= usize::MAX,
        vstd::utf8::encode_utf8(planned).len() <= usize::MAX,
        vstd::utf8::encode_utf8(payload).len() <= usize::MAX,
    ensures
        ({
            let a = process::frame(seq!["1"@, job_id, planned]);
            let b = process::frame(seq!["1"@, job_id, payload]);
            &&& a != b
            &&& common::job_hash(job_id, planned) == process::hex(process::sha256(a))
            &&& common::job_hash(job_id, payload) == process::hex(process::sha256(b))
        }),
{
    let a = seq!["1"@, job_id, planned];
    let b = seq!["1"@, job_id, payload];
    reveal_strlit("1");
    vstd::utf8::is_ascii_chars_encode_utf8("1"@);
    if process::frame(a) == process::frame(b) {
        process::law_frames_are_unambiguous(a, b);
        assert(a[2] == b[2]);
    }
}

/// Whether the commands that a plan holds are dry runs.
pub open spec fn plans_only(job: config::JobView, phase: check_plan::PlanPhase) -> bool {
    match phase {
        check_plan::PlanPhase::Lock(p) | check_plan::PlanPhase::DryRun(p) => p.command
            == rsync::transfer_command(job, p.draft.run_id, p.previous_run_id, true),
        _ => true,
    }
}

/// Planning changes nothing at the receiver: in every phase, the only command that it executes is
/// the dry run of the transfer.
pub proof fn law_planning_is_a_dry_run(
    input: check_plan::PlanInput,
    job: config::JobView,
    phase: check_plan::PlanPhase,
    event: step::EventView,
    now: Moment,
)
    requires
        config::find_job(input.config.jobs, input.job_id) == Some(job),
        check_plan::plan_expects(phase, event),
        plans_only(job, phase),
    ensures
        plans_only(job, check_plan::PlanPhase::Start),
        check_plan::plan_next(input, phase, event, now) matches step::StepView::Continue(
            next,
            action,
        ) ==> {
            &&& plans_only(job, next)
            &&& action matches step::ActionView::Execute(e) ==> e.command.contains("--dry-run"@)
                && exists|run_id: Seq<char>, previous: Option<Seq<char>>|
                e.command == #[trigger] rsync::transfer_command(job, run_id, previous, true)
        },
{
    if let check_plan::PlanPhase::Lock(p) = phase {
        let n = rsync::shared_options(job).len() as int;
        assert(p.command[n] == "--dry-run"@);
    }
}

/// Whether the command that a comparison holds is the one for its recovery point.
pub open spec fn compares_only(
    input: verify::VerifyInput,
    job: config::JobView,
    phase: verify::VerifyPhase,
) -> bool {
    match phase {
        verify::VerifyPhase::Lock(c) | verify::VerifyPhase::Compare(c) => c.command
            == rsync::verify_command(job, input.run_id, input.checksum),
        _ => true,
    }
}

/// Comparing changes nothing at the receiver: in every phase, the only command that it executes is
/// the dry run against the recovery point.
pub proof fn law_comparing_is_a_dry_run(
    input: verify::VerifyInput,
    job: config::JobView,
    phase: verify::VerifyPhase,
    event: step::EventView,
    now: Seq<char>,
)
    requires
        config::find_job(input.config.jobs, input.job_id) == Some(job),
        verify::expects(phase, event),
        compares_only(input, job, phase),
    ensures
        compares_only(input, job, verify::VerifyPhase::Start),
        verify::verify_next(input, phase, event, now) matches step::StepView::Continue(
            next,
            action,
        ) ==> {
            &&& compares_only(input, job, next)
            &&& action matches step::ActionView::Execute(e) ==> e.command.contains("--dry-run"@)
                && e.command == rsync::verify_command(job, input.run_id, input.checksum)
        },
{
    super::super::safety::law_comparison_is_a_dry_run(job, input.run_id, input.checksum);
}

/// Planning and comparing execute nothing without the lock of the job: a command follows only the
/// lock, and what is waited for before it is the lock of that job.
pub proof fn law_dry_runs_hold_the_lock(
    plan: check_plan::PlanInput,
    plan_phase: check_plan::PlanPhase,
    comparison: verify::VerifyInput,
    verify_phase: verify::VerifyPhase,
    event: step::EventView,
    now: Moment,
    time: Seq<char>,
)
    ensures
        check_plan::plan_expects(plan_phase, event) ==> (check_plan::plan_next(
            plan,
            plan_phase,
            event,
            now,
        ) matches step::StepView::Continue(next, action) ==> {
            &&& action is Execute ==> plan_phase is Lock && event is Done
            &&& next is Lock ==> action == step::ActionView::Lock(
                common::lock_place(plan.config.state_dir, plan.job_id),
            )
        }),
        verify::expects(verify_phase, event) ==> (verify::verify_next(
            comparison,
            verify_phase,
            event,
            time,
        ) matches step::StepView::Continue(next, action) ==> {
            &&& action is Execute ==> verify_phase is Lock && event is Done
            &&& next is Lock ==> action == step::ActionView::Lock(
                common::lock_place(comparison.config.state_dir, comparison.job_id),
            )
        }),
{
}

// ---------------------------------------------------------------------------
// The baseline and the history
// ---------------------------------------------------------------------------
/// What a plan does when it gets the results of earlier runs, one after the other, until it looks
/// at no more of them.
pub open spec fn scan_results(
    input: check_plan::PlanInput,
    phase: check_plan::PlanPhase,
    results: Seq<records::RunView>,
    now: Moment,
) -> check_plan::PlanStep
    decreases results.len(),
{
    let next = check_plan::plan_next(input, phase, step::EventView::Run(results[0]), now);
    match next {
        step::StepView::Continue(after, _) => if after is Scan && results.len() > 1 {
            scan_results(input, after, results.drop_first(), now)
        } else {
            next
        },
        step::StepView::Finish(_) => next,
    }
}

/// The baseline of a plan is the newest run that succeeded: where the results of the runs, the
/// newest first, start with failures and then hold a success, that one is the baseline.
pub proof fn law_baseline_is_the_newest_success(
    input: check_plan::PlanInput,
    job: config::JobView,
    draft: check_plan::DraftView,
    names: Seq<Seq<u8>>,
    results: Seq<records::RunView>,
    at: int,
    now: Moment,
)
    requires
        config::find_job(input.config.jobs, input.job_id) == Some(job),
        names.len() == results.len(),
        0 <= at < results.len(),
        results[at].status == RunStatus::Success,
        forall|i: int| 0 <= i < at ==> (#[trigger] results[i]).status != RunStatus::Success,
    ensures
        scan_results(input, check_plan::PlanPhase::Scan(draft, names), results, now)
            == check_plan::planned(input, job, draft, Some(results[at].run_id)),
    decreases at,
{
    if at > 0 {
        assert(results[0].status != RunStatus::Success);
        assert forall|i: int| 0 <= i < at - 1 implies (#[trigger] results.drop_first()[i]).status
            != RunStatus::Success by {
            assert(results.drop_first()[i] == results[i + 1]);
        }
        law_baseline_is_the_newest_success(
            input,
            job,
            draft,
            names.drop_first(),
            results.drop_first(),
            at - 1,
            now,
        );
    }
}

/// Where no earlier run succeeded, a plan has no baseline of its own.
pub proof fn law_no_success_no_baseline(
    input: check_plan::PlanInput,
    job: config::JobView,
    draft: check_plan::DraftView,
    names: Seq<Seq<u8>>,
    results: Seq<records::RunView>,
    now: Moment,
)
    requires
        config::find_job(input.config.jobs, input.job_id) == Some(job),
        names.len() == results.len(),
        results.len() > 0,
        forall|i: int|
            0 <= i < results.len() ==> (#[trigger] results[i]).status != RunStatus::Success,
    ensures
        scan_results(input, check_plan::PlanPhase::Scan(draft, names), results, now)
            == check_plan::planned(input, job, draft, None),
    decreases results.len(),
{
    assert(results[0].status != RunStatus::Success);
    if results.len() > 1 {
        let rest = results.drop_first();
        assert forall|i: int| 0 <= i < rest.len() implies (#[trigger] rest[i]).status
            != RunStatus::Success by {
            assert(rest[i] == results[i + 1]);
        }
        law_no_success_no_baseline(input, job, draft, names.drop_first(), rest, now);
    }
}

/// What a look at the last runs says when it gets these results, one after the other.
pub open spec fn read_all(
    config: config::ConfigView,
    job_id: Seq<char>,
    limit: usize,
    phase: query::HistoryPhase,
    results: Seq<records::RunView>,
) -> step::StepView<query::HistoryPhase, records::HistoryView>
    decreases results.len(),
{
    let next = query::history_next(
        config,
        job_id,
        limit,
        phase,
        step::EventView::Run(results[0]),
    );
    if results.len() <= 1 {
        next
    } else {
        match next {
            step::StepView::Continue(after, _) => read_all(
                config,
                job_id,
                limit,
                after,
                results.drop_first(),
            ),
            step::StepView::Finish(_) => next,
        }
    }
}

proof fn lemma_read_all(
    config: config::ConfigView,
    job_id: Seq<char>,
    limit: usize,
    names: Seq<Seq<u8>>,
    runs: Seq<records::RunView>,
    results: Seq<records::RunView>,
)
    requires
        config::find_job(config.jobs, job_id) is Some,
        names.len() == results.len(),
        results.len() > 0,
    ensures
        read_all(config, job_id, limit, query::HistoryPhase::Read(names, runs), results)
            == step::StepView::<query::HistoryPhase, records::HistoryView>::Finish(
            Ok(query::history_result(job_id, runs + results)),
        ),
    decreases results.len(),
{
    if results.len() == 1 {
        assert(runs.push(results[0]) =~= runs + results);
    } else {
        lemma_read_all(
            config,
            job_id,
            limit,
            names.drop_first(),
            runs.push(results[0]),
            results.drop_first(),
        );
        assert(runs.push(results[0]) + results.drop_first() =~= runs + results);
    }
}

/// A history holds the results of the newest runs, the newest first, and never more than the
/// limit.
pub proof fn law_history_is_bounded(
    config: config::ConfigView,
    job_id: Seq<char>,
    limit: usize,
    names: Seq<Seq<u8>>,
    results: Seq<records::RunView>,
)
    requires
        config::find_job(config.jobs, job_id) is Some,
        results.len() == query::limited(common::newest_first(names), limit).len(),
        results.len() > 0,
    ensures
        results.len() <= limit,
        results.len() <= names.len(),
        query::history_next(
            config,
            job_id,
            limit,
            query::HistoryPhase::List,
            step::EventView::Names(names),
        ) matches step::StepView::Continue(phase, _) && read_all(
            config,
            job_id,
            limit,
            phase,
            results,
        ) == step::StepView::<query::HistoryPhase, records::HistoryView>::Finish(
            Ok(query::history_result(job_id, results)),
        ),
{
    common::law_newest_first_is_an_order(names);
    let wanted = query::limited(common::newest_first(names), limit);
    lemma_read_all(config, job_id, limit, wanted, Seq::empty(), results);
    assert(Seq::<records::RunView>::empty() + results =~= results);
}

} // verus!
