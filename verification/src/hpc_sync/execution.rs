//! Running one command to its end: its output files, its deadline and its exit code.
use super::error;
use super::error::{AppError, AppResult};
use super::process;
use super::process::{
    collect_output, program, read_error, spawn_error, wait_error, wait_step, CommandOutput,
    Execution, Poll, WaitStep,
};
use super::state;
use super::state::{ensure_private_dir, DirState, FileAction, FileEvent, FileStep, PRIVATE_FILE};
use crate::path;
use crate::path::FilePath;
use crate::text;
use vstd::prelude::*;

verus! {

/// How far a command is: what it waits for.
#[derive(Debug)]
pub enum ExecState {
    /// The directory of its output.
    Prepare(DirState),
    /// The file of its output.
    OpenOut,
    /// The file of its error output.
    OpenErr,
    /// Its start.
    Spawn,
    /// Its end.
    Wait,
    /// Its death, after which this is its exit code.
    Kill(i32),
    /// The rest of it, after which this is its exit code.
    Reap(i32),
    /// Its output; this is its exit code.
    ReadOut(i32),
    /// Its error output; this is its exit code and its output.
    ReadErr(i32, String),
    /// Its error output, which is written anew.
    Rewrite(CommandOutput),
}

/// How far a command is.
#[verifier::ext_equal]
pub enum ExecPhase {
    Prepare(DirState),
    OpenOut,
    OpenErr,
    Spawn,
    Wait,
    Kill(i32),
    Reap(i32),
    ReadOut(i32),
    ReadErr(i32, Seq<char>),
    Rewrite(process::OutputView),
}

impl View for ExecState {
    type V = ExecPhase;

    open spec fn view(&self) -> ExecPhase {
        match self {
            ExecState::Prepare(d) => ExecPhase::Prepare(*d),
            ExecState::OpenOut => ExecPhase::OpenOut,
            ExecState::OpenErr => ExecPhase::OpenErr,
            ExecState::Spawn => ExecPhase::Spawn,
            ExecState::Wait => ExecPhase::Wait,
            ExecState::Kill(code) => ExecPhase::Kill(*code),
            ExecState::Reap(code) => ExecPhase::Reap(*code),
            ExecState::ReadOut(code) => ExecPhase::ReadOut(*code),
            ExecState::ReadErr(code, out) => ExecPhase::ReadErr(*code, out@),
            ExecState::Rewrite(output) => ExecPhase::Rewrite(output@),
        }
    }
}

/// What is asked of the host.
#[derive(Debug)]
pub enum ExecAction {
    /// Something of the file system.
    File(FileAction),
    /// Open a file for writing and empty it; where it is not there, create it with these permission
    /// bits.
    OpenOutput(FilePath, u32),
    /// Start the program with its arguments, with no input, and count its time from then on.
    Spawn(Vec<String>),
    /// Look whether the program has ended, after so many milliseconds.
    Look(u64),
    /// End the program.
    Kill,
    /// Wait for the program that was ended.
    Reap,
    /// Read a file.
    Read(FilePath),
    /// Write a file.
    Write(FilePath, String),
}

/// What an [`ExecAction`] asks for.
#[verifier::ext_equal]
pub enum ExecActionView {
    File(state::FileActionView),
    OpenOutput(Seq<u8>, u32),
    Spawn(Seq<Seq<char>>),
    Look(u64),
    Kill,
    Reap,
    Read(Seq<u8>),
    Write(Seq<u8>, Seq<char>),
}

impl View for ExecAction {
    type V = ExecActionView;

    open spec fn view(&self) -> ExecActionView {
        match self {
            ExecAction::File(a) => ExecActionView::File(a@),
            ExecAction::OpenOutput(p, mode) => ExecActionView::OpenOutput(p@, *mode),
            ExecAction::Spawn(command) => ExecActionView::Spawn(text::texts(command@)),
            ExecAction::Look(millis) => ExecActionView::Look(*millis),
            ExecAction::Kill => ExecActionView::Kill,
            ExecAction::Reap => ExecActionView::Reap,
            ExecAction::Read(p) => ExecActionView::Read(p@),
            ExecAction::Write(p, s) => ExecActionView::Write(p@, s@),
        }
    }
}

/// What the host answers.
#[derive(Debug)]
pub enum ExecEvent {
    /// Nothing was asked yet.
    Begin,
    /// What was asked for is done.
    Done,
    /// What was asked for failed, and why.
    Failed(String),
    /// What a look at the program showed, and whether its time is over.
    Seen(Poll, bool),
    /// What a file holds.
    Content(String),
}

/// What an [`ExecEvent`] tells.
#[verifier::ext_equal]
pub enum ExecEventView {
    Begin,
    Done,
    Failed(Seq<char>),
    Seen(Poll, bool),
    Content(Seq<char>),
}

impl View for ExecEvent {
    type V = ExecEventView;

    open spec fn view(&self) -> ExecEventView {
        match self {
            ExecEvent::Begin => ExecEventView::Begin,
            ExecEvent::Done => ExecEventView::Done,
            ExecEvent::Failed(cause) => ExecEventView::Failed(cause@),
            ExecEvent::Seen(poll, late) => ExecEventView::Seen(*poll, *late),
            ExecEvent::Content(s) => ExecEventView::Content(s@),
        }
    }
}

/// What follows: what is asked for next, or how the command ended.
#[derive(Debug)]
pub enum ExecStep {
    Continue(ExecState, ExecAction),
    Finish(AppResult<CommandOutput>),
}

/// What an [`ExecStep`] says.
#[verifier::ext_equal]
pub enum ExecStepView {
    Continue(ExecPhase, ExecActionView),
    Finish(Result<process::OutputView, error::ErrorView>),
}

impl View for ExecStep {
    type V = ExecStepView;

    open spec fn view(&self) -> ExecStepView {
        match self {
            ExecStep::Continue(s, a) => ExecStepView::Continue(s@, a@),
            ExecStep::Finish(Ok(o)) => ExecStepView::Finish(Ok(o@)),
            ExecStep::Finish(Err(e)) => ExecStepView::Finish(Err(e@)),
        }
    }
}

/// Whether an event answers what a command waits for.
pub open spec fn exec_expects(phase: ExecPhase, event: ExecEventView) -> bool {
    match phase {
        ExecPhase::Prepare(d) => if d == DirState::Start {
            event is Begin
        } else {
            event is Done || event is Failed
        },
        ExecPhase::Wait => event is Seen || event is Failed,
        ExecPhase::ReadOut(_) | ExecPhase::ReadErr(_, _) => event is Content || event is Failed,
        _ => event is Done || event is Failed,
    }
}

/// Whether an event answers an action.
pub open spec fn exec_answers(action: ExecActionView, event: ExecEventView) -> bool {
    match action {
        ExecActionView::Look(_) => event is Seen || event is Failed,
        ExecActionView::Read(_) => event is Content || event is Failed,
        _ => event is Done || event is Failed,
    }
}

/// The error for a command without words.
pub open spec fn empty_fault() -> error::ErrorView {
    error::plain_error(
        "command_empty"@,
        "cannot execute an empty command"@,
        false,
        "Report this hpc-sync command-construction defect."@,
    )
}

/// The error for a program that does not start.
pub open spec fn spawn_fault(program: Seq<char>, cause: Seq<char>) -> error::ErrorView {
    error::plain_error(
        "command_spawn_failed"@,
        "cannot start "@ + program + ": "@ + cause,
        false,
        "Check that required binaries are installed and executable."@,
    )
}

/// The error for a program that cannot be waited for.
pub open spec fn wait_fault(program: Seq<char>, cause: Seq<char>) -> error::ErrorView {
    error::plain_error(
        "command_wait_failed"@,
        "cannot wait for "@ + program + ": "@ + cause,
        true,
        "Inspect the host process state and retry once safe."@,
    )
}

/// The error for output files that cannot be read or written.
pub open spec fn output_fault(p: Seq<u8>, cause: Seq<char>) -> error::ErrorView {
    error::plain_error(
        "command_output_failed"@,
        "cannot access command output "@ + path::lossy(p) + ": "@ + cause,
        false,
        "Check state directory permissions and free disk space."@,
    )
}

/// The error of a command that failed in a phase.
pub open spec fn exec_fault(
    request: process::ExecutionView,
    dir: Seq<u8>,
    phase: ExecPhase,
    cause: Seq<char>,
) -> error::ErrorView {
    match phase {
        ExecPhase::Prepare(_) => state::write_fault(dir, cause),
        ExecPhase::OpenOut | ExecPhase::ReadOut(_) => output_fault(request.stdout_path, cause),
        ExecPhase::OpenErr | ExecPhase::ReadErr(_, _) | ExecPhase::Rewrite(_) => output_fault(
            request.stderr_path,
            cause,
        ),
        ExecPhase::Spawn => spawn_fault(request.command[0], cause),
        ExecPhase::Wait | ExecPhase::Kill(_) | ExecPhase::Reap(_) => wait_fault(
            request.command[0],
            cause,
        ),
    }
}

/// What follows a look at the program.
pub open spec fn exec_seen(request: process::ExecutionView, poll: Poll, late: bool) ->
    ExecStepView {
    match process::waited(poll, late) {
        WaitStep::Sleep => ExecStepView::Continue(ExecPhase::Wait, ExecActionView::Look(100)),
        WaitStep::Kill(code) => ExecStepView::Continue(
            ExecPhase::Kill(code),
            ExecActionView::Kill,
        ),
        WaitStep::Take(code) => ExecStepView::Continue(
            ExecPhase::ReadOut(code),
            ExecActionView::Read(request.stdout_path),
        ),
    }
}

/// What follows the error output: one that has to speak of a timeout is written anew.
pub open spec fn exec_collected(
    request: process::ExecutionView,
    code: i32,
    out: Seq<char>,
    err: Seq<char>,
) -> ExecStepView {
    let noted = process::noted_stderr(code, err);
    let output = process::OutputView { exit_code: code, stdout: out, stderr: noted };
    if code == 30 && !text::has_part(err, "hpc-sync timeout"@) {
        ExecStepView::Continue(
            ExecPhase::Rewrite(output),
            ExecActionView::Write(request.stderr_path, noted),
        )
    } else {
        ExecStepView::Finish(Ok(output))
    }
}

/// What follows the directory of the output.
pub open spec fn exec_prepared(
    request: process::ExecutionView,
    dir: Seq<u8>,
    state: DirState,
) -> ExecStepView {
    if request.command.len() == 0 {
        ExecStepView::Finish(Err(empty_fault()))
    } else {
        match state::dir_next(dir, state, state::FileEventView::Done) {
            state::FileStepView::Continue(next, action) => ExecStepView::Continue(
                ExecPhase::Prepare(next),
                ExecActionView::File(action),
            ),
            state::FileStepView::Finish(_) => ExecStepView::Continue(
                ExecPhase::OpenOut,
                ExecActionView::OpenOutput(request.stdout_path, PRIVATE_FILE),
            ),
        }
    }
}

/// What follows while a command runs.
pub open spec fn exec_next(
    request: process::ExecutionView,
    dir: Seq<u8>,
    phase: ExecPhase,
    event: ExecEventView,
) -> ExecStepView {
    if let ExecEventView::Failed(cause) = event {
        ExecStepView::Finish(Err(exec_fault(request, dir, phase, cause)))
    } else {
        match phase {
            ExecPhase::Prepare(d) => exec_prepared(request, dir, d),
            ExecPhase::OpenOut => ExecStepView::Continue(
                ExecPhase::OpenErr,
                ExecActionView::OpenOutput(request.stderr_path, PRIVATE_FILE),
            ),
            ExecPhase::OpenErr => ExecStepView::Continue(
                ExecPhase::Spawn,
                ExecActionView::Spawn(request.command),
            ),
            ExecPhase::Spawn => ExecStepView::Continue(
                ExecPhase::Wait,
                ExecActionView::Look(0),
            ),
            ExecPhase::Wait => exec_seen(request, event->Seen_0, event->Seen_1),
            ExecPhase::Kill(code) => ExecStepView::Continue(
                ExecPhase::Reap(code),
                ExecActionView::Reap,
            ),
            ExecPhase::Reap(code) => ExecStepView::Continue(
                ExecPhase::ReadOut(code),
                ExecActionView::Read(request.stdout_path),
            ),
            ExecPhase::ReadOut(code) => ExecStepView::Continue(
                ExecPhase::ReadErr(code, event->Content_0),
                ExecActionView::Read(request.stderr_path),
            ),
            ExecPhase::ReadErr(code, out) => exec_collected(request, code, out, event->Content_0),
            ExecPhase::Rewrite(output) => ExecStepView::Finish(Ok(output)),
        }
    }
}

/// Whether a command has come so far only where it has a word.
pub open spec fn has_program(request: process::ExecutionView, phase: ExecPhase) -> bool {
    phase is Prepare || request.command.len() > 0
}

/// The name of the program of a command.
fn name_of(request: &Execution) -> (r: &String)
    requires
        request@.command.len() > 0,
    ensures
        r@ == request@.command[0],
{
    &request.command[0]
}

/// The error of a command that failed.
fn fail(request: &Execution, dir: &FilePath, state: &ExecState, cause: &str) -> (r: AppError)
    requires
        has_program(request@, state@),
    ensures
        r@ == exec_fault(request@, dir@, state@, cause@),
{
    match state {
        ExecState::Prepare(_) => state::state_error("state_write_failed", dir, cause),
        ExecState::OpenOut | ExecState::ReadOut(_) => read_error(&request.stdout_path, cause),
        ExecState::OpenErr | ExecState::ReadErr(_, _) | ExecState::Rewrite(_) => read_error(
            &request.stderr_path,
            cause,
        ),
        ExecState::Spawn => spawn_error(name_of(request), cause),
        ExecState::Wait | ExecState::Kill(_) | ExecState::Reap(_) => wait_error(
            name_of(request),
            cause,
        ),
    }
}

/// Goes on after a look at the program.
fn look(request: &Execution, poll: Poll, late: bool) -> (r: ExecStep)
    ensures
        r@ == exec_seen(request@, poll, late),
{
    match wait_step(poll, late) {
        WaitStep::Sleep => ExecStep::Continue(ExecState::Wait, ExecAction::Look(100)),
        WaitStep::Kill(code) => ExecStep::Continue(ExecState::Kill(code), ExecAction::Kill),
        WaitStep::Take(code) => ExecStep::Continue(
            ExecState::ReadOut(code),
            ExecAction::Read(request.stdout_path.copy()),
        ),
    }
}

/// Goes on after the error output.
fn collect(request: &Execution, code: i32, out: String, err: String) -> (r: ExecStep)
    ensures
        r@ == exec_collected(request@, code, out@, err@),
{
    let (output, rewrite): (CommandOutput, bool) = collect_output(code, out, err);
    if rewrite {
        let noted: String = output.stderr.clone();
        ExecStep::Continue(
            ExecState::Rewrite(output),
            ExecAction::Write(request.stderr_path.copy(), noted),
        )
    } else {
        ExecStep::Finish(Ok(output))
    }
}

/// Goes on with the directory of the output.
fn prepare(request: &Execution, dir: &FilePath, state: DirState) -> (r: ExecStep)
    ensures
        r@ == exec_prepared(request@, dir@, state),
{
    match program(&request.command) {
        Err(e) => {
            return ExecStep::Finish(Err(e));
        },
        Ok(_) => {},
    }
    match ensure_private_dir(dir, state, FileEvent::Done) {
        FileStep::Continue(next, action) => ExecStep::Continue(
            ExecState::Prepare(next),
            ExecAction::File(action),
        ),
        FileStep::Finish(_) => ExecStep::Continue(
            ExecState::OpenOut,
            ExecAction::OpenOutput(request.stdout_path.copy(), PRIVATE_FILE),
        ),
    }
}

/// One step of running a command whose output goes to a directory.
pub fn execute(request: &Execution, dir: &FilePath, state: ExecState, event: ExecEvent) -> (r:
    ExecStep)
    requires
        exec_expects(state@, event@),
        has_program(request@, state@),
    ensures
        r@ == exec_next(request@, dir@, state@, event@),
{
    match (state, event) {
        (state, ExecEvent::Failed(cause)) => ExecStep::Finish(
            Err(fail(request, dir, &state, &cause)),
        ),
        (ExecState::Prepare(d), _) => prepare(request, dir, d),
        (ExecState::OpenOut, _) => ExecStep::Continue(
            ExecState::OpenErr,
            ExecAction::OpenOutput(request.stderr_path.copy(), PRIVATE_FILE),
        ),
        (ExecState::OpenErr, _) => ExecStep::Continue(
            ExecState::Spawn,
            ExecAction::Spawn(text::copy_texts(&request.command)),
        ),
        (ExecState::Spawn, _) => ExecStep::Continue(ExecState::Wait, ExecAction::Look(0)),
        (ExecState::Wait, ExecEvent::Seen(poll, late)) => look(request, poll, late),
        (ExecState::Kill(code), _) => ExecStep::Continue(
            ExecState::Reap(code),
            ExecAction::Reap,
        ),
        (ExecState::Reap(code), _) => ExecStep::Continue(
            ExecState::ReadOut(code),
            ExecAction::Read(request.stdout_path.copy()),
        ),
        (ExecState::ReadOut(code), ExecEvent::Content(out)) => ExecStep::Continue(
            ExecState::ReadErr(code, out),
            ExecAction::Read(request.stderr_path.copy()),
        ),
        (ExecState::ReadErr(code, out), ExecEvent::Content(err)) => collect(
            request,
            code,
            out,
            err,
        ),
        (ExecState::Rewrite(output), _) => ExecStep::Finish(Ok(output)),
        (_, _) => vstd::pervasive::unreached(),
    }
}

/// Whatever answers what a command asked for, the command goes on from there.
pub proof fn law_executions_take_every_answer(
    request: process::ExecutionView,
    dir: Seq<u8>,
    phase: ExecPhase,
    event: ExecEventView,
    answer: ExecEventView,
)
    requires
        exec_expects(phase, event),
        has_program(request, phase),
    ensures
        exec_next(request, dir, phase, event) matches ExecStepView::Continue(next, action) ==> {
            &&& has_program(request, next)
            &&& exec_answers(action, answer) ==> exec_expects(next, answer)
        },
{
}

/// A program is ended only while it runs past its deadline, and then its exit code is the one of a
/// timeout.
pub proof fn law_only_late_programs_are_killed(
    request: process::ExecutionView,
    dir: Seq<u8>,
    phase: ExecPhase,
    event: ExecEventView,
)
    requires
        exec_expects(phase, event),
    ensures
        exec_next(request, dir, phase, event) matches ExecStepView::Continue(next, action) ==> (
        action is Kill ==> {
            &&& event == ExecEventView::Seen(Poll::Running, true)
            &&& next == ExecPhase::Kill(30)
        }),
{
}

/// What is started is the command that was asked for, once, after its output files were opened for
/// its owner alone.
pub proof fn law_the_command_is_started(
    request: process::ExecutionView,
    dir: Seq<u8>,
    phase: ExecPhase,
    event: ExecEventView,
)
    requires
        exec_expects(phase, event),
    ensures
        exec_next(request, dir, phase, event) matches ExecStepView::Continue(next, action) ==> {
            &&& action matches ExecActionView::Spawn(command) ==> command == request.command
                && phase is OpenErr
            &&& action matches ExecActionView::OpenOutput(p, mode) ==> mode == 0o600
            &&& next is OpenErr ==> phase is OpenOut
        },
{
}

/// A command is executed step by step: its output files are opened, its words are started, it is
/// looked at until it has ended, and then both files are read. What is reported is the exit code
/// that it ended with and what the files hold.
pub proof fn law_commands_are_carried_out(
    request: process::ExecutionView,
    dir: Seq<u8>,
    code: i32,
    out: Seq<char>,
    err: Seq<char>,
)
    requires
        request.command.len() > 0,
    ensures
        exec_next(request, dir, ExecPhase::Prepare(DirState::Protect), ExecEventView::Done)
            == ExecStepView::Continue(
            ExecPhase::OpenOut,
            ExecActionView::OpenOutput(request.stdout_path, 0o600),
        ),
        exec_next(request, dir, ExecPhase::OpenOut, ExecEventView::Done) == ExecStepView::Continue(
            ExecPhase::OpenErr,
            ExecActionView::OpenOutput(request.stderr_path, 0o600),
        ),
        exec_next(request, dir, ExecPhase::OpenErr, ExecEventView::Done) == ExecStepView::Continue(
            ExecPhase::Spawn,
            ExecActionView::Spawn(request.command),
        ),
        exec_next(request, dir, ExecPhase::Spawn, ExecEventView::Done) == ExecStepView::Continue(
            ExecPhase::Wait,
            ExecActionView::Look(0),
        ),
        exec_next(request, dir, ExecPhase::Wait, ExecEventView::Seen(Poll::Running, false))
            == ExecStepView::Continue(ExecPhase::Wait, ExecActionView::Look(100)),
        forall|late: bool|
            #[trigger] exec_next(
                request,
                dir,
                ExecPhase::Wait,
                ExecEventView::Seen(Poll::Ended(Some(code)), late),
            ) == ExecStepView::Continue(
                ExecPhase::ReadOut(code),
                ExecActionView::Read(request.stdout_path),
            ),
        exec_next(request, dir, ExecPhase::ReadOut(code), ExecEventView::Content(out))
            == ExecStepView::Continue(
            ExecPhase::ReadErr(code, out),
            ExecActionView::Read(request.stderr_path),
        ),
        code != 30 ==> exec_next(
            request,
            dir,
            ExecPhase::ReadErr(code, out),
            ExecEventView::Content(err),
        ) == ExecStepView::Finish(
            Ok(process::OutputView { exit_code: code, stdout: out, stderr: err }),
        ),
{
}

/// A program that runs past its deadline is killed and waited for, and what it wrote is still read;
/// it is reported with the exit code of a timeout, and its diagnostics are written anew where they
/// do not speak of it.
pub proof fn law_late_programs_are_ended(
    request: process::ExecutionView,
    dir: Seq<u8>,
    out: Seq<char>,
    err: Seq<char>,
)
    ensures
        exec_next(request, dir, ExecPhase::Wait, ExecEventView::Seen(Poll::Running, true))
            == ExecStepView::Continue(ExecPhase::Kill(30), ExecActionView::Kill),
        exec_next(request, dir, ExecPhase::Kill(30), ExecEventView::Done)
            == ExecStepView::Continue(ExecPhase::Reap(30), ExecActionView::Reap),
        exec_next(request, dir, ExecPhase::Reap(30), ExecEventView::Done)
            == ExecStepView::Continue(
            ExecPhase::ReadOut(30),
            ExecActionView::Read(request.stdout_path),
        ),
        !text::has_part(err, "hpc-sync timeout"@) ==> (exec_next(
            request,
            dir,
            ExecPhase::ReadErr(30, out),
            ExecEventView::Content(err),
        ) matches ExecStepView::Continue(
            ExecPhase::Rewrite(output),
            ExecActionView::Write(p, content),
        ) && {
            &&& p == request.stderr_path
            &&& content == output.stderr
            &&& output.exit_code == 30
            &&& output.stdout == out
            &&& err.is_prefix_of(output.stderr)
            &&& exec_next(request, dir, ExecPhase::Rewrite(output), ExecEventView::Done)
                == ExecStepView::Finish(Ok(output))
        }),
{
    process::law_timeouts_are_noted(30, err);
}

/// Whatever fails while a command is carried out ends it, with an error that tells what failed: its
/// directory, its output, its start or the wait for it. Only the wait can be tried again.
pub proof fn law_failed_executions_are_told(
    request: process::ExecutionView,
    dir: Seq<u8>,
    phase: ExecPhase,
    cause: Seq<char>,
)
    ensures
        exec_next(request, dir, phase, ExecEventView::Failed(cause)) matches ExecStepView::Finish(
            Err(e),
        ) && {
            &&& e.exit_code == 2
            &&& e.code == match phase {
                ExecPhase::Prepare(_) => "state_write_failed"@,
                ExecPhase::Spawn => "command_spawn_failed"@,
                ExecPhase::Wait | ExecPhase::Kill(_) | ExecPhase::Reap(_) => "command_wait_failed"@,
                _ => "command_output_failed"@,
            }
            &&& e.retryable <==> phase is Wait || phase is Kill || phase is Reap
        },
{
}

} // verus!
