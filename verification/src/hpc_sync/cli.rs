//! The command line: what each command needs, prints and exits with.
use super::error;
use super::error::AppError;
use super::operations::{check_plan, query, run as run_operation, step, verify};
use super::records;
use super::records::{
    CheckRecord, DescribeRecord, ErrorRecord, ExitCode, HistoryRecord, PlanRecord, RunRecord,
    RunStatus, StatusRecord, VerifyRecord, VerifyStatus,
};
use super::{config, moment};
use vstd::prelude::*;

verus! {

/// A command with its arguments.
#[derive(Debug)]
pub enum Command {
    /// Validate local prerequisites without starting a transfer.
    Check { job_id: String },
    /// Create an audited dry run and approval hash.
    Plan { job_id: String },
    /// Apply one reviewed plan and create a recovery point.
    Run { job_id: String, plan_run_id: String, approval: String },
    /// Compare a recovery point with the current source.
    Verify { job_id: String, run_id: String, checksum: bool },
    /// Return the latest authoritative run state.
    Status { job_id: String },
    /// Return a bounded list of audited run results.
    History { job_id: String, limit: usize },
    /// Describe the stable contract and safety boundaries.
    Describe,
}

/// The configuration file that is read where none is named.
pub fn default_config() -> (r: String)
    ensures
        r@ == "~/.config/hpc-sync/config.toml"@,
{
    "~/.config/hpc-sync/config.toml".to_owned()
}

/// The number of runs in a history that names no limit.
pub fn default_limit() -> (r: usize)
    ensures
        r == 10,
{
    10
}

/// What is to be done first for a command.
#[derive(Debug)]
pub enum Preparation {
    /// Read the configuration and carry the command out.
    LoadConfig,
    /// Print this at once.
    Print(Document),
}

/// Why a command is not carried out.
pub open spec fn command_fault(command: Command) -> Option<error::ErrorView> {
    match command {
        Command::History { limit, .. } => if 1 <= limit <= 100 {
            None
        } else {
            Some(
                error::plain_error(
                    "limit_invalid"@,
                    "history limit must be between 1 and 100"@,
                    false,
                    "Pass --limit with a value from 1 through 100."@,
                ),
            )
        },
        _ => None,
    }
}

/// Decides what is to be done first for a command. A command that is not carried out reads no
/// configuration, and neither does the description.
pub fn dispatch(command: &Command) -> (r: Preparation)
    ensures
        match r {
            Preparation::LoadConfig => command !is Describe && command_fault(*command) is None,
            Preparation::Print(Document::Describe(d)) => command is Describe && d@ == description(),
            Preparation::Print(Document::Error(e)) => command_fault(*command) == Some(e@),
            Preparation::Print(_) => false,
        },
{
    match command {
        Command::Describe => Preparation::Print(Document::Describe(describe_record())),
        Command::History { limit, .. } => if *limit < 1 || *limit > 100 {
            Preparation::Print(
                Document::Error(
                    AppError::new(
                        "limit_invalid",
                        "history limit must be between 1 and 100".to_owned(),
                        false,
                        "Pass --limit with a value from 1 through 100.",
                    ),
                ),
            )
        } else {
            Preparation::LoadConfig
        },
        _ => Preparation::LoadConfig,
    }
}

// ---------------------------------------------------------------------------
// Printing
// ---------------------------------------------------------------------------
/// What a command prints.
#[derive(Debug)]
pub enum Document {
    Describe(DescribeRecord),
    Check(CheckRecord),
    Plan(PlanRecord),
    Run(RunRecord),
    Verify(VerifyRecord),
    Status(StatusRecord),
    History(HistoryRecord),
    Error(AppError),
}

/// The exit code of a process that printed a document.
pub open spec fn exit_code_of(document: Document) -> i32 {
    match document {
        Document::Run(r) => if r.status == RunStatus::Success {
            0
        } else {
            10
        },
        Document::Verify(r) => if r.status == VerifyStatus::Verified {
            0
        } else {
            11
        },
        Document::Error(e) => e.exit_code,
        _ => 0,
    }
}

/// What is printed, in which form, and how the process then exits.
#[derive(Debug)]
pub struct Report {
    pub document: Document,
    pub pretty: bool,
    pub exit_code: i32,
}

/// Decides how what a command gave is printed and how the process exits. An error is always
/// printed on one line.
pub fn run(document: Document, pretty: bool) -> (r: Report)
    ensures
        r.document == document,
        r.pretty == (pretty && document !is Error),
        r.exit_code == exit_code_of(document),
{
    let (exit_code, is_error): (i32, bool) = match &document {
        Document::Run(r) => if r.status == RunStatus::Success {
            (0, false)
        } else {
            (10, false)
        },
        Document::Verify(r) => if r.status == VerifyStatus::Verified {
            (0, false)
        } else {
            (11, false)
        },
        Document::Error(e) => (e.exit_code, true),
        _ => (0, false),
    };
    Report { document, pretty: pretty && !is_error, exit_code }
}

/// What came of printing.
#[derive(Debug)]
pub enum Printed {
    /// All is printed.
    Done,
    /// The document could not be printed.
    BodyFailed(String),
    /// The line feed after the document could not be printed.
    LineFailed(String),
}

/// What follows after printing.
#[derive(Debug)]
pub enum AfterPrint {
    /// The process exits.
    Exit(i32),
    /// This is printed in turn.
    Print(Report),
}

/// The error for output that could not be printed.
pub open spec fn output_fault(printed: Printed) -> Option<error::ErrorView> {
    match printed {
        Printed::Done => None,
        Printed::BodyFailed(cause) => Some(
            error::plain_error("output_failed"@, cause@, false, "Check stdout."@),
        ),
        Printed::LineFailed(cause) => Some(
            error::plain_error("output_failed"@, cause@, false, "Check stdout availability."@),
        ),
    }
}

/// Decides what follows after printing. A record that could not be printed gives an error, which
/// is printed in turn; after an error that could not be printed the process exits at once.
pub fn emit(report: &Report, printed: Printed) -> (r: AfterPrint)
    ensures
        match r {
            AfterPrint::Exit(code) => if printed is Done {
                code == report.exit_code
            } else {
                report.document is Error && code == 2
            },
            AfterPrint::Print(next) => {
                &&& report.document !is Error
                &&& next.document matches Document::Error(e) && Some(e@) == output_fault(printed)
                &&& !next.pretty
                &&& next.exit_code == 2
            },
        },
{
    let failure: AppError = match printed {
        Printed::Done => {
            return AfterPrint::Exit(report.exit_code);
        },
        Printed::BodyFailed(cause) => AppError::new("output_failed", cause, false, "Check stdout."),
        Printed::LineFailed(cause) => AppError::new(
            "output_failed",
            cause,
            false,
            "Check stdout availability.",
        ),
    };
    if let Document::Error(_) = &report.document {
        return AfterPrint::Exit(2);
    }
    AfterPrint::Print(run(Document::Error(failure), false))
}

/// What an error looks like when it is printed.
pub open spec fn printed_error(e: error::ErrorView) -> records::ErrorRecordView {
    records::ErrorRecordView {
        schema_version: 1,
        operation: "error"@,
        status: "error"@,
        code: e.code,
        retryable: e.retryable,
        message: e.message,
        suggested_fix: e.suggested_fix,
    }
}

/// The record of an error.
pub fn error_record<'a>(e: &'a AppError) -> (r: ErrorRecord<'a>)
    ensures
        r@ == printed_error(e@),
{
    ErrorRecord {
        schema_version: 1,
        operation: "error",
        status: "error",
        code: e.code,
        retryable: e.retryable,
        message: e.message.as_str(),
        suggested_fix: e.suggested_fix.as_str(),
    }
}

/// What the parser of the command line made of the arguments.
#[derive(Debug)]
pub enum Parsed {
    /// Help or the version was asked for; the parser prints it.
    Help,
    /// The arguments are not valid.
    Invalid(String),
}

/// The error for arguments that are not valid.
pub open spec fn usage_fault(message: Seq<char>) -> error::ErrorView {
    error::plain_error(
        "cli_usage"@,
        message,
        false,
        "Run hpc-sync --help or hpc-sync describe --json."@,
    )
}

/// Decides what follows where the arguments do not name a command: help is no error, and
/// everything else is printed as one.
pub fn handle_clap_error(parsed: Parsed) -> (r: AfterPrint)
    ensures
        match r {
            AfterPrint::Exit(code) => parsed is Help && code == 0,
            AfterPrint::Print(report) => {
                &&& parsed matches Parsed::Invalid(message) && report.document
                    matches Document::Error(e) && e@ == usage_fault(message@)
                &&& !report.pretty
                &&& report.exit_code == 2
            },
        },
{
    match parsed {
        Parsed::Help => AfterPrint::Exit(0),
        Parsed::Invalid(message) => {
            let e: AppError = AppError::new(
                "cli_usage",
                message,
                false,
                "Run hpc-sync --help or hpc-sync describe --json.",
            );
            AfterPrint::Print(run(Document::Error(e), false))
        },
    }
}

// ---------------------------------------------------------------------------
// The description
// ---------------------------------------------------------------------------
/// What the tool says of itself.
pub open spec fn description() -> records::DescribeView {
    records::DescribeView {
        schema_version: 1,
        operation: "describe"@,
        status: "available"@,
        profile: "backup"@,
        commands: seq![
            "check"@,
            "plan"@,
            "run"@,
            "verify"@,
            "status"@,
            "history"@,
            "describe"@,
        ],
        safety_invariants: seq![
            "predefined_jobs_only"@,
            "hpc_to_local_only"@,
            "backup_profile_only"@,
            "no_delete"@,
            "no_inplace"@,
            "strict_host_key_checking"@,
            "non_interactive_ssh"@,
            "one_shot_process"@,
        ],
        exit_codes: seq![
            ("rsync_failed"@, 10i32),
            ("success"@, 0i32),
            ("usage_or_config"@, 2i32),
            ("verify_failed"@, 11i32),
        ],
    }
}

/// Says what the tool does and promises.
pub fn describe_record() -> (r: DescribeRecord)
    ensures
        r@ == description(),
{
    let mut commands: Vec<&'static str> = Vec::new();
    commands.push("check");
    commands.push("plan");
    commands.push("run");
    commands.push("verify");
    commands.push("status");
    commands.push("history");
    commands.push("describe");
    let mut safety_invariants: Vec<&'static str> = Vec::new();
    safety_invariants.push("predefined_jobs_only");
    safety_invariants.push("hpc_to_local_only");
    safety_invariants.push("backup_profile_only");
    safety_invariants.push("no_delete");
    safety_invariants.push("no_inplace");
    safety_invariants.push("strict_host_key_checking");
    safety_invariants.push("non_interactive_ssh");
    safety_invariants.push("one_shot_process");
    let mut exit_codes: Vec<ExitCode> = Vec::new();
    exit_codes.push(ExitCode { name: "rsync_failed", code: 10 });
    exit_codes.push(ExitCode { name: "success", code: 0 });
    exit_codes.push(ExitCode { name: "usage_or_config", code: 2 });
    exit_codes.push(ExitCode { name: "verify_failed", code: 11 });
    let r: DescribeRecord = DescribeRecord {
        schema_version: 1,
        operation: "describe",
        status: "available",
        profile: "backup",
        commands,
        safety_invariants,
        exit_codes,
    };
    proof {
        assert(r@.commands =~= description().commands);
        assert(r@.safety_invariants =~= description().safety_invariants);
        assert(r@.exit_codes =~= description().exit_codes);
    }
    r
}

// ---------------------------------------------------------------------------
// Exit codes
// ---------------------------------------------------------------------------
/// Whether the description names an exit code.
pub open spec fn is_described(code: i32) -> bool {
    exists|i: int|
        0 <= i < description().exit_codes.len() && (#[trigger] description().exit_codes[i]).1
            == code
}

/// The exit codes that the description names.
pub proof fn lemma_described(code: i32)
    ensures
        is_described(code) <==> (code == 0 || code == 2 || code == 10 || code == 11),
{
    let codes = description().exit_codes;
    assert(codes[0].1 == 10);
    assert(codes[1].1 == 0);
    assert(codes[2].1 == 2);
    assert(codes[3].1 == 11);
}

/// Whether a failure that the host reports has an exit code that the description names.
pub open spec fn fails_as_described(event: step::EventView) -> bool {
    event matches step::EventView::Failed(e) ==> is_described(e.exit_code)
}

/// Whether a step ends, if it does, without an error or with one whose exit code the description
/// names.
pub open spec fn ends_as_described<S, T>(s: step::StepView<S, T>) -> bool {
    s matches step::StepView::Finish(Err(e)) ==> is_described(e.exit_code)
}

/// Every exit code is one that the description names: that of a printed record, and that of each
/// error with which an operation ends, as long as the host reports no other.
pub proof fn law_exit_codes_are_described(
    document: Document,
    run_input: run_operation::RunInput,
    run_phase: run_operation::RunPhase,
    plan_input: check_plan::PlanInput,
    plan_phase: check_plan::PlanPhase,
    verify_input: verify::VerifyInput,
    verify_phase: verify::VerifyPhase,
    check_state: check_plan::CheckState,
    status_state: query::StatusState,
    history_phase: query::HistoryPhase,
    limit: usize,
    event: step::EventView,
    now: moment::Moment,
)
    requires
        fails_as_described(event),
    ensures
        document !is Error ==> is_described(exit_code_of(document)),
        ends_as_described(
            run_operation::run_next(
                run_input,
                run_phase,
                event,
                moment::rfc3339(now.seconds, now.nanos),
            ),
        ),
        ends_as_described(check_plan::plan_next(plan_input, plan_phase, event, now)),
        ends_as_described(
            verify::verify_next(
                verify_input,
                verify_phase,
                event,
                moment::rfc3339(now.seconds, now.nanos),
            ),
        ),
        ends_as_described(
            check_plan::check_next(plan_input.config, plan_input.job_id, check_state, event),
        ),
        ends_as_described(
            query::status_next(plan_input.config, plan_input.job_id, status_state, event),
        ),
        ends_as_described(
            query::history_next(plan_input.config, plan_input.job_id, limit, history_phase, event),
        ),
{
    lemma_described(0);
    lemma_described(2);
    lemma_described(10);
    lemma_described(11);
}

/// How the process exits tells what came of a command: zero for a record of what was asked for, the
/// code of a failed transfer for a run that did not succeed, the code of a failed comparison for one
/// that did not verify, and the code of the error where there is one.
pub proof fn law_exit_codes_tell_what_came(document: Document)
    ensures
        document matches Document::Run(r) ==> exit_code_of(document) == if r.status
            == RunStatus::Success {
            0i32
        } else {
            10i32
        },
        document matches Document::Verify(r) ==> exit_code_of(document) == if r.status
            == VerifyStatus::Verified {
            0i32
        } else {
            11i32
        },
        document matches Document::Error(e) ==> exit_code_of(document) == e.exit_code,
        document is Check || document is Plan || document is Status || document is History
            || document is Describe ==> exit_code_of(document) == 0,
{
}

/// A history is refused exactly where its limit is not from 1 to 100; no other command is.
pub proof fn law_limits_are_bounded(command: Command)
    ensures
        command_fault(command) is Some <==> (command matches Command::History { limit, .. } && !(1
            <= limit <= 100)),
        command_fault(command) matches Some(e) ==> e.code == "limit_invalid"@ && e.exit_code == 2
            && !e.retryable,
{
}

/// An error is printed with its own code, message, advice and retryability.
pub proof fn law_errors_are_printed_as_they_are(e: error::ErrorView)
    ensures
        ({
            let r = printed_error(e);
            &&& r.schema_version == 1
            &&& r.operation == "error"@
            &&& r.status == "error"@
            &&& r.code == e.code
            &&& r.message == e.message
            &&& r.suggested_fix == e.suggested_fix
            &&& r.retryable == e.retryable
        }),
{
}

/// Arguments that are not valid are told with the words of the parser, as an error of usage.
pub proof fn law_wrong_usage_is_told(message: Seq<char>)
    ensures
        usage_fault(message).code == "cli_usage"@,
        usage_fault(message).message == message,
        usage_fault(message).exit_code == 2,
        !usage_fault(message).retryable,
{
}

/// The description names every command, each once, and every promise that the tool makes.
pub proof fn law_the_description_is_complete(a: Seq<char>)
    ensures
        description().commands.contains(a) <==> {
            ||| a == "check"@
            ||| a == "plan"@
            ||| a == "run"@
            ||| a == "verify"@
            ||| a == "status"@
            ||| a == "history"@
            ||| a == "describe"@
        },
        description().commands.len() == 7,
        description().safety_invariants.contains(a) <==> {
            ||| a == "predefined_jobs_only"@
            ||| a == "hpc_to_local_only"@
            ||| a == "backup_profile_only"@
            ||| a == "no_delete"@
            ||| a == "no_inplace"@
            ||| a == "strict_host_key_checking"@
            ||| a == "non_interactive_ssh"@
            ||| a == "one_shot_process"@
        },
        description().safety_invariants.len() == 8,
        description().profile == "backup"@,
{
    let c = description().commands;
    let s = description().safety_invariants;
    assert(c[0] == "check"@ && c[1] == "plan"@ && c[2] == "run"@ && c[3] == "verify"@ && c[4]
        == "status"@ && c[5] == "history"@ && c[6] == "describe"@);
    assert(s[0] == "predefined_jobs_only"@ && s[1] == "hpc_to_local_only"@ && s[2]
        == "backup_profile_only"@ && s[3] == "no_delete"@ && s[4] == "no_inplace"@ && s[5]
        == "strict_host_key_checking"@ && s[6] == "non_interactive_ssh"@ && s[7]
        == "one_shot_process"@);
}

} // verus!
