//! State files: how they are written and locked, and what is said when they fail.
use super::error;
use super::error::{AppError, AppResult};
use crate::path::FilePath;
use crate::{number, path, text};
use vstd::prelude::*;

verus! {

/// What is said of a path that cannot be accessed.
pub open spec fn access_message(start: Seq<char>, p: Seq<u8>, cause: Seq<char>) -> Seq<char> {
    start + path::lossy(p) + ": "@ + cause
}

/// The error for a state file or directory that cannot be written.
pub fn state_error(code: &'static str, p: &FilePath, cause: &str) -> (r: AppError)
    ensures
        r@ == error::plain_error(
            code@,
            access_message("cannot access "@, p@, cause@),
            false,
            "Check state directory permissions and free disk space."@,
        ),
{
    AppError::new(
        code,
        text::cat4("cannot access ", &p.display(), ": ", cause),
        false,
        "Check state directory permissions and free disk space.",
    )
}

/// The error for a lock that another operation holds. It is no failure: its exit code is zero.
pub fn lock_error(p: &FilePath, cause: &str) -> (r: AppError)
    ensures
        r@ == (error::ErrorView {
            exit_code: 0,
            ..error::plain_error(
                "job_locked"@,
                access_message("another operation holds "@, p@, cause@),
                true,
                "Wait for the current one-shot operation to finish, then retry."@,
            )
        }),
{
    AppError::new(
        "job_locked",
        text::cat4("another operation holds ", &p.display(), ": ", cause),
        true,
        "Wait for the current one-shot operation to finish, then retry.",
    ).with_exit_code(0)
}

/// The error for a record that cannot be serialized.
pub fn serialize_error(p: &FilePath, cause: &str) -> (r: AppError)
    ensures
        r@ == error::plain_error(
            "state_serialize_failed"@,
            access_message("cannot serialize "@, p@, cause@),
            false,
            "Report this hpc-sync serialization defect."@,
        ),
{
    AppError::new(
        "state_serialize_failed",
        text::cat4("cannot serialize ", &p.display(), ": ", cause),
        false,
        "Report this hpc-sync serialization defect.",
    )
}

/// The error for a state file that cannot be read.
pub fn unreadable_error(p: &FilePath, cause: &str) -> (r: AppError)
    ensures
        r@ == error::plain_error(
            "state_unreadable"@,
            access_message("cannot read state file "@, p@, cause@),
            false,
            "Check the run id and state directory permissions."@,
        ),
{
    AppError::new(
        "state_unreadable",
        text::cat4("cannot read state file ", &p.display(), ": ", cause),
        false,
        "Check the run id and state directory permissions.",
    )
}

/// The error for a state file that does not hold a record.
pub fn corrupt_error(p: &FilePath, cause: &str) -> (r: AppError)
    ensures
        r@ == error::plain_error(
            "state_corrupt"@,
            access_message("invalid state file "@, p@, cause@),
            false,
            "Preserve the file for audit and create a new plan."@,
        ),
{
    AppError::new(
        "state_corrupt",
        text::cat4("invalid state file ", &p.display(), ": ", cause),
        false,
        "Preserve the file for audit and create a new plan.",
    )
}

/// The name under which a file is written before it takes its place.
pub open spec fn temporary(name: Option<Seq<char>>, process_id: u32, nonce: u128) -> Seq<char> {
    let base = match name {
        Some(n) => n,
        None => "state"@,
    };
    "."@ + base + "."@ + number::decimal(process_id as nat) + "."@ + number::decimal(nonce as nat)
        + ".tmp"@
}

/// Names the file that is written before it takes the place of `name`.
pub fn temporary_name(name: Option<&str>, process_id: u32, nonce: u128) -> (r: String)
    ensures
        r@ == temporary(text::optional_str(name), process_id, nonce),
{
    let base: &str = match name {
        Some(n) => n,
        None => "state",
    };
    let start: String = text::cat4(".", base, ".", &number::decimal_text(process_id as u64));
    text::cat4(&start, ".", &number::wide_decimal_text(nonce), ".tmp")
}

/// What came of reading a state file.
#[derive(Debug)]
pub enum JsonSource<T> {
    /// It could not be read, and why.
    Unreadable(String),
    /// It does not hold a record, and why.
    Corrupt(String),
    /// It holds a record.
    Parsed(T),
}

/// Why a state file gives no record.
pub open spec fn read_fault<T>(p: Seq<u8>, source: JsonSource<T>) -> Option<error::ErrorView> {
    match source {
        JsonSource::Unreadable(cause) => Some(
            error::plain_error(
                "state_unreadable"@,
                access_message("cannot read state file "@, p, cause@),
                false,
                "Check the run id and state directory permissions."@,
            ),
        ),
        JsonSource::Corrupt(cause) => Some(
            error::plain_error(
                "state_corrupt"@,
                access_message("invalid state file "@, p, cause@),
                false,
                "Preserve the file for audit and create a new plan."@,
            ),
        ),
        JsonSource::Parsed(_) => None,
    }
}

/// The record that a state file holds.
pub fn read_json<T>(p: &FilePath, source: JsonSource<T>) -> (r: AppResult<T>)
    ensures
        error::fault(r) == read_fault(p@, source),
        r matches Ok(record) ==> source == JsonSource::Parsed(record),
{
    match source {
        JsonSource::Unreadable(cause) => Err(unreadable_error(p, &cause)),
        JsonSource::Corrupt(cause) => Err(corrupt_error(p, &cause)),
        JsonSource::Parsed(record) => Ok(record),
    }
}

/// What a state file will hold: the serialized record and a line feed.
pub fn atomic_write_json(p: &FilePath, serialized: Result<Vec<u8>, String>) -> (r: AppResult<
    Vec<u8>,
>)
    ensures
        match serialized {
            Ok(document) => r matches Ok(content) && content@ == document@.push(10),
            Err(cause) => error::fault(r) == Some(
                error::plain_error(
                    "state_serialize_failed"@,
                    access_message("cannot serialize "@, p@, cause@),
                    false,
                    "Report this hpc-sync serialization defect."@,
                ),
            ),
        },
{
    match serialized {
        Ok(document) => Ok(finish_document(document)),
        Err(cause) => Err(serialize_error(p, &cause)),
    }
}

/// The contents of a state file: the document and a line feed.
pub fn finish_document(document: Vec<u8>) -> (r: Vec<u8>)
    ensures
        r@ == document@.push(10),
{
    let mut out: Vec<u8> = document;
    out.push(10);
    out
}

// ---------------------------------------------------------------------------
// Writing and locking
// ---------------------------------------------------------------------------
/// The permission bits of directories: only the owner can enter them.
pub const PRIVATE_DIR: u32 = 0o700;

/// The permission bits of files: only the owner can read and write them.
pub const PRIVATE_FILE: u32 = 0o600;

/// What is asked of the file system.
#[derive(Debug)]
pub enum FileAction {
    /// Make a directory and those above it, each that is not there yet with these permission bits.
    CreateDirs(FilePath, u32),
    /// Set permission bits.
    SetMode(FilePath, u32),
    /// Create a file that is not there yet, with these permission bits.
    CreateNew(FilePath, u32),
    /// Write all of this into the file that was created, and wait until it is on disk.
    WriteAll(Vec<u8>),
    /// Give a file another name, in place of the one that has it.
    Rename(FilePath, FilePath),
    /// Remove a file, if it is there.
    Remove(FilePath),
    /// Open a file for reading and writing without emptying it; where it is not there, create it
    /// with these permission bits.
    OpenOrCreate(FilePath, u32),
    /// Lock the file that was opened, without waiting.
    TryLock,
}

/// What a [`FileAction`] asks for.
#[verifier::ext_equal]
pub enum FileActionView {
    CreateDirs(Seq<u8>, u32),
    SetMode(Seq<u8>, u32),
    CreateNew(Seq<u8>, u32),
    WriteAll(Seq<u8>),
    Rename(Seq<u8>, Seq<u8>),
    Remove(Seq<u8>),
    OpenOrCreate(Seq<u8>, u32),
    TryLock,
}

impl View for FileAction {
    type V = FileActionView;

    open spec fn view(&self) -> FileActionView {
        match self {
            FileAction::CreateDirs(p, mode) => FileActionView::CreateDirs(p@, *mode),
            FileAction::SetMode(p, mode) => FileActionView::SetMode(p@, *mode),
            FileAction::CreateNew(p, mode) => FileActionView::CreateNew(p@, *mode),
            FileAction::WriteAll(content) => FileActionView::WriteAll(content@),
            FileAction::Rename(from, to) => FileActionView::Rename(from@, to@),
            FileAction::Remove(p) => FileActionView::Remove(p@),
            FileAction::OpenOrCreate(p, mode) => FileActionView::OpenOrCreate(p@, *mode),
            FileAction::TryLock => FileActionView::TryLock,
        }
    }
}

/// What the file system answers.
#[derive(Debug)]
pub enum FileEvent {
    /// Nothing was asked yet.
    Begin,
    /// What was asked for is done.
    Done,
    /// What was asked for failed, and why.
    Failed(String),
}

/// What a [`FileEvent`] tells.
#[verifier::ext_equal]
pub enum FileEventView {
    Begin,
    Done,
    Failed(Seq<char>),
}

impl View for FileEvent {
    type V = FileEventView;

    open spec fn view(&self) -> FileEventView {
        match self {
            FileEvent::Begin => FileEventView::Begin,
            FileEvent::Done => FileEventView::Done,
            FileEvent::Failed(cause) => FileEventView::Failed(cause@),
        }
    }
}

/// What follows: what is asked for next, or how it ended.
#[derive(Debug)]
pub enum FileStep<S> {
    Continue(S, FileAction),
    Finish(AppResult<()>),
}

/// What a [`FileStep`] says.
#[verifier::ext_equal]
pub enum FileStepView<S> {
    Continue(S, FileActionView),
    Finish(Option<error::ErrorView>),
}

impl<S: View> View for FileStep<S> {
    type V = FileStepView<S::V>;

    open spec fn view(&self) -> FileStepView<S::V> {
        match self {
            FileStep::Continue(s, a) => FileStepView::Continue(s@, a@),
            FileStep::Finish(r) => FileStepView::Finish(error::fault(*r)),
        }
    }
}

/// The error for a state file or directory that cannot be written.
pub open spec fn write_fault(p: Seq<u8>, cause: Seq<char>) -> error::ErrorView {
    error::plain_error(
        "state_write_failed"@,
        access_message("cannot access "@, p, cause),
        false,
        "Check state directory permissions and free disk space."@,
    )
}

/// How far a private directory is.
#[derive(Debug, Clone, Copy, PartialEq, Eq, Structural)]
pub enum DirState {
    /// Nothing was asked yet.
    Start,
    /// It is made.
    Make,
    /// It is closed to others.
    Protect,
}

impl View for DirState {
    type V = DirState;

    open spec fn view(&self) -> DirState {
        *self
    }
}

/// What follows on the way to a private directory.
pub open spec fn dir_next(p: Seq<u8>, state: DirState, event: FileEventView) -> FileStepView<
    DirState,
> {
    match event {
        FileEventView::Failed(cause) => FileStepView::Finish(Some(write_fault(p, cause))),
        _ => match state {
            DirState::Start => FileStepView::Continue(
                DirState::Make,
                FileActionView::CreateDirs(p, PRIVATE_DIR),
            ),
            DirState::Make => FileStepView::Continue(
                DirState::Protect,
                FileActionView::SetMode(p, PRIVATE_DIR),
            ),
            DirState::Protect => FileStepView::Finish(None),
        },
    }
}

/// One step on the way to a directory that only its owner can enter.
pub fn ensure_private_dir(p: &FilePath, state: DirState, event: FileEvent) -> (r: FileStep<
    DirState,
>)
    ensures
        r@ == dir_next(p@, state, event@),
{
    match event {
        FileEvent::Failed(cause) => FileStep::Finish(
            Err(state_error("state_write_failed", p, &cause)),
        ),
        _ => match state {
            DirState::Start => FileStep::Continue(
                DirState::Make,
                FileAction::CreateDirs(p.copy(), PRIVATE_DIR),
            ),
            DirState::Make => FileStep::Continue(
                DirState::Protect,
                FileAction::SetMode(p.copy(), PRIVATE_DIR),
            ),
            DirState::Protect => FileStep::Finish(Ok(())),
        },
    }
}

/// A file that is written: its directory, its name, the name that it has until all of it is
/// written, and what it holds.
#[derive(Debug)]
pub struct FileWrite {
    pub dir: FilePath,
    pub target: FilePath,
    pub temporary: FilePath,
    pub content: Vec<u8>,
}

/// What a [`FileWrite`] holds.
#[verifier::ext_equal]
pub struct WriteView {
    pub dir: Seq<u8>,
    pub target: Seq<u8>,
    pub temporary: Seq<u8>,
    pub content: Seq<u8>,
}

impl View for FileWrite {
    type V = WriteView;

    open spec fn view(&self) -> WriteView {
        WriteView {
            dir: self.dir@,
            target: self.target@,
            temporary: self.temporary@,
            content: self.content@,
        }
    }
}

/// How far a file is.
#[derive(Debug)]
pub enum WriteState {
    /// Its directory is made ready.
    Prepare(DirState),
    /// It is created under its temporary name.
    Create,
    /// It is filled.
    Fill,
    /// It takes its place.
    Place,
    /// What is left of it is removed after a failure.
    CleanUp(AppError),
}

/// How far a file is.
#[verifier::ext_equal]
pub enum WritePhase {
    Prepare(DirState),
    Create,
    Fill,
    Place,
    CleanUp(error::ErrorView),
}

impl View for WriteState {
    type V = WritePhase;

    open spec fn view(&self) -> WritePhase {
        match self {
            WriteState::Prepare(d) => WritePhase::Prepare(*d),
            WriteState::Create => WritePhase::Create,
            WriteState::Fill => WritePhase::Fill,
            WriteState::Place => WritePhase::Place,
            WriteState::CleanUp(e) => WritePhase::CleanUp(e@),
        }
    }
}

/// After a failure what is left of a file is removed.
pub open spec fn given_up(write: WriteView, p: Seq<u8>, cause: Seq<char>) -> FileStepView<
    WritePhase,
> {
    FileStepView::Continue(
        WritePhase::CleanUp(write_fault(p, cause)),
        FileActionView::Remove(write.temporary),
    )
}

/// What follows while a file is written.
pub open spec fn write_next(write: WriteView, phase: WritePhase, event: FileEventView) ->
    FileStepView<WritePhase> {
    match phase {
        WritePhase::Prepare(state) => match dir_next(write.dir, state, event) {
            FileStepView::Continue(next, action) => FileStepView::Continue(
                WritePhase::Prepare(next),
                action,
            ),
            FileStepView::Finish(Some(e)) => FileStepView::Finish(Some(e)),
            FileStepView::Finish(None) => FileStepView::Continue(
                WritePhase::Create,
                FileActionView::CreateNew(write.temporary, PRIVATE_FILE),
            ),
        },
        WritePhase::Create => match event {
            FileEventView::Failed(cause) => given_up(write, write.temporary, cause),
            _ => FileStepView::Continue(
                WritePhase::Fill,
                FileActionView::WriteAll(write.content),
            ),
        },
        WritePhase::Fill => match event {
            FileEventView::Failed(cause) => given_up(write, write.temporary, cause),
            _ => FileStepView::Continue(
                WritePhase::Place,
                FileActionView::Rename(write.temporary, write.target),
            ),
        },
        WritePhase::Place => match event {
            FileEventView::Failed(cause) => given_up(write, write.target, cause),
            _ => FileStepView::Finish(None),
        },
        WritePhase::CleanUp(e) => FileStepView::Finish(Some(e)),
    }
}

/// Removes what is left of a file after a failure.
fn give_up(write: &FileWrite, p: &FilePath, cause: &str) -> (r: FileStep<WriteState>)
    ensures
        r@ == given_up(write@, p@, cause@),
{
    FileStep::Continue(
        WriteState::CleanUp(state_error("state_write_failed", p, cause)),
        FileAction::Remove(write.temporary.copy()),
    )
}

/// One step of writing a file: it is written under a temporary name and takes its place when all
/// of it is on disk.
pub fn atomic_write(write: &FileWrite, state: WriteState, event: FileEvent) -> (r: FileStep<
    WriteState,
>)
    ensures
        r@ == write_next(write@, state@, event@),
{
    match state {
        WriteState::Prepare(dir_state) => match ensure_private_dir(&write.dir, dir_state, event) {
            FileStep::Continue(next, action) => FileStep::Continue(
                WriteState::Prepare(next),
                action,
            ),
            FileStep::Finish(Err(e)) => FileStep::Finish(Err(e)),
            FileStep::Finish(Ok(_)) => FileStep::Continue(
                WriteState::Create,
                FileAction::CreateNew(write.temporary.copy(), PRIVATE_FILE),
            ),
        },
        WriteState::Create => match event {
            FileEvent::Failed(cause) => give_up(write, &write.temporary, &cause),
            _ => FileStep::Continue(
                WriteState::Fill,
                FileAction::WriteAll(write.content.clone()),
            ),
        },
        WriteState::Fill => match event {
            FileEvent::Failed(cause) => give_up(write, &write.temporary, &cause),
            _ => FileStep::Continue(
                WriteState::Place,
                FileAction::Rename(write.temporary.copy(), write.target.copy()),
            ),
        },
        WriteState::Place => match event {
            FileEvent::Failed(cause) => give_up(write, &write.target, &cause),
            _ => FileStep::Finish(Ok(())),
        },
        WriteState::CleanUp(e) => FileStep::Finish(Err(e)),
    }
}

/// How far a lock is.
#[derive(Debug, Clone, Copy, PartialEq, Eq, Structural)]
pub enum LockState {
    /// Its directory is made ready.
    Prepare(DirState),
    /// Its file is opened.
    Open,
    /// It is taken.
    Take,
}

impl View for LockState {
    type V = LockState;

    open spec fn view(&self) -> LockState {
        *self
    }
}

/// The error for a lock that another operation holds.
pub open spec fn lock_fault(p: Seq<u8>, cause: Seq<char>) -> error::ErrorView {
    error::ErrorView {
        exit_code: 0,
        ..error::plain_error(
            "job_locked"@,
            access_message("another operation holds "@, p, cause),
            true,
            "Wait for the current one-shot operation to finish, then retry."@,
        )
    }
}

/// What follows on the way to a lock.
pub open spec fn lock_next(dir: Seq<u8>, p: Seq<u8>, state: LockState, event: FileEventView) ->
    FileStepView<LockState> {
    match state {
        LockState::Prepare(d) => match dir_next(dir, d, event) {
            FileStepView::Continue(next, action) => FileStepView::Continue(
                LockState::Prepare(next),
                action,
            ),
            FileStepView::Finish(Some(e)) => FileStepView::Finish(Some(e)),
            FileStepView::Finish(None) => FileStepView::Continue(
                LockState::Open,
                FileActionView::OpenOrCreate(p, PRIVATE_FILE),
            ),
        },
        LockState::Open => match event {
            FileEventView::Failed(cause) => FileStepView::Finish(Some(write_fault(p, cause))),
            _ => FileStepView::Continue(LockState::Take, FileActionView::TryLock),
        },
        LockState::Take => match event {
            FileEventView::Failed(cause) => FileStepView::Finish(Some(lock_fault(p, cause))),
            _ => FileStepView::Finish(None),
        },
    }
}

/// One step on the way to the lock of a job.
pub fn acquire(dir: &FilePath, p: &FilePath, state: LockState, event: FileEvent) -> (r: FileStep<
    LockState,
>)
    ensures
        r@ == lock_next(dir@, p@, state, event@),
{
    match state {
        LockState::Prepare(d) => match ensure_private_dir(dir, d, event) {
            FileStep::Continue(next, action) => FileStep::Continue(
                LockState::Prepare(next),
                action,
            ),
            FileStep::Finish(Err(e)) => FileStep::Finish(Err(e)),
            FileStep::Finish(Ok(_)) => FileStep::Continue(
                LockState::Open,
                FileAction::OpenOrCreate(p.copy(), PRIVATE_FILE),
            ),
        },
        LockState::Open => match event {
            FileEvent::Failed(cause) => FileStep::Finish(
                Err(state_error("state_write_failed", p, &cause)),
            ),
            _ => FileStep::Continue(LockState::Take, FileAction::TryLock),
        },
        LockState::Take => match event {
            FileEvent::Failed(cause) => FileStep::Finish(Err(lock_error(p, &cause))),
            _ => FileStep::Finish(Ok(())),
        },
    }
}

/// Files are written atomically and are their owner's alone: a file takes its place only after all
/// of its contents went to disk under another name, nothing else touches its place, and whatever is
/// created is closed to others.
pub proof fn law_files_are_whole_and_private(
    write: WriteView,
    phase: WritePhase,
    event: FileEventView,
)
    ensures
        write_next(write, phase, event) matches FileStepView::Continue(next, action) ==> {
            &&& action matches FileActionView::Rename(from, to) ==> from == write.temporary && to
                == write.target && phase is Fill && event !is Failed
            &&& next is Fill ==> action == FileActionView::WriteAll(write.content)
            &&& action matches FileActionView::CreateNew(p, mode) ==> p == write.temporary && mode
                == 0o600
            &&& action matches FileActionView::SetMode(p, mode) ==> p == write.dir && mode == 0o700
            &&& action matches FileActionView::CreateDirs(p, mode) ==> p == write.dir && mode
                == 0o700
            &&& action matches FileActionView::Remove(p) ==> p == write.temporary
            &&& action !is OpenOrCreate && action !is TryLock
        },
{
}

/// Directories and locks are their owner's alone: on the way to a lock nothing is asked for but its
/// directory, closed to others along with those above it that are made, and its file, which is
/// neither emptied nor open to others.
pub proof fn law_locks_are_private(
    dir: Seq<u8>,
    p: Seq<u8>,
    state: LockState,
    event: FileEventView,
)
    ensures
        lock_next(dir, p, state, event) matches FileStepView::Continue(_, action) ==> {
            ||| action == FileActionView::CreateDirs(dir, 0o700)
            ||| action == FileActionView::SetMode(dir, 0o700)
            ||| action == FileActionView::OpenOrCreate(p, 0o600)
            ||| action == FileActionView::TryLock
        },
{
}

/// A file that was not written leaves nothing behind: after a failure from its creation on, what
/// is left is removed, and then the failure is reported.
pub proof fn law_failed_writes_leave_nothing(
    write: WriteView,
    phase: WritePhase,
    cause: Seq<char>,
    event: FileEventView,
)
    requires
        phase is Create || phase is Fill || phase is Place,
    ensures
        write_next(write, phase, FileEventView::Failed(cause)) matches FileStepView::Continue(
            next,
            action,
        ) && action == FileActionView::Remove(write.temporary) && write_next(write, next, event)
            == FileStepView::<WritePhase>::Finish(
            Some(
                write_fault(
                    if phase is Place {
                        write.target
                    } else {
                        write.temporary
                    },
                    cause,
                ),
            ),
        ),
{
}

/// A file is written step by step: its directory is prepared, a new file is created, filled with all
/// of the contents and then put in its place. It is reported as written only after the last of these
/// steps went well.
pub proof fn law_writes_are_complete(write: WriteView, phase: WritePhase, event: FileEventView)
    ensures
        write_next(write, phase, event) == FileStepView::<WritePhase>::Finish(None) <==> phase
            is Place && event !is Failed,
        event !is Failed ==> {
            &&& write_next(write, WritePhase::Prepare(DirState::Start), event)
                == FileStepView::<WritePhase>::Continue(
                WritePhase::Prepare(DirState::Make),
                FileActionView::CreateDirs(write.dir, 0o700),
            )
            &&& write_next(write, WritePhase::Prepare(DirState::Make), event)
                == FileStepView::<WritePhase>::Continue(
                WritePhase::Prepare(DirState::Protect),
                FileActionView::SetMode(write.dir, 0o700),
            )
            &&& write_next(write, WritePhase::Prepare(DirState::Protect), event)
                == FileStepView::<WritePhase>::Continue(
                WritePhase::Create,
                FileActionView::CreateNew(write.temporary, 0o600),
            )
            &&& write_next(write, WritePhase::Create, event)
                == FileStepView::<WritePhase>::Continue(
                WritePhase::Fill,
                FileActionView::WriteAll(write.content),
            )
            &&& write_next(write, WritePhase::Fill, event)
                == FileStepView::<WritePhase>::Continue(
                WritePhase::Place,
                FileActionView::Rename(write.temporary, write.target),
            )
        },
{
}

/// A lock is held only after its file was opened and taken. One that another operation holds is
/// reported as such: it can be tried again, and is no failure of the process.
pub proof fn law_locks_are_taken(dir: Seq<u8>, p: Seq<u8>, state: LockState, event: FileEventView)
    ensures
        lock_next(dir, p, state, event) == FileStepView::<LockState>::Finish(None) <==> state
            is Take && event !is Failed,
        event !is Failed ==> {
            &&& lock_next(dir, p, LockState::Prepare(DirState::Protect), event)
                == FileStepView::<LockState>::Continue(
                LockState::Open,
                FileActionView::OpenOrCreate(p, 0o600),
            )
            &&& lock_next(dir, p, LockState::Open, event) == FileStepView::<LockState>::Continue(
                LockState::Take,
                FileActionView::TryLock,
            )
        },
        event matches FileEventView::Failed(cause) ==> (lock_next(dir, p, LockState::Take, event)
            matches FileStepView::Finish(Some(e)) && e.code == "job_locked"@ && e.retryable
            && e.exit_code == 0),
        event matches FileEventView::Failed(cause) ==> (lock_next(dir, p, LockState::Open, event)
            matches FileStepView::Finish(Some(e)) && e.code == "state_write_failed"@
            && !e.retryable && e.exit_code == 2),
{
}

/// The name under which a file is written is hidden, tells the file, the process and the attempt,
/// and is another one for another attempt.
pub proof fn law_temporary_names_are_their_own(
    name: Seq<char>,
    process_id: u32,
    nonce: u128,
    other: u128,
)
    ensures
        temporary(Some(name), process_id, nonce) == seq!['.'] + name + seq!['.'] + number::decimal(
            process_id as nat,
        ) + seq!['.'] + number::decimal(nonce as nat) + ".tmp"@,
        nonce != other ==> temporary(Some(name), process_id, nonce) != temporary(
            Some(name),
            process_id,
            other,
        ),
{
    reveal_strlit(".");
    assert("."@ =~= seq!['.']);
    let front = "."@ + name + "."@ + number::decimal(process_id as nat) + "."@;
    let a = number::decimal(nonce as nat);
    let b = number::decimal(other as nat);
    if temporary(Some(name), process_id, nonce) == temporary(Some(name), process_id, other) {
        let n = front.len() as int;
        let x = temporary(Some(name), process_id, nonce);
        let y = temporary(Some(name), process_id, other);
        let size = ".tmp"@.len() as int;
        assert(x =~= front + a + ".tmp"@);
        assert(y =~= front + b + ".tmp"@);
        assert(x.len() == y.len());
        assert(a =~= x.subrange(n, x.len() - size));
        assert(b =~= y.subrange(n, y.len() - size));
        number::law_decimal_round_trip(nonce as nat, u128::MAX as nat);
        number::law_decimal_round_trip(other as nat, u128::MAX as nat);
    }
}

/// A state file that cannot be read and one that holds no record are told apart.
pub proof fn law_unreadable_state_is_told<T>(p: Seq<u8>, source: JsonSource<T>)
    ensures
        source is Parsed <==> read_fault(p, source) is None,
        source is Unreadable ==> read_fault(p, source)->0.code == "state_unreadable"@,
        source is Corrupt ==> read_fault(p, source)->0.code == "state_corrupt"@,
        read_fault(p, source) matches Some(e) ==> e.exit_code == 2 && !e.retryable,
{
}

} // verus!
