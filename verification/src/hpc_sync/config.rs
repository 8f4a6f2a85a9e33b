//! The configuration: predefined jobs and the rules that each of them meets.
use super::error;
use super::error::{AppError, AppResult};
use crate::path::{debug_text, FilePath};
use crate::{order, path, text};
use vstd::prelude::*;

verus! {

/// The SSH port of a job that names none.
pub fn default_port() -> (r: u16)
    ensures
        r == 22,
{
    22
}

/// The connection timeout of a job that names none.
pub fn default_connect_timeout() -> (r: u64)
    ensures
        r == 15,
{
    15
}

/// What `verify_after_run` is in a job that does not name it.
pub fn default_verify() -> (r: bool)
    ensures
        r,
{
    true
}

/// The longest run of a job that names no limit.
pub fn default_runtime() -> (r: u64)
    ensures
        r == 21_600,
{
    21_600
}

/// The profile of a job that names none.
pub fn default_profile() -> (r: String)
    ensures
        r@ == "backup"@,
{
    "backup".to_owned()
}

/// How the receiver is reached.
#[derive(Debug)]
pub struct SshConfig {
    pub host: String,
    pub user: String,
    pub identity_file: FilePath,
    pub known_hosts_file: FilePath,
    pub port: u16,
    pub connect_timeout_seconds: u64,
}

/// What an [`SshConfig`] holds.
#[verifier::ext_equal]
pub struct SshView {
    pub host: Seq<char>,
    pub user: Seq<char>,
    pub identity_file: Seq<u8>,
    pub known_hosts_file: Seq<u8>,
    pub port: u16,
    pub connect_timeout_seconds: u64,
}

impl View for SshConfig {
    type V = SshView;

    open spec fn view(&self) -> SshView {
        SshView {
            host: self.host@,
            user: self.user@,
            identity_file: self.identity_file@,
            known_hosts_file: self.known_hosts_file@,
            port: self.port,
            connect_timeout_seconds: self.connect_timeout_seconds,
        }
    }
}

/// One predefined backup job.
#[derive(Debug)]
pub struct JobConfig {
    pub profile: String,
    pub source: FilePath,
    pub destination_root: FilePath,
    pub ssh: SshConfig,
    pub source_complete_marker: Option<FilePath>,
    pub excludes: Vec<String>,
    pub preserve_hard_links: bool,
    pub preserve_acls: bool,
    pub preserve_xattrs: bool,
    pub bootstrap_from_destination_root: bool,
    /// Part of what a plan approves. A run is compared with its source whatever this says: without
    /// a comparison it could not be marked complete.
    pub verify_after_run: bool,
    pub max_runtime_seconds: u64,
}

/// What a [`JobConfig`] holds.
#[verifier::ext_equal]
pub struct JobView {
    pub profile: Seq<char>,
    pub source: Seq<u8>,
    pub destination_root: Seq<u8>,
    pub ssh: SshView,
    pub source_complete_marker: Option<Seq<u8>>,
    pub excludes: Seq<Seq<char>>,
    pub preserve_hard_links: bool,
    pub preserve_acls: bool,
    pub preserve_xattrs: bool,
    pub bootstrap_from_destination_root: bool,
    pub verify_after_run: bool,
    pub max_runtime_seconds: u64,
}

impl View for JobConfig {
    type V = JobView;

    open spec fn view(&self) -> JobView {
        JobView {
            profile: self.profile@,
            source: self.source@,
            destination_root: self.destination_root@,
            ssh: self.ssh@,
            source_complete_marker: match self.source_complete_marker {
                Some(p) => Some(p@),
                None => None,
            },
            excludes: text::texts(self.excludes@),
            preserve_hard_links: self.preserve_hard_links,
            preserve_acls: self.preserve_acls,
            preserve_xattrs: self.preserve_xattrs,
            bootstrap_from_destination_root: self.bootstrap_from_destination_root,
            verify_after_run: self.verify_after_run,
            max_runtime_seconds: self.max_runtime_seconds,
        }
    }
}

/// A job with the id under which it is selected.
#[derive(Debug)]
pub struct NamedJob {
    pub id: String,
    pub job: JobConfig,
}

/// The whole configuration. The jobs stand in the order of their ids, each id once.
#[derive(Debug)]
pub struct AppConfig {
    pub version: u8,
    pub state_dir: FilePath,
    pub jobs: Vec<NamedJob>,
}

/// What an [`AppConfig`] holds.
#[verifier::ext_equal]
pub struct ConfigView {
    pub version: u8,
    pub state_dir: Seq<u8>,
    pub jobs: Seq<(Seq<char>, JobView)>,
}

impl View for AppConfig {
    type V = ConfigView;

    open spec fn view(&self) -> ConfigView {
        ConfigView {
            version: self.version,
            state_dir: self.state_dir@,
            jobs: self.jobs@.map_values(|n: NamedJob| (n.id@, n.job@)),
        }
    }
}

/// The job with a given id.
pub open spec fn find_job(jobs: Seq<(Seq<char>, JobView)>, id: Seq<char>) -> Option<JobView>
    decreases jobs.len(),
{
    if jobs.len() == 0 {
        None
    } else if jobs[0].0 == id {
        Some(jobs[0].1)
    } else {
        find_job(jobs.drop_first(), id)
    }
}

/// Whether the jobs stand in the order of their ids, each id once.
pub open spec fn ids_in_order(jobs: Seq<(Seq<char>, JobView)>) -> bool {
    forall|i: int, j: int|
        0 <= i < j < jobs.len() ==> order::lexical(
            order::char_codes((#[trigger] jobs[i]).0),
            order::char_codes((#[trigger] jobs[j]).0),
        )
}

impl AppConfig {
    /// What holds of every configuration: its jobs stand in the order of their ids, each id once.
    pub open spec fn well_formed(self) -> bool {
        ids_in_order(self@.jobs)
    }
}

/// Jobs that stand in the order of their ids have ids of their own.
pub proof fn law_ordered_ids_are_unique(jobs: Seq<(Seq<char>, JobView)>)
    requires
        ids_in_order(jobs),
    ensures
        unique_ids(jobs),
{
    assert forall|i: int, j: int| 0 <= i < j < jobs.len() implies (#[trigger] jobs[i]).0 != (
    #[trigger] jobs[j]).0 by {
        order::lemma_lexical_asymmetric(
            order::char_codes(jobs[i].0),
            order::char_codes(jobs[j].0),
        );
    }
}

/// Whether no id occurs twice.
pub open spec fn unique_ids(jobs: Seq<(Seq<char>, JobView)>) -> bool {
    forall|i: int, j: int|
        0 <= i < j < jobs.len() ==> (#[trigger] jobs[i]).0 != (#[trigger] jobs[j]).0
}

/// Where no id occurs twice, a job is found under its id, whatever the other jobs are.
pub proof fn law_job_is_found_under_its_id(jobs: Seq<(Seq<char>, JobView)>, i: int)
    requires
        unique_ids(jobs),
        0 <= i < jobs.len(),
    ensures
        find_job(jobs, jobs[i].0) == Some(jobs[i].1),
    decreases jobs.len(),
{
    if i > 0 {
        let rest = jobs.drop_first();
        assert(jobs[0].0 != jobs[i].0);
        assert forall|a: int, b: int| 0 <= a < b < rest.len() implies (#[trigger] rest[a]).0 != (
        #[trigger] rest[b]).0 by {
            assert(rest[a] == jobs[a + 1]);
            assert(rest[b] == jobs[b + 1]);
        }
        law_job_is_found_under_its_id(rest, i - 1);
        assert(rest[i - 1] == jobs[i]);
    }
}

/// Only an id of the configuration names a job.
pub proof fn law_only_predefined_jobs(jobs: Seq<(Seq<char>, JobView)>, id: Seq<char>)
    ensures
        find_job(jobs, id) is Some <==> exists|i: int|
            0 <= i < jobs.len() && (#[trigger] jobs[i]).0 == id,
    decreases jobs.len(),
{
    if jobs.len() > 0 {
        let rest = jobs.drop_first();
        law_only_predefined_jobs(rest, id);
        if jobs[0].0 != id {
            if find_job(jobs, id) is Some {
                let k = choose|k: int| 0 <= k < rest.len() && (#[trigger] rest[k]).0 == id;
                assert(jobs[k + 1] == rest[k]);
            }
            if exists|i: int| 0 <= i < jobs.len() && (#[trigger] jobs[i]).0 == id {
                let k = choose|i: int| 0 <= i < jobs.len() && (#[trigger] jobs[i]).0 == id;
                assert(rest[k - 1] == jobs[k]);
            }
        }
    }
}

// ---------------------------------------------------------------------------
// The rules of a configuration
// ---------------------------------------------------------------------------
/// The characters of job ids, hosts and users.
pub open spec fn is_name_char(c: char) -> bool {
    text::is_alphanumeric(c) || c == '.' || c == '_' || c == '-'
}

/// Whether a text can name a job, a host or a user.
pub open spec fn is_name(s: Seq<char>) -> bool {
    s.len() > 0 && forall|i: int| 0 <= i < s.len() ==> is_name_char(#[trigger] s[i])
}

/// Whether a text holds a line feed or a carriage return.
pub open spec fn breaks_line(s: Seq<char>) -> bool {
    s.contains('\n') || s.contains('\r')
}

/// What is wrong with a path as text.
pub open spec fn text_path_fault(p: Seq<u8>, field: Seq<char>) -> Option<Seq<char>> {
    if !vstd::utf8::valid_utf8(p) {
        Some(field + " must be valid UTF-8"@)
    } else if breaks_line(vstd::utf8::decode_utf8(p)) {
        Some(field + " contains a line break"@)
    } else if path::has_parent_dir(p) {
        Some(field + " must not contain parent-directory components"@)
    } else {
        None
    }
}

/// What is wrong with the path of a directory tree.
pub open spec fn root_fault(p: Seq<u8>, field: Seq<char>) -> Option<Seq<char>> {
    if !path::is_absolute(p) || path::is_root(p) {
        Some(field + " must be an absolute non-root path"@)
    } else {
        text_path_fault(p, field)
    }
}

/// What is wrong with the path of a file.
pub open spec fn file_fault(p: Seq<u8>, field: Seq<char>) -> Option<Seq<char>> {
    if !path::is_absolute(p) {
        Some(field + " must be an absolute path"@)
    } else {
        text_path_fault(p, field)
    }
}

/// Whether a completion marker lies in the source directory.
pub open spec fn stays_inside(marker: Option<Seq<u8>>) -> bool {
    marker matches Some(m) ==> !path::is_absolute(m) && !path::has_parent_dir(m)
}

/// Whether an exclude pattern is one non-empty line.
pub open spec fn is_pattern(item: Seq<char>) -> bool {
    item.len() > 0 && !breaks_line(item)
}

/// Whether every exclude pattern is one non-empty line.
pub open spec fn are_patterns(excludes: Seq<Seq<char>>) -> bool {
    forall|i: int| 0 <= i < excludes.len() ==> is_pattern(#[trigger] excludes[i])
}

/// What is wrong with a job: the first rule that it does not meet.
pub open spec fn job_fault(job: JobView) -> Option<Seq<char>> {
    if job.profile != "backup"@ {
        Some("only profile = \"backup\" is supported"@)
    } else if root_fault(job.source, "source"@) is Some {
        root_fault(job.source, "source"@)
    } else if root_fault(job.destination_root, "destination_root"@) is Some {
        root_fault(job.destination_root, "destination_root"@)
    } else if file_fault(job.ssh.identity_file, "identity_file"@) is Some {
        file_fault(job.ssh.identity_file, "identity_file"@)
    } else if file_fault(job.ssh.known_hosts_file, "known_hosts_file"@) is Some {
        file_fault(job.ssh.known_hosts_file, "known_hosts_file"@)
    } else if !is_name(job.ssh.host) || !is_name(job.ssh.user) {
        Some("SSH host and user contain unsupported characters"@)
    } else if !(30 <= job.max_runtime_seconds <= 604_800) {
        Some("max_runtime_seconds must be between 30 and 604800"@)
    } else if !stays_inside(job.source_complete_marker) {
        Some("source_complete_marker must stay inside the source directory"@)
    } else if !are_patterns(job.excludes) {
        Some("exclude patterns must be non-empty single lines"@)
    } else {
        None
    }
}

/// What is wrong with a named job.
pub open spec fn entry_fault(entry: (Seq<char>, JobView)) -> Option<Seq<char>> {
    if !is_name(entry.0) {
        Some("invalid job id "@ + path::debug_form(entry.0))
    } else {
        job_fault(entry.1)
    }
}

/// What is wrong with the jobs: the fault of the first one that has one.
pub open spec fn jobs_fault(jobs: Seq<(Seq<char>, JobView)>) -> Option<Seq<char>>
    decreases jobs.len(),
{
    if jobs.len() == 0 {
        None
    } else if entry_fault(jobs[0]) is Some {
        entry_fault(jobs[0])
    } else {
        jobs_fault(jobs.drop_first())
    }
}

/// What is wrong with a configuration.
pub open spec fn config_fault(config: ConfigView) -> Option<Seq<char>> {
    if config.version != 1 {
        Some("version must be 1"@)
    } else if root_fault(config.state_dir, "state_dir"@) is Some {
        root_fault(config.state_dir, "state_dir"@)
    } else if config.jobs.len() == 0 {
        Some("at least one job is required"@)
    } else {
        jobs_fault(config.jobs)
    }
}

/// The error for a configuration that does not meet the rules.
pub open spec fn rule_error(message: Seq<char>) -> error::ErrorView {
    error::plain_error(
        "config_invalid"@,
        message,
        false,
        "Correct the closed-schema TOML configuration."@,
    )
}

/// The outcome of a check that found a fault, or none.
pub open spec fn checked(r: AppResult<()>, found: Option<Seq<char>>) -> bool {
    match found {
        Some(message) => error::fault(r) == Some(rule_error(message)),
        None => r is Ok,
    }
}

/// The error for a configuration that does not meet the rules.
pub fn config_error(message: String) -> (r: AppError)
    ensures
        r@ == rule_error(message@),
{
    AppError::new(
        "config_invalid",
        message,
        false,
        "Correct the closed-schema TOML configuration.",
    )
}

/// Tells whether a string can name a job, a host or a user.
pub fn is_safe_name(value: &str) -> (r: bool)
    ensures
        r == is_name(value@),
{
    let chars: Vec<char> = text::chars_of(value);
    let mut i: usize = 0;
    while i < chars.len()
        invariant
            i <= chars@.len(),
            chars@ == value@,
            forall|k: int| 0 <= k < i ==> is_name_char(#[trigger] chars@[k]),
        decreases chars@.len() - i,
    {
        let c: char = chars[i];
        if !(text::is_alphanumeric_char(c) || c == '.' || c == '_' || c == '-') {
            assert(!is_name_char(value@[i as int]));
            return false;
        }
        i = i + 1;
    }
    chars.len() > 0
}

/// Tells whether a string holds a line feed or a carriage return.
fn has_line_break(s: &str) -> (r: bool)
    ensures
        r == breaks_line(s@),
{
    text::contains_char(s, '\n') || text::contains_char(s, '\r')
}

/// Checks a path as text.
pub fn validate_text_path(p: &FilePath, field: &str) -> (r: AppResult<()>)
    ensures
        checked(r, text_path_fault(p@, field@)),
{
    match p.to_text() {
        None => Err(config_error(text::cat2(field, " must be valid UTF-8"))),
        Some(s) => {
            if has_line_break(&s) {
                Err(config_error(text::cat2(field, " contains a line break")))
            } else if p.has_parent_dir() {
                Err(
                    config_error(
                        text::cat2(field, " must not contain parent-directory components"),
                    ),
                )
            } else {
                Ok(())
            }
        },
    }
}

/// Checks the path of a directory tree.
pub fn validate_absolute_root(p: &FilePath, field: &str) -> (r: AppResult<()>)
    ensures
        checked(r, root_fault(p@, field@)),
{
    if !p.is_absolute() || p.is_root() {
        return Err(config_error(text::cat2(field, " must be an absolute non-root path")));
    }
    validate_text_path(p, field)
}

/// Checks the path of a file.
pub fn validate_absolute_file(p: &FilePath, field: &str) -> (r: AppResult<()>)
    ensures
        checked(r, file_fault(p@, field@)),
{
    if !p.is_absolute() {
        return Err(config_error(text::cat2(field, " must be an absolute path")));
    }
    validate_text_path(p, field)
}

/// Tells whether every exclude pattern is one non-empty line.
fn all_patterns(excludes: &Vec<String>) -> (r: bool)
    ensures
        r == are_patterns(text::texts(excludes@)),
{
    let mut i: usize = 0;
    while i < excludes.len()
        invariant
            i <= excludes@.len(),
            forall|k: int| 0 <= k < i ==> is_pattern(#[trigger] text::texts(excludes@)[k]),
        decreases excludes@.len() - i,
    {
        assert(text::texts(excludes@)[i as int] == excludes@[i as int]@);
        if excludes[i].as_str().is_empty() || has_line_break(&excludes[i]) {
            return false;
        }
        i = i + 1;
    }
    true
}

impl SshConfig {
    /// A copy of the settings.
    pub fn copy(&self) -> (r: SshConfig)
        ensures
            r@ == self@,
    {
        SshConfig {
            host: self.host.clone(),
            user: self.user.clone(),
            identity_file: self.identity_file.copy(),
            known_hosts_file: self.known_hosts_file.copy(),
            port: self.port,
            connect_timeout_seconds: self.connect_timeout_seconds,
        }
    }
}

impl JobConfig {
    /// A copy of the job.
    pub fn copy(&self) -> (r: JobConfig)
        ensures
            r@ == self@,
    {
        JobConfig {
            profile: self.profile.clone(),
            source: self.source.copy(),
            destination_root: self.destination_root.copy(),
            ssh: self.ssh.copy(),
            source_complete_marker: match &self.source_complete_marker {
                Some(p) => Some(p.copy()),
                None => None,
            },
            excludes: text::copy_texts(&self.excludes),
            preserve_hard_links: self.preserve_hard_links,
            preserve_acls: self.preserve_acls,
            preserve_xattrs: self.preserve_xattrs,
            bootstrap_from_destination_root: self.bootstrap_from_destination_root,
            verify_after_run: self.verify_after_run,
            max_runtime_seconds: self.max_runtime_seconds,
        }
    }

    /// Checks the job against the rules.
    pub fn validate(&self) -> (r: AppResult<()>)
        ensures
            checked(r, job_fault(self@)),
    {
        if !text::same_text(&self.profile, "backup") {
            return Err(config_error("only profile = \"backup\" is supported".to_owned()));
        }
        match validate_absolute_root(&self.source, "source") {
            Err(e) => {
                return Err(e);
            },
            Ok(_) => {},
        }
        match validate_absolute_root(&self.destination_root, "destination_root") {
            Err(e) => {
                return Err(e);
            },
            Ok(_) => {},
        }
        match validate_absolute_file(&self.ssh.identity_file, "identity_file") {
            Err(e) => {
                return Err(e);
            },
            Ok(_) => {},
        }
        match validate_absolute_file(&self.ssh.known_hosts_file, "known_hosts_file") {
            Err(e) => {
                return Err(e);
            },
            Ok(_) => {},
        }
        if !is_safe_name(&self.ssh.host) || !is_safe_name(&self.ssh.user) {
            return Err(config_error("SSH host and user contain unsupported characters".to_owned()));
        }
        if self.max_runtime_seconds < 30 || self.max_runtime_seconds > 604_800 {
            return Err(
                config_error("max_runtime_seconds must be between 30 and 604800".to_owned()),
            );
        }
        if let Some(marker) = &self.source_complete_marker {
            if marker.is_absolute() || marker.has_parent_dir() {
                return Err(
                    config_error(
                        "source_complete_marker must stay inside the source directory".to_owned(),
                    ),
                );
            }
        }
        if !all_patterns(&self.excludes) {
            return Err(config_error("exclude patterns must be non-empty single lines".to_owned()));
        }
        Ok(())
    }
}

/// The error for a job id that the configuration does not hold.
pub open spec fn unknown_job(job_id: Seq<char>) -> error::ErrorView {
    error::plain_error(
        "job_not_found"@,
        "job "@ + path::debug_form(job_id) + " is not defined"@,
        false,
        "Select a job id from the configured jobs table."@,
    )
}

impl AppConfig {
    /// The job with a given id.
    pub fn job(&self, job_id: &str) -> (r: AppResult<&JobConfig>)
        ensures
            match r {
                Ok(job) => find_job(self@.jobs, job_id@) == Some(job@),
                Err(e) => find_job(self@.jobs, job_id@) is None && e@ == unknown_job(job_id@),
            },
    {
        let ghost jobs = self@.jobs;
        let mut i: usize = 0;
        proof {
            assert(jobs.skip(0) =~= jobs);
        }
        while i < self.jobs.len()
            invariant
                i <= self.jobs@.len(),
                jobs == self@.jobs,
                find_job(jobs.skip(i as int), job_id@) == find_job(jobs, job_id@),
            decreases self.jobs@.len() - i,
        {
            proof {
                assert(jobs[i as int] == (self.jobs@[i as int].id@, self.jobs@[i as int].job@));
                assert(jobs.skip(i as int).drop_first() =~= jobs.skip(i as int + 1));
            }
            if text::same_text(&self.jobs[i].id, job_id) {
                return Ok(&self.jobs[i].job);
            }
            i = i + 1;
        }
        Err(
            AppError::new(
                "job_not_found",
                text::cat3("job ", &debug_text(job_id), " is not defined"),
                false,
                "Select a job id from the configured jobs table.",
            ),
        )
    }

    /// Checks the configuration and each of its jobs against the rules.
    pub fn validate(&self) -> (r: AppResult<()>)
        ensures
            checked(r, config_fault(self@)),
    {
        if self.version != 1 {
            return Err(config_error("version must be 1".to_owned()));
        }
        match validate_absolute_root(&self.state_dir, "state_dir") {
            Err(e) => {
                return Err(e);
            },
            Ok(_) => {},
        }
        if self.jobs.is_empty() {
            return Err(config_error("at least one job is required".to_owned()));
        }
        let ghost jobs = self@.jobs;
        let mut i: usize = 0;
        proof {
            assert(jobs.skip(0) =~= jobs);
        }
        while i < self.jobs.len()
            invariant
                i <= self.jobs@.len(),
                self.jobs@.len() > 0,
                jobs == self@.jobs,
                jobs_fault(jobs.skip(i as int)) == jobs_fault(jobs),
                config_fault(self@) == jobs_fault(jobs),
            decreases self.jobs@.len() - i,
        {
            proof {
                assert(jobs[i as int] == (self.jobs@[i as int].id@, self.jobs@[i as int].job@));
                assert(jobs.skip(i as int).drop_first() =~= jobs.skip(i as int + 1));
            }
            if !is_safe_name(&self.jobs[i].id) {
                return Err(
                    config_error(text::cat2("invalid job id ", &debug_text(&self.jobs[i].id))),
                );
            }
            match self.jobs[i].job.validate() {
                Err(e) => {
                    return Err(e);
                },
                Ok(_) => {},
            }
            i = i + 1;
        }
        Ok(())
    }
}

/// What came of reading and parsing a configuration file.
pub enum ConfigSource {
    /// The file could not be read.
    Unreadable(String),
    /// The file does not hold a configuration.
    Malformed(String),
    /// The file holds a configuration, which may still break a rule.
    Parsed(AppConfig),
}

/// Why a configuration file is not accepted.
pub open spec fn load_fault(p: Seq<u8>, source: ConfigSource) -> Option<error::ErrorView> {
    match source {
        ConfigSource::Unreadable(e) => Some(
            error::plain_error(
                "config_unreadable"@,
                "cannot read config "@ + path::lossy(p) + ": "@ + e@,
                false,
                "Create the config file and make it readable by the current user."@,
            ),
        ),
        ConfigSource::Malformed(e) => Some(
            error::plain_error(
                "config_invalid"@,
                "invalid config "@ + path::lossy(p) + ": "@ + e@,
                false,
                "Fix the reported TOML field; unknown keys are rejected."@,
            ),
        ),
        ConfigSource::Parsed(config) => match config_fault(config@) {
            Some(message) => Some(rule_error(message)),
            None => None,
        },
    }
}

/// Accepts the configuration that was read from `p`, if it meets the rules.
pub fn load_config(p: &FilePath, source: ConfigSource) -> (r: AppResult<AppConfig>)
    requires
        source matches ConfigSource::Parsed(config) ==> config.well_formed(),
    ensures
        error::fault(r) == load_fault(p@, source),
        r matches Ok(config) ==> source == ConfigSource::Parsed(config) && config.well_formed(),
{
    match source {
        ConfigSource::Unreadable(e) => Err(
            AppError::new(
                "config_unreadable",
                text::cat4("cannot read config ", &p.display(), ": ", &e),
                false,
                "Create the config file and make it readable by the current user.",
            ),
        ),
        ConfigSource::Malformed(e) => Err(
            AppError::new(
                "config_invalid",
                text::cat4("invalid config ", &p.display(), ": ", &e),
                false,
                "Fix the reported TOML field; unknown keys are rejected.",
            ),
        ),
        ConfigSource::Parsed(config) => {
            match config.validate() {
                Err(e) => Err(e),
                Ok(_) => Ok(config),
            }
        },
    }
}

/// A path with a leading `~/` taken as the home directory, where one is known.
pub open spec fn home_expanded(p: Seq<u8>, home: Option<Seq<u8>>) -> Seq<u8> {
    if home is Some && "~/"@.is_prefix_of(path::lossy(p)) {
        path::joined_path(home->0, vstd::utf8::encode_utf8(path::lossy(p).skip(2)))
    } else {
        p
    }
}

/// Replaces a leading `~/` by the home directory, where one is known.
pub fn expand_home(p: &FilePath, home: &Option<FilePath>) -> (r: FilePath)
    ensures
        r@ == home_expanded(
            p@,
            match home {
                Some(h) => Some(h@),
                None => None,
            },
        ),
{
    let shown: String = p.display();
    if !text::starts_with(&shown, "~/") {
        return p.copy();
    }
    match home {
        None => p.copy(),
        Some(h) => {
            proof {
                reveal_strlit("~/");
            }
            let chars: Vec<char> = text::chars_of(&shown);
            let suffix: String = text::text_between(&chars, 2, chars.len());
            proof {
                assert(suffix@ =~= shown@.skip(2));
            }
            h.join_text(&suffix)
        },
    }
}

/// In an accepted configuration every job meets the rules and has a safe id.
pub proof fn law_accepted_jobs_meet_the_rules(jobs: Seq<(Seq<char>, JobView)>, id: Seq<char>)
    requires
        jobs_fault(jobs) is None,
        find_job(jobs, id) is Some,
    ensures
        is_name(id),
        job_fault(find_job(jobs, id)->0) is None,
    decreases jobs.len(),
{
    if jobs[0].0 != id {
        law_accepted_jobs_meet_the_rules(jobs.drop_first(), id);
    }
}

/// Whether a path is written as text on one line and never climbs to a parent.
pub open spec fn is_plain_path(p: Seq<u8>) -> bool {
    &&& vstd::utf8::valid_utf8(p)
    &&& !vstd::utf8::decode_utf8(p).contains('\n')
    &&& !vstd::utf8::decode_utf8(p).contains('\r')
    &&& !path::has_parent_dir(p)
}

/// Whether a path is that of a directory tree: absolute, not the root, and plain.
pub open spec fn is_tree(p: Seq<u8>) -> bool {
    p.len() > 0 && p[0] == 47 && !path::is_root(p) && is_plain_path(p)
}

/// Whether a text holds ASCII letters, digits, dots, underscores and hyphens, and is not empty.
pub open spec fn is_word(s: Seq<char>) -> bool {
    s.len() > 0 && forall|i: int|
        0 <= i < s.len() ==> ('a' <= #[trigger] s[i] <= 'z' || 'A' <= s[i] <= 'Z' || '0' <= s[i]
            <= '9' || s[i] == '.' || s[i] == '_' || s[i] == '-')
}

/// A job is accepted exactly where its profile is the backup, its source and destination are
/// directory trees, its identity and known hosts are plain absolute files, its host and user are
/// words, its run may take from half a minute to a week, its marker stays in the source, and its
/// exclude patterns are non-empty lines.
pub proof fn law_jobs_are_accepted_by_the_rules(job: JobView)
    ensures
        job_fault(job) is None <==> {
            &&& job.profile == "backup"@
            &&& is_tree(job.source)
            &&& is_tree(job.destination_root)
            &&& job.ssh.identity_file.len() > 0 && job.ssh.identity_file[0] == 47
                && is_plain_path(job.ssh.identity_file)
            &&& job.ssh.known_hosts_file.len() > 0 && job.ssh.known_hosts_file[0] == 47
                && is_plain_path(job.ssh.known_hosts_file)
            &&& is_word(job.ssh.host)
            &&& is_word(job.ssh.user)
            &&& 30 <= job.max_runtime_seconds <= 604_800
            &&& job.source_complete_marker matches Some(m) ==> !(m.len() > 0 && m[0] == 47)
                && !path::has_parent_dir(m)
            &&& forall|i: int|
                0 <= i < job.excludes.len() ==> (#[trigger] job.excludes[i]).len() > 0
                    && !job.excludes[i].contains('\n') && !job.excludes[i].contains('\r')
        },
{
    lemma_word(job.ssh.host);
    lemma_word(job.ssh.user);
    if are_patterns(job.excludes) {
        assert forall|i: int| 0 <= i < job.excludes.len() implies (
        #[trigger] job.excludes[i]).len() > 0 && !job.excludes[i].contains('\n')
            && !job.excludes[i].contains('\r') by {
            assert(is_pattern(job.excludes[i]));
        }
    } else {
        let i = choose|i: int|
            0 <= i < job.excludes.len() && !is_pattern(#[trigger] job.excludes[i]);
        assert(!is_pattern(job.excludes[i]));
    }
}

proof fn lemma_word(s: Seq<char>)
    ensures
        is_name(s) <==> is_word(s),
{
    if is_name(s) {
        assert forall|i: int| 0 <= i < s.len() implies ('a' <= #[trigger] s[i] <= 'z' || 'A' <= s[i]
            <= 'Z' || '0' <= s[i] <= '9' || s[i] == '.' || s[i] == '_' || s[i] == '-') by {
            assert(is_name_char(s[i]));
        }
    }
    if is_word(s) {
        assert forall|i: int| 0 <= i < s.len() implies is_name_char(#[trigger] s[i]) by {}
    }
}

/// A configuration is accepted exactly where its version is 1, its state directory is a directory
/// tree, it has a job, and every job has a word for its id and is accepted itself.
pub proof fn law_configurations_are_accepted_by_the_rules(config: ConfigView)
    ensures
        config_fault(config) is None <==> {
            &&& config.version == 1
            &&& is_tree(config.state_dir)
            &&& config.jobs.len() > 0
            &&& forall|i: int|
                0 <= i < config.jobs.len() ==> is_word((#[trigger] config.jobs[i]).0) && job_fault(
                    config.jobs[i].1,
                ) is None
        },
{
    lemma_jobs_fault(config.jobs);
}

proof fn lemma_jobs_fault(jobs: Seq<(Seq<char>, JobView)>)
    ensures
        jobs_fault(jobs) is None <==> forall|i: int|
            0 <= i < jobs.len() ==> is_word((#[trigger] jobs[i]).0) && job_fault(jobs[i].1) is None,
    decreases jobs.len(),
{
    if jobs.len() > 0 {
        let rest = jobs.drop_first();
        lemma_jobs_fault(rest);
        lemma_word(jobs[0].0);
        if jobs_fault(jobs) is None {
            assert forall|i: int| 0 <= i < jobs.len() implies is_word((#[trigger] jobs[i]).0)
                && job_fault(jobs[i].1) is None by {
                if i > 0 {
                    assert(rest[i - 1] == jobs[i]);
                }
            }
        } else if entry_fault(jobs[0]) is None {
            let k = choose|k: int|
                0 <= k < rest.len() && !(is_word((#[trigger] rest[k]).0) && job_fault(
                    rest[k].1,
                ) is None);
            assert(jobs[k + 1] == rest[k]);
        }
    }
}

/// A configuration that is not accepted is told as such, whatever is wrong with it, and trying again
/// does not help.
pub proof fn law_refused_configurations_are_told(message: Seq<char>)
    ensures
        rule_error(message).code == "config_invalid"@,
        rule_error(message).message == message,
        rule_error(message).exit_code == 2,
        !rule_error(message).retryable,
{
}

/// A leading tilde stands for the home directory, where one is known; other paths stay as they are.
pub proof fn law_the_home_directory_is_put_in(p: Seq<u8>, rest: Seq<char>, home: Seq<u8>)
    ensures
        path::lossy(p) == seq!['~', '/'] + rest ==> home_expanded(p, Some(home))
            == path::joined_path(home, vstd::utf8::encode_utf8(rest)),
        home_expanded(p, None) == p,
        path::lossy(p).len() < 2 || path::lossy(p)[0] != '~' || path::lossy(p)[1] != '/'
            ==> home_expanded(p, Some(home)) == p,
{
    reveal_strlit("~/");
    assert("~/"@ =~= seq!['~', '/']);
    let s = path::lossy(p);
    if s == seq!['~', '/'] + rest {
        assert(s.take(2) =~= "~/"@);
        assert(s.skip(2) =~= rest);
    }
    if "~/"@.is_prefix_of(s) {
        assert(s.take(2)[0] == s[0]);
        assert(s.take(2)[1] == s[1]);
    }
}

/// A configuration file gives a configuration exactly where it was read, was parsed and meets the
/// rules. A file that cannot be read is told apart from one that is not valid.
pub proof fn law_configuration_files_are_judged(p: Seq<u8>, source: ConfigSource)
    ensures
        load_fault(p, source) is None <==> (source matches ConfigSource::Parsed(config)
            && config_fault(config@) is None),
        source is Unreadable ==> load_fault(p, source)->0.code == "config_unreadable"@,
        source is Malformed ==> load_fault(p, source)->0.code == "config_invalid"@,
        load_fault(p, source) matches Some(e) ==> e.exit_code == 2 && !e.retryable,
{
}

} // verus!
