//! Looking at a remote host: the calls of `ssh` and what their output says.
use crate::common::utils;
use crate::hpc_sync::rsync;
use crate::path::lossy_text;
use crate::{lines, number, path, text};
use vstd::prelude::*;

verus! {

/// What came of running a program.
#[derive(Debug)]
pub enum ProcessOutcome {
    /// It succeeded, with this output.
    Success(Vec<u8>),
    /// It failed, with this error output.
    Failure(Vec<u8>),
    /// It did not run, and why.
    NotRun(String),
}

/// What a [`ProcessOutcome`] holds.
#[verifier::ext_equal]
pub enum OutcomeView {
    Success(Seq<u8>),
    Failure(Seq<u8>),
    NotRun(Seq<char>),
}

impl View for ProcessOutcome {
    type V = OutcomeView;

    open spec fn view(&self) -> OutcomeView {
        match self {
            ProcessOutcome::Success(out) => OutcomeView::Success(out@),
            ProcessOutcome::Failure(err) => OutcomeView::Failure(err@),
            ProcessOutcome::NotRun(cause) => OutcomeView::NotRun(cause@),
        }
    }
}

// ---------------------------------------------------------------------------
// Calls
// ---------------------------------------------------------------------------
/// The port of a remote host.
pub open spec fn port_or_default(port: Option<u16>) -> u16 {
    match port {
        Some(p) => p,
        None => 22,
    }
}

/// The arguments of `ssh` that run a command at a remote host. A listing asks for no compression.
pub open spec fn ssh_args(
    host: Seq<char>,
    port: Option<u16>,
    listing: bool,
    command: Seq<char>,
) -> Seq<Seq<char>> {
    let start = seq![
        "-p"@,
        number::decimal(port_or_default(port) as nat),
        "-T"@,
        "-c"@,
        "aes128-gcm@openssh.com"@,
    ];
    let quick = if listing {
        start.push("-o"@).push("Compression=no"@)
    } else {
        start
    };
    quick + seq![
        "-o"@,
        "StrictHostKeyChecking=no"@,
        "-o"@,
        "ControlMaster=auto"@,
        "-o"@,
        "ControlPath=~/.ssh/sockets/%r@%h-%p"@,
        "-o"@,
        "ControlPersist=600"@,
        host,
        command,
    ]
}

/// The arguments of `ssh` that run a command at a remote host.
fn build_args(host: &str, port: Option<u16>, listing: bool, command: &str) -> (r: Vec<String>)
    ensures
        text::texts(r@) == ssh_args(host@, port, listing, command@),
{
    let p: u16 = match port {
        Some(p) => p,
        None => 22,
    };
    let mut args: Vec<String> = Vec::new();
    proof {
        assert(text::texts(args@) =~= Seq::<Seq<char>>::empty());
    }
    text::push_text(&mut args, "-p");
    text::push_text(&mut args, &number::decimal_text(p as u64));
    text::push_text(&mut args, "-T");
    text::push_text(&mut args, "-c");
    text::push_text(&mut args, "aes128-gcm@openssh.com");
    if listing {
        text::push_text(&mut args, "-o");
        text::push_text(&mut args, "Compression=no");
    }
    text::push_text(&mut args, "-o");
    text::push_text(&mut args, "StrictHostKeyChecking=no");
    text::push_text(&mut args, "-o");
    text::push_text(&mut args, "ControlMaster=auto");
    text::push_text(&mut args, "-o");
    text::push_text(&mut args, "ControlPath=~/.ssh/sockets/%r@%h-%p");
    text::push_text(&mut args, "-o");
    text::push_text(&mut args, "ControlPersist=600");
    text::push_text(&mut args, host);
    text::push_text(&mut args, command);
    proof {
        assert(text::texts(args@) =~= ssh_args(host@, port, listing, command@));
    }
    args
}

/// The command that lists a remote directory; an empty path is the directory of the login.
pub open spec fn list_command(p: Seq<char>) -> Seq<char> {
    "ls -1F --group-directories-first "@ + if p.len() == 0 {
        "."@
    } else {
        p
    }
}

/// The call that lists a remote directory, for a host that is accepted.
pub fn list_remote_dirs_ssh(host: &str, port: Option<u16>, p: &str) -> (r: Option<Vec<String>>)
    ensures
        r is Some <==> utils::is_host(host@),
        r matches Some(args) ==> text::texts(args@) == ssh_args(
            host@,
            port,
            true,
            list_command(p@),
        ),
{
    if !utils::is_valid_host(host) {
        return None;
    }
    let target: &str = if p.is_empty() {
        "."
    } else {
        p
    };
    Some(
        build_args(host, port, true, &text::cat2("ls -1F --group-directories-first ", target)),
    )
}

/// The call that asks for the remote home directory, for a host that is accepted.
pub fn get_remote_home_ssh(host: &str, port: Option<u16>) -> (r: Option<Vec<String>>)
    ensures
        r is Some <==> utils::is_host(host@),
        r matches Some(args) ==> text::texts(args@) == ssh_args(host@, port, false, "pwd"@),
{
    if !utils::is_valid_host(host) {
        return None;
    }
    Some(build_args(host, port, false, "pwd"))
}

/// The command that makes a remote directory and those above it. The path is one word of it,
/// whatever it holds.
pub open spec fn make_command(p: Seq<char>) -> Seq<char> {
    "mkdir -p "@ + rsync::quoted(p)
}

/// The call that makes a remote directory, for a host that is accepted.
pub fn create_remote_dir_ssh(host: &str, port: Option<u16>, p: &str) -> (r: Option<Vec<String>>)
    ensures
        r is Some <==> utils::is_host(host@),
        r matches Some(args) ==> text::texts(args@) == ssh_args(
            host@,
            port,
            false,
            make_command(p@),
        ),
{
    if !utils::is_valid_host(host) {
        return None;
    }
    Some(build_args(host, port, false, &text::cat2("mkdir -p ", &rsync::shell_quote(p))))
}

// ---------------------------------------------------------------------------
// Answers
// ---------------------------------------------------------------------------
/// The names of the directories in a listing: the lines that end with a slash, without their
/// slashes.
pub open spec fn dir_names(list: Seq<Seq<char>>) -> Seq<Seq<char>>
    decreases list.len(),
{
    if list.len() == 0 {
        Seq::empty()
    } else if text::ends_in(list.last(), '/') {
        dir_names(list.drop_last()).push(text::replaced(list.last(), '/', ""@))
    } else {
        dir_names(list.drop_last())
    }
}

/// What a listing of a remote directory gives.
pub open spec fn listed(outcome: OutcomeView) -> Seq<Seq<char>> {
    match outcome {
        OutcomeView::Success(out) => dir_names(lines::lines(path::lossy(out))),
        OutcomeView::Failure(err) => seq!["SSH Error: "@ + path::lossy(err)],
        OutcomeView::NotRun(cause) => seq!["Exec Error: "@ + cause],
    }
}

/// The names of the directories in a listing.
pub fn parse_listing(listing: &str) -> (r: Vec<String>)
    ensures
        text::texts(r@) == dir_names(lines::lines(listing@)),
{
    let all: Vec<String> = lines::lines_of(listing);
    let ghost list = text::texts(all@);
    let mut out: Vec<String> = Vec::new();
    let mut i: usize = 0;
    proof {
        assert(text::texts(out@) =~= dir_names(list.take(0)));
    }
    while i < all.len()
        invariant
            i <= all@.len(),
            list == text::texts(all@),
            text::texts(out@) == dir_names(list.take(i as int)),
        decreases all@.len() - i,
    {
        proof {
            assert(list.take(i as int + 1).drop_last() =~= list.take(i as int));
            assert(list[i as int] == all@[i as int]@);
        }
        if text::ends_with_char(&all[i], '/') {
            let name: String = text::replace_char(&all[i], '/', "");
            text::push_text(&mut out, &name);
        }
        i = i + 1;
    }
    proof {
        assert(list.take(list.len() as int) =~= list);
    }
    out
}

/// The directories that a listing of a remote directory gives, or one line that says why there are
/// none.
pub fn remote_dirs(outcome: &ProcessOutcome) -> (r: Vec<String>)
    ensures
        text::texts(r@) == listed(outcome@),
{
    match outcome {
        ProcessOutcome::Success(out) => parse_listing(&lossy_text(out.as_slice())),
        ProcessOutcome::Failure(err) => text::one_text(
            text::cat2("SSH Error: ", &lossy_text(err.as_slice())),
        ),
        ProcessOutcome::NotRun(cause) => text::one_text(text::cat2("Exec Error: ", cause)),
    }
}

/// The remote home directory, or the root where it is not known.
pub open spec fn home_told(outcome: OutcomeView) -> Seq<char> {
    match outcome {
        OutcomeView::Success(out) => text::trimmed(path::lossy(out)),
        _ => "/"@,
    }
}

/// The remote home directory, or the root where it is not known.
pub fn remote_home(outcome: &ProcessOutcome) -> (r: String)
    ensures
        r@ == home_told(outcome@),
{
    match outcome {
        ProcessOutcome::Success(out) => text::trim(&lossy_text(out.as_slice())),
        _ => "/".to_owned(),
    }
}

/// Why a remote directory was not made.
pub open spec fn mkdir_fault(outcome: OutcomeView) -> Option<Seq<char>> {
    match outcome {
        OutcomeView::Success(_) => None,
        OutcomeView::Failure(err) => Some(path::lossy(err)),
        OutcomeView::NotRun(cause) => Some(cause),
    }
}

/// Why a remote directory was not made, if it was not.
pub fn mkdir_failure(outcome: &ProcessOutcome) -> (r: Option<String>)
    ensures
        text::optional_text(r) == mkdir_fault(outcome@),
{
    match outcome {
        ProcessOutcome::Success(_) => None,
        ProcessOutcome::Failure(err) => Some(lossy_text(err.as_slice())),
        ProcessOutcome::NotRun(cause) => Some(cause.clone()),
    }
}

// ---------------------------------------------------------------------------
// Passwords
// ---------------------------------------------------------------------------
/// Where the helper that hands a password to `ssh` lies.
pub fn askpass_dir(home: Option<&str>) -> (r: String)
    ensures
        r@ == crate::common::daemon::home_or_here(text::optional_str(home)) + "/.ssh/sockets"@,
{
    crate::common::daemon::in_home(home, "/.ssh/sockets")
}

/// The helper that hands a password to `ssh`: its path and what it holds.
pub fn setup_askpass_script(home: Option<&str>) -> (r: (String, String))
    ensures
        r.0@ == crate::common::daemon::home_or_here(text::optional_str(home)) + "/.ssh/sockets"@
            + "/askpass_wrapper.sh"@,
        r.1@ == "#!/bin/sh\necho \"$SERVER_SYNC_PW\""@,
{
    (
        text::cat2(&askpass_dir(home), "/askpass_wrapper.sh"),
        "#!/bin/sh\necho \"$SERVER_SYNC_PW\"".to_owned(),
    )
}

/// A setting of the environment.
#[derive(Debug)]
pub struct EnvSetting {
    pub name: &'static str,
    pub value: String,
}

/// What a list of settings holds.
pub open spec fn env_views(list: Seq<EnvSetting>) -> Seq<(Seq<char>, Seq<char>)> {
    list.map_values(|e: EnvSetting| (e.name@, e.value@))
}

/// The environment in which `ssh` takes a password from the helper; without a password or a helper
/// there is nothing to set.
pub open spec fn password_env(password: Option<Seq<char>>, script: Option<Seq<char>>) -> Seq<
    (Seq<char>, Seq<char>),
> {
    if password is Some && script is Some {
        seq![
            ("SSH_ASKPASS"@, script->0),
            ("SSH_ASKPASS_REQUIRE"@, "force"@),
            ("SERVER_SYNC_PW"@, password->0),
            ("DISPLAY"@, ":0"@),
        ]
    } else {
        Seq::empty()
    }
}

/// The environment in which `ssh` takes a password from the helper.
pub fn askpass_env(password: &Option<String>, script: &Option<String>) -> (r: Vec<EnvSetting>)
    ensures
        env_views(r@) == password_env(text::optional_text(*password), text::optional_text(*script)),
{
    let mut out: Vec<EnvSetting> = Vec::new();
    if let Some(pass) = password {
        if let Some(p) = script {
            out.push(EnvSetting { name: "SSH_ASKPASS", value: p.clone() });
            out.push(EnvSetting { name: "SSH_ASKPASS_REQUIRE", value: "force".to_owned() });
            out.push(EnvSetting { name: "SERVER_SYNC_PW", value: pass.clone() });
            out.push(EnvSetting { name: "DISPLAY", value: ":0".to_owned() });
        }
    }
    proof {
        assert(env_views(out@) =~= password_env(
            text::optional_text(*password),
            text::optional_text(*script),
        ));
    }
    out
}

} // verus!
