//! What the exit code of a transfer says about it.
use crate::text;
use vstd::prelude::*;

verus! {

/// A class of exit codes, and whether trying again can help.
#[derive(Debug, Clone, Copy)]
pub struct ExitClass {
    pub name: &'static str,
    pub retryable: bool,
}

/// The name of a class and its retryability.
pub open spec fn class_of(exit_code: int, stderr: Seq<char>) -> (Seq<char>, bool) {
    if exit_code == 0 {
        ("success"@, false)
    } else if exit_code == 24 {
        ("source_changed"@, true)
    } else if exit_code == 5 || exit_code == 10 || exit_code == 12 || exit_code == 14 || exit_code
        == 30 || exit_code == 35 {
        ("transient_transport"@, true)
    } else if exit_code == 23 {
        ("partial_data"@, true)
    } else if exit_code == 25 {
        ("safety_rejection"@, false)
    } else if exit_code == 255 {
        if tells_of_authentication(stderr) {
            ("authentication"@, false)
        } else {
            ("transient_transport"@, true)
        }
    } else {
        ("failed"@, false)
    }
}

/// Whether an error output speaks of failed authentication, in any letter case.
pub open spec fn tells_of_authentication(stderr: Seq<char>) -> bool {
    ||| text::has_part(text::lowered(stderr), "host key verification failed"@)
    ||| text::has_part(text::lowered(stderr), "permission denied"@)
    ||| text::has_part(text::lowered(stderr), "no matching host key"@)
    ||| text::has_part(text::lowered(stderr), "private key"@)
}

/// Classifies the exit code of a transfer, with its error output.
pub fn classify_exit(exit_code: i32, stderr: &str) -> (r: ExitClass)
    ensures
        (r.name@, r.retryable) == class_of(exit_code as int, stderr@),
{
    match exit_code {
        0 => ExitClass { name: "success", retryable: false },
        24 => ExitClass { name: "source_changed", retryable: true },
        5 | 10 | 12 | 14 | 30 | 35 => ExitClass { name: "transient_transport", retryable: true },
        23 => ExitClass { name: "partial_data", retryable: true },
        25 => ExitClass { name: "safety_rejection", retryable: false },
        255 => if is_authentication_error(stderr) {
            ExitClass { name: "authentication", retryable: false }
        } else {
            ExitClass { name: "transient_transport", retryable: true }
        },
        _ => ExitClass { name: "failed", retryable: false },
    }
}

/// Tells whether an error output speaks of failed authentication.
pub fn is_authentication_error(stderr: &str) -> (r: bool)
    ensures
        r == tells_of_authentication(stderr@),
{
    let lowered: Vec<char> = text::to_lower(stderr);
    text::contains_chars(&lowered, "host key verification failed") || text::contains_chars(
        &lowered,
        "permission denied",
    ) || text::contains_chars(&lowered, "no matching host key") || text::contains_chars(
        &lowered,
        "private key",
    )
}

/// A transfer is classified as successful exactly when it exited with zero, and success is never
/// retryable.
pub proof fn law_success_is_exit_zero(exit_code: int, stderr: Seq<char>)
    ensures
        class_of(exit_code, stderr).0 == "success"@ <==> exit_code == 0,
        exit_code == 0 ==> !class_of(exit_code, stderr).1,
{
    reveal_strlit("success");
    reveal_strlit("source_changed");
    reveal_strlit("transient_transport");
    reveal_strlit("partial_data");
    reveal_strlit("safety_rejection");
    reveal_strlit("authentication");
    reveal_strlit("failed");
    let name = class_of(exit_code, stderr).0;
    if exit_code != 0 && name == "success"@ {
        assert(name.len() == 7);
        assert(name[0] == 's');
    }
}

/// Trying again can help after a changed source, partial data and a broken transport, which includes
/// a remote shell that failed without speaking of authentication. After anything else it cannot.
pub proof fn law_retryable_exits(exit_code: int, stderr: Seq<char>)
    ensures
        class_of(exit_code, stderr).1 <==> {
            ||| set![5int, 10, 12, 14, 23, 24, 30, 35].contains(exit_code)
            ||| exit_code == 255 && !tells_of_authentication(stderr)
        },
{
}

/// Each class names what happened: the exit codes of a changed source, of partial data, of a refused
/// deletion limit and of a broken transport have a class of their own, and a remote shell that
/// failed is told apart by whether it speaks of authentication.
pub proof fn law_classes_name_what_happened(exit_code: int, stderr: Seq<char>)
    ensures
        exit_code == 0 ==> class_of(exit_code, stderr).0 == "success"@,
        exit_code == 24 ==> class_of(exit_code, stderr).0 == "source_changed"@,
        exit_code == 23 ==> class_of(exit_code, stderr).0 == "partial_data"@,
        exit_code == 25 ==> class_of(exit_code, stderr).0 == "safety_rejection"@,
        set![5int, 10, 12, 14, 30, 35].contains(exit_code) ==> class_of(exit_code, stderr).0
            == "transient_transport"@,
        exit_code == 255 && tells_of_authentication(stderr) ==> class_of(exit_code, stderr).0
            == "authentication"@,
        exit_code == 255 && !tells_of_authentication(stderr) ==> class_of(exit_code, stderr).0
            == "transient_transport"@,
        !set![0int, 5, 10, 12, 14, 23, 24, 25, 30, 35, 255].contains(exit_code) ==> class_of(
            exit_code,
            stderr,
        ).0 == "failed"@,
{
}

/// Failed authentication is noticed wherever the error output speaks of it, in whatever letter case.
pub proof fn law_authentication_is_noticed(before: Seq<char>, said: Seq<char>, after: Seq<char>)
    requires
        ({
            let small = text::lowered(said);
            ||| small == "host key verification failed"@
            ||| small == "permission denied"@
            ||| small == "no matching host key"@
            ||| small == "private key"@
        }),
    ensures
        tells_of_authentication(before + said + after),
{
    let whole = text::lowered(before + said + after);
    let at = before.len() as int;
    assert(whole.subrange(at, at + said.len()) =~= text::lowered(said));
    assert(text::occurs_at(whole, text::lowered(said), at));
}

} // verus!
