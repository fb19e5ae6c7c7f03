//! Assertion utilities over the structured error codec.
//!
//! A mismatch is rendered as a two-line "left/right" diagnostic showing the
//! decoded structured values, not raw integers. The helpers return the
//! diagnostic instead of raising it: `None` means the assertion holds, and
//! `Some(message)` carries exactly the text a test harness should fail with.

use vstd::prelude::*;
use vstd::string::StringExecFns;

use crate::error::{Error, ModuleErrorCodec, ToStatusCode};
use crate::session::Session;
use crate::text::{bytes_text, spec_bytes_text};

verus! {

/// The two-line left/right diagnostic for a failed equality assertion.
pub open spec fn spec_assert_message(left: Seq<char>, right: Seq<char>) -> Seq<char> {
    "assertion `left == right` failed\n  left: "@ + left + "\n right: "@ + right
}

/// `sub` occurs contiguously somewhere in `s`.
pub open spec fn spec_contains_substring(s: Seq<char>, sub: Seq<char>) -> bool {
    exists|i: int|
        0 <= i && i + sub.len() <= s.len() && #[trigger] s.subrange(i, i + sub.len()) == sub
}

/// Builds the two-line left/right diagnostic for a failed equality assertion.
pub fn assert_message(left: &str, right: &str) -> (r: String)
    ensures
        r@ == spec_assert_message(left@, right@),
{
    String::from_str("assertion `left == right` failed\n  left: ").concat(left).concat(
        "\n right: ",
    ).concat(right)
}

/// Diagnostics law: the message reporting a success where an error was
/// expected always contains the literal substring `Ok()`.
pub proof fn lemma_ok_message_contains_ok(right: Seq<char>)
    ensures
        spec_contains_substring(spec_assert_message("Ok()"@, right), "Ok()"@),
{
    reveal_strlit("assertion `left == right` failed\n  left: ");
    reveal_strlit("Ok()");
    reveal_strlit("\n right: ");
    let msg = spec_assert_message("Ok()"@, right);
    let pre = "assertion `left == right` failed\n  left: "@;
    assert(msg.subrange(pre.len() as int, pre.len() as int + 4) =~= "Ok()"@);
}

/// Compares a result against an expected structured error by status code.
///
/// Returns `None` when `result` is an error with exactly the expected code,
/// and `Some(diagnostic)` otherwise: the diagnostic shows the decoded
/// structured values, with `Ok()` on the left when the result unexpectedly
/// succeeded. The expected error's code must decode back, as must a
/// mismatched actual error's code, so both sides can be displayed.
pub fn assert_err_inner<R, E: ToStatusCode, M: ModuleErrorCodec, const MODULE_INDEX: u8>(
    result: Result<R, E>,
    expected_error: Error<M, MODULE_INDEX>,
) -> (r: Option<String>)
    requires
        Error::<M, MODULE_INDEX>::spec_from_code(expected_error.spec_code()) is Some,
        match result {
            Result::Err(e) => e.spec_status_code() != expected_error.spec_code() ==> Error::<
                M,
                MODULE_INDEX,
            >::spec_from_code(e.spec_status_code()) is Some,
            Result::Ok(_) => true,
        },
    ensures
        match result {
            Result::Err(e) => if e.spec_status_code() == expected_error.spec_code() {
                r is None
            } else {
                r matches Some(msg) && msg@ == spec_assert_message(
                    Error::<M, MODULE_INDEX>::spec_from_code(
                        e.spec_status_code(),
                    )->Some_0.spec_describe(),
                    Error::<M, MODULE_INDEX>::spec_from_code(
                        expected_error.spec_code(),
                    )->Some_0.spec_describe(),
                )
            },
            Result::Ok(_) => r matches Some(msg) && msg@ == spec_assert_message(
                "Ok()"@,
                Error::<M, MODULE_INDEX>::spec_from_code(
                    expected_error.spec_code(),
                )->Some_0.spec_describe(),
            ),
        },
{
    let expected_code = expected_error.to_status_code();
    let expected_display = Error::<M, MODULE_INDEX>::from_status_code(expected_code);
    match result {
        Result::Err(error) => {
            let error_code = error.status_code();
            if error_code != expected_code {
                let actual_display = Error::<M, MODULE_INDEX>::from_status_code(error_code);
                Some(
                    assert_message(
                        actual_display.describe().as_str(),
                        expected_display.describe().as_str(),
                    ),
                )
            } else {
                None
            }
        },
        Result::Ok(_) => Some(assert_message("Ok()", expected_display.describe().as_str())),
    }
}

/// Whether two byte strings hold the same bytes.
fn bytes_equal(a: &Vec<u8>, b: &Vec<u8>) -> (r: bool)
    ensures
        r <==> a@ == b@,
{
    if a.len() != b.len() {
        return false;
    }
    let mut i: usize = 0;
    while i < a.len()
        invariant
            i <= a.len(),
            a@.len() == b@.len(),
            forall|j: int| 0 <= j < i ==> a@[j] == b@[j],
        decreases a.len() - i,
    {
        if a[i] != b[i] {
            return false;
        }
        i += 1;
    }
    proof {
        assert(a@ =~= b@);
    }
    true
}

/// Compares the last contract event of a session's latest operation against
/// an expected encoded event.
///
/// Returns `None` when the latest operation emitted at least one contract
/// event and its last event's bytes equal `event`, and `Some(diagnostic)`
/// otherwise: the diagnostic shows both byte strings, with `None` on the left
/// when no contract event is there to compare.
pub fn assert_last_event_inner(session: &Session, event: &Vec<u8>) -> (r: Option<String>)
    ensures
        match session.spec_last_record() {
            Some(rec) => if rec.contract_events@.len() == 0 {
                r matches Some(msg) && msg@ == spec_assert_message(
                    "None"@,
                    spec_bytes_text(event@),
                )
            } else if rec.contract_events@.last()@ == event@ {
                r is None
            } else {
                r matches Some(msg) && msg@ == spec_assert_message(
                    spec_bytes_text(rec.contract_events@.last()@),
                    spec_bytes_text(event@),
                )
            },
            None => r matches Some(msg) && msg@ == spec_assert_message(
                "None"@,
                spec_bytes_text(event@),
            ),
        },
{
    match crate::session::last_contract_event(session) {
        Some(last) => if bytes_equal(&last, event) {
            None
        } else {
            Some(assert_message(bytes_text(&last).as_str(), bytes_text(event).as_str()))
        },
        None => Some(assert_message("None", bytes_text(event).as_str())),
    }
}

} // verus!
