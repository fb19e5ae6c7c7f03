//! Errors used for testing contract interactions with the sandboxed runtime,
//! grouped by API generation, with the assertion helper shared by all
//! generations.

pub mod v0;

use vstd::prelude::*;

use crate::error::{ModuleErrorCodec, ToStatusCode};
use crate::errors::v0::RuntimeError;
use crate::macros::{assert_message, spec_assert_message};

verus! {

/// Compares a result against an expected runtime error by status code.
///
/// Returns `None` when `result` is an error with exactly the expected code,
/// and `Some(diagnostic)` otherwise: the diagnostic shows the decoded
/// structured values, with `Ok()` on the left when the result unexpectedly
/// succeeded. The expected error's code must decode back, as must a
/// mismatched actual error's code, so both sides can be displayed.
pub fn assert_runtime_err_inner<R, E: ToStatusCode, M: ModuleErrorCodec>(
    result: Result<R, E>,
    expected_error: RuntimeError<M>,
) -> (r: Option<String>)
    requires
        RuntimeError::<M>::spec_from_code(expected_error.spec_code()) is Some,
        match result {
            Result::Err(e) => e.spec_status_code() != expected_error.spec_code()
                ==> RuntimeError::<M>::spec_from_code(e.spec_status_code()) is Some,
            Result::Ok(_) => true,
        },
    ensures
        match result {
            Result::Err(e) => if e.spec_status_code() == expected_error.spec_code() {
                r is None
            } else {
                r matches Some(msg) && msg@ == spec_assert_message(
                    RuntimeError::<M>::spec_from_code(
                        e.spec_status_code(),
                    )->Some_0.spec_describe(),
                    RuntimeError::<M>::spec_from_code(
                        expected_error.spec_code(),
                    )->Some_0.spec_describe(),
                )
            },
            Result::Ok(_) => r matches Some(msg) && msg@ == spec_assert_message(
                "Ok()"@,
                RuntimeError::<M>::spec_from_code(
                    expected_error.spec_code(),
                )->Some_0.spec_describe(),
            ),
        },
{
    let expected_code = expected_error.to_status_code();
    let expected_display = RuntimeError::<M>::from_status_code(expected_code);
    match result {
        Result::Err(error) => {
            let error_code = error.status_code();
            if error_code != expected_code {
                let actual_display = RuntimeError::<M>::from_status_code(error_code);
                Some(
                    assert_message(
                        actual_display.describe().as_str(),
                        expected_display.describe().as_str(),
                    ),
                )
            } else {
                None
            }
        },
        Result::Ok(_) => Some(assert_message("Ok()", expected_display.describe().as_str())),
    }
}

} // verus!
