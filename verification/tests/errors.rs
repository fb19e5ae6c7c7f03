//! Tests of the status-code codec, the structured error types and the
//! assertion diagnostics.

use pop_drink::error::Error;
use pop_drink::errors::assert_runtime_err_inner;
use pop_drink::errors::v0::RuntimeError as V0RuntimeError;
use pop_drink::errors::v0::{ApiError, ArithmeticError, TokenError, TransactionalError};
use pop_drink::macros::{assert_err_inner, assert_message};
use pop_drink::runtime::{AssetsError, BalancesError, ContractsError, RuntimeError};
use pop_drink::runtime::{ASSETS_MODULE_INDEX, BALANCES_MODULE_INDEX};
use pop_drink::status::{pack_bytes, split_byte0, split_byte1, split_byte2, split_byte3};

type TestError = Error<RuntimeError, 3>;

fn test_cases() -> Vec<(TestError, ApiError)> {
    vec![
        (Error::Raw(ApiError::BadOrigin), ApiError::BadOrigin),
        (
            Error::Raw(ApiError::Token(TokenError::BelowMinimum)),
            ApiError::Token(TokenError::BelowMinimum),
        ),
        (
            Error::Raw(ApiError::Arithmetic(ArithmeticError::Overflow)),
            ApiError::Arithmetic(ArithmeticError::Overflow),
        ),
        (
            Error::Module(RuntimeError::Assets(AssetsError::BalanceLow)),
            ApiError::Module { index: ASSETS_MODULE_INDEX, error: [0, 0] },
        ),
        (
            Error::Module(RuntimeError::Assets(AssetsError::NoAccount)),
            ApiError::Module { index: ASSETS_MODULE_INDEX, error: [1, 0] },
        ),
        (
            Error::Module(RuntimeError::Balances(BalancesError::VestingBalance)),
            ApiError::Module { index: BALANCES_MODULE_INDEX, error: [0, 0] },
        ),
        (
            Error::Module(RuntimeError::Balances(BalancesError::LiquidityRestrictions)),
            ApiError::Module { index: BALANCES_MODULE_INDEX, error: [1, 0] },
        ),
    ]
}

fn v0_test_cases() -> Vec<(V0RuntimeError<RuntimeError>, ApiError)> {
    vec![
        (V0RuntimeError::Raw(ApiError::BadOrigin), ApiError::BadOrigin),
        (
            V0RuntimeError::Raw(ApiError::Token(TokenError::BelowMinimum)),
            ApiError::Token(TokenError::BelowMinimum),
        ),
        (
            V0RuntimeError::Raw(ApiError::Arithmetic(ArithmeticError::Overflow)),
            ApiError::Arithmetic(ArithmeticError::Overflow),
        ),
        (
            V0RuntimeError::Module(RuntimeError::Assets(AssetsError::BalanceLow)),
            ApiError::Module { index: ASSETS_MODULE_INDEX, error: [0, 0] },
        ),
        (
            V0RuntimeError::Module(RuntimeError::Assets(AssetsError::NoAccount)),
            ApiError::Module { index: ASSETS_MODULE_INDEX, error: [1, 0] },
        ),
        (
            V0RuntimeError::Module(RuntimeError::Balances(BalancesError::VestingBalance)),
            ApiError::Module { index: BALANCES_MODULE_INDEX, error: [0, 0] },
        ),
        (
            V0RuntimeError::Module(RuntimeError::Balances(BalancesError::LiquidityRestrictions)),
            ApiError::Module { index: BALANCES_MODULE_INDEX, error: [1, 0] },
        ),
    ]
}

#[test]
fn error_runtime_error_to_primitives_error_conversion_works() {
    test_cases().into_iter().for_each(|t| {
        let runtime_error: u32 = t.0.to_status_code();
        let pop_api_error: u32 = t.1.to_status_code();
        assert_eq!(runtime_error, pop_api_error);
    });
}

#[test]
fn assert_err_works() {
    test_cases().into_iter().for_each(|t| {
        assert!(assert_err_inner::<(), ApiError, RuntimeError, 3>(Err(t.1), t.0).is_none());
    });
}

#[test]
fn v0_runtime_error_to_primitives_error_conversion_works() {
    v0_test_cases().into_iter().for_each(|t| {
        let runtime_error: u32 = t.0.to_status_code();
        let pop_api_error: u32 = t.1.to_status_code();
        assert_eq!(runtime_error, pop_api_error);
    });
}

#[test]
fn assert_runtime_error_works() {
    v0_test_cases().into_iter().for_each(|t| {
        assert!(assert_runtime_err_inner::<(), ApiError, RuntimeError>(Err(t.1), t.0).is_none());
    });
}

#[test]
fn status_code_bytes_roundtrip() {
    let code = pack_bytes(3, 1, 2, 0);
    assert_eq!(code, 0x0002_0103);
    assert_eq!(split_byte0(code), 3);
    assert_eq!(split_byte1(code), 1);
    assert_eq!(split_byte2(code), 2);
    assert_eq!(split_byte3(code), 0);
}

#[test]
fn api_error_codes_are_exact() {
    assert_eq!(ApiError::Other.to_status_code(), 0);
    assert_eq!(ApiError::CannotLookup.to_status_code(), 1);
    assert_eq!(ApiError::BadOrigin.to_status_code(), 2);
    assert_eq!(ApiError::Module { index: 1, error: [0, 0] }.to_status_code(), 0x0000_0103);
    assert_eq!(ApiError::Token(TokenError::BelowMinimum).to_status_code(), 0x0000_0207);
    assert_eq!(ApiError::Arithmetic(ArithmeticError::Overflow).to_status_code(), 0x0000_0108);
    assert_eq!(
        ApiError::Transactional(TransactionalError::NoLayer).to_status_code(),
        0x0000_0109
    );
    assert_eq!(ApiError::UnknownCall.to_status_code(), 254);
    assert_eq!(ApiError::DecodingFailed.to_status_code(), 255);
}

#[test]
fn api_error_decode_rejects_junk() {
    // An out-of-range token sub-index is not canonical.
    assert_eq!(ApiError::from_status_code(pack_bytes(7, 99, 0, 0)), ApiError::DecodingFailed);
    // A unit variant carries no payload.
    assert_eq!(ApiError::from_status_code(pack_bytes(2, 1, 0, 0)), ApiError::DecodingFailed);
    // An unassigned discriminant names nothing.
    assert_eq!(ApiError::from_status_code(pack_bytes(77, 0, 0, 0)), ApiError::DecodingFailed);
}

#[test]
fn api_error_roundtrips() {
    for code in [0u32, 1, 2, 0x0000_0103, 0x0102_0203, 0x0000_0207, 0x0000_0108, 254, 255] {
        let decoded = ApiError::from_status_code(code);
        assert_eq!(decoded.to_status_code(), code);
    }
}

#[test]
fn module_error_scenario_decodes_as_module() {
    // A module error with module index 3, sub-index 0 and payload [0, 0]
    // must classify as a module error again after a decode round trip.
    let encoded = ApiError::Module { index: 3, error: [0, 0] }.to_status_code();
    match ApiError::from_status_code(encoded) {
        ApiError::Module { index, error } => {
            assert_eq!(index, 3);
            assert_eq!(error, [0, 0]);
        }
        other => panic!("expected a module error, got {:?}", other),
    }
}

#[test]
fn structured_error_roundtrips_through_codes() {
    for (e, _) in test_cases() {
        let code = e.to_status_code();
        let decoded = TestError::from_status_code(code);
        assert_eq!(decoded.to_status_code(), code);
    }
}

#[test]
fn raw_module_shaped_error_reclassifies() {
    // A raw error that happens to carry the module discriminant comes back
    // as a module error with the same code: the format's accepted ambiguity.
    let raw = TestError::Raw(ApiError::Module { index: ASSETS_MODULE_INDEX, error: [0, 0] });
    let code = raw.to_status_code();
    match TestError::from_status_code(code) {
        Error::Module(RuntimeError::Assets(AssetsError::BalanceLow)) => {}
        other => panic!("expected reclassification, got {:?}", other),
    }
    // One whose module payload names nothing decodes to no structured value.
    let alien = TestError::Raw(ApiError::Module { index: 99, error: [0, 0] });
    assert!(TestError::try_from_status_code(alien.to_status_code()).is_none());
}

#[test]
fn assert_err_reports_mismatch() {
    let expected = TestError::Module(RuntimeError::Assets(AssetsError::BalanceLow));
    let actual = ApiError::Token(TokenError::BelowMinimum);
    let msg = assert_err_inner::<(), ApiError, RuntimeError, 3>(Err(actual), expected).unwrap();
    assert_eq!(
        msg,
        "assertion `left == right` failed\n  left: Raw(Token(BelowMinimum))\n right: Module(Assets(BalanceLow))"
    );
}

#[test]
fn assert_err_reports_ok_as_mismatch() {
    let expected = TestError::Raw(ApiError::BadOrigin);
    let msg = assert_err_inner::<(), ApiError, RuntimeError, 3>(Ok(()), expected).unwrap();
    assert!(msg.contains("Ok()"));
    assert_eq!(
        msg,
        "assertion `left == right` failed\n  left: Ok()\n right: Raw(BadOrigin)"
    );
}

#[test]
fn contracts_error_payloads_encode() {
    let e = TestError::Module(RuntimeError::Contracts(ContractsError::ContractReverted));
    let code = e.to_status_code();
    assert_eq!(ApiError::from_status_code(code), ApiError::Module { index: 4, error: [5, 0] });
}

#[test]
fn byte_rendering_is_decimal() {
    assert_eq!(pop_drink::text::byte_text(0), "0");
    assert_eq!(pop_drink::text::byte_text(7), "7");
    assert_eq!(pop_drink::text::byte_text(42), "42");
    assert_eq!(pop_drink::text::byte_text(255), "255");
    assert_eq!(pop_drink::text::bytes_text(&vec![]), "[]");
    assert_eq!(pop_drink::text::bytes_text(&vec![5]), "[5]");
    assert_eq!(pop_drink::text::bytes_text(&vec![1, 2, 30]), "[1, 2, 30]");
}

#[test]
fn module_error_descriptions_render() {
    let e = TestError::Raw(ApiError::Module { index: 250, error: [7, 0] });
    assert_eq!(e.describe(), "Raw(Module { index: 250, error: [7, 0] })");
}

#[test]
fn message_text_is_exact() {
    assert_eq!(
        assert_message("left text", "right text"),
        "assertion `left == right` failed\n  left: left text\n right: right text"
    );
}
