//! The structured error type layered over the status-code format.
//!
//! A [`Error`] value represents either a raw top-level error or an error
//! scoped to one runtime module. Which concrete module-error type and which
//! module-variant discriminant apply is explicit per test-suite configuration,
//! through the `M` and `MODULE_INDEX` parameters: the numeric module index is
//! a runtime-specific constant that cannot be inferred from the error type.

use vstd::prelude::*;
use vstd::string::StringExecFns;

use crate::errors::v0::ApiError;
use crate::status::{byte0, byte1, byte2, byte3, code_of_bytes};
use crate::status::{lemma_bytes_code_roundtrip, lemma_code_bytes_roundtrip};
use crate::status::{pack_bytes, split_byte0, split_byte1, split_byte2, split_byte3};

verus! {

/// A module-scoped error that can cross the status-code boundary: it encodes
/// to a module index byte plus a fixed-width two-byte sub-error payload, and
/// decodes back from exactly those three bytes.
pub trait ModuleErrorCodec: Sized {
    /// The module index byte of this error.
    spec fn spec_index(self) -> u8;

    /// The two sub-error payload bytes of this error, zero-padded.
    spec fn spec_payload(self) -> (u8, u8);

    /// The error value encoded as `index` plus payload, if those three bytes
    /// name one.
    spec fn spec_decode(index: u8, payload0: u8, payload1: u8) -> Option<Self>;

    /// A human-readable rendering of this error.
    spec fn spec_describe(self) -> Seq<char>;

    /// Encodes this error as its module index byte and two payload bytes.
    fn encode(&self) -> (r: (u8, u8, u8))
        ensures
            r.0 == self.spec_index(),
            r.1 == self.spec_payload().0,
            r.2 == self.spec_payload().1,
    ;

    /// Decodes an error from a module index byte and two payload bytes.
    fn decode(index: u8, payload0: u8, payload1: u8) -> (r: Option<Self>)
        ensures
            r == Self::spec_decode(index, payload0, payload1),
    ;

    /// Renders this error for diagnostics.
    fn describe(&self) -> (r: String)
        ensures
            r@ == self.spec_describe(),
    ;

    /// Decoding an error's own encoding yields the error back.
    proof fn lemma_decode_encode(self)
        ensures
            Self::spec_decode(
                self.spec_index(),
                self.spec_payload().0,
                self.spec_payload().1,
            ) == Some(self),
    ;

    /// Decoding is canonical: a successfully decoded error re-encodes to
    /// exactly the bytes it was decoded from.
    proof fn lemma_encode_decode(index: u8, payload0: u8, payload1: u8)
        ensures
            Self::spec_decode(index, payload0, payload1) matches Some(m) ==> m.spec_index()
                == index && m.spec_payload() == (payload0, payload1),
    ;
}

/// A value that converts to a 4-byte status code, as contract error types
/// must to be compared by the assertion utilities.
pub trait ToStatusCode: Sized {
    /// The status code of this value.
    spec fn spec_status_code(self) -> u32;

    /// Converts this value to its status code.
    fn status_code(&self) -> (code: u32)
        ensures
            code == self.spec_status_code(),
    ;
}

impl ToStatusCode for u32 {
    open spec fn spec_status_code(self) -> u32 {
        self
    }

    fn status_code(&self) -> u32 {
        *self
    }
}

/// A structured error: either raw (top-level) or scoped to a runtime module.
///
/// `M` is the concrete module-error type of the runtime under test and
/// `MODULE_INDEX` the discriminant byte that the top-level taxonomy assigns
/// to its module-scoped variant ([`crate::errors::v0::MODULE_ERROR_DISCRIMINANT`]
/// for the generation-zero taxonomy).
#[derive(Debug)]
pub enum Error<M, const MODULE_INDEX: u8> {
    /// An error not related to any specific module.
    Raw(ApiError),
    /// An error originating from a runtime module.
    Module(M),
}

impl<M: ModuleErrorCodec, const MODULE_INDEX: u8> Error<M, MODULE_INDEX> {
    /// The status code of this error.
    ///
    /// A module error is laid out as `MODULE_INDEX` followed by its module
    /// index and payload bytes, then passed once more through the top-level
    /// taxonomy's own codec: the taxonomy is the authoritative numeric format,
    /// so module errors must still satisfy its constraints.
    pub open spec fn spec_code(self) -> u32 {
        match self {
            Error::Raw(e) => e.spec_code(),
            Error::Module(m) => ApiError::spec_from_code(
                code_of_bytes(MODULE_INDEX, m.spec_index(), m.spec_payload().0, m.spec_payload().1),
            ).spec_code(),
        }
    }

    /// The structured error decoded from a status code: the code is first
    /// normalized through the top-level taxonomy; if byte 0 of the normalized
    /// code equals `MODULE_INDEX`, bytes 1 to 3 are decoded as a module error
    /// (`None` if they name no value of `M`), otherwise the top-level value is
    /// wrapped raw.
    pub open spec fn spec_from_code(value: u32) -> Option<Error<M, MODULE_INDEX>> {
        let api = ApiError::spec_from_code(value);
        let code = api.spec_code();
        if byte0(code) == MODULE_INDEX {
            match M::spec_decode(byte1(code), byte2(code), byte3(code)) {
                Some(m) => Some(Error::Module(m)),
                None => None,
            }
        } else {
            Some(Error::Raw(api))
        }
    }

    /// Converts this error to its status code.
    pub fn to_status_code(&self) -> (code: u32)
        ensures
            code == self.spec_code(),
    {
        match self {
            Error::Raw(e) => {
                proof {
                    e.lemma_codec_roundtrip();
                }
                ApiError::from_status_code(e.to_status_code()).to_status_code()
            },
            Error::Module(m) => {
                let (index, payload0, payload1) = m.encode();
                let packed = pack_bytes(MODULE_INDEX, index, payload0, payload1);
                ApiError::from_status_code(packed).to_status_code()
            },
        }
    }

    /// Decodes a status code into a structured error, or `None` if the code
    /// carries a module error that names no value of `M`.
    pub fn try_from_status_code(value: u32) -> (r: Option<Error<M, MODULE_INDEX>>)
        ensures
            r == Error::<M, MODULE_INDEX>::spec_from_code(value),
    {
        let api = ApiError::from_status_code(value);
        let code = api.to_status_code();
        let b0 = split_byte0(code);
        if b0 == MODULE_INDEX {
            let b1 = split_byte1(code);
            let b2 = split_byte2(code);
            let b3 = split_byte3(code);
            match M::decode(b1, b2, b3) {
                Some(m) => Some(Error::Module(m)),
                None => None,
            }
        } else {
            Some(Error::Raw(api))
        }
    }

    /// Decodes a status code into a structured error.
    ///
    /// The caller must know the code to be decodable; on codes whose module
    /// payload names no value of `M`, use [`Self::try_from_status_code`].
    pub fn from_status_code(value: u32) -> (r: Error<M, MODULE_INDEX>)
        requires
            Error::<M, MODULE_INDEX>::spec_from_code(value) is Some,
        ensures
            Some(r) == Error::<M, MODULE_INDEX>::spec_from_code(value),
    {
        Error::<M, MODULE_INDEX>::try_from_status_code(value).unwrap()
    }

    /// A human-readable rendering of this error.
    pub open spec fn spec_describe(self) -> Seq<char> {
        match self {
            Error::Raw(e) => "Raw("@ + e.spec_describe() + ")"@,
            Error::Module(m) => "Module("@ + m.spec_describe() + ")"@,
        }
    }

    /// Renders this error for diagnostics.
    pub fn describe(&self) -> (r: String)
        ensures
            r@ == self.spec_describe(),
    {
        match self {
            Error::Raw(e) => String::from_str("Raw(").concat(e.describe().as_str()).concat(")"),
            Error::Module(m) => String::from_str("Module(").concat(m.describe().as_str()).concat(
                ")",
            ),
        }
    }

    /// Round-trip law: any structured error that decodes back from its own
    /// status code decodes to a value that re-encodes to exactly that code.
    pub proof fn lemma_roundtrip(self)
        requires
            Error::<M, MODULE_INDEX>::spec_from_code(self.spec_code()) is Some,
        ensures
            Error::<M, MODULE_INDEX>::spec_from_code(self.spec_code())->Some_0.spec_code()
                == self.spec_code(),
    {
        let code = self.spec_code();
        let api = ApiError::spec_from_code(code);
        match self {
            Error::Raw(e) => {
                e.lemma_codec_roundtrip();
            },
            Error::Module(m) => {
                let packed = code_of_bytes(
                    MODULE_INDEX,
                    m.spec_index(),
                    m.spec_payload().0,
                    m.spec_payload().1,
                );
                ApiError::spec_from_code(packed).lemma_codec_roundtrip();
            },
        }
        // Now `api.spec_code() == code` in every case, so the decode arm is
        // chosen by the bytes of `code` itself.
        if byte0(code) == MODULE_INDEX {
            let m2 = M::spec_decode(byte1(code), byte2(code), byte3(code))->Some_0;
            M::lemma_encode_decode(byte1(code), byte2(code), byte3(code));
            lemma_code_bytes_roundtrip(code);
            assert(Error::<M, MODULE_INDEX>::spec_from_code(code)->Some_0 == Error::<
                M,
                MODULE_INDEX,
            >::Module(m2));
            assert(code_of_bytes(MODULE_INDEX, m2.spec_index(), m2.spec_payload().0,
                m2.spec_payload().1) == code);
        }
    }

    /// Exact round-trip law: under the canonical configuration, a module
    /// error decodes back from its own status code to exactly itself, and so
    /// does a raw error whose byte 0 avoids the module discriminant — the
    /// format's one accepted ambiguity.
    pub proof fn lemma_roundtrip_exact(self)
        requires
            MODULE_INDEX == crate::errors::v0::MODULE_ERROR_DISCRIMINANT,
            self matches Error::Raw(e) ==> byte0(e.spec_code()) != MODULE_INDEX,
        ensures
            Error::<M, MODULE_INDEX>::spec_from_code(self.spec_code()) == Some(self),
    {
        match self {
            Error::Raw(e) => {
                e.lemma_codec_roundtrip();
            },
            Error::Module(m) => {
                let packed = code_of_bytes(
                    MODULE_INDEX,
                    m.spec_index(),
                    m.spec_payload().0,
                    m.spec_payload().1,
                );
                lemma_bytes_code_roundtrip(
                    MODULE_INDEX,
                    m.spec_index(),
                    m.spec_payload().0,
                    m.spec_payload().1,
                );
                ApiError::spec_from_code(packed).lemma_codec_roundtrip();
                m.lemma_decode_encode();
            },
        }
    }

    /// Classification law: under the canonical configuration, a status code
    /// whose byte 0 equals the configured module index never decodes raw, and
    /// any other byte 0 always decodes raw.
    pub proof fn lemma_classification(value: u32)
        requires
            MODULE_INDEX == crate::errors::v0::MODULE_ERROR_DISCRIMINANT,
        ensures
            byte0(value) == MODULE_INDEX ==> match Error::<M, MODULE_INDEX>::spec_from_code(
                value,
            ) {
                Some(e) => e matches Error::Module(m) && Some(m) == M::spec_decode(
                    byte1(value),
                    byte2(value),
                    byte3(value),
                ),
                None => M::spec_decode(byte1(value), byte2(value), byte3(value)) is None,
            },
            byte0(value) != MODULE_INDEX ==> Error::<M, MODULE_INDEX>::spec_from_code(value)
                == Some(Error::<M, MODULE_INDEX>::Raw(ApiError::spec_from_code(value))),
    {
        let api = ApiError::spec_from_code(value);
        ApiError::lemma_module_classification(value);
        if byte0(value) == MODULE_INDEX {
            api.lemma_codec_roundtrip();
            lemma_code_bytes_roundtrip(value);
        } else {
            ApiError::lemma_decode_encode(value);
            assert(byte0(api.spec_code()) != MODULE_INDEX) by {
                if api.spec_code() == value {
                } else {
                    assert(api == ApiError::DecodingFailed);
                    lemma_bytes_code_roundtrip(255, 0, 0, 0);
                }
            }
        }
    }
}

} // verus!
