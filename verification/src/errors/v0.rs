//! The generation-zero top-level error taxonomy and its status-code codec.
//!
//! `ApiError` is the authoritative numeric format for errors crossing the
//! contract/runtime boundary: each value corresponds to exactly one 4-byte
//! little-endian status code. Byte 0 is the variant discriminant; bytes 1 to 3
//! carry the payload of the variant, zero-padded. A code that does not name a
//! canonical value decodes to `DecodingFailed`.

use vstd::prelude::*;

use crate::status::{byte0, byte1, byte2, byte3, code_of_bytes};
use crate::status::{lemma_bytes_code_roundtrip, lemma_code_bytes_roundtrip};
use crate::status::{pack_bytes, split_byte0, split_byte1, split_byte2, split_byte3};
use crate::error::{ModuleErrorCodec, ToStatusCode};
use crate::text::{byte_text, spec_byte_text};
use vstd::string::StringExecFns;

verus! {

/// An error scoped to a single token (fungible asset) operation.
#[derive(Clone, Copy, Debug, PartialEq, Eq, Structural)]
pub enum TokenError {
    /// Funds are unavailable.
    FundsUnavailable,
    /// Some part of the balance gives the only provider reference to the
    /// account and thus cannot be moved.
    OnlyProvider,
    /// The balance is too low to continue with the operation.
    BelowMinimum,
    /// The account cannot be created.
    CannotCreate,
    /// The asset in question is unknown.
    UnknownAsset,
    /// Funds exist but are frozen.
    Frozen,
    /// The operation is not supported by the asset.
    Unsupported,
    /// The account cannot be created for a held balance.
    CannotCreateHold,
    /// Withdrawal would cause an unwanted loss of the account.
    NotExpendable,
    /// The account cannot receive the asset.
    Blocked,
}

impl TokenError {
    /// Discriminant byte of this variant in the wire format.
    pub open spec fn spec_index(self) -> u8 {
        match self {
            TokenError::FundsUnavailable => 0,
            TokenError::OnlyProvider => 1,
            TokenError::BelowMinimum => 2,
            TokenError::CannotCreate => 3,
            TokenError::UnknownAsset => 4,
            TokenError::Frozen => 5,
            TokenError::Unsupported => 6,
            TokenError::CannotCreateHold => 7,
            TokenError::NotExpendable => 8,
            TokenError::Blocked => 9,
        }
    }

    /// The variant whose discriminant byte is `index`, if any.
    pub open spec fn spec_from_index(index: u8) -> Option<TokenError> {
        if index == 0 {
            Some(TokenError::FundsUnavailable)
        } else if index == 1 {
            Some(TokenError::OnlyProvider)
        } else if index == 2 {
            Some(TokenError::BelowMinimum)
        } else if index == 3 {
            Some(TokenError::CannotCreate)
        } else if index == 4 {
            Some(TokenError::UnknownAsset)
        } else if index == 5 {
            Some(TokenError::Frozen)
        } else if index == 6 {
            Some(TokenError::Unsupported)
        } else if index == 7 {
            Some(TokenError::CannotCreateHold)
        } else if index == 8 {
            Some(TokenError::NotExpendable)
        } else if index == 9 {
            Some(TokenError::Blocked)
        } else {
            None
        }
    }

    /// Computes the discriminant byte of this variant.
    pub fn index(&self) -> (index: u8)
        ensures
            index == self.spec_index(),
    {
        match self {
            TokenError::FundsUnavailable => 0,
            TokenError::OnlyProvider => 1,
            TokenError::BelowMinimum => 2,
            TokenError::CannotCreate => 3,
            TokenError::UnknownAsset => 4,
            TokenError::Frozen => 5,
            TokenError::Unsupported => 6,
            TokenError::CannotCreateHold => 7,
            TokenError::NotExpendable => 8,
            TokenError::Blocked => 9,
        }
    }

    /// Recovers the variant with discriminant byte `index`, if any.
    pub fn from_index(index: u8) -> (r: Option<TokenError>)
        ensures
            r == TokenError::spec_from_index(index),
    {
        match index {
            0 => Some(TokenError::FundsUnavailable),
            1 => Some(TokenError::OnlyProvider),
            2 => Some(TokenError::BelowMinimum),
            3 => Some(TokenError::CannotCreate),
            4 => Some(TokenError::UnknownAsset),
            5 => Some(TokenError::Frozen),
            6 => Some(TokenError::Unsupported),
            7 => Some(TokenError::CannotCreateHold),
            8 => Some(TokenError::NotExpendable),
            9 => Some(TokenError::Blocked),
            _ => None,
        }
    }

    /// The variant's name.
    pub open spec fn spec_name(self) -> Seq<char> {
        match self {
            TokenError::FundsUnavailable => "FundsUnavailable"@,
            TokenError::OnlyProvider => "OnlyProvider"@,
            TokenError::BelowMinimum => "BelowMinimum"@,
            TokenError::CannotCreate => "CannotCreate"@,
            TokenError::UnknownAsset => "UnknownAsset"@,
            TokenError::Frozen => "Frozen"@,
            TokenError::Unsupported => "Unsupported"@,
            TokenError::CannotCreateHold => "CannotCreateHold"@,
            TokenError::NotExpendable => "NotExpendable"@,
            TokenError::Blocked => "Blocked"@,
        }
    }

    /// Renders the variant's name.
    pub fn name(&self) -> (r: &'static str)
        ensures
            r@ == self.spec_name(),
    {
        match self {
            TokenError::FundsUnavailable => "FundsUnavailable",
            TokenError::OnlyProvider => "OnlyProvider",
            TokenError::BelowMinimum => "BelowMinimum",
            TokenError::CannotCreate => "CannotCreate",
            TokenError::UnknownAsset => "UnknownAsset",
            TokenError::Frozen => "Frozen",
            TokenError::Unsupported => "Unsupported",
            TokenError::CannotCreateHold => "CannotCreateHold",
            TokenError::NotExpendable => "NotExpendable",
            TokenError::Blocked => "Blocked",
        }
    }
}

/// An error arising from arithmetic inside the runtime.
#[derive(Clone, Copy, Debug, PartialEq, Eq, Structural)]
pub enum ArithmeticError {
    /// Underflow.
    Underflow,
    /// Overflow.
    Overflow,
    /// Division by zero.
    DivisionByZero,
}

impl ArithmeticError {
    /// Discriminant byte of this variant in the wire format.
    pub open spec fn spec_index(self) -> u8 {
        match self {
            ArithmeticError::Underflow => 0,
            ArithmeticError::Overflow => 1,
            ArithmeticError::DivisionByZero => 2,
        }
    }

    /// The variant whose discriminant byte is `index`, if any.
    pub open spec fn spec_from_index(index: u8) -> Option<ArithmeticError> {
        if index == 0 {
            Some(ArithmeticError::Underflow)
        } else if index == 1 {
            Some(ArithmeticError::Overflow)
        } else if index == 2 {
            Some(ArithmeticError::DivisionByZero)
        } else {
            None
        }
    }

    /// Computes the discriminant byte of this variant.
    pub fn index(&self) -> (index: u8)
        ensures
            index == self.spec_index(),
    {
        match self {
            ArithmeticError::Underflow => 0,
            ArithmeticError::Overflow => 1,
            ArithmeticError::DivisionByZero => 2,
        }
    }

    /// Recovers the variant with discriminant byte `index`, if any.
    pub fn from_index(index: u8) -> (r: Option<ArithmeticError>)
        ensures
            r == ArithmeticError::spec_from_index(index),
    {
        match index {
            0 => Some(ArithmeticError::Underflow),
            1 => Some(ArithmeticError::Overflow),
            2 => Some(ArithmeticError::DivisionByZero),
            _ => None,
        }
    }

    /// The variant's name.
    pub open spec fn spec_name(self) -> Seq<char> {
        match self {
            ArithmeticError::Underflow => "Underflow"@,
            ArithmeticError::Overflow => "Overflow"@,
            ArithmeticError::DivisionByZero => "DivisionByZero"@,
        }
    }

    /// Renders the variant's name.
    pub fn name(&self) -> (r: &'static str)
        ensures
            r@ == self.spec_name(),
    {
        match self {
            ArithmeticError::Underflow => "Underflow",
            ArithmeticError::Overflow => "Overflow",
            ArithmeticError::DivisionByZero => "DivisionByZero",
        }
    }
}

/// An error arising from the transactional storage layer.
#[derive(Clone, Copy, Debug, PartialEq, Eq, Structural)]
pub enum TransactionalError {
    /// Too many transactional layers have been spawned.
    LimitReached,
    /// A transactional layer was expected but does not exist.
    NoLayer,
}

impl TransactionalError {
    /// Discriminant byte of this variant in the wire format.
    pub open spec fn spec_index(self) -> u8 {
        match self {
            TransactionalError::LimitReached => 0,
            TransactionalError::NoLayer => 1,
        }
    }

    /// The variant whose discriminant byte is `index`, if any.
    pub open spec fn spec_from_index(index: u8) -> Option<TransactionalError> {
        if index == 0 {
            Some(TransactionalError::LimitReached)
        } else if index == 1 {
            Some(TransactionalError::NoLayer)
        } else {
            None
        }
    }

    /// Computes the discriminant byte of this variant.
    pub fn index(&self) -> (index: u8)
        ensures
            index == self.spec_index(),
    {
        match self {
            TransactionalError::LimitReached => 0,
            TransactionalError::NoLayer => 1,
        }
    }

    /// Recovers the variant with discriminant byte `index`, if any.
    pub fn from_index(index: u8) -> (r: Option<TransactionalError>)
        ensures
            r == TransactionalError::spec_from_index(index),
    {
        match index {
            0 => Some(TransactionalError::LimitReached),
            1 => Some(TransactionalError::NoLayer),
            _ => None,
        }
    }

    /// The variant's name.
    pub open spec fn spec_name(self) -> Seq<char> {
        match self {
            TransactionalError::LimitReached => "LimitReached"@,
            TransactionalError::NoLayer => "NoLayer"@,
        }
    }

    /// Renders the variant's name.
    pub fn name(&self) -> (r: &'static str)
        ensures
            r@ == self.spec_name(),
    {
        match self {
            TransactionalError::LimitReached => "LimitReached",
            TransactionalError::NoLayer => "NoLayer",
        }
    }
}

/// The top-level error taxonomy for API generation zero.
///
/// Its numeric format is the 4-byte status code described in [`crate::status`]:
/// byte 0 is the variant discriminant given by [`ApiError::spec_discriminant`],
/// bytes 1 to 3 are the variant payload, zero-padded.
#[derive(Clone, Copy, Debug, PartialEq, Eq)]
pub enum ApiError {
    /// An error not covered by any more specific variant.
    Other,
    /// Failed to look up some data.
    CannotLookup,
    /// A bad origin.
    BadOrigin,
    /// An error scoped to a runtime module: byte 1 is the module index, bytes
    /// 2 and 3 are the module-specific sub-error payload.
    Module { index: u8, error: [u8; 2] },
    /// At least one consumer is remaining so the account cannot be destroyed.
    ConsumerRemaining,
    /// There are no providers so the account cannot be created.
    NoProviders,
    /// There are too many consumers so the account cannot be created.
    TooManyConsumers,
    /// An error to do with tokens.
    Token(TokenError),
    /// An arithmetic error.
    Arithmetic(ArithmeticError),
    /// An error with the transactional storage layer.
    Transactional(TransactionalError),
    /// Resources exhausted.
    Exhausted,
    /// The state is corrupt.
    Corruption,
    /// A resource is unavailable.
    Unavailable,
    /// Root origin is not allowed.
    RootNotAllowed,
    /// An unknown call was made.
    UnknownCall,
    /// A status code could not be decoded into a canonical value.
    DecodingFailed,
}

/// Discriminant byte of the module-scoped variant of the taxonomy. A status
/// code whose byte 0 holds this value carries a module error in bytes 1 to 3.
pub const MODULE_ERROR_DISCRIMINANT: u8 = 3;

impl ApiError {
    /// Discriminant byte (byte 0 of the status code) of this variant.
    pub open spec fn spec_discriminant(self) -> u8 {
        match self {
            ApiError::Other => 0,
            ApiError::CannotLookup => 1,
            ApiError::BadOrigin => 2,
            ApiError::Module { .. } => 3,
            ApiError::ConsumerRemaining => 4,
            ApiError::NoProviders => 5,
            ApiError::TooManyConsumers => 6,
            ApiError::Token(_) => 7,
            ApiError::Arithmetic(_) => 8,
            ApiError::Transactional(_) => 9,
            ApiError::Exhausted => 10,
            ApiError::Corruption => 11,
            ApiError::Unavailable => 12,
            ApiError::RootNotAllowed => 13,
            ApiError::UnknownCall => 254,
            ApiError::DecodingFailed => 255,
        }
    }

    /// Payload bytes (bytes 1 to 3 of the status code) of this variant.
    pub open spec fn spec_payload(self) -> (u8, u8, u8) {
        match self {
            ApiError::Module { index, error } => (index, error[0], error[1]),
            ApiError::Token(t) => (t.spec_index(), 0, 0),
            ApiError::Arithmetic(a) => (a.spec_index(), 0, 0),
            ApiError::Transactional(t) => (t.spec_index(), 0, 0),
            _ => (0, 0, 0),
        }
    }

    /// The status code of this value: its discriminant and payload bytes,
    /// packed little-endian.
    pub open spec fn spec_code(self) -> u32 {
        code_of_bytes(
            self.spec_discriminant(),
            self.spec_payload().0,
            self.spec_payload().1,
            self.spec_payload().2,
        )
    }

    /// The canonical value decoded from the bytes of a status code. Byte
    /// combinations outside the canonical range decode to `DecodingFailed`.
    pub open spec fn spec_from_bytes(b0: u8, b1: u8, b2: u8, b3: u8) -> ApiError {
        if b0 == 3 {
            ApiError::Module { index: b1, error: [b2, b3] }
        } else if b0 == 7 && b2 == 0 && b3 == 0 && TokenError::spec_from_index(b1) is Some {
            ApiError::Token(TokenError::spec_from_index(b1)->Some_0)
        } else if b0 == 8 && b2 == 0 && b3 == 0 && ArithmeticError::spec_from_index(b1) is Some {
            ApiError::Arithmetic(ArithmeticError::spec_from_index(b1)->Some_0)
        } else if b0 == 9 && b2 == 0 && b3 == 0 && TransactionalError::spec_from_index(b1)
            is Some {
            ApiError::Transactional(TransactionalError::spec_from_index(b1)->Some_0)
        } else if b1 == 0 && b2 == 0 && b3 == 0 {
            if b0 == 0 {
                ApiError::Other
            } else if b0 == 1 {
                ApiError::CannotLookup
            } else if b0 == 2 {
                ApiError::BadOrigin
            } else if b0 == 4 {
                ApiError::ConsumerRemaining
            } else if b0 == 5 {
                ApiError::NoProviders
            } else if b0 == 6 {
                ApiError::TooManyConsumers
            } else if b0 == 10 {
                ApiError::Exhausted
            } else if b0 == 11 {
                ApiError::Corruption
            } else if b0 == 12 {
                ApiError::Unavailable
            } else if b0 == 13 {
                ApiError::RootNotAllowed
            } else if b0 == 254 {
                ApiError::UnknownCall
            } else {
                ApiError::DecodingFailed
            }
        } else {
            ApiError::DecodingFailed
        }
    }

    /// The canonical value decoded from a status code.
    pub open spec fn spec_from_code(code: u32) -> ApiError {
        ApiError::spec_from_bytes(byte0(code), byte1(code), byte2(code), byte3(code))
    }

    /// Encodes this value as a status code.
    pub fn to_status_code(&self) -> (code: u32)
        ensures
            code == self.spec_code(),
    {
        match self {
            ApiError::Other => pack_bytes(0, 0, 0, 0),
            ApiError::CannotLookup => pack_bytes(1, 0, 0, 0),
            ApiError::BadOrigin => pack_bytes(2, 0, 0, 0),
            ApiError::Module { index, error } => pack_bytes(3, *index, error[0], error[1]),
            ApiError::ConsumerRemaining => pack_bytes(4, 0, 0, 0),
            ApiError::NoProviders => pack_bytes(5, 0, 0, 0),
            ApiError::TooManyConsumers => pack_bytes(6, 0, 0, 0),
            ApiError::Token(t) => pack_bytes(7, t.index(), 0, 0),
            ApiError::Arithmetic(a) => pack_bytes(8, a.index(), 0, 0),
            ApiError::Transactional(t) => pack_bytes(9, t.index(), 0, 0),
            ApiError::Exhausted => pack_bytes(10, 0, 0, 0),
            ApiError::Corruption => pack_bytes(11, 0, 0, 0),
            ApiError::Unavailable => pack_bytes(12, 0, 0, 0),
            ApiError::RootNotAllowed => pack_bytes(13, 0, 0, 0),
            ApiError::UnknownCall => pack_bytes(254, 0, 0, 0),
            ApiError::DecodingFailed => pack_bytes(255, 0, 0, 0),
        }
    }

    /// Decodes a status code into its canonical value.
    pub fn from_status_code(code: u32) -> (r: ApiError)
        ensures
            r == ApiError::spec_from_code(code),
    {
        let b0 = split_byte0(code);
        let b1 = split_byte1(code);
        let b2 = split_byte2(code);
        let b3 = split_byte3(code);
        if b0 == 3 {
            ApiError::Module { index: b1, error: [b2, b3] }
        } else if b0 == 7 && b2 == 0 && b3 == 0 {
            match TokenError::from_index(b1) {
                Some(t) => ApiError::Token(t),
                None => ApiError::DecodingFailed,
            }
        } else if b0 == 8 && b2 == 0 && b3 == 0 {
            match ArithmeticError::from_index(b1) {
                Some(a) => ApiError::Arithmetic(a),
                None => ApiError::DecodingFailed,
            }
        } else if b0 == 9 && b2 == 0 && b3 == 0 {
            match TransactionalError::from_index(b1) {
                Some(t) => ApiError::Transactional(t),
                None => ApiError::DecodingFailed,
            }
        } else if b1 == 0 && b2 == 0 && b3 == 0 {
            if b0 == 0 {
                ApiError::Other
            } else if b0 == 1 {
                ApiError::CannotLookup
            } else if b0 == 2 {
                ApiError::BadOrigin
            } else if b0 == 4 {
                ApiError::ConsumerRemaining
            } else if b0 == 5 {
                ApiError::NoProviders
            } else if b0 == 6 {
                ApiError::TooManyConsumers
            } else if b0 == 10 {
                ApiError::Exhausted
            } else if b0 == 11 {
                ApiError::Corruption
            } else if b0 == 12 {
                ApiError::Unavailable
            } else if b0 == 13 {
                ApiError::RootNotAllowed
            } else if b0 == 254 {
                ApiError::UnknownCall
            } else {
                ApiError::DecodingFailed
            }
        } else {
            ApiError::DecodingFailed
        }
    }

    /// Every value decodes back from its own status code: the taxonomy's
    /// codec loses nothing on canonical values.
    pub proof fn lemma_codec_roundtrip(self)
        ensures
            ApiError::spec_from_code(self.spec_code()) == self,
    {
        let (p1, p2, p3) = self.spec_payload();
        lemma_bytes_code_roundtrip(self.spec_discriminant(), p1, p2, p3);
        if let ApiError::Module { index, error } = self {
            assert([error[0], error[1]] =~= error);
        }
    }

    /// A status code whose byte 0 is the module discriminant always decodes
    /// to the module-scoped variant carrying bytes 1 to 3; any other byte 0
    /// never decodes to it.
    pub proof fn lemma_module_classification(code: u32)
        ensures
            byte0(code) == MODULE_ERROR_DISCRIMINANT ==> ApiError::spec_from_code(code)
                == (ApiError::Module {
                index: byte1(code),
                error: [byte2(code), byte3(code)],
            }),
            byte0(code) != MODULE_ERROR_DISCRIMINANT ==> !(ApiError::spec_from_code(code)
                is Module),
    {
    }

    /// Decoding a status code and re-encoding the result yields the code
    /// back exactly on canonical codes; junk codes collapse to the code of
    /// `DecodingFailed`.
    pub proof fn lemma_decode_encode(code: u32)
        ensures
            ApiError::spec_from_code(code).spec_code() == code || ApiError::spec_from_code(code)
                == ApiError::DecodingFailed,
    {
        lemma_code_bytes_roundtrip(code);
    }

    /// A human-readable rendering of this value.
    pub open spec fn spec_describe(self) -> Seq<char> {
        match self {
            ApiError::Other => "Other"@,
            ApiError::CannotLookup => "CannotLookup"@,
            ApiError::BadOrigin => "BadOrigin"@,
            ApiError::Module { index, error } => "Module { index: "@ + spec_byte_text(index)
                + ", error: ["@ + spec_byte_text(error[0]) + ", "@ + spec_byte_text(error[1])
                + "] }"@,
            ApiError::ConsumerRemaining => "ConsumerRemaining"@,
            ApiError::NoProviders => "NoProviders"@,
            ApiError::TooManyConsumers => "TooManyConsumers"@,
            ApiError::Token(t) => "Token("@ + t.spec_name() + ")"@,
            ApiError::Arithmetic(a) => "Arithmetic("@ + a.spec_name() + ")"@,
            ApiError::Transactional(t) => "Transactional("@ + t.spec_name() + ")"@,
            ApiError::Exhausted => "Exhausted"@,
            ApiError::Corruption => "Corruption"@,
            ApiError::Unavailable => "Unavailable"@,
            ApiError::RootNotAllowed => "RootNotAllowed"@,
            ApiError::UnknownCall => "UnknownCall"@,
            ApiError::DecodingFailed => "DecodingFailed"@,
        }
    }

    /// Renders this value for diagnostics.
    pub fn describe(&self) -> (r: String)
        ensures
            r@ == self.spec_describe(),
    {
        match self {
            ApiError::Other => String::from_str("Other"),
            ApiError::CannotLookup => String::from_str("CannotLookup"),
            ApiError::BadOrigin => String::from_str("BadOrigin"),
            ApiError::Module { index, error } => String::from_str("Module { index: ").concat(
                byte_text(*index).as_str(),
            ).concat(", error: [").concat(byte_text(error[0]).as_str()).concat(", ").concat(
                byte_text(error[1]).as_str(),
            ).concat("] }"),
            ApiError::ConsumerRemaining => String::from_str("ConsumerRemaining"),
            ApiError::NoProviders => String::from_str("NoProviders"),
            ApiError::TooManyConsumers => String::from_str("TooManyConsumers"),
            ApiError::Token(t) => String::from_str("Token(").concat(t.name()).concat(")"),
            ApiError::Arithmetic(a) => String::from_str("Arithmetic(").concat(a.name()).concat(
                ")",
            ),
            ApiError::Transactional(t) => String::from_str("Transactional(").concat(
                t.name(),
            ).concat(")"),
            ApiError::Exhausted => String::from_str("Exhausted"),
            ApiError::Corruption => String::from_str("Corruption"),
            ApiError::Unavailable => String::from_str("Unavailable"),
            ApiError::RootNotAllowed => String::from_str("RootNotAllowed"),
            ApiError::UnknownCall => String::from_str("UnknownCall"),
            ApiError::DecodingFailed => String::from_str("DecodingFailed"),
        }
    }
}

impl crate::error::ToStatusCode for ApiError {
    open spec fn spec_status_code(self) -> u32 {
        self.spec_code()
    }

    fn status_code(&self) -> u32 {
        self.to_status_code()
    }
}

/// A structured error over the generation-zero taxonomy, with the module arm
/// first: either a module-scoped error of type `E` or a raw top-level error.
///
/// Unlike [`crate::error::Error`], the module-variant discriminant is fixed to
/// [`MODULE_ERROR_DISCRIMINANT`], the value the generation-zero taxonomy
/// itself assigns to its module arm.
#[derive(Debug)]
pub enum RuntimeError<E> {
    /// An error originating from a runtime module.
    Module(E),
    /// An error not related to any specific module.
    Raw(ApiError),
}

impl<E: ModuleErrorCodec> RuntimeError<E> {
    /// The status code of this error: a module error is laid out as the
    /// module discriminant followed by its module index and payload bytes; a
    /// raw error keeps the code the taxonomy assigns it.
    pub open spec fn spec_code(self) -> u32 {
        match self {
            RuntimeError::Module(m) => code_of_bytes(
                MODULE_ERROR_DISCRIMINANT,
                m.spec_index(),
                m.spec_payload().0,
                m.spec_payload().1,
            ),
            RuntimeError::Raw(e) => e.spec_code(),
        }
    }

    /// The structured error decoded from a status code: codes carrying the
    /// taxonomy's module arm are decoded as module errors (`None` if the
    /// payload names no value of `E`), all others are wrapped raw.
    pub open spec fn spec_from_code(value: u32) -> Option<RuntimeError<E>> {
        match ApiError::spec_from_code(value) {
            ApiError::Module { index, error } => match E::spec_decode(index, error[0], error[1]) {
                Some(m) => Some(RuntimeError::Module(m)),
                None => None,
            },
            api => Some(RuntimeError::Raw(api)),
        }
    }

    /// Converts this error to its status code.
    pub fn to_status_code(&self) -> (code: u32)
        ensures
            code == self.spec_code(),
    {
        match self {
            RuntimeError::Module(m) => {
                let (index, payload0, payload1) = m.encode();
                pack_bytes(MODULE_ERROR_DISCRIMINANT, index, payload0, payload1)
            },
            RuntimeError::Raw(e) => {
                proof {
                    e.lemma_codec_roundtrip();
                }
                ApiError::from_status_code(e.to_status_code()).to_status_code()
            },
        }
    }

    /// Decodes a status code into a structured error, or `None` if the code
    /// carries a module error that names no value of `E`.
    pub fn try_from_status_code(value: u32) -> (r: Option<RuntimeError<E>>)
        ensures
            r == RuntimeError::<E>::spec_from_code(value),
    {
        match ApiError::from_status_code(value) {
            ApiError::Module { index, error } => match E::decode(index, error[0], error[1]) {
                Some(m) => Some(RuntimeError::Module(m)),
                None => None,
            },
            api => Some(RuntimeError::Raw(api)),
        }
    }

    /// Decodes a status code into a structured error.
    ///
    /// The caller must know the code to be decodable; on codes whose module
    /// payload names no value of `E`, use [`Self::try_from_status_code`].
    pub fn from_status_code(value: u32) -> (r: RuntimeError<E>)
        requires
            RuntimeError::<E>::spec_from_code(value) is Some,
        ensures
            Some(r) == RuntimeError::<E>::spec_from_code(value),
    {
        RuntimeError::<E>::try_from_status_code(value).unwrap()
    }

    /// A human-readable rendering of this error.
    pub open spec fn spec_describe(self) -> Seq<char> {
        match self {
            RuntimeError::Module(m) => "Module("@ + m.spec_describe() + ")"@,
            RuntimeError::Raw(e) => "Raw("@ + e.spec_describe() + ")"@,
        }
    }

    /// Renders this error for diagnostics.
    pub fn describe(&self) -> (r: String)
        ensures
            r@ == self.spec_describe(),
    {
        match self {
            RuntimeError::Module(m) => String::from_str("Module(").concat(
                m.describe().as_str(),
            ).concat(")"),
            RuntimeError::Raw(e) => String::from_str("Raw(").concat(e.describe().as_str()).concat(
                ")",
            ),
        }
    }

    /// Round-trip law: any structured error that decodes back from its own
    /// status code decodes to a value that re-encodes to exactly that code.
    pub proof fn lemma_roundtrip(self)
        requires
            RuntimeError::<E>::spec_from_code(self.spec_code()) is Some,
        ensures
            RuntimeError::<E>::spec_from_code(self.spec_code())->Some_0.spec_code()
                == self.spec_code(),
    {
        let code = self.spec_code();
        match self {
            RuntimeError::Module(m) => {
                lemma_bytes_code_roundtrip(
                    MODULE_ERROR_DISCRIMINANT,
                    m.spec_index(),
                    m.spec_payload().0,
                    m.spec_payload().1,
                );
                E::lemma_encode_decode(byte1(code), byte2(code), byte3(code));
            },
            RuntimeError::Raw(e) => {
                e.lemma_codec_roundtrip();
                if byte0(code) == MODULE_ERROR_DISCRIMINANT {
                    E::lemma_encode_decode(byte1(code), byte2(code), byte3(code));
                    lemma_code_bytes_roundtrip(code);
                }
            },
        }
    }

    /// Classification law: a status code whose byte 0 is the module
    /// discriminant never decodes raw; any other byte 0 always decodes raw.
    pub proof fn lemma_classification(value: u32)
        ensures
            byte0(value) == MODULE_ERROR_DISCRIMINANT ==> match RuntimeError::<E>::spec_from_code(
                value,
            ) {
                Some(e) => e matches RuntimeError::Module(m) && Some(m) == E::spec_decode(
                    byte1(value),
                    byte2(value),
                    byte3(value),
                ),
                None => E::spec_decode(byte1(value), byte2(value), byte3(value)) is None,
            },
            byte0(value) != MODULE_ERROR_DISCRIMINANT ==> RuntimeError::<E>::spec_from_code(value)
                == Some(RuntimeError::<E>::Raw(ApiError::spec_from_code(value))),
    {
        ApiError::lemma_module_classification(value);
    }
}

/// Compares a result against an expected generation-zero runtime error by
/// status code, returning `None` on a match and the two-line left/right
/// diagnostic on a mismatch.
pub fn assert_runtime_err_inner<R, E: ToStatusCode, M: ModuleErrorCodec>(
    result: Result<R, E>,
    expected_error: RuntimeError<M>,
) -> (r: Option<String>)
    requires
        RuntimeError::<M>::spec_from_code(expected_error.spec_code()) is Some,
        match result {
            Result::Err(e) => e.spec_status_code() != expected_error.spec_code()
                ==> RuntimeError::<M>::spec_from_code(e.spec_status_code()) is Some,
            Result::Ok(_) => true,
        },
    ensures
        match result {
            Result::Err(e) => if e.spec_status_code() == expected_error.spec_code() {
                r is None
            } else {
                r matches Some(msg) && msg@ == crate::macros::spec_assert_message(
                    RuntimeError::<M>::spec_from_code(
                        e.spec_status_code(),
                    )->Some_0.spec_describe(),
                    RuntimeError::<M>::spec_from_code(
                        expected_error.spec_code(),
                    )->Some_0.spec_describe(),
                )
            },
            Result::Ok(_) => r matches Some(msg) && msg@ == crate::macros::spec_assert_message(
                "Ok()"@,
                RuntimeError::<M>::spec_from_code(
                    expected_error.spec_code(),
                )->Some_0.spec_describe(),
            ),
        },
{
    crate::errors::assert_runtime_err_inner(result, expected_error)
}

} // verus!
