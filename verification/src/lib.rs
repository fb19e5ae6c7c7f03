//! An in-memory harness for exercising contract-style runtime logic without a
//! live node: a sandboxed world state driven through block lifecycles with
//! transactional dry runs, plus a status-code error taxonomy and assertion
//! helpers for test authors.

pub mod api;
pub mod assets;
pub mod balances;
pub mod cli;
pub mod error;
pub mod errors;
pub mod externalities;
pub mod macros;
pub mod nfts;
pub mod runtime;
pub mod sandbox;
pub mod session;
pub mod state;
pub mod status;
pub mod system;
pub mod text;

use vstd::prelude::*;

verus! {

/// Account identifier used by the sandboxed runtime.
pub type AccountId = u64;

/// Balance type used by the sandboxed runtime.
pub type Balance = u128;

/// Asset identifier type used by the sandboxed runtime.
pub type AssetId = u32;

/// Block number type used by the sandboxed runtime.
pub type BlockNumber = u64;

/// Timestamp type (seconds) used by the sandboxed runtime.
pub type Moment = u64;

/// Digest type for block and state hashes.
pub type BlockHash = u64;

/// The account identifier encoded in the first bytes of a 32-byte account
/// representation, read little-endian.
pub open spec fn spec_account_id_of_slice(s: Seq<u8>) -> AccountId {
    (s[0] as u64) | ((s[1] as u64) << 8) | ((s[2] as u64) << 16) | ((s[3] as u64) << 24) | ((
    s[4] as u64) << 32) | ((s[5] as u64) << 40) | ((s[6] as u64) << 48) | ((s[7] as u64) << 56)
}

/// Resolves a 32-byte account representation, as used by environments with
/// wider account types, into this runtime's account identifier: the first
/// eight bytes, read little-endian.
pub fn account_id_from_slice(s: &[u8; 32]) -> (r: AccountId)
    ensures
        r == spec_account_id_of_slice(s@),
{
    (s[0] as u64) | ((s[1] as u64) << 8) | ((s[2] as u64) << 16) | ((s[3] as u64) << 24) | ((
    s[4] as u64) << 32) | ((s[5] as u64) << 40) | ((s[6] as u64) << 48) | ((s[7] as u64) << 56)
}

/// The authorization origin a call is dispatched with.
#[derive(Clone, Copy, Debug, PartialEq, Eq, Structural)]
pub enum Origin {
    /// The call carries root authority.
    Root,
    /// The call is signed by an account.
    Signed(AccountId),
    /// The call carries no authority.
    Unsigned,
}

} // verus!
