//! The sandboxed runtime's configuration: the modules it is assembled from,
//! their indices, and their module-error tables.
//!
//! The runtime is an explicit configuration rather than generated wiring: the
//! module set is closed and each module has a fixed index, which is also the
//! index byte carried by module-scoped status codes.

use vstd::prelude::*;
use vstd::string::StringExecFns;

use crate::error::ModuleErrorCodec;

verus! {

/// The error type dispatched runtime operations fail with: the sandboxed
/// runtime reports dispatch failures in the same shape the status-code
/// taxonomy uses, module-scoped errors carried in its module arm.
pub type DispatchError = crate::errors::v0::ApiError;

/// Index of the system module in the runtime.
pub const SYSTEM_MODULE_INDEX: u8 = 0;

/// Index of the assets module in the runtime.
pub const ASSETS_MODULE_INDEX: u8 = 1;

/// Index of the balances module in the runtime.
pub const BALANCES_MODULE_INDEX: u8 = 2;

/// Index of the timestamp module in the runtime.
pub const TIMESTAMP_MODULE_INDEX: u8 = 3;

/// Index of the contracts module in the runtime.
pub const CONTRACTS_MODULE_INDEX: u8 = 4;

/// Index of the non-fungibles module in the runtime.
pub const NFTS_MODULE_INDEX: u8 = 5;

/// Errors of the assets module.
#[derive(Clone, Copy, Debug, PartialEq, Eq, Structural)]
pub enum AssetsError {
    /// The account balance is too low.
    BalanceLow,
    /// The account to alter does not exist.
    NoAccount,
    /// The signing account has no permission to do the operation.
    NoPermission,
    /// The given asset ID is unknown.
    Unknown,
    /// The origin account is frozen.
    Frozen,
    /// The asset ID is already taken.
    InUse,
    /// Invalid witness data given.
    BadWitness,
    /// Minimum balance should be non-zero.
    MinBalanceZero,
    /// Unable to increment the consumer reference counter on the account.
    UnavailableConsumer,
    /// Invalid metadata given.
    BadMetadata,
    /// No approval exists that would allow the transfer.
    Unapproved,
    /// The source account would not survive the transfer.
    WouldDie,
    /// The asset-account already exists.
    AlreadyExists,
    /// The asset-account does not have an associated deposit.
    NoDeposit,
    /// The operation would result in funds being burned.
    WouldBurn,
    /// The asset is a live asset and is actively being used.
    LiveAsset,
    /// The asset is not live, and likely being destroyed.
    AssetNotLive,
    /// The asset status is not the expected status.
    IncorrectStatus,
    /// The asset should be frozen before the given operation.
    NotFrozen,
}

impl AssetsError {
    /// Sub-error index of this variant in the module-error table.
    pub open spec fn spec_index(self) -> u8 {
        match self {
            AssetsError::BalanceLow => 0,
            AssetsError::NoAccount => 1,
            AssetsError::NoPermission => 2,
            AssetsError::Unknown => 3,
            AssetsError::Frozen => 4,
            AssetsError::InUse => 5,
            AssetsError::BadWitness => 6,
            AssetsError::MinBalanceZero => 7,
            AssetsError::UnavailableConsumer => 8,
            AssetsError::BadMetadata => 9,
            AssetsError::Unapproved => 10,
            AssetsError::WouldDie => 11,
            AssetsError::AlreadyExists => 12,
            AssetsError::NoDeposit => 13,
            AssetsError::WouldBurn => 14,
            AssetsError::LiveAsset => 15,
            AssetsError::AssetNotLive => 16,
            AssetsError::IncorrectStatus => 17,
            AssetsError::NotFrozen => 18,
        }
    }

    /// The variant whose sub-error index is `index`, if any.
    pub open spec fn spec_from_index(index: u8) -> Option<AssetsError> {
        if index == 0 {
            Some(AssetsError::BalanceLow)
        } else if index == 1 {
            Some(AssetsError::NoAccount)
        } else if index == 2 {
            Some(AssetsError::NoPermission)
        } else if index == 3 {
            Some(AssetsError::Unknown)
        } else if index == 4 {
            Some(AssetsError::Frozen)
        } else if index == 5 {
            Some(AssetsError::InUse)
        } else if index == 6 {
            Some(AssetsError::BadWitness)
        } else if index == 7 {
            Some(AssetsError::MinBalanceZero)
        } else if index == 8 {
            Some(AssetsError::UnavailableConsumer)
        } else if index == 9 {
            Some(AssetsError::BadMetadata)
        } else if index == 10 {
            Some(AssetsError::Unapproved)
        } else if index == 11 {
            Some(AssetsError::WouldDie)
        } else if index == 12 {
            Some(AssetsError::AlreadyExists)
        } else if index == 13 {
            Some(AssetsError::NoDeposit)
        } else if index == 14 {
            Some(AssetsError::WouldBurn)
        } else if index == 15 {
            Some(AssetsError::LiveAsset)
        } else if index == 16 {
            Some(AssetsError::AssetNotLive)
        } else if index == 17 {
            Some(AssetsError::IncorrectStatus)
        } else if index == 18 {
            Some(AssetsError::NotFrozen)
        } else {
            None
        }
    }

    /// Computes the sub-error index of this variant.
    pub fn index(&self) -> (index: u8)
        ensures
            index == self.spec_index(),
    {
        match self {
            AssetsError::BalanceLow => 0,
            AssetsError::NoAccount => 1,
            AssetsError::NoPermission => 2,
            AssetsError::Unknown => 3,
            AssetsError::Frozen => 4,
            AssetsError::InUse => 5,
            AssetsError::BadWitness => 6,
            AssetsError::MinBalanceZero => 7,
            AssetsError::UnavailableConsumer => 8,
            AssetsError::BadMetadata => 9,
            AssetsError::Unapproved => 10,
            AssetsError::WouldDie => 11,
            AssetsError::AlreadyExists => 12,
            AssetsError::NoDeposit => 13,
            AssetsError::WouldBurn => 14,
            AssetsError::LiveAsset => 15,
            AssetsError::AssetNotLive => 16,
            AssetsError::IncorrectStatus => 17,
            AssetsError::NotFrozen => 18,
        }
    }

    /// Recovers the variant with sub-error index `index`, if any.
    pub fn from_index(index: u8) -> (r: Option<AssetsError>)
        ensures
            r == AssetsError::spec_from_index(index),
    {
        match index {
            0 => Some(AssetsError::BalanceLow),
            1 => Some(AssetsError::NoAccount),
            2 => Some(AssetsError::NoPermission),
            3 => Some(AssetsError::Unknown),
            4 => Some(AssetsError::Frozen),
            5 => Some(AssetsError::InUse),
            6 => Some(AssetsError::BadWitness),
            7 => Some(AssetsError::MinBalanceZero),
            8 => Some(AssetsError::UnavailableConsumer),
            9 => Some(AssetsError::BadMetadata),
            10 => Some(AssetsError::Unapproved),
            11 => Some(AssetsError::WouldDie),
            12 => Some(AssetsError::AlreadyExists),
            13 => Some(AssetsError::NoDeposit),
            14 => Some(AssetsError::WouldBurn),
            15 => Some(AssetsError::LiveAsset),
            16 => Some(AssetsError::AssetNotLive),
            17 => Some(AssetsError::IncorrectStatus),
            18 => Some(AssetsError::NotFrozen),
            _ => None,
        }
    }

    /// The variant's name.
    pub open spec fn spec_name(self) -> Seq<char> {
        match self {
            AssetsError::BalanceLow => "BalanceLow"@,
            AssetsError::NoAccount => "NoAccount"@,
            AssetsError::NoPermission => "NoPermission"@,
            AssetsError::Unknown => "Unknown"@,
            AssetsError::Frozen => "Frozen"@,
            AssetsError::InUse => "InUse"@,
            AssetsError::BadWitness => "BadWitness"@,
            AssetsError::MinBalanceZero => "MinBalanceZero"@,
            AssetsError::UnavailableConsumer => "UnavailableConsumer"@,
            AssetsError::BadMetadata => "BadMetadata"@,
            AssetsError::Unapproved => "Unapproved"@,
            AssetsError::WouldDie => "WouldDie"@,
            AssetsError::AlreadyExists => "AlreadyExists"@,
            AssetsError::NoDeposit => "NoDeposit"@,
            AssetsError::WouldBurn => "WouldBurn"@,
            AssetsError::LiveAsset => "LiveAsset"@,
            AssetsError::AssetNotLive => "AssetNotLive"@,
            AssetsError::IncorrectStatus => "IncorrectStatus"@,
            AssetsError::NotFrozen => "NotFrozen"@,
        }
    }

    /// Renders the variant's name.
    pub fn name(&self) -> (r: &'static str)
        ensures
            r@ == self.spec_name(),
    {
        match self {
            AssetsError::BalanceLow => "BalanceLow",
            AssetsError::NoAccount => "NoAccount",
            AssetsError::NoPermission => "NoPermission",
            AssetsError::Unknown => "Unknown",
            AssetsError::Frozen => "Frozen",
            AssetsError::InUse => "InUse",
            AssetsError::BadWitness => "BadWitness",
            AssetsError::MinBalanceZero => "MinBalanceZero",
            AssetsError::UnavailableConsumer => "UnavailableConsumer",
            AssetsError::BadMetadata => "BadMetadata",
            AssetsError::Unapproved => "Unapproved",
            AssetsError::WouldDie => "WouldDie",
            AssetsError::AlreadyExists => "AlreadyExists",
            AssetsError::NoDeposit => "NoDeposit",
            AssetsError::WouldBurn => "WouldBurn",
            AssetsError::LiveAsset => "LiveAsset",
            AssetsError::AssetNotLive => "AssetNotLive",
            AssetsError::IncorrectStatus => "IncorrectStatus",
            AssetsError::NotFrozen => "NotFrozen",
        }
    }
}

/// Errors of the balances module.
#[derive(Clone, Copy, Debug, PartialEq, Eq, Structural)]
pub enum BalancesError {
    /// The vesting balance is too high to send the value.
    VestingBalance,
    /// The account liquidity restrictions prevent withdrawal.
    LiquidityRestrictions,
    /// The balance is too low.
    InsufficientBalance,
    /// The value amount is below the existential deposit.
    ExistentialDeposit,
    /// The transfer or reserve would kill the origin account.
    Expendability,
    /// A vesting schedule already exists for the account.
    ExistingVestingSchedule,
    /// The beneficiary account must pre-exist.
    DeadAccount,
    /// The number of named reserves exceeds the limit.
    TooManyReserves,
}

impl BalancesError {
    /// Sub-error index of this variant in the module-error table.
    pub open spec fn spec_index(self) -> u8 {
        match self {
            BalancesError::VestingBalance => 0,
            BalancesError::LiquidityRestrictions => 1,
            BalancesError::InsufficientBalance => 2,
            BalancesError::ExistentialDeposit => 3,
            BalancesError::Expendability => 4,
            BalancesError::ExistingVestingSchedule => 5,
            BalancesError::DeadAccount => 6,
            BalancesError::TooManyReserves => 7,
        }
    }

    /// The variant whose sub-error index is `index`, if any.
    pub open spec fn spec_from_index(index: u8) -> Option<BalancesError> {
        if index == 0 {
            Some(BalancesError::VestingBalance)
        } else if index == 1 {
            Some(BalancesError::LiquidityRestrictions)
        } else if index == 2 {
            Some(BalancesError::InsufficientBalance)
        } else if index == 3 {
            Some(BalancesError::ExistentialDeposit)
        } else if index == 4 {
            Some(BalancesError::Expendability)
        } else if index == 5 {
            Some(BalancesError::ExistingVestingSchedule)
        } else if index == 6 {
            Some(BalancesError::DeadAccount)
        } else if index == 7 {
            Some(BalancesError::TooManyReserves)
        } else {
            None
        }
    }

    /// Computes the sub-error index of this variant.
    pub fn index(&self) -> (index: u8)
        ensures
            index == self.spec_index(),
    {
        match self {
            BalancesError::VestingBalance => 0,
            BalancesError::LiquidityRestrictions => 1,
            BalancesError::InsufficientBalance => 2,
            BalancesError::ExistentialDeposit => 3,
            BalancesError::Expendability => 4,
            BalancesError::ExistingVestingSchedule => 5,
            BalancesError::DeadAccount => 6,
            BalancesError::TooManyReserves => 7,
        }
    }

    /// Recovers the variant with sub-error index `index`, if any.
    pub fn from_index(index: u8) -> (r: Option<BalancesError>)
        ensures
            r == BalancesError::spec_from_index(index),
    {
        match index {
            0 => Some(BalancesError::VestingBalance),
            1 => Some(BalancesError::LiquidityRestrictions),
            2 => Some(BalancesError::InsufficientBalance),
            3 => Some(BalancesError::ExistentialDeposit),
            4 => Some(BalancesError::Expendability),
            5 => Some(BalancesError::ExistingVestingSchedule),
            6 => Some(BalancesError::DeadAccount),
            7 => Some(BalancesError::TooManyReserves),
            _ => None,
        }
    }

    /// The variant's name.
    pub open spec fn spec_name(self) -> Seq<char> {
        match self {
            BalancesError::VestingBalance => "VestingBalance"@,
            BalancesError::LiquidityRestrictions => "LiquidityRestrictions"@,
            BalancesError::InsufficientBalance => "InsufficientBalance"@,
            BalancesError::ExistentialDeposit => "ExistentialDeposit"@,
            BalancesError::Expendability => "Expendability"@,
            BalancesError::ExistingVestingSchedule => "ExistingVestingSchedule"@,
            BalancesError::DeadAccount => "DeadAccount"@,
            BalancesError::TooManyReserves => "TooManyReserves"@,
        }
    }

    /// Renders the variant's name.
    pub fn name(&self) -> (r: &'static str)
        ensures
            r@ == self.spec_name(),
    {
        match self {
            BalancesError::VestingBalance => "VestingBalance",
            BalancesError::LiquidityRestrictions => "LiquidityRestrictions",
            BalancesError::InsufficientBalance => "InsufficientBalance",
            BalancesError::ExistentialDeposit => "ExistentialDeposit",
            BalancesError::Expendability => "Expendability",
            BalancesError::ExistingVestingSchedule => "ExistingVestingSchedule",
            BalancesError::DeadAccount => "DeadAccount",
            BalancesError::TooManyReserves => "TooManyReserves",
        }
    }
}

/// Errors of the contracts module.
#[derive(Clone, Copy, Debug, PartialEq, Eq, Structural)]
pub enum ContractsError {
    /// The executed contract exhausted its gas limit.
    OutOfGas,
    /// Performing the requested transfer failed.
    TransferFailed,
    /// No contract was found at the specified address.
    ContractNotFound,
    /// No code could be found at the supplied code hash.
    CodeNotFound,
    /// The contract trapped during execution.
    ContractTrapped,
    /// The contract ran to completion but decided to revert its storage
    /// changes.
    ContractReverted,
    /// The output buffer supplied to a contract API call was too small.
    OutputBufferTooSmall,
    /// The storage deposit limit was exhausted.
    StorageDepositLimitExhausted,
}

impl ContractsError {
    /// Sub-error index of this variant in the module-error table.
    pub open spec fn spec_index(self) -> u8 {
        match self {
            ContractsError::OutOfGas => 0,
            ContractsError::TransferFailed => 1,
            ContractsError::ContractNotFound => 2,
            ContractsError::CodeNotFound => 3,
            ContractsError::ContractTrapped => 4,
            ContractsError::ContractReverted => 5,
            ContractsError::OutputBufferTooSmall => 6,
            ContractsError::StorageDepositLimitExhausted => 7,
        }
    }

    /// The variant whose sub-error index is `index`, if any.
    pub open spec fn spec_from_index(index: u8) -> Option<ContractsError> {
        if index == 0 {
            Some(ContractsError::OutOfGas)
        } else if index == 1 {
            Some(ContractsError::TransferFailed)
        } else if index == 2 {
            Some(ContractsError::ContractNotFound)
        } else if index == 3 {
            Some(ContractsError::CodeNotFound)
        } else if index == 4 {
            Some(ContractsError::ContractTrapped)
        } else if index == 5 {
            Some(ContractsError::ContractReverted)
        } else if index == 6 {
            Some(ContractsError::OutputBufferTooSmall)
        } else if index == 7 {
            Some(ContractsError::StorageDepositLimitExhausted)
        } else {
            None
        }
    }

    /// Computes the sub-error index of this variant.
    pub fn index(&self) -> (index: u8)
        ensures
            index == self.spec_index(),
    {
        match self {
            ContractsError::OutOfGas => 0,
            ContractsError::TransferFailed => 1,
            ContractsError::ContractNotFound => 2,
            ContractsError::CodeNotFound => 3,
            ContractsError::ContractTrapped => 4,
            ContractsError::ContractReverted => 5,
            ContractsError::OutputBufferTooSmall => 6,
            ContractsError::StorageDepositLimitExhausted => 7,
        }
    }

    /// Recovers the variant with sub-error index `index`, if any.
    pub fn from_index(index: u8) -> (r: Option<ContractsError>)
        ensures
            r == ContractsError::spec_from_index(index),
    {
        match index {
            0 => Some(ContractsError::OutOfGas),
            1 => Some(ContractsError::TransferFailed),
            2 => Some(ContractsError::ContractNotFound),
            3 => Some(ContractsError::CodeNotFound),
            4 => Some(ContractsError::ContractTrapped),
            5 => Some(ContractsError::ContractReverted),
            6 => Some(ContractsError::OutputBufferTooSmall),
            7 => Some(ContractsError::StorageDepositLimitExhausted),
            _ => None,
        }
    }

    /// The variant's name.
    pub open spec fn spec_name(self) -> Seq<char> {
        match self {
            ContractsError::OutOfGas => "OutOfGas"@,
            ContractsError::TransferFailed => "TransferFailed"@,
            ContractsError::ContractNotFound => "ContractNotFound"@,
            ContractsError::CodeNotFound => "CodeNotFound"@,
            ContractsError::ContractTrapped => "ContractTrapped"@,
            ContractsError::ContractReverted => "ContractReverted"@,
            ContractsError::OutputBufferTooSmall => "OutputBufferTooSmall"@,
            ContractsError::StorageDepositLimitExhausted => "StorageDepositLimitExhausted"@,
        }
    }

    /// Renders the variant's name.
    pub fn name(&self) -> (r: &'static str)
        ensures
            r@ == self.spec_name(),
    {
        match self {
            ContractsError::OutOfGas => "OutOfGas",
            ContractsError::TransferFailed => "TransferFailed",
            ContractsError::ContractNotFound => "ContractNotFound",
            ContractsError::CodeNotFound => "CodeNotFound",
            ContractsError::ContractTrapped => "ContractTrapped",
            ContractsError::ContractReverted => "ContractReverted",
            ContractsError::OutputBufferTooSmall => "OutputBufferTooSmall",
            ContractsError::StorageDepositLimitExhausted => "StorageDepositLimitExhausted",
        }
    }
}

/// Errors of the non-fungibles module.
#[derive(Clone, Copy, Debug, PartialEq, Eq, Structural)]
pub enum NftsError {
    /// The signing account has no permission to do the operation.
    NoPermission,
    /// The given collection is unknown.
    UnknownCollection,
    /// The item is already minted.
    AlreadyExists,
    /// The owner turned out to be different to what was expected.
    WrongOwner,
    /// The given item is unknown.
    UnknownItem,
    /// The collection still holds items.
    CollectionNotEmpty,
}

impl NftsError {
    /// Sub-error index of this variant in the module-error table.
    pub open spec fn spec_index(self) -> u8 {
        match self {
            NftsError::NoPermission => 0,
            NftsError::UnknownCollection => 1,
            NftsError::AlreadyExists => 2,
            NftsError::WrongOwner => 3,
            NftsError::UnknownItem => 4,
            NftsError::CollectionNotEmpty => 5,
        }
    }

    /// The variant whose sub-error index is `index`, if any.
    pub open spec fn spec_from_index(index: u8) -> Option<NftsError> {
        if index == 0 {
            Some(NftsError::NoPermission)
        } else if index == 1 {
            Some(NftsError::UnknownCollection)
        } else if index == 2 {
            Some(NftsError::AlreadyExists)
        } else if index == 3 {
            Some(NftsError::WrongOwner)
        } else if index == 4 {
            Some(NftsError::UnknownItem)
        } else if index == 5 {
            Some(NftsError::CollectionNotEmpty)
        } else {
            None
        }
    }

    /// Computes the sub-error index of this variant.
    pub fn index(&self) -> (index: u8)
        ensures
            index == self.spec_index(),
    {
        match self {
            NftsError::NoPermission => 0,
            NftsError::UnknownCollection => 1,
            NftsError::AlreadyExists => 2,
            NftsError::WrongOwner => 3,
            NftsError::UnknownItem => 4,
            NftsError::CollectionNotEmpty => 5,
        }
    }

    /// Recovers the variant with sub-error index `index`, if any.
    pub fn from_index(index: u8) -> (r: Option<NftsError>)
        ensures
            r == NftsError::spec_from_index(index),
    {
        match index {
            0 => Some(NftsError::NoPermission),
            1 => Some(NftsError::UnknownCollection),
            2 => Some(NftsError::AlreadyExists),
            3 => Some(NftsError::WrongOwner),
            4 => Some(NftsError::UnknownItem),
            5 => Some(NftsError::CollectionNotEmpty),
            _ => None,
        }
    }

    /// The variant's name.
    pub open spec fn spec_name(self) -> Seq<char> {
        match self {
            NftsError::NoPermission => "NoPermission"@,
            NftsError::UnknownCollection => "UnknownCollection"@,
            NftsError::AlreadyExists => "AlreadyExists"@,
            NftsError::WrongOwner => "WrongOwner"@,
            NftsError::UnknownItem => "UnknownItem"@,
            NftsError::CollectionNotEmpty => "CollectionNotEmpty"@,
        }
    }

    /// Renders the variant's name.
    pub fn name(&self) -> (r: &'static str)
        ensures
            r@ == self.spec_name(),
    {
        match self {
            NftsError::NoPermission => "NoPermission",
            NftsError::UnknownCollection => "UnknownCollection",
            NftsError::AlreadyExists => "AlreadyExists",
            NftsError::WrongOwner => "WrongOwner",
            NftsError::UnknownItem => "UnknownItem",
            NftsError::CollectionNotEmpty => "CollectionNotEmpty",
        }
    }
}

/// A module-scoped error of the sandboxed runtime: which module it came from,
/// and that module's sub-error.
#[derive(Clone, Copy, Debug, PartialEq, Eq, Structural)]
pub enum RuntimeError {
    /// An error of the assets module.
    Assets(AssetsError),
    /// An error of the balances module.
    Balances(BalancesError),
    /// An error of the contracts module.
    Contracts(ContractsError),
    /// An error of the non-fungibles module.
    Nfts(NftsError),
}

impl ModuleErrorCodec for RuntimeError {
    open spec fn spec_index(self) -> u8 {
        match self {
            RuntimeError::Assets(_) => ASSETS_MODULE_INDEX,
            RuntimeError::Balances(_) => BALANCES_MODULE_INDEX,
            RuntimeError::Contracts(_) => CONTRACTS_MODULE_INDEX,
            RuntimeError::Nfts(_) => NFTS_MODULE_INDEX,
        }
    }

    open spec fn spec_payload(self) -> (u8, u8) {
        match self {
            RuntimeError::Assets(e) => (e.spec_index(), 0),
            RuntimeError::Balances(e) => (e.spec_index(), 0),
            RuntimeError::Contracts(e) => (e.spec_index(), 0),
            RuntimeError::Nfts(e) => (e.spec_index(), 0),
        }
    }

    open spec fn spec_decode(index: u8, payload0: u8, payload1: u8) -> Option<RuntimeError> {
        if payload1 != 0 {
            None
        } else if index == ASSETS_MODULE_INDEX {
            match AssetsError::spec_from_index(payload0) {
                Some(e) => Some(RuntimeError::Assets(e)),
                None => None,
            }
        } else if index == BALANCES_MODULE_INDEX {
            match BalancesError::spec_from_index(payload0) {
                Some(e) => Some(RuntimeError::Balances(e)),
                None => None,
            }
        } else if index == CONTRACTS_MODULE_INDEX {
            match ContractsError::spec_from_index(payload0) {
                Some(e) => Some(RuntimeError::Contracts(e)),
                None => None,
            }
        } else if index == NFTS_MODULE_INDEX {
            match NftsError::spec_from_index(payload0) {
                Some(e) => Some(RuntimeError::Nfts(e)),
                None => None,
            }
        } else {
            None
        }
    }

    open spec fn spec_describe(self) -> Seq<char> {
        match self {
            RuntimeError::Assets(e) => "Assets("@ + e.spec_name() + ")"@,
            RuntimeError::Balances(e) => "Balances("@ + e.spec_name() + ")"@,
            RuntimeError::Contracts(e) => "Contracts("@ + e.spec_name() + ")"@,
            RuntimeError::Nfts(e) => "Nfts("@ + e.spec_name() + ")"@,
        }
    }

    fn encode(&self) -> (r: (u8, u8, u8)) {
        match self {
            RuntimeError::Assets(e) => (ASSETS_MODULE_INDEX, e.index(), 0),
            RuntimeError::Balances(e) => (BALANCES_MODULE_INDEX, e.index(), 0),
            RuntimeError::Contracts(e) => (CONTRACTS_MODULE_INDEX, e.index(), 0),
            RuntimeError::Nfts(e) => (NFTS_MODULE_INDEX, e.index(), 0),
        }
    }

    fn decode(index: u8, payload0: u8, payload1: u8) -> (r: Option<RuntimeError>) {
        if payload1 != 0 {
            None
        } else if index == ASSETS_MODULE_INDEX {
            match AssetsError::from_index(payload0) {
                Some(e) => Some(RuntimeError::Assets(e)),
                None => None,
            }
        } else if index == BALANCES_MODULE_INDEX {
            match BalancesError::from_index(payload0) {
                Some(e) => Some(RuntimeError::Balances(e)),
                None => None,
            }
        } else if index == CONTRACTS_MODULE_INDEX {
            match ContractsError::from_index(payload0) {
                Some(e) => Some(RuntimeError::Contracts(e)),
                None => None,
            }
        } else if index == NFTS_MODULE_INDEX {
            match NftsError::from_index(payload0) {
                Some(e) => Some(RuntimeError::Nfts(e)),
                None => None,
            }
        } else {
            None
        }
    }

    fn describe(&self) -> (r: String) {
        match self {
            RuntimeError::Assets(e) => String::from_str("Assets(").concat(e.name()).concat(")"),
            RuntimeError::Balances(e) => String::from_str("Balances(").concat(e.name()).concat(
                ")",
            ),
            RuntimeError::Contracts(e) => String::from_str("Contracts(").concat(e.name()).concat(
                ")",
            ),
            RuntimeError::Nfts(e) => String::from_str("Nfts(").concat(e.name()).concat(")"),
        }
    }

    proof fn lemma_decode_encode(self) {
    }

    proof fn lemma_encode_decode(index: u8, payload0: u8, payload1: u8) {
    }
}

/// The top-level taxonomy value carrying a module-scoped error of the
/// sandboxed runtime.
pub open spec fn spec_module_error(e: RuntimeError) -> crate::errors::v0::ApiError {
    crate::errors::v0::ApiError::Module {
        index: e.spec_index(),
        error: [e.spec_payload().0, e.spec_payload().1],
    }
}

/// Wraps a module-scoped error of the sandboxed runtime into the top-level
/// taxonomy.
pub fn module_error(e: RuntimeError) -> (r: crate::errors::v0::ApiError)
    ensures
        r == spec_module_error(e),
{
    let (index, payload0, payload1) = e.encode();
    crate::errors::v0::ApiError::Module { index, error: [payload0, payload1] }
}

} // verus!
