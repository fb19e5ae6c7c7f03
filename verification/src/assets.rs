//! The assets module of the sandboxed runtime: fungible tokens, their
//! holdings, approvals and metadata.

use std::collections::HashMap;

use vstd::prelude::*;

use crate::errors::v0::{ApiError, TokenError};
use crate::runtime::{module_error, spec_module_error, AssetsError, RuntimeError};
use crate::{AccountId, AssetId, Balance, Origin};

verus! {

broadcast use vstd::std_specs::hash::group_hash_axioms;

/// The longest name or symbol an asset's metadata may hold.
pub const METADATA_STRING_LIMIT: usize = 50;

/// Packs an asset id and an account id into one storage key.
pub open spec fn spec_holding_key(asset: AssetId, account: AccountId) -> u128 {
    ((asset as u128) << 64) | (account as u128)
}

/// Packing is injective: distinct (asset, account) pairs name distinct keys.
pub proof fn lemma_holding_key_injective(
    asset1: AssetId,
    account1: AccountId,
    asset2: AssetId,
    account2: AccountId,
)
    ensures
        spec_holding_key(asset1, account1) == spec_holding_key(asset2, account2) ==> asset1
            == asset2 && account1 == account2,
{
    assert((((asset1 as u128) << 64) | (account1 as u128)) == (((asset2 as u128) << 64) | (
    account2 as u128)) ==> asset1 == asset2 && account1 == account2) by (bit_vector);
}

/// Computes the storage key of an (asset, account) holding.
pub fn holding_key(asset: AssetId, account: AccountId) -> (r: u128)
    ensures
        r == spec_holding_key(asset, account),
{
    ((asset as u128) << 64) | (account as u128)
}

/// The key of one approval: `owner` lets `delegate` spend an amount of
/// `asset`.
#[derive(Clone, Copy, Debug, PartialEq, Eq, Structural)]
pub struct ApprovalKey {
    /// The asset the approval is for.
    pub asset: AssetId,
    /// The account that owns the tokens.
    pub owner: AccountId,
    /// The account allowed to spend them.
    pub delegate: AccountId,
}

/// The map built from an approval entry list, later entries overriding
/// earlier ones.
pub open spec fn approvals_as_map(s: Seq<(ApprovalKey, Balance)>) -> Map<ApprovalKey, Balance>
    decreases s.len(),
{
    if s.len() == 0 {
        Map::empty()
    } else {
        approvals_as_map(s.drop_last()).insert(s.last().0, s.last().1)
    }
}

/// An entry list has unique keys.
pub open spec fn approvals_unique(s: Seq<(ApprovalKey, Balance)>) -> bool {
    forall|i: int, j: int| 0 <= i < j < s.len() ==> (#[trigger] s[i]).0 != (#[trigger] s[j]).0
}

/// The map of an entry list contains exactly the listed keys, and on unique
/// lists each key maps to its listed amount.
proof fn lemma_approvals_as_map_index(s: Seq<(ApprovalKey, Balance)>, i: int)
    requires
        approvals_unique(s),
        0 <= i < s.len(),
    ensures
        approvals_as_map(s).contains_key(s[i].0),
        approvals_as_map(s)[s[i].0] == s[i].1,
    decreases s.len(),
{
    if i < s.len() - 1 {
        lemma_approvals_as_map_index(s.drop_last(), i);
    }
}

/// A key listed nowhere is absent from the map.
proof fn lemma_approvals_as_map_absent(s: Seq<(ApprovalKey, Balance)>, k: ApprovalKey)
    requires
        forall|i: int| 0 <= i < s.len() ==> (#[trigger] s[i]).0 != k,
    ensures
        !approvals_as_map(s).contains_key(k),
    decreases s.len(),
{
    if s.len() > 0 {
        lemma_approvals_as_map_absent(s.drop_last(), k);
    }
}

/// Removing entry `i` from a unique list removes exactly its key from the
/// map.
proof fn lemma_approvals_as_map_remove(s: Seq<(ApprovalKey, Balance)>, i: int)
    requires
        approvals_unique(s),
        0 <= i < s.len(),
    ensures
        approvals_as_map(s.remove(i)) == approvals_as_map(s).remove(s[i].0),
    decreases s.len(),
{
    if i == s.len() - 1 {
        assert(s.remove(i) =~= s.drop_last());
        assert(forall|j: int| 0 <= j < s.drop_last().len() ==> (#[trigger] s.drop_last()[j]).0
            != s[i].0);
        lemma_approvals_as_map_absent(s.drop_last(), s[i].0);
        assert(approvals_as_map(s.drop_last()) =~= approvals_as_map(s).remove(s[i].0));
    } else {
        lemma_approvals_as_map_remove(s.drop_last(), i);
        assert(s.remove(i).drop_last() =~= s.drop_last().remove(i));
        assert(s.remove(i).last() == s.last());
        assert(approvals_as_map(s.remove(i)) == approvals_as_map(s.drop_last().remove(i)).insert(
            s.last().0,
            s.last().1,
        ));
        assert(approvals_as_map(s).remove(s[i].0) =~= approvals_as_map(s.drop_last()).remove(
            s[i].0,
        ).insert(s.last().0, s.last().1));
    }
}

/// Finds the position of the entry keyed `k` in an entry list, if one
/// exists.
fn find_key(entries: &Vec<(ApprovalKey, Balance)>, k: ApprovalKey) -> (r: Option<usize>)
    ensures
        match r {
            Some(i) => i < entries@.len() && entries@[i as int].0 == k,
            None => forall|j: int| 0 <= j < entries@.len() ==> (#[trigger] entries@[j]).0 != k,
        },
{
    let mut i: usize = 0;
    while i < entries.len()
        invariant
            i <= entries.len(),
            forall|j: int| 0 <= j < i ==> (#[trigger] entries@[j]).0 != k,
        decreases entries.len() - i,
    {
        let (key, _value) = entries[i];
        if key == k {
            return Some(i);
        }
        i += 1;
    }
    None
}

/// The approval table: an entry list with unique keys, read as a map.
pub struct ApprovalsMap {
    entries: Vec<(ApprovalKey, Balance)>,
}

impl ApprovalsMap {
    /// The table as a map from approval key to approved amount.
    pub closed spec fn map(self) -> Map<ApprovalKey, Balance> {
        approvals_as_map(self.entries@)
    }

    /// The table's entries always have unique keys.
    #[verifier::type_invariant]
    closed spec fn unique_keys(self) -> bool {
        approvals_unique(self.entries@)
    }

    /// The approved amount under `k`, or zero if none.
    pub open spec fn spec_amount(self, k: ApprovalKey) -> Balance {
        if self.map().contains_key(k) {
            self.map()[k]
        } else {
            0
        }
    }

    /// Creates an empty approval table.
    pub fn empty() -> (r: ApprovalsMap)
        ensures
            r.map() == Map::<ApprovalKey, Balance>::empty(),
    {
        ApprovalsMap { entries: Vec::new() }
    }

    /// Copies the approval table; the copy holds exactly the same approvals.
    pub fn snapshot(&self) -> (r: ApprovalsMap)
        ensures
            r.map() == self.map(),
    {
        proof {
            use_type_invariant(self);
        }
        let mut entries: Vec<(ApprovalKey, Balance)> = Vec::new();
        let mut i: usize = 0;
        while i < self.entries.len()
            invariant
                i <= self.entries.len(),
                entries@ == self.entries@.subrange(0, i as int),
            decreases self.entries.len() - i,
        {
            let (k, v) = self.entries[i];
            entries.push((k, v));
            proof {
                assert(entries@ =~= self.entries@.subrange(0, i + 1));
            }
            i += 1;
        }
        proof {
            assert(entries@ =~= self.entries@);
        }
        ApprovalsMap { entries }
    }

    /// Reads the approved amount under `k`, zero if none.
    pub fn amount(&self, k: ApprovalKey) -> (r: Balance)
        ensures
            r == self.spec_amount(k),
    {
        proof {
            use_type_invariant(self);
        }
        match find_key(&self.entries, k) {
            Some(i) => {
                proof {
                    lemma_approvals_as_map_index(self.entries@, i as int);
                }
                self.entries[i].1
            },
            None => {
                proof {
                    lemma_approvals_as_map_absent(self.entries@, k);
                }
                0
            },
        }
    }

    /// Writes `amount` under `k`, replacing any previous approval for the
    /// same key.
    pub fn set(&mut self, k: ApprovalKey, amount: Balance)
        ensures
            final(self).map() == old(self).map().insert(k, amount),
    {
        proof {
            use_type_invariant(&*self);
        }
        let ghost s = old(self).entries@;
        let mut entries: Vec<(ApprovalKey, Balance)> = Vec::new();
        core::mem::swap(&mut entries, &mut self.entries);
        match find_key(&entries, k) {
            Some(i) => {
                proof {
                    lemma_approvals_as_map_remove(s, i as int);
                    s.remove_ensures(i as int);
                }
                let _ = entries.remove(i);
                let ghost s2 = entries@;
                proof {
                    // Uniqueness survives the removal: every entry of the
                    // shorter list is an entry of the longer one.
                    assert(approvals_unique(s2)) by {
                        assert forall|a: int, b: int| 0 <= a < b < s2.len() implies (
                        #[trigger] s2[a]).0 != (#[trigger] s2[b]).0 by {
                            let a0 = if a < i as int {
                                a
                            } else {
                                a + 1
                            };
                            let b0 = if b < i as int {
                                b
                            } else {
                                b + 1
                            };
                            assert(s2[a] == s[a0] && s2[b] == s[b0]);
                        }
                    }
                    // The removed key occurs nowhere else in the longer list.
                    assert forall|j: int| 0 <= j < s2.len() implies (#[trigger] s2[j]).0 != k by {
                        let j0 = if j < i as int {
                            j
                        } else {
                            j + 1
                        };
                        assert(s2[j] == s[j0]);
                    }
                }
                entries.push((k, amount));
                proof {
                    assert(entries@.drop_last() =~= s2);
                    assert(approvals_as_map(entries@) =~= old(self).map().insert(k, amount));
                }
            },
            None => {
                proof {
                    lemma_approvals_as_map_absent(s, k);
                }
                entries.push((k, amount));
                proof {
                    assert(entries@.drop_last() =~= s);
                    assert(approvals_as_map(entries@) =~= old(self).map().insert(k, amount));
                }
            },
        }
        core::mem::swap(&mut entries, &mut self.entries);
    }
}

/// The lifecycle status of an asset.
#[derive(Clone, Copy, Debug, PartialEq, Eq, Structural)]
pub enum AssetStatus {
    /// The asset is live and fully operational.
    Live,
    /// The asset is being destroyed.
    Destroying,
}

/// The registered details of one asset.
#[derive(Clone, Copy, Debug, PartialEq, Eq, Structural)]
pub struct AssetDetails {
    /// The account that owns and administers the asset.
    pub owner: AccountId,
    /// The smallest holding an account may keep of this asset.
    pub min_balance: Balance,
    /// The total issuance of this asset.
    pub supply: Balance,
    /// Where the asset is in its lifecycle.
    pub status: AssetStatus,
}

/// The registered metadata of one asset.
#[derive(Clone, Debug, PartialEq, Eq)]
pub struct AssetMetadata {
    /// The asset's name.
    pub name: Vec<u8>,
    /// The asset's ticker symbol.
    pub symbol: Vec<u8>,
    /// The number of decimals the asset's amounts are denominated with.
    pub decimals: u8,
}

/// Fungible-asset storage: asset details, per-account holdings, approvals and
/// metadata.
pub struct AssetsState {
    assets: HashMap<AssetId, AssetDetails>,
    holdings: HashMap<u128, Balance>,
    approvals: ApprovalsMap,
    metadata: HashMap<AssetId, AssetMetadata>,
}

impl AssetsState {
    /// The asset table.
    pub closed spec fn assets(self) -> Map<AssetId, AssetDetails> {
        self.assets@
    }

    /// The holdings table, keyed by [`spec_holding_key`].
    pub closed spec fn holdings(self) -> Map<u128, Balance> {
        self.holdings@
    }

    /// The approvals table.
    pub closed spec fn approvals(self) -> Map<ApprovalKey, Balance> {
        self.approvals.map()
    }

    /// The metadata table.
    pub closed spec fn metadata(self) -> Map<AssetId, AssetMetadata> {
        self.metadata@
    }

    /// The registered details of `asset`, if it exists.
    pub open spec fn spec_details(self, asset: AssetId) -> Option<AssetDetails> {
        if self.assets().contains_key(asset) {
            Some(self.assets()[asset])
        } else {
            None
        }
    }

    /// Whether `asset` exists.
    pub open spec fn spec_exists(self, asset: AssetId) -> bool {
        self.assets().contains_key(asset)
    }

    /// The balance `account` holds of `asset`, zero if none.
    pub open spec fn spec_balance(self, asset: AssetId, account: AccountId) -> Balance {
        if self.holdings().contains_key(spec_holding_key(asset, account)) {
            self.holdings()[spec_holding_key(asset, account)]
        } else {
            0
        }
    }

    /// The total supply of `asset`, zero if it does not exist.
    pub open spec fn spec_supply(self, asset: AssetId) -> Balance {
        match self.spec_details(asset) {
            Some(d) => d.supply,
            None => 0,
        }
    }

    /// The amount of `asset` that `owner` approved `delegate` to spend, zero
    /// if none.
    pub open spec fn spec_allowance(
        self,
        asset: AssetId,
        owner: AccountId,
        delegate: AccountId,
    ) -> Balance {
        let k = ApprovalKey { asset, owner, delegate };
        if self.approvals().contains_key(k) {
            self.approvals()[k]
        } else {
            0
        }
    }

    /// Creates empty asset storage.
    pub fn empty() -> (r: AssetsState)
        ensures
            r.assets() == Map::<AssetId, AssetDetails>::empty(),
            r.holdings() == Map::<u128, Balance>::empty(),
            r.approvals() == Map::<ApprovalKey, Balance>::empty(),
            r.metadata() == Map::<AssetId, AssetMetadata>::empty(),
    {
        AssetsState {
            assets: HashMap::new(),
            holdings: HashMap::new(),
            approvals: ApprovalsMap::empty(),
            metadata: HashMap::new(),
        }
    }

    /// Copies the asset storage; the copy holds exactly the same tables.
    pub fn snapshot(&self) -> (r: AssetsState)
        ensures
            r.assets() == self.assets(),
            r.holdings() == self.holdings(),
            r.approvals() == self.approvals(),
            r.metadata() == self.metadata(),
    {
        AssetsState {
            assets: self.assets.clone(),
            holdings: self.holdings.clone(),
            approvals: self.approvals.snapshot(),
            metadata: self.metadata.clone(),
        }
    }

    /// The result of creating `asset`: it must not exist yet, and the minimum
    /// balance must be non-zero.
    pub open spec fn spec_create_result(self, asset: AssetId, min_balance: Balance) -> Result<
        (),
        ApiError,
    > {
        if self.spec_exists(asset) {
            Result::Err(spec_module_error(RuntimeError::Assets(AssetsError::InUse)))
        } else if min_balance == 0 {
            Result::Err(spec_module_error(RuntimeError::Assets(AssetsError::MinBalanceZero)))
        } else {
            Result::Ok(())
        }
    }

    /// Creates `asset` owned by `owner` with the given minimum balance.
    ///
    /// Fails if and only if the asset id is already in use or `min_balance`
    /// is zero; on failure the storage is unchanged.
    pub fn create(&mut self, asset: AssetId, owner: AccountId, min_balance: Balance) -> (r: Result<
        (),
        ApiError,
    >)
        ensures
            r == old(self).spec_create_result(asset, min_balance),
            r is Ok ==> final(self).assets() == old(self).assets().insert(
                asset,
                (AssetDetails { owner, min_balance, supply: 0, status: AssetStatus::Live }),
            ),
            r is Err ==> final(self).assets() == old(self).assets(),
            final(self).holdings() == old(self).holdings(),
            final(self).approvals() == old(self).approvals(),
            final(self).metadata() == old(self).metadata(),
    {
        if self.assets.contains_key(&asset) {
            return Err(module_error(RuntimeError::Assets(AssetsError::InUse)));
        }
        if min_balance == 0 {
            return Err(module_error(RuntimeError::Assets(AssetsError::MinBalanceZero)));
        }
        self.assets.insert(
            asset,
            AssetDetails { owner, min_balance, supply: 0, status: AssetStatus::Live },
        );
        Ok(())
    }

    /// The result of minting `amount` of `asset` to `beneficiary`: the asset
    /// must exist and be live, a new holding must reach the minimum balance,
    /// and neither the holding nor the supply may overflow.
    pub open spec fn spec_mint_result(
        self,
        asset: AssetId,
        beneficiary: AccountId,
        amount: Balance,
    ) -> Result<(), ApiError> {
        match self.spec_details(asset) {
            None => Result::Err(spec_module_error(RuntimeError::Assets(AssetsError::Unknown))),
            Some(d) => if d.status != AssetStatus::Live {
                Result::Err(spec_module_error(RuntimeError::Assets(AssetsError::AssetNotLive)))
            } else if self.spec_balance(asset, beneficiary) == 0 && amount < d.min_balance {
                Result::Err(ApiError::Token(TokenError::BelowMinimum))
            } else if d.supply + amount > Balance::MAX {
                Result::Err(ApiError::Arithmetic(crate::errors::v0::ArithmeticError::Overflow))
            } else if self.spec_balance(asset, beneficiary) + amount > Balance::MAX {
                Result::Err(ApiError::Arithmetic(crate::errors::v0::ArithmeticError::Overflow))
            } else {
                Result::Ok(())
            },
        }
    }

    /// Mints `amount` of `asset` into `beneficiary`, increasing the total
    /// supply.
    ///
    /// Fails exactly as [`Self::spec_mint_result`] says; on failure the
    /// storage is unchanged.
    pub fn mint(&mut self, asset: AssetId, beneficiary: AccountId, amount: Balance) -> (r: Result<
        (),
        ApiError,
    >)
        ensures
            r == old(self).spec_mint_result(asset, beneficiary, amount),
            r is Ok ==> {
                &&& final(self).spec_balance(asset, beneficiary) == old(self).spec_balance(
                    asset,
                    beneficiary,
                ) + amount
                &&& final(self).spec_supply(asset) == old(self).spec_supply(asset) + amount
                &&& final(self).holdings() == old(self).holdings().insert(
                    spec_holding_key(asset, beneficiary),
                    (old(self).spec_balance(asset, beneficiary) + amount) as Balance,
                )
                &&& final(self).assets() == old(self).assets().insert(
                    asset,
                    (AssetDetails {
                        supply: (old(self).spec_supply(asset) + amount) as Balance,
                        ..old(self).spec_details(asset)->Some_0
                    }),
                )
            },
            r is Err ==> final(self).assets() == old(self).assets() && final(self).holdings()
                == old(self).holdings(),
            final(self).approvals() == old(self).approvals(),
            final(self).metadata() == old(self).metadata(),
    {
        let details = match self.assets.get(&asset) {
            Some(d) => *d,
            None => {
                return Err(module_error(RuntimeError::Assets(AssetsError::Unknown)));
            },
        };
        if details.status != AssetStatus::Live {
            return Err(module_error(RuntimeError::Assets(AssetsError::AssetNotLive)));
        }
        let held = self.balance_of(asset, beneficiary);
        if held == 0 && amount < details.min_balance {
            return Err(ApiError::Token(TokenError::BelowMinimum));
        }
        if amount > Balance::MAX - details.supply {
            return Err(ApiError::Arithmetic(crate::errors::v0::ArithmeticError::Overflow));
        }
        if amount > Balance::MAX - held {
            return Err(ApiError::Arithmetic(crate::errors::v0::ArithmeticError::Overflow));
        }
        self.holdings.insert(holding_key(asset, beneficiary), held + amount);
        self.assets.insert(asset, AssetDetails { supply: details.supply + amount, ..details });
        Ok(())
    }

    /// Reads the balance `account` holds of `asset`.
    pub fn balance_of(&self, asset: AssetId, account: AccountId) -> (r: Balance)
        ensures
            r == self.spec_balance(asset, account),
    {
        match self.holdings.get(&holding_key(asset, account)) {
            Some(b) => *b,
            None => 0,
        }
    }

    /// Reads the total supply of `asset`.
    pub fn total_supply(&self, asset: AssetId) -> (r: Balance)
        ensures
            r == self.spec_supply(asset),
    {
        match self.assets.get(&asset) {
            Some(d) => d.supply,
            None => 0,
        }
    }

    /// Whether `asset` exists.
    pub fn asset_exists(&self, asset: AssetId) -> (r: bool)
        ensures
            r == self.spec_exists(asset),
    {
        self.assets.contains_key(&asset)
    }

    /// Reads the amount of `asset` that `owner` approved `delegate` to
    /// spend.
    pub fn allowance(&self, asset: AssetId, owner: AccountId, delegate: AccountId) -> (r: Balance)
        ensures
            r == self.spec_allowance(asset, owner, delegate),
    {
        self.approvals.amount(ApprovalKey { asset, owner, delegate })
    }

    /// The result of approving a delegate: the asset must exist.
    pub open spec fn spec_approve_result(self, asset: AssetId) -> Result<(), ApiError> {
        if !self.spec_exists(asset) {
            Result::Err(spec_module_error(RuntimeError::Assets(AssetsError::Unknown)))
        } else {
            Result::Ok(())
        }
    }

    /// Approves `delegate` to spend `amount` of `asset` on behalf of
    /// `owner`; successive calls overwrite the previous value.
    ///
    /// Fails if and only if the asset does not exist; on failure the storage
    /// is unchanged.
    pub fn approve(
        &mut self,
        asset: AssetId,
        owner: AccountId,
        delegate: AccountId,
        amount: Balance,
    ) -> (r: Result<(), ApiError>)
        ensures
            r == old(self).spec_approve_result(asset),
            r is Ok ==> final(self).approvals() == old(self).approvals().insert(
                (ApprovalKey { asset, owner, delegate }),
                amount,
            ),
            r is Err ==> final(self).approvals() == old(self).approvals(),
            final(self).assets() == old(self).assets(),
            final(self).holdings() == old(self).holdings(),
            final(self).metadata() == old(self).metadata(),
    {
        if !self.assets.contains_key(&asset) {
            return Err(module_error(RuntimeError::Assets(AssetsError::Unknown)));
        }
        self.approvals.set(ApprovalKey { asset, owner, delegate }, amount);
        Ok(())
    }

    /// The result of transferring `amount` of `asset` from `from` to `to`:
    /// the asset must exist and be live, the sender must hold `amount`, a new
    /// recipient holding must reach the minimum balance, and the recipient
    /// holding may not overflow.
    pub open spec fn spec_transfer_result(
        self,
        asset: AssetId,
        from: AccountId,
        to: AccountId,
        amount: Balance,
    ) -> Result<(), ApiError> {
        match self.spec_details(asset) {
            None => Result::Err(spec_module_error(RuntimeError::Assets(AssetsError::Unknown))),
            Some(d) => if d.status != AssetStatus::Live {
                Result::Err(spec_module_error(RuntimeError::Assets(AssetsError::AssetNotLive)))
            } else if self.spec_balance(asset, from) < amount {
                Result::Err(spec_module_error(RuntimeError::Assets(AssetsError::BalanceLow)))
            } else if from == to {
                Result::Ok(())
            } else if self.spec_balance(asset, to) == 0 && amount < d.min_balance {
                Result::Err(ApiError::Token(TokenError::BelowMinimum))
            } else if self.spec_balance(asset, to) + amount > Balance::MAX {
                Result::Err(ApiError::Arithmetic(crate::errors::v0::ArithmeticError::Overflow))
            } else {
                Result::Ok(())
            },
        }
    }

    /// The holdings table after a successful transfer.
    pub open spec fn spec_transfer_outcome(
        self,
        asset: AssetId,
        from: AccountId,
        to: AccountId,
        amount: Balance,
    ) -> Map<u128, Balance> {
        if from == to {
            self.holdings()
        } else {
            self.holdings().insert(
                spec_holding_key(asset, from),
                (self.spec_balance(asset, from) - amount) as Balance,
            ).insert(
                spec_holding_key(asset, to),
                (self.spec_balance(asset, to) + amount) as Balance,
            )
        }
    }

    /// Transfers `amount` of `asset` from `from` to `to`.
    ///
    /// Fails exactly as [`Self::spec_transfer_result`] says; on failure the
    /// storage is unchanged.
    pub fn transfer(&mut self, asset: AssetId, from: AccountId, to: AccountId, amount: Balance)
        -> (r: Result<(), ApiError>)
        ensures
            r == old(self).spec_transfer_result(asset, from, to, amount),
            r is Ok ==> final(self).holdings() == old(self).spec_transfer_outcome(
                asset,
                from,
                to,
                amount,
            ),
            r is Err ==> final(self).holdings() == old(self).holdings(),
            final(self).assets() == old(self).assets(),
            final(self).approvals() == old(self).approvals(),
            final(self).metadata() == old(self).metadata(),
    {
        let details = match self.assets.get(&asset) {
            Some(d) => *d,
            None => {
                return Err(module_error(RuntimeError::Assets(AssetsError::Unknown)));
            },
        };
        if details.status != AssetStatus::Live {
            return Err(module_error(RuntimeError::Assets(AssetsError::AssetNotLive)));
        }
        let from_held = self.balance_of(asset, from);
        if from_held < amount {
            return Err(module_error(RuntimeError::Assets(AssetsError::BalanceLow)));
        }
        if from == to {
            return Ok(());
        }
        let to_held = self.balance_of(asset, to);
        if to_held == 0 && amount < details.min_balance {
            return Err(ApiError::Token(TokenError::BelowMinimum));
        }
        if amount > Balance::MAX - to_held {
            return Err(ApiError::Arithmetic(crate::errors::v0::ArithmeticError::Overflow));
        }
        proof {
            lemma_holding_key_injective(asset, from, asset, to);
        }
        self.holdings.insert(holding_key(asset, from), from_held - amount);
        self.holdings.insert(holding_key(asset, to), to_held + amount);
        Ok(())
    }

    /// The result of burning `amount` of `asset` from `who`: the asset must
    /// exist, `who` must hold `amount`, and the supply may not underflow.
    pub open spec fn spec_burn_result(self, asset: AssetId, who: AccountId, amount: Balance)
        -> Result<(), ApiError> {
        match self.spec_details(asset) {
            None => Result::Err(spec_module_error(RuntimeError::Assets(AssetsError::Unknown))),
            Some(d) => if self.spec_balance(asset, who) < amount {
                Result::Err(spec_module_error(RuntimeError::Assets(AssetsError::BalanceLow)))
            } else if d.supply < amount {
                Result::Err(ApiError::Arithmetic(crate::errors::v0::ArithmeticError::Underflow))
            } else {
                Result::Ok(())
            },
        }
    }

    /// Burns `amount` of `asset` from `who`, decreasing the total supply.
    ///
    /// Fails exactly as [`Self::spec_burn_result`] says; on failure the
    /// storage is unchanged.
    pub fn burn(&mut self, asset: AssetId, who: AccountId, amount: Balance) -> (r: Result<
        (),
        ApiError,
    >)
        ensures
            r == old(self).spec_burn_result(asset, who, amount),
            r is Ok ==> {
                &&& final(self).holdings() == old(self).holdings().insert(
                    spec_holding_key(asset, who),
                    (old(self).spec_balance(asset, who) - amount) as Balance,
                )
                &&& final(self).assets() == old(self).assets().insert(
                    asset,
                    (AssetDetails {
                        supply: (old(self).spec_supply(asset) - amount) as Balance,
                        ..old(self).spec_details(asset)->Some_0
                    }),
                )
            },
            r is Err ==> final(self).assets() == old(self).assets() && final(self).holdings()
                == old(self).holdings(),
            final(self).approvals() == old(self).approvals(),
            final(self).metadata() == old(self).metadata(),
    {
        let details = match self.assets.get(&asset) {
            Some(d) => *d,
            None => {
                return Err(module_error(RuntimeError::Assets(AssetsError::Unknown)));
            },
        };
        let held = self.balance_of(asset, who);
        if held < amount {
            return Err(module_error(RuntimeError::Assets(AssetsError::BalanceLow)));
        }
        if details.supply < amount {
            return Err(ApiError::Arithmetic(crate::errors::v0::ArithmeticError::Underflow));
        }
        self.holdings.insert(holding_key(asset, who), held - amount);
        self.assets.insert(asset, AssetDetails { supply: details.supply - amount, ..details });
        Ok(())
    }

    /// The result of starting to destroy `asset`: it must exist.
    pub open spec fn spec_start_destroy_result(self, asset: AssetId) -> Result<(), ApiError> {
        if !self.spec_exists(asset) {
            Result::Err(spec_module_error(RuntimeError::Assets(AssetsError::Unknown)))
        } else {
            Result::Ok(())
        }
    }

    /// Starts the destruction of `asset`, marking it as destroying.
    ///
    /// Fails if and only if the asset does not exist; on failure the storage
    /// is unchanged.
    pub fn start_destroy(&mut self, asset: AssetId) -> (r: Result<(), ApiError>)
        ensures
            r == old(self).spec_start_destroy_result(asset),
            r is Ok ==> final(self).assets() == old(self).assets().insert(
                asset,
                (AssetDetails {
                    status: AssetStatus::Destroying,
                    ..old(self).spec_details(asset)->Some_0
                }),
            ),
            r is Err ==> final(self).assets() == old(self).assets(),
            final(self).holdings() == old(self).holdings(),
            final(self).approvals() == old(self).approvals(),
            final(self).metadata() == old(self).metadata(),
    {
        let details = match self.assets.get(&asset) {
            Some(d) => *d,
            None => {
                return Err(module_error(RuntimeError::Assets(AssetsError::Unknown)));
            },
        };
        self.assets.insert(asset, AssetDetails { status: AssetStatus::Destroying, ..details });
        Ok(())
    }

    /// The result of setting the metadata of `asset` from `origin`: the
    /// origin must be a signature of the asset's owner and the name and
    /// symbol must fit the length limit.
    pub open spec fn spec_set_metadata_result(
        self,
        origin: Origin,
        asset: AssetId,
        name: Seq<u8>,
        symbol: Seq<u8>,
    ) -> Result<(), ApiError> {
        match origin {
            Origin::Signed(who) => match self.spec_details(asset) {
                None => Result::Err(spec_module_error(RuntimeError::Assets(AssetsError::Unknown))),
                Some(d) => if who != d.owner {
                    Result::Err(
                        spec_module_error(RuntimeError::Assets(AssetsError::NoPermission)),
                    )
                } else if name.len() > METADATA_STRING_LIMIT || symbol.len()
                    > METADATA_STRING_LIMIT {
                    Result::Err(spec_module_error(RuntimeError::Assets(AssetsError::BadMetadata)))
                } else {
                    Result::Ok(())
                },
            },
            _ => Result::Err(ApiError::BadOrigin),
        }
    }

    /// Sets the metadata of `asset`: its name, symbol and decimals.
    ///
    /// Fails exactly as [`Self::spec_set_metadata_result`] says; on failure
    /// the storage is unchanged.
    pub fn set_metadata(
        &mut self,
        origin: Origin,
        asset: AssetId,
        name: Vec<u8>,
        symbol: Vec<u8>,
        decimals: u8,
    ) -> (r: Result<(), ApiError>)
        ensures
            r == old(self).spec_set_metadata_result(origin, asset, name@, symbol@),
            r is Ok ==> final(self).metadata() == old(self).metadata().insert(
                asset,
                (AssetMetadata { name, symbol, decimals }),
            ),
            r is Err ==> final(self).metadata() == old(self).metadata(),
            final(self).assets() == old(self).assets(),
            final(self).holdings() == old(self).holdings(),
            final(self).approvals() == old(self).approvals(),
    {
        let who = match origin {
            Origin::Signed(who) => who,
            _ => {
                return Err(ApiError::BadOrigin);
            },
        };
        let details = match self.assets.get(&asset) {
            Some(d) => *d,
            None => {
                return Err(module_error(RuntimeError::Assets(AssetsError::Unknown)));
            },
        };
        if who != details.owner {
            return Err(module_error(RuntimeError::Assets(AssetsError::NoPermission)));
        }
        if name.len() > METADATA_STRING_LIMIT || symbol.len() > METADATA_STRING_LIMIT {
            return Err(module_error(RuntimeError::Assets(AssetsError::BadMetadata)));
        }
        self.metadata.insert(asset, AssetMetadata { name, symbol, decimals });
        Ok(())
    }
}

} // verus!
