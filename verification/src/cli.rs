//! The command language of the interactive front end, and the verified
//! dispatch of the commands that act on the chain.
//!
//! Parsing command-line text and the commands that touch the file system or
//! the contract build pipeline belong to the front end; the commands that
//! change chain state are dispatched here, against the sandbox.

use vstd::prelude::*;

use crate::api::balances_api::BalancesAPI;
use crate::errors::v0::ApiError;
use crate::runtime::DispatchError;
use crate::sandbox::{Sandbox, Weight};
use crate::state::StateModel;
use crate::system::{BlockPhase, Event};
use crate::{AccountId, Balance, BlockNumber, Moment};

verus! {

/// A command of the interactive front end.
pub enum CliCommand {
    /// Clear the front end's output pane.
    Clear,
    /// Change the front end's working directory.
    ChangeDir {
        /// The directory to change to.
        path: String,
    },
    /// Advance the chain by a number of blocks.
    NextBlock {
        /// How many blocks to build.
        count: u32,
    },
    /// Mint tokens into an account.
    AddTokens {
        /// The account to credit.
        recipient: AccountId,
        /// The amount to mint.
        value: Balance,
    },
    /// Change the actor that signs subsequent operations.
    SetActor {
        /// The new actor.
        actor: AccountId,
    },
    /// Change the gas limit for subsequent calls.
    SetGasLimit {
        /// Computation time budget.
        ref_time: u64,
        /// Proof size budget, in bytes.
        proof_size: u64,
    },
    /// Build the contract in the working directory.
    Build,
    /// Deploy the built contract.
    Deploy {
        /// The constructor to call.
        constructor: String,
        /// The constructor's arguments.
        args: Vec<String>,
        /// The deployment salt.
        salt: Vec<u8>,
    },
    /// Call a method of the deployed contract.
    Call {
        /// The method to call.
        message: String,
        /// The method's arguments.
        args: Vec<String>,
    },
}

/// The front end's view of the chain: who signs, and with what gas limit.
pub struct ChainInfo {
    /// The actor signing subsequent operations.
    pub actor: AccountId,
    /// The gas limit for subsequent calls.
    pub gas_limit: Weight,
}

/// What dispatching one command did.
#[derive(Clone, Copy, Debug, PartialEq, Eq)]
pub enum CliOutcome {
    /// The command acted on the chain and succeeded.
    Done,
    /// The command acted on the chain and failed.
    Failed(DispatchError),
    /// The command does not act on the chain: the front end handles it.
    External,
}

/// Dispatches one command against the sandbox and the front end's chain
/// view.
///
/// Block-building commands advance the chain at the given wall-clock
/// timestamp; token commands mint through the balances API; actor and
/// gas-limit commands update the chain view; everything else is left, with
/// chain and view untouched, to the front end.
pub fn apply_chain_command(
    sandbox: &mut Sandbox,
    info: &mut ChainInfo,
    command: &CliCommand,
    now: Moment,
) -> (r: CliOutcome)
    requires
        old(sandbox).storage().phase == BlockPhase::Open,
    ensures
        final(sandbox).storage().phase == BlockPhase::Open,
        match *command {
            CliCommand::NextBlock { count } => {
                &&& *final(info) == *old(info)
                &&& if old(sandbox).storage().block_number + count <= BlockNumber::MAX {
                    &&& r == CliOutcome::Done
                    &&& final(sandbox).storage().block_number == old(
                        sandbox,
                    ).storage().block_number + count
                    &&& final(sandbox).storage().balances == old(sandbox).storage().balances
                    &&& final(sandbox).storage().assets == old(sandbox).storage().assets
                    &&& final(sandbox).storage().holdings == old(sandbox).storage().holdings
                    &&& final(sandbox).storage().approvals == old(sandbox).storage().approvals
                    &&& final(sandbox).storage().metadata == old(sandbox).storage().metadata
                } else {
                    &&& r == CliOutcome::Failed(
                        ApiError::Arithmetic(crate::errors::v0::ArithmeticError::Overflow),
                    )
                    &&& final(sandbox).storage() == old(sandbox).storage()
                }
            },
            CliCommand::AddTokens { recipient, value } => {
                &&& *final(info) == *old(info)
                &&& if old(sandbox).state().balances.spec_balance(recipient) + value
                    <= Balance::MAX {
                    &&& r == CliOutcome::Done
                    &&& final(sandbox).storage() == (StateModel {
                        balances: old(sandbox).state().balances.accounts().insert(
                            recipient,
                            (old(sandbox).state().balances.spec_balance(recipient)
                                + value) as Balance,
                        ),
                        events: old(sandbox).storage().events.push(
                            (Event::Minted { who: recipient, amount: value }),
                        ),
                        ..old(sandbox).storage()
                    })
                } else {
                    &&& r == CliOutcome::Failed(
                        ApiError::Arithmetic(crate::errors::v0::ArithmeticError::Overflow),
                    )
                    &&& final(sandbox).storage() == old(sandbox).storage()
                }
            },
            CliCommand::SetActor { actor } => {
                &&& r == CliOutcome::Done
                &&& final(sandbox).storage() == old(sandbox).storage()
                &&& *final(info) == (ChainInfo { actor, ..*old(info) })
            },
            CliCommand::SetGasLimit { ref_time, proof_size } => {
                &&& r == CliOutcome::Done
                &&& final(sandbox).storage() == old(sandbox).storage()
                &&& *final(info) == (ChainInfo {
                    gas_limit: (Weight { ref_time, proof_size }),
                    ..*old(info)
                })
            },
            _ => {
                &&& r == CliOutcome::External
                &&& final(sandbox).storage() == old(sandbox).storage()
                &&& *final(info) == *old(info)
            },
        },
{
    match command {
        CliCommand::NextBlock { count } => {
            let height = sandbox.block_number();
            if *count as u64 > BlockNumber::MAX - height {
                CliOutcome::Failed(
                    ApiError::Arithmetic(crate::errors::v0::ArithmeticError::Overflow),
                )
            } else {
                let _ = sandbox.advance_blocks(*count, now);
                CliOutcome::Done
            }
        },
        CliCommand::AddTokens { recipient, value } => {
            match sandbox.mint_into(recipient, *value) {
                Ok(_) => CliOutcome::Done,
                Err(e) => CliOutcome::Failed(e),
            }
        },
        CliCommand::SetActor { actor } => {
            info.actor = *actor;
            CliOutcome::Done
        },
        CliCommand::SetGasLimit { ref_time, proof_size } => {
            info.gas_limit = Weight::from_parts(*ref_time, *proof_size);
            CliOutcome::Done
        },
        _ => CliOutcome::External,
    }
}

} // verus!
