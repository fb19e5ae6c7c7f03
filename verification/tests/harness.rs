//! Tests of the sandbox: block lifecycle, execution, dry runs, the module
//! APIs, the session record, and the command dispatcher.

use pop_drink::api::assets_api::AssetsAPI;
use pop_drink::api::balances_api::BalancesAPI;
use pop_drink::cli::{apply_chain_command, ChainInfo, CliCommand, CliOutcome};
use pop_drink::errors::v0::{ApiError, TokenError};
use pop_drink::externalities::Extension;
use pop_drink::macros::assert_last_event_inner;
use pop_drink::runtime::{AssetsError, BalancesError, RuntimeError};
use pop_drink::sandbox::{Sandbox, Weight, DEFAULT_ACCOUNT, INIT_AMOUNT};
use pop_drink::session::{call, deploy, last_contract_event, OpRecord, Session};
use pop_drink::state::State;
use pop_drink::system::{mix, Event};
use pop_drink::{account_id_from_slice, Origin};

fn module_error(e: RuntimeError) -> ApiError {
    pop_drink::runtime::module_error(e)
}

#[test]
fn assets_api_api_works() {
    let mut sandbox = Sandbox::default();
    let token = 1;
    let actor = Sandbox::default_actor();
    let balance = sandbox.balance_of(&token, &actor);

    sandbox.create(&token, &actor, 1).unwrap();
    AssetsAPI::mint_into(&mut sandbox, &token, &actor, 100).unwrap();
    assert_eq!(sandbox.balance_of(&token, &actor), balance + 100);

    assert!(sandbox.asset_exists(&token));
}

#[test]
fn asset_lifecycle_scenario() {
    // Create asset 1 owned by the actor with minimum balance 1, mint 100,
    // and observe the balances; then wrap a mint in a dry run and observe
    // that it left no trace.
    let mut sandbox = Sandbox::default();
    let actor = Sandbox::default_actor();

    sandbox.create(&1, &actor, 1).unwrap();
    AssetsAPI::mint_into(&mut sandbox, &1, &actor, 100).unwrap();
    assert_eq!(sandbox.balance_of(&1, &actor), 100);
    assert!(sandbox.asset_exists(&1));

    let before = sandbox.balance_of(&1, &actor);
    let minted = sandbox.dry_run(|mut sb: Sandbox| {
        let r = AssetsAPI::mint_into(&mut sb, &1, &actor, 50);
        (sb, r)
    });
    assert_eq!(minted.unwrap(), 50);
    assert_eq!(sandbox.balance_of(&1, &actor), before);
    assert_eq!(sandbox.total_supply(&1), 100);
}

#[test]
fn dry_run_discards_transfers() {
    // An action that transfers funds from an account leaves its balance
    // exactly where it was once the dry run returns.
    let mut sandbox = Sandbox::default();
    let before = sandbox.free_balance(&DEFAULT_ACCOUNT);
    assert_eq!(before, INIT_AMOUNT);

    let result = sandbox.dry_run(|mut sb: Sandbox| {
        let r = BalancesAPI::transfer(&mut sb, &DEFAULT_ACCOUNT, &7, 1_000);
        let inside = sb.free_balance(&DEFAULT_ACCOUNT);
        (sb, (r, inside))
    });
    assert!(result.0.is_ok());
    assert_eq!(result.1, INIT_AMOUNT - 1_000);
    assert_eq!(sandbox.free_balance(&DEFAULT_ACCOUNT), before);

    // A dry run is idempotent with respect to storage: run it again.
    let _ = sandbox.dry_run(|mut sb: Sandbox| {
        let r = BalancesAPI::transfer(&mut sb, &DEFAULT_ACCOUNT, &7, 1_000);
        (sb, r)
    });
    assert_eq!(sandbox.free_balance(&DEFAULT_ACCOUNT), before);
}

#[test]
fn dry_run_actions_may_execute_with() {
    // An action may itself run closures against the store; the dry run still
    // rolls every write back.
    let mut sandbox = Sandbox::default();
    let seen = sandbox.dry_run(|mut sb: Sandbox| {
        let b = sb.execute_with(|mut state: State| {
            let _ = state.balances.mint_into(11, 400);
            let b = state.balances.balance(11);
            (state, b)
        });
        (sb, b)
    });
    assert_eq!(seen, 400);
    assert_eq!(sandbox.free_balance(&11), 0);
}

#[test]
fn execute_with_commits() {
    let mut sandbox = Sandbox::default();
    let balance = sandbox.execute_with(|mut state: State| {
        let _ = state.balances.mint_into(42, 5_000);
        let b = state.balances.balance(42);
        (state, b)
    });
    assert_eq!(balance, 5_000);
    assert_eq!(sandbox.free_balance(&42), 5_000);
}

#[test]
fn block_height_is_monotonic() {
    let mut sandbox = Sandbox::default();
    assert_eq!(sandbox.block_number(), 1);
    let mut expected: u64 = 1;
    for _ in 0..5 {
        let _ = sandbox.build_block(7);
        expected += 1;
        assert_eq!(sandbox.block_number(), expected);
    }
    let _ = sandbox.advance_blocks(10, 9);
    assert_eq!(sandbox.block_number(), 16);
    assert_eq!(sandbox.timestamp(), 9);
}

#[test]
fn build_block_chains_digests() {
    let mut sandbox = Sandbox::default();
    sandbox.create(&1, &Sandbox::default_actor(), 1).unwrap();
    let digest = sandbox.build_block(11);
    // The next block keeps the storage and starts a fresh event log.
    assert!(sandbox.asset_exists(&1));
    assert!(sandbox.events().is_empty());
    assert_eq!(sandbox.block_number(), 2);
    // The digest seeds the next block's parent hash, so building again at the
    // same timestamp gives a different digest.
    let digest2 = sandbox.build_block(11);
    assert_ne!(digest, digest2);
}

#[test]
fn header_digest_follows_the_mix_formula() {
    let mut sandbox = Sandbox::default();
    // The sandbox starts at block 1 with parent hash 0 and timestamp 0, so
    // finalizing it must yield exactly the documented mix of those fields.
    let digest = sandbox.finalize_block(1);
    assert_eq!(digest, mix(mix(mix(0x6861726e657373, 1), 0), 0));
    // The mixing step itself is a fixed formula.
    assert_eq!(mix(0, 0), 0);
    assert_eq!(
        mix(1, 0),
        ((1u128 * 0x9E3779B97F4A7C15) % 0x1_0000_0000_0000_0000) as u64
    );
}

#[test]
fn events_record_operations() {
    let mut sandbox = Sandbox::default();
    let actor = Sandbox::default_actor();
    sandbox.create(&1, &actor, 1).unwrap();
    AssetsAPI::mint_into(&mut sandbox, &1, &actor, 100).unwrap();
    AssetsAPI::transfer(&mut sandbox, &1, &actor, &9, 30).unwrap();
    let events = sandbox.events();
    assert_eq!(
        events,
        vec![
            Event::AssetCreated { asset: 1, owner: actor },
            Event::AssetsIssued { asset: 1, owner: actor, amount: 100 },
            Event::AssetsTransferred { asset: 1, from: actor, to: 9, amount: 30 },
        ]
    );
}

#[test]
fn asset_errors_are_exact() {
    let mut sandbox = Sandbox::default();
    let actor = Sandbox::default_actor();

    assert_eq!(
        AssetsAPI::mint_into(&mut sandbox, &1, &actor, 10).unwrap_err(),
        module_error(RuntimeError::Assets(AssetsError::Unknown))
    );
    sandbox.create(&1, &actor, 5).unwrap();
    assert_eq!(
        sandbox.create(&1, &actor, 5).unwrap_err(),
        module_error(RuntimeError::Assets(AssetsError::InUse))
    );
    assert_eq!(
        sandbox.create(&2, &actor, 0).unwrap_err(),
        module_error(RuntimeError::Assets(AssetsError::MinBalanceZero))
    );
    // A fresh holding below the minimum balance is refused.
    assert_eq!(
        AssetsAPI::mint_into(&mut sandbox, &1, &actor, 4).unwrap_err(),
        ApiError::Token(TokenError::BelowMinimum)
    );
    AssetsAPI::mint_into(&mut sandbox, &1, &actor, 10).unwrap();
    assert_eq!(
        AssetsAPI::transfer(&mut sandbox, &1, &actor, &8, 11).unwrap_err(),
        module_error(RuntimeError::Assets(AssetsError::BalanceLow))
    );
    assert_eq!(
        sandbox.burn(&1, &actor, 11).unwrap_err(),
        module_error(RuntimeError::Assets(AssetsError::BalanceLow))
    );
    sandbox.start_destroy(&1).unwrap();
    assert_eq!(
        AssetsAPI::mint_into(&mut sandbox, &1, &actor, 10).unwrap_err(),
        module_error(RuntimeError::Assets(AssetsError::AssetNotLive))
    );
}

#[test]
fn asset_metadata_rules() {
    let mut sandbox = Sandbox::default();
    let actor = Sandbox::default_actor();
    sandbox.create(&1, &actor, 1).unwrap();

    assert_eq!(
        sandbox
            .set_metadata(Origin::Root, &1, b"Coin".to_vec(), b"C".to_vec(), 6)
            .unwrap_err(),
        ApiError::BadOrigin
    );
    assert_eq!(
        sandbox
            .set_metadata(Origin::Signed(9), &1, b"Coin".to_vec(), b"C".to_vec(), 6)
            .unwrap_err(),
        module_error(RuntimeError::Assets(AssetsError::NoPermission))
    );
    assert_eq!(
        sandbox
            .set_metadata(Origin::Signed(actor), &1, vec![b'x'; 51], b"C".to_vec(), 6)
            .unwrap_err(),
        module_error(RuntimeError::Assets(AssetsError::BadMetadata))
    );
    sandbox
        .set_metadata(Origin::Signed(actor), &1, b"Coin".to_vec(), b"C".to_vec(), 6)
        .unwrap();
}

#[test]
fn approvals_overwrite() {
    let mut sandbox = Sandbox::default();
    let actor = Sandbox::default_actor();
    sandbox.create(&1, &actor, 1).unwrap();
    assert_eq!(sandbox.allowance(&1, &actor, &2), 0);
    sandbox.approve(&1, &actor, &2, 75).unwrap();
    assert_eq!(sandbox.allowance(&1, &actor, &2), 75);
    sandbox.approve(&1, &actor, &2, 20).unwrap();
    assert_eq!(sandbox.allowance(&1, &actor, &2), 20);
    assert_eq!(sandbox.allowance(&1, &2, &actor), 0);
    assert_eq!(
        sandbox.approve(&9, &actor, &2, 1).unwrap_err(),
        module_error(RuntimeError::Assets(AssetsError::Unknown))
    );
}

#[test]
fn balance_transfer_rules() {
    let mut sandbox = Sandbox::default();
    assert_eq!(
        BalancesAPI::transfer(&mut sandbox, &2, &3, 10).unwrap_err(),
        module_error(RuntimeError::Balances(BalancesError::InsufficientBalance))
    );
    assert_eq!(
        BalancesAPI::transfer(&mut sandbox, &DEFAULT_ACCOUNT, &3, 0).unwrap_err(),
        module_error(RuntimeError::Balances(BalancesError::ExistentialDeposit))
    );
    BalancesAPI::transfer(&mut sandbox, &DEFAULT_ACCOUNT, &3, 10).unwrap();
    assert_eq!(sandbox.free_balance(&3), 10);
    assert_eq!(sandbox.free_balance(&DEFAULT_ACCOUNT), INIT_AMOUNT - 10);
}

#[test]
fn extensions_register_and_replace() {
    let mut sandbox = Sandbox::default();
    assert_eq!(sandbox.registered_extensions().randomness_override, None);
    sandbox.register_extension(Extension::RandomnessOverride(4));
    sandbox.register_extension(Extension::Tracing(true));
    assert_eq!(sandbox.registered_extensions().randomness_override, Some(4));
    assert_eq!(sandbox.registered_extensions().tracing, Some(true));
    // Registering a second instance of the same kind replaces the first.
    sandbox.register_extension(Extension::RandomnessOverride(9));
    assert_eq!(sandbox.registered_extensions().randomness_override, Some(9));
    // Extensions registered inside a dry run survive it.
    let _ = sandbox.dry_run(|mut sb: Sandbox| {
        sb.register_extension(Extension::Tracing(false));
        (sb, ())
    });
    assert_eq!(sandbox.registered_extensions().tracing, Some(false));
}

#[test]
fn metadata_names_the_modules() {
    let md = Sandbox::get_metadata();
    let names: Vec<&str> = md.pallets.iter().map(|p| p.name.as_str()).collect();
    assert_eq!(names, vec!["System", "Assets", "Balances", "Timestamp", "Contracts"]);
    let indices: Vec<u8> = md.pallets.iter().map(|p| p.index).collect();
    assert_eq!(indices, vec![0, 1, 2, 3, 4]);
}

#[test]
fn origin_conversion_signs() {
    assert_eq!(Sandbox::convert_account_to_origin(42), Origin::Signed(42));
    assert_eq!(Sandbox::default_gas_limit(), Weight { ref_time: 100_000_000_000, proof_size: 3 * 1024 * 1024 });
}

#[test]
fn account_id_resolution_reads_little_endian() {
    let mut raw = [0u8; 32];
    raw[0] = 1;
    raw[1] = 2;
    assert_eq!(account_id_from_slice(&raw), 0x0201);
    assert_eq!(account_id_from_slice(&[0u8; 32]), 0);
}

#[test]
fn session_decodes_deploy_outcomes() {
    let mut session = Session::new(Sandbox::default());
    let address = deploy(
        &mut session,
        OpRecord {
            deploy: true,
            reverted: false,
            data: vec![0, 0],
            account: 77,
            contract_events: vec![],
        },
    )
    .unwrap();
    assert_eq!(address, 77);

    // A reverted deployment's status code sits after the two prefix bytes.
    let code = deploy(
        &mut session,
        OpRecord {
            deploy: true,
            reverted: true,
            data: vec![0, 0, 2, 0, 0, 0],
            account: 0,
            contract_events: vec![],
        },
    )
    .unwrap_err();
    assert_eq!(ApiError::from_status_code(code), ApiError::BadOrigin);
}

#[test]
fn session_decodes_call_outcomes() {
    let mut session = Session::new(Sandbox::default());
    let returned = call(
        &mut session,
        OpRecord {
            deploy: false,
            reverted: false,
            data: vec![0, 0, 9, 8, 7],
            account: 0,
            contract_events: vec![vec![1, 2, 3]],
        },
    )
    .unwrap();
    assert_eq!(returned, vec![9, 8, 7]);
    assert_eq!(last_contract_event(&session), Some(vec![1, 2, 3]));

    let code = call(
        &mut session,
        OpRecord {
            deploy: false,
            reverted: true,
            data: vec![0, 0, 3, 1, 0, 0],
            account: 0,
            contract_events: vec![],
        },
    )
    .unwrap_err();
    assert_eq!(
        ApiError::from_status_code(code),
        ApiError::Module { index: 1, error: [0, 0] }
    );
    assert_eq!(last_contract_event(&session), None);
}

#[test]
fn last_deploy_is_found_among_calls() {
    let mut session = Session::new(Sandbox::default());
    assert!(session.last_deploy_result().is_none());
    let _ = deploy(
        &mut session,
        OpRecord {
            deploy: true,
            reverted: false,
            data: vec![0, 0],
            account: 5,
            contract_events: vec![],
        },
    );
    let _ = call(
        &mut session,
        OpRecord {
            deploy: false,
            reverted: false,
            data: vec![0, 0],
            account: 0,
            contract_events: vec![],
        },
    );
    let last = session.last_deploy_result().unwrap();
    assert!(last.deploy);
    assert_eq!(last.account, 5);
}

#[test]
fn last_event_assertions_compare_bytes() {
    let mut session = Session::new(Sandbox::default());
    assert_eq!(
        assert_last_event_inner(&session, &vec![1, 2]).unwrap(),
        "assertion `left == right` failed\n  left: None\n right: [1, 2]"
    );
    let _ = call(
        &mut session,
        OpRecord {
            deploy: false,
            reverted: false,
            data: vec![0, 0],
            account: 0,
            contract_events: vec![vec![1, 2], vec![250, 0]],
        },
    );
    assert!(assert_last_event_inner(&session, &vec![250, 0]).is_none());
    assert_eq!(
        assert_last_event_inner(&session, &vec![1, 2]).unwrap(),
        "assertion `left == right` failed\n  left: [250, 0]\n right: [1, 2]"
    );
}

#[test]
fn chain_commands_drive_the_sandbox() {
    let mut sandbox = Sandbox::default();
    let mut info = ChainInfo { actor: DEFAULT_ACCOUNT, gas_limit: Sandbox::default_gas_limit() };

    assert_eq!(
        apply_chain_command(&mut sandbox, &mut info, &CliCommand::NextBlock { count: 3 }, 5),
        CliOutcome::Done
    );
    assert_eq!(sandbox.block_number(), 4);

    assert_eq!(
        apply_chain_command(
            &mut sandbox,
            &mut info,
            &CliCommand::AddTokens { recipient: 8, value: 500 },
            5
        ),
        CliOutcome::Done
    );
    assert_eq!(sandbox.free_balance(&8), 500);

    assert_eq!(
        apply_chain_command(&mut sandbox, &mut info, &CliCommand::SetActor { actor: 8 }, 5),
        CliOutcome::Done
    );
    assert_eq!(info.actor, 8);

    assert_eq!(
        apply_chain_command(
            &mut sandbox,
            &mut info,
            &CliCommand::SetGasLimit { ref_time: 10, proof_size: 20 },
            5
        ),
        CliOutcome::Done
    );
    assert_eq!(info.gas_limit, Weight { ref_time: 10, proof_size: 20 });

    assert_eq!(
        apply_chain_command(&mut sandbox, &mut info, &CliCommand::Build, 5),
        CliOutcome::External
    );
}
