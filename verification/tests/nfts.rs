//! Tests of the non-fungibles API.

use pop_drink::api::nfts_api::NftsAPI;
use pop_drink::errors::v0::ApiError;
use pop_drink::nfts::CollectionDetails;
use pop_drink::runtime::{module_error, NftsError, RuntimeError};
use pop_drink::sandbox::Sandbox;
use pop_drink::Origin;

#[test]
fn nfts_api_api_works() {
    let mut sandbox = Sandbox::default();
    let actor = Sandbox::default_actor();
    let other = 2;
    let collection = sandbox.next_collection_id();
    let item = 1;

    sandbox.create(Origin::Signed(actor), &other).unwrap();
    assert_eq!(sandbox.total_supply(collection), 0);
    assert_eq!(sandbox.collection_owner(&collection), Some(actor));
    assert_eq!(
        sandbox.collection(&collection),
        Some(CollectionDetails { owner: actor, items: 0 })
    );

    sandbox.mint(Origin::Signed(actor), collection, item, &actor).unwrap();
    assert_eq!(sandbox.total_supply(collection), 1);
    assert_eq!(NftsAPI::balance_of(&mut sandbox, &collection, &actor), 1);
    assert_eq!(sandbox.owner(&collection, &item), Some(actor));
    assert_eq!(sandbox.item(&collection, &item).map(|i| i.owner), Some(actor));

    sandbox.transfer(Origin::Signed(actor), collection, item, &other).unwrap();
    assert_eq!(NftsAPI::balance_of(&mut sandbox, &collection, &other), 1);
    assert_eq!(sandbox.owner(&collection, &item), Some(other));
}

#[test]
fn nft_errors_are_exact() {
    let mut sandbox = Sandbox::default();
    let actor = Sandbox::default_actor();

    assert_eq!(
        sandbox.mint(Origin::Signed(actor), 0, 1, &actor).unwrap_err(),
        module_error(RuntimeError::Nfts(NftsError::UnknownCollection))
    );
    assert_eq!(sandbox.create(Origin::Root, &actor).unwrap_err(), ApiError::BadOrigin);
    sandbox.create(Origin::Signed(actor), &actor).unwrap();
    assert_eq!(
        sandbox.mint(Origin::Signed(9), 0, 1, &actor).unwrap_err(),
        module_error(RuntimeError::Nfts(NftsError::NoPermission))
    );
    sandbox.mint(Origin::Signed(actor), 0, 1, &actor).unwrap();
    assert_eq!(
        sandbox.mint(Origin::Signed(actor), 0, 1, &actor).unwrap_err(),
        module_error(RuntimeError::Nfts(NftsError::AlreadyExists))
    );
    assert_eq!(
        NftsAPI::transfer(&mut sandbox, Origin::Signed(9), 0, 1, &9).unwrap_err(),
        module_error(RuntimeError::Nfts(NftsError::WrongOwner))
    );
    assert_eq!(
        NftsAPI::transfer(&mut sandbox, Origin::Signed(actor), 0, 2, &9).unwrap_err(),
        module_error(RuntimeError::Nfts(NftsError::UnknownItem))
    );
    assert_eq!(
        sandbox.destroy(Origin::Signed(actor), 0).unwrap_err(),
        module_error(RuntimeError::Nfts(NftsError::CollectionNotEmpty))
    );
    NftsAPI::burn(&mut sandbox, Origin::Signed(actor), 0, 1).unwrap();
    assert_eq!(sandbox.total_supply(0), 0);
    sandbox.destroy(Origin::Signed(actor), 0).unwrap();
    assert_eq!(sandbox.collection(&0), None);
}
