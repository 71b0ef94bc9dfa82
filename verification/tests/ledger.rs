//! The ledger's behavior under the dispatched request flow: one deployer
//! initializes, then callers send decoded requests.

use fungible_token::{
    handle, init, ActorId, FTAction, FTEvent, FTInitialConfiguration, FungibleToken,
    GENESIS_SUPPLY,
};

const ZERO_ID: u64 = 0;
const DEPLOYER: u64 = 13;
const ALICE: u64 = 14;
const BOB: u64 = 15;

const TOTAL_SUPPLY: u128 = GENESIS_SUPPLY;

/// An account identifier from a small test number, the number in the first
/// bytes, little-endian.
fn actor(n: u64) -> ActorId {
    let mut bytes = [0u8; 32];
    bytes[..8].copy_from_slice(&n.to_le_bytes());
    ActorId::new(bytes)
}

fn init_with_mint() -> FungibleToken {
    let config = FTInitialConfiguration {
        name: String::from("MyToken"),
        symbol: String::from("MTK"),
        decimals: 18,
    };
    let (token, event) = init(config, actor(DEPLOYER));
    assert_eq!(
        event,
        FTEvent::Transfer {
            from: actor(ZERO_ID),
            to: actor(DEPLOYER),
            amount: TOTAL_SUPPLY,
        }
    );
    token
}

fn send(token: &mut FungibleToken, sender: u64, action: FTAction) -> Result<FTEvent, fungible_token::FTError> {
    handle(token, actor(sender), actor(sender), action)
}

#[test]
fn mint_after_deploy_should_mint() {
    let mut token = init_with_mint();

    let result = send(&mut token, DEPLOYER, FTAction::BalanceOf(actor(DEPLOYER)));
    assert_eq!(result, Ok(FTEvent::Balance(TOTAL_SUPPLY)));
}

#[test]
fn burn_as_owner_should_burned() {
    let mut token = init_with_mint();

    let result = send(&mut token, DEPLOYER, FTAction::Burn(1000));
    assert_eq!(
        result,
        Ok(FTEvent::Transfer {
            from: actor(DEPLOYER),
            to: actor(ZERO_ID),
            amount: 1000,
        })
    );

    let result = send(&mut token, DEPLOYER, FTAction::BalanceOf(actor(DEPLOYER)));
    assert_eq!(result, Ok(FTEvent::Balance(TOTAL_SUPPLY - 1000)));
}

#[test]
fn burn_more_than_owner_has_should_fail() {
    let mut token = init_with_mint();

    let result = send(&mut token, DEPLOYER, FTAction::Burn(TOTAL_SUPPLY + 1));
    assert!(result.is_err());
}

#[test]
fn burn_as_alice_should_fail() {
    let mut token = init_with_mint();

    let result = send(&mut token, ALICE, FTAction::Burn(1));
    assert!(result.is_err());
}

#[test]
fn transfer_from_owner_to_alice_should_transfered_whithout_approve() {
    let mut token = init_with_mint();

    let result = send(
        &mut token,
        DEPLOYER,
        FTAction::TransferFrom {
            from: actor(DEPLOYER),
            to: actor(ALICE),
            amount: 500,
        },
    );
    assert_eq!(
        result,
        Ok(FTEvent::Transfer {
            from: actor(DEPLOYER),
            to: actor(ALICE),
            amount: 500,
        })
    );

    let result = send(&mut token, DEPLOYER, FTAction::BalanceOf(actor(DEPLOYER)));
    assert_eq!(result, Ok(FTEvent::Balance(TOTAL_SUPPLY - 500)));

    let result = send(&mut token, DEPLOYER, FTAction::BalanceOf(actor(ALICE)));
    assert_eq!(result, Ok(FTEvent::Balance(500)));
}

#[test]
fn transfer_as_owner_to_alice_more_than_owner_has_should_fail() {
    let mut token = init_with_mint();

    let result = send(
        &mut token,
        DEPLOYER,
        FTAction::TransferFrom {
            from: actor(DEPLOYER),
            to: actor(ALICE),
            amount: TOTAL_SUPPLY + 200_000,
        },
    );
    assert!(result.is_err());

    let result = send(
        &mut token,
        BOB,
        FTAction::TransferFrom {
            from: actor(DEPLOYER),
            to: actor(ZERO_ID),
            amount: 100,
        },
    );
    assert!(result.is_err());
}

#[test]
fn transfer_as_owner_to_zero_address_should_fail() {
    let mut token = init_with_mint();

    let result = send(
        &mut token,
        BOB,
        FTAction::TransferFrom {
            from: actor(DEPLOYER),
            to: actor(ZERO_ID),
            amount: 100,
        },
    );
    assert!(result.is_err());
}

#[test]
fn approve_and_transfer() {
    let mut token = init_with_mint();

    let result = send(
        &mut token,
        DEPLOYER,
        FTAction::Approve {
            to: actor(ALICE),
            amount: 500,
        },
    );
    assert_eq!(
        result,
        Ok(FTEvent::Approve {
            from: actor(DEPLOYER),
            to: actor(ALICE),
            amount: 500,
        })
    );

    let result = send(
        &mut token,
        ALICE,
        FTAction::TransferFrom {
            from: actor(DEPLOYER),
            to: actor(BOB),
            amount: 200,
        },
    );
    assert_eq!(
        result,
        Ok(FTEvent::Transfer {
            from: actor(DEPLOYER),
            to: actor(BOB),
            amount: 200,
        })
    );

    let result = send(&mut token, DEPLOYER, FTAction::BalanceOf(actor(DEPLOYER)));
    assert_eq!(result, Ok(FTEvent::Balance(TOTAL_SUPPLY - 200)));

    let result = send(&mut token, DEPLOYER, FTAction::BalanceOf(actor(BOB)));
    assert_eq!(result, Ok(FTEvent::Balance(200)));

    let result = send(
        &mut token,
        ALICE,
        FTAction::TransferFrom {
            from: actor(DEPLOYER),
            to: actor(BOB),
            amount: 800,
        },
    );
    assert!(result.is_err());
}
