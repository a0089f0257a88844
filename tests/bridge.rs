use token_bridge::address::{
    config_seeds_of, custody_seeds_of, custody_signer_seeds_of, derive_address, endpoint_seeds_of,
    mint_signer_seeds_of, verify_derivation, wrapped_meta_seeds_of, wrapped_mint_seeds_of, Address,
};
use token_bridge::amount::{settle_amounts, to_canonical, to_local};
use token_bridge::claim::{ClaimLedger, MessageId};
use token_bridge::error::BridgeError;
use token_bridge::initialize::{initialize, Initialize, InitializeData};
use token_bridge::transfer::{
    complete_native_with_payload, complete_wrapped_with_payload, settle_native,
    CompleteNativeWithPayload, CompleteNativeWithPayloadData, CompleteWrappedWithPayload,
    CompleteWrappedWithPayloadData, ConfigRecord, EndpointRecord, ExecutionContext, MintAccount, NativeDerivations,
    TokenAccount, TokenMovement, TransferMessage, WrappedMeta, LOCAL_CHAIN,
};

const PROGRAM: Address = [7u8; 32];
const EMITTER: Address = [9u8; 32];
const MINT: Address = [11u8; 32];
const RECIPIENT: Address = [13u8; 32];
const TO_ACCOUNT: Address = [15u8; 32];
const FEE_ACCOUNT: Address = [17u8; 32];
const PAYER: Address = [19u8; 32];
const FOREIGN_TOKEN: Address = [21u8; 32];

fn ctx() -> ExecutionContext {
    ExecutionContext { program_id: PROGRAM }
}

fn derived(seeds: &Vec<Vec<u8>>) -> Address {
    derive_address(&PROGRAM, seeds).expect("derivable")
}

fn registration() -> Option<EndpointRecord> {
    Some(EndpointRecord {
        address: derived(&endpoint_seeds_of(2, &EMITTER)),
        chain: 2,
        emitter_address: EMITTER,
    })
}

fn config() -> Option<ConfigRecord> {
    Some(ConfigRecord { address: derived(&config_seeds_of()), wormhole_bridge: [3u8; 32] })
}

fn message(token_chain: u16, token_address: Address, amount: u128, fee: u128) -> TransferMessage {
    TransferMessage {
        emitter_chain: 2,
        emitter_address: EMITTER,
        sequence: 42,
        token_address,
        token_chain,
        amount,
        fee,
        to: RECIPIENT,
        to_chain: LOCAL_CHAIN,
        from_address: [1u8; 32],
        payload: vec![1, 2, 3],
    }
}

fn native_accounts(amount: u128, fee: u128, decimals: u8) -> CompleteNativeWithPayload {
    let custody = derived(&custody_seeds_of(&MINT));
    let signer = derived(&custody_signer_seeds_of());
    CompleteNativeWithPayload {
        payer: PAYER,
        config: config(),
        vaa: message(LOCAL_CHAIN, MINT, amount, fee),
        chain_registration: registration(),
        to: TokenAccount { address: TO_ACCOUNT, mint: MINT, owner: RECIPIENT },
        to_owner: RECIPIENT,
        to_fees: TokenAccount { address: FEE_ACCOUNT, mint: MINT, owner: PAYER },
        custody: TokenAccount { address: custody, mint: MINT, owner: signer },
        mint: MintAccount { address: MINT, decimals },
        custody_signer: signer,
    }
}

fn wrapped_accounts(amount: u128, fee: u128, decimals: u8) -> CompleteWrappedWithPayload {
    let mint = derived(&wrapped_mint_seeds_of(2, &FOREIGN_TOKEN));
    CompleteWrappedWithPayload {
        payer: PAYER,
        config: config(),
        vaa: message(2, FOREIGN_TOKEN, amount, fee),
        chain_registration: registration(),
        to: TokenAccount { address: TO_ACCOUNT, mint, owner: RECIPIENT },
        to_owner: RECIPIENT,
        to_fees: TokenAccount { address: FEE_ACCOUNT, mint, owner: PAYER },
        mint: MintAccount { address: mint, decimals },
        wrapped_meta: WrappedMeta {
            address: derived(&wrapped_meta_seeds_of(&mint)),
            chain: 2,
            token_address: FOREIGN_TOKEN,
        },
        mint_authority: derived(&mint_signer_seeds_of()),
    }
}

fn native(accs: &CompleteNativeWithPayload, ledger: &mut ClaimLedger) -> Result<Vec<TokenMovement>, BridgeError> {
    complete_native_with_payload(&ctx(), accs, CompleteNativeWithPayloadData::default(), ledger)
}

fn wrapped(accs: &CompleteWrappedWithPayload, ledger: &mut ClaimLedger) -> Result<Vec<TokenMovement>, BridgeError> {
    complete_wrapped_with_payload(&ctx(), accs, CompleteWrappedWithPayloadData::default(), ledger)
}

#[test]
fn to_local_at_eight_places_is_identity() {
    assert_eq!(to_local(123_456_789, 8), Ok(123_456_789));
    assert_eq!(to_local(0, 8), Ok(0));
}

#[test]
fn to_local_at_eighteen_places_scales_by_ten_to_the_ten() {
    assert_eq!(to_local(5, 18), Ok(50_000_000_000));
    assert_eq!(to_local(1_000_000_000, 18), Ok(10_000_000_000_000_000_000));
    assert_eq!(to_local(2_000_000_000, 18), Err(BridgeError::ArithmeticOverflow));
}

#[test]
fn to_local_floors_below_eight_places() {
    assert_eq!(to_local(1_000_000_000, 6), Ok(10_000_000));
    assert_eq!(to_local(199, 6), Ok(1));
    assert_eq!(to_local(99_999_999, 0), Ok(0));
}

#[test]
fn to_local_overflow_cases() {
    assert_eq!(to_local(u64::MAX as u128 + 1, 8), Err(BridgeError::ArithmeticOverflow));
    assert_eq!(to_local(1, 255), Err(BridgeError::ArithmeticOverflow));
    assert_eq!(to_local(0, 255), Ok(0));
    assert_eq!(to_local(u64::MAX as u128, 8), Ok(u64::MAX));
}

#[test]
fn to_canonical_cases() {
    assert_eq!(to_canonical(50_000_000_000, 18), 5);
    assert_eq!(to_canonical(59_999_999_999, 18), 5);
    assert_eq!(to_canonical(10_000_000, 6), 1_000_000_000);
    assert_eq!(to_canonical(7, 8), 7);
    assert_eq!(to_canonical(u64::MAX, 255), 0);
    assert_eq!(to_canonical(u64::MAX, 0), u64::MAX as u128 * 100_000_000);
}

#[test]
fn settle_amounts_conserves_value() {
    assert_eq!(settle_amounts(1_000, 300, 8), Ok((700, 300)));
    assert_eq!(settle_amounts(1_000, 300, 10), Ok((70_000, 30_000)));
    assert_eq!(settle_amounts(1_000, 1_000, 8), Ok((0, 1_000)));
    let (n, f) = settle_amounts(12_345, 678, 6).unwrap();
    assert_eq!(n + f, 123);
    assert_eq!(f, 6);
}

#[test]
fn settle_amounts_errors() {
    assert_eq!(settle_amounts(100, 101, 8), Err(BridgeError::FeeExceedsAmount));
    assert_eq!(settle_amounts(u128::MAX, 0, 8), Err(BridgeError::ArithmeticOverflow));
    assert_eq!(settle_amounts(10, u128::MAX, 8), Err(BridgeError::ArithmeticOverflow));
}

#[test]
fn derivation_is_deterministic_and_role_bound() {
    let a = derive_address(&PROGRAM, &custody_seeds_of(&MINT)).unwrap();
    let b = derive_address(&PROGRAM, &custody_seeds_of(&MINT)).unwrap();
    assert_eq!(a, b);
    assert_ne!(a, PROGRAM);
    assert_ne!(a, MINT);
    let c = derive_address(&PROGRAM, &wrapped_meta_seeds_of(&MINT)).unwrap();
    assert_ne!(a, c);
    let d = derive_address(&[8u8; 32], &custody_seeds_of(&MINT)).unwrap();
    assert_ne!(a, d);
    assert_eq!(verify_derivation(&PROGRAM, &custody_seeds_of(&MINT), &a), Ok(()));
    assert_eq!(
        verify_derivation(&PROGRAM, &custody_seeds_of(&MINT), &c),
        Err(BridgeError::DerivationMismatch)
    );
}

#[test]
fn claim_ledger_first_writer_wins() {
    let mut ledger = ClaimLedger::new();
    let id = MessageId { emitter_chain: 2, emitter_address: EMITTER, sequence: 1 };
    let other = MessageId { emitter_chain: 2, emitter_address: EMITTER, sequence: 2 };
    assert!(!ledger.is_claimed(&id));
    assert_eq!(ledger.claim(id, PAYER), Ok(()));
    assert!(ledger.is_claimed(&id));
    assert!(!ledger.is_claimed(&other));
    assert_eq!(ledger.claim(id, [3u8; 32]), Err(BridgeError::AlreadyClaimed));
    assert_eq!(ledger.payer_of(&id), Some(PAYER));
    assert_eq!(ledger.payer_of(&other), None);
    assert_eq!(ledger.claim(other, [3u8; 32]), Ok(()));
    assert_eq!(ledger.payer_of(&other), Some([3u8; 32]));
    assert_eq!(ledger.payer_of(&id), Some(PAYER));
}

#[test]
fn native_release_scales_down_to_six_places() {
    let accs = native_accounts(1_000_000_000, 0, 6);
    let mut ledger = ClaimLedger::new();
    let moves = native(&accs, &mut ledger).unwrap();
    assert_eq!(
        moves,
        vec![
            TokenMovement::Transfer {
                source: accs.custody.address,
                destination: TO_ACCOUNT,
                authority: accs.custody_signer,
                amount: 10_000_000,
            },
            TokenMovement::Transfer {
                source: accs.custody.address,
                destination: FEE_ACCOUNT,
                authority: accs.custody_signer,
                amount: 0,
            },
        ]
    );
    assert!(ledger.is_claimed(&accs.vaa.id()));
    assert_eq!(ledger.payer_of(&accs.vaa.id()), Some(PAYER));
}

#[test]
fn native_release_splits_fee() {
    let accs = native_accounts(1_000, 250, 9);
    let mut ledger = ClaimLedger::new();
    let moves = native(&accs, &mut ledger).unwrap();
    assert_eq!(moves.len(), 2);
    match (moves[0], moves[1]) {
        (TokenMovement::Transfer { amount: n, .. }, TokenMovement::Transfer { amount: f, .. }) => {
            assert_eq!(n, 7_500);
            assert_eq!(f, 2_500);
        }
        _ => panic!("expected transfers"),
    }
}

#[test]
fn two_completions_of_one_message_succeed_once() {
    let accs = native_accounts(500, 5, 8);
    let mut ledger = ClaimLedger::new();
    assert!(native(&accs, &mut ledger).is_ok());
    let mut again = accs.clone();
    again.payer = [99u8; 32];
    assert_eq!(native(&again, &mut ledger), Err(BridgeError::AlreadyClaimed));
    assert_eq!(ledger.payer_of(&accs.vaa.id()), Some(PAYER));
    let w = wrapped_accounts(500, 5, 8);
    let mut ledger = ClaimLedger::new();
    assert!(wrapped(&w, &mut ledger).is_ok());
    assert_eq!(wrapped(&w, &mut ledger), Err(BridgeError::AlreadyClaimed));
}

#[test]
fn failed_completion_consumes_nothing() {
    let accs = native_accounts(5, 6, 8);
    let mut ledger = ClaimLedger::new();
    assert_eq!(native(&accs, &mut ledger), Err(BridgeError::FeeExceedsAmount));
    assert!(!ledger.is_claimed(&accs.vaa.id()));
    assert_eq!(native(&accs, &mut ledger), Err(BridgeError::FeeExceedsAmount));
}

#[test]
fn message_for_other_chain_is_refused() {
    let mut accs = native_accounts(500, 5, 8);
    accs.vaa.to_chain = 3;
    let mut ledger = ClaimLedger::new();
    assert_eq!(native(&accs, &mut ledger), Err(BridgeError::WrongDestinationChain));
    let mut w = wrapped_accounts(500, 5, 8);
    w.vaa.to_chain = 3;
    assert_eq!(wrapped(&w, &mut ledger), Err(BridgeError::WrongDestinationChain));
    assert!(!ledger.is_claimed(&accs.vaa.id()));
}

#[test]
fn unregistered_emitter_is_refused() {
    let mut accs = native_accounts(500, 5, 8);
    accs.chain_registration = Some(EndpointRecord { address: [1u8; 32], chain: 2, emitter_address: EMITTER });
    let mut ledger = ClaimLedger::new();
    assert_eq!(native(&accs, &mut ledger), Err(BridgeError::UntrustedEmitter));
    // The registration's address is the derived one, but it was never created.
    let mut accs = native_accounts(500, 5, 8);
    accs.chain_registration = None;
    assert_eq!(native(&accs, &mut ledger), Err(BridgeError::UntrustedEmitter));
    let mut w = wrapped_accounts(500, 5, 8);
    w.chain_registration = None;
    assert_eq!(wrapped(&w, &mut ledger), Err(BridgeError::UntrustedEmitter));
    // A record at the derived address that names another emitter.
    let mut accs = native_accounts(500, 5, 8);
    accs.chain_registration = Some(EndpointRecord {
        address: derived(&endpoint_seeds_of(2, &EMITTER)),
        chain: 2,
        emitter_address: [4u8; 32],
    });
    assert_eq!(native(&accs, &mut ledger), Err(BridgeError::UntrustedEmitter));
    assert!(!ledger.is_claimed(&accs.vaa.id()));
    let mut accs = native_accounts(500, 5, 8);
    accs.vaa.emitter_chain = 4;
    assert_eq!(native(&accs, &mut ledger), Err(BridgeError::UntrustedEmitter));
}

#[test]
fn recipient_and_owner_checks() {
    let mut ledger = ClaimLedger::new();
    let mut accs = native_accounts(500, 5, 8);
    accs.to_owner = [2u8; 32];
    assert_eq!(native(&accs, &mut ledger), Err(BridgeError::RecipientMismatch));
    let mut accs = native_accounts(500, 5, 8);
    accs.to.owner = [2u8; 32];
    assert_eq!(native(&accs, &mut ledger), Err(BridgeError::OwnerMismatch));
}

#[test]
fn asset_checks() {
    let mut ledger = ClaimLedger::new();
    let mut accs = native_accounts(500, 5, 8);
    accs.to_fees.mint = [2u8; 32];
    assert_eq!(native(&accs, &mut ledger), Err(BridgeError::AssetMismatch));
    let mut accs = native_accounts(500, 5, 8);
    accs.vaa.token_chain = 2;
    assert_eq!(native(&accs, &mut ledger), Err(BridgeError::AssetMismatch));
    let mut w = wrapped_accounts(500, 5, 8);
    w.wrapped_meta.chain = 5;
    assert_eq!(wrapped(&w, &mut ledger), Err(BridgeError::AssetMismatch));
    let mut w = wrapped_accounts(500, 5, 8);
    w.wrapped_meta.address = [2u8; 32];
    assert_eq!(wrapped(&w, &mut ledger), Err(BridgeError::AssetMismatch));
    let mut w = wrapped_accounts(500, 5, 8);
    w.vaa.token_address = [2u8; 32];
    w.wrapped_meta.token_address = [2u8; 32];
    assert_eq!(wrapped(&w, &mut ledger), Err(BridgeError::AssetMismatch));
    let mut w = wrapped_accounts(500, 5, 8);
    w.vaa.token_chain = LOCAL_CHAIN;
    w.wrapped_meta.chain = LOCAL_CHAIN;
    assert_eq!(wrapped(&w, &mut ledger), Err(BridgeError::AssetMismatch));
}

#[test]
fn each_privileged_role_is_checked() {
    let mut ledger = ClaimLedger::new();
    let mut accs = native_accounts(500, 5, 8);
    accs.custody.address = [2u8; 32];
    assert_eq!(native(&accs, &mut ledger), Err(BridgeError::DerivationMismatch));
    let mut accs = native_accounts(500, 5, 8);
    accs.custody_signer = [2u8; 32];
    accs.custody.owner = [2u8; 32];
    assert_eq!(native(&accs, &mut ledger), Err(BridgeError::DerivationMismatch));
    let mut accs = native_accounts(500, 5, 8);
    accs.custody.owner = [2u8; 32];
    assert_eq!(native(&accs, &mut ledger), Err(BridgeError::DerivationMismatch));
    let mut w = wrapped_accounts(500, 5, 8);
    w.mint_authority = [2u8; 32];
    assert_eq!(wrapped(&w, &mut ledger), Err(BridgeError::DerivationMismatch));
    let mut accs = native_accounts(500, 5, 8);
    accs.config = None;
    assert_eq!(native(&accs, &mut ledger), Err(BridgeError::DerivationMismatch));
    let mut w = wrapped_accounts(500, 5, 8);
    w.config = Some(ConfigRecord { address: [2u8; 32], wormhole_bridge: [3u8; 32] });
    assert_eq!(wrapped(&w, &mut ledger), Err(BridgeError::DerivationMismatch));
    assert!(!ledger.is_claimed(&accs.vaa.id()));
}

#[test]
fn wrapped_mint_pays_recipient_and_collector() {
    let w = wrapped_accounts(900, 100, 8);
    let mut ledger = ClaimLedger::new();
    let moves = wrapped(&w, &mut ledger).unwrap();
    assert_eq!(
        moves,
        vec![
            TokenMovement::MintTo {
                mint: w.mint.address,
                destination: TO_ACCOUNT,
                authority: w.mint_authority,
                amount: 800,
            },
            TokenMovement::MintTo {
                mint: w.mint.address,
                destination: FEE_ACCOUNT,
                authority: w.mint_authority,
                amount: 100,
            },
        ]
    );
}

#[test]
fn settle_native_with_given_derivations() {
    let accs = native_accounts(300, 0, 8);
    let d = NativeDerivations {
        registration: Some(accs.chain_registration.unwrap().address),
        config: Some(accs.config.unwrap().address),
        custody: Some(accs.custody.address),
        custody_signer: Some(accs.custody_signer),
    };
    let mut ledger = ClaimLedger::new();
    assert!(settle_native(&accs, &d, &mut ledger).is_ok());
    let d2 = NativeDerivations { custody_signer: None, ..d };
    let mut fresh = ClaimLedger::new();
    assert_eq!(settle_native(&accs, &d2, &mut fresh), Err(BridgeError::DerivationMismatch));
}

#[test]
fn initialize_creates_config_once() {
    let mut accs = Initialize { payer: PAYER, config: None };
    let data = InitializeData { bridge: [5u8; 32] };
    assert_eq!(initialize(&ctx(), &mut accs, data), Ok(()));
    assert_eq!(accs.config.map(|c| c.wormhole_bridge), Some([5u8; 32]));
    let again = InitializeData { bridge: [6u8; 32] };
    assert_eq!(initialize(&ctx(), &mut accs, again), Err(BridgeError::AlreadyInitialized));
    assert_eq!(accs.config.map(|c| c.wormhole_bridge), Some([5u8; 32]));
}
