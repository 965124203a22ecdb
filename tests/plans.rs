use token_minter::address::Address;
use token_minter::plan::{
    create_token_plan, mint_token_plan, update_metadata_plan, Step, TokenMetadata, INITIAL_SUPPLY,
    TOKEN_DECIMALS,
};

fn addr(b: u8) -> Address {
    Address::from_bytes([b; 32])
}

fn sample_metadata() -> TokenMetadata {
    TokenMetadata {
        name: "Sample".to_string(),
        symbol: "SMP".to_string(),
        uri: "https://example.com/sample.json".to_string(),
        seller_fee_basis_points: 0,
        is_mutable: true,
    }
}

#[test]
fn mint_plan_holds_one_mint_to_destination() {
    let plan = mint_token_plan(addr(1), 1000000000000000, addr(2), addr(3));
    assert_eq!(plan.steps.len(), 1);
    assert_eq!(plan.fee_payer, addr(1));
    assert!(plan.co_signer.is_none());
    match &plan.steps[0] {
        Step::MintTo { mint, destination, authority, signer, co_signer, amount } => {
            assert_eq!(*mint, addr(2));
            assert_eq!(*destination, addr(3));
            assert_eq!(*authority, addr(1));
            assert_eq!(*signer, addr(1));
            assert!(co_signer.is_none());
            assert_eq!(*amount, 1000000000000000);
        }
        other => panic!("unexpected step {:?}", other),
    }
}

#[test]
fn create_plan_holds_four_steps_in_order() {
    let plan = create_token_plan(addr(1), addr(2), 1461600, 82, addr(9));
    assert_eq!(plan.steps.len(), 4);
    assert_eq!(plan.fee_payer, addr(1));
    assert_eq!(plan.co_signer, Some(addr(2)));
    match &plan.steps[0] {
        Step::CreateAccount { funder, account, lamports, space } => {
            assert_eq!((*funder, *account, *lamports, *space), (addr(1), addr(2), 1461600, 82));
        }
        other => panic!("unexpected step {:?}", other),
    }
    match &plan.steps[1] {
        Step::InitializeMint { mint, authority, freeze_authority, decimals } => {
            assert_eq!((*mint, *authority, *freeze_authority), (addr(2), addr(1), addr(1)));
            assert_eq!(*decimals, 6);
        }
        other => panic!("unexpected step {:?}", other),
    }
    match &plan.steps[2] {
        Step::CreateAssociatedAccount { funder, wallet, mint, account } => {
            assert_eq!((*funder, *wallet, *mint, *account), (addr(1), addr(1), addr(2), addr(9)));
        }
        other => panic!("unexpected step {:?}", other),
    }
    match &plan.steps[3] {
        Step::MintTo { mint, destination, authority, signer, co_signer, amount } => {
            assert_eq!((*mint, *destination, *authority, *signer), (addr(2), addr(9), addr(1), addr(2)));
            assert_eq!(*co_signer, Some(addr(1)));
            assert_eq!(*amount, 100000000);
        }
        other => panic!("unexpected step {:?}", other),
    }
}

#[test]
fn initial_supply_is_a_hundred_whole_six_decimal_tokens() {
    assert_eq!(TOKEN_DECIMALS, 6);
    assert_eq!(INITIAL_SUPPLY, 100000000);
}

#[test]
fn metadata_plan_holds_one_step_signed_by_payer() {
    let plan = update_metadata_plan(addr(1), addr(2), addr(7), sample_metadata());
    assert_eq!(plan.steps.len(), 1);
    assert_eq!(plan.fee_payer, addr(1));
    assert!(plan.co_signer.is_none());
    match &plan.steps[0] {
        Step::CreateMetadata { metadata, mint, mint_authority, payer, update_authority, update_authority_signs, rent, data } => {
            assert_eq!((*metadata, *mint), (addr(7), addr(2)));
            assert_eq!((*mint_authority, *payer, *update_authority), (addr(1), addr(1), addr(1)));
            assert!(*update_authority_signs);
            assert_eq!(*rent, Some(addr(1)));
            assert_eq!(data.name, "Sample");
            assert_eq!(data.symbol, "SMP");
            assert!(data.is_mutable);
        }
        other => panic!("unexpected step {:?}", other),
    }
}

#[test]
fn address_round_trips_its_bytes() {
    let mut b = [0u8; 32];
    b[0] = 7;
    b[31] = 200;
    assert_eq!(Address::from_bytes(b).to_bytes(), b);
}
