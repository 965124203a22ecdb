use solana_sdk::pubkey::Pubkey;
use solana_sdk::signature::{Keypair, Signer};
use token_minter::address::Address;
use token_minter::chain::SignerKey;
use token_minter::orchestrator::{create_token, instructions_for, mint_token, update_metadata};
use token_minter::plan::{Step, TokenMetadata};

fn address_of(k: &Keypair) -> Address {
    Address::from_bytes(k.pubkey().to_bytes())
}

fn key_copy(k: &Keypair) -> Keypair {
    Keypair::from_bytes(&k.to_bytes()).unwrap()
}

#[test]
fn signer_key_reports_its_public_key() {
    let k = Keypair::new();
    let expected = address_of(&k);
    assert_eq!(SignerKey::new(k).address(), expected);
}

#[test]
fn mint_token_signs_one_mint_instruction() {
    let owner = Keypair::new();
    let owner_addr = address_of(&owner);
    let mint = Address::from_bytes([4; 32]);
    let dest = Address::from_bytes([5; 32]);
    let signed = mint_token(&SignerKey::new(owner), 1000000000000000, mint, dest, [9; 32]).unwrap();
    assert_eq!(signed.plan.fee_payer, owner_addr);
    assert!(signed.signed.transaction().is_signed());
    assert_eq!(signed.signed.transaction().message.recent_blockhash.to_bytes(), [9; 32]);
    assert_eq!(signed.signed.transaction().message.instructions.len(), 1);
    let ixs = instructions_for(&signed.plan);
    assert_eq!(ixs.len(), 1);
    assert_eq!(ixs[0].ix().program_id, spl_token::ID);
    assert_eq!(ixs[0].ix().accounts[0].pubkey, Pubkey::new_from_array([4; 32]));
    assert_eq!(ixs[0].ix().accounts[1].pubkey, Pubkey::new_from_array([5; 32]));
    // tag 7 is MintTo, followed by the amount in little-endian order
    let mut data = vec![7u8];
    data.extend_from_slice(&1000000000000000u64.to_le_bytes());
    assert_eq!(ixs[0].ix().data, data);
}

#[test]
fn create_token_mints_into_the_derived_associated_account() {
    let payer = Keypair::new();
    let mint = Keypair::new();
    let expected = spl_associated_token_account::get_associated_token_address(&payer.pubkey(), &mint.pubkey());
    let signed = create_token(&SignerKey::new(key_copy(&payer)), &SignerKey::new(key_copy(&mint)), 82, 1461600, [3; 32]).unwrap();
    assert!(signed.signed.transaction().is_signed());
    assert_eq!(signed.signed.transaction().message.instructions.len(), 4);
    assert_eq!(signed.signed.transaction().signatures.len(), 2);
    assert_eq!(signed.signed.transaction().message.recent_blockhash.to_bytes(), [3; 32]);
    assert_eq!(signed.signed.transaction().message.account_keys[0], payer.pubkey());
    assert_eq!(signed.plan.co_signer, Some(address_of(&mint)));
    match (&signed.plan.steps[2], &signed.plan.steps[3]) {
        (Step::CreateAssociatedAccount { account, .. }, Step::MintTo { destination, amount, .. }) => {
            assert_eq!(*account, Address::from_bytes(expected.to_bytes()));
            assert_eq!(*destination, *account);
            assert_eq!(*amount, 100000000);
        }
        other => panic!("unexpected steps {:?}", other),
    }
    let ixs = instructions_for(&signed.plan);
    assert_eq!(ixs[0].ix().program_id, solana_sdk::system_program::ID);
    assert_eq!(ixs[1].ix().program_id, spl_token::ID);
    assert_eq!(ixs[2].ix().program_id, spl_associated_token_account::ID);
    assert_eq!(ixs[3].ix().program_id, spl_token::ID);
}

#[test]
fn associated_address_is_the_same_on_each_derivation() {
    let payer = Keypair::new();
    let mint = Keypair::new();
    let first = create_token(&SignerKey::new(key_copy(&payer)), &SignerKey::new(key_copy(&mint)), 82, 1, [1; 32]).unwrap();
    let second = create_token(&SignerKey::new(key_copy(&payer)), &SignerKey::new(key_copy(&mint)), 82, 2, [2; 32]).unwrap();
    match (&first.plan.steps[2], &second.plan.steps[2]) {
        (Step::CreateAssociatedAccount { account: a, .. }, Step::CreateAssociatedAccount { account: b, .. }) => {
            assert_eq!(a, b);
            assert_ne!(*a, address_of(&payer));
        }
        other => panic!("unexpected steps {:?}", other),
    }
}

#[test]
fn update_metadata_targets_the_metadata_program_address() {
    let payer = Keypair::new();
    let mint = Pubkey::new_unique();
    let (expected, _) = mpl_token_metadata::accounts::Metadata::find_pda(&mint);
    let data = TokenMetadata {
        name: "Sample".to_string(),
        symbol: "SMP".to_string(),
        uri: "https://example.com/sample.json".to_string(),
        seller_fee_basis_points: 0,
        is_mutable: true,
    };
    let signed = update_metadata(&SignerKey::new(payer), Address::from_bytes(mint.to_bytes()), data, [8; 32]).unwrap();
    assert!(signed.signed.transaction().is_signed());
    match &signed.plan.steps[0] {
        Step::CreateMetadata { metadata, mint: m, .. } => {
            assert_eq!(*metadata, Address::from_bytes(expected.to_bytes()));
            assert_eq!(*m, Address::from_bytes(mint.to_bytes()));
        }
        other => panic!("unexpected step {:?}", other),
    }
    let ixs = instructions_for(&signed.plan);
    assert_eq!(ixs[0].ix().program_id, mpl_token_metadata::ID);
    assert_eq!(ixs[0].ix().accounts[0].pubkey, expected);
    // the payer is also handed over as the rent account, the last of seven
    assert_eq!(ixs[0].ix().accounts.len(), 7);
    assert_eq!(ixs[0].ix().accounts[6].pubkey, signed.signed.transaction().message.account_keys[0]);
    assert_eq!(signed.signed.transaction().signatures.len(), 1);
}
