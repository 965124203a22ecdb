use vstd::prelude::*;
use crate::address::Address;
use crate::plan::{required_signers, Step, TokenMetadata};
use mpl_token_metadata::instructions::{CreateMetadataAccountV3, CreateMetadataAccountV3InstructionArgs};
use mpl_token_metadata::types::DataV2;
use solana_program::instruction::Instruction;
use solana_program::system_program;
use solana_program::pubkey::Pubkey;
use solana_sdk::signature::Keypair;
use solana_sdk::signer::Signer;
use solana_sdk::transaction::Transaction;

verus! {

#[verifier::external_type_specification]
#[verifier::external_body]
pub struct ExInstruction(Instruction);

#[verifier::external_type_specification]
#[verifier::external_body]
pub struct ExKeypair(Keypair);

#[verifier::external_type_specification]
#[verifier::external_body]
pub struct ExTransaction(Transaction);

/// The associated token account derived for a wallet and a mint, when a
/// program address exists.
pub uninterp spec fn associated_address_of(wallet: Seq<u8>, mint: Seq<u8>) -> Option<Seq<u8>>;

/// The metadata account derived for a mint, when a program address exists.
pub uninterp spec fn metadata_address_of(mint: Seq<u8>) -> Option<Seq<u8>>;

/// The associated account of a wallet and a mint is one address: the same
/// wallet and mint give the same address.
pub proof fn associated_address_is_deterministic(
    wallet: Seq<u8>,
    mint: Seq<u8>,
    wallet2: Seq<u8>,
    mint2: Seq<u8>,
)
    requires
        wallet == wallet2,
        mint == mint2,
    ensures
        associated_address_of(wallet, mint) == associated_address_of(wallet2, mint2),
{
}

/// Relies on Pubkey::try_find_program_address with the seeds that
/// spl_associated_token_account derives an associated account from (the
/// wallet, the token program's id and the mint), under the associated token
/// account program: the result depends on wallet and mint alone. Three seeds
/// of 32 bytes each are within its limits, so it does not panic.
#[verifier::external_body]
pub(crate) fn associated_token_address(wallet: &Address, mint: &Address) -> (r: Option<Address>)
    ensures
        r is Some <==> associated_address_of(wallet@, mint@) is Some,
        r is Some ==> r->Some_0@ == associated_address_of(wallet@, mint@)->Some_0,
{
    let found = Pubkey::try_find_program_address(
        &[&wallet.bytes, spl_token::ID.as_ref(), &mint.bytes],
        &spl_associated_token_account::id(),
    );
    found.map(|(a, _bump)| Address { bytes: a.to_bytes() })
}

/// Relies on Pubkey::try_find_program_address with the seeds "metadata", the
/// metadata program's id and the mint, under the metadata program: the
/// result depends on the mint alone. Three seeds of at most 32 bytes each
/// are within its limits, so it does not panic.
#[verifier::external_body]
pub(crate) fn metadata_address(mint: &Address) -> (r: Option<Address>)
    ensures
        r is Some <==> metadata_address_of(mint@) is Some,
        r is Some ==> r->Some_0@ == metadata_address_of(mint@)->Some_0,
{
    let program = mpl_token_metadata::ID;
    let found = Pubkey::try_find_program_address(
        &[b"metadata", program.as_ref(), &mint.bytes],
        &program,
    );
    found.map(|(a, _bump)| Address { bytes: a.to_bytes() })
}

/// A built instruction with the step it performs.
pub struct Instr {
    ix: Instruction,
    model: Ghost<Step>,
}

impl Instr {
    pub fn ix(&self) -> (r: &Instruction) {
        &self.ix
    }

    pub closed spec fn model(&self) -> Step {
        self.model@
    }
}

/// Relies on system_instruction::create_account, with the token program as
/// the new account's owner (the only owner that `Step::CreateAccount`
/// stands for); it returns an instruction on every input.
#[verifier::external_body]
pub(crate) fn create_account_instruction(
    funder: &Address,
    account: &Address,
    lamports: u64,
    space: u64,
) -> (r: Instr)
    ensures
        r.model() == (Step::CreateAccount { funder: *funder, account: *account, lamports, space }),
{
    let ix = solana_program::system_instruction::create_account(
        &Pubkey::new_from_array(funder.bytes),
        &Pubkey::new_from_array(account.bytes),
        lamports,
        space,
        &spl_token::ID,
    );
    Instr { ix, model: Ghost(Step::CreateAccount { funder: *funder, account: *account, lamports, space }) }
}

/// Relies on spl_token::instruction::initialize_mint, which fails only when
/// handed another program id than the token program's.
#[verifier::external_body]
pub(crate) fn initialize_mint_instruction(
    mint: &Address,
    authority: &Address,
    freeze_authority: &Address,
    decimals: u8,
) -> (r: Option<Instr>)
    ensures
        r is Some,
        r->Some_0.model() == (Step::InitializeMint {
            mint: *mint,
            authority: *authority,
            freeze_authority: *freeze_authority,
            decimals,
        }),
{
    let ix = spl_token::instruction::initialize_mint(
        &spl_token::ID,
        &Pubkey::new_from_array(mint.bytes),
        &Pubkey::new_from_array(authority.bytes),
        Some(&Pubkey::new_from_array(freeze_authority.bytes)),
        decimals,
    ).ok()?;
    let model = Ghost(Step::InitializeMint { mint: *mint, authority: *authority, freeze_authority: *freeze_authority, decimals });
    Some(Instr { ix, model })
}

/// Relies on spl_associated_token_account::instruction::create_associated_token_account
/// under the token program, which derives the new account as
/// `associated_token_address` does; it panics where no such address exists,
/// which `requires` leaves out, and otherwise returns an instruction.
#[verifier::external_body]
pub(crate) fn create_associated_account_instruction(
    funder: &Address,
    wallet: &Address,
    mint: &Address,
    account: &Address,
) -> (r: Instr)
    requires
        associated_address_of(wallet@, mint@) == Some(account@),
    ensures
        r.model() == (Step::CreateAssociatedAccount {
            funder: *funder,
            wallet: *wallet,
            mint: *mint,
            account: *account,
        }),
{
    let ix = spl_associated_token_account::instruction::create_associated_token_account(
        &Pubkey::new_from_array(funder.bytes),
        &Pubkey::new_from_array(wallet.bytes),
        &Pubkey::new_from_array(mint.bytes),
        &spl_token::ID,
    );
    let model = Ghost(Step::CreateAssociatedAccount { funder: *funder, wallet: *wallet, mint: *mint, account: *account });
    Instr { ix, model }
}

/// Relies on spl_token::instruction::mint_to, which fails only when handed
/// another program id than the token program's. The authority is given
/// `signer` (and `co_signer`) as signers, so it does not sign itself.
#[verifier::external_body]
pub(crate) fn mint_to_instruction(
    mint: &Address,
    destination: &Address,
    authority: &Address,
    signer: &Address,
    co_signer: &Option<Address>,
    amount: u64,
) -> (r: Option<Instr>)
    ensures
        r is Some,
        r->Some_0.model() == (Step::MintTo {
            mint: *mint,
            destination: *destination,
            authority: *authority,
            signer: *signer,
            co_signer: *co_signer,
            amount,
        }),
{
    let first = Pubkey::new_from_array(signer.bytes);
    let second = co_signer.map(|a| Pubkey::new_from_array(a.bytes));
    let signers: Vec<&Pubkey> = std::iter::once(&first).chain(second.iter()).collect();
    let (m, d, a) = (Pubkey::new_from_array(mint.bytes), Pubkey::new_from_array(destination.bytes), Pubkey::new_from_array(authority.bytes));
    let ix = spl_token::instruction::mint_to(&spl_token::ID, &m, &d, &a, &signers, amount).ok()?;
    let model = Ghost(Step::MintTo { mint: *mint, destination: *destination, authority: *authority, signer: *signer, co_signer: *co_signer, amount });
    Some(Instr { ix, model })
}

/// Relies on mpl_token_metadata's CreateMetadataAccountV3 builder with the
/// system program; its borsh encoding of a string
/// fails beyond u32::MAX bytes, which `fits` rules out.
#[verifier::external_body]
pub(crate) fn create_metadata_instruction(
    metadata: Address,
    mint: Address,
    mint_authority: Address,
    payer: Address,
    update_authority: Address,
    update_authority_signs: bool,
    rent: Option<Address>,
    data: &TokenMetadata,
) -> (r: Instr)
    requires
        data.fits(),
    ensures
        r.model() == (Step::CreateMetadata {
            metadata,
            mint,
            mint_authority,
            payer,
            update_authority,
            update_authority_signs,
            rent,
            data: *data,
        }),
{
    let key = |a: Address| Pubkey::new_from_array(a.bytes);
    let d = DataV2 { name: data.name.clone(), symbol: data.symbol.clone(), uri: data.uri.clone(), seller_fee_basis_points: data.seller_fee_basis_points, creators: None, collection: None, uses: None };
    let args = CreateMetadataAccountV3InstructionArgs { data: d, is_mutable: data.is_mutable, collection_details: None };
    let ix = CreateMetadataAccountV3 { metadata: key(metadata), mint: key(mint), mint_authority: key(mint_authority), payer: key(payer), update_authority: (key(update_authority), update_authority_signs), system_program: system_program::ID, rent: rent.map(key) }.instruction(args);
    Instr { ix, model: Ghost(Step::CreateMetadata { metadata, mint, mint_authority, payer, update_authority, update_authority_signs, rent, data: *data }) }
}

/// A key pair that approves transactions, with its address.
pub struct SignerKey {
    keypair: Keypair,
    address: Address,
}

impl SignerKey {
    pub closed spec fn address_spec(&self) -> Address {
        self.address
    }

    pub fn new(keypair: Keypair) -> (r: SignerKey) {
        let address = keypair_address(&keypair);
        SignerKey { keypair, address }
    }

    pub fn address(&self) -> (r: Address)
        ensures
            r == self.address_spec(),
    {
        self.address
    }
}

/// Relies on Keypair::pubkey: the public half of the key pair, which
/// `SignerKey` keeps beside it.
#[verifier::external_body]
fn keypair_address(keypair: &Keypair) -> (r: Address) {
    Address { bytes: keypair.pubkey().to_bytes() }
}

/// A signed transaction with what it holds: its steps in order, its fee
/// payer, its recency anchor and the keys that signed it.
pub struct SignedTx {
    transaction: Transaction,
    steps: Ghost<Seq<Step>>,
    fee_payer: Ghost<Address>,
    recent_blockhash: Ghost<[u8; 32]>,
    signers: Ghost<Set<Address>>,
}

impl SignedTx {
    pub fn transaction(&self) -> (r: &Transaction) {
        &self.transaction
    }

    pub closed spec fn steps(&self) -> Seq<Step> {
        self.steps@
    }

    pub closed spec fn fee_payer(&self) -> Address {
        self.fee_payer@
    }

    pub closed spec fn recent_blockhash(&self) -> [u8; 32] {
        self.recent_blockhash@
    }

    pub closed spec fn signers(&self) -> Set<Address> {
        self.signers@
    }
}

pub open spec fn models(instructions: Seq<Instr>) -> Seq<Step> {
    Seq::new(instructions.len(), |i: int| instructions[i].model())
}

pub open spec fn key_set(payer: &SignerKey, co_signer: Option<&SignerKey>) -> Set<Address> {
    match co_signer {
        Some(k) => set![payer.address_spec(), k.address_spec()],
        None => set![payer.address_spec()],
    }
}

/// Relies on Transaction::new_with_payer and Transaction::try_sign. The
/// message's signers are the fee payer and every account an instruction
/// marks as signer; try_sign fails when a key is not among them
/// (KeypairPubkeyMismatch) or one of them has no key (NotEnoughSigners).
/// Each instruction names at most 8 accounts, so 31 of them stay within the
/// 255 accounts of a class that Message::new can compile.
#[verifier::external_body]
pub(crate) fn sign_transaction(
    instructions: Vec<Instr>,
    fee_payer: &Address,
    payer: &SignerKey,
    co_signer: Option<&SignerKey>,
    recent_blockhash: [u8; 32],
) -> (r: Option<SignedTx>)
    requires
        instructions@.len() <= 31,
    ensures
        r is Some <==> key_set(payer, co_signer) == required_signers(models(instructions@), *fee_payer),
        r is Some ==> r->Some_0.steps() == models(instructions@),
        r is Some ==> r->Some_0.fee_payer() == *fee_payer,
        r is Some ==> r->Some_0.recent_blockhash() == recent_blockhash,
        r is Some ==> r->Some_0.signers() == key_set(payer, co_signer),
{
    let (steps, signers) = (Ghost(models(instructions@)), Ghost(key_set(payer, co_signer)));
    let ixs: Vec<Instruction> = instructions.into_iter().map(|i| i.ix).collect();
    let mut tx = Transaction::new_with_payer(&ixs, Some(&Pubkey::new_from_array(fee_payer.bytes)));
    let keys: Vec<&Keypair> = std::iter::once(&payer.keypair).chain(co_signer.map(|k| &k.keypair)).collect();
    tx.try_sign(&keys[..], solana_program::hash::Hash::new_from_array(recent_blockhash)).ok()?;
    Some(SignedTx { transaction: tx, steps, fee_payer: Ghost(*fee_payer), recent_blockhash: Ghost(recent_blockhash), signers })
}

} // verus!
