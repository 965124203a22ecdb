use vstd::prelude::*;
use crate::address::Address;

verus! {

/// Decimal places of every mint that `create_token_plan` initializes.
pub const TOKEN_DECIMALS: u8 = 6;

/// Base units minted into the creator's associated account when a mint is created.
pub const INITIAL_SUPPLY: u64 = 100000000;

/// The descriptive data attached to a mint by the metadata program: a name,
/// a symbol, a content URI and a royalty, with no creator list, collection
/// or uses (this type has no room for them).
#[derive(Clone, Debug)]
pub struct TokenMetadata {
    pub name: String,
    pub symbol: String,
    pub uri: String,
    pub seller_fee_basis_points: u16,
    pub is_mutable: bool,
}

/// Most characters a metadata string may hold: its encoding, at most four
/// bytes a character, must fit the format's 32-bit length prefix.
pub const MAX_METADATA_CHARS: usize = 1073741823;

impl TokenMetadata {
    pub open spec fn fits(&self) -> bool {
        &&& self.name@.len() <= MAX_METADATA_CHARS
        &&& self.symbol@.len() <= MAX_METADATA_CHARS
        &&& self.uri@.len() <= MAX_METADATA_CHARS
    }
}

/// One on-chain operation of a transaction.
#[derive(Clone, Debug)]
pub enum Step {
    /// Allocate `space` bytes at `account`, funded with `lamports` by
    /// `funder`, owned by the token program.
    CreateAccount { funder: Address, account: Address, lamports: u64, space: u64 },
    /// Turn `mint` into a mint record.
    InitializeMint { mint: Address, authority: Address, freeze_authority: Address, decimals: u8 },
    /// Create the associated token account `account` of `wallet` for `mint`.
    CreateAssociatedAccount { funder: Address, wallet: Address, mint: Address, account: Address },
    /// Mint `amount` base units of `mint` into `destination`, authorized by
    /// `authority`, with `signer` (and `co_signer`) signing for it.
    MintTo {
        mint: Address,
        destination: Address,
        authority: Address,
        signer: Address,
        co_signer: Option<Address>,
        amount: u64,
    },
    /// Create the metadata account `metadata` of `mint`, approved by
    /// `mint_authority`, funded by `payer`, with `update_authority` (which
    /// signs when `update_authority_signs`) allowed to change it later, and
    /// `rent` handed to the program as its optional rent account.
    CreateMetadata {
        metadata: Address,
        mint: Address,
        mint_authority: Address,
        payer: Address,
        update_authority: Address,
        update_authority_signs: bool,
        rent: Option<Address>,
        data: TokenMetadata,
    },
}

/// The steps of one atomic transaction, its fee payer and the second key,
/// if any, that signs it.
#[derive(Clone, Debug)]
pub struct Plan {
    pub steps: Vec<Step>,
    pub fee_payer: Address,
    pub co_signer: Option<Address>,
}

pub open spec fn mint_token_steps(
    authority: Address,
    amount: u64,
    mint: Address,
    destination: Address,
) -> Seq<Step> {
    seq![Step::MintTo { mint, destination, authority, signer: authority, co_signer: None, amount }]
}

pub open spec fn create_token_steps(
    payer: Address,
    mint: Address,
    rent: u64,
    space: u64,
    associated: Address,
) -> Seq<Step> {
    seq![
        Step::CreateAccount { funder: payer, account: mint, lamports: rent, space },
        Step::InitializeMint { mint, authority: payer, freeze_authority: payer, decimals: TOKEN_DECIMALS },
        Step::CreateAssociatedAccount { funder: payer, wallet: payer, mint, account: associated },
        Step::MintTo {
            mint,
            destination: associated,
            authority: payer,
            signer: mint,
            co_signer: Some(payer),
            amount: INITIAL_SUPPLY,
        },
    ]
}

/// Whether the step needs the signature of `a`.
pub open spec fn signs(step: Step, a: Address) -> bool {
    match step {
        Step::CreateAccount { funder, account, .. } => a == funder || a == account,
        Step::InitializeMint { .. } => false,
        Step::CreateAssociatedAccount { funder, .. } => a == funder,
        Step::MintTo { signer, co_signer, .. } => a == signer || co_signer == Some(a),
        Step::CreateMetadata { mint_authority, payer, update_authority, update_authority_signs, .. } => {
            a == mint_authority || a == payer || (update_authority_signs && a == update_authority)
        },
    }
}

/// The keys that must sign a transaction of `steps` paid by `fee_payer`.
pub open spec fn required_signers(steps: Seq<Step>, fee_payer: Address) -> Set<Address> {
    Set::new(|a: Address| a == fee_payer || exists|i: int| 0 <= i < steps.len() && signs(steps[i], a))
}

pub open spec fn metadata_steps(payer: Address, mint: Address, metadata: Address, data: TokenMetadata) -> Seq<Step> {
    seq![
        Step::CreateMetadata {
            metadata,
            mint,
            mint_authority: payer,
            payer,
            update_authority: payer,
            update_authority_signs: true,
            rent: Some(payer),
            data,
        },
    ]
}

/// Base units that the steps mint into `account`, over all mints.
pub open spec fn minted_to(steps: Seq<Step>, account: Address) -> int
    decreases steps.len(),
{
    if steps.len() == 0 {
        0
    } else {
        let rest = minted_to(steps.drop_last(), account);
        match steps.last() {
            Step::MintTo { destination, amount, .. } => if destination == account {
                rest + amount
            } else {
                rest
            },
            _ => rest,
        }
    }
}

/// A mint transaction credits its destination with exactly `amount` base
/// units and credits no other account.
pub proof fn mint_credits_only_destination(
    authority: Address,
    amount: u64,
    mint: Address,
    destination: Address,
    other: Address,
)
    ensures
        minted_to(mint_token_steps(authority, amount, mint, destination), destination) == amount,
        other != destination ==> minted_to(
            mint_token_steps(authority, amount, mint, destination),
            other,
        ) == 0,
{
    let steps = mint_token_steps(authority, amount, mint, destination);
    assert(steps.drop_last() =~= Seq::<Step>::empty());
    assert(minted_to(steps.drop_last(), destination) == 0);
    assert(minted_to(steps.drop_last(), other) == 0);
    assert(steps.last() == steps[0]);
}

/// Creating a token credits the payer's associated account with the initial
/// supply, and no other account with anything.
pub proof fn create_credits_initial_supply(
    payer: Address,
    mint: Address,
    rent: u64,
    space: u64,
    associated: Address,
    other: Address,
)
    ensures
        minted_to(create_token_steps(payer, mint, rent, space, associated), associated)
            == INITIAL_SUPPLY,
        other != associated ==> minted_to(
            create_token_steps(payer, mint, rent, space, associated),
            other,
        ) == 0,
{
    let steps = create_token_steps(payer, mint, rent, space, associated);
    let s3 = steps.drop_last();
    let s2 = s3.drop_last();
    let s1 = s2.drop_last();
    assert(s1.drop_last() =~= Seq::<Step>::empty());
    assert(minted_to(s1.drop_last(), associated) == 0 && minted_to(s1.drop_last(), other) == 0);
    assert(s1.last() == steps[0]);
    assert(minted_to(s1, associated) == 0 && minted_to(s1, other) == 0);
    assert(s2.last() == steps[1]);
    assert(minted_to(s2, associated) == 0 && minted_to(s2, other) == 0);
    assert(s3.last() == steps[2]);
    assert(minted_to(s3, associated) == 0 && minted_to(s3, other) == 0);
    assert(steps.last() == steps[3]);
}

/// The transaction that mints `amount` base units of `mint` into
/// `destination`, signed by the mint authority alone.
pub fn mint_token_plan(authority: Address, amount: u64, mint: Address, destination: Address) -> (r:
    Plan)
    ensures
        r.steps@ == mint_token_steps(authority, amount, mint, destination),
        r.fee_payer == authority,
        r.co_signer is None,
{
    let mut steps: Vec<Step> = Vec::new();
    steps.push(
        Step::MintTo { mint, destination, authority, signer: authority, co_signer: None, amount },
    );
    proof {
        assert(steps@ =~= mint_token_steps(authority, amount, mint, destination));
    }
    Plan { steps, fee_payer: authority, co_signer: None }
}

/// The one transaction that creates the mint `mint`: allocate it with
/// `rent` lamports and `space` bytes, initialize it, create the payer's
/// associated account `associated` for it, and mint the initial supply there.
/// Payer and mint both sign.
pub fn create_token_plan(payer: Address, mint: Address, rent: u64, space: u64, associated: Address) -> (r:
    Plan)
    ensures
        r.steps@ == create_token_steps(payer, mint, rent, space, associated),
        r.fee_payer == payer,
        r.co_signer == Some(mint),
{
    let mut steps: Vec<Step> = Vec::new();
    steps.push(Step::CreateAccount { funder: payer, account: mint, lamports: rent, space });
    steps.push(
        Step::InitializeMint {
            mint,
            authority: payer,
            freeze_authority: payer,
            decimals: TOKEN_DECIMALS,
        },
    );
    steps.push(Step::CreateAssociatedAccount { funder: payer, wallet: payer, mint, account: associated });
    steps.push(
        Step::MintTo {
            mint,
            destination: associated,
            authority: payer,
            signer: mint,
            co_signer: Some(payer),
            amount: INITIAL_SUPPLY,
        },
    );
    proof {
        assert(steps@ =~= create_token_steps(payer, mint, rent, space, associated));
    }
    Plan { steps, fee_payer: payer, co_signer: Some(mint) }
}

/// The transaction that attaches `data` to `mint` through the metadata
/// account `metadata`, with `payer` as mint authority, payer and update
/// authority (which signs) and as the rent account, signed by the payer alone.
pub fn update_metadata_plan(payer: Address, mint: Address, metadata: Address, data: TokenMetadata) -> (r:
    Plan)
    ensures
        r.steps@ == metadata_steps(payer, mint, metadata, data),
        r.fee_payer == payer,
        r.co_signer is None,
{
    let mut steps: Vec<Step> = Vec::new();
    steps.push(
        Step::CreateMetadata {
            metadata,
            mint,
            mint_authority: payer,
            payer,
            update_authority: payer,
            update_authority_signs: true,
            rent: Some(payer),
            data,
        },
    );
    proof {
        assert(steps@ =~= metadata_steps(payer, mint, metadata, data));
    }
    Plan { steps, fee_payer: payer, co_signer: None }
}

} // verus!
