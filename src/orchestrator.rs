use vstd::prelude::*;
use crate::address::Address;
use crate::chain::{
    associated_address_of, associated_token_address, create_account_instruction,
    create_associated_account_instruction, create_metadata_instruction,
    initialize_mint_instruction, key_set, metadata_address, metadata_address_of, models,
    mint_to_instruction, sign_transaction, Instr, SignedTx, SignerKey,
};
use crate::plan::{
    create_credits_initial_supply, create_token_plan, create_token_steps, metadata_steps,
    mint_credits_only_destination, mint_token_plan, mint_token_steps, minted_to, required_signers, signs, update_metadata_plan, Plan, Step, TokenMetadata, INITIAL_SUPPLY,
};

verus! {

/// Why a transaction could not be built.
#[derive(Clone, Copy, Debug, PartialEq, Eq)]
pub enum TxError {
    /// No program address exists for the payer's associated account of the
    /// new mint.
    NoAssociatedAddress,
    /// No program address exists for the mint's metadata account.
    NoMetadataAddress,
    /// The keys given are not those that the transaction needs.
    Signing,
}

/// What `instructions_for` can build: each associated account named is the
/// one derived for its wallet and mint, and each metadata payload fits.
pub open spec fn buildable(steps: Seq<Step>) -> bool {
    forall|i: int|
        0 <= i < steps.len() ==> match #[trigger] steps[i] {
            Step::CreateAssociatedAccount { wallet, mint, account, .. } => associated_address_of(
                wallet@,
                mint@,
            ) == Some(account@),
            Step::CreateMetadata { data, .. } => data.fits(),
            _ => true,
        }
}

/// The instructions of a plan, one per step and in the same order, each
/// performing its step.
pub fn instructions_for(plan: &Plan) -> (r: Vec<Instr>)
    requires
        buildable(plan.steps@),
    ensures
        models(r@) == plan.steps@,
{
    let mut out: Vec<Instr> = Vec::new();
    let n = plan.steps.len();
    let mut i: usize = 0;
    while i < n
        invariant
            n == plan.steps@.len(),
            buildable(plan.steps@),
            i <= n,
            out@.len() == i,
            forall|j: int| 0 <= j < i ==> out@[j].model() == plan.steps@[j],
        decreases n - i,
    {
        let ix = match &plan.steps[i] {
            Step::CreateAccount { funder, account, lamports, space } => {
                create_account_instruction(funder, account, *lamports, *space)
            },
            Step::InitializeMint { mint, authority, freeze_authority, decimals } => {
                match initialize_mint_instruction(mint, authority, freeze_authority, *decimals) {
                    Some(ix) => ix,
                    None => {
                        proof {
                            assert(false);
                        }
                        return out;
                    },
                }
            },
            Step::CreateAssociatedAccount { funder, wallet, mint, account } => {
                create_associated_account_instruction(funder, wallet, mint, account)
            },
            Step::MintTo { mint, destination, authority, signer, co_signer, amount } => {
                match mint_to_instruction(mint, destination, authority, signer, co_signer, *amount) {
                    Some(ix) => ix,
                    None => {
                        proof {
                            assert(false);
                        }
                        return out;
                    },
                }
            },
            Step::CreateMetadata {
                metadata,
                mint,
                mint_authority,
                payer,
                update_authority,
                update_authority_signs,
                rent,
                data,
            } => {
                create_metadata_instruction(
                    *metadata,
                    *mint,
                    *mint_authority,
                    *payer,
                    *update_authority,
                    *update_authority_signs,
                    *rent,
                    data,
                )
            },
        };
        out.push(ix);
        i = i + 1;
    }
    assert(models(out@) =~= plan.steps@);
    out
}

/// A plan with the transaction signed from it.
pub struct SignedTransaction {
    pub plan: Plan,
    pub signed: SignedTx,
}

/// Signs `plan` with the recency anchor `recent_blockhash`.
fn sign_plan(
    plan: Plan,
    payer: &SignerKey,
    co_signer: Option<&SignerKey>,
    recent_blockhash: [u8; 32],
) -> (r: Result<SignedTransaction, TxError>)
    requires
        buildable(plan.steps@),
        plan.steps@.len() <= 4,
    ensures
        r is Ok <==> key_set(payer, co_signer) == required_signers(plan.steps@, plan.fee_payer),
        r is Ok ==> r->Ok_0.plan == plan,
        r is Ok ==> r->Ok_0.signed.steps() == plan.steps@,
        r is Ok ==> r->Ok_0.signed.fee_payer() == plan.fee_payer,
        r is Ok ==> r->Ok_0.signed.recent_blockhash() == recent_blockhash,
        r is Ok ==> r->Ok_0.signed.signers() == key_set(payer, co_signer),
        r is Err ==> r->Err_0 == TxError::Signing,
{
    let instructions = instructions_for(&plan);
    match sign_transaction(instructions, &plan.fee_payer, payer, co_signer, recent_blockhash) {
        Some(signed) => Ok(SignedTransaction { plan, signed }),
        None => Err(TxError::Signing),
    }
}

/// The signed transaction that mints `amount` base units of `mint` into the
/// token account `mint_to`, with `owner` as mint authority and fee payer,
/// signed by `owner` alone and anchored at `recent_blockhash`.
pub fn mint_token(
    owner: &SignerKey,
    amount: u64,
    mint_public_key: Address,
    mint_to: Address,
    recent_blockhash: [u8; 32],
) -> (r: Result<SignedTransaction, TxError>)
    ensures
        r is Ok,
        r->Ok_0.signed.steps() == mint_token_steps(
            owner.address_spec(),
            amount,
            mint_public_key,
            mint_to,
        ),
        r->Ok_0.plan.steps@ == r->Ok_0.signed.steps(),
        r->Ok_0.signed.fee_payer() == owner.address_spec(),
        r->Ok_0.signed.recent_blockhash() == recent_blockhash,
        r->Ok_0.signed.signers() == set![owner.address_spec()],
        minted_to(r->Ok_0.signed.steps(), mint_to) == amount,
        forall|other: Address| other != mint_to ==> minted_to(r->Ok_0.signed.steps(), other) == 0,
{
    let owner_address = owner.address();
    let plan = mint_token_plan(owner_address, amount, mint_public_key, mint_to);
    proof {
        let steps = plan.steps@;
        assert(buildable(steps));
        assert forall|a: Address| required_signers(steps, owner_address).contains(a) <==> a == owner_address by {
            if a == owner_address {
            } else {
                assert(!signs(steps[0], a));
            }
        }
        assert(required_signers(steps, owner_address) =~= set![owner_address]);
        assert(key_set(owner, None) =~= set![owner_address]);
        mint_credits_only_destination(owner_address, amount, mint_public_key, mint_to, mint_to);
        assert forall|other: Address| other != mint_to implies minted_to(steps, other) == 0 by {
            mint_credits_only_destination(owner_address, amount, mint_public_key, mint_to, other);
        }
    }
    sign_plan(plan, owner, None, recent_blockhash)
}

/// The signed transaction that creates the mint of `mint_key` with `space`
/// bytes funded by `rent` lamports, creates `payer`'s associated account for
/// it and mints the initial supply there: all four in one atomic
/// transaction, anchored at `recent_blockhash` and signed by the payer and
/// the mint's key.
pub fn create_token(
    payer: &SignerKey,
    mint_key: &SignerKey,
    space: u64,
    rent: u64,
    recent_blockhash: [u8; 32],
) -> (r: Result<SignedTransaction, TxError>)
    ensures
        associated_address_of(payer.address_spec()@, mint_key.address_spec()@) is None <==> r is Err,
        r is Err ==> r->Err_0 == TxError::NoAssociatedAddress,
        r is Ok ==> exists|associated: Address|
            associated_address_of(payer.address_spec()@, mint_key.address_spec()@) == Some(
                associated@,
            ) && r->Ok_0.signed.steps() == create_token_steps(
                payer.address_spec(),
                mint_key.address_spec(),
                rent,
                space,
                associated,
            ),
        r is Ok ==> r->Ok_0.plan.steps@ == r->Ok_0.signed.steps(),
        r is Ok ==> r->Ok_0.signed.fee_payer() == payer.address_spec(),
        r is Ok ==> r->Ok_0.signed.recent_blockhash() == recent_blockhash,
        r is Ok ==> r->Ok_0.signed.signers() == set![payer.address_spec(), mint_key.address_spec()],
        r is Ok ==> minted_to(
            r->Ok_0.signed.steps(),
            r->Ok_0.plan.steps@[3]->MintTo_destination,
        ) == INITIAL_SUPPLY,
        r is Ok ==> associated_address_of(payer.address_spec()@, mint_key.address_spec()@) == Some(
            r->Ok_0.plan.steps@[3]->MintTo_destination@,
        ),
{
    let owner = payer.address();
    let mint = mint_key.address();
    let associated = match associated_token_address(&owner, &mint) {
        Some(a) => a,
        None => {
            return Err(TxError::NoAssociatedAddress);
        },
    };
    let plan = create_token_plan(owner, mint, rent, space, associated);
    proof {
        let steps = plan.steps@;
        assert(buildable(steps)) by {
            assert forall|i: int| 0 <= i < steps.len() implies match #[trigger] steps[i] {
                Step::CreateAssociatedAccount { wallet, mint, account, .. } => associated_address_of(
                    wallet@,
                    mint@,
                ) == Some(account@),
                Step::CreateMetadata { data, .. } => data.fits(),
                _ => true,
            } by {}
        }
        assert forall|a: Address|
            required_signers(steps, owner).contains(a) <==> (a == owner || a == mint) by {
            if a == mint {
                assert(signs(steps[0], a));
            }
            if a != owner && a != mint {
                assert(forall|i: int| 0 <= i < steps.len() ==> !signs(steps[i], a));
            }
        }
        assert(required_signers(steps, owner) =~= set![owner, mint]);
        assert(key_set(payer, Some(mint_key)) =~= set![owner, mint]);
        create_credits_initial_supply(owner, mint, rent, space, associated, associated);
    }
    sign_plan(plan, payer, Some(mint_key), recent_blockhash)
}

/// The signed transaction that attaches `data` to the existing mint
/// `token_account` through its derived metadata account, with `payer` as
/// mint authority, payer and signing update authority, anchored at
/// `recent_blockhash` and signed by `payer` alone.
pub fn update_metadata(
    payer: &SignerKey,
    token_account: Address,
    data: TokenMetadata,
    recent_blockhash: [u8; 32],
) -> (r: Result<SignedTransaction, TxError>)
    requires
        data.fits(),
    ensures
        metadata_address_of(token_account@) is None <==> r is Err,
        r is Err ==> r->Err_0 == TxError::NoMetadataAddress,
        r is Ok ==> exists|metadata: Address|
            Some(metadata@) == metadata_address_of(token_account@)
                && r->Ok_0.signed.steps() == metadata_steps(
                payer.address_spec(),
                token_account,
                metadata,
                data,
            ),
        r is Ok ==> r->Ok_0.plan.steps@ == r->Ok_0.signed.steps(),
        r is Ok ==> r->Ok_0.signed.fee_payer() == payer.address_spec(),
        r is Ok ==> r->Ok_0.signed.recent_blockhash() == recent_blockhash,
        r is Ok ==> r->Ok_0.signed.signers() == set![payer.address_spec()],
{
    match metadata_address(&token_account) {
        None => Err(TxError::NoMetadataAddress),
        Some(metadata) => {
            let owner = payer.address();
            let plan = update_metadata_plan(owner, token_account, metadata, data);
            proof {
                let steps = plan.steps@;
                assert(buildable(steps));
                assert forall|a: Address| required_signers(steps, owner).contains(a) <==> a == owner by {
                    if a != owner {
                        assert(!signs(steps[0], a));
                    }
                }
                assert(required_signers(steps, owner) =~= set![owner]);
                assert(key_set(payer, None) =~= set![owner]);
            }
            sign_plan(plan, payer, None, recent_blockhash)
        },
    }
}

} // verus!
