//! The reward token: a fungible supply with its metadata record, minted to
//! receivers outright or as the award for a roast.

use vstd::prelude::*;
use crate::address::Address;
use crate::award::{award_for, calculate_token_award};
use crate::error::RoastError;
use crate::ledger::{committed, plan_view, Instruction, InstructionView, Ledger, LedgerView};
use crate::records::{Mint, TokenAccount, TokenMetadata, TokenMetadataView};
use crate::seeds::{
    associated_token_address,
    associated_token_seeds,
    derived_address,
    token_metadata_address,
    token_metadata_seeds,
    ProgramIds,
};

verus! {

/// The accounts of `initialize_token`.
#[derive(Clone, Copy, Debug)]
pub struct InitializeToken {
    /// The caller: it pays, and becomes the authority of the supply.
    pub mint_authority: Address,
    /// Whether the caller signed.
    pub signed: bool,
    /// The slot of the token metadata record.
    pub metadata: Address,
    /// The slot of the new supply record.
    pub token_mint: Address,
    pub token_program: Address,
    pub system_program: Address,
    pub rent: Address,
}

/// The accounts of `mint_tokens`.
#[derive(Clone, Copy, Debug)]
pub struct MintTokens {
    /// The caller, who must be the mint authority of the supply.
    pub mint_authority: Address,
    /// Whether the caller signed.
    pub signed: bool,
    /// The supply record.
    pub token_mint: Address,
    /// The ownership account that receives the units.
    pub token_account: Address,
    /// The holder of that account.
    pub receiver: Address,
    pub token_program: Address,
    pub system_program: Address,
}

/// The accounts of `award_tokens`.
#[derive(Clone, Copy, Debug)]
pub struct AwardTokens {
    /// The caller, who must be the mint authority of the supply.
    pub mint_authority: Address,
    /// Whether the caller signed.
    pub signed: bool,
    /// The supply record.
    pub token_mint: Address,
    /// The receiver's ownership account for the supply, created if need be.
    pub token_account: Address,
    /// The one who receives the award.
    pub receiver: Address,
    pub token_program: Address,
    pub associated_token_program: Address,
    pub system_program: Address,
    pub rent: Address,
}

/// Whether `caller` is the mint authority of the supply, if there is one.
pub open spec fn is_mint_authority(supply: Option<Mint>, caller: Address) -> bool {
    supply matches Some(mint) && mint.mint_authority == Some(caller)
}

/// Whether the account, if there is one, is of the supply at `token_mint`
/// and belongs to `receiver`.
pub open spec fn is_account_of(
    holding: Option<TokenAccount>,
    token_mint: Address,
    receiver: Address,
) -> bool {
    holding matches Some(account) && account.mint == token_mint && account.owner == receiver
}

/// The token metadata record that `initialize_token` writes.
pub open spec fn token_metadata_of(
    accounts: InitializeToken,
    name: Seq<u8>,
    symbol: Seq<u8>,
    uri: Seq<u8>,
) -> TokenMetadataView {
    TokenMetadataView {
        name,
        symbol,
        uri,
        mint: accounts.token_mint,
        authority: accounts.mint_authority,
        verified: true,
    }
}

/// The steps that set up a reward token: set up the supply record, with the
/// caller as both authorities, and write the metadata record.
pub open spec fn initialize_token_plan_of(
    accounts: InitializeToken,
    name: Seq<u8>,
    symbol: Seq<u8>,
    uri: Seq<u8>,
    decimals: u8,
) -> Seq<InstructionView> {
    seq![
        InstructionView::InitializeMint {
            mint: accounts.token_mint,
            decimals,
            mint_authority: accounts.mint_authority,
            freeze_authority: Some(accounts.mint_authority),
        },
        InstructionView::StoreTokenMetadata {
            at: accounts.metadata,
            record: token_metadata_of(accounts, name, symbol, uri),
        },
    ]
}

/// The one step that mints reward tokens.
pub open spec fn mint_tokens_plan_of(accounts: MintTokens, amount: u64) -> Seq<InstructionView> {
    seq![
        InstructionView::MintTo {
            mint: accounts.token_mint,
            destination: accounts.token_account,
            authority: accounts.mint_authority,
            amount,
        },
    ]
}

/// The steps of an award: create the receiver's account unless it is there,
/// and mint the award for the score into it.
pub open spec fn award_tokens_plan_of(accounts: AwardTokens, score: u8) -> Seq<InstructionView> {
    seq![
        InstructionView::CreateTokenAccountIfAbsent {
            account: accounts.token_account,
            owner: accounts.receiver,
            mint: accounts.token_mint,
        },
        InstructionView::MintTo {
            mint: accounts.token_mint,
            destination: accounts.token_account,
            authority: accounts.mint_authority,
            amount: award_for(score) as u64,
        },
    ]
}

/// Why a reward token is not set up, if so, before any step is taken. The
/// caller must have signed. The programs and the rent account must be those
/// of the deployment and the metadata slot the derived one, else the
/// accounts do not match. Neither that slot nor the slot of the supply
/// record may be in use: the token is set up once.
pub open spec fn initialize_token_refusal(
    programs: ProgramIds,
    accounts: InitializeToken,
    derived_metadata: Option<Address>,
    metadata_in_use: bool,
    supply_in_use: bool,
) -> Option<RoastError> {
    if !accounts.signed {
        Some(RoastError::AuthorityMismatch)
    } else if accounts.token_program != programs.token_program || accounts.system_program
        != programs.system_program || accounts.rent != programs.rent || derived_metadata != Some(
        accounts.metadata,
    ) {
        Some(RoastError::AccountMismatch)
    } else if metadata_in_use || supply_in_use {
        Some(RoastError::AlreadyInitialized)
    } else {
        None
    }
}

/// Why no reward tokens are minted, if so, before any step is taken. The
/// caller must have signed and be the mint authority of the supply. The
/// account must be the receiver's, for that supply, and the programs those
/// of the deployment.
pub open spec fn mint_tokens_refusal(
    programs: ProgramIds,
    accounts: MintTokens,
    supply: Option<Mint>,
    holding: Option<TokenAccount>,
) -> Option<RoastError> {
    if !accounts.signed || !is_mint_authority(supply, accounts.mint_authority) {
        Some(RoastError::AuthorityMismatch)
    } else if !is_account_of(holding, accounts.token_mint, accounts.receiver)
        || accounts.token_program != programs.token_program || accounts.system_program
        != programs.system_program {
        Some(RoastError::AccountMismatch)
    } else {
        None
    }
}

/// Why a roast is not awarded, if so, before any step is taken. The caller
/// must have signed and be the mint authority of the supply. The account
/// must be the derived one, and where it exists it must be the receiver's,
/// for that supply. The programs and the rent account must be those of the
/// deployment.
pub open spec fn award_tokens_refusal(
    programs: ProgramIds,
    accounts: AwardTokens,
    derived_token_account: Option<Address>,
    supply: Option<Mint>,
    holding: Option<TokenAccount>,
) -> Option<RoastError> {
    if !accounts.signed || !is_mint_authority(supply, accounts.mint_authority) {
        Some(RoastError::AuthorityMismatch)
    } else if derived_token_account != Some(accounts.token_account) || (holding is Some
        && !is_account_of(holding, accounts.token_mint, accounts.receiver))
        || accounts.token_program != programs.token_program || accounts.associated_token_program
        != programs.associated_token_program || accounts.system_program != programs.system_program
        || accounts.rent != programs.rent {
        Some(RoastError::AccountMismatch)
    } else {
        None
    }
}

/// What setting up a reward token comes to, given the address that was
/// derived for its metadata record.
///
/// Where nothing stands against it (see `initialize_token_refusal`), the
/// record must have room in its slot. Then the supply exists with the given
/// decimals, nothing outstanding and the caller as both authorities, and the
/// record stands in its slot, verified.
pub open spec fn initialize_token_outcome(
    ledger: LedgerView,
    programs: ProgramIds,
    accounts: InitializeToken,
    derived_metadata: Option<Address>,
    name: Seq<u8>,
    symbol: Seq<u8>,
    uri: Seq<u8>,
    decimals: u8,
) -> Result<LedgerView, RoastError> {
    match initialize_token_refusal(
        programs,
        accounts,
        derived_metadata,
        ledger.token_metadata.dom().contains(accounts.metadata),
        ledger.mints.dom().contains(accounts.token_mint),
    ) {
        Some(refusal) => Err(refusal),
        None => if !token_metadata_of(accounts, name, symbol, uri).fits() {
            Err(RoastError::MetadataWriteFailed)
        } else {
            Ok(
                LedgerView {
                    mints: ledger.mints.insert(
                        accounts.token_mint,
                        Mint {
                            decimals,
                            supply: 0,
                            mint_authority: Some(accounts.mint_authority),
                            freeze_authority: Some(accounts.mint_authority),
                        },
                    ),
                    token_metadata: ledger.token_metadata.insert(
                        accounts.metadata,
                        token_metadata_of(accounts, name, symbol, uri),
                    ),
                    ..ledger
                },
            )
        },
    }
}

/// What minting reward tokens comes to. Where nothing stands against it (see
/// `mint_tokens_refusal`), the units are minted, unless a count would leave
/// its 64 bits.
pub open spec fn mint_tokens_outcome(
    ledger: LedgerView,
    programs: ProgramIds,
    accounts: MintTokens,
    amount: u64,
) -> Result<LedgerView, RoastError> {
    match mint_tokens_refusal(
        programs,
        accounts,
        ledger.mint_at(accounts.token_mint),
        ledger.token_account_at(accounts.token_account),
    ) {
        Some(refusal) => Err(refusal),
        None => ledger.mint_to(
            accounts.token_mint,
            accounts.token_account,
            accounts.mint_authority,
            amount,
        ),
    }
}

/// The ledger with the receiver's account in place: as it is where the
/// account exists, else with a new, empty one.
pub open spec fn with_account(ledger: LedgerView, accounts: AwardTokens) -> LedgerView {
    if ledger.token_accounts.dom().contains(accounts.token_account) {
        ledger
    } else {
        LedgerView {
            token_accounts: ledger.token_accounts.insert(
                accounts.token_account,
                TokenAccount { mint: accounts.token_mint, owner: accounts.receiver, amount: 0 },
            ),
            ..ledger
        }
    }
}

/// What awarding a roast comes to, given the address that was derived for
/// the receiver's account. Where nothing stands against it (see
/// `award_tokens_refusal`), the account is created if it is missing, and the
/// award for the score is minted into it, unless a count would leave its 64
/// bits.
pub open spec fn award_tokens_outcome(
    ledger: LedgerView,
    programs: ProgramIds,
    accounts: AwardTokens,
    derived_token_account: Option<Address>,
    score: u8,
) -> Result<LedgerView, RoastError> {
    match award_tokens_refusal(
        programs,
        accounts,
        derived_token_account,
        ledger.mint_at(accounts.token_mint),
        ledger.token_account_at(accounts.token_account),
    ) {
        Some(refusal) => Err(refusal),
        None => with_account(ledger, accounts).mint_to(
            accounts.token_mint,
            accounts.token_account,
            accounts.mint_authority,
            award_for(score) as u64,
        ),
    }
}

/// Refuses a caller who is not the mint authority of the supply.
pub fn check_mint_authority(supply: &Option<Mint>, caller: &Address) -> (checked: Result<
    (),
    RoastError,
>)
    ensures
        checked == (if is_mint_authority(*supply, *caller) {
            Ok::<(), RoastError>(())
        } else {
            Err::<(), RoastError>(RoastError::AuthorityMismatch)
        }),
{
    let held: bool = match supply {
        Some(mint) => match mint.mint_authority {
            Some(authority) => authority == *caller,
            None => false,
        },
        None => false,
    };
    if held {
        Ok(())
    } else {
        Err(RoastError::AuthorityMismatch)
    }
}

/// Refuses an account that is missing, is of another supply or belongs to
/// another holder.
pub fn check_token_account(
    holding: &Option<TokenAccount>,
    token_mint: &Address,
    receiver: &Address,
) -> (checked: Result<(), RoastError>)
    ensures
        checked == (if is_account_of(*holding, *token_mint, *receiver) {
            Ok::<(), RoastError>(())
        } else {
            Err::<(), RoastError>(RoastError::AccountMismatch)
        }),
{
    let matches: bool = match holding {
        Some(account) => account.mint == *token_mint && account.owner == *receiver,
        None => false,
    };
    if matches {
        Ok(())
    } else {
        Err(RoastError::AccountMismatch)
    }
}

/// The steps that set up a reward token.
pub fn initialize_token_plan(
    accounts: &InitializeToken,
    name: Vec<u8>,
    symbol: Vec<u8>,
    uri: Vec<u8>,
    decimals: u8,
) -> (plan: Vec<Instruction>)
    ensures
        plan_view(plan@) == initialize_token_plan_of(*accounts, name@, symbol@, uri@, decimals),
{
    let record: TokenMetadata = TokenMetadata {
        name,
        symbol,
        uri,
        mint: accounts.token_mint,
        authority: accounts.mint_authority,
        verified: true,
    };
    let mut plan: Vec<Instruction> = Vec::new();
    plan.push(
        Instruction::InitializeMint {
            mint: accounts.token_mint,
            decimals,
            mint_authority: accounts.mint_authority,
            freeze_authority: Some(accounts.mint_authority),
        },
    );
    plan.push(Instruction::StoreTokenMetadata { at: accounts.metadata, record });
    assert(plan_view(plan@) =~= initialize_token_plan_of(
        *accounts,
        name@,
        symbol@,
        uri@,
        decimals,
    ));
    plan
}

/// The one step that mints `amount` reward tokens.
pub fn mint_tokens_plan(accounts: &MintTokens, amount: u64) -> (plan: Vec<Instruction>)
    ensures
        plan_view(plan@) == mint_tokens_plan_of(*accounts, amount),
{
    let mut plan: Vec<Instruction> = Vec::new();
    plan.push(
        Instruction::MintTo {
            mint: accounts.token_mint,
            destination: accounts.token_account,
            authority: accounts.mint_authority,
            amount,
        },
    );
    plan
}

/// The steps of the award for a roast of the given score.
pub fn award_tokens_plan(accounts: &AwardTokens, score: u8) -> (plan: Vec<Instruction>)
    ensures
        plan_view(plan@) == award_tokens_plan_of(*accounts, score),
{
    let amount: u64 = calculate_token_award(score);
    let mut plan: Vec<Instruction> = Vec::new();
    plan.push(
        Instruction::CreateTokenAccountIfAbsent {
            account: accounts.token_account,
            owner: accounts.receiver,
            mint: accounts.token_mint,
        },
    );
    plan.push(
        Instruction::MintTo {
            mint: accounts.token_mint,
            destination: accounts.token_account,
            authority: accounts.mint_authority,
            amount,
        },
    );
    plan
}

/// Decides how a reward token is set up: refuses where
/// `initialize_token_refusal` says so, else gives the steps.
pub fn prepare_initialize_token(
    programs: &ProgramIds,
    accounts: &InitializeToken,
    derived_metadata: Option<Address>,
    metadata_in_use: bool,
    supply_in_use: bool,
    name: Vec<u8>,
    symbol: Vec<u8>,
    uri: Vec<u8>,
    decimals: u8,
) -> (prepared: Result<Vec<Instruction>, RoastError>)
    ensures
        match prepared {
            Ok(plan) => initialize_token_refusal(
                *programs,
                *accounts,
                derived_metadata,
                metadata_in_use,
                supply_in_use,
            ) is None && plan_view(plan@) == initialize_token_plan_of(
                *accounts,
                name@,
                symbol@,
                uri@,
                decimals,
            ),
            Err(refusal) => initialize_token_refusal(
                *programs,
                *accounts,
                derived_metadata,
                metadata_in_use,
                supply_in_use,
            ) == Some(refusal),
        },
{
    if !accounts.signed {
        return Err(RoastError::AuthorityMismatch);
    }
    if accounts.token_program != programs.token_program || accounts.system_program
        != programs.system_program || accounts.rent != programs.rent
        || !accounts.metadata.is_derived(&derived_metadata) {
        return Err(RoastError::AccountMismatch);
    }
    if metadata_in_use || supply_in_use {
        return Err(RoastError::AlreadyInitialized);
    }
    Ok(initialize_token_plan(accounts, name, symbol, uri, decimals))
}

/// Decides how reward tokens are minted, from the supply record and the
/// ownership account as they stand: refuses where `mint_tokens_refusal` says
/// so, else gives the step.
pub fn prepare_mint_tokens(
    programs: &ProgramIds,
    accounts: &MintTokens,
    supply: &Option<Mint>,
    holding: &Option<TokenAccount>,
    amount: u64,
) -> (prepared: Result<Vec<Instruction>, RoastError>)
    ensures
        match prepared {
            Ok(plan) => mint_tokens_refusal(*programs, *accounts, *supply, *holding) is None
                && plan_view(plan@) == mint_tokens_plan_of(*accounts, amount),
            Err(refusal) => mint_tokens_refusal(*programs, *accounts, *supply, *holding) == Some(
                refusal,
            ),
        },
{
    if !accounts.signed {
        return Err(RoastError::AuthorityMismatch);
    }
    check_mint_authority(supply, &accounts.mint_authority)?;
    check_token_account(holding, &accounts.token_mint, &accounts.receiver)?;
    if accounts.token_program != programs.token_program || accounts.system_program
        != programs.system_program {
        return Err(RoastError::AccountMismatch);
    }
    Ok(mint_tokens_plan(accounts, amount))
}

/// Decides how a roast is awarded, from the supply record and the ownership
/// account as they stand: refuses where `award_tokens_refusal` says so, else
/// gives the steps.
pub fn prepare_award_tokens(
    programs: &ProgramIds,
    accounts: &AwardTokens,
    derived_token_account: Option<Address>,
    supply: &Option<Mint>,
    holding: &Option<TokenAccount>,
    score: u8,
) -> (prepared: Result<Vec<Instruction>, RoastError>)
    ensures
        match prepared {
            Ok(plan) => award_tokens_refusal(
                *programs,
                *accounts,
                derived_token_account,
                *supply,
                *holding,
            ) is None && plan_view(plan@) == award_tokens_plan_of(*accounts, score),
            Err(refusal) => award_tokens_refusal(
                *programs,
                *accounts,
                derived_token_account,
                *supply,
                *holding,
            ) == Some(refusal),
        },
{
    if !accounts.signed {
        return Err(RoastError::AuthorityMismatch);
    }
    check_mint_authority(supply, &accounts.mint_authority)?;
    if !accounts.token_account.is_derived(&derived_token_account) {
        return Err(RoastError::AccountMismatch);
    }
    if holding.is_some() {
        check_token_account(holding, &accounts.token_mint, &accounts.receiver)?;
    }
    if accounts.token_program != programs.token_program || accounts.associated_token_program
        != programs.associated_token_program || accounts.system_program != programs.system_program
        || accounts.rent != programs.rent {
        return Err(RoastError::AccountMismatch);
    }
    Ok(award_tokens_plan(accounts, score))
}

/// Sets up a reward token, given the address that was derived for its
/// metadata record: see `initialize_token_outcome`.
pub fn initialize_token_at(
    ledger: &mut Ledger,
    programs: &ProgramIds,
    accounts: &InitializeToken,
    derived_metadata: Option<Address>,
    name: Vec<u8>,
    symbol: Vec<u8>,
    uri: Vec<u8>,
    decimals: u8,
) -> (done: Result<(), RoastError>)
    ensures
        committed(
            old(ledger)@,
            final(ledger)@,
            done,
            initialize_token_outcome(
                old(ledger)@,
                *programs,
                *accounts,
                derived_metadata,
                name@,
                symbol@,
                uri@,
                decimals,
            ),
        ),
{
    proof {
        ledger@.lemma_run_short(
            initialize_token_plan_of(*accounts, name@, symbol@, uri@, decimals),
        );
    }
    let plan: Vec<Instruction> = prepare_initialize_token(
        programs,
        accounts,
        derived_metadata,
        ledger.token_metadata(&accounts.metadata).is_some(),
        ledger.mint(&accounts.token_mint).is_some(),
        name,
        symbol,
        uri,
        decimals,
    )?;
    ledger.transact(&plan)
}

/// Sets up a reward token: `initialize_token_at`, at the address derived for
/// the metadata record of the new supply under `programs`.
pub fn initialize_token(
    ledger: &mut Ledger,
    programs: &ProgramIds,
    accounts: &InitializeToken,
    name: Vec<u8>,
    symbol: Vec<u8>,
    uri: Vec<u8>,
    decimals: u8,
) -> (done: Result<(), RoastError>)
    ensures
        committed(
            old(ledger)@,
            final(ledger)@,
            done,
            initialize_token_outcome(
                old(ledger)@,
                *programs,
                *accounts,
                derived_address(token_metadata_seeds(accounts.token_mint), programs.program),
                name@,
                symbol@,
                uri@,
                decimals,
            ),
        ),
{
    let derived_metadata: Option<Address> = token_metadata_address(
        &programs.program,
        &accounts.token_mint,
    );
    initialize_token_at(ledger, programs, accounts, derived_metadata, name, symbol, uri, decimals)
}

/// Mints `amount` units of the reward token to the receiver: see
/// `mint_tokens_outcome`.
pub fn mint_tokens(
    ledger: &mut Ledger,
    programs: &ProgramIds,
    accounts: &MintTokens,
    amount: u64,
) -> (done: Result<(), RoastError>)
    ensures
        committed(
            old(ledger)@,
            final(ledger)@,
            done,
            mint_tokens_outcome(old(ledger)@, *programs, *accounts, amount),
        ),
{
    proof {
        ledger@.lemma_run_short(mint_tokens_plan_of(*accounts, amount));
    }
    let plan: Vec<Instruction> = prepare_mint_tokens(
        programs,
        accounts,
        &ledger.mint(&accounts.token_mint),
        &ledger.token_account(&accounts.token_account),
        amount,
    )?;
    ledger.transact(&plan)
}

/// Awards a roast of the given score, given the address that was derived for
/// the receiver's account: see `award_tokens_outcome`.
pub fn award_tokens_at(
    ledger: &mut Ledger,
    programs: &ProgramIds,
    accounts: &AwardTokens,
    derived_token_account: Option<Address>,
    score: u8,
) -> (done: Result<(), RoastError>)
    ensures
        committed(
            old(ledger)@,
            final(ledger)@,
            done,
            award_tokens_outcome(
                old(ledger)@,
                *programs,
                *accounts,
                derived_token_account,
                score,
            ),
        ),
{
    proof {
        ledger@.lemma_run_short(award_tokens_plan_of(*accounts, score));
    }
    let plan: Vec<Instruction> = prepare_award_tokens(
        programs,
        accounts,
        derived_token_account,
        &ledger.mint(&accounts.token_mint),
        &ledger.token_account(&accounts.token_account),
        score,
    )?;
    ledger.transact(&plan)
}

/// Awards a roast of the given score: `award_tokens_at`, at the address
/// derived for the receiver and the supply under `programs`.
pub fn award_tokens(
    ledger: &mut Ledger,
    programs: &ProgramIds,
    accounts: &AwardTokens,
    score: u8,
) -> (done: Result<(), RoastError>)
    ensures
        committed(
            old(ledger)@,
            final(ledger)@,
            done,
            award_tokens_outcome(
                old(ledger)@,
                *programs,
                *accounts,
                derived_address(
                    associated_token_seeds(
                        accounts.receiver,
                        programs.token_program,
                        accounts.token_mint,
                    ),
                    programs.associated_token_program,
                ),
                score,
            ),
        ),
{
    let derived_token_account: Option<Address> = associated_token_address(
        programs,
        &accounts.receiver,
        &accounts.token_mint,
    );
    award_tokens_at(ledger, programs, accounts, derived_token_account, score)
}

} // verus!
