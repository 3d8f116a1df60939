//! What holds of the operations, whatever the ledger and the arguments.

use vstd::prelude::*;
use crate::address::Address;
use crate::award::award_for;
use crate::error::{ErrorKind, RoastError};
use crate::ledger::{InstructionView, LedgerView};
use crate::nft::{mint_roast_nft_outcome, roast_data_of, MintRoastNFT};
use crate::seeds::ProgramIds;
use crate::token::{
    award_tokens_outcome,
    initialize_token_outcome,
    initialize_token_refusal,
    is_mint_authority,
    mint_tokens_outcome,
    AwardTokens,
    InitializeToken,
    MintTokens,
};

verus! {

/// Anything that can be done to a ledger: a single step, a change of its
/// time, or one of the four operations.
#[allow(inconsistent_fields)]
pub enum Operation {
    Step { instruction: InstructionView },
    SetUnixTimestamp { now: i64 },
    MintRoastNft {
        programs: ProgramIds,
        accounts: MintRoastNFT,
        derived_token_account: Option<Address>,
        derived_roast_data: Option<Address>,
        content: Seq<u8>,
        score: u8,
        is_executive_order: bool,
        uri: Seq<u8>,
    },
    InitializeToken {
        programs: ProgramIds,
        accounts: InitializeToken,
        derived_metadata: Option<Address>,
        name: Seq<u8>,
        symbol: Seq<u8>,
        uri: Seq<u8>,
        decimals: u8,
    },
    MintTokens { programs: ProgramIds, accounts: MintTokens, amount: u64 },
    AwardTokens {
        programs: ProgramIds,
        accounts: AwardTokens,
        derived_token_account: Option<Address>,
        score: u8,
    },
}

impl Operation {
    /// What the operation comes to on `ledger`.
    pub open spec fn outcome(self, ledger: LedgerView) -> Result<LedgerView, RoastError> {
        match self {
            Operation::Step { instruction } => ledger.execute(instruction),
            Operation::SetUnixTimestamp { now } => Ok(
                LedgerView { unix_timestamp: now, ..ledger },
            ),
            Operation::MintRoastNft {
                programs,
                accounts,
                derived_token_account,
                derived_roast_data,
                content,
                score,
                is_executive_order,
                uri,
            } => mint_roast_nft_outcome(
                ledger,
                programs,
                accounts,
                derived_token_account,
                derived_roast_data,
                content,
                score,
                is_executive_order,
                uri,
            ),
            Operation::InitializeToken {
                programs,
                accounts,
                derived_metadata,
                name,
                symbol,
                uri,
                decimals,
            } => initialize_token_outcome(
                ledger,
                programs,
                accounts,
                derived_metadata,
                name,
                symbol,
                uri,
                decimals,
            ),
            Operation::MintTokens { programs, accounts, amount } => mint_tokens_outcome(
                ledger,
                programs,
                accounts,
                amount,
            ),
            Operation::AwardTokens { programs, accounts, derived_token_account, score } => {
                award_tokens_outcome(ledger, programs, accounts, derived_token_account, score)
            },
        }
    }

    /// The ledger after the operation: changed where it succeeds, as it was
    /// where it fails.
    pub open spec fn apply(self, ledger: LedgerView) -> LedgerView {
        match self.outcome(ledger) {
            Ok(after) => after,
            Err(_) => ledger,
        }
    }
}

/// The ledger after a run of operations, one after the other.
pub open spec fn apply_all(ledger: LedgerView, operations: Seq<Operation>) -> LedgerView
    decreases operations.len(),
{
    if operations.len() == 0 {
        ledger
    } else {
        operations.last().apply(apply_all(ledger, operations.drop_last()))
    }
}

/// Whether the supply at `mint` exists and has no mint authority.
pub open spec fn is_closed(ledger: LedgerView, mint: Address) -> bool {
    ledger.mints.dom().contains(mint) && ledger.mints[mint].mint_authority is None
}

/// How a later state of the ledger stands to an earlier one. Every record is
/// still there. A supply keeps its decimals, what is outstanding of it never
/// shrinks, and an authority that is absent stays absent; without a mint
/// authority what is outstanding stays as it is. An ownership account keeps
/// its holder and its supply and never holds less; where its supply has no
/// mint authority it holds what it held. Descriptive metadata, provenance
/// records and token metadata records stay as they were written.
pub open spec fn continues(earlier: LedgerView, later: LedgerView) -> bool {
    &&& forall|mint: Address| #[trigger]
        earlier.mints.dom().contains(mint) ==> {
            &&& later.mints.dom().contains(mint)
            &&& later.mints[mint].decimals == earlier.mints[mint].decimals
            &&& later.mints[mint].supply >= earlier.mints[mint].supply
            &&& is_closed(earlier, mint) ==> {
                &&& is_closed(later, mint)
                &&& later.mints[mint].supply == earlier.mints[mint].supply
            }
            &&& earlier.mints[mint].freeze_authority is None
                ==> later.mints[mint].freeze_authority is None
        }
    &&& forall|account: Address| #[trigger]
        earlier.token_accounts.dom().contains(account) ==> {
            &&& later.token_accounts.dom().contains(account)
            &&& later.token_accounts[account].mint == earlier.token_accounts[account].mint
            &&& later.token_accounts[account].owner == earlier.token_accounts[account].owner
            &&& later.token_accounts[account].amount >= earlier.token_accounts[account].amount
            &&& is_closed(earlier, earlier.token_accounts[account].mint)
                ==> later.token_accounts[account].amount
                == earlier.token_accounts[account].amount
        }
    &&& forall|mint: Address| #[trigger]
        earlier.certificates.dom().contains(mint) ==> later.certificates.dom().contains(mint)
            && later.certificates[mint] == earlier.certificates[mint]
    &&& forall|at: Address| #[trigger]
        earlier.roast_data.dom().contains(at) ==> later.roast_data.dom().contains(at)
            && later.roast_data[at] == earlier.roast_data[at]
    &&& forall|at: Address| #[trigger]
        earlier.token_metadata.dom().contains(at) ==> later.token_metadata.dom().contains(at)
            && later.token_metadata[at] == earlier.token_metadata[at]
}

/// No operation undoes anything: the ledger after it continues the ledger
/// before it.
pub proof fn lemma_operation_continues(ledger: LedgerView, operation: Operation)
    ensures
        continues(ledger, operation.apply(ledger)),
{
}

/// No run of operations undoes anything. So a provenance record is written
/// once, and a supply whose mint authority was revoked never grows again.
pub proof fn lemma_history_continues(ledger: LedgerView, operations: Seq<Operation>)
    ensures
        continues(ledger, apply_all(ledger, operations)),
    decreases operations.len(),
{
    if operations.len() > 0 {
        let middle = apply_all(ledger, operations.drop_last());
        lemma_history_continues(ledger, operations.drop_last());
        lemma_operation_continues(middle, operations.last());
    }
}

impl Operation {
    /// Whether the operation is an attempt to mint units of the supply at
    /// `mint`: the bare step, or one of the two reward operations.
    pub open spec fn mints_units_of(self, mint: Address) -> bool {
        match self {
            Operation::Step { instruction: InstructionView::MintTo { mint: supply, .. } } => supply
                == mint,
            Operation::MintTokens { accounts, .. } => accounts.token_mint == mint,
            Operation::AwardTokens { accounts, .. } => accounts.token_mint == mint,
            _ => false,
        }
    }

    /// Whether the caller of the operation signed; for a bare step or a
    /// change of the time there is nothing to sign.
    pub open spec fn signed(self) -> bool {
        match self {
            Operation::MintRoastNft { accounts, .. } => accounts.signed,
            Operation::InitializeToken { accounts, .. } => accounts.signed,
            Operation::MintTokens { accounts, .. } => accounts.signed,
            Operation::AwardTokens { accounts, .. } => accounts.signed,
            _ => true,
        }
    }

    /// The caller of a reward operation, and the supply that it names.
    pub open spec fn reward_caller(self) -> Option<(Address, Address)> {
        match self {
            Operation::MintTokens { accounts, .. } => Some(
                (accounts.mint_authority, accounts.token_mint),
            ),
            Operation::AwardTokens { accounts, .. } => Some(
                (accounts.mint_authority, accounts.token_mint),
            ),
            _ => None,
        }
    }
}

/// Once a certificate is minted, no more of it can be. Exactly one unit is
/// outstanding, in the receiver's account, and the supply has no mint
/// authority; after any run of operations that is still so. Every attempt to
/// mint units of it then fails and changes nothing: the bare step as a
/// failed step of the ledger, whoever gives the word.
pub proof fn lemma_certificate_is_final(
    ledger: LedgerView,
    minting: Operation,
    later: Seq<Operation>,
    attempt: Operation,
)
    requires
        minting is MintRoastNft,
        minting.outcome(ledger) is Ok,
    ensures
        match minting {
            Operation::MintRoastNft { accounts, .. } => {
                let minted = minting.apply(ledger);
                let now = apply_all(minted, later);
                &&& is_closed(minted, accounts.mint)
                &&& minted.mints[accounts.mint].supply == 1
                &&& minted.balance(accounts.token_account) == 1
                &&& is_closed(now, accounts.mint)
                &&& now.mints[accounts.mint].supply == 1
                &&& now.balance(accounts.token_account) == 1
                &&& attempt.mints_units_of(accounts.mint) ==> {
                    &&& attempt.outcome(now) is Err
                    &&& attempt.apply(now) == now
                    &&& attempt is Step ==> attempt.outcome(now) == Err::<LedgerView, RoastError>(
                        RoastError::MintFailed,
                    ) && RoastError::MintFailed.kind_of() == ErrorKind::PrimitiveFailure
                }
            },
            _ => true,
        },
{
    let minted = minting.apply(ledger);
    match minting {
        Operation::MintRoastNft { accounts, .. } => {
            assert(minted.mints.dom().contains(accounts.mint));
            assert(minted.token_accounts.dom().contains(accounts.token_account));
        },
        _ => {},
    }
    lemma_history_continues(minted, later);
}

/// Two certificates never share a provenance record: where two are minted,
/// one after the other and with anything in between, they have supplies of
/// their own, the addresses derived for their provenance records differ, and
/// the first record still reads as it was written.
pub proof fn lemma_provenance_is_not_shared(
    ledger: LedgerView,
    first: Operation,
    between: Seq<Operation>,
    second: Operation,
)
    requires
        first is MintRoastNft,
        second is MintRoastNft,
        first.outcome(ledger) is Ok,
        second.outcome(apply_all(first.apply(ledger), between)) is Ok,
    ensures
        match (first, second) {
            (
                Operation::MintRoastNft {
                    accounts: earlier,
                    derived_roast_data: earlier_derived,
                    content,
                    score,
                    is_executive_order,
                    ..
                },
                Operation::MintRoastNft { accounts: later, derived_roast_data: later_derived, .. },
            ) => {
                let after = second.apply(apply_all(first.apply(ledger), between));
                &&& earlier.mint != later.mint
                &&& earlier.roast_data != later.roast_data
                &&& earlier_derived != later_derived
                &&& after.roast_data.dom().contains(earlier.roast_data)
                &&& after.roast_data[earlier.roast_data] == roast_data_of(
                    earlier,
                    content,
                    score,
                    is_executive_order,
                    ledger.unix_timestamp,
                )
                &&& after.roast_data[later.roast_data].mint == later.mint
            },
            _ => true,
        },
{
    let minted = first.apply(ledger);
    match first {
        Operation::MintRoastNft { accounts, .. } => {
            assert(minted.mints.dom().contains(accounts.mint));
            assert(minted.roast_data.dom().contains(accounts.roast_data));
        },
        _ => {},
    }
    lemma_history_continues(minted, between);
}

/// A reward token is set up once. Where a second one, with a supply and a
/// metadata slot of its own, could have been set up before the first, it
/// can be set up after it, and both stand side by side. Against the metadata
/// slot of the first, setting one up fails with `AlreadyInitialized`, where
/// its accounts match.
pub proof fn lemma_initialize_token_once(ledger: LedgerView, first: Operation, second: Operation)
    requires
        first is InitializeToken,
        second is InitializeToken,
        first.outcome(ledger) is Ok,
    ensures
        match (first, second) {
            (
                Operation::InitializeToken { accounts: earlier, .. },
                Operation::InitializeToken {
                    programs,
                    accounts: later,
                    derived_metadata: derived,
                    ..
                },
            ) => {
                let after = first.apply(ledger);
                &&& later.token_mint != earlier.token_mint && later.metadata != earlier.metadata
                    && second.outcome(ledger) is Ok ==> {
                    &&& second.outcome(after) is Ok
                    &&& second.apply(after).mints.dom().contains(earlier.token_mint)
                    &&& second.apply(after).mints.dom().contains(later.token_mint)
                    &&& second.apply(after).token_metadata.dom().contains(earlier.metadata)
                    &&& second.apply(after).token_metadata.dom().contains(later.metadata)
                }
                &&& later.metadata == earlier.metadata && initialize_token_refusal(
                    programs,
                    later,
                    derived,
                    false,
                    false,
                ) is None ==> second.outcome(after) == Err::<LedgerView, RoastError>(
                    RoastError::AlreadyInitialized,
                ) && RoastError::AlreadyInitialized.kind_of() == ErrorKind::AlreadyInitialized
            },
            _ => true,
        },
{
}

/// Two awards to one receiver add up, in one account: the first creates the
/// account at the derived address if it is missing, the second finds it
/// there.
pub proof fn lemma_awards_add_up(
    ledger: LedgerView,
    programs: ProgramIds,
    accounts: AwardTokens,
    derived_token_account: Option<Address>,
    first_score: u8,
    second_score: u8,
)
    requires
        award_tokens_outcome(ledger, programs, accounts, derived_token_account, first_score) is Ok,
        award_tokens_outcome(
            award_tokens_outcome(
                ledger,
                programs,
                accounts,
                derived_token_account,
                first_score,
            )->Ok_0,
            programs,
            accounts,
            derived_token_account,
            second_score,
        ) is Ok,
    ensures
        ({
            let once = award_tokens_outcome(
                ledger,
                programs,
                accounts,
                derived_token_account,
                first_score,
            )->Ok_0;
            let twice = award_tokens_outcome(
                once,
                programs,
                accounts,
                derived_token_account,
                second_score,
            )->Ok_0;
            &&& derived_token_account == Some(accounts.token_account)
            &&& once.token_accounts.dom() == ledger.token_accounts.dom().insert(
                accounts.token_account,
            )
            &&& twice.token_accounts.dom() == once.token_accounts.dom()
            &&& twice.token_accounts[accounts.token_account].owner == accounts.receiver
            &&& twice.token_accounts[accounts.token_account].mint == accounts.token_mint
            &&& twice.balance(accounts.token_account) == ledger.balance(accounts.token_account)
                + award_for(first_score) + award_for(second_score)
            &&& twice.mints[accounts.token_mint].supply == ledger.mints[accounts.token_mint].supply
                + award_for(first_score) + award_for(second_score)
        }),
{
    let once = award_tokens_outcome(
        ledger,
        programs,
        accounts,
        derived_token_account,
        first_score,
    )->Ok_0;
    assert(once.token_accounts.dom() =~= ledger.token_accounts.dom().insert(
        accounts.token_account,
    ));
}

/// None of the four operations does anything for a caller who did not sign.
pub proof fn lemma_unsigned_is_refused(ledger: LedgerView, operation: Operation)
    requires
        !operation.signed(),
    ensures
        operation.outcome(ledger) == Err::<LedgerView, RoastError>(RoastError::AuthorityMismatch),
        operation.apply(ledger) == ledger,
{
}

/// Only the mint authority of a supply mints reward tokens: for anybody else
/// both reward operations fail before anything is done, with a failure that
/// is a violated precondition, and the ledger stays as it was.
pub proof fn lemma_stranger_cannot_mint(ledger: LedgerView, attempt: Operation)
    requires
        attempt.reward_caller() matches Some((caller, supply)) && !is_mint_authority(
            ledger.mint_at(supply),
            caller,
        ),
    ensures
        attempt.outcome(ledger) == Err::<LedgerView, RoastError>(RoastError::AuthorityMismatch),
        RoastError::AuthorityMismatch.kind_of() == ErrorKind::PreconditionViolation,
        attempt.apply(ledger) == ledger,
{
}

} // verus!
