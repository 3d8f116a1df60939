//! The certificate of a roast: one unit of a supply of its own, with its
//! descriptive metadata and its provenance record, minted in one transaction.

use vstd::prelude::*;
use crate::address::Address;
use crate::error::RoastError;
use crate::ledger::{
    committed,
    plan_view,
    AuthorityKind,
    Instruction,
    InstructionView,
    Ledger,
    LedgerView,
};
use crate::records::{
    CertificateMetadata,
    CertificateMetadataView,
    Creator,
    Mint,
    RoastData,
    RoastDataView,
    TokenAccount,
    ROAST_CONTENT_LIMIT,
    ROYALTY_BASIS_POINTS,
};
use crate::seeds::{
    associated_token_address,
    associated_token_seeds,
    derived_address,
    roast_data_address,
    roast_data_seeds,
    ProgramIds,
};
use crate::text::{
    certificate_description,
    certificate_name,
    certificate_symbol,
    description_of,
    name_of,
    symbol_of,
};

verus! {

/// The accounts of `mint_roast_nft`.
#[derive(Clone, Copy, Debug)]
pub struct MintRoastNFT {
    /// The caller: it pays, and is the authority of the new supply.
    pub authority: Address,
    /// Whether the caller signed.
    pub signed: bool,
    /// The one who receives the certificate.
    pub owner: Address,
    /// The slot of the new supply record.
    pub mint: Address,
    /// The slot of the receiver's ownership account.
    pub token_account: Address,
    /// The slot of the provenance record.
    pub roast_data: Address,
    /// The account in which the registry keeps the descriptive metadata.
    pub metadata: Address,
    pub token_program: Address,
    pub associated_token_program: Address,
    /// The program of the registry of descriptive metadata.
    pub token_metadata_program: Address,
    pub system_program: Address,
    pub rent: Address,
}

/// The descriptive metadata of a certificate: its name and description, the
/// symbol, the link as the caller gave it, a royalty of five percent that
/// goes to the caller alone, open to later change by the caller.
pub open spec fn certificate_metadata_of(
    authority: Address,
    content: Seq<u8>,
    score: u8,
    is_executive_order: bool,
    uri: Seq<u8>,
) -> CertificateMetadataView {
    CertificateMetadataView {
        name: name_of(score, is_executive_order),
        symbol: symbol_of(),
        uri,
        description: description_of(content),
        seller_fee_basis_points: ROYALTY_BASIS_POINTS,
        creators: seq![Creator { address: authority, verified: true, share: 100 }],
        is_mutable: true,
        update_authority: authority,
    }
}

/// The provenance record of a certificate: the roast in full, as it was
/// handed in.
pub open spec fn roast_data_of(
    accounts: MintRoastNFT,
    content: Seq<u8>,
    score: u8,
    is_executive_order: bool,
    timestamp: i64,
) -> RoastDataView {
    RoastDataView {
        mint: accounts.mint,
        owner: accounts.owner,
        content,
        score,
        is_executive_order,
        timestamp,
    }
}

/// The steps that mint a certificate, in their order: set up the supply
/// record, without decimals and with the caller as both authorities; create
/// the receiver's ownership account; mint one unit into it; enter the
/// descriptive metadata; write the provenance record; revoke the mint
/// authority. The revocation comes last: after it no unit could be minted.
pub open spec fn certificate_plan_of(
    accounts: MintRoastNFT,
    content: Seq<u8>,
    score: u8,
    is_executive_order: bool,
    uri: Seq<u8>,
    now: i64,
) -> Seq<InstructionView> {
    seq![
        InstructionView::InitializeMint {
            mint: accounts.mint,
            decimals: 0,
            mint_authority: accounts.authority,
            freeze_authority: Some(accounts.authority),
        },
        InstructionView::CreateTokenAccount {
            account: accounts.token_account,
            owner: accounts.owner,
            mint: accounts.mint,
        },
        InstructionView::MintTo {
            mint: accounts.mint,
            destination: accounts.token_account,
            authority: accounts.authority,
            amount: 1,
        },
        InstructionView::WriteCertificateMetadata {
            mint: accounts.mint,
            account: accounts.metadata,
            metadata: certificate_metadata_of(
                accounts.authority,
                content,
                score,
                is_executive_order,
                uri,
            ),
        },
        InstructionView::StoreRoastData {
            at: accounts.roast_data,
            record: roast_data_of(accounts, content, score, is_executive_order, now),
        },
        InstructionView::RevokeAuthority {
            mint: accounts.mint,
            kind: AuthorityKind::MintTokens,
            current: accounts.authority,
        },
    ]
}

/// Why the steps of a certificate do not go through, if so: the failure of
/// the first step that fails.
///
/// The supply record needs a free slot. So does the ownership account. The
/// registry must hold no metadata for the supply yet. The provenance record
/// needs a free slot, and room for the roast. Minting the unit and revoking
/// the authority cannot fail once the steps before them went through.
pub open spec fn certificate_failure(ledger: LedgerView, accounts: MintRoastNFT, content: Seq<u8>)
    -> Option<RoastError> {
    if ledger.mints.dom().contains(accounts.mint) {
        Some(RoastError::SupplyInitFailed)
    } else if ledger.token_accounts.dom().contains(accounts.token_account) {
        Some(RoastError::OwnershipAccountFailed)
    } else if ledger.certificates.dom().contains(accounts.mint) {
        Some(RoastError::MetadataWriteFailed)
    } else if ledger.roast_data.dom().contains(accounts.roast_data) || content.len()
        > ROAST_CONTENT_LIMIT {
        Some(RoastError::ProvenanceWriteFailed)
    } else {
        None
    }
}

/// The ledger after a certificate was minted: a supply without decimals, of
/// which one unit is outstanding and no more can be minted; that unit in the
/// receiver's account; the metadata in the registry; the provenance record,
/// with the time of the ledger.
pub open spec fn certificate_minted(
    ledger: LedgerView,
    accounts: MintRoastNFT,
    content: Seq<u8>,
    score: u8,
    is_executive_order: bool,
    uri: Seq<u8>,
) -> LedgerView {
    LedgerView {
        mints: ledger.mints.insert(
            accounts.mint,
            Mint {
                decimals: 0,
                supply: 1,
                mint_authority: None,
                freeze_authority: Some(accounts.authority),
            },
        ),
        token_accounts: ledger.token_accounts.insert(
            accounts.token_account,
            TokenAccount { mint: accounts.mint, owner: accounts.owner, amount: 1 },
        ),
        certificates: ledger.certificates.insert(
            accounts.mint,
            certificate_metadata_of(accounts.authority, content, score, is_executive_order, uri),
        ),
        roast_data: ledger.roast_data.insert(
            accounts.roast_data,
            roast_data_of(accounts, content, score, is_executive_order, ledger.unix_timestamp),
        ),
        ..ledger
    }
}

/// Whether the accounts are the ones that the operation is meant for: the
/// programs and the rent account are those of the deployment, and the slots
/// of the receiver's account and of the provenance record are the ones that
/// were derived for them.
pub open spec fn certificate_accounts_match(
    programs: ProgramIds,
    accounts: MintRoastNFT,
    derived_token_account: Option<Address>,
    derived_roast_data: Option<Address>,
) -> bool {
    &&& accounts.token_program == programs.token_program
    &&& accounts.associated_token_program == programs.associated_token_program
    &&& accounts.token_metadata_program == programs.token_metadata_program
    &&& accounts.system_program == programs.system_program
    &&& accounts.rent == programs.rent
    &&& derived_token_account == Some(accounts.token_account)
    &&& derived_roast_data == Some(accounts.roast_data)
}

/// Why no certificate is minted, if so, before any step is taken. The caller
/// must have signed, and the accounts must match.
pub open spec fn certificate_refusal(
    programs: ProgramIds,
    accounts: MintRoastNFT,
    derived_token_account: Option<Address>,
    derived_roast_data: Option<Address>,
) -> Option<RoastError> {
    if !accounts.signed {
        Some(RoastError::AuthorityMismatch)
    } else if !certificate_accounts_match(
        programs,
        accounts,
        derived_token_account,
        derived_roast_data,
    ) {
        Some(RoastError::AccountMismatch)
    } else {
        None
    }
}

/// What minting a certificate comes to, given the addresses that were derived
/// for the receiver's account and for the provenance record. Where nothing
/// stands against it (see `certificate_refusal`), the steps run as one
/// transaction.
pub open spec fn mint_roast_nft_outcome(
    ledger: LedgerView,
    programs: ProgramIds,
    accounts: MintRoastNFT,
    derived_token_account: Option<Address>,
    derived_roast_data: Option<Address>,
    content: Seq<u8>,
    score: u8,
    is_executive_order: bool,
    uri: Seq<u8>,
) -> Result<LedgerView, RoastError> {
    match certificate_refusal(programs, accounts, derived_token_account, derived_roast_data) {
        Some(refusal) => Err(refusal),
        None => match certificate_failure(ledger, accounts, content) {
            Some(failure) => Err(failure),
            None => Ok(
                certificate_minted(ledger, accounts, content, score, is_executive_order, uri),
            ),
        },
    }
}

/// The steps of a certificate, run in their order as one transaction, come to
/// this: the first of the four failures that applies, or the ledger with the
/// certificate in it.
pub proof fn lemma_certificate_plan(
    ledger: LedgerView,
    accounts: MintRoastNFT,
    content: Seq<u8>,
    score: u8,
    is_executive_order: bool,
    uri: Seq<u8>,
)
    ensures
        ledger.run(
            certificate_plan_of(
                accounts,
                content,
                score,
                is_executive_order,
                uri,
                ledger.unix_timestamp,
            ),
        ) == (match certificate_failure(ledger, accounts, content) {
            Some(failure) => Err::<LedgerView, RoastError>(failure),
            None => Ok::<LedgerView, RoastError>(
                certificate_minted(ledger, accounts, content, score, is_executive_order, uri),
            ),
        }),
{
    let plan = certificate_plan_of(
        accounts,
        content,
        score,
        is_executive_order,
        uri,
        ledger.unix_timestamp,
    );
    assert(plan.take(0).len() == 0);
    assert(plan.take(1).drop_last() == plan.take(0));
    assert(plan.take(2).drop_last() == plan.take(1));
    assert(plan.take(3).drop_last() == plan.take(2));
    assert(plan.take(4).drop_last() == plan.take(3));
    assert(plan.take(5).drop_last() == plan.take(4));
    assert(plan.take(6).drop_last() == plan.take(5));
    assert(plan.take(6) == plan);
    assert(ledger.run(plan.take(0)) == Ok::<LedgerView, RoastError>(ledger));
    let supplied = ledger.run(plan.take(1));
    assert(supplied == ledger.execute(plan[0]));
    if supplied is Err {
        ledger.lemma_run_failed(plan, 1);
    } else {
        let opened = ledger.run(plan.take(2));
        assert(opened == supplied->Ok_0.execute(plan[1]));
        if opened is Err {
            ledger.lemma_run_failed(plan, 2);
        } else {
            let minted = ledger.run(plan.take(3));
            assert(minted == opened->Ok_0.execute(plan[2]));
            assert(minted is Ok);
            let described = ledger.run(plan.take(4));
            assert(described == minted->Ok_0.execute(plan[3]));
            if described is Err {
                ledger.lemma_run_failed(plan, 4);
            } else {
                let recorded = ledger.run(plan.take(5));
                assert(recorded == described->Ok_0.execute(plan[4]));
                if recorded is Err {
                    ledger.lemma_run_failed(plan, 5);
                } else {
                    let closed = ledger.run(plan.take(6));
                    assert(closed == recorded->Ok_0.execute(plan[5]));
                    assert(closed is Ok);
                    let after = certificate_minted(
                        ledger,
                        accounts,
                        content,
                        score,
                        is_executive_order,
                        uri,
                    );
                    assert(closed->Ok_0.mints =~= after.mints);
                    assert(closed->Ok_0.token_accounts =~= after.token_accounts);
                }
            }
        }
    }
}

/// The descriptive metadata of the certificate for a roast.
pub fn certificate_metadata(
    authority: &Address,
    roast_content: &Vec<u8>,
    score: u8,
    is_executive_order: bool,
    uri: Vec<u8>,
) -> (metadata: CertificateMetadata)
    ensures
        metadata@ == certificate_metadata_of(
            *authority,
            roast_content@,
            score,
            is_executive_order,
            uri@,
        ),
{
    let mut creators: Vec<Creator> = Vec::new();
    creators.push(Creator { address: *authority, verified: true, share: 100 });
    CertificateMetadata {
        name: certificate_name(score, is_executive_order),
        symbol: certificate_symbol(),
        uri,
        description: certificate_description(roast_content),
        seller_fee_basis_points: ROYALTY_BASIS_POINTS,
        creators,
        is_mutable: true,
        update_authority: *authority,
    }
}

/// The steps that mint the certificate of a roast at the time `now`, in
/// their order.
pub fn certificate_plan(
    accounts: &MintRoastNFT,
    roast_content: Vec<u8>,
    score: u8,
    is_executive_order: bool,
    uri: Vec<u8>,
    now: i64,
) -> (plan: Vec<Instruction>)
    ensures
        plan_view(plan@) == certificate_plan_of(
            *accounts,
            roast_content@,
            score,
            is_executive_order,
            uri@,
            now,
        ),
{
    let metadata: CertificateMetadata = certificate_metadata(
        &accounts.authority,
        &roast_content,
        score,
        is_executive_order,
        uri,
    );
    let record: RoastData = RoastData {
        mint: accounts.mint,
        owner: accounts.owner,
        content: roast_content,
        score,
        is_executive_order,
        timestamp: now,
    };
    let mut plan: Vec<Instruction> = Vec::new();
    plan.push(
        Instruction::InitializeMint {
            mint: accounts.mint,
            decimals: 0,
            mint_authority: accounts.authority,
            freeze_authority: Some(accounts.authority),
        },
    );
    plan.push(
        Instruction::CreateTokenAccount {
            account: accounts.token_account,
            owner: accounts.owner,
            mint: accounts.mint,
        },
    );
    plan.push(
        Instruction::MintTo {
            mint: accounts.mint,
            destination: accounts.token_account,
            authority: accounts.authority,
            amount: 1,
        },
    );
    plan.push(
        Instruction::WriteCertificateMetadata {
            mint: accounts.mint,
            account: accounts.metadata,
            metadata,
        },
    );
    plan.push(Instruction::StoreRoastData { at: accounts.roast_data, record });
    plan.push(
        Instruction::RevokeAuthority {
            mint: accounts.mint,
            kind: AuthorityKind::MintTokens,
            current: accounts.authority,
        },
    );
    assert(plan_view(plan@) =~= certificate_plan_of(
        *accounts,
        roast_content@,
        score,
        is_executive_order,
        uri@,
        now,
    ));
    plan
}

/// Whether the programs and the rent account are those of the deployment.
fn programs_match(programs: &ProgramIds, accounts: &MintRoastNFT) -> (same: bool)
    ensures
        same == (accounts.token_program == programs.token_program
            && accounts.associated_token_program == programs.associated_token_program
            && accounts.token_metadata_program == programs.token_metadata_program
            && accounts.system_program == programs.system_program && accounts.rent
            == programs.rent),
{
    accounts.token_program == programs.token_program && accounts.associated_token_program
        == programs.associated_token_program && accounts.token_metadata_program
        == programs.token_metadata_program && accounts.system_program == programs.system_program
        && accounts.rent == programs.rent
}

/// Decides how the certificate of a roast is minted at the time `now`:
/// refuses where `certificate_refusal` says so, else gives the steps.
pub fn prepare_certificate(
    programs: &ProgramIds,
    accounts: &MintRoastNFT,
    derived_token_account: Option<Address>,
    derived_roast_data: Option<Address>,
    roast_content: Vec<u8>,
    score: u8,
    is_executive_order: bool,
    uri: Vec<u8>,
    now: i64,
) -> (prepared: Result<Vec<Instruction>, RoastError>)
    ensures
        match prepared {
            Ok(plan) => certificate_refusal(
                *programs,
                *accounts,
                derived_token_account,
                derived_roast_data,
            ) is None && plan_view(plan@) == certificate_plan_of(
                *accounts,
                roast_content@,
                score,
                is_executive_order,
                uri@,
                now,
            ),
            Err(refusal) => certificate_refusal(
                *programs,
                *accounts,
                derived_token_account,
                derived_roast_data,
            ) == Some(refusal),
        },
{
    if !accounts.signed {
        return Err(RoastError::AuthorityMismatch);
    }
    if !programs_match(programs, accounts) || !accounts.token_account.is_derived(
        &derived_token_account,
    ) || !accounts.roast_data.is_derived(&derived_roast_data) {
        return Err(RoastError::AccountMismatch);
    }
    Ok(certificate_plan(accounts, roast_content, score, is_executive_order, uri, now))
}

/// Mints the certificate of a roast, given the addresses that were derived
/// for the receiver's account and for the provenance record: see
/// `mint_roast_nft_outcome`. The roast goes into the provenance record in
/// full, with the time of the ledger; the metadata gets the description.
pub fn mint_roast_nft_at(
    ledger: &mut Ledger,
    programs: &ProgramIds,
    accounts: &MintRoastNFT,
    derived_token_account: Option<Address>,
    derived_roast_data: Option<Address>,
    roast_content: Vec<u8>,
    score: u8,
    is_executive_order: bool,
    uri: Vec<u8>,
) -> (done: Result<(), RoastError>)
    ensures
        committed(
            old(ledger)@,
            final(ledger)@,
            done,
            mint_roast_nft_outcome(
                old(ledger)@,
                *programs,
                *accounts,
                derived_token_account,
                derived_roast_data,
                roast_content@,
                score,
                is_executive_order,
                uri@,
            ),
        ),
{
    proof {
        lemma_certificate_plan(
            ledger@,
            *accounts,
            roast_content@,
            score,
            is_executive_order,
            uri@,
        );
    }
    let plan: Vec<Instruction> = prepare_certificate(
        programs,
        accounts,
        derived_token_account,
        derived_roast_data,
        roast_content,
        score,
        is_executive_order,
        uri,
        ledger.unix_timestamp(),
    )?;
    ledger.transact(&plan)
}

/// Mints the certificate of a roast: `mint_roast_nft_at`, at the addresses
/// derived for the receiver and the new supply under `programs`.
pub fn mint_roast_nft(
    ledger: &mut Ledger,
    programs: &ProgramIds,
    accounts: &MintRoastNFT,
    roast_content: Vec<u8>,
    score: u8,
    is_executive_order: bool,
    uri: Vec<u8>,
) -> (done: Result<(), RoastError>)
    ensures
        committed(
            old(ledger)@,
            final(ledger)@,
            done,
            mint_roast_nft_outcome(
                old(ledger)@,
                *programs,
                *accounts,
                derived_address(
                    associated_token_seeds(accounts.owner, programs.token_program, accounts.mint),
                    programs.associated_token_program,
                ),
                derived_address(roast_data_seeds(accounts.mint), programs.program),
                roast_content@,
                score,
                is_executive_order,
                uri@,
            ),
        ),
{
    let derived_token_account: Option<Address> = associated_token_address(
        programs,
        &accounts.owner,
        &accounts.mint,
    );
    let derived_roast_data: Option<Address> = roast_data_address(
        &programs.program,
        &accounts.mint,
    );
    mint_roast_nft_at(
        ledger,
        programs,
        accounts,
        derived_token_account,
        derived_roast_data,
        roast_content,
        score,
        is_executive_order,
        uri,
    )
}

} // verus!
