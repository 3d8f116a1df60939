//! The ledger: supply records, ownership accounts, the registry of
//! descriptive metadata, provenance records and token metadata records, with
//! the steps that change them. A step either takes effect as a whole or fails
//! and changes nothing.

use vstd::prelude::*;
use crate::address::Address;
use crate::error::RoastError;
use crate::records::{
    CertificateMetadata,
    CertificateMetadataView,
    Mint,
    RoastData,
    RoastDataView,
    TokenAccount,
    TokenMetadata,
    TokenMetadataView,
};
use crate::table::{Record, Table};

verus! {

/// The two authorities of a supply record.
#[derive(Clone, Copy, PartialEq, Eq, Structural, Debug)]
pub enum AuthorityKind {
    /// The right to mint new units.
    MintTokens,
    /// The right to freeze ownership accounts.
    FreezeAccount,
}

/// The state of the ledger.
pub struct LedgerView {
    /// The supply records, each at its identity.
    pub mints: Map<Address, Mint>,
    /// The ownership accounts.
    pub token_accounts: Map<Address, TokenAccount>,
    /// The registry of descriptive metadata, by the supply's identity.
    pub certificates: Map<Address, CertificateMetadataView>,
    /// The provenance records.
    pub roast_data: Map<Address, RoastDataView>,
    /// The token metadata records.
    pub token_metadata: Map<Address, TokenMetadataView>,
    /// The time of the ledger, in seconds.
    pub unix_timestamp: i64,
}

/// One step on the ledger, with all that it needs.
#[allow(inconsistent_fields)]
#[derive(Debug)]
pub enum Instruction {
    /// Set up a supply record, with nothing outstanding.
    InitializeMint {
        mint: Address,
        decimals: u8,
        mint_authority: Address,
        freeze_authority: Option<Address>,
    },
    /// Create an empty ownership account.
    CreateTokenAccount { account: Address, owner: Address, mint: Address },
    /// Create an empty ownership account unless it is there already.
    CreateTokenAccountIfAbsent { account: Address, owner: Address, mint: Address },
    /// Mint units into an ownership account.
    MintTo { mint: Address, destination: Address, authority: Address, amount: u64 },
    /// Give up an authority over a supply for good.
    RevokeAuthority { mint: Address, kind: AuthorityKind, current: Address },
    /// Enter the descriptive metadata of a supply in the registry. The
    /// registry keeps it in `account`; whether that is the right account for
    /// the supply is the registry's to say.
    WriteCertificateMetadata { mint: Address, account: Address, metadata: CertificateMetadata },
    /// Write a provenance record.
    StoreRoastData { at: Address, record: RoastData },
    /// Write a token metadata record.
    StoreTokenMetadata { at: Address, record: TokenMetadata },
}

/// What an instruction holds.
#[allow(inconsistent_fields)]
pub enum InstructionView {
    InitializeMint {
        mint: Address,
        decimals: u8,
        mint_authority: Address,
        freeze_authority: Option<Address>,
    },
    CreateTokenAccount { account: Address, owner: Address, mint: Address },
    CreateTokenAccountIfAbsent { account: Address, owner: Address, mint: Address },
    MintTo { mint: Address, destination: Address, authority: Address, amount: u64 },
    RevokeAuthority { mint: Address, kind: AuthorityKind, current: Address },
    WriteCertificateMetadata { mint: Address, account: Address, metadata: CertificateMetadataView },
    StoreRoastData { at: Address, record: RoastDataView },
    StoreTokenMetadata { at: Address, record: TokenMetadataView },
}

impl View for Instruction {
    type V = InstructionView;

    open spec fn view(&self) -> InstructionView {
        match *self {
            Instruction::InitializeMint { mint, decimals, mint_authority, freeze_authority } => {
                InstructionView::InitializeMint { mint, decimals, mint_authority, freeze_authority }
            },
            Instruction::CreateTokenAccount { account, owner, mint } => {
                InstructionView::CreateTokenAccount { account, owner, mint }
            },
            Instruction::CreateTokenAccountIfAbsent { account, owner, mint } => {
                InstructionView::CreateTokenAccountIfAbsent { account, owner, mint }
            },
            Instruction::MintTo { mint, destination, authority, amount } => {
                InstructionView::MintTo { mint, destination, authority, amount }
            },
            Instruction::RevokeAuthority { mint, kind, current } => {
                InstructionView::RevokeAuthority { mint, kind, current }
            },
            Instruction::WriteCertificateMetadata { mint, account, metadata } => {
                InstructionView::WriteCertificateMetadata { mint, account, metadata: metadata@ }
            },
            Instruction::StoreRoastData { at, record } => InstructionView::StoreRoastData {
                at,
                record: record@,
            },
            Instruction::StoreTokenMetadata { at, record } => InstructionView::StoreTokenMetadata {
                at,
                record: record@,
            },
        }
    }
}

/// What a list of instructions holds.
pub open spec fn plan_view(plan: Seq<Instruction>) -> Seq<InstructionView> {
    Seq::new(plan.len(), |i: int| plan[i]@)
}

impl InstructionView {
    /// The failure of this step, where it fails.
    pub open spec fn failure(self) -> RoastError {
        match self {
            InstructionView::InitializeMint { .. } => RoastError::SupplyInitFailed,
            InstructionView::CreateTokenAccount { .. } => RoastError::OwnershipAccountFailed,
            InstructionView::CreateTokenAccountIfAbsent { .. } => {
                RoastError::OwnershipAccountFailed
            },
            InstructionView::MintTo { .. } => RoastError::MintFailed,
            InstructionView::RevokeAuthority { .. } => RoastError::AuthorityRevokeFailed,
            InstructionView::WriteCertificateMetadata { .. } => RoastError::MetadataWriteFailed,
            InstructionView::StoreRoastData { .. } => RoastError::ProvenanceWriteFailed,
            InstructionView::StoreTokenMetadata { .. } => RoastError::MetadataWriteFailed,
        }
    }
}

impl Instruction {
    /// The failure of this step, where it fails.
    pub fn failure(&self) -> (failure: RoastError)
        ensures
            failure == self@.failure(),
            forall|ledger: LedgerView| #[trigger]
                ledger.execute(self@) is Err ==> ledger.execute(self@) == Err::<
                    LedgerView,
                    RoastError,
                >(failure),
    {
        match self {
            Instruction::InitializeMint { .. } => RoastError::SupplyInitFailed,
            Instruction::CreateTokenAccount { .. } => RoastError::OwnershipAccountFailed,
            Instruction::CreateTokenAccountIfAbsent { .. } => RoastError::OwnershipAccountFailed,
            Instruction::MintTo { .. } => RoastError::MintFailed,
            Instruction::RevokeAuthority { .. } => RoastError::AuthorityRevokeFailed,
            Instruction::WriteCertificateMetadata { .. } => RoastError::MetadataWriteFailed,
            Instruction::StoreRoastData { .. } => RoastError::ProvenanceWriteFailed,
            Instruction::StoreTokenMetadata { .. } => RoastError::MetadataWriteFailed,
        }
    }
}

impl LedgerView {
    /// The ledger without any record, at the given time.
    pub open spec fn empty(unix_timestamp: i64) -> LedgerView {
        LedgerView {
            mints: Map::empty(),
            token_accounts: Map::empty(),
            certificates: Map::empty(),
            roast_data: Map::empty(),
            token_metadata: Map::empty(),
            unix_timestamp,
        }
    }

    /// Whether `authority` holds the given right over the supply at `mint`.
    pub open spec fn has_authority(self, mint: Address, kind: AuthorityKind, authority: Address)
        -> bool {
        &&& self.mints.dom().contains(mint)
        &&& match kind {
            AuthorityKind::MintTokens => self.mints[mint].mint_authority == Some(authority),
            AuthorityKind::FreezeAccount => self.mints[mint].freeze_authority == Some(authority),
        }
    }

    /// The supply record at `mint`, if there is one.
    pub open spec fn mint_at(self, mint: Address) -> Option<Mint> {
        if self.mints.dom().contains(mint) {
            Some(self.mints[mint])
        } else {
            None
        }
    }

    /// The ownership account at `account`, if there is one.
    pub open spec fn token_account_at(self, account: Address) -> Option<TokenAccount> {
        if self.token_accounts.dom().contains(account) {
            Some(self.token_accounts[account])
        } else {
            None
        }
    }

    /// How many units the account at `account` holds; none if there is no
    /// such account.
    pub open spec fn balance(self, account: Address) -> nat {
        if self.token_accounts.dom().contains(account) {
            self.token_accounts[account].amount as nat
        } else {
            0
        }
    }

    /// Sets up a supply record in a free slot, with nothing outstanding.
    pub open spec fn initialize_mint(
        self,
        mint: Address,
        decimals: u8,
        mint_authority: Address,
        freeze_authority: Option<Address>,
    ) -> Result<LedgerView, RoastError> {
        if self.mints.dom().contains(mint) {
            Err(RoastError::SupplyInitFailed)
        } else {
            Ok(
                LedgerView {
                    mints: self.mints.insert(
                        mint,
                        Mint {
                            decimals,
                            supply: 0,
                            mint_authority: Some(mint_authority),
                            freeze_authority,
                        },
                    ),
                    ..self
                },
            )
        }
    }

    /// Creates an empty ownership account in a free slot, for a supply that
    /// exists.
    pub open spec fn create_token_account(self, account: Address, owner: Address, mint: Address)
        -> Result<LedgerView, RoastError> {
        if self.token_accounts.dom().contains(account) || !self.mints.dom().contains(mint) {
            Err(RoastError::OwnershipAccountFailed)
        } else {
            Ok(
                LedgerView {
                    token_accounts: self.token_accounts.insert(
                        account,
                        TokenAccount { mint, owner, amount: 0 },
                    ),
                    ..self
                },
            )
        }
    }

    /// Creates the ownership account unless it is there already. An account
    /// in that slot for another holder or another supply is a failure.
    pub open spec fn create_token_account_if_absent(
        self,
        account: Address,
        owner: Address,
        mint: Address,
    ) -> Result<LedgerView, RoastError> {
        if self.token_accounts.dom().contains(account) {
            if self.token_accounts[account].owner == owner && self.token_accounts[account].mint
                == mint {
                Ok(self)
            } else {
                Err(RoastError::OwnershipAccountFailed)
            }
        } else {
            self.create_token_account(account, owner, mint)
        }
    }

    /// Whether `amount` units of the supply at `mint` can be minted into
    /// `destination` on the word of `authority`: the supply exists and
    /// `authority` is its mint authority, the account exists and is of that
    /// supply, and neither count leaves its 64 bits.
    pub open spec fn can_mint_to(
        self,
        mint: Address,
        destination: Address,
        authority: Address,
        amount: u64,
    ) -> bool {
        &&& self.has_authority(mint, AuthorityKind::MintTokens, authority)
        &&& self.token_accounts.dom().contains(destination)
        &&& self.token_accounts[destination].mint == mint
        &&& self.mints[mint].supply + amount <= u64::MAX
        &&& self.token_accounts[destination].amount + amount <= u64::MAX
    }

    /// Mints `amount` units into `destination`.
    pub open spec fn mint_to(
        self,
        mint: Address,
        destination: Address,
        authority: Address,
        amount: u64,
    ) -> Result<LedgerView, RoastError> {
        if self.can_mint_to(mint, destination, authority, amount) {
            Ok(
                LedgerView {
                    mints: self.mints.insert(
                        mint,
                        Mint {
                            supply: (self.mints[mint].supply + amount) as u64,
                            ..self.mints[mint]
                        },
                    ),
                    token_accounts: self.token_accounts.insert(
                        destination,
                        TokenAccount {
                            amount: (self.token_accounts[destination].amount + amount) as u64,
                            ..self.token_accounts[destination]
                        },
                    ),
                    ..self
                },
            )
        } else {
            Err(RoastError::MintFailed)
        }
    }

    /// Gives up one authority over a supply for good. Only its holder can.
    pub open spec fn revoke_authority(self, mint: Address, kind: AuthorityKind, current: Address)
        -> Result<LedgerView, RoastError> {
        if self.has_authority(mint, kind, current) {
            Ok(
                LedgerView {
                    mints: self.mints.insert(
                        mint,
                        match kind {
                            AuthorityKind::MintTokens => Mint {
                                mint_authority: None,
                                ..self.mints[mint]
                            },
                            AuthorityKind::FreezeAccount => Mint {
                                freeze_authority: None,
                                ..self.mints[mint]
                            },
                        },
                    ),
                    ..self
                },
            )
        } else {
            Err(RoastError::AuthorityRevokeFailed)
        }
    }

    /// Enters the descriptive metadata of a supply that exists and has none
    /// yet.
    pub open spec fn write_certificate_metadata(
        self,
        mint: Address,
        metadata: CertificateMetadataView,
    ) -> Result<LedgerView, RoastError> {
        if self.certificates.dom().contains(mint) || !self.mints.dom().contains(mint) {
            Err(RoastError::MetadataWriteFailed)
        } else {
            Ok(LedgerView { certificates: self.certificates.insert(mint, metadata), ..self })
        }
    }

    /// Writes a provenance record that fits into a free slot.
    pub open spec fn store_roast_data(self, at: Address, record: RoastDataView) -> Result<
        LedgerView,
        RoastError,
    > {
        if self.roast_data.dom().contains(at) || !record.fits() {
            Err(RoastError::ProvenanceWriteFailed)
        } else {
            Ok(LedgerView { roast_data: self.roast_data.insert(at, record), ..self })
        }
    }

    /// Writes a token metadata record that fits into a free slot.
    pub open spec fn store_token_metadata(self, at: Address, record: TokenMetadataView) -> Result<
        LedgerView,
        RoastError,
    > {
        if self.token_metadata.dom().contains(at) || !record.fits() {
            Err(RoastError::MetadataWriteFailed)
        } else {
            Ok(LedgerView { token_metadata: self.token_metadata.insert(at, record), ..self })
        }
    }

    /// What one instruction comes to.
    pub open spec fn execute(self, instruction: InstructionView) -> Result<LedgerView, RoastError> {
        match instruction {
            InstructionView::InitializeMint {
                mint,
                decimals,
                mint_authority,
                freeze_authority,
            } => {
                self.initialize_mint(mint, decimals, mint_authority, freeze_authority)
            },
            InstructionView::CreateTokenAccount { account, owner, mint } => {
                self.create_token_account(account, owner, mint)
            },
            InstructionView::CreateTokenAccountIfAbsent { account, owner, mint } => {
                self.create_token_account_if_absent(account, owner, mint)
            },
            InstructionView::MintTo { mint, destination, authority, amount } => self.mint_to(
                mint,
                destination,
                authority,
                amount,
            ),
            InstructionView::RevokeAuthority { mint, kind, current } => self.revoke_authority(
                mint,
                kind,
                current,
            ),
            InstructionView::WriteCertificateMetadata { mint, metadata, .. } => {
                self.write_certificate_metadata(mint, metadata)
            },
            InstructionView::StoreRoastData { at, record } => self.store_roast_data(at, record),
            InstructionView::StoreTokenMetadata { at, record } => self.store_token_metadata(
                at,
                record,
            ),
        }
    }

    /// What a list of instructions comes to when they run in order as one
    /// transaction: the ledger after the last of them, or the failure of the
    /// first that fails.
    pub open spec fn run(self, plan: Seq<InstructionView>) -> Result<LedgerView, RoastError>
        decreases plan.len(),
    {
        if plan.len() == 0 {
            Ok(self)
        } else {
            match self.run(plan.drop_last()) {
                Ok(ledger) => ledger.execute(plan.last()),
                Err(failure) => Err(failure),
            }
        }
    }

    /// A transaction of one step comes to what the step comes to; one of two
    /// steps to what the second comes to after the first, or to the failure
    /// of the first.
    pub proof fn lemma_run_short(self, plan: Seq<InstructionView>)
        requires
            1 <= plan.len() <= 2,
        ensures
            plan.len() == 1 ==> self.run(plan) == self.execute(plan[0]),
            plan.len() == 2 ==> self.run(plan) == (match self.execute(plan[0]) {
                Ok(middle) => middle.execute(plan[1]),
                Err(failure) => Err(failure),
            }),
    {
        assert(plan.take(0).len() == 0);
        assert(plan.take(1).drop_last() == plan.take(0));
        assert(self.run(plan.take(0)) == Ok::<LedgerView, RoastError>(self));
        assert(self.run(plan.take(1)) == self.execute(plan[0]));
        if plan.len() == 1 {
            assert(plan.take(1) == plan);
        } else {
            assert(plan.take(2) == plan);
            assert(plan.drop_last() == plan.take(1));
        }
    }

    /// A transaction that has failed stays failed, whatever follows.
    pub proof fn lemma_run_failed(self, plan: Seq<InstructionView>, done: int)
        requires
            0 <= done <= plan.len(),
            self.run(plan.take(done)) is Err,
        ensures
            self.run(plan) == self.run(plan.take(done)),
        decreases plan.len() - done,
    {
        if done < plan.len() {
            assert(plan.take(done + 1).drop_last() == plan.take(done));
            self.lemma_run_failed(plan, done + 1);
        } else {
            assert(plan.take(done) == plan);
        }
    }
}

/// What it is for an operation to be a transaction: it reports success and
/// leaves the ledger in the state `expected`, or it reports the failure
/// `expected` and leaves the ledger as it was.
pub open spec fn committed(
    before: LedgerView,
    after: LedgerView,
    reported: Result<(), RoastError>,
    expected: Result<LedgerView, RoastError>,
) -> bool {
    match reported {
        Ok(_) => expected == Ok::<LedgerView, RoastError>(after),
        Err(e) => expected == Err::<LedgerView, RoastError>(e) && after == before,
    }
}

/// A ledger.
pub struct Ledger {
    mints: Table<Mint>,
    token_accounts: Table<TokenAccount>,
    certificates: Table<CertificateMetadata>,
    roast_data: Table<RoastData>,
    token_metadata: Table<TokenMetadata>,
    unix_timestamp: i64,
}

impl View for Ledger {
    type V = LedgerView;

    closed spec fn view(&self) -> LedgerView {
        LedgerView {
            mints: self.mints@,
            token_accounts: self.token_accounts@,
            certificates: self.certificates@,
            roast_data: self.roast_data@,
            token_metadata: self.token_metadata@,
            unix_timestamp: self.unix_timestamp,
        }
    }
}

impl Ledger {
    /// A ledger without any record, at the given time.
    pub fn new(unix_timestamp: i64) -> (ledger: Ledger)
        ensures
            ledger@ == LedgerView::empty(unix_timestamp),
    {
        Ledger {
            mints: Table::new(),
            token_accounts: Table::new(),
            certificates: Table::new(),
            roast_data: Table::new(),
            token_metadata: Table::new(),
            unix_timestamp,
        }
    }

    /// A copy of the ledger.
    pub fn duplicate(&self) -> (copy: Ledger)
        ensures
            copy@ == self@,
    {
        Ledger {
            mints: self.mints.duplicate(),
            token_accounts: self.token_accounts.duplicate(),
            certificates: self.certificates.duplicate(),
            roast_data: self.roast_data.duplicate(),
            token_metadata: self.token_metadata.duplicate(),
            unix_timestamp: self.unix_timestamp,
        }
    }

    /// The time of the ledger.
    pub fn unix_timestamp(&self) -> (now: i64)
        ensures
            now == self@.unix_timestamp,
    {
        self.unix_timestamp
    }

    /// Moves the time of the ledger.
    pub fn set_unix_timestamp(&mut self, now: i64)
        ensures
            final(self)@ == (LedgerView { unix_timestamp: now, ..old(self)@ }),
    {
        self.unix_timestamp = now;
    }

    /// The supply record at `at`.
    pub fn mint(&self, at: &Address) -> (found: Option<Mint>)
        ensures
            found == self@.mint_at(*at),
    {
        match self.mints.get(at) {
            Some(mint) => Some(*mint),
            None => None,
        }
    }

    /// The ownership account at `at`.
    pub fn token_account(&self, at: &Address) -> (found: Option<TokenAccount>)
        ensures
            found == self@.token_account_at(*at),
    {
        match self.token_accounts.get(at) {
            Some(account) => Some(*account),
            None => None,
        }
    }

    /// How many units the account at `at` holds; none if there is no such
    /// account.
    pub fn balance(&self, at: &Address) -> (amount: u64)
        ensures
            amount == self@.balance(*at),
    {
        match self.token_accounts.get(at) {
            Some(account) => account.amount,
            None => 0,
        }
    }

    /// The descriptive metadata of the supply at `mint`.
    pub fn certificate(&self, mint: &Address) -> (found: Option<&CertificateMetadata>)
        ensures
            match found {
                Some(metadata) => self@.certificates.dom().contains(*mint) && metadata@
                    == self@.certificates[*mint],
                None => !self@.certificates.dom().contains(*mint),
            },
    {
        self.certificates.get(mint)
    }

    /// The provenance record at `at`.
    pub fn roast_data(&self, at: &Address) -> (found: Option<&RoastData>)
        ensures
            match found {
                Some(record) => self@.roast_data.dom().contains(*at) && record@
                    == self@.roast_data[*at],
                None => !self@.roast_data.dom().contains(*at),
            },
    {
        self.roast_data.get(at)
    }

    /// The token metadata record at `at`.
    pub fn token_metadata(&self, at: &Address) -> (found: Option<&TokenMetadata>)
        ensures
            match found {
                Some(record) => self@.token_metadata.dom().contains(*at) && record@
                    == self@.token_metadata[*at],
                None => !self@.token_metadata.dom().contains(*at),
            },
    {
        self.token_metadata.get(at)
    }

    /// Whether `authority` holds the given right over the supply at `mint`.
    pub fn has_authority(
        &self,
        mint: &Address,
        kind: AuthorityKind,
        authority: &Address,
    ) -> (held: bool)
        ensures
            held == self@.has_authority(*mint, kind, *authority),
    {
        match self.mints.get(mint) {
            Some(supply) => {
                let slot: Option<Address> = match kind {
                    AuthorityKind::MintTokens => supply.mint_authority,
                    AuthorityKind::FreezeAccount => supply.freeze_authority,
                };
                match slot {
                    Some(holder) => holder == *authority,
                    None => false,
                }
            },
            None => false,
        }
    }

    /// Sets up the supply record at `mint`, with nothing outstanding. Fails
    /// if the slot holds a supply record already.
    pub fn initialize_mint(
        &mut self,
        mint: &Address,
        decimals: u8,
        mint_authority: &Address,
        freeze_authority: Option<Address>,
    ) -> (done: Result<(), RoastError>)
        ensures
            committed(
                old(self)@,
                final(self)@,
                done,
                old(self)@.initialize_mint(*mint, decimals, *mint_authority, freeze_authority),
            ),
    {
        if self.mints.contains(mint) {
            return Err(RoastError::SupplyInitFailed);
        }
        self.mints.put(
            *mint,
            Mint { decimals, supply: 0, mint_authority: Some(*mint_authority), freeze_authority },
        );
        Ok(())
    }

    /// Creates the empty ownership account at `account`, of `owner`, for the
    /// supply at `mint`. Fails if the slot is taken or there is no such
    /// supply.
    pub fn create_token_account(
        &mut self,
        account: &Address,
        owner: &Address,
        mint: &Address,
    ) -> (done: Result<(), RoastError>)
        ensures
            committed(
                old(self)@,
                final(self)@,
                done,
                old(self)@.create_token_account(*account, *owner, *mint),
            ),
    {
        if self.token_accounts.contains(account) || !self.mints.contains(mint) {
            return Err(RoastError::OwnershipAccountFailed);
        }
        self.token_accounts.put(*account, TokenAccount { mint: *mint, owner: *owner, amount: 0 });
        Ok(())
    }

    /// Creates the ownership account at `account` unless it is there
    /// already, of that owner and for that supply.
    pub fn create_token_account_if_absent(
        &mut self,
        account: &Address,
        owner: &Address,
        mint: &Address,
    ) -> (done: Result<(), RoastError>)
        ensures
            committed(
                old(self)@,
                final(self)@,
                done,
                old(self)@.create_token_account_if_absent(*account, *owner, *mint),
            ),
    {
        match self.token_accounts.get(account) {
            Some(existing) => {
                if existing.owner == *owner && existing.mint == *mint {
                    Ok(())
                } else {
                    Err(RoastError::OwnershipAccountFailed)
                }
            },
            None => self.create_token_account(account, owner, mint),
        }
    }

    /// Mints `amount` units of the supply at `mint` into `destination`, on
    /// the word of `authority`. Fails where `can_mint_to` does not hold: above
    /// all where the mint authority is another, or has been revoked.
    pub fn mint_to(
        &mut self,
        mint: &Address,
        destination: &Address,
        authority: &Address,
        amount: u64,
    ) -> (done: Result<(), RoastError>)
        ensures
            committed(
                old(self)@,
                final(self)@,
                done,
                old(self)@.mint_to(*mint, *destination, *authority, amount),
            ),
    {
        if !self.has_authority(mint, AuthorityKind::MintTokens, authority) {
            return Err(RoastError::MintFailed);
        }
        let supply: Mint = match self.mints.get(mint) {
            Some(supply) => *supply,
            None => {
                return Err(RoastError::MintFailed);
            },
        };
        let holding: TokenAccount = match self.token_accounts.get(destination) {
            Some(holding) => *holding,
            None => {
                return Err(RoastError::MintFailed);
            },
        };
        if holding.mint != *mint || amount > u64::MAX - supply.supply || amount > u64::MAX
            - holding.amount {
            return Err(RoastError::MintFailed);
        }
        self.mints.put(
            *mint,
            Mint {
                decimals: supply.decimals,
                supply: supply.supply + amount,
                mint_authority: supply.mint_authority,
                freeze_authority: supply.freeze_authority,
            },
        );
        self.token_accounts.put(
            *destination,
            TokenAccount {
                mint: holding.mint,
                owner: holding.owner,
                amount: holding.amount + amount,
            },
        );
        Ok(())
    }

    /// Gives up one authority over the supply at `mint` for good. Fails
    /// unless `current` holds it.
    pub fn revoke_authority(
        &mut self,
        mint: &Address,
        kind: AuthorityKind,
        current: &Address,
    ) -> (done: Result<(), RoastError>)
        ensures
            committed(
                old(self)@,
                final(self)@,
                done,
                old(self)@.revoke_authority(*mint, kind, *current),
            ),
    {
        if !self.has_authority(mint, kind, current) {
            return Err(RoastError::AuthorityRevokeFailed);
        }
        let supply: Mint = match self.mints.get(mint) {
            Some(supply) => *supply,
            None => {
                return Err(RoastError::AuthorityRevokeFailed);
            },
        };
        let revoked: Mint = match kind {
            AuthorityKind::MintTokens => Mint {
                decimals: supply.decimals,
                supply: supply.supply,
                mint_authority: None,
                freeze_authority: supply.freeze_authority,
            },
            AuthorityKind::FreezeAccount => Mint {
                decimals: supply.decimals,
                supply: supply.supply,
                mint_authority: supply.mint_authority,
                freeze_authority: None,
            },
        };
        self.mints.put(*mint, revoked);
        Ok(())
    }

    /// Enters the descriptive metadata of the supply at `mint`. Fails if the
    /// supply has metadata already, or does not exist.
    pub fn write_certificate_metadata(
        &mut self,
        mint: &Address,
        metadata: CertificateMetadata,
    ) -> (done: Result<(), RoastError>)
        ensures
            committed(
                old(self)@,
                final(self)@,
                done,
                old(self)@.write_certificate_metadata(*mint, metadata@),
            ),
    {
        if self.certificates.contains(mint) || !self.mints.contains(mint) {
            return Err(RoastError::MetadataWriteFailed);
        }
        self.certificates.put(*mint, metadata);
        Ok(())
    }

    /// Writes the provenance record at `at`. Fails if the slot is taken or
    /// the record has no room in it.
    pub fn store_roast_data(&mut self, at: &Address, record: RoastData) -> (done: Result<
        (),
        RoastError,
    >)
        ensures
            committed(old(self)@, final(self)@, done, old(self)@.store_roast_data(*at, record@)),
    {
        if self.roast_data.contains(at) || !record.fits() {
            return Err(RoastError::ProvenanceWriteFailed);
        }
        self.roast_data.put(*at, record);
        Ok(())
    }

    /// Writes the token metadata record at `at`. Fails if the slot is taken
    /// or the record has no room in it.
    pub fn store_token_metadata(&mut self, at: &Address, record: TokenMetadata) -> (done: Result<
        (),
        RoastError,
    >)
        ensures
            committed(
                old(self)@,
                final(self)@,
                done,
                old(self)@.store_token_metadata(*at, record@),
            ),
    {
        if self.token_metadata.contains(at) || !record.fits() {
            return Err(RoastError::MetadataWriteFailed);
        }
        self.token_metadata.put(*at, record);
        Ok(())
    }
    /// Carries out one instruction: the step that it names.
    pub fn execute(&mut self, instruction: &Instruction) -> (done: Result<(), RoastError>)
        ensures
            committed(old(self)@, final(self)@, done, old(self)@.execute(instruction@)),
    {
        match instruction {
            Instruction::InitializeMint { mint, decimals, mint_authority, freeze_authority } => {
                self.initialize_mint(mint, *decimals, mint_authority, *freeze_authority)
            },
            Instruction::CreateTokenAccount { account, owner, mint } => {
                self.create_token_account(account, owner, mint)
            },
            Instruction::CreateTokenAccountIfAbsent { account, owner, mint } => {
                self.create_token_account_if_absent(account, owner, mint)
            },
            Instruction::MintTo { mint, destination, authority, amount } => {
                self.mint_to(mint, destination, authority, *amount)
            },
            Instruction::RevokeAuthority { mint, kind, current } => {
                self.revoke_authority(mint, *kind, current)
            },
            Instruction::WriteCertificateMetadata { mint, metadata, .. } => {
                self.write_certificate_metadata(mint, metadata.duplicate())
            },
            Instruction::StoreRoastData { at, record } => {
                self.store_roast_data(at, record.duplicate())
            },
            Instruction::StoreTokenMetadata { at, record } => {
                self.store_token_metadata(at, record.duplicate())
            },
        }
    }

    /// Carries out a list of instructions as one transaction: in order, and
    /// all of them or none. The first instruction that fails ends the
    /// transaction with its failure, and the ledger is left as it was.
    pub fn transact(&mut self, plan: &Vec<Instruction>) -> (done: Result<(), RoastError>)
        ensures
            committed(old(self)@, final(self)@, done, old(self)@.run(plan_view(plan@))),
    {
        let ghost before = self@;
        let ghost steps = plan_view(plan@);
        let mut work: Ledger = self.duplicate();
        let mut i: usize = 0;
        while i < plan.len()
            invariant
                i <= plan.len(),
                steps == plan_view(plan@),
                self@ == before,
                before.run(steps.take(i as int)) == Ok::<LedgerView, RoastError>(work@),
            decreases plan.len() - i,
        {
            proof {
                assert(steps.take(i + 1).drop_last() == steps.take(i as int));
                assert(steps.take(i + 1).last() == plan@[i as int]@);
                assert(before.run(steps.take(i + 1)) == work@.execute(plan@[i as int]@));
            }
            match work.execute(&plan[i]) {
                Ok(_) => {},
                Err(failure) => {
                    proof {
                        before.lemma_run_failed(steps, i + 1);
                    }
                    return Err(failure);
                },
            }
            i = i + 1;
        }
        proof {
            assert(steps.take(plan.len() as int) == steps);
        }
        *self = work;
        Ok(())
    }
}

} // verus!
