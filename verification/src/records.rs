//! The records that the ledger holds.

use vstd::prelude::*;
use crate::address::Address;
use crate::table::Record;
use crate::text::copy_text;

verus! {

/// The longest roast that a provenance record has room for.
pub const ROAST_CONTENT_LIMIT: usize = 500;

/// The room of a provenance record: a header, the supply's and the holder's
/// identity, the roast with its length before it, the score, the flag and the
/// time.
pub const ROAST_DATA_SPACE: usize = 8 + 32 + 32 + 4 + 500 + 1 + 1 + 8;

/// The room of a token metadata record.
pub const TOKEN_METADATA_SPACE: usize = 8 + 32 + 4 + 10 + 4 + 5 + 4 + 200 + 32 + 32 + 1;

/// The royalty of every certificate, in basis points: five percent.
pub const ROYALTY_BASIS_POINTS: u16 = 500;

/// A supply record: one class of asset, how much of it is outstanding, and
/// who may mint or freeze it. An authority that is absent stays absent.
#[derive(Clone, Copy, PartialEq, Eq, Debug)]
pub struct Mint {
    pub decimals: u8,
    pub supply: u64,
    pub mint_authority: Option<Address>,
    pub freeze_authority: Option<Address>,
}

/// An ownership account: how much of one supply one holder has.
#[derive(Clone, Copy, PartialEq, Eq, Debug)]
pub struct TokenAccount {
    pub mint: Address,
    pub owner: Address,
    pub amount: u64,
}

/// The provenance record of a certificate, written once.
#[derive(PartialEq, Eq, Debug)]
pub struct RoastData {
    /// The supply record of the certificate.
    pub mint: Address,
    /// The first holder.
    pub owner: Address,
    /// The roast, in full.
    pub content: Vec<u8>,
    pub score: u8,
    pub is_executive_order: bool,
    /// When the certificate was minted.
    pub timestamp: i64,
}

/// What a provenance record holds.
pub struct RoastDataView {
    pub mint: Address,
    pub owner: Address,
    pub content: Seq<u8>,
    pub score: u8,
    pub is_executive_order: bool,
    pub timestamp: i64,
}

/// One who receives a share of the royalties.
#[derive(Clone, Copy, PartialEq, Eq, Debug)]
pub struct Creator {
    pub address: Address,
    pub verified: bool,
    /// The share, in percent.
    pub share: u8,
}

/// The descriptive metadata of a certificate, as the registry keeps it.
#[derive(PartialEq, Eq, Debug)]
pub struct CertificateMetadata {
    pub name: Vec<u8>,
    pub symbol: Vec<u8>,
    pub uri: Vec<u8>,
    pub description: Vec<u8>,
    pub seller_fee_basis_points: u16,
    pub creators: Vec<Creator>,
    pub is_mutable: bool,
    pub update_authority: Address,
}

/// What a descriptive metadata record holds.
pub struct CertificateMetadataView {
    pub name: Seq<u8>,
    pub symbol: Seq<u8>,
    pub uri: Seq<u8>,
    pub description: Seq<u8>,
    pub seller_fee_basis_points: u16,
    pub creators: Seq<Creator>,
    pub is_mutable: bool,
    pub update_authority: Address,
}

/// The metadata of a reward token.
#[derive(PartialEq, Eq, Debug)]
pub struct TokenMetadata {
    pub name: Vec<u8>,
    pub symbol: Vec<u8>,
    pub uri: Vec<u8>,
    pub mint: Address,
    pub authority: Address,
    pub verified: bool,
}

/// What a token metadata record holds.
pub struct TokenMetadataView {
    pub name: Seq<u8>,
    pub symbol: Seq<u8>,
    pub uri: Seq<u8>,
    pub mint: Address,
    pub authority: Address,
    pub verified: bool,
}

impl View for Mint {
    type V = Mint;

    open spec fn view(&self) -> Mint {
        *self
    }
}

impl Record for Mint {
    fn duplicate(&self) -> (copy: Mint) {
        *self
    }
}

impl View for TokenAccount {
    type V = TokenAccount;

    open spec fn view(&self) -> TokenAccount {
        *self
    }
}

impl Record for TokenAccount {
    fn duplicate(&self) -> (copy: TokenAccount) {
        *self
    }
}

impl View for RoastData {
    type V = RoastDataView;

    open spec fn view(&self) -> RoastDataView {
        RoastDataView {
            mint: self.mint,
            owner: self.owner,
            content: self.content@,
            score: self.score,
            is_executive_order: self.is_executive_order,
            timestamp: self.timestamp,
        }
    }
}

impl Clone for RoastData {
    fn clone(&self) -> (copy: RoastData)
        ensures
            copy@ == self@,
    {
        self.duplicate()
    }
}

impl Record for RoastData {
    fn duplicate(&self) -> (copy: RoastData) {
        RoastData {
            mint: self.mint,
            owner: self.owner,
            content: copy_text(&self.content),
            score: self.score,
            is_executive_order: self.is_executive_order,
            timestamp: self.timestamp,
        }
    }
}

impl RoastDataView {
    /// The bytes that the record takes when it is stored.
    pub open spec fn encoded_len(self) -> nat {
        (8 + 32 + 32 + 4 + self.content.len() + 1 + 1 + 8) as nat
    }

    /// Whether the record has room in its slot.
    pub open spec fn fits(self) -> bool {
        self.encoded_len() <= ROAST_DATA_SPACE
    }
}

impl RoastData {
    /// Whether the record has room in its slot: the roast has at most
    /// `ROAST_CONTENT_LIMIT` bytes.
    pub fn fits(&self) -> (fits: bool)
        ensures
            fits == self@.fits(),
            fits == (self.content@.len() <= ROAST_CONTENT_LIMIT),
    {
        self.content.len() <= ROAST_CONTENT_LIMIT
    }
}

impl View for CertificateMetadata {
    type V = CertificateMetadataView;

    open spec fn view(&self) -> CertificateMetadataView {
        CertificateMetadataView {
            name: self.name@,
            symbol: self.symbol@,
            uri: self.uri@,
            description: self.description@,
            seller_fee_basis_points: self.seller_fee_basis_points,
            creators: self.creators@,
            is_mutable: self.is_mutable,
            update_authority: self.update_authority,
        }
    }
}

impl Clone for CertificateMetadata {
    fn clone(&self) -> (copy: CertificateMetadata)
        ensures
            copy@ == self@,
    {
        self.duplicate()
    }
}

impl Record for CertificateMetadata {
    fn duplicate(&self) -> (copy: CertificateMetadata) {
        let mut creators: Vec<Creator> = Vec::new();
        let mut i: usize = 0;
        while i < self.creators.len()
            invariant
                i <= self.creators.len(),
                creators@ == self.creators@.subrange(0, i as int),
            decreases self.creators.len() - i,
        {
            creators.push(self.creators[i]);
            i = i + 1;
        }
        assert(self.creators@.subrange(0, self.creators.len() as int) == self.creators@);
        CertificateMetadata {
            name: copy_text(&self.name),
            symbol: copy_text(&self.symbol),
            uri: copy_text(&self.uri),
            description: copy_text(&self.description),
            seller_fee_basis_points: self.seller_fee_basis_points,
            creators,
            is_mutable: self.is_mutable,
            update_authority: self.update_authority,
        }
    }
}

impl View for TokenMetadata {
    type V = TokenMetadataView;

    open spec fn view(&self) -> TokenMetadataView {
        TokenMetadataView {
            name: self.name@,
            symbol: self.symbol@,
            uri: self.uri@,
            mint: self.mint,
            authority: self.authority,
            verified: self.verified,
        }
    }
}

impl Clone for TokenMetadata {
    fn clone(&self) -> (copy: TokenMetadata)
        ensures
            copy@ == self@,
    {
        self.duplicate()
    }
}

impl Record for TokenMetadata {
    fn duplicate(&self) -> (copy: TokenMetadata) {
        TokenMetadata {
            name: copy_text(&self.name),
            symbol: copy_text(&self.symbol),
            uri: copy_text(&self.uri),
            mint: self.mint,
            authority: self.authority,
            verified: self.verified,
        }
    }
}

impl TokenMetadataView {
    /// The bytes that the record takes when it is stored: a header, the three
    /// texts, each with its length before it, the two identities and the flag.
    pub open spec fn encoded_len(self) -> nat {
        (8 + (4 + self.name.len()) + (4 + self.symbol.len()) + (4 + self.uri.len()) + 32 + 32
            + 1) as nat
    }

    /// Whether the record has room in its slot.
    pub open spec fn fits(self) -> bool {
        self.encoded_len() <= TOKEN_METADATA_SPACE
    }
}

impl TokenMetadata {
    /// Whether the record has room in its slot.
    pub fn fits(&self) -> (fits: bool)
        ensures
            fits == self@.fits(),
    {
        let fixed: usize = 8 + 4 + 4 + 4 + 32 + 32 + 1;
        let room: usize = TOKEN_METADATA_SPACE - fixed;
        self.name.len() <= room && self.symbol.len() <= room - self.name.len() && self.uri.len()
            <= room - self.name.len() - self.symbol.len()
    }
}

} // verus!
