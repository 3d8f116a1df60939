//! Roast certificates and roast reward tokens.
//!
//! A roast is a scored piece of text. The crate issues two kinds of assets for
//! it on a token ledger: a one-of-one certificate that records the text and
//! its score, and a fungible reward whose amount depends on the score.
//!
//! An operation first decides from plain values whether it may go ahead, and
//! with which steps (`prepare_certificate` in [`nft`], the `prepare`
//! functions in [`token`]). The steps then run as one transaction on a
//! [`Ledger`]: all of them take effect, or the ledger is left as it was.
//! What holds of the operations whatever the ledger stands in [`laws`].

pub mod address;
pub mod award;
pub mod error;
pub mod laws;
pub mod layout;
pub mod ledger;
pub mod nft;
pub mod records;
pub mod seeds;
pub mod table;
pub mod text;
pub mod token;

pub use address::Address;
pub use award::calculate_token_award;
pub use error::{ErrorKind, RoastError};
pub use ledger::{AuthorityKind, Instruction, Ledger};
pub use nft::{
    certificate_plan,
    mint_roast_nft,
    mint_roast_nft_at,
    prepare_certificate,
    MintRoastNFT,
};
pub use records::{
    CertificateMetadata,
    Creator,
    Mint,
    RoastData,
    TokenAccount,
    TokenMetadata,
};
pub use seeds::ProgramIds;
pub use token::{
    award_tokens,
    award_tokens_at,
    initialize_token,
    initialize_token_at,
    mint_tokens,
    prepare_award_tokens,
    prepare_initialize_token,
    prepare_mint_tokens,
    AwardTokens,
    InitializeToken,
    MintTokens,
};
