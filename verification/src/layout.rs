//! How provenance records and token metadata records are stored: a header of
//! eight bytes, then the fields in their order. An identity takes its 32
//! bytes, a text its length in four bytes and then its bytes, a flag one
//! byte, a number its bytes with the lowest first.

use vstd::prelude::*;
use crate::address::Address;
use crate::records::{RoastData, RoastDataView, TokenMetadata, TokenMetadataView};

verus! {

/// The header of a stored provenance record: the first eight bytes of the
/// SHA-256 digest of `account:RoastData`.
pub open spec fn roast_data_header() -> Seq<u8> {
    seq![253u8, 82u8, 59u8, 8u8, 6u8, 72u8, 75u8, 6u8]
}

/// The header of a stored token metadata record: the first eight bytes of the
/// SHA-256 digest of `account:TokenMetadata`.
pub open spec fn token_metadata_header() -> Seq<u8> {
    seq![237u8, 215u8, 132u8, 182u8, 24u8, 127u8, 175u8, 173u8]
}

/// The `width` lowest bytes of a number, the lowest first.
pub open spec fn little_endian(value: nat, width: nat) -> Seq<u8>
    decreases width,
{
    if width == 0 {
        seq![]
    } else {
        seq![(value % 256) as u8] + little_endian(value / 256, (width - 1) as nat)
    }
}

/// A signed number of 64 bits as the unsigned number with the same bits.
pub open spec fn twos_complement(value: i64) -> nat {
    if value >= 0 {
        value as nat
    } else {
        (value + 0x1_0000_0000_0000_0000) as nat
    }
}

/// A text with its length before it.
pub open spec fn prefixed(text: Seq<u8>) -> Seq<u8> {
    little_endian(text.len(), 4) + text
}

/// A flag as one byte.
pub open spec fn flag_byte(flag: bool) -> u8 {
    if flag {
        1
    } else {
        0
    }
}

impl RoastDataView {
    /// The stored form of the record.
    pub open spec fn encoding(self) -> Seq<u8> {
        roast_data_header() + self.mint.bytes@ + self.owner.bytes@ + prefixed(self.content)
            + seq![self.score] + seq![flag_byte(self.is_executive_order)] + little_endian(
            twos_complement(self.timestamp),
            8,
        )
    }
}

impl TokenMetadataView {
    /// The stored form of the record.
    pub open spec fn encoding(self) -> Seq<u8> {
        token_metadata_header() + prefixed(self.name) + prefixed(self.symbol) + prefixed(self.uri)
            + self.mint.bytes@ + self.authority.bytes@ + seq![flag_byte(self.verified)]
    }
}

/// The stored form of a number has as many bytes as were asked for.
pub proof fn lemma_little_endian_len(value: nat, width: nat)
    ensures
        little_endian(value, width).len() == width,
    decreases width,
{
    if width > 0 {
        lemma_little_endian_len(value / 256, (width - 1) as nat);
    }
}

/// A record takes as many bytes as `encoded_len` says.
pub proof fn lemma_encoding_len(roast: RoastDataView, token: TokenMetadataView)
    ensures
        roast.encoding().len() == roast.encoded_len(),
        token.encoding().len() == token.encoded_len(),
{
    lemma_little_endian_len(roast.content.len(), 4);
    lemma_little_endian_len(twos_complement(roast.timestamp), 8);
    lemma_little_endian_len(token.name.len(), 4);
    lemma_little_endian_len(token.symbol.len(), 4);
    lemma_little_endian_len(token.uri.len(), 4);
}

fn push_header(out: &mut Vec<u8>, header: [u8; 8])
    ensures
        final(out)@ == old(out)@ + header@,
{
    let ghost before = out@;
    let mut i: usize = 0;
    while i < 8
        invariant
            i <= 8,
            out@ == before + header@.subrange(0, i as int),
        decreases 8 - i,
    {
        out.push(header[i]);
        i = i + 1;
    }
}

fn push_address(out: &mut Vec<u8>, address: &Address)
    ensures
        final(out)@ == old(out)@ + address.bytes@,
{
    let ghost before = out@;
    let mut i: usize = 0;
    while i < 32
        invariant
            i <= 32,
            out@ == before + address.bytes@.subrange(0, i as int),
        decreases 32 - i,
    {
        out.push(address.bytes[i]);
        i = i + 1;
    }
}

fn push_little_endian(out: &mut Vec<u8>, value: u64, width: usize)
    ensures
        final(out)@ == old(out)@ + little_endian(value as nat, width as nat),
{
    let ghost before = out@;
    let mut rest: u64 = value;
    let mut i: usize = 0;
    while i < width
        invariant
            i <= width,
            before + little_endian(value as nat, width as nat) == out@ + little_endian(
                rest as nat,
                (width - i) as nat,
            ),
        decreases width - i,
    {
        proof {
            assert(out@.push((rest % 256) as u8) + little_endian(
                (rest / 256) as nat,
                (width - i - 1) as nat,
            ) =~= out@ + little_endian(rest as nat, (width - i) as nat));
        }
        out.push((rest % 256) as u8);
        rest = rest / 256;
        i = i + 1;
    }
}

fn push_text(out: &mut Vec<u8>, text: &Vec<u8>)
    requires
        text.len() <= u32::MAX,
    ensures
        final(out)@ == old(out)@ + prefixed(text@),
{
    push_little_endian(out, text.len() as u64, 4);
    let ghost middle = out@;
    let mut i: usize = 0;
    while i < text.len()
        invariant
            i <= text.len(),
            out@ == middle + text@.subrange(0, i as int),
        decreases text.len() - i,
    {
        out.push(text[i]);
        i = i + 1;
    }
}

fn push_flag(out: &mut Vec<u8>, flag: bool)
    ensures
        final(out)@ == old(out)@ + seq![flag_byte(flag)],
{
    if flag {
        out.push(1);
    } else {
        out.push(0);
    }
}

fn unsigned(value: i64) -> (bits: u64)
    ensures
        bits == twos_complement(value),
{
    if value >= 0 {
        value as u64
    } else {
        (value - i64::MIN) as u64 + 0x8000_0000_0000_0000
    }
}

impl RoastData {
    /// The stored form of the record, if the record has room in its slot.
    pub fn encode(&self) -> (stored: Option<Vec<u8>>)
        ensures
            match stored {
                Some(bytes) => self@.fits() && bytes@ == self@.encoding(),
                None => !self@.fits(),
            },
    {
        if !self.fits() {
            return None;
        }
        let mut bytes: Vec<u8> = Vec::new();
        push_header(&mut bytes, [253, 82, 59, 8, 6, 72, 75, 6]);
        push_address(&mut bytes, &self.mint);
        push_address(&mut bytes, &self.owner);
        push_text(&mut bytes, &self.content);
        bytes.push(self.score);
        push_flag(&mut bytes, self.is_executive_order);
        push_little_endian(&mut bytes, unsigned(self.timestamp), 8);
        Some(bytes)
    }
}

impl TokenMetadata {
    /// The stored form of the record, if the record has room in its slot.
    pub fn encode(&self) -> (stored: Option<Vec<u8>>)
        ensures
            match stored {
                Some(bytes) => self@.fits() && bytes@ == self@.encoding(),
                None => !self@.fits(),
            },
    {
        if !self.fits() {
            return None;
        }
        let mut bytes: Vec<u8> = Vec::new();
        push_header(&mut bytes, [237, 215, 132, 182, 24, 127, 175, 173]);
        push_text(&mut bytes, &self.name);
        push_text(&mut bytes, &self.symbol);
        push_text(&mut bytes, &self.uri);
        push_address(&mut bytes, &self.mint);
        push_address(&mut bytes, &self.authority);
        push_flag(&mut bytes, self.verified);
        Some(bytes)
    }
}

} // verus!
