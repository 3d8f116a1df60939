//! Texts as sequences of storage units (bytes): the names and descriptions of
//! certificates.

use vstd::prelude::*;
use vstd::string::StringSliceAdditionalSpecFns;

verus! {

/// The longest roast that a description holds in full.
pub const DESCRIPTION_LIMIT: usize = 200;

/// How much of a longer roast a description keeps, before the ellipsis.
pub const DESCRIPTION_KEPT: usize = 197;

/// The bytes of a text of ASCII characters.
pub open spec fn ascii(text: Seq<char>) -> Seq<u8> {
    Seq::new(text.len(), |i: int| text[i] as u8)
}

/// A number in decimal digits, without leading zeros.
pub open spec fn decimal(n: nat) -> Seq<u8>
    decreases n,
{
    if n < 10 {
        seq![(48 + n) as u8]
    } else {
        decimal(n / 10).push((48 + n % 10) as u8)
    }
}

/// The display name of a certificate for a roast of the given score.
pub open spec fn name_of(score: u8, is_executive_order: bool) -> Seq<u8> {
    if is_executive_order {
        ascii("Presidential Roast Executive Order #"@) + decimal(score as nat)
    } else {
        ascii("Presidential Roast #"@) + decimal(score as nat)
    }
}

/// The description of a certificate: the roast itself while it has at most
/// `DESCRIPTION_LIMIT` bytes, else its first `DESCRIPTION_KEPT` bytes and
/// three dots. The cut is made between bytes, wherever it falls.
pub open spec fn description_of(content: Seq<u8>) -> Seq<u8> {
    if content.len() <= DESCRIPTION_LIMIT {
        content
    } else {
        content.subrange(0, DESCRIPTION_KEPT as int) + ascii("..."@)
    }
}

/// The symbol that every certificate carries.
pub open spec fn symbol_of() -> Seq<u8> {
    ascii("PROAST"@)
}

/// The bytes of a string: one for each character where all are ASCII.
pub fn ascii_bytes(text: &str) -> (bytes: Vec<u8>)
    ensures
        bytes@ == text.spec_bytes(),
        text.is_ascii() ==> bytes@ == ascii(text@),
{
    broadcast use vstd::string::is_ascii_spec_bytes;

    vstd::slice::slice_to_vec(text.as_bytes())
}

/// A copy of a text.
pub fn copy_text(text: &Vec<u8>) -> (copy: Vec<u8>)
    ensures
        copy@ == text@,
{
    let mut copy: Vec<u8> = Vec::new();
    let mut i: usize = 0;
    while i < text.len()
        invariant
            i <= text.len(),
            copy@ == text@.subrange(0, i as int),
        decreases text.len() - i,
    {
        copy.push(text[i]);
        i = i + 1;
    }
    copy
}

/// The decimal digits of `n`.
pub fn decimal_digits(n: u8) -> (digits: Vec<u8>)
    ensures
        digits@ == decimal(n as nat),
{
    let mut digits: Vec<u8> = Vec::new();
    if n >= 100 {
        digits.push(48 + n / 100);
    }
    if n >= 10 {
        digits.push(48 + (n / 10) % 10);
    }
    digits.push(48 + n % 10);
    proof {
        reveal_with_fuel(decimal, 3);
    }
    digits
}

/// The display name of the certificate for a roast of the given score:
/// `Presidential Roast #` and the score, or `Presidential Roast Executive
/// Order #` and the score for an executive order.
pub fn certificate_name(score: u8, is_executive_order: bool) -> (name: Vec<u8>)
    ensures
        name@ == name_of(score, is_executive_order),
{
    proof {
        reveal_strlit("Presidential Roast Executive Order #");
        reveal_strlit("Presidential Roast #");
    }
    let mut name: Vec<u8> = if is_executive_order {
        ascii_bytes("Presidential Roast Executive Order #")
    } else {
        ascii_bytes("Presidential Roast #")
    };
    let mut digits: Vec<u8> = decimal_digits(score);
    name.append(&mut digits);
    name
}

/// The description of the certificate for a roast.
pub fn certificate_description(content: &Vec<u8>) -> (description: Vec<u8>)
    ensures
        description@ == description_of(content@),
{
    if content.len() <= DESCRIPTION_LIMIT {
        copy_text(content)
    } else {
        let mut description: Vec<u8> = Vec::new();
        let mut i: usize = 0;
        while i < DESCRIPTION_KEPT
            invariant
                i <= DESCRIPTION_KEPT < content.len(),
                description@ == content@.subrange(0, i as int),
            decreases DESCRIPTION_KEPT - i,
        {
            description.push(content[i]);
            i = i + 1;
        }
        proof {
            reveal_strlit("...");
        }
        let mut dots: Vec<u8> = ascii_bytes("...");
        description.append(&mut dots);
        description
    }
}

/// The symbol of every certificate, `PROAST`.
pub fn certificate_symbol() -> (symbol: Vec<u8>)
    ensures
        symbol@ == symbol_of(),
{
    proof {
        reveal_strlit("PROAST");
    }
    ascii_bytes("PROAST")
}

/// A description never has more than `DESCRIPTION_LIMIT` bytes, and it is the
/// whole roast exactly when the roast has no more.
pub proof fn lemma_description_bounded(content: Seq<u8>)
    ensures
        description_of(content).len() <= DESCRIPTION_LIMIT,
        content.len() <= DESCRIPTION_LIMIT <==> description_of(content) == content,
        content.len() > DESCRIPTION_LIMIT ==> description_of(content).len() == DESCRIPTION_LIMIT,
{
    reveal_strlit("...");
}

} // verus!
