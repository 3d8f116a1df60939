//! The reward tiers.

use vstd::prelude::*;

verus! {

/// Minimal units in one whole reward token (nine decimal places).
pub const UNITS_PER_TOKEN: u64 = 1_000_000_000;

/// The smallest reward, ten tokens, in minimal units.
pub const BASE_AWARD: u64 = 10_000_000_000;

/// By how much the base reward is multiplied for a score.
pub open spec fn award_multiplier(score: u8) -> nat {
    if 90 <= score <= 100 {
        10
    } else if 70 <= score <= 89 {
        5
    } else if 50 <= score <= 69 {
        2
    } else {
        1
    }
}

/// The reward for a score, in minimal units.
pub open spec fn award_for(score: u8) -> nat {
    award_multiplier(score) * BASE_AWARD as nat
}

/// The reward for a roast of the given score, in minimal units: a hundred
/// tokens from 90 to 100, fifty from 70, twenty from 50, ten for anything
/// else, scores above 100 included.
pub fn calculate_token_award(score: u8) -> (amount: u64)
    ensures
        amount == award_for(score),
{
    let base_amount: u64 = BASE_AWARD;
    if 90 <= score && score <= 100 {
        base_amount * 10
    } else if 70 <= score && score <= 89 {
        base_amount * 5
    } else if 50 <= score && score <= 69 {
        base_amount * 2
    } else {
        base_amount
    }
}

/// Every reward is ten, twenty, fifty or a hundred whole tokens.
pub proof fn lemma_award_is_a_tier(score: u8)
    ensures
        award_for(score) == 10 * UNITS_PER_TOKEN || award_for(score) == 20 * UNITS_PER_TOKEN
            || award_for(score) == 50 * UNITS_PER_TOKEN || award_for(score) == 100
            * UNITS_PER_TOKEN,
        score <= 100 ==> (award_for(score) == 100 * UNITS_PER_TOKEN <==> score >= 90),
        score <= 100 ==> (award_for(score) == 50 * UNITS_PER_TOKEN <==> 70 <= score < 90),
        score <= 100 ==> (award_for(score) == 20 * UNITS_PER_TOKEN <==> 50 <= score < 70),
        score <= 100 ==> (award_for(score) == 10 * UNITS_PER_TOKEN <==> score < 50),
{
}

/// Up to a score of 100 a higher score never earns less.
pub proof fn lemma_award_monotonic(lower: u8, higher: u8)
    requires
        lower <= higher <= 100,
    ensures
        award_for(lower) <= award_for(higher),
{
}

} // verus!
