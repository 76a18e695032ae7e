//! Ratio bookkeeping for grouped ingredients.
//!
//! Fermentables, hop charges and ferments each carry a `ratio` field, the
//! percentage of the recipe's budget they take. A group of them is meant to
//! add up to a whole; when it does not, the tool raises a display-only
//! warning and computes on regardless.

use vstd::prelude::*;

verus! {

/// The percentage sum of a group of ratios.
pub open spec fn sum_of(ratios: Seq<u8>) -> int
    decreases ratios.len(),
{
    if ratios.len() == 0 {
        0
    } else {
        sum_of(ratios.drop_last()) + ratios.last()
    }
}

/// Ratios of a grouped set of ingredients must add up to 100 percent.
/// Returns true when they do not, i.e. when the group is in error.
pub fn check_ratios(ratios: Vec<u8>) -> (error: bool)
    ensures
        error == (sum_of(ratios@) != 100),
{
    let mut total: u128 = 0;
    let mut i: usize = 0;
    while i < ratios.len()
        invariant
            i <= ratios@.len(),
            total == sum_of(ratios@.subrange(0, i as int)),
            total <= 255 * i,
        decreases ratios@.len() - i,
    {
        proof {
            assert(ratios@.subrange(0, i + 1).drop_last() =~= ratios@.subrange(0, i as int));
            assert(ratios@.subrange(0, i + 1).last() == ratios@[i as int]);
        }
        total = total + ratios[i] as u128;
        i = i + 1;
    }
    proof {
        assert(ratios@.subrange(0, ratios@.len() as int) =~= ratios@);
    }
    total != 100
}

/// The display-only warning on a group of ingredients: raised when the group
/// is not empty and its ratios do not sum to 100.
pub fn ratios_warning(ratios: Vec<u8>) -> (warn: bool)
    ensures
        warn == (ratios@.len() > 0 && sum_of(ratios@) != 100),
{
    if ratios.len() == 0 {
        false
    } else {
        check_ratios(ratios)
    }
}

/// The strongest attenuation among the pitched ferments; it is the one that
/// drives the final gravity of a cofermentation. An empty list yields 0.
pub fn max_attenuation(attenuations: Vec<u8>) -> (strongest: u8)
    ensures
        forall|i: int| 0 <= i < attenuations@.len() ==> attenuations@[i] <= strongest,
        attenuations@.len() == 0 ==> strongest == 0,
        attenuations@.len() > 0 ==> attenuations@.contains(strongest),
{
    let mut strongest: u8 = 0;
    let mut i: usize = 0;
    while i < attenuations.len()
        invariant
            i <= attenuations@.len(),
            forall|k: int| 0 <= k < i ==> attenuations@[k] <= strongest,
            i == 0 ==> strongest == 0,
            i > 0 ==> attenuations@.subrange(0, i as int).contains(strongest),
        decreases attenuations@.len() - i,
    {
        if attenuations[i] > strongest {
            strongest = attenuations[i];
        }
        proof {
            if attenuations@.subrange(0, i as int).contains(strongest) {
                let w = choose|w: int|
                    0 <= w < i && attenuations@.subrange(0, i as int)[w] == strongest;
                assert(attenuations@.subrange(0, i + 1)[w] == strongest);
            } else {
                assert(attenuations@.subrange(0, i + 1)[i as int] == strongest);
            }
        }
        i = i + 1;
    }
    proof {
        if attenuations@.len() > 0 {
            assert(attenuations@.subrange(0, attenuations@.len() as int) =~= attenuations@);
        }
    }
    strongest
}

} // verus!
