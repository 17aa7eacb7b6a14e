//! The flag arithmetic: complementing a theme flag, and what stands in for
//! a flag that could not be read.

use vstd::prelude::*;

verus! {

/// The flag assumed when the current one cannot be read: light.
pub const FALLBACK: u32 = 1;

/// A flag as the bit it stands for: zero is dark, anything else is light.
pub open spec fn normalized(flag: u32) -> u32 {
    if flag == 0 {
        0
    } else {
        1
    }
}

/// The complement of a flag: light for dark, dark for anything else.
pub open spec fn toggled(flag: u32) -> u32 {
    if flag == 0 {
        1
    } else {
        0
    }
}

/// The flag that a read stands for: its value, or [`FALLBACK`] when nothing
/// was read.
pub open spec fn effective(read: Option<u32>) -> u32 {
    match read {
        Some(flag) => flag,
        None => FALLBACK,
    }
}

/// The flag to write after a read: the complement of what the read stands
/// for.
pub open spec fn successor(read: Option<u32>) -> u32 {
    toggled(effective(read))
}

/// Maps a flag to the bit it stands for.
pub fn normalize(flag: u32) -> (bit: u32)
    ensures
        bit == normalized(flag),
        bit <= 1,
        bit == 0 <==> flag == 0,
{
    if flag == 0 {
        0
    } else {
        1
    }
}

/// Complements a flag. A malformed flag (neither 0 nor 1) counts as light,
/// so its complement is dark.
pub fn toggle(flag: u32) -> (new: u32)
    ensures
        new == toggled(flag),
        new == 1 - normalized(flag),
        new == 1 <==> flag == 0,
        new == 0 <==> flag != 0,
{
    1 - normalize(flag)
}

/// Resolves a read to a flag, substituting [`FALLBACK`] for a failed read.
pub fn current_or_fallback(read: Option<u32>) -> (flag: u32)
    ensures
        flag == effective(read),
        read is None ==> flag == 1,
{
    match read {
        Some(flag) => flag,
        None => FALLBACK,
    }
}

/// The flag to write after a read.
pub fn next_flag(read: Option<u32>) -> (new: u32)
    ensures
        new == successor(read),
        new <= 1,
        read is None ==> new == 0,
{
    toggle(current_or_fallback(read))
}

/// Complementing is the same as subtracting the normalized flag from one.
pub proof fn toggled_is_one_minus_normalized(flag: u32)
    ensures
        toggled(flag) == 1 - normalized(flag),
        toggled(flag) <= 1,
{
}

/// Complementing twice gives the normalized flag.
pub proof fn toggled_twice_normalizes(flag: u32)
    ensures
        toggled(toggled(flag)) == normalized(flag),
{
}

/// Complementing a well-formed flag twice gives the flag back.
pub proof fn toggled_twice_is_identity(flag: u32)
    requires
        flag <= 1,
    ensures
        toggled(toggled(flag)) == flag,
{
}

/// A failed read leads to writing dark.
pub proof fn successor_of_failed_read()
    ensures
        successor(None) == 0,
{
}

} // verus!
