//! Volume levels: whole percentages from 0 to 100.

use vstd::prelude::*;

verus! {

/// The loudest level.
pub const MAX_VOLUME: u8 = 100;

/// `level` brought into the range of levels.
pub open spec fn clamped(level: u8) -> u8 {
    if level > MAX_VOLUME {
        MAX_VOLUME
    } else {
        level
    }
}

/// Brings `level` into the range of levels: anything above the loudest
/// level becomes the loudest level.
pub fn clamp_level(level: u8) -> (r: u8)
    ensures
        r == clamped(level),
        r <= MAX_VOLUME,
{
    if level > MAX_VOLUME {
        MAX_VOLUME
    } else {
        level
    }
}

/// Clamping leaves a level in range untouched, and clamping twice is
/// clamping once.
pub proof fn lemma_clamp_fixes_levels(level: u8)
    ensures
        level <= MAX_VOLUME ==> clamped(level) == level,
        level > MAX_VOLUME ==> clamped(level) == MAX_VOLUME,
        clamped(clamped(level)) == clamped(level),
{
}

} // verus!
