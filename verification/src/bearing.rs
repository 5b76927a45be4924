//! Discrete decision logic of the bearing engine.
//!
//! The rhumb-line bearing and its fast linear estimator are real-valued, but
//! two of their steps are exact case analyses: the antimeridian wrap applied
//! to a longitude difference, and the estimator's choice of which affine form
//! `base ± angle` turns its acute reference angle into a compass bearing.
//! Both case analyses live here with proved contracts; the caller evaluates
//! the chosen form on its real-valued angle.

use vstd::prelude::*;

verus! {

/// How a longitude difference is wrapped across the antimeridian: kept as it
/// is, or moved by one full turn towards zero.
#[derive(Clone, Copy, Debug, PartialEq, Eq, Structural)]
pub enum LonWrap {
    /// The difference is at most half a turn in magnitude: use it unchanged.
    Keep,
    /// The difference exceeds half a turn eastwards: subtract a full turn,
    /// giving the equivalent westward heading.
    SubtractTurn,
    /// The difference exceeds half a turn westwards: add a full turn, giving
    /// the equivalent eastward heading.
    AddTurn,
}

/// The wrap owed to a longitude difference, from whether its magnitude
/// exceeds half a turn and whether it is positive.
pub open spec fn spec_lon_wrap(exceeds_half_turn: bool, positive: bool) -> LonWrap {
    if !exceeds_half_turn {
        LonWrap::Keep
    } else if positive {
        LonWrap::SubtractTurn
    } else {
        LonWrap::AddTurn
    }
}

/// Chooses the antimeridian wrap for a longitude difference, so that the
/// shorter way around is taken: a difference within half a turn passes
/// unchanged, a larger eastward one is replaced by a full turn less, a
/// larger westward one by a full turn more.
pub fn lon_wrap(exceeds_half_turn: bool, positive: bool) -> (r: LonWrap)
    ensures
        r == spec_lon_wrap(exceeds_half_turn, positive),
{
    if !exceeds_half_turn {
        LonWrap::Keep
    } else if positive {
        LonWrap::SubtractTurn
    } else {
        LonWrap::AddTurn
    }
}

/// The affine form `base + angle` or `base - angle` that turns the
/// estimator's acute reference angle into a compass bearing.
#[derive(Clone, Copy, Debug, PartialEq, Eq, Structural)]
pub struct SectorForm {
    /// The base compass heading in degrees: 0, 90, 180, 270 or 360.
    pub base: u32,
    /// True when the angle is added to the base, false when subtracted.
    pub add: bool,
}

/// The bearing a sector form yields on a given reference angle.
pub open spec fn spec_sector_bearing(f: SectorForm, angle: int) -> int {
    if f.add {
        f.base + angle
    } else {
        f.base - angle
    }
}

/// The estimator's sector table: from the signs of the scaled east and north
/// displacements (`east` for a positive east component, `north` for a
/// positive north component) and from which component dominates
/// (`x_dominant` when the east magnitude strictly exceeds the north one),
/// the affine form applied to the acute angle between the displacement and
/// the nearer axis.
pub open spec fn spec_bearing_sector(east: bool, north: bool, x_dominant: bool) -> SectorForm {
    if east {
        if north {
            if x_dominant {
                SectorForm { base: 90, add: false }
            } else {
                SectorForm { base: 0, add: true }
            }
        } else {
            if x_dominant {
                SectorForm { base: 90, add: true }
            } else {
                SectorForm { base: 180, add: false }
            }
        }
    } else {
        if north {
            if x_dominant {
                SectorForm { base: 270, add: true }
            } else {
                SectorForm { base: 360, add: false }
            }
        } else {
            if x_dominant {
                SectorForm { base: 270, add: false }
            } else {
                SectorForm { base: 180, add: true }
            }
        }
    }
}

/// Looks up the estimator's sector form for one displacement.
pub fn bearing_sector(east: bool, north: bool, x_dominant: bool) -> (r: SectorForm)
    ensures
        r == spec_bearing_sector(east, north, x_dominant),
{
    if east {
        if north {
            if x_dominant {
                SectorForm { base: 90, add: false }
            } else {
                SectorForm { base: 0, add: true }
            }
        } else {
            if x_dominant {
                SectorForm { base: 90, add: true }
            } else {
                SectorForm { base: 180, add: false }
            }
        }
    } else {
        if north {
            if x_dominant {
                SectorForm { base: 270, add: true }
            } else {
                SectorForm { base: 360, add: false }
            }
        } else {
            if x_dominant {
                SectorForm { base: 270, add: false }
            } else {
                SectorForm { base: 180, add: true }
            }
        }
    }
}

/// Every sector form sends an acute reference angle (at most 45° by
/// construction, since it is measured against the nearer axis) into the
/// compass quadrant that matches the displacement's signs: north-east into
/// `[0, 90]`, south-east into `[90, 180]`, south-west into `[180, 270]` and
/// north-west into `[270, 360]`. In particular every estimated bearing lies
/// in `[0, 360]`.
pub proof fn lemma_sector_bearing_quadrant(east: bool, north: bool, x_dominant: bool, angle: int)
    requires
        0 <= angle <= 45,
    ensures
        east && north ==> 0 <= spec_sector_bearing(
            spec_bearing_sector(east, north, x_dominant),
            angle,
        ) <= 90,
        east && !north ==> 90 <= spec_sector_bearing(
            spec_bearing_sector(east, north, x_dominant),
            angle,
        ) <= 180,
        !east && !north ==> 180 <= spec_sector_bearing(
            spec_bearing_sector(east, north, x_dominant),
            angle,
        ) <= 270,
        !east && north ==> 270 <= spec_sector_bearing(
            spec_bearing_sector(east, north, x_dominant),
            angle,
        ) <= 360,
{
}

} // verus!
