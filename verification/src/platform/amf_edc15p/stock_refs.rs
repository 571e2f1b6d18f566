//! AMF stock reference values: the defaults when no base map is loaded.
//!
//! Treat each value as ±5 %. The recommendation engine falls back to these
//! constants when the user has not supplied a real base map.

use vstd::prelude::*;

verus! {

/// One row in the stock LDRXN ramp.
#[derive(Debug, Clone, Copy, PartialEq, Eq, Structural)]
pub struct BoostRefPoint {
    /// Engine speed at this anchor.
    pub rpm: i32,
    /// Stock target boost (mbar absolute).
    pub boost_mbar_abs: i32,
}

/// Number of anchors of the stock boost ramp.
pub const N_BOOST_ANCHORS: usize = 7;

/// Boost target ramp, community-validated stock LDRXN curve for AMF:
/// `(rpm, boost mbar absolute)` anchors.
pub const STOCK_BOOST_RAMP: [(i32, i32); 7] = [
    (1300, 1100),
    (2000, 1900),
    (2500, 1980),
    (3000, 2000),
    (3500, 1950),
    (4000, 1850),
    (4500, 1750),
];

/// Stock SVBL (overboost cut) value.
pub const STOCK_SVBL_MBAR_ABS: i32 = 2300;

/// Sea-level atmospheric pressure baseline.
pub const SEA_LEVEL_MBAR: i32 = 1013;

/// The anchor of the stock ramp at position `i`.
pub open spec fn anchor(i: int) -> BoostRefPoint {
    BoostRefPoint { rpm: STOCK_BOOST_RAMP[i].0, boost_mbar_abs: STOCK_BOOST_RAMP[i].1 }
}

/// The anchor of the stock boost ramp at position `i`.
pub fn boost_ref_point(i: usize) -> (r: BoostRefPoint)
    requires
        i < N_BOOST_ANCHORS,
    ensures
        r == anchor(i as int),
{
    let (rpm, boost_mbar_abs) = STOCK_BOOST_RAMP[i];
    BoostRefPoint { rpm, boost_mbar_abs }
}

/// The anchors of the stock ramp are in strictly ascending engine speed,
/// so interpolation between neighbours is well defined.
pub proof fn lemma_ramp_ascending()
    ensures
        forall|i: int, j: int| 0 <= i < j < N_BOOST_ANCHORS ==> #[trigger] anchor(i).rpm < #[trigger] anchor(j).rpm,
{
    assert forall|i: int, j: int| 0 <= i < j < N_BOOST_ANCHORS implies #[trigger] anchor(i).rpm < #[trigger] anchor(
        j,
    ).rpm by {
        assert(STOCK_BOOST_RAMP[0].0 == 1300);
        assert(STOCK_BOOST_RAMP[1].0 == 2000);
        assert(STOCK_BOOST_RAMP[2].0 == 2500);
        assert(STOCK_BOOST_RAMP[3].0 == 3000);
        assert(STOCK_BOOST_RAMP[4].0 == 3500);
        assert(STOCK_BOOST_RAMP[5].0 == 4000);
        assert(STOCK_BOOST_RAMP[6].0 == 4500);
    }
}

} // verus!
