//! Camera framing rule.
//!
//! The camera orbits the origin at a distance chosen from the loaded mesh:
//! 1.3 times its bounding-box diagonal, so the whole object stays in frame.
//! Lengths are carried in thousandths of a scene unit; the orientation math
//! itself is the renderer's affair and takes only the distance from here.

use vstd::prelude::*;

verus! {

use vstd::arithmetic::div_mod::lemma_div_is_ordered;
use vstd::arithmetic::mul::lemma_mul_inequality;

/// Initial camera distance: 1.3 × the mesh bounding-box diagonal. The
/// result is positive whenever the diagonal is, so the camera never starts
/// on top of the mesh.
pub fn initial_camera_distance_milli(diagonal_milli: u64) -> (distance_milli: u64)
    requires
        diagonal_milli * 13 <= u64::MAX,
    ensures
        distance_milli == diagonal_milli * 13 / 10,
        diagonal_milli > 0 ==> distance_milli > 0,
{
    proof {
        if diagonal_milli > 0 {
            lemma_mul_inequality(1, diagonal_milli as int, 13);
            lemma_div_is_ordered(13, diagonal_milli * 13, 10);
        }
    }
    diagonal_milli * 13 / 10
}

} // verus!
