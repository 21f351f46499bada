//! How a trail is drawn: which of its positions are joined by which strokes.

use vstd::prelude::*;

verus! {

/// One stroke of a path.  The numbers are indices into the trail.
#[derive(Debug, Clone, Copy, PartialEq, Eq, Structural)]
pub enum PathStep {
    /// A straight line to the position.
    LineTo(usize),
    /// A curve that ends at the third position and is bent by the first
    /// two.
    CurveTo(usize, usize, usize),
}

impl PathStep {
    /// Whether every position the stroke names is among the first `len`.
    pub open spec fn within(self, len: nat) -> bool {
        match self {
            PathStep::LineTo(a) => a < len,
            PathStep::CurveTo(a, b, c) => a < len && b < len && c < len,
        }
    }
}

/// The stroke through the last `left` positions, which begin at `first`:
/// a line for one, a curve for two or three.
pub open spec fn closing_step(first: int, left: int) -> PathStep {
    if left == 1 {
        PathStep::LineTo(first as usize)
    } else if left == 2 {
        PathStep::CurveTo(first as usize, first as usize, (first + 1) as usize)
    } else {
        PathStep::CurveTo(first as usize, (first + 1) as usize, (first + 2) as usize)
    }
}

/// The number of curves through three positions each that come before the
/// closing stroke of a trail of `len` positions.
pub open spec fn full_curves(len: nat) -> nat {
    if len == 0 {
        0
    } else {
        ((len - 1) / 3) as nat
    }
}

/// The strokes for a trail of `len` positions: nothing for an empty trail;
/// else curves through the positions three by three, as long as at least
/// one position is left over, and a closing stroke through the one, two or
/// three positions that are left.
pub open spec fn spec_trail_path(len: nat) -> Seq<PathStep> {
    if len == 0 {
        Seq::empty()
    } else {
        let curves = full_curves(len);
        Seq::new(
            curves,
            |m: int| PathStep::CurveTo((3 * m) as usize, (3 * m + 1) as usize, (3 * m + 2) as usize),
        ).push(closing_step((3 * curves) as int, len - 3 * curves))
    }
}

/// The strokes for a trail of `len` positions.
pub fn trail_path(len: usize) -> (path: Vec<PathStep>)
    ensures
        path@ == spec_trail_path(len as nat),
        forall|i: int| 0 <= i < path@.len() ==> (#[trigger] path@[i]).within(len as nat),
{
    let mut path: Vec<PathStep> = Vec::new();
    if len == 0 {
        return path;
    }
    let max_mult: usize = (len - 1) / 3;
    let mut m: usize = 0;
    while m < max_mult
        invariant
            m <= max_mult,
            max_mult == (len - 1) / 3,
            len > 0,
            path@ == Seq::new(
                m as nat,
                |k: int|
                    PathStep::CurveTo((3 * k) as usize, (3 * k + 1) as usize, (3 * k + 2) as usize),
            ),
            forall|i: int| 0 <= i < path@.len() ==> (#[trigger] path@[i]).within(len as nat),
        decreases max_mult - m,
    {
        path.push(PathStep::CurveTo(3 * m, 3 * m + 1, 3 * m + 2));
        m += 1;
        assert(path@ =~= Seq::new(
            m as nat,
            |k: int| PathStep::CurveTo((3 * k) as usize, (3 * k + 1) as usize, (3 * k + 2) as usize),
        ));
    }
    let first: usize = max_mult * 3;
    let left: usize = len - first;
    if left == 1 {
        path.push(PathStep::LineTo(first));
    } else if left == 2 {
        path.push(PathStep::CurveTo(first, first, first + 1));
    } else {
        path.push(PathStep::CurveTo(first, first + 1, first + 2));
    }
    path
}

} // verus!
