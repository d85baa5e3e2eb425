//! Lagrange points of a three-body system.

use vstd::prelude::*;

verus! {

/// Lagrange point designation
#[derive(Debug, Clone, Copy, PartialEq, Eq)]
pub enum LagrangePoint {
    /// L1: Between primary and secondary masses
    L1,
    /// L2: Beyond secondary mass
    L2,
    /// L3: Beyond primary mass (opposite side)
    L3,
    /// L4: Leading triangular point (60° ahead of secondary)
    L4,
    /// L5: Trailing triangular point (60° behind secondary)
    L5,
}

} // verus!
