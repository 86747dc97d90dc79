//! Discrete state shared between the verified rules and the numeric engine.

use vstd::prelude::*;

verus! {

/// Attention state of an atom with respect to the opposite molecule.
///
/// The classifier marks an atom `Far` when its nearest opposite-molecule
/// atom is at least the separation cutoff away, and `Buried` otherwise.
/// `Consider` is never produced by that classifier but is honoured by the
/// surface construction: an atom in this state takes part only when at
/// least one opposite-molecule atom buries it.
#[derive(Copy, Clone, Debug, PartialEq, Eq, Structural)]
pub enum Attention {
    /// Far from the interface; excluded from surface emission.
    Far,
    /// Participates only if buried by the opposite molecule.
    Consider,
    /// At the interface; fully processed.
    Buried,
}

/// The patch of the Connolly surface a dot was sampled from.
#[derive(Copy, Clone, Debug, PartialEq, Eq, Structural)]
pub enum DotKind {
    /// Convex cap on a single accessible atom.
    Contact,
    /// Toroidal saddle between two neighbouring atoms.
    Reentrant,
    /// Concave patch under an admitted probe sphere.
    Cavity,
}

/// Counts of emitted dots by surface patch kind.
#[derive(Copy, Clone, Debug, PartialEq, Eq, Structural)]
pub struct DotStats {
    pub convex: usize,
    pub toroidal: usize,
    pub concave: usize,
}

impl DotStats {
    /// Fresh counters, all zero.
    pub fn new() -> (r: DotStats)
        ensures
            r.convex == 0,
            r.toroidal == 0,
            r.concave == 0,
    {
        DotStats { convex: 0, toroidal: 0, concave: 0 }
    }
}

impl Default for DotStats {
    fn default() -> (r: DotStats)
        ensures
            r.convex == 0,
            r.toroidal == 0,
            r.concave == 0,
    {
        DotStats::new()
    }
}

} // verus!
