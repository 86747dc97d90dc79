//! Shape-complementarity support library.
//!
//! The discrete and textual rules of the surface engine live here, verified:
//! the wildcard matching that assigns van der Waals radii to atoms, the
//! element fallback for unmatched atoms, the field extraction for PDB ATOM
//! records, and the small enums and counters shared with the numeric engine.

pub mod pdb;
pub mod radii;
pub mod text;
pub mod types;
