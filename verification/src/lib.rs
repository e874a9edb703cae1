//! Discrete core of a distance-estimator fractal renderer.
//!
//! The renderer sphere-traces rays against iterated fractal formulas and
//! packs each hit into an 18-byte G-buffer record that a deferred shading
//! pass later consumes.  Everything about that pipeline that is discrete —
//! the packed G-buffer encoding, the formula and hybrid-mode identifiers,
//! the parsing of the formula-slot configuration buffer, the alternating
//! iteration schedule, and the scanline partition between workers — lives
//! here, each operation with a proved contract.  The floating-point parts
//! of the pipeline (the iterated maps themselves, the marcher arithmetic,
//! the shading) sit outside this crate and drive it through these types.

pub mod formulas;
pub mod gbuffer;
pub mod hybrid;
pub mod lighting;
pub mod scanline;
pub mod utils;
