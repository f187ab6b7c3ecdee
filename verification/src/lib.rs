//! Exact geometry for portal rendering.
//!
//! A portal shows the scene as seen from a destination pose. Each frame the
//! library solves for the pose of the auxiliary camera that renders the
//! portal's image, derives a view frustum whose near plane is clipped against
//! the destination, and drives the per-tick bookkeeping (render-target
//! resizing, change detection, and the lifecycle of the four entities that
//! make up one portal).
//!
//! All geometry is exact: poses are similarity transforms held as integer
//! matrices over a common positive denominator, so every contract states the
//! result of a computation as a polynomial identity, and the algebraic laws
//! (identity mapping, mirror involution, near-plane containment) are proved
//! rather than sampled.

pub mod bounds;
pub mod linalg;
pub mod pose;
pub mod mirror;
pub mod solve;
pub mod frustum;
pub mod lifecycle;
pub mod update;
