//! Exact, integer-only planning for an "impossible polygon" ring.
//!
//! The figure is a ring of identical seven-cornered arms, one per side of a
//! regular polygon. Everything about it that is a whole number or a ratio of
//! whole numbers is decided here: which angles the construction uses, how each
//! corner of an arm is put together, how many arms there are, in which order
//! they are drawn, how far each is turned and how bright it is. Evaluating
//! those decisions with trigonometry is left to the caller.

pub mod fraction;
pub mod controls;
pub mod angle;
pub mod ring;
pub mod outline;
