//! Pure-computation toolkit for geographic positions: hemisphere direction
//! letters, sexagesimal degrees-minutes-seconds triples, and the discrete
//! decision logic of the rhumb-line bearing estimator and the AlvinXY local
//! projection pipeline.
//!
//! All real-valued geodesy (radians conversion, Mercator latitude, the AlvinXY
//! metre scales) lives with the callers; this crate holds the parts that are
//! exact over integers, characters and enumerations, each with a proved
//! contract.

pub mod bearing;
pub mod digits;
pub mod direction;
pub mod dms;

pub use direction::Direction;
pub use direction::parse_direction;
pub use dms::DMS;
