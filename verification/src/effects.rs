//! Ambient effects: generators of light-state frames.

pub mod colorsweep;
pub mod fireplace;

pub use self::colorsweep::ColorsweepEffect;
pub use self::fireplace::FireplaceSimulation;
