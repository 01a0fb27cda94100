//! Audio-reactive ocean terrain core.
//!
//! A fixed-size vertex grid is advected opposite to camera motion and wrapped
//! toroidally so that it appears unbounded, while a live audio pipeline turns
//! synthesized sound into three frequency-band energies that modulate the
//! grid's detail ripple layer. All scalar quantities are fixed-point integers
//! with three decimal digits (milli-units), so that every rule of the core is
//! stated and proved exactly.

pub mod analysis;
pub mod chunks;
pub mod driver;
pub mod mesh;
pub mod noise;
pub mod params;
pub mod system;
pub mod trig;
pub mod units;
pub mod wireframe;

pub use units::MILLI;
