//! A driver core for the IST HYT series of combined humidity and temperature
//! sensor modules.
//!
//! The sensor answers a measurement request with a fixed four-byte frame. This
//! crate decodes that frame into a validated [`Measurement`], extracts the two
//! packed 14-bit raw readings, and converts them into calibrated integer
//! results at a caller-chosen scale, using integer-only, overflow-checked
//! arithmetic.
//!
//! The bus transactions themselves (an I2C-style write to request a
//! measurement, and a four-byte read to fetch it) are left to a thin
//! transport-facing shell around this crate: this crate only speaks about the
//! bytes such a transport hands over and the values handed back.

mod error;
mod fp;
mod measurement;
pub mod mode;

pub use error::HytError;
pub use fp::i8f24_of_bits;
pub use measurement::Measurement;
pub use measurement::RAW_VALUE_MAX;
pub use measurement::lemma_humidity_scale_threshold;
pub use measurement::lemma_scaled_at_bounds;
pub use measurement::lemma_scaled_monotonic;
pub use measurement::lemma_unit_scale_fits;
pub use measurement::spec_scale_fits;
pub use measurement::spec_scaled;
