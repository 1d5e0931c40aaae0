use vstd::prelude::*;

use crate::measurement::Measurement;
use crate::measurement::lemma_scaled_at_bounds;
use crate::measurement::lemma_scaled_monotonic;
use crate::measurement::spec_scaled;

verus! {

// The fixed-point results use `fixed::types::I8F24`, an alias for
// `fixed::FixedI32` whose fractional-bit count is the type-level number
// `U24` built from typenum's `UInt`, `UTerm`, `B0` and `B1`. All of these
// outside types are declared here so that they may stand in signatures;
// their values are opaque.

#[verifier::external_type_specification]
#[verifier::external_body]
#[verifier::reject_recursive_types(Frac)]
pub struct ExFixedI32<Frac>(fixed::FixedI32<Frac>);

#[verifier::external_type_specification]
#[verifier::external_body]
#[verifier::reject_recursive_types(U)]
#[verifier::reject_recursive_types(B)]
pub struct ExUInt<U, B>(typenum::UInt<U, B>);

#[verifier::external_type_specification]
#[verifier::external_body]
pub struct ExUTerm(typenum::UTerm);

#[verifier::external_type_specification]
#[verifier::external_body]
pub struct ExB0(typenum::B0);

#[verifier::external_type_specification]
#[verifier::external_body]
pub struct ExB1(typenum::B1);

/// The fixed-point number with 24 fractional bits whose bit representation
/// is exactly `bits`; what `fixed::FixedI32::<U24>::from_bits` returns, a
/// function of its argument alone.
pub uninterp spec fn i8f24_of_bits(bits: i32) -> fixed::types::I8F24;

/// Relies on fixed::FixedI32::from_bits: it creates the fixed-point number
/// whose bit representation is identical to the given integer, from that
/// integer alone.
#[verifier::external_body]
fn i8f24_from_bits(bits: i32) -> (r: fixed::types::I8F24)
    ensures
        r == i8f24_of_bits(bits),
{
    fixed::types::I8F24::from_bits(bits)
}

impl Measurement {
    /// Calculate the relative humidity, in %RH, as a fixed-point value with
    /// 24 fractional bits.
    ///
    /// The fixed-point result can represent the whole range of readings with
    /// a worst-case error of about 0.00024 %RH, insignificant next to the
    /// resolution of the reading (about 0.006 %RH) and the accuracy of the
    /// sensor (±1.8 %RH).
    pub fn humidity_i8f24(&self) -> (r: fixed::types::I8F24)
        ensures
            r == i8f24_of_bits(
                spec_scaled(self.spec_humidity_raw(), 0, 100, 0x100_0000) as i32,
            ),
    {
        proof {
            lemma_scaled_at_bounds(0, 100, 0x100_0000);
            lemma_scaled_monotonic(0, self.spec_humidity_raw(), 0, 100, 0x100_0000);
            lemma_scaled_monotonic(
                self.spec_humidity_raw(),
                crate::measurement::RAW_VALUE_MAX as int,
                0,
                100,
                0x100_0000,
            );
        }
        let bits = self.humidity_scaled(0x100_0000).unwrap();
        i8f24_from_bits(bits)
    }

    /// Calculate the temperature, in °C, as a fixed-point value with 24
    /// fractional bits.
    ///
    /// The fixed-point result can represent the whole range of readings with
    /// a worst-case error of about 0.00031 °C, insignificant next to the
    /// resolution of the reading (about 0.01 °C) and the accuracy of the
    /// sensor (±0.2 °C).
    pub fn temperature_i8f24(&self) -> (r: fixed::types::I8F24)
        ensures
            r == i8f24_of_bits(
                spec_scaled(self.spec_temperature_raw(), -40, 125, 0x100_0000) as i32,
            ),
    {
        proof {
            lemma_scaled_at_bounds(-40, 125, 0x100_0000);
            lemma_scaled_monotonic(0, self.spec_temperature_raw(), -40, 125, 0x100_0000);
            lemma_scaled_monotonic(
                self.spec_temperature_raw(),
                crate::measurement::RAW_VALUE_MAX as int,
                -40,
                125,
                0x100_0000,
            );
        }
        let bits = self.temperature_scaled(0x100_0000).unwrap();
        i8f24_from_bits(bits)
    }
}

} // verus!
