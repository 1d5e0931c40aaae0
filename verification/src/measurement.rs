use vstd::prelude::*;

use vstd::arithmetic::div_mod::lemma_div_is_ordered;
use vstd::arithmetic::div_mod::lemma_div_pos_is_pos;
use vstd::arithmetic::div_mod::lemma_fundamental_div_mod_converse_div;
use vstd::arithmetic::mul::lemma_mul_nonnegative;

use crate::error::HytError;

verus! {

/// The largest raw sample the sensor can deliver: both readings are packed
/// 14-bit fields, so a raw value lies in `[0, 0x3fff]`.
pub const RAW_VALUE_MAX: u16 = 0x3fff;

/// The exact scaled value of a raw sample: the linear interpolation of `raw`
/// over the physical range `[min, max]`, multiplied by `scale` before the
/// final division so that no precision is lost, and rounded half-up by adding
/// half of the raw range's denominator (`0x3fff / 2 == 8191`) to the
/// nonnegative numerator.
pub open spec fn spec_scaled(raw: int, min: int, max: int, scale: int) -> int {
    (scale * (raw * (max - min)) + 8191) / 16383 + scale * min
}

/// Whether a given `(min, max, scale)` choice is representable: the scaled
/// value of the largest possible raw sample must fit in `i32`. By
/// [`lemma_scaled_monotonic`] every other raw sample's value then fits as
/// well (down to `scale * min`), so representability is a static property of
/// the chosen units, independent of the particular sample.
pub open spec fn spec_scale_fits(min: int, max: int, scale: int) -> bool {
    i32::MIN <= spec_scaled(RAW_VALUE_MAX as int, min, max, scale) <= i32::MAX
}

/// A single measurement response.
///
/// This wraps a validated four-byte frame read back from the sensor and
/// represents a reading of both temperature and humidity, plus some metadata.
/// Accessors are provided for all meaningful fields. A `Measurement` can only
/// be built by [`Measurement::from_raw`], which rejects command-mode frames,
/// so bit 7 of the first byte is always clear.
#[derive(Clone, Copy, Debug)]
pub struct Measurement {
    raw: [u8; 4],
}

impl Measurement {
    /// The four frame bytes the measurement was decoded from.
    pub closed spec fn frame(self) -> Seq<u8> {
        self.raw@
    }

    /// A measurement is well formed when it holds a four-byte frame whose
    /// command-mode bit (bit 7 of byte 0) is clear.
    pub open spec fn valid(self) -> bool {
        &&& self.frame().len() == 4
        &&& self.frame()[0] & 0x80 == 0
    }

    /// The stale bit: bit 6 of byte 0.
    pub open spec fn spec_is_stale(self) -> bool {
        self.frame()[0] & 0x40 != 0
    }

    /// The raw 14-bit humidity reading: the low 6 bits of byte 0 followed by
    /// all of byte 1.
    pub open spec fn spec_humidity_raw(self) -> int {
        (self.frame()[0] as int % 64) * 256 + self.frame()[1] as int
    }

    /// The raw 14-bit temperature reading: all of byte 2 followed by the top
    /// 6 bits of byte 3 (the low 2 bits of byte 3 are unused).
    pub open spec fn spec_temperature_raw(self) -> int {
        self.frame()[2] as int * 64 + self.frame()[3] as int / 4
    }

    /// Create a new `Measurement` based on raw data from the sensor.
    ///
    /// The frame layout is:
    ///
    /// ```text
    /// Element: [raw[0]         |raw[1]         |raw[2]         |raw[3]         ]
    ///     Bit: [7 6 5         0|7             0|7             0|7         2 1 0]
    ///           | | \_________________________/ \_________________________/ \_/
    ///       CMode |    Humidity<13:0> (raw)       Temperature<13:0> (raw)    |
    ///           Stale                                                      Unused
    /// ```
    ///
    /// This fails with [`HytError::MeasurementTakenInCommandMode`] exactly
    /// when `CMode` (bit 7 of byte 0) is set. All other bit patterns are
    /// valid; the unused bits (`raw[3]<1:0>`) are ignored.
    pub fn from_raw(raw: [u8; 4]) -> (r: Result<Self, HytError>)
        ensures
            r is Ok <==> raw@[0] & 0x80 == 0,
            r matches Ok(m) ==> m.frame() == raw@ && m.valid(),
            r matches Err(e) ==> e == HytError::MeasurementTakenInCommandMode,
    {
        if raw[0] & 0x80 == 0 {
            Ok(Self { raw })
        } else {
            Err(HytError::MeasurementTakenInCommandMode)
        }
    }

    /// A measurement is "stale" if it had already been read from the sensor.
    /// This typically occurs when a pending measurement is not yet complete,
    /// in which case the previous reading is delivered again.
    ///
    /// Staleness is decided by the sensor at the moment the frame is read,
    /// and is fixed at decode time: it is unrelated to the age or history of
    /// the decoded value, so repeated queries always agree.
    pub fn is_stale(&self) -> (r: bool)
        ensures
            r == self.spec_is_stale(),
    {
        self.raw[0] & 0x40 != 0
    }

    /// Extract the raw 14-bit humidity reading.
    pub fn humidity_raw(&self) -> (r: u16)
        ensures
            r == self.spec_humidity_raw(),
            r <= RAW_VALUE_MAX,
    {
        let b0 = self.raw[0];
        let b1 = self.raw[1];
        let r = (((b0 & 0x3f) as u16) << 8u16) | (b1 as u16);
        proof {
            assert((((b0 & 0x3f) as u16) << 8u16) | (b1 as u16)
                == ((b0 as u16) % 64) * 256 + (b1 as u16)
                && ((((b0 & 0x3f) as u16) << 8u16) | (b1 as u16)) <= 0x3fff) by (bit_vector);
        }
        r
    }

    /// Extract the raw 14-bit temperature reading.
    pub fn temperature_raw(&self) -> (r: u16)
        ensures
            r == self.spec_temperature_raw(),
            r <= RAW_VALUE_MAX,
    {
        let b2 = self.raw[2];
        let b3 = self.raw[3];
        let r = ((b2 as u16) << 6u16) | ((b3 as u16) >> 2u16);
        proof {
            assert(((b2 as u16) << 6u16) | ((b3 as u16) >> 2u16)
                == (b2 as u16) * 64 + (b3 as u16) / 4
                && (((b2 as u16) << 6u16) | ((b3 as u16) >> 2u16)) <= 0x3fff) by (bit_vector);
        }
        r
    }

    /// Rescale a raw 14-bit sample to the physical range `[min, max]`,
    /// multiplied by `scale`.
    ///
    /// The multiplications are performed before the final division, in wide
    /// intermediates that cannot overflow, so no precision is lost; the
    /// division rounds half-up on the nonnegative numerator.
    ///
    /// Before the value for the requested `raw` is returned, the value for
    /// the largest possible sample (`raw == RAW_VALUE_MAX`) is checked to fit
    /// in `i32`; if it does not, this fails with
    /// [`HytError::ScaleValueOutOfBounds`] even when the requested sample's
    /// own value would fit. A given `scale` therefore either always succeeds
    /// or always fails for a given `(min, max)` pair.
    ///
    /// The check bounds only the largest sample's value. For a range whose
    /// smallest scaled value `scale * min` lies below `i32::MIN` while the
    /// largest fits (impossible for the sensor's own ranges, where `|min|`
    /// is smaller than `max`), the value returned for a small sample is the
    /// wide result truncated to 32 bits; the contract pins the result
    /// exactly whenever the mathematical value is representable.
    pub fn value_scaled(raw: u16, min: i16, max: i16, scale: u32) -> (r: Result<i32, HytError>)
        requires
            min < max,
            raw <= RAW_VALUE_MAX,
        ensures
            r is Ok <==> spec_scale_fits(min as int, max as int, scale as int),
            r matches Ok(v) ==> spec_scaled(raw as int, min as int, max as int, scale as int)
                >= i32::MIN ==> v == spec_scaled(
                raw as int,
                min as int,
                max as int,
                scale as int,
            ),
            r matches Err(e) ==> e == HytError::ScaleValueOutOfBounds,
    {
        let range: u32 = (max as i32 - min as i32) as u32;
        let raw32: u32 = raw as u32;
        // Multiply as much as we can before dividing, to maximise precision.
        assert(-0x8000_0000_0000 <= (scale as int) * (min as int) <= 0x8000_0000_0000)
            by (nonlinear_arith)
            requires
                scale <= 0xffff_ffffu32,
                -32768 <= min <= 32767,
        ;
        let min_scaled: i64 = (scale as i64) * (min as i64);
        let round: u64 = (RAW_VALUE_MAX / 2) as u64;
        assert(raw32 * range <= 16383 * 65535) by (nonlinear_arith)
            requires
                raw32 <= 16383,
                range <= 65535,
        ;
        assert((RAW_VALUE_MAX as u32) * range <= 16383 * 65535) by (nonlinear_arith)
            requires
                range <= 65535,
        ;
        assert((scale as u64) * ((raw32 * range) as u64) <= 0xffff_ffffu64 * 0x3ffefc01u64)
            by (nonlinear_arith)
            requires
                scale <= 0xffff_ffffu64,
                (raw32 * range) as u64 <= 0x3ffefc01u64,
        ;
        assert((scale as u64) * (((RAW_VALUE_MAX as u32) * range) as u64)
            <= 0xffff_ffffu64 * 0x3ffefc01u64) by (nonlinear_arith)
            requires
                scale <= 0xffff_ffffu64,
                ((RAW_VALUE_MAX as u32) * range) as u64 <= 0x3ffefc01u64,
        ;
        let num: u64 = (scale as u64) * ((raw32 * range) as u64) + round;
        let max_num: u64 = (scale as u64) * (((RAW_VALUE_MAX as u32) * range) as u64) + round;
        proof {
            lemma_div_is_ordered(max_num as int, 0xffff_ffffi64 * 0x3ffefc01i64 + 8191, 16383);
        }
        let max_val: i64 = (max_num / (RAW_VALUE_MAX as u64)) as i64 + min_scaled;
        assert(max_val == spec_scaled(RAW_VALUE_MAX as int, min as int, max as int, scale as int));
        if max_val > i32::MAX as i64 || max_val < i32::MIN as i64 {
            return Err(HytError::ScaleValueOutOfBounds);
        }
        // Every possible value can now be represented; compute the requested one.
        proof {
            assert(raw32 * range <= (RAW_VALUE_MAX as u32) * range) by (nonlinear_arith)
                requires
                    raw32 <= RAW_VALUE_MAX as u32,
                    range >= 0,
            ;
            assert((scale as int) * ((raw32 * range) as int)
                <= (scale as int) * (((RAW_VALUE_MAX as u32) * range) as int)) by (nonlinear_arith)
                requires
                    (raw32 * range) as int <= ((RAW_VALUE_MAX as u32) * range) as int,
                    scale >= 0,
            ;
            lemma_div_is_ordered(num as int, max_num as int, 16383);
        }
        let val: i64 = (num / (RAW_VALUE_MAX as u64)) as i64 + min_scaled;
        assert(val == spec_scaled(raw as int, min as int, max as int, scale as int));
        assert(val <= max_val);
        Ok(#[verifier::truncate] (val as i32))
    }

    /// Calculate the relative humidity, in %RH, as an integer scaled by
    /// `scale` (so `scale == 100` yields hundredths of a %RH).
    ///
    /// If `scale` is too large for all possible readings to be represented,
    /// this fails with [`HytError::ScaleValueOutOfBounds`], even if the
    /// actual reading obtained could be represented.
    pub fn humidity_scaled(&self, scale: u32) -> (r: Result<i32, HytError>)
        ensures
            r is Ok <==> spec_scale_fits(0, 100, scale as int),
            r matches Ok(v) ==> v == spec_scaled(self.spec_humidity_raw(), 0, 100, scale as int),
            r matches Err(e) ==> e == HytError::ScaleValueOutOfBounds,
    {
        let hr = self.humidity_raw();
        proof {
            lemma_mul_nonnegative(hr as int, 100);
            lemma_mul_nonnegative(scale as int, hr as int * 100);
            lemma_div_pos_is_pos((scale as int) * (hr as int * 100) + 8191, 16383);
        }
        Self::value_scaled(hr, 0, 100, scale)
    }

    /// Calculate the temperature, in °C, as an integer scaled by `scale` (so
    /// `scale == 100` yields hundredths of a °C).
    ///
    /// If `scale` is too large for all possible readings to be represented,
    /// this fails with [`HytError::ScaleValueOutOfBounds`], even if the
    /// actual reading obtained could be represented.
    pub fn temperature_scaled(&self, scale: u32) -> (r: Result<i32, HytError>)
        ensures
            r is Ok <==> spec_scale_fits(-40, 125, scale as int),
            r matches Ok(v) ==> v == spec_scaled(
                self.spec_temperature_raw(),
                -40,
                125,
                scale as int,
            ),
            r matches Err(e) ==> e == HytError::ScaleValueOutOfBounds,
    {
        let tr = self.temperature_raw();
        proof {
            if spec_scale_fits(-40, 125, scale as int) {
                lemma_scaled_at_bounds(-40, 125, scale as int);
                lemma_scaled_monotonic(0, tr as int, -40, 125, scale as int);
            }
        }
        Self::value_scaled(tr, -40, 125, scale)
    }

    /// Calculate the humidity, in %RH, to the nearest integer.
    pub fn humidity(&self) -> (r: i32)
        ensures
            r == spec_scaled(self.spec_humidity_raw(), 0, 100, 1),
    {
        proof {
            lemma_unit_scale_fits();
        }
        self.humidity_scaled(1).unwrap()
    }

    /// Calculate the temperature, in °C, to the nearest integer.
    pub fn temperature(&self) -> (r: i32)
        ensures
            r == spec_scaled(self.spec_temperature_raw(), -40, 125, 1),
    {
        proof {
            lemma_unit_scale_fits();
        }
        self.temperature_scaled(1).unwrap()
    }
}

/// Law: for a fixed `(min, max, scale)` choice, the scaled value is
/// non-decreasing in the raw sample.
pub proof fn lemma_scaled_monotonic(raw1: int, raw2: int, min: int, max: int, scale: int)
    requires
        0 <= raw1 <= raw2,
        min < max,
        0 <= scale,
    ensures
        spec_scaled(raw1, min, max, scale) <= spec_scaled(raw2, min, max, scale),
{
    let range = max - min;
    assert(scale * (raw1 * range) <= scale * (raw2 * range)) by (nonlinear_arith)
        requires
            0 <= raw1 <= raw2,
            0 <= range,
            0 <= scale,
    ;
    lemma_div_is_ordered(
        scale * (raw1 * range) + 8191,
        scale * (raw2 * range) + 8191,
        16383,
    );
}

/// Law: at the extremes of the raw range the scaled value is exact: the
/// smallest sample scales to `scale * min` and the largest to `scale * max`.
/// In particular `spec_scale_fits(min, max, scale)` says exactly that
/// `scale * max` fits in `i32`.
pub proof fn lemma_scaled_at_bounds(min: int, max: int, scale: int)
    requires
        min < max,
        0 <= scale,
    ensures
        spec_scaled(0, min, max, scale) == scale * min,
        spec_scaled(RAW_VALUE_MAX as int, min, max, scale) == scale * max,
{
    let range = max - min;
    assert(scale * (0 * range) == 0) by (nonlinear_arith);
    assert(8191int / 16383 == 0);
    assert(scale * (16383 * range) == (scale * range) * 16383) by (nonlinear_arith);
    lemma_fundamental_div_mod_converse_div(
        scale * (16383 * range) + 8191,
        16383,
        scale * range,
        8191,
    );
    assert(scale * range + scale * min == scale * max) by (nonlinear_arith)
        requires
            range == max - min,
    ;
}

/// Law: scale 1 is always representable for the two physical ranges the
/// sensor reports, humidity `(0, 100)` and temperature `(-40, 125)`. The
/// rounded-integer accessors `humidity` and `temperature` therefore always
/// agree with `humidity_scaled` and `temperature_scaled` at scale 1: each
/// pair of contracts pins the same value `spec_scaled(raw, min, max, 1)`.
pub proof fn lemma_unit_scale_fits()
    ensures
        spec_scale_fits(0, 100, 1),
        spec_scale_fits(-40, 125, 1),
{
    lemma_scaled_at_bounds(0, 100, 1);
    lemma_scaled_at_bounds(-40, 125, 1);
}

/// Law: for the humidity range `(0, 100)` the representable scales have a
/// sharp threshold: every scale up to `21474836` fits, and every larger scale
/// does not. Together with `value_scaled`'s contract (success depends on
/// `spec_scale_fits` alone, never on the sample) this makes scale validity a
/// static property of the chosen units.
pub proof fn lemma_humidity_scale_threshold(scale: int)
    requires
        0 <= scale,
    ensures
        scale <= 21474836 ==> spec_scale_fits(0, 100, scale),
        scale > 21474836 ==> !spec_scale_fits(0, 100, scale),
{
    lemma_scaled_at_bounds(0, 100, scale);
}

} // verus!
