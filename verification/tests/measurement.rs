use ist_hyt::HytError;
use ist_hyt::Measurement;

fn frame(b0: u8, b1: u8, b2: u8, b3: u8) -> Measurement {
    Measurement::from_raw([b0, b1, b2, b3]).unwrap()
}

#[test]
fn command_mode_frame_rejected() {
    for b0 in [0x80u8, 0x81, 0xc0, 0xff] {
        let r = Measurement::from_raw([b0, 0x12, 0x34, 0x56]);
        assert!(matches!(r, Err(HytError::MeasurementTakenInCommandMode)));
    }
}

#[test]
fn normal_mode_frame_accepted() {
    for b0 in [0x00u8, 0x01, 0x3f, 0x40, 0x7f] {
        assert!(Measurement::from_raw([b0, 0xff, 0xff, 0xff]).is_ok());
    }
}

#[test]
fn raw_fields_within_range() {
    let frames = [
        [0x00u8, 0x00, 0x00, 0x00],
        [0x7f, 0xff, 0xff, 0xff],
        [0x3a, 0x12, 0x55, 0xfd],
        [0x40, 0x80, 0x01, 0x02],
    ];
    for f in frames {
        let m = Measurement::from_raw(f).unwrap();
        assert!(m.humidity_raw() <= 0x3fff);
        assert!(m.temperature_raw() <= 0x3fff);
    }
    assert_eq!(frame(0x7f, 0xff, 0xff, 0xff).humidity_raw(), 0x3fff);
    assert_eq!(frame(0x7f, 0xff, 0xff, 0xff).temperature_raw(), 0x3fff);
    assert_eq!(frame(0x00, 0x00, 0x00, 0x00).humidity_raw(), 0);
    // The two unused low bits of byte 3 are ignored.
    assert_eq!(frame(0x00, 0x00, 0x00, 0x03).temperature_raw(), 0);
    assert_eq!(frame(0x20, 0x00, 0x80, 0x00).humidity_raw(), 0x2000);
    assert_eq!(frame(0x20, 0x00, 0x80, 0x00).temperature_raw(), 0x2000);
}

#[test]
fn scaled_value_endpoints() {
    assert_eq!(Measurement::value_scaled(0, 0, 100, 1), Ok(0));
    assert_eq!(Measurement::value_scaled(16383, 0, 100, 1), Ok(100));
    assert_eq!(Measurement::value_scaled(0, -40, 125, 1), Ok(-40));
    assert_eq!(Measurement::value_scaled(16383, -40, 125, 1), Ok(125));
}

#[test]
fn scaled_value_monotonic() {
    for (min, max, scale) in [(-40i16, 125i16, 100u32), (0, 100, 7), (-40, 125, 1)] {
        let mut prev = i32::MIN;
        for raw in (0u16..=16383).step_by(37) {
            let v = Measurement::value_scaled(raw, min, max, scale).unwrap();
            assert!(v >= prev);
            prev = v;
        }
    }
}

#[test]
fn humidity_equals_scaled_at_one() {
    let frames = [
        [0x00u8, 0x00, 0x00, 0x00],
        [0x7f, 0xff, 0xff, 0xff],
        [0x20, 0x00, 0x80, 0x00],
        [0x15, 0xc3, 0x7a, 0x44],
    ];
    for f in frames {
        let m = Measurement::from_raw(f).unwrap();
        assert_eq!(m.humidity(), m.humidity_scaled(1).unwrap());
        assert_eq!(m.temperature(), m.temperature_scaled(1).unwrap());
    }
}

#[test]
fn scale_overflow_threshold() {
    // For the humidity range (0, 100) every scale up to 21474836 succeeds and
    // every larger scale fails, whatever the raw sample is.
    let s = 21474836u32;
    for raw in [0u16, 1, 1000, 16383] {
        assert!(Measurement::value_scaled(raw, 0, 100, s).is_ok());
        assert!(matches!(
            Measurement::value_scaled(raw, 0, 100, s + 1),
            Err(HytError::ScaleValueOutOfBounds)
        ));
    }
    assert_eq!(Measurement::value_scaled(16383, 0, 100, s), Ok(2147483600));
}

#[test]
fn scale_failure_is_reported_by_accessors() {
    let m = frame(0x00, 0x01, 0x00, 0x04);
    assert!(matches!(
        m.humidity_scaled(u32::MAX),
        Err(HytError::ScaleValueOutOfBounds)
    ));
    assert!(matches!(
        m.temperature_scaled(u32::MAX),
        Err(HytError::ScaleValueOutOfBounds)
    ));
}

#[test]
fn humidity_midpoint_scaled() {
    // Raw humidity 0x2000 (8192) at (0, 100) and scale 100: 50.00 %RH.
    let m = frame(0x20, 0x00, 0x00, 0x00);
    assert_eq!(m.humidity_raw(), 8192);
    assert_eq!(m.humidity_scaled(100), Ok(5000));
    assert_eq!(m.humidity(), 50);
}

#[test]
fn temperature_midpoint_scaled() {
    // Raw temperature 0x2000 (8192) at (-40, 125): 42.5 degrees.
    let m = frame(0x00, 0x00, 0x80, 0x00);
    assert_eq!(m.temperature_raw(), 8192);
    assert_eq!(m.temperature_scaled(10), Ok(425));
    assert_eq!(m.temperature(), 43);
}

#[test]
fn stale_flag() {
    let stale = frame(0x40, 0x00, 0x00, 0x00);
    assert!(stale.is_stale());
    let fresh = frame(0x00, 0x00, 0x00, 0x00);
    assert!(!fresh.is_stale());
    // The stale bit does not disturb the humidity field.
    let both = frame(0x60, 0x00, 0x00, 0x00);
    assert!(both.is_stale());
    assert_eq!(both.humidity_raw(), 0x2000);
}

#[test]
fn fixed_point_accessors() {
    let top = frame(0x7f, 0xff, 0xff, 0xff);
    assert_eq!(top.humidity_i8f24().to_bits(), 100i32 << 24);
    assert_eq!(top.temperature_i8f24().to_bits(), 125i32 << 24);
    let bottom = frame(0x00, 0x00, 0x00, 0x00);
    assert_eq!(bottom.humidity_i8f24().to_bits(), 0);
    assert_eq!(bottom.temperature_i8f24().to_bits(), -40i32 << 24);
    // A mid-range reading: the fixed-point bits are the reading scaled by 2^24.
    let mid = frame(0x20, 0x00, 0x80, 0x00);
    assert_eq!(
        mid.humidity_i8f24(),
        fixed::types::I8F24::from_bits(mid.humidity_scaled(1 << 24).unwrap())
    );
    assert_eq!(
        mid.temperature_i8f24(),
        fixed::types::I8F24::from_bits(mid.temperature_scaled(1 << 24).unwrap())
    );
}
