use dial_sync::percentage::{decode_percentage, encode_percentage, Percentage, ADC_RESOLUTION};

#[test]
fn encode_half_turn() {
    // resolution 2048, raw 1023: 1023/2048 = 0.49951171875 exactly, which is
    // 32736 / 2^16.
    let p = encode_percentage(1023, ADC_RESOLUTION);
    assert_eq!(p.bits, 32736);
}

#[test]
fn encode_extremes() {
    assert_eq!(encode_percentage(0, ADC_RESOLUTION).bits, 0);
    // 2047/2048 in 16 fractional bits: 2047 * 32.
    assert_eq!(encode_percentage(2047, ADC_RESOLUTION).bits, 65504);
}

#[test]
fn encode_smallest_resolution() {
    // resolution 1 admits only raw 0.
    assert_eq!(encode_percentage(0, 1).bits, 0);
}

#[test]
fn decode_inverts_encode() {
    for raw in [0u16, 1, 2, 511, 1023, 1024, 2047] {
        let p = encode_percentage(raw, ADC_RESOLUTION);
        assert_eq!(decode_percentage(p, ADC_RESOLUTION), raw);
    }
    // A resolution that does not divide 2^16.
    for raw in [0u16, 1, 2, 999] {
        let p = encode_percentage(raw, 1000);
        assert_eq!(decode_percentage(p, 1000), raw);
    }
    // The largest representable resolution.
    for raw in [0u16, 1, 32768, 65534] {
        let p = encode_percentage(raw, 65535);
        assert_eq!(decode_percentage(p, 65535), raw);
    }
}

#[test]
fn repeated_encode_decode_is_stable() {
    for raw in [0u16, 7, 1023, 2047] {
        let p = encode_percentage(raw, ADC_RESOLUTION);
        let mut q: Percentage = p;
        for _ in 0..3 {
            let back = decode_percentage(q, ADC_RESOLUTION);
            q = encode_percentage(back, ADC_RESOLUTION);
        }
        assert_eq!(q, p);
    }
}
