use tcp_bridge::level::level_from_f32_bits;
use tcp_bridge::protocol::{FaderLevel, RodeCommand};

fn reference(x: f32) -> u32 {
    if x.is_nan() {
        return 0;
    }
    ((x as f64).clamp(0.0, 1.0) * 65535.0).round() as u32
}

#[test]
fn level_clamp_ends_and_middle() {
    assert_eq!(level_from_f32_bits(0.0f32.to_bits()), 0x0000);
    assert_eq!(level_from_f32_bits(1.0f32.to_bits()), 0xFFFF);
    assert_eq!(level_from_f32_bits(0.5f32.to_bits()), 0x8000);
    assert_eq!(level_from_f32_bits(0.5f32.to_bits()), level_from_f32_bits(0.5f32.to_bits()));
}

#[test]
fn level_out_of_range_and_special() {
    assert_eq!(level_from_f32_bits(2.0f32.to_bits()), 0xFFFF);
    assert_eq!(level_from_f32_bits(1.0e30f32.to_bits()), 0xFFFF);
    assert_eq!(level_from_f32_bits((-0.5f32).to_bits()), 0);
    assert_eq!(level_from_f32_bits((-0.0f32).to_bits()), 0);
    assert_eq!(level_from_f32_bits(f32::INFINITY.to_bits()), 0xFFFF);
    assert_eq!(level_from_f32_bits(f32::NEG_INFINITY.to_bits()), 0);
    assert_eq!(level_from_f32_bits(f32::NAN.to_bits()), 0);
    assert_eq!(level_from_f32_bits(f32::from_bits(1).to_bits()), 0);
    assert_eq!(level_from_f32_bits(1.0e-5f32.to_bits()), 1);
}

#[test]
fn level_matches_exact_rounding() {
    let mut x: f32 = 0.0;
    while x <= 1.0 {
        assert_eq!(level_from_f32_bits(x.to_bits()), reference(x), "x = {}", x);
        x += 0.000_731;
    }
    for k in 0u32..=65535 {
        let x = k as f32 / 65535.0;
        assert_eq!(level_from_f32_bits(x.to_bits()), k);
    }
}

#[test]
fn level_into_payload() {
    let level = level_from_f32_bits(0.25f32.to_bits());
    let payload = FaderLevel { fader_index: 2, level }.build_payload(&[1, 2, 3, 4]);
    assert_eq!(level, 16384);
    assert_eq!(&payload[payload.len() - 4..], &[0x00, 0x40, 0x00, 0x00]);
}
