use fanshim::led::{
    brightness_field, control_byte, frame_bytes, led_frame, set_led_writes, FrameConfig,
};
use fanshim::wire::{Line, LineWrite};

/// The data-line values of a write sequence, in order.
fn data_values(writes: &[LineWrite]) -> Vec<bool> {
    writes
        .iter()
        .filter(|w| w.line == Line::Data)
        .map(|w| w.value)
        .collect()
}

/// The number of rising clock edges (clock pulses) in a write sequence.
fn count_pulses(writes: &[LineWrite]) -> usize {
    writes
        .iter()
        .filter(|w| w.line == Line::Clock && w.value)
        .count()
}

#[test]
fn brightness_zero_gives_field_zero() {
    assert_eq!(brightness_field(0, 1), 0);
    assert_eq!(brightness_field(0, 1000), 0);
}

#[test]
fn brightness_one_gives_field_31() {
    assert_eq!(brightness_field(1, 1), 31);
    assert_eq!(brightness_field(1000, 1000), 31);
}

#[test]
fn brightness_rounds_half_up() {
    // 31 * 1/2 = 15.5 rounds up to 16.
    assert_eq!(brightness_field(1, 2), 16);
}

#[test]
fn brightness_formula_exact() {
    // 31 * 2/5 = 12.4 rounds to 12.
    assert_eq!(brightness_field(2, 5), 12);
    // 31 * 1/20 = 1.55 rounds to 2.
    assert_eq!(brightness_field(1, 20), 2);
    // 31 * 1/62 = 0.5 rounds up to 1.
    assert_eq!(brightness_field(1, 62), 1);
}

#[test]
fn brightness_field_is_monotonic() {
    let mut last = 0u8;
    for num in 0..=120u64 {
        let f = brightness_field(num, 100);
        assert!(f >= last, "field dropped from {} to {} at {}/100", last, f, num);
        last = f;
    }
}

#[test]
fn brightness_above_one_clamps_to_31() {
    assert_eq!(brightness_field(3, 2), 31);
    assert_eq!(brightness_field(u64::MAX, 1), 31);
}

#[test]
fn control_byte_fixes_top_three_bits() {
    assert_eq!(control_byte(0), 0b1110_0000);
    assert_eq!(control_byte(31), 0b1111_1111);
    assert_eq!(control_byte(5), 0b1110_0101);
    // An out-of-range field is masked to five bits.
    assert_eq!(control_byte(0b0010_0101), 0b1110_0101);
}

#[test]
fn frame_bytes_order_is_control_blue_green_red() {
    let bytes = frame_bytes(1, 2, 3, 4);
    assert_eq!(bytes, vec![0b1110_0100, 3, 2, 1]);
}

#[test]
fn byte_serialization_is_msb_first() {
    let mut writes: Vec<LineWrite> = Vec::new();
    fanshim::led::push_byte_writes(&mut writes, 0b1011_0000);
    let bits = data_values(&writes);
    assert_eq!(
        bits,
        vec![true, false, true, true, false, false, false, false]
    );
    // Each bit is one data write and one clock pulse.
    assert_eq!(writes.len(), 24);
    assert_eq!(count_pulses(&writes), 8);
}

#[test]
fn default_frame_pulse_count_is_96() {
    let cfg = FrameConfig::default();
    let writes = led_frame(&cfg, 10, 20, 30, 31);
    // 32 start pulses + 32 pulses for the 4 data bytes + 32 end pulses.
    assert_eq!(count_pulses(&writes), 96);
}

#[test]
fn pulse_count_follows_configuration() {
    let cfg = FrameConfig {
        start_pulses: 36,
        end_pulses: 40,
        dwell_ns: 500,
        end_level: true,
    };
    let writes = led_frame(&cfg, 0, 0, 0, 0);
    assert_eq!(count_pulses(&writes), 36 + 32 + 40);
    // The pulse count does not depend on the colour.
    let other = led_frame(&cfg, 255, 255, 255, 31);
    assert_eq!(count_pulses(&other), 36 + 32 + 40);
}

#[test]
fn set_led_writes_encodes_brightness_then_frames() {
    let cfg = FrameConfig::default();
    // Half brightness encodes to field 16; the combined entry point must
    // produce the same frame as encoding and framing separately.
    let combined = set_led_writes(&cfg, 7, 8, 9, 1, 2);
    let field = brightness_field(1, 2);
    assert_eq!(field, 16);
    let separate = led_frame(&cfg, 7, 8, 9, field);
    assert_eq!(combined, separate);
}

#[test]
fn frame_starts_low_and_ends_at_configured_level() {
    let cfg = FrameConfig::default();
    let writes = led_frame(&cfg, 1, 2, 3, 4);
    assert_eq!(
        writes[0],
        LineWrite {
            line: Line::Data,
            value: false
        }
    );
    // After the start frame (1 data write + 64 clock writes) and the four
    // bytes (4 * 24 writes), the end frame drives the data line high.
    let end_start = 1 + 64 + 96;
    assert_eq!(
        writes[end_start],
        LineWrite {
            line: Line::Data,
            value: true
        }
    );
    assert_eq!(writes.len(), end_start + 1 + 64);
}

#[test]
fn frame_sends_control_byte_then_blue_green_red() {
    let cfg = FrameConfig::default();
    let writes = led_frame(&cfg, 0xAA, 0xBB, 0xCC, 31);
    // Data writes: 1 for the start frame, 8 per byte, 1 for the end frame.
    let bits = data_values(&writes);
    assert_eq!(bits.len(), 1 + 32 + 1);
    let byte_at = |k: usize| -> u8 {
        let mut b = 0u8;
        for i in 0..8 {
            b = (b << 1) | (bits[1 + 8 * k + i] as u8);
        }
        b
    };
    assert_eq!(byte_at(0), 0xFF); // control byte for field 31
    assert_eq!(byte_at(1), 0xCC); // blue
    assert_eq!(byte_at(2), 0xBB); // green
    assert_eq!(byte_at(3), 0xAA); // red
}
