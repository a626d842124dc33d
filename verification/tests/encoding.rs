use sharp_memory_display::encoder::encode_line;
use sharp_memory_display::BusMode;
use sharp_memory_display::ClockPhase;
use sharp_memory_display::ClockPolarity;
use sharp_memory_display::MemoryDisplay;
use sharp_memory_display::PanelProfile;

#[test]
fn swap_reverses_single_bytes() {
    assert_eq!(MemoryDisplay::swap(0b0000_0001), 0b1000_0000);
    assert_eq!(MemoryDisplay::swap(0b1100_0000), 0b0000_0011);
    assert_eq!(MemoryDisplay::swap(0x00), 0x00);
    assert_eq!(MemoryDisplay::swap(0xFF), 0xFF);
    assert_eq!(MemoryDisplay::swap(0b1010_0000), 0b0000_0101);
}

#[test]
fn swap_round_trips() {
    for b in 0..=255u8 {
        assert_eq!(MemoryDisplay::swap(MemoryDisplay::swap(b)), b);
    }
}

#[test]
fn encode_line_lays_out_number_payload_and_filler() {
    // 16 pixels: only pixels 0 and 9 on.
    let mut row = vec![false; 16];
    row[0] = true;
    row[9] = true;
    let frame = encode_line(&row, 4);
    // Line number 5 = 0b0000_0101, bit-reversed 0b1010_0000. First payload
    // byte holds pixel 0 (packed 0b0000_0001, reversed 0b1000_0000);
    // second holds pixel 9 (packed 0b0000_0010, reversed 0b0100_0000).
    assert_eq!(frame, vec![0b1010_0000, 0b1000_0000, 0b0100_0000, 0x00]);
}

#[test]
fn encode_line_pads_a_partial_last_byte_with_zero_bits() {
    // 10 pixels: one full byte and one padded byte.
    let mut row = vec![true; 10];
    row[3] = false;
    let frame = encode_line(&row, 0);
    // Packed bytes: 0b1111_0111 and 0b0000_0011 (pixels 8 and 9 on, the
    // six padding bits off); reversed: 0b1110_1111 and 0b1100_0000.
    assert_eq!(frame, vec![0x80, 0b1110_1111, 0b1100_0000, 0x00]);
}

#[test]
fn flush_of_one_set_pixel_produces_the_documented_bytes() {
    // Panel of width 8 (one byte per row) and height 4; set pixel (0, 0);
    // flush. The transaction must be: write-line command with the current
    // reference bit, line number 1 bit-reversed, one payload byte whose
    // packed value 0b0000_0001 is transmitted bit-reversed (pixel 0 on
    // the wire byte's top bit), the frame's filler byte, and the closing
    // filler byte.
    let profile = PanelProfile {
        width: 8,
        height: 4,
        bus_mode: BusMode {
            polarity: ClockPolarity::IdleLow,
            phase: ClockPhase::CaptureOnSecondTransition,
        },
    };
    let mut d = MemoryDisplay::new(profile);
    assert_eq!(d.set_pixel(0, 0, true), Ok(()));
    let plan = d.flush_buffer();
    let ref_bit = if d.vcom { 0x40 } else { 0x00 };
    let expected = vec![
        0x80 | ref_bit,
        MemoryDisplay::swap(1),
        MemoryDisplay::swap(0b0000_0001),
        0x00,
        0x00,
    ];
    assert_eq!(plan.to_bytes(), expected);
    // With the concrete reversals spelled out:
    assert_eq!(plan.to_bytes(), vec![0x80, 0b1000_0000, 0b1000_0000, 0x00, 0x00]);
}

#[test]
fn flush_with_no_dirty_rows_is_command_and_trailer_only() {
    let mut d = MemoryDisplay::new(PanelProfile::ls013b7dh05());
    let plan = d.flush_buffer();
    assert_eq!(plan.frames.len(), 0);
    assert_eq!(plan.to_bytes(), vec![0x80, 0x00]);
}
