use sharp_memory_display::BusMode;
use sharp_memory_display::ClockPhase;
use sharp_memory_display::ClockPolarity;
use sharp_memory_display::DriverError;
use sharp_memory_display::MemoryDisplay;
use sharp_memory_display::PanelProfile;

fn small_panel() -> PanelProfile {
    PanelProfile {
        width: 8,
        height: 4,
        bus_mode: BusMode {
            polarity: ClockPolarity::IdleLow,
            phase: ClockPhase::CaptureOnSecondTransition,
        },
    }
}

#[test]
fn set_then_get_returns_value_and_marks_only_that_row() {
    let mut d = MemoryDisplay::new(small_panel());
    assert_eq!(d.get_dirty_rows(), Vec::<usize>::new());
    assert_eq!(d.set_pixel(3, 2, true), Ok(()));
    assert!(d.get_pixel(3, 2));
    assert!(!d.get_pixel(2, 3));
    assert_eq!(d.get_dirty_rows(), vec![2]);
    assert_eq!(d.set_pixel(3, 2, false), Ok(()));
    assert!(!d.get_pixel(3, 2));
    assert_eq!(d.get_dirty_rows(), vec![2]);
}

#[test]
fn out_of_bounds_pixel_is_rejected_and_changes_nothing() {
    let mut d = MemoryDisplay::new(small_panel());
    assert_eq!(d.set_pixel(8, 0, true), Err(DriverError::OutOfBounds));
    assert_eq!(d.set_pixel(0, 4, true), Err(DriverError::OutOfBounds));
    assert_eq!(d.set_pixel(usize::MAX, usize::MAX, true), Err(DriverError::OutOfBounds));
    assert_eq!(d.get_dirty_rows(), Vec::<usize>::new());
    for y in 0..4 {
        for x in 0..8 {
            assert!(!d.get_pixel(x, y));
        }
    }
}

#[test]
fn many_writes_to_one_row_produce_one_frame_with_latest_values() {
    let mut d = MemoryDisplay::new(small_panel());
    // Several writes to row 1, some overwriting earlier ones.
    assert_eq!(d.set_pixel(0, 1, true), Ok(()));
    assert_eq!(d.set_pixel(5, 1, true), Ok(()));
    assert_eq!(d.set_pixel(0, 1, false), Ok(()));
    assert_eq!(d.set_pixel(7, 1, true), Ok(()));
    let plan = d.flush_buffer();
    assert_eq!(plan.frames.len(), 1);
    assert_eq!(plan.frames[0].row, 1);
    // Latest state of row 1: pixels 5 and 7 on. Packed byte 0b1010_0000,
    // transmitted bit-reversed as 0b0000_0101.
    // Line number 2 bit-reversed is 0x40.
    assert_eq!(plan.frames[0].bytes, vec![0x40, 0x05, 0x00]);
}

#[test]
fn clear_buffer_paints_everything_and_dirties_every_row() {
    let mut d = MemoryDisplay::new(small_panel());
    // One row dirty beforehand; the flush after the clear must cover all
    // rows anyway.
    assert_eq!(d.set_pixel(0, 0, true), Ok(()));
    d.set_clear_state(true);
    d.clear_buffer();
    for y in 0..4 {
        for x in 0..8 {
            assert!(d.get_pixel(x, y));
        }
    }
    assert_eq!(d.get_dirty_rows(), vec![0, 1, 2, 3]);
    let plan = d.flush_buffer();
    assert_eq!(plan.frames.len(), 4);
    for y in 0..4 {
        assert_eq!(plan.frames[y].row, y);
        // All pixels on: payload byte 0xFF either way round.
        assert_eq!(plan.frames[y].bytes[1], 0xFF);
    }
}

#[test]
fn reference_bit_alternates_across_transaction_kinds() {
    let mut d = MemoryDisplay::new(small_panel());
    // flush, clear, flush, keep-alive: the 0x40 bit of the command bytes
    // must strictly alternate, starting from the fixed initial state.
    let b1 = d.flush_buffer().command & 0x40;
    let b2 = d.clear()[0] & 0x40;
    let b3 = d.flush_buffer().command & 0x40;
    let b4 = d.display_mode()[0] & 0x40;
    assert_eq!((b1, b2, b3, b4), (0x00, 0x40, 0x00, 0x40));
}

#[test]
fn clear_transaction_bytes() {
    let mut d = MemoryDisplay::new(small_panel());
    let tx = d.clear();
    // Clear-memory code 0x20, reference bit low after the first flip,
    // then one filler byte.
    assert_eq!(tx, vec![0x20, 0x00]);
    let tx2 = d.display_mode();
    assert_eq!(tx2, vec![0x40, 0x00]);
}

#[test]
fn successful_flush_acknowledged_fully_leaves_no_dirty_rows() {
    let mut d = MemoryDisplay::new(small_panel());
    assert_eq!(d.set_pixel(0, 0, true), Ok(()));
    assert_eq!(d.set_pixel(0, 3, true), Ok(()));
    let plan = d.flush_buffer();
    let written: Vec<usize> = plan.frames.iter().map(|f| f.row).collect();
    assert_eq!(written, vec![0, 3]);
    d.ack_flushed(&written);
    assert_eq!(d.get_dirty_rows(), Vec::<usize>::new());
}

#[test]
fn failed_flush_keeps_unwritten_rows_dirty() {
    let mut d = MemoryDisplay::new(small_panel());
    assert_eq!(d.set_pixel(0, 0, true), Ok(()));
    assert_eq!(d.set_pixel(0, 2, true), Ok(()));
    assert_eq!(d.set_pixel(0, 3, true), Ok(()));
    let plan = d.flush_buffer();
    assert_eq!(plan.frames.len(), 3);
    // The transport fails after the first frame: only row 0 was written.
    let written = vec![plan.frames[0].row];
    d.ack_flushed(&written);
    assert_eq!(d.get_dirty_rows(), vec![2, 3]);
    // The next flush resends exactly the rows that stayed dirty.
    let retry = d.flush_buffer();
    let rows: Vec<usize> = retry.frames.iter().map(|f| f.row).collect();
    assert_eq!(rows, vec![2, 3]);
}

#[test]
fn writes_during_failed_flush_are_not_lost() {
    let mut d = MemoryDisplay::new(small_panel());
    assert_eq!(d.set_pixel(0, 1, true), Ok(()));
    let plan = d.flush_buffer();
    assert_eq!(plan.frames.len(), 1);
    // A new write lands on another row before the acknowledgment.
    assert_eq!(d.set_pixel(0, 2, true), Ok(()));
    d.ack_flushed(&vec![1]);
    assert_eq!(d.get_dirty_rows(), vec![2]);
}

#[test]
fn enable_and_disable_track_the_requested_line_state() {
    let mut d = MemoryDisplay::new(small_panel());
    assert!(!d.enabled);
    d.enable();
    assert!(d.enabled);
    d.disable();
    assert!(!d.enabled);
    // Neither touches the dirty rows or the reference bit.
    assert_eq!(d.get_dirty_rows(), Vec::<usize>::new());
    assert!(d.vcom);
}

#[test]
fn panel_profiles_carry_the_model_constants() {
    let a = PanelProfile::ls011b7dh03();
    assert_eq!((a.width, a.height), (160, 68));
    assert_eq!(a.bus_mode.phase, ClockPhase::CaptureOnFirstTransition);
    let b = PanelProfile::ls012b7dd06();
    assert_eq!((b.width, b.height), (240, 240));
    assert_eq!(b.bus_mode.phase, ClockPhase::CaptureOnSecondTransition);
    let c = PanelProfile::ls013b7dh05();
    assert_eq!((c.width, c.height), (144, 168));
    assert_eq!(c.bus_mode.polarity, ClockPolarity::IdleLow);
    assert_eq!(a.bytes_per_row(), 20);
    assert_eq!(b.bytes_per_row(), 30);
    assert_eq!(c.bytes_per_row(), 18);
}
