//! The driver state: framebuffer, dirty-row flags, and protocol state.
//!
//! [`MemoryDisplay`] mirrors every pixel of the panel, remembers which rows
//! changed since the last acknowledged transmission, and owns the
//! reference-voltage bit that must invert on every bus transaction. Its
//! transaction methods return the exact bytes to put on the bus; the caller
//! frames them with the chip-select line and reports which row frames were
//! written, so a failed transmission leaves the affected rows dirty.

use vstd::prelude::*;

use crate::bits::rev8;
use crate::encoder::command_byte;
use crate::encoder::command_for;
use crate::encoder::encode_line;
use crate::encoder::is_flush_plan_for;
use crate::encoder::line_frame;
use crate::encoder::FlushPlan;
use crate::encoder::RowFrame;
use crate::encoder::CMD_CLEAR_MEMORY;
use crate::encoder::CMD_NOP;
use crate::encoder::CMD_WRITE_LINE;
use crate::encoder::FILLER;
use crate::profile::PanelProfile;
use crate::DriverError;

verus! {

/// The pixel mirror after writing value `v` to pixel `(x, y)`.
pub open spec fn write_pixel(pixels: Seq<Seq<bool>>, x: int, y: int, v: bool) -> Seq<Seq<bool>> {
    pixels.update(y, pixels[y].update(x, v))
}

/// Driver state for one panel: the pixel mirror, the per-row dirty flags,
/// and the protocol state (reference-voltage bit, display-enable request,
/// and the value a clear paints into every pixel).
pub struct MemoryDisplay {
    /// The panel model's dimensions and bus clock mode.
    pub profile: PanelProfile,
    /// One entry per scanline, each a row of `width` pixel values
    /// (`true` = pixel on), index 0 = first line.
    pub rows: Vec<Vec<bool>>,
    /// One flag per scanline: changed since the last acknowledged flush.
    pub dirty: Vec<bool>,
    /// The reference-voltage bit (`true` = high). It inverts as the first
    /// action of every transaction-issuing call and the new value goes into
    /// that transaction's command byte.
    pub vcom: bool,
    /// Whether the caller is asked to hold the display-enable line high.
    pub enabled: bool,
    /// The pixel value a clear paints into the whole buffer.
    pub clear_state: bool,
}

impl MemoryDisplay {
    /// Panel width in pixels.
    pub open spec fn width(self) -> int {
        self.profile.width as int
    }

    /// Panel height in pixels (= number of scanlines).
    pub open spec fn height(self) -> int {
        self.profile.height as int
    }

    /// The pixel mirror as a sequence of rows of booleans.
    pub open spec fn pixels(self) -> Seq<Seq<bool>> {
        self.rows@.map_values(|r: Vec<bool>| r@)
    }

    /// Well-formed driver state: a usable profile, one row of exactly
    /// `width` pixels per scanline, and one dirty flag per scanline.
    pub open spec fn wf(self) -> bool {
        &&& self.profile.wf()
        &&& self.rows@.len() == self.height()
        &&& self.dirty@.len() == self.height()
        &&& forall|y: int| 0 <= y < self.height() ==> (#[trigger] self.rows@[y])@.len() == self.width()
    }

    /// Reverse the bit order of one byte. The panel's controller reads
    /// each byte's bits in the opposite order to the one the driver packs
    /// them in, so each transmitted byte goes through this swap.
    pub fn swap(byte: u8) -> (r: u8)
        ensures
            r == rev8(byte),
    {
        ((byte & 0x01) << 7) | ((byte & 0x02) << 5) | ((byte & 0x04) << 3) | ((byte & 0x08) << 1)
            | ((byte & 0x10) >> 1) | ((byte & 0x20) >> 3) | ((byte & 0x40) >> 5) | (
        (byte & 0x80) >> 7)
    }

    /// Create a fresh driver for the given panel: every pixel off, every
    /// row clean, reference bit high, display-enable not requested, and
    /// clears defaulting to pixel-on (the blank state of these panels).
    pub fn new(profile: PanelProfile) -> (d: MemoryDisplay)
        requires
            profile.wf(),
        ensures
            d.wf(),
            d.profile == profile,
            d.vcom == true,
            d.enabled == false,
            d.clear_state == true,
            forall|y: int| 0 <= y < d.height() ==> !(#[trigger] d.dirty@[y]),
            forall|y: int, x: int|
                0 <= y < d.height() && 0 <= x < d.width() ==> !(#[trigger] d.pixels()[y][x]),
    {
        let mut rows: Vec<Vec<bool>> = Vec::new();
        let mut dirty: Vec<bool> = Vec::new();
        let mut y: usize = 0;
        while y < profile.height
            invariant
                y <= profile.height,
                rows@.len() == y,
                dirty@.len() == y,
                forall|i: int| 0 <= i < y ==> (#[trigger] rows@[i])@.len() == profile.width,
                forall|i: int, x: int|
                    0 <= i < y && 0 <= x < profile.width ==> !(#[trigger] rows@[i]@[x]),
                forall|i: int| 0 <= i < y ==> !(#[trigger] dirty@[i]),
            decreases profile.height - y,
        {
            rows.push(uniform_row(profile.width, false));
            dirty.push(false);
            y = y + 1;
        }
        MemoryDisplay { profile, rows, dirty, vcom: true, enabled: false, clear_state: true }
    }

    /// Set the value a later clear paints into the buffer. Nothing else
    /// changes; in particular no row becomes dirty.
    pub fn set_clear_state(&mut self, clear_state: bool)
        ensures
            final(self).clear_state == clear_state,
            final(self).profile == old(self).profile,
            final(self).rows == old(self).rows,
            final(self).dirty == old(self).dirty,
            final(self).vcom == old(self).vcom,
            final(self).enabled == old(self).enabled,
    {
        self.clear_state = clear_state;
    }

    /// Ask the caller to drive the display-enable line high. Touches
    /// neither the framebuffer nor the reference bit.
    pub fn enable(&mut self)
        ensures
            final(self).enabled == true,
            final(self).profile == old(self).profile,
            final(self).rows == old(self).rows,
            final(self).dirty == old(self).dirty,
            final(self).vcom == old(self).vcom,
            final(self).clear_state == old(self).clear_state,
    {
        self.enabled = true;
    }

    /// Ask the caller to drive the display-enable line low. Touches
    /// neither the framebuffer nor the reference bit.
    pub fn disable(&mut self)
        ensures
            final(self).enabled == false,
            final(self).profile == old(self).profile,
            final(self).rows == old(self).rows,
            final(self).dirty == old(self).dirty,
            final(self).vcom == old(self).vcom,
            final(self).clear_state == old(self).clear_state,
    {
        self.enabled = false;
    }

    /// Write one pixel of the mirror and mark its row dirty. A coordinate
    /// outside the panel is rejected with `OutOfBounds` and changes
    /// nothing; no other pixel and no other row's dirty flag ever changes.
    pub fn set_pixel(&mut self, x: usize, y: usize, val: bool) -> (r: Result<(), DriverError>)
        requires
            old(self).wf(),
        ensures
            final(self).wf(),
            final(self).profile == old(self).profile,
            final(self).vcom == old(self).vcom,
            final(self).enabled == old(self).enabled,
            final(self).clear_state == old(self).clear_state,
            x < old(self).width() && y < old(self).height() ==> {
                &&& r is Ok
                &&& final(self).pixels() == write_pixel(old(self).pixels(), x as int, y as int, val)
                &&& final(self).dirty@ == old(self).dirty@.update(y as int, true)
            },
            !(x < old(self).width() && y < old(self).height()) ==> {
                &&& r == Result::<(), DriverError>::Err(DriverError::OutOfBounds)
                &&& *final(self) == *old(self)
            },
    {
        if x < self.profile.width && y < self.profile.height {
            self.rows[y][x] = val;
            self.dirty[y] = true;
            proof {
                assert(self.pixels() =~= write_pixel(
                    old(self).pixels(),
                    x as int,
                    y as int,
                    val,
                ));
            }
            Result::Ok(())
        } else {
            Result::Err(DriverError::OutOfBounds)
        }
    }

    /// Read one pixel of the mirror.
    pub fn get_pixel(&self, x: usize, y: usize) -> (v: bool)
        requires
            self.wf(),
            x < self.width(),
            y < self.height(),
        ensures
            v == self.pixels()[y as int][x as int],
    {
        self.rows[y][x]
    }

    /// The indices of the currently dirty rows, in ascending order. A
    /// flush snapshots this list, transmits the listed rows, and
    /// acknowledges the ones that were written.
    pub fn get_dirty_rows(&self) -> (r: Vec<usize>)
        ensures
            r@.map_values(|u: usize| u as int) == crate::rows::dirty_row_list(self.dirty@),
    {
        let mut r: Vec<usize> = Vec::new();
        let mut y: usize = 0;
        while y < self.dirty.len()
            invariant
                y <= self.dirty@.len(),
                r@.map_values(|u: usize| u as int) == crate::rows::dirty_row_list(
                    self.dirty@.take(y as int),
                ),
            decreases self.dirty@.len() - y,
        {
            if self.dirty[y] {
                r.push(y);
            }
            proof {
                let d = self.dirty@;
                let f = |u: usize| u as int;
                assert(d.take(y + 1).drop_last() =~= d.take(y as int));
                assert(d.take(y + 1).last() == d[y as int]);
                if d[y as int] {
                    assert(r@.map_values(f) =~= crate::rows::dirty_row_list(d.take(y as int))
                        + seq![y as int]);
                }
            }
            y = y + 1;
        }
        proof {
            assert(self.dirty@.take(self.dirty@.len() as int) =~= self.dirty@);
        }
        r
    }

    /// Drop the dirty flag of exactly the given rows: the rows a flush
    /// just transmitted successfully. Rows not listed keep their flag, so
    /// rows whose transmission failed are sent again by the next flush.
    /// Row indices outside the panel are ignored.
    pub fn ack_flushed(&mut self, rows_written: &Vec<usize>)
        requires
            old(self).wf(),
        ensures
            final(self).wf(),
            final(self).profile == old(self).profile,
            final(self).rows == old(self).rows,
            final(self).vcom == old(self).vcom,
            final(self).enabled == old(self).enabled,
            final(self).clear_state == old(self).clear_state,
            final(self).dirty@.len() == old(self).dirty@.len(),
            forall|y: int|
                0 <= y < old(self).dirty@.len() ==> #[trigger] final(self).dirty@[y]
                    == (old(self).dirty@[y] && !rows_written@.contains(y as usize)),
    {
        let mut i: usize = 0;
        while i < rows_written.len()
            invariant
                old(self).wf(),
                i <= rows_written@.len(),
                self.profile == old(self).profile,
                self.rows == old(self).rows,
                self.vcom == old(self).vcom,
                self.enabled == old(self).enabled,
                self.clear_state == old(self).clear_state,
                self.dirty@.len() == old(self).dirty@.len(),
                forall|y: int|
                    0 <= y < old(self).dirty@.len() ==> #[trigger] self.dirty@[y]
                        == (old(self).dirty@[y] && !rows_written@.take(i as int).contains(
                        y as usize,
                    )),
            decreases rows_written@.len() - i,
        {
            let ghost before = self.dirty@;
            let row = rows_written[i];
            if row < self.dirty.len() {
                self.dirty[row] = false;
            }
            proof {
                let t0 = rows_written@.take(i as int);
                let t1 = rows_written@.take(i + 1);
                assert(t1 =~= t0 + seq![rows_written@[i as int]]);
                assert forall|y: int| 0 <= y < old(self).dirty@.len() implies #[trigger] self
                    .dirty@[y] == (old(self).dirty@[y] && !t1.contains(y as usize)) by {
                    if t1.contains(y as usize) {
                        let idx = choose|idx: int| 0 <= idx < t1.len() && t1[idx] == y as usize;
                        if idx < t0.len() {
                            assert(t0[idx] == y as usize);
                            assert(t0.contains(y as usize));
                        } else {
                            assert(row == y as usize);
                        }
                    }
                    if t0.contains(y as usize) {
                        let idx = choose|idx: int| 0 <= idx < t0.len() && t0[idx] == y as usize;
                        assert(t1[idx] == y as usize);
                        assert(t1.contains(y as usize));
                    }
                    if row == y as usize {
                        assert(t1[t0.len() as int] == y as usize);
                        assert(t1.contains(y as usize));
                    }
                    if y == row as int {
                        assert(self.dirty@[y] == false);
                    } else {
                        assert(self.dirty@[y] == before[y]);
                    }
                }
            }
            i = i + 1;
        }
        proof {
            assert(rows_written@.take(rows_written@.len() as int) =~= rows_written@);
        }
    }

    /// Paint every pixel of the mirror with the configured clear value and
    /// mark every row dirty, without touching the bus or the reference
    /// bit.
    pub fn clear_buffer(&mut self)
        requires
            old(self).wf(),
        ensures
            final(self).wf(),
            final(self).profile == old(self).profile,
            final(self).vcom == old(self).vcom,
            final(self).enabled == old(self).enabled,
            final(self).clear_state == old(self).clear_state,
            forall|y: int| 0 <= y < old(self).height() ==> #[trigger] final(self).dirty@[y],
            forall|y: int, x: int|
                0 <= y < old(self).height() && 0 <= x < old(self).width()
                    ==> #[trigger] final(self).pixels()[y][x] == old(self).clear_state,
    {
        let h = self.profile.height;
        let w = self.profile.width;
        let value = self.clear_state;
        let mut y: usize = 0;
        while y < h
            invariant
                old(self).wf(),
                y <= h,
                h == self.profile.height,
                w == self.profile.width,
                value == self.clear_state,
                self.profile == old(self).profile,
                self.vcom == old(self).vcom,
                self.enabled == old(self).enabled,
                self.clear_state == old(self).clear_state,
                self.rows@.len() == h,
                self.dirty@.len() == h,
                forall|i: int| 0 <= i < h ==> (#[trigger] self.rows@[i])@.len() == w,
                forall|i: int| 0 <= i < y ==> #[trigger] self.dirty@[i],
                forall|i: int, x: int|
                    0 <= i < y && 0 <= x < w ==> #[trigger] self.rows@[i]@[x] == value,
            decreases h - y,
        {
            self.rows[y] = uniform_row(w, value);
            self.dirty[y] = true;
            y = y + 1;
        }
    }

    /// Compute one flush transaction: invert the reference bit, then
    /// assemble the command byte carrying the new bit, one frame per dirty
    /// row in ascending order — each encoding the row's current pixels —
    /// and the closing filler byte. The framebuffer and the dirty flags do
    /// not change here; the caller transmits the plan inside one
    /// chip-select window and acknowledges the rows it wrote via
    /// [`Self::ack_flushed`], so rows whose transmission fails stay dirty.
    pub fn flush_buffer(&mut self) -> (plan: FlushPlan)
        requires
            old(self).wf(),
        ensures
            final(self).wf(),
            final(self).profile == old(self).profile,
            final(self).rows == old(self).rows,
            final(self).dirty == old(self).dirty,
            final(self).enabled == old(self).enabled,
            final(self).clear_state == old(self).clear_state,
            final(self).vcom == !old(self).vcom,
            is_flush_plan_for(plan, old(self).pixels(), old(self).dirty@, final(self).vcom),
    {
        self.vcom = !self.vcom;
        let command = command_for(CMD_WRITE_LINE, self.vcom);
        let list = self.get_dirty_rows();
        proof {
            crate::rows::lemma_dirty_row_list_in_range(self.dirty@);
        }
        let mut frames: Vec<RowFrame> = Vec::new();
        let mut i: usize = 0;
        while i < list.len()
            invariant
                self.wf(),
                list@.map_values(|u: usize| u as int) == crate::rows::dirty_row_list(self.dirty@),
                forall|j: int|
                    0 <= j < crate::rows::dirty_row_list(self.dirty@).len()
                        ==> 0 <= #[trigger] crate::rows::dirty_row_list(self.dirty@)[j]
                        < self.height(),
                i <= list@.len(),
                frames@.len() == i,
                forall|j: int|
                    0 <= j < i ==> (#[trigger] frames@[j]).row as int
                        == crate::rows::dirty_row_list(self.dirty@)[j] && frames@[j].bytes@
                        == line_frame(
                        self.pixels()[crate::rows::dirty_row_list(self.dirty@)[j]],
                        crate::rows::dirty_row_list(self.dirty@)[j],
                    ),
            decreases list@.len() - i,
        {
            let y = list[i];
            proof {
                assert(list@.map_values(|u: usize| u as int)[i as int] == y as int);
                assert(y as int == crate::rows::dirty_row_list(self.dirty@)[i as int]);
                assert(self.pixels()[y as int] == self.rows@[y as int]@);
            }
            let bytes = encode_line(&self.rows[y], y);
            frames.push(RowFrame { row: y, bytes });
            i = i + 1;
        }
        FlushPlan { command, frames, trailer: FILLER }
    }

    /// Clear the panel and the mirror together: paint every pixel of the
    /// mirror with the clear value and mark every row dirty, invert the
    /// reference bit, and return the two-byte clear-memory transaction the
    /// caller must put on the bus inside one chip-select window. The panel
    /// clears its own memory in hardware, so mirror and panel stay in step
    /// even though no pixel data is transmitted.
    pub fn clear(&mut self) -> (tx: Vec<u8>)
        requires
            old(self).wf(),
        ensures
            final(self).wf(),
            final(self).profile == old(self).profile,
            final(self).enabled == old(self).enabled,
            final(self).clear_state == old(self).clear_state,
            final(self).vcom == !old(self).vcom,
            forall|y: int| 0 <= y < old(self).height() ==> #[trigger] final(self).dirty@[y],
            forall|y: int, x: int|
                0 <= y < old(self).height() && 0 <= x < old(self).width()
                    ==> #[trigger] final(self).pixels()[y][x] == old(self).clear_state,
            tx@ == seq![command_byte(CMD_CLEAR_MEMORY, !old(self).vcom), FILLER],
    {
        self.vcom = !self.vcom;
        self.clear_buffer();
        let mut tx: Vec<u8> = Vec::new();
        tx.push(command_for(CMD_CLEAR_MEMORY, self.vcom));
        tx.push(FILLER);
        proof {
            assert(tx@ =~= seq![command_byte(CMD_CLEAR_MEMORY, self.vcom), FILLER]);
        }
        tx
    }

    /// Compute one keep-alive (no-op) transaction: invert the reference
    /// bit and return the two bytes the caller must put on the bus inside
    /// one chip-select window. The panel wants the reference bit toggled
    /// at least once a second even when nothing changed; this transaction
    /// does that without disturbing the displayed content, and it leaves
    /// the framebuffer and the dirty flags untouched.
    pub fn display_mode(&mut self) -> (tx: Vec<u8>)
        requires
            old(self).wf(),
        ensures
            final(self).wf(),
            final(self).profile == old(self).profile,
            final(self).rows == old(self).rows,
            final(self).dirty == old(self).dirty,
            final(self).enabled == old(self).enabled,
            final(self).clear_state == old(self).clear_state,
            final(self).vcom == !old(self).vcom,
            tx@ == seq![command_byte(CMD_NOP, !old(self).vcom), FILLER],
    {
        self.vcom = !self.vcom;
        let mut tx: Vec<u8> = Vec::new();
        tx.push(command_for(CMD_NOP, self.vcom));
        tx.push(FILLER);
        proof {
            assert(tx@ =~= seq![command_byte(CMD_NOP, self.vcom), FILLER]);
        }
        tx
    }
}

/// A row of `width` identical pixel values.
fn uniform_row(width: usize, value: bool) -> (row: Vec<bool>)
    ensures
        row@.len() == width,
        forall|x: int| 0 <= x < width ==> #[trigger] row@[x] == value,
{
    let mut row: Vec<bool> = Vec::new();
    let mut x: usize = 0;
    while x < width
        invariant
            x <= width,
            row@.len() == x,
            forall|i: int| 0 <= i < x ==> #[trigger] row@[i] == value,
        decreases width - x,
    {
        row.push(value);
        x = x + 1;
    }
    row
}

} // verus!
