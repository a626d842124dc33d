//! The line encoder: from framebuffer rows to the panel's wire format.
//!
//! One changed row travels as a frame `[line number][payload][filler]`:
//! the 1-based scanline number bit-reversed, then the row's pixels packed
//! eight to a byte least-significant-bit first and each byte bit-reversed
//! — so the first pixel of each byte travels on the wire byte's most
//! significant bit — then one all-zero filler byte. A full flush
//! transaction is a command byte (write-line code combined with the
//! current reference bit), the frames of the dirty rows in ascending
//! order, and one closing filler byte; together with the last frame's own
//! filler that closing byte forms the 16 zero bits that mark the end of
//! the transmission.

use vstd::prelude::*;

use crate::bits::rev8;
use crate::display::MemoryDisplay;
use crate::rows::dirty_row_list;

verus! {

/// Command code of a keep-alive (no-op) transaction.
pub const CMD_NOP: u8 = 0x00;

/// Command code of a clear-memory transaction.
pub const CMD_CLEAR_MEMORY: u8 = 0x20;

/// Command code of a write-line (flush) transaction.
pub const CMD_WRITE_LINE: u8 = 0x80;

/// Filler byte; the protocol only needs its presence, not its value.
pub const FILLER: u8 = 0x00;

/// The command-byte bit that carries the reference-voltage state.
pub open spec fn vcom_bit(vcom: bool) -> u8 {
    if vcom {
        0x40u8
    } else {
        0x00u8
    }
}

/// The leading byte of a transaction: its command code combined with the
/// current reference-voltage bit.
pub open spec fn command_byte(code: u8, vcom: bool) -> u8 {
    code | vcom_bit(vcom)
}

/// Pixel `i` of a row; positions past the row's end read as off, which is
/// how the last payload byte of a row is padded.
pub open spec fn row_bit(row: Seq<bool>, i: int) -> bool {
    0 <= i < row.len() && row[i]
}

/// Payload byte `k` of a row before bit-reversal: pixels `8k .. 8k+7`
/// packed least-significant-bit first (pixel `8k + j` at bit `j`). After
/// the bit-reversal, pixel `8k` therefore travels on the wire byte's most
/// significant bit.
pub open spec fn logical_byte(row: Seq<bool>, k: int) -> u8 {
    (if row_bit(row, 8 * k) {
        0x01u8
    } else {
        0u8
    }) | (if row_bit(row, 8 * k + 1) {
        0x02u8
    } else {
        0u8
    }) | (if row_bit(row, 8 * k + 2) {
        0x04u8
    } else {
        0u8
    }) | (if row_bit(row, 8 * k + 3) {
        0x08u8
    } else {
        0u8
    }) | (if row_bit(row, 8 * k + 4) {
        0x10u8
    } else {
        0u8
    }) | (if row_bit(row, 8 * k + 5) {
        0x20u8
    } else {
        0u8
    }) | (if row_bit(row, 8 * k + 6) {
        0x40u8
    } else {
        0u8
    }) | (if row_bit(row, 8 * k + 7) {
        0x80u8
    } else {
        0u8
    })
}

/// The payload of one row as transmitted: every packed byte bit-reversed.
pub open spec fn payload_bytes(row: Seq<bool>) -> Seq<u8> {
    Seq::new(((row.len() + 7) / 8) as nat, |k: int| rev8(logical_byte(row, k)))
}

/// The wire frame of row `y`: its 1-based line number bit-reversed, the
/// bit-reversed payload, and one filler byte.
pub open spec fn line_frame(row: Seq<bool>, y: int) -> Seq<u8> {
    seq![rev8((y + 1) as u8)] + payload_bytes(row) + seq![FILLER]
}

/// The encoded frame of one dirty row, together with the row's index so
/// the caller can acknowledge exactly the rows it managed to transmit.
pub struct RowFrame {
    /// The scanline this frame belongs to.
    pub row: usize,
    /// The frame's bytes, ready for the bus.
    pub bytes: Vec<u8>,
}

/// One flush transaction, computed against a snapshot of the dirty rows:
/// the leading command byte, the frames of the dirty rows in ascending
/// row order, and the closing filler byte. The caller transmits the parts
/// in this order inside one chip-select window.
pub struct FlushPlan {
    /// Command byte: write-line code with the current reference bit.
    pub command: u8,
    /// One frame per dirty row, ascending by row index.
    pub frames: Vec<RowFrame>,
    /// Closing filler byte.
    pub trailer: u8,
}

/// What a correct flush transaction looks like for the given pixel mirror,
/// dirty flags, and reference bit: exactly one frame per dirty row, in
/// ascending order, each encoding the row's current pixels.
pub open spec fn is_flush_plan_for(
    plan: FlushPlan,
    pixels: Seq<Seq<bool>>,
    dirty: Seq<bool>,
    vcom: bool,
) -> bool {
    let list = dirty_row_list(dirty);
    &&& plan.command == command_byte(CMD_WRITE_LINE, vcom)
    &&& plan.trailer == FILLER
    &&& plan.frames@.len() == list.len()
    &&& forall|i: int|
        0 <= i < list.len() ==> (#[trigger] plan.frames@[i]).row as int == list[i]
            && plan.frames@[i].bytes@ == line_frame(pixels[list[i]], list[i])
}

/// The byte stream of a sequence of row frames, in order.
pub open spec fn frames_stream(frames: Seq<RowFrame>) -> Seq<u8>
    decreases frames.len(),
{
    if frames.len() == 0 {
        Seq::empty()
    } else {
        frames_stream(frames.drop_last()) + frames.last().bytes@
    }
}

/// The full byte stream of a flush plan: command byte, every frame in
/// order, closing filler byte.
pub open spec fn flush_plan_stream(plan: FlushPlan) -> Seq<u8> {
    seq![plan.command] + frames_stream(plan.frames@) + seq![plan.trailer]
}

/// The byte stream of the frames of the given rows, in order.
pub open spec fn frames_stream_of(pixels: Seq<Seq<bool>>, rows: Seq<int>) -> Seq<u8>
    decreases rows.len(),
{
    if rows.len() == 0 {
        Seq::empty()
    } else {
        frames_stream_of(pixels, rows.drop_last()) + line_frame(pixels[rows.last()], rows.last())
    }
}

/// The byte stream a flush of the given state must put on the bus.
pub open spec fn flush_stream(pixels: Seq<Seq<bool>>, dirty: Seq<bool>, vcom: bool) -> Seq<u8> {
    seq![command_byte(CMD_WRITE_LINE, vcom)] + frames_stream_of(pixels, dirty_row_list(dirty))
        + seq![FILLER]
}

proof fn lemma_frames_stream_match(frames: Seq<RowFrame>, pixels: Seq<Seq<bool>>, rows: Seq<int>)
    requires
        frames.len() == rows.len(),
        forall|i: int|
            0 <= i < rows.len() ==> (#[trigger] frames[i]).bytes@ == line_frame(
                pixels[rows[i]],
                rows[i],
            ),
    ensures
        frames_stream(frames) == frames_stream_of(pixels, rows),
    decreases frames.len(),
{
    if frames.len() > 0 {
        lemma_frames_stream_match(frames.drop_last(), pixels, rows.drop_last());
        assert(frames.last().bytes@ == line_frame(pixels[rows.last()], rows.last()));
    }
}

/// A flush plan for a given state has exactly the byte stream the
/// protocol prescribes for that state: one frame per dirty row, ascending,
/// each reflecting the row's pixels at plan time.
pub proof fn lemma_flush_plan_stream(
    plan: FlushPlan,
    pixels: Seq<Seq<bool>>,
    dirty: Seq<bool>,
    vcom: bool,
)
    requires
        is_flush_plan_for(plan, pixels, dirty, vcom),
    ensures
        flush_plan_stream(plan) == flush_stream(pixels, dirty, vcom),
{
    lemma_frames_stream_match(plan.frames@, pixels, dirty_row_list(dirty));
}

/// Build a transaction's leading byte from its command code and the
/// current reference-voltage state.
pub fn command_for(code: u8, vcom: bool) -> (r: u8)
    ensures
        r == command_byte(code, vcom),
{
    code | (if vcom {
        0x40u8
    } else {
        0x00u8
    })
}

/// Pixel `i` of a row, off when `i` is past the row's end.
fn read_bit(row: &Vec<bool>, i: usize) -> (r: bool)
    ensures
        r == row_bit(row@, i as int),
{
    if i < row.len() {
        row[i]
    } else {
        false
    }
}

/// Encode one row as its wire frame.
pub fn encode_line(row: &Vec<bool>, y: usize) -> (frame: Vec<u8>)
    requires
        y < 255,
        row@.len() <= 0xFFFF,
    ensures
        frame@ == line_frame(row@, y as int),
{
    let mut frame: Vec<u8> = Vec::new();
    frame.push(MemoryDisplay::swap((y + 1) as u8));
    let nbytes: usize = (row.len() + 7) / 8;
    let mut k: usize = 0;
    while k < nbytes
        invariant
            row@.len() <= 0xFFFF,
            y < 255,
            nbytes == (row@.len() + 7) / 8,
            k <= nbytes,
            frame@ == seq![rev8((y + 1) as u8)] + payload_bytes(row@).take(k as int),
        decreases nbytes - k,
    {
        let base: usize = 8 * k;
        let b0 = read_bit(row, base);
        let b1 = read_bit(row, base + 1);
        let b2 = read_bit(row, base + 2);
        let b3 = read_bit(row, base + 3);
        let b4 = read_bit(row, base + 4);
        let b5 = read_bit(row, base + 5);
        let b6 = read_bit(row, base + 6);
        let b7 = read_bit(row, base + 7);
        let logical: u8 = (if b0 {
            0x01u8
        } else {
            0u8
        }) | (if b1 {
            0x02u8
        } else {
            0u8
        }) | (if b2 {
            0x04u8
        } else {
            0u8
        }) | (if b3 {
            0x08u8
        } else {
            0u8
        }) | (if b4 {
            0x10u8
        } else {
            0u8
        }) | (if b5 {
            0x20u8
        } else {
            0u8
        }) | (if b6 {
            0x40u8
        } else {
            0u8
        }) | (if b7 {
            0x80u8
        } else {
            0u8
        });
        assert(logical == logical_byte(row@, k as int));
        frame.push(MemoryDisplay::swap(logical));
        proof {
            assert(payload_bytes(row@).take(k + 1) =~= payload_bytes(row@).take(k as int)
                + seq![rev8(logical_byte(row@, k as int))]);
            assert(frame@ =~= seq![rev8((y + 1) as u8)] + payload_bytes(row@).take(k + 1));
        }
        k = k + 1;
    }
    proof {
        assert(payload_bytes(row@).take(nbytes as int) =~= payload_bytes(row@));
    }
    frame.push(FILLER);
    proof {
        assert(frame@ =~= line_frame(row@, y as int));
    }
    frame
}

impl FlushPlan {
    /// The transaction as one flat byte sequence, for callers that hand
    /// the whole transmission to the bus in a single write.
    pub fn to_bytes(&self) -> (out: Vec<u8>)
        ensures
            out@ == flush_plan_stream(*self),
    {
        let mut out: Vec<u8> = Vec::new();
        out.push(self.command);
        let mut i: usize = 0;
        while i < self.frames.len()
            invariant
                i <= self.frames@.len(),
                out@ == seq![self.command] + frames_stream(self.frames@.take(i as int)),
            decreases self.frames@.len() - i,
        {
            let bytes = &self.frames[i].bytes;
            let mut j: usize = 0;
            while j < bytes.len()
                invariant
                    j <= bytes@.len(),
                    bytes@ == self.frames@[i as int].bytes@,
                    i < self.frames@.len(),
                    out@ == seq![self.command] + frames_stream(self.frames@.take(i as int))
                        + bytes@.take(j as int),
                decreases bytes@.len() - j,
            {
                out.push(bytes[j]);
                proof {
                    assert(bytes@.take(j + 1) =~= bytes@.take(j as int) + seq![bytes@[j as int]]);
                    assert(out@ =~= seq![self.command] + frames_stream(
                        self.frames@.take(i as int),
                    ) + bytes@.take(j + 1));
                }
                j = j + 1;
            }
            proof {
                let frames = self.frames@;
                assert(bytes@.take(bytes@.len() as int) =~= bytes@);
                assert(frames.take(i + 1).drop_last() =~= frames.take(i as int));
                assert(frames.take(i + 1).last() == frames[i as int]);
                assert(frames_stream(frames.take(i + 1)) == frames_stream(frames.take(i as int))
                    + frames[i as int].bytes@);
                assert(out@ =~= seq![self.command] + frames_stream(frames.take(i + 1)));
            }
            i = i + 1;
        }
        proof {
            assert(self.frames@.take(self.frames@.len() as int) =~= self.frames@);
        }
        out.push(self.trailer);
        proof {
            assert(out@ =~= flush_plan_stream(*self));
        }
        out
    }
}

} // verus!
