//! Driver-wide laws, stated and proved against the same specifications the
//! methods' contracts use.

use vstd::prelude::*;

use crate::display::write_pixel;
use crate::encoder::command_byte;
use crate::encoder::is_flush_plan_for;
use crate::encoder::line_frame;
use crate::encoder::FlushPlan;
use crate::encoder::CMD_CLEAR_MEMORY;
use crate::encoder::CMD_NOP;
use crate::encoder::CMD_WRITE_LINE;
use crate::rows::dirty_row_list;
use crate::rows::lemma_dirty_row_list_contains;
use crate::rows::lemma_dirty_row_list_full;
use crate::rows::lemma_dirty_row_list_sorted;

verus! {

/// Writing a pixel and reading it back yields the written value, and no
/// other pixel of the mirror changes.
pub proof fn lemma_write_then_read(pixels: Seq<Seq<bool>>, x: int, y: int, v: bool)
    requires
        0 <= y < pixels.len(),
        0 <= x < pixels[y].len(),
    ensures
        write_pixel(pixels, x, y, v)[y][x] == v,
        forall|y2: int, x2: int|
            0 <= y2 < pixels.len() && 0 <= x2 < pixels[y2].len() && (y2 != y || x2 != x)
                ==> #[trigger] write_pixel(pixels, x, y, v)[y2][x2] == pixels[y2][x2],
{
}

/// Writes are last-write-wins: writing the same pixel twice leaves exactly
/// the state of the second write, so the single frame a later flush encodes
/// for the row reflects only the latest value of every pixel.
pub proof fn lemma_last_write_wins(pixels: Seq<Seq<bool>>, x: int, y: int, v1: bool, v2: bool)
    requires
        0 <= y < pixels.len(),
        0 <= x < pixels[y].len(),
    ensures
        write_pixel(write_pixel(pixels, x, y, v1), x, y, v2) == write_pixel(pixels, x, y, v2),
{
    let a = write_pixel(write_pixel(pixels, x, y, v1), x, y, v2);
    let b = write_pixel(pixels, x, y, v2);
    assert(a[y] =~= b[y]);
    assert(a =~= b);
}

/// A flush transaction holds exactly one frame for each dirty row — no row
/// twice, no clean row — and that frame encodes the row's pixels as they
/// stand at flush time.
pub proof fn lemma_one_frame_per_dirty_row(
    plan: FlushPlan,
    pixels: Seq<Seq<bool>>,
    dirty: Seq<bool>,
    vcom: bool,
    y: int,
)
    requires
        is_flush_plan_for(plan, pixels, dirty, vcom),
        0 <= y < dirty.len(),
        dirty[y],
    ensures
        exists|i: int|
            0 <= i < plan.frames@.len() && (#[trigger] plan.frames@[i]).row as int == y
                && plan.frames@[i].bytes@ == line_frame(pixels[y], y),
        forall|i: int, j: int|
            0 <= i < j < plan.frames@.len() ==> (#[trigger] plan.frames@[i]).row
                != (#[trigger] plan.frames@[j]).row,
{
    let list = dirty_row_list(dirty);
    lemma_dirty_row_list_contains(dirty, y);
    let i = choose|i: int| 0 <= i < list.len() && list[i] == y;
    assert(plan.frames@[i].row as int == y && plan.frames@[i].bytes@ == line_frame(pixels[y], y));
    lemma_dirty_row_list_sorted(dirty);
    assert forall|i: int, j: int| 0 <= i < j < plan.frames@.len() implies (
    #[trigger] plan.frames@[i]).row != (#[trigger] plan.frames@[j]).row by {
        assert(plan.frames@[i].row as int == list[i]);
        assert(plan.frames@[j].row as int == list[j]);
        assert(list[i] < list[j]);
    }
}

/// After a clear every row is dirty, so the next flush encodes every row of
/// the panel — not only the rows that were dirty before the clear.
pub proof fn lemma_flush_after_clear_covers_all(
    plan: FlushPlan,
    pixels: Seq<Seq<bool>>,
    dirty: Seq<bool>,
    vcom: bool,
)
    requires
        is_flush_plan_for(plan, pixels, dirty, vcom),
        forall|y: int| 0 <= y < dirty.len() ==> dirty[y],
    ensures
        plan.frames@.len() == dirty.len(),
        forall|y: int|
            0 <= y < dirty.len() ==> (#[trigger] plan.frames@[y]).row as int == y
                && plan.frames@[y].bytes@ == line_frame(pixels[y], y),
{
    lemma_dirty_row_list_full(dirty);
    assert(forall|y: int| 0 <= y < dirty.len() ==> dirty_row_list(dirty)[y] == y);
}

/// The reference bit strictly alternates across transactions: whatever the
/// command code, the command bytes of two consecutive transaction-issuing
/// calls carry opposite reference bits, because every such call inverts the
/// stored bit and stamps the new value into its command byte.
pub proof fn lemma_reference_bit_alternates(code: u8, vcom: bool)
    requires
        code == CMD_NOP || code == CMD_CLEAR_MEMORY || code == CMD_WRITE_LINE,
    ensures
        (command_byte(code, vcom) & 0x40 == 0x40) <==> vcom,
        command_byte(code, !vcom) & 0x40 != command_byte(code, vcom) & 0x40,
{
    assert(((code | (if vcom {
        0x40u8
    } else {
        0x00u8
    })) & 0x40 == 0x40) == vcom) by (bit_vector)
        requires
            code == 0x00u8 || code == 0x20u8 || code == 0x80u8,
    ;
    assert(((code | (if !vcom {
        0x40u8
    } else {
        0x00u8
    })) & 0x40 == 0x40) == !vcom) by (bit_vector)
        requires
            code == 0x00u8 || code == 0x20u8 || code == 0x80u8,
    ;
}

} // verus!
