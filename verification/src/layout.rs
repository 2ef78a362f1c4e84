//! The layout of a frame: what a chain of cells looks like on the wire.
//!
//! A frame for `n` LEDs is four zero bytes, then the `n` cells in chain order,
//! then four zero bytes again, then one zero byte for every sixteen LEDs begun
//! and one more. The trailing bytes carry no data: each LED holds the signal
//! back a little, and their clock edges push the last cells through.

use crate::pixel::{default_cell, is_cell};
use vstd::prelude::*;

verus! {

/// The length of the start marker, and of the reset marker.
pub const MARKER_LEN: usize = 4;

/// The length of one cell.
pub const CELL_LEN: usize = 4;

/// How many LEDs one trailing byte serves.
pub const LEDS_PER_PADDING_BYTE: usize = 16;

/// The number of trailing bytes behind the reset marker of a chain of `n`.
pub open spec fn padding_len(n: nat) -> nat {
    (n + 15) / 16 + 1
}

/// The number of bytes in the frame of a chain of `n`.
pub open spec fn wire_len(n: nat) -> nat {
    4 + 4 * n + 4 + padding_len(n)
}

/// Where the cell of LED `i` begins.
pub open spec fn cell_offset(i: int) -> int {
    4 + 4 * i
}

/// Where the reset marker of a chain of `n` begins.
pub open spec fn reset_offset(n: nat) -> int {
    4 + 4 * (n as int)
}

/// Where the trailing bytes of a chain of `n` begin.
pub open spec fn padding_offset(n: nat) -> int {
    4 + 4 * (n as int) + 4
}

/// The byte at place `k` of the frame that holds `cells`.
pub open spec fn wire_byte(cells: Seq<Seq<u8>>, k: int) -> u8 {
    if 4 <= k < 4 + 4 * cells.len() {
        cells[(k - 4) / 4][(k - 4) % 4]
    } else {
        0
    }
}

/// The frame that holds `cells`, the first LED's cell first.
pub open spec fn wire(cells: Seq<Seq<u8>>) -> Seq<u8> {
    Seq::new(wire_len(cells.len()), |k: int| wire_byte(cells, k))
}

/// The cells that a frame of `n` LEDs holds.
pub open spec fn cells_of(bytes: Seq<u8>, n: nat) -> Seq<Seq<u8>> {
    Seq::new(n, |i: int| bytes.subrange(cell_offset(i), cell_offset(i) + 4))
}

/// Whether every one of `cells` is a cell that a chain accepts.
pub open spec fn all_cells(cells: Seq<Seq<u8>>) -> bool {
    forall|i: int| 0 <= i < cells.len() ==> is_cell(#[trigger] cells[i])
}

/// The cells of a chain of `n` on which no pixel was set yet.
pub open spec fn fresh_cells(n: nat) -> Seq<Seq<u8>> {
    Seq::new(n, |i: int| default_cell())
}

/// `bytes` with the four bytes from `at` on replaced by `cell`.
pub open spec fn with_cell_at(bytes: Seq<u8>, at: int, cell: Seq<u8>) -> Seq<u8> {
    Seq::new(
        bytes.len(),
        |k: int|
            if at <= k < at + 4 {
                cell[k - at]
            } else {
                bytes[k]
            },
    )
}

/// A frame has the length that its chain asks for. Its start marker, its
/// reset marker and its trailing bytes are zero, whatever the cells hold.
pub proof fn lemma_wire_frame(cells: Seq<Seq<u8>>)
    ensures
        wire(cells).len() == 4 + 4 * cells.len() + 4 + ((cells.len() + 15) / 16 + 1),
        forall|k: int| 0 <= k < 4 ==> wire(cells)[k] == 0,
        forall|k: int|
            reset_offset(cells.len()) <= k < reset_offset(cells.len()) + 4 ==> wire(cells)[k] == 0,
        forall|k: int|
            padding_offset(cells.len()) <= k < wire_len(cells.len()) ==> wire(cells)[k] == 0,
{
}

/// The cell of LED `i` stands in the frame at its offset, byte for byte.
pub proof fn lemma_wire_cell(cells: Seq<Seq<u8>>, i: int)
    requires
        0 <= i < cells.len(),
        cells[i].len() == 4,
    ensures
        cell_offset(i) + 4 <= wire(cells).len(),
        wire(cells).subrange(cell_offset(i), cell_offset(i) + 4) == cells[i],
{
    let at = cell_offset(i);
    assert forall|m: int| 0 <= m < 4 implies wire(cells)[at + m] == cells[i][m] by {
        assert((at + m - 4) / 4 == i);
        assert((at + m - 4) % 4 == m);
    }
    assert(wire(cells).subrange(at, at + 4) =~= cells[i]);
}

/// Reading the cells back out of a frame gives the cells it was made of.
pub proof fn lemma_cells_of_wire(cells: Seq<Seq<u8>>)
    requires
        forall|i: int| 0 <= i < cells.len() ==> (#[trigger] cells[i]).len() == 4,
    ensures
        cells_of(wire(cells), cells.len()) == cells,
{
    assert forall|i: int| 0 <= i < cells.len() implies cells_of(wire(cells), cells.len())[i]
        == cells[i] by {
        lemma_wire_cell(cells, i);
    }
    assert(cells_of(wire(cells), cells.len()) =~= cells);
}

/// Setting the cell of LED `i` changes the four bytes at its offset and no
/// other byte of the frame; the frame keeps its length.
pub proof fn lemma_set_cell_is_local(cells: Seq<Seq<u8>>, i: int, cell: Seq<u8>)
    requires
        0 <= i < cells.len(),
        cell.len() == 4,
    ensures
        wire(cells.update(i, cell)).len() == wire(cells).len(),
        wire(cells.update(i, cell)) == with_cell_at(wire(cells), cell_offset(i), cell),
        forall|k: int|
            0 <= k < wire(cells).len() && !(cell_offset(i) <= k < cell_offset(i) + 4)
                ==> wire(cells.update(i, cell))[k] == wire(cells)[k],
        forall|m: int| 0 <= m < 4 ==> wire(cells.update(i, cell))[cell_offset(i) + m] == cell[m],
{
    let after = cells.update(i, cell);
    let at = cell_offset(i);
    assert forall|k: int| 0 <= k < wire(cells).len() implies wire(after)[k] == with_cell_at(
        wire(cells),
        at,
        cell,
    )[k] by {
        if 4 <= k < 4 + 4 * cells.len() {
            let j = (k - 4) / 4;
            if at <= k < at + 4 {
                assert(j == i);
                assert((k - 4) % 4 == k - at);
            } else {
                assert(j != i);
            }
        }
    }
    assert(wire(after) =~= with_cell_at(wire(cells), at, cell));
}

/// Setting the same cell twice leaves the frame as setting it once does.
pub proof fn lemma_set_cell_is_idempotent(cells: Seq<Seq<u8>>, i: int, cell: Seq<u8>)
    requires
        0 <= i < cells.len(),
    ensures
        cells.update(i, cell).update(i, cell) == cells.update(i, cell),
        wire(cells.update(i, cell).update(i, cell)) == wire(cells.update(i, cell)),
{
    assert(cells.update(i, cell).update(i, cell) =~= cells.update(i, cell));
}

/// A frame in which nothing was set yet holds the default cell for every
/// LED, and zero everywhere else.
pub proof fn lemma_fresh_wire(n: nat, k: int)
    requires
        0 <= k < wire_len(n),
    ensures
        wire(fresh_cells(n))[k] == if 4 <= k < 4 + 4 * n {
            default_cell()[(k - 4) % 4]
        } else {
            0
        },
        all_cells(fresh_cells(n)),
{
    crate::pixel::lemma_encode_is_cell(0, 0, 0, crate::pixel::DEFAULT_BRIGHTNESS as int);
}

} // verus!
