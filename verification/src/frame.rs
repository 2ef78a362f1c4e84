//! Frame buffers: the bytes of one frame, owned, with pixels set in place.
//!
//! [`HeapData`] takes the length of its chain when it is made and keeps its
//! bytes on the heap. [`Data`] has the length in its type and keeps its bytes
//! in itself. Both hold the same frame for the same pixels.

use crate::bytes::bytes_of_array;
use crate::layout::{
    all_cells, cell_offset, cells_of, fresh_cells, lemma_cells_of_wire, lemma_fresh_wire,
    lemma_set_cell_is_local, wire, wire_len, with_cell_at, CELL_LEN, LEDS_PER_PADDING_BYTE,
    MARKER_LEN,
};
use crate::pixel::Pixel;
use vstd::prelude::*;

verus! {

/// The number of bytes in the frame of a chain of `length` LEDs.
pub fn frame_len(length: usize) -> (total: usize)
    requires
        wire_len(length as nat) <= usize::MAX,
    ensures
        total == wire_len(length as nat),
{
    MARKER_LEN + length * CELL_LEN + MARKER_LEN + (length + (LEDS_PER_PADDING_BYTE - 1))
        / LEDS_PER_PADDING_BYTE + 1
}

/// The number of bytes in the frame of a chain of `length` LEDs, where the
/// machine can count that far.
pub fn checked_frame_len(length: usize) -> (total: Option<usize>)
    ensures
        total is Some <==> wire_len(length as nat) <= usize::MAX,
        total is Some ==> total->Some_0 == wire_len(length as nat),
{
    let rounded_up: usize = if length % LEDS_PER_PADDING_BYTE == 0 {
        0
    } else {
        1
    };
    let padding: usize = length / LEDS_PER_PADDING_BYTE + rounded_up + 1;
    match length.checked_mul(CELL_LEN) {
        Some(cells) => match cells.checked_add(2 * MARKER_LEN) {
            Some(fixed) => fixed.checked_add(padding),
            None => None,
        },
        None => None,
    }
}

/// Copies the four bytes of `cell` over the cell of LED `idx` in `frame`.
fn write_cell(frame: &mut [u8], idx: usize, cell: &[u8])
    requires
        cell@.len() == 4,
        cell_offset(idx as int) + 4 <= old(frame)@.len() <= usize::MAX,
    ensures
        final(frame)@ == with_cell_at(old(frame)@, cell_offset(idx as int), cell@),
{
    let offset: usize = MARKER_LEN + idx * CELL_LEN;
    let mut k: usize = 0;
    while k < CELL_LEN
        invariant
            k <= 4,
            cell@.len() == 4,
            offset == cell_offset(idx as int),
            offset + 4 <= frame@.len(),
            frame@.len() == old(frame)@.len(),
            forall|j: int|
                0 <= j < frame@.len() ==> frame@[j] == if offset <= j < offset + k {
                    cell@[j - offset]
                } else {
                    old(frame)@[j]
                },
        decreases 4 - k,
    {
        frame[offset + k] = cell[k];
        k += 1;
    }
    assert(frame@ =~= with_cell_at(old(frame)@, cell_offset(idx as int), cell@));
}

/// Writing a cell into a frame's bytes gives the frame of the cells with
/// that one replaced.
proof fn lemma_written(bytes: Seq<u8>, cells: Seq<Seq<u8>>, i: int, cell: Seq<u8>)
    requires
        bytes == wire(cells),
        all_cells(cells),
        0 <= i < cells.len(),
        cell.len() == 4,
    ensures
        with_cell_at(bytes, cell_offset(i), cell) == wire(cells.update(i, cell)),
        cells_of(with_cell_at(bytes, cell_offset(i), cell), cells.len()) == cells.update(i, cell),
{
    lemma_set_cell_is_local(cells, i, cell);
    let after = cells.update(i, cell);
    assert forall|j: int| 0 <= j < after.len() implies (#[trigger] after[j]).len() == 4 by {
        if j != i {
            assert(crate::pixel::is_cell(cells[j]));
        }
    }
    lemma_cells_of_wire(after);
}

/// A frame buffer on the heap, for a chain whose length is known only when
/// the program runs.
pub struct HeapData {
    length: usize,
    data: Vec<u8>,
}

impl View for HeapData {
    type V = Seq<Seq<u8>>;

    /// The cells of the chain, the first LED's first.
    closed spec fn view(&self) -> Seq<Seq<u8>> {
        cells_of(self.data@, self.length as nat)
    }
}

impl HeapData {
    /// The bytes that go on the wire.
    pub closed spec fn bytes(&self) -> Seq<u8> {
        self.data@
    }

    /// The buffer holds one cell for each LED, each with its marker bits, and
    /// its bytes are the frame of those cells.
    pub open spec fn wf(&self) -> bool {
        &&& all_cells(self@)
        &&& self.bytes() == wire(self@)
    }

    /// A frame for `length` LEDs, every pixel black at the default
    /// brightness.
    pub fn new(length: usize) -> (frame: HeapData)
        requires
            wire_len(length as nat) <= isize::MAX,
        ensures
            frame.wf(),
            frame@ == fresh_cells(length as nat),
            frame.bytes().len() == wire_len(length as nat),
    {
        let total = frame_len(length);
        let mut payload: Vec<u8> = vec![0u8; total];
        let default = Pixel::default();
        let cell = default.as_bytes();
        let mut i: usize = 0;
        while i < length
            invariant
                i <= length,
                wire_len(length as nat) <= isize::MAX,
                payload@.len() == wire_len(length as nat),
                cell@ == crate::pixel::default_cell(),
                forall|k: int|
                    0 <= k < payload@.len() ==> payload@[k] == if 4 <= k < 4 + 4 * i {
                        cell@[(k - 4) % 4]
                    } else {
                        0
                    },
            decreases length - i,
        {
            let ghost before = payload@;
            write_cell(payload.as_mut_slice(), i, cell);
            assert forall|k: int| 0 <= k < payload@.len() implies payload@[k] == if 4 <= k < 4 + 4
                * (i + 1) {
                cell@[(k - 4) % 4]
            } else {
                0
            } by {
                if cell_offset(i as int) <= k < cell_offset(i as int) + 4 {
                    assert((k - 4) % 4 == k - cell_offset(i as int));
                }
            }
            i += 1;
        }
        let frame = HeapData { length, data: payload };
        proof {
            let cells = fresh_cells(length as nat);
            assert forall|k: int| 0 <= k < wire_len(length as nat) implies frame.data@[k] == wire(
                cells,
            )[k] by {
                lemma_fresh_wire(length as nat, k);
            }
            assert(frame.data@ =~= wire(cells));
            lemma_fresh_wire(length as nat, 0);
            assert forall|i: int| 0 <= i < cells.len() implies (#[trigger] cells[i]).len()
                == 4 by {}
            lemma_cells_of_wire(cells);
        }
        frame
    }

    /// The bytes that go on the wire, from the start marker to the last
    /// trailing byte.
    pub fn data(&self) -> (bytes: &[u8])
        ensures
            bytes@ == self.bytes(),
    {
        self.data.as_slice()
    }

    /// Puts `pixel` on LED `idx`. The four bytes of that LED's cell take the
    /// pixel's bytes; no other byte of the frame changes.
    pub fn set_pixel(&mut self, idx: usize, pixel: Pixel)
        requires
            old(self).wf(),
            pixel.wf(),
            idx < old(self)@.len(),
        ensures
            final(self).wf(),
            final(self)@ == old(self)@.update(idx as int, pixel@),
            final(self).bytes() == with_cell_at(
                old(self).bytes(),
                cell_offset(idx as int),
                pixel@,
            ),
    {
        proof {
            lemma_written(self.data@, self@, idx as int, pixel@);
            vstd::std_specs::vec::axiom_spec_len(&self.data);
        }
        write_cell(self.data.as_mut_slice(), idx, pixel.as_bytes());
    }

    /// The number of LEDs in the chain.
    pub fn length(&self) -> (length: usize)
        ensures
            length == self@.len(),
    {
        self.length
    }
}

/// A frame buffer that keeps its bytes in itself, for a chain whose length is
/// known when the program is built: `N` LEDs in `LEN` bytes. `LEN` has to be
/// the length of the frame of `N` LEDs.
#[derive(Clone, Copy)]
pub struct Data<const N: usize, const LEN: usize> {
    bytes: [u8; LEN],
}

impl<const N: usize, const LEN: usize> View for Data<N, LEN> {
    type V = Seq<Seq<u8>>;

    /// The cells of the chain, the first LED's first.
    closed spec fn view(&self) -> Seq<Seq<u8>> {
        cells_of(self.bytes@, N as nat)
    }
}

impl<const N: usize, const LEN: usize> Data<N, LEN> {
    /// The bytes that go on the wire.
    pub closed spec fn bytes(&self) -> Seq<u8> {
        self.bytes@
    }

    /// The buffer holds one cell for each LED, each with its marker bits, and
    /// its bytes are the frame of those cells.
    pub open spec fn wf(&self) -> bool {
        &&& all_cells(self@)
        &&& self.bytes() == wire(self@)
    }

    /// A frame for `N` LEDs, every pixel black at the default brightness.
    pub fn new() -> (frame: Self)
        requires
            LEN == wire_len(N as nat),
        ensures
            frame.wf(),
            frame@ == fresh_cells(N as nat),
            frame.bytes().len() == wire_len(N as nat),
    {
        let mut bytes: [u8; LEN] = [0u8; LEN];
        let default = Pixel::default();
        let cell = default.as_bytes();
        let mut i: usize = 0;
        while i < N
            invariant
                i <= N,
                LEN == wire_len(N as nat),
                cell@ == crate::pixel::default_cell(),
                forall|k: int|
                    0 <= k < LEN ==> bytes@[k] == if 4 <= k < 4 + 4 * i {
                        cell@[(k - 4) % 4]
                    } else {
                        0
                    },
            decreases N - i,
        {
            write_cell(&mut bytes, i, cell);
            assert forall|k: int| 0 <= k < LEN implies bytes@[k] == if 4 <= k < 4 + 4 * (i + 1) {
                cell@[(k - 4) % 4]
            } else {
                0
            } by {
                if cell_offset(i as int) <= k < cell_offset(i as int) + 4 {
                    assert((k - 4) % 4 == k - cell_offset(i as int));
                }
            }
            i += 1;
        }
        let frame = Data { bytes };
        proof {
            let cells = fresh_cells(N as nat);
            assert forall|k: int| 0 <= k < wire_len(N as nat) implies frame.bytes@[k] == wire(
                cells,
            )[k] by {
                lemma_fresh_wire(N as nat, k);
            }
            assert(frame.bytes@ =~= wire(cells));
            lemma_fresh_wire(N as nat, 0);
            assert forall|i: int| 0 <= i < cells.len() implies (#[trigger] cells[i]).len()
                == 4 by {}
            lemma_cells_of_wire(cells);
        }
        frame
    }

    /// The bytes that go on the wire, from the start marker to the last
    /// trailing byte.
    pub fn as_bytes(&self) -> (bytes: &[u8])
        ensures
            bytes@ == self.bytes(),
    {
        bytes_of_array(&self.bytes)
    }

    /// Puts `pixel` on LED `idx`. The four bytes of that LED's cell take the
    /// pixel's bytes; no other byte of the frame changes.
    pub fn set_pixel(&mut self, idx: usize, pixel: Pixel)
        requires
            old(self).wf(),
            pixel.wf(),
            idx < old(self)@.len(),
        ensures
            final(self).wf(),
            final(self)@ == old(self)@.update(idx as int, pixel@),
            final(self).bytes() == with_cell_at(
                old(self).bytes(),
                cell_offset(idx as int),
                pixel@,
            ),
    {
        proof {
            lemma_written(self.bytes@, self@, idx as int, pixel@);
        }
        write_cell(&mut self.bytes, idx, pixel.as_bytes());
    }

    /// The number of LEDs in the chain.
    pub fn length(&self) -> (length: usize)
        ensures
            length == self@.len(),
    {
        N
    }
}

/// A buffer on the heap and a buffer of fixed size that hold the same pixels
/// hold the same bytes.
pub proof fn lemma_same_pixels_same_bytes<const N: usize, const LEN: usize>(
    heap: HeapData,
    fixed: Data<N, LEN>,
)
    requires
        heap.wf(),
        fixed.wf(),
        heap@ == fixed@,
    ensures
        heap.bytes() == fixed.bytes(),
{
}

} // verus!
