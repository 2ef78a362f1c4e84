//! The driver of one chain: its frame, and the order in which a frame goes
//! out.
//!
//! The bus takes a frame by reference and sends it in its own time, so a
//! flush has two halves: the frame is queued, then the caller waits until the
//! bus is done with it. The driver does not touch the bus. It says what to
//! do next, and the caller, who owns the bus, does it and reports back. While
//! a frame is out the driver starts no second one and lets no pixel change.

use crate::config::Config;
use crate::frame::HeapData;
use crate::layout::{all_cells, cell_offset, fresh_cells, wire, wire_len, with_cell_at};
use crate::pixel::Pixel;
use vstd::prelude::*;

verus! {

/// The number of ticks that makes the bus wait without end.
pub const WAIT_FOREVER: u32 = 0xffff_ffff;

/// Where a driver stands between two flushes.
#[derive(Clone, Copy, Debug, PartialEq, Eq, Structural)]
pub enum Phase {
    /// No frame is out. Pixels may be set and a flush may start.
    Ready,
    /// A flush has started and its frame is being queued on the bus.
    Submitting,
    /// The frame is queued and the bus has not yet said it is done.
    Awaiting,
}

/// What the caller reports to the driver.
#[derive(Clone, Copy, Debug, PartialEq, Eq, Structural)]
pub enum Event {
    /// The caller wants the frame shown.
    FlushRequested,
    /// The bus has taken the frame into its queue.
    Submitted,
    /// The bus has sent the frame.
    Completed,
}

/// One transfer on the bus: the whole frame, counted in bits.
#[derive(Clone, Copy, Debug, PartialEq, Eq, Structural)]
pub struct Transfer {
    /// The length of the frame in bits.
    pub length_bits: usize,
    /// How long to wait for room in the queue.
    pub ticks_to_wait: u32,
}

/// What the driver asks of the caller.
#[derive(Clone, Copy, Debug, PartialEq, Eq, Structural)]
pub enum Action {
    /// Queue the frame on the bus, then report [`Event::Submitted`].
    Submit(Transfer),
    /// Block until the bus has sent the frame, then report
    /// [`Event::Completed`].
    Await { ticks_to_wait: u32 },
    /// The frame is out. The flush is over.
    Done,
    /// The event does not fit where the driver stands. Nothing changed.
    Refused,
}

/// Where the driver goes from `phase` on `event`, and what it asks for, with
/// a frame of `frame_len` bytes.
pub open spec fn next(phase: Phase, event: Event, frame_len: nat) -> (Phase, Action) {
    match (phase, event) {
        (Phase::Ready, Event::FlushRequested) => (
            Phase::Submitting,
            Action::Submit(
                Transfer { length_bits: (8 * frame_len) as usize, ticks_to_wait: WAIT_FOREVER },
            ),
        ),
        (Phase::Submitting, Event::Submitted) => (
            Phase::Awaiting,
            Action::Await { ticks_to_wait: WAIT_FOREVER },
        ),
        (Phase::Awaiting, Event::Completed) => (Phase::Ready, Action::Done),
        _ => (phase, Action::Refused),
    }
}

/// A flush is over only when the bus has reported the frame sent, and only
/// to a driver that was waiting for that.
pub proof fn lemma_done_only_after_completion(phase: Phase, event: Event, frame_len: nat)
    ensures
        next(phase, event, frame_len).1 == Action::Done <==> phase == Phase::Awaiting && event
            == Event::Completed,
        phase != Phase::Ready && next(phase, event, frame_len).0 == Phase::Ready ==> event
            == Event::Completed,
{
}

/// While a frame is out, no second one is started.
pub proof fn lemma_one_frame_in_flight(phase: Phase, event: Event, frame_len: nat)
    ensures
        next(phase, event, frame_len).1 is Submit <==> phase == Phase::Ready && event
            == Event::FlushRequested,
        phase != Phase::Ready ==> next(phase, Event::FlushRequested, frame_len) == (
            phase,
            Action::Refused,
        ),
{
}

/// A flush runs from ready to ready in three steps: the frame is queued, the
/// caller waits, the flush is over.
pub proof fn lemma_flush_cycle(frame_len: nat)
    ensures
        next(Phase::Ready, Event::FlushRequested, frame_len).0 == Phase::Submitting,
        next(Phase::Ready, Event::FlushRequested, frame_len).1 is Submit,
        next(Phase::Submitting, Event::Submitted, frame_len) == (
            Phase::Awaiting,
            Action::Await { ticks_to_wait: WAIT_FOREVER },
        ),
        next(Phase::Awaiting, Event::Completed, frame_len) == (Phase::Ready, Action::Done),
{
}

/// The driver of one chain.
pub struct Apa {
    data: HeapData,
    phase: Phase,
}

impl View for Apa {
    type V = Seq<Seq<u8>>;

    /// The cells of the chain, the first LED's first.
    closed spec fn view(&self) -> Seq<Seq<u8>> {
        self.data@
    }
}

impl Apa {
    /// The bytes that go on the wire.
    pub closed spec fn bytes(&self) -> Seq<u8> {
        self.data.bytes()
    }

    /// Where the driver stands.
    pub closed spec fn phase(&self) -> Phase {
        self.phase
    }

    /// The driver holds one cell for each LED, each with its marker bits, its
    /// bytes are the frame of those cells, and the frame is short enough to
    /// be counted in bits.
    pub open spec fn wf(&self) -> bool {
        &&& all_cells(self@)
        &&& self.bytes() == wire(self@)
        &&& 8 * self.bytes().len() <= usize::MAX
    }

    /// A driver for a chain of `config.length` LEDs, every pixel black at the
    /// default brightness, with no frame out.
    pub fn new(config: Config) -> (apa: Apa)
        requires
            wire_len(config.length as nat) <= isize::MAX,
            8 * wire_len(config.length as nat) <= usize::MAX,
        ensures
            apa.wf(),
            apa@ == fresh_cells(config.length as nat),
            apa.phase() == Phase::Ready,
    {
        Apa { data: HeapData::new(config.length), phase: Phase::Ready }
    }

    /// The number of LEDs in the chain.
    pub fn length(&self) -> (length: usize)
        ensures
            length == self@.len(),
    {
        self.data.length()
    }

    /// The bytes that go on the wire. This is the buffer that a transfer
    /// reads.
    pub fn data(&self) -> (bytes: &[u8])
        ensures
            bytes@ == self.bytes(),
    {
        self.data.data()
    }

    /// Whether a flush may start and pixels may be set.
    pub fn is_ready(&self) -> (ready: bool)
        ensures
            ready == (self.phase() == Phase::Ready),
    {
        match self.phase {
            Phase::Ready => true,
            _ => false,
        }
    }

    /// Puts `pixel` on LED `idx`. Nothing goes to the bus. The frame must not
    /// be out: the bus reads it where it lies.
    pub fn set_pixel(&mut self, idx: usize, pixel: Pixel)
        requires
            old(self).wf(),
            old(self).phase() == Phase::Ready,
            pixel.wf(),
            idx < old(self)@.len(),
        ensures
            final(self).wf(),
            final(self).phase() == Phase::Ready,
            final(self)@ == old(self)@.update(idx as int, pixel@),
            final(self).bytes() == with_cell_at(
                old(self).bytes(),
                cell_offset(idx as int),
                pixel@,
            ),
    {
        self.data.set_pixel(idx, pixel);
    }

    /// Takes one report from the caller and says what to do next. The frame
    /// stays as it is.
    pub fn advance(&mut self, event: Event) -> (action: Action)
        requires
            old(self).wf(),
        ensures
            final(self).wf(),
            final(self)@ == old(self)@,
            final(self).bytes() == old(self).bytes(),
            (final(self).phase(), action) == next(
                old(self).phase(),
                event,
                old(self).bytes().len(),
            ),
    {
        match (self.phase, event) {
            (Phase::Ready, Event::FlushRequested) => {
                let length_bits: usize = 8 * self.data.data().len();
                self.phase = Phase::Submitting;
                Action::Submit(Transfer { length_bits, ticks_to_wait: WAIT_FOREVER })
            },
            (Phase::Submitting, Event::Submitted) => {
                self.phase = Phase::Awaiting;
                Action::Await { ticks_to_wait: WAIT_FOREVER }
            },
            (Phase::Awaiting, Event::Completed) => {
                self.phase = Phase::Ready;
                Action::Done
            },
            _ => Action::Refused,
        }
    }

    /// Starts showing the frame: asks for it to be queued on the bus, unless
    /// a frame is out already. The flush is over when [`Apa::advance`]
    /// answers [`Action::Done`].
    pub fn flush(&mut self) -> (action: Action)
        requires
            old(self).wf(),
        ensures
            final(self).wf(),
            final(self)@ == old(self)@,
            final(self).bytes() == old(self).bytes(),
            (final(self).phase(), action) == next(
                old(self).phase(),
                Event::FlushRequested,
                old(self).bytes().len(),
            ),
    {
        self.advance(Event::FlushRequested)
    }
}

} // verus!
