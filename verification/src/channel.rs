//! The transfer engine: one channel, its registers and its progress.
//!
//! The engine runs beside the processor. In this model a status read is the
//! unit of time: an armed channel that still has work left reports "in
//! progress" and is one step further along afterwards.
//!
//! The channel also keeps, as ghost state, the order in which the processor
//! took its steps towards it: register writes, barriers and status reads.
//! Contracts use that record to say where the barriers stand.

use crate::fence::acquire;
use crate::fence::release;
use vstd::prelude::*;

verus! {

/// Address of the transmit data register of serial port #1.
pub const USART1_TX: usize = 0x4000_0000;

/// Address of the receive data register of serial port #1.
pub const USART1_RX: usize = 0x4000_0004;

/// One step of the processor towards the channel.
pub enum Step {
    /// The source address register was written.
    SetSource,
    /// The destination address register was written.
    SetDestination,
    /// The transfer length register was written.
    SetLength,
    /// A release barrier: every earlier memory access stays before it.
    Release,
    /// The channel was armed.
    Start,
    /// The channel was disarmed.
    Stop,
    /// The status was read, and said whether a transfer was in progress.
    Status { busy: bool },
    /// An acquire barrier: every later memory access stays after it.
    Acquire,
}

/// Tells whether the step at `index` stands where it may: a start directly
/// after a release barrier, an acquire barrier directly after a status read
/// that reported the channel idle, any other step anywhere.
pub open spec fn well_placed(trace: Seq<Step>, index: int) -> bool {
    match trace[index] {
        Step::Start => index > 0 && trace[index - 1] == Step::Release,
        Step::Acquire => index > 0 && trace[index - 1] == (Step::Status { busy: false }),
        _ => true,
    }
}

/// Tells whether a record keeps the barriers where they belong: every step
/// in it is well placed.
pub open spec fn disciplined(trace: Seq<Step>) -> bool {
    forall|index: int| 0 <= index < trace.len() ==> #[trigger] well_placed(trace, index)
}

/// The record of `n` status reads of which the last, and only the last,
/// reports the channel idle.
pub open spec fn reads_until_idle(n: nat) -> Seq<Step> {
    Seq::new(n, |i: int| Step::Status { busy: i + 1 < n })
}

/// The channel's registers and progress as plain values.
pub struct ChannelView {
    /// Where the engine reads from.
    pub source: usize,
    /// Whether the source address advances after each byte.
    pub source_inc: bool,
    /// Where the engine writes to.
    pub destination: usize,
    /// Whether the destination address advances after each byte.
    pub destination_inc: bool,
    /// Number of bytes of one transfer.
    pub length: usize,
    /// Status reads that observe a freshly started, non-empty transfer in flight.
    pub latency: usize,
    /// Status reads that will still observe the current transfer in flight.
    pub remaining: usize,
    /// Whether the channel is armed.
    pub enabled: bool,
    /// The steps taken since reset, oldest first.
    pub trace: Seq<Step>,
}

impl ChannelView {
    /// A channel after reset: every register zero, disarmed, nothing in flight.
    pub open spec fn reset(latency: usize) -> ChannelView {
        ChannelView {
            source: 0,
            source_inc: false,
            destination: 0,
            destination_inc: false,
            length: 0,
            latency,
            remaining: 0,
            enabled: false,
            trace: Seq::empty(),
        }
    }

    /// The engine is armed and has not finished.
    pub open spec fn busy(self) -> bool {
        self.enabled && self.remaining > 0
    }

    /// The engine is armed and has moved every byte.
    pub open spec fn finished(self) -> bool {
        self.enabled && self.remaining == 0
    }

    /// The channel after one more step was recorded.
    pub open spec fn recording(self, step: Step) -> ChannelView {
        ChannelView { trace: self.trace.push(step), ..self }
    }

    /// The channel after its source register was written.
    pub open spec fn with_source(self, address: usize, inc: bool) -> ChannelView {
        ChannelView { source: address, source_inc: inc, ..self }.recording(Step::SetSource)
    }

    /// The channel after its destination register was written.
    pub open spec fn with_destination(self, address: usize, inc: bool) -> ChannelView {
        ChannelView { destination: address, destination_inc: inc, ..self }.recording(
            Step::SetDestination,
        )
    }

    /// The channel after its length register was written.
    pub open spec fn with_length(self, len: usize) -> ChannelView {
        ChannelView { length: len, ..self }.recording(Step::SetLength)
    }

    /// The channel after a release barrier.
    pub open spec fn released(self) -> ChannelView {
        self.recording(Step::Release)
    }

    /// The channel after an acquire barrier.
    pub open spec fn acquired(self) -> ChannelView {
        self.recording(Step::Acquire)
    }

    /// Arming: an empty transfer is over at once, any other takes `latency` status reads.
    pub open spec fn started(self) -> ChannelView {
        ChannelView {
            enabled: true,
            remaining: if self.length == 0 { 0 } else { self.latency },
            ..self
        }.recording(Step::Start)
    }

    /// Disarming drops whatever was in flight.
    pub open spec fn stopped(self) -> ChannelView {
        ChannelView { enabled: false, remaining: 0, ..self }.recording(Step::Stop)
    }

    /// The channel after one status read: the read is recorded with what it
    /// reported, and an engine in flight is one step further along.
    pub open spec fn polled(self) -> ChannelView {
        if self.busy() {
            ChannelView { remaining: (self.remaining - 1) as usize, ..self }.recording(
                Step::Status { busy: true },
            )
        } else {
            self.recording(Step::Status { busy: false })
        }
    }

    /// The channel after `n` status reads.
    pub open spec fn after_polls(self, n: nat) -> ChannelView
        decreases n,
    {
        if n == 0 {
            self
        } else {
            self.polled().after_polls((n - 1) as nat)
        }
    }

    /// The record of the next `n` status reads: a read reports a transfer in
    /// progress while the channel is armed and has steps left.
    pub open spec fn status_reads(self, n: nat) -> Seq<Step> {
        Seq::new(n, |i: int| Step::Status { busy: self.enabled && i < self.remaining })
    }

    /// The number of status reads up to and including the first that reports
    /// the channel idle.
    pub open spec fn polls_to_idle(self) -> nat {
        if self.busy() {
            (self.remaining + 1) as nat
        } else {
            1
        }
    }

    /// The channel once it has been read until a status read reported it
    /// idle: whatever was in flight is finished, and exactly
    /// `polls_to_idle()` reads were made, of which only the last reported
    /// the channel idle.
    pub open spec fn drained(self) -> ChannelView {
        ChannelView {
            remaining: if self.enabled { 0 } else { self.remaining },
            trace: self.trace + reads_until_idle(self.polls_to_idle()),
            ..self
        }
    }

    /// The registers that one transfer programs, and the engine's progress:
    /// everything but the latency the channel was built with and the record
    /// of steps.
    pub open spec fn same_programming(self, other: ChannelView) -> bool {
        &&& self.source == other.source
        &&& self.source_inc == other.source_inc
        &&& self.destination == other.destination
        &&& self.destination_inc == other.destination_inc
        &&& self.length == other.length
        &&& self.remaining == other.remaining
        &&& self.enabled == other.enabled
    }
}

/// Exclusive access to channel 1 of the transfer engine.
///
/// Whoever holds the value holds the right to program the channel. The type
/// is neither `Clone` nor `Copy`, a board hands its channel out once, and
/// from then on the value is moved from owner to owner.
pub struct Dma1Channel1 {
    source: usize,
    source_inc: bool,
    destination: usize,
    destination_inc: bool,
    length: usize,
    latency: usize,
    remaining: usize,
    enabled: bool,
    trace: Ghost<Seq<Step>>,
}

impl View for Dma1Channel1 {
    type V = ChannelView;

    closed spec fn view(&self) -> ChannelView {
        ChannelView {
            source: self.source,
            source_inc: self.source_inc,
            destination: self.destination,
            destination_inc: self.destination_inc,
            length: self.length,
            latency: self.latency,
            remaining: self.remaining,
            enabled: self.enabled,
            trace: self.trace@,
        }
    }
}

impl Dma1Channel1 {
    /// The channel after reset. A started, non-empty transfer is observed in
    /// flight by the next `latency` status reads.
    pub(crate) fn new(latency: usize) -> (channel: Dma1Channel1)
        ensures
            channel@ == ChannelView::reset(latency),
    {
        Dma1Channel1 {
            source: 0,
            source_inc: false,
            destination: 0,
            destination_inc: false,
            length: 0,
            latency,
            remaining: 0,
            enabled: false,
            trace: Ghost(Seq::empty()),
        }
    }

    /// Data will be written to `address`; `inc` says whether the address
    /// advances after each byte.
    pub fn set_destination_address(&mut self, address: usize, inc: bool)
        ensures
            final(self)@ == old(self)@.with_destination(address, inc),
    {
        self.destination = address;
        self.destination_inc = inc;
        self.trace = Ghost(self.trace@.push(Step::SetDestination));
    }

    /// Data will be read from `address`; `inc` says whether the address
    /// advances after each byte.
    pub fn set_source_address(&mut self, address: usize, inc: bool)
        ensures
            final(self)@ == old(self)@.with_source(address, inc),
    {
        self.source = address;
        self.source_inc = inc;
        self.trace = Ghost(self.trace@.push(Step::SetSource));
    }

    /// Number of bytes to transfer.
    pub fn set_transfer_length(&mut self, len: usize)
        ensures
            final(self)@ == old(self)@.with_length(len),
    {
        self.length = len;
        self.trace = Ghost(self.trace@.push(Step::SetLength));
    }

    /// Starts the transfer that the registers describe.
    pub fn start(&mut self)
        ensures
            final(self)@ == old(self)@.started(),
    {
        self.enabled = true;
        self.remaining = if self.length == 0 { 0 } else { self.latency };
        self.trace = Ghost(self.trace@.push(Step::Start));
    }

    /// Stops the transfer: the channel is disarmed and whatever was in flight
    /// is dropped. Stopping a channel that is already stopped changes nothing.
    pub fn stop(&mut self)
        ensures
            final(self)@ == old(self)@.stopped(),
            !final(self)@.busy(),
    {
        self.enabled = false;
        self.remaining = 0;
        self.trace = Ghost(self.trace@.push(Step::Stop));
    }

    /// Reads the status: `true` while a transfer is in progress. The read
    /// leaves every register as it was; an engine in flight is one step
    /// further along afterwards.
    pub fn in_progress(&mut self) -> (busy: bool)
        ensures
            busy == old(self)@.busy(),
            final(self)@ == old(self)@.polled(),
    {
        let busy = self.enabled && self.remaining > 0;
        if busy {
            self.remaining = self.remaining - 1;
        }
        self.trace = Ghost(self.trace@.push(Step::Status { busy }));
        busy
    }

    /// Emits the barrier that belongs before `start`: what the processor
    /// wrote earlier cannot be moved past it.
    pub fn release_barrier(&mut self)
        ensures
            final(self)@ == old(self)@.released(),
    {
        release();
        self.trace = Ghost(self.trace@.push(Step::Release));
    }

    /// Emits the barrier that belongs after the end of a transfer was
    /// observed: what the processor reads or writes later cannot be moved
    /// ahead of it.
    pub fn acquire_barrier(&mut self)
        ensures
            final(self)@ == old(self)@.acquired(),
    {
        acquire();
        self.trace = Ghost(self.trace@.push(Step::Acquire));
    }

    /// The source address register.
    pub fn source_address(&self) -> (address: usize)
        ensures
            address == self@.source,
    {
        self.source
    }

    /// Whether the source address advances.
    pub fn source_increment(&self) -> (inc: bool)
        ensures
            inc == self@.source_inc,
    {
        self.source_inc
    }

    /// The destination address register.
    pub fn destination_address(&self) -> (address: usize)
        ensures
            address == self@.destination,
    {
        self.destination
    }

    /// Whether the destination address advances.
    pub fn destination_increment(&self) -> (inc: bool)
        ensures
            inc == self@.destination_inc,
    {
        self.destination_inc
    }

    /// The transfer length register.
    pub fn transfer_length(&self) -> (len: usize)
        ensures
            len == self@.length,
    {
        self.length
    }

    /// Whether the channel is armed. Unlike a status read this does not let
    /// the engine advance.
    pub fn is_enabled(&self) -> (enabled: bool)
        ensures
            enabled == self@.enabled,
    {
        self.enabled
    }

    /// Whether the channel is armed and its engine has moved every byte.
    /// Unlike a status read this does not let the engine advance.
    pub fn has_finished(&self) -> (finished: bool)
        ensures
            finished == self@.finished(),
    {
        self.enabled && self.remaining == 0
    }
}

/// One status read brings a channel in flight one step nearer to where the
/// reads until idle leave it, and takes any other channel there.
pub proof fn lemma_drained_step(channel: ChannelView)
    ensures
        channel.busy() ==> channel.polled().drained() == channel.drained(),
        !channel.busy() ==> channel.polled() == channel.drained(),
{
    if channel.busy() {
        let next = channel.polled();
        assert(next.polls_to_idle() + 1 == channel.polls_to_idle());
        assert(next.drained().trace =~= channel.drained().trace);
    } else {
        assert(channel.polled().trace =~= channel.drained().trace);
    }
}

} // verus!
