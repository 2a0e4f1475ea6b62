//! Serial port #1 and the transfers it starts.
//!
//! The port owns the channel. Starting a transfer moves the port and the
//! buffer into a [`Transfer`]; they come back when the transfer is retired,
//! by [`Transfer::wait`] or by [`Transfer::cancel`]. While the transfer
//! exists nothing else can reach either of them.

use crate::buffer::Pinned;
use crate::buffer::PinnedView;
use crate::channel::ChannelView;
use crate::channel::Dma1Channel1;
use crate::channel::disciplined;
use crate::channel::lemma_drained_step;
use crate::channel::USART1_RX;
use crate::channel::USART1_TX;
use crate::laws::lemma_retiring_keeps_discipline;
use crate::laws::lemma_start_keeps_discipline;
use vstd::prelude::*;

verus! {

/// What the byte-level operations of a port can fail with. The line of this
/// port never faults, so none of its operations returns an error.
#[derive(Debug)]
pub enum Error {
    /// The line reported a fault.
    Line,
}

/// The port as plain values.
pub struct SerialView {
    /// The channel that serves the port.
    pub dma: ChannelView,
    /// Bytes that have arrived on the line and were not read yet, oldest first.
    pub pending: Seq<u8>,
    /// Bytes put on the line so far, oldest first.
    pub sent: Seq<u8>,
}

impl SerialView {
    /// The byte that the read after `k` further reads yields. Once the
    /// pending bytes are used up the receiver reads as zero.
    pub open spec fn line_byte(self, k: int) -> u8 {
        if 0 <= k < self.pending.len() {
            self.pending[k]
        } else {
            0
        }
    }

    /// What the next `n` reads yield, in order.
    pub open spec fn incoming(self, n: nat) -> Seq<u8> {
        Seq::new(n, |k: int| self.line_byte(k))
    }

    /// The port after `n` bytes were read from the line.
    pub open spec fn after_receiving(self, n: nat) -> SerialView {
        SerialView {
            pending: if n <= self.pending.len() {
                self.pending.skip(n as int)
            } else {
                Seq::empty()
            },
            ..self
        }
    }

    /// The port after `bytes` were put on the line.
    pub open spec fn after_sending(self, bytes: Seq<u8>) -> SerialView {
        SerialView { sent: self.sent + bytes, ..self }
    }

    /// The same port with its channel in another state.
    pub open spec fn with_channel(self, dma: ChannelView) -> SerialView {
        SerialView { dma, ..self }
    }

    /// The transfer that `read_exact` starts: the channel reads the receive
    /// register and fills the buffer from its first byte on. The registers
    /// are written first, then comes the release barrier, then the start.
    pub open spec fn begin_receive(self, buffer: PinnedView) -> TransferView {
        TransferView {
            buffer,
            serial: self.with_channel(
                self.dma.with_source(USART1_RX, false).with_destination(
                    buffer.address,
                    true,
                ).with_length(buffer.bytes.len() as usize).released().started(),
            ),
            direction: Direction::Receive,
        }
    }

    /// The transfer that `write_all` starts: the channel reads the buffer
    /// from its first byte on and feeds the transmit register. The registers
    /// are written first, then comes the release barrier, then the start.
    pub open spec fn begin_transmit(self, buffer: PinnedView) -> TransferView {
        TransferView {
            buffer,
            serial: self.with_channel(
                self.dma.with_destination(USART1_TX, false).with_source(
                    buffer.address,
                    true,
                ).with_length(buffer.bytes.len() as usize).released().started(),
            ),
            direction: Direction::Transmit,
        }
    }
}

/// Serial port #1, together with the channel that serves it.
pub struct Serial1 {
    dma: Dma1Channel1,
    incoming: Vec<u8>,
    cursor: usize,
    sent: Vec<u8>,
}

impl View for Serial1 {
    type V = SerialView;

    closed spec fn view(&self) -> SerialView {
        SerialView {
            dma: self.dma@,
            pending: if self.cursor <= self.incoming@.len() {
                self.incoming@.skip(self.cursor as int)
            } else {
                Seq::empty()
            },
            sent: self.sent@,
        }
    }
}

impl Serial1 {
    /// A port served by `dma`, with `incoming` waiting in its receiver and
    /// nothing sent yet.
    pub fn new(dma: Dma1Channel1, incoming: Vec<u8>) -> (port: Serial1)
        ensures
            port@ == (SerialView { dma: dma@, pending: incoming@, sent: Seq::empty() }),
    {
        let port = Serial1 { dma, incoming, cursor: 0, sent: Vec::new() };
        assert(port@.pending =~= incoming@);
        port
    }

    fn next_byte(&mut self) -> (byte: u8)
        ensures
            byte == old(self)@.line_byte(0),
            final(self)@ == old(self)@.after_receiving(1),
    {
        if self.cursor < self.incoming.len() {
            let byte = self.incoming[self.cursor];
            self.cursor = self.cursor + 1;
            assert(self@.pending =~= old(self)@.pending.skip(1));
            byte
        } else {
            assert(self@.pending =~= Seq::<u8>::empty());
            0
        }
    }

    /// Reads one byte from the line.
    pub fn read(&mut self) -> (result: Result<u8, Error>)
        ensures
            result == Ok::<u8, Error>(old(self)@.line_byte(0)),
            final(self)@ == old(self)@.after_receiving(1),
    {
        Ok(self.next_byte())
    }

    /// Puts one byte on the line.
    pub fn write(&mut self, byte: u8) -> (result: Result<(), Error>)
        ensures
            result is Ok,
            final(self)@ == old(self)@.after_sending(seq![byte]),
    {
        self.sent.push(byte);
        assert(self@.sent =~= old(self)@.sent + seq![byte]);
        Ok(())
    }

    /// The channel that serves the port, for inspection.
    pub fn channel(&self) -> (dma: &Dma1Channel1)
        ensures
            dma@ == self@.dma,
    {
        &self.dma
    }

    /// The bytes put on the line so far.
    pub fn sent(&self) -> (bytes: &[u8])
        ensures
            bytes@ == self@.sent,
    {
        self.sent.as_slice()
    }

    /// Number of bytes waiting in the receiver.
    pub fn pending(&self) -> (count: usize)
        ensures
            count == self@.pending.len(),
    {
        if self.cursor <= self.incoming.len() {
            self.incoming.len() - self.cursor
        } else {
            0
        }
    }

    /// Gives up the port and hands its channel back.
    pub fn release(self) -> (dma: Dma1Channel1)
        ensures
            dma@ == self@.dma,
    {
        self.dma
    }

    /// Lets the line deliver the next `buffer.len()` bytes into `buffer`.
    fn receive_into(&mut self, buffer: &mut Pinned)
        ensures
            final(buffer)@ == old(buffer)@.holding(
                old(self)@.incoming(old(buffer)@.bytes.len()),
            ),
            final(self)@ == old(self)@.after_receiving(old(buffer)@.bytes.len()),
    {
        let len = buffer.len();
        let mut index: usize = 0;
        assert(self@.pending =~= old(self)@.pending.skip(0));
        while index < len
            invariant
                index <= len,
                len == old(buffer)@.bytes.len(),
                buffer@.address == old(buffer)@.address,
                buffer@.bytes.len() == len,
                forall|k: int| 0 <= k < index ==> buffer@.bytes[k] == old(self)@.line_byte(k),
                self@ == old(self)@.after_receiving(index as nat),
            decreases len - index,
        {
            let ghost before = self@;
            let byte = self.next_byte();
            buffer.set(index, byte);
            proof {
                assert(byte == old(self)@.line_byte(index as int));
                assert(before.after_receiving(1).pending =~= old(self)@.after_receiving(
                    (index + 1) as nat,
                ).pending);
            }
            index = index + 1;
        }
        assert(buffer@.bytes =~= old(self)@.incoming(len as nat));
    }

    /// Puts every byte of `buffer` on the line.
    fn transmit_from(&mut self, buffer: &Pinned)
        ensures
            final(self)@ == old(self)@.after_sending(buffer@.bytes),
    {
        let bytes = buffer.as_slice();
        let mut index: usize = 0;
        assert(self@.sent =~= old(self)@.sent + bytes@.take(0));
        while index < bytes.len()
            invariant
                index <= bytes@.len(),
                bytes@ == buffer@.bytes,
                self@ == old(self)@.after_sending(bytes@.take(index as int)),
            decreases bytes@.len() - index,
        {
            self.sent.push(bytes[index]);
            assert(self@.sent =~= old(self)@.sent + bytes@.take(index + 1));
            index = index + 1;
        }
        assert(bytes@.take(index as int) =~= bytes@);
    }
}

/// Which way a transfer moves its bytes.
#[derive(Clone, Copy, Debug, PartialEq, Eq)]
pub enum Direction {
    /// From the line into the buffer.
    Receive,
    /// From the buffer onto the line.
    Transmit,
}

/// A transfer as plain values.
pub struct TransferView {
    /// The buffer the engine works on.
    pub buffer: PinnedView,
    /// The port, with the channel that runs the transfer.
    pub serial: SerialView,
    /// Which way the bytes move.
    pub direction: Direction,
}

impl TransferView {
    /// The engine is still moving bytes.
    pub open spec fn busy(self) -> bool {
        self.serial.dma.busy()
    }

    /// The same transfer with its channel in another state.
    pub open spec fn with_channel(self, dma: ChannelView) -> TransferView {
        TransferView { serial: self.serial.with_channel(dma), ..self }
    }

    /// The transfer after one status read.
    pub open spec fn polled(self) -> TransferView {
        self.with_channel(self.serial.dma.polled())
    }

    /// The channel is armed and programmed for this buffer in this direction.
    pub open spec fn armed(self) -> bool {
        let dma = self.serial.dma;
        &&& dma.enabled
        &&& dma.length == self.buffer.bytes.len()
        &&& match self.direction {
            Direction::Receive => {
                &&& dma.source == USART1_RX
                &&& !dma.source_inc
                &&& dma.destination == self.buffer.address
                &&& dma.destination_inc
            },
            Direction::Transmit => {
                &&& dma.destination == USART1_TX
                &&& !dma.destination_inc
                &&& dma.source == self.buffer.address
                &&& dma.source_inc
            },
        }
    }

    /// Buffer and port once the engine has moved every byte: a receiving
    /// transfer has filled the buffer from the line, a transmitting one has
    /// put the buffer's bytes on the line and left the buffer as it was.
    pub open spec fn moved(self) -> (PinnedView, SerialView) {
        match self.direction {
            Direction::Receive => (
                self.buffer.holding(self.serial.incoming(self.buffer.bytes.len())),
                self.serial.after_receiving(self.buffer.bytes.len()),
            ),
            Direction::Transmit => (self.buffer, self.serial.after_sending(self.buffer.bytes)),
        }
    }

    /// What `wait` hands back: the channel was read until it reported idle,
    /// the acquire barrier followed, and every byte has moved.
    pub open spec fn completed(self) -> (PinnedView, SerialView) {
        self.with_channel(self.serial.dma.drained().acquired()).moved()
    }

    /// What `cancel` hands back: the channel was stopped and read once more,
    /// and the acquire barrier followed. The bytes have moved if the engine
    /// had finished before, and none has moved otherwise.
    pub open spec fn cancelled(self) -> (PinnedView, SerialView) {
        let halted = self.with_channel(self.serial.dma.stopped().polled().acquired());
        if self.serial.dma.finished() {
            halted.moved()
        } else {
            (halted.buffer, halted.serial)
        }
    }
}

/// One transfer, in flight or finished. It owns the buffer and the port until
/// it is retired, and only retiring it gives them back: `wait` for the end,
/// or `cancel`, which stops the channel first. The value must be used; one
/// that is merely let go takes buffer, port and channel with it, so nothing
/// is left that the engine could still reach.
#[must_use]
pub struct Transfer {
    buffer: Pinned,
    serial: Serial1,
    direction: Direction,
}

impl View for Transfer {
    type V = TransferView;

    closed spec fn view(&self) -> TransferView {
        TransferView { buffer: self.buffer@, serial: self.serial@, direction: self.direction }
    }
}

impl Serial1 {
    /// Starts receiving until `buffer` is filled, and returns at once with
    /// the transfer in flight. The release barrier stands between the
    /// register writes and the start.
    pub fn read_exact(self, buffer: Pinned) -> (transfer: Transfer)
        ensures
            transfer@ == self@.begin_receive(buffer@),
            transfer@.armed(),
            disciplined(self@.dma.trace) ==> disciplined(transfer@.serial.dma.trace),
    {
        proof {
            if disciplined(self@.dma.trace) {
                lemma_start_keeps_discipline(self@, buffer@);
            }
        }
        let mut port = self;
        port.dma.set_source_address(USART1_RX, false);
        port.dma.set_destination_address(buffer.address(), true);
        port.dma.set_transfer_length(buffer.len());
        port.dma.release_barrier();
        port.dma.start();
        Transfer { buffer, serial: port, direction: Direction::Receive }
    }

    /// Starts sending the bytes of `buffer`, and returns at once with the
    /// transfer in flight. The release barrier stands between the register
    /// writes and the start.
    pub fn write_all(self, buffer: Pinned) -> (transfer: Transfer)
        ensures
            transfer@ == self@.begin_transmit(buffer@),
            transfer@.armed(),
            disciplined(self@.dma.trace) ==> disciplined(transfer@.serial.dma.trace),
    {
        proof {
            if disciplined(self@.dma.trace) {
                lemma_start_keeps_discipline(self@, buffer@);
            }
        }
        let mut port = self;
        port.dma.set_destination_address(USART1_TX, false);
        port.dma.set_source_address(buffer.address(), true);
        port.dma.set_transfer_length(buffer.len());
        port.dma.release_barrier();
        port.dma.start();
        Transfer { buffer, serial: port, direction: Direction::Transmit }
    }
}

impl Transfer {
    /// Reads the channel's status once: `true` when the transfer has
    /// finished. The read changes no register.
    pub fn is_done(&mut self) -> (done: bool)
        ensures
            done == !old(self)@.busy(),
            final(self)@ == old(self)@.polled(),
            final(self)@.armed() == old(self)@.armed(),
            disciplined(old(self)@.serial.dma.trace) ==> disciplined(final(self)@.serial.dma.trace),
    {
        proof {
            if disciplined(self@.serial.dma.trace) {
                lemma_retiring_keeps_discipline(self@);
            }
        }
        !self.serial.dma.in_progress()
    }

    /// Which way the transfer moves its bytes.
    pub fn direction(&self) -> (direction: Direction)
        ensures
            direction == self@.direction,
    {
        self.direction
    }

    /// Lets the moved bytes show in buffer and port.
    fn settle(self) -> (parts: (Pinned, Serial1))
        ensures
            (parts.0@, parts.1@) == self@.moved(),
    {
        let mut buffer = self.buffer;
        let mut serial = self.serial;
        match self.direction {
            Direction::Receive => {
                serial.receive_into(&mut buffer);
            },
            Direction::Transmit => {
                serial.transmit_from(&buffer);
            },
        }
        (buffer, serial)
    }

    /// Reads the status until the transfer has finished, emits the acquire
    /// barrier, then hands buffer and port back.
    pub fn wait(self) -> (parts: (Pinned, Serial1))
        ensures
            (parts.0@, parts.1@) == self@.completed(),
            !parts.1@.dma.busy(),
            disciplined(self@.serial.dma.trace) ==> disciplined(parts.1@.dma.trace),
    {
        proof {
            if disciplined(self@.serial.dma.trace) {
                lemma_retiring_keeps_discipline(self@);
            }
        }
        let mut transfer = self;
        loop
            invariant_except_break
                transfer@.with_channel(self@.serial.dma) == self@,
                transfer@.serial.dma.drained() == self@.serial.dma.drained(),
            ensures
                transfer@ == self@.with_channel(self@.serial.dma.drained()),
            decreases transfer@.serial.dma.polls_to_idle(),
        {
            let ghost before = transfer@.serial.dma;
            let done = transfer.is_done();
            proof {
                lemma_drained_step(before);
            }
            if done {
                break ;
            }
        }
        transfer.serial.dma.acquire_barrier();
        transfer.settle()
    }

    /// Gives the transfer up: stops the channel, reads its status once,
    /// emits the acquire barrier, and hands buffer and port back.
    pub fn cancel(self) -> (parts: (Pinned, Serial1))
        ensures
            (parts.0@, parts.1@) == self@.cancelled(),
            !parts.1@.dma.busy(),
            disciplined(self@.serial.dma.trace) ==> disciplined(parts.1@.dma.trace),
    {
        proof {
            if disciplined(self@.serial.dma.trace) {
                lemma_retiring_keeps_discipline(self@);
            }
        }
        let mut transfer = self;
        let finished = transfer.serial.dma.has_finished();
        transfer.serial.dma.stop();
        let _ = transfer.serial.dma.in_progress();
        transfer.serial.dma.acquire_barrier();
        if finished {
            transfer.settle()
        } else {
            (transfer.buffer, transfer.serial)
        }
    }
}

} // verus!
