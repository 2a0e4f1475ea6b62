//! What holds of every transfer, proved over the plain-value views.

use crate::buffer::PinnedView;
use crate::channel::disciplined;
use crate::channel::reads_until_idle;
use crate::channel::well_placed;
use crate::channel::ChannelView;
use crate::channel::Step;
use crate::serial::SerialView;
use crate::serial::TransferView;
use vstd::prelude::*;

verus! {

/// After `n` status reads an armed channel has `n` steps less to go, but
/// never less than none, and a disarmed channel is where it was; either way
/// the `n` reads are on record with what each reported.
pub proof fn lemma_after_polls(channel: ChannelView, n: nat)
    ensures
        channel.after_polls(n) == (ChannelView {
            remaining: if channel.enabled && n <= channel.remaining {
                (channel.remaining - n) as usize
            } else if channel.enabled {
                0
            } else {
                channel.remaining
            },
            trace: channel.trace + channel.status_reads(n),
            ..channel
        }),
    decreases n,
{
    if n > 0 {
        let next = channel.polled();
        lemma_after_polls(next, (n - 1) as nat);
        assert(next.trace + next.status_reads((n - 1) as nat) =~= channel.trace
            + channel.status_reads(n));
    } else {
        assert(channel.trace + channel.status_reads(0) =~= channel.trace);
    }
}

/// The status read that first reports the channel idle is read number
/// `polls_to_idle()`: every read before it reports a transfer in progress,
/// and after it the channel is drained.
pub proof fn lemma_idle_after_exactly(channel: ChannelView)
    ensures
        forall|k: nat| k + 1 < channel.polls_to_idle() ==> #[trigger] channel.after_polls(k).busy(),
        !channel.after_polls((channel.polls_to_idle() - 1) as nat).busy(),
        channel.after_polls(channel.polls_to_idle()) == channel.drained(),
        channel.drained().trace.len() == channel.trace.len() + channel.polls_to_idle(),
{
    assert forall|k: nat| k + 1 < channel.polls_to_idle() implies #[trigger] channel.after_polls(
        k,
    ).busy() by {
        lemma_after_polls(channel, k);
    }
    lemma_after_polls(channel, (channel.polls_to_idle() - 1) as nat);
    lemma_after_polls(channel, channel.polls_to_idle());
    assert(channel.status_reads(channel.polls_to_idle()) =~= reads_until_idle(
        channel.polls_to_idle(),
    ));
}

/// Once a status read has reported the channel idle, every later one does.
pub proof fn lemma_idle_stays_idle(channel: ChannelView, n: nat)
    requires
        !channel.busy(),
    ensures
        !channel.after_polls(n).busy(),
{
    lemma_after_polls(channel, n);
}

/// Stopping a channel that is already stopped leaves every register and the
/// engine as the first stop left them, and a stopped channel reports idle.
pub proof fn lemma_stop_is_idempotent(channel: ChannelView)
    ensures
        !channel.stopped().busy(),
        channel.stopped().stopped().same_programming(channel.stopped()),
        channel.stopped().polled().same_programming(channel.stopped()),
{
}

/// Waiting for a transmitting transfer hands back the buffer that went in,
/// unchanged, and the port that went in: the same pending bytes, the same
/// channel latency, the buffer's bytes added to what was sent, and the
/// channel finished.
pub proof fn lemma_transmit_round_trip(port: SerialView, buffer: PinnedView)
    ensures
        port.begin_transmit(buffer).completed().0 == buffer,
        port.begin_transmit(buffer).completed().1.pending == port.pending,
        port.begin_transmit(buffer).completed().1.sent == port.sent + buffer.bytes,
        port.begin_transmit(buffer).completed().1.dma.latency == port.dma.latency,
        port.begin_transmit(buffer).completed().1.dma.finished(),
{
}

/// Waiting for a receiving transfer hands back the buffer that went in, at
/// the same address and of the same length, filled with what the line
/// delivered, and the port that went in, with those bytes taken off the line,
/// nothing sent, and the channel finished.
pub proof fn lemma_receive_round_trip(port: SerialView, buffer: PinnedView)
    ensures
        port.begin_receive(buffer).completed().0.address == buffer.address,
        port.begin_receive(buffer).completed().0.bytes.len() == buffer.bytes.len(),
        port.begin_receive(buffer).completed().0.bytes == port.incoming(buffer.bytes.len()),
        port.begin_receive(buffer).completed().1 == (SerialView {
            dma: port.begin_receive(buffer).serial.dma.drained().acquired(),
            ..port.after_receiving(buffer.bytes.len())
        }),
        port.begin_receive(buffer).completed().1.sent == port.sent,
        port.begin_receive(buffer).completed().1.dma.latency == port.dma.latency,
        port.begin_receive(buffer).completed().1.dma.finished(),
{
}

/// A transfer that was just started is in flight exactly when it has bytes
/// to move and the engine is not instant; from then on the status reads
/// report it in progress `latency` times, and never again after that. This
/// holds of every buffer whose length a machine word can hold.
pub proof fn lemma_in_flight_after_start(port: SerialView, buffer: PinnedView, k: nat)
    requires
        buffer.bytes.len() <= usize::MAX,
    ensures
        port.begin_receive(buffer).armed(),
        port.begin_transmit(buffer).armed(),
        port.begin_receive(buffer).serial.dma.after_polls(k).busy() <==> (buffer.bytes.len() > 0
            && k < port.dma.latency),
        port.begin_transmit(buffer).serial.dma.after_polls(k).busy() <==> (buffer.bytes.len() > 0
            && k < port.dma.latency),
{
    lemma_after_polls(port.begin_receive(buffer).serial.dma, k);
    lemma_after_polls(port.begin_transmit(buffer).serial.dma, k);
}

/// Status reads change neither the buffer, nor the line, nor what the
/// channel is programmed for.
pub proof fn lemma_polling_keeps_programming(transfer: TransferView)
    ensures
        transfer.polled().buffer == transfer.buffer,
        transfer.polled().direction == transfer.direction,
        transfer.polled().serial.pending == transfer.serial.pending,
        transfer.polled().serial.sent == transfer.serial.sent,
        transfer.polled().armed() == transfer.armed(),
{
}

/// The address that the channel latched when the transfer was started is the
/// buffer's address for as long as the transfer lives: after any number of
/// status reads the channel is still programmed for this buffer, where it
/// lies and as long as it is.
pub proof fn lemma_latched_address_holds(port: SerialView, buffer: PinnedView, n: nat)
    requires
        buffer.bytes.len() <= usize::MAX,
    ensures
        port.begin_receive(buffer).with_channel(
            port.begin_receive(buffer).serial.dma.after_polls(n),
        ).armed(),
        port.begin_receive(buffer).serial.dma.after_polls(n).destination == buffer.address,
        port.begin_transmit(buffer).with_channel(
            port.begin_transmit(buffer).serial.dma.after_polls(n),
        ).armed(),
        port.begin_transmit(buffer).serial.dma.after_polls(n).source == buffer.address,
{
    lemma_after_polls(port.begin_receive(buffer).serial.dma, n);
    lemma_after_polls(port.begin_transmit(buffer).serial.dma, n);
}

/// However far a transfer has come, cancelling it leaves the channel
/// disarmed, and no status read reports a transfer in progress afterwards.
pub proof fn lemma_cancel_halts(transfer: TransferView, n: nat)
    ensures
        !transfer.cancelled().1.dma.enabled,
        !transfer.cancelled().1.dma.busy(),
        !transfer.cancelled().1.dma.after_polls(n).busy(),
{
    lemma_after_polls(transfer.cancelled().1.dma, n);
}

/// A transfer started on a port that comes out of a cancelled transfer is
/// programmed as it would be on a channel fresh from reset: nothing of the
/// earlier transfer is left in the registers or in the engine. This holds of
/// every buffer whose length a machine word can hold.
pub proof fn lemma_no_residue(earlier: TransferView, buffer: PinnedView)
    requires
        buffer.bytes.len() <= usize::MAX,
    ensures
        ({
            let port = earlier.cancelled().1;
            let fresh = port.with_channel(ChannelView::reset(port.dma.latency));
            &&& port.begin_receive(buffer).armed()
            &&& port.begin_receive(buffer).serial.dma.same_programming(
                fresh.begin_receive(buffer).serial.dma,
            )
            &&& port.begin_transmit(buffer).armed()
            &&& port.begin_transmit(buffer).serial.dma.same_programming(
                fresh.begin_transmit(buffer).serial.dma,
            )
        }),
{
}

/// Whatever the registers held before, starting a transfer sets each of
/// them: two ports whose engines are equally fast are programmed alike.
pub proof fn lemma_programming_is_complete(first: SerialView, second: SerialView, buffer: PinnedView)
    requires
        first.dma.latency == second.dma.latency,
    ensures
        first.begin_receive(buffer).serial.dma.same_programming(
            second.begin_receive(buffer).serial.dma,
        ),
        first.begin_transmit(buffer).serial.dma.same_programming(
            second.begin_transmit(buffer).serial.dma,
        ),
{
}

/// A buffer leaves a transfer where it entered it: neither status reads, nor
/// waiting, nor cancelling change its address or its length.
pub proof fn lemma_buffer_stays_in_place(transfer: TransferView)
    ensures
        transfer.polled().buffer.address == transfer.buffer.address,
        transfer.completed().0.address == transfer.buffer.address,
        transfer.completed().0.bytes.len() == transfer.buffer.bytes.len(),
        transfer.cancelled().0.address == transfer.buffer.address,
        transfer.cancelled().0.bytes.len() == transfer.buffer.bytes.len(),
{
}

/// A transfer that is cancelled while the engine is still moving bytes
/// leaves buffer and line as they were.
pub proof fn lemma_cancel_in_flight_moves_nothing(transfer: TransferView)
    requires
        !transfer.serial.dma.finished(),
    ensures
        transfer.cancelled().0 == transfer.buffer,
        transfer.cancelled().1.pending == transfer.serial.pending,
        transfer.cancelled().1.sent == transfer.serial.sent,
{
}

/// Starting a transfer takes five steps in this order: the three register
/// writes, the release barrier, the start. So the barrier stands after every
/// write that prepares the transfer and directly before the start.
pub proof fn lemma_release_before_start(port: SerialView, buffer: PinnedView)
    ensures
        port.begin_receive(buffer).serial.dma.trace == port.dma.trace + seq![
            Step::SetSource,
            Step::SetDestination,
            Step::SetLength,
            Step::Release,
            Step::Start,
        ],
        port.begin_transmit(buffer).serial.dma.trace == port.dma.trace + seq![
            Step::SetDestination,
            Step::SetSource,
            Step::SetLength,
            Step::Release,
            Step::Start,
        ],
{
    assert(port.begin_receive(buffer).serial.dma.trace =~= port.dma.trace + seq![
        Step::SetSource,
        Step::SetDestination,
        Step::SetLength,
        Step::Release,
        Step::Start,
    ]);
    assert(port.begin_transmit(buffer).serial.dma.trace =~= port.dma.trace + seq![
        Step::SetDestination,
        Step::SetSource,
        Step::SetLength,
        Step::Release,
        Step::Start,
    ]);
}

/// Waiting reads the status exactly `polls_to_idle()` times, of which only
/// the last reports the channel idle, and then takes one more step, the
/// acquire barrier.
pub proof fn lemma_wait_reads_then_acquires(transfer: TransferView)
    ensures
        transfer.completed().1.dma.trace == transfer.serial.dma.trace + reads_until_idle(
            transfer.serial.dma.polls_to_idle(),
        ) + seq![Step::Acquire],
{
    assert(transfer.completed().1.dma.trace =~= transfer.serial.dma.trace + reads_until_idle(
        transfer.serial.dma.polls_to_idle(),
    ) + seq![Step::Acquire]);
}

/// Cancelling takes three steps in this order: the stop, one status read,
/// which reports the channel idle, and the acquire barrier.
pub proof fn lemma_cancel_stops_then_acquires(transfer: TransferView)
    ensures
        transfer.cancelled().1.dma.trace == transfer.serial.dma.trace + seq![
            Step::Stop,
            Step::Status { busy: false },
            Step::Acquire,
        ],
{
    assert(transfer.cancelled().1.dma.trace =~= transfer.serial.dma.trace + seq![
        Step::Stop,
        Step::Status { busy: false },
        Step::Acquire,
    ]);
}

/// Recording a step keeps the barriers where they belong, unless the step is
/// a start that does not follow a release barrier, or an acquire barrier that
/// does not follow a status read which reported the channel idle.
pub proof fn lemma_discipline_one_step(trace: Seq<Step>, step: Step)
    requires
        disciplined(trace),
        step == Step::Start ==> trace.len() > 0 && trace.last() == Step::Release,
        step == Step::Acquire ==> trace.len() > 0 && trace.last() == (Step::Status {
            busy: false,
        }),
    ensures
        disciplined(trace.push(step)),
{
    let longer = trace.push(step);
    assert forall|index: int| 0 <= index < longer.len() implies #[trigger] well_placed(
        longer,
        index,
    ) by {
        if index < trace.len() {
            assert(well_placed(trace, index));
        }
    }
}

/// A port that has kept the barriers where they belong still has after it
/// started a transfer.
pub proof fn lemma_start_keeps_discipline(port: SerialView, buffer: PinnedView)
    requires
        disciplined(port.dma.trace),
    ensures
        disciplined(port.begin_receive(buffer).serial.dma.trace),
        disciplined(port.begin_transmit(buffer).serial.dma.trace),
{
    let len = buffer.bytes.len() as usize;
    let r1 = port.dma.with_source(crate::channel::USART1_RX, false);
    let r2 = r1.with_destination(buffer.address, true);
    let r3 = r2.with_length(len);
    let r4 = r3.released();
    lemma_discipline_one_step(port.dma.trace, Step::SetSource);
    lemma_discipline_one_step(r1.trace, Step::SetDestination);
    lemma_discipline_one_step(r2.trace, Step::SetLength);
    lemma_discipline_one_step(r3.trace, Step::Release);
    lemma_discipline_one_step(r4.trace, Step::Start);
    let t1 = port.dma.with_destination(crate::channel::USART1_TX, false);
    let t2 = t1.with_source(buffer.address, true);
    let t3 = t2.with_length(len);
    let t4 = t3.released();
    lemma_discipline_one_step(port.dma.trace, Step::SetDestination);
    lemma_discipline_one_step(t1.trace, Step::SetSource);
    lemma_discipline_one_step(t2.trace, Step::SetLength);
    lemma_discipline_one_step(t3.trace, Step::Release);
    lemma_discipline_one_step(t4.trace, Step::Start);
}

/// Status reads keep the barriers where they belong.
pub proof fn lemma_polling_keeps_discipline(channel: ChannelView, n: nat)
    requires
        disciplined(channel.trace),
    ensures
        disciplined(channel.after_polls(n).trace),
    decreases n,
{
    if n > 0 {
        lemma_discipline_one_step(channel.trace, Step::Status { busy: channel.busy() });
        lemma_polling_keeps_discipline(channel.polled(), (n - 1) as nat);
    }
}

/// A transfer that has kept the barriers where they belong still has after
/// it was waited for, and after it was cancelled.
pub proof fn lemma_retiring_keeps_discipline(transfer: TransferView)
    requires
        disciplined(transfer.serial.dma.trace),
    ensures
        disciplined(transfer.polled().serial.dma.trace),
        disciplined(transfer.completed().1.dma.trace),
        disciplined(transfer.cancelled().1.dma.trace),
{
    let dma = transfer.serial.dma;
    lemma_discipline_one_step(dma.trace, Step::Status { busy: dma.busy() });
    lemma_idle_after_exactly(dma);
    lemma_polling_keeps_discipline(dma, dma.polls_to_idle());
    let drained = dma.drained();
    assert(drained.trace.last() == (Step::Status { busy: false }));
    lemma_discipline_one_step(drained.trace, Step::Acquire);
    let stopped = dma.stopped();
    lemma_discipline_one_step(dma.trace, Step::Stop);
    lemma_discipline_one_step(stopped.trace, Step::Status { busy: false });
    lemma_discipline_one_step(stopped.polled().trace, Step::Acquire);
}

} // verus!
