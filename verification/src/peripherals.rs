//! The devices of one board, each handed out once.
//!
//! To hold a device is to hold the right to use it. The board starts with
//! its channel in place and gives it away to the first who asks; whoever asks
//! later finds it gone.

use crate::channel::ChannelView;
use crate::channel::Dma1Channel1;
use vstd::prelude::*;

verus! {

/// The devices of one board that nobody has taken yet.
pub struct Peripherals {
    dma1_channel1: Option<Dma1Channel1>,
}

impl View for Peripherals {
    type V = Option<ChannelView>;

    closed spec fn view(&self) -> Option<ChannelView> {
        match self.dma1_channel1 {
            Some(dma) => Some(dma@),
            None => None,
        }
    }
}

impl Peripherals {
    /// A board after reset, whose engine lets a started, non-empty transfer
    /// be observed in flight by the next `latency` status reads.
    pub fn new(latency: usize) -> (board: Peripherals)
        ensures
            board@ == Some(ChannelView::reset(latency)),
    {
        Peripherals { dma1_channel1: Some(Dma1Channel1::new(latency)) }
    }

    /// Hands out channel 1 if it is still there, and leaves none behind.
    pub fn take_dma1_channel1(&mut self) -> (dma: Option<Dma1Channel1>)
        ensures
            dma is Some <==> old(self)@ is Some,
            dma is Some ==> dma->0@ == old(self)@->0,
            final(self)@ is None,
    {
        self.dma1_channel1.take()
    }
}

} // verus!
