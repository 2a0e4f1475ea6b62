use dma_transfer::channel::{Dma1Channel1, USART1_RX, USART1_TX};
use dma_transfer::peripherals::Peripherals;

fn channel(latency: usize) -> Dma1Channel1 {
    Peripherals::new(latency).take_dma1_channel1().unwrap()
}

#[test]
fn register_addresses() {
    assert_eq!(USART1_TX, 0x4000_0000);
    assert_eq!(USART1_RX, 0x4000_0004);
}

#[test]
fn a_channel_after_reset_is_idle_and_zeroed() {
    let mut dma = channel(5);
    assert_eq!(dma.source_address(), 0);
    assert_eq!(dma.destination_address(), 0);
    assert_eq!(dma.transfer_length(), 0);
    assert!(!dma.source_increment());
    assert!(!dma.destination_increment());
    assert!(!dma.is_enabled());
    assert!(!dma.has_finished());
    assert!(!dma.in_progress());
}

#[test]
fn setters_write_their_own_register_only() {
    let mut dma = channel(1);
    dma.set_source_address(0x2000_0000, true);
    assert_eq!(dma.source_address(), 0x2000_0000);
    assert!(dma.source_increment());
    assert_eq!(dma.destination_address(), 0);
    assert!(!dma.destination_increment());
    assert_eq!(dma.transfer_length(), 0);

    dma.set_destination_address(USART1_TX, false);
    assert_eq!(dma.destination_address(), USART1_TX);
    assert!(!dma.destination_increment());
    assert_eq!(dma.source_address(), 0x2000_0000);
    assert!(dma.source_increment());

    dma.set_transfer_length(12);
    assert_eq!(dma.transfer_length(), 12);
    assert_eq!(dma.source_address(), 0x2000_0000);
    assert_eq!(dma.destination_address(), USART1_TX);
    assert!(!dma.is_enabled());
}

#[test]
fn a_started_transfer_is_in_progress_for_latency_reads() {
    let mut dma = channel(3);
    dma.set_transfer_length(8);
    dma.start();
    assert!(dma.is_enabled());
    assert!(!dma.has_finished());
    assert!(dma.in_progress());
    assert!(dma.in_progress());
    assert!(dma.in_progress());
    assert!(dma.has_finished());
    assert!(!dma.in_progress());
    assert!(!dma.in_progress());
    assert!(dma.is_enabled());
}

#[test]
fn an_empty_transfer_is_over_at_once() {
    let mut dma = channel(3);
    dma.set_transfer_length(0);
    dma.start();
    assert!(dma.has_finished());
    assert!(!dma.in_progress());
}

#[test]
fn an_instant_engine_is_never_seen_in_progress() {
    let mut dma = channel(0);
    dma.set_transfer_length(4);
    dma.start();
    assert!(!dma.in_progress());
}

#[test]
fn stop_ends_a_transfer_in_flight() {
    let mut dma = channel(10);
    dma.set_transfer_length(4);
    dma.start();
    assert!(dma.in_progress());
    dma.stop();
    assert!(!dma.is_enabled());
    assert!(!dma.has_finished());
    assert!(!dma.in_progress());
}

#[test]
fn stop_on_an_idle_channel_is_harmless() {
    let mut dma = channel(2);
    dma.set_source_address(USART1_RX, false);
    dma.stop();
    dma.stop();
    assert!(!dma.in_progress());
    assert_eq!(dma.source_address(), USART1_RX);
}

#[test]
fn a_restart_begins_from_the_full_latency() {
    let mut dma = channel(2);
    dma.set_transfer_length(1);
    dma.start();
    assert!(dma.in_progress());
    dma.stop();
    dma.start();
    assert!(dma.in_progress());
    assert!(dma.in_progress());
    assert!(!dma.in_progress());
}

#[test]
fn a_board_hands_its_channel_out_once() {
    let mut board = Peripherals::new(4);
    let first = board.take_dma1_channel1();
    assert!(first.is_some());
    assert!(board.take_dma1_channel1().is_none());
    assert!(board.take_dma1_channel1().is_none());
    let mut dma = first.unwrap();
    dma.set_transfer_length(1);
    dma.start();
    assert!(dma.in_progress());
}

#[test]
fn the_barriers_of_a_channel_change_no_register() {
    let mut dma = channel(2);
    dma.set_source_address(0x100, true);
    dma.set_destination_address(USART1_TX, false);
    dma.set_transfer_length(3);
    dma.release_barrier();
    dma.start();
    assert!(dma.in_progress());
    assert!(dma.in_progress());
    assert!(!dma.in_progress());
    dma.acquire_barrier();
    assert_eq!(dma.source_address(), 0x100);
    assert_eq!(dma.destination_address(), USART1_TX);
    assert_eq!(dma.transfer_length(), 3);
    assert!(dma.has_finished());
}
