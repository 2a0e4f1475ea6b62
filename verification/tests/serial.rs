use dma_transfer::buffer::Pinned;
use dma_transfer::channel::{USART1_RX, USART1_TX};
use dma_transfer::peripherals::Peripherals;
use dma_transfer::log::Log;
use dma_transfer::serial::{Direction, Error, Serial1, Transfer};

fn port(latency: usize, incoming: Vec<u8>) -> Serial1 {
    let dma = Peripherals::new(latency).take_dma1_channel1().unwrap();
    Serial1::new(dma, incoming)
}

fn pinned(address: usize, bytes: Vec<u8>) -> Pinned {
    Pinned::new(address, bytes).unwrap()
}

#[test]
fn read_takes_the_pending_bytes_in_order_then_zero() {
    let mut serial = port(0, vec![5, 6]);
    assert_eq!(serial.pending(), 2);
    assert!(matches!(serial.read(), Ok(5)));
    assert!(matches!(serial.read(), Ok(6)));
    assert_eq!(serial.pending(), 0);
    assert!(matches!(serial.read(), Ok(0)));
    assert_eq!(serial.pending(), 0);
}

#[test]
fn write_appends_to_what_was_sent() {
    let mut serial = port(0, Vec::new());
    assert!(serial.sent().is_empty());
    assert!(serial.write(b'o').is_ok());
    assert!(serial.write(b'k').is_ok());
    assert_eq!(serial.sent(), b"ok");
}

#[test]
fn the_error_type_can_be_named_and_printed() {
    let fault: Error = Error::Line;
    assert_eq!(format!("{:?}", fault), "Line");
}

#[test]
fn write_all_hello_is_done_at_exactly_the_fourth_status_read() {
    let serial = port(3, Vec::new());
    let mut transfer = serial.write_all(pinned(0x2000_0000, vec![72, 101, 108, 108, 111]));
    assert_eq!(transfer.direction(), Direction::Transmit);
    assert!(!transfer.is_done());
    assert!(!transfer.is_done());
    assert!(!transfer.is_done());
    assert!(transfer.is_done());
    assert!(transfer.is_done());
    let (buffer, serial) = transfer.wait();
    assert_eq!(buffer.as_slice(), &[72, 101, 108, 108, 111]);
    assert_eq!(buffer.address(), 0x2000_0000);
    assert_eq!(serial.sent(), b"Hello");
}

#[test]
fn write_all_hello_wait_returns_buffer_and_port() {
    let serial = port(3, vec![1, 2, 3]);
    let transfer = serial.write_all(pinned(0x2000_0000, vec![72, 101, 108, 108, 111]));
    let (buffer, serial) = transfer.wait();
    assert_eq!(buffer.as_slice(), &[72, 101, 108, 108, 111]);
    assert_eq!(serial.sent(), &[72, 101, 108, 108, 111]);
    assert_eq!(serial.pending(), 3);
    let dma = serial.channel();
    assert_eq!(dma.source_address(), 0x2000_0000);
    assert!(dma.source_increment());
    assert_eq!(dma.destination_address(), USART1_TX);
    assert!(!dma.destination_increment());
    assert_eq!(dma.transfer_length(), 5);
    assert!(dma.has_finished());
    let mut dma = serial.release();
    assert!(!dma.in_progress());
}

#[test]
fn read_exact_fills_a_zeroed_buffer_with_the_pattern() {
    let pattern: Vec<u8> = vec![
        0xde, 0xad, 0xbe, 0xef, 0x01, 0x23, 0x45, 0x67, 0x89, 0xab, 0xcd, 0xef, 0x10, 0x32, 0x54, 0x76,
    ];
    let serial = port(4, pattern.clone());
    let transfer = serial.read_exact(pinned(0x2000_0400, vec![0; 16]));
    assert_eq!(transfer.direction(), Direction::Receive);
    let (buffer, serial) = transfer.wait();
    assert_eq!(buffer.as_slice(), &pattern[..]);
    assert_ne!(buffer.as_slice(), &[0u8; 16]);
    assert_eq!(buffer.address(), 0x2000_0400);
    assert_eq!(serial.pending(), 0);
    assert!(serial.sent().is_empty());
    let dma = serial.channel();
    assert_eq!(dma.source_address(), USART1_RX);
    assert!(!dma.source_increment());
    assert_eq!(dma.destination_address(), 0x2000_0400);
    assert!(dma.destination_increment());
    assert_eq!(dma.transfer_length(), 16);
}

#[test]
fn read_exact_takes_only_as_many_bytes_as_the_buffer_holds() {
    let serial = port(1, vec![1, 2, 3, 4, 5]);
    let (buffer, mut serial) = serial.read_exact(pinned(32, vec![9, 9, 9])).wait();
    assert_eq!(buffer.as_slice(), &[1, 2, 3]);
    assert_eq!(serial.pending(), 2);
    assert!(matches!(serial.read(), Ok(4)));
}

#[test]
fn read_exact_on_a_line_that_runs_dry_reads_zeros() {
    let serial = port(1, vec![7, 8]);
    let (buffer, serial) = serial.read_exact(pinned(32, vec![9, 9, 9, 9])).wait();
    assert_eq!(buffer.as_slice(), &[7, 8, 0, 0]);
    assert_eq!(serial.pending(), 0);
}

#[test]
fn a_transfer_is_not_done_right_after_it_was_started() {
    let mut receive = port(1, vec![1]).read_exact(pinned(8, vec![0]));
    assert!(!receive.is_done());
    assert!(receive.is_done());
    let mut transmit = port(2, Vec::new()).write_all(pinned(8, vec![0]));
    assert!(!transmit.is_done());
    assert!(!transmit.is_done());
    assert!(transmit.is_done());
}

#[test]
fn an_empty_transfer_is_done_at_once() {
    let mut transfer = port(5, vec![1, 2]).read_exact(pinned(8, Vec::new()));
    assert!(transfer.is_done());
    let (buffer, serial) = transfer.wait();
    assert_eq!(buffer.len(), 0);
    assert_eq!(serial.pending(), 2);
}

#[test]
fn an_instant_engine_is_done_at_once() {
    let mut transfer = port(0, Vec::new()).write_all(pinned(8, vec![1, 2]));
    assert!(transfer.is_done());
    let (_, serial) = transfer.wait();
    assert_eq!(serial.sent(), &[1, 2]);
}

#[test]
fn cancel_stops_the_channel_before_the_end() {
    let mut transfer = port(100, vec![1, 2, 3]).read_exact(pinned(0x100, vec![0, 0, 0]));
    assert!(!transfer.is_done());
    let (buffer, serial) = transfer.cancel();
    assert_eq!(buffer.as_slice(), &[0, 0, 0]);
    assert_eq!(serial.pending(), 3);
    assert!(!serial.channel().is_enabled());
    assert!(!serial.channel().has_finished());
    let mut dma = serial.release();
    assert!(!dma.in_progress());
}

#[test]
fn cancel_in_flight_sends_nothing() {
    let transfer = port(100, Vec::new()).write_all(pinned(0x100, vec![1, 2, 3]));
    let (buffer, serial) = transfer.cancel();
    assert_eq!(buffer.as_slice(), &[1, 2, 3]);
    assert!(serial.sent().is_empty());
}

#[test]
fn cancel_after_the_end_keeps_what_was_moved() {
    let mut transfer = port(1, Vec::new()).write_all(pinned(0x100, vec![1, 2, 3]));
    assert!(!transfer.is_done());
    assert!(transfer.is_done());
    let (buffer, serial) = transfer.cancel();
    assert_eq!(buffer.as_slice(), &[1, 2, 3]);
    assert_eq!(serial.sent(), &[1, 2, 3]);
    assert!(!serial.channel().is_enabled());
}

#[test]
fn a_second_transfer_after_a_cancelled_one_starts_clean() {
    let first = port(2, vec![1, 2, 3, 4]).read_exact(pinned(0x1000, vec![0; 4]));
    let (_, serial) = first.cancel();
    let mut second = serial.write_all(pinned(0x2000, vec![b'h', b'i']));
    assert!(!second.is_done());
    assert!(!second.is_done());
    assert!(second.is_done());
    let (buffer, serial) = second.wait();
    assert_eq!(buffer.as_slice(), b"hi");
    assert_eq!(serial.sent(), b"hi");
    assert_eq!(serial.pending(), 4);
    let dma = serial.channel();
    assert_eq!(dma.source_address(), 0x2000);
    assert!(dma.source_increment());
    assert_eq!(dma.destination_address(), USART1_TX);
    assert!(!dma.destination_increment());
    assert_eq!(dma.transfer_length(), 2);
}

#[test]
fn a_new_transfer_overwrites_every_register_of_the_old_one() {
    let (_, serial) = port(1, Vec::new()).write_all(pinned(0x3000, vec![0; 9])).cancel();
    let transfer = serial.read_exact(pinned(0x4000, vec![0; 2]));
    let (_, serial) = transfer.cancel();
    let dma = serial.channel();
    assert_eq!(dma.source_address(), USART1_RX);
    assert!(!dma.source_increment());
    assert_eq!(dma.destination_address(), 0x4000);
    assert!(dma.destination_increment());
    assert_eq!(dma.transfer_length(), 2);
}

#[test]
fn wait_hands_back_what_went_in() {
    let bytes = vec![3, 1, 4, 1, 5, 9, 2, 6];
    let serial = port(7, vec![42]);
    let (buffer, mut serial) = serial.write_all(pinned(0x5000, bytes.clone())).wait();
    assert_eq!(buffer.address(), 0x5000);
    assert_eq!(buffer.into_inner(), bytes);
    assert!(matches!(serial.read(), Ok(42)));
}

#[test]
fn a_port_can_run_one_transfer_after_another() {
    let serial = port(2, vec![1, 2, 3, 4]);
    let (first, serial) = serial.read_exact(pinned(0x10, vec![0, 0])).wait();
    let (second, serial) = serial.read_exact(pinned(0x20, vec![0, 0])).wait();
    let (_, serial) = serial.write_all(first).wait();
    let (_, serial) = serial.write_all(second).wait();
    assert_eq!(serial.sent(), &[1, 2, 3, 4]);
    assert_eq!(serial.pending(), 0);
}

struct Recorder {
    seen: Vec<u8>,
    full: bool,
}

impl Log for Recorder {
    type Error = ();

    fn log(&mut self, address: u8) -> Result<(), ()> {
        if self.full {
            Err(())
        } else {
            self.seen.push(address);
            Ok(())
        }
    }
}

#[test]
fn a_log_sink_receives_addresses() {
    let mut recorder = Recorder { seen: Vec::new(), full: false };
    assert_eq!(recorder.log(1), Ok(()));
    assert_eq!(recorder.log(2), Ok(()));
    recorder.full = true;
    assert_eq!(recorder.log(3), Err(()));
    assert_eq!(recorder.seen, vec![1, 2]);
}

#[test]
fn a_transfer_owns_its_parts_until_it_is_retired() {
    let transfer: Transfer = port(1, Vec::new()).write_all(pinned(0, vec![1]));
    let (buffer, serial) = transfer.wait();
    assert_eq!(buffer.len(), 1);
    assert_eq!(serial.sent(), &[1]);
}

#[test]
fn a_released_channel_can_serve_a_new_port() {
    let serial = port(1, vec![1, 2]);
    let (_, serial) = serial.write_all(pinned(0x40, vec![5])).wait();
    assert_eq!(serial.sent(), &[5]);
    let dma = serial.release();
    assert_eq!(dma.source_address(), 0x40);
    let serial = Serial1::new(dma, vec![8]);
    assert!(serial.sent().is_empty());
    let (buffer, _) = serial.read_exact(pinned(0x80, vec![0])).wait();
    assert_eq!(buffer.as_slice(), &[8]);
}
