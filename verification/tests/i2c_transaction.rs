use stm32g4xx_hal::i2c::transaction::{
    busy_wait, Action, Awaited, Clear, Control, Flags, Reply, Start, Wait,
};
use stm32g4xx_hal::i2c::{Address, Error, Transaction};

const QUIET: Flags = Flags {
    busy: false,
    rxne: false,
    txis: false,
    txe: false,
    tcr: false,
    stopf: false,
    berr: false,
    arlo: false,
    nackf: false,
};

/// A device that acknowledges everything: bytes flow as fast as they are
/// asked for, chunks complete, and the stop condition follows the last
/// chunk.
#[derive(Default)]
struct Device {
    memory: Vec<u8>,
    received: Vec<u8>,
    controls: Vec<Control>,
    clears: Vec<Clear>,
    flushes: usize,
    /// Bytes left in the announced chunk.
    chunk_left: usize,
    last_chunk: bool,
    reading: bool,
    next: usize,
    /// Fault to raise once this many bytes have moved.
    fault_after: Option<(usize, Flags)>,
    moved: usize,
    status_reads: usize,
}

impl Device {
    fn flags(&mut self) -> Flags {
        self.status_reads += 1;
        if let Some((after, flags)) = self.fault_after {
            if self.moved >= after {
                return flags;
            }
        }
        Flags {
            rxne: self.reading && self.chunk_left > 0,
            txis: !self.reading && self.chunk_left > 0,
            tcr: self.chunk_left == 0 && !self.last_chunk,
            stopf: self.chunk_left == 0 && self.last_chunk,
            ..QUIET
        }
    }

    fn answer(&mut self, action: Action) -> Reply {
        match action {
            Action::ReadStatus => Reply::Status(self.flags()),
            Action::Control(control) => {
                if let Some(start) = control.start {
                    self.reading = start.read;
                }
                self.chunk_left = control.nbytes as usize;
                self.last_chunk = control.last;
                self.controls.push(control);
                Reply::Done
            }
            Action::ReadData => {
                assert!(self.chunk_left > 0);
                self.chunk_left -= 1;
                self.moved += 1;
                let byte = self.memory[self.next % self.memory.len()];
                self.next += 1;
                Reply::Data(byte)
            }
            Action::WriteData(byte) => {
                if self.chunk_left > 0 {
                    self.chunk_left -= 1;
                    self.moved += 1;
                }
                self.received.push(byte);
                Reply::Done
            }
            Action::ClearFlags(clear) => {
                self.clears.push(clear);
                Reply::Done
            }
            Action::FlushTransmit => {
                self.flushes += 1;
                Reply::Done
            }
            Action::Finished(_) => panic!("nothing to answer"),
        }
    }

    /// Runs a transaction to its end and returns its result and bytes.
    fn run(&mut self, mut t: Transaction) -> (Result<(), Error>, Vec<u8>) {
        for _ in 0..10_000 {
            if let Action::Finished(result) = t.action() {
                assert_eq!(t.result(), Some(result));
                return (result, t.into_data());
            }
            assert_eq!(t.result(), None);
            let reply = self.answer(t.action());
            t = t.advance(reply);
        }
        panic!("the transaction does not end");
    }
}

fn start(address: u16, ten_bit: bool, read: bool) -> Option<Start> {
    Some(Start { ten_bit, address, read })
}

const STOP_ONLY: Clear = Clear { bus_error: false, arbitration_lost: false, stop: true, nack: false };

#[test]
fn busy_wait_gives_the_awaited_flag_precedence() {
    let all = Flags { rxne: true, berr: true, arlo: true, nackf: true, ..QUIET };
    assert_eq!(busy_wait(all, Awaited::Received), Wait::Ready);
    assert_eq!(busy_wait(all, Awaited::TransmitReady), Wait::Fault(Error::BusError));
    let no_berr = Flags { berr: false, ..all };
    assert_eq!(busy_wait(no_berr, Awaited::Stop), Wait::Fault(Error::ArbitrationLost));
    let only_nack = Flags { arlo: false, ..no_berr };
    assert_eq!(busy_wait(only_nack, Awaited::Reload), Wait::Fault(Error::Nack));
    assert_eq!(busy_wait(QUIET, Awaited::Reload), Wait::Retry);
    assert_eq!(busy_wait(Flags { busy: true, txe: true, ..QUIET }, Awaited::Stop), Wait::Retry);
}

#[test]
fn busy_wait_looks_at_the_right_flag() {
    assert_eq!(busy_wait(Flags { rxne: true, ..QUIET }, Awaited::Received), Wait::Ready);
    assert_eq!(busy_wait(Flags { txis: true, ..QUIET }, Awaited::TransmitReady), Wait::Ready);
    assert_eq!(busy_wait(Flags { tcr: true, ..QUIET }, Awaited::Reload), Wait::Ready);
    assert_eq!(busy_wait(Flags { stopf: true, ..QUIET }, Awaited::Stop), Wait::Ready);
    assert_eq!(busy_wait(Flags { rxne: true, ..QUIET }, Awaited::TransmitReady), Wait::Retry);
    assert_eq!(busy_wait(Flags { stopf: true, ..QUIET }, Awaited::Reload), Wait::Retry);
}

#[test]
fn address_fields() {
    assert_eq!(Address::SevenBit(0x50).to_field(), 0xa0);
    assert_eq!(Address::SevenBit(0x7f).to_field(), 0xfe);
    assert_eq!(Address::SevenBit(0xff).to_field(), 0x1fe);
    assert_eq!(Address::TenBit(0x3ff).to_field(), 0x3ff);
    assert!(!Address::SevenBit(1).is_ten_bit());
    assert!(Address::TenBit(1).is_ten_bit());
}

#[test]
fn short_write_sends_its_bytes_in_order() {
    let mut device = Device::default();
    let t = Transaction::write(Address::SevenBit(0x50), vec![1, 2, 3], false);
    let (result, data) = device.run(t);
    assert_eq!(result, Ok(()));
    assert_eq!(data, vec![1, 2, 3]);
    assert_eq!(device.received, vec![1, 2, 3]);
    assert_eq!(
        device.controls,
        vec![Control { start: start(0xa0, false, false), nbytes: 3, last: true }]
    );
    assert_eq!(device.clears, vec![STOP_ONLY]);
}

#[test]
fn empty_write_only_addresses_the_device() {
    let mut device = Device::default();
    let (result, _) = device.run(Transaction::write(Address::SevenBit(0x21), vec![], false));
    assert_eq!(result, Ok(()));
    assert_eq!(
        device.controls,
        vec![Control { start: start(0x42, false, false), nbytes: 0, last: true }]
    );
    assert!(device.received.is_empty());
    assert!(device.clears.is_empty());
    assert_eq!(device.status_reads, 0);
}

#[test]
fn short_read_collects_its_bytes() {
    let mut device = Device { memory: vec![9, 8, 7, 6], ..Device::default() };
    let (result, data) = device.run(Transaction::read(Address::TenBit(0x155), 4, false));
    assert_eq!(result, Ok(()));
    assert_eq!(data, vec![9, 8, 7, 6]);
    assert_eq!(
        device.controls,
        vec![Control { start: start(0x155, true, true), nbytes: 4, last: true }]
    );
    assert_eq!(device.clears, vec![STOP_ONLY]);
}

#[test]
fn long_read_is_split_into_chunks_of_255() {
    let memory: Vec<u8> = (0..=250).collect();
    let mut device = Device { memory: memory.clone(), ..Device::default() };
    let (result, data) = device.run(Transaction::read(Address::SevenBit(0x10), 600, false));
    assert_eq!(result, Ok(()));
    assert_eq!(data.len(), 600);
    for (i, byte) in data.iter().enumerate() {
        assert_eq!(*byte, memory[i % memory.len()]);
    }
    assert_eq!(
        device.controls,
        vec![
            Control { start: start(0x20, false, true), nbytes: 255, last: false },
            Control { start: None, nbytes: 255, last: false },
            Control { start: None, nbytes: 90, last: true },
        ]
    );
}

#[test]
fn long_write_is_split_into_chunks_of_255() {
    let bytes: Vec<u8> = (0..300).map(|i| (i * 7) as u8).collect();
    let mut device = Device::default();
    let (result, _) = device.run(Transaction::write(Address::SevenBit(0x10), bytes.clone(), false));
    assert_eq!(result, Ok(()));
    assert_eq!(device.received, bytes);
    assert_eq!(
        device.controls,
        vec![
            Control { start: start(0x20, false, false), nbytes: 255, last: false },
            Control { start: None, nbytes: 45, last: true },
        ]
    );
}

#[test]
fn a_full_chunk_is_never_announced_as_the_last() {
    // 255 bytes: one chunk, followed by a reload wait and then the stop wait
    let mut t = Transaction::write(Address::SevenBit(1), vec![0xaa; 255], false);
    assert_eq!(
        t.action(),
        Action::Control(Control { start: start(2, false, false), nbytes: 255, last: false })
    );
    t = t.advance(Reply::Done);
    for _ in 0..255 {
        assert_eq!(t.action(), Action::ReadStatus);
        t = t.advance(Reply::Status(Flags { txis: true, ..QUIET }));
        assert_eq!(t.action(), Action::WriteData(0xaa));
        t = t.advance(Reply::Done);
    }
    // waits for the reload, not for the stop
    t = t.advance(Reply::Status(Flags { stopf: true, ..QUIET }));
    assert_eq!(t.action(), Action::ReadStatus);
    t = t.advance(Reply::Status(Flags { tcr: true, ..QUIET }));
    // nothing is left to announce: the stop wait follows
    assert_eq!(t.action(), Action::ReadStatus);
    t = t.advance(Reply::Status(Flags { stopf: true, ..QUIET }));
    assert_eq!(t.action(), Action::ClearFlags(STOP_ONLY));
    t = t.advance(Reply::Done);
    assert_eq!(t.result(), Some(Ok(())));
}

#[test]
fn read_of_nothing_only_waits_for_the_stop() {
    let mut t = Transaction::read(Address::SevenBit(1), 0, false);
    assert_eq!(t.action(), Action::ReadStatus);
    t = t.advance(Reply::Status(QUIET));
    assert_eq!(t.action(), Action::ReadStatus);
    t = t.advance(Reply::Status(Flags { stopf: true, ..QUIET }));
    assert_eq!(t.action(), Action::ClearFlags(STOP_ONLY));
    t = t.advance(Reply::Done);
    assert_eq!(t.result(), Some(Ok(())));
    assert_eq!(t.into_data(), Vec::<u8>::new());
}

#[test]
fn transaction_waits_for_a_busy_bus() {
    let mut t = Transaction::write(Address::SevenBit(8), vec![5], true);
    for _ in 0..3 {
        assert_eq!(t.action(), Action::ReadStatus);
        t = t.advance(Reply::Status(Flags { busy: true, txis: true, stopf: true, ..QUIET }));
    }
    assert_eq!(t.action(), Action::ReadStatus);
    t = t.advance(Reply::Status(QUIET));
    assert_eq!(
        t.action(),
        Action::Control(Control { start: start(16, false, false), nbytes: 1, last: true })
    );
}

#[test]
fn bus_error_aborts_after_clearing_its_flag() {
    let mut device = Device {
        fault_after: Some((2, Flags { berr: true, arlo: true, nackf: true, ..QUIET })),
        ..Device::default()
    };
    let (result, _) = device.run(Transaction::write(Address::SevenBit(3), vec![1, 2, 3, 4], false));
    assert_eq!(result, Err(Error::BusError));
    assert_eq!(device.received, vec![1, 2]);
    assert_eq!(
        device.clears,
        vec![Clear { bus_error: true, arbitration_lost: false, stop: false, nack: false }]
    );
    assert_eq!(device.flushes, 0);
}

#[test]
fn arbitration_loss_aborts_after_clearing_its_flag() {
    let mut device = Device {
        memory: vec![1],
        fault_after: Some((1, Flags { arlo: true, nackf: true, ..QUIET })),
        ..Device::default()
    };
    let (result, data) = device.run(Transaction::read(Address::SevenBit(3), 4, false));
    assert_eq!(result, Err(Error::ArbitrationLost));
    assert_eq!(data, vec![1]);
    assert_eq!(
        device.clears,
        vec![Clear { bus_error: false, arbitration_lost: true, stop: false, nack: false }]
    );
}

#[test]
fn nack_clears_stop_and_nack_and_flushes_the_transmit_register() {
    let mut device = Device {
        fault_after: Some((0, Flags { nackf: true, txis: false, txe: true, ..QUIET })),
        ..Device::default()
    };
    // the device answers the probes with the same flags: no dummy byte, one flush
    let t = Transaction::write(Address::SevenBit(3), vec![0x11, 0x22], false);
    let (result, _) = device.run(t);
    assert_eq!(result, Err(Error::Nack));
    assert!(device.received.is_empty());
    assert_eq!(
        device.clears,
        vec![Clear { bus_error: false, arbitration_lost: false, stop: true, nack: true }]
    );
    assert_eq!(device.flushes, 1);
}

#[test]
fn nack_feeds_a_dummy_byte_when_the_register_wants_one() {
    let mut t = Transaction::write(Address::SevenBit(3), vec![0x11], false);
    t = t.advance(Reply::Done);
    t = t.advance(Reply::Status(Flags { nackf: true, ..QUIET }));
    assert_eq!(
        t.action(),
        Action::ClearFlags(Clear { bus_error: false, arbitration_lost: false, stop: true, nack: true })
    );
    t = t.advance(Reply::Done);
    assert_eq!(t.action(), Action::ReadStatus);
    t = t.advance(Reply::Status(Flags { txis: true, ..QUIET }));
    assert_eq!(t.action(), Action::WriteData(0));
    t = t.advance(Reply::Done);
    assert_eq!(t.action(), Action::ReadStatus);
    t = t.advance(Reply::Status(QUIET));
    assert_eq!(t.action(), Action::Finished(Err(Error::Nack)));
    assert_eq!(t.result(), Some(Err(Error::Nack)));
}

#[test]
fn a_bus_reply_that_does_not_answer_is_ignored() {
    let mut t = Transaction::read(Address::SevenBit(3), 2, false);
    let announce = t.action();
    t = t.advance(Reply::Data(1));
    t = t.advance(Reply::Status(Flags { rxne: true, ..QUIET }));
    assert_eq!(t.action(), announce);
    t = t.advance(Reply::Done);
    t = t.advance(Reply::Done);
    t = t.advance(Reply::Data(1));
    assert_eq!(t.action(), Action::ReadStatus);
    t = t.advance(Reply::Status(Flags { rxne: true, ..QUIET }));
    assert_eq!(t.action(), Action::ReadData);
    t = t.advance(Reply::Done);
    assert_eq!(t.action(), Action::ReadData);
    assert_eq!(t.into_data(), Vec::<u8>::new());
}

#[test]
fn finished_transaction_stays_finished() {
    let mut device = Device::default();
    let mut t = Transaction::write(Address::SevenBit(3), vec![1], false);
    while !matches!(t.action(), Action::Finished(_)) {
        let reply = device.answer(t.action());
        t = t.advance(reply);
    }
    for reply in [Reply::Done, Reply::Data(4), Reply::Status(Flags { berr: true, ..QUIET })] {
        t = t.advance(reply);
        assert_eq!(t.action(), Action::Finished(Ok(())));
    }
}
