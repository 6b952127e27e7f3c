//! The decisions of one I2C read or write.
//!
//! A [`Transaction`] is a state machine. In each state it asks for one
//! register access ([`Transaction::action`]); the owner of the register
//! block performs it and hands the reply back
//! ([`Transaction::advance`]). Data moves in chunks of at most 255
//! bytes; a bus fault ends the transaction at once, after the fault flag
//! is cleared and, for a missing acknowledge, the transmit register is
//! flushed.

use vstd::prelude::*;
use crate::i2c::bus::Error;

verus! {

/// Most bytes the peripheral moves before it must be told how to go on.
pub const CHUNK: usize = 255;

/// The status flags the protocol consumes.
#[derive(Clone, Copy, Debug, PartialEq, Eq, Structural)]
pub struct Flags {
    /// A transfer is in progress on the bus.
    pub busy: bool,
    /// The receive register holds a byte.
    pub rxne: bool,
    /// The transmit register wants the next byte.
    pub txis: bool,
    /// The transmit register is empty.
    pub txe: bool,
    /// A chunk is complete and the peripheral waits to be reloaded.
    pub tcr: bool,
    /// A stop condition was seen.
    pub stopf: bool,
    /// Bus error.
    pub berr: bool,
    /// Arbitration lost.
    pub arlo: bool,
    /// The device did not acknowledge.
    pub nackf: bool,
}

/// The flag a wait is for.
#[derive(Clone, Copy, Debug, PartialEq, Eq, Structural)]
pub enum Awaited {
    /// A received byte.
    Received,
    /// Room for a byte to transmit.
    TransmitReady,
    /// The end of a chunk that is not the last.
    Reload,
    /// The stop condition.
    Stop,
}

/// What one look at the status flags tells a wait.
#[derive(Clone, Copy, Debug, PartialEq, Eq, Structural)]
pub enum Wait {
    /// The awaited flag is set.
    Ready,
    /// Nothing yet: look again.
    Retry,
    /// The bus reports a fault.
    Fault(Error),
}

/// Whether the awaited flag is set in `flags`.
pub open spec fn is_raised(flags: Flags, awaited: Awaited) -> bool {
    match awaited {
        Awaited::Received => flags.rxne,
        Awaited::TransmitReady => flags.txis,
        Awaited::Reload => flags.tcr,
        Awaited::Stop => flags.stopf,
    }
}

/// What `flags` tell a wait for `awaited`: the awaited flag wins, then
/// bus error, then arbitration loss, then a missing acknowledge.
pub open spec fn spec_busy_wait(flags: Flags, awaited: Awaited) -> Wait {
    if is_raised(flags, awaited) {
        Wait::Ready
    } else if flags.berr {
        Wait::Fault(Error::BusError)
    } else if flags.arlo {
        Wait::Fault(Error::ArbitrationLost)
    } else if flags.nackf {
        Wait::Fault(Error::Nack)
    } else {
        Wait::Retry
    }
}

/// What `flags` tell a wait for `awaited`.
#[verifier::when_used_as_spec(spec_busy_wait)]
pub fn busy_wait(flags: Flags, awaited: Awaited) -> (wait: Wait)
    ensures
        wait == spec_busy_wait(flags, awaited),
{
    let raised = match awaited {
        Awaited::Received => flags.rxne,
        Awaited::TransmitReady => flags.txis,
        Awaited::Reload => flags.tcr,
        Awaited::Stop => flags.stopf,
    };
    if raised {
        Wait::Ready
    } else if flags.berr {
        Wait::Fault(Error::BusError)
    } else if flags.arlo {
        Wait::Fault(Error::ArbitrationLost)
    } else if flags.nackf {
        Wait::Fault(Error::Nack)
    } else {
        Wait::Retry
    }
}

/// The address of a device on the bus.
#[derive(Clone, Copy, Debug, PartialEq, Eq, Structural)]
pub enum Address {
    /// A seven-bit address.
    SevenBit(u8),
    /// A ten-bit address.
    TenBit(u16),
}

impl Address {
    /// The address field of the control register for this address: a
    /// seven-bit address shifted left by one, a ten-bit address as it is.
    pub open spec fn field(self) -> u16 {
        match self {
            Address::SevenBit(address) => (address * 2) as u16,
            Address::TenBit(address) => address,
        }
    }

    /// The address field of the control register for this address.
    pub fn to_field(self) -> (field: u16)
        ensures
            field == self.field(),
    {
        match self {
            Address::SevenBit(address) => {
                let wide: u16 = address as u16;
                wide * 2
            },
            Address::TenBit(address) => address,
        }
    }

    /// Whether the address is a ten-bit one.
    pub fn is_ten_bit(self) -> (ten_bit: bool)
        ensures
            ten_bit == (self is TenBit),
    {
        match self {
            Address::SevenBit(_) => false,
            Address::TenBit(_) => true,
        }
    }
}

/// The addressing part of a control register update, present only in
/// the update that starts a transaction.
#[derive(Clone, Copy, Debug, PartialEq, Eq, Structural)]
pub struct Start {
    /// Ten-bit addressing.
    pub ten_bit: bool,
    /// The address field: a ten-bit address as it is, a seven-bit one
    /// shifted left by one.
    pub address: u16,
    /// Transfer direction: read when set.
    pub read: bool,
}

/// One update of the control register that announces a chunk.
#[derive(Clone, Copy, Debug, PartialEq, Eq)]
pub struct Control {
    /// Address and direction, with a start condition; only for the
    /// first chunk.
    pub start: Option<Start>,
    /// Number of bytes in the chunk.
    pub nbytes: u8,
    /// Whether this is the last chunk: the peripheral then ends the
    /// transfer by itself with a stop condition. Otherwise it waits to
    /// be reloaded.
    pub last: bool,
}

/// The flags one write of the interrupt clear register clears.
#[derive(Clone, Copy, Debug, PartialEq, Eq, Structural)]
pub struct Clear {
    pub bus_error: bool,
    pub arbitration_lost: bool,
    pub stop: bool,
    pub nack: bool,
}

/// The register access a transaction asks for next.
#[derive(Clone, Copy, Debug, PartialEq, Eq)]
pub enum Action {
    /// Read the status register and reply with [`Reply::Status`].
    ReadStatus,
    /// Update the control register and reply with [`Reply::Done`].
    Control(Control),
    /// Read the receive register and reply with [`Reply::Data`].
    ReadData,
    /// Write this byte to the transmit register and reply with
    /// [`Reply::Done`].
    WriteData(u8),
    /// Write the interrupt clear register and reply with
    /// [`Reply::Done`].
    ClearFlags(Clear),
    /// Set the transmit-empty flag to flush the transmit register, and
    /// reply with [`Reply::Done`].
    FlushTransmit,
    /// Nothing more to do: the transaction ended with this result.
    Finished(Result<(), Error>),
}

/// What the hardware answered to an [`Action`].
#[derive(Clone, Copy, Debug, PartialEq, Eq, Structural)]
pub enum Reply {
    /// The flags read from the status register.
    Status(Flags),
    /// The byte read from the receive register.
    Data(u8),
    /// The write has been performed.
    Done,
}

/// Where a transaction stands.
#[derive(Clone, Copy, Debug, PartialEq, Eq)]
pub enum Phase {
    /// Waiting for the bus to be free.
    AwaitBus,
    /// About to announce the next chunk.
    Announce,
    /// Waiting until the next byte can be moved.
    AwaitByte,
    /// About to move the next byte.
    MoveByte,
    /// Waiting for the end of a chunk that is not the last.
    AwaitReload,
    /// Waiting for the stop condition.
    AwaitStop,
    /// About to clear the stop flag.
    ClearStop,
    /// About to clear the flag of the fault.
    ClearFault(Error),
    /// After a missing acknowledge: looking whether the transmit
    /// register wants a byte.
    ProbeTransmit(Error),
    /// After a missing acknowledge: about to feed the transmit register
    /// a dummy byte.
    FeedDummy(Error),
    /// After a missing acknowledge: looking whether the transmit
    /// register is flagged empty.
    ProbeEmpty(Error),
    /// After a missing acknowledge: about to flush the transmit
    /// register.
    Flush(Error),
    /// The transaction is over.
    Finished(Result<(), Error>),
}

/// The abstract state of a transaction.
pub struct State {
    /// Direction: read when set.
    pub read: bool,
    /// The address field of the start update.
    pub address: u16,
    /// Ten-bit addressing.
    pub ten_bit: bool,
    /// The bytes to send, or the bytes received so far.
    pub data: Seq<u8>,
    /// Number of bytes to move.
    pub len: nat,
    /// Number of bytes moved so far.
    pub pos: nat,
    /// Where the transaction stands.
    pub phase: Phase,
}

/// The flags to clear for `error`: its own, and for a missing
/// acknowledge the stop flag with it.
pub open spec fn clear_for(error: Error) -> Clear {
    Clear {
        bus_error: error == Error::BusError,
        arbitration_lost: error == Error::ArbitrationLost,
        stop: error == Error::Nack,
        nack: error == Error::Nack,
    }
}

impl State {
    /// What holds of every state: no more bytes are moved than asked
    /// for; a write holds all its bytes, a read those it has received; a
    /// byte is only waited for or moved while one is left; and the stop
    /// condition is only waited for, and success only reported, once
    /// every byte has been moved.
    pub open spec fn wf(self) -> bool {
        &&& self.pos <= self.len
        &&& self.len <= usize::MAX
        &&& self.read ==> self.data.len() == self.pos
        &&& !self.read ==> self.data.len() == self.len
        &&& self.phase is AwaitBus ==> self.pos == 0
        &&& self.phase is Announce ==> self.pos < self.len || self.len == 0
        &&& self.phase is AwaitByte || self.phase is MoveByte ==> self.pos < self.len
        &&& self.phase is AwaitStop || self.phase is ClearStop || self.phase == Phase::Finished(
            Ok(()),
        ) ==> self.pos == self.len
    }

    /// The phase a transaction enters once the bus is free: a read of
    /// nothing only waits for the stop condition; everything else
    /// announces its first chunk.
    pub open spec fn entry(read: bool, len: nat) -> Phase {
        if read && len == 0 {
            Phase::AwaitStop
        } else {
            Phase::Announce
        }
    }

    /// Index of the last chunk.
    pub open spec fn last_chunk(self) -> nat {
        self.len / (CHUNK as nat)
    }

    /// The control update that announces the chunk at the current
    /// position.
    pub open spec fn control(self) -> Control {
        let remaining = self.len - self.pos;
        Control {
            start: if self.pos == 0 {
                Some(Start { ten_bit: self.ten_bit, address: self.address, read: self.read })
            } else {
                None
            },
            nbytes: (if remaining < CHUNK {
                remaining
            } else {
                CHUNK as int
            }) as u8,
            last: self.pos / (CHUNK as nat) == self.last_chunk(),
        }
    }

    /// The flag a wait for the next byte is for.
    pub open spec fn byte_flag(self) -> Awaited {
        if self.read {
            Awaited::Received
        } else {
            Awaited::TransmitReady
        }
    }

    /// The access asked for in this state.
    pub open spec fn action(self) -> Action {
        match self.phase {
            Phase::AwaitBus => Action::ReadStatus,
            Phase::Announce => Action::Control(self.control()),
            Phase::AwaitByte => Action::ReadStatus,
            Phase::MoveByte => if self.read {
                Action::ReadData
            } else {
                Action::WriteData(self.data[self.pos as int])
            },
            Phase::AwaitReload => Action::ReadStatus,
            Phase::AwaitStop => Action::ReadStatus,
            Phase::ClearStop => Action::ClearFlags(
                Clear { bus_error: false, arbitration_lost: false, stop: true, nack: false },
            ),
            Phase::ClearFault(error) => Action::ClearFlags(clear_for(error)),
            Phase::ProbeTransmit(_) => Action::ReadStatus,
            Phase::FeedDummy(_) => Action::WriteData(0),
            Phase::ProbeEmpty(_) => Action::ReadStatus,
            Phase::Flush(_) => Action::FlushTransmit,
            Phase::Finished(result) => Action::Finished(result),
        }
    }

    /// The state with its phase replaced.
    pub open spec fn at(self, phase: Phase) -> State {
        State { phase, ..self }
    }

    /// The phase after a wait for `awaited` saw `flags`, where `ready`
    /// is the phase to go on with.
    pub open spec fn waited(self, flags: Flags, awaited: Awaited, ready: Phase) -> Phase {
        match spec_busy_wait(flags, awaited) {
            Wait::Ready => ready,
            Wait::Retry => self.phase,
            Wait::Fault(error) => Phase::ClearFault(error),
        }
    }

    /// The state after one more byte has been moved.
    pub open spec fn moved(self, data: Seq<u8>) -> State {
        let pos = self.pos + 1;
        let phase = if pos % (CHUNK as nat) == 0 || pos == self.len {
            if self.pos / (CHUNK as nat) != self.last_chunk() {
                Phase::AwaitReload
            } else {
                Phase::AwaitStop
            }
        } else {
            Phase::AwaitByte
        };
        State { data, pos, phase, ..self }
    }

    /// The state after `reply`. A reply that does not answer the pending
    /// access leaves the state as it is.
    pub open spec fn next(self, reply: Reply) -> State {
        match (self.phase, reply) {
            (Phase::AwaitBus, Reply::Status(flags)) => if flags.busy {
                self
            } else {
                self.at(Self::entry(self.read, self.len))
            },
            (Phase::Announce, Reply::Done) => if self.len == 0 {
                self.at(Phase::Finished(Ok(())))
            } else {
                self.at(Phase::AwaitByte)
            },
            (Phase::AwaitByte, Reply::Status(flags)) => self.at(
                self.waited(flags, self.byte_flag(), Phase::MoveByte),
            ),
            (Phase::MoveByte, Reply::Data(byte)) => if self.read {
                self.moved(self.data.push(byte))
            } else {
                self
            },
            (Phase::MoveByte, Reply::Done) => if self.read {
                self
            } else {
                self.moved(self.data)
            },
            (Phase::AwaitReload, Reply::Status(flags)) => self.at(
                self.waited(
                    flags,
                    Awaited::Reload,
                    if self.pos < self.len {
                        Phase::Announce
                    } else {
                        Phase::AwaitStop
                    },
                ),
            ),
            (Phase::AwaitStop, Reply::Status(flags)) => self.at(
                self.waited(flags, Awaited::Stop, Phase::ClearStop),
            ),
            (Phase::ClearStop, Reply::Done) => self.at(Phase::Finished(Ok(()))),
            (Phase::ClearFault(error), Reply::Done) => if error == Error::Nack {
                self.at(Phase::ProbeTransmit(error))
            } else {
                self.at(Phase::Finished(Err(error)))
            },
            (Phase::ProbeTransmit(error), Reply::Status(flags)) => if flags.txis {
                self.at(Phase::FeedDummy(error))
            } else {
                self.at(Phase::ProbeEmpty(error))
            },
            (Phase::FeedDummy(error), Reply::Done) => self.at(Phase::ProbeEmpty(error)),
            (Phase::ProbeEmpty(error), Reply::Status(flags)) => if flags.txe {
                self.at(Phase::Flush(error))
            } else {
                self.at(Phase::Finished(Err(error)))
            },
            (Phase::Flush(error), Reply::Done) => self.at(Phase::Finished(Err(error))),
            _ => self,
        }
    }
}

/// One I2C read or write in progress.
pub struct Transaction {
    read: bool,
    address: u16,
    ten_bit: bool,
    data: Vec<u8>,
    len: usize,
    pos: usize,
    phase: Phase,
}

impl View for Transaction {
    type V = State;

    closed spec fn view(&self) -> State {
        State {
            read: self.read,
            address: self.address,
            ten_bit: self.ten_bit,
            data: self.data@,
            len: self.len as nat,
            pos: self.pos as nat,
            phase: self.phase,
        }
    }
}

impl Transaction {
    #[verifier::type_invariant]
    spec fn inv(&self) -> bool {
        self@.wf()
    }

    /// The state in which a transaction begins.
    pub open spec fn initial(
        read: bool,
        address: u16,
        ten_bit: bool,
        data: Seq<u8>,
        len: nat,
        wait_for_bus: bool,
    ) -> State {
        State {
            read,
            address,
            ten_bit,
            data,
            len,
            pos: 0,
            phase: if wait_for_bus {
                Phase::AwaitBus
            } else {
                State::entry(read, len)
            },
        }
    }

    /// Begins a read of `len` bytes from the device at `address`. With
    /// `wait_for_bus` the transaction first waits until the bus is free.
    pub fn read(address: Address, len: usize, wait_for_bus: bool) -> (t: Transaction)
        ensures
            t@ == Self::initial(
                true,
                address.field(),
                address is TenBit,
                Seq::<u8>::empty(),
                len as nat,
                wait_for_bus,
            ),
            t@.wf(),
    {
        let phase = if wait_for_bus {
            Phase::AwaitBus
        } else if len == 0 {
            Phase::AwaitStop
        } else {
            Phase::Announce
        };
        Transaction {
            read: true,
            address: address.to_field(),
            ten_bit: address.is_ten_bit(),
            data: Vec::new(),
            len,
            pos: 0,
            phase,
        }
    }

    /// Begins a write of `bytes` to the device at `address`. With
    /// `wait_for_bus` the transaction first waits until the bus is free.
    pub fn write(address: Address, bytes: Vec<u8>, wait_for_bus: bool) -> (t: Transaction)
        ensures
            t@ == Self::initial(
                false,
                address.field(),
                address is TenBit,
                bytes@,
                bytes@.len(),
                wait_for_bus,
            ),
            t@.wf(),
    {
        let phase = if wait_for_bus {
            Phase::AwaitBus
        } else {
            Phase::Announce
        };
        let len = bytes.len();
        Transaction {
            read: false,
            address: address.to_field(),
            ten_bit: address.is_ten_bit(),
            data: bytes,
            len,
            pos: 0,
            phase,
        }
    }

    /// The access the transaction asks for next.
    pub fn action(&self) -> (a: Action)
        ensures
            a == self@.action(),
            self@.wf(),
    {
        proof {
            use_type_invariant(self);
        }
        match self.phase {
            Phase::AwaitBus => Action::ReadStatus,
            Phase::Announce => {
                let remaining: usize = self.len - self.pos;
                let start = if self.pos == 0 {
                    Some(Start { ten_bit: self.ten_bit, address: self.address, read: self.read })
                } else {
                    None
                };
                let nbytes: u8 = if remaining < CHUNK {
                    remaining as u8
                } else {
                    CHUNK as u8
                };
                Action::Control(
                    Control { start, nbytes, last: self.pos / CHUNK == self.len / CHUNK },
                )
            },
            Phase::AwaitByte => Action::ReadStatus,
            Phase::MoveByte => if self.read {
                Action::ReadData
            } else {
                Action::WriteData(self.data[self.pos])
            },
            Phase::AwaitReload => Action::ReadStatus,
            Phase::AwaitStop => Action::ReadStatus,
            Phase::ClearStop => Action::ClearFlags(
                Clear { bus_error: false, arbitration_lost: false, stop: true, nack: false },
            ),
            Phase::ClearFault(error) => Action::ClearFlags(clear_flags(error)),
            Phase::ProbeTransmit(_) => Action::ReadStatus,
            Phase::FeedDummy(_) => Action::WriteData(0),
            Phase::ProbeEmpty(_) => Action::ReadStatus,
            Phase::Flush(_) => Action::FlushTransmit,
            Phase::Finished(result) => Action::Finished(result),
        }
    }

    /// Takes the hardware's reply to the pending access and moves on.
    pub fn advance(self, reply: Reply) -> (next: Transaction)
        ensures
            next@ == self@.next(reply),
            next@.wf(),
    {
        proof {
            use_type_invariant(&self);
        }
        let Transaction { read, address, ten_bit, data, len, pos, phase } = self;
        let mut data = data;
        let mut pos = pos;
        let phase = match (phase, reply) {
            (Phase::AwaitBus, Reply::Status(flags)) => {
                if flags.busy {
                    phase
                } else if read && len == 0 {
                    Phase::AwaitStop
                } else {
                    Phase::Announce
                }
            },
            (Phase::Announce, Reply::Done) => {
                if len == 0 {
                    Phase::Finished(Ok(()))
                } else {
                    Phase::AwaitByte
                }
            },
            (Phase::AwaitByte, Reply::Status(flags)) => {
                let awaited = if read {
                    Awaited::Received
                } else {
                    Awaited::TransmitReady
                };
                after_wait(flags, awaited, phase, Phase::MoveByte)
            },
            (Phase::MoveByte, Reply::Data(byte)) => {
                if read {
                    data.push(byte);
                    pos = pos + 1;
                    after_move(pos, len)
                } else {
                    phase
                }
            },
            (Phase::MoveByte, Reply::Done) => {
                if read {
                    phase
                } else {
                    pos = pos + 1;
                    after_move(pos, len)
                }
            },
            (Phase::AwaitReload, Reply::Status(flags)) => {
                let ready = if pos < len {
                    Phase::Announce
                } else {
                    Phase::AwaitStop
                };
                after_wait(flags, Awaited::Reload, phase, ready)
            },
            (Phase::AwaitStop, Reply::Status(flags)) => {
                after_wait(flags, Awaited::Stop, phase, Phase::ClearStop)
            },
            (Phase::ClearStop, Reply::Done) => Phase::Finished(Ok(())),
            (Phase::ClearFault(error), Reply::Done) => {
                match error {
                    Error::Nack => Phase::ProbeTransmit(error),
                    _ => Phase::Finished(Err(error)),
                }
            },
            (Phase::ProbeTransmit(error), Reply::Status(flags)) => {
                if flags.txis {
                    Phase::FeedDummy(error)
                } else {
                    Phase::ProbeEmpty(error)
                }
            },
            (Phase::FeedDummy(error), Reply::Done) => Phase::ProbeEmpty(error),
            (Phase::ProbeEmpty(error), Reply::Status(flags)) => {
                if flags.txe {
                    Phase::Flush(error)
                } else {
                    Phase::Finished(Err(error))
                }
            },
            (Phase::Flush(error), Reply::Done) => Phase::Finished(Err(error)),
            _ => phase,
        };
        Transaction { read, address, ten_bit, data, len, pos, phase }
    }

    /// The result, once the transaction is over.
    pub fn result(&self) -> (r: Option<Result<(), Error>>)
        ensures
            r == match self@.phase {
                Phase::Finished(result) => Some(result),
                _ => None,
            },
            self@.wf(),
    {
        proof {
            use_type_invariant(self);
        }
        match self.phase {
            Phase::Finished(result) => Some(result),
            _ => None,
        }
    }

    /// The bytes of the transaction: those received so far for a read,
    /// those to send for a write.
    pub fn into_data(self) -> (data: Vec<u8>)
        ensures
            data@ == self@.data,
            self@.wf(),
    {
        proof {
            use_type_invariant(&self);
        }
        self.data
    }
}

/// The phase after byte number `pos` of `len` has been moved: a wait for
/// the reload at the end of a chunk that is not the last, a wait for the
/// stop condition at the end of the last chunk, else a wait for the next
/// byte.
fn after_move(pos: usize, len: usize) -> (phase: Phase)
    requires
        0 < pos <= len,
    ensures
        phase == if pos as nat % (CHUNK as nat) == 0 || pos == len {
            if (pos - 1) as nat / (CHUNK as nat) != len as nat / (CHUNK as nat) {
                Phase::AwaitReload
            } else {
                Phase::AwaitStop
            }
        } else {
            Phase::AwaitByte
        },
        !(phase is MoveByte || phase is Announce),
        phase is AwaitByte ==> pos < len,
{
    if pos % CHUNK == 0 || pos == len {
        if (pos - 1) / CHUNK != len / CHUNK {
            Phase::AwaitReload
        } else {
            Phase::AwaitStop
        }
    } else {
        Phase::AwaitByte
    }
}

/// The flags to clear for `error`.
fn clear_flags(error: Error) -> (clear: Clear)
    ensures
        clear == clear_for(error),
{
    match error {
        Error::BusError => Clear {
            bus_error: true,
            arbitration_lost: false,
            stop: false,
            nack: false,
        },
        Error::ArbitrationLost => Clear {
            bus_error: false,
            arbitration_lost: true,
            stop: false,
            nack: false,
        },
        Error::Nack => Clear { bus_error: false, arbitration_lost: false, stop: true, nack: true },
        _ => Clear { bus_error: false, arbitration_lost: false, stop: false, nack: false },
    }
}

/// The phase after a wait for `awaited` saw `flags`: `ready` when the
/// flag is set, the fault's clean-up on a fault, else `current` again.
fn after_wait(flags: Flags, awaited: Awaited, current: Phase, ready: Phase) -> (phase: Phase)
    ensures
        phase == match spec_busy_wait(flags, awaited) {
            Wait::Ready => ready,
            Wait::Retry => current,
            Wait::Fault(error) => Phase::ClearFault(error),
        },
{
    match busy_wait(flags, awaited) {
        Wait::Ready => ready,
        Wait::Retry => current,
        Wait::Fault(error) => Phase::ClearFault(error),
    }
}

impl State {
    /// The state after the replies of `replies`, taken one by one.
    pub open spec fn run(self, replies: Seq<Reply>) -> State
        decreases replies.len(),
    {
        if replies.len() == 0 {
            self
        } else {
            self.next(replies[0]).run(replies.drop_first())
        }
    }
}

/// Whatever the hardware answers, a transaction stays well formed.
pub proof fn lemma_next_preserves_wf(state: State, reply: Reply)
    requires
        state.wf(),
    ensures
        state.next(reply).wf(),
{
    if state.phase is MoveByte {
        let pos = state.pos + 1;
        let chunk = CHUNK as nat;
        if pos % chunk == 0 && pos != state.len && state.pos / chunk == state.len / chunk {
            assert(false) by (nonlinear_arith)
                requires
                    pos % 255 == 0,
                    pos == state.pos + 1,
                    pos < state.len,
                    state.pos / 255 == state.len / 255,
            ;
        }
    }
}

/// Whatever the hardware answers, and however long it takes, a
/// transaction stays well formed. So one that reports success has moved
/// every byte: a read then holds as many bytes as were asked for.
pub proof fn lemma_run_preserves_wf(state: State, replies: Seq<Reply>)
    requires
        state.wf(),
    ensures
        state.run(replies).wf(),
        state.run(replies).phase == Phase::Finished(Ok(())) ==> state.run(replies).data.len()
            == state.len,
        state.run(replies).len == state.len,
        state.run(replies).read == state.read,
    decreases replies.len(),
{
    if replies.len() > 0 {
        lemma_next_preserves_wf(state, replies[0]);
        lemma_run_preserves_wf(state.next(replies[0]), replies.drop_first());
    }
}

/// A write never changes its bytes, and sends them in order: the byte
/// it asks to send is always the one at its position.
pub proof fn lemma_write_sends_in_order(state: State, reply: Reply)
    requires
        state.wf(),
        !state.read,
    ensures
        state.next(reply).data == state.data,
        state.phase is MoveByte ==> state.action() == Action::WriteData(
            state.data[state.pos as int],
        ),
        state.next(reply).pos == state.pos || (state.phase is MoveByte && state.next(reply).pos
            == state.pos + 1),
{
}

/// A read appends each byte it is given, and nothing else, to what it
/// has received.
pub proof fn lemma_read_appends(state: State, reply: Reply)
    requires
        state.wf(),
        state.read,
    ensures
        state.next(reply).data == match (state.phase, reply) {
            (Phase::MoveByte, Reply::Data(byte)) => state.data.push(byte),
            _ => state.data,
        },
{
}

/// A bus fault seen while waiting ends the transaction with that fault:
/// bus error and arbitration loss after their flag is cleared.
pub proof fn lemma_fault_aborts(state: State, flags: Flags, error: Error)
    requires
        state.phase is AwaitByte || state.phase is AwaitReload || state.phase is AwaitStop,
        state.next(Reply::Status(flags)).phase == Phase::ClearFault(error),
    ensures
        error == Error::BusError || error == Error::ArbitrationLost || error == Error::Nack,
        state.next(Reply::Status(flags)).action() == Action::ClearFlags(clear_for(error)),
        error != Error::Nack ==> state.next(Reply::Status(flags)).next(Reply::Done).phase
            == Phase::Finished(Err(error)),
        error == Error::Nack ==> state.next(Reply::Status(flags)).next(Reply::Done).phase
            == Phase::ProbeTransmit(error),
{
}

/// After a missing acknowledge the transmit register is flushed: a
/// dummy byte is fed if the register wants one, the register is flushed
/// if it is flagged empty, and the transaction then ends with the fault.
pub proof fn lemma_nack_flushes(state: State, first: Flags, second: Flags)
    requires
        state.phase == Phase::ProbeTransmit(Error::Nack),
    ensures
        ({
            let probed = state.next(Reply::Status(first));
            let fed = if first.txis {
                probed.next(Reply::Done)
            } else {
                probed
            };
            let emptied = fed.next(Reply::Status(second));
            let flushed = if second.txe {
                emptied.next(Reply::Done)
            } else {
                emptied
            };
            &&& first.txis ==> probed.action() == Action::WriteData(0)
            &&& fed.phase == Phase::ProbeEmpty(Error::Nack)
            &&& second.txe ==> emptied.action() == Action::FlushTransmit
            &&& flushed.phase == Phase::Finished(Err(Error::Nack))
        }),
{
}

} // verus!
