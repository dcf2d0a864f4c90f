//! The register protocol engine: turns each pin operation into a register
//! select, a read and (for write-class operations) a write-back, one bus
//! transfer at a time.
use vstd::prelude::*;
use crate::buffer::{TransferBuffer, BUFFER_LEN};
use crate::register::{
    Register, register_address, with_bit, with_bit_flipped, bit_of, write_bit, flip_bit, read_bit,
    NUM_PINS, lemma_with_bit_touches_one_bit, lemma_with_bit_idempotent, lemma_flip_involution,
};

verus! {

/// Pin direction, as encoded in the IoDir register.
#[derive(Clone, Copy, Debug, PartialEq, Eq, Structural)]
pub enum Direction {
    Input,
    Output,
}

/// Output level, as encoded in the Gpio register.
#[derive(Clone, Copy, Debug, PartialEq, Eq, Structural)]
pub enum PinState {
    High,
    Low,
}

/// The logical operations that the engine carries out.
#[derive(Clone, Copy, Debug, PartialEq, Eq, Structural)]
pub enum Operation {
    SetDirection,
    ConfigurePullup,
    SetPin,
    TogglePin,
    ReadPin,
}

/// Where the engine stands in a transaction.
#[derive(Clone, Copy, Debug, PartialEq, Eq, Structural)]
pub enum State {
    /// No transaction; the buffer is held and the bus is off.
    Idle,
    /// The register address is being written.
    Select(Operation),
    /// The register's current value is being read.
    Read(Operation),
    /// The new register value is being written back.
    Done,
}

#[derive(Clone, Copy, Debug, PartialEq, Eq, Structural)]
pub enum ErrorCode {
    /// A transaction is already in progress on this device.
    Busy,
    /// The pin index is not below eight.
    InvalidPin,
    /// The chip cannot do what was asked (pull-down, interrupts).
    UnsupportedOperation,
    /// The bus reported a failed transfer; the transaction was abandoned.
    BusError,
}

/// What the bus reports with each completed transfer.
#[derive(Clone, Copy, Debug, PartialEq, Eq, Structural)]
pub enum BusStatus {
    Complete,
    AddressNak,
    DataNak,
    ArbitrationLost,
}

/// A transfer for the bus to carry out with the lent buffer.
#[derive(Debug)]
pub enum BusOp {
    /// Write the first `len` bytes of `buffer` to the chip.
    Write { buffer: Vec<u8>, len: usize },
    /// Read `len` bytes from the chip into the start of `buffer`.
    Read { buffer: Vec<u8>, len: usize },
}

/// How a finished operation resolves.
#[derive(Clone, Copy, Debug, PartialEq, Eq, Structural)]
pub enum Response {
    /// A write-class operation has written its register.
    Written,
    /// A read has found the pin at this level.
    Level(bool),
}

/// What to do after a transfer completes.
#[derive(Debug)]
pub enum Step {
    /// Hand this transfer to the bus; the transaction goes on.
    Transfer(BusOp),
    /// The transaction is over: the buffer is back, so disable the bus and
    /// resolve the caller with this outcome.
    Finished(Result<Response, ErrorCode>),
    /// No transaction was in progress; nothing changed.
    Ignored,
}

/// The register that each operation reads and modifies.
pub open spec fn operation_register(op: Operation) -> Register {
    match op {
        Operation::SetDirection => Register::IoDir,
        Operation::ConfigurePullup => Register::GpPu,
        _ => Register::Gpio,
    }
}

fn operation_register_of(op: Operation) -> (r: Register)
    ensures
        r == operation_register(op),
{
    match op {
        Operation::SetDirection => Register::IoDir,
        Operation::ConfigurePullup => Register::GpPu,
        _ => Register::Gpio,
    }
}

/// IoDir encoding: 1 for input, 0 for output.
pub open spec fn direction_operand(d: Direction) -> u8 {
    match d {
        Direction::Input => 1,
        Direction::Output => 0,
    }
}

/// Gpio encoding: 1 for high, 0 for low.
pub open spec fn level_operand(v: PinState) -> u8 {
    match v {
        PinState::High => 1,
        PinState::Low => 0,
    }
}

/// The byte that a write-class operation writes back, given the byte it read.
pub open spec fn new_register_value(op: Operation, old: u8, pin: u8, operand: u8) -> u8 {
    match op {
        Operation::TogglePin => with_bit_flipped(old, pin),
        _ => with_bit(old, pin, operand == 1),
    }
}

/// A buffer whose first three bytes are a register address, a pin and an operand.
pub open spec fn staged(buf: Seq<u8>, address: u8, pin: u8, operand: u8) -> Seq<u8> {
    buf.update(0, address).update(1, pin).update(2, operand)
}

/// The driver for one expander chip.
pub struct MCP23008 {
    buffer: TransferBuffer,
    state: State,
    pin: u8,
    operand: u8,
    pullup_next: Option<bool>,
}

impl MCP23008 {
    pub closed spec fn state(&self) -> State {
        self.state
    }

    /// The transfer buffer's bytes while the device holds it.
    pub closed spec fn held(&self) -> Option<Seq<u8>> {
        self.buffer@
    }

    /// The pin index staged for the transaction in progress.
    pub closed spec fn staged_pin(&self) -> u8 {
        self.pin
    }

    /// The operand staged for the transaction in progress.
    pub closed spec fn staged_operand(&self) -> u8 {
        self.operand
    }

    /// The pull-up setting still to be written once a direction write is done.
    pub closed spec fn pullup_next(&self) -> Option<bool> {
        self.pullup_next
    }

    /// The buffer is held exactly when no transaction is in progress, and
    /// a pull-up follow-up belongs only to a direction write.
    pub closed spec fn wf(&self) -> bool {
        &&& self.buffer.wf()
        &&& (self.state is Idle <==> self.buffer@ is Some)
        &&& self.pin < NUM_PINS
        &&& (self.pullup_next is Some ==> (self.state matches State::Select(op) && op
            == Operation::SetDirection) || (self.state matches State::Read(op) && op
            == Operation::SetDirection) || self.state is Done)
    }

    /// Idle, holding a buffer with these bytes.
    pub open spec fn idle_with(&self, buf: Seq<u8>) -> bool {
        &&& self.state() is Idle
        &&& self.held() == Some(buf)
        &&& self.pullup_next() is None
    }

    /// The effect of accepting a request: the buffer leaves with the register
    /// address, pin and operand staged, and one byte of it is to be written.
    pub open spec fn started(
        old: MCP23008,
        new: MCP23008,
        r: Result<BusOp, ErrorCode>,
        op: Operation,
        pin: u8,
        operand: u8,
        pullup_next: Option<bool>,
    ) -> bool {
        &&& old.held() is Some
        &&& r matches Ok(BusOp::Write { buffer, len }) && len == 1 && buffer@ == staged(
            old.held().unwrap(),
            register_address(operation_register(op)),
            pin,
            operand,
        )
        &&& new.state() == State::Select(op)
        &&& new.held() is None
        &&& new.staged_pin() == pin
        &&& new.staged_operand() == operand
        &&& new.pullup_next() == pullup_next
    }

    /// The outcome of a request: refused with `InvalidPin` or `Busy` and no
    /// change at all, or started.
    pub open spec fn request_outcome(
        old: MCP23008,
        new: MCP23008,
        r: Result<BusOp, ErrorCode>,
        op: Operation,
        pin: u8,
        operand: u8,
        pullup_next: Option<bool>,
    ) -> bool {
        if pin >= NUM_PINS {
            r == Err::<BusOp, ErrorCode>(ErrorCode::InvalidPin) && new == old
        } else if !(old.state() is Idle) {
            r == Err::<BusOp, ErrorCode>(ErrorCode::Busy) && new == old
        } else {
            Self::started(old, new, r, op, pin, operand, pullup_next)
        }
    }

    /// A device at rest, holding `buffer`.
    pub fn new(buffer: Vec<u8>) -> (r: MCP23008)
        requires
            buffer@.len() >= BUFFER_LEN,
        ensures
            r.wf(),
            r.idle_with(buffer@),
    {
        MCP23008 {
            buffer: TransferBuffer::new(buffer),
            state: State::Idle,
            pin: 0,
            operand: 0,
            pullup_next: None,
        }
    }

    /// Whether no transaction is in progress.
    pub fn is_idle(&self) -> (r: bool)
        requires
            self.wf(),
        ensures
            r == self.state() is Idle,
    {
        self.buffer.is_available()
    }

    /// Takes the buffer, stages the request in it and asks for the register
    /// address to be written.
    fn start(&mut self, op: Operation, pin: u8, operand: u8, pullup_next: Option<bool>) -> (r: Result<
        BusOp,
        ErrorCode,
    >)
        requires
            old(self).wf(),
            pin < NUM_PINS,
            pullup_next is Some ==> op == Operation::SetDirection,
        ensures
            final(self).wf(),
            Self::request_outcome(*old(self), *final(self), r, op, pin, operand, pullup_next),
    {
        let register = operation_register_of(op);
        match self.buffer.acquire() {
            None => Err(ErrorCode::Busy),
            Some(mut buffer) => {
                buffer.set(0, register.address());
                buffer.set(1, pin);
                buffer.set(2, operand);
                self.state = State::Select(op);
                self.pin = pin;
                self.operand = operand;
                self.pullup_next = pullup_next;
                Ok(BusOp::Write { buffer, len: 1 })
            },
        }
    }

    /// Sets the direction of `pin`.
    pub fn set_direction(&mut self, pin: u8, direction: Direction) -> (r: Result<BusOp, ErrorCode>)
        requires
            old(self).wf(),
        ensures
            final(self).wf(),
            Self::request_outcome(
                *old(self),
                *final(self),
                r,
                Operation::SetDirection,
                pin,
                direction_operand(direction),
                None,
            ),
    {
        if pin >= NUM_PINS {
            return Err(ErrorCode::InvalidPin);
        }
        let operand: u8 = match direction {
            Direction::Input => 1,
            Direction::Output => 0,
        };
        self.start(Operation::SetDirection, pin, operand, None)
    }

    /// Makes `pin` an input, then enables (`pullup`) or disables its pull-up
    /// in the same transaction.
    pub fn configure_input(&mut self, pin: u8, pullup: bool) -> (r: Result<BusOp, ErrorCode>)
        requires
            old(self).wf(),
        ensures
            final(self).wf(),
            Self::request_outcome(
                *old(self),
                *final(self),
                r,
                Operation::SetDirection,
                pin,
                direction_operand(Direction::Input),
                Some(pullup),
            ),
    {
        if pin >= NUM_PINS {
            return Err(ErrorCode::InvalidPin);
        }
        self.start(Operation::SetDirection, pin, 1, Some(pullup))
    }

    /// Enables or disables the pull-up of `pin`.
    pub fn configure_pullup(&mut self, pin: u8, enabled: bool) -> (r: Result<BusOp, ErrorCode>)
        requires
            old(self).wf(),
        ensures
            final(self).wf(),
            Self::request_outcome(
                *old(self),
                *final(self),
                r,
                Operation::ConfigurePullup,
                pin,
                if enabled { 1u8 } else { 0u8 },
                None,
            ),
    {
        if pin >= NUM_PINS {
            return Err(ErrorCode::InvalidPin);
        }
        let operand: u8 = if enabled { 1 } else { 0 };
        self.start(Operation::ConfigurePullup, pin, operand, None)
    }

    /// Drives `pin` to `value`.
    pub fn set_pin(&mut self, pin: u8, value: PinState) -> (r: Result<BusOp, ErrorCode>)
        requires
            old(self).wf(),
        ensures
            final(self).wf(),
            Self::request_outcome(
                *old(self),
                *final(self),
                r,
                Operation::SetPin,
                pin,
                level_operand(value),
                None,
            ),
    {
        if pin >= NUM_PINS {
            return Err(ErrorCode::InvalidPin);
        }
        let operand: u8 = match value {
            PinState::High => 1,
            PinState::Low => 0,
        };
        self.start(Operation::SetPin, pin, operand, None)
    }

    /// Inverts the output level of `pin`.
    pub fn toggle_pin(&mut self, pin: u8) -> (r: Result<BusOp, ErrorCode>)
        requires
            old(self).wf(),
        ensures
            final(self).wf(),
            Self::request_outcome(*old(self), *final(self), r, Operation::TogglePin, pin, 0, None),
    {
        if pin >= NUM_PINS {
            return Err(ErrorCode::InvalidPin);
        }
        self.start(Operation::TogglePin, pin, 0, None)
    }

    /// Reads the level of `pin`; the level comes with the transaction's end.
    pub fn read_pin(&mut self, pin: u8) -> (r: Result<BusOp, ErrorCode>)
        requires
            old(self).wf(),
        ensures
            final(self).wf(),
            Self::request_outcome(*old(self), *final(self), r, Operation::ReadPin, pin, 0, None),
    {
        if pin >= NUM_PINS {
            return Err(ErrorCode::InvalidPin);
        }
        self.start(Operation::ReadPin, pin, 0, None)
    }

    /// The effect of a transfer completion on the device, given the buffer
    /// that the bus gave back and the status it reported.
    pub open spec fn completion_outcome(
        old: MCP23008,
        new: MCP23008,
        buf: Seq<u8>,
        status: BusStatus,
        r: Step,
    ) -> bool {
        let pin = old.staged_pin();
        let operand = old.staged_operand();
        match old.state() {
            State::Idle => r is Ignored && new == old,
            _ if status != BusStatus::Complete => {
                &&& r == Step::Finished(Err(ErrorCode::BusError))
                &&& new.idle_with(buf)
            },
            State::Select(op) => {
                &&& r matches Step::Transfer(BusOp::Read { buffer, len }) && len == 1 && buffer@
                    == buf
                &&& new.state() == State::Read(op)
                &&& new.held() is None
                &&& new.staged_pin() == pin
                &&& new.staged_operand() == operand
                &&& new.pullup_next() == old.pullup_next()
            },
            State::Read(Operation::ReadPin) => {
                &&& r == Step::Finished(Ok(Response::Level(bit_of(buf[0], pin))))
                &&& new.idle_with(buf)
            },
            State::Read(op) => {
                &&& r matches Step::Transfer(BusOp::Write { buffer, len }) && len == 2 && buffer@
                    == buf.update(0, register_address(operation_register(op))).update(
                    1,
                    new_register_value(op, buf[0], pin, operand),
                )
                &&& new.state() is Done
                &&& new.held() is None
                &&& new.staged_pin() == pin
                &&& new.pullup_next() == old.pullup_next()
            },
            State::Done => match old.pullup_next() {
                Some(on) => {
                    let operand = if on { 1u8 } else { 0u8 };
                    &&& r matches Step::Transfer(BusOp::Write { buffer, len }) && len == 1 && buffer@
                        == staged(buf, register_address(Register::GpPu), pin, operand)
                    &&& new.state() == State::Select(Operation::ConfigurePullup)
                    &&& new.held() is None
                    &&& new.staged_pin() == pin
                    &&& new.staged_operand() == operand
                    &&& new.pullup_next() is None
                },
                None => {
                    &&& r == Step::Finished(Ok(Response::Written))
                    &&& new.idle_with(buf)
                },
            },
        }
    }

    /// Advances the transaction when the bus has finished a transfer and
    /// handed `buffer` back. A failed transfer abandons the transaction: the
    /// buffer is reclaimed and the caller gets `BusError`.
    pub fn command_complete(&mut self, buffer: Vec<u8>, status: BusStatus) -> (r: Step)
        requires
            old(self).wf(),
            buffer@.len() >= BUFFER_LEN,
        ensures
            final(self).wf(),
            Self::completion_outcome(*old(self), *final(self), buffer@, status, r),
    {
        let mut buffer = buffer;
        if let State::Idle = self.state {
            return Step::Ignored;
        }
        if status != BusStatus::Complete {
            self.finish(buffer);
            return Step::Finished(Err(ErrorCode::BusError));
        }
        match self.state {
            State::Idle => Step::Ignored,
            State::Select(op) => {
                self.state = State::Read(op);
                Step::Transfer(BusOp::Read { buffer, len: 1 })
            },
            State::Read(Operation::ReadPin) => {
                let level = read_bit(buffer[0], self.pin);
                self.finish(buffer);
                Step::Finished(Ok(Response::Level(level)))
            },
            State::Read(op) => {
                let old_value = buffer[0];
                let new_value = match op {
                    Operation::TogglePin => flip_bit(old_value, self.pin),
                    _ => write_bit(old_value, self.pin, self.operand == 1),
                };
                buffer.set(0, operation_register_of(op).address());
                buffer.set(1, new_value);
                self.state = State::Done;
                Step::Transfer(BusOp::Write { buffer, len: 2 })
            },
            State::Done => match self.pullup_next {
                Some(on) => {
                    let operand: u8 = if on { 1 } else { 0 };
                    buffer.set(0, Register::GpPu.address());
                    buffer.set(1, self.pin);
                    buffer.set(2, operand);
                    self.state = State::Select(Operation::ConfigurePullup);
                    self.operand = operand;
                    self.pullup_next = None;
                    Step::Transfer(BusOp::Write { buffer, len: 1 })
                },
                None => {
                    self.finish(buffer);
                    Step::Finished(Ok(Response::Written))
                },
            },
        }
    }

    /// Ends the transaction: the buffer comes back and the device is idle.
    fn finish(&mut self, buffer: Vec<u8>)
        requires
            old(self).wf(),
            !(old(self).state() is Idle),
            buffer@.len() >= BUFFER_LEN,
        ensures
            final(self).wf(),
            final(self).idle_with(buffer@),
            final(self).staged_pin() == old(self).staged_pin(),
    {
        self.buffer.release(buffer);
        self.state = State::Idle;
        self.pullup_next = None;
    }
}

/// A direction request on a valid pin, once its select and read steps have
/// completed, writes back to IoDir the byte that was read with bit `pin` set
/// to the direction's encoding (1 for input) and every other bit as read.
pub proof fn lemma_direction_write_back(
    d0: MCP23008,
    d1: MCP23008,
    d2: MCP23008,
    d3: MCP23008,
    r0: Result<BusOp, ErrorCode>,
    r1: Step,
    r2: Step,
    buf1: Seq<u8>,
    buf2: Seq<u8>,
    pin: u8,
    direction: Direction,
    pullup_next: Option<bool>,
)
    requires
        d0.wf(),
        d0.state() is Idle,
        pin < NUM_PINS,
        buf2.len() >= BUFFER_LEN,
        MCP23008::request_outcome(
            d0,
            d1,
            r0,
            Operation::SetDirection,
            pin,
            direction_operand(direction),
            pullup_next,
        ),
        MCP23008::completion_outcome(d1, d2, buf1, BusStatus::Complete, r1),
        MCP23008::completion_outcome(d2, d3, buf2, BusStatus::Complete, r2),
    ensures
        r2 matches Step::Transfer(BusOp::Write { buffer, len }) && {
            &&& len == 2
            &&& buffer@[0] == register_address(Register::IoDir)
            &&& bit_of(buffer@[1], pin) == (direction == Direction::Input)
            &&& forall|q: u8|
                q < NUM_PINS && q != pin ==> bit_of(buffer@[1], q) == bit_of(buf2[0], q)
        },
{
    lemma_with_bit_touches_one_bit(buf2[0], pin, direction_operand(direction) == 1);
}

/// Driving a pin high twice leaves the Gpio byte as driving it high once.
pub proof fn lemma_set_idempotent(old: u8, pin: u8)
    requires
        pin < NUM_PINS,
    ensures
        new_register_value(
            Operation::SetPin,
            new_register_value(Operation::SetPin, old, pin, level_operand(PinState::High)),
            pin,
            level_operand(PinState::High),
        ) == new_register_value(Operation::SetPin, old, pin, level_operand(PinState::High)),
{
    lemma_with_bit_idempotent(old, pin, true);
}

/// Toggling a pin twice gives back the Gpio byte it started from.
pub proof fn lemma_toggle_involution(old: u8, pin: u8)
    requires
        pin < NUM_PINS,
    ensures
        new_register_value(
            Operation::TogglePin,
            new_register_value(Operation::TogglePin, old, pin, 0),
            pin,
            0,
        ) == old,
{
    lemma_flip_involution(old, pin);
}

} // verus!
