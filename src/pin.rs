//! A handle for one pin of the expander, offering the usual digital-pin
//! operations on top of the device's engine.
use vstd::prelude::*;
use crate::device::{BusOp, Direction, ErrorCode, MCP23008, Operation, PinState};
use crate::register::NUM_PINS;

verus! {

/// How an input pin is biased.
#[derive(Clone, Copy, Debug, PartialEq, Eq, Structural)]
pub enum InputMode {
    PullUp,
    PullDown,
    PullNone,
}

/// Which edges an interrupt would fire on.
#[derive(Clone, Copy, Debug, PartialEq, Eq, Structural)]
pub enum InterruptMode {
    RisingEdge,
    FallingEdge,
    EitherEdge,
}

/// One pin of the device. The handle holds no hardware state: every
/// operation is a request to the device it is given.
#[derive(Clone, Copy, Debug)]
pub struct GPIOPin {
    pin: u8,
}

/// An operation that does nothing on the bus: refused for a bad pin index,
/// otherwise answered with `outcome`.
pub open spec fn local_outcome(pin: u8, r: Result<(), ErrorCode>, outcome: Result<(), ErrorCode>) -> bool {
    if pin >= NUM_PINS {
        r == Err::<(), ErrorCode>(ErrorCode::InvalidPin)
    } else {
        r == outcome
    }
}

impl GPIOPin {
    pub closed spec fn pin(&self) -> u8 {
        self.pin
    }

    /// A handle for pin `pin`; an index above seven is refused by each operation.
    pub fn new(pin: u8) -> (r: GPIOPin)
        ensures
            r.pin() == pin,
    {
        GPIOPin { pin }
    }

    pub fn pin_number(&self) -> (r: u8)
        ensures
            r == self.pin(),
    {
        self.pin
    }

    /// The chip has no way to disconnect a pin: this does nothing on the bus.
    pub fn disable(&self) -> (r: Result<(), ErrorCode>)
        ensures
            local_outcome(self.pin(), r, Ok(())),
    {
        if self.pin >= NUM_PINS {
            Err(ErrorCode::InvalidPin)
        } else {
            Ok(())
        }
    }

    /// Makes the pin an output.
    pub fn enable_output(&self, device: &mut MCP23008) -> (r: Result<BusOp, ErrorCode>)
        requires
            old(device).wf(),
        ensures
            final(device).wf(),
            MCP23008::request_outcome(
                *old(device),
                *final(device),
                r,
                Operation::SetDirection,
                self.pin(),
                0,
                None,
            ),
    {
        device.set_direction(self.pin, Direction::Output)
    }

    /// Makes the pin an input with the pull-up on or off; pull-down is refused
    /// without any bus activity, as the chip has no pull-down resistor.
    pub fn enable_input(&self, device: &mut MCP23008, mode: InputMode) -> (r: Result<BusOp, ErrorCode>)
        requires
            old(device).wf(),
        ensures
            final(device).wf(),
            mode == InputMode::PullDown ==> *final(device) == *old(device) && r == if self.pin()
                >= NUM_PINS {
                Err::<BusOp, ErrorCode>(ErrorCode::InvalidPin)
            } else {
                Err::<BusOp, ErrorCode>(ErrorCode::UnsupportedOperation)
            },
            mode != InputMode::PullDown ==> MCP23008::request_outcome(
                *old(device),
                *final(device),
                r,
                Operation::SetDirection,
                self.pin(),
                1,
                Some(mode == InputMode::PullUp),
            ),
    {
        match mode {
            InputMode::PullUp => device.configure_input(self.pin, true),
            InputMode::PullNone => device.configure_input(self.pin, false),
            InputMode::PullDown => {
                if self.pin >= NUM_PINS {
                    Err(ErrorCode::InvalidPin)
                } else {
                    Err(ErrorCode::UnsupportedOperation)
                }
            },
        }
    }

    /// Reads the pin's level; the level comes with the transaction's end.
    pub fn read(&self, device: &mut MCP23008) -> (r: Result<BusOp, ErrorCode>)
        requires
            old(device).wf(),
        ensures
            final(device).wf(),
            MCP23008::request_outcome(
                *old(device),
                *final(device),
                r,
                Operation::ReadPin,
                self.pin(),
                0,
                None,
            ),
    {
        device.read_pin(self.pin)
    }

    /// Inverts the pin's output level.
    pub fn toggle(&self, device: &mut MCP23008) -> (r: Result<BusOp, ErrorCode>)
        requires
            old(device).wf(),
        ensures
            final(device).wf(),
            MCP23008::request_outcome(
                *old(device),
                *final(device),
                r,
                Operation::TogglePin,
                self.pin(),
                0,
                None,
            ),
    {
        device.toggle_pin(self.pin)
    }

    /// Drives the pin high.
    pub fn set(&self, device: &mut MCP23008) -> (r: Result<BusOp, ErrorCode>)
        requires
            old(device).wf(),
        ensures
            final(device).wf(),
            MCP23008::request_outcome(
                *old(device),
                *final(device),
                r,
                Operation::SetPin,
                self.pin(),
                1,
                None,
            ),
    {
        device.set_pin(self.pin, PinState::High)
    }

    /// Drives the pin low.
    pub fn clear(&self, device: &mut MCP23008) -> (r: Result<BusOp, ErrorCode>)
        requires
            old(device).wf(),
        ensures
            final(device).wf(),
            MCP23008::request_outcome(
                *old(device),
                *final(device),
                r,
                Operation::SetPin,
                self.pin(),
                0,
                None,
            ),
    {
        device.set_pin(self.pin, PinState::Low)
    }

    /// Pin-change interrupts are not wired on this chip: always refused.
    pub fn enable_interrupt(&self, _client_data: usize, _mode: InterruptMode) -> (r: Result<(), ErrorCode>)
        ensures
            local_outcome(self.pin(), r, Err(ErrorCode::UnsupportedOperation)),
    {
        if self.pin >= NUM_PINS {
            Err(ErrorCode::InvalidPin)
        } else {
            Err(ErrorCode::UnsupportedOperation)
        }
    }

    /// Pin-change interrupts are not wired on this chip: always refused.
    pub fn disable_interrupt(&self) -> (r: Result<(), ErrorCode>)
        ensures
            local_outcome(self.pin(), r, Err(ErrorCode::UnsupportedOperation)),
    {
        if self.pin >= NUM_PINS {
            Err(ErrorCode::InvalidPin)
        } else {
            Err(ErrorCode::UnsupportedOperation)
        }
    }
}

} // verus!
