//! The chip's register map and the per-pin read-modify-write arithmetic.
use vstd::prelude::*;

verus! {

/// The chip's addressable configuration and state bytes; each bit belongs to one pin.
#[derive(Clone, Copy, Debug, PartialEq, Eq, Structural)]
pub enum Register {
    IoDir,
    IPol,
    GpIntEn,
    DefVal,
    IntCon,
    IoCon,
    GpPu,
    IntF,
    IntCap,
    Gpio,
    OLat,
}

/// The bus address of each register.
pub open spec fn register_address(r: Register) -> u8 {
    match r {
        Register::IoDir => 0x00,
        Register::IPol => 0x01,
        Register::GpIntEn => 0x02,
        Register::DefVal => 0x03,
        Register::IntCon => 0x04,
        Register::IoCon => 0x05,
        Register::GpPu => 0x06,
        Register::IntF => 0x07,
        Register::IntCap => 0x08,
        Register::Gpio => 0x09,
        Register::OLat => 0x0a,
    }
}

impl Register {
    pub fn address(self) -> (a: u8)
        ensures
            a == register_address(self),
    {
        match self {
            Register::IoDir => 0x00,
            Register::IPol => 0x01,
            Register::GpIntEn => 0x02,
            Register::DefVal => 0x03,
            Register::IntCon => 0x04,
            Register::IoCon => 0x05,
            Register::GpPu => 0x06,
            Register::IntF => 0x07,
            Register::IntCap => 0x08,
            Register::Gpio => 0x09,
            Register::OLat => 0x0a,
        }
    }
}

/// Number of pins on the chip, one per register bit.
pub const NUM_PINS: u8 = 8;

/// The register bit that belongs to `pin`.
pub open spec fn pin_mask(pin: u8) -> u8 {
    (1u8 << pin) as u8
}

/// Whether bit `pin` of `value` is set.
pub open spec fn bit_of(value: u8, pin: u8) -> bool {
    (value >> pin) & 1u8 == 1u8
}

/// The register byte with bit `pin` set (`on`) or cleared, other bits kept.
pub open spec fn with_bit(old: u8, pin: u8, on: bool) -> u8 {
    if on {
        old | pin_mask(pin)
    } else {
        old & !pin_mask(pin)
    }
}

/// The register byte with bit `pin` inverted, other bits kept.
pub open spec fn with_bit_flipped(old: u8, pin: u8) -> u8 {
    old ^ pin_mask(pin)
}

/// Sets (`on`) or clears bit `pin` of `old`.
pub fn write_bit(old: u8, pin: u8, on: bool) -> (r: u8)
    requires
        pin < NUM_PINS,
    ensures
        r == with_bit(old, pin, on),
{
    if on {
        old | (1u8 << pin)
    } else {
        old & !(1u8 << pin)
    }
}

/// Inverts bit `pin` of `old`.
pub fn flip_bit(old: u8, pin: u8) -> (r: u8)
    requires
        pin < NUM_PINS,
    ensures
        r == with_bit_flipped(old, pin),
{
    old ^ (1u8 << pin)
}

/// Reads bit `pin` of `value`.
pub fn read_bit(value: u8, pin: u8) -> (b: bool)
    requires
        pin < NUM_PINS,
    ensures
        b == bit_of(value, pin),
{
    (value >> pin) & 1u8 == 1u8
}

/// Setting or clearing one bit leaves that bit as asked and every other bit as it was.
pub proof fn lemma_with_bit_touches_one_bit(old: u8, pin: u8, on: bool)
    requires
        pin < NUM_PINS,
    ensures
        bit_of(with_bit(old, pin, on), pin) == on,
        forall|q: u8| q < NUM_PINS && q != pin ==> bit_of(with_bit(old, pin, on), q) == bit_of(old, q),
{
    assert(bit_of(old | pin_mask(pin), pin)) by (bit_vector)
        requires
            pin < 8u8,
    ;
    assert(!bit_of(old & !pin_mask(pin), pin)) by (bit_vector)
        requires
            pin < 8u8,
    ;
    assert forall|q: u8| q < NUM_PINS && q != pin implies bit_of(with_bit(old, pin, on), q) == bit_of(old, q) by {
        assert(bit_of(old | pin_mask(pin), q) == bit_of(old, q)) by (bit_vector)
            requires
                pin < 8u8,
                q < 8u8,
                q != pin,
        ;
        assert(bit_of(old & !pin_mask(pin), q) == bit_of(old, q)) by (bit_vector)
            requires
                pin < 8u8,
                q < 8u8,
                q != pin,
        ;
    }
}

/// Setting or clearing a bit a second time changes nothing more.
pub proof fn lemma_with_bit_idempotent(old: u8, pin: u8, on: bool)
    requires
        pin < NUM_PINS,
    ensures
        with_bit(with_bit(old, pin, on), pin, on) == with_bit(old, pin, on),
{
    assert((old | pin_mask(pin)) | pin_mask(pin) == old | pin_mask(pin)) by (bit_vector);
    assert((old & !pin_mask(pin)) & !pin_mask(pin) == old & !pin_mask(pin)) by (bit_vector);
}

/// Inverting a bit twice gives back the byte it started from.
pub proof fn lemma_flip_involution(old: u8, pin: u8)
    requires
        pin < NUM_PINS,
    ensures
        with_bit_flipped(with_bit_flipped(old, pin), pin) == old,
{
    assert((old ^ pin_mask(pin)) ^ pin_mask(pin) == old) by (bit_vector);
}

} // verus!
