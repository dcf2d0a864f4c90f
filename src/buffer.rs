//! The transfer buffer: one byte buffer that is either held here or lent out
//! to the bus for the length of one transaction.
use vstd::prelude::*;

verus! {

/// Smallest buffer that can stage a register address, a pin index and an operand.
pub const BUFFER_LEN: usize = 4;

/// A single-slot owner of the transfer buffer.
pub struct TransferBuffer {
    slot: Option<Vec<u8>>,
}

impl View for TransferBuffer {
    /// The buffer's bytes while it is held here; `None` while it is lent out.
    type V = Option<Seq<u8>>;

    closed spec fn view(&self) -> Option<Seq<u8>> {
        match self.slot {
            Some(b) => Some(b@),
            None => None,
        }
    }
}

impl TransferBuffer {
    /// A held buffer is always long enough to stage a request.
    pub open spec fn wf(&self) -> bool {
        self@ matches Some(b) ==> b.len() >= BUFFER_LEN
    }

    pub fn new(buffer: Vec<u8>) -> (r: TransferBuffer)
        requires
            buffer@.len() >= BUFFER_LEN,
        ensures
            r.wf(),
            r@ == Some(buffer@),
    {
        TransferBuffer { slot: Some(buffer) }
    }

    /// Whether the buffer is held here, ready to be acquired.
    pub fn is_available(&self) -> (r: bool)
        ensures
            r == self@ is Some,
    {
        self.slot.is_some()
    }

    /// Checks the buffer out; fails, changing nothing, if it is already out.
    pub fn acquire(&mut self) -> (r: Option<Vec<u8>>)
        requires
            old(self).wf(),
        ensures
            final(self).wf(),
            match old(self)@ {
                Some(b) => r matches Some(v) && v@ == b && final(self)@ is None,
                None => r is None && *final(self) == *old(self),
            },
    {
        self.slot.take()
    }

    /// Takes a lent-out buffer back.
    pub fn release(&mut self, buffer: Vec<u8>)
        requires
            old(self)@ is None,
            buffer@.len() >= BUFFER_LEN,
        ensures
            final(self).wf(),
            final(self)@ == Some(buffer@),
    {
        self.slot = Some(buffer);
    }
}

} // verus!
