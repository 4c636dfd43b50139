//! A small store of boolean flags packed into the bits of an unsigned
//! integer, used to remember which keys are currently held down.

use vstd::prelude::*;

verus! {

/// Flags packed into the bits of an unsigned integer.
///
/// A `flag` argument is a mask; it may cover several bits at once.
pub struct BitFields<T> {
    bits: T,
}

impl View for BitFields<u16> {
    type V = u16;

    closed spec fn view(&self) -> u16 {
        self.bits
    }
}

impl Default for BitFields<u16> {
    fn default() -> (r: Self)
        ensures
            r@ == 0u16,
    {
        BitFields { bits: 0u16 }
    }
}

impl BitFields<u16> {
    /// True when any bit of `flag` is set.
    pub fn is_set(&self, flag: u16) -> (r: bool)
        ensures
            r == (self@ & flag != 0),
    {
        self.bits & flag != 0
    }

    /// Sets every bit of `flag`.
    pub fn set(&mut self, flag: u16)
        ensures
            final(self)@ == (old(self)@ | flag),
    {
        self.bits = self.bits | flag;
    }

    /// Clears every bit of `flag`.
    pub fn unset(&mut self, flag: u16)
        ensures
            final(self)@ == (old(self)@ & !flag),
    {
        self.bits = self.bits & !flag;
    }

    /// Flips every bit of `flag`.
    pub fn toggle(&mut self, flag: u16)
        ensures
            final(self)@ == (old(self)@ ^ flag),
    {
        self.bits = self.bits ^ flag;
    }
}

impl View for BitFields<u8> {
    type V = u8;

    closed spec fn view(&self) -> u8 {
        self.bits
    }
}

impl Default for BitFields<u8> {
    fn default() -> (r: Self)
        ensures
            r@ == 0u8,
    {
        BitFields { bits: 0u8 }
    }
}

impl BitFields<u8> {
    /// True when any bit of `flag` is set.
    pub fn is_set(&self, flag: u8) -> (r: bool)
        ensures
            r == (self@ & flag != 0),
    {
        self.bits & flag != 0
    }

    /// Sets every bit of `flag`.
    pub fn set(&mut self, flag: u8)
        ensures
            final(self)@ == (old(self)@ | flag),
    {
        self.bits = self.bits | flag;
    }

    /// Clears every bit of `flag`.
    pub fn unset(&mut self, flag: u8)
        ensures
            final(self)@ == (old(self)@ & !flag),
    {
        self.bits = self.bits & !flag;
    }

    /// Flips every bit of `flag`.
    pub fn toggle(&mut self, flag: u8)
        ensures
            final(self)@ == (old(self)@ ^ flag),
    {
        self.bits = self.bits ^ flag;
    }
}

} // verus!
