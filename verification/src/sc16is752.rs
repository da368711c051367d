//! Configuration types for the SC16IS752 dual-channel UART expander.
//!
//! Only the pure part of the driver lives here: the channel selection
//! bits that are folded into every register address, and the line
//! configuration choices. The bus transactions themselves are I/O and
//! stay with the binary that owns the device.

use vstd::prelude::*;

verus! {

/// Software flow-control configuration.
#[derive(Debug, Clone, Copy, PartialEq, Eq, Hash)]
pub enum ControlFlow {
    Disabled,
    Xon1Xoff1 { xon1: u8, xoff1: u8 },
    Xon2Xoff2 { xon2: u8, xoff2: u8 },
    Xon12Xoff12 { xon1: u8, xon2: u8, xoff1: u8, xoff2: u8 },
}

/// Which UART channel a register access addresses.
#[derive(Debug, Clone, Copy, PartialEq, Eq, Hash)]
pub enum Channel {
    A,
    B,
    Both,
}

/// The channel-select bits of a register address.
pub open spec fn spec_select(c: Channel) -> u8 {
    match c {
        Channel::A => 0x00,
        Channel::B => 0x02,
        Channel::Both => 0x00,
    }
}

impl Channel {
    /// The channel-select bits that go into a register address:
    /// channel B is addressed with bit 1 set, channel A and broadcast
    /// with it clear.
    pub fn select(&self) -> (r: u8)
        ensures
            r == spec_select(*self),
    {
        match self {
            Channel::A => 0x00,
            Channel::B => 0x02,
            Channel::Both => 0x00,
        }
    }
}

/// Word length of a UART frame.
#[derive(Debug, Clone, Copy, PartialEq, Eq, Hash)]
pub enum DataLength {
    D5,
    D6,
    D7,
    D8,
}

/// Parity of a UART frame.
#[derive(Debug, Clone, Copy, PartialEq, Eq, Hash)]
pub enum Parity {
    NoParity,
    Odd,
    Even,
    One,
    Zero,
}

/// Stop bits of a UART frame.
#[derive(Debug, Clone, Copy, PartialEq, Eq, Hash)]
pub enum StopLength {
    One,
    Two,
}

} // verus!
