//! Transient transfer status: the flags a poll reads fresh from the status
//! register. The driver never caches them.

use vstd::prelude::*;

use crate::regs::{SR_CRCE, SR_MODF, SR_OVR, SR_RXP, SR_TXP};

verus! {

/// One sample of the hardware status flags consumed by the transfer engine.
///
/// The caller reads the status register and decodes it with [`decode_status`]
/// immediately before each transfer attempt; a sample is never reused.
#[derive(Clone, Copy, Debug, PartialEq, Eq, Structural)]
pub struct TransferFlags {
    /// A received word is available to be read.
    pub rx_not_empty: bool,
    /// There is room to write a word for transmission.
    pub tx_not_full: bool,
    /// The receive register was overwritten before being read.
    pub overrun: bool,
    /// A multi-master conflict was detected.
    pub mode_fault: bool,
    /// A CRC check failed.
    pub crc_error: bool,
}

impl TransferFlags {
    /// A sample with every flag clear.
    pub fn none() -> (r: TransferFlags)
        ensures
            r == (TransferFlags {
                rx_not_empty: false,
                tx_not_full: false,
                overrun: false,
                mode_fault: false,
                crc_error: false,
            }),
    {
        TransferFlags {
            rx_not_empty: false,
            tx_not_full: false,
            overrun: false,
            mode_fault: false,
            crc_error: false,
        }
    }

    /// Whether new data can be written for transmission.
    pub fn is_txp(&self) -> (r: bool)
        ensures
            r == self.tx_not_full,
    {
        self.tx_not_full
    }

    /// Whether received data is waiting to be read.
    pub fn is_rxp(&self) -> (r: bool)
        ensures
            r == self.rx_not_empty,
    {
        self.rx_not_empty
    }

    /// Whether a mode fault is flagged.
    pub fn is_modf(&self) -> (r: bool)
        ensures
            r == self.mode_fault,
    {
        self.mode_fault
    }

    /// Whether an overrun is flagged.
    pub fn is_ovr(&self) -> (r: bool)
        ensures
            r == self.overrun,
    {
        self.overrun
    }
}

/// The flags encoded in a raw status-register word.
pub open spec fn spec_decode_status(sr: u32) -> TransferFlags {
    TransferFlags {
        rx_not_empty: sr & SR_RXP != 0,
        tx_not_full: sr & SR_TXP != 0,
        overrun: sr & SR_OVR != 0,
        mode_fault: sr & SR_MODF != 0,
        crc_error: sr & SR_CRCE != 0,
    }
}

/// Decodes a raw status-register word into the flags the transfer engine
/// consumes.
pub fn decode_status(sr: u32) -> (r: TransferFlags)
    ensures
        r == spec_decode_status(sr),
{
    TransferFlags {
        rx_not_empty: sr & SR_RXP != 0,
        tx_not_full: sr & SR_TXP != 0,
        overrun: sr & SR_OVR != 0,
        mode_fault: sr & SR_MODF != 0,
        crc_error: sr & SR_CRCE != 0,
    }
}

} // verus!
