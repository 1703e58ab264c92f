//! The driver's image of one peripheral's register block, and the exact bit
//! layout of every field the driver programs or reads.
//!
//! Values and positions are hardware-defined. The image holds the registers
//! the driver itself writes; the status and receive-data registers are
//! hardware-owned, read fresh on every poll and never cached here.

use vstd::prelude::*;

use crate::config::{spec_comm_code, Config, Phase, Polarity};
use crate::divisor::DivisorCode;

verus! {

/// Control register 1: peripheral enable.
pub const CR1_SPE: u32 = 0x1;

/// Control register 1: master transfer start strobe.
pub const CR1_CSTART: u32 = 0x200;

/// Control register 1: internal slave-select level forced high, as master
/// mode with software slave management requires.
pub const CR1_SSI: u32 = 0x1000;

/// Configuration register 1: frame-size field (bits 0 to 4), encoded as bits
/// per word less one.
pub const CFG1_DSIZE_SHIFT: u32 = 0;

/// Configuration register 1: master baud-rate divider field (bits 28 to 30).
pub const CFG1_MBR_SHIFT: u32 = 28;

/// Configuration register 1 reset state outside the fields the driver
/// programs: the CRC-length field keeps its reset value, as the driver updates
/// only the divider and frame-size fields of this register.
pub const CFG1_RESET_REST: u32 = 0x0007_0000;

/// Configuration register 2: chip-select idle-cycles field (bits 0 to 3).
pub const CFG2_MSSI_SHIFT: u32 = 0;

/// Configuration register 2: MISO/MOSI swap bit.
pub const CFG2_IOSWP: u32 = 0x8000;

/// Configuration register 2: communication-direction field (bits 17 and 18).
pub const CFG2_COMM_SHIFT: u32 = 17;

/// Configuration register 2: master-mode bit.
pub const CFG2_MASTER: u32 = 0x0040_0000;

/// Configuration register 2: bit-order bit; clear means most-significant bit
/// first, the only order this driver programs.
pub const CFG2_LSBFRST: u32 = 0x0080_0000;

/// Configuration register 2: clock-phase bit; set means capture on the second
/// transition.
pub const CFG2_CPHA: u32 = 0x0100_0000;

/// Configuration register 2: clock-polarity bit; set means the clock idles
/// high.
pub const CFG2_CPOL: u32 = 0x0200_0000;

/// Configuration register 2: software slave management.
pub const CFG2_SSM: u32 = 0x0400_0000;

/// Configuration register 2: slave-select output enable.
pub const CFG2_SSOE: u32 = 0x2000_0000;

/// Interrupt enable register: receive-data-ready.
pub const IER_RXPIE: u32 = 0x1;

/// Interrupt enable register: transmit-space-available.
pub const IER_TXPIE: u32 = 0x2;

/// Interrupt enable register: end of transaction.
pub const IER_EOTIE: u32 = 0x8;

/// Interrupt enable register: underrun.
pub const IER_UDRIE: u32 = 0x20;

/// Interrupt enable register: overrun.
pub const IER_OVRIE: u32 = 0x40;

/// Interrupt enable register: CRC error.
pub const IER_CRCEIE: u32 = 0x80;

/// Interrupt enable register: mode fault.
pub const IER_MODFIE: u32 = 0x200;

/// Interrupt enable register: the error notification group — underrun,
/// overrun, CRC error and mode fault — always driven as one unit.
pub const IER_ERROR_GROUP: u32 = 0x2e0;

/// Status register: receive-data-ready flag.
pub const SR_RXP: u32 = 0x1;

/// Status register: transmit-space-available flag.
pub const SR_TXP: u32 = 0x2;

/// Status register: overrun flag.
pub const SR_OVR: u32 = 0x40;

/// Status register: CRC-error flag.
pub const SR_CRCE: u32 = 0x80;

/// Status register: mode-fault flag.
pub const SR_MODF: u32 = 0x200;

/// The driver-programmed registers of one SPI instance, as the exact 32-bit
/// words a memory-mapped write would carry.
///
/// Exactly one image exists per live peripheral handle, and the handle is the
/// only writer of the block it mirrors.
#[derive(Clone, Copy, Debug, PartialEq, Eq, Structural)]
pub struct RegisterBlock {
    /// Control register 1: enable, slave-select level, start strobe.
    pub cr1: u32,
    /// Control register 2: transaction word count.
    pub cr2: u32,
    /// Configuration register 1: baud-rate divider and frame size.
    pub cfg1: u32,
    /// Configuration register 2: mode, direction, chip-select handling.
    pub cfg2: u32,
    /// Interrupt enable register.
    pub ier: u32,
    /// Transmit data register: the last word handed to the hardware.
    pub txdr: u32,
}

/// The value programmed into configuration register 1: the divider code and
/// the frame size, encoded as bits per word less one, over the register's
/// reset state.
pub open spec fn spec_cfg1(frame_size: u8, code: DivisorCode) -> u32 {
    CFG1_RESET_REST | (code.spec_field_bits() << CFG1_MBR_SHIFT) | ((frame_size - 1) as u32)
}

/// The value programmed into configuration register 2.
///
/// Master mode and most-significant-bit-first order are fixed; chip-select
/// handling is hardware-managed (slave-select output) or software-managed,
/// the two mutually exclusive, chosen by the configuration; `cs_cycles` is the
/// already clamped chip-select idle-cycles count.
pub open spec fn spec_cfg2(config: Config, cs_cycles: u8) -> u32 {
    (cs_cycles as u32) | (if config.swap_miso_mosi {
        CFG2_IOSWP
    } else {
        0
    }) | (spec_comm_code(config.communication_mode) << CFG2_COMM_SHIFT) | CFG2_MASTER | (
    if config.mode.phase == Phase::CaptureOnSecondTransition {
        CFG2_CPHA
    } else {
        0
    }) | (if config.mode.polarity == Polarity::IdleHigh {
        CFG2_CPOL
    } else {
        0
    }) | (if config.managed_cs {
        CFG2_SSOE
    } else {
        CFG2_SSM
    })
}

/// The value programmed into control register 1 when the bus is enabled:
/// slave-not-selected forced on the internal slave-select line, and the
/// peripheral enable bit.
pub open spec fn spec_cr1_enabled() -> u32 {
    CR1_SSI | CR1_SPE
}

/// The value programmed into control register 2: the transaction word count,
/// zero meaning an unbounded transaction.
pub open spec fn spec_cr2(t_size: u16) -> u32 {
    t_size as u32
}

} // verus!
