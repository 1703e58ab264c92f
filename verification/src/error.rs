//! Error types returned by the driver.

use vstd::prelude::*;

verus! {

/// A hardware fault reported by a transfer operation.
///
/// Errors are sticky at the hardware level: the peripheral keeps flagging them
/// until the caller clears the corresponding status flag, which is an external
/// recovery action outside this core.
#[derive(Clone, Copy, Debug, PartialEq, Eq, Structural)]
pub enum Error {
    /// The receive register was overwritten before it was read.
    Overrun,
    /// A multi-master conflict was detected.
    ModeFault,
    /// A CRC check failed.
    Crc,
}

/// The outcome of a non-blocking transfer operation that made no progress.
#[derive(Clone, Copy, Debug, PartialEq, Eq, Structural)]
pub enum TransferError {
    /// No progress is currently possible; the caller should retry later.
    WouldBlock,
    /// A hardware fault is flagged; it takes priority over data availability.
    Fault(Error),
}

/// A fatal configuration problem found while initialising a peripheral.
///
/// Initialisation aborts with one of these instead of programming any
/// register; none of them is recoverable without new inputs.
#[derive(Clone, Copy, Debug, PartialEq, Eq, Structural)]
pub enum ConfigError {
    /// A supplied pin cannot serve its role on the targeted instance.
    InvalidPins,
    /// The selected kernel clock source is not running.
    KernelClockNotRunning,
    /// The requested bit rate is zero or above the kernel clock rate.
    InvalidFrequency,
    /// The configured frame size is outside the supported range of 4 to 32
    /// bits per word.
    InvalidFrameSize,
}

} // verus!
