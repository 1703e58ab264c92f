//! The immutable peripheral configuration and its fluent builder.

use vstd::prelude::*;

verus! {

/// Clock polarity: the idle level of the clock line.
#[derive(Clone, Copy, Debug, PartialEq, Eq, Structural)]
pub enum Polarity {
    IdleLow,
    IdleHigh,
}

/// Clock phase: the clock transition on which data is captured.
#[derive(Clone, Copy, Debug, PartialEq, Eq, Structural)]
pub enum Phase {
    CaptureOnFirstTransition,
    CaptureOnSecondTransition,
}

/// An SPI mode: a clock polarity and phase pair.
#[derive(Clone, Copy, Debug, PartialEq, Eq, Structural)]
pub struct Mode {
    pub polarity: Polarity,
    pub phase: Phase,
}

impl Mode {
    /// Mode 0: clock idles low, capture on the first transition.
    pub fn mode_0() -> (r: Mode)
        ensures
            r.polarity == Polarity::IdleLow,
            r.phase == Phase::CaptureOnFirstTransition,
    {
        Mode { polarity: Polarity::IdleLow, phase: Phase::CaptureOnFirstTransition }
    }

    /// Mode 1: clock idles low, capture on the second transition.
    pub fn mode_1() -> (r: Mode)
        ensures
            r.polarity == Polarity::IdleLow,
            r.phase == Phase::CaptureOnSecondTransition,
    {
        Mode { polarity: Polarity::IdleLow, phase: Phase::CaptureOnSecondTransition }
    }

    /// Mode 2: clock idles high, capture on the first transition.
    pub fn mode_2() -> (r: Mode)
        ensures
            r.polarity == Polarity::IdleHigh,
            r.phase == Phase::CaptureOnFirstTransition,
    {
        Mode { polarity: Polarity::IdleHigh, phase: Phase::CaptureOnFirstTransition }
    }

    /// Mode 3: clock idles high, capture on the second transition.
    pub fn mode_3() -> (r: Mode)
        ensures
            r.polarity == Polarity::IdleHigh,
            r.phase == Phase::CaptureOnSecondTransition,
    {
        Mode { polarity: Polarity::IdleHigh, phase: Phase::CaptureOnSecondTransition }
    }
}

/// The communication direction of the peripheral.
#[derive(Clone, Copy, Debug, PartialEq, Eq, Structural)]
pub enum CommunicationMode {
    FullDuplex,
    Transmitter,
    Receiver,
    HalfDuplex,
}

/// The two-bit register encoding of a communication direction.
pub open spec fn spec_comm_code(m: CommunicationMode) -> u32 {
    match m {
        CommunicationMode::FullDuplex => 0,
        CommunicationMode::Transmitter => 1,
        CommunicationMode::Receiver => 2,
        CommunicationMode::HalfDuplex => 3,
    }
}

pub fn comm_code(m: CommunicationMode) -> (r: u32)
    ensures
        r == spec_comm_code(m),
{
    match m {
        CommunicationMode::FullDuplex => 0,
        CommunicationMode::Transmitter => 1,
        CommunicationMode::Receiver => 2,
        CommunicationMode::HalfDuplex => 3,
    }
}

/// A declarative SPI configuration, built fluently and consumed exactly once
/// at peripheral initialisation.
///
/// The mutators store their argument unchecked; range validation happens at
/// initialisation, before any register value is computed, so an out-of-range
/// frame size is rejected with an explicit error rather than programmed.
#[derive(Clone, Copy, Debug, PartialEq, Eq, Structural)]
pub struct Config {
    pub mode: Mode,
    pub swap_miso_mosi: bool,
    pub cs_delay_ns: u32,
    pub frame_size: u8,
    pub managed_cs: bool,
    pub communication_mode: CommunicationMode,
    pub t_size: u16,
}

impl Config {
    /// Creates the default configuration for the given mode: 8-bit frames,
    /// full duplex, software-managed chip select, no chip-select delay, and an
    /// unbounded transaction size.
    pub fn new(mode: Mode) -> (r: Config)
        ensures
            r == (Config {
                mode,
                swap_miso_mosi: false,
                cs_delay_ns: 0,
                frame_size: 8,
                managed_cs: false,
                communication_mode: CommunicationMode::FullDuplex,
                t_size: 0,
            }),
    {
        Config {
            mode,
            swap_miso_mosi: false,
            cs_delay_ns: 0,
            frame_size: 8,
            managed_cs: false,
            communication_mode: CommunicationMode::FullDuplex,
            t_size: 0,
        }
    }

    /// Treats the pin supplied for the MISO role as MOSI and the pin supplied
    /// for the MOSI role as MISO.
    pub fn swap_mosi_miso(self) -> (r: Config)
        ensures
            r == (Config { swap_miso_mosi: true, ..self }),
    {
        Config { swap_miso_mosi: true, ..self }
    }

    /// Sets the delay between chip-select assertion and the start of the
    /// transaction, in nanoseconds. The hardware realises it as a whole number
    /// of bus-clock cycles, so the actual delay may be longer.
    pub fn cs_delay(self, delay_ns: u32) -> (r: Config)
        ensures
            r == (Config { cs_delay_ns: delay_ns, ..self }),
    {
        Config { cs_delay_ns: delay_ns, ..self }
    }

    /// Sets the size of each SPI frame, in bits per word.
    pub fn frame_size(self, frame_size: u8) -> (r: Config)
        ensures
            r == (Config { frame_size, ..self }),
    {
        Config { frame_size, ..self }
    }

    /// Lets the peripheral manage the chip-select pin itself.
    pub fn manage_cs(self) -> (r: Config)
        ensures
            r == (Config { managed_cs: true, ..self }),
    {
        Config { managed_cs: true, ..self }
    }

    /// Sets the communication direction.
    pub fn communication_mode(self, comms: CommunicationMode) -> (r: Config)
        ensures
            r == (Config { communication_mode: comms, ..self }),
    {
        Config { communication_mode: comms, ..self }
    }

    /// Sets the number of words per transaction; zero means an unbounded,
    /// continuous transaction.
    pub fn transfer_size(self, size: u16) -> (r: Config)
        ensures
            r == (Config { t_size: size, ..self }),
    {
        Config { t_size: size, ..self }
    }
}

impl From<Mode> for Config {
    /// The default configuration for the given mode.
    fn from(mode: Mode) -> (r: Config) {
        Config::new(mode)
    }
}

impl vstd::std_specs::convert::FromSpecImpl<Mode> for Config {
    open spec fn obeys_from_spec() -> bool {
        true
    }

    open spec fn from_spec(mode: Mode) -> Config {
        Config {
            mode,
            swap_miso_mosi: false,
            cs_delay_ns: 0,
            frame_size: 8,
            managed_cs: false,
            communication_mode: CommunicationMode::FullDuplex,
            t_size: 0,
        }
    }
}

} // verus!
