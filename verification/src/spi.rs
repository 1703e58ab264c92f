//! The peripheral handle: initialisation, the non-blocking transfer engine,
//! and the interrupt event controller.

use vstd::prelude::*;

use crate::clock::{kernel_clock, spec_kernel_clock, ClockConfig, Instance};
use crate::config::{comm_code, Config, Phase, Polarity};
use crate::divisor::{
    cs_delay_cycles, divisor_for, spec_cs_delay_cycles, spec_divisor_for_ratio,
};
use crate::error::{ConfigError, Error, TransferError};
use crate::pins::{pins_ok, spec_pins_ok, PinId, Pins};
use crate::regs::{
    spec_cfg1, spec_cfg2, spec_cr1_enabled, spec_cr2, RegisterBlock, CFG1_MBR_SHIFT,
    CFG1_RESET_REST, CFG2_COMM_SHIFT, CFG2_CPHA, CFG2_CPOL, CFG2_IOSWP, CFG2_MASTER, CFG2_SSM,
    CFG2_SSOE, CR1_CSTART, CR1_SPE, CR1_SSI, IER_CRCEIE, IER_EOTIE, IER_ERROR_GROUP, IER_MODFIE,
    IER_OVRIE, IER_RXPIE, IER_TXPIE, IER_UDRIE,
};
use crate::status::TransferFlags;

verus! {

/// Interrupt notification categories.
#[derive(Clone, Copy, Debug, PartialEq, Eq, Structural)]
pub enum Event {
    /// New data has been received.
    Rxp,
    /// Data can be written for transmission.
    Txp,
    /// The error group: underrun, overrun, CRC error and mode fault, always
    /// enabled and disabled together as one unit.
    Error,
    /// A transaction has completed.
    Eot,
}

/// The interrupt-enable bits one event gates.
pub open spec fn spec_event_mask(event: Event) -> u32 {
    match event {
        Event::Rxp => IER_RXPIE,
        Event::Txp => IER_TXPIE,
        Event::Error => IER_ERROR_GROUP,
        Event::Eot => IER_EOTIE,
    }
}

pub fn event_mask(event: Event) -> (r: u32)
    ensures
        r == spec_event_mask(event),
{
    match event {
        Event::Rxp => IER_RXPIE,
        Event::Txp => IER_TXPIE,
        Event::Error => IER_ERROR_GROUP,
        Event::Eot => IER_EOTIE,
    }
}

/// The exclusive handle to one configured and enabled SPI instance.
///
/// Exactly one handle per physical instance exists at a time, and it is the
/// only writer of that instance's registers. It is created by [`Spi::init`],
/// which performs the single configuration transition, and consumed by
/// [`Spi::free`], which hands the register block back; there is no
/// reconfiguration short of releasing and initialising again.
pub struct Spi {
    /// The image of the driver-programmed registers.
    pub spi: RegisterBlock,
    /// The instance this handle owns.
    pub instance: Instance,
    /// How many transaction-start strobes have been issued: exactly one per
    /// accepted word.
    pub start_strobes: Ghost<nat>,
}

/// The outcome [`Spi::try_send`] owes for one sample of the status flags:
/// fault flags checked in fixed priority order — overrun, then mode fault,
/// then CRC error — before data availability is consulted.
pub open spec fn spec_send_outcome(flags: TransferFlags) -> Result<(), TransferError> {
    if flags.overrun {
        Err(TransferError::Fault(Error::Overrun))
    } else if flags.mode_fault {
        Err(TransferError::Fault(Error::ModeFault))
    } else if flags.crc_error {
        Err(TransferError::Fault(Error::Crc))
    } else if flags.tx_not_full {
        Ok(())
    } else {
        Err(TransferError::WouldBlock)
    }
}

/// The outcome [`Spi::try_receive`] owes for one sample of the status flags
/// and the word sitting in the receive data register, with the same fault
/// priority as sending.
pub open spec fn spec_receive_outcome(flags: TransferFlags, rx_word: u32) -> Result<
    u32,
    TransferError,
> {
    if flags.overrun {
        Err(TransferError::Fault(Error::Overrun))
    } else if flags.mode_fault {
        Err(TransferError::Fault(Error::ModeFault))
    } else if flags.crc_error {
        Err(TransferError::Fault(Error::Crc))
    } else if flags.rx_not_empty {
        Ok(rx_word)
    } else {
        Err(TransferError::WouldBlock)
    }
}

/// The configuration error initialisation owes, checked in order: the pin
/// assignment, then the kernel clock, then the requested rate, then the frame
/// size. `None` means initialisation succeeds.
pub open spec fn spec_init_error(
    instance: Instance,
    sck: Option<PinId>,
    miso: Option<PinId>,
    mosi: Option<PinId>,
    config: Config,
    request: u32,
    clocks: ClockConfig,
) -> Option<ConfigError> {
    if !spec_pins_ok(instance, sck, miso, mosi) {
        Some(ConfigError::InvalidPins)
    } else {
        match spec_kernel_clock(instance, clocks) {
            None => Some(ConfigError::KernelClockNotRunning),
            Some(kernel) => if request == 0 || request > kernel {
                Some(ConfigError::InvalidFrequency)
            } else if config.frame_size < 4 || config.frame_size > 32 {
                Some(ConfigError::InvalidFrameSize)
            } else {
                None
            },
        }
    }
}

/// The full register program a successful initialisation writes, given the
/// resolved kernel clock rate.
pub open spec fn spec_programmed_regs(config: Config, kernel: u32, request: u32) -> RegisterBlock {
    RegisterBlock {
        cr1: spec_cr1_enabled(),
        cr2: spec_cr2(config.t_size),
        cfg1: spec_cfg1(
            config.frame_size,
            spec_divisor_for_ratio(kernel as int / request as int),
        ),
        cfg2: spec_cfg2(config, spec_cs_delay_cycles(config.cs_delay_ns, request) as u8),
        ier: 0,
        txdr: 0,
    }
}

impl Spi {
    /// Validates the inputs and computes the one-time register program for
    /// `instance`: pin assignment against the capability matrix, kernel clock
    /// resolution, baud-rate divider for the requested rate, frame size, and
    /// chip-select delay. Nothing is programmed unless every check passes.
    pub fn init(
        instance: Instance,
        sck: Option<PinId>,
        miso: Option<PinId>,
        mosi: Option<PinId>,
        config: Config,
        request: u32,
        clocks: &ClockConfig,
    ) -> (r: Result<Spi, ConfigError>)
        ensures
            r is Err <==> spec_init_error(
                instance,
                sck,
                miso,
                mosi,
                config,
                request,
                *clocks,
            ) is Some,
            r matches Err(e) ==> Some(e) == spec_init_error(
                instance,
                sck,
                miso,
                mosi,
                config,
                request,
                *clocks,
            ),
            r matches Ok(spi) ==> spi.instance == instance && spi.start_strobes@ == 0 && (
            spec_kernel_clock(instance, *clocks) matches Some(kernel) && spi.spi
                == spec_programmed_regs(config, kernel, request)),
    {
        if !pins_ok(instance, sck, miso, mosi) {
            return Err(ConfigError::InvalidPins);
        }
        let kernel = match kernel_clock(instance, clocks) {
            None => {
                return Err(ConfigError::KernelClockNotRunning);
            },
            Some(k) => k,
        };
        let code = match divisor_for(kernel, request) {
            Err(e) => {
                return Err(e);
            },
            Ok(c) => c,
        };
        if config.frame_size < 4 || config.frame_size > 32 {
            return Err(ConfigError::InvalidFrameSize);
        }
        let cs_cycles = cs_delay_cycles(config.cs_delay_ns, request);
        let cfg1 = CFG1_RESET_REST | (code.field_bits() << CFG1_MBR_SHIFT) | ((config.frame_size
            - 1) as u32);
        let cfg2 = (cs_cycles as u32) | (if config.swap_miso_mosi {
            CFG2_IOSWP
        } else {
            0
        }) | (comm_code(config.communication_mode) << CFG2_COMM_SHIFT) | CFG2_MASTER | (
        if config.mode.phase == Phase::CaptureOnSecondTransition {
            CFG2_CPHA
        } else {
            0
        }) | (if config.mode.polarity == Polarity::IdleHigh {
            CFG2_CPOL
        } else {
            0
        }) | (if config.managed_cs {
            CFG2_SSOE
        } else {
            CFG2_SSM
        });
        Ok(
            Spi {
                spi: RegisterBlock {
                    cr1: CR1_SSI | CR1_SPE,
                    cr2: config.t_size as u32,
                    cfg1,
                    cfg2,
                    ier: 0,
                    txdr: 0,
                },
                instance,
                start_strobes: Ghost(0),
            },
        )
    }

    /// As [`Spi::init`], with the pin assignment supplied as a tuple of
    /// role-capable values, physical pins or fillers, in clock, MISO, MOSI
    /// order.
    pub fn init_with_pins<P: Pins>(
        instance: Instance,
        pins: &P,
        config: Config,
        request: u32,
        clocks: &ClockConfig,
    ) -> (r: Result<Spi, ConfigError>)
        ensures
            r is Err <==> spec_init_error(
                instance,
                pins.spec_sck(),
                pins.spec_miso(),
                pins.spec_mosi(),
                config,
                request,
                *clocks,
            ) is Some,
            r matches Err(e) ==> Some(e) == spec_init_error(
                instance,
                pins.spec_sck(),
                pins.spec_miso(),
                pins.spec_mosi(),
                config,
                request,
                *clocks,
            ),
            r matches Ok(spi) ==> spi.instance == instance && spi.start_strobes@ == 0 && (
            spec_kernel_clock(instance, *clocks) matches Some(kernel) && spi.spi
                == spec_programmed_regs(config, kernel, request)),
    {
        let (sck, miso, mosi) = pins.pin_ids();
        Spi::init(instance, sck, miso, mosi, config, request, clocks)
    }

    /// Attempts to send one word: fault flags are reported first in their
    /// fixed priority order, then, if there is transmit space, the word is
    /// written and exactly one transaction-start strobe is issued. On any
    /// other outcome, a would-block in particular, nothing is written and no
    /// strobe is issued.
    pub fn try_send(&mut self, flags: TransferFlags, word: u32) -> (r: Result<(), TransferError>)
        ensures
            r == spec_send_outcome(flags),
            r is Ok ==> final(self).spi == (RegisterBlock {
                cr1: old(self).spi.cr1 | CR1_CSTART,
                txdr: word,
                ..old(self).spi
            }),
            r is Ok ==> final(self).instance == old(self).instance,
            r is Ok ==> final(self).start_strobes@ == old(self).start_strobes@ + 1,
            !(r is Ok) ==> *final(self) == *old(self),
    {
        if flags.overrun {
            return Err(TransferError::Fault(Error::Overrun));
        }
        if flags.mode_fault {
            return Err(TransferError::Fault(Error::ModeFault));
        }
        if flags.crc_error {
            return Err(TransferError::Fault(Error::Crc));
        }
        if flags.tx_not_full {
            self.spi.txdr = word;
            self.spi.cr1 = self.spi.cr1 | CR1_CSTART;
            proof {
                self.start_strobes@ = self.start_strobes@ + 1;
            }
            Ok(())
        } else {
            Err(TransferError::WouldBlock)
        }
    }

    /// Attempts to receive one word, given freshly read status flags and the
    /// current contents of the receive data register: fault flags are
    /// reported first in their fixed priority order; otherwise the word is
    /// returned if one is available, and would-block if not. The handle's own
    /// state never changes: received data is not cached.
    pub fn try_receive(&self, flags: TransferFlags, rx_word: u32) -> (r: Result<
        u32,
        TransferError,
    >)
        ensures
            r == spec_receive_outcome(flags, rx_word),
    {
        if flags.overrun {
            return Err(TransferError::Fault(Error::Overrun));
        }
        if flags.mode_fault {
            return Err(TransferError::Fault(Error::ModeFault));
        }
        if flags.crc_error {
            return Err(TransferError::Fault(Error::Crc));
        }
        if flags.rx_not_empty {
            Ok(rx_word)
        } else {
            Err(TransferError::WouldBlock)
        }
    }

    /// Enables interrupt notification for `event`. The error group's four
    /// enable bits are set together; no other bit changes.
    pub fn listen(&mut self, event: Event)
        ensures
            final(self).spi == (RegisterBlock {
                ier: old(self).spi.ier | spec_event_mask(event),
                ..old(self).spi
            }),
            final(self).instance == old(self).instance,
            final(self).start_strobes == old(self).start_strobes,
    {
        let mask = event_mask(event);
        self.spi.ier = self.spi.ier | mask;
    }

    /// Disables interrupt notification for `event`. The error group's four
    /// enable bits are cleared together; no other bit changes.
    pub fn unlisten(&mut self, event: Event)
        ensures
            final(self).spi == (RegisterBlock {
                ier: old(self).spi.ier & !spec_event_mask(event),
                ..old(self).spi
            }),
            final(self).instance == old(self).instance,
            final(self).start_strobes == old(self).start_strobes,
    {
        let mask = event_mask(event);
        self.spi.ier = self.spi.ier & !mask;
    }

    /// Releases the peripheral: consumes the handle and hands the register
    /// block back to the caller. No further driver operation is valid on this
    /// instance until it is initialised again.
    pub fn free(self) -> (r: RegisterBlock)
        ensures
            r == self.spi,
    {
        self.spi
    }
}

/// Fault flags outrank data availability, and overrun outranks every other
/// fault: with overrun and CRC error flagged together, both transfer
/// operations report the overrun, never the CRC error, whatever the data
/// flags say.
pub proof fn lemma_error_priority(flags: TransferFlags, rx_word: u32)
    requires
        flags.overrun,
        flags.crc_error,
    ensures
        spec_receive_outcome(flags, rx_word) == Err::<u32, TransferError>(
            TransferError::Fault(Error::Overrun),
        ),
        spec_send_outcome(flags) == Err::<(), TransferError>(
            TransferError::Fault(Error::Overrun),
        ),
{
}

/// The error notification group is atomic: enabling it sets all four of its
/// enable bits — underrun, overrun, CRC error, mode fault — and disabling it
/// clears all four, while every bit outside the group keeps its value either
/// way. No partial state of the group is reachable.
pub proof fn lemma_error_group_atomic(ier: u32)
    by (bit_vector)
    ensures
        (ier | IER_ERROR_GROUP) & IER_UDRIE == IER_UDRIE,
        (ier | IER_ERROR_GROUP) & IER_OVRIE == IER_OVRIE,
        (ier | IER_ERROR_GROUP) & IER_CRCEIE == IER_CRCEIE,
        (ier | IER_ERROR_GROUP) & IER_MODFIE == IER_MODFIE,
        (ier & !IER_ERROR_GROUP) & IER_UDRIE == 0,
        (ier & !IER_ERROR_GROUP) & IER_OVRIE == 0,
        (ier & !IER_ERROR_GROUP) & IER_CRCEIE == 0,
        (ier & !IER_ERROR_GROUP) & IER_MODFIE == 0,
        forall|m: u32|
            m & IER_ERROR_GROUP == 0 ==> (ier | IER_ERROR_GROUP) & m == ier & m && (ier
                & !IER_ERROR_GROUP) & m == ier & m,
{
}

} // verus!
