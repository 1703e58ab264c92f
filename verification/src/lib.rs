//! Master-mode SPI driver core for a microcontroller family with several
//! independent SPI instances.
//!
//! The crate covers the parts of such a driver that carry real design content:
//! reducing a declarative [`Config`] plus a requested bit rate to a concrete
//! clock-divisor and register program, the non-blocking full-duplex word
//! transfer protocol with its error-priority rules, the interrupt event
//! controller, and the pin capability table that rejects an electrically
//! invalid pin assignment before any register is programmed.
//!
//! Everything here works on plain values: the register program is computed as
//! the exact 32-bit words to be written ([`regs::RegisterBlock`]), and the
//! transfer engine takes freshly read status flags as input. The thin
//! platform shell that performs the actual memory-mapped reads and writes
//! lives outside this crate.

pub mod clock;
pub mod config;
pub mod divisor;
pub mod error;
pub mod pins;
pub mod regs;
pub mod spi;
pub mod status;

pub use clock::{ClockConfig, CoreClocks, Instance, Spi123ClockSel, Spi45ClockSel, Spi6ClockSel};
pub use config::{CommunicationMode, Config, Mode, Phase, Polarity};
pub use divisor::DivisorCode;
pub use error::{ConfigError, Error, TransferError};
pub use pins::{NoMiso, NoMosi, NoSck, PinId, PinMiso, PinMosi, PinSck, Pins, Port};
pub use regs::RegisterBlock;
pub use spi::{Event, Spi};
pub use status::TransferFlags;
