//! The pin capability matrix: which physical pins may serve the clock, MISO
//! and MOSI roles on each peripheral instance.
//!
//! A pin is identified by its port, line number and alternate-function code.
//! For every role the absent pin (`None`, offered by the filler types) is
//! valid on any instance; a physical pin is valid only where the fixed table
//! below admits it. The check runs at construction, before any register value
//! is computed.

use vstd::prelude::*;

use crate::clock::Instance;

verus! {

/// A GPIO port.
#[derive(Clone, Copy, Debug, PartialEq, Eq, Structural)]
pub enum Port {
    A,
    B,
    C,
    D,
    E,
    F,
    G,
    H,
    I,
    J,
    K,
}

/// The identity of one physical pin in a given alternate-function state: its
/// port, its line on that port, and the alternate-function code that routes it
/// to an SPI peripheral.
#[derive(Clone, Copy, Debug, PartialEq, Eq, Structural)]
pub struct PinId {
    pub port: Port,
    pub line: u8,
    pub af: u8,
}

impl PinId {
    pub fn new(port: Port, line: u8, af: u8) -> (r: PinId)
        ensures
            r == (PinId { port, line, af }),
    {
        PinId { port, line, af }
    }
}

/// A filler for an unused clock pin.
#[derive(Clone, Copy, Debug, PartialEq, Eq, Structural)]
pub struct NoSck;

/// A filler for an unused MISO pin.
#[derive(Clone, Copy, Debug, PartialEq, Eq, Structural)]
pub struct NoMiso;

/// A filler for an unused MOSI pin.
#[derive(Clone, Copy, Debug, PartialEq, Eq, Structural)]
pub struct NoMosi;

/// A value that can be offered for the clock role: either a physical pin or
/// the filler.
pub trait PinSck {
    spec fn spec_sck_id(&self) -> Option<PinId>;

    fn sck_id(&self) -> (r: Option<PinId>)
        ensures
            r == self.spec_sck_id(),
    ;
}

/// A value that can be offered for the MISO role.
pub trait PinMiso {
    spec fn spec_miso_id(&self) -> Option<PinId>;

    fn miso_id(&self) -> (r: Option<PinId>)
        ensures
            r == self.spec_miso_id(),
    ;
}

/// A value that can be offered for the MOSI role.
pub trait PinMosi {
    spec fn spec_mosi_id(&self) -> Option<PinId>;

    fn mosi_id(&self) -> (r: Option<PinId>)
        ensures
            r == self.spec_mosi_id(),
    ;
}

impl PinSck for NoSck {
    open spec fn spec_sck_id(&self) -> Option<PinId> {
        None
    }

    fn sck_id(&self) -> (r: Option<PinId>) {
        None
    }
}

impl PinMiso for NoMiso {
    open spec fn spec_miso_id(&self) -> Option<PinId> {
        None
    }

    fn miso_id(&self) -> (r: Option<PinId>) {
        None
    }
}

impl PinMosi for NoMosi {
    open spec fn spec_mosi_id(&self) -> Option<PinId> {
        None
    }

    fn mosi_id(&self) -> (r: Option<PinId>) {
        None
    }
}

impl PinSck for PinId {
    open spec fn spec_sck_id(&self) -> Option<PinId> {
        Some(*self)
    }

    fn sck_id(&self) -> (r: Option<PinId>) {
        Some(*self)
    }
}

impl PinMiso for PinId {
    open spec fn spec_miso_id(&self) -> Option<PinId> {
        Some(*self)
    }

    fn miso_id(&self) -> (r: Option<PinId>) {
        Some(*self)
    }
}

impl PinMosi for PinId {
    open spec fn spec_mosi_id(&self) -> Option<PinId> {
        Some(*self)
    }

    fn mosi_id(&self) -> (r: Option<PinId>) {
        Some(*self)
    }
}

/// A clock, MISO, MOSI pin assignment offered for one peripheral instance.
pub trait Pins {
    spec fn spec_sck(&self) -> Option<PinId>;

    spec fn spec_miso(&self) -> Option<PinId>;

    spec fn spec_mosi(&self) -> Option<PinId>;

    fn pin_ids(&self) -> (r: (Option<PinId>, Option<PinId>, Option<PinId>))
        ensures
            r == (self.spec_sck(), self.spec_miso(), self.spec_mosi()),
    ;
}

impl<S: PinSck, M: PinMiso, O: PinMosi> Pins for (S, M, O) {
    open spec fn spec_sck(&self) -> Option<PinId> {
        self.0.spec_sck_id()
    }

    open spec fn spec_miso(&self) -> Option<PinId> {
        self.1.spec_miso_id()
    }

    open spec fn spec_mosi(&self) -> Option<PinId> {
        self.2.spec_mosi_id()
    }

    fn pin_ids(&self) -> (r: (Option<PinId>, Option<PinId>, Option<PinId>)) {
        (self.0.sck_id(), self.1.miso_id(), self.2.mosi_id())
    }
}

/// Whether physical pin `p` may serve the clock role on `instance`.
pub open spec fn spec_sck_pin_ok(instance: Instance, p: PinId) -> bool {
    match instance {
        Instance::Spi1 => p == (PinId { port: Port::A, line: 5, af: 5 }) || p == (PinId {
            port: Port::B,
            line: 3,
            af: 5,
        }) || p == (PinId { port: Port::G, line: 11, af: 5 }),
        Instance::Spi2 => p == (PinId { port: Port::A, line: 9, af: 5 }) || p == (PinId {
            port: Port::A,
            line: 12,
            af: 5,
        }) || p == (PinId { port: Port::B, line: 10, af: 5 }) || p == (PinId {
            port: Port::B,
            line: 13,
            af: 5,
        }) || p == (PinId { port: Port::D, line: 3, af: 5 }) || p == (PinId {
            port: Port::I,
            line: 1,
            af: 5,
        }),
        Instance::Spi3 => p == (PinId { port: Port::B, line: 3, af: 6 }) || p == (PinId {
            port: Port::C,
            line: 10,
            af: 6,
        }),
        Instance::Spi4 => p == (PinId { port: Port::E, line: 2, af: 5 }) || p == (PinId {
            port: Port::E,
            line: 12,
            af: 5,
        }),
        Instance::Spi5 => p == (PinId { port: Port::F, line: 7, af: 5 }) || p == (PinId {
            port: Port::H,
            line: 6,
            af: 5,
        }) || p == (PinId { port: Port::K, line: 0, af: 5 }),
        Instance::Spi6 => p == (PinId { port: Port::A, line: 5, af: 8 }) || p == (PinId {
            port: Port::B,
            line: 3,
            af: 8,
        }) || p == (PinId { port: Port::G, line: 13, af: 5 }),
    }
}

/// Whether physical pin `p` may serve the MISO role on `instance`.
pub open spec fn spec_miso_pin_ok(instance: Instance, p: PinId) -> bool {
    match instance {
        Instance::Spi1 => p == (PinId { port: Port::A, line: 6, af: 5 }) || p == (PinId {
            port: Port::B,
            line: 4,
            af: 5,
        }) || p == (PinId { port: Port::G, line: 9, af: 5 }),
        Instance::Spi2 => p == (PinId { port: Port::B, line: 14, af: 5 }) || p == (PinId {
            port: Port::C,
            line: 2,
            af: 5,
        }) || p == (PinId { port: Port::I, line: 2, af: 5 }),
        Instance::Spi3 => p == (PinId { port: Port::B, line: 4, af: 6 }) || p == (PinId {
            port: Port::C,
            line: 11,
            af: 6,
        }),
        Instance::Spi4 => p == (PinId { port: Port::E, line: 5, af: 5 }) || p == (PinId {
            port: Port::E,
            line: 13,
            af: 5,
        }),
        Instance::Spi5 => p == (PinId { port: Port::F, line: 8, af: 5 }) || p == (PinId {
            port: Port::H,
            line: 7,
            af: 5,
        }) || p == (PinId { port: Port::J, line: 11, af: 5 }),
        Instance::Spi6 => p == (PinId { port: Port::A, line: 6, af: 8 }) || p == (PinId {
            port: Port::B,
            line: 4,
            af: 8,
        }) || p == (PinId { port: Port::G, line: 12, af: 5 }),
    }
}

/// Whether physical pin `p` may serve the MOSI role on `instance`.
pub open spec fn spec_mosi_pin_ok(instance: Instance, p: PinId) -> bool {
    match instance {
        Instance::Spi1 => p == (PinId { port: Port::A, line: 7, af: 5 }) || p == (PinId {
            port: Port::B,
            line: 5,
            af: 5,
        }) || p == (PinId { port: Port::D, line: 7, af: 5 }),
        Instance::Spi2 => p == (PinId { port: Port::B, line: 15, af: 5 }) || p == (PinId {
            port: Port::C,
            line: 1,
            af: 5,
        }) || p == (PinId { port: Port::C, line: 3, af: 5 }) || p == (PinId {
            port: Port::I,
            line: 3,
            af: 5,
        }),
        Instance::Spi3 => p == (PinId { port: Port::B, line: 2, af: 7 }) || p == (PinId {
            port: Port::B,
            line: 5,
            af: 7,
        }) || p == (PinId { port: Port::C, line: 12, af: 6 }) || p == (PinId {
            port: Port::D,
            line: 6,
            af: 5,
        }),
        Instance::Spi4 => p == (PinId { port: Port::E, line: 6, af: 5 }) || p == (PinId {
            port: Port::E,
            line: 14,
            af: 5,
        }),
        Instance::Spi5 => p == (PinId { port: Port::F, line: 9, af: 5 }) || p == (PinId {
            port: Port::F,
            line: 11,
            af: 5,
        }) || p == (PinId { port: Port::J, line: 10, af: 5 }),
        Instance::Spi6 => p == (PinId { port: Port::A, line: 7, af: 8 }) || p == (PinId {
            port: Port::B,
            line: 5,
            af: 8,
        }) || p == (PinId { port: Port::G, line: 14, af: 5 }),
    }
}

/// Whether a full assignment is admissible: each role either left unconnected
/// or given a pin from the instance's table.
pub open spec fn spec_pins_ok(
    instance: Instance,
    sck: Option<PinId>,
    miso: Option<PinId>,
    mosi: Option<PinId>,
) -> bool {
    &&& match sck {
        None => true,
        Some(p) => spec_sck_pin_ok(instance, p),
    }
    &&& match miso {
        None => true,
        Some(p) => spec_miso_pin_ok(instance, p),
    }
    &&& match mosi {
        None => true,
        Some(p) => spec_mosi_pin_ok(instance, p),
    }
}

pub fn sck_pin_ok(instance: Instance, p: PinId) -> (r: bool)
    ensures
        r == spec_sck_pin_ok(instance, p),
{
    match instance {
        Instance::Spi1 => p == PinId::new(Port::A, 5, 5) || p == PinId::new(Port::B, 3, 5) || p
            == PinId::new(Port::G, 11, 5),
        Instance::Spi2 => p == PinId::new(Port::A, 9, 5) || p == PinId::new(Port::A, 12, 5) || p
            == PinId::new(Port::B, 10, 5) || p == PinId::new(Port::B, 13, 5) || p == PinId::new(
            Port::D,
            3,
            5,
        ) || p == PinId::new(Port::I, 1, 5),
        Instance::Spi3 => p == PinId::new(Port::B, 3, 6) || p == PinId::new(Port::C, 10, 6),
        Instance::Spi4 => p == PinId::new(Port::E, 2, 5) || p == PinId::new(Port::E, 12, 5),
        Instance::Spi5 => p == PinId::new(Port::F, 7, 5) || p == PinId::new(Port::H, 6, 5) || p
            == PinId::new(Port::K, 0, 5),
        Instance::Spi6 => p == PinId::new(Port::A, 5, 8) || p == PinId::new(Port::B, 3, 8) || p
            == PinId::new(Port::G, 13, 5),
    }
}

pub fn miso_pin_ok(instance: Instance, p: PinId) -> (r: bool)
    ensures
        r == spec_miso_pin_ok(instance, p),
{
    match instance {
        Instance::Spi1 => p == PinId::new(Port::A, 6, 5) || p == PinId::new(Port::B, 4, 5) || p
            == PinId::new(Port::G, 9, 5),
        Instance::Spi2 => p == PinId::new(Port::B, 14, 5) || p == PinId::new(Port::C, 2, 5) || p
            == PinId::new(Port::I, 2, 5),
        Instance::Spi3 => p == PinId::new(Port::B, 4, 6) || p == PinId::new(Port::C, 11, 6),
        Instance::Spi4 => p == PinId::new(Port::E, 5, 5) || p == PinId::new(Port::E, 13, 5),
        Instance::Spi5 => p == PinId::new(Port::F, 8, 5) || p == PinId::new(Port::H, 7, 5) || p
            == PinId::new(Port::J, 11, 5),
        Instance::Spi6 => p == PinId::new(Port::A, 6, 8) || p == PinId::new(Port::B, 4, 8) || p
            == PinId::new(Port::G, 12, 5),
    }
}

pub fn mosi_pin_ok(instance: Instance, p: PinId) -> (r: bool)
    ensures
        r == spec_mosi_pin_ok(instance, p),
{
    match instance {
        Instance::Spi1 => p == PinId::new(Port::A, 7, 5) || p == PinId::new(Port::B, 5, 5) || p
            == PinId::new(Port::D, 7, 5),
        Instance::Spi2 => p == PinId::new(Port::B, 15, 5) || p == PinId::new(Port::C, 1, 5) || p
            == PinId::new(Port::C, 3, 5) || p == PinId::new(Port::I, 3, 5),
        Instance::Spi3 => p == PinId::new(Port::B, 2, 7) || p == PinId::new(Port::B, 5, 7) || p
            == PinId::new(Port::C, 12, 6) || p == PinId::new(Port::D, 6, 5),
        Instance::Spi4 => p == PinId::new(Port::E, 6, 5) || p == PinId::new(Port::E, 14, 5),
        Instance::Spi5 => p == PinId::new(Port::F, 9, 5) || p == PinId::new(Port::F, 11, 5) || p
            == PinId::new(Port::J, 10, 5),
        Instance::Spi6 => p == PinId::new(Port::A, 7, 8) || p == PinId::new(Port::B, 5, 8) || p
            == PinId::new(Port::G, 14, 5),
    }
}

/// Checks a full assignment against the capability matrix of `instance`.
pub fn pins_ok(
    instance: Instance,
    sck: Option<PinId>,
    miso: Option<PinId>,
    mosi: Option<PinId>,
) -> (r: bool)
    ensures
        r == spec_pins_ok(instance, sck, miso, mosi),
{
    let sck_good = match sck {
        None => true,
        Some(p) => sck_pin_ok(instance, p),
    };
    let miso_good = match miso {
        None => true,
        Some(p) => miso_pin_ok(instance, p),
    };
    let mosi_good = match mosi {
        None => true,
        Some(p) => mosi_pin_ok(instance, p),
    };
    sck_good && miso_good && mosi_good
}

} // verus!
