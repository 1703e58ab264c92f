//! Kernel clock selection: each peripheral group draws its kernel clock from
//! one of several sources named by a shared clock-select register field, and a
//! selected source may currently be disabled.

use vstd::prelude::*;

verus! {

/// One physical SPI peripheral instance.
#[derive(Clone, Copy, Debug, PartialEq, Eq, Structural)]
pub enum Instance {
    Spi1,
    Spi2,
    Spi3,
    Spi4,
    Spi5,
    Spi6,
}

/// Kernel clock sources selectable for the group of instances 1 to 3.
#[derive(Clone, Copy, Debug, PartialEq, Eq, Structural)]
pub enum Spi123ClockSel {
    Pll1Q,
    Pll2P,
    Pll3P,
    /// An externally supplied pin clock; its rate is not known to the clock
    /// tree, so it resolves as not running.
    I2sCkin,
    Per,
}

/// Kernel clock sources selectable for the group of instances 4 and 5.
#[derive(Clone, Copy, Debug, PartialEq, Eq, Structural)]
pub enum Spi45ClockSel {
    Apb,
    Pll2Q,
    Pll3Q,
    HsiKer,
    CsiKer,
    Hse,
}

/// Kernel clock sources selectable for instance 6.
#[derive(Clone, Copy, Debug, PartialEq, Eq, Structural)]
pub enum Spi6ClockSel {
    Pclk4,
    Pll2Q,
    Pll3Q,
    HsiKer,
    CsiKer,
    Hse,
}

/// The frequencies, in Hz, that the clock tree currently supplies.
///
/// A source that may be disabled is an `Option`; the peripheral bus clocks are
/// always running. The clock-tree subsystem that computes these values is an
/// external collaborator: this core only consumes the numbers.
#[derive(Clone, Copy, Debug, PartialEq, Eq, Structural)]
pub struct CoreClocks {
    pub pll1_q_ck: Option<u32>,
    pub pll2_p_ck: Option<u32>,
    pub pll2_q_ck: Option<u32>,
    pub pll3_p_ck: Option<u32>,
    pub pll3_q_ck: Option<u32>,
    pub per_ck: Option<u32>,
    pub hsi_ck: Option<u32>,
    pub csi_ck: Option<u32>,
    pub hse_ck: Option<u32>,
    pub pclk2: u32,
    pub pclk4: u32,
}

/// The clock-select state relevant to the SPI instances: one selector per
/// peripheral group, plus the supplied frequencies.
#[derive(Clone, Copy, Debug, PartialEq, Eq, Structural)]
pub struct ClockConfig {
    pub sel123: Spi123ClockSel,
    pub sel45: Spi45ClockSel,
    pub sel6: Spi6ClockSel,
    pub clocks: CoreClocks,
}

pub open spec fn spec_kernel_clock_123(sel: Spi123ClockSel, clocks: CoreClocks) -> Option<u32> {
    match sel {
        Spi123ClockSel::Pll1Q => clocks.pll1_q_ck,
        Spi123ClockSel::Pll2P => clocks.pll2_p_ck,
        Spi123ClockSel::Pll3P => clocks.pll3_p_ck,
        Spi123ClockSel::I2sCkin => None,
        Spi123ClockSel::Per => clocks.per_ck,
    }
}

/// Resolves the kernel clock for instances 1 to 3.
pub fn kernel_clock_123(sel: Spi123ClockSel, clocks: &CoreClocks) -> (r: Option<u32>)
    ensures
        r == spec_kernel_clock_123(sel, *clocks),
{
    match sel {
        Spi123ClockSel::Pll1Q => clocks.pll1_q_ck,
        Spi123ClockSel::Pll2P => clocks.pll2_p_ck,
        Spi123ClockSel::Pll3P => clocks.pll3_p_ck,
        Spi123ClockSel::I2sCkin => None,
        Spi123ClockSel::Per => clocks.per_ck,
    }
}

pub open spec fn spec_kernel_clock_45(sel: Spi45ClockSel, clocks: CoreClocks) -> Option<u32> {
    match sel {
        Spi45ClockSel::Apb => Some(clocks.pclk2),
        Spi45ClockSel::Pll2Q => clocks.pll2_q_ck,
        Spi45ClockSel::Pll3Q => clocks.pll3_q_ck,
        Spi45ClockSel::HsiKer => clocks.hsi_ck,
        Spi45ClockSel::CsiKer => clocks.csi_ck,
        Spi45ClockSel::Hse => clocks.hse_ck,
    }
}

/// Resolves the kernel clock for instances 4 and 5.
pub fn kernel_clock_45(sel: Spi45ClockSel, clocks: &CoreClocks) -> (r: Option<u32>)
    ensures
        r == spec_kernel_clock_45(sel, *clocks),
{
    match sel {
        Spi45ClockSel::Apb => Some(clocks.pclk2),
        Spi45ClockSel::Pll2Q => clocks.pll2_q_ck,
        Spi45ClockSel::Pll3Q => clocks.pll3_q_ck,
        Spi45ClockSel::HsiKer => clocks.hsi_ck,
        Spi45ClockSel::CsiKer => clocks.csi_ck,
        Spi45ClockSel::Hse => clocks.hse_ck,
    }
}

pub open spec fn spec_kernel_clock_6(sel: Spi6ClockSel, clocks: CoreClocks) -> Option<u32> {
    match sel {
        Spi6ClockSel::Pclk4 => Some(clocks.pclk4),
        Spi6ClockSel::Pll2Q => clocks.pll2_q_ck,
        Spi6ClockSel::Pll3Q => clocks.pll3_q_ck,
        Spi6ClockSel::HsiKer => clocks.hsi_ck,
        Spi6ClockSel::CsiKer => clocks.csi_ck,
        Spi6ClockSel::Hse => clocks.hse_ck,
    }
}

/// Resolves the kernel clock for instance 6.
pub fn kernel_clock_6(sel: Spi6ClockSel, clocks: &CoreClocks) -> (r: Option<u32>)
    ensures
        r == spec_kernel_clock_6(sel, *clocks),
{
    match sel {
        Spi6ClockSel::Pclk4 => Some(clocks.pclk4),
        Spi6ClockSel::Pll2Q => clocks.pll2_q_ck,
        Spi6ClockSel::Pll3Q => clocks.pll3_q_ck,
        Spi6ClockSel::HsiKer => clocks.hsi_ck,
        Spi6ClockSel::CsiKer => clocks.csi_ck,
        Spi6ClockSel::Hse => clocks.hse_ck,
    }
}

/// The kernel clock currently feeding `instance`, or `None` when the selected
/// source is disabled.
pub open spec fn spec_kernel_clock(instance: Instance, cfg: ClockConfig) -> Option<u32> {
    match instance {
        Instance::Spi1 | Instance::Spi2 | Instance::Spi3 => spec_kernel_clock_123(
            cfg.sel123,
            cfg.clocks,
        ),
        Instance::Spi4 | Instance::Spi5 => spec_kernel_clock_45(cfg.sel45, cfg.clocks),
        Instance::Spi6 => spec_kernel_clock_6(cfg.sel6, cfg.clocks),
    }
}

/// Resolves the kernel clock feeding `instance` under the clock-select state
/// `cfg`, or `None` when the selected source is not running.
pub fn kernel_clock(instance: Instance, cfg: &ClockConfig) -> (r: Option<u32>)
    ensures
        r == spec_kernel_clock(instance, *cfg),
{
    match instance {
        Instance::Spi1 | Instance::Spi2 | Instance::Spi3 => kernel_clock_123(
            cfg.sel123,
            &cfg.clocks,
        ),
        Instance::Spi4 | Instance::Spi5 => kernel_clock_45(cfg.sel45, &cfg.clocks),
        Instance::Spi6 => kernel_clock_6(cfg.sel6, &cfg.clocks),
    }
}

} // verus!
