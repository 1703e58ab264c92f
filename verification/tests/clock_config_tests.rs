use h7_spi::clock::{
    kernel_clock, kernel_clock_123, kernel_clock_45, kernel_clock_6, ClockConfig, CoreClocks,
    Instance, Spi123ClockSel, Spi45ClockSel, Spi6ClockSel,
};
use h7_spi::config::{CommunicationMode, Config, Mode, Phase, Polarity};

fn clocks_all_running() -> CoreClocks {
    CoreClocks {
        pll1_q_ck: Some(100_000_000),
        pll2_p_ck: Some(90_000_000),
        pll2_q_ck: Some(80_000_000),
        pll3_p_ck: Some(70_000_000),
        pll3_q_ck: Some(60_000_000),
        per_ck: Some(64_000_000),
        hsi_ck: Some(64_000_000),
        csi_ck: Some(4_000_000),
        hse_ck: Some(25_000_000),
        pclk2: 50_000_000,
        pclk4: 40_000_000,
    }
}

fn clocks_all_stopped() -> CoreClocks {
    CoreClocks {
        pll1_q_ck: None,
        pll2_p_ck: None,
        pll2_q_ck: None,
        pll3_p_ck: None,
        pll3_q_ck: None,
        per_ck: None,
        hsi_ck: None,
        csi_ck: None,
        hse_ck: None,
        pclk2: 50_000_000,
        pclk4: 40_000_000,
    }
}

#[test]
fn group_123_selects_each_source() {
    let clocks = clocks_all_running();
    assert_eq!(kernel_clock_123(Spi123ClockSel::Pll1Q, &clocks), Some(100_000_000));
    assert_eq!(kernel_clock_123(Spi123ClockSel::Pll2P, &clocks), Some(90_000_000));
    assert_eq!(kernel_clock_123(Spi123ClockSel::Pll3P, &clocks), Some(70_000_000));
    assert_eq!(kernel_clock_123(Spi123ClockSel::Per, &clocks), Some(64_000_000));
}

#[test]
fn group_123_external_pin_clock_not_running() {
    // The externally supplied pin clock has no rate the clock tree can report.
    assert_eq!(kernel_clock_123(Spi123ClockSel::I2sCkin, &clocks_all_running()), None);
}

#[test]
fn group_123_disabled_source_resolves_none() {
    assert_eq!(kernel_clock_123(Spi123ClockSel::Pll1Q, &clocks_all_stopped()), None);
    assert_eq!(kernel_clock_123(Spi123ClockSel::Per, &clocks_all_stopped()), None);
}

#[test]
fn group_45_selects_each_source() {
    let clocks = clocks_all_running();
    assert_eq!(kernel_clock_45(Spi45ClockSel::Apb, &clocks), Some(50_000_000));
    assert_eq!(kernel_clock_45(Spi45ClockSel::Pll2Q, &clocks), Some(80_000_000));
    assert_eq!(kernel_clock_45(Spi45ClockSel::Pll3Q, &clocks), Some(60_000_000));
    assert_eq!(kernel_clock_45(Spi45ClockSel::HsiKer, &clocks), Some(64_000_000));
    assert_eq!(kernel_clock_45(Spi45ClockSel::CsiKer, &clocks), Some(4_000_000));
    assert_eq!(kernel_clock_45(Spi45ClockSel::Hse, &clocks), Some(25_000_000));
    // The peripheral bus clock is always running.
    assert_eq!(kernel_clock_45(Spi45ClockSel::Apb, &clocks_all_stopped()), Some(50_000_000));
}

#[test]
fn group_6_selects_each_source() {
    let clocks = clocks_all_running();
    assert_eq!(kernel_clock_6(Spi6ClockSel::Pclk4, &clocks), Some(40_000_000));
    assert_eq!(kernel_clock_6(Spi6ClockSel::Pll2Q, &clocks), Some(80_000_000));
    assert_eq!(kernel_clock_6(Spi6ClockSel::Hse, &clocks), Some(25_000_000));
    assert_eq!(kernel_clock_6(Spi6ClockSel::Pclk4, &clocks_all_stopped()), Some(40_000_000));
}

#[test]
fn kernel_clock_dispatches_by_instance_group() {
    let cfg = ClockConfig {
        sel123: Spi123ClockSel::Pll1Q,
        sel45: Spi45ClockSel::Apb,
        sel6: Spi6ClockSel::Pclk4,
        clocks: clocks_all_running(),
    };
    assert_eq!(kernel_clock(Instance::Spi1, &cfg), Some(100_000_000));
    assert_eq!(kernel_clock(Instance::Spi2, &cfg), Some(100_000_000));
    assert_eq!(kernel_clock(Instance::Spi3, &cfg), Some(100_000_000));
    assert_eq!(kernel_clock(Instance::Spi4, &cfg), Some(50_000_000));
    assert_eq!(kernel_clock(Instance::Spi5, &cfg), Some(50_000_000));
    assert_eq!(kernel_clock(Instance::Spi6, &cfg), Some(40_000_000));
}

#[test]
fn config_defaults() {
    let mode = Mode::mode_0();
    let config = Config::new(mode);
    assert_eq!(config.mode, mode);
    assert!(!config.swap_miso_mosi);
    assert_eq!(config.cs_delay_ns, 0);
    assert_eq!(config.frame_size, 8);
    assert!(!config.managed_cs);
    assert_eq!(config.communication_mode, CommunicationMode::FullDuplex);
    assert_eq!(config.t_size, 0);
}

#[test]
fn config_builder_chains() {
    let config = Config::new(Mode::mode_3())
        .swap_mosi_miso()
        .cs_delay(2_500)
        .frame_size(16)
        .manage_cs()
        .communication_mode(CommunicationMode::HalfDuplex)
        .transfer_size(42);
    assert_eq!(config.mode.polarity, Polarity::IdleHigh);
    assert_eq!(config.mode.phase, Phase::CaptureOnSecondTransition);
    assert!(config.swap_miso_mosi);
    assert_eq!(config.cs_delay_ns, 2_500);
    assert_eq!(config.frame_size, 16);
    assert!(config.managed_cs);
    assert_eq!(config.communication_mode, CommunicationMode::HalfDuplex);
    assert_eq!(config.t_size, 42);
}

#[test]
fn config_from_mode_is_default() {
    let mode = Mode::mode_2();
    assert_eq!(Config::from(mode), Config::new(mode));
}

#[test]
fn mode_constructors() {
    assert_eq!(Mode::mode_0().polarity, Polarity::IdleLow);
    assert_eq!(Mode::mode_0().phase, Phase::CaptureOnFirstTransition);
    assert_eq!(Mode::mode_1().phase, Phase::CaptureOnSecondTransition);
    assert_eq!(Mode::mode_2().polarity, Polarity::IdleHigh);
    assert_eq!(Mode::mode_3().polarity, Polarity::IdleHigh);
    assert_eq!(Mode::mode_3().phase, Phase::CaptureOnSecondTransition);
}
