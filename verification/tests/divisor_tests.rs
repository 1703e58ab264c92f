use h7_spi::divisor::{actual_rate, cs_delay_cycles, divisor_for, DivisorCode};
use h7_spi::error::ConfigError;

#[test]
fn ladder_lower_boundaries() {
    assert_eq!(divisor_for(1, 1), Ok(DivisorCode::Div2));
    assert_eq!(divisor_for(3, 1), Ok(DivisorCode::Div4));
    assert_eq!(divisor_for(6, 1), Ok(DivisorCode::Div8));
    assert_eq!(divisor_for(12, 1), Ok(DivisorCode::Div16));
    assert_eq!(divisor_for(24, 1), Ok(DivisorCode::Div32));
    assert_eq!(divisor_for(48, 1), Ok(DivisorCode::Div64));
    assert_eq!(divisor_for(96, 1), Ok(DivisorCode::Div128));
    assert_eq!(divisor_for(192, 1), Ok(DivisorCode::Div256));
}

#[test]
fn ladder_upper_boundaries() {
    assert_eq!(divisor_for(2, 1), Ok(DivisorCode::Div2));
    assert_eq!(divisor_for(5, 1), Ok(DivisorCode::Div4));
    assert_eq!(divisor_for(11, 1), Ok(DivisorCode::Div8));
    assert_eq!(divisor_for(23, 1), Ok(DivisorCode::Div16));
    assert_eq!(divisor_for(47, 1), Ok(DivisorCode::Div32));
    assert_eq!(divisor_for(95, 1), Ok(DivisorCode::Div64));
    assert_eq!(divisor_for(191, 1), Ok(DivisorCode::Div128));
    assert_eq!(divisor_for(u32::MAX, 1), Ok(DivisorCode::Div256));
}

#[test]
fn ratio_two_gives_div2() {
    // A ratio on a band edge: 2 -> divide by 2.
    assert_eq!(divisor_for(20_000, 10_000), Ok(DivisorCode::Div2));
}

#[test]
fn ratio_191_gives_div128() {
    assert_eq!(divisor_for(191_000, 1_000), Ok(DivisorCode::Div128));
}

#[test]
fn ratio_192_gives_div256() {
    assert_eq!(divisor_for(192_000, 1_000), Ok(DivisorCode::Div256));
}

#[test]
fn zero_request_fails_explicitly() {
    assert_eq!(divisor_for(100_000_000, 0), Err(ConfigError::InvalidFrequency));
    assert_eq!(divisor_for(0, 0), Err(ConfigError::InvalidFrequency));
}

#[test]
fn request_above_kernel_fails_explicitly() {
    assert_eq!(divisor_for(1_000_000, 1_000_001), Err(ConfigError::InvalidFrequency));
    assert_eq!(divisor_for(1_000_000, 2_000_000), Err(ConfigError::InvalidFrequency));
    assert_eq!(divisor_for(0, 1), Err(ConfigError::InvalidFrequency));
}

#[test]
fn divisor_values_and_field_bits() {
    let codes = [
        (DivisorCode::Div2, 2u16, 0u32),
        (DivisorCode::Div4, 4, 1),
        (DivisorCode::Div8, 8, 2),
        (DivisorCode::Div16, 16, 3),
        (DivisorCode::Div32, 32, 4),
        (DivisorCode::Div64, 64, 5),
        (DivisorCode::Div128, 128, 6),
        (DivisorCode::Div256, 256, 7),
    ];
    for (code, value, bits) in codes {
        assert_eq!(code.value(), value);
        assert_eq!(code.field_bits(), bits);
    }
}

#[test]
fn hundred_megahertz_to_one_megahertz() {
    // Kernel 100 MHz, request 1 MHz: ratio 100, divider 128, actual 781.25 kHz.
    let code = divisor_for(100_000_000, 1_000_000).unwrap();
    assert_eq!(code, DivisorCode::Div128);
    assert_eq!(actual_rate(100_000_000, code), 781_250);
}

#[test]
fn two_hundred_megahertz_to_one_hundred_megahertz() {
    // Kernel 200 MHz, request 100 MHz: ratio 2, divider 2, actual exactly 100 MHz.
    let code = divisor_for(200_000_000, 100_000_000).unwrap();
    assert_eq!(code, DivisorCode::Div2);
    assert_eq!(actual_rate(200_000_000, code), 100_000_000);
}

#[test]
fn actual_rate_rounds_down() {
    assert_eq!(actual_rate(7, DivisorCode::Div2), 3);
    assert_eq!(actual_rate(1000, DivisorCode::Div256), 3);
}

#[test]
fn zero_delay_gives_zero_cycles() {
    assert_eq!(cs_delay_cycles(0, 100_000_000), 0);
    assert_eq!(cs_delay_cycles(0, 0), 0);
}

#[test]
fn tiny_nonzero_delay_gives_one_cycle() {
    // 1 ns at 1 kHz truncates to zero cycles; the margin guarantees one.
    assert_eq!(cs_delay_cycles(1, 1_000), 1);
    assert_eq!(cs_delay_cycles(1, 0), 1);
}

#[test]
fn delay_cycles_add_margin() {
    // 2000 ns at 1 MHz is exactly 2 cycles, plus the margin cycle.
    assert_eq!(cs_delay_cycles(2_000, 1_000_000), 3);
    // 2500 ns at 1 MHz truncates to 2 cycles, plus the margin cycle.
    assert_eq!(cs_delay_cycles(2_500, 1_000_000), 3);
}

#[test]
fn large_delay_clamps_to_fifteen() {
    assert_eq!(cs_delay_cycles(1_000_000, 100_000_000), 15);
    assert_eq!(cs_delay_cycles(u32::MAX, u32::MAX), 15);
    // 14 whole cycles plus the margin reaches the clamp exactly.
    assert_eq!(cs_delay_cycles(14, 1_000_000_000), 15);
    // 13 whole cycles plus the margin stays below it.
    assert_eq!(cs_delay_cycles(13, 1_000_000_000), 14);
}
