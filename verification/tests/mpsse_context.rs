use ftdi_nusb::constants::mpsse;
use ftdi_nusb::error::Error;
use ftdi_nusb::mpsse::{clock_divisor_command, MpsseContext};

#[test]
fn raw_clock_divisor_matches_flashrom_convention() {
    assert_eq!(
        clock_divisor_command(true, 2).unwrap(),
        (vec![mpsse::DIS_DIV_5, mpsse::TCK_DIVISOR, 0, 0], 30_000_000)
    );
    assert_eq!(
        clock_divisor_command(false, 6).unwrap(),
        (vec![mpsse::TCK_DIVISOR, 2, 0], 2_000_000)
    );
    assert!(clock_divisor_command(true, 1).is_err());
    assert!(clock_divisor_command(true, 3).is_err());
}

#[test]
fn clock_divisor_calculations() {
    let div = (12_000_000u32 / (1_000_000 * 2)).saturating_sub(1);
    assert_eq!(div, 5);
    let actual = 12_000_000 / ((1 + div) * 2);
    assert_eq!(actual, 1_000_000);

    let div = (12_000_000u32 / (100_000 * 2)).saturating_sub(1);
    assert_eq!(div, 59);
    let actual = 12_000_000 / ((1 + div) * 2);
    assert_eq!(actual, 100_000);

    let div = (60_000_000u32 / (10_000_000 * 2)).saturating_sub(1);
    assert_eq!(div, 2);
    let actual = 60_000_000 / ((1 + div) * 2);
    assert_eq!(actual, 10_000_000);
}

#[test]
fn clock_divisor_30mhz() {
    let div = (60_000_000u32 / (30_000_000 * 2)).saturating_sub(1);
    assert_eq!(div, 0);
    let actual = 60_000_000 / ((1 + div) * 2);
    assert_eq!(actual, 30_000_000);
}

#[test]
fn clock_divisor_6mhz_boundary() {
    let div = (12_000_000u32 / (6_000_000 * 2)).saturating_sub(1);
    assert_eq!(div, 0);
    let actual = 12_000_000 / ((1 + div) * 2);
    assert_eq!(actual, 6_000_000);
}

#[test]
fn clock_divisor_400khz_i2c() {
    let div = (12_000_000u32 / (400_000 * 2)).saturating_sub(1);
    assert_eq!(div, 14);
    let actual = 12_000_000 / ((1 + div) * 2);
    assert_eq!(actual, 400_000);
}

#[test]
fn mpsse_context_default_state() {
    let ctx = MpsseContext::test_new(true);
    assert_eq!(ctx.gpio_low_value(), 0);
    assert_eq!(ctx.gpio_low_dir(), 0);
    assert_eq!(ctx.gpio_high_value(), 0);
    assert_eq!(ctx.gpio_high_dir(), 0);
    assert!(ctx.is_h_type());
    assert_eq!(ctx.clock_hz(), 0);
}

#[test]
fn update_gpio_low_state_tracks_values() {
    let mut ctx = MpsseContext::test_new(true);
    ctx.update_gpio_low_state(0xAB, 0xCD);
    assert_eq!(ctx.gpio_low_value(), 0xAB);
    assert_eq!(ctx.gpio_low_dir(), 0xCD);
}

#[test]
fn mpsse_command_constants() {
    assert_eq!(mpsse::SET_BITS_LOW, 0x80);
    assert_eq!(mpsse::GET_BITS_LOW, 0x81);
    assert_eq!(mpsse::SET_BITS_HIGH, 0x82);
    assert_eq!(mpsse::GET_BITS_HIGH, 0x83);
    assert_eq!(mpsse::LOOPBACK_START, 0x84);
    assert_eq!(mpsse::LOOPBACK_END, 0x85);
    assert_eq!(mpsse::TCK_DIVISOR, 0x86);
    assert_eq!(mpsse::SEND_IMMEDIATE, 0x87);
    assert_eq!(mpsse::DIS_DIV_5, 0x8A);
    assert_eq!(mpsse::EN_DIV_5, 0x8B);
    assert_eq!(mpsse::EN_3_PHASE, 0x8C);
    assert_eq!(mpsse::DIS_3_PHASE, 0x8D);
    assert_eq!(mpsse::DIS_ADAPTIVE, 0x97);
}

#[test]
fn mpsse_shifting_flags() {
    assert_eq!(mpsse::WRITE_NEG, 0x01);
    assert_eq!(mpsse::BITMODE, 0x02);
    assert_eq!(mpsse::READ_NEG, 0x04);
    assert_eq!(mpsse::LSB, 0x08);
    assert_eq!(mpsse::DO_WRITE, 0x10);
    assert_eq!(mpsse::DO_READ, 0x20);
    assert_eq!(mpsse::WRITE_TMS, 0x40);
}

#[test]
fn div_value_helper() {
    assert_eq!(mpsse::div_value(1_000_000), 5);
    assert_eq!(mpsse::div_value(6_000_000), 0);
    assert_eq!(mpsse::div_value(10_000_000), 0);
    assert_eq!(mpsse::div_value(0), 0xFFFF);
}

#[test]
fn check_bad_command_empty() {
    assert!(MpsseContext::check_bad_command(&[]).is_ok());
}

#[test]
fn check_bad_command_normal_data() {
    assert!(MpsseContext::check_bad_command(&[0x00, 0x01, 0xFF]).is_ok());
}

#[test]
fn check_bad_command_detected() {
    let response = [0xFA, 0xAB];
    let err = MpsseContext::check_bad_command(&response).unwrap_err();
    match err {
        Error::MpsseBadCommand(opcode) => assert_eq!(opcode, 0xAB),
        _ => panic!("expected MpsseBadCommand error, got {:?}", err),
    }
}

#[test]
fn check_bad_command_in_middle_of_data() {
    let response = [0x01, 0x02, 0xFA, 0x99, 0x03];
    let err = MpsseContext::check_bad_command(&response).unwrap_err();
    match err {
        Error::MpsseBadCommand(opcode) => assert_eq!(opcode, 0x99),
        _ => panic!("expected MpsseBadCommand error"),
    }
}

#[test]
fn check_bad_command_fa_at_end_no_match() {
    let response = [0x01, 0x02, 0xFA];
    assert!(MpsseContext::check_bad_command(&response).is_ok());
}

#[test]
fn bad_command_constant() {
    assert_eq!(MpsseContext::BAD_COMMAND, 0xFA);
}
