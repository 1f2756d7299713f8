use ftdi_nusb::constants::mpsse;
use ftdi_nusb::mpsse::spi::{encode_len, io_chunks, transfer_command, SpiDevice, SpiMode};

#[test]
fn spi_mode_cpol() {
    assert!(!SpiMode::Mode0.cpol());
    assert!(!SpiMode::Mode1.cpol());
    assert!(SpiMode::Mode2.cpol());
    assert!(SpiMode::Mode3.cpol());
}

#[test]
fn spi_mode_cpha() {
    assert!(!SpiMode::Mode0.cpha());
    assert!(SpiMode::Mode1.cpha());
    assert!(!SpiMode::Mode2.cpha());
    assert!(SpiMode::Mode3.cpha());
}

#[test]
fn mode0_opcodes() {
    let write_cmd = mpsse::DO_WRITE | mpsse::WRITE_NEG;
    let read_cmd = mpsse::DO_READ;
    let rw_cmd = mpsse::DO_WRITE | mpsse::DO_READ | mpsse::WRITE_NEG;

    assert_eq!(write_cmd, 0x11);
    assert_eq!(read_cmd, 0x20);
    assert_eq!(rw_cmd, 0x31);
}

#[test]
fn mode1_opcodes() {
    let write_cmd = mpsse::DO_WRITE;
    let read_cmd = mpsse::DO_READ | mpsse::READ_NEG;
    let rw_cmd = mpsse::DO_WRITE | mpsse::DO_READ | mpsse::READ_NEG;

    assert_eq!(write_cmd, 0x10);
    assert_eq!(read_cmd, 0x24);
    assert_eq!(rw_cmd, 0x34);
}

#[test]
fn mode0_and_mode3_share_opcodes() {
    let lsb = 0u8;
    let mode0_write = mpsse::DO_WRITE | mpsse::WRITE_NEG | lsb;
    let mode3_write = mpsse::DO_WRITE | mpsse::WRITE_NEG | lsb;
    assert_eq!(mode0_write, mode3_write);
}

#[test]
fn lsb_first_flag_applied() {
    let lsb = mpsse::LSB;
    let write_cmd = mpsse::DO_WRITE | mpsse::WRITE_NEG | lsb;
    assert_eq!(write_cmd & mpsse::LSB, mpsse::LSB);
    assert_eq!(write_cmd, 0x19);
}

#[test]
fn io_chunk_plan_bounds_unequal_transfers() {
    assert!(io_chunks(0).is_empty());
    assert_eq!(io_chunks(1025), vec![(0, 1024), (1024, 1)]);
    assert_eq!(io_chunks(5).iter().map(|(_, len)| *len).sum::<usize>(), 5);
}

#[test]
fn unequal_transfer_commands_pad_missing_write_bytes() {
    let command = transfer_command(0x31, &[0xaa, 0xbb], 0, 4);
    assert_eq!(
        command,
        vec![0x31, 3, 0, 0xaa, 0xbb, 0, 0, mpsse::SEND_IMMEDIATE]
    );

    let second_chunk = transfer_command(0x31, &[1, 2, 3], 2, 3);
    assert_eq!(
        second_chunk,
        vec![0x31, 2, 0, 3, 0, 0, mpsse::SEND_IMMEDIATE]
    );
}

#[test]
fn encode_len_one_byte() {
    let (lo, hi) = encode_len(1);
    assert_eq!(lo, 0x00);
    assert_eq!(hi, 0x00);
}

#[test]
fn encode_len_256_bytes() {
    let (lo, hi) = encode_len(256);
    assert_eq!(lo, 0xFF);
    assert_eq!(hi, 0x00);
}

#[test]
fn encode_len_65536_bytes() {
    let (lo, hi) = encode_len(65536);
    assert_eq!(lo, 0xFF);
    assert_eq!(hi, 0xFF);
}

fn spi_with(cs_pin: u8, cs_active_low: bool, dir_mask: u8, idle_value: u8) -> SpiDevice {
    SpiDevice::from_parts(
        SpiMode::Mode0,
        false,
        cs_pin,
        cs_active_low,
        0,
        0,
        0,
        dir_mask,
        idle_value,
        0,
        0,
    )
}

#[test]
fn cs_assert_active_low() {
    let spi = spi_with(0x08, true, 0x0B, 0x08);

    let mut cmd = Vec::new();
    spi.test_append_cs_assert(&mut cmd);
    assert_eq!(cmd.len(), 3);
    assert_eq!(cmd[0], mpsse::SET_BITS_LOW);
    assert_eq!(cmd[1] & 0x08, 0x00);
    assert_eq!(cmd[2], 0x0B);
}

#[test]
fn cs_assert_active_high() {
    let spi = spi_with(0x08, false, 0x0B, 0x00);

    let mut cmd = Vec::new();
    spi.test_append_cs_assert(&mut cmd);
    assert_eq!(cmd[1] & 0x08, 0x08);
}

#[test]
fn cs_deassert_returns_to_idle() {
    let spi = spi_with(0x08, true, 0x0B, 0x08);

    let mut cmd = Vec::new();
    spi.test_append_cs_deassert(&mut cmd);
    assert_eq!(cmd[1], 0x08);
}

#[test]
fn cs_pin_zero_is_noop() {
    let spi = spi_with(0x00, true, 0x03, 0x00);

    let mut cmd = Vec::new();
    spi.test_append_cs_assert(&mut cmd);
    assert!(cmd.is_empty(), "CS=0 should be a no-op");

    spi.test_append_cs_deassert(&mut cmd);
    assert!(cmd.is_empty(), "CS=0 should be a no-op");
}

#[test]
fn mode0_idle_value() {
    let cs_pin = 0x08u8;
    let cs_idle = cs_pin;
    let clk_idle = 0x00;
    assert_eq!(clk_idle | cs_idle, 0x08);
}

#[test]
fn mode2_idle_value() {
    let cs_pin = 0x08u8;
    let cs_idle = cs_pin;
    let clk_idle = 0x01;
    assert_eq!(clk_idle | cs_idle, 0x09);
}

#[test]
fn dir_mask_default_cs() {
    let dir = 0x03 | 0x08;
    assert_eq!(dir, 0x0B);
}

#[test]
fn dir_mask_custom_cs_pin() {
    let dir = 0x03 | 0x10;
    assert_eq!(dir, 0x13);
}
