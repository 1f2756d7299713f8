use ftdi_nusb::stream::strip_modem_status;

#[test]
fn strips_status_from_every_packet() {
    let raw = [
        0xaa, 0xbb, 1, 2, 3, 4, 5, 6, // packet one
        0xcc, 0xdd, 7, 8, 9, 10, 11, 12, // packet two
    ];
    assert_eq!(
        strip_modem_status(&raw, raw.len(), 8),
        (1..=12).collect::<Vec<_>>()
    );
}

#[test]
fn ignores_status_only_packets() {
    assert!(strip_modem_status(&[0xaa, 0xbb], 2, 64).is_empty());
}
