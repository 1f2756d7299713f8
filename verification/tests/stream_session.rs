use std::time::Duration;

use ftdi_nusb::error::Error;
use ftdi_nusb::stream::{
    stream_setup, strip_modem_status, ProgressSnapshot, StreamPoll, StreamState, StreamYield,
};
use ftdi_nusb::{ChipType, FtdiDevice};

#[test]
fn strip_short_last_packet_and_actual_len() {
    let raw = [1, 2, 10, 11, 3, 4, 12, 5, 6, 99];
    // packets of 4: [1,2,10,11] [3,4,12,5] [6,99] but only 9 bytes are valid.
    assert_eq!(strip_modem_status(&raw, 9, 4), vec![10, 11, 12, 5]);
    assert_eq!(strip_modem_status(&raw, 7, 4), vec![10, 11, 12]);
    assert!(strip_modem_status(&raw, 0, 4).is_empty());
}

#[test]
fn stream_setup_checks() {
    let dev = FtdiDevice::new(ChipType::Ft2232C, 1, Duration::from_millis(10));
    assert!(matches!(
        stream_setup(&dev, 8, 4, 512),
        Err(Error::UnsupportedChip(ChipType::Ft2232C))
    ));
    let mut dev = FtdiDevice::new(ChipType::Ft232H, 2, Duration::from_millis(10));
    match stream_setup(&dev, 0, 4, 512) {
        Err(Error::InvalidArgument(m)) => {
            assert_eq!(m, "packets_per_transfer must be greater than zero")
        }
        other => panic!("unexpected {:?}", other),
    }
    match stream_setup(&dev, 8, 0, 512) {
        Err(Error::InvalidArgument(m)) => assert_eq!(m, "num_transfers must be greater than zero"),
        other => panic!("unexpected {:?}", other),
    }
    match stream_setup(&dev, 1 << 24, 4, 512) {
        Err(Error::InvalidArgument(m)) => assert_eq!(m, "stream buffer size overflow"),
        other => panic!("unexpected {:?}", other),
    }
    let setup = stream_setup(&dev, 8, 4, 512).unwrap();
    assert_eq!(setup.buffer_size, 4096);
    assert_eq!(setup.timeout, Duration::from_millis(10));
    dev.mark_recovery_required();
    assert!(matches!(stream_setup(&dev, 8, 4, 512), Err(Error::RecoveryRequired)));
}

#[test]
fn stream_state_yields_data_progress_and_timeouts() {
    let mut st = StreamState::new(0, 100);
    assert_eq!(st.poll(), StreamPoll::Wait);
    assert_eq!(st.remaining_ns(30), Some(70));
    assert_eq!(st.remaining_ns(101), None);
    assert_eq!(st.record_transfer(10, 50), StreamYield::Data);
    assert_eq!(st.total_bytes(), 10);
    assert_eq!(st.remaining_ns(120), Some(30));
    // No payload before a full second has passed: nothing to yield.
    assert_eq!(st.record_transfer(0, 60), StreamYield::Continue);
    // A payload after one second: data now, progress at the next poll.
    assert_eq!(st.record_transfer(5, 1_000_000_000), StreamYield::Data);
    assert_eq!(
        st.poll(),
        StreamPoll::Progress(ProgressSnapshot {
            total_bytes: 15,
            total_time_ns: 1_000_000_000,
            interval_bytes: 15,
            interval_ns: 1_000_000_000,
        })
    );
    assert_eq!(st.poll(), StreamPoll::Wait);
    // An empty transfer after another second yields the report directly.
    assert_eq!(
        st.record_transfer(0, 2_500_000_000),
        StreamYield::Progress(ProgressSnapshot {
            total_bytes: 15,
            total_time_ns: 2_500_000_000,
            interval_bytes: 0,
            interval_ns: 1_500_000_000,
        })
    );
    st.mark_finished();
    assert!(st.is_finished());
    assert_eq!(st.poll(), StreamPoll::Finished);
}

#[test]
fn failed_cleanup_leaves_session_unfinished() {
    let mut st = StreamState::new(0, 1_000);
    st.record_cleanup(&Err(Error::Timeout(Duration::from_millis(1))));
    assert!(!st.is_finished());
    assert_eq!(st.poll(), StreamPoll::Wait);
    st.record_cleanup(&Ok(()));
    assert!(st.is_finished());
    assert_eq!(st.poll(), StreamPoll::Finished);
    assert_eq!(st.poll(), StreamPoll::Finished);
}

#[test]
fn total_bytes_is_sum_of_payloads() {
    let mut st = StreamState::new(0, u64::MAX);
    let mut yielded = 0u64;
    for (len, t) in [(510usize, 10u64), (0, 20), (62, 30), (0, 2_000_000_000), (7, 2_000_000_001)] {
        if st.record_transfer(len, t) == StreamYield::Data {
            yielded += len as u64;
        }
    }
    assert_eq!(st.total_bytes(), yielded);
    assert_eq!(yielded, 579);
}
