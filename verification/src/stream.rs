//! Synchronous-FIFO streaming: packet framing, session setup, and the
//! decisions of a running session.
//!
//! The chip prefixes every USB packet it sends with two modem status bytes;
//! [`strip_modem_status`] removes them. A session ([`StreamState`]) decides
//! what each completed USB transfer yields: payload bytes, a periodic progress
//! report, or nothing; and it reports inactivity timeouts.

use vstd::prelude::*;

use crate::context::FtdiDevice;
use crate::error::{Error, Result};
use crate::types::ChipType;

verus! {

// ---------------------------------------------------------------------------
// Packet framing
// ---------------------------------------------------------------------------

/// Payload of a USB transfer: split `data` into packets of `packet_size`
/// bytes (the last may be shorter) and drop the first two bytes (the modem
/// status) of each.
pub open spec fn stripped(data: Seq<u8>, packet_size: int) -> Seq<u8>
    decreases data.len(),
{
    if data.len() == 0 || packet_size <= 0 {
        seq![]
    } else {
        let n = if packet_size < data.len() {
            packet_size
        } else {
            data.len() as int
        };
        let packet = data.take(n);
        (if n > 2 {
            packet.skip(2)
        } else {
            seq![]
        }) + stripped(data.skip(n), packet_size)
    }
}

/// Remove the 2-byte modem status header from every packet of the first
/// `actual_len` bytes of `data`.
pub fn strip_modem_status(data: &[u8], actual_len: usize, packet_size: usize) -> (payload: Vec<u8>)
    requires
        packet_size > 0,
        actual_len <= data@.len(),
    ensures
        payload@ == stripped(data@.take(actual_len as int), packet_size as int),
{
    let ghost whole = data@.take(actual_len as int);
    let mut payload: Vec<u8> = Vec::with_capacity(actual_len.saturating_sub(2));
    let mut packet_start: usize = 0;
    assert(whole.skip(0) =~= whole);
    while packet_start < actual_len
        invariant
            packet_start <= actual_len,
            actual_len <= data@.len(),
            packet_size > 0,
            whole == data@.take(actual_len as int),
            stripped(whole, packet_size as int) == payload@ + stripped(
                whole.skip(packet_start as int),
                packet_size as int,
            ),
        decreases actual_len - packet_start,
    {
        let packet_end = if actual_len - packet_start < packet_size {
            actual_len
        } else {
            packet_start + packet_size
        };
        let ghost rest = whole.skip(packet_start as int);
        let ghost n = packet_end - packet_start;
        let ghost before = payload@;
        if packet_end - packet_start > 2 {
            let mut i: usize = packet_start + 2;
            while i < packet_end
                invariant
                    packet_start + 2 <= i <= packet_end,
                    packet_end <= actual_len,
                    actual_len <= data@.len(),
                    payload@ == before + data@.subrange(packet_start + 2, i as int),
                decreases packet_end - i,
            {
                payload.push(data[i]);
                i += 1;
                assert(payload@ =~= before + data@.subrange(packet_start + 2, i as int));
            }
            assert(rest.take(n).skip(2) =~= data@.subrange(packet_start + 2, packet_end as int));
        }
        assert(rest.skip(n) =~= whole.skip(packet_end as int));
        assert(stripped(rest, packet_size as int) == (if n > 2 {
            rest.take(n).skip(2)
        } else {
            seq![]
        }) + stripped(rest.skip(n), packet_size as int));
        assert(payload@ =~= before + (if n > 2 {
            rest.take(n).skip(2)
        } else {
            seq![]
        }));
        packet_start = packet_end;
    }
    assert(whole.skip(actual_len as int) =~= Seq::<u8>::empty());
    assert(payload@ =~= payload@ + stripped(whole.skip(actual_len as int), packet_size as int));
    payload
}

} // verus!

verus! {

/// Payload of one packet: everything after its 2-byte status header.
pub open spec fn packet_payload(packet: Seq<u8>) -> Seq<u8> {
    if packet.len() > 2 {
        packet.skip(2)
    } else {
        seq![]
    }
}

/// Whether `packets` is how the chip frames a transfer: every packet but the
/// last holds exactly `packet_size` bytes, the last holds 1 to
/// `packet_size` bytes.
pub open spec fn framed_packets(packets: Seq<Seq<u8>>, packet_size: int) -> bool {
    forall|i: int|
        0 <= i < packets.len() ==> 0 < (#[trigger] packets[i]).len() <= packet_size && (i
            < packets.len() - 1 ==> packets[i].len() == packet_size)
}

/// Stripping a transfer that the chip framed into packets yields the packets'
/// payloads, in order.
pub proof fn lemma_strip_framed_packets(packets: Seq<Seq<u8>>, packet_size: int)
    requires
        packet_size > 0,
        framed_packets(packets, packet_size),
    ensures
        stripped(packets.flatten(), packet_size) == packets.map_values(
            |p: Seq<u8>| packet_payload(p),
        ).flatten(),
    decreases packets.len(),
{
    if packets.len() > 0 {
        let rest = packets.drop_first();
        assert(framed_packets(rest, packet_size)) by {
            assert forall|i: int| 0 <= i < rest.len() implies 0 < (#[trigger] rest[i]).len()
                <= packet_size && (i < rest.len() - 1 ==> rest[i].len() == packet_size) by {
                assert(rest[i] == packets[i + 1]);
            }
        }
        lemma_strip_framed_packets(rest, packet_size);
        let flat = packets.flatten();
        let p0 = packets[0];
        assert(flat == p0 + rest.flatten());
        if rest.len() > 0 {
            assert(rest.flatten() == rest[0] + rest.drop_first().flatten());
            assert(rest[0] == packets[1]);
            assert(p0.len() == packet_size);
        } else {
            assert(rest.flatten() =~= Seq::<u8>::empty());
        }
        let n = if packet_size < flat.len() {
            packet_size
        } else {
            flat.len() as int
        };
        assert(n == p0.len());
        assert(flat.take(n) =~= p0);
        assert(flat.skip(n) =~= rest.flatten());
        let mapped = packets.map_values(|p: Seq<u8>| packet_payload(p));
        assert(mapped.drop_first() =~= rest.map_values(|p: Seq<u8>| packet_payload(p)));
        assert(mapped.flatten() == mapped[0] + mapped.drop_first().flatten());
    }
}

// ---------------------------------------------------------------------------
// Session setup
// ---------------------------------------------------------------------------

/// Parameters of a streaming session that may start.
#[derive(Debug)]
pub struct StreamSetup {
    /// Size of each queued USB read buffer.
    pub buffer_size: usize,
    /// Inactivity timeout of the session (the device's read timeout).
    pub timeout: core::time::Duration,
}

/// Check that a streaming session may start on `dev` and size its buffers.
///
/// `packets_per_transfer` controls each USB buffer size, `num_transfers` the
/// queue depth, `packet_size` is the bulk IN endpoint's maximum packet size.
/// Only the FT2232H and FT232H stream; both counts must be non-zero; a buffer
/// must fit in 32 bits; and the device must not need recovery.
pub fn stream_setup(
    dev: &FtdiDevice,
    packets_per_transfer: usize,
    num_transfers: usize,
    packet_size: usize,
) -> (r: Result<StreamSetup>)
    ensures
        !dev.spec_chip_type().spec_has_sync_fifo() ==> r == Err::<StreamSetup, Error>(
            Error::UnsupportedChip(dev.spec_chip_type()),
        ),
        dev.spec_chip_type().spec_has_sync_fifo() && packets_per_transfer == 0 ==> r == Err::<
            StreamSetup,
            Error,
        >(Error::InvalidArgument("packets_per_transfer must be greater than zero")),
        dev.spec_chip_type().spec_has_sync_fifo() && packets_per_transfer > 0 && num_transfers == 0
            ==> r == Err::<StreamSetup, Error>(
            Error::InvalidArgument("num_transfers must be greater than zero"),
        ),
        dev.spec_chip_type().spec_has_sync_fifo() && packets_per_transfer > 0 && num_transfers > 0
            && packets_per_transfer * packet_size > u32::MAX ==> r == Err::<StreamSetup, Error>(
            Error::InvalidArgument("stream buffer size overflow"),
        ),
        dev.spec_chip_type().spec_has_sync_fifo() && packets_per_transfer > 0 && num_transfers > 0
            && packets_per_transfer * packet_size <= u32::MAX && dev.spec_recovery_required() ==> r
            == Err::<StreamSetup, Error>(Error::RecoveryRequired),
        dev.spec_chip_type().spec_has_sync_fifo() && packets_per_transfer > 0 && num_transfers > 0
            && packets_per_transfer * packet_size <= u32::MAX && !dev.spec_recovery_required() ==> (
        r matches Ok(s) && s.buffer_size == packets_per_transfer * packet_size && s.timeout
            == dev.spec_read_timeout()),
{
    let chip = dev.chip_type();
    if chip != ChipType::Ft2232H && chip != ChipType::Ft232H {
        return Err(Error::UnsupportedChip(chip));
    }
    if packets_per_transfer == 0 {
        return Err(Error::InvalidArgument("packets_per_transfer must be greater than zero"));
    }
    if num_transfers == 0 {
        return Err(Error::InvalidArgument("num_transfers must be greater than zero"));
    }
    let buffer_size = match packets_per_transfer.checked_mul(packet_size) {
        Some(size) => {
            if size <= u32::MAX as usize {
                size
            } else {
                return Err(Error::InvalidArgument("stream buffer size overflow"));
            }
        },
        None => {
            return Err(Error::InvalidArgument("stream buffer size overflow"));
        },
    };
    let timeout = dev.read_timeout();
    dev.ensure_ready()?;
    Ok(StreamSetup { buffer_size, timeout })
}

} // verus!

verus! {

// ---------------------------------------------------------------------------
// Session decisions
// ---------------------------------------------------------------------------

/// Nanoseconds between progress reports.
pub const PROGRESS_INTERVAL_NS: u64 = 1_000_000_000;

/// Transfer statistics of one progress report, in integers: the rates are
/// `total_bytes / total_time` and `interval_bytes / interval_time`.
#[derive(Debug, Clone, Copy, PartialEq, Eq, Structural)]
pub struct ProgressSnapshot {
    /// Total payload bytes since the stream started.
    pub total_bytes: u64,
    /// Nanoseconds since the stream started.
    pub total_time_ns: u64,
    /// Payload bytes of the last reporting interval.
    pub interval_bytes: u64,
    /// Nanoseconds of the last reporting interval.
    pub interval_ns: u64,
}

/// What [`StreamState::poll`] decides before waiting for a transfer.
#[derive(Debug, Clone, Copy, PartialEq, Eq, Structural)]
pub enum StreamPoll {
    /// The session is finished: the stream yields nothing more.
    Finished,
    /// A progress report is due.
    Progress(ProgressSnapshot),
    /// Wait for the next completed transfer.
    Wait,
}

/// What a completed transfer yields.
#[derive(Debug, Clone, Copy, PartialEq, Eq, Structural)]
pub enum StreamYield {
    /// Yield the transfer's payload.
    Data,
    /// The payload was empty; yield a progress report.
    Progress(ProgressSnapshot),
    /// The payload was empty and no report is due; wait again.
    Continue,
}

/// What a [`StreamState`] records.
pub struct StreamView {
    pub timeout_ns: u64,
    pub start_ns: u64,
    pub last_payload_ns: u64,
    pub previous_ns: u64,
    pub previous_bytes: u64,
    pub total_bytes: u64,
    pub pending_progress: Option<ProgressSnapshot>,
    pub finished: bool,
}

/// Decisions of a running synchronous-FIFO session. Times are nanoseconds
/// on a monotonic clock.
#[derive(Debug)]
pub struct StreamState {
    timeout_ns: u64,
    start_ns: u64,
    last_payload_ns: u64,
    previous_ns: u64,
    previous_bytes: u64,
    total_bytes: u64,
    pending_progress: Option<ProgressSnapshot>,
    finished: bool,
}

impl View for StreamState {
    type V = StreamView;

    closed spec fn view(&self) -> StreamView {
        StreamView {
            timeout_ns: self.timeout_ns,
            start_ns: self.start_ns,
            last_payload_ns: self.last_payload_ns,
            previous_ns: self.previous_ns,
            previous_bytes: self.previous_bytes,
            total_bytes: self.total_bytes,
            pending_progress: self.pending_progress,
            finished: self.finished,
        }
    }
}

/// `a - b`, or 0 when `b` is later.
pub open spec fn elapsed(a: int, b: int) -> int {
    if a >= b {
        a - b
    } else {
        0
    }
}

/// The session state after a transfer with `len` payload bytes completed at
/// `now`.
pub open spec fn after_payload(st: StreamView, len: int, now: int) -> StreamView {
    let total = st.total_bytes + len;
    let last = if len > 0 {
        now as u64
    } else {
        st.last_payload_ns
    };
    if elapsed(now, st.previous_ns as int) >= PROGRESS_INTERVAL_NS {
        StreamView {
            total_bytes: total as u64,
            last_payload_ns: last,
            pending_progress: Some(
                ProgressSnapshot {
                    total_bytes: total as u64,
                    total_time_ns: elapsed(now, st.start_ns as int) as u64,
                    interval_bytes: (total - st.previous_bytes) as u64,
                    interval_ns: elapsed(now, st.previous_ns as int) as u64,
                },
            ),
            previous_ns: now as u64,
            previous_bytes: total as u64,
            ..st
        }
    } else {
        StreamView { total_bytes: total as u64, last_payload_ns: last, ..st }
    }
}

/// The session state after [`StreamState::record_transfer`] accounted for a
/// transfer with `len` payload bytes completed at `now`: a report that an
/// empty transfer makes due is handed out at once, so it is no longer
/// pending.
pub open spec fn after_transfer(st: StreamView, len: int, now: int) -> StreamView {
    let next = after_payload(st, len, now);
    if len == 0 && next.pending_progress is Some {
        StreamView { pending_progress: None, ..next }
    } else {
        next
    }
}

/// What [`StreamState::poll`] decides on `st`, and the state after it.
pub open spec fn poll_spec(st: StreamView) -> (StreamPoll, StreamView) {
    if st.finished {
        (StreamPoll::Finished, st)
    } else {
        match st.pending_progress {
            Some(p) => (StreamPoll::Progress(p), StreamView { pending_progress: None, ..st }),
            None => (StreamPoll::Wait, st),
        }
    }
}

impl StreamState {
    /// The bytes counted at the previous report never exceed the total, and
    /// a report waiting to be handed out covers every byte counted so far.
    #[verifier::type_invariant]
    spec fn counts_ordered(&self) -> bool {
        &&& self.previous_bytes <= self.total_bytes
        &&& self.pending_progress matches Some(p) ==> p.total_bytes == self.total_bytes
    }

    /// A session started at `start_ns` with inactivity timeout `timeout_ns`.
    pub fn new(start_ns: u64, timeout_ns: u64) -> (s: Self)
        ensures
            s@ == (StreamView {
                timeout_ns,
                start_ns,
                last_payload_ns: start_ns,
                previous_ns: start_ns,
                previous_bytes: 0,
                total_bytes: 0,
                pending_progress: None,
                finished: false,
            }),
    {
        StreamState {
            timeout_ns,
            start_ns,
            last_payload_ns: start_ns,
            previous_ns: start_ns,
            previous_bytes: 0,
            total_bytes: 0,
            pending_progress: None,
            finished: false,
        }
    }

    /// Total payload bytes so far.
    pub fn total_bytes(&self) -> (n: u64)
        ensures
            n == self@.total_bytes,
    {
        self.total_bytes
    }

    /// Whether the session has been finished.
    pub fn is_finished(&self) -> (b: bool)
        ensures
            b == self@.finished,
    {
        self.finished
    }

    /// Record that the session's transfers were drained and the device left
    /// synchronous-FIFO mode.
    pub fn mark_finished(&mut self)
        ensures
            final(self)@ == (StreamView { finished: true, ..old(self)@ }),
    {
        proof {
            use_type_invariant(&*self);
        }
        self.finished = true;
    }

    /// Record the outcome of the cleanup that ends a session (cancel and
    /// drain the queued reads, leave synchronous-FIFO mode), run after a
    /// clean finish or after an error such as the inactivity timeout: the
    /// session is finished exactly when the cleanup succeeded (or it was
    /// finished already), so every later poll yields nothing; otherwise it
    /// stays unfinished and dropping it requires recovery.
    pub fn record_cleanup(&mut self, cleanup: &Result<()>)
        ensures
            final(self)@ == (StreamView {
                finished: old(self)@.finished || cleanup is Ok,
                ..old(self)@
            }),
    {
        proof {
            use_type_invariant(&*self);
        }
        if cleanup.is_ok() {
            self.finished = true;
        }
    }

    /// First decision of every poll: a finished session yields nothing, a
    /// pending progress report is yielded (and cleared), otherwise wait.
    pub fn poll(&mut self) -> (r: StreamPoll)
        ensures
            (r, final(self)@) == poll_spec(old(self)@),
            r matches StreamPoll::Progress(p) ==> p.total_bytes == old(self)@.total_bytes,
            !old(self)@.finished ==> final(self)@.pending_progress is None,
            old(self)@.finished ==> r == StreamPoll::Finished && final(self)@ == old(self)@,
            !old(self)@.finished ==> match old(self)@.pending_progress {
                Some(p) => r == StreamPoll::Progress(p) && final(self)@ == (StreamView {
                    pending_progress: None,
                    ..old(self)@
                }),
                None => r == StreamPoll::Wait && final(self)@ == old(self)@,
            },
    {
        proof {
            use_type_invariant(&*self);
        }
        if self.finished {
            return StreamPoll::Finished;
        }
        let pending = self.pending_progress;
        self.pending_progress = None;
        match pending {
            Some(p) => StreamPoll::Progress(p),
            None => StreamPoll::Wait,
        }
    }

    /// How long to wait for the next transfer at `now_ns`: the timeout minus
    /// the time since the last payload, or `None` when the session has been
    /// inactive for the whole timeout (a timeout error).
    pub fn remaining_ns(&self, now_ns: u64) -> (r: Option<u64>)
        ensures
            elapsed(now_ns as int, self@.last_payload_ns as int) > self@.timeout_ns ==> r is None,
            elapsed(now_ns as int, self@.last_payload_ns as int) <= self@.timeout_ns ==> r == Some(
                (self@.timeout_ns - elapsed(now_ns as int, self@.last_payload_ns as int)) as u64,
            ),
    {
        let since = now_ns.saturating_sub(self.last_payload_ns);
        self.timeout_ns.checked_sub(since)
    }

    /// Account for a completed transfer with `payload_len` payload bytes at
    /// `now_ns` and decide what it yields: its payload if non-empty, else a
    /// progress report if one is due, else nothing. A report becomes due once
    /// a progress interval (one second) has passed since the previous one.
    /// A report already due must have been handed out by [`poll`](Self::poll)
    /// first, so every report covers exactly the payload bytes counted (and
    /// yielded as data) before it.
    pub fn record_transfer(&mut self, payload_len: usize, now_ns: u64) -> (r: StreamYield)
        requires
            old(self)@.total_bytes + payload_len <= u64::MAX,
            old(self)@.pending_progress is None,
        ensures
            final(self)@ == after_transfer(old(self)@, payload_len as int, now_ns as int),
            final(self)@.total_bytes == old(self)@.total_bytes + payload_len,
            r matches StreamYield::Progress(p) ==> p.total_bytes == final(self)@.total_bytes,
            final(self)@.pending_progress matches Some(p) ==> p.total_bytes
                == final(self)@.total_bytes && r is Data,
            ({
                let st = after_payload(old(self)@, payload_len as int, now_ns as int);
                if payload_len > 0 {
                    r == StreamYield::Data && final(self)@ == st
                } else {
                    match st.pending_progress {
                        Some(p) => r == StreamYield::Progress(p) && final(self)@ == (StreamView {
                            pending_progress: None,
                            ..st
                        }),
                        None => r == StreamYield::Continue && final(self)@ == st,
                    }
                }
            }),
    {
        proof {
            use_type_invariant(&*self);
        }
        self.total_bytes = self.total_bytes + payload_len as u64;
        if payload_len > 0 {
            self.last_payload_ns = now_ns;
        }
        let interval = now_ns.saturating_sub(self.previous_ns);
        if interval >= PROGRESS_INTERVAL_NS {
            self.pending_progress = Some(
                ProgressSnapshot {
                    total_bytes: self.total_bytes,
                    total_time_ns: now_ns.saturating_sub(self.start_ns),
                    interval_bytes: self.total_bytes - self.previous_bytes,
                    interval_ns: interval,
                },
            );
            self.previous_ns = now_ns;
            self.previous_bytes = self.total_bytes;
        }
        if payload_len > 0 {
            return StreamYield::Data;
        }
        let pending = self.pending_progress;
        self.pending_progress = None;
        match pending {
            Some(p) => StreamYield::Progress(p),
            None => StreamYield::Continue,
        }
    }
}

} // verus!

verus! {

/// Every payload byte is counted, and a progress report is due exactly when
/// a full interval has passed since the previous report; it covers the
/// bytes and the time since that report, after which the next interval
/// starts from the reported totals.
pub proof fn lemma_progress_reports(st: StreamView, len: int, now: int)
    requires
        0 <= len,
        st.total_bytes + len <= u64::MAX,
        0 <= now <= u64::MAX,
        st.previous_bytes <= st.total_bytes,
    ensures
        ({
            let next = after_payload(st, len, now);
            &&& next.total_bytes == st.total_bytes + len
            &&& elapsed(now, st.previous_ns as int) >= PROGRESS_INTERVAL_NS ==> (
            next.pending_progress matches Some(p) && p.interval_bytes == st.total_bytes + len
                - st.previous_bytes && p.interval_ns >= PROGRESS_INTERVAL_NS && p.total_bytes
                == next.total_bytes && next.previous_bytes == next.total_bytes
                && next.previous_ns == now)
            &&& elapsed(now, st.previous_ns as int) < PROGRESS_INTERVAL_NS ==> (
            next.pending_progress == st.pending_progress && next.previous_ns == st.previous_ns
                && next.previous_bytes == st.previous_bytes)
        }),
{
}

/// Total payload bytes of a sequence of completed transfers, each given as
/// (payload length, completion time).
pub open spec fn sum_payloads(t: Seq<(u64, u64)>) -> int
    decreases t.len(),
{
    if t.len() == 0 {
        0
    } else {
        sum_payloads(t.drop_last()) + t.last().0
    }
}

/// The session state after `st` recorded the completed transfers `t` in
/// order.
pub open spec fn replay(st: StreamView, t: Seq<(u64, u64)>) -> StreamView
    decreases t.len(),
{
    if t.len() == 0 {
        st
    } else {
        after_transfer(replay(st, t.drop_last()), t.last().0 as int, t.last().1 as int)
    }
}

proof fn lemma_sum_payloads_prefix(t: Seq<(u64, u64)>)
    ensures
        sum_payloads(t) >= 0,
        t.len() > 0 ==> sum_payloads(t.drop_last()) <= sum_payloads(t),
    decreases t.len(),
{
    if t.len() > 0 {
        lemma_sum_payloads_prefix(t.drop_last());
    }
}

/// Over any sequence of completed transfers, the session's byte count grows
/// by exactly the payload bytes it yielded (status bytes and empty
/// transfers add nothing), so every progress report's `total_bytes` is the
/// sum of the payloads yielded before it; and a finished session stays
/// finished, every later poll answering [`StreamPoll::Finished`].
pub proof fn lemma_stream_totals(st: StreamView, t: Seq<(u64, u64)>)
    requires
        st.total_bytes + sum_payloads(t) <= u64::MAX,
    ensures
        replay(st, t).total_bytes == st.total_bytes + sum_payloads(t),
        st.finished ==> replay(st, t).finished && poll_spec(replay(st, t)).0 == StreamPoll::Finished,
    decreases t.len(),
{
    lemma_sum_payloads_prefix(t);
    if t.len() > 0 {
        lemma_stream_totals(st, t.drop_last());
    }
}

/// What cancelling a session's queued reads does next.
#[derive(Debug, Clone, Copy, PartialEq, Eq, Structural)]
pub enum DrainStep {
    /// No read is pending any more: the drain is complete.
    Done,
    /// Wait at most this many nanoseconds for the next cancelled read.
    Wait(u64),
    /// The drain deadline passed with reads still pending.
    TimedOut,
}

/// The next step of draining `pending` cancelled reads, `elapsed_ns` after
/// the drain began, with deadline `timeout_ns`: done when nothing is
/// pending; otherwise wait for what is left of the deadline, or time out
/// once it has passed.
pub fn drain_step(pending: usize, elapsed_ns: u64, timeout_ns: u64) -> (r: DrainStep)
    ensures
        pending == 0 ==> r == DrainStep::Done,
        pending > 0 && elapsed_ns > timeout_ns ==> r == DrainStep::TimedOut,
        pending > 0 && elapsed_ns <= timeout_ns ==> r == DrainStep::Wait(
            (timeout_ns - elapsed_ns) as u64,
        ),
{
    if pending == 0 {
        DrainStep::Done
    } else if elapsed_ns > timeout_ns {
        DrainStep::TimedOut
    } else {
        DrainStep::Wait(timeout_ns - elapsed_ns)
    }
}

/// Only transfers that carry payload reset the inactivity clock: after a
/// status-only transfer the time since the last payload, and so the wait
/// left before the inactivity timeout at any later instant, is what it was
/// before; after a transfer with payload the clock restarts at its
/// completion time.
pub proof fn lemma_inactivity_clock(st: StreamView, len: int, now: int, later: int)
    requires
        0 <= len,
        0 <= now <= u64::MAX,
    ensures
        len == 0 ==> after_transfer(st, len, now).last_payload_ns == st.last_payload_ns,
        len == 0 ==> elapsed(later, after_transfer(st, len, now).last_payload_ns as int) == elapsed(
            later,
            st.last_payload_ns as int,
        ),
        len > 0 ==> after_transfer(st, len, now).last_payload_ns == now,
        after_transfer(st, len, now).timeout_ns == st.timeout_ns,
        after_transfer(st, len, now).start_ns == st.start_ns,
{
}

/// A progress report measures time from the session's start and from the
/// previous report: its total time is `now - start_ns` and its interval
/// `now - previous_ns`, so two sessions whose clocks differ by a constant
/// offset report the same times.
pub proof fn lemma_report_times(st: StreamView, len: int, now: int, offset: int)
    requires
        0 <= len,
        st.start_ns <= st.previous_ns <= now <= u64::MAX,
        st.total_bytes + len <= u64::MAX,
        0 <= st.start_ns + offset,
        now + offset <= u64::MAX,
    ensures
        after_payload(st, len, now).pending_progress != st.pending_progress ==> (after_payload(
            st,
            len,
            now,
        ).pending_progress matches Some(p) && p.total_time_ns == now - st.start_ns
            && p.interval_ns == now - st.previous_ns && p.interval_ns >= PROGRESS_INTERVAL_NS),
        ({
            let shifted = StreamView {
                start_ns: (st.start_ns + offset) as u64,
                previous_ns: (st.previous_ns + offset) as u64,
                last_payload_ns: st.last_payload_ns,
                ..st
            };
            after_payload(shifted, len, now + offset).pending_progress != shifted.pending_progress
                ==> after_payload(shifted, len, now + offset).pending_progress == after_payload(
                st,
                len,
                now,
            ).pending_progress
        }),
{
}

} // verus!

