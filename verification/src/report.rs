//! The running report id of an outgoing channel.
//!
//! Input reports of a few kinds carry a one-byte id that counts protocol
//! ticks of four milliseconds. A relay hop adds latency, so the id of each
//! such report is replaced by a counter that advances with the time that
//! really passed on the sending channel.
use vstd::prelude::*;

verus! {

/// Milliseconds per protocol tick.
pub const TICK_MS: u64 = 4;

/// Offset of the report type in a report.
pub const REPORT_TYPE_OFFSET: usize = 1;

/// Offset of the running id in a report.
pub const REPORT_ID_OFFSET: usize = 2;

/// The report types whose id is rewritten.
pub open spec fn is_timed_type(report_type: u8) -> bool {
    report_type == 0x30 || report_type == 0x21 || report_type == 0x31
}

/// A report whose id is rewritten: at least four bytes, of a timed type.
pub open spec fn is_timed_report(buf: Seq<u8>) -> bool {
    buf.len() >= 4 && is_timed_type(buf[1])
}

/// The later of two timestamps.
pub open spec fn later(a: u64, b: u64) -> u64 {
    if a >= b {
        a
    } else {
        b
    }
}

/// The id that follows `id` after `elapsed_ms` milliseconds: one step per
/// whole tick, wrapping at 256.
pub open spec fn advanced_id(id: u8, elapsed_ms: u64) -> u8 {
    ((id as int + elapsed_ms as int / 4) % 256) as u8
}

/// Rewrite state of one sending channel.
#[derive(Clone, Copy, Debug, PartialEq, Eq, Structural)]
pub struct ReportTimerRewriter {
    /// Whether reports sent on this channel are rewritten at all.
    pub enabled: bool,
    /// The id given to the last rewritten report.
    pub running_id: u8,
    /// Time of the last rewritten report, in milliseconds since the channel
    /// started.
    pub last_timestamp_ms: u64,
}

/// One send: the report as handed in, and the channel's clock at that moment.
pub struct SendRecord {
    pub report: Seq<u8>,
    pub now_ms: u64,
}

impl ReportTimerRewriter {
    /// Whether a send of `buf` changes anything.
    pub open spec fn applies(self, buf: Seq<u8>) -> bool {
        self.enabled && is_timed_report(buf)
    }

    /// The state after a send of `buf` at `now_ms`.
    pub open spec fn after_send(self, buf: Seq<u8>, now_ms: u64) -> Self {
        if self.applies(buf) {
            ReportTimerRewriter {
                enabled: self.enabled,
                running_id: advanced_id(
                    self.running_id,
                    (later(self.last_timestamp_ms, now_ms) - self.last_timestamp_ms) as u64,
                ),
                last_timestamp_ms: later(self.last_timestamp_ms, now_ms),
            }
        } else {
            self
        }
    }

    /// The bytes that a send of `buf` at `now_ms` puts on the wire.
    pub open spec fn sent_bytes(self, buf: Seq<u8>, now_ms: u64) -> Seq<u8> {
        if self.applies(buf) {
            buf.update(2, self.after_send(buf, now_ms).running_id)
        } else {
            buf
        }
    }

    /// The state after a series of sends.
    pub open spec fn after_sends(self, sends: Seq<SendRecord>) -> Self
        decreases sends.len(),
    {
        if sends.len() == 0 {
            self
        } else {
            self.after_sends(sends.drop_last()).after_send(sends.last().report, sends.last().now_ms)
        }
    }

    /// The state of a channel that has just started: id 0 at time 0.
    pub fn new(enabled: bool) -> (out: Self)
        ensures
            out == (ReportTimerRewriter { enabled, running_id: 0, last_timestamp_ms: 0 }),
    {
        ReportTimerRewriter { enabled, running_id: 0, last_timestamp_ms: 0 }
    }

    /// Whether `buf` is a report whose id this channel rewrites.
    pub fn rewrites(&self, buf: &Vec<u8>) -> (out: bool)
        ensures
            out == self.applies(buf@),
    {
        self.enabled && buf.len() >= 4 && (buf[REPORT_TYPE_OFFSET] == 0x30
            || buf[REPORT_TYPE_OFFSET] == 0x21 || buf[REPORT_TYPE_OFFSET] == 0x31)
    }

    /// Prepares `buf` for sending at `now_ms`, the time since the channel
    /// started. A timed report gets the advanced running id in its third
    /// byte, and the time is recorded; any other buffer, and every buffer
    /// while rewriting is off, is left alone together with the state. A clock
    /// reading that lies before the recorded time counts as no time passed.
    pub fn rewrite(&mut self, buf: &mut Vec<u8>, now_ms: u64)
        ensures
            *final(self) == old(self).after_send(old(buf)@, now_ms),
            final(buf)@ == old(self).sent_bytes(old(buf)@, now_ms),
            final(self).last_timestamp_ms >= old(self).last_timestamp_ms,
    {
        if !self.rewrites(buf) {
            return ;
        }
        let now: u64 = if now_ms >= self.last_timestamp_ms {
            now_ms
        } else {
            self.last_timestamp_ms
        };
        let delta: u64 = now - self.last_timestamp_ms;
        let ticks: u64 = delta / TICK_MS;
        let id: u8 = ((self.running_id as u64 + ticks) % 256) as u8;
        self.last_timestamp_ms = now;
        self.running_id = id;
        buf.set(REPORT_ID_OFFSET, id);
    }
}

/// The recorded time never goes back over a send.
pub proof fn law_timestamp_never_decreases(state: ReportTimerRewriter, buf: Seq<u8>, now_ms: u64)
    ensures
        state.after_send(buf, now_ms).last_timestamp_ms >= state.last_timestamp_ms,
{
}

/// The recorded time never goes back over any series of sends.
pub proof fn law_timestamp_monotone(state: ReportTimerRewriter, sends: Seq<SendRecord>)
    ensures
        state.after_sends(sends).last_timestamp_ms >= state.last_timestamp_ms,
    decreases sends.len(),
{
    if sends.len() > 0 {
        law_timestamp_monotone(state, sends.drop_last());
    }
}

/// With a clock that has not gone back, a timed report leaves with the
/// previous id advanced by one step per four milliseconds passed, modulo 256,
/// and with every other byte as it was.
pub proof fn law_timed_report_id(state: ReportTimerRewriter, buf: Seq<u8>, now_ms: u64)
    requires
        state.enabled,
        is_timed_report(buf),
        now_ms >= state.last_timestamp_ms,
    ensures
        state.sent_bytes(buf, now_ms).len() == buf.len(),
        state.sent_bytes(buf, now_ms)[2] as int == (state.running_id + (now_ms
            - state.last_timestamp_ms) / 4) % 256,
        forall|j: int| 0 <= j < buf.len() && j != 2 ==> state.sent_bytes(buf, now_ms)[j] == buf[j],
        state.after_send(buf, now_ms).last_timestamp_ms == now_ms,
        state.after_send(buf, now_ms).running_id == state.sent_bytes(buf, now_ms)[2],
{
}

/// A buffer that is no timed report, or any buffer while rewriting is off,
/// leaves as it came, and the state stays.
pub proof fn law_other_report_untouched(state: ReportTimerRewriter, buf: Seq<u8>, now_ms: u64)
    requires
        !state.enabled || !is_timed_report(buf),
    ensures
        state.sent_bytes(buf, now_ms) == buf,
        state.after_send(buf, now_ms) == state,
{
}

} // verus!
