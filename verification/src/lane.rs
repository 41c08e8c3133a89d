//! One direction of the bridge: a ring buffer that collects the bytes of one
//! serial side until that side has been silent for long enough.

use crate::buffer::{after_enqueue, Buffer};
use crate::timing::{idle_after, idle_step, periods_needed, Idle, IdleStep, TimingCounters};
use vstd::prelude::*;

verus! {

/// A lane as plain values: the buffered bytes, oldest first, the idle
/// counters, and how many bytes found the buffer full.
pub struct LaneModel {
    pub pending: Seq<u8>,
    pub idle: Idle,
    pub dropped: nat,
    /// Bytes that the buffer can hold.
    pub cap: nat,
    /// Silent periods after which the buffered bytes are sent on.
    pub threshold: nat,
}

/// What happens to a lane: a byte arrives, or the control loop looks at it,
/// `true` where a timer period has ended since the last look.
pub enum LaneEvent {
    Byte(u8),
    Tick(bool),
}

/// What a look at a lane asks of the control loop.
#[derive(Debug, PartialEq, Eq)]
pub enum LanePoll {
    /// Nothing.
    Wait,
    /// Start the idle timer afresh.
    Restart,
    /// Let the idle timer run one more period.
    Rearm,
    /// Stop the idle timer and send these bytes on as one burst.
    Flush(Vec<u8>),
}

impl LanePoll {
    /// What this asks of the idle timer.
    pub open spec fn step(self) -> IdleStep {
        match self {
            LanePoll::Wait => IdleStep::Wait,
            LanePoll::Restart => IdleStep::Restart,
            LanePoll::Rearm => IdleStep::Rearm,
            LanePoll::Flush(_) => IdleStep::Flush,
        }
    }

    /// The bytes to send on, if any.
    pub open spec fn burst(self) -> Option<Seq<u8>> {
        match self {
            LanePoll::Flush(bytes) => Some(bytes@),
            _ => None,
        }
    }
}

/// What holds of a lane from its making on: the buffer is within its
/// capacity, the count last seen is not above the buffered count, and the
/// silent periods counted are short of the number that sends a burst on.
pub open spec fn lane_valid(m: LaneModel) -> bool {
    &&& m.pending.len() <= m.cap
    &&& m.idle.last_size <= m.pending.len()
    &&& m.idle.wait < periods_needed(m.threshold)
}

/// The dropped count after one more byte was offered, held at the largest
/// `u64` once it is reached.
pub open spec fn dropped_after(m: LaneModel) -> nat {
    if m.pending.len() < m.cap || m.dropped >= u64::MAX {
        m.dropped
    } else {
        m.dropped + 1
    }
}

/// The lane after a byte arrived.
pub open spec fn lane_after_byte(m: LaneModel, byte: u8) -> LaneModel {
    LaneModel { pending: after_enqueue(m.pending, m.cap, byte), dropped: dropped_after(m), ..m }
}

/// What a look at the lane asks of its idle timer.
pub open spec fn lane_step(m: LaneModel, expired: bool) -> IdleStep {
    idle_step(m.idle, m.threshold, m.pending.len(), expired)
}

/// The lane after a look at it.
pub open spec fn lane_after_tick(m: LaneModel, expired: bool) -> LaneModel {
    LaneModel {
        pending: if lane_step(m, expired) == IdleStep::Flush {
            Seq::<u8>::empty()
        } else {
            m.pending
        },
        idle: idle_after(m.idle, m.threshold, m.pending.len(), expired),
        ..m
    }
}

/// The burst that a look at the lane sends on, if it sends one.
pub open spec fn burst_of_tick(m: LaneModel, expired: bool) -> Option<Seq<u8>> {
    if lane_step(m, expired) == IdleStep::Flush {
        Some(m.pending)
    } else {
        None
    }
}

/// The lane after one event.
pub open spec fn lane_after(m: LaneModel, event: LaneEvent) -> LaneModel {
    match event {
        LaneEvent::Byte(byte) => lane_after_byte(m, byte),
        LaneEvent::Tick(expired) => lane_after_tick(m, expired),
    }
}

/// The bursts that a lane sends on over a run of events, in order.
pub open spec fn bursts(m: LaneModel, events: Seq<LaneEvent>) -> Seq<Seq<u8>>
    decreases events.len(),
{
    if events.len() == 0 {
        Seq::<Seq<u8>>::empty()
    } else {
        let rest = bursts(lane_after(m, events[0]), events.drop_first());
        match events[0] {
            LaneEvent::Byte(_) => rest,
            LaneEvent::Tick(expired) => match burst_of_tick(m, expired) {
                Some(burst) => seq![burst] + rest,
                None => rest,
            },
        }
    }
}

/// One direction of the bridge.
pub struct Lane {
    buffer: Buffer,
    counters: TimingCounters,
    dropped: u64,
}

impl Lane {
    /// The lane as plain values.
    pub closed spec fn view(&self) -> LaneModel {
        LaneModel {
            pending: self.buffer@,
            idle: self.counters@,
            dropped: self.dropped as nat,
            cap: self.buffer.capacity(),
            threshold: self.counters.threshold(),
        }
    }

    /// An empty lane that buffers up to `capacity` bytes and sends them on
    /// after `threshold` silent periods.
    pub fn new(capacity: usize, threshold: u8) -> (lane: Lane)
        ensures
            lane@ == (LaneModel {
                pending: Seq::<u8>::empty(),
                idle: Idle { wait: 0, last_size: 0 },
                dropped: 0,
                cap: capacity as nat,
                threshold: threshold as nat,
            }),
            lane_valid(lane@),
    {
        Lane { buffer: Buffer::new(capacity), counters: TimingCounters::new(threshold), dropped: 0 }
    }

    /// The number of buffered bytes.
    pub fn available(&self) -> (n: usize)
        ensures
            n == self@.pending.len(),
            n <= self@.cap,
    {
        self.buffer.available()
    }

    /// The number of bytes that arrived while the buffer was full and were
    /// dropped.
    pub fn dropped(&self) -> (n: u64)
        ensures
            n == self@.dropped,
    {
        self.dropped
    }

    /// Takes in one byte that arrived on this lane's side. A full buffer
    /// drops it, which is counted and reported by `false`.
    pub fn accept(&mut self, byte: u8) -> (kept: bool)
        ensures
            kept == (old(self)@.pending.len() < old(self)@.cap),
            final(self)@ == lane_after_byte(old(self)@, byte),
    {
        let kept = self.buffer.enqueue(byte);
        if !kept && self.dropped < u64::MAX {
            self.dropped = self.dropped + 1;
        }
        kept
    }

    /// Takes one look at the lane, with `expired` telling whether a timer
    /// period has ended since the last look. Once the buffered bytes have
    /// seen enough silent periods in a row, they are taken out and handed
    /// back as one burst.
    pub fn poll(&mut self, expired: bool) -> (out: LanePoll)
        ensures
            final(self)@ == lane_after_tick(old(self)@, expired),
            out.step() == lane_step(old(self)@, expired),
            out.burst() == burst_of_tick(old(self)@, expired),
    {
        let size = self.buffer.available();
        let step = self.counters.observe(size, expired);
        match step {
            IdleStep::Wait => LanePoll::Wait,
            IdleStep::Restart => LanePoll::Restart,
            IdleStep::Rearm => LanePoll::Rearm,
            IdleStep::Flush => LanePoll::Flush(self.buffer.deallqueue()),
        }
    }
}

/// No event is a byte.
pub open spec fn only_ticks(events: Seq<LaneEvent>) -> bool {
    forall|i: int| 0 <= i < events.len() ==> events[i] is Tick
}

/// The number of looks in `events` at which a timer period had ended.
pub open spec fn expirations(events: Seq<LaneEvent>) -> nat
    decreases events.len(),
{
    if events.len() == 0 {
        0
    } else {
        expirations(events.drop_first()) + (if events[0] == LaneEvent::Tick(true) {
            1nat
        } else {
            0nat
        })
    }
}

/// The number of bytes that arrive in `events`.
pub open spec fn arrivals(events: Seq<LaneEvent>) -> nat
    decreases events.len(),
{
    if events.len() == 0 {
        0
    } else {
        arrivals(events.drop_first()) + (if events[0] is Byte {
            1nat
        } else {
            0nat
        })
    }
}

/// The silent periods that a lane with buffered bytes has counted once the
/// looks of `events` are over, given that no byte arrives and no burst
/// leaves: where the buffered count is the one last seen, those counted
/// before and every ended period since; where it is not, the first look only
/// takes note of it, and the ended periods after that look count.
pub open spec fn silent_periods(m: LaneModel, events: Seq<LaneEvent>) -> nat {
    if m.idle.last_size == m.pending.len() {
        m.idle.wait + expirations(events)
    } else if events.len() == 0 {
        0
    } else {
        expirations(events.drop_first())
    }
}

/// Between any two looks at which a timer period had ended, and before the
/// first of them if `fed` is false, at least one byte arrives.
pub open spec fn fed_before_each_expiry(events: Seq<LaneEvent>, fed: bool) -> bool
    decreases events.len(),
{
    if events.len() == 0 {
        true
    } else {
        match events[0] {
            LaneEvent::Byte(_) => fed_before_each_expiry(events.drop_first(), true),
            LaneEvent::Tick(false) => fed_before_each_expiry(events.drop_first(), fed),
            LaneEvent::Tick(true) => fed && fed_before_each_expiry(events.drop_first(), false),
        }
    }
}

/// The lane after a whole run of events.
pub open spec fn lane_after_all(m: LaneModel, events: Seq<LaneEvent>) -> LaneModel
    decreases events.len(),
{
    if events.len() == 0 {
        m
    } else {
        lane_after_all(lane_after(m, events[0]), events.drop_first())
    }
}

/// The bytes that arrive in `events`, in order.
pub open spec fn arrived(events: Seq<LaneEvent>) -> Seq<u8>
    decreases events.len(),
{
    if events.len() == 0 {
        Seq::<u8>::empty()
    } else {
        match events[0] {
            LaneEvent::Byte(byte) => seq![byte] + arrived(events.drop_first()),
            LaneEvent::Tick(_) => arrived(events.drop_first()),
        }
    }
}

/// The bytes of several bursts, one burst after the other.
pub open spec fn joined(parts: Seq<Seq<u8>>) -> Seq<u8>
    decreases parts.len(),
{
    if parts.len() == 0 {
        Seq::<u8>::empty()
    } else {
        parts[0] + joined(parts.drop_first())
    }
}

/// A valid lane stays valid whatever happens to it.
pub proof fn lemma_lane_stays_valid(m: LaneModel, event: LaneEvent)
    requires
        lane_valid(m),
    ensures
        lane_valid(lane_after(m, event)),
{
}

/// An empty lane sends nothing on, however often it is looked at.
pub proof fn lemma_empty_lane_sends_nothing(m: LaneModel, events: Seq<LaneEvent>)
    requires
        only_ticks(events),
        m.pending.len() == 0,
    ensures
        bursts(m, events) == Seq::<Seq<u8>>::empty(),
    decreases events.len(),
{
    if events.len() > 0 {
        let rest = events.drop_first();
        assert(events[0] is Tick);
        assert forall|i: int| 0 <= i < rest.len() implies rest[i] is Tick by {
            assert(rest[i] == events[i + 1]);
        }
        lemma_empty_lane_sends_nothing(lane_after(m, events[0]), rest);
    }
}

/// A producer that has stopped gets exactly one burst: while no byte
/// arrives, a lane with buffered bytes sends nothing on until the silent
/// periods in a row reach the threshold, at that look sends on all that is
/// buffered as one burst, and sends nothing after it.
pub proof fn lemma_silence_sends_one_burst(m: LaneModel, events: Seq<LaneEvent>)
    requires
        lane_valid(m),
        m.pending.len() > 0,
        only_ticks(events),
    ensures
        bursts(m, events) == (if silent_periods(m, events) >= periods_needed(m.threshold) {
            seq![m.pending]
        } else {
            Seq::<Seq<u8>>::empty()
        }),
    decreases events.len(),
{
    if events.len() > 0 {
        let rest = events.drop_first();
        let next = lane_after(m, events[0]);
        assert(events[0] is Tick);
        assert forall|i: int| 0 <= i < rest.len() implies rest[i] is Tick by {
            assert(rest[i] == events[i + 1]);
        }
        lemma_lane_stays_valid(m, events[0]);
        if next.pending.len() == 0 {
            lemma_empty_lane_sends_nothing(next, rest);
            assert(seq![m.pending] + Seq::<Seq<u8>>::empty() =~= seq![m.pending]);
        } else {
            lemma_silence_sends_one_burst(next, rest);
        }
    }
}

/// A producer that never pauses gets no burst: where at least one byte
/// arrives, and finds room, between any two ended timer periods, a lane
/// whose threshold is two or more sends nothing on.
pub proof fn lemma_fed_lane_sends_nothing(m: LaneModel, events: Seq<LaneEvent>)
    requires
        lane_valid(m),
        m.threshold >= 2,
        m.pending.len() + arrivals(events) <= m.cap,
        fed_before_each_expiry(events, false),
    ensures
        bursts(m, events) == Seq::<Seq<u8>>::empty(),
{
    lemma_fed_lane_induction(m, events, false);
}

/// The induction behind `lemma_fed_lane_sends_nothing`: `fed` tells whether a
/// byte has arrived since the last ended period, in which case the next look
/// either takes note of a new count or has counted no silent period yet.
proof fn lemma_fed_lane_induction(m: LaneModel, events: Seq<LaneEvent>, fed: bool)
    requires
        lane_valid(m),
        m.threshold >= 2,
        m.pending.len() + arrivals(events) <= m.cap,
        fed_before_each_expiry(events, fed),
        fed ==> m.pending.len() > 0 && (m.idle.last_size < m.pending.len() || m.idle.wait == 0),
    ensures
        bursts(m, events) == Seq::<Seq<u8>>::empty(),
    decreases events.len(),
{
    if events.len() > 0 {
        let rest = events.drop_first();
        let next = lane_after(m, events[0]);
        lemma_lane_stays_valid(m, events[0]);
        match events[0] {
            LaneEvent::Byte(_) => {
                lemma_fed_lane_induction(next, rest, true);
            },
            LaneEvent::Tick(false) => {
                lemma_fed_lane_induction(next, rest, fed);
            },
            LaneEvent::Tick(true) => {
                lemma_fed_lane_induction(next, rest, false);
            },
        }
    }
}

/// The relay is transparent: as long as every arriving byte finds room, the
/// bursts sent on, followed by what is still buffered, are the bytes that
/// were buffered at the start followed by those that arrived, in the order
/// of their arrival. Nothing is lost, added, or moved.
pub proof fn lemma_relay_keeps_bytes(m: LaneModel, events: Seq<LaneEvent>)
    requires
        lane_valid(m),
        m.pending.len() + arrivals(events) <= m.cap,
    ensures
        joined(bursts(m, events)) + lane_after_all(m, events).pending == m.pending + arrived(
            events,
        ),
    decreases events.len(),
{
    if events.len() == 0 {
        assert(joined(bursts(m, events)) + m.pending =~= m.pending + arrived(events));
    } else {
        let rest = events.drop_first();
        let next = lane_after(m, events[0]);
        lemma_lane_stays_valid(m, events[0]);
        lemma_relay_keeps_bytes(next, rest);
        let sent = bursts(next, rest);
        let left = lane_after_all(next, rest).pending;
        match events[0] {
            LaneEvent::Byte(byte) => {
                assert(next.pending == m.pending.push(byte));
                assert(m.pending.push(byte) + arrived(rest) =~= m.pending + (seq![byte] + arrived(
                    rest,
                )));
            },
            LaneEvent::Tick(expired) => {
                if burst_of_tick(m, expired) is Some {
                    let all = seq![m.pending] + sent;
                    assert(all[0] == m.pending);
                    assert(all.drop_first() =~= sent);
                    assert(joined(all) == m.pending + joined(sent));
                    assert((m.pending + joined(sent)) + left =~= m.pending + (joined(sent)
                        + left));
                    assert(Seq::<u8>::empty() + arrived(rest) =~= arrived(rest));
                }
            },
        }
    }
}

} // verus!
