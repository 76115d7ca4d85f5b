use vstd::prelude::*;
use crate::time::since;

verus! {

/// An event with the monotonic time, in milliseconds, at which it arrived.
pub struct TimestampedEvent<E> {
    pub event: E,
    pub received_at: u64,
}

/// The first index from `from` on whose receipt time is later than
/// `target`, or the end of the log.
pub open spec fn drain_end(times: Seq<u64>, from: int, target: int) -> int
    decreases times.len() - from,
{
    if from < 0 || from >= times.len() {
        from
    } else if times[from] <= target {
        drain_end(times, from + 1, target)
    } else {
        from
    }
}

/// The receipt time up to which a replay has advanced: the wall time since
/// the replay was anchored, scaled by `speed_milli / 1000`, plus the offset
/// of the last seek, counted from the first receipt.
pub open spec fn replay_target(first: u64, start: u64, offset: u64, now: u64, speed_milli: u64) -> int {
    first + since(now, start) * speed_milli / 1000 + offset
}

/// Append-only log of received events with a replay cursor.
pub struct History<E> {
    events: Vec<TimestampedEvent<E>>,
    playback_index: usize,
    pub replay_mode: bool,
    replay_start: Option<u64>,
    replay_offset: u64,
}

impl<E> History<E> {
    pub closed spec fn log(&self) -> Seq<E> {
        self.events@.map_values(|e: TimestampedEvent<E>| e.event)
    }

    pub closed spec fn times(&self) -> Seq<u64> {
        self.events@.map_values(|e: TimestampedEvent<E>| e.received_at)
    }

    /// Whether the log is being replayed.
    pub closed spec fn replaying(&self) -> bool {
        self.replay_mode
    }

    /// The playback cursor: the index of the next event to replay.
    pub closed spec fn cursor(&self) -> int {
        self.playback_index as int
    }

    /// When the current stretch of replay was anchored.
    pub closed spec fn start(&self) -> Option<u64> {
        self.replay_start
    }

    /// Receipt-time offset from the first event at which the current stretch begins.
    pub closed spec fn offset(&self) -> u64 {
        self.replay_offset
    }

    /// Span of receipt times from the first event to the last.
    pub open spec fn span(&self) -> int {
        if self.times().len() == 0 {
            0
        } else {
            since(self.times().last(), self.times()[0])
        }
    }

    /// An empty log, not replaying.
    pub fn new() -> (r: Self)
        ensures
            r.log().len() == 0,
            r.times().len() == 0,
            r.cursor() == 0,
            !r.replaying(),
            r.start() is None,
            r.offset() == 0,
    {
        History {
            events: Vec::new(),
            playback_index: 0,
            replay_mode: false,
            replay_start: None,
            replay_offset: 0,
        }
    }

    /// Appends `event`, received at `now`.
    pub fn record(&mut self, event: E, now: u64)
        ensures
            final(self).log() == old(self).log().push(event),
            final(self).times() == old(self).times().push(now),
            final(self).cursor() == old(self).cursor(),
            final(self).replaying() == old(self).replaying(),
            final(self).start() == old(self).start(),
            final(self).offset() == old(self).offset(),
    {
        self.events.push(TimestampedEvent { event, received_at: now });
        assert(self.log() =~= old(self).log().push(event));
        assert(self.times() =~= old(self).times().push(now));
    }

    /// Number of recorded events.
    pub fn len(&self) -> (r: usize)
        ensures
            r == self.log().len(),
    {
        self.events.len()
    }

    /// Whether nothing has been recorded.
    pub fn is_empty(&self) -> (r: bool)
        ensures
            r == (self.log().len() == 0),
    {
        self.events.len() == 0
    }

    /// Receipt-time span from the first event to the last, 0 when empty.
    pub fn duration(&self) -> (r: u64)
        ensures
            r == self.span(),
    {
        let n = self.events.len();
        if n == 0 {
            return 0;
        }
        let first = self.events[0].received_at;
        let last = self.events[n - 1].received_at;
        if last >= first {
            last - first
        } else {
            0
        }
    }

    /// Enters replay mode from the first event, anchored at `now`.
    pub fn start_replay(&mut self, now: u64)
        ensures
            final(self).log() == old(self).log(),
            final(self).times() == old(self).times(),
            final(self).replaying(),
            final(self).cursor() == 0,
            final(self).start() == Some(now),
            final(self).offset() == 0,
    {
        self.replay_mode = true;
        self.playback_index = 0;
        self.replay_start = Some(now);
        self.replay_offset = 0;
    }

    /// Leaves replay mode; the log is kept.
    pub fn stop_replay(&mut self)
        ensures
            final(self).log() == old(self).log(),
            final(self).times() == old(self).times(),
            !final(self).replaying(),
            final(self).cursor() == old(self).cursor(),
            final(self).start() is None,
            final(self).offset() == old(self).offset(),
    {
        self.replay_mode = false;
        self.replay_start = None;
    }
}

impl<E> History<E> {
    /// Moves the cursor to `floor((len - 1) * p / 1000)` for the position
    /// `p = min(position_milli, 1000)` and anchors the replay at `now` with
    /// offset `span * p / 1000`. Nothing changes on an empty log.
    pub fn seek(&mut self, position_milli: u32, now: u64)
        ensures
            final(self).log() == old(self).log(),
            final(self).times() == old(self).times(),
            final(self).replaying() == old(self).replaying(),
            old(self).log().len() == 0 ==> *final(self) == *old(self),
            old(self).log().len() > 0 ==> {
                let p = if position_milli > 1000 { 1000int } else { position_milli as int };
                &&& final(self).cursor() == (old(self).log().len() - 1) * p / 1000
                &&& final(self).start() == Some(now)
                &&& final(self).offset() == old(self).span() * p / 1000
            },
    {
        let n = self.events.len();
        if n == 0 {
            return;
        }
        let p: u32 = if position_milli > 1000 { 1000 } else { position_milli };
        let span = self.duration();
        proof {
            assert((n - 1) as int * p as int <= 0xffff_ffff_ffff_ffff * 1000) by (nonlinear_arith)
                requires p <= 1000, n >= 1, n <= 0xffff_ffff_ffff_ffff;
            assert(span as int * p as int <= 0xffff_ffff_ffff_ffff * 1000) by (nonlinear_arith)
                requires p <= 1000;
            assert((n - 1) as int * p as int / 1000 <= (n - 1) as int) by (nonlinear_arith)
                requires p <= 1000, n >= 1;
            assert(span as int * p as int / 1000 <= span as int) by (nonlinear_arith)
                requires p <= 1000;
            assert(0 <= (n - 1) as int * p as int / 1000) by (nonlinear_arith)
                requires p <= 1000, n >= 1;
            assert(0 <= span as int * p as int / 1000) by (nonlinear_arith)
                requires p <= 1000;
        }
        let target = ((n - 1) as u128 * p as u128 / 1000) as usize;
        self.playback_index = target;
        self.replay_start = Some(now);
        self.replay_offset = (span as u128 * p as u128 / 1000) as u64;
    }

    /// The cursor as the fraction `(cursor, len)` of the log, counted in
    /// events rather than time; `(0, 1)` when the log is empty.
    pub fn position(&self) -> (r: (usize, usize))
        ensures
            self.log().len() == 0 ==> r == (0usize, 1usize),
            self.log().len() > 0 ==> r.0 == self.cursor() && r.1 == self.log().len(),
    {
        if self.events.len() == 0 {
            (0, 1)
        } else {
            (self.playback_index, self.events.len())
        }
    }
}

impl<E: Clone> History<E> {
    /// Replaces the log with `events`, received at `now`, `now + 100`,
    /// `now + 200`, ... milliseconds.
    pub fn load_events(&mut self, events: Vec<E>, now: u64)
        requires
            now as int + 100 * events@.len() <= u64::MAX,
        ensures
            final(self).log().len() == events@.len(),
            forall|i: int|
                0 <= i < events@.len() ==> cloned(events@[i], #[trigger] final(self).log()[i]),
            forall|i: int|
                0 <= i < events@.len() ==> #[trigger] final(self).times()[i] == now + 100 * i,
            final(self).cursor() == old(self).cursor(),
            final(self).replaying() == old(self).replaying(),
            final(self).start() == old(self).start(),
            final(self).offset() == old(self).offset(),
    {
        self.events.clear();
        let mut i: usize = 0;
        while i < events.len()
            invariant
                now as int + 100 * events@.len() <= u64::MAX,
                i <= events@.len(),
                self.events@.len() == i,
                self.playback_index == old(self).playback_index,
                self.replay_mode == old(self).replay_mode,
                self.replay_start == old(self).replay_start,
                self.replay_offset == old(self).replay_offset,
                forall|j: int|
                    0 <= j < i ==> cloned(events@[j], #[trigger] self.events@[j].event),
                forall|j: int| 0 <= j < i ==> #[trigger] self.events@[j].received_at == now + 100 * j,
            decreases events@.len() - i,
        {
            let e = events[i].clone();
            self.events.push(TimestampedEvent { event: e, received_at: now + 100 * i as u64 });
            i = i + 1;
        }
        assert forall|j: int| 0 <= j < events@.len() implies cloned(events@[j], #[trigger] self.log()[j]) by {
            assert(self.log()[j] == self.events@[j].event);
        }
        assert forall|j: int| 0 <= j < events@.len() implies #[trigger] self.times()[j] == now + 100 * j by {
            assert(self.times()[j] == self.events@[j].received_at);
        }
    }

    /// The events before the cursor, in log order, for rebuilding state
    /// from empty after a seek.
    pub fn get_events_to_position(&self) -> (r: Vec<E>)
        ensures
            r@.len() == if self.cursor() < self.log().len() { self.cursor() } else { self.log().len() as int },
            forall|i: int| 0 <= i < r@.len() ==> cloned(self.log()[i], #[trigger] r@[i]),
    {
        let n = if self.playback_index < self.events.len() { self.playback_index } else { self.events.len() };
        let mut out: Vec<E> = Vec::new();
        let mut i: usize = 0;
        while i < n
            invariant
                n <= self.events@.len(),
                i <= n,
                out@.len() == i,
                forall|j: int| 0 <= j < i ==> cloned(self.log()[j], #[trigger] out@[j]),
            decreases n - i,
        {
            assert(self.log()[i as int] == self.events@[i as int].event);
            out.push(self.events[i].event.clone());
            i = i + 1;
        }
        out
    }
}

impl<E: Clone> History<E> {
    /// While replaying a non-empty log, hands out in order every event from
    /// the cursor on whose receipt time is at most the replay target, moving
    /// the cursor past each; on reaching the end of the log, goes back to
    /// the first event and anchors a new stretch at `now`. Otherwise hands
    /// out nothing and changes nothing.
    pub fn get_replay_events(&mut self, now: u64, speed_milli: u64) -> (r: Vec<E>)
        ensures
            final(self).log() == old(self).log(),
            final(self).times() == old(self).times(),
            final(self).replaying() == old(self).replaying(),
            !old(self).replaying() || old(self).log().len() == 0 || old(self).start() is None ==> {
                &&& r@.len() == 0
                &&& *final(self) == *old(self)
            },
            old(self).replaying() && old(self).log().len() > 0 && old(self).start() is Some ==> {
                let target = replay_target(
                    old(self).times()[0],
                    old(self).start()->0,
                    old(self).offset(),
                    now,
                    speed_milli,
                );
                let end = drain_end(old(self).times(), old(self).cursor(), target);
                &&& r@.len() == end - old(self).cursor()
                &&& forall|k: int|
                    0 <= k < r@.len() ==> cloned(
                        old(self).log()[old(self).cursor() + k],
                        #[trigger] r@[k],
                    )
                &&& if end >= old(self).log().len() {
                    &&& final(self).cursor() == 0
                    &&& final(self).start() == Some(now)
                    &&& final(self).offset() == 0
                } else {
                    &&& final(self).cursor() == end
                    &&& final(self).start() == old(self).start()
                    &&& final(self).offset() == old(self).offset()
                }
            },
    {
        let mut out: Vec<E> = Vec::new();
        if !self.replay_mode || self.events.len() == 0 {
            return out;
        }
        let start = match self.replay_start {
            Some(s) => s,
            None => {
                return out;
            },
        };
        let elapsed: u64 = if now >= start { now - start } else { 0 };
        proof {
            assert(elapsed as int * speed_milli as int <= 0xffff_ffff_ffff_ffff * 0xffff_ffff_ffff_ffff)
                by (nonlinear_arith);
            assert(0 <= elapsed as int * speed_milli as int / 1000) by (nonlinear_arith);
            assert(elapsed as int * speed_milli as int / 1000 <= elapsed as int * speed_milli as int) by (nonlinear_arith);
        }
        let target: u128 = self.events[0].received_at as u128 + elapsed as u128 * speed_milli as u128 / 1000
            + self.replay_offset as u128;
        let ghost times = self.times();
        let ghost c0 = self.playback_index as int;
        let n = self.events.len();
        let mut idx = self.playback_index;
        let mut stop = false;
        while idx < n && !stop
            invariant
                n == self.events@.len(),
                times == self.times(),
                self.events == old(self).events,
                self.playback_index == old(self).playback_index,
                c0 == old(self).cursor(),
                c0 <= idx,
                target as int == replay_target(times[0], start, old(self).offset(), now, speed_milli),
                stop ==> idx < n && drain_end(times, c0, target as int) == idx,
                !stop ==> drain_end(times, c0, target as int) == drain_end(times, idx as int, target as int),
                out@.len() == idx - c0,
                forall|k: int| 0 <= k < out@.len() ==> cloned(old(self).log()[c0 + k], #[trigger] out@[k]),
            decreases n - idx, if stop { 0int } else { 1int },
        {
            assert(times[idx as int] == self.events@[idx as int].received_at);
            if self.events[idx].received_at as u128 <= target {
                assert(old(self).log()[idx as int] == self.events@[idx as int].event);
                out.push(self.events[idx].event.clone());
                idx = idx + 1;
            } else {
                stop = true;
            }
        }
        if idx >= n {
            self.playback_index = 0;
            self.replay_start = Some(now);
            self.replay_offset = 0;
        } else {
            self.playback_index = idx;
        }
        out
    }
}

proof fn lemma_drain_end_all(times: Seq<u64>, from: int, target: int)
    requires
        0 <= from <= times.len(),
        forall|i: int| from <= i < times.len() ==> times[i] <= target,
    ensures
        drain_end(times, from, target) == times.len(),
    decreases times.len() - from,
{
    if from < times.len() {
        lemma_drain_end_all(times, from + 1, target);
    }
}

/// A replay fast enough that its target reaches every receipt time drains
/// the whole log, from the cursor to the end, in one call; the cursor then
/// wraps to the first event, so the next stretch repeats the log from
/// event 0.
pub proof fn lemma_fast_replay_drains_log<E>(h: History<E>, now: u64, speed_milli: u64)
    requires
        h.replaying(),
        h.log().len() > 0,
        h.start() is Some,
        0 <= h.cursor() <= h.log().len(),
        forall|i: int|
            0 <= i < h.times().len() ==> #[trigger] h.times()[i] <= replay_target(
                h.times()[0],
                h.start()->0,
                h.offset(),
                now,
                speed_milli,
            ),
    ensures
        drain_end(
            h.times(),
            h.cursor(),
            replay_target(h.times()[0], h.start()->0, h.offset(), now, speed_milli),
        ) == h.log().len(),
{
    let target = replay_target(h.times()[0], h.start()->0, h.offset(), now, speed_milli);
    assert(h.times().len() == h.log().len());
    lemma_drain_end_all(h.times(), h.cursor(), target);
}

impl<E> Default for History<E> {
    fn default() -> (r: Self)
        ensures
            r.log().len() == 0,
            r.cursor() == 0,
            !r.replaying(),
    {
        Self::new()
    }
}

} // verus!
