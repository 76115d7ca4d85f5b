use vstd::prelude::*;
use crate::event::Connection;
use crate::time::since;

verus! {

/// Full opacity, in thousandths.
pub const FULL_OPACITY: u32 = 1000;

/// Length of the fade-in, in milliseconds.
pub const FADE_IN_MS: u64 = 300;

/// Age after which a connection starts fading out, in milliseconds.
pub const HOLD_UNTIL_MS: u64 = 3000;

/// A connection on the field with its fade state. Opacity is in thousandths
/// of full; times are monotonic milliseconds.
pub struct ActiveConnection {
    pub from: String,
    pub to: String,
    pub label: String,
    pub created_at: u64,
    pub opacity_milli: u32,
    pub fading_out: bool,
}

/// The state of a connection after one tick at `now` with a frame of
/// `dt_ms`, and whether it is to be removed.
pub open spec fn tick_spec(c: ActiveConnection, now: u64, dt_ms: u64) -> (ActiveConnection, bool) {
    let age = since(now, c.created_at);
    if c.fading_out {
        let o = if c.opacity_milli as int > 2 * dt_ms as int {
            (c.opacity_milli as int - 2 * dt_ms as int) as u32
        } else {
            0u32
        };
        (ActiveConnection { opacity_milli: o, ..c }, o == 0)
    } else if age < FADE_IN_MS {
        let o = if age * 1000 / 300 < 1000 { (age * 1000 / 300) as u32 } else { 1000u32 };
        (ActiveConnection { opacity_milli: o, ..c }, false)
    } else if age > HOLD_UNTIL_MS {
        (ActiveConnection { fading_out: true, ..c }, false)
    } else {
        (ActiveConnection { opacity_milli: FULL_OPACITY, ..c }, false)
    }
}

impl ActiveConnection {
    /// A connection made at `now`, invisible until its first tick.
    pub fn new(conn: &Connection, now: u64) -> (r: Self)
        ensures
            r.from@ == conn.from@,
            r.to@ == conn.to@,
            r.label@ == conn.label@,
            r.created_at == now,
            r.opacity_milli == 0,
            !r.fading_out,
    {
        ActiveConnection {
            from: conn.from.clone(),
            to: conn.to.clone(),
            label: conn.label.clone(),
            created_at: now,
            opacity_milli: 0,
            fading_out: false,
        }
    }

    /// One frame of the fade: a fading connection loses `2 * dt_ms`
    /// thousandths (down to 0) and is to be removed at 0; otherwise it fades
    /// in linearly over its first 300 ms, holds at full until 3000 ms, and
    /// then starts fading on the next tick. Returns whether to remove it.
    pub fn tick(&mut self, now: u64, dt_ms: u64) -> (remove: bool)
        ensures
            (*final(self), remove) == tick_spec(*old(self), now, dt_ms),
    {
        let age: u64 = if now >= self.created_at { now - self.created_at } else { 0 };
        if self.fading_out {
            let drop: u128 = 2 * dt_ms as u128;
            self.opacity_milli = if self.opacity_milli as u128 > drop {
                (self.opacity_milli as u128 - drop) as u32
            } else {
                0
            };
            return self.opacity_milli == 0;
        }
        if age < FADE_IN_MS {
            let o = age * 1000 / 300;
            self.opacity_milli = if o < 1000 { o as u32 } else { 1000 };
        } else if age > HOLD_UNTIL_MS {
            self.fading_out = true;
        } else {
            self.opacity_milli = FULL_OPACITY;
        }
        false
    }
}

/// `c` joins `a` and `b`, in either direction.
pub open spec fn same_pair(c: ActiveConnection, a: Seq<char>, b: Seq<char>) -> bool {
    (c.from@ == a && c.to@ == b) || (c.from@ == b && c.to@ == a)
}

/// The connections of `s`, in order, that do not join `a` and `b`.
pub open spec fn other_pairs(s: Seq<ActiveConnection>, a: Seq<char>, b: Seq<char>) -> Seq<ActiveConnection>
    decreases s.len(),
{
    if s.len() == 0 {
        s
    } else {
        let rest = other_pairs(s.drop_last(), a, b);
        if same_pair(s.last(), a, b) {
            rest
        } else {
            rest.push(s.last())
        }
    }
}

/// How many connections of `s` join `a` and `b`.
pub open spec fn pair_count(s: Seq<ActiveConnection>, a: Seq<char>, b: Seq<char>) -> nat
    decreases s.len(),
{
    if s.len() == 0 {
        0
    } else {
        pair_count(s.drop_last(), a, b) + if same_pair(s.last(), a, b) { 1nat } else { 0nat }
    }
}

/// The list after connecting: every connection for the same unordered pair
/// removed, then `c` appended.
pub open spec fn connect_spec(s: Seq<ActiveConnection>, c: ActiveConnection) -> Seq<ActiveConnection> {
    other_pairs(s, c.from@, c.to@).push(c)
}

/// The list after one tick of each connection, without those to be removed.
pub open spec fn tick_all_spec(s: Seq<ActiveConnection>, now: u64, dt_ms: u64) -> Seq<ActiveConnection>
    decreases s.len(),
{
    if s.len() == 0 {
        s
    } else {
        let rest = tick_all_spec(s.drop_last(), now, dt_ms);
        let (c, remove) = tick_spec(s.last(), now, dt_ms);
        if remove {
            rest
        } else {
            rest.push(c)
        }
    }
}

proof fn lemma_other_pairs_split(s: Seq<ActiveConnection>, k: int, a: Seq<char>, b: Seq<char>)
    requires
        0 <= k < s.len(),
    ensures
        other_pairs(s.subrange(0, k + 1), a, b) == if same_pair(s[k], a, b) {
            other_pairs(s.subrange(0, k), a, b)
        } else {
            other_pairs(s.subrange(0, k), a, b).push(s[k])
        },
{
    assert(s.subrange(0, k + 1).drop_last() == s.subrange(0, k));
}

proof fn lemma_tick_all_split(s: Seq<ActiveConnection>, k: int, now: u64, dt_ms: u64)
    requires
        0 <= k < s.len(),
    ensures
        tick_all_spec(s.subrange(0, k + 1), now, dt_ms) == if tick_spec(s[k], now, dt_ms).1 {
            tick_all_spec(s.subrange(0, k), now, dt_ms)
        } else {
            tick_all_spec(s.subrange(0, k), now, dt_ms).push(tick_spec(s[k], now, dt_ms).0)
        },
{
    assert(s.subrange(0, k + 1).drop_last() == s.subrange(0, k));
}

/// Removes every connection that joins `a` and `b`, in either direction.
pub fn remove_pair(conns: &mut Vec<ActiveConnection>, a: &String, b: &String)
    ensures
        final(conns)@ == other_pairs(old(conns)@, a@, b@),
{
    let ghost orig = conns@;
    let mut i: usize = 0;
    let ghost mut seen: int = 0;
    while i < conns.len()
        invariant
            0 <= seen <= orig.len(),
            i <= conns@.len(),
            conns@.subrange(0, i as int) == other_pairs(orig.subrange(0, seen), a@, b@),
            conns@.subrange(i as int, conns@.len() as int) == orig.subrange(seen, orig.len() as int),
        decreases conns@.len() - i,
    {
        proof {
            assert(conns@.subrange(i as int, conns@.len() as int).len() == orig.len() - seen);
            assert(conns@[i as int] == conns@.subrange(i as int, conns@.len() as int)[0]);
            assert(conns@.subrange(i as int + 1, conns@.len() as int) =~= orig.subrange(seen + 1, orig.len() as int)) by {
                assert forall|t: int| 0 <= t < conns@.len() - i - 1 implies
                    #[trigger] conns@.subrange(i as int + 1, conns@.len() as int)[t] == orig.subrange(seen + 1, orig.len() as int)[t] by {
                    assert(conns@.subrange(i as int, conns@.len() as int)[t + 1] == orig.subrange(seen, orig.len() as int)[t + 1]);
                }
            }
            lemma_other_pairs_split(orig, seen, a@, b@);
        }
        let hit = (conns[i].from == *a && conns[i].to == *b) || (conns[i].from == *b && conns[i].to == *a);
        if hit {
            let ghost before = conns@;
            conns.remove(i);
            proof {
                assert(conns@.subrange(0, i as int) =~= before.subrange(0, i as int));
                assert(conns@.subrange(i as int, conns@.len() as int) =~= before.subrange(i as int + 1, before.len() as int));
                seen = seen + 1;
            }
        } else {
            proof {
                assert(conns@.subrange(0, i as int + 1) =~= conns@.subrange(0, i as int).push(conns@[i as int]));
                seen = seen + 1;
            }
            i = i + 1;
        }
    }
    proof {
        assert(conns@.subrange(0, i as int) == conns@);
        assert(orig.subrange(seen, orig.len() as int).len() == 0);
        assert(orig.subrange(0, seen) == orig);
    }
}

/// Ticks every connection and drops those that finished fading out.
pub fn tick_all(conns: &mut Vec<ActiveConnection>, now: u64, dt_ms: u64)
    ensures
        final(conns)@ == tick_all_spec(old(conns)@, now, dt_ms),
{
    let ghost orig = conns@;
    let mut i: usize = 0;
    let ghost mut seen: int = 0;
    while i < conns.len()
        invariant
            0 <= seen <= orig.len(),
            i <= conns@.len(),
            conns@.subrange(0, i as int) == tick_all_spec(orig.subrange(0, seen), now, dt_ms),
            conns@.subrange(i as int, conns@.len() as int) == orig.subrange(seen, orig.len() as int),
        decreases conns@.len() - i,
    {
        proof {
            assert(conns@.subrange(i as int, conns@.len() as int).len() == orig.len() - seen);
            assert(conns@[i as int] == conns@.subrange(i as int, conns@.len() as int)[0]);
            assert(conns@.subrange(i as int + 1, conns@.len() as int) =~= orig.subrange(seen + 1, orig.len() as int)) by {
                assert forall|t: int| 0 <= t < conns@.len() - i - 1 implies
                    #[trigger] conns@.subrange(i as int + 1, conns@.len() as int)[t] == orig.subrange(seen + 1, orig.len() as int)[t] by {
                    assert(conns@.subrange(i as int, conns@.len() as int)[t + 1] == orig.subrange(seen, orig.len() as int)[t + 1]);
                }
            }
            lemma_tick_all_split(orig, seen, now, dt_ms);
        }
        let ghost before = conns@;
        let remove = conns[i].tick(now, dt_ms);
        if remove {
            let ghost mid = conns@;
            conns.remove(i);
            proof {
                assert(conns@.subrange(0, i as int) =~= before.subrange(0, i as int));
                assert(conns@.subrange(i as int, conns@.len() as int) =~= before.subrange(i as int + 1, before.len() as int));
                seen = seen + 1;
            }
        } else {
            proof {
                assert(conns@.subrange(0, i as int + 1) =~= before.subrange(0, i as int).push(conns@[i as int]));
                assert(conns@.subrange(i as int + 1, conns@.len() as int) =~= before.subrange(i as int + 1, before.len() as int));
                seen = seen + 1;
            }
            i = i + 1;
        }
    }
    proof {
        assert(conns@.subrange(0, i as int) == conns@);
        assert(orig.subrange(seen, orig.len() as int).len() == 0);
        assert(orig.subrange(0, seen) == orig);
    }
}

proof fn lemma_pair_count_push(s: Seq<ActiveConnection>, x: ActiveConnection, a: Seq<char>, b: Seq<char>)
    ensures
        pair_count(s.push(x), a, b) == pair_count(s, a, b) + if same_pair(x, a, b) { 1nat } else { 0nat },
{
    assert(s.push(x).drop_last() == s);
}

proof fn lemma_pair_count_symmetric(s: Seq<ActiveConnection>, a: Seq<char>, b: Seq<char>)
    ensures
        pair_count(s, a, b) == pair_count(s, b, a),
    decreases s.len(),
{
    if s.len() > 0 {
        lemma_pair_count_symmetric(s.drop_last(), a, b);
    }
}

proof fn lemma_other_pairs_has_none(s: Seq<ActiveConnection>, a: Seq<char>, b: Seq<char>)
    ensures
        pair_count(other_pairs(s, a, b), a, b) == 0,
    decreases s.len(),
{
    if s.len() > 0 {
        lemma_other_pairs_has_none(s.drop_last(), a, b);
        if !same_pair(s.last(), a, b) {
            lemma_pair_count_push(other_pairs(s.drop_last(), a, b), s.last(), a, b);
        }
    }
}

/// After a connection is made, the list holds exactly one connection for
/// its unordered pair.
pub proof fn lemma_connect_leaves_one(s: Seq<ActiveConnection>, c: ActiveConnection)
    ensures
        pair_count(connect_spec(s, c), c.from@, c.to@) == 1,
{
    lemma_other_pairs_has_none(s, c.from@, c.to@);
    lemma_pair_count_push(other_pairs(s, c.from@, c.to@), c, c.from@, c.to@);
}

/// Connecting A to B and then B to A leaves one connection between them.
pub proof fn lemma_reverse_connection_replaces(
    s: Seq<ActiveConnection>,
    ab: ActiveConnection,
    ba: ActiveConnection,
)
    requires
        ba.from@ == ab.to@,
        ba.to@ == ab.from@,
    ensures
        pair_count(connect_spec(connect_spec(s, ab), ba), ab.from@, ab.to@) == 1,
{
    lemma_connect_leaves_one(connect_spec(s, ab), ba);
    lemma_pair_count_symmetric(connect_spec(connect_spec(s, ab), ba), ab.from@, ab.to@);
}

/// A connection that is not fading shows at full opacity when ticked at
/// any age from 300 ms to 3000 ms.
pub proof fn lemma_full_after_fade_in(c: ActiveConnection, now: u64, dt_ms: u64)
    requires
        !c.fading_out,
        FADE_IN_MS <= since(now, c.created_at) <= HOLD_UNTIL_MS,
    ensures
        tick_spec(c, now, dt_ms).0.opacity_milli == FULL_OPACITY,
        !tick_spec(c, now, dt_ms).1,
{
}

/// Past 3000 ms of age a tick starts the fade-out, keeping the connection
/// and its opacity.
pub proof fn lemma_fade_out_begins(c: ActiveConnection, now: u64, dt_ms: u64)
    requires
        !c.fading_out,
        since(now, c.created_at) > HOLD_UNTIL_MS,
    ensures
        tick_spec(c, now, dt_ms).0.fading_out,
        tick_spec(c, now, dt_ms).0.opacity_milli == c.opacity_milli,
        !tick_spec(c, now, dt_ms).1,
{
}

/// Each tick of a fading, still visible connection over a frame longer
/// than 0 ms lowers its opacity; it is removed exactly when the opacity
/// reaches 0.
pub proof fn lemma_fading_decreases(c: ActiveConnection, now: u64, dt_ms: u64)
    requires
        c.fading_out,
    ensures
        tick_spec(c, now, dt_ms).0.fading_out,
        tick_spec(c, now, dt_ms).1 <==> tick_spec(c, now, dt_ms).0.opacity_milli == 0,
        dt_ms > 0 && c.opacity_milli > 0 ==> tick_spec(c, now, dt_ms).0.opacity_milli < c.opacity_milli,
{
}

} // verus!
