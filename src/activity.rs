use vstd::prelude::*;
use crate::time::since;

verus! {

/// One line of recent activity; times are monotonic milliseconds and `C`
/// is whatever the host colors an agent with.
pub struct ActivityEntry<C> {
    pub timestamp: u64,
    pub agent_id: String,
    pub message: String,
    pub color: C,
}

impl<C> ActivityEntry<C> {
    /// An entry made at `now`.
    pub fn new(agent_id: String, message: String, color: C, now: u64) -> (r: Self)
        ensures
            r.timestamp == now,
            r.agent_id == agent_id,
            r.message == message,
            r.color == color,
    {
        ActivityEntry { timestamp: now, agent_id, message, color }
    }

    /// Milliseconds since the entry was made.
    pub fn age_millis(&self, now: u64) -> (r: u64)
        ensures
            r == since(now, self.timestamp),
    {
        if now >= self.timestamp {
            now - self.timestamp
        } else {
            0
        }
    }
}

/// The most recent activity entries, oldest first. When full, adding drops
/// the oldest entry.
pub struct ActivityLog<C> {
    entries: Vec<ActivityEntry<C>>,
    max_entries: usize,
}

impl<C> ActivityLog<C> {
    pub closed spec fn items(&self) -> Seq<ActivityEntry<C>> {
        self.entries@
    }

    pub closed spec fn capacity(&self) -> usize {
        self.max_entries
    }

    /// An empty log that keeps up to `max_entries` entries.
    pub fn new(max_entries: usize) -> (r: Self)
        ensures
            r.items().len() == 0,
            r.capacity() == max_entries,
    {
        ActivityLog { entries: Vec::new(), max_entries }
    }

    /// Appends an entry made at `now`, first dropping the oldest one when
    /// the log is full.
    pub fn add(&mut self, agent_id: String, message: String, color: C, now: u64)
        ensures
            final(self).capacity() == old(self).capacity(),
            final(self).items().len() > 0,
            final(self).items().drop_last() == if old(self).items().len() >= old(self).capacity()
                && old(self).items().len() > 0 {
                old(self).items().drop_first()
            } else {
                old(self).items()
            },
            final(self).items().last().agent_id == agent_id,
            final(self).items().last().message == message,
            final(self).items().last().color == color,
            final(self).items().last().timestamp == now,
    {
        if self.entries.len() >= self.max_entries && self.entries.len() > 0 {
            self.entries.remove(0);
        }
        let ghost kept = self.entries@;
        self.entries.push(ActivityEntry::new(agent_id, message, color, now));
        assert(self.entries@.drop_last() == kept);
    }

    /// The entries, oldest first.
    pub fn entries(&self) -> (r: &Vec<ActivityEntry<C>>)
        ensures
            r@ == self.items(),
    {
        &self.entries
    }

    pub fn len(&self) -> (r: usize)
        ensures
            r == self.items().len(),
    {
        self.entries.len()
    }

    pub fn is_empty(&self) -> (r: bool)
        ensures
            r == (self.items().len() == 0),
    {
        self.entries.len() == 0
    }

    /// Drops every entry.
    pub fn clear(&mut self)
        ensures
            final(self).items().len() == 0,
            final(self).capacity() == old(self).capacity(),
    {
        self.entries.clear();
    }
}

} // verus!
