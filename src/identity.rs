use vstd::prelude::*;
use crate::text::{chars_of, same_chars};

verus! {

/// The ids after a sighting of `id`: unchanged if already there, else with
/// `id` appended.
pub open spec fn sighted(ids: Seq<Seq<char>>, id: Seq<char>) -> Seq<Seq<char>> {
    if ids.contains(id) {
        ids
    } else {
        ids.push(id)
    }
}

/// The ids after the sightings `s`, in order, starting from none.
pub open spec fn sighted_all(s: Seq<Seq<char>>) -> Seq<Seq<char>>
    decreases s.len(),
{
    if s.len() == 0 {
        Seq::empty()
    } else {
        sighted(sighted_all(s.drop_last()), s.last())
    }
}

/// Hands each new agent id the next index, for its color and shape. The
/// index of an id is its position in `assigned()`: indices are never
/// reused and never change.
pub struct IdentityAllocator {
    ids: Vec<String>,
}

impl IdentityAllocator {
    /// The ids seen so far, in order of first sighting.
    pub closed spec fn assigned(&self) -> Seq<Seq<char>> {
        self.ids@.map_values(|s: String| s@)
    }

    pub open spec fn wf(&self) -> bool {
        self.assigned().no_duplicates()
    }

    /// An allocator that has seen no id.
    pub fn new() -> (r: Self)
        ensures
            r.wf(),
            r.assigned().len() == 0,
    {
        let r = IdentityAllocator { ids: Vec::new() };
        assert(r.assigned() =~= Seq::<Seq<char>>::empty());
        r
    }

    /// How many ids have an index.
    pub fn len(&self) -> (r: usize)
        ensures
            r == self.assigned().len(),
    {
        self.ids.len()
    }

    /// The index of `id`, if it has one.
    pub fn index_of(&self, id: &str) -> (r: Option<usize>)
        ensures
            match r {
                Some(i) => i < self.assigned().len() && self.assigned()[i as int] == id@,
                None => !self.assigned().contains(id@),
            },
    {
        let k = chars_of(id);
        let mut i: usize = 0;
        while i < self.ids.len()
            invariant
                i <= self.ids@.len(),
                k@ == id@,
                forall|j: int| 0 <= j < i ==> self.assigned()[j] != id@,
            decreases self.ids@.len() - i,
        {
            let c = chars_of(self.ids[i].as_str());
            if same_chars(&c, &k) {
                return Some(i);
            }
            i = i + 1;
        }
        None
    }

    /// The index of `id`, handing it the next one on its first sighting;
    /// the flag says whether it was new.
    pub fn assign(&mut self, id: &str) -> (r: (usize, bool))
        requires
            old(self).wf(),
        ensures
            final(self).wf(),
            final(self).assigned() == sighted(old(self).assigned(), id@),
            r.1 == !old(self).assigned().contains(id@),
            r.0 < final(self).assigned().len(),
            final(self).assigned()[r.0 as int] == id@,
            r.1 ==> r.0 == old(self).assigned().len(),
    {
        match self.index_of(id) {
            Some(i) => (i, false),
            None => {
                let n = self.ids.len();
                self.ids.push(id.to_owned());
                assert(self.assigned() =~= old(self).assigned().push(id@));
                (n, true)
            },
        }
    }
}

proof fn lemma_sighted_all_facts(s: Seq<Seq<char>>)
    ensures
        sighted_all(s).no_duplicates(),
        forall|x: Seq<char>| sighted_all(s).contains(x) <==> s.contains(x),
    decreases s.len(),
{
    if s.len() > 0 {
        let init = s.drop_last();
        lemma_sighted_all_facts(init);
        let a = sighted_all(init);
        assert forall|x: Seq<char>| sighted_all(s).contains(x) <==> s.contains(x) by {
            assert(s == init.push(s.last()));
            assert(s.contains(x) <==> (init.contains(x) || x == s.last())) by {
                if s.contains(x) {
                    let k = choose|k: int| 0 <= k < s.len() && s[k] == x;
                    if k < init.len() {
                        assert(init[k] == x);
                    }
                }
                if init.contains(x) {
                    let k = choose|k: int| 0 <= k < init.len() && init[k] == x;
                    assert(s[k] == x);
                }
                if x == s.last() {
                    assert(s[s.len() - 1] == x);
                }
            }
            if !a.contains(s.last()) {
                assert(a.push(s.last()).contains(x) <==> (a.contains(x) || x == s.last())) by {
                    if a.push(s.last()).contains(x) {
                        let k = choose|k: int| 0 <= k < a.len() + 1 && a.push(s.last())[k] == x;
                        if k < a.len() {
                            assert(a[k] == x);
                        }
                    }
                    if a.contains(x) {
                        let k = choose|k: int| 0 <= k < a.len() && a[k] == x;
                        assert(a.push(s.last())[k] == x);
                    }
                    assert(a.push(s.last())[a.len() as int] == s.last());
                }
            }
        }
        if !a.contains(s.last()) {
            assert forall|p: int, q: int| 0 <= p < q < a.len() + 1 implies a.push(s.last())[p] != a.push(s.last())[q] by {
                if q == a.len() {
                    assert(a[p] == a.push(s.last())[p]);
                }
            }
        }
    }
}

/// Indices follow first appearance. Along any run of sightings, the ids
/// hold no repeats and are exactly those sighted; an id sighted for the
/// first time gets the number of distinct ids sighted before it; and the
/// index an id got never changes later.
pub proof fn lemma_indices_follow_first_sighting(s: Seq<Seq<char>>, j: int)
    requires
        0 <= j < s.len(),
    ensures
        sighted_all(s).no_duplicates(),
        forall|x: Seq<char>| sighted_all(s).contains(x) <==> s.contains(x),
        !s.take(j).contains(s[j]) ==> sighted_all(s.take(j + 1)) == sighted_all(s.take(j)).push(s[j]),
        sighted_all(s.take(j)).is_prefix_of(sighted_all(s)),
    decreases s.len() - j,
{
    lemma_sighted_all_facts(s);
    lemma_sighted_all_facts(s.take(j));
    assert(s.take(j + 1).drop_last() == s.take(j));
    lemma_sighted_all_prefix(s, j);
}

proof fn lemma_sighted_all_prefix(s: Seq<Seq<char>>, j: int)
    requires
        0 <= j <= s.len(),
    ensures
        sighted_all(s.take(j)).is_prefix_of(sighted_all(s)),
    decreases s.len() - j,
{
    if j == s.len() {
        assert(s.take(j) == s);
    } else {
        lemma_sighted_all_prefix(s, j + 1);
        assert(s.take(j + 1).drop_last() == s.take(j));
    }
}

} // verus!
