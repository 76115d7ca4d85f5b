use vstd::prelude::*;
use crate::connection::{ActiveConnection, connect_spec, remove_pair, tick_all, tick_all_spec};
use crate::event::{AgentStatus, Connection, Landmark};
use crate::identity::{IdentityAllocator, sighted};
use crate::semantic::{
    ConceptCluster, FocusContribution, KeywordPlacement, SemanticPositioner, contribution_of, default_catalog, keyword_views,
    landmark_views, lower_of, placement_of,
};

verus! {

/// Slowest playback, in thousandths of real time.
pub const MIN_SPEED_MILLI: u32 = 250;

/// Fastest playback, in thousandths of real time.
pub const MAX_SPEED_MILLI: u32 = 4000;

/// A landmark as the field keeps it: its keywords and where each of them is
/// placed; the landmark's position is the mean of those placements, or the
/// center of the square when it has none.
pub struct StoredLandmark {
    pub id: String,
    pub label: String,
    pub keywords: Vec<String>,
    pub placements: Vec<KeywordPlacement>,
}

/// What an agent update decided: the agent's color and shape index, whether
/// the agent is new, and what each focus keyword contributes to its target.
pub struct AgentTarget {
    pub index: usize,
    pub is_new: bool,
    pub contributions: Vec<FocusContribution>,
}

/// What the field knows of an agent apart from its motion. Agents are never
/// removed; their color and shape index is their index in the roster.
pub struct AgentRecord {
    pub id: String,
    pub status: AgentStatus,
    pub focus: Vec<String>,
    pub message: String,
    pub last_update: u64,
    pub color_index: usize,
    pub shape_index: usize,
}

/// The event-sourced state of the field apart from motion: who has which
/// index, the live connections, the landmarks, and playback settings.
pub struct Field {
    roster: IdentityAllocator,
    agents: Vec<AgentRecord>,
    connections: Vec<ActiveConnection>,
    landmarks: Vec<StoredLandmark>,
    positioner: SemanticPositioner,
    paused: bool,
    playback_speed_milli: u32,
}

impl Field {
    pub closed spec fn roster(&self) -> IdentityAllocator {
        self.roster
    }

    /// The agents, by color and shape index.
    pub closed spec fn agents_view(&self) -> Seq<AgentRecord> {
        self.agents@
    }

    pub closed spec fn connections_view(&self) -> Seq<ActiveConnection> {
        self.connections@
    }

    pub closed spec fn landmarks_view(&self) -> Seq<StoredLandmark> {
        self.landmarks@
    }

    pub closed spec fn positioner(&self) -> SemanticPositioner {
        self.positioner
    }

    pub closed spec fn is_paused(&self) -> bool {
        self.paused
    }

    pub closed spec fn speed(&self) -> u32 {
        self.playback_speed_milli
    }

    /// The keyword lists of the landmarks, in landmark order.
    pub open spec fn landmark_keywords(&self) -> Seq<Seq<Seq<char>>> {
        self.landmarks_view().map_values(|l: StoredLandmark| keyword_views(l.keywords@))
    }

    pub open spec fn landmark_ids(&self) -> Seq<Seq<char>> {
        self.landmarks_view().map_values(|l: StoredLandmark| l.id@)
    }

    pub open spec fn wf(&self) -> bool {
        &&& self.roster().wf()
        &&& self.agents_view().len() == self.roster().assigned().len()
        &&& forall|i: int|
            0 <= i < self.agents_view().len() ==> {
                &&& (#[trigger] self.agents_view()[i]).id@ == self.roster().assigned()[i]
                &&& self.agents_view()[i].color_index == i
                &&& self.agents_view()[i].shape_index == i
            }
        &&& self.positioner().wf()
        &&& self.landmark_ids().no_duplicates()
        &&& MIN_SPEED_MILLI <= self.speed() <= MAX_SPEED_MILLI
    }

    /// An empty field, running at normal speed.
    pub fn new() -> (r: Self)
        ensures
            r.wf(),
            r.roster().assigned().len() == 0,
            r.agents_view().len() == 0,
            r.connections_view().len() == 0,
            r.landmarks_view().len() == 0,
            r.positioner().catalog() == default_catalog(),
            !r.is_paused(),
            r.speed() == 1000,
    {
        let r = Field {
            roster: IdentityAllocator::new(),
            agents: Vec::new(),
            connections: Vec::new(),
            landmarks: Vec::new(),
            positioner: SemanticPositioner::new(),
            paused: false,
            playback_speed_milli: 1000,
        };
        assert(r.landmark_ids() =~= Seq::<Seq<char>>::empty());
        r
    }
}

/// The landmarks after storing `l`: the entry with the id of `l` is
/// overwritten in place, or `l` is appended.
pub open spec fn upsert_spec(s: Seq<StoredLandmark>, l: StoredLandmark) -> Seq<StoredLandmark> {
    let ids = s.map_values(|x: StoredLandmark| x.id@);
    if ids.contains(l.id@) {
        s.update(ids.index_of(l.id@), l)
    } else {
        s.push(l)
    }
}

fn copy_strings(v: &Vec<String>) -> (r: Vec<String>)
    ensures
        keyword_views(r@) == keyword_views(v@),
{
    let mut out: Vec<String> = Vec::new();
    let mut i: usize = 0;
    while i < v.len()
        invariant
            i <= v@.len(),
            out@.len() == i,
            forall|j: int| 0 <= j < i ==> #[trigger] out@[j]@ == v@[j]@,
        decreases v@.len() - i,
    {
        out.push(v[i].clone());
        i = i + 1;
    }
    assert(keyword_views(out@) =~= keyword_views(v@));
    out
}

impl Field {
    fn landmark_keyword_lists(&self) -> (r: Vec<Vec<String>>)
        ensures
            landmark_views(r@) == self.landmark_keywords(),
    {
        let mut out: Vec<Vec<String>> = Vec::new();
        let mut i: usize = 0;
        while i < self.landmarks.len()
            invariant
                i <= self.landmarks@.len(),
                out@.len() == i,
                forall|j: int|
                    0 <= j < i ==> keyword_views((#[trigger] out@[j])@) == keyword_views(
                        self.landmarks@[j].keywords@,
                    ),
            decreases self.landmarks@.len() - i,
        {
            out.push(copy_strings(&self.landmarks[i].keywords));
            i = i + 1;
        }
        assert(landmark_views(out@) =~= self.landmark_keywords());
        out
    }

    /// Records an agent's report: a newly seen agent gets the next index;
    /// its status, focus and message are replaced and its update time set to
    /// `now`. Also works out what each focus keyword contributes to the
    /// agent's target position, given the landmarks as they stand.
    pub fn process_agent_update(
        &mut self,
        agent_id: &str,
        status: AgentStatus,
        focus: &Vec<String>,
        message: &str,
        now: u64,
    ) -> (r: AgentTarget)
        requires
            old(self).wf(),
        ensures
            final(self).wf(),
            final(self).roster().assigned() == sighted(old(self).roster().assigned(), agent_id@),
            r.is_new == !old(self).roster().assigned().contains(agent_id@),
            r.index < final(self).roster().assigned().len(),
            final(self).roster().assigned()[r.index as int] == agent_id@,
            r.is_new ==> r.index == old(self).roster().assigned().len(),
            ({
                let a = final(self).agents_view()[r.index as int];
                &&& a.status == status
                &&& keyword_views(a.focus@) == keyword_views(focus@)
                &&& a.message@ == message@
                &&& a.last_update == now
            }),
            forall|i: int|
                0 <= i < old(self).agents_view().len() && i != r.index ==> #[trigger] final(self).agents_view()[i]
                    == old(self).agents_view()[i],
            r.contributions@.len() == focus@.len(),
            forall|i: int|
                0 <= i < focus@.len() ==> #[trigger] r.contributions@[i] == contribution_of(
                    focus@[i]@,
                    old(self).landmark_keywords(),
                    old(self).positioner().catalog(),
                ),
            final(self).connections_view() == old(self).connections_view(),
            final(self).landmarks_view() == old(self).landmarks_view(),
            final(self).positioner().catalog() == old(self).positioner().catalog(),
            final(self).is_paused() == old(self).is_paused(),
            final(self).speed() == old(self).speed(),
    {
        let (index, is_new) = self.roster.assign(agent_id);
        let record = AgentRecord {
            id: agent_id.to_owned(),
            status,
            focus: copy_strings(focus),
            message: message.to_owned(),
            last_update: now,
            color_index: index,
            shape_index: index,
        };
        if is_new {
            self.agents.push(record);
        } else {
            self.agents[index] = record;
        }
        let lists = self.landmark_keyword_lists();
        let contributions = self.positioner.calculate_position(focus, &lists);
        AgentTarget { index, is_new, contributions }
    }

    /// The agents, by color and shape index.
    pub fn agents(&self) -> (r: &Vec<AgentRecord>)
        ensures
            r@ == self.agents_view(),
    {
        &self.agents
    }

    /// Replaces any connection between the same two agents, in either
    /// direction, with a new one made at `now`.
    pub fn process_connection(&mut self, conn: &Connection, now: u64)
        requires
            old(self).wf(),
        ensures
            final(self).wf(),
            final(self).connections_view() == connect_spec(
                old(self).connections_view(),
                final(self).connections_view().last(),
            ),
            final(self).connections_view().last().from@ == conn.from@,
            final(self).connections_view().last().to@ == conn.to@,
            final(self).connections_view().last().label@ == conn.label@,
            final(self).connections_view().last().created_at == now,
            final(self).connections_view().last().opacity_milli == 0,
            !final(self).connections_view().last().fading_out,
            final(self).roster() == old(self).roster(),
            final(self).agents_view() == old(self).agents_view(),
            final(self).landmarks_view() == old(self).landmarks_view(),
            final(self).positioner() == old(self).positioner(),
            final(self).is_paused() == old(self).is_paused(),
            final(self).speed() == old(self).speed(),
    {
        remove_pair(&mut self.connections, &conn.from, &conn.to);
        let c = ActiveConnection::new(conn, now);
        self.connections.push(c);
        assert(self.connections@.last() == c);
    }
}

impl Field {
    /// Where a landmark with id `id` goes: over the entry with that id, or
    /// after the last one.
    pub open spec fn landmark_slot(&self, id: Seq<char>) -> int {
        if self.landmark_ids().contains(id) {
            self.landmark_ids().index_of(id)
        } else {
            self.landmarks_view().len() as int
        }
    }

    /// Stores the landmark with the placements of its lower-cased keywords,
    /// overwriting any landmark with the same id.
    pub fn process_landmark(&mut self, landmark: &Landmark)
        requires
            old(self).wf(),
        ensures
            final(self).wf(),
            ({
                let k = old(self).landmark_slot(landmark.id@);
                let l = final(self).landmarks_view()[k];
                &&& 0 <= k < final(self).landmarks_view().len()
                &&& final(self).landmarks_view() == upsert_spec(old(self).landmarks_view(), l)
                &&& l.id@ == landmark.id@
                &&& l.label@ == landmark.label@
                &&& keyword_views(l.keywords@) == keyword_views(landmark.keywords@)
                &&& l.placements@.len() == landmark.keywords@.len()
                &&& forall|j: int|
                    0 <= j < l.placements@.len() ==> #[trigger] l.placements@[j] == placement_of(
                        lower_of(landmark.keywords@[j]@),
                        old(self).positioner().catalog(),
                    )
            }),
            final(self).roster() == old(self).roster(),
            final(self).agents_view() == old(self).agents_view(),
            final(self).connections_view() == old(self).connections_view(),
            final(self).positioner() == old(self).positioner(),
            final(self).is_paused() == old(self).is_paused(),
            final(self).speed() == old(self).speed(),
    {
        let placements = self.positioner.register_landmark(&landmark.keywords);
        let stored = StoredLandmark {
            id: landmark.id.clone(),
            label: landmark.label.clone(),
            keywords: copy_strings(&landmark.keywords),
            placements,
        };
        let ghost ids = self.landmark_ids();
        let mut i: usize = 0;
        while i < self.landmarks.len()
            invariant
                i <= self.landmarks@.len(),
                ids == self.landmark_ids(),
                *self == *old(self),
                old(self).wf(),
                stored.id@ == landmark.id@,
                stored.label@ == landmark.label@,
                keyword_views(stored.keywords@) == keyword_views(landmark.keywords@),
                stored.placements@.len() == landmark.keywords@.len(),
                forall|j: int|
                    0 <= j < stored.placements@.len() ==> #[trigger] stored.placements@[j] == placement_of(
                        lower_of(landmark.keywords@[j]@),
                        old(self).positioner().catalog(),
                    ),
                forall|j: int| 0 <= j < i ==> ids[j] != landmark.id@,
            decreases self.landmarks@.len() - i,
        {
            if self.landmarks[i].id == landmark.id {
                assert(ids[i as int] == landmark.id@);
                assert(ids.contains(landmark.id@));
                let ghost k = ids.index_of(landmark.id@);
                assert(ids[k] == landmark.id@);
                assert(k == i as int);
                self.landmarks[i] = stored;
                assert(self.landmark_ids() =~= ids);
                assert(self.landmarks@ == upsert_spec(old(self).landmarks@, stored));
                return;
            }
            i = i + 1;
        }
        assert(!ids.contains(landmark.id@));
        self.landmarks.push(stored);
        assert(self.landmark_ids() =~= ids.push(landmark.id@));
    }
}

impl Field {
    /// Ages every connection by one frame of `dt_ms` scaled by the playback
    /// speed, dropping those that finished fading out. Nothing happens while
    /// paused.
    pub fn tick_connections(&mut self, now: u64, dt_ms: u64)
        requires
            old(self).wf(),
        ensures
            final(self).wf(),
            old(self).is_paused() ==> *final(self) == *old(self),
            !old(self).is_paused() ==> final(self).connections_view() == tick_all_spec(
                old(self).connections_view(),
                now,
                (dt_ms as int * old(self).speed() as int / 1000) as u64,
            ),
            final(self).roster() == old(self).roster(),
            final(self).agents_view() == old(self).agents_view(),
            final(self).landmarks_view() == old(self).landmarks_view(),
            final(self).positioner() == old(self).positioner(),
            final(self).is_paused() == old(self).is_paused(),
            final(self).speed() == old(self).speed(),
    {
        if self.paused {
            return;
        }
        proof {
            assert(dt_ms as int * self.playback_speed_milli as int / 1000 <= dt_ms as int * 4) by (nonlinear_arith)
                requires self.playback_speed_milli <= 4000;
            assert(0 <= dt_ms as int * self.playback_speed_milli as int / 1000) by (nonlinear_arith);
        }
        let scaled = (dt_ms as u128 * self.playback_speed_milli as u128 / 1000) as u64;
        tick_all(&mut self.connections, now, scaled);
    }

    /// Pauses a running field, resumes a paused one.
    pub fn toggle_pause(&mut self)
        ensures
            final(self).is_paused() == !old(self).is_paused(),
            final(self).roster() == old(self).roster(),
            final(self).agents_view() == old(self).agents_view(),
            final(self).connections_view() == old(self).connections_view(),
            final(self).landmarks_view() == old(self).landmarks_view(),
            final(self).positioner() == old(self).positioner(),
            final(self).speed() == old(self).speed(),
    {
        self.paused = !self.paused;
    }

    /// Changes the playback speed by `delta_milli` thousandths, keeping it
    /// within 0.25 to 4 times real time.
    pub fn adjust_speed(&mut self, delta_milli: i32)
        requires
            old(self).wf(),
        ensures
            final(self).wf(),
            final(self).speed() == if old(self).speed() + delta_milli < MIN_SPEED_MILLI {
                MIN_SPEED_MILLI as int
            } else if old(self).speed() + delta_milli > MAX_SPEED_MILLI {
                MAX_SPEED_MILLI as int
            } else {
                old(self).speed() + delta_milli
            },
            final(self).is_paused() == old(self).is_paused(),
            final(self).roster() == old(self).roster(),
            final(self).agents_view() == old(self).agents_view(),
            final(self).connections_view() == old(self).connections_view(),
            final(self).landmarks_view() == old(self).landmarks_view(),
            final(self).positioner() == old(self).positioner(),
    {
        let v: i64 = self.playback_speed_milli as i64 + delta_milli as i64;
        self.playback_speed_milli = if v < MIN_SPEED_MILLI as i64 {
            MIN_SPEED_MILLI
        } else if v > MAX_SPEED_MILLI as i64 {
            MAX_SPEED_MILLI
        } else {
            v as u32
        };
    }

    /// Whether the field is paused.
    pub fn paused(&self) -> (r: bool)
        ensures
            r == self.is_paused(),
    {
        self.paused
    }

    /// Playback speed in thousandths of real time.
    pub fn playback_speed(&self) -> (r: u32)
        ensures
            r == self.speed(),
    {
        self.playback_speed_milli
    }

    /// The live connections, oldest first.
    pub fn connections(&self) -> (r: &Vec<ActiveConnection>)
        ensures
            r@ == self.connections_view(),
    {
        &self.connections
    }

    /// The landmarks, in order of first registration.
    pub fn landmarks(&self) -> (r: &Vec<StoredLandmark>)
        ensures
            r@ == self.landmarks_view(),
    {
        &self.landmarks
    }

    /// The cluster catalog that keywords are placed against.
    pub fn concept_clusters(&self) -> (r: &Vec<ConceptCluster>)
        ensures
            r@ == self.positioner().clusters(),
    {
        self.positioner.concept_clusters()
    }

    /// The color and shape index of agent `id`, if it has been seen.
    pub fn agent_index(&self, id: &str) -> (r: Option<usize>)
        ensures
            match r {
                Some(i) => i < self.roster().assigned().len() && self.roster().assigned()[i as int] == id@,
                None => !self.roster().assigned().contains(id@),
            },
    {
        self.roster.index_of(id)
    }
}

impl Default for Field {
    fn default() -> (r: Self)
        ensures
            r.wf(),
            r.roster().assigned().len() == 0,
            r.connections_view().len() == 0,
            r.landmarks_view().len() == 0,
            !r.is_paused(),
            r.speed() == 1000,
    {
        Self::new()
    }
}

} // verus!
