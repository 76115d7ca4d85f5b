use vstd::prelude::*;
use vstd::string::StringSliceAdditionalSpecFns;
use vstd::utf8::encode_utf8;
use crate::text::{is_substring, chars_of, same_chars, contains_chars};

verus! {

/// DJB2 hash over a byte sequence: seed 5381, then `h * 33 + b` for each byte,
/// all modulo 2^32.
pub open spec fn djb2(bytes: Seq<u8>) -> u32
    decreases bytes.len(),
{
    if bytes.len() == 0 {
        5381
    } else {
        let h = djb2(bytes.drop_last());
        ((h as int * 33 + bytes.last() as int) % 0x1_0000_0000) as u32
    }
}

/// The DJB2 hash of the UTF-8 bytes of `s`.
pub fn hash_string(s: &str) -> (r: u32)
    ensures
        r == djb2(s.spec_bytes()),
{
    let bytes = s.as_bytes();
    let mut hash: u32 = 5381;
    let mut i: usize = 0;
    while i < bytes.len()
        invariant
            i <= bytes@.len(),
            bytes@ == s.spec_bytes(),
            hash == djb2(bytes@.subrange(0, i as int)),
        decreases bytes@.len() - i,
    {
        assert(bytes@.subrange(0, i as int + 1).drop_last() == bytes@.subrange(0, i as int));
        hash = hash.wrapping_mul(33).wrapping_add(bytes[i] as u32);
        i = i + 1;
    }
    assert(bytes@.subrange(0, i as int) == bytes@);
    hash
}

/// How well keyword `k` matches cluster keyword `ck`: 2 for the same text,
/// 1 when either occurs inside the other, 0 otherwise.
pub open spec fn keyword_score(k: Seq<char>, ck: Seq<char>) -> int {
    if k == ck {
        2
    } else if is_substring(ck, k) || is_substring(k, ck) {
        1
    } else {
        0
    }
}

/// The best score of `k` against any keyword of one cluster (0 for none).
pub open spec fn cluster_score(k: Seq<char>, kws: Seq<Seq<char>>) -> int
    decreases kws.len(),
{
    if kws.len() == 0 {
        0
    } else {
        let prev = cluster_score(k, kws.drop_last());
        let s = keyword_score(k, kws.last());
        if s > prev {
            s
        } else {
            prev
        }
    }
}

/// The best score of `k` over a whole catalog of clusters.
pub open spec fn max_score(k: Seq<char>, cat: Seq<Seq<Seq<char>>>) -> int
    decreases cat.len(),
{
    if cat.len() == 0 {
        0
    } else {
        let prev = max_score(k, cat.drop_last());
        let s = cluster_score(k, cat.last());
        if s > prev {
            s
        } else {
            prev
        }
    }
}

/// The cluster that `k` is placed in: the first one in catalog order whose
/// score reaches the catalog's best, or none when nothing scores above 0.
pub open spec fn best_cluster(k: Seq<char>, cat: Seq<Seq<Seq<char>>>) -> Option<int>
    decreases cat.len(),
{
    if cat.len() == 0 {
        None
    } else if cluster_score(k, cat.last()) > max_score(k, cat.drop_last()) {
        Some(cat.len() - 1)
    } else {
        best_cluster(k, cat.drop_last())
    }
}

proof fn lemma_cluster_score_range(k: Seq<char>, kws: Seq<Seq<char>>)
    ensures
        0 <= cluster_score(k, kws) <= 2,
        forall|j: int| 0 <= j < kws.len() ==> keyword_score(k, kws[j]) <= cluster_score(k, kws),
    decreases kws.len(),
{
    if kws.len() > 0 {
        lemma_cluster_score_range(k, kws.drop_last());
        assert forall|j: int| 0 <= j < kws.len() implies keyword_score(k, kws[j]) <= cluster_score(k, kws) by {
            if j < kws.len() - 1 {
                assert(kws.drop_last()[j] == kws[j]);
            }
        }
    }
}

/// Placement ties go to catalog order: `best_cluster` is absent exactly when
/// no cluster scores above 0, and otherwise names the first cluster whose
/// score equals the best over the catalog.
pub proof fn lemma_best_cluster_is_first_best(k: Seq<char>, cat: Seq<Seq<Seq<char>>>)
    ensures
        0 <= max_score(k, cat) <= 2,
        forall|c: int| 0 <= c < cat.len() ==> cluster_score(k, cat[c]) <= max_score(k, cat),
        best_cluster(k, cat) is None <==> max_score(k, cat) == 0,
        best_cluster(k, cat) matches Some(c) ==> {
            &&& 0 <= c < cat.len()
            &&& cluster_score(k, cat[c]) == max_score(k, cat)
            &&& forall|d: int| 0 <= d < c ==> cluster_score(k, cat[d]) < max_score(k, cat)
        },
    decreases cat.len(),
{
    if cat.len() > 0 {
        let init = cat.drop_last();
        lemma_best_cluster_is_first_best(k, init);
        lemma_cluster_score_range(k, cat.last());
        assert forall|c: int| 0 <= c < cat.len() implies cluster_score(k, cat[c]) <= max_score(k, cat) by {
            if c < cat.len() - 1 {
                assert(init[c] == cat[c]);
            }
        }
        if cluster_score(k, cat.last()) <= max_score(k, init) {
            if let Some(c) = best_cluster(k, init) {
                assert forall|d: int| 0 <= d < c implies cluster_score(k, cat[d]) < max_score(k, cat) by {
                    assert(init[d] == cat[d]);
                }
                assert(init[c] == cat[c]);
            }
        } else {
            assert forall|d: int| 0 <= d < cat.len() - 1 implies cluster_score(k, cat[d]) < max_score(k, cat) by {
                assert(init[d] == cat[d]);
            }
        }
    }
}

/// A catalog region that keywords are placed in. Center and radius are in
/// hundredths of the unit square's side.
pub struct ConceptCluster {
    pub center_x_pct: u32,
    pub center_y_pct: u32,
    pub radius_pct: u32,
    pub keywords: Vec<String>,
}

/// Where a keyword lands before any floating-point work: inside a cluster at
/// a hash-derived angle and radial fraction, or scattered over the middle of
/// the square at hash-derived fractions.
#[derive(Clone, Copy, Debug, PartialEq, Eq, Structural)]
pub enum KeywordPlacement {
    /// `angle_deg` in 0..360; the offset is `radial_pct / 100 * radius * 0.8`.
    InCluster { cluster: usize, angle_deg: u32, radial_pct: u32 },
    /// Each fraction in 0..1000 maps to `0.15 + 0.7 * f / 1000`.
    Scattered { x_permille: u32, y_permille: u32 },
}

pub open spec fn keyword_views(kws: Seq<String>) -> Seq<Seq<char>> {
    kws.map_values(|s: String| s@)
}

pub open spec fn catalog_view(cat: Seq<ConceptCluster>) -> Seq<Seq<Seq<char>>> {
    cat.map_values(|c: ConceptCluster| keyword_views(c.keywords@))
}

/// The placement of keyword `k` (already lower case) against a catalog.
pub open spec fn placement_of(k: Seq<char>, cat: Seq<Seq<Seq<char>>>) -> KeywordPlacement {
    let h = djb2(encode_utf8(k));
    match best_cluster(k, cat) {
        Some(c) => KeywordPlacement::InCluster {
            cluster: c as usize,
            angle_deg: (h % 360) as u32,
            radial_pct: ((h / 360) % 100) as u32,
        },
        None => KeywordPlacement::Scattered {
            x_permille: (h % 1000) as u32,
            y_permille: ((h / 1000) % 1000) as u32,
        },
    }
}

fn score_keyword(k: &Vec<char>, ck: &Vec<char>) -> (r: u8)
    ensures
        r as int == keyword_score(k@, ck@),
{
    if same_chars(k, ck) {
        2
    } else if contains_chars(k, ck) || contains_chars(ck, k) {
        1
    } else {
        0
    }
}

fn score_cluster(k: &Vec<char>, kws: &Vec<String>) -> (r: u8)
    ensures
        r as int == cluster_score(k@, keyword_views(kws@)),
{
    let ghost kv = keyword_views(kws@);
    let mut best: u8 = 0;
    let mut i: usize = 0;
    while i < kws.len()
        invariant
            i <= kws@.len(),
            kv == keyword_views(kws@),
            best as int == cluster_score(k@, kv.subrange(0, i as int)),
        decreases kws@.len() - i,
    {
        let ck = chars_of(kws[i].as_str());
        let s = score_keyword(k, &ck);
        assert(kv.subrange(0, i as int + 1).drop_last() == kv.subrange(0, i as int));
        if s > best {
            best = s;
        }
        i = i + 1;
    }
    assert(kv.subrange(0, i as int) == kv);
    best
}

fn find_best_cluster(k: &Vec<char>, cat: &Vec<ConceptCluster>) -> (r: Option<usize>)
    ensures
        match r {
            Some(c) => best_cluster(k@, catalog_view(cat@)) == Some(c as int),
            None => best_cluster(k@, catalog_view(cat@)) is None,
        },
{
    let ghost cv = catalog_view(cat@);
    let mut best: Option<usize> = None;
    let mut best_score: u8 = 0;
    let mut i: usize = 0;
    while i < cat.len()
        invariant
            i <= cat@.len(),
            cv == catalog_view(cat@),
            best_score as int == max_score(k@, cv.subrange(0, i as int)),
            match best {
                Some(c) => best_cluster(k@, cv.subrange(0, i as int)) == Some(c as int),
                None => best_cluster(k@, cv.subrange(0, i as int)) is None,
            },
        decreases cat@.len() - i,
    {
        let s = score_cluster(k, &cat[i].keywords);
        let ghost pre = cv.subrange(0, i as int);
        let ghost next = cv.subrange(0, i as int + 1);
        assert(next.drop_last() == pre);
        assert(next.last() == keyword_views(cat@[i as int].keywords@));
        if s > best_score {
            best_score = s;
            best = Some(i);
        }
        i = i + 1;
    }
    assert(cv.subrange(0, i as int) == cv);
    best
}

/// What `str::to_lowercase` returns for a string: a function of its
/// characters alone.
pub uninterp spec fn lower_of(s: Seq<char>) -> Seq<char>;

/// Relies on `str::to_lowercase`: Unicode lower-casing, which depends on the
/// characters alone.
#[verifier::external_body]
fn lowercase(s: &str) -> (r: String)
    ensures
        r@ == lower_of(s@),
{
    s.to_lowercase()
}

/// What one focus keyword contributes to an agent's position.
#[derive(Clone, Copy, Debug, PartialEq, Eq, Structural)]
pub enum FocusContribution {
    /// The fixed position of the landmark at this index of the list given.
    Landmark(usize),
    /// A position placed from the keyword itself.
    Placed(KeywordPlacement),
}

pub open spec fn landmark_views(lms: Seq<Vec<String>>) -> Seq<Seq<Seq<char>>> {
    lms.map_values(|v: Vec<String>| keyword_views(v@))
}

/// Some keyword of the landmark lower-cases to `kwl`.
pub open spec fn landmark_has(kwl: Seq<char>, lm: Seq<Seq<char>>) -> bool {
    exists|j: int| 0 <= j < lm.len() && lower_of(lm[j]) == kwl
}

/// The first landmark, in list order, that has the lower-case keyword `kwl`.
pub open spec fn first_landmark(kwl: Seq<char>, lms: Seq<Seq<Seq<char>>>) -> Option<int>
    decreases lms.len(),
{
    if lms.len() == 0 {
        None
    } else {
        match first_landmark(kwl, lms.drop_last()) {
            Some(i) => Some(i),
            None => if landmark_has(kwl, lms.last()) {
                Some(lms.len() - 1)
            } else {
                None
            },
        }
    }
}

/// The contribution of focus keyword `kw`: the first landmark that lists it
/// (compared case-insensitively), else its own placement in lower case.
pub open spec fn contribution_of(
    kw: Seq<char>,
    lms: Seq<Seq<Seq<char>>>,
    cat: Seq<Seq<Seq<char>>>,
) -> FocusContribution {
    let kwl = lower_of(kw);
    match first_landmark(kwl, lms) {
        Some(i) => FocusContribution::Landmark(i as usize),
        None => FocusContribution::Placed(placement_of(kwl, cat)),
    }
}

/// Maps keywords to placements through a fixed cluster catalog, remembering
/// the placement of each lower-case keyword it has computed.
pub struct SemanticPositioner {
    keyword_cache: Vec<(String, KeywordPlacement)>,
    concept_clusters: Vec<ConceptCluster>,
}

impl SemanticPositioner {
    pub closed spec fn catalog(&self) -> Seq<Seq<Seq<char>>> {
        catalog_view(self.concept_clusters@)
    }

    /// Every remembered placement is the one the catalog gives.
    pub closed spec fn wf(&self) -> bool {
        forall|i: int|
            0 <= i < self.keyword_cache@.len() ==> #[trigger] self.keyword_cache@[i].1
                == placement_of(self.keyword_cache@[i].0@, self.catalog())
    }

    pub closed spec fn clusters(&self) -> Seq<ConceptCluster> {
        self.concept_clusters@
    }

    /// The catalog, in order.
    pub fn concept_clusters(&self) -> (r: &Vec<ConceptCluster>)
        ensures
            r@ == self.clusters(),
            catalog_view(r@) == self.catalog(),
    {
        &self.concept_clusters
    }

    /// Placement of a keyword that is already lower case.
    pub fn keyword_to_position(&self, keyword: &str) -> (r: KeywordPlacement)
        ensures
            r == placement_of(keyword@, self.catalog()),
    {
        let k = chars_of(keyword);
        let hash = hash_string(keyword);
        match find_best_cluster(&k, &self.concept_clusters) {
            Some(c) => KeywordPlacement::InCluster {
                cluster: c,
                angle_deg: hash % 360,
                radial_pct: (hash / 360) % 100,
            },
            None => KeywordPlacement::Scattered {
                x_permille: hash % 1000,
                y_permille: (hash / 1000) % 1000,
            },
        }
    }

    fn cached(&self, k: &Vec<char>) -> (r: Option<KeywordPlacement>)
        requires
            self.wf(),
        ensures
            r matches Some(p) ==> p == placement_of(k@, self.catalog()),
    {
        let mut i: usize = 0;
        while i < self.keyword_cache.len()
            invariant
                self.wf(),
                i <= self.keyword_cache@.len(),
            decreases self.keyword_cache@.len() - i,
        {
            let entry = chars_of(self.keyword_cache[i].0.as_str());
            if same_chars(&entry, k) {
                assert(self.keyword_cache@[i as int].1 == placement_of(
                    self.keyword_cache@[i as int].0@,
                    self.catalog(),
                ));
                return Some(self.keyword_cache[i].1);
            }
            i = i + 1;
        }
        None
    }

    /// The placements of each of a landmark's keywords, lower-cased; the
    /// cache is neither read nor filled.
    pub fn register_landmark(&self, keywords: &Vec<String>) -> (r: Vec<KeywordPlacement>)
        ensures
            r@.len() == keywords@.len(),
            forall|i: int|
                0 <= i < r@.len() ==> #[trigger] r@[i] == placement_of(
                    lower_of(keywords@[i]@),
                    self.catalog(),
                ),
    {
        let mut out: Vec<KeywordPlacement> = Vec::new();
        let mut i: usize = 0;
        while i < keywords.len()
            invariant
                i <= keywords@.len(),
                out@.len() == i,
                forall|j: int|
                    0 <= j < i ==> #[trigger] out@[j] == placement_of(
                        lower_of(keywords@[j]@),
                        self.catalog(),
                    ),
            decreases keywords@.len() - i,
        {
            let kwl = lowercase(keywords[i].as_str());
            out.push(self.keyword_to_position(kwl.as_str()));
            i = i + 1;
        }
        out
    }
}

fn landmark_lists(kwl: &Vec<char>, lm: &Vec<String>) -> (r: bool)
    ensures
        r == landmark_has(kwl@, keyword_views(lm@)),
{
    let ghost lv = keyword_views(lm@);
    let mut j: usize = 0;
    while j < lm.len()
        invariant
            j <= lm@.len(),
            lv == keyword_views(lm@),
            forall|i: int| 0 <= i < j ==> lower_of(lv[i]) != kwl@,
        decreases lm@.len() - j,
    {
        let l = lowercase(lm[j].as_str());
        let lc = chars_of(l.as_str());
        if same_chars(&lc, kwl) {
            assert(lower_of(lv[j as int]) == kwl@);
            return true;
        }
        j = j + 1;
    }
    false
}

fn find_landmark(kwl: &Vec<char>, lms: &Vec<Vec<String>>) -> (r: Option<usize>)
    ensures
        match r {
            Some(i) => first_landmark(kwl@, landmark_views(lms@)) == Some(i as int),
            None => first_landmark(kwl@, landmark_views(lms@)) is None,
        },
{
    let ghost lv = landmark_views(lms@);
    let mut i: usize = 0;
    while i < lms.len()
        invariant
            i <= lms@.len(),
            lv == landmark_views(lms@),
            first_landmark(kwl@, lv.subrange(0, i as int)) is None,
        decreases lms@.len() - i,
    {
        let ghost next = lv.subrange(0, i as int + 1);
        assert(next.drop_last() == lv.subrange(0, i as int));
        assert(next.last() == keyword_views(lms@[i as int]@));
        if landmark_lists(kwl, &lms[i]) {
            proof { lemma_first_landmark_prefix(kwl@, lv, i as int + 1); }
            return Some(i);
        }
        i = i + 1;
    }
    assert(lv.subrange(0, i as int) == lv);
    None
}

proof fn lemma_first_landmark_prefix(kwl: Seq<char>, lms: Seq<Seq<Seq<char>>>, n: int)
    requires
        0 <= n <= lms.len(),
        first_landmark(kwl, lms.subrange(0, n)) is Some,
    ensures
        first_landmark(kwl, lms) == first_landmark(kwl, lms.subrange(0, n)),
    decreases lms.len() - n,
{
    if n < lms.len() {
        assert(lms.subrange(0, n + 1).drop_last() == lms.subrange(0, n));
        lemma_first_landmark_prefix(kwl, lms, n + 1);
    } else {
        assert(lms.subrange(0, n) == lms);
    }
}

impl SemanticPositioner {
    /// The contribution of each focus keyword, in order: the first landmark
    /// of `landmark_keywords` that lists it, case-insensitively, else its own
    /// placement, taken from the cache or computed and then remembered.
    /// An empty focus gives no contributions (the center of the square).
    pub fn calculate_position(
        &mut self,
        focus: &Vec<String>,
        landmark_keywords: &Vec<Vec<String>>,
    ) -> (r: Vec<FocusContribution>)
        requires
            old(self).wf(),
        ensures
            final(self).wf(),
            final(self).catalog() == old(self).catalog(),
            r@.len() == focus@.len(),
            forall|i: int|
                0 <= i < r@.len() ==> #[trigger] r@[i] == contribution_of(
                    focus@[i]@,
                    landmark_views(landmark_keywords@),
                    old(self).catalog(),
                ),
    {
        let ghost cat = self.catalog();
        let ghost lv = landmark_views(landmark_keywords@);
        let mut out: Vec<FocusContribution> = Vec::new();
        let mut i: usize = 0;
        while i < focus.len()
            invariant
                self.wf(),
                self.catalog() == cat,
                lv == landmark_views(landmark_keywords@),
                i <= focus@.len(),
                out@.len() == i,
                forall|j: int|
                    0 <= j < i ==> #[trigger] out@[j] == contribution_of(focus@[j]@, lv, cat),
            decreases focus@.len() - i,
        {
            let kwl = lowercase(focus[i].as_str());
            let k = chars_of(kwl.as_str());
            match find_landmark(&k, landmark_keywords) {
                Some(li) => {
                    out.push(FocusContribution::Landmark(li));
                },
                None => {
                    match self.cached(&k) {
                        Some(p) => {
                            out.push(FocusContribution::Placed(p));
                        },
                        None => {
                            let p = self.keyword_to_position(kwl.as_str());
                            self.keyword_cache.push((kwl, p));
                            assert forall|j: int| 0 <= j < self.keyword_cache@.len() implies
                                #[trigger] self.keyword_cache@[j].1 == placement_of(
                                    self.keyword_cache@[j].0@,
                                    self.catalog(),
                                ) by {}
                            out.push(FocusContribution::Placed(p));
                        },
                    }
                },
            }
            i = i + 1;
        }
        out
    }
}

fn to_strings(words: &[&str]) -> (r: Vec<String>)
    ensures
        r@.len() == words@.len(),
        forall|i: int| 0 <= i < r@.len() ==> #[trigger] r@[i]@ == words@[i]@,
{
    let mut out: Vec<String> = Vec::new();
    let mut i: usize = 0;
    while i < words.len()
        invariant
            i <= words@.len(),
            out@.len() == i,
            forall|j: int| 0 <= j < i ==> #[trigger] out@[j]@ == words@[j]@,
        decreases words@.len() - i,
    {
        out.push(words[i].to_owned());
        i = i + 1;
    }
    out
}

fn cluster(x: u32, y: u32, radius: u32, words: &[&str]) -> (r: ConceptCluster)
    ensures
        r.center_x_pct == x,
        r.center_y_pct == y,
        r.radius_pct == radius,
        keyword_views(r.keywords@) == words@.map_values(|w: &str| w@),
{
    let keywords = to_strings(words);
    assert(keyword_views(keywords@) =~= words@.map_values(|w: &str| w@));
    ConceptCluster { center_x_pct: x, center_y_pct: y, radius_pct: radius, keywords }
}

/// Center and radius, in hundredths, of each cluster of the default catalog.
pub open spec fn default_geometry() -> Seq<(u32, u32, u32)> {
    seq![
        (20, 20, 15),
        (80, 20, 15),
        (20, 80, 15),
        (80, 80, 15),
        (50, 15, 12),
        (50, 85, 12),
        (15, 50, 12),
        (85, 50, 12),
        (50, 50, 10),
    ]
}

/// The keyword lists of the default catalog, in catalog order.
pub open spec fn default_catalog() -> Seq<Seq<Seq<char>>> {
    seq![
        seq![
            "frontend"@, "ui"@, "css"@, "html"@, "react"@, "vue"@, "angular"@,
            "component"@, "button"@, "form"@, "layout"@, "style"@, "design"@,
        ],
        seq![
            "backend"@, "api"@, "rest"@, "graphql"@, "endpoint"@, "server"@,
            "route"@, "controller"@, "middleware"@, "http"@, "request"@,
        ],
        seq![
            "database"@, "sql"@, "postgres"@, "mysql"@, "mongodb"@, "redis"@,
            "query"@, "schema"@, "migration"@, "model"@, "table"@, "index"@,
        ],
        seq![
            "docker"@, "kubernetes"@, "deploy"@, "ci"@, "cd"@, "pipeline"@,
            "aws"@, "cloud"@, "terraform"@, "infrastructure"@, "devops"@,
        ],
        seq![
            "auth"@, "authentication"@, "jwt"@, "oauth"@, "session"@, "login"@,
            "password"@, "token"@, "security"@, "permission"@, "role"@,
        ],
        seq![
            "test"@, "testing"@, "unit"@, "integration"@, "e2e"@, "mock"@,
            "jest"@, "pytest"@, "spec"@, "coverage"@, "assertion"@,
        ],
        seq![
            "state"@, "store"@, "redux"@, "context"@, "data"@, "cache"@,
            "memory"@, "storage"@, "persist"@, "sync"@,
        ],
        seq![
            "logic"@, "business"@, "service"@, "handler"@, "processor"@,
            "workflow"@, "validation"@, "rule"@, "algorithm"@,
        ],
        seq![
            "main"@, "core"@, "app"@, "init"@, "config"@, "setup"@,
            "entry"@, "root"@, "base"@,
        ],
    ]
}

impl SemanticPositioner {
    /// A positioner over the default catalog, in this order: frontend,
    /// backend, database, infrastructure, auth, testing, state/data,
    /// logic/business, core; with nothing remembered yet.
    pub fn new() -> (r: Self)
        ensures
            r.wf(),
            r.catalog() == default_catalog(),
            r.clusters().len() == 9,
            forall|i: int|
                0 <= i < 9 ==> {
                    &&& (#[trigger] r.clusters()[i]).center_x_pct == default_geometry()[i].0
                    &&& r.clusters()[i].center_y_pct == default_geometry()[i].1
                    &&& r.clusters()[i].radius_pct == default_geometry()[i].2
                },
    {
        let mut clusters: Vec<ConceptCluster> = Vec::new();
        let c0 = cluster(20, 20, 15, &[
            "frontend", "ui", "css", "html", "react", "vue", "angular",
            "component", "button", "form", "layout", "style", "design",
        ]);
        assert(keyword_views(c0.keywords@) =~= default_catalog()[0]);
        clusters.push(c0);
        let c1 = cluster(80, 20, 15, &[
            "backend", "api", "rest", "graphql", "endpoint", "server",
            "route", "controller", "middleware", "http", "request",
        ]);
        assert(keyword_views(c1.keywords@) =~= default_catalog()[1]);
        clusters.push(c1);
        let c2 = cluster(20, 80, 15, &[
            "database", "sql", "postgres", "mysql", "mongodb", "redis",
            "query", "schema", "migration", "model", "table", "index",
        ]);
        assert(keyword_views(c2.keywords@) =~= default_catalog()[2]);
        clusters.push(c2);
        let c3 = cluster(80, 80, 15, &[
            "docker", "kubernetes", "deploy", "ci", "cd", "pipeline",
            "aws", "cloud", "terraform", "infrastructure", "devops",
        ]);
        assert(keyword_views(c3.keywords@) =~= default_catalog()[3]);
        clusters.push(c3);
        let c4 = cluster(50, 15, 12, &[
            "auth", "authentication", "jwt", "oauth", "session", "login",
            "password", "token", "security", "permission", "role",
        ]);
        assert(keyword_views(c4.keywords@) =~= default_catalog()[4]);
        clusters.push(c4);
        let c5 = cluster(50, 85, 12, &[
            "test", "testing", "unit", "integration", "e2e", "mock",
            "jest", "pytest", "spec", "coverage", "assertion",
        ]);
        assert(keyword_views(c5.keywords@) =~= default_catalog()[5]);
        clusters.push(c5);
        let c6 = cluster(15, 50, 12, &[
            "state", "store", "redux", "context", "data", "cache",
            "memory", "storage", "persist", "sync",
        ]);
        assert(keyword_views(c6.keywords@) =~= default_catalog()[6]);
        clusters.push(c6);
        let c7 = cluster(85, 50, 12, &[
            "logic", "business", "service", "handler", "processor",
            "workflow", "validation", "rule", "algorithm",
        ]);
        assert(keyword_views(c7.keywords@) =~= default_catalog()[7]);
        clusters.push(c7);
        let c8 = cluster(50, 50, 10, &[
            "main", "core", "app", "init", "config", "setup",
            "entry", "root", "base",
        ]);
        assert(keyword_views(c8.keywords@) =~= default_catalog()[8]);
        clusters.push(c8);
        let r = SemanticPositioner { keyword_cache: Vec::new(), concept_clusters: clusters };
        assert(r.catalog() =~= default_catalog()) by {
            assert forall|k: int| 0 <= k < 9 implies #[trigger] r.catalog()[k] == default_catalog()[k] by {
                assert(r.catalog()[k] == keyword_views(r.concept_clusters@[k].keywords@));
            }
        }
        r
    }
}

impl Default for SemanticPositioner {
    fn default() -> (r: Self)
        ensures
            r.wf(),
            r.catalog() == default_catalog(),
    {
        Self::new()
    }
}

/// Whether agent `id` passes the filter `filter`: an empty filter passes
/// every agent, otherwise the lower-cased filter must occur in the
/// lower-cased id.
pub fn agent_matches_filter(id: &str, filter: &str) -> (r: bool)
    ensures
        r == (filter@.len() == 0 || is_substring(lower_of(filter@), lower_of(id@))),
{
    if filter.unicode_len() == 0 {
        return true;
    }
    let f = lowercase(filter);
    let i = lowercase(id);
    contains_chars(&chars_of(i.as_str()), &chars_of(f.as_str()))
}

} // verus!
