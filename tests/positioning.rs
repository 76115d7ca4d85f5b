use hive::semantic::{agent_matches_filter, hash_string, ConceptCluster, FocusContribution, KeywordPlacement, SemanticPositioner};
use hive::spatial::{CellCoord, SpatialHash};

fn place(clusters: &[ConceptCluster], p: KeywordPlacement) -> (f32, f32) {
    match p {
        KeywordPlacement::InCluster { cluster, angle_deg, radial_pct } => {
            let c = &clusters[cluster];
            let angle = angle_deg as f32 * std::f32::consts::PI / 180.0;
            let distance = radial_pct as f32 / 100.0 * (c.radius_pct as f32 / 100.0) * 0.8;
            let x = c.center_x_pct as f32 / 100.0 + angle.cos() * distance;
            let y = c.center_y_pct as f32 / 100.0 + angle.sin() * distance;
            (x.clamp(0.05, 0.95), y.clamp(0.05, 0.95))
        }
        KeywordPlacement::Scattered { x_permille, y_permille } => (
            x_permille as f32 / 1000.0 * 0.7 + 0.15,
            y_permille as f32 / 1000.0 * 0.7 + 0.15,
        ),
    }
}

fn position_of(positioner: &mut SemanticPositioner, keyword: &str) -> (f32, f32) {
    let focus = vec![keyword.to_string()];
    let contributions = positioner.calculate_position(&focus, &Vec::new());
    match contributions[0] {
        FocusContribution::Placed(p) => place(positioner.concept_clusters(), p),
        FocusContribution::Landmark(_) => panic!("no landmarks were given"),
    }
}

fn cell(x: f32, y: f32) -> CellCoord {
    CellCoord { x: (x / 0.16).floor() as i64, y: (y / 0.16).floor() as i64 }
}

#[test]
fn test_similar_keywords_cluster() {
    let mut positioner = SemanticPositioner::new();

    let pos1 = position_of(&mut positioner, "react");
    let pos2 = position_of(&mut positioner, "vue");
    let pos3 = position_of(&mut positioner, "database");

    let dist = |a: (f32, f32), b: (f32, f32)| ((a.0 - b.0).powi(2) + (a.1 - b.1).powi(2)).sqrt();
    let dist_react_vue = dist(pos1, pos2);
    let dist_react_db = dist(pos1, pos3);

    assert!(dist_react_vue < dist_react_db);
}

#[test]
fn keywords_land_in_their_clusters() {
    let positioner = SemanticPositioner::new();
    assert!(matches!(positioner.keyword_to_position("react"), KeywordPlacement::InCluster { cluster: 0, .. }));
    assert!(matches!(positioner.keyword_to_position("vue"), KeywordPlacement::InCluster { cluster: 0, .. }));
    assert!(matches!(positioner.keyword_to_position("database"), KeywordPlacement::InCluster { cluster: 2, .. }));
    assert!(matches!(positioner.keyword_to_position("jwt"), KeywordPlacement::InCluster { cluster: 4, .. }));
}

#[test]
fn exact_match_beats_earlier_substring() {
    let positioner = SemanticPositioner::new();
    // "data" is a substring of "database" (cluster 2) but an exact keyword of cluster 6.
    assert!(matches!(positioner.keyword_to_position("data"), KeywordPlacement::InCluster { cluster: 6, .. }));
    // "testing" contains "test" and equals "testing", both in cluster 5.
    assert!(matches!(positioner.keyword_to_position("testing"), KeywordPlacement::InCluster { cluster: 5, .. }));
}

#[test]
fn substring_ties_go_to_first_cluster() {
    let positioner = SemanticPositioner::new();
    // "guide" only contains "ui", a keyword of the first cluster.
    assert!(matches!(positioner.keyword_to_position("guide"), KeywordPlacement::InCluster { cluster: 0, .. }));
}

#[test]
fn cluster_placement_follows_hash() {
    let positioner = SemanticPositioner::new();
    let h = hash_string("react");
    assert_eq!(
        positioner.keyword_to_position("react"),
        KeywordPlacement::InCluster { cluster: 0, angle_deg: h % 360, radial_pct: (h / 360) % 100 }
    );
}

#[test]
fn unmatched_keyword_is_scattered() {
    let positioner = SemanticPositioner::new();
    let h = hash_string("zzz");
    assert_eq!(
        positioner.keyword_to_position("zzz"),
        KeywordPlacement::Scattered { x_permille: h % 1000, y_permille: (h / 1000) % 1000 }
    );
}

#[test]
fn hash_string_known_values() {
    assert_eq!(hash_string(""), 5381);
    assert_eq!(hash_string("a"), 5381u32.wrapping_mul(33).wrapping_add(97));
    assert_eq!(hash_string("a"), 177670);
    assert_eq!(hash_string("ab"), 5863208);
}

#[test]
fn empty_focus_contributes_nothing() {
    let mut positioner = SemanticPositioner::new();
    let landmarks = vec![vec!["auth".to_string()]];
    assert!(positioner.calculate_position(&Vec::new(), &landmarks).is_empty());
}

#[test]
fn focus_is_matched_case_insensitively() {
    let mut positioner = SemanticPositioner::new();
    let upper = positioner.calculate_position(&vec!["React".to_string()], &Vec::new());
    assert_eq!(upper[0], FocusContribution::Placed(positioner.keyword_to_position("react")));
}

#[test]
fn first_landmark_with_keyword_wins() {
    let mut positioner = SemanticPositioner::new();
    let landmarks = vec![
        vec!["billing".to_string()],
        vec!["Payments".to_string(), "Stripe".to_string()],
        vec!["stripe".to_string()],
    ];
    let focus = vec!["STRIPE".to_string(), "react".to_string()];
    let r = positioner.calculate_position(&focus, &landmarks);
    assert_eq!(r.len(), 2);
    assert_eq!(r[0], FocusContribution::Landmark(1));
    assert_eq!(r[1], FocusContribution::Placed(positioner.keyword_to_position("react")));
}

#[test]
fn cached_placement_is_reused() {
    let mut positioner = SemanticPositioner::new();
    let first = positioner.calculate_position(&vec!["Docker".to_string()], &Vec::new());
    let second = positioner.calculate_position(&vec!["docker".to_string()], &Vec::new());
    assert_eq!(first, second);
}

#[test]
fn landmark_placements_lower_case_keywords() {
    let positioner = SemanticPositioner::new();
    let r = positioner.register_landmark(&vec!["API".to_string(), "Redis".to_string()]);
    assert_eq!(r, vec![positioner.keyword_to_position("api"), positioner.keyword_to_position("redis")]);
    assert!(positioner.register_landmark(&Vec::new()).is_empty());
}

#[test]
fn default_catalog_geometry() {
    let positioner = SemanticPositioner::new();
    let c = positioner.concept_clusters();
    assert_eq!(c.len(), 9);
    assert_eq!((c[0].center_x_pct, c[0].center_y_pct, c[0].radius_pct), (20, 20, 15));
    assert_eq!((c[8].center_x_pct, c[8].center_y_pct, c[8].radius_pct), (50, 50, 10));
    assert_eq!(c[0].keywords[0], "frontend");
}

#[test]
fn test_spatial_hash_rebuild() {
    let mut hash = SpatialHash::new();
    let positions = vec![cell(0.1, 0.1), cell(0.5, 0.5), cell(0.9, 0.9)];

    hash.rebuild(&positions);
    assert_eq!(hash.agent_count(), 3);
}

#[test]
fn test_get_nearby_finds_close_agents() {
    let mut hash = SpatialHash::new();
    let positions = vec![cell(0.1, 0.1), cell(0.12, 0.12), cell(0.9, 0.9)];

    hash.rebuild(&positions);
    let nearby = hash.get_nearby(positions[0]);

    assert!(nearby.contains(&0));
    assert!(nearby.contains(&1));
}

#[test]
fn nearby_excludes_far_cells_and_clamps() {
    let mut hash = SpatialHash::new();
    let positions = vec![
        CellCoord { x: 0, y: 0 },
        CellCoord { x: 1, y: 1 },
        CellCoord { x: 2, y: 0 },
        CellCoord { x: -5, y: -5 },
        CellCoord { x: 6, y: 6 },
        CellCoord { x: 40, y: 40 },
    ];
    hash.rebuild(&positions);
    let mut nearby = hash.get_nearby(CellCoord { x: 0, y: 0 });
    nearby.sort();
    assert_eq!(nearby, vec![0, 1, 3]);
    let mut corner = hash.get_nearby(CellCoord { x: 100, y: 100 });
    corner.sort();
    assert_eq!(corner, vec![4, 5]);
}

#[test]
fn same_cell_points_find_each_other() {
    let mut hash = SpatialHash::new();
    let positions = vec![cell(0.33, 0.33), cell(0.40, 0.47), cell(0.34, 0.36)];
    hash.rebuild(&positions);
    for p in &positions {
        let nearby = hash.get_nearby(*p);
        assert!(nearby.contains(&0) && nearby.contains(&1) && nearby.contains(&2));
    }
}

#[test]
fn clear_forgets_points() {
    let mut hash = SpatialHash::with_grid(3, 2);
    hash.rebuild(&vec![CellCoord { x: 1, y: 1 }]);
    hash.clear();
    assert_eq!(hash.agent_count(), 0);
    assert!(hash.get_nearby(CellCoord { x: 1, y: 1 }).is_empty());
}

#[test]
fn agent_filter_ignores_case() {
    assert!(agent_matches_filter("Explorer-1", ""));
    assert!(agent_matches_filter("Explorer-1", "PLOR"));
    assert!(!agent_matches_filter("Explorer-1", "builder"));
}
