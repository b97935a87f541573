use sponsored_games::model::{GameSearchResponse, GameSort, GameSortsResponse, GamesSearchResponse,
    PageContext, PollError};
use sponsored_games::poll::DedupLoop;
use sponsored_games::sorts::{effective_region_id, find_sponsored_sort, page_request};

fn sort(name: &str, token: &str, region: usize) -> GameSort {
    GameSort {
        token: token.to_string(),
        context_country_region_id: region,
        name: name.to_string(),
    }
}

fn game(name: &str, place_id: u64) -> GameSearchResponse {
    GameSearchResponse { name: name.to_string(), place_id }
}

fn sorts_response(sorts: Vec<GameSort>) -> GameSortsResponse {
    GameSortsResponse { sorts, page_context: PageContext { page_id: "pg".to_string() } }
}

#[test]
fn descriptor_selection_first_match() {
    let resp = sorts_response(vec![
        sort("Top Rated", "T0", 3),
        sort("Sponsored", "T1", 7),
        sort("Sponsored", "T2", 9),
    ]);
    let picked = find_sponsored_sort(&resp).expect("a sponsored descriptor exists");
    assert_eq!(picked, 1);
    assert_eq!(resp.sorts[picked].token, "T1");
    assert_eq!(resp.sorts[picked].context_country_region_id, 7);
}

#[test]
fn missing_sponsored_descriptor_is_not_found() {
    let resp = sorts_response(vec![sort("Top Rated", "T0", 3)]);
    assert_eq!(find_sponsored_sort(&resp), Err(PollError::NotFound));
}

#[test]
fn no_descriptors_is_not_found() {
    let resp = sorts_response(vec![]);
    assert_eq!(find_sponsored_sort(&resp), Err(PollError::NotFound));
}

#[test]
fn selection_is_case_sensitive_and_exact() {
    let resp = sorts_response(vec![
        sort("sponsored", "T0", 3),
        sort("Sponsored!", "T1", 4),
        sort("Sponsored", "T2", 5),
    ]);
    assert_eq!(find_sponsored_sort(&resp), Ok(2));
}

#[test]
fn region_override_takes_precedence() {
    let descriptor = sort("Sponsored", "T1", 7);
    let page = PageContext { page_id: "pg".to_string() };
    let req = page_request(&descriptor, &page, Some(42));
    assert_eq!(req.region_id, 42);
}

#[test]
fn descriptor_region_used_without_override() {
    let descriptor = sort("Sponsored", "T1", 7);
    let page = PageContext { page_id: "pg".to_string() };
    let req = page_request(&descriptor, &page, None);
    assert_eq!(req.region_id, 7);
    assert_eq!(effective_region_id(None, 7), 7);
    assert_eq!(effective_region_id(Some(42), 7), 42);
}

#[test]
fn page_request_carries_fixed_parameters() {
    let descriptor = sort("Sponsored", "tok-abc", 7);
    let page = PageContext { page_id: "cursor-1".to_string() };
    let req = page_request(&descriptor, &page, None);
    assert_eq!(req.sort_token, "tok-abc");
    assert_eq!(req.page_id, "cursor-1");
    assert_eq!(req.start_rows, 0);
    assert_eq!(req.max_rows, 32);
    assert!(req.has_more_rows);
    assert_eq!(req.sort_position, 5);
}

#[test]
fn limit_two_stops_after_two_fetches() {
    let mut lp = DedupLoop::new(Some(2));
    let mut fetches: usize = 0;
    let mut emitted: Vec<(String, u64)> = Vec::new();
    while lp.should_fetch() {
        let page = if fetches == 0 {
            GamesSearchResponse { games: vec![game("A", 1)] }
        } else {
            GamesSearchResponse { games: vec![game("A", 1), game("B", 2)] }
        };
        fetches += 1;
        for g in lp.process_page(&page) {
            emitted.push((g.name, g.place_id));
        }
        assert!(fetches <= 4, "loop failed to stop");
    }
    assert_eq!(fetches, 2);
    assert_eq!(emitted, vec![("A".to_string(), 1), ("B".to_string(), 2)]);
    assert_eq!(lp.seen_count(), 2);
}

#[test]
fn limit_zero_performs_no_fetch() {
    let lp = DedupLoop::new(Some(0));
    assert!(!lp.should_fetch());
    assert_eq!(lp.seen_count(), 0);
}

#[test]
fn unlimited_mode_keeps_fetching() {
    let mut lp = DedupLoop::new(None);
    assert!(lp.should_fetch());
    lp.process_page(&GamesSearchResponse { games: vec![game("A", 1)] });
    assert!(lp.should_fetch());
}

#[test]
fn duplicate_identity_across_pages_emitted_once() {
    let mut lp = DedupLoop::new(None);
    let first = lp.process_page(&GamesSearchResponse { games: vec![game("X", 9)] });
    assert_eq!(first.len(), 1);
    assert_eq!(first[0].name, "X");
    let second = lp.process_page(&GamesSearchResponse { games: vec![game("X", 9)] });
    assert!(second.is_empty());
    assert_eq!(lp.seen_count(), 1);
}

#[test]
fn identity_is_numeric_id_alone() {
    let mut lp = DedupLoop::new(None);
    let emitted = lp.process_page(&GamesSearchResponse {
        games: vec![game("A", 1), game("renamed A", 1)],
    });
    assert_eq!(emitted.len(), 1);
    assert_eq!(emitted[0].name, "A");
    assert_eq!(lp.seen_count(), 1);
}

#[test]
fn emitted_entities_keep_page_order() {
    let mut lp = DedupLoop::new(None);
    let emitted = lp.process_page(&GamesSearchResponse {
        games: vec![game("C", 3), game("A", 1), game("B", 2)],
    });
    let names: Vec<&str> = emitted.iter().map(|g| g.name.as_str()).collect();
    assert_eq!(names, vec!["C", "A", "B"]);
}

#[test]
fn seen_count_is_distinct_ids_and_never_shrinks() {
    let mut lp = DedupLoop::new(None);
    let mut last: usize = lp.seen_count();
    assert_eq!(last, 0);
    let pages = vec![
        vec![game("A", 1), game("B", 2)],
        vec![game("B", 2), game("C", 3)],
        vec![game("A", 1)],
    ];
    let mut distinct: Vec<u64> = Vec::new();
    for games in pages {
        for g in &games {
            if !distinct.contains(&g.place_id) {
                distinct.push(g.place_id);
            }
        }
        lp.process_page(&GamesSearchResponse { games });
        let now = lp.seen_count();
        assert!(now >= last);
        assert_eq!(now, distinct.len());
        last = now;
    }
    assert_eq!(lp.seen_count(), 3);
}

#[test]
fn error_messages_name_each_failure() {
    assert_eq!(PollError::MissingCredential.describe(), "missing session credential");
    assert_eq!(PollError::Transport.describe(), "network request failed");
    assert_eq!(PollError::Decode.describe(), "response did not match the expected schema");
    assert_eq!(
        PollError::NotFound.describe(),
        "no ranking descriptor with the required name"
    );
}
