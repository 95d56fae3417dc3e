use fetcher::client::Fetcher;
use fetcher::client::HttpOutcome;
use fetcher::client::ReturnAction;
use fetcher::client::SearchStep;
use fetcher::client::search_suffix;
use fetcher::client::trending_suffix;
use fetcher::digits::parse_u64;
use fetcher::digits::u64_to_dec;
use fetcher::music::MusicUnit;

fn unit(i: usize) -> MusicUnit {
    let title = format!("song{}", i);
    let id = format!("id{}", i);
    MusicUnit::from_fields(&title, &id, "artist", 100 + i as u64)
}

fn units(from: usize, to: usize) -> Vec<MusicUnit> {
    let mut v = Vec::new();
    for i in from..to {
        v.push(unit(i));
    }
    v
}

fn one_server() -> Fetcher {
    Fetcher::with_servers(vec!["http://mirror.example/api/v1".to_string()])
}

#[test]
fn new_has_six_servers_and_empty_caches() {
    let f = Fetcher::new();
    assert_eq!(f.servers.len(), 6);
    assert_eq!(f.active_server_index, 0);
    assert!(f.needs_trending_fetch());
    assert_eq!(f.search_page, 0);
    assert!(f.search_batch.is_empty());
    assert_eq!(f.servers[0], "https://invidious.snopyta.org/api/v1");
}

#[test]
fn change_server_rotates_cyclically() {
    let mut f = Fetcher::with_servers(vec![
        "http://a".to_string(),
        "http://b".to_string(),
        "http://c".to_string(),
    ]);
    assert_eq!(f.active_server_index, 0);
    f.change_server();
    assert_eq!(f.active_server_index, 1);
    f.change_server();
    assert_eq!(f.active_server_index, 2);
    f.change_server();
    assert_eq!(f.active_server_index, 0);
}

#[test]
fn single_server_pool_rotates_to_itself() {
    let mut f = one_server();
    f.change_server();
    assert_eq!(f.active_server_index, 0);
    f.change_server();
    assert_eq!(f.active_server_index, 0);
}

#[test]
fn request_url_joins_server_and_path() {
    let f = one_server();
    assert_eq!(
        f.request_url("/trending"),
        "http://mirror.example/api/v1/trending"
    );
}

#[test]
fn endpoint_paths_match_the_backend_api() {
    assert_eq!(
        trending_suffix(),
        "/trending?type=Music&region=NP&fields=videoId,title,author,lengthSeconds"
    );
    assert_eq!(
        search_suffix("Spotify chill&cool=mix", 12),
        "/search?q=Spotify chill&cool=mix&type=video&region=NP&page=12&fields=videoId,title,author,lengthSeconds"
    );
}

#[test]
fn decimal_printing_and_parsing() {
    assert_eq!(u64_to_dec(0), "0");
    assert_eq!(u64_to_dec(7), "7");
    assert_eq!(u64_to_dec(1234567890), "1234567890");
    assert_eq!(parse_u64("0"), 0);
    assert_eq!(parse_u64("1234567890"), 1234567890);
    assert_eq!(parse_u64("18446744073709551615"), u64::MAX);
}

#[test]
fn transport_failure_with_budget_rotates_and_signals_retry() {
    let mut f = Fetcher::with_servers(vec![
        "http://a".to_string(),
        "http://b".to_string(),
        "http://c".to_string(),
    ]);
    let r = f.handle_response::<Vec<MusicUnit>>(HttpOutcome::TransportError, 2);
    assert_eq!(r.unwrap_err(), ReturnAction::Retry);
    assert_eq!(f.active_server_index, 1);
    let r = f.handle_response::<Vec<MusicUnit>>(HttpOutcome::TransportError, 1);
    assert_eq!(r.unwrap_err(), ReturnAction::Retry);
    assert_eq!(f.active_server_index, 2);
    let r = f.handle_response::<Vec<MusicUnit>>(HttpOutcome::TransportError, 0);
    assert_eq!(r.unwrap_err(), ReturnAction::Failed);
    assert_eq!(f.active_server_index, 2);
}

#[test]
fn parsed_body_is_returned_and_rotates_nothing() {
    let mut f = one_server();
    let r = f.handle_response(HttpOutcome::Parsed(units(0, 3)), 2);
    assert_eq!(r.unwrap(), units(0, 3));
    assert_eq!(f.active_server_index, 0);
}

#[test]
fn malformed_body_is_terminal_without_rotation() {
    let mut f = Fetcher::with_servers(vec!["http://a".to_string(), "http://b".to_string()]);
    let r = f.handle_response::<Vec<MusicUnit>>(HttpOutcome::Malformed, 2);
    assert_eq!(r.unwrap_err(), ReturnAction::Failed);
    assert_eq!(f.active_server_index, 0);
}

#[test]
fn trending_pages_slice_the_cached_list() {
    let mut f = one_server();
    f.store_trending(units(0, 25));
    let p0 = f.get_trending_music(0).unwrap();
    assert_eq!(p0, units(0, 10));
    let p1 = f.get_trending_music(1).unwrap();
    assert_eq!(p1, units(10, 20));
    let p2 = f.get_trending_music(2).unwrap();
    assert_eq!(p2, units(20, 25));
}

#[test]
fn trending_page_beyond_end_is_end_of_results() {
    let mut f = one_server();
    f.store_trending(units(0, 25));
    assert_eq!(f.get_trending_music(3).unwrap_err(), ReturnAction::EOR);
    assert_eq!(f.get_trending_music(1000).unwrap_err(), ReturnAction::EOR);
    let mut empty = one_server();
    empty.store_trending(Vec::new());
    assert_eq!(empty.get_trending_music(0).unwrap_err(), ReturnAction::EOR);
}

#[test]
fn trending_is_fetched_at_most_once() {
    let mut f = one_server();
    assert!(f.needs_trending_fetch());
    f.store_trending(units(0, 25));
    assert!(!f.needs_trending_fetch());
    f.get_trending_music(0).unwrap();
    assert!(!f.needs_trending_fetch());
    f.get_trending_music(1).unwrap();
    assert!(!f.needs_trending_fetch());
}

fn expect_fetch(step: SearchStep) -> (String, Vec<MusicUnit>) {
    match step {
        SearchStep::Fetch(suffix, carried) => (suffix, carried),
        SearchStep::Ready(_) => panic!("expected a backend fetch"),
    }
}

#[test]
fn search_session_pages_keep_backend_order() {
    let mut f = one_server();
    let (suffix, carried) = expect_fetch(f.search_music("rock", 0));
    assert!(carried.is_empty());
    assert_eq!(
        suffix,
        "/search?q=rock&type=video&region=NP&page=1&fields=videoId,title,author,lengthSeconds"
    );
    assert_eq!(f.search_page, 1);
    let p0 = f.finish_search(carried, units(0, 20)).unwrap();
    assert_eq!(p0, units(0, 10));

    match f.search_music("rock", 1) {
        SearchStep::Ready(v) => assert_eq!(v, units(10, 20)),
        SearchStep::Fetch(_, _) => panic!("page 1 was already cached"),
    }
    assert_eq!(f.search_page, 1);

    let (suffix, carried) = expect_fetch(f.search_music("rock", 2));
    assert!(carried.is_empty());
    assert!(suffix.contains("page=2"));
    let p2 = f.finish_search(carried, units(20, 25)).unwrap();
    assert_eq!(p2, units(20, 25));
}

#[test]
fn search_stitches_leftover_items_with_the_next_batch() {
    let mut f = one_server();
    let (_, carried) = expect_fetch(f.search_music("rock", 0));
    let p0 = f.finish_search(carried, units(0, 15)).unwrap();
    assert_eq!(p0, units(0, 10));

    let (suffix, carried) = expect_fetch(f.search_music("rock", 1));
    assert_eq!(carried, units(10, 15));
    assert!(suffix.contains("page=2"));
    let p1 = f.finish_search(carried, units(15, 23)).unwrap();
    assert_eq!(p1, units(10, 20));
}

#[test]
fn search_empty_outcome_is_end_of_results() {
    let mut f = one_server();
    let (_, carried) = expect_fetch(f.search_music("rock", 0));
    assert_eq!(
        f.finish_search(carried, Vec::new()).unwrap_err(),
        ReturnAction::EOR
    );
}

#[test]
fn new_query_resets_the_search_session() {
    let mut f = one_server();
    let (_, carried) = expect_fetch(f.search_music("rock", 0));
    f.finish_search(carried, units(0, 20)).unwrap();
    assert_eq!(f.search_page, 1);

    let (suffix, carried) = expect_fetch(f.search_music("jazz", 0));
    assert!(carried.is_empty());
    assert!(suffix.contains("q=jazz"));
    assert!(suffix.contains("page=1"));
    assert_eq!(f.search_page, 1);
    let p0 = f.finish_search(carried, units(100, 112)).unwrap();
    assert_eq!(p0, units(100, 110));
    let fresh = units(100, 112);
    for item in &p0 {
        assert!(fresh.contains(item));
    }
}

#[test]
fn failed_search_fetch_still_consumes_a_cursor_step() {
    let mut f = one_server();
    let (_, carried) = expect_fetch(f.search_music("rock", 0));
    assert_eq!(f.search_page, 1);
    let r = f.handle_response::<Vec<MusicUnit>>(HttpOutcome::TransportError, 1);
    assert_eq!(r.unwrap_err(), ReturnAction::Retry);
    drop(carried);
    let (suffix, _) = expect_fetch(f.search_music("rock", 0));
    assert!(suffix.contains("page=2"));
    assert_eq!(f.search_page, 2);
}
