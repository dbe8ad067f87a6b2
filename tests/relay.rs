use world_monitor::relay::polymarket_url;

#[test]
fn allowed_paths_become_api_urls() {
    assert_eq!(
        polymarket_url("/events", "limit=5").as_deref(),
        Some("https://gamma-api.polymarket.com/events?limit=5")
    );
    assert_eq!(
        polymarket_url("///markets/12", "").as_deref(),
        Some("https://gamma-api.polymarket.com/markets/12?")
    );
    assert_eq!(
        polymarket_url("tags", "a=b&c=d").as_deref(),
        Some("https://gamma-api.polymarket.com/tags?a=b&c=d")
    );
}

#[test]
fn other_paths_are_refused() {
    assert_eq!(polymarket_url("/users", "x=1"), None);
    assert_eq!(polymarket_url("", ""), None);
    assert_eq!(polymarket_url("///", ""), None);
    assert_eq!(polymarket_url("/even", ""), None);
}
