use fixerss::selector::SelectorWrapper;
use fixerss::settings::{ChannelSettings, DurationSettings, FeedSettings, ItemSettings, Selector};
use fixerss::use_case::{
    is_fresh, new_item_row, FeedRefresh, MissingField, RefreshAction, RefreshFeedError, Timestamp,
};
use fixerss::item::FeedItem;

struct Row {
    feed_name: String,
    channel_name: String,
    title: String,
    description: String,
    guid: String,
    inserted_at: i64,
}

const PAGE: &str = r#"
    <html>
    <h1>This is a website</h1>
    <p>And this is content</p>
    </html>
"#;

fn website() -> FeedSettings {
    let selector = |css: &str, inner_html: bool| Selector::new(SelectorWrapper::parse(css).ok().unwrap(), inner_html);
    FeedSettings {
        stale_after: DurationSettings::Days { days: 1 },
        user_agent: None,
        channel: ChannelSettings {
            title: "website".to_string(),
            link: "http://127.0.0.1/".to_string(),
            description: "description".to_string(),
        },
        item: ItemSettings { title: selector("h1", true), description: selector("p", false), guid: None },
    }
}

/// Runs one refresh against an in-memory store; `page` is `None` when the fetch fails.
fn refresh(
    store: &mut Vec<Row>,
    feed_name: &str,
    feed: &FeedSettings,
    page: Option<&str>,
    now: i64,
    fetches: &mut usize,
) -> Result<(), Option<RefreshFeedError>> {
    let mut refresh = FeedRefresh::new(feed_name, feed);
    let mut action = refresh.start();
    loop {
        action = match action {
            RefreshAction::LoadLastFetch => {
                let last = store.iter().map(|row| row.inserted_at).max();
                refresh.on_last_fetch(last, now)
            }
            RefreshAction::Fetch { url, user_agent } => {
                assert_eq!(url, feed.channel.link);
                assert_eq!(user_agent, feed.user_agent);
                *fetches += 1;
                match page {
                    Some(page) => refresh.on_page(page),
                    None => return Err(None),
                }
            }
            RefreshAction::LookUp { feed_name, title } => {
                let exists = store
                    .iter()
                    .any(|row| row.feed_name == feed_name && Some(&row.title) == title.as_ref());
                refresh.on_lookup(exists, Timestamp { seconds: now, nanos: 250 }, now + 1)
            }
            RefreshAction::Insert(row) => {
                assert_eq!(row.pub_date, Timestamp { seconds: now, nanos: 250 });
                store.push(Row {
                    feed_name: row.feed_name,
                    channel_name: row.channel_name,
                    title: row.title,
                    description: row.description,
                    guid: row.guid,
                    inserted_at: row.inserted_at,
                });
                refresh.on_inserted()
            }
            RefreshAction::Done(result) => return result.map_err(Some),
        }
    }
}

const NOW: i64 = 1_700_000_000;

#[test]
fn refreshing_with_no_items_results_in_one_item() {
    let mut store = Vec::new();
    let mut fetches = 0;
    assert!(refresh(&mut store, "website", &website(), Some(PAGE), NOW, &mut fetches).is_ok());
    assert_eq!(store.len(), 1);
    assert_eq!(store[0].channel_name, "website");
    assert_eq!(store[0].feed_name, "website");
    assert_eq!(store[0].title, "This is a website");
    assert_eq!(store[0].description, "<p>And this is content</p>");
    assert_eq!(store[0].inserted_at, NOW + 1);
    assert!(!store[0].guid.is_empty());
}

#[test]
fn refreshing_with_item_of_same_title_results_in_no_update() {
    let mut store = Vec::new();
    let mut fetches = 0;
    assert!(refresh(&mut store, "website", &website(), Some(PAGE), NOW, &mut fetches).is_ok());
    assert_eq!(store.len(), 1);
    assert!(refresh(&mut store, "website", &website(), Some(PAGE), NOW, &mut fetches).is_ok());
    assert_eq!(store.len(), 1);
}

#[test]
fn stale_refresh_with_same_title_stores_nothing_new() {
    let mut store = Vec::new();
    let mut fetches = 0;
    assert!(refresh(&mut store, "website", &website(), Some(PAGE), NOW, &mut fetches).is_ok());
    let later = NOW + 2 * 86400;
    assert!(refresh(&mut store, "website", &website(), Some(PAGE), later, &mut fetches).is_ok());
    assert_eq!(fetches, 2);
    assert_eq!(store.len(), 1);
}

#[test]
fn refreshing_with_one_different_title_results_in_two_items() {
    let mut store = Vec::new();
    let mut fetches = 0;
    assert!(refresh(&mut store, "website", &website(), Some(PAGE), NOW, &mut fetches).is_ok());
    assert_eq!(store.len(), 1);
    store[0].title = "overridden".to_string();
    store[0].inserted_at = 0;
    assert!(refresh(&mut store, "website", &website(), Some(PAGE), NOW, &mut fetches).is_ok());
    assert_eq!(store.len(), 2);
}

#[test]
fn refreshing_while_fresh_does_nothing() {
    let mut store = vec![Row {
        feed_name: "website".to_string(),
        channel_name: "channel".to_string(),
        title: "title".to_string(),
        description: "description".to_string(),
        guid: String::new(),
        inserted_at: NOW,
    }];
    let mut fetches = 0;
    assert!(refresh(&mut store, "website", &website(), None, NOW, &mut fetches).is_ok());
    assert_eq!(fetches, 0);
    assert_eq!(store.len(), 1);
}

#[test]
fn failure_to_find_title_results_in_err() {
    let page = r#"
        <html>
        <h2>Title is misplaced!</h2>
        <p>And this is content</p>
        </html>
    "#;
    let mut store = Vec::new();
    let mut fetches = 0;
    let res = refresh(&mut store, "website", &website(), Some(page), NOW, &mut fetches);
    assert!(matches!(res, Err(Some(RefreshFeedError::MismatchedItemSelection(_)))));
    assert_eq!(store.len(), 0);
}

#[test]
fn failure_to_fetch_webpage_results_in_err() {
    // a 404 gives an empty body, which has no items
    let mut store = Vec::new();
    let mut fetches = 0;
    assert!(refresh(&mut store, "website", &website(), Some(""), NOW, &mut fetches).is_ok());
    assert_eq!(store.len(), 0);
}

#[test]
fn freshness_compares_age_with_stale_after() {
    let day = DurationSettings::Days { days: 1 };
    assert!(!is_fresh(None, NOW, &day));
    assert!(is_fresh(Some(NOW - 86399), NOW, &day));
    assert!(!is_fresh(Some(NOW - 86400), NOW, &day));
    assert!(!is_fresh(Some(NOW - 86400), NOW + 5, &day));
    assert!(is_fresh(Some(NOW + 10), NOW, &day));
    assert!(!is_fresh(Some(i64::MIN), i64::MAX, &day));
    assert!(is_fresh(Some(i64::MAX), i64::MIN, &day));
}

#[test]
fn new_item_row_needs_title_and_description() {
    let item = FeedItem { title: None, description: Some("d".to_string()), link: None, pub_date: None, guid: None };
    assert!(matches!(new_item_row("f", "c", &item, "g".to_string(), Timestamp { seconds: 5, nanos: 0 }, 5), Err(RefreshFeedError::MisshapedRssItem(MissingField::Title))));
    let item = FeedItem { title: Some("t".to_string()), description: None, link: None, pub_date: None, guid: None };
    assert!(matches!(new_item_row("f", "c", &item, "g".to_string(), Timestamp { seconds: 5, nanos: 0 }, 5), Err(RefreshFeedError::MisshapedRssItem(MissingField::Description))));
}

#[test]
fn new_item_row_keeps_an_items_guid_else_takes_the_fresh_one() {
    let item = FeedItem { title: Some("t".to_string()), description: Some("d".to_string()), link: None, pub_date: None, guid: Some("own".to_string()) };
    let row = new_item_row("f", "c", &item, "fresh".to_string(), Timestamp { seconds: 7, nanos: 9 }, 8).ok().unwrap();
    assert_eq!(row.guid, "own");
    assert_eq!((row.feed_name.as_str(), row.channel_name.as_str(), row.title.as_str(), row.description.as_str()), ("f", "c", "t", "d"));
    assert_eq!((row.pub_date, row.inserted_at), (Timestamp { seconds: 7, nanos: 9 }, 8));
    let item = FeedItem { guid: None, ..item };
    assert_eq!(new_item_row("f", "c", &item, "fresh".to_string(), Timestamp { seconds: 7, nanos: 9 }, 8).ok().unwrap().guid, "fresh");
}

#[test]
fn fresh_guids_differ() {
    let mut store = Vec::new();
    let mut fetches = 0;
    let page = "<h1>a</h1><p>x</p><h1>b</h1><p>y</p>";
    assert!(refresh(&mut store, "website", &website(), Some(page), NOW, &mut fetches).is_ok());
    assert_eq!(store.len(), 2);
    assert_ne!(store[0].guid, store[1].guid);
    for row in &store {
        let g: Vec<char> = row.guid.chars().collect();
        assert_eq!(g.len(), 36);
        for (i, c) in g.iter().enumerate() {
            if i == 8 || i == 13 || i == 18 || i == 23 {
                assert_eq!(*c, '-');
            } else {
                assert!(c.is_ascii_digit() || ('a'..='f').contains(c));
            }
        }
        assert_eq!(g[14], '4');
        assert!(matches!(g[19], '8' | '9' | 'a' | 'b'));
    }
}

#[test]
fn repeated_title_on_a_page_is_stored_once() {
    let mut store = Vec::new();
    let mut fetches = 0;
    let page = "<h1>same</h1><p>first</p><h1>same</h1><p>second</p><h1>other</h1><p>third</p>";
    assert!(refresh(&mut store, "website", &website(), Some(page), NOW, &mut fetches).is_ok());
    assert_eq!(store.len(), 2);
    assert_eq!((store[0].title.as_str(), store[0].description.as_str()), ("same", "<p>first</p>"));
    assert_eq!((store[1].title.as_str(), store[1].description.as_str()), ("other", "<p>third</p>"));
}

#[test]
fn stale_refresh_adds_only_new_titles() {
    let mut store = vec![Row {
        feed_name: "website".to_string(),
        channel_name: "website".to_string(),
        title: "old".to_string(),
        description: "<p>o</p>".to_string(),
        guid: String::new(),
        inserted_at: 0,
    }];
    let mut fetches = 0;
    let page = "<h1>old</h1><p>changed</p><h1>new</h1><p>n</p>";
    assert!(refresh(&mut store, "website", &website(), Some(page), NOW, &mut fetches).is_ok());
    let titles: Vec<&str> = store.iter().map(|r| r.title.as_str()).collect();
    assert_eq!(titles, vec!["old", "new"]);
    assert_eq!(store[0].description, "<p>o</p>");
}
