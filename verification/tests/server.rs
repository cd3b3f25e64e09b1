use std::str::FromStr;

use fixerss::routes::{find_feed, list_feeds, rss_xml, GuardOutcome, HttpStatus, SettingsGuard, Xml};
use fixerss::schedule::{fuzz, fuzzed, jitter, jitter_seconds, sleep_seconds};
use fixerss::selector::SelectorWrapper;
use fixerss::server_config::{decimal_string, is_in_memory, sqlite_uri, Config, ServerConfig};
use fixerss::settings::{ChannelSettings, DurationSettings, FeedSettings, FixerssSettings, ItemSettings, Selector};
use fixerss::item::rfc2822_date;
use fixerss::use_case::{load_items, StoredItem, ITEMS_PER_FEED};

fn xkcd() -> FeedSettings {
    let selector = |css: &str| Selector::new(SelectorWrapper::parse(css).ok().unwrap(), false);
    FeedSettings {
        stale_after: DurationSettings::Hours { hours: 6 },
        user_agent: Some("fixerss".to_string()),
        channel: ChannelSettings {
            title: "xkcd.com".to_string(),
            link: "https://xkcd.com".to_string(),
            description: "xkcd.com: A webcomic of romance and math humor.".to_string(),
        },
        item: ItemSettings { title: selector("#ctitle"), description: selector("#comic"), guid: None },
    }
}

fn settings() -> FixerssSettings {
    let mut settings = FixerssSettings::new("0 0 * * * *".to_string());
    settings.insert("xkcd".to_string(), xkcd());
    settings
}

#[test]
fn getting_index_returns_list_of_feeds() {
    assert_eq!(list_feeds(&settings()), vec!["xkcd".to_string()]);
}

#[test]
fn unknown_feed_is_not_found() {
    assert!(matches!(find_feed(&settings(), "notfound"), Err(HttpStatus::NotFound)));
    assert_eq!(find_feed(&settings(), "xkcd").ok().unwrap().channel.title, "xkcd.com");
}

#[test]
fn get_rss_xml_of_known_feed_returns_an_empty_rss_channel() {
    let Xml(body) = rss_xml(&xkcd(), Some(vec![])).ok().unwrap();
    let channel = rss::Channel::from_str(&body).unwrap();
    assert_eq!(&channel.title, "xkcd.com");
    assert_eq!(&channel.description, "xkcd.com: A webcomic of romance and math humor.");
    assert_eq!(&channel.link, "https://xkcd.com");
    assert_eq!(channel.items.len(), 0);
}

#[test]
fn rss_xml_holds_the_stored_items() {
    let rows = vec![StoredItem {
        title: "Title".to_string(),
        description: "<p>d</p>".to_string(),
        guid: "abc".to_string(),
        pub_date: 1431648000,
    }];
    let Xml(body) = rss_xml(&xkcd(), Some(rows)).ok().unwrap();
    let channel = rss::Channel::from_str(&body).unwrap();
    assert_eq!(channel.items.len(), 1);
    let item = &channel.items[0];
    assert_eq!(item.title.as_deref(), Some("Title"));
    assert_eq!(item.description.as_deref(), Some("<p>d</p>"));
    assert_eq!(item.link.as_deref(), Some("https://xkcd.com"));
    assert_eq!(item.pub_date.as_deref(), Some("Fri, 15 May 2015 00:00:00 +0000"));
    assert_eq!(item.guid.as_ref().map(|g| g.value.as_str()), Some("abc"));
}

#[test]
fn unreadable_store_is_an_internal_error() {
    assert!(matches!(rss_xml(&xkcd(), None), Err(HttpStatus::InternalServerError)));
}

#[test]
fn loaded_items_link_to_the_channel() {
    let rows = vec![StoredItem { title: "t".to_string(), description: "d".to_string(), guid: "g".to_string(), pub_date: 0 }];
    let items = load_items(&xkcd(), &rows);
    assert_eq!(items.len(), 1);
    assert_eq!(items[0].link.as_deref(), Some("https://xkcd.com"));
    assert_eq!(items[0].pub_date.as_deref(), Some("Thu, 1 Jan 1970 00:00:00 +0000"));
    assert_eq!(items[0].guid.as_deref(), Some("g"));
    assert_eq!(ITEMS_PER_FEED, 3);
}

#[test]
fn dates_outside_rfc2822_years_are_left_out() {
    assert_eq!(rfc2822_date(253402300799).as_deref(), Some("Fri, 31 Dec 9999 23:59:59 +0000"));
    assert!(rfc2822_date(253402300800).is_none());
    assert!(rfc2822_date(-62167219200).is_some());
    assert!(rfc2822_date(-62167219201).is_none());
    assert!(rfc2822_date(i64::MIN).is_none());
}

#[test]
fn settings_guard_resolves_the_named_feed() {
    let s = settings();
    assert!(matches!(SettingsGuard::from_request(&s, None), GuardOutcome::Forward));
    assert!(matches!(SettingsGuard::from_request(&s, Some("nope")), GuardOutcome::Failure(HttpStatus::NotFound)));
    match SettingsGuard::from_request(&s, Some("xkcd")) {
        GuardOutcome::Success(guard) => assert_eq!(guard.feed().channel.link, "https://xkcd.com"),
        _ => panic!("xkcd is a known feed"),
    }
}

#[test]
fn server_config_defaults() {
    let c = ServerConfig::default();
    assert_eq!(c.settings_file, "fixerss.toml");
    assert_eq!(c.history_file, ":memory:");
    assert_eq!(c.address, "0.0.0.0");
    assert_eq!(c.port, 8080);
    assert_eq!(c.socket_address(), "0.0.0.0:8080");
    let c = Config::default();
    assert_eq!(c.feeds, "fixerss.toml");
    assert_eq!(c.history_file, ":memory:");
}

#[test]
fn socket_address_writes_the_port_in_decimal() {
    let c = ServerConfig { settings_file: String::new(), history_file: String::new(), address: "127.0.0.1".to_string(), port: 0 };
    assert_eq!(c.socket_address(), "127.0.0.1:0");
    assert_eq!(decimal_string(65535), "65535");
    assert_eq!(decimal_string(10), "10");
    assert_eq!(decimal_string(7), "7");
}

#[test]
fn item_store_location() {
    assert!(is_in_memory(":memory:"));
    assert!(!is_in_memory("history.db"));
    assert_eq!(sqlite_uri(":memory:"), "sqlite::memory:");
    assert_eq!(sqlite_uri("./history.db"), "sqlite:./history.db");
}

#[test]
fn waits_are_spread() {
    assert_eq!(fuzzed(3600, 2), 3720);
    assert_eq!(jitter(0), 300);
    assert_eq!(jitter(599), 899);
    for _ in 0..100 {
        let r = fuzz(3600, 0, 10);
        assert!(3600 <= r && r < 4200 && (r - 3600) % 60 == 0);
        let j = jitter_seconds();
        assert!(300 <= j && j < 900);
    }
    assert_eq!(sleep_seconds(100, 40), 60);
    assert_eq!(sleep_seconds(40, 100), 3600);
    assert_eq!(sleep_seconds(i64::MAX, i64::MIN), u64::MAX);
}
