//! Scrape web pages into RSS feeds: feed configuration, CSS selection of
//! item titles and descriptions, the refresh decisions and the rendering of
//! stored items as an RSS channel.
pub mod config;
pub mod item;
pub mod refresh_laws;
pub mod routes;
pub mod schedule;
pub mod selector;
pub mod server_config;
pub mod settings;
pub mod table;
pub mod use_case;
