//! What the feed server answers.
use vstd::prelude::*;
use crate::item::{items_view, rfc2822_representable, rfc2822_text, rss_channel_xml, write_channel, ItemFields};
use crate::settings::{same_feed_settings, FeedSettings, FixerssSettings};
use crate::use_case::{load_items, stored_item_fields, StoredItem};

verus! {

/// The HTTP statuses with which a request fails.
#[derive(Debug, PartialEq, Eq, Structural, Clone, Copy)]
pub enum HttpStatus {
    NotFound,
    InternalServerError,
}

/// A body served as `text/xml`.
#[derive(Debug, Clone, Copy)]
pub struct Xml<T>(pub T);

/// The names of all feeds, each once.
pub fn list_feeds(fixerss_settings: &FixerssSettings) -> (r: Vec<String>)
    ensures
        r.deep_view() == fixerss_settings.names(),
        r.deep_view().no_duplicates(),
        r.deep_view().to_set() == fixerss_settings.feeds().dom(),
{
    fixerss_settings.feed_names()
}

/// The feed named in the request path, or `NotFound`.
pub fn find_feed<'a>(fixerss_settings: &'a FixerssSettings, feed_name: &str) -> (r: Result<&'a FeedSettings, HttpStatus>)
    ensures
        match r {
            Ok(feed) => fixerss_settings.feeds().dom().contains(feed_name@)
                && *feed == fixerss_settings.feeds()[feed_name@],
            Err(status) => !fixerss_settings.feeds().dom().contains(feed_name@)
                && status == HttpStatus::NotFound,
        },
{
    match fixerss_settings.get(feed_name) {
        Some(feed) => Ok(feed),
        None => Err(HttpStatus::NotFound),
    }
}

/// The RSS items of the stored rows, in the order given.
pub open spec fn channel_items(feed_settings: FeedSettings, rows: Seq<StoredItem>) -> Seq<ItemFields> {
    rows.map_values(|row: StoredItem| stored_item_fields(row, feed_settings.channel.link@))
}

/// The rendered channel holds one item per stored row, in the order given:
/// item i has row i's title, description and guid, links to the channel, and
/// carries row i's publication date wherever RFC 2822 can write it.
pub proof fn lemma_channel_items(feed_settings: FeedSettings, rows: Seq<StoredItem>)
    ensures
        channel_items(feed_settings, rows).len() == rows.len(),
        forall|i: int| 0 <= i < rows.len() ==> {
            let item = #[trigger] channel_items(feed_settings, rows)[i];
            &&& item.0 == Some(rows[i].title@)
            &&& item.1 == Some(rows[i].description@)
            &&& item.2 == Some(feed_settings.channel.link@)
            &&& item.3 == (if rfc2822_representable(rows[i].pub_date as int) {
                Some(rfc2822_text(rows[i].pub_date as int))
            } else {
                None
            })
            &&& item.4 == Some(rows[i].guid@)
        },
{
}

/// The RSS document of a feed whose newest stored items are `rows`, or
/// `InternalServerError` when the store could not be read (`None`).
pub fn rss_xml(feed_settings: &FeedSettings, rows: Option<Vec<StoredItem>>) -> (r: Result<Xml<String>, HttpStatus>)
    ensures
        match rows {
            None => r matches Err(status) && status == HttpStatus::InternalServerError,
            Some(rows) => r matches Ok(Xml(body)) && body@ == rss_channel_xml(
                feed_settings.channel.title@,
                feed_settings.channel.description@,
                feed_settings.channel.link@,
                channel_items(*feed_settings, rows@),
            ),
        },
{
    match rows {
        None => Err(HttpStatus::InternalServerError),
        Some(rows) => {
            let items = load_items(feed_settings, &rows);
            assert(items_view(items@) =~= channel_items(*feed_settings, rows@));
            let body = write_channel(
                feed_settings.channel.title.as_str(),
                feed_settings.channel.description.as_str(),
                feed_settings.channel.link.as_str(),
                &items,
            );
            Ok(Xml(body))
        },
    }
}

/// The settings of the feed named in a request.
#[derive(Debug)]
pub struct SettingsGuard(FeedSettings);

/// What the settings guard makes of a request.
#[derive(Debug)]
pub enum GuardOutcome {
    /// The request names a known feed.
    Success(SettingsGuard),
    /// The request names no feed: let another route have it.
    Forward,
    /// The request names an unknown feed.
    Failure(HttpStatus),
}

impl SettingsGuard {
    /// The settings held.
    pub closed spec fn settings(self) -> FeedSettings {
        self.0
    }

    /// The settings held.
    pub fn feed(&self) -> (r: &FeedSettings)
        ensures
            *r == self.settings(),
    {
        &self.0
    }

    /// Resolves the feed named by the first path parameter, if there is one.
    pub fn from_request(fixerss_settings: &FixerssSettings, feed_name: Option<&str>) -> (r: GuardOutcome)
        ensures
            match feed_name {
                None => r matches GuardOutcome::Forward,
                Some(name) => if fixerss_settings.feeds().dom().contains(name@) {
                    r matches GuardOutcome::Success(guard)
                        && same_feed_settings(guard.settings(), fixerss_settings.feeds()[name@])
                } else {
                    r matches GuardOutcome::Failure(status) && status == HttpStatus::NotFound
                },
            },
    {
        match feed_name {
            None => GuardOutcome::Forward,
            Some(name) => match fixerss_settings.get(name) {
                None => GuardOutcome::Failure(HttpStatus::NotFound),
                Some(feed) => GuardOutcome::Success(SettingsGuard(feed.clone())),
            },
        }
    }
}

} // verus!
