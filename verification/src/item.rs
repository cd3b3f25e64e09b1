//! RSS items as the library handles them, and their rendering as an RSS channel.
use vstd::prelude::*;

verus! {

/// The fields of an item as plain text: title, description, link,
/// publication date and guid, in that order.
pub type ItemFields = (Option<Seq<char>>, Option<Seq<char>>, Option<Seq<char>>, Option<Seq<char>>, Option<Seq<char>>);

/// The text of an optional string.
pub open spec fn opt_text(o: Option<String>) -> Option<Seq<char>> {
    match o {
        Some(s) => Some(s@),
        None => None,
    }
}

/// An RSS item: the fields of an `<item>` that this library fills.
#[derive(Debug)]
pub struct FeedItem {
    pub title: Option<String>,
    pub description: Option<String>,
    pub link: Option<String>,
    pub pub_date: Option<String>,
    pub guid: Option<String>,
}

impl View for FeedItem {
    type V = ItemFields;

    open spec fn view(&self) -> ItemFields {
        (
            opt_text(self.title),
            opt_text(self.description),
            opt_text(self.link),
            opt_text(self.pub_date),
            opt_text(self.guid),
        )
    }
}

/// The items of a sequence, each as its fields.
pub open spec fn items_view(items: Seq<FeedItem>) -> Seq<ItemFields> {
    items.map_values(|i: FeedItem| i@)
}

/// The XML document that the `rss` crate writes for a channel with these
/// title, description and link and these items (each guid with the
/// `rss::Guid` default of being a permalink).
pub uninterp spec fn rss_channel_xml(
    title: Seq<char>,
    description: Seq<char>,
    link: Seq<char>,
    items: Seq<ItemFields>,
) -> Seq<char>;

/// Builds an `rss::Channel` with the given title, description, link and items
/// and writes it with its `Display` impl (`Channel::write_to`). The result is
/// taken by the name `rss_channel_xml`.
#[verifier::external_body]
pub(crate) fn write_channel(title: &str, description: &str, link: &str, items: &Vec<FeedItem>) -> (r: String)
    ensures
        r@ == rss_channel_xml(title@, description@, link@, items_view(items@)),
{
    let mut channel = rss::Channel::default();
    channel.set_title(title);
    channel.set_description(description);
    channel.set_link(link);
    channel.set_items(items.iter().map(|i| rss::Item {
        title: i.title.clone(), description: i.description.clone(), link: i.link.clone(),
        pub_date: i.pub_date.clone(), guid: i.guid.clone().map(|value| rss::Guid { value, ..Default::default() }),
        ..Default::default()
    }).collect::<Vec<_>>());
    channel.to_string()
}

/// The first second of year 0 and the last second of year 9999, as Unix
/// timestamps: the instants that RFC 2822 can write.
pub open spec fn rfc2822_representable(timestamp: int) -> bool {
    -62167219200 <= timestamp <= 253402300799
}

/// The RFC 2822 text (such as `Tue, 1 Jul 2003 10:52:37 +0000`) that `chrono`
/// writes for the UTC instant `timestamp` seconds after the Unix epoch.
pub uninterp spec fn rfc2822_text(timestamp: int) -> Seq<char>;

/// Calls `chrono::DateTime::from_timestamp(timestamp, 0)` and
/// `DateTime::to_rfc2822`. Within the representable years `from_timestamp`
/// gives `Some` (the default epoch is never used) and `to_rfc2822` does not
/// panic; the text is taken by the name `rfc2822_text`.
#[verifier::external_body]
fn format_rfc2822(timestamp: i64) -> (r: String)
    requires
        rfc2822_representable(timestamp as int),
    ensures
        r@ == rfc2822_text(timestamp as int),
{
    chrono::DateTime::from_timestamp(timestamp, 0).unwrap_or_default().to_rfc2822()
}

/// The RFC 2822 date of a Unix timestamp, or `None` where the year falls
/// outside 0 to 9999.
pub fn rfc2822_date(timestamp: i64) -> (r: Option<String>)
    ensures
        opt_text(r) == (if rfc2822_representable(timestamp as int) {
            Some(rfc2822_text(timestamp as int))
        } else {
            None
        }),
{
    if -62167219200 <= timestamp && timestamp <= 253402300799 {
        Some(format_rfc2822(timestamp))
    } else {
        None
    }
}

} // verus!
