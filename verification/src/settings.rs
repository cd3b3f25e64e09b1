//! The feed settings of the server: for each feed, its channel and the
//! selectors whose matches become the titles and descriptions of its items.
use vstd::prelude::*;
use crate::item::{items_view, FeedItem, ItemFields};
use crate::selector::{selected, SelectorWrapper};
use crate::table::FeedTable;

verus! {

/// How long the newest stored item keeps a feed fresh.
#[derive(Debug, Clone, Copy)]
pub enum DurationSettings {
    Days { days: u32 },
    Hours { hours: u32 },
}

impl DurationSettings {
    /// The length in seconds.
    pub open spec fn spec_seconds(self) -> int {
        match self {
            DurationSettings::Days { days } => days * 86400,
            DurationSettings::Hours { hours } => hours * 3600,
        }
    }

    /// The length in seconds, as `chrono::Duration::days` and
    /// `chrono::Duration::hours` count it.
    pub fn num_seconds(&self) -> (r: i64)
        ensures
            r == self.spec_seconds(),
    {
        match self {
            DurationSettings::Days { days } => *days as i64 * 86400,
            DurationSettings::Hours { hours } => *hours as i64 * 3600,
        }
    }
}

/// A CSS selector and whether its matches are taken without their own tags.
#[derive(Debug)]
pub struct Selector {
    selector: SelectorWrapper,
    inner_html: bool,
}

impl Selector {
    /// The selector's source text.
    pub closed spec fn css(self) -> Seq<char> {
        self.selector.css()
    }

    /// Whether matches are taken without their own tags.
    pub closed spec fn takes_inner_html(self) -> bool {
        self.inner_html
    }

    /// A selector from its parts.
    pub fn new(selector: SelectorWrapper, inner_html: bool) -> (r: Self)
        ensures
            r.css() == selector.css(),
            r.takes_inner_html() == inner_html,
    {
        Selector { selector, inner_html }
    }

    /// What the selector yields from a page.
    pub open spec fn spec_select(self, page: Seq<char>) -> Seq<Seq<char>> {
        selected(page, self.css(), self.takes_inner_html())
    }

    /// The HTML of every match in `page`, in the order in which the parser
    /// created their nodes.
    pub fn select(&self, page: &str) -> (r: Vec<String>)
        ensures
            r.deep_view() == self.spec_select(page@),
    {
        self.selector.select(page, self.inner_html)
    }
}

/// The channel of a feed.
#[derive(Debug)]
pub struct ChannelSettings {
    pub title: String,
    pub link: String,
    pub description: String,
}

/// How the items of a feed are taken from its page.
#[derive(Debug)]
pub struct ItemSettings {
    pub title: Selector,
    pub description: Selector,
    pub guid: Option<String>,
}

/// One feed.
#[derive(Debug)]
pub struct FeedSettings {
    pub stale_after: DurationSettings,
    pub user_agent: Option<String>,
    pub channel: ChannelSettings,
    pub item: ItemSettings,
}

/// A copy of an optional string.
pub fn clone_text(o: &Option<String>) -> (r: Option<String>)
    ensures
        r == *o,
{
    match o {
        Some(s) => Some(s.clone()),
        None => None,
    }
}

impl Clone for Selector {
    fn clone(&self) -> (r: Self)
        ensures
            r.css() == self.css(),
            r.takes_inner_html() == self.takes_inner_html(),
    {
        Selector { selector: self.selector.clone(), inner_html: self.inner_html }
    }
}

impl Clone for ChannelSettings {
    fn clone(&self) -> (r: Self)
        ensures
            r == *self,
    {
        ChannelSettings { title: self.title.clone(), link: self.link.clone(), description: self.description.clone() }
    }
}

/// Two selectors that select alike.
pub open spec fn same_selector(a: Selector, b: Selector) -> bool {
    a.css() == b.css() && a.takes_inner_html() == b.takes_inner_html()
}

/// Two item settings that take items alike.
pub open spec fn same_item_settings(a: ItemSettings, b: ItemSettings) -> bool {
    same_selector(a.title, b.title) && same_selector(a.description, b.description) && a.guid == b.guid
}

/// Two feed settings that agree on everything the feed does.
pub open spec fn same_feed_settings(a: FeedSettings, b: FeedSettings) -> bool {
    &&& a.stale_after == b.stale_after
    &&& a.user_agent == b.user_agent
    &&& a.channel == b.channel
    &&& same_item_settings(a.item, b.item)
}

impl Clone for ItemSettings {
    fn clone(&self) -> (r: Self)
        ensures
            same_item_settings(r, *self),
    {
        ItemSettings { title: self.title.clone(), description: self.description.clone(), guid: clone_text(&self.guid) }
    }
}

impl Clone for FeedSettings {
    fn clone(&self) -> (r: Self)
        ensures
            same_feed_settings(r, *self),
    {
        FeedSettings {
            stale_after: self.stale_after,
            user_agent: clone_text(&self.user_agent),
            channel: self.channel.clone(),
            item: self.item.clone(),
        }
    }
}

/// The settings file: how often to refresh, and the feeds by name.
#[derive(Debug)]
pub struct FixerssSettings {
    refresh_interval: String,
    inner: FeedTable<FeedSettings>,
}

impl FixerssSettings {
    /// The feeds by name.
    pub closed spec fn feeds(self) -> Map<Seq<char>, FeedSettings> {
        self.inner.map()
    }

    /// The feed names, in the order they were added.
    pub closed spec fn names(self) -> Seq<Seq<char>> {
        self.inner.names()
    }

    /// The cron expression of the refresh schedule.
    pub closed spec fn interval(self) -> Seq<char> {
        self.refresh_interval@
    }

    /// The cron expression of the refresh schedule.
    pub fn refresh_interval(&self) -> (r: &str)
        ensures
            r@ == self.interval(),
    {
        self.refresh_interval.as_str()
    }

    /// Settings without feeds.
    pub fn new(refresh_interval: String) -> (r: Self)
        ensures
            r.interval() == refresh_interval@,
            r.feeds() == Map::<Seq<char>, FeedSettings>::empty(),
            r.names() == Seq::<Seq<char>>::empty(),
    {
        FixerssSettings { refresh_interval, inner: FeedTable::new() }
    }

    /// Adds the feed `name`, replacing a feed of that name.
    pub fn insert(&mut self, name: String, feed: FeedSettings)
        ensures
            final(self).interval() == old(self).interval(),
            final(self).feeds() == old(self).feeds().insert(name@, feed),
            old(self).feeds().dom().contains(name@) ==> final(self).names() == old(self).names(),
            !old(self).feeds().dom().contains(name@) ==> final(self).names() == old(self).names().push(name@),
    {
        self.inner.insert(name, feed);
    }

    /// The feed named `name`.
    pub fn get(&self, name: &str) -> (r: Option<&FeedSettings>)
        ensures
            match r {
                Some(feed) => self.feeds().dom().contains(name@) && *feed == self.feeds()[name@],
                None => !self.feeds().dom().contains(name@),
            },
    {
        self.inner.get(name)
    }

    /// The names of all feeds, each once.
    pub fn feed_names(&self) -> (r: Vec<String>)
        ensures
            r.deep_view() == self.names(),
            r.deep_view().no_duplicates(),
            r.deep_view().to_set() == self.feeds().dom(),
    {
        self.inner.feed_names()
    }

    /// The number of feeds.
    pub fn len(&self) -> (r: usize)
        ensures
            r == self.names().len(),
    {
        self.inner.len()
    }
}

/// A lookup after an insert finds the inserted feed, and every other name
/// finds what it found before.
pub proof fn lemma_get_after_insert(
    before: FixerssSettings,
    after: FixerssSettings,
    name: Seq<char>,
    feed: FeedSettings,
    other: Seq<char>,
)
    requires
        after.feeds() == before.feeds().insert(name, feed),
    ensures
        after.feeds().dom().contains(name),
        after.feeds()[name] == feed,
        other != name ==> after.feeds().dom().contains(other) == before.feeds().dom().contains(other),
        other != name && before.feeds().dom().contains(other) ==> after.feeds()[other] == before.feeds()[other],
{
}

/// A stretch of `days` days lasts as long as one of `24 * days` hours.
pub proof fn lemma_day_is_24_hours(days: u32, hours: u32)
    requires
        hours == 24 * days,
    ensures
        (DurationSettings::Days { days }).spec_seconds() == (DurationSettings::Hours { hours }).spec_seconds(),
{
}

/// The selectors found different numbers of titles and descriptions.
#[derive(Debug)]
pub struct ItemSelectionMismatchError;

/// The items made by pairing each title with the description at the same position.
pub open spec fn paired_items(titles: Seq<Seq<char>>, descriptions: Seq<Seq<char>>) -> Seq<ItemFields> {
    Seq::new(
        titles.len(),
        |i: int| (Some(titles[i]), Some(descriptions[i]), None::<Seq<char>>, None::<Seq<char>>, None::<Seq<char>>),
    )
}

/// Pairing makes one item per title, in order: item i has the i-th title and
/// the i-th description and no other field.
pub proof fn lemma_paired_items(titles: Seq<Seq<char>>, descriptions: Seq<Seq<char>>)
    requires
        titles.len() == descriptions.len(),
    ensures
        paired_items(titles, descriptions).len() == titles.len(),
        forall|i: int| 0 <= i < titles.len() ==> #[trigger] paired_items(titles, descriptions)[i] == (
            Some(titles[i]),
            Some(descriptions[i]),
            None::<Seq<char>>,
            None::<Seq<char>>,
            None::<Seq<char>>,
        ),
{
}

/// Pairs the i-th title with the i-th description into the i-th item; the
/// numbers of titles and descriptions must agree.
pub fn pair_items(titles: &Vec<String>, descriptions: &Vec<String>) -> (r: Result<Vec<FeedItem>, ItemSelectionMismatchError>)
    ensures
        r is Err <==> titles@.len() != descriptions@.len(),
        r matches Ok(items) ==> items_view(items@) == paired_items(titles.deep_view(), descriptions.deep_view()),
        r matches Ok(items) ==> items@.len() == titles@.len() && forall|i: int| 0 <= i < items@.len() ==> {
            &&& #[trigger] items@[i].title == Some(titles@[i])
            &&& items@[i].description == Some(descriptions@[i])
            &&& items@[i].link is None && items@[i].pub_date is None && items@[i].guid is None
        },
{
    proof {
        if titles@.len() == descriptions@.len() {
            lemma_paired_items(titles.deep_view(), descriptions.deep_view());
        }
    }
    if titles.len() != descriptions.len() {
        return Err(ItemSelectionMismatchError);
    }
    let mut items: Vec<FeedItem> = Vec::new();
    let mut i: usize = 0;
    while i < titles.len()
        invariant
            i <= titles@.len(),
            titles@.len() == descriptions@.len(),
            items@.len() == i,
            forall|j: int| 0 <= j < i ==> #[trigger] items@[j]@ == paired_items(titles.deep_view(), descriptions.deep_view())[j],
            forall|j: int| 0 <= j < i ==> {
                &&& #[trigger] items@[j].title == Some(titles@[j])
                &&& items@[j].description == Some(descriptions@[j])
                &&& items@[j].link is None && items@[j].pub_date is None && items@[j].guid is None
            },
        decreases titles@.len() - i,
    {
        let item = FeedItem {
            title: Some(titles[i].clone()),
            description: Some(descriptions[i].clone()),
            link: None,
            pub_date: None,
            guid: None,
        };
        items.push(item);
        i = i + 1;
    }
    assert(items_view(items@) =~= paired_items(titles.deep_view(), descriptions.deep_view()));
    Ok(items)
}

/// Takes the items of a feed from its page: one per selected title, paired
/// in the order of their matches with the selected descriptions.
pub fn to_rss_items(page: &str, item_config: &ItemSettings) -> (r: Result<Vec<FeedItem>, ItemSelectionMismatchError>)
    ensures
        r is Err <==> item_config.title.spec_select(page@).len() != item_config.description.spec_select(page@).len(),
        r matches Ok(items) ==> items_view(items@) == paired_items(
            item_config.title.spec_select(page@),
            item_config.description.spec_select(page@),
        ),
{
    let titles = item_config.title.select(page);
    let descriptions = item_config.description.select(page);
    pair_items(&titles, &descriptions)
}

} // verus!
