//! Refreshing a feed and loading its stored items.
//!
//! A refresh alternates reads and writes of the item store and a page fetch
//! with decisions. The decisions are made here, by `FeedRefresh`, one event
//! at a time: each method takes the outcome of the last action and returns
//! the next action, until the action is `Done`.
use vstd::prelude::*;
use crate::item::{items_view, opt_text, rfc2822_date, rfc2822_representable, rfc2822_text, FeedItem, ItemFields};
use crate::settings::{
    clone_text, lemma_paired_items, paired_items, same_feed_settings, to_rss_items, DurationSettings, FeedSettings,
    ItemSelectionMismatchError,
};

verus! {

/// Whether a feed whose newest stored item was inserted at `last_inserted_at`
/// (a Unix timestamp, `None` when the store is empty) is still fresh at `now`.
pub open spec fn spec_is_fresh(last_inserted_at: Option<i64>, now: int, stale_after: int) -> bool {
    match last_inserted_at {
        Some(then) => now - then < stale_after,
        None => false,
    }
}

/// A feed that is stale stays stale as time goes on.
pub proof fn lemma_stale_stays_stale(last_inserted_at: Option<i64>, now: int, later: int, stale_after: int)
    requires
        now <= later,
        !spec_is_fresh(last_inserted_at, now, stale_after),
    ensures
        !spec_is_fresh(last_inserted_at, later, stale_after),
{
}

/// A feed whose store is empty is never fresh.
pub proof fn lemma_empty_store_is_stale(now: int, stale_after: int)
    ensures
        !spec_is_fresh(None, now, stale_after),
{
}

/// Whether the newest stored item is younger than `stale_after` at `now`.
pub fn is_fresh(last_inserted_at: Option<i64>, now: i64, stale_after: &DurationSettings) -> (r: bool)
    ensures
        r == spec_is_fresh(last_inserted_at, now as int, stale_after.spec_seconds()),
{
    match last_inserted_at {
        Some(then) => (now as i128) - (then as i128) < stale_after.num_seconds() as i128,
        None => false,
    }
}

/// An item field that a new item lacks.
#[derive(Debug, PartialEq, Eq, Structural, Clone, Copy)]
pub enum MissingField {
    Title,
    Description,
}

/// Why a refresh failed after its page was fetched.
#[derive(Debug)]
pub enum RefreshFeedError {
    /// The page held different numbers of titles and descriptions.
    MismatchedItemSelection(ItemSelectionMismatchError),
    /// A new item lacks a field that the store needs.
    MisshapedRssItem(MissingField),
}

/// An instant: whole seconds since the Unix epoch and the nanoseconds past them.
#[derive(Debug, PartialEq, Eq, Structural, Clone, Copy)]
pub struct Timestamp {
    pub seconds: i64,
    pub nanos: u32,
}

/// A row to add to the item store.
#[derive(Debug)]
pub struct NewItem {
    pub feed_name: String,
    pub channel_name: String,
    pub title: String,
    pub description: String,
    pub guid: String,
    /// The publication date.
    pub pub_date: Timestamp,
    /// When the row is inserted, as a Unix timestamp.
    pub inserted_at: i64,
}

/// Whether `row` stores `item` of the feed `feed_name` of channel
/// `channel_name`, published at `pub_date` and inserted at `inserted_at`: the
/// guid is the item's own where it has one.
pub open spec fn stores_item(
    row: NewItem,
    feed_name: Seq<char>,
    channel_name: Seq<char>,
    item: ItemFields,
    pub_date: Timestamp,
    inserted_at: int,
) -> bool {
    &&& row.feed_name@ == feed_name
    &&& row.channel_name@ == channel_name
    &&& Some(row.title@) == item.0
    &&& Some(row.description@) == item.1
    &&& (item.4 matches Some(guid) ==> row.guid@ == guid)
    &&& row.pub_date == pub_date
    &&& row.inserted_at == inserted_at
}

/// What becomes of a new item: the field it lacks, else a row that stores it.
pub open spec fn new_item_outcome(
    feed_name: Seq<char>,
    channel_name: Seq<char>,
    item: ItemFields,
    pub_date: Timestamp,
    inserted_at: int,
    r: Result<NewItem, RefreshFeedError>,
) -> bool {
    if item.0 is None {
        r matches Err(RefreshFeedError::MisshapedRssItem(MissingField::Title))
    } else if item.1 is None {
        r matches Err(RefreshFeedError::MisshapedRssItem(MissingField::Description))
    } else {
        r matches Ok(row) && stores_item(row, feed_name, channel_name, item, pub_date, inserted_at)
    }
}

/// The row that stores a new item, published at `pub_date` and inserted at
/// `inserted_at`, with `fresh_guid` as its guid where the item has none.
pub fn new_item_row(
    feed_name: &str,
    channel_name: &str,
    item: &FeedItem,
    fresh_guid: String,
    pub_date: Timestamp,
    inserted_at: i64,
) -> (r: Result<NewItem, RefreshFeedError>)
    ensures
        new_item_outcome(feed_name@, channel_name@, item@, pub_date, inserted_at as int, r),
        item.guid is None ==> (r matches Ok(row) ==> row.guid@ == fresh_guid@),
{
    let title = match &item.title {
        Some(title) => title.clone(),
        None => return Err(RefreshFeedError::MisshapedRssItem(MissingField::Title)),
    };
    let description = match &item.description {
        Some(description) => description.clone(),
        None => return Err(RefreshFeedError::MisshapedRssItem(MissingField::Description)),
    };
    let guid = match &item.guid {
        Some(guid) => guid.clone(),
        None => fresh_guid,
    };
    Ok(NewItem {
        feed_name: feed_name.to_owned(),
        channel_name: channel_name.to_owned(),
        title,
        description,
        guid,
        pub_date,
        inserted_at,
    })
}

/// A lowercase hexadecimal digit.
pub open spec fn is_lower_hex(c: char) -> bool {
    ('0' <= c && c <= '9') || ('a' <= c && c <= 'f')
}

/// The hyphenated lowercase text of a random (version 4, RFC 4122 variant)
/// UUID: 32 hexadecimal digits in groups of 8, 4, 4, 4 and 12 joined by
/// hyphens, with the version digit `4` and a variant digit among `8`, `9`,
/// `a` and `b`.
pub open spec fn is_uuid_v4_text(s: Seq<char>) -> bool {
    &&& s.len() == 36
    &&& forall|i: int| 0 <= i < 36 ==> (if i == 8 || i == 13 || i == 18 || i == 23 {
        #[trigger] s[i] == '-'
    } else {
        is_lower_hex(s[i])
    })
    &&& s[14] == '4'
    &&& (s[19] == '8' || s[19] == '9' || s[19] == 'a' || s[19] == 'b')
}

/// Calls `uuid::Uuid::new_v4` and writes it with its `Display` impl, which
/// writes the hyphenated lowercase form (`LowerHex` over `as_hyphenated`).
/// `new_v4` sets the version bits to 4 and the variant bits to RFC 4122; the
/// other bits are random, so only the form of the text is stated.
#[verifier::external_body]
fn fresh_guid() -> (r: String)
    ensures
        is_uuid_v4_text(r@),
{
    uuid::Uuid::new_v4().to_string()
}

/// What a refresh does next.
#[derive(Debug)]
pub enum RefreshAction {
    /// Read the `inserted_at` of the newest stored item, then call `on_last_fetch`.
    LoadLastFetch,
    /// Fetch the page at `url`, sending `user_agent` as the User-Agent header
    /// where it is given, then call `on_page` with its text.
    Fetch { url: String, user_agent: Option<String> },
    /// Ask whether an item of this feed with this title is stored, then call `on_lookup`.
    LookUp { feed_name: String, title: Option<String> },
    /// Store the row, then call `on_inserted`.
    Insert(NewItem),
    /// The refresh is over.
    Done(Result<(), RefreshFeedError>),
}

/// Where a refresh stands.
#[derive(Debug, PartialEq, Eq, Structural, Clone, Copy)]
pub enum RefreshPhase {
    Start,
    AwaitLastFetch,
    AwaitPage,
    AwaitLookUp,
    AwaitInsert,
    Finished,
}

/// The decisions of one refresh of one feed.
#[derive(Debug)]
pub struct FeedRefresh {
    feed_name: String,
    feed: FeedSettings,
    phase: RefreshPhase,
    items: Vec<FeedItem>,
    position: usize,
}

impl FeedRefresh {
    /// The name of the feed being refreshed.
    pub closed spec fn name(self) -> Seq<char> {
        self.feed_name@
    }

    /// The settings of the feed being refreshed.
    pub closed spec fn settings(self) -> FeedSettings {
        self.feed
    }

    /// Where the refresh stands.
    pub closed spec fn phase(self) -> RefreshPhase {
        self.phase
    }

    /// The items taken from the page, in page order.
    pub closed spec fn pending(self) -> Seq<ItemFields> {
        items_view(self.items@)
    }

    /// The position, among the pending items, of the item being looked up or inserted.
    pub closed spec fn position(self) -> int {
        self.position as int
    }

    /// An item is being looked up or inserted only while one is left.
    #[verifier::type_invariant]
    spec fn position_in_range(self) -> bool {
        &&& (self.phase == RefreshPhase::AwaitLookUp || self.phase == RefreshPhase::AwaitInsert) ==> self.position
            < self.items@.len()
        &&& (self.phase == RefreshPhase::Start || self.phase == RefreshPhase::AwaitLastFetch || self.phase
            == RefreshPhase::AwaitPage) ==> self.items@.len() == 0
    }

    /// Where the refresh stands.
    pub fn current_phase(&self) -> (r: RefreshPhase)
        ensures
            r == self.phase(),
    {
        self.phase
    }

    /// The most events that the refresh can still take once its page is read.
    pub open spec fn events_left(self) -> int {
        match self.phase() {
            RefreshPhase::AwaitLookUp => 2 * (self.pending().len() - self.position()),
            RefreshPhase::AwaitInsert => 2 * (self.pending().len() - self.position()) - 1,
            _ => 0,
        }
    }

    /// The action that looks up the pending item at `position`, or ends the
    /// refresh when no item is left.
    pub open spec fn look_up_or_done(self, r: RefreshAction) -> bool {
        if self.position() < self.pending().len() {
            &&& self.phase() == RefreshPhase::AwaitLookUp
            &&& r matches RefreshAction::LookUp { feed_name, title }
            &&& feed_name@ == self.name()
            &&& opt_text(title) == self.pending()[self.position()].0
        } else {
            &&& self.phase() == RefreshPhase::Finished
            &&& r matches RefreshAction::Done(Ok(()))
        }
    }

    /// A refresh of the feed `feed_name`.
    pub fn new(feed_name: &str, feed: &FeedSettings) -> (r: Self)
        ensures
            r.phase() == RefreshPhase::Start,
            r.name() == feed_name@,
            same_feed_settings(r.settings(), *feed),
            r.pending() == Seq::<ItemFields>::empty(),
    {
        let r = FeedRefresh {
            feed_name: feed_name.to_owned(),
            feed: feed.clone(),
            phase: RefreshPhase::Start,
            items: Vec::new(),
            position: 0,
        };
        assert(r.pending() =~= Seq::<ItemFields>::empty());
        r
    }

    /// The first action: read when the feed was last stored to.
    pub fn start(&mut self) -> (r: RefreshAction)
        requires
            old(self).phase() == RefreshPhase::Start,
        ensures
            r matches RefreshAction::LoadLastFetch,
            final(self).phase() == RefreshPhase::AwaitLastFetch,
            final(self).name() == old(self).name(),
            final(self).settings() == old(self).settings(),
            final(self).pending() == old(self).pending(),
    {
        proof {
            use_type_invariant(&*self);
        }
        self.phase = RefreshPhase::AwaitLastFetch;
        RefreshAction::LoadLastFetch
    }

    /// Decides on the newest `inserted_at` in the store, read at `now`: a
    /// fresh feed is done without a fetch, any other is fetched.
    pub fn on_last_fetch(&mut self, last_inserted_at: Option<i64>, now: i64) -> (r: RefreshAction)
        requires
            old(self).phase() == RefreshPhase::AwaitLastFetch,
        ensures
            final(self).name() == old(self).name(),
            final(self).settings() == old(self).settings(),
            final(self).pending() == old(self).pending(),
            if spec_is_fresh(last_inserted_at, now as int, old(self).settings().stale_after.spec_seconds()) {
                &&& r matches RefreshAction::Done(Ok(()))
                &&& final(self).phase() == RefreshPhase::Finished
            } else {
                &&& r matches RefreshAction::Fetch { url, user_agent }
                &&& url@ == old(self).settings().channel.link@
                &&& opt_text(user_agent) == opt_text(old(self).settings().user_agent)
                &&& final(self).phase() == RefreshPhase::AwaitPage
            },
    {
        proof {
            use_type_invariant(&*self);
        }
        if is_fresh(last_inserted_at, now, &self.feed.stale_after) {
            self.phase = RefreshPhase::Finished;
            RefreshAction::Done(Ok(()))
        } else {
            self.phase = RefreshPhase::AwaitPage;
            RefreshAction::Fetch { url: self.feed.channel.link.clone(), user_agent: clone_text(&self.feed.user_agent) }
        }
    }

    /// Takes the items from the fetched page. Different numbers of titles and
    /// descriptions end the refresh with an error; otherwise the items are
    /// looked up one by one, in the order of their matches.
    pub fn on_page(&mut self, page: &str) -> (r: RefreshAction)
        requires
            old(self).phase() == RefreshPhase::AwaitPage,
        ensures
            page_outcome(*old(self), *final(self), page@, r),
    {
        proof {
            use_type_invariant(&*self);
        }
        match to_rss_items(page, &self.feed.item) {
            Err(e) => {
                self.phase = RefreshPhase::Finished;
                assert(self.pending() =~= Seq::<ItemFields>::empty());
                RefreshAction::Done(Err(RefreshFeedError::MismatchedItemSelection(e)))
            },
            Ok(items) => {
                self.phase = RefreshPhase::Finished;
                self.items = items;
                self.position = 0;
                self.look_up_current()
            },
        }
    }

    /// Looks up the item at `position`, or ends the refresh when none is left.
    fn look_up_current(&mut self) -> (r: RefreshAction)
        requires
            old(self).phase() == RefreshPhase::Finished,
            old(self).position <= old(self).items@.len(),
        ensures
            final(self).name() == old(self).name(),
            final(self).settings() == old(self).settings(),
            final(self).pending() == old(self).pending(),
            final(self).position() == old(self).position(),
            final(self).look_up_or_done(r),
    {
        if self.position < self.items.len() {
            self.phase = RefreshPhase::AwaitLookUp;
            let title = clone_text(&self.items[self.position].title);
            RefreshAction::LookUp { feed_name: self.feed_name.clone(), title }
        } else {
            RefreshAction::Done(Ok(()))
        }
    }

    /// Decides on the item being looked up: a stored title is skipped;
    /// otherwise the item is stored, published at `pub_date` and inserted at
    /// `inserted_at`, or the refresh ends with the field that the item lacks.
    /// An item without a guid is stored under a fresh random UUID.
    pub fn on_lookup(&mut self, exists: bool, pub_date: Timestamp, inserted_at: i64) -> (r: RefreshAction)
        requires
            old(self).phase() == RefreshPhase::AwaitLookUp,
        ensures
            lookup_outcome(*old(self), *final(self), exists, pub_date, inserted_at as int, r),
            r matches RefreshAction::Insert(row) ==> (old(self).pending()[old(self).position()].4 is None
                ==> is_uuid_v4_text(row.guid@)),
    {
        proof {
            use_type_invariant(&*self);
        }
        let count = self.items.len();
        if exists {
            assert(self.position < count);
            self.phase = RefreshPhase::Finished;
            self.position = self.position + 1;
            return self.look_up_current();
        }
        let guid = match &self.items[self.position].guid {
            Some(_) => String::new(),
            None => fresh_guid(),
        };
        match new_item_row(
            self.feed_name.as_str(),
            self.feed.channel.title.as_str(),
            &self.items[self.position],
            guid,
            pub_date,
            inserted_at,
        ) {
            Ok(row) => {
                self.phase = RefreshPhase::AwaitInsert;
                RefreshAction::Insert(row)
            },
            Err(e) => {
                self.phase = RefreshPhase::Finished;
                RefreshAction::Done(Err(e))
            },
        }
    }

    /// Moves on to the next item once a row is stored.
    pub fn on_inserted(&mut self) -> (r: RefreshAction)
        requires
            old(self).phase() == RefreshPhase::AwaitInsert,
        ensures
            inserted_outcome(*old(self), *final(self), r),
    {
        proof {
            use_type_invariant(&*self);
        }
        let count = self.items.len();
        assert(self.position < count);
        self.phase = RefreshPhase::Finished;
        self.position = self.position + 1;
        self.look_up_current()
    }
}

/// What `on_page` does with `page`: with different numbers of selected titles
/// and descriptions the refresh ends with `MismatchedItemSelection`;
/// otherwise the pending items are the paired selections and the first is
/// looked up (or the refresh is done when there are none).
pub open spec fn page_outcome(before: FeedRefresh, after: FeedRefresh, page: Seq<char>, r: RefreshAction) -> bool {
    let titles = before.settings().item.title.spec_select(page);
    let descriptions = before.settings().item.description.spec_select(page);
    &&& after.name() == before.name()
    &&& after.settings() == before.settings()
    &&& if titles.len() != descriptions.len() {
        &&& r matches RefreshAction::Done(Err(RefreshFeedError::MismatchedItemSelection(_)))
        &&& after.phase() == RefreshPhase::Finished
        &&& after.pending() == Seq::<ItemFields>::empty()
    } else {
        &&& after.pending() == paired_items(titles, descriptions)
        &&& after.position() == 0
        &&& after.look_up_or_done(r)
        &&& after.events_left() <= 2 * titles.len()
    }
}

/// A page ends the refresh with `MismatchedItemSelection`, leaving nothing
/// pending, exactly when its titles and descriptions differ in number, which
/// is exactly when `to_rss_items` refuses it; otherwise one item is pending per
/// title, item i holding the i-th title and the i-th description, and the
/// refresh goes on without error.
pub proof fn lemma_page_mismatch(before: FeedRefresh, after: FeedRefresh, page: Seq<char>, r: RefreshAction)
    requires
        page_outcome(before, after, page, r),
    ensures
        ({
            let titles = before.settings().item.title.spec_select(page);
            let descriptions = before.settings().item.description.spec_select(page);
            &&& (r matches RefreshAction::Done(Err(RefreshFeedError::MismatchedItemSelection(_)))) <==> titles.len()
                != descriptions.len()
            &&& titles.len() != descriptions.len() ==> after.pending().len() == 0 && after.phase() == RefreshPhase::Finished
            &&& !(r matches RefreshAction::Done(Err(_))) <==> titles.len() == descriptions.len()
            &&& titles.len() == descriptions.len() ==> {
                &&& after.pending().len() == titles.len()
                &&& forall|i: int| 0 <= i < titles.len() ==> (#[trigger] after.pending()[i]).0 == Some(titles[i])
                    && after.pending()[i].1 == Some(descriptions[i])
            }
        }),
{
    let titles = before.settings().item.title.spec_select(page);
    let descriptions = before.settings().item.description.spec_select(page);
    if titles.len() == descriptions.len() {
        lemma_paired_items(titles, descriptions);
    }
}

/// What `on_lookup` does: a stored title moves on to the next item; an item
/// that lacks its title or description ends the refresh with that field;
/// any other item is stored by an `Insert` of a row that `stores_item` it.
pub open spec fn lookup_outcome(
    before: FeedRefresh,
    after: FeedRefresh,
    exists: bool,
    pub_date: Timestamp,
    inserted_at: int,
    r: RefreshAction,
) -> bool {
    &&& after.name() == before.name()
    &&& after.settings() == before.settings()
    &&& after.pending() == before.pending()
    &&& after.events_left() < before.events_left()
    &&& exists ==> after.position() == before.position() + 1 && after.look_up_or_done(r)
    &&& !exists ==> ({
        let item = before.pending()[before.position()];
        let channel_name = before.settings().channel.title@;
        if item.0 is None {
            &&& r matches RefreshAction::Done(Err(RefreshFeedError::MisshapedRssItem(MissingField::Title)))
            &&& after.phase() == RefreshPhase::Finished
        } else if item.1 is None {
            &&& r matches RefreshAction::Done(Err(RefreshFeedError::MisshapedRssItem(MissingField::Description)))
            &&& after.phase() == RefreshPhase::Finished
        } else {
            &&& r matches RefreshAction::Insert(row)
            &&& stores_item(row, before.name(), channel_name, item, pub_date, inserted_at)
            &&& after.phase() == RefreshPhase::AwaitInsert
            &&& after.position() == before.position()
        }
    })
}

/// What `on_inserted` does: it moves on to the next item, which is looked up,
/// or ends the refresh when none is left.
pub open spec fn inserted_outcome(before: FeedRefresh, after: FeedRefresh, r: RefreshAction) -> bool {
    &&& after.name() == before.name()
    &&& after.settings() == before.settings()
    &&& after.pending() == before.pending()
    &&& after.position() == before.position() + 1
    &&& after.events_left() < before.events_left()
    &&& after.look_up_or_done(r)
}

/// The number of stored items that a feed shows, newest first.
pub const ITEMS_PER_FEED: i64 = 3;

/// A stored item as the store gives it back.
#[derive(Debug)]
pub struct StoredItem {
    pub title: String,
    pub description: String,
    pub guid: String,
    /// The publication date, as a Unix timestamp.
    pub pub_date: i64,
}

/// The RSS item of a stored item of a feed whose channel links to `link`.
pub open spec fn stored_item_fields(row: StoredItem, link: Seq<char>) -> ItemFields {
    (
        Some(row.title@),
        Some(row.description@),
        Some(link),
        if rfc2822_representable(row.pub_date as int) { Some(rfc2822_text(row.pub_date as int)) } else { None },
        Some(row.guid@),
    )
}

/// The RSS item of one stored item.
pub fn load_item(row: &StoredItem, link: &str) -> (r: FeedItem)
    ensures
        r@ == stored_item_fields(*row, link@),
{
    FeedItem {
        title: Some(row.title.clone()),
        description: Some(row.description.clone()),
        link: Some(link.to_owned()),
        pub_date: rfc2822_date(row.pub_date),
        guid: Some(row.guid.clone()),
    }
}

/// The RSS items of the stored items of a feed, in the order given.
pub fn load_items(feed_settings: &FeedSettings, rows: &Vec<StoredItem>) -> (r: Vec<FeedItem>)
    ensures
        r@.len() == rows@.len(),
        forall|i: int| 0 <= i < rows@.len() ==> #[trigger] r@[i]@ == stored_item_fields(rows@[i], feed_settings.channel.link@),
{
    let mut r: Vec<FeedItem> = Vec::new();
    let mut i: usize = 0;
    while i < rows.len()
        invariant
            i <= rows@.len(),
            r@.len() == i,
            forall|j: int| 0 <= j < i ==> #[trigger] r@[j]@ == stored_item_fields(rows@[j], feed_settings.channel.link@),
        decreases rows@.len() - i,
    {
        let item = load_item(&rows[i], feed_settings.channel.link.as_str());
        r.push(item);
        i = i + 1;
    }
    r
}

} // verus!
