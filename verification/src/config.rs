//! The feed specification: for each feed, its channel and how to select the
//! title and description of its single item from the page.
use vstd::prelude::*;
use crate::item::{opt_text, FeedItem};
use crate::selector::{selected, SelectorWrapper};
use crate::table::FeedTable;

verus! {

/// How long a scraped item stays fresh.
#[derive(Debug, Clone, Copy)]
pub enum DurationConfig {
    Days { days: u32 },
    Hours { hours: u32 },
}

impl DurationConfig {
    /// The length in seconds.
    pub open spec fn spec_seconds(self) -> int {
        match self {
            DurationConfig::Days { days } => days * 86400,
            DurationConfig::Hours { hours } => hours * 3600,
        }
    }

    /// The length in seconds, as `chrono::Duration::days` and
    /// `chrono::Duration::hours` count it.
    pub fn num_seconds(&self) -> (r: i64)
        ensures
            r == self.spec_seconds(),
    {
        match self {
            DurationConfig::Days { days } => *days as i64 * 86400,
            DurationConfig::Hours { hours } => *hours as i64 * 3600,
        }
    }
}

/// A selector found nothing in the page.
#[derive(Debug)]
pub struct NoMatchError {
    /// The selector that matched nothing.
    pub css: String,
}

/// The text of an item field: the first match of a selector, a fixed text,
/// or the first match of a selector with a fixed text when nothing matches.
#[derive(Debug)]
pub enum SelectorOrText {
    Selector { css: SelectorWrapper, inner_html: bool },
    Text { text: String },
    SelectorWithFallback { css: SelectorWrapper, text: String, inner_html: bool },
}

impl SelectorOrText {
    /// What the selection yields from the selector's matches: `Ok` with the
    /// text, or `Err` with the selector that matched nothing.
    pub open spec fn spec_pick(self, matches: Seq<Seq<char>>) -> Result<Seq<char>, Seq<char>> {
        match self {
            SelectorOrText::Selector { css, .. } => if matches.len() > 0 {
                Ok(matches[0])
            } else {
                Err(css.css())
            },
            SelectorOrText::Text { text } => Ok(text@),
            SelectorOrText::SelectorWithFallback { text, .. } => if matches.len() > 0 {
                Ok(matches[0])
            } else {
                Ok(text@)
            },
        }
    }

    /// What the selection yields from a page.
    pub open spec fn spec_select(self, page: Seq<char>) -> Result<Seq<char>, Seq<char>> {
        match self {
            SelectorOrText::Selector { css, inner_html } => self.spec_pick(selected(page, css.css(), inner_html)),
            SelectorOrText::Text { .. } => self.spec_pick(Seq::empty()),
            SelectorOrText::SelectorWithFallback { css, inner_html, .. } => self.spec_pick(
                selected(page, css.css(), inner_html),
            ),
        }
    }

    /// Picks the text from the matches of the selector: the first match, else
    /// the fallback text, else a `NoMatchError`. A fixed text ignores them.
    pub fn pick(&self, matches: Vec<String>) -> (r: Result<String, NoMatchError>)
        ensures
            match r {
                Ok(text) => self.spec_pick(matches.deep_view()) == Ok::<Seq<char>, Seq<char>>(text@),
                Err(e) => self.spec_pick(matches.deep_view()) == Err::<Seq<char>, Seq<char>>(e.css@),
            },
    {
        match self {
            SelectorOrText::Selector { css, .. } => {
                if matches.len() > 0 {
                    Ok(matches[0].clone())
                } else {
                    Err(NoMatchError { css: css.as_str().to_owned() })
                }
            },
            SelectorOrText::Text { text } => Ok(text.clone()),
            SelectorOrText::SelectorWithFallback { text, .. } => {
                if matches.len() > 0 {
                    Ok(matches[0].clone())
                } else {
                    Ok(text.clone())
                }
            },
        }
    }

    /// Selects the text from `page`.
    pub fn select(&self, page: &str) -> (r: Result<String, NoMatchError>)
        ensures
            match r {
                Ok(text) => self.spec_select(page@) == Ok::<Seq<char>, Seq<char>>(text@),
                Err(e) => self.spec_select(page@) == Err::<Seq<char>, Seq<char>>(e.css@),
            },
    {
        let matches = match self {
            SelectorOrText::Selector { css, inner_html } => css.select(page, *inner_html),
            SelectorOrText::Text { .. } => {
                let none: Vec<String> = Vec::new();
                assert(none.deep_view() =~= Seq::<Seq<char>>::empty());
                none
            },
            SelectorOrText::SelectorWithFallback { css, inner_html, .. } => css.select(page, *inner_html),
        };
        self.pick(matches)
    }
}

/// A fixed text is selected from every page.
pub proof fn lemma_text_always_selected(text: String, page: Seq<char>)
    ensures
        (SelectorOrText::Text { text }).spec_select(page) == Ok::<Seq<char>, Seq<char>>(text@),
{
}

/// A selector with a fallback text never fails: it yields its first match,
/// or the fallback text when nothing matches.
pub proof fn lemma_fallback_never_fails(css: SelectorWrapper, text: String, inner_html: bool, page: Seq<char>)
    ensures
        ({
            let s = SelectorOrText::SelectorWithFallback { css, text, inner_html };
            let matches = selected(page, css.css(), inner_html);
            &&& s.spec_select(page) is Ok
            &&& matches.len() == 0 ==> s.spec_select(page) == Ok::<Seq<char>, Seq<char>>(text@)
            &&& matches.len() > 0 ==> s.spec_select(page) == Ok::<Seq<char>, Seq<char>>(matches[0])
        }),
{
}

/// A bare selector fails exactly when it matches nothing, and then names itself.
pub proof fn lemma_selector_fails_iff_no_match(css: SelectorWrapper, inner_html: bool, page: Seq<char>)
    ensures
        ({
            let s = SelectorOrText::Selector { css, inner_html };
            let matches = selected(page, css.css(), inner_html);
            &&& s.spec_select(page) is Err <==> matches.len() == 0
            &&& matches.len() == 0 ==> s.spec_select(page) == Err::<Seq<char>, Seq<char>>(css.css())
            &&& matches.len() > 0 ==> s.spec_select(page) == Ok::<Seq<char>, Seq<char>>(matches[0])
        }),
{
}

/// Picking from the matches of a selector takes the first match whenever
/// there is one, with or without a fallback text; only a bare selector
/// without matches fails, naming itself.
pub proof fn lemma_pick_takes_first_match(s: SelectorOrText, matches: Seq<Seq<char>>)
    ensures
        !(s is Text) && matches.len() > 0 ==> s.spec_pick(matches) == Ok::<Seq<char>, Seq<char>>(matches[0]),
        s.spec_pick(matches) is Err <==> (s is Selector && matches.len() == 0),
        matches.len() == 0 ==> (s matches SelectorOrText::Selector { css, .. } ==> s.spec_pick(matches)
            == Err::<Seq<char>, Seq<char>>(css.css())),
        matches.len() == 0 ==> (s matches SelectorOrText::SelectorWithFallback { text, .. } ==> s.spec_pick(matches)
            == Ok::<Seq<char>, Seq<char>>(text@)),
        s matches SelectorOrText::Text { text } ==> s.spec_pick(matches) == Ok::<Seq<char>, Seq<char>>(text@),
{
}

/// The channel of a feed.
#[derive(Debug)]
pub struct ChannelConfig {
    pub title: String,
    pub link: String,
    pub description: String,
}

/// How the item of a feed is taken from its page.
#[derive(Debug)]
pub struct ItemConfig {
    pub title: SelectorOrText,
    pub description: SelectorOrText,
    pub guid: Option<String>,
}

/// One feed of the specification.
#[derive(Debug)]
pub struct RssConfig {
    pub stale_after: DurationConfig,
    pub user_agent: Option<String>,
    pub channel: ChannelConfig,
    pub item: ItemConfig,
}

/// Why no item could be taken from a page.
#[derive(Debug)]
pub enum ItemError {
    /// The title selector matched nothing.
    Title(NoMatchError),
    /// The description selector matched nothing.
    Description(NoMatchError),
}

/// Whether `r` is what `to_rss_item` owes for `page`: an item with the
/// selected title and description, else the first field whose selector
/// matched nothing.
pub open spec fn rss_item_outcome(
    item_config: ItemConfig,
    page: Seq<char>,
    r: Result<FeedItem, ItemError>,
) -> bool {
    match (item_config.title.spec_select(page), item_config.description.spec_select(page)) {
        (Ok(title), Ok(description)) => r matches Ok(item) && item@ == (
            Some(title),
            Some(description),
            None::<Seq<char>>,
            None::<Seq<char>>,
            None::<Seq<char>>,
        ),
        (Err(css), _) => r matches Err(ItemError::Title(e)) && e.css@ == css,
        (Ok(_), Err(css)) => r matches Err(ItemError::Description(e)) && e.css@ == css,
    }
}

/// An item is taken from a page exactly when both of its fields are
/// selected. Its title is then the title's selection and its description the
/// description's; when the title's selection fails the error names the title
/// selector, whatever the description selects, and otherwise a failing
/// description names the description selector.
pub proof fn lemma_rss_item_needs_both_fields(item_config: ItemConfig, page: Seq<char>, r: Result<FeedItem, ItemError>)
    requires
        rss_item_outcome(item_config, page, r),
    ensures
        r is Ok <==> (item_config.title.spec_select(page) is Ok && item_config.description.spec_select(page) is Ok),
        r matches Ok(item) ==> Ok::<Seq<char>, Seq<char>>(item.title->Some_0@) == item_config.title.spec_select(page)
            && item.title is Some,
        r matches Ok(item) ==> Ok::<Seq<char>, Seq<char>>(item.description->Some_0@) == item_config.description.spec_select(page)
            && item.description is Some,
        r matches Ok(item) ==> item.link is None && item.pub_date is None && item.guid is None,
        item_config.title.spec_select(page) matches Err(css) ==> (r matches Err(ItemError::Title(e)) && e.css@ == css),
        item_config.title.spec_select(page) is Ok ==> (item_config.description.spec_select(page) matches Err(css) ==> (
            r matches Err(ItemError::Description(e)) && e.css@ == css)),
{
    if let Ok(item) = r {
        assert(opt_text(item.title) == Some(item_config.title.spec_select(page)->Ok_0));
        assert(opt_text(item.description) == Some(item_config.description.spec_select(page)->Ok_0));
        assert(opt_text(item.link) is None && opt_text(item.pub_date) is None && opt_text(item.guid) is None);
    }
}

/// Takes the item of a feed from its page: its title and description.
pub fn to_rss_item(page: &str, item_config: &ItemConfig) -> (r: Result<FeedItem, ItemError>)
    ensures
        rss_item_outcome(*item_config, page@, r),
{
    let title = match item_config.title.select(page) {
        Ok(title) => title,
        Err(e) => return Err(ItemError::Title(e)),
    };
    let description = match item_config.description.select(page) {
        Ok(description) => description,
        Err(e) => return Err(ItemError::Description(e)),
    };
    Ok(FeedItem { title: Some(title), description: Some(description), link: None, pub_date: None, guid: None })
}

/// Pages from which an RSS item can be taken.
pub trait StringExt {
    /// The text of the page.
    spec fn page_text(&self) -> Seq<char>;

    /// Takes the item of a feed from this page.
    fn to_rss_item(&self, item_config: &ItemConfig) -> (r: Result<FeedItem, ItemError>)
        ensures
            rss_item_outcome(*item_config, self.page_text(), r),
    ;
}

impl StringExt for &str {
    open spec fn page_text(&self) -> Seq<char> {
        (**self)@
    }

    fn to_rss_item(&self, item_config: &ItemConfig) -> (r: Result<FeedItem, ItemError>) {
        to_rss_item(*self, item_config)
    }
}

/// The feed specification: feeds by name.
#[derive(Debug)]
pub struct FixerssConfig {
    inner: FeedTable<RssConfig>,
}

impl FixerssConfig {
    /// The feeds by name.
    pub closed spec fn feeds(self) -> Map<Seq<char>, RssConfig> {
        self.inner.map()
    }

    /// The feed names, in the order they were added.
    pub closed spec fn names(self) -> Seq<Seq<char>> {
        self.inner.names()
    }

    /// A specification without feeds.
    pub fn new() -> (r: Self)
        ensures
            r.feeds() == Map::<Seq<char>, RssConfig>::empty(),
            r.names() == Seq::<Seq<char>>::empty(),
    {
        FixerssConfig { inner: FeedTable::new() }
    }

    /// Adds the feed `name`, replacing a feed of that name.
    pub fn insert(&mut self, name: String, feed: RssConfig)
        ensures
            final(self).feeds() == old(self).feeds().insert(name@, feed),
            old(self).feeds().dom().contains(name@) ==> final(self).names() == old(self).names(),
            !old(self).feeds().dom().contains(name@) ==> final(self).names() == old(self).names().push(name@),
    {
        self.inner.insert(name, feed);
    }

    /// The feed named `name`.
    pub fn get(&self, name: &str) -> (r: Option<&RssConfig>)
        ensures
            match r {
                Some(feed) => self.feeds().dom().contains(name@) && *feed == self.feeds()[name@],
                None => !self.feeds().dom().contains(name@),
            },
    {
        self.inner.get(name)
    }

    /// The names of all feeds, each once.
    pub fn feed_names(&self) -> (r: Vec<String>)
        ensures
            r.deep_view() == self.names(),
            r.deep_view().no_duplicates(),
            r.deep_view().to_set() == self.feeds().dom(),
    {
        self.inner.feed_names()
    }

    /// The names of the feeds to run: all of them, or only `only` when it is given.
    pub fn feeds_to_run(&self, only: Option<&str>) -> (r: Vec<String>)
        ensures
            r.deep_view() == match only {
                None => self.names(),
                Some(name) => self.names().filter(|n: Seq<char>| n == name@),
            },
    {
        let names = self.inner.feed_names();
        match only {
            None => names,
            Some(name) => {
                let wanted = name.to_owned();
                let ghost all = names.deep_view();
                let mut r: Vec<String> = Vec::new();
                let mut i: usize = 0;
                while i < names.len()
                    invariant
                        i <= names@.len(),
                        all == names.deep_view(),
                        wanted@ == name@,
                        r.deep_view() == all.take(i as int).filter(|n: Seq<char>| n == name@),
                    decreases names@.len() - i,
                {
                    proof {
                        assert(all.take(i + 1).drop_last() =~= all.take(i as int));
                        reveal_with_fuel(Seq::filter, 1);
                    }
                    if names[i] == wanted {
                        let n = names[i].clone();
                        let ghost before = r.deep_view();
                        r.push(n);
                        assert(r.deep_view() =~= before.push(all[i as int]));
                    }
                    i = i + 1;
                }
                assert(all.take(i as int) =~= all);
                r
            },
        }
    }

    /// The number of feeds.
    pub fn len(&self) -> (r: usize)
        ensures
            r == self.names().len(),
    {
        self.inner.len()
    }
}

} // verus!
