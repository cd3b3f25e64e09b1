//! What a refresh does to the item store, over the whole run.
//!
//! The store is seen as a sequence of rows (feed name, title, description).
//! A refresh is driven one step at a time: the driver answers each `LookUp`
//! with whether the store holds a row of that feed and title, and applies
//! each `Insert` to the store. The laws below follow the steps' contracts
//! (`page_outcome`, `lookup_outcome`, `inserted_outcome`) through the run and
//! say what the store holds when the refresh is done.
use vstd::prelude::*;
use crate::item::ItemFields;
use crate::use_case::{
    inserted_outcome, lookup_outcome, page_outcome, FeedRefresh, NewItem, RefreshAction, RefreshPhase, Timestamp,
};

verus! {

/// A row of the item store: feed name, title and description.
pub type StoreRow = (Seq<char>, Seq<char>, Seq<char>);

/// The row that an insert adds to the store.
pub open spec fn row_of(row: NewItem) -> StoreRow {
    (row.feed_name@, row.title@, row.description@)
}

/// The store after the driver has carried out `r`: an `Insert` adds its row.
pub open spec fn applied(rows: Seq<StoreRow>, r: RefreshAction) -> Seq<StoreRow> {
    match r {
        RefreshAction::Insert(row) => rows.push(row_of(row)),
        _ => rows,
    }
}

/// Whether the store holds a row of `feed_name` titled `title`.
pub open spec fn has_key(rows: Seq<StoreRow>, feed_name: Seq<char>, title: Seq<char>) -> bool {
    exists|i: int| 0 <= i < rows.len() && #[trigger] rows[i].0 == feed_name && rows[i].1 == title
}

/// No two rows share a feed name and a title.
pub open spec fn keys_distinct(rows: Seq<StoreRow>) -> bool {
    forall|i: int, j: int| 0 <= i < j < rows.len() ==> !(#[trigger] rows[i].0 == #[trigger] rows[j].0 && rows[i].1 == rows[j].1)
}

/// Every item has a title and a description.
pub open spec fn complete(items: Seq<ItemFields>) -> bool {
    forall|i: int| 0 <= i < items.len() ==> (#[trigger] items[i]).0 is Some && items[i].1 is Some
}

/// The store once the first `n` items have been looked up, starting from
/// `rows0`: each item whose title the feed does not hold yet adds one row.
pub open spec fn stored_after(feed_name: Seq<char>, items: Seq<ItemFields>, n: nat, rows0: Seq<StoreRow>) -> Seq<StoreRow>
    decreases n,
{
    if n == 0 {
        rows0
    } else {
        let rows = stored_after(feed_name, items, (n - 1) as nat, rows0);
        let item = items[n - 1];
        match (item.0, item.1) {
            (Some(title), Some(description)) => if has_key(rows, feed_name, title) {
                rows
            } else {
                rows.push((feed_name, title, description))
            },
            _ => rows,
        }
    }
}

/// The titles that the store holds for `feed_name`.
pub open spec fn feed_titles(rows: Seq<StoreRow>, feed_name: Seq<char>) -> Set<Seq<char>> {
    Set::new(|title: Seq<char>| has_key(rows, feed_name, title))
}

/// The titles of the first `n` items.
pub open spec fn item_titles(items: Seq<ItemFields>, n: nat) -> Set<Seq<char>> {
    Set::new(|title: Seq<char>| exists|j: int| 0 <= j < n && #[trigger] items[j].0 == Some(title))
}

/// The store `rows`, which was `rows0` when the page was read, is where the
/// refresh `s` has brought it: the items before the current one have been
/// looked up and, where new, stored (the current one too while its insert is
/// awaited).
pub open spec fn store_tracks(s: FeedRefresh, rows0: Seq<StoreRow>, rows: Seq<StoreRow>) -> bool {
    &&& complete(s.pending())
    &&& 0 <= s.position() <= s.pending().len()
    &&& s.phase() == RefreshPhase::AwaitLookUp ==> s.position() < s.pending().len()
    &&& s.phase() == RefreshPhase::AwaitInsert ==> s.position() < s.pending().len()
        && rows == stored_after(s.name(), s.pending(), (s.position() + 1) as nat, rows0)
    &&& s.phase() != RefreshPhase::AwaitInsert ==> rows == stored_after(s.name(), s.pending(), s.position() as nat, rows0)
}

/// Reading a page whose selections pair up starts the run with the store as it is.
pub proof fn lemma_page_starts_run(before: FeedRefresh, after: FeedRefresh, page: Seq<char>, r: RefreshAction, rows0: Seq<StoreRow>)
    requires
        page_outcome(before, after, page, r),
        before.settings().item.title.spec_select(page).len() == before.settings().item.description.spec_select(page).len(),
    ensures
        store_tracks(after, rows0, rows0),
{
    assert(complete(after.pending()));
}

/// A lookup answered truthfully keeps the store tracked: a stored title adds
/// nothing, a new one is inserted once. The refresh does not fail on an item
/// of a page whose selections paired up.
pub proof fn lemma_lookup_step(
    before: FeedRefresh,
    after: FeedRefresh,
    exists: bool,
    pub_date: Timestamp,
    inserted_at: int,
    r: RefreshAction,
    rows0: Seq<StoreRow>,
    rows: Seq<StoreRow>,
)
    requires
        before.phase() == RefreshPhase::AwaitLookUp,
        lookup_outcome(before, after, exists, pub_date, inserted_at, r),
        store_tracks(before, rows0, rows),
        exists == has_key(rows, before.name(), before.pending()[before.position()].0->Some_0),
    ensures
        store_tracks(after, rows0, applied(rows, r)),
        !(r is Done && r->Done_0 is Err),
{
    let n = before.position();
    let items = before.pending();
    let item = items[n];
    assert(item.0 is Some && item.1 is Some);
    assert(stored_after(before.name(), items, (n + 1) as nat, rows0) == if has_key(rows, before.name(), item.0->Some_0) {
        rows
    } else {
        rows.push((before.name(), item.0->Some_0, item.1->Some_0))
    });
}

/// Storing the awaited row keeps the store tracked.
pub proof fn lemma_inserted_step(before: FeedRefresh, after: FeedRefresh, r: RefreshAction, rows0: Seq<StoreRow>, rows: Seq<StoreRow>)
    requires
        before.phase() == RefreshPhase::AwaitInsert,
        inserted_outcome(before, after, r),
        store_tracks(before, rows0, rows),
    ensures
        store_tracks(after, rows0, rows),
{
}

/// When a tracked refresh is done, every item has been looked up.
pub proof fn lemma_done_after_all_items(s: FeedRefresh, r: RefreshAction, rows0: Seq<StoreRow>, rows: Seq<StoreRow>)
    requires
        store_tracks(s, rows0, rows),
        s.look_up_or_done(r),
        r is Done,
    ensures
        rows == stored_after(s.name(), s.pending(), s.pending().len(), rows0),
{
}

/// Looking up items keeps the rows already stored, and every added row is
/// of `feed_name` and holds the title and description of one of the items.
pub proof fn lemma_stored_after_extends(feed_name: Seq<char>, items: Seq<ItemFields>, n: nat, rows0: Seq<StoreRow>)
    requires
        n <= items.len(),
    ensures
        rows0.len() <= stored_after(feed_name, items, n, rows0).len(),
        stored_after(feed_name, items, n, rows0).subrange(0, rows0.len() as int) == rows0,
        forall|i: int| rows0.len() <= i < stored_after(feed_name, items, n, rows0).len() ==> {
            let row = #[trigger] stored_after(feed_name, items, n, rows0)[i];
            &&& row.0 == feed_name
            &&& exists|j: int| 0 <= j < n && items[j].0 == Some(row.1) && items[j].1 == Some(row.2)
        },
    decreases n,
{
    if n > 0 {
        lemma_stored_after_extends(feed_name, items, (n - 1) as nat, rows0);
        let rows = stored_after(feed_name, items, (n - 1) as nat, rows0);
        let after = stored_after(feed_name, items, n, rows0);
        assert(after.subrange(0, rows0.len() as int) =~= rows0) by {
            assert(rows.subrange(0, rows0.len() as int) == rows0);
        }
        assert forall|i: int| rows0.len() <= i < after.len() implies {
            let row = #[trigger] after[i];
            &&& row.0 == feed_name
            &&& exists|j: int| 0 <= j < n && items[j].0 == Some(row.1) && items[j].1 == Some(row.2)
        } by {
            if i < rows.len() {
                assert(after[i] == rows[i]);
                let row = rows[i];
                let j = choose|j: int| 0 <= j < n - 1 && items[j].0 == Some(row.1) && items[j].1 == Some(row.2);
                assert(0 <= j < n && items[j].0 == Some(row.1) && items[j].1 == Some(row.2));
            } else {
                let j = n - 1;
                assert(items[j].0 == Some(after[i].1) && items[j].1 == Some(after[i].2));
            }
        }
    }
}

/// A run never stores two rows of one feed and title: if the store held no
/// such pair before, it holds none after, even when the page repeats a title.
pub proof fn lemma_stored_after_keys_distinct(feed_name: Seq<char>, items: Seq<ItemFields>, n: nat, rows0: Seq<StoreRow>)
    requires
        n <= items.len(),
        keys_distinct(rows0),
    ensures
        keys_distinct(stored_after(feed_name, items, n, rows0)),
    decreases n,
{
    if n > 0 {
        lemma_stored_after_keys_distinct(feed_name, items, (n - 1) as nat, rows0);
        let rows = stored_after(feed_name, items, (n - 1) as nat, rows0);
        let after = stored_after(feed_name, items, n, rows0);
        if after != rows {
            assert forall|i: int, j: int| 0 <= i < j < after.len() implies !(#[trigger] after[i].0 == #[trigger] after[j].0
                && after[i].1 == after[j].1) by {
                if j == rows.len() {
                    assert(after[i] == rows[i]);
                    if after[i].0 == after[j].0 && after[i].1 == after[j].1 {
                        assert(has_key(rows, feed_name, after[j].1));
                    }
                } else {
                    assert(after[i] == rows[i] && after[j] == rows[j]);
                }
            }
        }
    }
}

/// After a run over the first `n` items the feed holds the titles it held
/// before together with the titles of those items.
pub proof fn lemma_stored_after_titles(feed_name: Seq<char>, items: Seq<ItemFields>, n: nat, rows0: Seq<StoreRow>)
    requires
        n <= items.len(),
        complete(items),
    ensures
        feed_titles(stored_after(feed_name, items, n, rows0), feed_name) == feed_titles(rows0, feed_name).union(
            item_titles(items, n),
        ),
    decreases n,
{
    if n > 0 {
        lemma_stored_after_titles(feed_name, items, (n - 1) as nat, rows0);
        let rows = stored_after(feed_name, items, (n - 1) as nat, rows0);
        let after = stored_after(feed_name, items, n, rows0);
        let item = items[n - 1];
        assert(item.0 is Some && item.1 is Some);
        let title = item.0->Some_0;
        if has_key(rows, feed_name, title) {
            assert(after == rows);
            assert(feed_titles(after, feed_name) =~= feed_titles(rows, feed_name).insert(title));
        } else {
            assert(after == rows.push((feed_name, title, item.1->Some_0)));
            assert forall|t: Seq<char>| #[trigger] has_key(after, feed_name, t) implies has_key(rows, feed_name, t) || t == title by {
                let i = choose|i: int| 0 <= i < after.len() && #[trigger] after[i].0 == feed_name && after[i].1 == t;
                if i < rows.len() {
                    assert(after[i] == rows[i]);
                }
            }
            assert forall|t: Seq<char>| #[trigger] has_key(rows, feed_name, t) implies has_key(after, feed_name, t) by {
                let i = choose|i: int| 0 <= i < rows.len() && #[trigger] rows[i].0 == feed_name && rows[i].1 == t;
                assert(after[i] == rows[i]);
            }
            let last = rows.len() as int;
            assert(after[last] == (feed_name, title, item.1->Some_0));
            assert(0 <= last < after.len() && after[last].0 == feed_name && after[last].1 == title);
            assert(has_key(after, feed_name, title));
            assert(feed_titles(after, feed_name) =~= feed_titles(rows, feed_name).insert(title));
        }
        assert(item_titles(items, n) =~= item_titles(items, (n - 1) as nat).insert(title)) by {
            assert forall|t: Seq<char>| item_titles(items, n).contains(t) implies item_titles(items, (n - 1) as nat).insert(title).contains(t) by {
                let j = choose|j: int| 0 <= j < n && #[trigger] items[j].0 == Some(t);
                if j < n - 1 {
                    assert(item_titles(items, (n - 1) as nat).contains(t));
                }
            }
            assert forall|t: Seq<char>| item_titles(items, (n - 1) as nat).insert(title).contains(t) implies item_titles(items, n).contains(t) by {
                if t == title {
                    assert(items[n - 1].0 == Some(t));
                } else {
                    let j = choose|j: int| 0 <= j < n - 1 && #[trigger] items[j].0 == Some(t);
                    assert(items[j].0 == Some(t));
                }
            }
        }
        assert(feed_titles(after, feed_name) =~= feed_titles(rows0, feed_name).union(item_titles(items, n)));
    } else {
        assert(item_titles(items, 0) =~= Set::empty());
        assert(feed_titles(rows0, feed_name).union(item_titles(items, 0)) =~= feed_titles(rows0, feed_name));
    }
}

/// The outcome of a whole refresh that is done without error, driven with
/// truthful lookups from a store `rows0` in which no two rows share a feed
/// and a title: the old rows stay, no two rows share a feed and a title, the
/// feed's titles are its old ones together with the titles of the page's
/// items, and each added row belongs to the feed and holds the title and
/// description of one of those items.
pub proof fn lemma_refresh_outcome(s: FeedRefresh, r: RefreshAction, rows0: Seq<StoreRow>, rows: Seq<StoreRow>)
    requires
        store_tracks(s, rows0, rows),
        s.look_up_or_done(r),
        r is Done,
        keys_distinct(rows0),
    ensures
        keys_distinct(rows),
        rows0.len() <= rows.len(),
        rows.subrange(0, rows0.len() as int) == rows0,
        feed_titles(rows, s.name()) == feed_titles(rows0, s.name()).union(item_titles(s.pending(), s.pending().len())),
        forall|i: int| rows0.len() <= i < rows.len() ==> {
            let row = #[trigger] rows[i];
            &&& row.0 == s.name()
            &&& exists|j: int| 0 <= j < s.pending().len() && s.pending()[j].0 == Some(row.1) && s.pending()[j].1 == Some(row.2)
        },
{
    lemma_done_after_all_items(s, r, rows0, rows);
    let n = s.pending().len();
    lemma_stored_after_keys_distinct(s.name(), s.pending(), n, rows0);
    lemma_stored_after_extends(s.name(), s.pending(), n, rows0);
    lemma_stored_after_titles(s.name(), s.pending(), n, rows0);
}

} // verus!
