//! The record of what was read, and how far.
//!
//! A history is an ordered list of entries, most recent first, each under a key
//! of its own: the path of a local file, or the address of a book on the
//! network. Reading and writing the file that keeps it is left to the caller,
//! who hands the parsed entries to [`History::from_entries`] and writes out
//! what [`History::histories`] returns.

use vstd::prelude::*;

verus! {

/// The largest progress: a hundred percent, in hundredths of a percent.
pub const PROGRESS_MAX: u16 = 10000;

/// How far into a text the reader is, in hundredths of a percent. The value
/// never exceeds [`PROGRESS_MAX`].
#[derive(Clone, Copy, Debug, PartialEq, Eq)]
pub struct Progress {
    hundredths: u16,
}

impl View for Progress {
    type V = nat;

    closed spec fn view(&self) -> nat {
        if self.hundredths <= PROGRESS_MAX {
            self.hundredths as nat
        } else {
            PROGRESS_MAX as nat
        }
    }
}

impl Progress {
    /// A progress of `hundredths`, cut off at a hundred percent.
    pub fn new(hundredths: u16) -> (p: Progress)
        ensures
            p@ == (if hundredths <= PROGRESS_MAX { hundredths } else { PROGRESS_MAX }),
    {
        Progress { hundredths: if hundredths <= PROGRESS_MAX { hundredths } else { PROGRESS_MAX } }
    }

    pub fn hundredths(&self) -> (h: u16)
        ensures
            h == self@,
            h <= PROGRESS_MAX,
    {
        if self.hundredths <= PROGRESS_MAX { self.hundredths } else { PROGRESS_MAX }
    }

    /// Every progress lies between nothing and a hundred percent.
    pub proof fn lemma_in_range(self)
        ensures
            self@ <= PROGRESS_MAX,
    {
    }
}

/// A text read from a local file.
#[derive(Debug, PartialEq, Eq)]
pub struct LocalItem {
    pub title: String,
    pub current_chapter: String,
    pub percent: Progress,
    /// The time of the last reading, as ISO 8601 text.
    pub last_read_at: String,
}

/// A book read from the network.
#[derive(Debug, PartialEq, Eq)]
pub struct NetworkItem {
    pub title: String,
    pub current_chapter: String,
    pub percent: Progress,
    /// The time of the last reading, as ISO 8601 text.
    pub last_read_at: String,
    /// The name of the book source that serves the book.
    pub book_source: String,
}

/// One thing that was read.
#[derive(Debug, PartialEq, Eq)]
pub enum HistoryItem {
    Local(LocalItem),
    Network(NetworkItem),
}

/// What an item says, field for field.
pub struct ItemView {
    pub title: Seq<char>,
    pub current_chapter: Seq<char>,
    pub percent: nat,
    pub last_read_at: Seq<char>,
    /// The book source of a network item; a local item has none.
    pub book_source: Option<Seq<char>>,
}

impl View for HistoryItem {
    type V = ItemView;

    open spec fn view(&self) -> ItemView {
        match self {
            HistoryItem::Local(item) => ItemView {
                title: item.title@,
                current_chapter: item.current_chapter@,
                percent: item.percent@,
                last_read_at: item.last_read_at@,
                book_source: None,
            },
            HistoryItem::Network(item) => ItemView {
                title: item.title@,
                current_chapter: item.current_chapter@,
                percent: item.percent@,
                last_read_at: item.last_read_at@,
                book_source: Some(item.book_source@),
            },
        }
    }
}

impl HistoryItem {
    pub fn is_local(&self) -> (local: bool)
        ensures
            local == self@.book_source.is_none(),
    {
        match self {
            HistoryItem::Local(_) => true,
            HistoryItem::Network(_) => false,
        }
    }
}

impl Clone for HistoryItem {
    fn clone(&self) -> (copy: HistoryItem)
        ensures
            copy@ == self@,
    {
        match self {
            HistoryItem::Local(item) => HistoryItem::Local(
                LocalItem {
                    title: item.title.clone(),
                    current_chapter: item.current_chapter.clone(),
                    percent: item.percent,
                    last_read_at: item.last_read_at.clone(),
                },
            ),
            HistoryItem::Network(item) => HistoryItem::Network(
                NetworkItem {
                    title: item.title.clone(),
                    current_chapter: item.current_chapter.clone(),
                    percent: item.percent,
                    last_read_at: item.last_read_at.clone(),
                    book_source: item.book_source.clone(),
                },
            ),
        }
    }
}

/// A key and what was read under it.
pub type EntryView = (Seq<char>, ItemView);

/// The entries of a list, each by its view.
pub open spec fn entry_views(entries: Seq<(String, HistoryItem)>) -> Seq<EntryView> {
    entries.map_values(|e: (String, HistoryItem)| (e.0@, e.1@))
}

/// No key occurs twice.
pub open spec fn distinct_keys(entries: Seq<EntryView>) -> bool {
    forall|i: int, j: int| 0 <= i < j < entries.len() ==> entries[i].0 != entries[j].0
}

/// The test that an entry is under another key than `key`.
pub open spec fn other_key(key: Seq<char>) -> spec_fn(EntryView) -> bool {
    |e: EntryView| e.0 != key
}

/// The entries that are not under `key`, in their order.
pub open spec fn without_key(entries: Seq<EntryView>, key: Seq<char>) -> Seq<EntryView> {
    entries.filter(other_key(key))
}

/// The entries after `item` was read under `key`: it comes first, and an
/// earlier entry under the same key is gone.
pub open spec fn upserted(entries: Seq<EntryView>, key: Seq<char>, item: ItemView) -> Seq<
    EntryView,
> {
    seq![(key, item)] + without_key(entries, key)
}

/// The entries after the one at `index` was removed, if there is one.
pub open spec fn removed(entries: Seq<EntryView>, index: int) -> Seq<EntryView> {
    if 0 <= index < entries.len() {
        entries.remove(index)
    } else {
        entries
    }
}

/// An item as it stands after it was read again at `now`: only the time
/// changes.
pub open spec fn read_again(item: ItemView, now: Seq<char>) -> ItemView {
    ItemView {
        title: item.title,
        current_chapter: item.current_chapter,
        percent: item.percent,
        last_read_at: now,
        book_source: item.book_source,
    }
}

/// The item of a local file that is read for the first time at `now`: no
/// chapter yet, and no progress.
pub open spec fn first_reading(title: Seq<char>, now: Seq<char>) -> ItemView {
    ItemView {
        title,
        current_chapter: Seq::empty(),
        percent: 0,
        last_read_at: now,
        book_source: None,
    }
}

/// Whether an entry stands under `key`.
pub open spec fn has_key(entries: Seq<EntryView>, key: Seq<char>) -> bool {
    exists|i: int| 0 <= i < entries.len() && entries[i].0 == key
}

/// The item that records a reading under `key` at the time `now`: the known
/// item with the new time where the key is known, the first reading of a
/// local file called `title` where it is not.
pub open spec fn reading_item(
    entries: Seq<EntryView>,
    key: Seq<char>,
    title: Seq<char>,
    now: Seq<char>,
) -> ItemView {
    if has_key(entries, key) {
        let i = choose|i: int| 0 <= i < entries.len() && entries[i].0 == key;
        read_again(entries[i].1, now)
    } else {
        first_reading(title, now)
    }
}

/// What is kept of entries read from a file: all of them if no key occurs
/// twice, none otherwise.
pub open spec fn restored(entries: Seq<EntryView>) -> Seq<EntryView> {
    if distinct_keys(entries) {
        entries
    } else {
        Seq::empty()
    }
}

/// Filtering out a key that does not occur changes nothing.
pub proof fn lemma_without_absent_key(entries: Seq<EntryView>, key: Seq<char>)
    requires
        forall|i: int| 0 <= i < entries.len() ==> entries[i].0 != key,
    ensures
        without_key(entries, key) == entries,
    decreases entries.len(),
{
    reveal(Seq::filter);
    if entries.len() > 0 {
        lemma_without_absent_key(entries.drop_last(), key);
        assert(entries.drop_last().push(entries.last()) =~= entries);
    }
}

/// Among distinct keys, filtering out the key at `index` removes that entry
/// and no other.
pub proof fn lemma_without_present_key(entries: Seq<EntryView>, key: Seq<char>, index: int)
    requires
        distinct_keys(entries),
        0 <= index < entries.len(),
        entries[index].0 == key,
    ensures
        without_key(entries, key) == entries.remove(index),
{
    let pred = other_key(key);
    let before = entries.take(index);
    let at = seq![entries[index]];
    let after = entries.skip(index + 1);
    assert(entries =~= before + at + after);
    Seq::filter_distributes_over_add(before + at, after, pred);
    Seq::filter_distributes_over_add(before, at, pred);
    lemma_without_absent_key(before, key);
    lemma_without_absent_key(after, key);
    assert(at.filter(pred) =~= Seq::<EntryView>::empty()) by {
        reveal(Seq::filter);
        assert(at.drop_last() =~= Seq::<EntryView>::empty());
        assert(at.drop_last().filter(pred) =~= Seq::<EntryView>::empty());
    }
    assert(before + Seq::<EntryView>::empty() + after =~= entries.remove(index));
}

/// The reading history: entries under distinct keys, most recent first.
#[derive(Debug)]
pub struct History {
    histories: Vec<(String, HistoryItem)>,
}

impl View for History {
    type V = Seq<EntryView>;

    closed spec fn view(&self) -> Seq<EntryView> {
        entry_views(self.histories@)
    }
}

impl History {
    /// The invariant of a history: no key occurs twice.
    pub open spec fn wf(&self) -> bool {
        distinct_keys(self@)
    }

    /// An empty history.
    pub fn new() -> (history: History)
        ensures
            history.wf(),
            history@ == Seq::<EntryView>::empty(),
    {
        let history = History { histories: Vec::new() };
        assert(history@ =~= Seq::<EntryView>::empty());
        history
    }

    /// The history that a file's entries stand for. Entries with a key that
    /// occurs twice cannot come from a history: the file is taken as corrupt
    /// and the history is empty.
    pub fn from_entries(entries: Vec<(String, HistoryItem)>) -> (history: History)
        ensures
            history.wf(),
            history@ == restored(entry_views(entries@)),
    {
        let ghost views = entry_views(entries@);
        let n = entries.len();
        let mut j: usize = 0;
        while j < n
            invariant
                n == entries.len(),
                views == entry_views(entries@),
                j <= n,
                forall|a: int, b: int| 0 <= a < b < j ==> views[a].0 != views[b].0,
            decreases n - j,
        {
            let mut i: usize = 0;
            while i < j
                invariant
                    n == entries.len(),
                    views == entry_views(entries@),
                    i <= j < n,
                    forall|a: int| 0 <= a < i ==> views[a].0 != views[j as int].0,
                decreases j - i,
            {
                if entries[i].0 == entries[j].0 {
                    assert(views[i as int].0 == views[j as int].0);
                    return History::new();
                }
                i += 1;
            }
            j += 1;
        }
        History { histories: entries }
    }

    /// The entries, most recent first, as they go to a file.
    pub fn histories(&self) -> (entries: &Vec<(String, HistoryItem)>)
        ensures
            entry_views(entries@) == self@,
    {
        &self.histories
    }

    pub fn len(&self) -> (n: usize)
        ensures
            n == self@.len(),
    {
        self.histories.len()
    }

    pub fn is_empty(&self) -> (empty: bool)
        ensures
            empty == (self@.len() == 0),
    {
        self.histories.len() == 0
    }

    /// The entry at `index`, if there is one.
    pub fn get(&self, index: usize) -> (entry: Option<&(String, HistoryItem)>)
        ensures
            match entry {
                Some(e) => index < self@.len() && (e.0@, e.1@) == self@[index as int],
                None => index >= self@.len(),
            },
    {
        if index < self.histories.len() {
            Some(&self.histories[index])
        } else {
            None
        }
    }

    /// Where the entry under `key` stands, if there is one.
    pub fn position(&self, key: &String) -> (found: Option<usize>)
        ensures
            match found {
                Some(i) => i < self@.len() && self@[i as int].0 == key@ && forall|k: int|
                    0 <= k < i ==> self@[k].0 != key@,
                None => forall|k: int| 0 <= k < self@.len() ==> self@[k].0 != key@,
            },
    {
        let mut i: usize = 0;
        while i < self.histories.len()
            invariant
                i <= self.histories.len(),
                forall|k: int| 0 <= k < i ==> self@[k].0 != key@,
            decreases self.histories.len() - i,
        {
            if self.histories[i].0 == *key {
                return Some(i);
            }
            i += 1;
        }
        None
    }

    /// The item that records a reading under `key` at the time `now`. Under a
    /// key that the history knows, the item is the known one with the new
    /// time: title, chapter, progress and book source stay. Under any other
    /// key it is the item of a local file called `title`, at its beginning.
    pub fn reading_now(&self, key: &String, title: String, now: String) -> (item: HistoryItem)
        requires
            self.wf(),
        ensures
            item@ == reading_item(self@, key@, title@, now@),
            forall|i: int|
                0 <= i < self@.len() && self@[i].0 == key@ ==> item@ == read_again(
                    self@[i].1,
                    now@,
                ),
            !has_key(self@, key@) ==> item@ == first_reading(title@, now@),
    {
        match self.position(key) {
            Some(index) => {
                let item = match &self.histories[index].1 {
                    HistoryItem::Local(known) => HistoryItem::Local(
                        LocalItem {
                            title: known.title.clone(),
                            current_chapter: known.current_chapter.clone(),
                            percent: known.percent,
                            last_read_at: now,
                        },
                    ),
                    HistoryItem::Network(known) => HistoryItem::Network(
                        NetworkItem {
                            title: known.title.clone(),
                            current_chapter: known.current_chapter.clone(),
                            percent: known.percent,
                            last_read_at: now,
                            book_source: known.book_source.clone(),
                        },
                    ),
                };
                assert(item@ == read_again(self@[index as int].1, now@));
                proof {
                    let chosen = choose|i: int| 0 <= i < self@.len() && self@[i].0 == key@;
                    assert(chosen == index);
                }
                item
            },
            None => HistoryItem::Local(
                LocalItem {
                    title,
                    current_chapter: String::new(),
                    percent: Progress::new(0),
                    last_read_at: now,
                },
            ),
        }
    }

    /// Records that `item` was just read under `key`: the entry goes to the
    /// front, and an earlier entry under the same key is dropped.
    pub fn upsert(&mut self, key: String, item: HistoryItem)
        requires
            old(self).wf(),
        ensures
            final(self).wf(),
            final(self)@ == upserted(old(self)@, key@, item@),
    {
        let ghost before = self@;
        match self.position(&key) {
            Some(i) => {
                self.histories.remove(i);
                proof {
                    lemma_without_present_key(before, key@, i as int);
                    assert(self@ =~= before.remove(i as int));
                }
            },
            None => {
                proof {
                    lemma_without_absent_key(before, key@);
                }
            },
        }
        let ghost rest = self@;
        assert(rest == without_key(before, key@));
        proof {
            assert forall|k: int| 0 <= k < rest.len() implies rest[k].0 != key@ by {
                Seq::lemma_filter_pred(before, other_key(key@), k);
            }
            lemma_without_keeps_distinct(before, key@);
        }
        self.histories.insert(0, (key, item));
        assert(self@ =~= seq![(key@, item@)] + rest);
    }

    /// Removes the entry at `index` and hands it back. With no entry there,
    /// the history stays as it is.
    pub fn remove_index(&mut self, index: usize) -> (entry: Option<(String, HistoryItem)>)
        requires
            old(self).wf(),
        ensures
            final(self).wf(),
            final(self)@ == removed(old(self)@, index as int),
            match entry {
                Some(e) => index < old(self)@.len() && (e.0@, e.1@) == old(self)@[index as int],
                None => index >= old(self)@.len(),
            },
    {
        if index < self.histories.len() {
            let entry = self.histories.remove(index);
            assert(self@ =~= old(self)@.remove(index as int));
            Some(entry)
        } else {
            None
        }
    }
}

impl Default for History {
    fn default() -> (history: History)
        ensures
            history.wf(),
            history@ == Seq::<EntryView>::empty(),
    {
        History::new()
    }
}

/// What a history writes out, read back, is the same history.
pub proof fn lemma_store_round_trip(history: History)
    requires
        history.wf(),
    ensures
        restored(history@) == history@,
{
}

/// An entry that was just upserted is found first, and nothing else was lost
/// or gained under another key.
pub proof fn lemma_upsert_moves_to_front(entries: Seq<EntryView>, key: Seq<char>, item: ItemView)
    requires
        distinct_keys(entries),
    ensures
        upserted(entries, key, item)[0] == (key, item),
        distinct_keys(upserted(entries, key, item)),
        forall|e: EntryView|
            e.0 != key ==> (upserted(entries, key, item).contains(e) <==> entries.contains(e)),
{
    let pred = other_key(key);
    let rest = without_key(entries, key);
    let after = upserted(entries, key, item);
    assert forall|k: int| 0 <= k < rest.len() implies pred(rest[k]) by {
        Seq::lemma_filter_pred(entries, pred, k);
    }
    lemma_without_keeps_distinct(entries, key);
    assert forall|e: EntryView| e.0 != key implies (after.contains(e) <==> entries.contains(e)) by {
        if entries.contains(e) {
            let i = choose|i: int| 0 <= i < entries.len() && entries[i] == e;
            Seq::lemma_filter_contains(entries, pred, i);
            let k = choose|k: int| 0 <= k < rest.len() && rest[k] == e;
            assert(after[k + 1] == e);
        }
        if after.contains(e) {
            let k = choose|k: int| 0 <= k < after.len() && after[k] == e;
            assert(k > 0);
            assert(rest[k - 1] == e);
            assert(rest.contains(e));
            Seq::lemma_filter_contains_rev(entries, pred, e);
        }
    }
}

/// Filtering out a key keeps distinct keys distinct.
pub proof fn lemma_without_keeps_distinct(entries: Seq<EntryView>, key: Seq<char>)
    requires
        distinct_keys(entries),
    ensures
        distinct_keys(without_key(entries, key)),
{
    if exists|i: int| 0 <= i < entries.len() && entries[i].0 == key {
        let i = choose|i: int| 0 <= i < entries.len() && entries[i].0 == key;
        lemma_without_present_key(entries, key, i);
    } else {
        lemma_without_absent_key(entries, key);
    }
}

} // verus!
