//! An in-library model of a byte store keyed by relative path: what the
//! source resolver reads and writes. An entry carries the stored bytes and,
//! when the metadata probe succeeds on it, the pixel dimensions and media
//! type the probe reports; an entry whose metadata cannot be read carries
//! none. The store's view is the map from keys to entries, later writes to a
//! key replacing earlier ones.

use vstd::prelude::*;

use crate::text::str_eq;

verus! {

/// What the metadata probe reports of a stored image.
#[derive(Debug)]
pub struct ImageMeta {
    pub pixel_width: i32,
    pub pixel_height: i32,
    pub media_type: String,
}

/// Mathematical view of `ImageMeta`.
pub struct MetaView {
    pub pixel_width: int,
    pub pixel_height: int,
    pub media_type: Seq<char>,
}

impl View for ImageMeta {
    type V = MetaView;

    open spec fn view(&self) -> MetaView {
        MetaView {
            pixel_width: self.pixel_width as int,
            pixel_height: self.pixel_height as int,
            media_type: self.media_type@,
        }
    }
}

/// One stored asset: its bytes, and its metadata where readable.
#[derive(Debug)]
pub struct StoreEntry {
    pub bytes: Vec<u8>,
    pub meta: Option<ImageMeta>,
}

/// Mathematical view of `StoreEntry`.
pub struct EntryView {
    pub bytes: Seq<u8>,
    pub meta: Option<MetaView>,
}

/// The view of an optional metadata record.
pub open spec fn meta_view_of(m: Option<ImageMeta>) -> Option<MetaView> {
    match m {
        Some(x) => Some(x@),
        None => None,
    }
}

impl View for StoreEntry {
    type V = EntryView;

    open spec fn view(&self) -> EntryView {
        EntryView { bytes: self.bytes@, meta: meta_view_of(self.meta) }
    }
}

/// A byte store keyed by relative path. Writes append; on lookup the latest
/// write to a key wins, so the view is a plain map.
#[derive(Debug)]
pub struct Store {
    entries: Vec<(String, StoreEntry)>,
}

/// The map a write history denotes: later entries override earlier ones.
pub closed spec fn entries_map(s: Seq<(String, StoreEntry)>) -> Map<Seq<char>, EntryView>
    decreases s.len(),
{
    if s.len() == 0 {
        Map::empty()
    } else {
        entries_map(s.drop_last()).insert(s.last().0@, s.last().1@)
    }
}

impl View for Store {
    type V = Map<Seq<char>, EntryView>;

    closed spec fn view(&self) -> Map<Seq<char>, EntryView> {
        entries_map(self.entries@)
    }
}

proof fn lemma_entries_map_found(s: Seq<(String, StoreEntry)>, i: int)
    requires
        0 <= i < s.len(),
        forall|j: int| i < j < s.len() ==> (#[trigger] s[j].0)@ != s[i].0@,
    ensures
        entries_map(s).contains_key(s[i].0@),
        entries_map(s)[s[i].0@] == s[i].1@,
    decreases s.len(),
{
    if i == s.len() - 1 {
    } else {
        let front = s.drop_last();
        assert(forall|j: int| i < j < front.len() ==> (#[trigger] front[j].0)@ != front[i].0@);
        lemma_entries_map_found(front, i);
        assert(s.last().0@ != s[i].0@);
    }
}

proof fn lemma_entries_map_absent(s: Seq<(String, StoreEntry)>, key: Seq<char>)
    requires
        forall|j: int| 0 <= j < s.len() ==> (#[trigger] s[j].0)@ != key,
    ensures
        !entries_map(s).contains_key(key),
    decreases s.len(),
{
    if s.len() > 0 {
        lemma_entries_map_absent(s.drop_last(), key);
    }
}

impl Store {
    /// An empty store.
    pub fn new() -> (r: Store)
        ensures
            r@ == Map::<Seq<char>, EntryView>::empty(),
    {
        Store { entries: Vec::new() }
    }

    /// The entry stored under `key`, if any.
    pub fn get(&self, key: &str) -> (r: Option<&StoreEntry>)
        ensures
            match r {
                Some(entry) => self@.contains_key(key@) && entry@ == self@[key@],
                None => !self@.contains_key(key@),
            },
    {
        let n = self.entries.len();
        let mut i: usize = n;
        while i > 0
            invariant
                i <= n,
                n == self.entries@.len(),
                forall|j: int| i <= j < n ==> (#[trigger] self.entries@[j].0)@ != key@,
            decreases i,
        {
            i = i - 1;
            if str_eq(self.entries[i].0.as_str(), key) {
                proof {
                    lemma_entries_map_found(self.entries@, i as int);
                }
                return Some(&self.entries[i].1);
            }
        }
        proof {
            lemma_entries_map_absent(self.entries@, key@);
        }
        None
    }

    /// Whether anything is stored under `key`.
    pub fn contains(&self, key: &str) -> (r: bool)
        ensures
            r == self@.contains_key(key@),
    {
        self.get(key).is_some()
    }

    /// Stores `entry` under `key`, replacing whatever was there.
    pub fn put(&mut self, key: String, entry: StoreEntry)
        ensures
            final(self)@ == old(self)@.insert(key@, entry@),
    {
        let ghost before = self.entries@;
        self.entries.push((key, entry));
        proof {
            assert(self.entries@.drop_last() =~= before);
        }
    }
}

} // verus!
