//! Index manager: the data of the local index, how file content becomes
//! blobs, how blobs are grouped into upload batches, and the decisions taken
//! while indexing and searching.

use vstd::prelude::*;
use vstd::string::StrSliceExecFns;

use crate::config::{CliOverrides, Config};
use crate::hashing::{blob_name, calculate_config_hash, config_hash_of};
use crate::index::pattern::{
    glob_matches, glob_regex, regex_compiles, rules_ignore, IgnoreRules, match_glob, pattern_views, should_exclude_standalone, excluded_by_patterns,
    ExcludePattern, ExcludePatternView,
};
use std::sync::Arc;
use crate::text::{
    chars_of, join_line_range, join_lines, lines_of, push_decimal, push_str, split_lines,
    string_from_chars, decimal, views,
};

verus! {

/// Maximum blob size in bytes (128KB).
pub const MAX_BLOB_SIZE: usize = 131072;

/// Maximum batch size in bytes (1MB).
pub const MAX_BATCH_SIZE: usize = 1048576;

/// Maximum index file size in bytes (256MB).
pub const MAX_INDEX_BYTES: u64 = 268435456;

/// Current index format version.
pub const CURRENT_INDEX_VERSION: u32 = 2;

/// Number of lines per blob used when the configured value is zero.
pub const DEFAULT_MAX_LINES_PER_BLOB: usize = 800;

// ---------------------------------------------------------------------------
// Blobs
// ---------------------------------------------------------------------------

/// A named piece of file content sent to the indexing service.
#[derive(Debug, Clone)]
pub struct Blob {
    pub path: String,
    pub content: String,
}

/// The (path, content) characters of each blob.
pub open spec fn blob_views(v: Seq<Blob>) -> Seq<(Seq<char>, Seq<char>)> {
    v.map_values(|b: Blob| (b.path@, b.content@))
}

/// Size of a blob as counted against the batch limit: UTF-8 bytes of its
/// content plus those of its path.
pub open spec fn blob_size(b: Blob) -> nat {
    vstd::utf8::encode_utf8(b.content@).len() + vstd::utf8::encode_utf8(b.path@).len()
}


// ---------------------------------------------------------------------------
// Index entries
// ---------------------------------------------------------------------------

/// The index record of one file.
#[derive(Debug, Clone)]
pub struct FileEntry {
    /// Modification time (seconds since UNIX epoch).
    pub mtime_secs: u64,
    /// Modification time (nanoseconds part).
    pub mtime_nanos: u32,
    /// File size in bytes.
    pub size: u64,
    /// Names of the blobs produced from this file, in chunk order.
    pub blob_hashes: Vec<String>,
}

/// The plain values of a `FileEntry`.
pub struct FileEntryView {
    pub mtime_secs: u64,
    pub mtime_nanos: u32,
    pub size: u64,
    pub blob_hashes: Seq<Seq<char>>,
}

/// The characters of each string.
pub open spec fn string_views(v: Seq<String>) -> Seq<Seq<char>> {
    v.map_values(|s: String| s@)
}

impl View for FileEntry {
    type V = FileEntryView;

    open spec fn view(&self) -> FileEntryView {
        FileEntryView {
            mtime_secs: self.mtime_secs,
            mtime_nanos: self.mtime_nanos,
            size: self.size,
            blob_hashes: string_views(self.blob_hashes@),
        }
    }
}

/// Copies a vector of strings.
pub fn copy_strings(v: &Vec<String>) -> (res: Vec<String>)
    ensures
        string_views(res@) == string_views(v@),
{
    let mut out: Vec<String> = Vec::new();
    let n = v.len();
    let mut i: usize = 0;
    while i < n
        invariant
            n == v@.len(),
            i <= n,
            string_views(out@) == string_views(v@).take(i as int),
        decreases n - i,
    {
        let ghost before = out@;
        let c = v[i].clone();
        assert(c@ == v@[i as int]@);
        out.push(c);
        i = i + 1;
        proof {
            assert(out@ == before.push(c));
            assert(string_views(out@) =~= string_views(before).push(c@));
            assert(string_views(v@).take(i as int) =~= string_views(v@).take(i - 1).push(v@[i - 1]@));
        }
    }
    assert(string_views(v@).take(n as int) =~= string_views(v@));
    out
}

impl FileEntry {
    /// A copy of this entry with the same values.
    pub fn duplicate(&self) -> (res: FileEntry)
        ensures
            res@ == self@,
    {
        FileEntry {
            mtime_secs: self.mtime_secs,
            mtime_nanos: self.mtime_nanos,
            size: self.size,
            blob_hashes: copy_strings(&self.blob_hashes),
        }
    }
}

/// The key/value map described by an ordered list of distinct-keyed pairs.
pub open spec fn pairs_map(pairs: Seq<(Seq<char>, FileEntryView)>) -> Map<Seq<char>, FileEntryView>
    decreases pairs.len(),
{
    if pairs.len() == 0 {
        Map::empty()
    } else {
        pairs_map(pairs.drop_last()).insert(pairs.last().0, pairs.last().1)
    }
}

/// No key occurs twice.
pub open spec fn keys_distinct(pairs: Seq<(Seq<char>, FileEntryView)>) -> bool {
    forall|i: int, j: int| 0 <= i < pairs.len() && 0 <= j < pairs.len() && i != j ==> pairs[i].0 != pairs[j].0
}

/// With distinct keys, the map holds exactly the pairs.
pub proof fn lemma_pairs_map(pairs: Seq<(Seq<char>, FileEntryView)>)
    requires
        keys_distinct(pairs),
    ensures
        forall|k: Seq<char>| #[trigger] pairs_map(pairs).contains_key(k) <==> exists|i: int| 0 <= i < pairs.len() && pairs[i].0 == k,
        forall|i: int| 0 <= i < pairs.len() ==> #[trigger] pairs_map(pairs)[pairs[i].0] == pairs[i].1,
        pairs_map(pairs).dom().finite(),
        pairs_map(pairs).len() == pairs.len(),
    decreases pairs.len(),
{
    if pairs.len() > 0 {
        let init = pairs.drop_last();
        assert(keys_distinct(init));
        lemma_pairs_map(init);
        let m = pairs_map(init);
        assert(!m.contains_key(pairs.last().0)) by {
            if m.contains_key(pairs.last().0) {
                let i = choose|i: int| 0 <= i < init.len() && init[i].0 == pairs.last().0;
                assert(pairs[i].0 == pairs[pairs.len() - 1].0);
            }
        }
        assert forall|k: Seq<char>| #[trigger] pairs_map(pairs).contains_key(k) implies exists|i: int| 0 <= i < pairs.len() && pairs[i].0 == k by {
            if k != pairs.last().0 {
                let i = choose|i: int| 0 <= i < init.len() && init[i].0 == k;
                assert(pairs[i].0 == k);
            } else {
                assert(pairs[pairs.len() - 1].0 == k);
            }
        }
        assert forall|k: Seq<char>| (exists|i: int| 0 <= i < pairs.len() && pairs[i].0 == k) implies #[trigger] pairs_map(pairs).contains_key(k) by {
            let i = choose|i: int| 0 <= i < pairs.len() && pairs[i].0 == k;
            if i < pairs.len() - 1 {
                assert(init[i].0 == k);
            }
        }
        assert forall|i: int| 0 <= i < pairs.len() implies #[trigger] pairs_map(pairs)[pairs[i].0] == pairs[i].1 by {
            if i < pairs.len() - 1 {
                assert(init[i] == pairs[i]);
                assert(pairs[i].0 != pairs.last().0);
            }
        }
    }
}

/// Replacing the value of a present key, or appending an absent key, gives
/// the map with that key set.
pub proof fn lemma_pairs_map_set(
    old_pairs: Seq<(Seq<char>, FileEntryView)>,
    new_pairs: Seq<(Seq<char>, FileEntryView)>,
    k: Seq<char>,
    v: FileEntryView,
)
    requires
        keys_distinct(old_pairs),
        (exists|i: int| 0 <= i < old_pairs.len() && old_pairs[i].0 == k && new_pairs == old_pairs.update(i, (k, v)))
            || ((forall|i: int| 0 <= i < old_pairs.len() ==> old_pairs[i].0 != k) && new_pairs == old_pairs.push((k, v))),
    ensures
        keys_distinct(new_pairs),
        pairs_map(new_pairs) == pairs_map(old_pairs).insert(k, v),
{
    lemma_pairs_map(old_pairs);
    assert(keys_distinct(new_pairs));
    lemma_pairs_map(new_pairs);
    let m1 = pairs_map(new_pairs);
    let m2 = pairs_map(old_pairs).insert(k, v);
    assert forall|key: Seq<char>| m1.contains_key(key) <==> m2.contains_key(key) by {
        if m1.contains_key(key) {
            let j = choose|j: int| 0 <= j < new_pairs.len() && new_pairs[j].0 == key;
            if key != k {
                assert(old_pairs[j].0 == key);
            }
        }
        if m2.contains_key(key) && key != k {
            let j = choose|j: int| 0 <= j < old_pairs.len() && old_pairs[j].0 == key;
            assert(new_pairs[j].0 == key);
        }
        if key == k {
            if exists|i: int| 0 <= i < old_pairs.len() && old_pairs[i].0 == k && new_pairs == old_pairs.update(i, (k, v)) {
                let i = choose|i: int| 0 <= i < old_pairs.len() && old_pairs[i].0 == k && new_pairs == old_pairs.update(i, (k, v));
                assert(new_pairs[i].0 == k);
            } else {
                assert(new_pairs[old_pairs.len() as int].0 == k);
            }
        }
    }
    assert forall|key: Seq<char>| m1.contains_key(key) implies m1[key] == m2[key] by {
        let j = choose|j: int| 0 <= j < new_pairs.len() && new_pairs[j].0 == key;
        assert(m1[new_pairs[j].0] == new_pairs[j].1);
        if key != k {
            assert(old_pairs[j].0 == key);
            assert(pairs_map(old_pairs)[old_pairs[j].0] == old_pairs[j].1);
        }
    }
    assert(m1 =~= m2);
}

/// File entries keyed by normalized relative path (forward slashes). Keys
/// are unique; entries keep the order in which their keys were first inserted.
#[derive(Debug)]
pub struct IndexEntries {
    items: Vec<(String, FileEntry)>,
}

impl View for IndexEntries {
    type V = Seq<(Seq<char>, FileEntryView)>;

    closed spec fn view(&self) -> Seq<(Seq<char>, FileEntryView)> {
        self.items@.map_values(|p: (String, FileEntry)| (p.0@, p.1@))
    }
}

impl IndexEntries {
    #[verifier::type_invariant]
    spec fn distinct_keys(&self) -> bool {
        keys_distinct(self@)
    }

    /// The entries as a map from path to entry.
    pub open spec fn as_map(&self) -> Map<Seq<char>, FileEntryView> {
        pairs_map(self@)
    }

    /// No entries.
    pub fn new() -> (res: Self)
        ensures
            res@ == Seq::<(Seq<char>, FileEntryView)>::empty(),
    {
        let res = IndexEntries { items: Vec::new() };
        assert(res@ =~= Seq::<(Seq<char>, FileEntryView)>::empty());
        res
    }

    /// Number of entries.
    pub fn len(&self) -> (res: usize)
        ensures
            res == self@.len(),
    {
        self.items.len()
    }

    /// The (path, entry) pairs, in order.
    pub fn as_pairs(&self) -> (res: &Vec<(String, FileEntry)>)
        ensures
            res@.map_values(|p: (String, FileEntry)| (p.0@, p.1@)) == self@,
    {
        &self.items
    }

    /// Whether there are no entries.
    pub fn is_empty(&self) -> (res: bool)
        ensures
            res == (self@.len() == 0),
    {
        self.items.len() == 0
    }

    /// Position of the entry with key `k`.
    fn position(&self, k: &str) -> (res: Option<usize>)
        ensures
            match res {
                Some(i) => i < self@.len() && self@[i as int].0 == k@,
                None => forall|i: int| 0 <= i < self@.len() ==> self@[i].0 != k@,
            },
    {
        let n = self.items.len();
        let mut i: usize = 0;
        while i < n
            invariant
                n == self@.len(),
                n == self.items@.len(),
                i <= n,
                forall|j: int| 0 <= j < i ==> self@[j].0 != k@,
            decreases n - i,
        {
            if crate::text::str_equal(self.items[i].0.as_str(), k) {
                return Some(i);
            }
            i = i + 1;
        }
        None
    }

    /// Whether an entry with key `k` exists.
    pub fn contains_key(&self, k: &str) -> (res: bool)
        ensures
            res == self.as_map().contains_key(k@),
    {
        proof {
            use_type_invariant(self);
            lemma_pairs_map(self@);
        }
        match self.position(k) {
            Some(_) => true,
            None => false,
        }
    }

    /// The entry with key `k`, if any.
    pub fn get(&self, k: &str) -> (res: Option<&FileEntry>)
        ensures
            match res {
                Some(e) => self.as_map().contains_key(k@) && e@ == self.as_map()[k@],
                None => !self.as_map().contains_key(k@),
            },
    {
        proof {
            use_type_invariant(self);
            lemma_pairs_map(self@);
        }
        match self.position(k) {
            Some(i) => {
                assert(self@[i as int] == (self.items@[i as int].0@, self.items@[i as int].1@));
                Some(&self.items[i].1)
            },
            None => None,
        }
    }

    /// Sets the entry of key `k` to `v`, returning the entry it replaces. A
    /// new key goes last; an existing key keeps its position.
    pub fn insert(&mut self, k: String, v: FileEntry) -> (res: Option<FileEntry>)
        ensures
            final(self).as_map() == old(self).as_map().insert(k@, v@),
            match res {
                Some(e) => old(self).as_map().contains_key(k@) && e@ == old(self).as_map()[k@],
                None => !old(self).as_map().contains_key(k@),
            },
            old(self).as_map().contains_key(k@) ==> final(self)@.len() == old(self)@.len(),
            !old(self).as_map().contains_key(k@) ==> final(self)@ == old(self)@.push((k@, v@)),
    {
        proof {
            use_type_invariant(&*self);
            lemma_pairs_map(self@);
        }
        let ghost old_pairs = self@;
        let pos = self.position(k.as_str());
        let mut items: Vec<(String, FileEntry)> = Vec::new();
        std::mem::swap(&mut items, &mut self.items);
        let ghost old_items = items@;
        assert(old_pairs == old_items.map_values(|p: (String, FileEntry)| (p.0@, p.1@)));
        let res = match pos {
            Some(i) => {
                let ghost kv = k@;
                let ghost vv = v@;
                let (_, prev) = items.remove(i);
                items.insert(i, (k, v));
                let ghost new_pairs = items@.map_values(|p: (String, FileEntry)| (p.0@, p.1@));
                assert(new_pairs =~= old_pairs.update(i as int, (kv, vv)));
                assert(prev@ == old_pairs[i as int].1);
                Some(prev)
            },
            None => {
                let ghost kv = k@;
                let ghost vv = v@;
                items.push((k, v));
                let ghost new_pairs = items@.map_values(|p: (String, FileEntry)| (p.0@, p.1@));
                assert(new_pairs =~= old_pairs.push((kv, vv)));
                None
            },
        };
        self.items = items;
        proof {
            lemma_pairs_map_set(old_pairs, self@, k@, v@);
        }
        res
    }
}


impl Clone for IndexEntries {
    /// A copy with the same entries in the same order.
    fn clone(&self) -> (res: Self)
        ensures
            res@ == self@,
    {
        proof {
            use_type_invariant(self);
        }
        let n = self.items.len();
        let mut items: Vec<(String, FileEntry)> = Vec::new();
        let mut i: usize = 0;
        while i < n
            invariant
                n == self.items@.len(),
                n == self@.len(),
                i <= n,
                items@.map_values(|p: (String, FileEntry)| (p.0@, p.1@)) == self@.take(i as int),
            decreases n - i,
        {
            let key = self.items[i].0.clone();
            let entry = self.items[i].1.duplicate();
            let ghost before = items@;
            items.push((key, entry));
            proof {
                assert(items@.map_values(|p: (String, FileEntry)| (p.0@, p.1@)) =~= before.map_values(
                    |p: (String, FileEntry)| (p.0@, p.1@),
                ).push(self@[i as int]));
                assert(self@.take(i + 1) =~= self@.take(i as int).push(self@[i as int]));
            }
            i = i + 1;
        }
        assert(self@.take(n as int) =~= self@);
        IndexEntries { items }
    }
}

/// All blob names of the entries, entry by entry, each entry's in chunk order.
pub open spec fn all_hashes(pairs: Seq<(Seq<char>, FileEntryView)>) -> Seq<Seq<char>>
    decreases pairs.len(),
{
    if pairs.len() == 0 {
        Seq::empty()
    } else {
        all_hashes(pairs.drop_last()) + pairs.last().1.blob_hashes
    }
}

/// A blob name is listed exactly when some entry lists it.
pub proof fn lemma_all_hashes_contains(pairs: Seq<(Seq<char>, FileEntryView)>, h: Seq<char>)
    ensures
        all_hashes(pairs).contains(h) <==> exists|i: int| 0 <= i < pairs.len() && (#[trigger] pairs[i]).1.blob_hashes.contains(h),
    decreases pairs.len(),
{
    if pairs.len() > 0 {
        let init = pairs.drop_last();
        lemma_all_hashes_contains(init, h);
        let a = all_hashes(init);
        let b = pairs.last().1.blob_hashes;
        if (a + b).contains(h) {
            let j = choose|j: int| 0 <= j < (a + b).len() && (a + b)[j] == h;
            if j < a.len() {
                assert(a.contains(h));
                let i = choose|i: int| 0 <= i < init.len() && (#[trigger] init[i]).1.blob_hashes.contains(h);
                assert(pairs[i] == init[i]);
            } else {
                assert(b[j - a.len()] == h);
                assert(pairs[pairs.len() - 1].1.blob_hashes.contains(h));
            }
        }
        if exists|i: int| 0 <= i < pairs.len() && (#[trigger] pairs[i]).1.blob_hashes.contains(h) {
            let i = choose|i: int| 0 <= i < pairs.len() && (#[trigger] pairs[i]).1.blob_hashes.contains(h);
            if i < pairs.len() - 1 {
                assert(init[i] == pairs[i]);
                let j = choose|j: int| 0 <= j < a.len() && a[j] == h;
                assert((a + b)[j] == h);
            } else {
                let j = choose|j: int| 0 <= j < b.len() && b[j] == h;
                assert((a + b)[a.len() + j] == h);
            }
        }
    }
}

/// The number of blob names listed is the sum of the entries' counts.
pub open spec fn hash_count(pairs: Seq<(Seq<char>, FileEntryView)>) -> nat
    decreases pairs.len(),
{
    if pairs.len() == 0 {
        0
    } else {
        hash_count(pairs.drop_last()) + pairs.last().1.blob_hashes.len()
    }
}

proof fn lemma_all_hashes_len(pairs: Seq<(Seq<char>, FileEntryView)>)
    ensures
        all_hashes(pairs).len() == hash_count(pairs),
    decreases pairs.len(),
{
    if pairs.len() > 0 {
        lemma_all_hashes_len(pairs.drop_last());
    }
}

/// The blob names that `get_all_blob_hashes` lists are those of the index
/// entries: a name is listed exactly when the entry of some path holds it,
/// and their number is the sum over all entries.
pub proof fn law_all_blob_hashes(pairs: Seq<(Seq<char>, FileEntryView)>, h: Seq<char>)
    requires
        keys_distinct(pairs),
    ensures
        all_hashes(pairs).contains(h) <==> exists|k: Seq<char>| #[trigger] pairs_map(pairs).contains_key(k) && pairs_map(pairs)[k].blob_hashes.contains(h),
        all_hashes(pairs).len() == hash_count(pairs),
{
    lemma_all_hashes_contains(pairs, h);
    lemma_pairs_map(pairs);
    lemma_all_hashes_len(pairs);
    let m = pairs_map(pairs);
    if all_hashes(pairs).contains(h) {
        let i = choose|i: int| 0 <= i < pairs.len() && (#[trigger] pairs[i]).1.blob_hashes.contains(h);
        assert(m[pairs[i].0] == pairs[i].1);
        assert(m.contains_key(pairs[i].0));
    }
    if exists|k: Seq<char>| #[trigger] m.contains_key(k) && m[k].blob_hashes.contains(h) {
        let k = choose|k: Seq<char>| #[trigger] m.contains_key(k) && m[k].blob_hashes.contains(h);
        let i = choose|i: int| 0 <= i < pairs.len() && pairs[i].0 == k;
        assert(m[pairs[i].0] == pairs[i].1);
        assert(pairs[i].1.blob_hashes.contains(h));
    }
}

/// The local index (format version 2, with modification-time caching).
#[derive(Debug, Clone)]
pub struct IndexData {
    /// Index format version.
    pub version: u32,
    /// Configuration fingerprint for detecting chunking configuration changes.
    pub config_hash: String,
    /// Session that last uploaded these blobs to the remote service.
    pub session_id: Option<String>,
    /// File entries keyed by normalized relative path.
    pub entries: IndexEntries,
}

impl Default for IndexData {
    fn default() -> (res: Self)
        ensures
            res.version == 0,
            res.config_hash@ == Seq::<char>::empty(),
            res.session_id is None,
            res.entries@ == Seq::<(Seq<char>, FileEntryView)>::empty(),
    {
        IndexData { version: 0, config_hash: String::new(), session_id: None, entries: IndexEntries::new() }
    }
}

impl IndexEntries {
    /// All blob names of the entries, entry by entry.
    pub fn all_blob_hashes(&self) -> (res: Vec<String>)
        ensures
            string_views(res@) == all_hashes(self@),
    {
        let mut out: Vec<String> = Vec::new();
        let n = self.items.len();
        let mut i: usize = 0;
        while i < n
            invariant
                n == self.items@.len(),
                n == self@.len(),
                i <= n,
                string_views(out@) == all_hashes(self@.take(i as int)),
            decreases n - i,
        {
            let hs = copy_strings(&self.items[i].1.blob_hashes);
            let ghost before = string_views(out@);
            let m = hs.len();
            let mut j: usize = 0;
            while j < m
                invariant
                    m == hs@.len(),
                    j <= m,
                    string_views(out@) == before + string_views(hs@).take(j as int),
                decreases m - j,
            {
                let c = hs[j].clone();
                assert(c@ == hs@[j as int]@);
                let ghost prev = out@;
                out.push(c);
                j = j + 1;
                proof {
                    assert(string_views(out@) =~= string_views(prev).push(c@));
                    assert(string_views(hs@).take(j as int) =~= string_views(hs@).take(j - 1).push(hs@[j - 1]@));
                }
            }
            proof {
                assert(string_views(hs@).take(m as int) =~= string_views(hs@));
                assert(self@[i as int].1.blob_hashes == string_views(self.items@[i as int].1.blob_hashes@));
                assert(self@.take(i + 1).drop_last() =~= self@.take(i as int));
            }
            i = i + 1;
        }
        assert(self@.take(n as int) =~= self@);
        out
    }
}

impl IndexData {
    /// All blob names of all entries.
    pub fn get_all_blob_hashes(&self) -> (res: Vec<String>)
        ensures
            string_views(res@) == all_hashes(self.entries@),
    {
        self.entries.all_blob_hashes()
    }
}

// ---------------------------------------------------------------------------
// Content classification and cleaning
// ---------------------------------------------------------------------------

/// Control characters removed by sanitizing: every C0 control except
/// tab, line feed and carriage return, and DEL.
pub open spec fn is_removed_control(c: char) -> bool {
    let v = c as u32;
    v <= 8 || v == 11 || v == 12 || (14 <= v && v <= 31) || v == 127
}

/// Characters counted as non-printable when detecting binary content:
/// C0 controls except tab, line feed, vertical tab, form feed and carriage
/// return, and DEL.
pub open spec fn is_non_printable(c: char) -> bool {
    let v = c as u32;
    v <= 8 || (14 <= v && v <= 31) || v == 127
}

/// `s` with the removed control characters dropped.
pub open spec fn sanitized(s: Seq<char>) -> Seq<char> {
    s.filter(|c: char| !is_removed_control(c))
}

/// Number of non-printable characters in `s`.
pub open spec fn non_printable_count(s: Seq<char>) -> nat {
    s.filter(|c: char| is_non_printable(c)).len()
}

/// Content is binary when more than a tenth of its characters are non-printable.
pub open spec fn is_binary(s: Seq<char>) -> bool {
    non_printable_count(s) > s.len() / 10
}

pub(crate) proof fn lemma_filter_push(s: Seq<char>, pred: spec_fn(char) -> bool, c: char)
    ensures
        pred(c) ==> s.push(c).filter(pred) == s.filter(pred).push(c),
        !pred(c) ==> s.push(c).filter(pred) == s.filter(pred),
{
    reveal(Seq::filter);
    assert(s.push(c).drop_last() == s);
}

proof fn lemma_filter_keeps_all(s: Seq<char>, pred: spec_fn(char) -> bool)
    requires
        forall|i: int| 0 <= i < s.len() ==> pred(#[trigger] s[i]),
    ensures
        s.filter(pred) == s,
    decreases s.len(),
{
    reveal(Seq::filter);
    if s.len() > 0 {
        lemma_filter_keeps_all(s.drop_last(), pred);
        assert(s.drop_last().push(s.last()) =~= s);
    }
}

/// Cleaning leaves no control character other than tab, line feed and
/// carriage return, so cleaning clean content changes nothing.
pub proof fn law_sanitize_idempotent(s: Seq<char>)
    ensures
        forall|i: int| 0 <= i < sanitized(s).len() ==> !is_removed_control(#[trigger] sanitized(s)[i]),
        sanitized(sanitized(s)) == sanitized(s),
{
    let pred = |c: char| !is_removed_control(c);
    s.filter_lemma(pred);
    lemma_filter_keeps_all(sanitized(s), pred);
}

/// Removes control characters that are neither tab, line feed nor carriage return.
pub fn sanitize_text(content: &str) -> (res: String)
    ensures
        res@ == sanitized(content@),
{
    let mut out: Vec<char> = Vec::new();
    let ghost pred = |c: char| !is_removed_control(c);
    for c in it: content.chars()
        invariant
            it.seq() == content@,
            pred == (|c: char| !is_removed_control(c)),
            out@ == it.seq().take(it.index() as int).filter(pred),
    {
        let ghost k = it.index() as int;
        proof {
            assert(it.seq().take(k + 1) == it.seq().take(k).push(c));
            lemma_filter_push(it.seq().take(k), pred, c);
        }
        let v: u32 = c as u32;
        let removed = v <= 8 || v == 11 || v == 12 || (14 <= v && v <= 31) || v == 127;
        if !removed {
            out.push(c);
        }
    }
    assert(content@.take(content@.len() as int) =~= content@);
    string_from_chars(&out)
}

/// Decides whether content is binary: more than a tenth of its characters
/// are non-printable.
pub fn binary_text(content: &str) -> (res: bool)
    ensures
        res == is_binary(content@),
{
    let byte_len = content.unicode_len();
    let mut total: usize = 0;
    let mut non_printable: usize = 0;
    let ghost pred = |c: char| is_non_printable(c);
    for c in it: content.chars()
        invariant
            it.seq() == content@,
            pred == (|c: char| is_non_printable(c)),
            total == it.index(),
            it.seq().len() <= byte_len,
            non_printable == it.seq().take(it.index() as int).filter(pred).len(),
            non_printable <= total,
    {
        let ghost k = it.index() as int;
        proof {
            assert(it.seq().take(k + 1) == it.seq().take(k).push(c));
            lemma_filter_push(it.seq().take(k), pred, c);
        }
        let v: u32 = c as u32;
        if v <= 8 || (14 <= v && v <= 31) || v == 127 {
            non_printable = non_printable + 1;
        }
        total = total + 1;
    }
    assert(content@.take(content@.len() as int) =~= content@);
    if total == 0 {
        return false;
    }
    non_printable > total / 10
}

// ---------------------------------------------------------------------------
// Splitting content into blobs
// ---------------------------------------------------------------------------

/// The number of lines per blob actually used.
pub open spec fn effective_max_lines(max_lines_per_blob: usize) -> nat {
    if max_lines_per_blob == 0 {
        DEFAULT_MAX_LINES_PER_BLOB as nat
    } else {
        max_lines_per_blob as nat
    }
}

/// The number of chunks needed for `total` lines, `max` per chunk (`div_ceil`).
pub open spec fn chunk_count(total: nat, max: nat) -> nat {
    if total % max == 0 {
        total / max
    } else {
        total / max + 1
    }
}

/// The path of chunk `i` (counting from zero) out of `n`.
pub open spec fn chunk_path(path: Seq<char>, i: nat, n: nat) -> Seq<char> {
    path + "#chunk"@ + decimal(i + 1) + "of"@ + decimal(n)
}

/// The lines of chunk `i` when chunks hold `max` lines each.
pub open spec fn chunk_lines(ls: Seq<Seq<char>>, i: nat, max: nat) -> Seq<Seq<char>> {
    let start: int = (i * max) as int;
    let end: int = if start + max <= ls.len() { start + max } else { ls.len() as int };
    ls.subrange(start, end)
}

/// The blobs (path, content) that a file's content is split into: the whole
/// content under the file's path when it has at most the maximum number of
/// lines; otherwise consecutive runs of that many lines (the last one
/// shorter), each joined with `'\n'`, under `path#chunk{i}of{n}`.
pub open spec fn split_spec(path: Seq<char>, content: Seq<char>, max_lines_per_blob: usize) -> Seq<
    (Seq<char>, Seq<char>),
> {
    let ls = lines_of(content);
    let max = effective_max_lines(max_lines_per_blob);
    if ls.len() <= max {
        seq![(path, content)]
    } else {
        let n = chunk_count(ls.len(), max);
        Seq::new(n, |i: int| (chunk_path(path, i as nat, n), join_lines(chunk_lines(ls, i as nat, max))))
    }
}

proof fn lemma_chunk_bounds(total: nat, max: nat, i: nat)
    requires
        max > 0,
        i < chunk_count(total, max),
    ensures
        i * max < total,
        (i + 1) * max == i * max + max,
{
    assert((i + 1) * max == i * max + max) by (nonlinear_arith);
    vstd::arithmetic::div_mod::lemma_fundamental_div_mod(total as int, max as int);
    assert(i * max < total) by (nonlinear_arith)
        requires
            max > 0,
            i < (if total % max == 0 { total / max } else { total / max + 1 }),
            total == max * (total / max) + total % max,
            0 <= total % max < max,
    {
        if total % max == 0 {
            assert(i + 1 <= total / max);
            assert((i + 1) * max <= (total / max) * max);
        } else {
            assert(i <= total / max);
            assert(i * max <= (total / max) * max);
        }
    }
}

proof fn lemma_chunk_count_end(total: nat, max: nat, n: nat)
    requires
        max > 0,
        n == chunk_count(total, max),
    ensures
        n * max >= total,
{
    vstd::arithmetic::div_mod::lemma_fundamental_div_mod(total as int, max as int);
    assert(n * max >= total) by (nonlinear_arith)
        requires
            max > 0,
            n == (if total % max == 0 { total / max } else { total / max + 1 }),
            total == max * (total / max) + total % max,
            0 <= total % max < max,
    {
    }
}

/// Builds the path of chunk `idx` (from zero) out of `n`.
fn make_chunk_path(path: &str, idx: usize, n: usize) -> (res: String)
    requires
        idx < n,
    ensures
        res@ == chunk_path(path@, idx as nat, n as nat),
{
    let mut out = chars_of(path);
    push_str(&mut out, "#chunk");
    push_decimal(&mut out, idx + 1);
    push_str(&mut out, "of");
    push_decimal(&mut out, n);
    string_from_chars(&out)
}

/// The lines of chunks `0..k`, in order.
pub open spec fn chunks_concat(ls: Seq<Seq<char>>, max: nat, k: nat) -> Seq<Seq<char>>
    decreases k,
{
    if k == 0 {
        Seq::empty()
    } else {
        chunks_concat(ls, max, (k - 1) as nat) + chunk_lines(ls, (k - 1) as nat, max)
    }
}

proof fn lemma_chunks_concat(ls: Seq<Seq<char>>, max: nat, k: nat)
    requires
        max > 0,
        k <= chunk_count(ls.len(), max),
    ensures
        chunks_concat(ls, max, k) == ls.take(if k * max <= ls.len() { (k * max) as int } else { ls.len() as int }),
    decreases k,
{
    if k > 0 {
        let j = (k - 1) as nat;
        lemma_chunks_concat(ls, max, j);
        lemma_chunk_bounds(ls.len(), max, j);
        let start = (j * max) as int;
        let end: int = if start + max <= ls.len() { start + max } else { ls.len() as int };
        assert(k * max == j * max + max) by (nonlinear_arith)
            requires
                k == j + 1,
        ;
        assert(ls.take(start) + ls.subrange(start, end) =~= ls.take(end));
    } else {
        assert(k * max == 0) by (nonlinear_arith)
            requires
                k == 0,
        ;
        assert(ls.take(0) =~= Seq::<Seq<char>>::empty());
    }
}

/// Splitting a file of more lines than the maximum keeps every line: the
/// chunks, in order, hold exactly the file's lines, each between one and the
/// maximum number of lines; chunk `i` is named `path#chunk{i+1}of{n}` and
/// holds its lines joined with line feeds.
pub proof fn law_split_keeps_lines(path: Seq<char>, content: Seq<char>, max_lines_per_blob: usize)
    requires
        lines_of(content).len() > effective_max_lines(max_lines_per_blob),
    ensures
        ({
            let ls = lines_of(content);
            let max = effective_max_lines(max_lines_per_blob);
            let n = chunk_count(ls.len(), max);
            &&& split_spec(path, content, max_lines_per_blob).len() == n
            &&& chunks_concat(ls, max, n) == ls
            &&& forall|i: nat| i < n ==> 1 <= #[trigger] chunk_lines(ls, i, max).len() <= max
            &&& forall|i: int| 0 <= i < n ==> #[trigger] split_spec(path, content, max_lines_per_blob)[i] == (
                chunk_path(path, i as nat, n),
                join_lines(chunk_lines(ls, i as nat, max)),
            )
        }),
{
    let ls = lines_of(content);
    let max = effective_max_lines(max_lines_per_blob);
    let n = chunk_count(ls.len(), max);
    lemma_chunks_concat(ls, max, n);
    lemma_chunk_count_end(ls.len(), max, n);
    assert(ls.take(ls.len() as int) =~= ls);
    assert forall|i: nat| i < n implies 1 <= #[trigger] chunk_lines(ls, i, max).len() <= max by {
        lemma_chunk_bounds(ls.len(), max, i);
    }
}

/// Splits a file's content into blobs of at most `max_lines_per_blob` lines
/// (800 when it is zero).
pub fn split_content(file_path: &str, content: &str, max_lines_per_blob: usize) -> (res: Vec<Blob>)
    ensures
        blob_views(res@) == split_spec(file_path@, content@, max_lines_per_blob),
{
    let lines = split_lines(content);
    let total = lines.len();
    let max_lines: usize = if max_lines_per_blob == 0 {
        DEFAULT_MAX_LINES_PER_BLOB
    } else {
        max_lines_per_blob
    };
    let ghost ls = lines_of(content@);
    let ghost spec = split_spec(file_path@, content@, max_lines_per_blob);
    if total <= max_lines {
        let mut single: Vec<Blob> = Vec::new();
        single.push(Blob { path: file_path.to_owned(), content: content.to_owned() });
        assert(blob_views(single@) =~= spec);
        return single;
    }
    let num_chunks: usize = if total % max_lines == 0 {
        total / max_lines
    } else {
        assert(total / max_lines < total) by (nonlinear_arith)
            requires
                max_lines >= 2,
                total > 0,
        {
        }
        total / max_lines + 1
    };
    let ghost n = num_chunks as nat;
    let mut blobs: Vec<Blob> = Vec::new();
    let mut chunk_idx: usize = 0;
    while chunk_idx < num_chunks
        invariant
            views(lines@) == ls,
            total == ls.len(),
            max_lines as nat == effective_max_lines(max_lines_per_blob),
            max_lines > 0,
            total > max_lines,
            num_chunks as nat == chunk_count(total as nat, max_lines as nat),
            spec == Seq::new(n, |i: int| (chunk_path(file_path@, i as nat, n), join_lines(chunk_lines(ls, i as nat, max_lines as nat)))),
            n == num_chunks,
            chunk_idx <= num_chunks,
            blob_views(blobs@) == spec.take(chunk_idx as int),
        decreases num_chunks - chunk_idx,
    {
        proof {
            lemma_chunk_bounds(total as nat, max_lines as nat, chunk_idx as nat);
        }
        let start: usize = chunk_idx * max_lines;
        let end: usize = if total - start < max_lines { total } else { start + max_lines };
        let chunk_content = join_line_range(&lines, start, end);
        let chunk_path_s = make_chunk_path(file_path, chunk_idx, num_chunks);
        let ghost before = blob_views(blobs@);
        blobs.push(Blob { path: chunk_path_s, content: string_from_chars(&chunk_content) });
        proof {
            assert(chunk_lines(ls, chunk_idx as nat, max_lines as nat) == views(lines@).subrange(start as int, end as int));
            assert(blob_views(blobs@) =~= before.push(spec[chunk_idx as int]));
            assert(spec.take(chunk_idx + 1) =~= spec.take(chunk_idx as int).push(spec[chunk_idx as int]));
        }
        chunk_idx = chunk_idx + 1;
    }
    assert(spec.take(num_chunks as int) =~= spec);
    blobs
}

// ---------------------------------------------------------------------------
// Upload batches
// ---------------------------------------------------------------------------

/// The blobs of consecutive batches, in order.
pub open spec fn flatten_batches(bs: Seq<Seq<Blob>>) -> Seq<Blob>
    decreases bs.len(),
{
    if bs.len() == 0 {
        Seq::empty()
    } else {
        flatten_batches(bs.drop_last()) + bs.last()
    }
}

/// Total size of a sequence of blobs.
pub open spec fn total_size(bs: Seq<Blob>) -> nat
    decreases bs.len(),
{
    if bs.len() == 0 {
        0
    } else {
        total_size(bs.drop_last()) + blob_size(bs.last())
    }
}

/// The blobs of each batch.
pub open spec fn batch_views(v: Seq<Vec<Blob>>) -> Seq<Seq<Blob>> {
    v.map_values(|b: Vec<Blob>| b@)
}

/// What every batch satisfies: it is non-empty, holds at most `max` blobs,
/// and stays within the byte limit unless it is a single blob.
pub open spec fn batch_ok(b: Seq<Blob>, max: nat) -> bool {
    &&& b.len() > 0
    &&& b.len() <= max
    &&& (total_size(b) <= MAX_BATCH_SIZE || b.len() == 1)
}

/// Batch `b` was closed only because the next blob `next` would not fit:
/// either it was full or adding `next` would pass the byte limit.
pub open spec fn batch_closed_for(b: Seq<Blob>, next: Blob, max: nat) -> bool {
    b.len() >= max || total_size(b) + blob_size(next) > MAX_BATCH_SIZE
}

/// The greedy batching of blobs: the batches, in order, hold exactly the
/// blobs given; each is well-formed; and each but the last was closed only
/// because the first blob of the next one would not fit.
pub open spec fn is_greedy_batching(blobs: Seq<Blob>, batches: Seq<Seq<Blob>>, max: nat) -> bool {
    &&& flatten_batches(batches) == blobs
    &&& forall|i: int| 0 <= i < batches.len() ==> batch_ok(#[trigger] batches[i], max)
    &&& forall|i: int|
        0 <= i < batches.len() - 1 ==> batch_closed_for(#[trigger] batches[i], batches[i + 1][0], max)
}

proof fn lemma_total_size_push(bs: Seq<Blob>, b: Blob)
    ensures
        total_size(bs.push(b)) == total_size(bs) + blob_size(b),
{
    assert(bs.push(b).drop_last() == bs);
}

proof fn lemma_total_size_append(a: Seq<Blob>, b: Seq<Blob>)
    ensures
        total_size(a + b) == total_size(a) + total_size(b),
    decreases b.len(),
{
    if b.len() == 0 {
        assert(a + b == a);
    } else {
        lemma_total_size_append(a, b.drop_last());
        assert((a + b).drop_last() == a + b.drop_last());
    }
}

/// A prefix of a sequence of blobs is no larger than the whole.
pub proof fn lemma_total_size_prefix(bs: Seq<Blob>, k: int)
    requires
        0 <= k <= bs.len(),
    ensures
        total_size(bs.take(k)) <= total_size(bs),
{
    assert(bs == bs.take(k) + bs.skip(k));
    lemma_total_size_append(bs.take(k), bs.skip(k));
}

proof fn lemma_flatten_push(bs: Seq<Seq<Blob>>, b: Seq<Blob>)
    ensures
        flatten_batches(bs.push(b)) == flatten_batches(bs) + b,
{
    assert(bs.push(b).drop_last() == bs);
}

/// Groups blobs into batches of at most `max(1, max_blobs_per_batch)` blobs
/// and at most `MAX_BATCH_SIZE` bytes (a single larger blob forms a batch of
/// its own), keeping their order.
pub fn build_batches(blobs: Vec<Blob>, max_blobs_per_batch: usize) -> (res: Vec<Vec<Blob>>)
    requires
        total_size(blobs@) <= usize::MAX,
    ensures
        is_greedy_batching(
            blobs@,
            batch_views(res@),
            if max_blobs_per_batch == 0 { 1 } else { max_blobs_per_batch as nat },
        ),
{
    let max: usize = if max_blobs_per_batch == 0 { 1 } else { max_blobs_per_batch };
    let ghost maxn = max as nat;
    let ghost all = blobs@;
    let mut batches: Vec<Vec<Blob>> = Vec::new();
    let mut current: Vec<Blob> = Vec::new();
    let mut current_size: usize = 0;
    for blob in it: blobs
        invariant
            max > 0,
            maxn == max,
            it.seq() == all,
            total_size(all) <= usize::MAX,
            flatten_batches(batch_views(batches@)) + current@ == all.take(it.index() as int),
            current_size == total_size(current@),
            forall|i: int| 0 <= i < batches@.len() ==> batch_ok(#[trigger] batch_views(batches@)[i], maxn),
            forall|i: int|
                0 <= i < batches@.len() - 1 ==> batch_closed_for(
                    #[trigger] batch_views(batches@)[i],
                    batch_views(batches@)[i + 1][0],
                    maxn,
                ),
            batches@.len() > 0 ==> current@.len() > 0,
            batches@.len() > 0 ==> batch_closed_for(batch_views(batches@).last(), current@[0], maxn),
            current@.len() <= maxn,
            current@.len() > 0 ==> (total_size(current@) <= MAX_BATCH_SIZE || current@.len() == 1),
    {
        let ghost k = it.index() as int;
        let ghost prefix = all.take(k);
        let ghost flat = flatten_batches(batch_views(batches@));
        proof {
            assert(all.take(k + 1) == prefix.push(blob));
            assert(all == all.take(k + 1) + all.skip(k + 1));
            lemma_total_size_append(all.take(k + 1), all.skip(k + 1));
            lemma_total_size_push(prefix, blob);
            lemma_total_size_append(flat, current@);
        }
        let content_len = blob.content.as_str().len();
        let path_len = blob.path.as_str().len();
        let blob_size_now: usize = content_len + path_len;
        let would_exceed_size = current_size + blob_size_now > MAX_BATCH_SIZE;
        let would_exceed_count = current.len() >= max;
        if current.len() > 0 && (would_exceed_size || would_exceed_count) {
            let finished = current;
            let ghost fv = finished@;
            let ghost before = batch_views(batches@);
            batches.push(finished);
            proof {
                assert(batch_views(batches@) =~= before.push(fv));
                lemma_flatten_push(before, fv);
                assert forall|i: int| 0 <= i < batches@.len() - 1 implies batch_closed_for(
                    #[trigger] batch_views(batches@)[i],
                    batch_views(batches@)[i + 1][0],
                    maxn,
                ) by {
                    if i < before.len() - 1 {
                        assert(batch_views(batches@)[i] == before[i]);
                        assert(batch_views(batches@)[i + 1] == before[i + 1]);
                    } else {
                        assert(batch_views(batches@)[i] == before.last());
                        assert(batch_views(batches@)[i + 1] == fv);
                    }
                }
                assert forall|i: int| 0 <= i < batches@.len() implies batch_ok(#[trigger] batch_views(batches@)[i], maxn) by {
                    if i < before.len() {
                        assert(batch_views(batches@)[i] == before[i]);
                    }
                }
            }
            current = Vec::new();
            current_size = 0;
            let ghost cur_now = current@;
            current_size = current_size + blob_size_now;
            current.push(blob);
            proof {
                assert(current@ =~= cur_now.push(blob));
                lemma_total_size_push(cur_now, blob);
                assert(cur_now =~= Seq::<Blob>::empty());
                assert(flatten_batches(batch_views(batches@)) + current@ =~= all.take(k + 1));
                assert(batch_views(batches@).last() == fv);
                assert(current@[0] == blob);
            }
        } else {
            let ghost cur_now = current@;
            current_size = current_size + blob_size_now;
            current.push(blob);
            proof {
                assert(current@ =~= cur_now.push(blob));
                lemma_total_size_push(cur_now, blob);
                assert(flatten_batches(batch_views(batches@)) + current@ =~= all.take(k + 1));
                if cur_now.len() > 0 {
                    assert(current@[0] == cur_now[0]);
                }
            }
        }
    }
    proof {
        assert(all.take(all.len() as int) =~= all);
    }
    if current.len() > 0 {
        let finished = current;
        let ghost fv = finished@;
        let ghost before = batch_views(batches@);
        batches.push(finished);
        proof {
            assert(batch_views(batches@) =~= before.push(fv));
            lemma_flatten_push(before, fv);
            assert forall|i: int| 0 <= i < batches@.len() - 1 implies batch_closed_for(
                #[trigger] batch_views(batches@)[i],
                batch_views(batches@)[i + 1][0],
                maxn,
            ) by {
                if i < before.len() - 1 {
                    assert(batch_views(batches@)[i] == before[i]);
                    assert(batch_views(batches@)[i + 1] == before[i + 1]);
                } else {
                    assert(batch_views(batches@)[i] == before.last());
                    assert(batch_views(batches@)[i + 1] == fv);
                }
            }
            assert forall|i: int| 0 <= i < batches@.len() implies batch_ok(#[trigger] batch_views(batches@)[i], maxn) by {
                if i < before.len() {
                    assert(batch_views(batches@)[i] == before[i]);
                }
            }
        }
    } else {
        assert(flatten_batches(batch_views(batches@)) =~= all);
    }
    batches
}


// ---------------------------------------------------------------------------
// Blobs of one file
// ---------------------------------------------------------------------------

/// The blobs of a file with the given content, or none when it is skipped:
/// binary content is skipped; otherwise control characters are removed and
/// content over `MAX_BLOB_SIZE` UTF-8 bytes is skipped; the rest is split.
pub open spec fn file_blobs_spec(rel_path: Seq<char>, content: Seq<char>, max_lines_per_blob: usize) -> Option<Seq<(Seq<char>, Seq<char>)>> {
    if is_binary(content) {
        None
    } else if vstd::utf8::encode_utf8(sanitized(content)).len() > MAX_BLOB_SIZE {
        None
    } else {
        Some(split_spec(rel_path, sanitized(content), max_lines_per_blob))
    }
}

/// Computes the blobs of one file from its decoded content.
pub fn blobs_for_file(rel_path: &str, content: &str, max_lines_per_blob: usize) -> (res: Option<Vec<Blob>>)
    ensures
        match res {
            Some(b) => file_blobs_spec(rel_path@, content@, max_lines_per_blob) == Some(blob_views(b@)),
            None => file_blobs_spec(rel_path@, content@, max_lines_per_blob) is None,
        },
{
    if binary_text(content) {
        return None;
    }
    let clean = sanitize_text(content);
    let byte_len = clean.as_str().as_bytes().len();
    if byte_len > MAX_BLOB_SIZE {
        return None;
    }
    Some(split_content(rel_path, clean.as_str(), max_lines_per_blob))
}

/// The names of blobs given as (path, content).
pub open spec fn names_of(bs: Seq<(Seq<char>, Seq<char>)>) -> Seq<Seq<char>> {
    bs.map_values(|b: (Seq<char>, Seq<char>)| blob_name(b.0, b.1))
}

/// Computes the name of every blob.
pub fn blob_names_of(blobs: &Vec<Blob>) -> (res: Vec<String>)
    ensures
        string_views(res@) == names_of(blob_views(blobs@)),
{
    let mut out: Vec<String> = Vec::new();
    let n = blobs.len();
    let mut i: usize = 0;
    while i < n
        invariant
            n == blobs@.len(),
            i <= n,
            string_views(out@) == names_of(blob_views(blobs@)).take(i as int),
        decreases n - i,
    {
        let name = crate::hashing::calculate_blob_name(blobs[i].path.as_str(), blobs[i].content.as_str());
        let ghost before = string_views(out@);
        out.push(name);
        i = i + 1;
        proof {
            assert(string_views(out@) =~= before.push(names_of(blob_views(blobs@))[i - 1]));
            assert(names_of(blob_views(blobs@)).take(i as int) =~= names_of(blob_views(blobs@)).take(i - 1).push(names_of(blob_views(blobs@))[i - 1]));
        }
    }
    assert(names_of(blob_views(blobs@)).take(n as int) =~= names_of(blob_views(blobs@)));
    out
}

/// Whether two lists of strings are equal.
pub fn strings_equal(a: &Vec<String>, b: &Vec<String>) -> (res: bool)
    ensures
        res == (string_views(a@) == string_views(b@)),
{
    if a.len() != b.len() {
        assert(string_views(a@).len() != string_views(b@).len());
        return false;
    }
    let n = a.len();
    let mut i: usize = 0;
    while i < n
        invariant
            n == a@.len(),
            n == b@.len(),
            i <= n,
            forall|j: int| 0 <= j < i ==> string_views(a@)[j] == string_views(b@)[j],
        decreases n - i,
    {
        if !crate::text::str_equal(a[i].as_str(), b[i].as_str()) {
            assert(string_views(a@)[i as int] != string_views(b@)[i as int]);
            return false;
        }
        i = i + 1;
    }
    assert(string_views(a@) =~= string_views(b@));
    true
}

/// Counts reported after indexing.
#[derive(Debug, Clone)]
pub struct IndexStats {
    pub total_blobs: usize,
    pub existing_blobs: usize,
    pub new_blobs: usize,
    pub failed_batches: Option<usize>,
}

/// Outcome of indexing: `status` is "success", "partial" or "error".
#[derive(Debug, Clone)]
pub struct IndexResult {
    pub status: String,
    pub message: String,
    pub stats: Option<IndexStats>,
}

// ---------------------------------------------------------------------------
// Processing one file against the previous index
// ---------------------------------------------------------------------------

/// Result of processing one file.
#[derive(Debug)]
pub enum ProcessedResult {
    /// Unchanged: the entry is reused.
    Cached { entry: FileEntry },
    /// New or modified: its blobs are to be uploaded.
    New { blobs: Vec<Blob>, entry: FileEntry },
}

/// A processed file and its normalized relative path.
#[derive(Debug)]
pub struct ProcessedFile {
    pub rel_path: String,
    pub result: ProcessedResult,
}

/// The entry a processed file contributes to the new index.
pub open spec fn processed_entry(p: ProcessedFile) -> FileEntryView {
    match p.result {
        ProcessedResult::Cached { entry } => entry@,
        ProcessedResult::New { entry, .. } => entry@,
    }
}

/// How the previous entry of a file relates to its current metadata.
pub enum CacheCheck {
    /// Same seconds, nanoseconds (non-zero) and size: unchanged.
    Hit,
    /// Same seconds and size on a filesystem without sub-second times:
    /// unchanged only if the content gives the same blob names.
    VerifyContent,
    /// No usable previous entry: process the content.
    Miss,
}

/// Compares a file's current modification time and size with its previous
/// entry. An entry without blob names is never reused.
pub fn check_cache(cached: Option<&FileEntry>, mtime_secs: u64, mtime_nanos: u32, size: u64) -> (res: CacheCheck)
    ensures
        match cached {
            Some(c) => if c.mtime_secs == mtime_secs && c.size == size && c.blob_hashes@.len() > 0 {
                if mtime_nanos != 0 && c.mtime_nanos == mtime_nanos {
                    res is Hit
                } else if mtime_nanos == 0 {
                    res is VerifyContent
                } else {
                    res is Miss
                }
            } else {
                res is Miss
            },
            None => res is Miss,
        },
{
    match cached {
        Some(c) => {
            if c.mtime_secs == mtime_secs && c.size == size && c.blob_hashes.len() > 0 {
                if mtime_nanos != 0 && c.mtime_nanos == mtime_nanos {
                    return CacheCheck::Hit;
                }
                if mtime_nanos == 0 {
                    return CacheCheck::VerifyContent;
                }
            }
            CacheCheck::Miss
        },
        None => CacheCheck::Miss,
    }
}

/// `res` keeps the previous entry of `rel_path`: the entry unchanged when
/// the previous index has one, nothing otherwise.
pub open spec fn is_kept_entry(res: Option<ProcessedFile>, old: Map<Seq<char>, FileEntryView>, rel_path: Seq<char>) -> bool {
    if old.contains_key(rel_path) {
        res matches Some(p) && p.rel_path@ == rel_path && p.result is Cached && processed_entry(p) == old[rel_path]
    } else {
        res is None
    }
}

/// Keeps the previous entry of a file, if it has one (used when the file
/// could not be read for a reason other than its absence).
pub fn preserve_old(old_index: &IndexData, rel_path: &str) -> (res: Option<ProcessedFile>)
    ensures
        is_kept_entry(res, old_index.entries.as_map(), rel_path@),
{
    match old_index.entries.get(rel_path) {
        Some(e) => Some(ProcessedFile { rel_path: rel_path.to_owned(), result: ProcessedResult::Cached { entry: e.duplicate() } }),
        None => None,
    }
}

/// Reuses an entry unchanged.
pub fn cache_hit(rel_path: &str, cached: &FileEntry) -> (res: ProcessedFile)
    ensures
        res.rel_path@ == rel_path@,
        res.result is Cached,
        processed_entry(res) == cached@,
{
    ProcessedFile { rel_path: rel_path.to_owned(), result: ProcessedResult::Cached { entry: cached.duplicate() } }
}

/// The entry for a file with the given metadata and blob names.
pub open spec fn entry_view(mtime_secs: u64, mtime_nanos: u32, size: u64, hashes: Seq<Seq<char>>) -> FileEntryView {
    FileEntryView { mtime_secs, mtime_nanos, size, blob_hashes: hashes }
}

/// `res` is the processing of a new or modified file with the given content
/// and metadata: nothing when the file is skipped, else its blobs and an
/// entry listing their names.
pub open spec fn is_new_file_result(
    res: Option<ProcessedFile>,
    rel_path: Seq<char>,
    content: Seq<char>,
    mtime_secs: u64,
    mtime_nanos: u32,
    size: u64,
    max_lines_per_blob: usize,
) -> bool {
    match file_blobs_spec(rel_path, content, max_lines_per_blob) {
        None => res is None,
        Some(bs) => res matches Some(p) && p.rel_path@ == rel_path && (p.result matches ProcessedResult::New { blobs, entry }
            && blob_views(blobs@) == bs && entry@ == entry_view(mtime_secs, mtime_nanos, size, names_of(bs))),
    }
}

/// Processes content read from a file, recording the given metadata: none
/// when the file is skipped (see `file_blobs_spec`), else its blobs and
/// their names.
pub fn process_new_content(
    rel_path: &str,
    content: &str,
    mtime_secs: u64,
    mtime_nanos: u32,
    size: u64,
    max_lines_per_blob: usize,
) -> (res: Option<ProcessedFile>)
    ensures
        is_new_file_result(res, rel_path@, content@, mtime_secs, mtime_nanos, size, max_lines_per_blob),
{
    match blobs_for_file(rel_path, content, max_lines_per_blob) {
        None => None,
        Some(blobs) => {
            let hashes = blob_names_of(&blobs);
            let entry = FileEntry { mtime_secs, mtime_nanos, size, blob_hashes: hashes };
            Some(ProcessedFile { rel_path: rel_path.to_owned(), result: ProcessedResult::New { blobs, entry } })
        },
    }
}

/// `res` is the check of a file's content against its previous entry
/// `cached` (the file's time has no sub-second part): nothing when the
/// content is skipped; the previous blob names with the new time when the
/// content gives the same names; else the file with its new blobs.
pub open spec fn is_checked_result(
    res: Option<ProcessedFile>,
    rel_path: Seq<char>,
    content: Seq<char>,
    cached: FileEntryView,
    mtime_secs: u64,
    size: u64,
    max_lines_per_blob: usize,
) -> bool {
    match file_blobs_spec(rel_path, content, max_lines_per_blob) {
        None => res is None,
        Some(bs) => res matches Some(p) && p.rel_path@ == rel_path && if names_of(bs) == cached.blob_hashes {
            p.result is Cached && processed_entry(p) == entry_view(mtime_secs, 0, size, cached.blob_hashes)
        } else {
            p.result matches ProcessedResult::New { blobs, entry } && blob_views(blobs@) == bs
                && entry@ == entry_view(mtime_secs, 0, size, names_of(bs))
        },
    }
}

/// Checks content of a file whose time has no sub-second part against its
/// previous entry: if the blob names are the same the entry is reused with
/// the new modification time; otherwise the file is new. None when the
/// content is skipped (the caller then treats the file as a cache miss).
pub fn verify_unchanged(
    rel_path: &str,
    content: &str,
    cached: &FileEntry,
    mtime_secs: u64,
    size: u64,
    max_lines_per_blob: usize,
) -> (res: Option<ProcessedFile>)
    ensures
        is_checked_result(res, rel_path@, content@, cached@, mtime_secs, size, max_lines_per_blob),
{
    match blobs_for_file(rel_path, content, max_lines_per_blob) {
        None => None,
        Some(blobs) => {
            let hashes = blob_names_of(&blobs);
            if strings_equal(&hashes, &cached.blob_hashes) {
                let entry = FileEntry { mtime_secs, mtime_nanos: 0, size, blob_hashes: copy_strings(&cached.blob_hashes) };
                Some(ProcessedFile { rel_path: rel_path.to_owned(), result: ProcessedResult::Cached { entry } })
            } else {
                let entry = FileEntry { mtime_secs, mtime_nanos: 0, size, blob_hashes: hashes };
                Some(ProcessedFile { rel_path: rel_path.to_owned(), result: ProcessedResult::New { blobs, entry } })
            }
        },
    }
}

// ---------------------------------------------------------------------------
// Loading the index
// ---------------------------------------------------------------------------

/// Whether a file of `size` bytes may be read for indexing: at most
/// `MAX_BLOB_SIZE` bytes.
pub fn file_size_acceptable(size: u64) -> (res: bool)
    ensures
        res == (size <= MAX_BLOB_SIZE),
{
    size <= MAX_BLOB_SIZE as u64
}

/// Whether an index file of `len` bytes may be read.
pub fn index_size_acceptable(len: u64) -> (res: bool)
    ensures
        res == (len <= MAX_INDEX_BYTES),
{
    len <= MAX_INDEX_BYTES
}

/// A decoded index is used only when it has the current format version and
/// the configuration fingerprint expected; otherwise an empty index is used.
pub fn accept_loaded_index(data: IndexData, expected_config_hash: &str) -> (res: IndexData)
    ensures
        data.version == CURRENT_INDEX_VERSION && data.config_hash@ == expected_config_hash@ ==> res == data,
        !(data.version == CURRENT_INDEX_VERSION && data.config_hash@ == expected_config_hash@) ==> (res.version == 0
            && res.config_hash@.len() == 0 && res.session_id is None && res.entries@.len() == 0),
{
    if data.version == CURRENT_INDEX_VERSION && crate::text::str_equal(data.config_hash.as_str(), expected_config_hash) {
        data
    } else {
        IndexData::default()
    }
}

// ---------------------------------------------------------------------------
// The index manager
// ---------------------------------------------------------------------------

/// Settings of the index manager, taken from the configuration.
pub struct IndexManager {
    project_root: String,
    base_url: String,
    token: String,
    text_extensions: Vec<String>,
    text_filenames: Vec<String>,
    max_lines_per_blob: usize,
    compiled_patterns: Vec<ExcludePattern>,
    config_hash: String,
    retrieval_timeout_secs: u64,
    no_adaptive: bool,
    cli_overrides: CliOverrides,
}

/// Plain values of the index manager's settings.
pub struct IndexManagerView {
    pub project_root: Seq<char>,
    pub base_url: Seq<char>,
    pub token: Seq<char>,
    pub text_extensions: Seq<Seq<char>>,
    pub text_filenames: Seq<Seq<char>>,
    pub max_lines_per_blob: usize,
    pub patterns: Seq<ExcludePatternView>,
    pub config_hash: Seq<char>,
    pub retrieval_timeout_secs: u64,
    pub no_adaptive: bool,
    pub upload_timeout_secs: Option<u64>,
    pub upload_concurrency: Option<usize>,
}

impl View for IndexManager {
    type V = IndexManagerView;

    closed spec fn view(&self) -> IndexManagerView {
        IndexManagerView {
            project_root: self.project_root@,
            base_url: self.base_url@,
            token: self.token@,
            text_extensions: string_views(self.text_extensions@),
            text_filenames: string_views(self.text_filenames@),
            max_lines_per_blob: self.max_lines_per_blob,
            patterns: pattern_views(self.compiled_patterns@),
            config_hash: self.config_hash@,
            retrieval_timeout_secs: self.retrieval_timeout_secs,
            no_adaptive: self.no_adaptive,
            upload_timeout_secs: self.cli_overrides.upload_timeout_secs,
            upload_concurrency: self.cli_overrides.upload_concurrency,
        }
    }
}

impl IndexManager {
    /// Creates a manager for the project at `project_root` (already
    /// normalized): settings are copied from the configuration, exclude
    /// patterns compiled, and the configuration fingerprint computed.
    pub fn new(config: Arc<Config>, project_root: String) -> (res: Self)
        ensures
            res@.project_root == project_root@,
            res@.base_url == config.base_url@,
            res@.token == config.token@,
            res@.text_extensions == string_views(config.text_extensions@),
            res@.text_filenames == string_views(config.text_filenames@),
            res@.max_lines_per_blob == config.max_lines_per_blob,
            res@.patterns.len() == config.exclude_patterns@.len(),
            forall|i: int| 0 <= i < res@.patterns.len() ==> (#[trigger] res@.patterns[i]).pattern == config.exclude_patterns@[i]@
                && res@.patterns[i].compiled == regex_compiles(glob_regex(config.exclude_patterns@[i]@)),
            res@.config_hash == config_hash_of(config.max_lines_per_blob),
            res@.config_hash.len() == 16,
            forall|i: int| 0 <= i < 16 ==> crate::hashing::is_lower_hex(#[trigger] res@.config_hash[i]),
            res@.retrieval_timeout_secs == config.retrieval_timeout_secs,
            res@.no_adaptive == config.no_adaptive,
            res@.upload_timeout_secs == config.cli_overrides.upload_timeout_secs,
            res@.upload_concurrency == config.cli_overrides.upload_concurrency,
    {
        let cfg: &Config = &*config;
        let n = cfg.exclude_patterns.len();
        let mut compiled: Vec<ExcludePattern> = Vec::new();
        let mut i: usize = 0;
        while i < n
            invariant
                n == cfg.exclude_patterns@.len(),
                i <= n,
                compiled@.len() == i,
                forall|j: int| 0 <= j < i ==> (#[trigger] compiled@[j])@.pattern == cfg.exclude_patterns@[j]@
                    && compiled@[j]@.compiled == regex_compiles(glob_regex(cfg.exclude_patterns@[j]@)),
            decreases n - i,
        {
            let p = ExcludePattern::compile(cfg.exclude_patterns[i].as_str());
            compiled.push(p);
            i = i + 1;
        }
        assert forall|j: int| 0 <= j < n implies (#[trigger] pattern_views(compiled@)[j]).pattern == cfg.exclude_patterns@[j]@
            && pattern_views(compiled@)[j].compiled == regex_compiles(glob_regex(cfg.exclude_patterns@[j]@)) by {
            assert(pattern_views(compiled@)[j] == compiled@[j]@);
        }
        IndexManager {
            project_root,
            base_url: cfg.base_url.clone(),
            token: cfg.token.clone(),
            text_extensions: copy_strings(&cfg.text_extensions),
            text_filenames: copy_strings(&cfg.text_filenames),
            max_lines_per_blob: cfg.max_lines_per_blob,
            compiled_patterns: compiled,
            config_hash: calculate_config_hash(cfg.max_lines_per_blob),
            retrieval_timeout_secs: cfg.retrieval_timeout_secs,
            no_adaptive: cfg.no_adaptive,
            cli_overrides: CliOverrides {
                upload_timeout_secs: cfg.cli_overrides.upload_timeout_secs,
                upload_concurrency: cfg.cli_overrides.upload_concurrency,
            },
        }
    }

    /// The service address.
    pub fn base_url(&self) -> (res: &str)
        ensures
            res@ == self@.base_url,
    {
        self.base_url.as_str()
    }

    /// The access token.
    pub fn token(&self) -> (res: &str)
        ensures
            res@ == self@.token,
    {
        self.token.as_str()
    }

    /// The project root.
    pub fn project_root(&self) -> (res: &str)
        ensures
            res@ == self@.project_root,
    {
        self.project_root.as_str()
    }

    /// The configuration fingerprint.
    pub fn config_hash(&self) -> (res: &str)
        ensures
            res@ == self@.config_hash,
    {
        self.config_hash.as_str()
    }

    /// Lines per blob as configured.
    pub fn max_lines_per_blob(&self) -> (res: usize)
        ensures
            res == self@.max_lines_per_blob,
    {
        self.max_lines_per_blob
    }

    /// Search timeout in seconds.
    pub fn retrieval_timeout_secs(&self) -> (res: u64)
        ensures
            res == self@.retrieval_timeout_secs,
    {
        self.retrieval_timeout_secs
    }

    /// Whether the adaptive upload strategy is disabled.
    pub fn no_adaptive(&self) -> (res: bool)
        ensures
            res == self@.no_adaptive,
    {
        self.no_adaptive
    }

    /// Upload parameters given on the command line.
    pub fn cli_overrides(&self) -> (res: &CliOverrides)
        ensures
            res.upload_timeout_secs == self@.upload_timeout_secs,
            res.upload_concurrency == self@.upload_concurrency,
    {
        &self.cli_overrides
    }

    /// Recognized text file extensions.
    pub fn text_extensions(&self) -> (res: &Vec<String>)
        ensures
            string_views(res@) == self@.text_extensions,
    {
        &self.text_extensions
    }

    /// Recognized text file names.
    pub fn text_filenames(&self) -> (res: &Vec<String>)
        ensures
            string_views(res@) == self@.text_filenames,
    {
        &self.text_filenames
    }

    /// The compiled exclude patterns.
    pub fn exclude_patterns(&self) -> (res: &Vec<ExcludePattern>)
        ensures
            pattern_views(res@) == self@.patterns,
    {
        &self.compiled_patterns
    }

    /// Simple pattern matching with `*` and `?`.
    pub fn match_pattern(&self, s: &str, pattern: &str) -> (res: bool)
        ensures
            res == glob_matches(s@, pattern@),
    {
        match_glob(s, pattern)
    }

    /// Decides whether a walked path is excluded (see `should_exclude_standalone`).
    pub fn should_exclude(&self, relative: Option<&str>, is_dir: bool, rules: Option<&IgnoreRules>) -> (res: bool)
        ensures
            res == match relative {
                None => true,
                Some(p) => (rules matches Some(r) && rules_ignore(*r, p@, is_dir)) || excluded_by_patterns(
                    self@.patterns,
                    p@,
                ),
            },
    {
        should_exclude_standalone(relative, is_dir, rules, &self.compiled_patterns)
    }

    /// Splits a file's content into blobs with the configured number of lines.
    pub fn split_file_content(&self, file_path: &str, content: &str) -> (res: Vec<Blob>)
        ensures
            blob_views(res@) == split_spec(file_path@, content@, self@.max_lines_per_blob),
    {
        split_content(file_path, content, self.max_lines_per_blob)
    }

    /// The blobs of one file from its decoded content (see `file_blobs_spec`).
    pub fn file_blobs(&self, rel_path: &str, content: &str) -> (res: Option<Vec<Blob>>)
        ensures
            match res {
                Some(b) => file_blobs_spec(rel_path@, content@, self@.max_lines_per_blob) == Some(blob_views(b@)),
                None => file_blobs_spec(rel_path@, content@, self@.max_lines_per_blob) is None,
            },
    {
        blobs_for_file(rel_path, content, self.max_lines_per_blob)
    }

    /// Groups blobs into upload batches (see `build_batches`).
    pub fn build_batches(&self, blobs: Vec<Blob>, max_blobs_per_batch: usize) -> (res: Vec<Vec<Blob>>)
        requires
            total_size(blobs@) <= usize::MAX,
        ensures
            is_greedy_batching(
                blobs@,
                batch_views(res@),
                if max_blobs_per_batch == 0 { 1 } else { max_blobs_per_batch as nat },
            ),
    {
        build_batches(blobs, max_blobs_per_batch)
    }

    /// Keeps a decoded index only if it matches this manager's configuration.
    pub fn accept_loaded_index(&self, data: IndexData) -> (res: IndexData)
        ensures
            data.version == CURRENT_INDEX_VERSION && data.config_hash@ == self@.config_hash ==> res == data,
            !(data.version == CURRENT_INDEX_VERSION && data.config_hash@ == self@.config_hash) ==> (res.version == 0
                && res.config_hash@.len() == 0 && res.session_id is None && res.entries@.len() == 0),
    {
        accept_loaded_index(data, self.config_hash.as_str())
    }

    /// Computes the name of a blob (see `calculate_blob_name`).
    pub fn calculate_blob_name(path: &str, content: &str) -> (res: String)
        ensures
            res@ == blob_name(path@, content@),
            res@.len() == 64,
    {
        crate::hashing::calculate_blob_name(path, content)
    }

    /// Removes control characters that are neither tab, line feed nor carriage return.
    pub fn sanitize_content(content: &str) -> (res: String)
        ensures
            res@ == sanitized(content@),
    {
        sanitize_text(content)
    }

    /// Whether more than a tenth of the characters are non-printable.
    pub fn is_binary_content(content: &str) -> (res: bool)
        ensures
            res == is_binary(content@),
    {
        binary_text(content)
    }
}

} // verus!
