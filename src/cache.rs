//! The persistent cache: an in-memory mirror of one JSON object kept in a
//! file. Reads never touch the file; a write hands back the whole document to
//! be written at once, while a removal is only recorded by the dirty flag and
//! reaches the file at the next flush.
use vstd::prelude::*;

verus! {

/// `serde_json::Value`: one JSON value, carried through as it is.
#[verifier::external_type_specification]
#[verifier::external_body]
pub struct ExValue(serde_json::Value);

/// `serde_json::Map`: a JSON object, ordered by key.
#[verifier::external_type_specification]
#[verifier::external_body]
#[verifier::reject_recursive_types(K)]
#[verifier::reject_recursive_types(V)]
pub struct ExJsonMap<K, V>(serde_json::Map<K, V>);

/// The JSON object that the cache mirrors.
pub type Document = serde_json::Map<String, serde_json::Value>;

/// What a `serde_json::Map` holds, key by key.
pub uninterp spec fn document_entries(m: Document) -> Map<Seq<char>, serde_json::Value>;

/// The JSON text that `serde_json` makes of an object with these entries.
pub uninterp spec fn document_text(m: Map<Seq<char>, serde_json::Value>) -> Seq<char>;

/// What `serde_json` reads out of a text as a JSON object.
pub uninterp spec fn parsed_document(s: Seq<char>) -> Option<Map<Seq<char>, serde_json::Value>>;

/// What `serde_json` reads out of a text as any JSON value.
pub uninterp spec fn parsed_value(s: Seq<char>) -> Option<serde_json::Value>;

/// Relies on `serde_json::Map::new`: an object with no entry.
#[verifier::external_body]
fn new_document() -> (r: Document)
    ensures
        document_entries(r) == no_entries(),
{
    serde_json::Map::new()
}

/// Relies on `serde_json::Map::get`: the value under `k`, copied.
#[verifier::external_body]
fn document_get(m: &Document, k: &str) -> (r: Option<serde_json::Value>)
    ensures
        r == entry_of(document_entries(*m), k@),
{
    m.get(k).cloned()
}

/// Relies on `serde_json::Map::insert`: sets the value under `k`, replacing any.
#[verifier::external_body]
fn document_insert(m: &mut Document, k: String, v: serde_json::Value)
    ensures
        document_entries(*final(m)) == document_entries(*old(m)).insert(k@, v),
{
    m.insert(k, v);
}

/// Relies on `serde_json::Map::remove`: drops the value under `k`, if any.
#[verifier::external_body]
fn document_remove(m: &mut Document, k: &str)
    ensures
        document_entries(*final(m)) == document_entries(*old(m)).remove(k@),
{
    m.remove(k);
}

/// Relies on `serde_json::to_string` on an object, which cannot fail: its
/// keys are strings and its values hold no float that is not finite.
#[verifier::external_body]
fn encode_document(m: &Document) -> (r: String)
    ensures
        r@ == document_text(document_entries(*m)),
{
    match serde_json::to_string(m) {
        Ok(t) => t,
        Err(_) => String::new(),
    }
}

/// Relies on `serde_json::from_str` into an object.
#[verifier::external_body]
fn decode_document(text: &str) -> (r: Option<Document>)
    ensures
        match r {
            Some(m) => parsed_document(text@) == Some(document_entries(m)),
            None => parsed_document(text@) is None,
        },
{
    serde_json::from_str::<Document>(text).ok()
}

/// Relies on `serde_json::from_str` into any JSON value.
#[verifier::external_body]
fn decode_value(text: &str) -> (r: Option<serde_json::Value>)
    ensures
        r == parsed_value(text@),
{
    serde_json::from_str::<serde_json::Value>(text).ok()
}

/// An object without entries.
pub open spec fn no_entries() -> Map<Seq<char>, serde_json::Value> {
    Map::empty()
}

/// The value under `k`, if any.
pub open spec fn entry_of(m: Map<Seq<char>, serde_json::Value>, k: Seq<char>) -> Option<
    serde_json::Value,
> {
    if m.contains_key(k) {
        Some(m[k])
    } else {
        None
    }
}

/// The entries that a file's contents give: the object it holds, or no entry
/// when the file is missing or does not hold a JSON object.
pub open spec fn loaded_entries(contents: Option<Seq<char>>) -> Map<Seq<char>, serde_json::Value> {
    match contents {
        Some(t) => match parsed_document(t) {
            Some(m) => m,
            None => Map::empty(),
        },
        None => Map::empty(),
    }
}

/// Why a cache write was refused.
#[derive(Debug, Clone, Copy, PartialEq, Eq, Structural)]
pub enum CacheError {
    /// The value to store is not well-formed JSON.
    InvalidPayload,
}

/// The in-memory mirror, and whether it differs from what was last written.
pub struct PersistentCache {
    data: Document,
    dirty: bool,
}

impl PersistentCache {
    /// The entries held in memory.
    pub closed spec fn entries(&self) -> Map<Seq<char>, serde_json::Value> {
        document_entries(self.data)
    }

    /// Whether memory may differ from the file's last written contents.
    pub closed spec fn is_dirty(&self) -> bool {
        self.dirty
    }

    /// Builds the mirror from the file's contents (`None` when the file is
    /// missing or unreadable); anything but a JSON object gives an empty cache.
    pub fn load(contents: Option<&str>) -> (r: Self)
        ensures
            r.entries() == loaded_entries(
                match contents {
                    Some(t) => Some(t@),
                    None => None,
                },
            ),
            !r.is_dirty(),
    {
        let data = match contents {
            Some(t) => match decode_document(t) {
                Some(m) => m,
                None => new_document(),
            },
            None => new_document(),
        };
        PersistentCache { data, dirty: false }
    }

    /// The value under `key`; no file is read.
    pub fn get(&self, key: &str) -> (r: Option<serde_json::Value>)
        ensures
            r == entry_of(self.entries(), key@),
    {
        document_get(&self.data, key)
    }

    /// Stores the JSON text `value` under `key` and returns the whole document
    /// to be written to the file now. The cache stays dirty until
    /// `mark_clean` records that the write succeeded. A text that is not
    /// JSON is refused and changes nothing.
    pub fn put(&mut self, key: String, value: &str) -> (r: Result<String, CacheError>)
        ensures
            match parsed_value(value@) {
                Some(v) => r matches Ok(t) && final(self).entries() == old(self).entries().insert(
                    key@,
                    v,
                ) && final(self).is_dirty() && t@ == document_text(final(self).entries()),
                None => r == Err::<String, CacheError>(CacheError::InvalidPayload)
                    && final(self).entries() == old(self).entries() && final(self).is_dirty()
                    == old(self).is_dirty(),
            },
    {
        match decode_value(value) {
            None => Err(CacheError::InvalidPayload),
            Some(v) => {
                document_insert(&mut self.data, key, v);
                self.dirty = true;
                Ok(encode_document(&self.data))
            },
        }
    }

    /// Removes `key` from memory and marks the cache dirty; the file is left
    /// as it is until the next flush.
    pub fn delete(&mut self, key: &str)
        ensures
            final(self).entries() == old(self).entries().remove(key@),
            final(self).is_dirty(),
    {
        document_remove(&mut self.data, key);
        self.dirty = true;
    }

    /// The document to write when memory differs from the file, else `None`.
    pub fn flush_text(&self) -> (r: Option<String>)
        ensures
            match r {
                Some(t) => self.is_dirty() && t@ == document_text(self.entries()),
                None => !self.is_dirty(),
            },
    {
        if self.dirty {
            Some(encode_document(&self.data))
        } else {
            None
        }
    }

    /// Records that the document now in memory has been written.
    pub fn mark_clean(&mut self)
        ensures
            final(self).entries() == old(self).entries(),
            !final(self).is_dirty(),
    {
        self.dirty = false;
    }
}

/// A value stored under a key is what a read of that key gives back.
pub proof fn lemma_put_then_get(m: Map<Seq<char>, serde_json::Value>, k: Seq<char>, v: serde_json::Value)
    ensures
        entry_of(m.insert(k, v), k) == Some(v),
{
}

/// After a successful write, a cache loaded again from the document written
/// holds the value, provided the document reads back as the entries it was
/// made from. It does not always: `serde_json` refuses to read a document
/// nested 128 levels deep, which a value nested 127 levels deep produces.
pub proof fn lemma_put_is_durable(
    m: Map<Seq<char>, serde_json::Value>,
    k: Seq<char>,
    v: serde_json::Value,
)
    requires
        parsed_document(document_text(m.insert(k, v))) == Some(m.insert(k, v)),
    ensures
        entry_of(loaded_entries(Some(document_text(m.insert(k, v)))), k) == Some(v),
{
}

/// A removal reaches the file only with the next flush: until then the file
/// still holds the key; a cache loaded from the flushed document does not,
/// provided that document reads back as the entries it was made from.
pub proof fn lemma_delete_is_deferred(
    m: Map<Seq<char>, serde_json::Value>,
    k: Seq<char>,
    file: Seq<char>,
)
    requires
        parsed_document(file) == Some(m),
        m.contains_key(k),
        parsed_document(document_text(m.remove(k))) == Some(m.remove(k)),
    ensures
        loaded_entries(Some(file)).contains_key(k),
        !loaded_entries(Some(document_text(m.remove(k)))).contains_key(k),
{
}

/// The entries after storing `vs[i]` under `ks[i]`, one key after another.
pub open spec fn put_all(
    m: Map<Seq<char>, serde_json::Value>,
    ks: Seq<Seq<char>>,
    vs: Seq<serde_json::Value>,
) -> Map<Seq<char>, serde_json::Value>
    decreases ks.len(),
{
    if ks.len() == 0 || vs.len() == 0 {
        m
    } else {
        put_all(m, ks.drop_last(), vs.drop_last()).insert(ks.last(), vs.last())
    }
}

/// Writes to distinct keys all stay: after the last one, every key holds
/// its own value.
pub proof fn lemma_distinct_puts_all_present(
    m: Map<Seq<char>, serde_json::Value>,
    ks: Seq<Seq<char>>,
    vs: Seq<serde_json::Value>,
)
    requires
        ks.len() == vs.len(),
        ks.no_duplicates(),
    ensures
        forall|i: int| 0 <= i < ks.len() ==> entry_of(put_all(m, ks, vs), #[trigger] ks[i]) == Some(vs[i]),
    decreases ks.len(),
{
    if ks.len() > 0 {
        let ks0 = ks.drop_last();
        let vs0 = vs.drop_last();
        assert(ks0.no_duplicates()) by {
            assert forall|a: int, b: int| 0 <= a < ks0.len() && 0 <= b < ks0.len() && a != b implies ks0[a] != ks0[b] by {
                assert(ks0[a] == ks[a] && ks0[b] == ks[b]);
            }
        }
        lemma_distinct_puts_all_present(m, ks0, vs0);
        assert forall|i: int| 0 <= i < ks.len() implies entry_of(put_all(m, ks, vs), #[trigger] ks[i]) == Some(vs[i]) by {
            if i < ks.len() - 1 {
                assert(ks0[i] == ks[i]);
                assert(ks[i] != ks.last());
            }
        }
    }
}

} // verus!
