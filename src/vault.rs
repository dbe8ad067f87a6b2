//! The credential vault: one slot per recognised secret name, loaded once from
//! the platform's secure storage and persisted there as one JSON record before
//! any change becomes visible in memory. The caller performs each access to
//! the storage; this module says what to read, what to write, and what to do
//! with the answer.
use vstd::prelude::*;

use crate::keys::{
    find_secret_key, is_supported_key, key_index, lemma_key_at_own_index, lemma_key_index_from,
    secret_key, supported_secret_key, NUM_SECRET_KEYS,
};
use crate::text::{lemma_trimmed_idempotent, text_eq, trim_text, trimmed};

verus! {

/// The service under which every record of the vault is kept.
pub const KEYRING_SERVICE: &'static str = "world-monitor";

/// The user name of the consolidated record.
pub const VAULT_RECORD: &'static str = "secrets-vault";

/// Why a vault operation failed.
#[derive(Debug, Clone, Copy, PartialEq, Eq, Structural)]
pub enum VaultError {
    /// The name is not one of the recognised secret names.
    UnsupportedKey,
    /// The secure storage could not be read or written.
    StorageAccessFailure,
}

pub open spec fn pair_view(p: (String, String)) -> (Seq<char>, Seq<char>) {
    (p.0@, p.1@)
}

pub open spec fn pairs_view(v: Seq<(String, String)>) -> Seq<(Seq<char>, Seq<char>)> {
    v.map_values(|p: (String, String)| pair_view(p))
}

pub open spec fn slot_view(o: Option<String>) -> Option<Seq<char>> {
    match o {
        Some(s) => Some(s@),
        None => None,
    }
}

/// The JSON text that `serde_json` makes of a mapping from names to values.
pub uninterp spec fn vault_text(pairs: Seq<(Seq<char>, Seq<char>)>) -> Seq<char>;

/// What `serde_json` reads out of a text as a mapping from names to values,
/// in the order of the names.
pub uninterp spec fn vault_record(s: Seq<char>) -> Option<Seq<(Seq<char>, Seq<char>)>>;

/// Relies on `serde_json::to_string` on a map with string keys, which cannot fail.
#[verifier::external_body]
fn encode_vault(pairs: &Vec<(String, String)>) -> (r: String)
    ensures
        r@ == vault_text(pairs_view(pairs@)),
{
    let m: std::collections::BTreeMap<&str, &str> = pairs.iter().map(
        |p| (p.0.as_str(), p.1.as_str()),
    ).collect();
    match serde_json::to_string(&m) {
        Ok(t) => t,
        Err(_) => String::new(),
    }
}

/// No name occurs twice among the pairs.
pub open spec fn keys_unique(p: Seq<(Seq<char>, Seq<char>)>) -> bool {
    forall|a: int, b: int| 0 <= a < p.len() && 0 <= b < p.len() && a != b ==> p[a].0 != p[b].0
}

/// The two sequences of pairs give the same value for every name.
pub open spec fn same_entries(a: Seq<(Seq<char>, Seq<char>)>, b: Seq<(Seq<char>, Seq<char>)>) -> bool {
    forall|k: Seq<char>| #[trigger] lookup(a, k) == lookup(b, k)
}

pub open spec fn decoded_view(r: Option<Vec<(String, String)>>) -> Option<Seq<(Seq<char>, Seq<char>)>> {
    match r {
        Some(v) => Some(pairs_view(v@)),
        None => None,
    }
}

/// When `text` was written from pairs with distinct names, the decoded
/// pairs `d` hold the same entries.
pub open spec fn reads_back_written(text: Seq<char>, d: Option<Seq<(Seq<char>, Seq<char>)>>) -> bool {
    forall|p: Seq<(Seq<char>, Seq<char>)>|
        #[trigger] vault_text(p) == text && keys_unique(p) ==> (d matches Some(v) && same_entries(v, p))
}

/// Relies on `serde_json::from_str` into a map of strings. A text that
/// `serde_json::to_string` made of a map of strings reads back as the same
/// entries: strings are escaped and unescaped exactly, and the map is one
/// level deep.
#[verifier::external_body]
fn decode_vault(text: &str) -> (r: Option<Vec<(String, String)>>)
    ensures
        match r {
            Some(v) => vault_record(text@) == Some(pairs_view(v@)),
            None => vault_record(text@) is None,
        },
        reads_back_written(text@, decoded_view(r)),
{
    serde_json::from_str::<std::collections::BTreeMap<String, String>>(text).ok().map(
        |m| m.into_iter().collect(),
    )
}

/// The value a slot holds once `v` is stored: the trimmed text, or nothing
/// when that is empty.
pub open spec fn slot_value(v: Seq<char>) -> Option<Seq<char>> {
    if v.len() == 0 || trimmed(v).len() == 0 {
        None
    } else {
        Some(trimmed(v))
    }
}

/// The value stored under `k` in `pairs`: the first that carries that name.
pub open spec fn lookup_from(pairs: Seq<(Seq<char>, Seq<char>)>, k: Seq<char>, j: int) -> Option<
    Seq<char>,
>
    decreases pairs.len() - j,
{
    if j < 0 || j >= pairs.len() {
        None
    } else if pairs[j].0 == k {
        Some(pairs[j].1)
    } else {
        lookup_from(pairs, k, j + 1)
    }
}

pub open spec fn lookup(pairs: Seq<(Seq<char>, Seq<char>)>, k: Seq<char>) -> Option<Seq<char>> {
    lookup_from(pairs, k, 0)
}

/// The snapshot held after reading a consolidated record: each recognised
/// name keeps its trimmed, non-empty value; every other entry is dropped.
pub open spec fn snapshot_from_pairs(pairs: Seq<(Seq<char>, Seq<char>)>) -> Seq<
    Option<Seq<char>>,
> {
    Seq::new(
        NUM_SECRET_KEYS as nat,
        |i: int|
            match lookup(pairs, secret_key(i)) {
                Some(v) => slot_value(v),
                None => None,
            },
    )
}

/// The snapshot held after reading one legacy record per recognised name.
pub open spec fn snapshot_from_legacy(values: Seq<Option<Seq<char>>>) -> Seq<Option<Seq<char>>> {
    Seq::new(
        NUM_SECRET_KEYS as nat,
        |i: int|
            match values[i] {
                Some(v) => slot_value(v),
                None => None,
            },
    )
}

/// The (name, value) pairs of the slots that hold a value, in slot order.
pub open spec fn present_pairs_upto(s: Seq<Option<Seq<char>>>, n: int) -> Seq<
    (Seq<char>, Seq<char>),
>
    decreases n,
{
    if n <= 0 {
        Seq::empty()
    } else {
        let prev = present_pairs_upto(s, n - 1);
        match s[n - 1] {
            Some(v) => prev.push((secret_key(n - 1), v)),
            None => prev,
        }
    }
}

pub open spec fn present_pairs(s: Seq<Option<Seq<char>>>) -> Seq<(Seq<char>, Seq<char>)> {
    present_pairs_upto(s, s.len() as int)
}

/// What a read of `name` answers on snapshot `s`.
pub open spec fn get_outcome(s: Seq<Option<Seq<char>>>, name: Seq<char>) -> Result<
    Option<Seq<char>>,
    VaultError,
> {
    match key_index(name) {
        Some(i) => Ok(s[i]),
        None => Err(VaultError::UnsupportedKey),
    }
}

/// The snapshot proposed by storing `v` under `name`.
pub open spec fn set_outcome(s: Seq<Option<Seq<char>>>, name: Seq<char>, v: Seq<char>) -> Result<
    Seq<Option<Seq<char>>>,
    VaultError,
> {
    match key_index(name) {
        Some(i) => Ok(s.update(i, slot_value(v))),
        None => Err(VaultError::UnsupportedKey),
    }
}

/// The snapshot proposed by removing `name`.
pub open spec fn delete_outcome(s: Seq<Option<Seq<char>>>, name: Seq<char>) -> Result<
    Seq<Option<Seq<char>>>,
    VaultError,
> {
    match key_index(name) {
        Some(i) => Ok(s.update(i, None)),
        None => Err(VaultError::UnsupportedKey),
    }
}

/// In-memory snapshot of the vault: slot `i` holds the value of the `i`-th
/// recognised name, if one is stored.
pub struct SecretsCache {
    slots: Vec<Option<String>>,
}

impl View for SecretsCache {
    type V = Seq<Option<Seq<char>>>;

    closed spec fn view(&self) -> Seq<Option<Seq<char>>> {
        self.slots@.map_values(|o: Option<String>| slot_view(o))
    }
}

/// A slot is well formed when it is empty or holds a trimmed, non-empty text.
pub open spec fn slot_ok(o: Option<Seq<char>>) -> bool {
    match o {
        Some(v) => slot_value(v) == Some(v),
        None => true,
    }
}

pub open spec fn snapshot_ok(s: Seq<Option<Seq<char>>>) -> bool {
    s.len() == NUM_SECRET_KEYS && forall|i: int| 0 <= i < s.len() ==> slot_ok(#[trigger] s[i])
}

impl SecretsCache {
    pub open spec fn wf(&self) -> bool {
        snapshot_ok(self@)
    }

    /// A vault with no secret stored.
    pub fn empty() -> (r: Self)
        ensures
            r.wf(),
            r@ == Seq::new(NUM_SECRET_KEYS as nat, |i: int| None::<Seq<char>>),
    {
        let mut slots: Vec<Option<String>> = Vec::new();
        let mut i: usize = 0;
        while i < NUM_SECRET_KEYS
            invariant
                i <= NUM_SECRET_KEYS,
                slots@.len() == i,
                forall|j: int| 0 <= j < i ==> slots@[j] is None,
            decreases NUM_SECRET_KEYS - i,
        {
            slots.push(None);
            i = i + 1;
        }
        let r = SecretsCache { slots };
        assert(r@ =~= Seq::new(NUM_SECRET_KEYS as nat, |i: int| None::<Seq<char>>));
        r
    }

    /// The snapshot that a decoded consolidated record gives: recognised names
    /// with a non-empty trimmed value, every other entry left out.
    pub fn from_record_pairs(pairs: &Vec<(String, String)>) -> (r: Self)
        ensures
            r.wf(),
            r@ == snapshot_from_pairs(pairs_view(pairs@)),
    {
        let ghost pv = pairs_view(pairs@);
        let mut slots: Vec<Option<String>> = Vec::new();
        let mut i: usize = 0;
        while i < NUM_SECRET_KEYS
            invariant
                pv == pairs_view(pairs@),
                i <= NUM_SECRET_KEYS,
                slots@.len() == i,
                forall|k: int|
                    0 <= k < i ==> slot_view(#[trigger] slots@[k]) == snapshot_from_pairs(pv)[k]
                        && slot_ok(slot_view(slots@[k])),
            decreases NUM_SECRET_KEYS - i,
        {
            let slot = match find_pair(pairs, supported_secret_key(i)) {
                Some(j) => normalize(pairs[j].1.as_str()),
                None => None,
            };
            slots.push(slot);
            i = i + 1;
        }
        let r = SecretsCache { slots };
        assert(r@ =~= snapshot_from_pairs(pv));
        r
    }

    /// Reads the consolidated record as found in secure storage (`None` when
    /// there is none). A record that decodes as a JSON object of strings gives
    /// the snapshot; anything else gives `None`, which calls for the migration
    /// from the legacy records. A record written from a snapshot reads back as
    /// that very snapshot.
    pub fn load_from_record(record: Option<&str>) -> (r: Option<Self>)
        ensures
            match record {
                Some(t) => match vault_record(t@) {
                    Some(p) => r matches Some(c) && c.wf() && c@ == snapshot_from_pairs(p),
                    None => r is None,
                },
                None => r is None,
            },
            forall|s: Seq<Option<Seq<char>>>|
                #![trigger vault_text(present_pairs(s))]
                snapshot_ok(s) && str_view(record) == Some(vault_text(present_pairs(s))) ==> (r matches Some(
                    c,
                ) && c@ == s),
    {
        match record {
            None => None,
            Some(t) => match decode_vault(t) {
                Some(pairs) => {
                    let c = Self::from_record_pairs(&pairs);
                    proof {
                        assert forall|s: Seq<Option<Seq<char>>>|
                            #![trigger vault_text(present_pairs(s))]
                            snapshot_ok(s) && t@ == vault_text(present_pairs(s)) implies c@ == s by {
                            lemma_present_keys_unique(s);
                            lemma_record_reloads_snapshot(s, pairs_view(pairs@));
                        }
                    }
                    Some(c)
                },
                None => {
                    proof {
                        assert forall|s: Seq<Option<Seq<char>>>|
                            #![trigger vault_text(present_pairs(s))]
                            snapshot_ok(s) implies t@ != vault_text(present_pairs(s)) by {
                            lemma_present_keys_unique(s);
                        }
                    }
                    None
                },
            },
        }
    }

    /// The snapshot that the legacy records give, one read per recognised
    /// name in list order (`None` where that record could not be read).
    pub fn from_legacy_values(values: &Vec<Option<String>>) -> (r: Self)
        requires
            values@.len() == NUM_SECRET_KEYS,
        ensures
            r.wf(),
            r@ == snapshot_from_legacy(values@.map_values(|o: Option<String>| slot_view(o))),
    {
        let ghost vv = values@.map_values(|o: Option<String>| slot_view(o));
        let mut slots: Vec<Option<String>> = Vec::new();
        let mut i: usize = 0;
        while i < NUM_SECRET_KEYS
            invariant
                values@.len() == NUM_SECRET_KEYS,
                vv == values@.map_values(|o: Option<String>| slot_view(o)),
                i <= NUM_SECRET_KEYS,
                slots@.len() == i,
                forall|k: int|
                    0 <= k < i ==> slot_view(#[trigger] slots@[k]) == snapshot_from_legacy(vv)[k]
                        && slot_ok(slot_view(slots@[k])),
            decreases NUM_SECRET_KEYS - i,
        {
            let slot = match &values[i] {
                Some(v) => normalize(v.as_str()),
                None => None,
            };
            slots.push(slot);
            i = i + 1;
        }
        let r = SecretsCache { slots };
        assert(r@ =~= snapshot_from_legacy(vv));
        r
    }

    /// Migration from the legacy layout: the snapshot is made of the legacy
    /// values alone, and the consolidated record that holds it is to be
    /// written exactly when it holds any value.
    pub fn migrate(values: &Vec<Option<String>>) -> (r: Migration)
        requires
            values@.len() == NUM_SECRET_KEYS,
        ensures
            r.wf(),
            r.snapshot@ == snapshot_from_legacy(values@.map_values(|o: Option<String>| slot_view(o))),
    {
        let snapshot = Self::from_legacy_values(values);
        let pairs = snapshot.get_all_secrets();
        let record = if pairs.len() > 0 {
            Some(encode_vault(&pairs))
        } else {
            None
        };
        Migration { snapshot, record }
    }

    /// The value of `key`, or `None` when no value is stored under it.
    pub fn get_secret(&self, key: &str) -> (r: Result<Option<String>, VaultError>)
        requires
            self.wf(),
        ensures
            get_view(r) == get_outcome(self@, key@),
    {
        match find_secret_key(key) {
            None => Err(VaultError::UnsupportedKey),
            Some(i) => Ok(clone_slot(&self.slots[i])),
        }
    }

    /// Every stored (name, value) pair, in the order of the recognised names.
    pub fn get_all_secrets(&self) -> (r: Vec<(String, String)>)
        requires
            self.wf(),
        ensures
            pairs_view(r@) == present_pairs(self@),
    {
        let mut r: Vec<(String, String)> = Vec::new();
        let mut i: usize = 0;
        while i < NUM_SECRET_KEYS
            invariant
                self.wf(),
                i <= NUM_SECRET_KEYS,
                pairs_view(r@) == present_pairs_upto(self@, i as int),
            decreases NUM_SECRET_KEYS - i,
        {
            let ghost before = r@;
            match &self.slots[i] {
                Some(v) => {
                    r.push((supported_secret_key(i).to_owned(), v.clone()));
                    assert(pairs_view(r@) =~= pairs_view(before).push(
                        (secret_key(i as int), self@[i as int]->0),
                    ));
                },
                None => {},
            }
            i = i + 1;
        }
        r
    }

    /// The snapshot with slot `i` replaced by `v`.
    fn with_slot(&self, i: usize, v: Option<String>) -> (r: Self)
        requires
            self.wf(),
            i < NUM_SECRET_KEYS,
            slot_ok(slot_view(v)),
        ensures
            r.wf(),
            r@ == self@.update(i as int, slot_view(v)),
    {
        let mut slots: Vec<Option<String>> = Vec::new();
        let mut j: usize = 0;
        while j < NUM_SECRET_KEYS
            invariant
                self.wf(),
                j <= NUM_SECRET_KEYS,
                slots@.len() == j,
                forall|k: int| 0 <= k < j ==> slot_view(#[trigger] slots@[k]) == self@[k],
            decreases NUM_SECRET_KEYS - j,
        {
            slots.push(clone_slot(&self.slots[j]));
            j = j + 1;
        }
        slots.set(i, v);
        let r = SecretsCache { slots };
        assert(r@ =~= self@.update(i as int, slot_view(v)));
        r
    }

    /// The change that storing `value` under `key` proposes: the new
    /// snapshot and the record to write. Nothing changes yet, and a name
    /// outside the recognised set proposes nothing to write.
    pub fn prepare_set(&self, key: &str, value: &str) -> (r: Result<PendingWrite, VaultError>)
        requires
            self.wf(),
        ensures
            match r {
                Ok(p) => p.wf() && set_outcome(self@, key@, value@) == Ok::<
                    Seq<Option<Seq<char>>>,
                    VaultError,
                >(p.candidate@),
                Err(e) => set_outcome(self@, key@, value@) == Err::<
                    Seq<Option<Seq<char>>>,
                    VaultError,
                >(e),
            },
    {
        match find_secret_key(key) {
            None => Err(VaultError::UnsupportedKey),
            Some(i) => Ok(PendingWrite::of(self.with_slot(i, normalize(value)))),
        }
    }

    /// The change that removing `key` proposes: the new snapshot and the
    /// record to write. Nothing changes yet.
    pub fn prepare_delete(&self, key: &str) -> (r: Result<PendingWrite, VaultError>)
        requires
            self.wf(),
        ensures
            match r {
                Ok(p) => p.wf() && delete_outcome(self@, key@) == Ok::<
                    Seq<Option<Seq<char>>>,
                    VaultError,
                >(p.candidate@),
                Err(e) => delete_outcome(self@, key@) == Err::<Seq<Option<Seq<char>>>, VaultError>(
                    e,
                ),
            },
    {
        match find_secret_key(key) {
            None => Err(VaultError::UnsupportedKey),
            Some(i) => Ok(PendingWrite::of(self.with_slot(i, None))),
        }
    }

    /// The consolidated record that holds this snapshot.
    pub fn record_text(&self) -> (r: String)
        requires
            self.wf(),
        ensures
            r@ == vault_text(present_pairs(self@)),
    {
        encode_vault(&self.get_all_secrets())
    }

    /// Adopts the proposed snapshot when its record was written, and keeps
    /// the current one otherwise: memory never runs ahead of the storage.
    pub fn apply_write(&mut self, pending: PendingWrite, write_ok: bool) -> (r: Result<
        (),
        VaultError,
    >)
        requires
            old(self).wf(),
            pending.wf(),
        ensures
            final(self).wf(),
            write_ok ==> r is Ok && final(self)@ == pending.candidate@,
            !write_ok ==> r == Err::<(), VaultError>(VaultError::StorageAccessFailure)
                && final(self)@ == old(self)@,
    {
        if write_ok {
            *self = pending.candidate;
            Ok(())
        } else {
            Err(VaultError::StorageAccessFailure)
        }
    }
}

/// A change of the vault waiting for its record to be written: the snapshot
/// it proposes and the consolidated record that holds it.
pub struct PendingWrite {
    pub candidate: SecretsCache,
    pub record: String,
}

impl PendingWrite {
    pub open spec fn wf(&self) -> bool {
        self.candidate.wf() && self.record@ == vault_text(present_pairs(self.candidate@))
    }

    fn of(candidate: SecretsCache) -> (r: Self)
        requires
            candidate.wf(),
        ensures
            r.wf(),
            r.candidate@ == candidate@,
    {
        let record = candidate.record_text();
        PendingWrite { candidate, record }
    }
}

/// What reading the legacy records gives: their snapshot, and the
/// consolidated record to write when that snapshot holds any value.
pub struct Migration {
    pub snapshot: SecretsCache,
    pub record: Option<String>,
}

impl Migration {
    pub open spec fn wf(&self) -> bool {
        self.snapshot.wf() && match self.record {
            Some(t) => present_pairs(self.snapshot@).len() > 0 && t@ == vault_text(
                present_pairs(self.snapshot@),
            ),
            None => present_pairs(self.snapshot@).len() == 0,
        }
    }

    /// Whether the legacy records are to be removed: only when a record was
    /// to be written and that write succeeded. A failed write loses nothing,
    /// as the snapshot keeps every value read.
    pub fn remove_legacy(&self, write_ok: bool) -> (r: bool)
        ensures
            r == (self.record is Some && write_ok),
    {
        match &self.record {
            Some(_) => write_ok,
            None => false,
        }
    }
}

pub open spec fn str_view(o: Option<&str>) -> Option<Seq<char>> {
    match o {
        Some(t) => Some(t@),
        None => None,
    }
}

pub open spec fn get_view(r: Result<Option<String>, VaultError>) -> Result<
    Option<Seq<char>>,
    VaultError,
> {
    match r {
        Ok(o) => Ok(slot_view(o)),
        Err(e) => Err(e),
    }
}

fn clone_slot(o: &Option<String>) -> (r: Option<String>)
    ensures
        slot_view(r) == slot_view(*o),
{
    match o {
        Some(s) => Some(s.clone()),
        None => None,
    }
}

/// The slot that a raw text fills: its trimmed form, or nothing when that is empty.
fn normalize(v: &str) -> (r: Option<String>)
    ensures
        slot_view(r) == slot_value(v@),
        slot_ok(slot_view(r)),
{
    if v.unicode_len() == 0 {
        return None;
    }
    let t = trim_text(v);
    proof {
        lemma_trimmed_idempotent(v@);
    }
    if t.unicode_len() == 0 {
        None
    } else {
        Some(t)
    }
}

/// The position of the first pair named `k`.
fn find_pair(pairs: &Vec<(String, String)>, k: &str) -> (r: Option<usize>)
    ensures
        match r {
            Some(j) => j < pairs@.len() && lookup(pairs_view(pairs@), k@) == Some(pairs@[j as int].1@),
            None => lookup(pairs_view(pairs@), k@) is None,
        },
{
    let ghost pv = pairs_view(pairs@);
    let mut j: usize = 0;
    while j < pairs.len()
        invariant
            pv == pairs_view(pairs@),
            j <= pairs@.len(),
            lookup(pv, k@) == lookup_from(pv, k@, j as int),
        decreases pairs@.len() - j,
    {
        if text_eq(pairs[j].0.as_str(), k) {
            return Some(j);
        }
        j = j + 1;
    }
    None
}

/// Storing an empty value under a recognised name proposes the same snapshot
/// as removing that name, and a read of the name then finds nothing.
pub proof fn lemma_set_empty_is_delete(s: Seq<Option<Seq<char>>>, name: Seq<char>)
    requires
        snapshot_ok(s),
        is_supported_key(name),
    ensures
        set_outcome(s, name, Seq::empty()) == delete_outcome(s, name),
        set_outcome(s, name, Seq::empty()) matches Ok(c) && get_outcome(c, name) == Ok::<
            Option<Seq<char>>,
            VaultError,
        >(None),
{
    lemma_key_index_from(name, 0);
}

/// A name outside the recognised set is refused by every vault operation
/// with `UnsupportedKey`.
pub proof fn lemma_unsupported_name_refused(s: Seq<Option<Seq<char>>>, name: Seq<char>, v: Seq<char>)
    requires
        !is_supported_key(name),
    ensures
        get_outcome(s, name) == Err::<Option<Seq<char>>, VaultError>(VaultError::UnsupportedKey),
        set_outcome(s, name, v) == Err::<Seq<Option<Seq<char>>>, VaultError>(
            VaultError::UnsupportedKey,
        ),
        delete_outcome(s, name) == Err::<Seq<Option<Seq<char>>>, VaultError>(
            VaultError::UnsupportedKey,
        ),
{
}

proof fn lemma_lookup_push(
    p: Seq<(Seq<char>, Seq<char>)>,
    x: (Seq<char>, Seq<char>),
    k: Seq<char>,
    j: int,
)
    requires
        0 <= j <= p.len(),
    ensures
        lookup_from(p.push(x), k, j) == match lookup_from(p, k, j) {
            Some(v) => Some(v),
            None => if x.0 == k {
                Some(x.1)
            } else {
                None
            },
        },
    decreases p.len() - j,
{
    if j < p.len() {
        assert(p.push(x)[j] == p[j]);
        lemma_lookup_push(p, x, k, j + 1);
    } else {
        assert(p.push(x)[j] == x);
        assert(lookup_from(p.push(x), k, j + 1) is None);
    }
}

proof fn lemma_present_lookup(s: Seq<Option<Seq<char>>>, n: int, i: int)
    requires
        snapshot_ok(s),
        0 <= n <= NUM_SECRET_KEYS,
        0 <= i < NUM_SECRET_KEYS,
    ensures
        lookup(present_pairs_upto(s, n), secret_key(i)) == if i < n {
            s[i]
        } else {
            None
        },
    decreases n,
{
    if n > 0 {
        lemma_present_lookup(s, n - 1, i);
        let prev = present_pairs_upto(s, n - 1);
        match s[n - 1] {
            Some(v) => {
                lemma_lookup_push(prev, (secret_key(n - 1), v), secret_key(i), 0);
                lemma_key_at_own_index(n - 1);
                lemma_key_at_own_index(i);
            },
            None => {},
        }
    }
}

/// A consolidated record that holds the entries of a snapshot, in whatever
/// order, reads back as that very snapshot: after a migration has written
/// its record, the next load finds the same secrets in it.
pub proof fn lemma_record_reloads_snapshot(s: Seq<Option<Seq<char>>>, q: Seq<(Seq<char>, Seq<char>)>)
    requires
        snapshot_ok(s),
        forall|k: Seq<char>| #[trigger] lookup(q, k) == lookup(present_pairs(s), k),
    ensures
        snapshot_from_pairs(q) == s,
{
    assert forall|i: int| 0 <= i < NUM_SECRET_KEYS implies #[trigger] snapshot_from_pairs(q)[i] == s[i] by {
        lemma_present_lookup(s, NUM_SECRET_KEYS as int, i);
        assert(lookup(q, secret_key(i)) == lookup(present_pairs(s), secret_key(i)));
        assert(slot_ok(s[i]));
    }
    assert(snapshot_from_pairs(q) =~= s);
}

proof fn lemma_present_keys_ordered(s: Seq<Option<Seq<char>>>, n: int)
    requires
        snapshot_ok(s),
        0 <= n <= NUM_SECRET_KEYS,
    ensures
        forall|a: int|
            0 <= a < present_pairs_upto(s, n).len() ==> #[trigger] key_index(
                present_pairs_upto(s, n)[a].0,
            ) is Some && key_index(present_pairs_upto(s, n)[a].0)->0 < n,
        forall|a: int, b: int|
            0 <= a < b < present_pairs_upto(s, n).len() ==> key_index(
                #[trigger] present_pairs_upto(s, n)[a].0,
            )->0 < key_index(#[trigger] present_pairs_upto(s, n)[b].0)->0,
    decreases n,
{
    if n > 0 {
        lemma_present_keys_ordered(s, n - 1);
        lemma_key_at_own_index(n - 1);
        let prev = present_pairs_upto(s, n - 1);
        match s[n - 1] {
            Some(v) => {
                let p = prev.push((secret_key(n - 1), v));
                assert(p == present_pairs_upto(s, n));
                assert forall|a: int| 0 <= a < prev.len() implies #[trigger] p[a] == prev[a] by {}
                assert(p[prev.len() as int].0 == secret_key(n - 1));
            },
            None => {},
        }
    }
}

proof fn lemma_present_keys_unique(s: Seq<Option<Seq<char>>>)
    requires
        snapshot_ok(s),
    ensures
        keys_unique(present_pairs(s)),
{
    lemma_present_keys_ordered(s, NUM_SECRET_KEYS as int);
    let p = present_pairs(s);
    assert forall|a: int, b: int| 0 <= a < p.len() && 0 <= b < p.len() && a != b implies p[a].0 != p[b].0 by {
        if a < b {
            assert(key_index(p[a].0)->0 < key_index(p[b].0)->0);
        } else {
            assert(key_index(p[b].0)->0 < key_index(p[a].0)->0);
        }
    }
}

} // verus!
