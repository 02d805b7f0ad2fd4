use ink_storage::collections::HashMap;
use vstd::prelude::*;

verus! {

/// What the ledger keeps for one action: the kind of the action, its target,
/// its amount, its selector, its argument, and the number of votes so far.
pub type Record = (u8, [u8; 32], u128, [u8; 4], Option<u32>, u32);

/// The accounts that may vote: a storage hash map of `ink_storage`, keyed by
/// the raw account bytes. The map is made here and never bound to a storage
/// key, so it answers from memory alone. Nothing is proved of it: what the
/// functions below say of it is taken from the map's source.
#[verifier::external_body]
pub struct ValidatorSet {
    inner: HashMap<[u8; 32], ()>,
}

/// The open tallies: a storage hash map of `ink_storage`, keyed by action id.
/// The map is made here and never bound to a storage key, so it answers from
/// memory alone. Nothing is proved of it: what the functions below say of it
/// is taken from the map's source.
#[verifier::external_body]
pub struct ActionLedger {
    inner: HashMap<String, Record>,
}

/// The keys that a validator set holds.
pub uninterp spec fn held_accounts(set: ValidatorSet) -> Set<Seq<u8>>;

/// The entries that an action ledger holds, by key.
pub uninterp spec fn held_records(ledger: ActionLedger) -> Map<Seq<char>, Record>;

/// The ledger with no entry.
pub open spec fn no_records() -> Map<Seq<char>, Record> {
    Map::empty()
}

impl ValidatorSet {
    /// `HashMap::default`: a map that holds no key.
    #[verifier::external_body]
    pub(crate) fn empty() -> (set: ValidatorSet)
        ensures
            held_accounts(set) == Set::<Seq<u8>>::empty(),
    {
        ValidatorSet { inner: HashMap::default() }
    }

    /// `HashMap::len`: the number of keys held.
    #[verifier::external_body]
    pub(crate) fn len(&self) -> (n: u32)
        ensures
            n == held_accounts(*self).len(),
    {
        self.inner.len()
    }

    /// `HashMap::get`, asked only whether it found the key.
    #[verifier::external_body]
    pub(crate) fn contains(&self, key: &[u8; 32]) -> (found: bool)
        ensures
            found == held_accounts(*self).contains(key@),
    {
        self.inner.get(key).is_some()
    }

    /// `HashMap::insert`: afterwards the key is held, and nothing else has
    /// changed. The map counts its keys in 32 bits and a new key raises the
    /// count, so a new key is only handed in while the count can go up.
    #[verifier::external_body]
    pub(crate) fn insert(&mut self, key: [u8; 32])
        requires
            held_accounts(*old(self)).contains(key@) || held_accounts(*old(self)).len() < u32::MAX,
        ensures
            held_accounts(*final(self)) == held_accounts(*old(self)).insert(key@),
    {
        self.inner.insert(key, ());
    }
}

impl ActionLedger {
    /// `HashMap::default`: a map that holds no entry.
    #[verifier::external_body]
    pub(crate) fn empty() -> (ledger: ActionLedger)
        ensures
            held_records(ledger) == no_records(),
    {
        ActionLedger { inner: HashMap::default() }
    }

    /// `HashMap::len`: the number of entries held.
    #[verifier::external_body]
    pub(crate) fn len(&self) -> (n: u32)
        ensures
            n == held_records(*self).dom().len(),
    {
        self.inner.len()
    }

    /// `HashMap::get`: a copy of the record held under `id`, if there is one.
    #[verifier::external_body]
    pub(crate) fn get(&self, id: &String) -> (found: Option<Record>)
        ensures
            found == (if held_records(*self).contains_key(id@) {
                Some(held_records(*self)[id@])
            } else {
                None
            }),
    {
        self.inner.get(id).copied()
    }

    /// `HashMap::entry` followed by `Entry::or_insert`: a reference to the
    /// record held under `id`, which is `fresh` where none was held. What the
    /// caller leaves behind the reference is what the ledger then holds under
    /// `id`; no other entry changes. A new key raises the 32-bit count of
    /// entries, so it is only handed in while the count can go up.
    #[verifier::external_body]
    pub(crate) fn entry_or_insert(&mut self, id: String, fresh: Record) -> (slot: &mut Record)
        requires
            held_records(*old(self)).contains_key(id@) || held_records(*old(self)).dom().len()
                < u32::MAX,
        ensures
            *slot == (if held_records(*old(self)).contains_key(id@) {
                held_records(*old(self))[id@]
            } else {
                fresh
            }),
            held_records(*final(self)) == held_records(*old(self)).insert(id@, *final(slot)),
    {
        self.inner.entry(id).or_insert(fresh)
    }

    /// `HashMap::take`: removes the entry under `id` and hands its record
    /// back, if there was one; no other entry changes.
    #[verifier::external_body]
    pub(crate) fn take(&mut self, id: &String) -> (taken: Option<Record>)
        ensures
            taken == (if held_records(*old(self)).contains_key(id@) {
                Some(held_records(*old(self))[id@])
            } else {
                None
            }),
            held_records(*final(self)) == held_records(*old(self)).remove(id@),
    {
        self.inner.take(id)
    }
}

} // verus!
