use crate::io::{NFTEvent, NFTEventView};
use crate::primitives::H256;
use vstd::prelude::*;

verus! {

/// A `hashbrown::HashMap` from the 32 bytes of a fingerprint to the reply that
/// was first given under it.
#[verifier::external_body]
pub struct EventTable {
    inner: hashbrown::HashMap<[u8; 32], NFTEvent>,
}

/// What an `EventTable` holds: under each key, the reply stored there.
pub uninterp spec fn event_table_entries(table: EventTable) -> Map<H256, NFTEventView>;

/// Calls `hashbrown::HashMap::new`, which makes a map that holds nothing.
#[verifier::external_body]
fn event_table_new() -> (table: EventTable)
    ensures
        (event_table_entries(table) == Map::<H256, NFTEventView>::empty()),
{
    EventTable { inner: hashbrown::HashMap::new() }
}

/// Calls `hashbrown::HashMap::get`, which finds the value stored under a key
/// equal to the one given, if there is one, and leaves the map as it is.
#[verifier::external_body]
fn event_table_get<'a>(table: &'a EventTable, key: &H256) -> (found: Option<&'a NFTEvent>)
    ensures
        found is Some == event_table_entries(*table).contains_key(*key),
        found is Some ==> found->0@ == event_table_entries(*table)[*key],
{
    table.inner.get(&key.0)
}

/// Calls `hashbrown::HashMap::insert`, which stores the value under the key,
/// in place of the value that was there if the key was present, and leaves
/// every other key as it is.
#[verifier::external_body]
fn event_table_insert(table: &mut EventTable, key: H256, value: NFTEvent)
    ensures
        event_table_entries(*final(table)) == event_table_entries(*old(table)).insert(key, value@),
{
    table.inner.insert(key.0, value);
}

/// Calls `hashbrown::HashMap::remove`, which takes the key and its value out
/// if the key is present, and leaves every other key as it is.
#[verifier::external_body]
fn event_table_remove(table: &mut EventTable, key: &H256)
    ensures
        event_table_entries(*final(table)) == event_table_entries(*old(table)).remove(*key),
{
    table.inner.remove(&key.0);
}

/// Whether `pairs` lists what `entries` holds: every key once, each with its
/// value, in some order.
pub open spec fn lists_events(pairs: Seq<(H256, NFTEventView)>, entries: Map<H256, NFTEventView>) -> bool {
    &&& forall|i: int| 0 <= i < pairs.len() ==> #[trigger] entries.contains_key(pairs[i].0)
    &&& forall|i: int| 0 <= i < pairs.len() ==> entries[#[trigger] pairs[i].0] == pairs[i].1
    &&& forall|key: H256| #[trigger] entries.contains_key(key) ==> exists|i: int| 0 <= i < pairs.len() && #[trigger] pairs[i].0 == key
    &&& forall|i: int| forall|j: int| 0 <= i < j < pairs.len() ==> #[trigger] pairs[i].0 != #[trigger] pairs[j].0
}

/// The pairs of a vector of keys and borrowed replies, each reply by its view.
pub open spec fn borrowed_pairs(pairs: Seq<(H256, &NFTEvent)>) -> Seq<(H256, NFTEventView)> {
    Seq::new(pairs.len(), |i: int| (pairs[i].0, pairs[i].1@))
}

/// Calls `hashbrown::HashMap::iter`, which visits every key of the map once,
/// with its value, in an order that is not specified, and collects what it
/// visits.
#[verifier::external_body]
fn event_table_pairs<'a>(table: &'a EventTable) -> (pairs: Vec<(H256, &'a NFTEvent)>)
    ensures
        lists_events(borrowed_pairs(pairs@), event_table_entries(*table)),
{
    table.inner.iter().map(|(key, value)| (H256(*key), value)).collect()
}

/// The pairs of a vector of keys and replies, each reply by its view.
pub open spec fn owned_pairs(pairs: Seq<(H256, NFTEvent)>) -> Seq<(H256, NFTEventView)> {
    Seq::new(pairs.len(), |i: int| (pairs[i].0, pairs[i].1@))
}

/// The replies already given, each under the fingerprint of the request that
/// it answered. A request whose fingerprint is here is answered from here and
/// is not carried out again.
pub struct TransactionLedger {
    table: EventTable,
}

impl View for TransactionLedger {
    type V = Map<H256, NFTEventView>;

    closed spec fn view(&self) -> Map<H256, NFTEventView> {
        event_table_entries(self.table)
    }
}

impl TransactionLedger {
    /// A ledger that holds nothing.
    pub fn new() -> (ledger: TransactionLedger)
        ensures
            ledger@ == Map::<H256, NFTEventView>::empty(),
    {
        TransactionLedger { table: event_table_new() }
    }

    /// The reply stored under a fingerprint, if there is one.
    pub fn lookup(&self, fingerprint: &H256) -> (cached: Option<NFTEvent>)
        ensures
            cached is Some == self@.contains_key(*fingerprint),
            cached is Some ==> cached->0@ == self@[*fingerprint],
    {
        match event_table_get(&self.table, fingerprint) {
            Some(event) => Some(event.clone()),
            None => None,
        }
    }

    /// Stores a reply under a fingerprint, in place of what was there, and
    /// hands the reply back.
    pub fn record(&mut self, fingerprint: H256, event: NFTEvent) -> (reply: NFTEvent)
        ensures
            final(self)@ == old(self)@.insert(fingerprint, event@),
            reply == event,
    {
        event_table_insert(&mut self.table, fingerprint, event.clone());
        event
    }

    /// Takes out what is stored under a fingerprint, if anything is.
    pub fn purge(&mut self, fingerprint: &H256)
        ensures
            final(self)@ == old(self)@.remove(*fingerprint),
    {
        event_table_remove(&mut self.table, fingerprint);
    }

    /// Every fingerprint of the ledger, once, with its reply, in some order.
    pub fn entries(&self) -> (pairs: Vec<(H256, NFTEvent)>)
        ensures
            lists_events(owned_pairs(pairs@), self@),
    {
        let borrowed = event_table_pairs(&self.table);
        let mut pairs: Vec<(H256, NFTEvent)> = Vec::with_capacity(borrowed.len());
        let mut i: usize = 0;
        while i < borrowed.len()
            invariant
                i <= borrowed.len(),
                pairs.len() == i,
                forall|j: int| 0 <= j < i ==> (#[trigger] pairs@[j]).0 == borrowed@[j].0 && pairs@[j].1@ == borrowed@[j].1@,
            decreases borrowed.len() - i,
        {
            let key = borrowed[i].0;
            let event = borrowed[i].1.clone();
            pairs.push((key, event));
            i += 1;
        }
        assert(owned_pairs(pairs@) =~= borrowed_pairs(borrowed@));
        pairs
    }
}

} // verus!
