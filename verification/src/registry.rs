//! The transaction registry: at most one pending response route per
//! transaction key. The routes are kept in a `dashmap::DashMap`; what the
//! map holds is described by a mathematical map from keys to channels. The
//! map is keyed by the key's three texts as a tuple, so that two keys are
//! one entry exactly when method, Call-ID and branch are equal.

use vstd::prelude::*;
use dashmap::DashMap;
use crate::key::{
    TransactionKey, TransactionKeyView, branch_of, call_id_of, cseq_method_name,
    lemma_response_shares_request_key, request_key, response_key,
};
use crate::message::{RequestView, Response, ResponseView};

verus! {

/// `dashmap::DashMap`, made known so that it can stand in a field. Nothing
/// is known of what a value holds but through `table_entries`.
#[verifier::external_type_specification]
#[verifier::external_body]
#[verifier::reject_recursive_types(K)]
#[verifier::reject_recursive_types(V)]
#[verifier::reject_recursive_types(S)]
pub struct ExDashMap<K, V, S>(DashMap<K, V, S>);

/// What stands for a response delivery channel: the number that the
/// connection gave it when the transaction was opened.
pub type ChannelId = u64;

/// The routes that a table holds: for each key, the channel of the pending
/// transaction.
pub uninterp spec fn table_entries(
    table: DashMap<(String, Option<String>, Option<String>), u64>,
) -> Map<TransactionKeyView, u64>;

/// No routes.
pub open spec fn no_routes() -> Map<TransactionKeyView, u64> {
    Map::empty()
}

/// The channel that `entries` holds for `key`, if any.
pub open spec fn route_of(entries: Map<TransactionKeyView, u64>, key: TransactionKeyView) -> Option<
    u64,
> {
    if entries.dom().contains(key) {
        Some(entries[key])
    } else {
        None
    }
}

/// The channel that a response is routed to, if its transaction is pending.
pub open spec fn routed(entries: Map<TransactionKeyView, u64>, response: ResponseView) -> Option<
    u64,
> {
    route_of(entries, response_key(response))
}

/// `DashMap::new`: a table without entries.
#[verifier::external_body]
fn table_new() -> (table: DashMap<(String, Option<String>, Option<String>), u64>)
    ensures
        table_entries(table) == no_routes(),
{
    DashMap::new()
}

/// `DashMap::insert`: sets the entry of the key, and returns the value that
/// the key had before, if it had one.
#[verifier::external_body]
fn table_insert(
    table: &mut DashMap<(String, Option<String>, Option<String>), u64>,
    key: &TransactionKey,
    channel: u64,
) -> (displaced: Option<u64>)
    ensures
        table_entries(*final(table)) == table_entries(*old(table)).insert(key@, channel),
        displaced == route_of(table_entries(*old(table)), key@),
{
    table.insert((key.method.clone(), key.call_id.clone(), key.branch.clone()), channel)
}

/// `DashMap::get`: the value of the key's entry, if the key has one.
#[verifier::external_body]
fn table_get(
    table: &DashMap<(String, Option<String>, Option<String>), u64>,
    key: &TransactionKey,
) -> (channel: Option<u64>)
    ensures
        channel == route_of(table_entries(*table), key@),
{
    table.get(&(key.method.clone(), key.call_id.clone(), key.branch.clone())).map(|entry| *entry.value())
}

/// `DashMap::remove`: removes the key's entry, and returns the value that
/// it held, if there was one.
#[verifier::external_body]
fn table_remove(
    table: &mut DashMap<(String, Option<String>, Option<String>), u64>,
    key: &TransactionKey,
) -> (removed: Option<u64>)
    ensures
        table_entries(*final(table)) == table_entries(*old(table)).remove(key@),
        removed == route_of(table_entries(*old(table)), key@),
{
    table.remove(&(key.method.clone(), key.call_id.clone(), key.branch.clone())).map(|entry| entry.1)
}

/// The pending client transactions of one connection.
pub struct Registry {
    table: DashMap<(String, Option<String>, Option<String>), u64>,
}

impl View for Registry {
    type V = Map<TransactionKeyView, u64>;

    closed spec fn view(&self) -> Map<TransactionKeyView, u64> {
        table_entries(self.table)
    }
}

impl Registry {
    /// A registry without entries.
    pub fn new() -> (registry: Registry)
        ensures
            registry@ == no_routes(),
    {
        Registry { table: table_new() }
    }

    /// Routes responses for `key` to `channel`. An entry that the key had
    /// before is overwritten, and its channel is handed back.
    pub fn register(&mut self, key: &TransactionKey, channel: ChannelId) -> (displaced: Option<
        ChannelId,
    >)
        ensures
            final(self)@ == old(self)@.insert(key@, channel),
            displaced == route_of(old(self)@, key@),
    {
        table_insert(&mut self.table, key, channel)
    }

    /// The channel registered for `key`, if any.
    pub fn lookup(&self, key: &TransactionKey) -> (channel: Option<ChannelId>)
        ensures
            channel == route_of(self@, key@),
    {
        table_get(&self.table, key)
    }

    /// The channel of the pending transaction that `response` belongs to;
    /// `None` where no transaction with the response's key is pending.
    pub fn route(&self, response: &Response) -> (channel: Option<ChannelId>)
        ensures
            channel == routed(self@, response@),
    {
        let key = TransactionKey::from_response(response);
        self.lookup(&key)
    }

    /// Removes the entry of `key`, and hands back its channel. Removing an
    /// absent key changes nothing.
    pub fn deregister(&mut self, key: &TransactionKey) -> (removed: Option<ChannelId>)
        ensures
            final(self)@ == old(self)@.remove(key@),
            removed == route_of(old(self)@, key@),
    {
        table_remove(&mut self.table, key)
    }
}

/// A response to a registered request is routed to the request's channel,
/// whether or not anything was sent yet: once the key of `request` is
/// registered for `channel`, every response that names the request's method
/// in its CSeq and carries its Call-ID and Via branch goes to `channel`.
pub proof fn lemma_registered_response_is_routed(
    entries: Map<TransactionKeyView, u64>,
    request: RequestView,
    channel: u64,
    response: ResponseView,
)
    requires
        cseq_method_name(response.headers) == request.method.spec_name(),
        call_id_of(response.headers) == call_id_of(request.headers),
        branch_of(response.headers) == branch_of(request.headers),
    ensures
        routed(entries.insert(request_key(request), channel), response) == Some(channel),
{
    lemma_response_shares_request_key(request, response);
}

/// After a key is deregistered, a response with that key is unmatched.
pub proof fn lemma_deregistered_response_is_unmatched(
    entries: Map<TransactionKeyView, u64>,
    key: TransactionKeyView,
    response: ResponseView,
)
    requires
        response_key(response) == key,
    ensures
        routed(entries.remove(key), response) is None,
{
}

/// Deregistering is idempotent, and deregistering an absent key changes
/// nothing.
pub proof fn lemma_deregister_idempotent(entries: Map<TransactionKeyView, u64>, key: TransactionKeyView)
    ensures
        entries.remove(key).remove(key) == entries.remove(key),
        !entries.dom().contains(key) ==> entries.remove(key) == entries,
{
}

/// A key has at most one route: registering it again replaces the channel,
/// and routes of other keys stay as they were.
pub proof fn lemma_register_overwrites(
    entries: Map<TransactionKeyView, u64>,
    key: TransactionKeyView,
    first: u64,
    second: u64,
    other: TransactionKeyView,
)
    ensures
        route_of(entries.insert(key, first).insert(key, second), key) == Some(second),
        entries.insert(key, first).insert(key, second) == entries.insert(key, second),
        other != key ==> route_of(entries.insert(key, first), other) == route_of(entries, other),
{
}

} // verus!
