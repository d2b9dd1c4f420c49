use crate::io::UserInfo;
use crate::primitives::ActorId;
use crate::token_id::TokenId;
use vstd::prelude::*;

verus! {

/// A `hashbrown::HashMap` from the four words of a token identifier to the
/// record of the token's temporary user.
#[verifier::external_body]
pub struct UserTable {
    inner: hashbrown::HashMap<[u64; 4], UserInfo>,
}

/// What a `UserTable` holds: under each token, the record stored there.
pub uninterp spec fn user_table_entries(table: UserTable) -> Map<TokenId, UserInfo>;

/// Calls `hashbrown::HashMap::new`, which makes a map that holds nothing.
#[verifier::external_body]
fn user_table_new() -> (table: UserTable)
    ensures
        (user_table_entries(table) == Map::<TokenId, UserInfo>::empty()),
{
    UserTable { inner: hashbrown::HashMap::new() }
}

/// Calls `hashbrown::HashMap::get`, which finds the value stored under a key
/// equal to the one given, if there is one, and leaves the map as it is.
#[verifier::external_body]
fn user_table_get(table: &UserTable, token_id: &TokenId) -> (found: Option<UserInfo>)
    ensures
        found is Some == user_table_entries(*table).contains_key(*token_id),
        found is Some ==> found->0 == user_table_entries(*table)[*token_id],
{
    table.inner.get(&token_id.0).copied()
}

/// Calls `hashbrown::HashMap::insert`, which stores the value under the key,
/// in place of the value that was there if the key was present, and leaves
/// every other key as it is.
#[verifier::external_body]
fn user_table_insert(table: &mut UserTable, token_id: TokenId, info: UserInfo)
    ensures
        user_table_entries(*final(table)) == user_table_entries(*old(table)).insert(token_id, info),
{
    table.inner.insert(token_id.0, info);
}

/// Whether `pairs` lists what `entries` holds: every token once, each with
/// its record, in some order.
pub open spec fn lists_users(pairs: Seq<(TokenId, UserInfo)>, entries: Map<TokenId, UserInfo>) -> bool {
    &&& forall|i: int| 0 <= i < pairs.len() ==> #[trigger] entries.contains_key(pairs[i].0)
    &&& forall|i: int| 0 <= i < pairs.len() ==> entries[#[trigger] pairs[i].0] == pairs[i].1
    &&& forall|token_id: TokenId| #[trigger] entries.contains_key(token_id) ==> exists|i: int| 0 <= i < pairs.len() && #[trigger] pairs[i].0 == token_id
    &&& forall|i: int| forall|j: int| 0 <= i < j < pairs.len() ==> #[trigger] pairs[i].0 != #[trigger] pairs[j].0
}

/// Calls `hashbrown::HashMap::iter`, which visits every key of the map once,
/// with its value, in an order that is not specified, and collects what it
/// visits.
#[verifier::external_body]
fn user_table_pairs(table: &UserTable) -> (pairs: Vec<(TokenId, UserInfo)>)
    ensures
        lists_users(pairs@, user_table_entries(*table)),
{
    table.inner.iter().map(|(key, info)| (TokenId(*key), *info)).collect()
}

/// The records after the user of a token is set: a token that has a record
/// keeps its user and takes the new bound; a token that has none gets a
/// record with the user and the bound given.
pub open spec fn with_user(
    entries: Map<TokenId, UserInfo>,
    token_id: TokenId,
    address: ActorId,
    expires: u64,
) -> Map<TokenId, UserInfo> {
    if entries.contains_key(token_id) {
        entries.insert(token_id, UserInfo { address: entries[token_id].address, expires })
    } else {
        entries.insert(token_id, UserInfo { address, expires })
    }
}

/// The user of a token as `user_of` reports it at the clock reading `now`: the
/// recorded user where the record's bound lies before `now`, the null identity
/// where it does not or where the token has no record.
pub open spec fn reported_user(entries: Map<TokenId, UserInfo>, token_id: TokenId, now: u64) -> ActorId {
    if entries.contains_key(token_id) && entries[token_id].expires < now {
        entries[token_id].address
    } else {
        ActorId::null()
    }
}

/// The bound recorded for a token, 0 where the token has no record.
pub open spec fn recorded_expiry(entries: Map<TokenId, UserInfo>, token_id: TokenId) -> u64 {
    if entries.contains_key(token_id) {
        entries[token_id].expires
    } else {
        0
    }
}

/// For each token at most one record of a temporary user. A record is made or
/// changed by `set_user` and is never taken out.
pub struct DelegationRegistry {
    table: UserTable,
}

impl View for DelegationRegistry {
    type V = Map<TokenId, UserInfo>;

    closed spec fn view(&self) -> Map<TokenId, UserInfo> {
        user_table_entries(self.table)
    }
}

impl DelegationRegistry {
    /// A registry that holds nothing.
    pub fn new() -> (registry: DelegationRegistry)
        ensures
            registry@ == Map::<TokenId, UserInfo>::empty(),
    {
        DelegationRegistry { table: user_table_new() }
    }

    /// The record of a token, if it has one.
    pub fn get(&self, token_id: &TokenId) -> (found: Option<UserInfo>)
        ensures
            found is Some == self@.contains_key(*token_id),
            found is Some ==> found->0 == self@[*token_id],
    {
        user_table_get(&self.table, token_id)
    }

    /// Sets the user of a token. Where the token has a record already, only
    /// the bound changes and the recorded user stays.
    pub fn set_user(&mut self, token_id: TokenId, address: ActorId, expires: u64)
        ensures
            final(self)@ == with_user(old(self)@, token_id, address, expires),
    {
        let info = match user_table_get(&self.table, &token_id) {
            Some(present) => UserInfo { address: present.address, expires },
            None => UserInfo { address, expires },
        };
        user_table_insert(&mut self.table, token_id, info);
    }

    /// The user of a token at the clock reading `now`.
    pub fn user_of(&self, token_id: &TokenId, now: u64) -> (user: ActorId)
        ensures
            user == reported_user(self@, *token_id, now),
    {
        match user_table_get(&self.table, token_id) {
            Some(info) => {
                if info.expires < now {
                    info.address
                } else {
                    ActorId::zero()
                }
            },
            None => ActorId::zero(),
        }
    }

    /// The bound recorded for a token, 0 where it has no record.
    pub fn user_expires(&self, token_id: &TokenId) -> (expires: u64)
        ensures
            expires == recorded_expiry(self@, *token_id),
    {
        match user_table_get(&self.table, token_id) {
            Some(info) => info.expires,
            None => 0u64,
        }
    }

    /// Every token of the registry, once, with its record, in some order.
    pub fn entries(&self) -> (pairs: Vec<(TokenId, UserInfo)>)
        ensures
            lists_users(pairs@, self@),
    {
        user_table_pairs(&self.table)
    }
}

} // verus!
