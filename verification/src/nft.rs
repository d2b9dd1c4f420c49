use crate::io::{IoNft, NFTEventView, NFTTransfer, TokenMetadata, UserInfo};
use crate::ledger::{lists_events, owned_pairs, TransactionLedger};
use crate::primitives::{ActorId, MessageContext, H256};
use crate::registry::{lists_users, recorded_expiry, reported_user, with_user, DelegationRegistry};
use crate::token_core::{CoreError, TokenCore};
use crate::token_id::TokenId;
use vstd::prelude::*;

verus! {

/// Why a request was turned away. Nothing of the ledger's own state has
/// changed where one of these comes back.
#[derive(Clone, Copy, Debug, PartialEq, Eq)]
pub enum Error {
    /// A request came before the ledger was initialized.
    NotInitialized,
    /// The ledger was asked to initialize a second time.
    AlreadyInitialized,
    /// The user to set for a token is the null identity.
    InvalidDelegate,
    /// The requester may not do what was asked.
    NotAuthorized,
    /// What was handed back as the Token Core's answer is not of the kind
    /// that the pending operation gives.
    UnexpectedReply,
    /// The Token Core refused.
    Core(CoreError),
}

/// The ledger of a collection of tokens: the Token Core, the identifier that
/// the next mint assigns, the identity that initialized the ledger, the
/// replies already given, and the temporary users.
pub struct Nft<C> {
    pub token: C,
    pub token_id: TokenId,
    pub owner: ActorId,
    pub transactions: TransactionLedger,
    pub users_info: DelegationRegistry,
}

/// What a ledger holds, with the two tables as maps.
pub struct NftView<C> {
    pub token: C,
    pub token_id: TokenId,
    pub owner: ActorId,
    pub transactions: Map<H256, NFTEventView>,
    pub users_info: Map<TokenId, UserInfo>,
}

impl<C> View for Nft<C> {
    type V = NftView<C>;

    open spec fn view(&self) -> NftView<C> {
        NftView {
            token: self.token,
            token_id: self.token_id,
            owner: self.owner,
            transactions: self.transactions@,
            users_info: self.users_info@,
        }
    }
}

/// The state of a ledger that was just made on a Token Core for an owner: the
/// counter at 0, no reply given, no user set.
pub open spec fn initial_state<C>(token: C, owner: ActorId) -> NftView<C> {
    NftView {
        token,
        token_id: TokenId([0, 0, 0, 0]),
        owner,
        transactions: Map::<H256, NFTEventView>::empty(),
        users_info: Map::<TokenId, UserInfo>::empty(),
    }
}

/// Whether `set_user` goes through: the user to set must not be the null
/// identity, and the caller must be approved for the token or be the identity
/// that initialized the ledger.
pub open spec fn set_user_verdict(owner: ActorId, caller: ActorId, approved: bool, address: ActorId) -> Result<(), Error> {
    if address.is_null() {
        Err(Error::InvalidDelegate)
    } else if !approved && caller != owner {
        Err(Error::NotAuthorized)
    } else {
        Ok(())
    }
}

impl<C> Nft<C> {
    /// A ledger on a Token Core, for the identity that initializes it: the
    /// counter at 0, no reply given, no user set.
    pub fn new(token: C, owner: ActorId) -> (nft: Nft<C>)
        ensures
            nft@ == initial_state(token, owner),
    {
        Nft {
            token,
            token_id: TokenId::zero(),
            owner,
            transactions: TransactionLedger::new(),
            users_info: DelegationRegistry::new(),
        }
    }

    /// Takes the reply stored under a fingerprint out of the ledger. Only the
    /// program itself may ask for this: for any other source the call fails
    /// and nothing changes.
    pub fn clear(&mut self, context: &MessageContext, transaction_hash: H256) -> (r: Result<(), Error>)
        ensures
            context.source == context.program_id ==> r == Ok::<(), Error>(()) && final(self)@ == (NftView {
                transactions: old(self)@.transactions.remove(transaction_hash),
                ..old(self)@
            }),
            context.source != context.program_id ==> r == Err::<(), Error>(Error::NotAuthorized) && final(self)@ == old(self)@,
    {
        if context.source == context.program_id {
            self.transactions.purge(&transaction_hash);
            Ok(())
        } else {
            Err(Error::NotAuthorized)
        }
    }

    /// Sets the temporary user of a token and the clock reading that bounds
    /// the use. `approved` is the Token Core's answer to whether the caller is
    /// approved for the token. Where the token has a user already, only the
    /// bound changes.
    pub fn set_user(&mut self, caller: &ActorId, approved: bool, address: ActorId, token_id: TokenId, expires: u64) -> (r: Result<(), Error>)
        ensures
            r == set_user_verdict(old(self).owner, *caller, approved, address),
            r is Ok ==> final(self)@ == (NftView {
                users_info: with_user(old(self)@.users_info, token_id, address, expires),
                ..old(self)@
            }),
            r is Err ==> final(self)@ == old(self)@,
    {
        if address.is_zero() {
            return Err(Error::InvalidDelegate);
        }
        if !approved && *caller != self.owner {
            return Err(Error::NotAuthorized);
        }
        self.users_info.set_user(token_id, address, expires);
        Ok(())
    }

    /// The user of a token at the clock reading `now`: the recorded user
    /// where the record's bound lies before `now`, else the null identity.
    pub fn user_of(&self, token_id: &TokenId, now: u64) -> (user: ActorId)
        ensures
            user == reported_user(self@.users_info, *token_id, now),
    {
        self.users_info.user_of(token_id, now)
    }

    /// The bound recorded for a token's user, 0 where none is recorded.
    pub fn user_expires(&self, token_id: &TokenId) -> (expires: u64)
        ensures
            expires == recorded_expiry(self@.users_info, *token_id),
    {
        self.users_info.user_expires(token_id)
    }

    /// The ledger's own state for a reader outside: the counter, the owner,
    /// and each table listed, every key once, in some order.
    pub fn io_state(&self) -> (state: IoNft)
        ensures
            state.token_id == self.token_id,
            state.owner == self.owner,
            lists_events(owned_pairs(state.transactions@), self@.transactions),
            lists_users(state.users_info@, self@.users_info),
    {
        IoNft {
            token_id: self.token_id,
            owner: self.owner,
            transactions: self.transactions.entries(),
            users_info: self.users_info.entries(),
        }
    }
}

/// Minting by the counter: the token gets the identifier that the counter
/// shows, and the counter moves on.
pub trait MyNFTCore {
    fn mint(&mut self, context: &MessageContext, token_metadata: TokenMetadata) -> Result<NFTTransfer, CoreError>;
}

impl<C: TokenCore> MyNFTCore for Nft<C> {
    /// Has the Token Core mint a token for the source of the message, under
    /// the identifier that the counter shows, and hands back what the Token
    /// Core answers: the result is one that the Token Core's `mint` gives for
    /// the source, the counter as it was and the metadata, called on the Token
    /// Core as it was and leaving it as it is found afterwards. Where the
    /// Token Core mints, the counter moves on by one, and stays at the largest
    /// identifier once it is there; where it refuses, the counter stays.
    /// Nothing else of the ledger's own state changes.
    fn mint(&mut self, context: &MessageContext, token_metadata: TokenMetadata) -> (r: Result<NFTTransfer, CoreError>)
        ensures
            exists|core: &mut C|
                mut_ref_current(core) == old(self).token && mut_ref_future(core) == final(self).token
                    && #[trigger] call_ensures(
                    C::mint,
                    (core, &context.source, old(self).token_id, Some(token_metadata)),
                    r,
                ),
            r is Ok ==> final(self)@ == (NftView {
                token: final(self).token,
                token_id: old(self).token_id.successor(),
                ..old(self)@
            }),
            r is Err ==> final(self)@ == (NftView { token: final(self).token, ..old(self)@ }),
    {
        let assigned = self.token_id;
        match self.token.mint(&context.source, assigned, Some(token_metadata)) {
            Ok(transfer) => {
                self.token_id = assigned.saturating_increment();
                Ok(transfer)
            },
            Err(error) => Err(error),
        }
    }
}

} // verus!
