use crate::primitives::{ActorId, H256};
use crate::token_id::TokenId;
use vstd::prelude::*;

verus! {

/// What describes a token to its holders.
#[derive(Debug, PartialEq, Eq)]
pub struct TokenMetadata {
    pub name: String,
    pub description: String,
    pub media: String,
    pub reference: String,
}

/// A token changed hands. A mint comes from the null identity, a burn goes to
/// it.
#[derive(Clone, Copy, Debug, PartialEq, Eq)]
pub struct NFTTransfer {
    pub from: ActorId,
    pub to: ActorId,
    pub token_id: TokenId,
}

/// An account was approved to move a token.
#[derive(Clone, Copy, Debug, PartialEq, Eq)]
pub struct NFTApproval {
    pub owner: ActorId,
    pub approved_account: ActorId,
    pub token_id: TokenId,
}

/// Shares of a price: who receives, and how much, in the order in which the
/// Token Core gave them.
#[derive(Debug, PartialEq, Eq)]
pub struct Payout {
    pub entries: Vec<(ActorId, u128)>,
}

impl View for Payout {
    type V = Seq<(ActorId, u128)>;

    open spec fn view(&self) -> Seq<(ActorId, u128)> {
        self.entries@
    }
}

impl Clone for Payout {
    fn clone(&self) -> (r: Payout)
        ensures
            r@ == self@,
    {
        let mut entries: Vec<(ActorId, u128)> = Vec::with_capacity(self.entries.len());
        let mut i: usize = 0;
        while i < self.entries.len()
            invariant
                i <= self.entries.len(),
                entries@ == self.entries@.subrange(0, i as int),
            decreases self.entries.len() - i,
        {
            entries.push(self.entries[i]);
            assert(entries@ =~= self.entries@.subrange(0, i + 1));
            i += 1;
        }
        assert(entries@ =~= self.entries@);
        Payout { entries }
    }
}

/// A token changed hands for a price, which was shared out.
#[derive(Debug, PartialEq, Eq)]
pub struct NFTTransferPayout {
    pub from: ActorId,
    pub to: ActorId,
    pub token_id: TokenId,
    pub payouts: Payout,
}

/// An approval that the token's owner signed for another to hand in.
#[derive(Clone, Copy, Debug, PartialEq, Eq)]
pub struct DelegatedApproveMessage {
    pub token_owner_id: ActorId,
    pub approved_actor_id: ActorId,
    pub nft_program_id: ActorId,
    pub token_id: TokenId,
    pub expiration_timestamp: u64,
}

/// The temporary user of a token, and the clock reading that bounds the use.
#[derive(Clone, Copy, Debug, PartialEq, Eq)]
pub struct UserInfo {
    pub address: ActorId,
    pub expires: u64,
}

/// The ledger's own state as a reader outside is shown it: the counter, the
/// owner, and the two tables as lists.
#[derive(Debug)]
pub struct IoNft {
    pub token_id: TokenId,
    pub owner: ActorId,
    pub transactions: Vec<(H256, NFTEvent)>,
    pub users_info: Vec<(TokenId, UserInfo)>,
}

/// A request to the ledger.
#[derive(Debug)]
pub enum NFTAction {
    Mint { transaction_id: u64, token_metadata: TokenMetadata },
    Burn { transaction_id: u64, token_id: TokenId },
    Transfer { transaction_id: u64, to: ActorId, token_id: TokenId },
    TransferPayout { transaction_id: u64, to: ActorId, token_id: TokenId, amount: u128 },
    NFTPayout { owner: ActorId, amount: u128 },
    Approve { transaction_id: u64, to: ActorId, token_id: TokenId },
    DelegatedApprove { transaction_id: u64, message: DelegatedApproveMessage, signature: [u8; 64] },
    Owner { token_id: TokenId },
    IsApproved { to: ActorId, token_id: TokenId },
    Clear { transaction_hash: H256 },
    SetUser { token_id: TokenId, address: ActorId, expires: u64, transaction_id: u64 },
    UserOf { token_id: TokenId },
    UserExpires { token_id: TokenId },
}

/// The reply to a request.
#[derive(Debug, PartialEq, Eq)]
pub enum NFTEvent {
    Transfer(NFTTransfer),
    TransferPayout(NFTTransferPayout),
    NFTPayout(Payout),
    Approval(NFTApproval),
    Owner { owner: ActorId, token_id: TokenId },
    IsApproved { to: ActorId, token_id: TokenId, approved: bool },
    UpdateUser { token_id: TokenId, address: ActorId, expires: u64 },
    UserOf { address: ActorId },
    UserExpires { expires: u64 },
}

/// What a reply holds, with each list of shares as a sequence.
pub enum NFTEventView {
    Transfer(NFTTransfer),
    TransferPayout { from: ActorId, to: ActorId, token_id: TokenId, payouts: Seq<(ActorId, u128)> },
    NFTPayout(Seq<(ActorId, u128)>),
    Approval(NFTApproval),
    Owner { owner: ActorId, token_id: TokenId },
    IsApproved { to: ActorId, token_id: TokenId, approved: bool },
    UpdateUser { token_id: TokenId, address: ActorId, expires: u64 },
    UserOf { address: ActorId },
    UserExpires { expires: u64 },
}

impl View for NFTEvent {
    type V = NFTEventView;

    open spec fn view(&self) -> NFTEventView {
        match *self {
            NFTEvent::Transfer(t) => NFTEventView::Transfer(t),
            NFTEvent::TransferPayout(t) => NFTEventView::TransferPayout {
                from: t.from,
                to: t.to,
                token_id: t.token_id,
                payouts: t.payouts@,
            },
            NFTEvent::NFTPayout(p) => NFTEventView::NFTPayout(p@),
            NFTEvent::Approval(a) => NFTEventView::Approval(a),
            NFTEvent::Owner { owner, token_id } => NFTEventView::Owner { owner, token_id },
            NFTEvent::IsApproved { to, token_id, approved } => NFTEventView::IsApproved {
                to,
                token_id,
                approved,
            },
            NFTEvent::UpdateUser { token_id, address, expires } => NFTEventView::UpdateUser {
                token_id,
                address,
                expires,
            },
            NFTEvent::UserOf { address } => NFTEventView::UserOf { address },
            NFTEvent::UserExpires { expires } => NFTEventView::UserExpires { expires },
        }
    }
}

impl Clone for NFTEvent {
    fn clone(&self) -> (r: NFTEvent)
        ensures
            r@ == self@,
    {
        match self {
            NFTEvent::Transfer(t) => NFTEvent::Transfer(*t),
            NFTEvent::TransferPayout(t) => NFTEvent::TransferPayout(
                NFTTransferPayout {
                    from: t.from,
                    to: t.to,
                    token_id: t.token_id,
                    payouts: t.payouts.clone(),
                },
            ),
            NFTEvent::NFTPayout(p) => NFTEvent::NFTPayout(p.clone()),
            NFTEvent::Approval(a) => NFTEvent::Approval(*a),
            NFTEvent::Owner { owner, token_id } => NFTEvent::Owner {
                owner: *owner,
                token_id: *token_id,
            },
            NFTEvent::IsApproved { to, token_id, approved } => NFTEvent::IsApproved {
                to: *to,
                token_id: *token_id,
                approved: *approved,
            },
            NFTEvent::UpdateUser { token_id, address, expires } => NFTEvent::UpdateUser {
                token_id: *token_id,
                address: *address,
                expires: *expires,
            },
            NFTEvent::UserOf { address } => NFTEvent::UserOf { address: *address },
            NFTEvent::UserExpires { expires } => NFTEvent::UserExpires { expires: *expires },
        }
    }
}

} // verus!
