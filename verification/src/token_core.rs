use crate::io::{
    DelegatedApproveMessage, NFTApproval, NFTTransfer, NFTTransferPayout, Payout, TokenMetadata,
};
use crate::primitives::{ActorId, MessageContext};
use crate::token_id::TokenId;
use vstd::prelude::*;

verus! {

/// Why the Token Core refused an operation. The code is the Token Core's own
/// and means nothing to the ledger.
#[derive(Clone, Copy, Debug, PartialEq, Eq)]
pub struct CoreError {
    pub code: u32,
}

/// One operation of the Token Core, with what is handed to it.
#[derive(Debug)]
pub enum CoreCall {
    Mint { to: ActorId, token_id: TokenId, token_metadata: Option<TokenMetadata> },
    Burn { token_id: TokenId },
    Transfer { to: ActorId, token_id: TokenId },
    TransferPayout { to: ActorId, token_id: TokenId, amount: u128 },
    NFTPayout { owner: ActorId, amount: u128 },
    Approve { to: ActorId, token_id: TokenId },
    DelegatedApprove { message: DelegatedApproveMessage, signature: [u8; 64] },
    OwnerOf { token_id: TokenId },
    IsApprovedTo { to: ActorId, token_id: TokenId },
}

/// What the Token Core gives back where it carries an operation out.
#[derive(Debug)]
pub enum CoreReply {
    Transfer(NFTTransfer),
    TransferPayout(NFTTransferPayout),
    Payout(Payout),
    Approval(NFTApproval),
    Owner(ActorId),
    Approved(bool),
}

/// Whether a reply is of the kind that an operation gives.
pub open spec fn answers(call: CoreCall, reply: CoreReply) -> bool {
    match call {
        CoreCall::Mint { .. } | CoreCall::Burn { .. } | CoreCall::Transfer { .. } => reply is Transfer,
        CoreCall::TransferPayout { .. } => reply is TransferPayout,
        CoreCall::NFTPayout { .. } => reply is Payout,
        CoreCall::Approve { .. } | CoreCall::DelegatedApprove { .. } => reply is Approval,
        CoreCall::OwnerOf { .. } => reply is Owner,
        CoreCall::IsApprovedTo { .. } => reply is Approved,
    }
}

/// The keeper of who owns each token and who may move it. The ledger asks it
/// to act and files what it answers; it does not look inside.
pub trait TokenCore {
    fn mint(&mut self, to: &ActorId, token_id: TokenId, token_metadata: Option<TokenMetadata>) -> Result<NFTTransfer, CoreError>;

    fn burn(&mut self, context: &MessageContext, token_id: TokenId) -> Result<NFTTransfer, CoreError>;

    fn transfer(&mut self, context: &MessageContext, to: &ActorId, token_id: TokenId) -> Result<NFTTransfer, CoreError>;

    fn transfer_payout(&mut self, context: &MessageContext, to: &ActorId, token_id: TokenId, amount: u128) -> Result<NFTTransferPayout, CoreError>;

    fn nft_payout(&self, owner: &ActorId, amount: u128) -> Payout;

    fn approve(&mut self, context: &MessageContext, to: &ActorId, token_id: TokenId) -> Result<NFTApproval, CoreError>;

    fn delegated_approve(&mut self, context: &MessageContext, message: DelegatedApproveMessage, signature: [u8; 64]) -> Result<NFTApproval, CoreError>;

    fn owner_of(&self, token_id: TokenId) -> ActorId;

    fn is_approved_to(&self, to: &ActorId, token_id: TokenId) -> bool;
}

/// Whether an operation changes the Token Core: all do but the three
/// questions (shares, owner, approval).
pub open spec fn changes(call: CoreCall) -> bool {
    !(call is NFTPayout || call is OwnerOf || call is IsApprovedTo)
}

/// What can be said of an answer from the Token Core as it was before and as
/// it is after: a reply is of the kind that the operation gives; the three
/// questions (shares, owner, approval) are always answered, with what the
/// Token Core's method gives for what the operation holds, and leave the Token
/// Core as it is. What ties the answer of a changing operation to its method
/// is said by `asked`, of the receiver of the call.
pub open spec fn answer_fits<C: TokenCore>(before: C, call: CoreCall, after: C, answer: Result<CoreReply, CoreError>) -> bool {
    &&& answer is Ok ==> answers(call, answer->Ok_0)
    &&& !changes(call) ==> answer is Ok && after == before
    &&& call is NFTPayout ==> call_ensures(
        C::nft_payout,
        (&before, &call->NFTPayout_owner, call->NFTPayout_amount),
        answer->Ok_0->Payout_0,
    )
    &&& call is OwnerOf ==> call_ensures(C::owner_of, (&before, call->OwnerOf_token_id), answer->Ok_0->Owner_0)
    &&& call is IsApprovedTo ==> call_ensures(
        C::is_approved_to,
        (&before, &call->IsApprovedTo_to, call->IsApprovedTo_token_id),
        answer->Ok_0->Approved_0,
    )
}

/// An answer to a mint, a burn or a transfer, as the Token Core's method
/// gave it.
pub open spec fn transfer_answer(answer: Result<CoreReply, CoreError>) -> Result<NFTTransfer, CoreError> {
    match answer {
        Ok(reply) => Ok(reply->Transfer_0),
        Err(error) => Err(error),
    }
}

/// An answer to a transfer for a price, as the Token Core's method gave it.
pub open spec fn transfer_payout_answer(answer: Result<CoreReply, CoreError>) -> Result<NFTTransferPayout, CoreError> {
    match answer {
        Ok(reply) => Ok(reply->TransferPayout_0),
        Err(error) => Err(error),
    }
}

/// An answer to an approval, plain or signed, as the Token Core's method gave
/// it.
pub open spec fn approval_answer(answer: Result<CoreReply, CoreError>) -> Result<NFTApproval, CoreError> {
    match answer {
        Ok(reply) => Ok(reply->Approval_0),
        Err(error) => Err(error),
    }
}

/// Whether an answer is one that the Token Core's method of the operation's
/// name gives, called on the receiver `inner` with what the operation holds.
/// This is said of the six operations that change the Token Core; of the three
/// questions `answer_fits` says it.
pub open spec fn asked<C: TokenCore>(inner: &mut C, context: MessageContext, call: CoreCall, answer: Result<CoreReply, CoreError>) -> bool {
    match call {
        CoreCall::Mint { to, token_id, token_metadata } => call_ensures(
            C::mint,
            (inner, &to, token_id, token_metadata),
            transfer_answer(answer),
        ),
        CoreCall::Burn { token_id } => call_ensures(C::burn, (inner, &context, token_id), transfer_answer(answer)),
        CoreCall::Transfer { to, token_id } => call_ensures(
            C::transfer,
            (inner, &context, &to, token_id),
            transfer_answer(answer),
        ),
        CoreCall::TransferPayout { to, token_id, amount } => call_ensures(
            C::transfer_payout,
            (inner, &context, &to, token_id, amount),
            transfer_payout_answer(answer),
        ),
        CoreCall::Approve { to, token_id } => call_ensures(
            C::approve,
            (inner, &context, &to, token_id),
            approval_answer(answer),
        ),
        CoreCall::DelegatedApprove { message, signature } => call_ensures(
            C::delegated_approve,
            (inner, &context, message, signature),
            approval_answer(answer),
        ),
        _ => true,
    }
}

/// Has the Token Core carry out one operation, by the method of that name,
/// with what the operation holds, and hands back what the method answers. For
/// an operation that changes the Token Core, the method was called on a
/// receiver that held the Token Core as it was and leaves it as it is found
/// afterwards.
pub fn perform<C: TokenCore>(core: &mut C, context: &MessageContext, call: CoreCall) -> (answer: Result<CoreReply, CoreError>)
    ensures
        answer_fits(*old(core), call, *final(core), answer),
        changes(call) ==> exists|inner: &mut C|
            mut_ref_current(inner) == *old(core) && mut_ref_future(inner) == *final(core) && #[trigger] asked(
                inner,
                *context,
                call,
                answer,
            ),
{
    match call {
        CoreCall::Mint { to, token_id, token_metadata } => {
            let given = core.mint(&to, token_id, token_metadata);
            let answer = match given {
                Ok(transfer) => Ok(CoreReply::Transfer(transfer)),
                Err(error) => Err(error),
            };
            proof {
                let inner = choose|inner: &mut C|
                    mut_ref_current(inner) == *old(core) && mut_ref_future(inner) == *core && #[trigger] call_ensures(
                        C::mint,
                        (inner, &to, token_id, token_metadata),
                        given,
                    );
                assert(asked(inner, *context, call, answer));
            }
            answer
        },
        CoreCall::Burn { token_id } => {
            let given = core.burn(context, token_id);
            let answer = match given {
                Ok(transfer) => Ok(CoreReply::Transfer(transfer)),
                Err(error) => Err(error),
            };
            proof {
                let inner = choose|inner: &mut C|
                    mut_ref_current(inner) == *old(core) && mut_ref_future(inner) == *core && #[trigger] call_ensures(
                        C::burn,
                        (inner, context, token_id),
                        given,
                    );
                assert(asked(inner, *context, call, answer));
            }
            answer
        },
        CoreCall::Transfer { to, token_id } => {
            let given = core.transfer(context, &to, token_id);
            let answer = match given {
                Ok(transfer) => Ok(CoreReply::Transfer(transfer)),
                Err(error) => Err(error),
            };
            proof {
                let inner = choose|inner: &mut C|
                    mut_ref_current(inner) == *old(core) && mut_ref_future(inner) == *core && #[trigger] call_ensures(
                        C::transfer,
                        (inner, context, &to, token_id),
                        given,
                    );
                assert(asked(inner, *context, call, answer));
            }
            answer
        },
        CoreCall::TransferPayout { to, token_id, amount } => {
            let given = core.transfer_payout(context, &to, token_id, amount);
            let answer = match given {
                Ok(transfer) => Ok(CoreReply::TransferPayout(transfer)),
                Err(error) => Err(error),
            };
            proof {
                let inner = choose|inner: &mut C|
                    mut_ref_current(inner) == *old(core) && mut_ref_future(inner) == *core && #[trigger] call_ensures(
                        C::transfer_payout,
                        (inner, context, &to, token_id, amount),
                        given,
                    );
                assert(asked(inner, *context, call, answer));
            }
            answer
        },
        CoreCall::NFTPayout { owner, amount } => Ok(CoreReply::Payout(core.nft_payout(&owner, amount))),
        CoreCall::Approve { to, token_id } => {
            let given = core.approve(context, &to, token_id);
            let answer = match given {
                Ok(approval) => Ok(CoreReply::Approval(approval)),
                Err(error) => Err(error),
            };
            proof {
                let inner = choose|inner: &mut C|
                    mut_ref_current(inner) == *old(core) && mut_ref_future(inner) == *core && #[trigger] call_ensures(
                        C::approve,
                        (inner, context, &to, token_id),
                        given,
                    );
                assert(asked(inner, *context, call, answer));
            }
            answer
        },
        CoreCall::DelegatedApprove { message, signature } => {
            let given = core.delegated_approve(context, message, signature);
            let answer = match given {
                Ok(approval) => Ok(CoreReply::Approval(approval)),
                Err(error) => Err(error),
            };
            proof {
                let inner = choose|inner: &mut C|
                    mut_ref_current(inner) == *old(core) && mut_ref_future(inner) == *core && #[trigger] call_ensures(
                        C::delegated_approve,
                        (inner, context, message, signature),
                        given,
                    );
                assert(asked(inner, *context, call, answer));
            }
            answer
        },
        CoreCall::OwnerOf { token_id } => Ok(CoreReply::Owner(core.owner_of(token_id))),
        CoreCall::IsApprovedTo { to, token_id } => Ok(CoreReply::Approved(core.is_approved_to(&to, token_id))),
    }
}

} // verus!
