use crate::hashing::{fingerprint, get_hash};
use crate::io::{NFTAction, NFTEvent, NFTEventView};
use crate::nft::{Error, Nft, NftView};
use crate::primitives::{ActorId, MessageContext, H256};
use crate::registry::{recorded_expiry, reported_user, with_user};
use crate::token_core::{answer_fits, asked, changes, perform, CoreCall, CoreError, CoreReply, TokenCore};
use crate::token_id::TokenId;
use vstd::prelude::*;

verus! {

/// What is left to do once the Token Core has answered.
#[derive(Clone, Copy, Debug)]
pub enum Pending {
    /// A mint: the counter moves on, and the reply is filed.
    Mint { fingerprint: H256 },
    /// A burn or a transfer: the reply is filed.
    Transfer { fingerprint: H256 },
    /// A transfer for a price: the reply is filed.
    TransferPayout { fingerprint: H256 },
    /// An approval, plain or signed: the reply is filed.
    Approval { fingerprint: H256 },
    /// The question of how a price is shared.
    Payout,
    /// The question of who owns a token.
    Owner { token_id: TokenId },
    /// The question of whether an account is approved for a token.
    IsApproved { to: ActorId, token_id: TokenId },
    /// A user is to be set, once it is known whether the caller is approved
    /// for the token; the reply is filed.
    SetUser { fingerprint: H256, caller: ActorId, token_id: TokenId, address: ActorId, expires: u64 },
}

/// How far a request has come: it is answered, or the Token Core must act
/// first.
#[derive(Debug)]
pub enum Step {
    /// The request is dealt with: a reply, none where the request has none, or
    /// the reason why it was turned away.
    Done(Result<Option<NFTEvent>, Error>),
    /// The Token Core is to carry out `call`; its answer goes to `finish`
    /// together with `pending`.
    Invoke { call: CoreCall, pending: Pending },
}

/// A step, with the reply by its view.
pub enum StepView {
    Done(Result<Option<NFTEventView>, Error>),
    Invoke { call: CoreCall, pending: Pending },
}

/// The outcome of a request, with the reply by its view.
pub open spec fn outcome_view(outcome: Result<Option<NFTEvent>, Error>) -> Result<Option<NFTEventView>, Error> {
    match outcome {
        Ok(Some(event)) => Ok(Some(event@)),
        Ok(None) => Ok(None),
        Err(error) => Err(error),
    }
}

impl View for Step {
    type V = StepView;

    open spec fn view(&self) -> StepView {
        match *self {
            Step::Done(outcome) => StepView::Done(outcome_view(outcome)),
            Step::Invoke { call, pending } => StepView::Invoke { call, pending },
        }
    }
}

/// At most once: a request whose fingerprint is in the ledger is answered with
/// the reply filed there and the Token Core is not asked; any other has the
/// Token Core carry out `call`.
pub open spec fn once(transactions: Map<H256, NFTEventView>, key: H256, call: CoreCall, pending: Pending) -> StepView {
    if transactions.contains_key(key) {
        StepView::Done(Ok(Some(transactions[key])))
    } else {
        StepView::Invoke { call, pending }
    }
}

/// The step that a request comes to in a given state.
pub open spec fn begin_step<C>(state: NftView<C>, context: MessageContext, action: NFTAction) -> StepView {
    match action {
        NFTAction::Mint { transaction_id, token_metadata } => once(
            state.transactions,
            fingerprint(context.source, transaction_id),
            CoreCall::Mint { to: context.source, token_id: state.token_id, token_metadata: Some(token_metadata) },
            Pending::Mint { fingerprint: fingerprint(context.source, transaction_id) },
        ),
        NFTAction::Burn { transaction_id, token_id } => once(
            state.transactions,
            fingerprint(context.source, transaction_id),
            CoreCall::Burn { token_id },
            Pending::Transfer { fingerprint: fingerprint(context.source, transaction_id) },
        ),
        NFTAction::Transfer { transaction_id, to, token_id } => once(
            state.transactions,
            fingerprint(context.source, transaction_id),
            CoreCall::Transfer { to, token_id },
            Pending::Transfer { fingerprint: fingerprint(context.source, transaction_id) },
        ),
        NFTAction::TransferPayout { transaction_id, to, token_id, amount } => once(
            state.transactions,
            fingerprint(context.source, transaction_id),
            CoreCall::TransferPayout { to, token_id, amount },
            Pending::TransferPayout { fingerprint: fingerprint(context.source, transaction_id) },
        ),
        NFTAction::NFTPayout { owner, amount } => StepView::Invoke {
            call: CoreCall::NFTPayout { owner, amount },
            pending: Pending::Payout,
        },
        NFTAction::Approve { transaction_id, to, token_id } => once(
            state.transactions,
            fingerprint(context.source, transaction_id),
            CoreCall::Approve { to, token_id },
            Pending::Approval { fingerprint: fingerprint(context.source, transaction_id) },
        ),
        NFTAction::DelegatedApprove { transaction_id, message, signature } => once(
            state.transactions,
            fingerprint(context.source, transaction_id),
            CoreCall::DelegatedApprove { message, signature },
            Pending::Approval { fingerprint: fingerprint(context.source, transaction_id) },
        ),
        NFTAction::Owner { token_id } => StepView::Invoke {
            call: CoreCall::OwnerOf { token_id },
            pending: Pending::Owner { token_id },
        },
        NFTAction::IsApproved { to, token_id } => StepView::Invoke {
            call: CoreCall::IsApprovedTo { to, token_id },
            pending: Pending::IsApproved { to, token_id },
        },
        NFTAction::Clear { transaction_hash } => if context.source == context.program_id {
            StepView::Done(Ok(None))
        } else {
            StepView::Done(Err(Error::NotAuthorized))
        },
        NFTAction::SetUser { token_id, address, expires, transaction_id } => if state.transactions.contains_key(
            fingerprint(context.source, transaction_id),
        ) {
            StepView::Done(Ok(Some(state.transactions[fingerprint(context.source, transaction_id)])))
        } else if address.is_null() {
            StepView::Done(Err(Error::InvalidDelegate))
        } else {
            StepView::Invoke {
                call: CoreCall::IsApprovedTo { to: context.source, token_id },
                pending: Pending::SetUser {
                    fingerprint: fingerprint(context.source, transaction_id),
                    caller: context.source,
                    token_id,
                    address,
                    expires,
                },
            }
        },
        NFTAction::UserOf { token_id } => StepView::Done(
            Ok(Some(NFTEventView::UserOf { address: reported_user(state.users_info, token_id, context.block_timestamp) })),
        ),
        NFTAction::UserExpires { token_id } => StepView::Done(
            Ok(Some(NFTEventView::UserExpires { expires: recorded_expiry(state.users_info, token_id) })),
        ),
    }
}

/// The state in which `begin` leaves the ledger: as it was, but for a purge
/// that the program itself asked for.
pub open spec fn begin_state<C>(state: NftView<C>, context: MessageContext, action: NFTAction) -> NftView<C> {
    match action {
        NFTAction::Clear { transaction_hash } => if context.source == context.program_id {
            NftView { transactions: state.transactions.remove(transaction_hash), ..state }
        } else {
            state
        },
        _ => state,
    }
}

/// The state with a reply filed under a fingerprint.
pub open spec fn filed<C>(state: NftView<C>, key: H256, event: NFTEvent) -> NftView<C> {
    NftView { transactions: state.transactions.insert(key, event@), ..state }
}

/// The state and the outcome that the Token Core's answer leads to.
pub open spec fn finish_result<C>(state: NftView<C>, pending: Pending, answer: Result<CoreReply, CoreError>) -> (NftView<C>, Result<Option<NFTEventView>, Error>) {
    match answer {
        Err(error) => (state, Err(Error::Core(error))),
        Ok(reply) => match (pending, reply) {
            (Pending::Mint { fingerprint }, CoreReply::Transfer(transfer)) => (
                NftView { token_id: state.token_id.successor(), ..filed(state, fingerprint, NFTEvent::Transfer(transfer)) },
                Ok(Some(NFTEvent::Transfer(transfer)@)),
            ),
            (Pending::Transfer { fingerprint }, CoreReply::Transfer(transfer)) => (
                filed(state, fingerprint, NFTEvent::Transfer(transfer)),
                Ok(Some(NFTEvent::Transfer(transfer)@)),
            ),
            (Pending::TransferPayout { fingerprint }, CoreReply::TransferPayout(transfer)) => (
                filed(state, fingerprint, NFTEvent::TransferPayout(transfer)),
                Ok(Some(NFTEvent::TransferPayout(transfer)@)),
            ),
            (Pending::Approval { fingerprint }, CoreReply::Approval(approval)) => (
                filed(state, fingerprint, NFTEvent::Approval(approval)),
                Ok(Some(NFTEvent::Approval(approval)@)),
            ),
            (Pending::Payout, CoreReply::Payout(payout)) => (state, Ok(Some(NFTEvent::NFTPayout(payout)@))),
            (Pending::Owner { token_id }, CoreReply::Owner(owner)) => (
                state,
                Ok(Some(NFTEventView::Owner { owner, token_id })),
            ),
            (Pending::IsApproved { to, token_id }, CoreReply::Approved(approved)) => (
                state,
                Ok(Some(NFTEventView::IsApproved { to, token_id, approved })),
            ),
            (Pending::SetUser { fingerprint, caller, token_id, address, expires }, CoreReply::Approved(approved)) => {
                if address.is_null() {
                    (state, Err(Error::InvalidDelegate))
                } else if !approved && caller != state.owner {
                    (state, Err(Error::NotAuthorized))
                } else {
                    (
                        NftView {
                            users_info: with_user(state.users_info, token_id, address, expires),
                            ..filed(state, fingerprint, NFTEvent::UpdateUser { token_id, address, expires })
                        },
                        Ok(Some(NFTEventView::UpdateUser { token_id, address, expires })),
                    )
                }
            },
            _ => (state, Err(Error::UnexpectedReply)),
        },
    }
}

impl<C> Nft<C> {
    /// Looks a request up by its fingerprint. A request that was answered once
    /// is answered again with the reply filed then, and `call` is dropped; any
    /// other must have the Token Core carry out `call`.
    pub fn begin_transaction(&self, fingerprint: &H256, call: CoreCall, pending: Pending) -> (step: Step)
        ensures
            step@ == once(self@.transactions, *fingerprint, call, pending),
    {
        match self.transactions.lookup(fingerprint) {
            Some(event) => Step::Done(Ok(Some(event))),
            None => Step::Invoke { call, pending },
        }
    }

    /// Takes a request as far as it goes without the Token Core.
    pub fn begin(&mut self, context: &MessageContext, action: NFTAction) -> (step: Step)
        ensures
            step@ == begin_step(old(self)@, *context, action),
            final(self)@ == begin_state(old(self)@, *context, action),
    {
        match action {
            NFTAction::Mint { transaction_id, token_metadata } => {
                let fingerprint = get_hash(&context.source, transaction_id);
                let call = CoreCall::Mint { to: context.source, token_id: self.token_id, token_metadata: Some(token_metadata) };
                self.begin_transaction(&fingerprint, call, Pending::Mint { fingerprint })
            },
            NFTAction::Burn { transaction_id, token_id } => {
                let fingerprint = get_hash(&context.source, transaction_id);
                self.begin_transaction(&fingerprint, CoreCall::Burn { token_id }, Pending::Transfer { fingerprint })
            },
            NFTAction::Transfer { transaction_id, to, token_id } => {
                let fingerprint = get_hash(&context.source, transaction_id);
                self.begin_transaction(&fingerprint, CoreCall::Transfer { to, token_id }, Pending::Transfer { fingerprint })
            },
            NFTAction::TransferPayout { transaction_id, to, token_id, amount } => {
                let fingerprint = get_hash(&context.source, transaction_id);
                self.begin_transaction(
                    &fingerprint,
                    CoreCall::TransferPayout { to, token_id, amount },
                    Pending::TransferPayout { fingerprint },
                )
            },
            NFTAction::NFTPayout { owner, amount } => Step::Invoke {
                call: CoreCall::NFTPayout { owner, amount },
                pending: Pending::Payout,
            },
            NFTAction::Approve { transaction_id, to, token_id } => {
                let fingerprint = get_hash(&context.source, transaction_id);
                self.begin_transaction(&fingerprint, CoreCall::Approve { to, token_id }, Pending::Approval { fingerprint })
            },
            NFTAction::DelegatedApprove { transaction_id, message, signature } => {
                let fingerprint = get_hash(&context.source, transaction_id);
                self.begin_transaction(
                    &fingerprint,
                    CoreCall::DelegatedApprove { message, signature },
                    Pending::Approval { fingerprint },
                )
            },
            NFTAction::Owner { token_id } => Step::Invoke {
                call: CoreCall::OwnerOf { token_id },
                pending: Pending::Owner { token_id },
            },
            NFTAction::IsApproved { to, token_id } => Step::Invoke {
                call: CoreCall::IsApprovedTo { to, token_id },
                pending: Pending::IsApproved { to, token_id },
            },
            NFTAction::Clear { transaction_hash } => match self.clear(context, transaction_hash) {
                Ok(()) => Step::Done(Ok(None)),
                Err(error) => Step::Done(Err(error)),
            },
            NFTAction::SetUser { token_id, address, expires, transaction_id } => {
                let fingerprint = get_hash(&context.source, transaction_id);
                match self.transactions.lookup(&fingerprint) {
                    Some(event) => Step::Done(Ok(Some(event))),
                    None => {
                        if address.is_zero() {
                            Step::Done(Err(Error::InvalidDelegate))
                        } else {
                            Step::Invoke {
                                call: CoreCall::IsApprovedTo { to: context.source, token_id },
                                pending: Pending::SetUser { fingerprint, caller: context.source, token_id, address, expires },
                            }
                        }
                    },
                }
            },
            NFTAction::UserOf { token_id } => {
                let address = self.user_of(&token_id, context.block_timestamp);
                Step::Done(Ok(Some(NFTEvent::UserOf { address })))
            },
            NFTAction::UserExpires { token_id } => {
                let expires = self.user_expires(&token_id);
                Step::Done(Ok(Some(NFTEvent::UserExpires { expires })))
            },
        }
    }

    /// Files the reply to a request under the request's fingerprint, in place
    /// of what was there, and hands the reply back.
    pub fn finish_transaction(&mut self, fingerprint: H256, event: NFTEvent) -> (reply: NFTEvent)
        ensures
            final(self)@ == filed(old(self)@, fingerprint, event),
            reply == event,
    {
        self.transactions.record(fingerprint, event)
    }

    /// Deals with the Token Core's answer to the call that `begin` asked for.
    /// Where the Token Core refused, or the answer is not of the kind that was
    /// asked for, nothing changes.
    pub fn finish(&mut self, pending: Pending, answer: Result<CoreReply, CoreError>) -> (outcome: Result<Option<NFTEvent>, Error>)
        ensures
            (final(self)@, outcome_view(outcome)) == finish_result(old(self)@, pending, answer),
    {
        let reply = match answer {
            Ok(reply) => reply,
            Err(error) => {
                return Err(Error::Core(error));
            },
        };
        match (pending, reply) {
            (Pending::Mint { fingerprint }, CoreReply::Transfer(transfer)) => {
                self.token_id = self.token_id.saturating_increment();
                Ok(Some(self.finish_transaction(fingerprint, NFTEvent::Transfer(transfer))))
            },
            (Pending::Transfer { fingerprint }, CoreReply::Transfer(transfer)) => {
                Ok(Some(self.finish_transaction(fingerprint, NFTEvent::Transfer(transfer))))
            },
            (Pending::TransferPayout { fingerprint }, CoreReply::TransferPayout(transfer)) => {
                Ok(Some(self.finish_transaction(fingerprint, NFTEvent::TransferPayout(transfer))))
            },
            (Pending::Approval { fingerprint }, CoreReply::Approval(approval)) => {
                Ok(Some(self.finish_transaction(fingerprint, NFTEvent::Approval(approval))))
            },
            (Pending::Payout, CoreReply::Payout(payout)) => Ok(Some(NFTEvent::NFTPayout(payout))),
            (Pending::Owner { token_id }, CoreReply::Owner(owner)) => Ok(Some(NFTEvent::Owner { owner, token_id })),
            (Pending::IsApproved { to, token_id }, CoreReply::Approved(approved)) => {
                Ok(Some(NFTEvent::IsApproved { to, token_id, approved }))
            },
            (Pending::SetUser { fingerprint, caller, token_id, address, expires }, CoreReply::Approved(approved)) => {
                match self.set_user(&caller, approved, address, token_id, expires) {
                    Ok(()) => Ok(Some(self.finish_transaction(fingerprint, NFTEvent::UpdateUser { token_id, address, expires }))),
                    Err(error) => Err(error),
                }
            },
            _ => Err(Error::UnexpectedReply),
        }
    }
}

/// A state once the Token Core has acted: as it was, but for the Token Core.
pub open spec fn after_call<C>(state: NftView<C>, token: C) -> NftView<C> {
    NftView { token, ..state }
}

/// What holds of a request that was handled from start to end. A request that
/// needs no Token Core has its outcome and leaves the Token Core as it is. For
/// any other the Token Core gave some answer to the call that `begin_step`
/// names, and state and outcome are what `finish_result` makes of that answer.
pub open spec fn handled<C: TokenCore>(
    before: NftView<C>,
    context: MessageContext,
    action: NFTAction,
    after: NftView<C>,
    outcome: Result<Option<NFTEventView>, Error>,
) -> bool {
    match begin_step(before, context, action) {
        StepView::Done(result) => outcome == result && after == begin_state(before, context, action),
        StepView::Invoke { call, pending } => exists|answer: Result<CoreReply, CoreError>|
            answer_fits(before.token, call, after.token, answer) && #[trigger] finish_result(
                NftView { token: after.token, ..before },
                pending,
                answer,
            ) == (after, outcome),
    }
}

impl<C: TokenCore> Nft<C> {
    /// Handles one request from start to end: `begin`, then, where the Token
    /// Core must act, the call and `finish`. Where the call changes the Token
    /// Core, the answer that `finish` dealt with is one that the Token Core's
    /// method of the call's name gives for what the call holds, called on the
    /// Token Core as it was and leaving it as it is found afterwards.
    pub fn handle(&mut self, context: &MessageContext, action: NFTAction) -> (outcome: Result<Option<NFTEvent>, Error>)
        ensures
            handled(old(self)@, *context, action, final(self)@, outcome_view(outcome)),
            begin_step(old(self)@, *context, action) is Invoke && changes(begin_step(old(self)@, *context, action)->call)
                ==> exists|answer: Result<CoreReply, CoreError>|
                #[trigger] finish_result(
                    after_call(old(self)@, final(self).token),
                    begin_step(old(self)@, *context, action)->pending,
                    answer,
                ) == (final(self)@, outcome_view(outcome)) && exists|inner: &mut C|
                    mut_ref_current(inner) == old(self).token && mut_ref_future(inner) == final(self).token
                        && #[trigger] asked(inner, *context, begin_step(old(self)@, *context, action)->call, answer),
            outcome != Err::<Option<NFTEvent>, Error>(Error::UnexpectedReply),
    {
        match self.begin(context, action) {
            Step::Done(outcome) => outcome,
            Step::Invoke { call, pending } => {
                let answer = perform(&mut self.token, context, call);
                let ghost middle = self@;
                let outcome = self.finish(pending, answer);
                proof {
                    assert(finish_result(middle, pending, answer) == (self@, outcome_view(outcome)));
                    assert(middle == after_call(old(self)@, self@.token));
                }
                outcome
            },
        }
    }
}

} // verus!
