use crate::dispatch::{begin_state, begin_step, finish_result, handled, StepView};
use crate::hashing::fingerprint;
use crate::io::{NFTAction, NFTEventView, UserInfo};
use crate::nft::{Error, NftView};
use crate::primitives::{ActorId, MessageContext, H256};
use crate::registry::with_user;
use crate::token_core::{CoreError, CoreReply, TokenCore};
use crate::token_id::{lemma_successor_value, lemma_value_bounded, max_token_id, TokenId};
use vstd::prelude::*;

verus! {

/// The transaction number of a request that is carried out at most once;
/// `None` for a request that is carried out each time it comes.
pub open spec fn transaction_of(action: NFTAction) -> Option<u64> {
    match action {
        NFTAction::Mint { transaction_id, .. } => Some(transaction_id),
        NFTAction::Burn { transaction_id, .. } => Some(transaction_id),
        NFTAction::Transfer { transaction_id, .. } => Some(transaction_id),
        NFTAction::TransferPayout { transaction_id, .. } => Some(transaction_id),
        NFTAction::Approve { transaction_id, .. } => Some(transaction_id),
        NFTAction::DelegatedApprove { transaction_id, .. } => Some(transaction_id),
        NFTAction::SetUser { transaction_id, .. } => Some(transaction_id),
        _ => None,
    }
}

/// A request under a fingerprint that the ledger holds is answered with the
/// reply filed there, whatever it asks for, and changes nothing.
pub proof fn lemma_filed_request_is_answered<C>(state: NftView<C>, context: MessageContext, action: NFTAction)
    requires
        transaction_of(action) is Some,
        state.transactions.contains_key(fingerprint(context.source, transaction_of(action)->0)),
    ensures
        begin_step(state, context, action) == StepView::Done(
            Ok(Some(state.transactions[fingerprint(context.source, transaction_of(action)->0)])),
        ),
        begin_state(state, context, action) == state,
{
}

/// A request that the Token Core was asked about and that came to a reply
/// has that reply filed under its fingerprint.
pub proof fn lemma_reply_is_filed<C>(
    before: NftView<C>,
    context: MessageContext,
    action: NFTAction,
    token: C,
    answer: Result<CoreReply, CoreError>,
    after: NftView<C>,
    reply: NFTEventView,
)
    requires
        transaction_of(action) is Some,
        begin_step(before, context, action) is Invoke,
        finish_result(NftView { token, ..before }, begin_step(before, context, action)->pending, answer) == (
            after,
            Ok::<Option<NFTEventView>, Error>(Some(reply)),
        ),
    ensures
        after.transactions.contains_key(fingerprint(context.source, transaction_of(action)->0)),
        after.transactions[fingerprint(context.source, transaction_of(action)->0)] == reply,
{
}

/// At most once. Where a request was handled and came to a reply, a second
/// request from the same source under the same transaction number comes to the
/// same reply and changes nothing: neither the ledger's own state nor the
/// Token Core.
pub proof fn lemma_handle_is_idempotent<C: TokenCore>(
    before: NftView<C>,
    context: MessageContext,
    action: NFTAction,
    after: NftView<C>,
    reply: NFTEventView,
    later: MessageContext,
    again: NFTAction,
    last: NftView<C>,
    outcome: Result<Option<NFTEventView>, Error>,
)
    requires
        transaction_of(action) is Some,
        transaction_of(again) == transaction_of(action),
        later.source == context.source,
        handled(before, context, action, after, Ok(Some(reply))),
        handled(after, later, again, last, outcome),
    ensures
        outcome == Ok::<Option<NFTEventView>, Error>(Some(reply)),
        last == after,
{
    let key = fingerprint(context.source, transaction_of(action)->0);
    match begin_step(before, context, action) {
        StepView::Done(result) => {
            assert(before.transactions.contains_key(key));
            assert(after == before);
        },
        StepView::Invoke { call, pending } => {
            let answer = choose|answer: Result<CoreReply, CoreError>| #[trigger]
                finish_result(NftView { token: after.token, ..before }, pending, answer) == (after, Ok::<Option<NFTEventView>, Error>(Some(reply)));
            lemma_reply_is_filed(before, context, action, after.token, answer, after, reply);
        },
    }
    lemma_filed_request_is_answered(after, later, again);
}

/// Once the program has purged a fingerprint, a request under it is not
/// answered from the ledger any more: it is carried out anew, or turned away
/// on its own account.
pub proof fn lemma_purged_request_is_fresh<C>(
    state: NftView<C>,
    purge: MessageContext,
    context: MessageContext,
    action: NFTAction,
)
    requires
        transaction_of(action) is Some,
        purge.source == purge.program_id,
    ensures
        !(begin_step(
            begin_state(
                state,
                purge,
                NFTAction::Clear { transaction_hash: fingerprint(context.source, transaction_of(action)->0) },
            ),
            context,
            action,
        ) matches StepView::Done(Ok(_))),
{
}

/// A purge that anyone but the program asks for is turned away and changes
/// nothing.
pub proof fn lemma_purge_is_privileged<C>(state: NftView<C>, context: MessageContext, transaction_hash: H256)
    requires
        context.source != context.program_id,
    ensures
        begin_step(state, context, NFTAction::Clear { transaction_hash }) == StepView::Done(Err(Error::NotAuthorized)),
        begin_state(state, context, NFTAction::Clear { transaction_hash }) == state,
{
}

/// Setting the user of a token twice: the second call changes the bound and
/// nothing else. The token keeps the user that it had after the first call,
/// which is the first call's user where the token had none before.
pub proof fn lemma_second_set_user_keeps_user(
    users: Map<TokenId, UserInfo>,
    token_id: TokenId,
    first: ActorId,
    first_expires: u64,
    second: ActorId,
    second_expires: u64,
)
    ensures
        with_user(with_user(users, token_id, first, first_expires), token_id, second, second_expires)
            == with_user(users, token_id, first, first_expires).insert(
            token_id,
            UserInfo {
                address: with_user(users, token_id, first, first_expires)[token_id].address,
                expires: second_expires,
            },
        ),
        !users.contains_key(token_id) ==> with_user(
            with_user(users, token_id, first, first_expires),
            token_id,
            second,
            second_expires,
        )[token_id] == (UserInfo { address: first, expires: second_expires }),
{
}

/// The counter after a number of mints that the Token Core carried out.
pub open spec fn counter_after(start: TokenId, mints: nat) -> TokenId
    decreases mints,
{
    if mints == 0 {
        start
    } else {
        counter_after(start, (mints - 1) as nat).successor()
    }
}

/// While the counter has not reached the largest identifier, each mint moves
/// it on by one: the mint that follows `mints` others is assigned the number
/// `start + mints`.
pub proof fn lemma_counter_counts(start: TokenId, mints: nat)
    requires
        start.value() + mints <= max_token_id(),
    ensures
        counter_after(start, mints).value() == start.value() + mints,
    decreases mints,
{
    if mints > 0 {
        lemma_counter_counts(start, (mints - 1) as nat);
        lemma_successor_value(counter_after(start, (mints - 1) as nat));
    }
}

/// The identifiers that a run of mints assigns are distinct and strictly
/// increasing, as long as the counter has not reached the largest identifier
/// before the last of them.
pub proof fn lemma_mints_strictly_increase(start: TokenId, earlier: nat, later: nat)
    requires
        earlier < later,
        start.value() + later <= max_token_id(),
    ensures
        counter_after(start, earlier).value() < counter_after(start, later).value(),
        counter_after(start, earlier) != counter_after(start, later),
{
    lemma_counter_counts(start, earlier);
    lemma_counter_counts(start, later);
}

/// The counter never goes back, whatever its value.
pub proof fn lemma_counter_never_decreases(start: TokenId, earlier: nat, later: nat)
    requires
        earlier <= later,
    ensures
        counter_after(start, earlier).value() <= counter_after(start, later).value(),
    decreases later,
{
    if earlier < later {
        lemma_counter_never_decreases(start, earlier, (later - 1) as nat);
        lemma_successor_value(counter_after(start, (later - 1) as nat));
        lemma_value_bounded(counter_after(start, (later - 1) as nat));
    }
}

/// A mint that the Token Core carried out is assigned the identifier that the
/// counter showed, and leaves the counter at that identifier's successor.
pub proof fn lemma_mint_moves_counter<C>(
    before: NftView<C>,
    context: MessageContext,
    action: NFTAction,
    token: C,
    answer: Result<CoreReply, CoreError>,
)
    requires
        action is Mint,
        begin_step(before, context, action) is Invoke,
        answer is Ok,
        answer->Ok_0 is Transfer,
    ensures
        begin_step(before, context, action)->call is Mint,
        begin_step(before, context, action)->call->Mint_token_id == before.token_id,
        begin_step(before, context, action)->call->Mint_to == context.source,
        finish_result(NftView { token, ..before }, begin_step(before, context, action)->pending, answer).0.token_id
            == before.token_id.successor(),
{
}

} // verus!
