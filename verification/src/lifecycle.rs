use crate::dispatch::{after_call, begin_state, begin_step, finish_result, handled, outcome_view, Pending, Step, StepView};
use crate::io::{IoNft, NFTAction, NFTEvent};
use crate::ledger::{lists_events, owned_pairs};
use crate::nft::{initial_state, Error, Nft, NftView};
use crate::primitives::{ActorId, MessageContext};
use crate::registry::lists_users;
use crate::token_core::{asked, changes, CoreError, CoreReply, TokenCore};
use vstd::prelude::*;

verus! {

/// The ledger through its life: it holds nothing until it is initialized, once,
/// and is active from then on.
pub struct Contract<C> {
    pub nft: Option<Nft<C>>,
}

impl<C> View for Contract<C> {
    type V = Option<NftView<C>>;

    open spec fn view(&self) -> Option<NftView<C>> {
        match self.nft {
            Some(nft) => Some(nft@),
            None => None,
        }
    }
}

impl<C> Contract<C> {
    /// A ledger that is not initialized yet.
    pub fn new() -> (contract: Contract<C>)
        ensures
            contract@ is None,
    {
        Contract { nft: None }
    }

    /// Initializes the ledger on a Token Core, for the identity that sent the
    /// request, which becomes the owner. A ledger is initialized once: a
    /// second request is turned away and changes nothing.
    pub fn init(&mut self, token: C, owner: ActorId) -> (r: Result<(), Error>)
        ensures
            old(self)@ is None ==> r == Ok::<(), Error>(()) && final(self)@ == Some(initial_state(token, owner)),
            old(self)@ is Some ==> r == Err::<(), Error>(Error::AlreadyInitialized) && final(self)@ == old(self)@,
    {
        if self.nft.is_some() {
            return Err(Error::AlreadyInitialized);
        }
        let nft = Nft::new(token, owner);
        self.nft = Some(nft);
        Ok(())
    }
}

impl<C> Contract<C> {
    /// Takes a request as far as it goes without the Token Core. A ledger
    /// that is not initialized turns every request away.
    pub fn begin(&mut self, context: &MessageContext, action: NFTAction) -> (step: Step)
        ensures
            old(self)@ is None ==> step@ == StepView::Done(Err(Error::NotInitialized)) && final(self)@ is None,
            old(self)@ is Some ==> step@ == begin_step(old(self)@->0, *context, action) && final(self)@ == Some(
                begin_state(old(self)@->0, *context, action),
            ),
    {
        match &mut self.nft {
            Some(nft) => nft.begin(context, action),
            None => Step::Done(Err(Error::NotInitialized)),
        }
    }

    /// Deals with the Token Core's answer to the call that `begin` asked for.
    /// A ledger that is not initialized turns it away.
    pub fn finish(&mut self, pending: Pending, answer: Result<CoreReply, CoreError>) -> (outcome: Result<Option<NFTEvent>, Error>)
        ensures
            old(self)@ is None ==> outcome == Err::<Option<NFTEvent>, Error>(Error::NotInitialized) && final(self)@ is None,
            old(self)@ is Some ==> final(self)@ is Some && (final(self)@->0, outcome_view(outcome)) == finish_result(
                old(self)@->0,
                pending,
                answer,
            ),
    {
        match &mut self.nft {
            Some(nft) => nft.finish(pending, answer),
            None => Err(Error::NotInitialized),
        }
    }

    /// The ledger's own state for a reader outside, once it is initialized.
    pub fn state(&self) -> (r: Result<IoNft, Error>)
        ensures
            self@ is None ==> r is Err && r->Err_0 == Error::NotInitialized,
            self@ is Some ==> r is Ok && r->Ok_0.token_id == self@->0.token_id && r->Ok_0.owner == self@->0.owner
                && lists_events(owned_pairs(r->Ok_0.transactions@), self@->0.transactions) && lists_users(
                r->Ok_0.users_info@,
                self@->0.users_info,
            ),
    {
        match &self.nft {
            Some(nft) => Ok(nft.io_state()),
            None => Err(Error::NotInitialized),
        }
    }
}

impl<C: TokenCore> Contract<C> {
    /// Handles one request from start to end. A ledger that is not
    /// initialized turns every request away and asks nothing of anyone. Where
    /// an active ledger has the Token Core change, the answer that was dealt
    /// with is one that the Token Core's method of the call's name gives for
    /// what the call holds, called on the Token Core as it was and leaving it
    /// as it is found afterwards.
    pub fn handle(&mut self, context: &MessageContext, action: NFTAction) -> (outcome: Result<Option<NFTEvent>, Error>)
        ensures
            old(self)@ is None ==> outcome == Err::<Option<NFTEvent>, Error>(Error::NotInitialized) && final(self)@ is None,
            old(self)@ is Some ==> final(self)@ is Some && handled(
                old(self)@->0,
                *context,
                action,
                final(self)@->0,
                outcome_view(outcome),
            ),
            old(self)@ is Some && begin_step(old(self)@->0, *context, action) is Invoke && changes(
                begin_step(old(self)@->0, *context, action)->call,
            ) ==> exists|answer: Result<CoreReply, CoreError>|
                #[trigger] finish_result(
                    after_call(old(self)@->0, final(self)@->0.token),
                    begin_step(old(self)@->0, *context, action)->pending,
                    answer,
                ) == (final(self)@->0, outcome_view(outcome)) && exists|inner: &mut C|
                    mut_ref_current(inner) == old(self)@->0.token && mut_ref_future(inner) == final(self)@->0.token
                        && #[trigger] asked(inner, *context, begin_step(old(self)@->0, *context, action)->call, answer),
            outcome != Err::<Option<NFTEvent>, Error>(Error::UnexpectedReply),
    {
        let ghost before = self@;
        let outcome = match &mut self.nft {
            Some(nft) => nft.handle(context, action),
            None => Err(Error::NotInitialized),
        };
        proof {
            if before is Some && begin_step(before->0, *context, action) is Invoke && changes(
                begin_step(before->0, *context, action)->call,
            ) {
                let answer = choose|answer: Result<CoreReply, CoreError>|
                    #[trigger] finish_result(
                        after_call(before->0, self@->0.token),
                        begin_step(before->0, *context, action)->pending,
                        answer,
                    ) == (self@->0, outcome_view(outcome)) && exists|inner: &mut C|
                        mut_ref_current(inner) == before->0.token && mut_ref_future(inner) == self@->0.token
                            && #[trigger] asked(inner, *context, begin_step(before->0, *context, action)->call, answer);
                assert(finish_result(
                    after_call(before->0, self@->0.token),
                    begin_step(before->0, *context, action)->pending,
                    answer,
                ) == (self@->0, outcome_view(outcome)));
                assert(exists|inner: &mut C|
                    mut_ref_current(inner) == before->0.token && mut_ref_future(inner) == self@->0.token
                        && #[trigger] asked(inner, *context, begin_step(before->0, *context, action)->call, answer));
            }
        }
        outcome
    }
}

} // verus!
