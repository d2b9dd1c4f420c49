use nft_ledger::dispatch::{Pending, Step};
use nft_ledger::hashing::get_hash;
use nft_ledger::io::{
    DelegatedApproveMessage, NFTAction, NFTApproval, NFTEvent, NFTTransfer, NFTTransferPayout, Payout,
    TokenMetadata, UserInfo,
};
use nft_ledger::lifecycle::Contract;
use nft_ledger::nft::{Error, MyNFTCore, Nft};
use nft_ledger::primitives::{ActorId, MessageContext};
use nft_ledger::token_core::{perform, CoreCall, CoreError, CoreReply, TokenCore};
use nft_ledger::token_id::TokenId;

const NO_SUCH_TOKEN: CoreError = CoreError { code: 1 };
const NOT_ALLOWED: CoreError = CoreError { code: 2 };
const TOKEN_EXISTS: CoreError = CoreError { code: 3 };
const EXPIRED: CoreError = CoreError { code: 4 };

/// A Token Core of a few lines, which counts how often it is asked to change.
struct FakeCore {
    name: String,
    symbol: String,
    owners: Vec<(TokenId, ActorId)>,
    approvals: Vec<(TokenId, ActorId)>,
    changes: usize,
}

impl FakeCore {
    fn new(name: &str, symbol: &str) -> FakeCore {
        FakeCore { name: name.to_string(), symbol: symbol.to_string(), owners: Vec::new(), approvals: Vec::new(), changes: 0 }
    }

    fn may_move(&self, who: &ActorId, token_id: TokenId) -> bool {
        self.owner_of(token_id) == *who || self.is_approved_to(who, token_id)
    }
}

impl TokenCore for FakeCore {
    fn mint(&mut self, to: &ActorId, token_id: TokenId, _token_metadata: Option<TokenMetadata>) -> Result<NFTTransfer, CoreError> {
        if self.owners.iter().any(|(id, _)| *id == token_id) {
            return Err(TOKEN_EXISTS);
        }
        self.changes += 1;
        self.owners.push((token_id, *to));
        Ok(NFTTransfer { from: ActorId::zero(), to: *to, token_id })
    }

    fn burn(&mut self, context: &MessageContext, token_id: TokenId) -> Result<NFTTransfer, CoreError> {
        let owner = self.owner_of(token_id);
        if owner.is_zero() {
            return Err(NO_SUCH_TOKEN);
        }
        if owner != context.source {
            return Err(NOT_ALLOWED);
        }
        self.changes += 1;
        self.owners.retain(|(id, _)| *id != token_id);
        Ok(NFTTransfer { from: owner, to: ActorId::zero(), token_id })
    }

    fn transfer(&mut self, context: &MessageContext, to: &ActorId, token_id: TokenId) -> Result<NFTTransfer, CoreError> {
        let owner = self.owner_of(token_id);
        if owner.is_zero() {
            return Err(NO_SUCH_TOKEN);
        }
        if !self.may_move(&context.source, token_id) {
            return Err(NOT_ALLOWED);
        }
        self.changes += 1;
        for entry in self.owners.iter_mut() {
            if entry.0 == token_id {
                entry.1 = *to;
            }
        }
        self.approvals.retain(|(id, _)| *id != token_id);
        Ok(NFTTransfer { from: owner, to: *to, token_id })
    }

    fn transfer_payout(&mut self, context: &MessageContext, to: &ActorId, token_id: TokenId, amount: u128) -> Result<NFTTransferPayout, CoreError> {
        let payouts = self.nft_payout(&self.owner_of(token_id), amount);
        let moved = self.transfer(context, to, token_id)?;
        Ok(NFTTransferPayout { from: moved.from, to: moved.to, token_id, payouts })
    }

    fn nft_payout(&self, owner: &ActorId, amount: u128) -> Payout {
        Payout { entries: vec![(*owner, amount)] }
    }

    fn approve(&mut self, context: &MessageContext, to: &ActorId, token_id: TokenId) -> Result<NFTApproval, CoreError> {
        let owner = self.owner_of(token_id);
        if owner != context.source {
            return Err(NOT_ALLOWED);
        }
        self.changes += 1;
        self.approvals.push((token_id, *to));
        Ok(NFTApproval { owner, approved_account: *to, token_id })
    }

    fn delegated_approve(&mut self, context: &MessageContext, message: DelegatedApproveMessage, _signature: [u8; 64]) -> Result<NFTApproval, CoreError> {
        if message.expiration_timestamp < context.block_timestamp {
            return Err(EXPIRED);
        }
        if message.nft_program_id != context.program_id || self.owner_of(message.token_id) != message.token_owner_id {
            return Err(NOT_ALLOWED);
        }
        self.changes += 1;
        self.approvals.push((message.token_id, message.approved_actor_id));
        Ok(NFTApproval { owner: message.token_owner_id, approved_account: message.approved_actor_id, token_id: message.token_id })
    }

    fn owner_of(&self, token_id: TokenId) -> ActorId {
        self.owners.iter().find(|(id, _)| *id == token_id).map(|(_, owner)| *owner).unwrap_or(ActorId::zero())
    }

    fn is_approved_to(&self, to: &ActorId, token_id: TokenId) -> bool {
        self.approvals.iter().any(|(id, who)| *id == token_id && who == to)
    }
}

const DEPLOYER: ActorId = ActorId([1; 32]);
const X: ActorId = ActorId([10; 32]);
const Y: ActorId = ActorId([11; 32]);
const Z: ActorId = ActorId([12; 32]);
const PROGRAM: ActorId = ActorId([200; 32]);

fn from(source: ActorId) -> MessageContext {
    MessageContext { source, program_id: PROGRAM, block_timestamp: 1_000 }
}

fn at(source: ActorId, block_timestamp: u64) -> MessageContext {
    MessageContext { source, program_id: PROGRAM, block_timestamp }
}

fn metadata(name: &str) -> TokenMetadata {
    TokenMetadata { name: name.to_string(), description: String::new(), media: String::new(), reference: String::new() }
}

fn mint(transaction_id: u64) -> NFTAction {
    NFTAction::Mint { transaction_id, token_metadata: metadata("token") }
}

fn minted(to: ActorId, token: u64) -> NFTEvent {
    NFTEvent::Transfer(NFTTransfer { from: ActorId::zero(), to, token_id: TokenId::from_u64(token) })
}

fn active() -> Contract<FakeCore> {
    let mut contract = Contract::new();
    assert_eq!(contract.init(FakeCore::new("N", "S"), DEPLOYER), Ok(()));
    contract
}

fn nft(contract: &Contract<FakeCore>) -> &Nft<FakeCore> {
    contract.nft.as_ref().unwrap()
}

#[test]
fn mint_then_the_same_mint_again() {
    let mut contract = active();
    assert_eq!(nft(&contract).token.name, "N");
    assert_eq!(nft(&contract).token.symbol, "S");
    let first = contract.handle(&from(X), mint(1));
    assert_eq!(first, Ok(Some(minted(X, 0))));
    assert_eq!(nft(&contract).token.owner_of(TokenId::from_u64(0)), X);
    assert_eq!(nft(&contract).token_id, TokenId::from_u64(1));
    let second = contract.handle(&from(X), mint(1));
    assert_eq!(second, first);
    assert_eq!(nft(&contract).token_id, TokenId::from_u64(1));
    assert_eq!(nft(&contract).token.changes, 1);
    assert_eq!(nft(&contract).token.owners.len(), 1);
}

#[test]
fn a_request_before_init_is_turned_away() {
    let mut contract: Contract<FakeCore> = Contract::new();
    assert_eq!(contract.handle(&from(X), mint(1)), Err(Error::NotInitialized));
    assert_eq!(contract.handle(&from(X), NFTAction::UserExpires { token_id: TokenId::zero() }), Err(Error::NotInitialized));
    assert_eq!(
        contract.handle(&from(PROGRAM), NFTAction::Clear { transaction_hash: get_hash(&X, 1) }),
        Err(Error::NotInitialized)
    );
    assert!(matches!(contract.begin(&from(X), mint(1)), Step::Done(Err(Error::NotInitialized))));
    assert_eq!(
        contract.finish(Pending::Payout, Ok(CoreReply::Payout(Payout { entries: Vec::new() }))),
        Err(Error::NotInitialized)
    );
    assert!(matches!(contract.state(), Err(Error::NotInitialized)));
    assert!(contract.nft.is_none());
}

#[test]
fn init_happens_once() {
    let mut contract = active();
    contract.handle(&from(X), mint(1)).unwrap();
    assert_eq!(contract.init(FakeCore::new("other", "O"), X), Err(Error::AlreadyInitialized));
    assert_eq!(nft(&contract).owner, DEPLOYER);
    assert_eq!(nft(&contract).token.name, "N");
    assert_eq!(nft(&contract).token_id, TokenId::from_u64(1));
}

#[test]
fn mints_are_numbered_from_the_counter_up() {
    let mut contract = active();
    for i in 0u64..10 {
        let reply = contract.handle(&from(X), mint(100 + i));
        assert_eq!(reply, Ok(Some(minted(X, i))));
        assert_eq!(nft(&contract).token_id, TokenId::from_u64(i + 1));
    }
    assert_eq!(nft(&contract).token.owners.len(), 10);
}

#[test]
fn the_same_number_from_another_source_is_another_request() {
    let mut contract = active();
    assert_eq!(contract.handle(&from(X), mint(1)), Ok(Some(minted(X, 0))));
    assert_eq!(contract.handle(&from(Y), mint(1)), Ok(Some(minted(Y, 1))));
    assert_eq!(contract.handle(&from(X), mint(1)), Ok(Some(minted(X, 0))));
    assert_eq!(nft(&contract).token_id, TokenId::from_u64(2));
}

#[test]
fn a_filed_reply_answers_whatever_is_asked_under_its_number() {
    let mut contract = active();
    assert_eq!(contract.handle(&from(X), mint(1)), Ok(Some(minted(X, 0))));
    let burn = NFTAction::Burn { transaction_id: 1, token_id: TokenId::from_u64(0) };
    assert_eq!(contract.handle(&from(X), burn), Ok(Some(minted(X, 0))));
    assert_eq!(nft(&contract).token.owner_of(TokenId::from_u64(0)), X);
}

#[test]
fn a_refusal_of_the_token_core_is_not_filed() {
    let mut contract = active();
    contract.handle(&from(X), mint(1)).unwrap();
    let transfer = || NFTAction::Transfer { transaction_id: 2, to: Z, token_id: TokenId::from_u64(0) };
    assert_eq!(contract.handle(&from(Y), transfer()), Err(Error::Core(NOT_ALLOWED)));
    assert_eq!(nft(&contract).transactions.lookup(&get_hash(&Y, 2)), None);
    assert_eq!(nft(&contract).token_id, TokenId::from_u64(1));
    let approve = NFTAction::Approve { transaction_id: 3, to: Y, token_id: TokenId::from_u64(0) };
    contract.handle(&from(X), approve).unwrap();
    let moved = NFTEvent::Transfer(NFTTransfer { from: X, to: Z, token_id: TokenId::from_u64(0) });
    assert_eq!(contract.handle(&from(Y), transfer()), Ok(Some(moved)));
}

#[test]
fn a_refused_mint_leaves_the_counter() {
    let mut contract = active();
    contract.nft.as_mut().unwrap().token.owners.push((TokenId::from_u64(0), Z));
    assert_eq!(contract.handle(&from(X), mint(1)), Err(Error::Core(TOKEN_EXISTS)));
    assert_eq!(nft(&contract).token_id, TokenId::from_u64(0));
    assert!(nft(&contract).io_state().transactions.is_empty());
}

#[test]
fn transfer_burn_and_approve_are_carried_out_once() {
    let mut contract = active();
    contract.handle(&from(X), mint(1)).unwrap();
    let approve = || NFTAction::Approve { transaction_id: 2, to: Y, token_id: TokenId::from_u64(0) };
    let approved = NFTEvent::Approval(NFTApproval { owner: X, approved_account: Y, token_id: TokenId::from_u64(0) });
    assert_eq!(contract.handle(&from(X), approve()), Ok(Some(approved.clone())));
    assert_eq!(contract.handle(&from(X), approve()), Ok(Some(approved)));
    assert_eq!(nft(&contract).token.approvals.len(), 1);
    let transfer = || NFTAction::Transfer { transaction_id: 3, to: Z, token_id: TokenId::from_u64(0) };
    let moved = NFTEvent::Transfer(NFTTransfer { from: X, to: Z, token_id: TokenId::from_u64(0) });
    assert_eq!(contract.handle(&from(X), transfer()), Ok(Some(moved.clone())));
    assert_eq!(contract.handle(&from(X), transfer()), Ok(Some(moved)));
    let burn = || NFTAction::Burn { transaction_id: 4, token_id: TokenId::from_u64(0) };
    let burnt = NFTEvent::Transfer(NFTTransfer { from: Z, to: ActorId::zero(), token_id: TokenId::from_u64(0) });
    assert_eq!(contract.handle(&from(Z), burn()), Ok(Some(burnt.clone())));
    assert_eq!(contract.handle(&from(Z), burn()), Ok(Some(burnt)));
    assert_eq!(nft(&contract).token.changes, 4);
    assert_eq!(nft(&contract).token_id, TokenId::from_u64(1));
}

#[test]
fn transfer_for_a_price_files_the_shares() {
    let mut contract = active();
    contract.handle(&from(X), mint(1)).unwrap();
    let sale = || NFTAction::TransferPayout { transaction_id: 2, to: Y, token_id: TokenId::from_u64(0), amount: 500 };
    let sold = NFTEvent::TransferPayout(NFTTransferPayout {
        from: X,
        to: Y,
        token_id: TokenId::from_u64(0),
        payouts: Payout { entries: vec![(X, 500)] },
    });
    assert_eq!(contract.handle(&from(X), sale()), Ok(Some(sold.clone())));
    assert_eq!(contract.handle(&from(X), sale()), Ok(Some(sold.clone())));
    assert_eq!(nft(&contract).transactions.lookup(&get_hash(&X, 2)), Some(sold));
    assert_eq!(nft(&contract).token.changes, 2);
}

#[test]
fn a_signed_approval_is_carried_out_once() {
    let mut contract = active();
    contract.handle(&from(X), mint(1)).unwrap();
    let message = DelegatedApproveMessage {
        token_owner_id: X,
        approved_actor_id: Y,
        nft_program_id: PROGRAM,
        token_id: TokenId::from_u64(0),
        expiration_timestamp: 2_000,
    };
    let signed = || NFTAction::DelegatedApprove { transaction_id: 9, message, signature: [7; 64] };
    let approved = NFTEvent::Approval(NFTApproval { owner: X, approved_account: Y, token_id: TokenId::from_u64(0) });
    assert_eq!(contract.handle(&from(Z), signed()), Ok(Some(approved.clone())));
    assert_eq!(contract.handle(&at(Z, 5_000), signed()), Ok(Some(approved)));
    assert_eq!(nft(&contract).token.approvals.len(), 1);
    let late = NFTAction::DelegatedApprove { transaction_id: 10, message, signature: [7; 64] };
    assert_eq!(contract.handle(&at(Z, 5_000), late), Err(Error::Core(EXPIRED)));
}

#[test]
fn questions_are_asked_each_time() {
    let mut contract = active();
    contract.handle(&from(X), mint(1)).unwrap();
    let token_id = TokenId::from_u64(0);
    assert_eq!(contract.handle(&from(Y), NFTAction::Owner { token_id }), Ok(Some(NFTEvent::Owner { owner: X, token_id })));
    assert_eq!(
        contract.handle(&from(Y), NFTAction::IsApproved { to: Y, token_id }),
        Ok(Some(NFTEvent::IsApproved { to: Y, token_id, approved: false }))
    );
    contract.handle(&from(X), NFTAction::Approve { transaction_id: 2, to: Y, token_id }).unwrap();
    assert_eq!(
        contract.handle(&from(Y), NFTAction::IsApproved { to: Y, token_id }),
        Ok(Some(NFTEvent::IsApproved { to: Y, token_id, approved: true }))
    );
    contract.handle(&from(X), NFTAction::Transfer { transaction_id: 3, to: Z, token_id }).unwrap();
    assert_eq!(contract.handle(&from(Y), NFTAction::Owner { token_id }), Ok(Some(NFTEvent::Owner { owner: Z, token_id })));
    assert_eq!(
        contract.handle(&from(Y), NFTAction::NFTPayout { owner: Z, amount: 77 }),
        Ok(Some(NFTEvent::NFTPayout(Payout { entries: vec![(Z, 77)] })))
    );
    assert_eq!(nft(&contract).io_state().transactions.len(), 3);
}

#[test]
fn purge_is_for_the_program_alone() {
    let mut contract = active();
    contract.handle(&from(X), mint(1)).unwrap();
    let purge = || NFTAction::Clear { transaction_hash: get_hash(&X, 1) };
    assert_eq!(contract.handle(&from(X), purge()), Err(Error::NotAuthorized));
    assert_eq!(contract.handle(&from(DEPLOYER), purge()), Err(Error::NotAuthorized));
    assert_eq!(nft(&contract).transactions.lookup(&get_hash(&X, 1)), Some(minted(X, 0)));
    assert_eq!(contract.handle(&from(PROGRAM), purge()), Ok(None));
    assert_eq!(nft(&contract).transactions.lookup(&get_hash(&X, 1)), None);
}

#[test]
fn after_a_purge_the_request_is_carried_out_anew() {
    let mut contract = active();
    assert_eq!(contract.handle(&from(X), mint(1)), Ok(Some(minted(X, 0))));
    assert_eq!(contract.handle(&from(X), mint(1)), Ok(Some(minted(X, 0))));
    assert_eq!(contract.handle(&from(PROGRAM), NFTAction::Clear { transaction_hash: get_hash(&X, 1) }), Ok(None));
    assert_eq!(contract.handle(&from(X), mint(1)), Ok(Some(minted(X, 1))));
    assert_eq!(nft(&contract).token_id, TokenId::from_u64(2));
    assert_eq!(nft(&contract).token.changes, 2);
}

fn set_user(token: u64, address: ActorId, expires: u64, transaction_id: u64) -> NFTAction {
    NFTAction::SetUser { token_id: TokenId::from_u64(token), address, expires, transaction_id }
}

fn user_set(token: u64, address: ActorId, expires: u64) -> NFTEvent {
    NFTEvent::UpdateUser { token_id: TokenId::from_u64(token), address, expires }
}

#[test]
fn set_user_by_the_owner_of_the_contract() {
    let mut contract = active();
    contract.handle(&from(X), mint(1)).unwrap();
    assert_eq!(contract.handle(&from(DEPLOYER), set_user(0, Y, 500, 7)), Ok(Some(user_set(0, Y, 500))));
    assert_eq!(nft(&contract).io_state().users_info, vec![(TokenId::from_u64(0), UserInfo { address: Y, expires: 500 })]);
    assert_eq!(nft(&contract).transactions.lookup(&get_hash(&DEPLOYER, 7)), Some(user_set(0, Y, 500)));
}

#[test]
fn set_user_by_an_approved_account() {
    let mut contract = active();
    contract.handle(&from(X), mint(1)).unwrap();
    contract.handle(&from(X), NFTAction::Approve { transaction_id: 2, to: Y, token_id: TokenId::from_u64(0) }).unwrap();
    assert_eq!(contract.handle(&from(Y), set_user(0, Z, 500, 7)), Ok(Some(user_set(0, Z, 500))));
}

#[test]
fn set_user_by_anyone_else_is_turned_away() {
    let mut contract = active();
    contract.handle(&from(X), mint(1)).unwrap();
    assert_eq!(contract.handle(&from(X), set_user(0, Y, 500, 7)), Err(Error::NotAuthorized));
    assert_eq!(contract.handle(&from(Z), set_user(0, Y, 500, 7)), Err(Error::NotAuthorized));
    assert!(nft(&contract).io_state().users_info.is_empty());
    assert_eq!(nft(&contract).transactions.lookup(&get_hash(&X, 7)), None);
}

#[test]
fn set_user_to_the_null_identity_is_turned_away() {
    let mut contract = active();
    assert_eq!(contract.handle(&from(DEPLOYER), set_user(0, ActorId::zero(), 500, 7)), Err(Error::InvalidDelegate));
    assert_eq!(contract.handle(&from(X), set_user(0, ActorId::zero(), 500, 7)), Err(Error::InvalidDelegate));
    assert!(nft(&contract).io_state().users_info.is_empty());
    assert!(nft(&contract).io_state().transactions.is_empty());
}

#[test]
fn a_second_set_user_changes_the_bound_and_keeps_the_user() {
    let mut contract = active();
    assert_eq!(contract.handle(&from(DEPLOYER), set_user(0, Y, 500, 7)), Ok(Some(user_set(0, Y, 500))));
    assert_eq!(contract.handle(&from(DEPLOYER), set_user(0, Z, 900, 8)), Ok(Some(user_set(0, Z, 900))));
    assert_eq!(nft(&contract).io_state().users_info, vec![(TokenId::from_u64(0), UserInfo { address: Y, expires: 900 })]);
    assert_eq!(
        contract.handle(&at(X, 901), NFTAction::UserOf { token_id: TokenId::from_u64(0) }),
        Ok(Some(NFTEvent::UserOf { address: Y }))
    );
}

#[test]
fn a_set_user_that_comes_again_is_not_applied_again() {
    let mut contract = active();
    assert_eq!(contract.handle(&from(DEPLOYER), set_user(0, Y, 500, 7)), Ok(Some(user_set(0, Y, 500))));
    assert_eq!(contract.handle(&from(DEPLOYER), set_user(0, Y, 900, 8)), Ok(Some(user_set(0, Y, 900))));
    assert_eq!(contract.handle(&from(DEPLOYER), set_user(0, Y, 500, 7)), Ok(Some(user_set(0, Y, 500))));
    assert_eq!(nft(&contract).user_expires(&TokenId::from_u64(0)), 900);
}

#[test]
fn user_of_and_user_expires_are_answered_from_the_registry() {
    let mut contract = active();
    let token_id = TokenId::from_u64(0);
    assert_eq!(contract.handle(&from(X), NFTAction::UserExpires { token_id }), Ok(Some(NFTEvent::UserExpires { expires: 0 })));
    assert_eq!(
        contract.handle(&at(X, u64::MAX), NFTAction::UserOf { token_id }),
        Ok(Some(NFTEvent::UserOf { address: ActorId::zero() }))
    );
    contract.handle(&from(DEPLOYER), set_user(0, Y, 500, 7)).unwrap();
    assert_eq!(contract.handle(&from(X), NFTAction::UserExpires { token_id }), Ok(Some(NFTEvent::UserExpires { expires: 500 })));
    assert_eq!(contract.handle(&at(X, 501), NFTAction::UserOf { token_id }), Ok(Some(NFTEvent::UserOf { address: Y })));
    assert_eq!(
        contract.handle(&at(X, 500), NFTAction::UserOf { token_id }),
        Ok(Some(NFTEvent::UserOf { address: ActorId::zero() }))
    );
    assert_eq!(
        contract.handle(&at(X, 10), NFTAction::UserOf { token_id }),
        Ok(Some(NFTEvent::UserOf { address: ActorId::zero() }))
    );
    assert_eq!(nft(&contract).token.changes, 0);
}

#[test]
fn begin_names_the_call_and_finish_files_the_answer() {
    let mut nft = Nft::new(FakeCore::new("N", "S"), DEPLOYER);
    let (call, pending) = match nft.begin(&from(X), mint(1)) {
        Step::Invoke { call, pending } => (call, pending),
        Step::Done(outcome) => panic!("answered without the Token Core: {:?}", outcome),
    };
    match &call {
        CoreCall::Mint { to, token_id, token_metadata } => {
            assert_eq!(*to, X);
            assert_eq!(*token_id, TokenId::from_u64(0));
            assert_eq!(*token_metadata, Some(metadata("token")));
        },
        other => panic!("not a mint: {:?}", other),
    }
    assert!(matches!(pending, Pending::Mint { fingerprint } if fingerprint == get_hash(&X, 1)));
    assert_eq!(nft.token_id, TokenId::from_u64(0));
    let answer = perform(&mut nft.token, &from(X), call);
    assert_eq!(nft.finish(pending, answer), Ok(Some(minted(X, 0))));
    assert_eq!(nft.token_id, TokenId::from_u64(1));
    assert!(matches!(nft.begin(&from(X), mint(1)), Step::Done(Ok(Some(event))) if event == minted(X, 0)));
}

#[test]
fn finish_turns_away_an_answer_of_another_kind() {
    let mut nft = Nft::new(FakeCore::new("N", "S"), DEPLOYER);
    let pending = Pending::Mint { fingerprint: get_hash(&X, 1) };
    assert_eq!(nft.finish(pending, Ok(CoreReply::Approved(true))), Err(Error::UnexpectedReply));
    assert_eq!(nft.finish(Pending::Payout, Ok(CoreReply::Owner(X))), Err(Error::UnexpectedReply));
    assert_eq!(nft.token_id, TokenId::from_u64(0));
    assert!(nft.io_state().transactions.is_empty());
}

#[test]
fn finish_hands_on_a_refusal() {
    let mut nft = Nft::new(FakeCore::new("N", "S"), DEPLOYER);
    let pending = Pending::Transfer { fingerprint: get_hash(&X, 1) };
    assert_eq!(nft.finish(pending, Err(CoreError { code: 99 })), Err(Error::Core(CoreError { code: 99 })));
    assert!(nft.io_state().transactions.is_empty());
}

#[test]
fn mint_by_the_counter() {
    let mut nft = Nft::new(FakeCore::new("N", "S"), DEPLOYER);
    assert_eq!(nft.mint(&from(X), metadata("a")), Ok(NFTTransfer { from: ActorId::zero(), to: X, token_id: TokenId::from_u64(0) }));
    assert_eq!(nft.mint(&from(Y), metadata("b")), Ok(NFTTransfer { from: ActorId::zero(), to: Y, token_id: TokenId::from_u64(1) }));
    assert_eq!(nft.token_id, TokenId::from_u64(2));
    nft.token.owners.push((TokenId::from_u64(2), Z));
    assert_eq!(nft.mint(&from(Y), metadata("c")), Err(TOKEN_EXISTS));
    assert_eq!(nft.token_id, TokenId::from_u64(2));
}

#[test]
fn the_counter_stays_at_the_largest_identifier() {
    let mut nft = Nft::new(FakeCore::new("N", "S"), DEPLOYER);
    nft.token_id = TokenId([u64::MAX - 1, u64::MAX, u64::MAX, u64::MAX]);
    assert!(nft.mint(&from(X), metadata("a")).is_ok());
    assert_eq!(nft.token_id, TokenId([u64::MAX; 4]));
    assert!(nft.mint(&from(X), metadata("b")).is_ok());
    assert_eq!(nft.token_id, TokenId([u64::MAX; 4]));
}

#[test]
fn state_lists_both_tables() {
    let mut contract = active();
    contract.handle(&from(X), mint(1)).unwrap();
    contract.handle(&from(Y), mint(1)).unwrap();
    contract.handle(&from(DEPLOYER), set_user(1, Z, 500, 3)).unwrap();
    let state = contract.state().unwrap();
    assert_eq!(state.token_id, TokenId::from_u64(2));
    assert_eq!(state.owner, DEPLOYER);
    assert_eq!(state.users_info, vec![(TokenId::from_u64(1), UserInfo { address: Z, expires: 500 })]);
    let mut transactions = state.transactions;
    transactions.sort_by_key(|(key, _)| key.0);
    let mut expected = vec![
        (get_hash(&X, 1), minted(X, 0)),
        (get_hash(&Y, 1), minted(Y, 1)),
        (get_hash(&DEPLOYER, 3), user_set(1, Z, 500)),
    ];
    expected.sort_by_key(|(key, _)| key.0);
    assert_eq!(transactions, expected);
}
