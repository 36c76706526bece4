//! Transactions: the envelope around a message, and applying one to the registry.
use vstd::prelude::*;
use crate::bytes::{AccountId, H256};
use crate::errors::{DispatchError, TransactionError};
use crate::fees::{opt_account, pay_spec, BASE_FEE};
use crate::messages::{dispatch_spec, is_success_event, Message, RegistryEvent};
use crate::registry::{nonce_of, Registry, State};
use crate::codec::{ed25519_accepts, ed25519_verify};
use crate::wire::{message_wf, signing_payload, signing_payload_of};

verus! {

/// A signed message with its sender, the sender's nonce, the chain it is meant for and the fee
/// it offers. The signature is checked before a transaction reaches the registry.
#[derive(Clone, Debug)]
pub struct Transaction {
    pub author: AccountId,
    pub nonce: u64,
    pub genesis_hash: H256,
    pub fee: u128,
    pub message: Message,
}

/// What the block being built provides: its author, who collects fees, and its random seed.
/// While a transaction is only being validated there is no author.
#[derive(Clone, Copy, Debug)]
pub struct BlockContext {
    pub author: Option<AccountId>,
    pub seed: H256,
}

/// The outcome of a transaction, as the chain's system module reports it.
#[derive(Clone, Copy, Debug, PartialEq, Eq)]
pub enum SystemEvent {
    ExtrinsicSuccess,
    ExtrinsicFailed(DispatchError),
}

/// An event in a block's event log.
#[derive(Clone, Debug, PartialEq, Eq)]
pub enum Event {
    System(SystemEvent),
    Registry(RegistryEvent),
}

/// `s` with the nonce of `a` set to `n`.
pub open spec fn with_nonce(s: State, a: Seq<u8>, n: u64) -> State {
    State { nonces: s.nonces.insert(a, n), ..s }
}

/// Why `tx` is not applied at all, if it is not: it names another chain, its nonce is not the
/// author's next one (or is the last value a nonce can take, after which the author's counter
/// could not advance), it offers less than the base fee, or its payer cannot cover the fee.
pub open spec fn transaction_refusal(s: State, tx: Transaction, block: BlockContext) -> Option<TransactionError> {
    if tx.genesis_hash@ != s.genesis {
        Some(TransactionError::WrongGenesisHash)
    } else if tx.nonce != nonce_of(s, tx.author@) || tx.nonce == u64::MAX {
        Some(TransactionError::InvalidNonce)
    } else if tx.fee < BASE_FEE {
        Some(TransactionError::FeeBelowBase)
    } else if pay_spec(s, tx.author@, tx.fee, tx.message, opt_account(block.author)) is None {
        Some(TransactionError::InsufficientBalance)
    } else {
        None
    }
}

/// The state once the fee of an admitted transaction is paid and its nonce used.
pub open spec fn after_admission(s: State, tx: Transaction, block: BlockContext) -> State {
    with_nonce(
        pay_spec(s, tx.author@, tx.fee, tx.message, opt_account(block.author))->Some_0,
        tx.author@,
        (tx.nonce + 1) as u64,
    )
}

/// The events of a message that succeeded: its own event, if it has one, then the success of
/// the transaction.
pub open spec fn success_events(events: Seq<Event>, m: Message) -> bool {
    ||| events.len() == 1 && events[0] == Event::System(SystemEvent::ExtrinsicSuccess)
        && is_success_event(m, None)
    ||| events.len() == 2 && events[1] == Event::System(SystemEvent::ExtrinsicSuccess)
        && events[0] is Registry && is_success_event(m, Some(events[0]->Registry_0))
}

/// How the result of applying `tx` and the state after it relate to the state before: refused
/// transactions change nothing; admitted ones pay their fee, use their nonce, and then have
/// their message's effect and events, or only the failure event when the message fails.
pub open spec fn transaction_outcome(
    old: State,
    new: State,
    r: Result<Vec<Event>, TransactionError>,
    tx: Transaction,
    block: BlockContext,
) -> bool {
    match transaction_refusal(old, tx, block) {
        Some(e) => r == Err::<Vec<Event>, TransactionError>(e) && new == old,
        None => r is Ok && match dispatch_spec(after_admission(old, tx, block), tx.author@, tx.message, block.seed@) {
            Ok(s) => new == s && success_events(r->Ok_0@, tx.message),
            Err(e) => new == after_admission(old, tx, block) && r->Ok_0@ == seq![
                Event::System(SystemEvent::ExtrinsicFailed(e)),
            ],
        },
    }
}

/// A transaction with its author's Ed25519 signature of its signing payload.
#[derive(Clone, Debug)]
pub struct SignedTransaction {
    pub transaction: Transaction,
    pub signature: [u8; 64],
}

impl Registry {
    /// Applies a signed transaction: refuses it, changing nothing, unless the signature is the
    /// author's signature of the transaction's signing payload, and otherwise applies it as
    /// [`Registry::apply_transaction`] does.
    pub fn apply_signed_transaction(&mut self, stx: &SignedTransaction, block: &BlockContext) -> (r: Result<Vec<Event>, TransactionError>)
        requires
            old(self).wf(),
            message_wf(stx.transaction.message),
        ensures
            final(self).wf(),
            !ed25519_accepts(stx.signature@, signing_payload_of(stx.transaction), stx.transaction.author@)
                ==> r == Err::<Vec<Event>, TransactionError>(TransactionError::BadSignature) && final(self)@ == old(self)@,
            ed25519_accepts(stx.signature@, signing_payload_of(stx.transaction), stx.transaction.author@)
                ==> transaction_outcome(old(self)@, final(self)@, r, stx.transaction, *block),
    {
        let payload = signing_payload(&stx.transaction);
        if !ed25519_verify(&stx.signature, payload.as_slice(), &stx.transaction.author.bytes) {
            return Err(TransactionError::BadSignature);
        }
        self.apply_transaction(&stx.transaction, block)
    }

    /// Applies a transaction: checks its envelope, charges its fee, then dispatches its message.
    /// The fee is charged whether or not the message succeeds; a message that fails changes
    /// nothing else. Returns the events that the transaction emitted.
    pub fn apply_transaction(&mut self, tx: &Transaction, block: &BlockContext) -> (r: Result<Vec<Event>, TransactionError>)
        requires
            old(self).wf(),
        ensures
            final(self).wf(),
            transaction_outcome(old(self)@, final(self)@, r, *tx, *block),
    {
        if !tx.genesis_hash.same(&self.genesis_hash) {
            return Err(TransactionError::WrongGenesisHash);
        }
        let nonce = self.account_nonce(&tx.author);
        if tx.nonce != nonce || tx.nonce == u64::MAX {
            return Err(TransactionError::InvalidNonce);
        }
        if tx.fee < BASE_FEE {
            return Err(TransactionError::FeeBelowBase);
        }
        if !self.pay(&tx.author, tx.fee, &tx.message, &block.author) {
            return Err(TransactionError::InsufficientBalance);
        }
        self.nonces.insert(tx.author, tx.nonce + 1);
        let mut events: Vec<Event> = Vec::new();
        match self.dispatch(&tx.author, &tx.message, &block.seed) {
            Ok(Some(e)) => {
                events.push(Event::Registry(e));
                events.push(Event::System(SystemEvent::ExtrinsicSuccess));
            },
            Ok(None) => {
                events.push(Event::System(SystemEvent::ExtrinsicSuccess));
            },
            Err(e) => {
                events.push(Event::System(SystemEvent::ExtrinsicFailed(e)));
                assert(events@ =~= seq![Event::System(SystemEvent::ExtrinsicFailed(e))]);
            },
        }
        Ok(events)
    }
}

} // verus!
verus! {

/// What the node reports about a submitted transaction while a client waits for it.
#[derive(Clone, Copy, Debug, PartialEq, Eq)]
pub enum TxStatus {
    /// Waiting in the pool for an earlier nonce.
    Future,
    /// Ready in the pool.
    Ready,
    /// Sent to other peers.
    Broadcast,
    /// Included in the finalized block with this hash.
    Finalized(H256),
    /// Replaced by another transaction, in the block with this hash.
    Usurped(H256),
    /// Dropped from the pool.
    Dropped,
    /// Found invalid.
    Invalid,
}

/// Why a submitted transaction will never be included.
#[derive(Clone, Copy, Debug, PartialEq, Eq, Structural)]
pub enum SubmissionError {
    Usurped,
    Dropped,
    Invalid,
    /// The node stopped reporting before the transaction was included.
    StreamTerminated,
}

/// What a client waiting for a transaction does after a status report.
#[derive(Clone, Copy, Debug, PartialEq, Eq)]
pub enum WatchStep {
    /// Keep waiting for the next report.
    Wait,
    /// Stop: the transaction is in the finalized block with this hash; fetch its events there.
    Included(H256),
    /// Stop: the transaction will never be included.
    Failed(SubmissionError),
}

/// The next step of a client waiting for its transaction, given the next status report, or
/// `None` when the node ended the reports.
pub fn watch_step(status: Option<TxStatus>) -> (r: WatchStep)
    ensures
        r == match status {
            None => WatchStep::Failed(SubmissionError::StreamTerminated),
            Some(TxStatus::Future) | Some(TxStatus::Ready) | Some(TxStatus::Broadcast) => WatchStep::Wait,
            Some(TxStatus::Finalized(h)) => WatchStep::Included(h),
            Some(TxStatus::Usurped(_)) => WatchStep::Failed(SubmissionError::Usurped),
            Some(TxStatus::Dropped) => WatchStep::Failed(SubmissionError::Dropped),
            Some(TxStatus::Invalid) => WatchStep::Failed(SubmissionError::Invalid),
        },
{
    match status {
        None => WatchStep::Failed(SubmissionError::StreamTerminated),
        Some(TxStatus::Future) | Some(TxStatus::Ready) | Some(TxStatus::Broadcast) => WatchStep::Wait,
        Some(TxStatus::Finalized(h)) => WatchStep::Included(h),
        Some(TxStatus::Usurped(_)) => WatchStep::Failed(SubmissionError::Usurped),
        Some(TxStatus::Dropped) => WatchStep::Failed(SubmissionError::Dropped),
        Some(TxStatus::Invalid) => WatchStep::Failed(SubmissionError::Invalid),
    }
}

} // verus!
