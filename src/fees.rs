//! The fee engine: who pays a transaction's fee, and where the fee goes.
use vstd::prelude::*;
use crate::bytes::AccountId;
use crate::errors::DispatchError;
use crate::ids::{Id, ProjectRegistrant};
use crate::messages::Message;
use crate::registry::{balance_of, is_member_account, with_balance, Registry, State};

verus! {

/// The smallest fee that a transaction may offer.
pub const BASE_FEE: u128 = 1;

/// Why funds are withdrawn from an account.
#[derive(Clone, Copy, Debug, PartialEq, Eq, Structural)]
pub enum WithdrawReason {
    /// To pay the base fee of a transaction.
    TransactionPayment,
    /// To pay a tip offered on top of the base fee.
    Tip,
}

/// The base fee of every transaction.
#[derive(Clone, Copy, Debug)]
pub struct BaseFee;

impl BaseFee {
    /// The amount of the base fee.
    pub fn value(&self) -> (r: u128)
        ensures
            r == BASE_FEE,
    {
        BASE_FEE
    }

    /// Why the base fee is withdrawn.
    pub fn withdraw_reason(&self) -> (r: WithdrawReason)
        ensures
            r == WithdrawReason::TransactionPayment,
    {
        WithdrawReason::TransactionPayment
    }
}

/// A tip: an amount offered on top of the base fee.
#[derive(Clone, Copy, Debug)]
pub struct Tip(pub u128);

impl Tip {
    /// The amount of the tip.
    pub fn value(&self) -> (r: u128)
        ensures
            r == self.0,
    {
        self.0
    }

    /// Why a tip is withdrawn.
    pub fn withdraw_reason(&self) -> (r: WithdrawReason)
        ensures
            r == WithdrawReason::Tip,
    {
        WithdrawReason::Tip
    }
}

/// The burned part of a fee: one percent, rounded to the nearest unit, halves up. The rest
/// rewards the block author.
pub open spec fn burn_of(fee: u128) -> u128 {
    (fee / 100 + if fee % 100 >= 50 { 1u128 } else { 0u128 }) as u128
}

/// The burned part of a fee.
pub fn burn_share(fee: u128) -> (r: u128)
    ensures
        r == burn_of(fee),
        r <= fee,
{
    let whole = fee / 100;
    if fee % 100 >= 50 {
        whole + 1
    } else {
        whole
    }
}

/// The account that pays for an org-related message: the org's account when the author's user
/// is a member of the org, the author's otherwise.
pub open spec fn org_payer(s: State, author: Seq<u8>, org_id: Seq<u8>) -> Seq<u8> {
    if s.orgs.contains_key(org_id) && is_member_account(s, s.orgs[org_id], author) {
        s.orgs[org_id].account
    } else {
        author
    }
}

/// The account that pays the fee of `m`: messages that act on an org's projects or funds are paid
/// by the org when a member sends them; every other message by its author.
pub open spec fn payer_account(s: State, author: Seq<u8>, m: Message) -> Seq<u8> {
    match m {
        Message::RegisterProject { project_domain: ProjectRegistrant::Org(o), .. } => org_payer(s, author, o@),
        Message::SetCheckpoint { project_domain: ProjectRegistrant::Org(o), .. } => org_payer(s, author, o@),
        Message::UnregisterOrg { org_id } => org_payer(s, author, org_id@),
        Message::TransferFromOrg { org_id, .. } => org_payer(s, author, org_id@),
        Message::RegisterMember { org_id, .. } => org_payer(s, author, org_id@),
        _ => author,
    }
}

/// `s` after crediting `amount` to `a`, stopping at the largest representable balance.
pub open spec fn credited(s: State, a: Seq<u8>, amount: u128) -> State {
    let total = balance_of(s, a) + amount;
    with_balance(s, a, if total > u128::MAX { u128::MAX } else { total as u128 })
}

/// Paying `fee` for `m`: withdrawn from the payer, one percent burned, the rest credited to the
/// block author when there is one. `None` when the payer cannot cover the fee.
pub open spec fn pay_spec(s: State, author: Seq<u8>, fee: u128, m: Message, block_author: Option<Seq<u8>>) -> Option<State> {
    let payer = payer_account(s, author, m);
    if balance_of(s, payer) < fee {
        None
    } else {
        let paid = with_balance(s, payer, (balance_of(s, payer) - fee) as u128);
        match block_author {
            None => Some(paid),
            Some(b) => Some(credited(paid, b, (fee - burn_of(fee)) as u128)),
        }
    }
}

impl Registry {
    /// The account that pays for an org-related message.
    pub fn org_payer_account(&self, author: &AccountId, org_id: &Id) -> (r: AccountId)
        requires
            self.wf(),
        ensures
            r@ == org_payer(self@, author@, org_id@),
    {
        match self.orgs.get(org_id) {
            Some(org) => if self.org_has_member_with_account(&org, author) {
                org.account_id
            } else {
                *author
            },
            None => *author,
        }
    }

    /// The account that pays the fee of `message`.
    pub fn payer_account(&self, author: &AccountId, message: &Message) -> (r: AccountId)
        requires
            self.wf(),
        ensures
            r@ == payer_account(self@, author@, *message),
    {
        match message {
            Message::RegisterProject { project_domain: ProjectRegistrant::Org(o), .. } => self.org_payer_account(author, o),
            Message::SetCheckpoint { project_domain: ProjectRegistrant::Org(o), .. } => self.org_payer_account(author, o),
            Message::UnregisterOrg { org_id } => self.org_payer_account(author, org_id),
            Message::TransferFromOrg { org_id, .. } => self.org_payer_account(author, org_id),
            Message::RegisterMember { org_id, .. } => self.org_payer_account(author, org_id),
            _ => *author,
        }
    }

    /// Takes `fee` from `payer`, or fails with nothing changed when the balance does not cover it.
    pub fn withdraw(&mut self, fee: u128, payer: &AccountId) -> (r: Result<(), DispatchError>)
        requires
            old(self).wf(),
        ensures
            final(self).wf(),
            balance_of(old(self)@, payer@) >= fee ==> r is Ok && final(self)@ == with_balance(
                old(self)@,
                payer@,
                (balance_of(old(self)@, payer@) - fee) as u128,
            ),
            balance_of(old(self)@, payer@) < fee ==> r == Err::<(), DispatchError>(DispatchError::InsufficientBalance)
                && final(self)@ == old(self)@,
    {
        let balance = self.free_balance(payer);
        if balance < fee {
            return Err(DispatchError::InsufficientBalance);
        }
        self.set_balance(payer, balance - fee);
        Ok(())
    }

    /// Credits `amount` to `a`, stopping at the largest representable balance.
    fn credit(&mut self, a: &AccountId, amount: u128)
        requires
            old(self).wf(),
        ensures
            final(self).wf(),
            final(self)@ == credited(old(self)@, a@, amount),
    {
        let b = self.free_balance(a);
        let v = if b > u128::MAX - amount {
            u128::MAX
        } else {
            b + amount
        };
        self.set_balance(a, v);
    }

    /// Takes `fee` from the payer of `message`, burns one percent of it and credits the rest to
    /// `block_author` when there is one. Changes nothing when the payer cannot cover the fee.
    pub fn pay(&mut self, author: &AccountId, fee: u128, message: &Message, block_author: &Option<AccountId>) -> (r: bool)
        requires
            old(self).wf(),
        ensures
            final(self).wf(),
            r == pay_spec(old(self)@, author@, fee, *message, opt_account(*block_author)) is Some,
            r ==> final(self)@ == pay_spec(old(self)@, author@, fee, *message, opt_account(*block_author))->Some_0,
            !r ==> final(self)@ == old(self)@,
    {
        let payer = self.payer_account(author, message);
        if self.withdraw(fee, &payer).is_err() {
            return false;
        }
        match block_author {
            Some(b) => {
                let burn = burn_share(fee);
                self.credit(b, fee - burn);
            },
            None => {},
        }
        true
    }
}

/// An optional account as an optional byte string.
pub open spec fn opt_account(a: Option<AccountId>) -> Option<Seq<u8>> {
    match a {
        Some(x) => Some(x@),
        None => None,
    }
}

} // verus!
