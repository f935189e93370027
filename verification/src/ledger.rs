//! The ledger state and its three operations.
//!
//! A [`Pallet`] holds the total supply, the balance table, the allowance
//! table and the events emitted so far. The host authenticates callers,
//! persists the state and consumes the events; the ledger contributes the
//! correctness of each operation's read–check–write sequence. Absent table
//! entries read as zero, and an operation either commits all of its writes
//! or fails with a typed [`Error`] and commits none.

use std::collections::HashMap;
use vstd::prelude::*;

use crate::u256::U256;
use crate::u256::u256_bound;
use crate::u256::lemma_as_nat_bound;

verus! {

broadcast use vstd::std_specs::hash::group_hash_axioms;

/// A verified account identity, supplied by the host.
pub type AccountId = u64;

/// The two ways an operation can fail.
#[derive(Clone, Copy, PartialEq, Eq, Structural, Debug)]
pub enum Error {
    /// The account being debited holds less than the requested value.
    InsufficientBalance,
    /// The spender's granted allowance is less than the requested value.
    InsufficientAllowance,
}

/// A notification emitted on a successful state change, for the host's
/// event sink.
#[derive(Clone, Copy, PartialEq, Eq, Structural, Debug)]
pub enum Event {
    Transfer { from: AccountId, to: AccountId, value: U256 },
    Approval { owner: AccountId, spender: AccountId, value: U256 },
}

/// The ledger: total supply, balance table, allowance table, and the events
/// emitted so far.
pub struct Pallet {
    total_supply: Option<U256>,
    balances: HashMap<AccountId, U256>,
    allowances: HashMap<u128, U256>,
    events: Vec<Event>,
}

/// The allowance table's key for the pair (owner, spender).
pub open spec fn allowance_key(owner: AccountId, spender: AccountId) -> u128 {
    (owner * 0x10000000000000000 + spender) as u128
}

/// Distinct (owner, spender) pairs have distinct allowance keys.
proof fn lemma_allowance_key_injective(
    o1: AccountId,
    s1: AccountId,
    o2: AccountId,
    s2: AccountId,
)
    requires
        allowance_key(o1, s1) == allowance_key(o2, s2),
    ensures
        o1 == o2 && s1 == s2,
{
}

/// Balances after a transfer of `v` from `from` to `to`: the debit offsets
/// the credit exactly, every other account is untouched, and a transfer to
/// oneself changes nothing.
pub open spec fn balances_moved(
    pre: Pallet,
    post: Pallet,
    from: AccountId,
    to: AccountId,
    v: nat,
) -> bool {
    if from == to {
        forall|a: AccountId| post.balance_nat(a) == pre.balance_nat(a)
    } else {
        &&& post.balance_nat(from) == pre.balance_nat(from) - v
        &&& post.balance_nat(to) == pre.balance_nat(to) + v
        &&& forall|a: AccountId|
            a != from && a != to ==> post.balance_nat(a) == pre.balance_nat(a)
    }
}

/// No balance differs between the two states.
pub open spec fn balances_unchanged(pre: Pallet, post: Pallet) -> bool {
    forall|a: AccountId| post.balance_nat(a) == pre.balance_nat(a)
}

/// No allowance differs between the two states.
pub open spec fn allowances_unchanged(pre: Pallet, post: Pallet) -> bool {
    forall|o: AccountId, s: AccountId| post.allowance_nat(o, s) == pre.allowance_nat(o, s)
}

/// The full effect of a successful direct transfer: balances move, no
/// allowance and no supply changes, and exactly one `Transfer` event is
/// appended.
pub open spec fn transfer_applied(
    pre: Pallet,
    post: Pallet,
    from: AccountId,
    to: AccountId,
    value: U256,
) -> bool {
    &&& balances_moved(pre, post, from, to, value.as_nat())
    &&& allowances_unchanged(pre, post)
    &&& post.supply_nat() == pre.supply_nat()
    &&& post.events_seq() == pre.events_seq().push(Event::Transfer { from, to, value })
}

/// The full effect of an approval: the one allowance is overwritten — not
/// accumulated — every other entry and all balances and the supply are
/// untouched, and exactly one `Approval` event is appended.
pub open spec fn approve_applied(
    pre: Pallet,
    post: Pallet,
    owner: AccountId,
    spender: AccountId,
    value: U256,
) -> bool {
    &&& post.allowance_nat(owner, spender) == value.as_nat()
    &&& forall|o: AccountId, s: AccountId|
        !(o == owner && s == spender) ==> post.allowance_nat(o, s) == pre.allowance_nat(o, s)
    &&& balances_unchanged(pre, post)
    &&& post.supply_nat() == pre.supply_nat()
    &&& post.events_seq() == pre.events_seq().push(Event::Approval { owner, spender, value })
}

/// The full effect of a successful delegated transfer: balances move as in a
/// direct transfer, the spender's allowance from `from` shrinks by exactly
/// the value, every other allowance and the supply are untouched, and a
/// `Transfer` event then an `Approval` event carrying the reduced allowance
/// are appended.
pub open spec fn transfer_from_applied(
    pre: Pallet,
    post: Pallet,
    spender: AccountId,
    from: AccountId,
    to: AccountId,
    value: U256,
) -> bool {
    &&& balances_moved(pre, post, from, to, value.as_nat())
    &&& post.allowance_nat(from, spender) == pre.allowance_nat(from, spender) - value.as_nat()
    &&& forall|o: AccountId, s: AccountId|
        !(o == from && s == spender) ==> post.allowance_nat(o, s) == pre.allowance_nat(o, s)
    &&& post.supply_nat() == pre.supply_nat()
    &&& exists|na: U256|
        na.as_nat() == pre.allowance_nat(from, spender) - value.as_nat()
            && post.events_seq() == pre.events_seq().push(Event::Transfer { from, to, value }).push(
            Event::Approval { owner: from, spender, value: na },
        )
}

fn allowance_key_exec(owner: AccountId, spender: AccountId) -> (r: u128)
    ensures
        r == allowance_key(owner, spender),
{
    (owner as u128) * 0x10000000000000000u128 + (spender as u128)
}

impl Pallet {
    /// The balance of `a`: the stored value, or zero when absent.
    pub closed spec fn balance_nat(self, a: AccountId) -> nat {
        if self.balances@.contains_key(a) {
            self.balances@[a].as_nat()
        } else {
            0
        }
    }

    /// The allowance granted by `owner` to `spender`: the stored value, or
    /// zero when absent.
    pub closed spec fn allowance_nat(self, owner: AccountId, spender: AccountId) -> nat {
        if self.allowances@.contains_key(allowance_key(owner, spender)) {
            self.allowances@[allowance_key(owner, spender)].as_nat()
        } else {
            0
        }
    }

    /// The total supply: the stored value, or zero when absent.
    pub closed spec fn supply_nat(self) -> nat {
        match self.total_supply {
            Some(v) => v.as_nat(),
            None => 0,
        }
    }

    /// The events emitted so far, oldest first.
    pub closed spec fn events_seq(self) -> Seq<Event> {
        self.events@
    }

    /// An empty ledger: no supply, no balances, no allowances, no events.
    pub fn new() -> (r: Pallet)
        ensures
            forall|a: AccountId| r.balance_nat(a) == 0,
            forall|o: AccountId, s: AccountId| r.allowance_nat(o, s) == 0,
            r.supply_nat() == 0,
            r.events_seq() == Seq::<Event>::empty(),
    {
        Pallet {
            total_supply: None,
            balances: HashMap::new(),
            allowances: HashMap::new(),
            events: Vec::new(),
        }
    }

    /// The total supply, read as the host's accessor reads it: the stored
    /// value, or zero when none was ever set.
    pub fn total_supply(&self) -> (r: U256)
        ensures
            r.as_nat() == self.supply_nat(),
    {
        match self.total_supply {
            Some(v) => v,
            None => U256::zero(),
        }
    }

    /// The balance of `account`, or zero when the account holds nothing.
    pub fn balance_of(&self, account: AccountId) -> (r: U256)
        ensures
            r.as_nat() == self.balance_nat(account),
    {
        match self.balances.get(&account) {
            Some(v) => *v,
            None => U256::zero(),
        }
    }

    /// The allowance granted by `owner` to `spender`, or zero when none was
    /// granted.
    pub fn allowance(&self, owner: AccountId, spender: AccountId) -> (r: U256)
        ensures
            r.as_nat() == self.allowance_nat(owner, spender),
    {
        self.allowance_impl(owner, spender)
    }

    fn allowance_impl(&self, owner: AccountId, spender: AccountId) -> (r: U256)
        ensures
            r.as_nat() == self.allowance_nat(owner, spender),
    {
        let key: u128 = allowance_key_exec(owner, spender);
        match self.allowances.get(&key) {
            Some(v) => *v,
            None => U256::zero(),
        }
    }

    /// Seeds the total supply. Initialization of the supply is the host's
    /// business; no ledger operation ever changes it.
    pub fn set_total_supply(&mut self, value: U256)
        ensures
            final(self).supply_nat() == value.as_nat(),
            balances_unchanged(*old(self), *final(self)),
            allowances_unchanged(*old(self), *final(self)),
            final(self).events_seq() == old(self).events_seq(),
    {
        self.total_supply = Some(value);
    }

    /// Seeds the balance of one account, as the host's genesis mechanism
    /// writes storage directly. Every other entry is untouched.
    pub fn set_balance(&mut self, account: AccountId, value: U256)
        ensures
            final(self).balance_nat(account) == value.as_nat(),
            forall|a: AccountId|
                a != account ==> final(self).balance_nat(a) == old(self).balance_nat(a),
            allowances_unchanged(*old(self), *final(self)),
            final(self).supply_nat() == old(self).supply_nat(),
            final(self).events_seq() == old(self).events_seq(),
    {
        self.balances.insert(account, value);
    }

    /// The events emitted so far, oldest first, for the host's event sink.
    pub fn events(&self) -> (r: &Vec<Event>)
        ensures
            r@ == self.events_seq(),
    {
        &self.events
    }

    /// Moves `value` from `caller` to `to`.
    ///
    /// Succeeds exactly when `caller` holds at least `value`; on success the
    /// debit offsets the credit, nothing else changes, and a `Transfer`
    /// event is emitted. On failure the ledger is untouched.
    pub fn transfer(&mut self, caller: AccountId, to: AccountId, value: U256) -> (r: Result<
        (),
        Error,
    >)
        requires
            value.as_nat() <= old(self).balance_nat(caller) && caller != to ==> old(self)
                .balance_nat(to) + value.as_nat() < u256_bound(),
        ensures
            r is Ok <==> value.as_nat() <= old(self).balance_nat(caller),
            match r {
                Ok(()) => transfer_applied(*old(self), *final(self), caller, to, value),
                Err(e) => e == Error::InsufficientBalance && *final(self) == *old(self),
            },
    {
        self.transfer_impl(caller, to, value)
    }

    /// Overwrites the allowance `caller` grants to `spender` with `value`.
    ///
    /// Never fails: the new value replaces the old one — setting zero
    /// revokes — and an `Approval` event is emitted.
    pub fn approve(&mut self, caller: AccountId, spender: AccountId, value: U256) -> (r: Result<
        (),
        Error,
    >)
        ensures
            r is Ok,
            approve_applied(*old(self), *final(self), caller, spender, value),
    {
        self.approve_impl(caller, spender, value)
    }

    /// Moves `value` from `from` to `to` on the authority of the allowance
    /// `from` granted to `caller`.
    ///
    /// Succeeds exactly when the allowance and `from`'s balance both cover
    /// `value`; the balance movement and the allowance reduction then commit
    /// together. An insufficient allowance is reported before the balance is
    /// consulted; either failure leaves the ledger untouched — in
    /// particular, a failed debit consumes no allowance.
    pub fn transfer_from(
        &mut self,
        caller: AccountId,
        from: AccountId,
        to: AccountId,
        value: U256,
    ) -> (r: Result<(), Error>)
        requires
            value.as_nat() <= old(self).allowance_nat(from, caller) && value.as_nat() <= old(
                self,
            ).balance_nat(from) && from != to ==> old(self).balance_nat(to) + value.as_nat()
                < u256_bound(),
        ensures
            r is Ok <==> (value.as_nat() <= old(self).allowance_nat(from, caller)
                && value.as_nat() <= old(self).balance_nat(from)),
            match r {
                Ok(()) => transfer_from_applied(*old(self), *final(self), caller, from, to, value),
                Err(e) => {
                    &&& *final(self) == *old(self)
                    &&& (e == Error::InsufficientAllowance <==> value.as_nat() > old(
                        self,
                    ).allowance_nat(from, caller))
                    &&& (e == Error::InsufficientBalance ==> value.as_nat() <= old(
                        self,
                    ).allowance_nat(from, caller) && value.as_nat() > old(self).balance_nat(from))
                },
            },
    {
        let allowance = self.allowance_impl(from, caller);
        match allowance.checked_sub(value) {
            None => Err(Error::InsufficientAllowance),
            Some(new_allowance) => {
                match self.transfer_impl(from, to, value) {
                    Err(e) => Err(e),
                    Ok(()) => {
                        self.approve_impl(from, caller, new_allowance);
                        Ok(())
                    },
                }
            },
        }
    }

    fn transfer_impl(&mut self, from: AccountId, to: AccountId, value: U256) -> (r: Result<
        (),
        Error,
    >)
        requires
            value.as_nat() <= old(self).balance_nat(from) && from != to ==> old(self).balance_nat(
                to,
            ) + value.as_nat() < u256_bound(),
        ensures
            r is Ok <==> value.as_nat() <= old(self).balance_nat(from),
            match r {
                Ok(()) => transfer_applied(*old(self), *final(self), from, to, value),
                Err(e) => e == Error::InsufficientBalance && *final(self) == *old(self),
            },
    {
        let from_balance = self.balance_of(from);
        match from_balance.checked_sub(value) {
            None => Err(Error::InsufficientBalance),
            Some(new_from) => {
                proof {
                    lemma_as_nat_bound(from_balance);
                }
                self.balances.insert(from, new_from);
                let to_balance = self.balance_of(to);
                let new_to = to_balance.add(value);
                self.balances.insert(to, new_to);
                self.events.push(Event::Transfer { from, to, value });
                Ok(())
            },
        }
    }

    fn approve_impl(&mut self, owner: AccountId, spender: AccountId, value: U256) -> (r: Result<
        (),
        Error,
    >)
        ensures
            r is Ok,
            approve_applied(*old(self), *final(self), owner, spender, value),
    {
        let key: u128 = allowance_key_exec(owner, spender);
        self.allowances.insert(key, value);
        self.events.push(Event::Approval { owner, spender, value });
        proof {
            assert forall|o: AccountId, s: AccountId| !(o == owner && s == spender) implies self
                .allowance_nat(o, s) == old(self).allowance_nat(o, s) by {
                if allowance_key(o, s) == allowance_key(owner, spender) {
                    lemma_allowance_key_injective(o, s, owner, spender);
                }
            }
        }
        Ok(())
    }
}

/// No balance is ever negative: every balance reads as a natural number.
pub proof fn lemma_balance_nonnegative(p: Pallet, a: AccountId)
    ensures
        p.balance_nat(a) >= 0,
{
}

/// Approval overwrites rather than accumulates: after approving `v1` and
/// then `v2` for the same owner and spender, the allowance is exactly `v2`,
/// independent of `v1`.
pub proof fn lemma_approve_overwrites(
    p0: Pallet,
    p1: Pallet,
    p2: Pallet,
    owner: AccountId,
    spender: AccountId,
    v1: U256,
    v2: U256,
)
    requires
        approve_applied(p0, p1, owner, spender, v1),
        approve_applied(p1, p2, owner, spender, v2),
    ensures
        p2.allowance_nat(owner, spender) == v2.as_nat(),
{
}

} // verus!
