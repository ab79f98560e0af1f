//! The ledger component: the balance of each account, and transfers.

use vstd::prelude::*;
use crate::numeric::Numeric;
use crate::storage::Table;
use crate::support::DispatchError;
use crate::system::{count_in, SystemConfig};

verus! {

/// The balance type, on top of the types that the system component fixes.
pub trait BalanceConfig: SystemConfig {
    type Balance: Numeric;
}

/// What `sum` becomes when it is stored in a type that holds at most `limit`:
/// itself where it fits, and zero where it does not.
pub open spec fn stored(sum: nat, limit: nat) -> nat {
    if sum <= limit {
        sum
    } else {
        0
    }
}

/// The ledger `m` after `amount` went from `from` to `to`: the sender is
/// debited first, and the receiver is credited on what the ledger then
/// holds, so that a transfer to oneself changes nothing.
pub open spec fn transferred<K>(m: Map<K, nat>, from: K, to: K, amount: nat, limit: nat) -> Map<
    K,
    nat,
>
    recommends
        count_in(m, from) >= amount,
{
    let debited = m.insert(from, (count_in(m, from) - amount) as nat);
    debited.insert(to, stored(count_in(debited, to) + amount, limit))
}

/// An account that a transfer does not name keeps its balance.
pub proof fn transfer_is_local<K>(m: Map<K, nat>, from: K, to: K, amount: nat, limit: nat, other: K)
    requires
        other != from,
        other != to,
    ensures
        count_in(transferred(m, from, to, amount, limit), other) == count_in(m, other),
{
}

/// A transfer between two accounts takes `amount` from the sender and, where
/// the receiver's new balance fits the balance type, gives it to the
/// receiver: what the two hold together stays the same.
pub proof fn transfer_moves_amount<K>(m: Map<K, nat>, from: K, to: K, amount: nat, limit: nat)
    requires
        from != to,
        count_in(m, from) >= amount,
        count_in(m, to) + amount <= limit,
    ensures
        count_in(transferred(m, from, to, amount, limit), from) == count_in(m, from) - amount,
        count_in(transferred(m, from, to, amount, limit), to) == count_in(m, to) + amount,
        count_in(transferred(m, from, to, amount, limit), from) + count_in(
            transferred(m, from, to, amount, limit),
            to,
        ) == count_in(m, from) + count_in(m, to),
{
}

/// A credit that does not fit the balance type leaves the receiver with
/// nothing, while the sender is still debited.
pub proof fn transfer_overflow_resets<K>(m: Map<K, nat>, from: K, to: K, amount: nat, limit: nat)
    requires
        from != to,
        count_in(m, from) >= amount,
        count_in(m, to) + amount > limit,
    ensures
        count_in(transferred(m, from, to, amount, limit), from) == count_in(m, from) - amount,
        count_in(transferred(m, from, to, amount, limit), to) == 0,
{
}

/// A transfer to oneself of an amount that one holds leaves the balance as
/// it was, as long as that balance fits the balance type.
pub proof fn self_transfer_changes_nothing<K>(m: Map<K, nat>, who: K, amount: nat, limit: nat)
    requires
        count_in(m, who) >= amount,
        count_in(m, who) <= limit,
    ensures
        count_in(transferred(m, who, who, amount, limit), who) == count_in(m, who),
{
}

/// What the accounts listed in `accounts` hold together in the ledger `m`.
pub open spec fn total_over<K>(m: Map<K, nat>, accounts: Seq<K>) -> nat
    decreases accounts.len(),
{
    if accounts.len() == 0 {
        0
    } else {
        total_over(m, accounts.drop_last()) + count_in(m, accounts.last())
    }
}

/// Where `after` differs from `before` only in that `amount` left `from` and
/// reached `to`, a list of distinct accounts holds `amount` less if it names
/// only the sender, `amount` more if it names only the receiver, and the
/// same otherwise.
proof fn total_shifts<K>(
    before: Map<K, nat>,
    after: Map<K, nat>,
    from: K,
    to: K,
    amount: nat,
    accounts: Seq<K>,
)
    requires
        accounts.no_duplicates(),
        from != to,
        count_in(after, from) + amount == count_in(before, from),
        count_in(after, to) == count_in(before, to) + amount,
        forall|k: K| k != from && k != to ==> count_in(after, k) == count_in(before, k),
    ensures
        total_over(after, accounts) + (if accounts.contains(from) {
            amount
        } else {
            0
        }) == total_over(before, accounts) + (if accounts.contains(to) {
            amount
        } else {
            0
        }),
    decreases accounts.len(),
{
    if accounts.len() > 0 {
        let rest = accounts.drop_last();
        let last = accounts.last();
        total_shifts(before, after, from, to, amount, rest);
        assert forall|k: K| accounts.contains(k) <==> rest.contains(k) || k == last by {
            if rest.contains(k) {
                let i = choose|i: int| 0 <= i < rest.len() && rest[i] == k;
                assert(accounts[i] == k);
            }
            if accounts.contains(k) && k != last {
                let i = choose|i: int| 0 <= i < accounts.len() && accounts[i] == k;
                assert(rest[i] == k);
            }
            if k == last {
                assert(accounts[accounts.len() - 1] == k);
            }
        }
        assert(!rest.contains(last)) by {
            if rest.contains(last) {
                let i = choose|i: int| 0 <= i < rest.len() && rest[i] == last;
                assert(accounts[i] == accounts[accounts.len() - 1]);
            }
        }
    }
}

/// A transfer that the sender can afford, and whose credit fits the balance
/// type, conserves the total supply: any list of distinct accounts that
/// names both the sender and the receiver holds as much after it as before.
pub proof fn transfer_conserves_total<K>(
    m: Map<K, nat>,
    from: K,
    to: K,
    amount: nat,
    limit: nat,
    accounts: Seq<K>,
)
    requires
        accounts.no_duplicates(),
        accounts.contains(from),
        accounts.contains(to),
        count_in(m, from) >= amount,
        count_in(m, from) <= limit,
        from != to ==> count_in(m, to) + amount <= limit,
    ensures
        total_over(transferred(m, from, to, amount, limit), accounts) == total_over(m, accounts),
{
    let after = transferred(m, from, to, amount, limit);
    if from == to {
        totals_agree(m, after, accounts);
    } else {
        total_shifts(m, after, from, to, amount, accounts);
    }
}

/// Two ledgers in which every account holds the same hold the same in total.
proof fn totals_agree<K>(before: Map<K, nat>, after: Map<K, nat>, accounts: Seq<K>)
    requires
        forall|k: K| count_in(after, k) == count_in(before, k),
    ensures
        total_over(after, accounts) == total_over(before, accounts),
    decreases accounts.len(),
{
    if accounts.len() > 0 {
        totals_agree(before, after, accounts.drop_last());
    }
}

/// The balance of each account.
#[derive(Debug)]
pub struct Pallet<T: BalanceConfig> {
    pub balances: Table<T::AccountId, T::Balance>,
}

impl<T: BalanceConfig> View for Pallet<T> {
    type V = Map<<T::AccountId as View>::V, nat>;

    /// The balance written for each account that has one.
    open spec fn view(&self) -> Map<<T::AccountId as View>::V, nat> {
        self.balances@.map_values(|b: T::Balance| b.value())
    }
}

impl<T: BalanceConfig> Pallet<T> {
    /// The balance of `who`: zero for an account that was never written.
    pub open spec fn balance_of(&self, who: <T::AccountId as View>::V) -> nat {
        count_in(self@, who)
    }

    /// Every balance lies within the balance type's range.
    pub proof fn balances_are_bounded(&self, who: <T::AccountId as View>::V)
        ensures
            self.balance_of(who) <= T::Balance::limit(),
    {
        if self.balances@.contains_key(who) {
            self.balances@[who].value_is_bounded();
        }
    }

    /// A ledger in which no account has a balance.
    pub fn new() -> (p: Self)
        ensures
            p@ == Map::<<T::AccountId as View>::V, nat>::empty(),
    {
        let p = Self { balances: Table::new() };
        assert(p@ =~= Map::<<T::AccountId as View>::V, nat>::empty());
        p
    }

    /// Writes `amount` as the balance of `who`, whatever it was.
    pub fn set_balance(&mut self, who: T::AccountId, amount: T::Balance)
        ensures
            final(self)@ == old(self)@.insert(who@, amount.value()),
    {
        self.balances.insert(who, amount);
        assert(self@ =~= old(self)@.insert(who@, amount.value()));
    }

    /// The balance of `who`: zero for an account that was never written.
    pub fn get_balance(&self, who: &T::AccountId) -> (b: T::Balance)
        ensures
            b.value() == self.balance_of(who@),
    {
        match self.balances.get(who) {
            Some(b) => *b,
            None => T::Balance::zero(),
        }
    }

    /// Moves `amount` from `from` to `to` where `from` holds that much, and
    /// changes nothing where it does not. A credit that would leave the
    /// balance type's range sets the receiver's balance to zero.
    pub fn transfer(&mut self, from: T::AccountId, to: T::AccountId, amount: T::Balance) -> (r:
        Result<(), DispatchError>)
        ensures
            old(self).balance_of(from@) < amount.value() ==> r == Err::<(), DispatchError>(
                DispatchError::InsufficientBalance,
            ) && final(self)@ == old(self)@,
            old(self).balance_of(from@) >= amount.value() ==> r == Ok::<(), DispatchError>(())
                && final(self)@ == transferred(
                old(self)@,
                from@,
                to@,
                amount.value(),
                T::Balance::limit(),
            ),
    {
        let from_balance = self.get_balance(&from);
        if !from_balance.at_least(&amount) {
            return Err(DispatchError::InsufficientBalance);
        }
        let debited = match from_balance.checked_sub(&amount) {
            Some(d) => d,
            None => T::Balance::zero(),
        };
        self.set_balance(from, debited);
        let to_balance = self.get_balance(&to);
        let credited = match to_balance.checked_add(&amount) {
            Some(c) => c,
            None => T::Balance::zero(),
        };
        proof {
            credited.value_is_bounded();
        }
        self.set_balance(to, credited);
        Ok(())
    }
}

} // verus!
