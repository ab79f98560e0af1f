//! The system component: the block counter and the per-account nonces.

use vstd::prelude::*;
use crate::numeric::Numeric;
use crate::storage::{AccountKey, Table};

verus! {

/// The types that every component of a runtime agrees on.
pub trait SystemConfig {
    type AccountId: AccountKey;

    type BlockNumber: Numeric;

    type Nonce: Numeric;
}

/// A counter one step on: `n + 1` where that is at most `limit`, and zero
/// where the step would leave the range.
pub open spec fn stepped(n: nat, limit: nat) -> nat {
    if n + 1 <= limit {
        n + 1
    } else {
        0
    }
}

/// The number found for `who` in `m`, zero where there is none.
pub open spec fn count_in<K>(m: Map<K, nat>, who: K) -> nat {
    if m.contains_key(who) {
        m[who]
    } else {
        0
    }
}

/// A counter after `times` steps from `start`.
pub open spec fn stepped_by(start: nat, times: nat, limit: nat) -> nat
    decreases times,
{
    if times == 0 {
        start
    } else {
        stepped(stepped_by(start, (times - 1) as nat, limit), limit)
    }
}

/// Below the top of its range a counter moves up by exactly one, and a
/// counter at zero moves to one.
pub proof fn step_adds_one<N: Numeric>(n: nat)
    requires
        n < N::limit(),
    ensures
        stepped(n, N::limit()) == n + 1,
        stepped(0, N::limit()) == 1,
{
    N::limit_admits_small();
}

/// A counter that starts at zero stands at `times` after `times` steps, as
/// long as `times` is within its range.
pub proof fn steps_from_zero_count(times: nat, limit: nat)
    requires
        times <= limit,
    ensures
        stepped_by(0, times, limit) == times,
    decreases times,
{
    if times > 0 {
        steps_from_zero_count((times - 1) as nat, limit);
    }
}

/// Where nothing was ever written, every account reads as zero.
pub proof fn unwritten_is_zero<K>(who: K)
    ensures
        count_in(Map::<K, nat>::empty(), who) == 0,
{
}

/// A number written for an account is the number read for it afterwards.
pub proof fn write_then_read<K>(m: Map<K, nat>, who: K, n: nat)
    ensures
        count_in(m.insert(who, n), who) == n,
{
}

/// Writing a number for one account leaves what every other account reads
/// as it was.
pub proof fn write_is_local<K>(m: Map<K, nat>, who: K, n: nat, other: K)
    requires
        other != who,
    ensures
        count_in(m.insert(who, n), other) == count_in(m, other),
{
}

/// The block counter and the nonce of each account.
#[derive(Debug)]
pub struct Pallet<T: SystemConfig> {
    block_number: T::BlockNumber,
    nonce: Table<T::AccountId, T::Nonce>,
}

impl<T: SystemConfig> Pallet<T> {
    /// The number of blocks executed so far.
    pub closed spec fn height(&self) -> nat {
        self.block_number.value()
    }

    /// The nonce written for each account that has one.
    pub closed spec fn nonces(&self) -> Map<<T::AccountId as View>::V, nat> {
        self.nonce@.map_values(|n: T::Nonce| n.value())
    }

    /// The nonce of `who`: zero until the first increment.
    pub open spec fn nonce_of(&self, who: <T::AccountId as View>::V) -> nat {
        count_in(self.nonces(), who)
    }

    /// Every nonce lies within the nonce type's range, and the block counter
    /// within its own.
    pub proof fn counters_are_bounded(&self, who: <T::AccountId as View>::V)
        ensures
            self.height() <= T::BlockNumber::limit(),
            self.nonce_of(who) <= T::Nonce::limit(),
    {
        self.block_number.value_is_bounded();
        if self.nonce@.contains_key(who) {
            self.nonce@[who].value_is_bounded();
        }
    }

    /// A system at block zero in which no account has a nonce.
    pub fn new() -> (s: Self)
        ensures
            s.height() == 0,
            s.nonces() == Map::<<T::AccountId as View>::V, nat>::empty(),
    {
        let s = Self { block_number: T::BlockNumber::zero(), nonce: Table::new() };
        assert(s.nonces() =~= Map::<<T::AccountId as View>::V, nat>::empty());
        s
    }

    /// The current block number.
    pub fn block_number(&self) -> (n: T::BlockNumber)
        ensures
            n.value() == self.height(),
    {
        self.block_number
    }

    /// Moves the block counter one step on; at the top of its range it goes
    /// back to zero.
    pub fn inc_block_number(&mut self)
        ensures
            final(self).height() == stepped(old(self).height(), T::BlockNumber::limit()),
            final(self).nonces() == old(self).nonces(),
    {
        let one = T::BlockNumber::from_small(1);
        let next = match self.block_number.checked_add(&one) {
            Some(n) => n,
            None => T::BlockNumber::zero(),
        };
        proof {
            next.value_is_bounded();
        }
        self.block_number = next;
    }

    /// Moves the nonce of `who` one step on; at the top of its range it goes
    /// back to zero.
    pub fn inc_nonce(&mut self, who: T::AccountId)
        ensures
            final(self).height() == old(self).height(),
            final(self).nonces() == old(self).nonces().insert(
                who@,
                stepped(old(self).nonce_of(who@), T::Nonce::limit()),
            ),
    {
        let current = match self.nonce.get(&who) {
            Some(n) => *n,
            None => T::Nonce::zero(),
        };
        let one = T::Nonce::from_small(1);
        let next = match current.checked_add(&one) {
            Some(n) => n,
            None => T::Nonce::zero(),
        };
        proof {
            next.value_is_bounded();
        }
        self.nonce.insert(who, next);
        assert(self.nonces() =~= old(self).nonces().insert(
            who@,
            stepped(old(self).nonce_of(who@), T::Nonce::limit()),
        ));
    }

    /// The nonce of `who`: zero until the first increment.
    pub fn get_nonce(&self, who: T::AccountId) -> (n: T::Nonce)
        ensures
            n.value() == self.nonce_of(who@),
    {
        match self.nonce.get(&who) {
            Some(n) => *n,
            None => T::Nonce::zero(),
        }
    }
}

} // verus!
