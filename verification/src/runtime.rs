//! The runtime: the system and ledger components, and the pipeline that
//! applies a block to them.

use vstd::prelude::*;
use crate::numeric::Numeric;
use crate::pallets::{transferred, BalanceConfig, Pallet as Balances};
use crate::storage::AccountKey;
use crate::support::{self, DispatchError, DispatchResult};
use crate::system::{count_in, stepped, Pallet as System, SystemConfig};
use crate::types::{AccountId, Balance, Block, BlockNumber, Extrinsic, Nonce, RuntimeCall};

verus! {

/// The state of a runtime, as mathematics sees it.
pub struct State {
    /// The number of blocks executed so far.
    pub block_number: nat,
    /// The nonce of each account that has one.
    pub nonces: Map<Seq<char>, nat>,
    /// The balance of each account that has one.
    pub balances: Map<Seq<char>, nat>,
}

/// The ledger after `caller` asked for `call`, and the outcome of the call.
pub open spec fn dispatched(balances: Map<Seq<char>, nat>, caller: Seq<char>, call: RuntimeCall) -> (
    Map<Seq<char>, nat>,
    DispatchResult,
) {
    match call {
        support::RuntimeCall::Transfer { to, amount } => {
            if count_in(balances, caller) >= amount.value() {
                (
                    transferred(balances, caller, to@, amount.value(), Balance::limit()),
                    Ok::<(), DispatchError>(()),
                )
            } else {
                (balances, Err::<(), DispatchError>(DispatchError::InsufficientBalance))
            }
        },
        support::RuntimeCall::Unrecognized { tag } => (
            balances,
            Err::<(), DispatchError>(DispatchError::UnknownCall),
        ),
    }
}

/// The state after one extrinsic, and the extrinsic's outcome. An extrinsic
/// whose nonce is not the caller's current nonce changes nothing; one that
/// is dispatched with success moves the caller's nonce one step on.
pub open spec fn applied(s: State, ext: Extrinsic) -> (State, DispatchResult) {
    if ext.nonce.value() != count_in(s.nonces, ext.caller@) {
        (s, Err::<(), DispatchError>(DispatchError::InvalidNonce))
    } else {
        let (balances, outcome) = dispatched(s.balances, ext.caller@, ext.call);
        if outcome is Ok {
            (
                State {
                    block_number: s.block_number,
                    nonces: s.nonces.insert(
                        ext.caller@,
                        stepped(count_in(s.nonces, ext.caller@), Nonce::limit()),
                    ),
                    balances,
                },
                outcome,
            )
        } else {
            (s, outcome)
        }
    }
}

/// The state after the extrinsics `exts`, applied in their order, and the
/// outcome of each.
pub open spec fn applied_all(s: State, exts: Seq<Extrinsic>) -> (State, Seq<DispatchResult>)
    decreases exts.len(),
{
    if exts.len() == 0 {
        (s, Seq::<DispatchResult>::empty())
    } else {
        let (mid, outcomes) = applied_all(s, exts.drop_last());
        let (end, outcome) = applied(mid, exts.last());
        (end, outcomes.push(outcome))
    }
}

/// Every extrinsic gets exactly one outcome, and none of them moves the
/// block counter.
pub proof fn one_outcome_per_extrinsic(s: State, exts: Seq<Extrinsic>)
    ensures
        applied_all(s, exts).1.len() == exts.len(),
        applied_all(s, exts).0.block_number == s.block_number,
    decreases exts.len(),
{
    if exts.len() > 0 {
        one_outcome_per_extrinsic(s, exts.drop_last());
    }
}

/// An extrinsic that fails, for whatever reason, leaves the state as it was.
pub proof fn failed_extrinsic_changes_nothing(s: State, ext: Extrinsic)
    requires
        applied(s, ext).1 is Err,
    ensures
        applied(s, ext).0 == s,
{
}

/// An extrinsic that was applied with success is turned away when it comes
/// a second time, and changes nothing then: its nonce is no longer the
/// caller's. This holds as long as the caller's nonce has not reached the
/// top of its range.
pub proof fn replayed_extrinsic_is_rejected(s: State, ext: Extrinsic)
    requires
        applied(s, ext).1 is Ok,
        count_in(s.nonces, ext.caller@) < Nonce::limit(),
    ensures
        applied(applied(s, ext).0, ext) == (
            applied(s, ext).0,
            Err::<(), DispatchError>(DispatchError::InvalidNonce),
        ),
{
}

/// Whether a block numbered `header` is the one that follows `current`
/// executed blocks.
pub open spec fn follows(header: nat, current: nat) -> bool {
    header == current + 1
}

/// The choice of types that the runtime's components are built with.
#[derive(Debug)]
pub struct RuntimeConfig;

/// The system and ledger components under one roof.
#[derive(Debug)]
pub struct Runtime {
    pub system: System<RuntimeConfig>,
    pub balances: Balances<RuntimeConfig>,
}

impl SystemConfig for RuntimeConfig {
    type AccountId = AccountId;

    type BlockNumber = BlockNumber;

    type Nonce = Nonce;
}

impl BalanceConfig for RuntimeConfig {
    type Balance = Balance;
}

impl View for Runtime {
    type V = State;

    open spec fn view(&self) -> State {
        State {
            block_number: self.system.height(),
            nonces: self.system.nonces(),
            balances: self.balances@,
        }
    }
}

impl Runtime {
    /// A runtime at block zero, with no nonce and no balance.
    pub fn new() -> (r: Self)
        ensures
            r@ == (State {
                block_number: 0,
                nonces: Map::<Seq<char>, nat>::empty(),
                balances: Map::<Seq<char>, nat>::empty(),
            }),
    {
        Self { system: System::new(), balances: Balances::new() }
    }

    /// Routes `call` to the component that owns its tag.
    pub fn dispatch(&mut self, caller: AccountId, call: &RuntimeCall) -> (r: DispatchResult)
        ensures
            (final(self)@.balances, r) == dispatched(old(self)@.balances, caller@, *call),
            final(self)@.nonces == old(self)@.nonces,
            final(self)@.block_number == old(self)@.block_number,
    {
        match call {
            support::RuntimeCall::Transfer { to, amount } => {
                self.balances.transfer(caller, to.duplicate(), *amount)
            },
            support::RuntimeCall::Unrecognized { tag } => Err(DispatchError::UnknownCall),
        }
    }

    /// Applies one extrinsic: checks its nonce, dispatches its call, and on
    /// success moves the caller's nonce one step on.
    pub fn apply_extrinsic(&mut self, ext: &Extrinsic) -> (r: DispatchResult)
        ensures
            (final(self)@, r) == applied(old(self)@, *ext),
    {
        if self.system.get_nonce(ext.caller.duplicate()) != ext.nonce {
            return Err(DispatchError::InvalidNonce);
        }
        let outcome = self.dispatch(ext.caller.duplicate(), &ext.call);
        if outcome.is_ok() {
            self.system.inc_nonce(ext.caller.duplicate());
        }
        outcome
    }

    /// Executes `block`. A block whose header does not name the next block
    /// is rejected with nothing applied. Otherwise every extrinsic is
    /// applied in order, each with its own outcome, and the block counter
    /// moves one step on.
    pub fn execute_block(&mut self, block: Block) -> (r: Result<Vec<DispatchResult>, DispatchError>)
        ensures
            !follows(block.header.block_number.value(), old(self)@.block_number) ==> r == Err::<
                Vec<DispatchResult>,
                DispatchError,
            >(DispatchError::BlockNumberMismatch) && final(self)@ == old(self)@,
            follows(block.header.block_number.value(), old(self)@.block_number) ==> r is Ok
                && r->Ok_0@ == applied_all(old(self)@, block.extrinsics@).1 && final(self)@ == (State {
                block_number: old(self)@.block_number + 1,
                ..applied_all(old(self)@, block.extrinsics@).0
            }),
    {
        let current = self.system.block_number();
        if current == u32::MAX || block.header.block_number != current + 1 {
            return Err(DispatchError::BlockNumberMismatch);
        }
        let mut outcomes: Vec<DispatchResult> = Vec::new();
        let mut i: usize = 0;
        while i < block.extrinsics.len()
            invariant
                i <= block.extrinsics@.len(),
                (self@, outcomes@) == applied_all(old(self)@, block.extrinsics@.take(i as int)),
                self@.block_number == old(self)@.block_number,
            decreases block.extrinsics@.len() - i,
        {
            let ghost before = self@;
            let outcome = self.apply_extrinsic(&block.extrinsics[i]);
            outcomes.push(outcome);
            proof {
                let taken = block.extrinsics@.take(i as int + 1);
                assert(taken.drop_last() =~= block.extrinsics@.take(i as int));
                assert(taken.last() == block.extrinsics@[i as int]);
            }
            i += 1;
        }
        assert(block.extrinsics@.take(i as int) =~= block.extrinsics@);
        self.system.inc_block_number();
        Ok(outcomes)
    }
}

} // verus!
