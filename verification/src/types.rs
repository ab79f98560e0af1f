//! The concrete types that the runtime is built on.

use vstd::prelude::*;
use crate::support;

verus! {

pub type AccountId = String;

pub type Balance = u128;

pub type BlockNumber = u32;

pub type Nonce = u32;

pub type RuntimeCall = support::RuntimeCall<AccountId, Balance>;

pub type Extrinsic = support::Extrinsic<AccountId, Nonce, RuntimeCall>;

pub type Header = support::Header<BlockNumber>;

pub type Block = support::Block<Header, Extrinsic>;

} // verus!
