//! The shapes that blocks, extrinsics and their outcomes take.

use vstd::prelude::*;

verus! {

/// Why an extrinsic, or a whole block, was not applied.
#[derive(Clone, Copy, Debug, PartialEq, Eq, Structural)]
pub enum DispatchError {
    /// A transfer asked for more than the sender holds.
    InsufficientBalance,
    /// The extrinsic's nonce is not the caller's current nonce.
    InvalidNonce,
    /// No component owns the call's tag.
    UnknownCall,
    /// The block's header does not name the block that comes next.
    BlockNumberMismatch,
}

/// The outcome of one dispatched call.
pub type DispatchResult = Result<(), DispatchError>;

/// The text that describes each error.
pub open spec fn message_text(e: DispatchError) -> Seq<char> {
    match e {
        DispatchError::InsufficientBalance => "Insufficient balance!"@,
        DispatchError::InvalidNonce => "Invalid nonce!"@,
        DispatchError::UnknownCall => "Unknown call!"@,
        DispatchError::BlockNumberMismatch => "Block number mismatch!"@,
    }
}

impl DispatchError {
    /// A short description of the error, for a log or a terminal.
    pub fn message(&self) -> (r: &'static str)
        ensures
            r@ == message_text(*self),
    {
        match self {
            DispatchError::InsufficientBalance => "Insufficient balance!",
            DispatchError::InvalidNonce => "Invalid nonce!",
            DispatchError::UnknownCall => "Unknown call!",
            DispatchError::BlockNumberMismatch => "Block number mismatch!",
        }
    }
}

/// A state-changing operation that a block may request.
#[derive(Clone, Debug)]
pub enum RuntimeCall<AccountId, Balance> {
    /// Move `amount` from the caller to `to`.
    Transfer { to: AccountId, amount: Balance },
    /// A call whose tag no component of this runtime owns.
    Unrecognized { tag: u32 },
}

/// One caller-attributed instruction of a block.
#[derive(Clone, Debug)]
pub struct Extrinsic<Caller, Nonce, Call> {
    /// The account that the instruction is attributed to.
    pub caller: Caller,
    /// The nonce that the caller's account must stand at.
    pub nonce: Nonce,
    /// What is asked for.
    pub call: Call,
}

/// What a block says of itself.
#[derive(Clone, Copy, Debug)]
pub struct Header<BlockNumber> {
    /// The number of this block.
    pub block_number: BlockNumber,
}

/// A header and the extrinsics to apply, in order.
#[derive(Clone, Debug)]
pub struct Block<Header, Extrinsic> {
    pub header: Header,
    pub extrinsics: Vec<Extrinsic>,
}

} // verus!
