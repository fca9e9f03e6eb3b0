//! Shared plumbing: the shapes blocks are made of, the error kinds, and the
//! dispatch capability every module implements.

use vstd::prelude::*;

verus! {

/// The part of a block that is not its transactions: here, only the number
/// the block declares for itself.
pub struct Header<BlockNumber> {
    pub block_number: BlockNumber,
}

/// One externally-submitted instruction: who calls, and what they ask for.
pub struct Extrinsic<Caller, Call> {
    pub caller: Caller,
    pub call: Call,
}

/// An ordered run of extrinsics under one header, consumed exactly once by
/// the executor.
pub struct Block<Header, Extrinsic> {
    pub header: Header,
    pub extrinsics: Vec<Extrinsic>,
}

/// Why a module rejected one extrinsic. Such an error never propagates
/// beyond the extrinsic that caused it.
#[derive(Clone, Copy, Debug, PartialEq, Eq, Structural)]
pub enum DispatchError {
    /// The sending account cannot cover the amount.
    InsufficientFunds,
    /// The receiving balance would pass the largest representable amount.
    Overflow,
    /// The content already has an owner.
    AlreadyClaimed,
    /// The content has no owner to revoke.
    ClaimNotFound,
    /// The caller is not the owner of the content.
    NotClaimOwner,
}

impl DispatchError {
    /// The report text for this error kind. Display only; the contracts
    /// elsewhere speak of the kinds themselves.
    pub fn message(&self) -> (s: &'static str)
        ensures
            s@ == match self {
                DispatchError::InsufficientFunds => "Not enough funds!"@,
                DispatchError::Overflow => "Overflow"@,
                DispatchError::AlreadyClaimed => "already claimed"@,
                DispatchError::ClaimNotFound => "claim not found"@,
                DispatchError::NotClaimOwner => "not claim owner"@,
            },
    {
        match self {
            DispatchError::InsufficientFunds => "Not enough funds!",
            DispatchError::Overflow => "Overflow",
            DispatchError::AlreadyClaimed => "already claimed",
            DispatchError::ClaimNotFound => "claim not found",
            DispatchError::NotClaimOwner => "not claim owner",
        }
    }
}

/// The one outcome of a state-changing request.
pub type DispatchResult = Result<(), DispatchError>;

/// Why a whole block was rejected.
#[derive(Clone, Copy, Debug, PartialEq, Eq, Structural)]
pub enum BlockError {
    /// The declared block number is not the height the chain just reached.
    NumberMismatch,
}

impl BlockError {
    /// The report text for this error kind.
    pub fn message(&self) -> (s: &'static str)
        ensures
            s@ == "Incoming and current block numbers dont match!"@,
    {
        match self {
            BlockError::NumberMismatch => "Incoming and current block numbers dont match!",
        }
    }
}

/// The uniform seam through which every state-changing request enters the
/// system: given a caller identity and an opaque call value, mutate state
/// and return success or a named error. Each module implements it for its
/// own calls, and the aggregate runtime implements it by routing.
pub trait Dispatch {
    type Caller;

    type Call;

    /// The state the implementor keeps is well formed.
    spec fn wf(&self) -> bool;

    /// Perform `call` on behalf of `caller`.
    fn dispatch(&mut self, caller: Self::Caller, call: Self::Call) -> (r: DispatchResult)
        requires
            old(self).wf(),
        ensures
            final(self).wf(),
    ;
}

} // verus!
