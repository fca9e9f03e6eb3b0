//! The aggregate runtime: one instance of every module, the closed call
//! variant that gathers their calls, and the block executor.

use vstd::prelude::*;

use crate::balances;
use crate::config::{AccountId, Balance, BlockNumber, Nonce};
use crate::proof_of_existence;
use crate::support::{BlockError, Dispatch, DispatchError, DispatchResult};
use crate::system;
use crate::system::next_value;

verus! {

/// The extrinsics this runtime accepts.
pub type Extrinsic = crate::support::Extrinsic<AccountId, RuntimeCall>;

/// The headers this runtime accepts.
pub type Header = crate::support::Header<BlockNumber>;

/// The blocks this runtime accepts.
pub type Block = crate::support::Block<Header, Extrinsic>;

/// All the calls exposed to the world: one variant per module, each
/// carrying that module's own call. Routing is total over this shape, so
/// no "unknown call" error exists.
pub enum RuntimeCall {
    Balances(balances::Call),
    ProofOfExistence(proof_of_existence::Call),
}

/// A mathematical snapshot of the whole runtime state.
pub struct StateView {
    pub block_number: BlockNumber,
    pub nonces: Map<Seq<char>, Nonce>,
    pub balances: Map<Seq<char>, Balance>,
    pub claims: Map<Seq<char>, Seq<char>>,
}

/// One extrinsic's failure, surfaced to the host for reporting.
#[derive(Clone, Copy, Debug, PartialEq, Eq, Structural)]
pub struct ExtrinsicFailure {
    /// The block in which the extrinsic ran.
    pub block_number: BlockNumber,
    /// The extrinsic's position within its block.
    pub index: usize,
    /// Why its module rejected it.
    pub error: DispatchError,
}

/// What dispatching one runtime call does: route to the owning module,
/// propagate its result unchanged, and touch nothing else.
pub open spec fn spec_dispatch(s: StateView, caller: Seq<char>, call: RuntimeCall) -> (
    StateView,
    DispatchResult,
) {
    match call {
        RuntimeCall::Balances(inner) => {
            let step = balances::spec_dispatch(s.balances, caller, inner);
            (
                StateView {
                    block_number: s.block_number,
                    nonces: s.nonces,
                    balances: step.0,
                    claims: s.claims,
                },
                step.1,
            )
        },
        RuntimeCall::ProofOfExistence(inner) => {
            let step = proof_of_existence::spec_dispatch(s.claims, caller, inner);
            (
                StateView {
                    block_number: s.block_number,
                    nonces: s.nonces,
                    balances: s.balances,
                    claims: step.0,
                },
                step.1,
            )
        },
    }
}

/// Applying one extrinsic: the caller's nonce rises whatever the outcome,
/// then the call is dispatched.
pub open spec fn spec_apply_extrinsic(s: StateView, ext: Extrinsic) -> (StateView, DispatchResult) {
    let counted = StateView {
        block_number: s.block_number,
        nonces: system::spec_inc_nonce(s.nonces, ext.caller@),
        balances: s.balances,
        claims: s.claims,
    };
    spec_dispatch(counted, ext.caller@, ext.call)
}

/// The state after the first `n` extrinsics of `exts`, applied in order
/// starting from `s`.
pub open spec fn state_after(s: StateView, exts: Seq<Extrinsic>, n: int) -> StateView
    decreases n,
{
    if n <= 0 {
        s
    } else {
        spec_apply_extrinsic(state_after(s, exts, n - 1), exts[n - 1]).0
    }
}

/// The outcome of extrinsic `n`, applied to the state the first `n`
/// extrinsics produced.
pub open spec fn result_at(s: StateView, exts: Seq<Extrinsic>, n: int) -> DispatchResult {
    spec_apply_extrinsic(state_after(s, exts, n), exts[n]).1
}

/// The failure records the first `n` extrinsics leave behind, in order,
/// each naming the containing block and its own position.
pub open spec fn failures_upto(
    s: StateView,
    exts: Seq<Extrinsic>,
    block_number: BlockNumber,
    n: int,
) -> Seq<ExtrinsicFailure>
    decreases n,
{
    if n <= 0 {
        Seq::empty()
    } else {
        let prev = failures_upto(s, exts, block_number, n - 1);
        match result_at(s, exts, n - 1) {
            Ok(_) => prev,
            Err(e) => prev.push(
                ExtrinsicFailure { block_number, index: (n - 1) as usize, error: e },
            ),
        }
    }
}

/// Isolation law: dispatching a call mutates only the storage of the module
/// that owns the call. The height and the nonces never move under dispatch,
/// and each module's map is untouched by the other module's calls.
pub proof fn lemma_dispatch_touches_only_its_module(
    s: StateView,
    caller: Seq<char>,
    call: RuntimeCall,
)
    ensures
        spec_dispatch(s, caller, call).0.block_number == s.block_number,
        spec_dispatch(s, caller, call).0.nonces == s.nonces,
        call is Balances ==> spec_dispatch(s, caller, call).0.claims == s.claims,
        call is ProofOfExistence ==> spec_dispatch(s, caller, call).0.balances == s.balances,
{
}

/// The aggregate root: exclusively owns one instance of each module. No
/// module reaches into another module's state.
#[derive(Debug)]
pub struct Runtime {
    pub system: system::Pallet,
    pub balances: balances::Pallet,
    pub proof_of_existence: proof_of_existence::Pallet,
}

impl View for Runtime {
    type V = StateView;

    open spec fn view(&self) -> StateView {
        StateView {
            block_number: self.system.block_number,
            nonces: self.system.nonce@,
            balances: self.balances@,
            claims: self.proof_of_existence@,
        }
    }
}

impl Runtime {
    /// A fresh runtime: every module empty, height zero.
    pub fn new() -> (r: Self)
        ensures
            r.wf(),
            r@.block_number == 0,
            r@.nonces == Map::<Seq<char>, Nonce>::empty(),
            r@.balances == Map::<Seq<char>, Balance>::empty(),
            r@.claims == Map::<Seq<char>, Seq<char>>::empty(),
    {
        Runtime {
            system: system::Pallet::new(),
            balances: balances::Pallet::new(),
            proof_of_existence: proof_of_existence::Pallet::new(),
        }
    }

    /// Execute a block: advance the height by one, reject the block if its
    /// declared number is not the height just reached, then apply every
    /// extrinsic in order. A failing extrinsic is recorded and skipped; it
    /// never aborts the block. A rejected block still leaves the height
    /// advanced.
    pub fn execute_block(&mut self, block: Block) -> (r: Result<Vec<ExtrinsicFailure>, BlockError>)
        requires
            old(self).wf(),
        ensures
            final(self).wf(),
            ({
                let advanced = StateView {
                    block_number: next_value(old(self)@.block_number),
                    nonces: old(self)@.nonces,
                    balances: old(self)@.balances,
                    claims: old(self)@.claims,
                };
                let exts = block.extrinsics@;
                if block.header.block_number != next_value(old(self)@.block_number) {
                    &&& r == Err::<Vec<ExtrinsicFailure>, BlockError>(BlockError::NumberMismatch)
                    &&& final(self)@ == advanced
                } else {
                    &&& r is Ok
                    &&& final(self)@ == state_after(advanced, exts, exts.len() as int)
                    &&& (r matches Ok(failures) ==> failures@ == failures_upto(
                        advanced,
                        exts,
                        block.header.block_number,
                        exts.len() as int,
                    ))
                }
            }),
    {
        self.system.inc_block_number();
        if block.header.block_number != self.system.block_number {
            return Err(BlockError::NumberMismatch);
        }
        let ghost advanced = self@;
        let number = block.header.block_number;
        let mut extrinsics = block.extrinsics;
        let ghost all = extrinsics@;
        // A vector's length fits in usize, so the loop counter cannot overflow.
        let total = extrinsics.len();
        proof {
            assert(all.len() == total);
        }
        let mut failures: Vec<ExtrinsicFailure> = Vec::new();
        let mut i: usize = 0;
        while extrinsics.len() > 0
            invariant
                self.wf(),
                all.len() <= usize::MAX,
                i + extrinsics@.len() == all.len(),
                extrinsics@ == all.subrange(i as int, all.len() as int),
                self@ == state_after(advanced, all, i as int),
                failures@ == failures_upto(advanced, all, number, i as int),
            decreases extrinsics@.len(),
        {
            proof {
                assert(extrinsics@[0] == all[i as int]);
            }
            let ext = extrinsics.remove(0);
            proof {
                assert(extrinsics@ =~= all.subrange(i + 1, all.len() as int));
            }
            let crate::support::Extrinsic { caller, call } = ext;
            self.system.inc_nonce(caller.clone());
            let res = self.dispatch(caller, call);
            match res {
                Ok(_) => {},
                Err(e) => {
                    failures.push(ExtrinsicFailure { block_number: number, index: i, error: e });
                },
            }
            i += 1;
        }
        Ok(failures)
    }
}

impl Default for Runtime {
    /// A fresh runtime, exactly as `new` builds one.
    fn default() -> (r: Self)
        ensures
            r.wf(),
            r@.block_number == 0,
            r@.nonces == Map::<Seq<char>, Nonce>::empty(),
            r@.balances == Map::<Seq<char>, Balance>::empty(),
            r@.claims == Map::<Seq<char>, Seq<char>>::empty(),
    {
        Runtime::new()
    }
}

impl Dispatch for Runtime {
    type Caller = AccountId;

    type Call = RuntimeCall;

    open spec fn wf(&self) -> bool {
        self.system.wf() && self.balances.wf() && self.proof_of_existence.wf()
    }

    /// Route the call to the owning module's dispatch on behalf of the
    /// caller; the result is propagated unchanged.
    fn dispatch(&mut self, caller: AccountId, call: RuntimeCall) -> (r: DispatchResult)
        ensures
            final(self)@ == spec_dispatch(old(self)@, caller@, call).0,
            r == spec_dispatch(old(self)@, caller@, call).1,
    {
        match call {
            RuntimeCall::Balances(inner) => self.balances.dispatch(caller, inner),
            RuntimeCall::ProofOfExistence(inner) => self.proof_of_existence.dispatch(
                caller,
                inner,
            ),
        }
    }
}

} // verus!
