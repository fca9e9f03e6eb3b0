//! The claim-registry module: an exclusive association between an opaque
//! content value and the one account that owns it.

use vstd::prelude::*;

use crate::config::{AccountId, Content};
use crate::string_map::StringMap;
use crate::support::{Dispatch, DispatchError, DispatchResult};

verus! {

/// What `create_claim` does to the registry `m`: content that already has
/// an owner is rejected, anything else now belongs to the caller.
pub open spec fn spec_create_claim(
    m: Map<Seq<char>, Seq<char>>,
    caller: Seq<char>,
    claim: Seq<char>,
) -> (Map<Seq<char>, Seq<char>>, DispatchResult) {
    if m.dom().contains(claim) {
        (m, Err(DispatchError::AlreadyClaimed))
    } else {
        (m.insert(claim, caller), Ok(()))
    }
}

/// What `revoke_claim` does to the registry `m`: unowned content and a
/// caller other than the owner are rejected, otherwise the claim ends.
pub open spec fn spec_revoke_claim(
    m: Map<Seq<char>, Seq<char>>,
    caller: Seq<char>,
    claim: Seq<char>,
) -> (Map<Seq<char>, Seq<char>>, DispatchResult) {
    if !m.dom().contains(claim) {
        (m, Err(DispatchError::ClaimNotFound))
    } else if m[claim] != caller {
        (m, Err(DispatchError::NotClaimOwner))
    } else {
        (m.remove(claim), Ok(()))
    }
}

/// Maps content to the one account that claimed it.
#[derive(Debug)]
pub struct Pallet {
    claims: StringMap<AccountId>,
}

impl View for Pallet {
    type V = Map<Seq<char>, Seq<char>>;

    closed spec fn view(&self) -> Map<Seq<char>, Seq<char>> {
        Map::new(
            |c: Seq<char>| self.claims@.dom().contains(c),
            |c: Seq<char>| self.claims@[c]@,
        )
    }
}

impl Pallet {
    /// A fresh registry: nothing is claimed.
    pub fn new() -> (r: Self)
        ensures
            r.wf(),
            r@ == Map::<Seq<char>, Seq<char>>::empty(),
    {
        let p = Pallet { claims: StringMap::new() };
        proof {
            assert(p@ =~= Map::<Seq<char>, Seq<char>>::empty());
        }
        p
    }

    /// The owner of `claim`, or `None` when nobody holds it.
    pub fn get_claim(&self, claim: &Content) -> (r: Option<&AccountId>)
        requires
            self.wf(),
        ensures
            match r {
                Some(owner) => self@.dom().contains(claim@) && owner@ == self@[claim@],
                None => !self@.dom().contains(claim@),
            },
    {
        self.claims.get(claim)
    }

    /// Claim `claim` for `caller`; rejected when it already has an owner.
    pub fn create_claim(&mut self, caller: AccountId, claim: Content) -> (r: DispatchResult)
        requires
            old(self).wf(),
        ensures
            final(self).wf(),
            final(self)@ == spec_create_claim(old(self)@, caller@, claim@).0,
            r == spec_create_claim(old(self)@, caller@, claim@).1,
    {
        if self.claims.get(&claim).is_some() {
            return Err(DispatchError::AlreadyClaimed);
        }
        let ghost caller_view = caller@;
        self.claims.insert(claim, caller);
        proof {
            assert(self@ =~= spec_create_claim(old(self)@, caller_view, claim@).0);
        }
        Ok(())
    }

    /// End the claim on `claim`; only its current owner may do so.
    pub fn revoke_claim(&mut self, caller: AccountId, claim: Content) -> (r: DispatchResult)
        requires
            old(self).wf(),
        ensures
            final(self).wf(),
            final(self)@ == spec_revoke_claim(old(self)@, caller@, claim@).0,
            r == spec_revoke_claim(old(self)@, caller@, claim@).1,
    {
        let caller_is_owner: bool = match self.claims.get(&claim) {
            None => {
                return Err(DispatchError::ClaimNotFound);
            },
            Some(owner) => *owner == caller,
        };
        if !caller_is_owner {
            return Err(DispatchError::NotClaimOwner);
        }
        self.claims.remove(&claim);
        proof {
            assert(self@ =~= spec_revoke_claim(old(self)@, caller@, claim@).0);
        }
        Ok(())
    }
}

/// The calls the claim registry exposes to the dispatcher.
pub enum Call {
    CreateClaim { claim: Content },
    RevokeClaim { claim: Content },
}

/// What dispatching a claim-registry call does to the registry.
pub open spec fn spec_dispatch(
    m: Map<Seq<char>, Seq<char>>,
    caller: Seq<char>,
    call: Call,
) -> (Map<Seq<char>, Seq<char>>, DispatchResult) {
    match call {
        Call::CreateClaim { claim } => spec_create_claim(m, caller, claim@),
        Call::RevokeClaim { claim } => spec_revoke_claim(m, caller, claim@),
    }
}

impl Dispatch for Pallet {
    type Caller = AccountId;

    type Call = Call;

    closed spec fn wf(&self) -> bool {
        self.claims.wf()
    }

    /// Route a claim-registry call to the operation it names.
    fn dispatch(&mut self, caller: AccountId, call: Call) -> (r: DispatchResult)
        ensures
            final(self)@ == spec_dispatch(old(self)@, caller@, call).0,
            r == spec_dispatch(old(self)@, caller@, call).1,
    {
        match call {
            Call::CreateClaim { claim } => self.create_claim(caller, claim),
            Call::RevokeClaim { claim } => self.revoke_claim(caller, claim),
        }
    }
}

/// Claims are exclusive: once `a` owns content `c`, a second claim of `c`
/// by any account is rejected, and `a` remains the owner.
pub proof fn lemma_claim_is_exclusive(
    m: Map<Seq<char>, Seq<char>>,
    a: Seq<char>,
    b: Seq<char>,
    c: Seq<char>,
)
    requires
        !m.dom().contains(c),
    ensures
        ({
            let first = spec_create_claim(m, a, c);
            let second = spec_create_claim(first.0, b, c);
            &&& first.1 is Ok
            &&& second.1 == Err::<(), DispatchError>(DispatchError::AlreadyClaimed)
            &&& second.0 == first.0
            &&& second.0.dom().contains(c)
            &&& second.0[c] == a
        }),
{
}

/// Only the owner revokes: after `a` claims `c`, a revocation by a
/// different account `b` fails and changes nothing, while `a`'s own
/// revocation succeeds and leaves `c` unclaimed.
pub proof fn lemma_only_owner_revokes(
    m: Map<Seq<char>, Seq<char>>,
    a: Seq<char>,
    b: Seq<char>,
    c: Seq<char>,
)
    requires
        !m.dom().contains(c),
        a != b,
    ensures
        ({
            let owned = spec_create_claim(m, a, c).0;
            &&& spec_revoke_claim(owned, b, c).1 == Err::<(), DispatchError>(
                DispatchError::NotClaimOwner,
            )
            &&& spec_revoke_claim(owned, b, c).0 == owned
            &&& spec_revoke_claim(owned, a, c).1 is Ok
            &&& !spec_revoke_claim(owned, a, c).0.dom().contains(c)
        }),
{
}

} // verus!
