//! A statement: one effect, and the who, what and where it applies to.
use vstd::prelude::*;

use crate::access::{Action, Attempt, IdentityFacts};
use crate::party::PartyId;
use crate::pattern::{matches_pattern, pattern_matches};

verus! {

broadcast use vstd::string::group_string_axioms;

/// What a statement concludes where it applies.
#[derive(Clone, Copy, Debug, PartialEq, Eq, Structural)]
pub enum Effect {
    /// The attempt is allowed, unless a denying statement also applies.
    Permit,
    /// The attempt is refused.
    Deny,
}

/// A claim the identity must carry: evidence recorded for the identity, by name.
#[derive(Debug, PartialEq, Eq)]
pub struct Claim {
    /// The name it was recorded under — `department`, `scope`.
    pub name: String,
    /// The value it must have, exactly.
    pub value: String,
}

/// One statement of the document.
///
/// Every key but `name` and `effect` is optional, and a key left out applies
/// to everything: a statement that says only `effect = "deny"` and
/// `action = "send"` denies every send by anyone anywhere. The keys that are
/// there must all match.
#[derive(Debug, PartialEq, Eq)]
pub struct Statement {
    /// The name a denial by this statement carries.
    pub name: String,
    /// Permit or deny.
    pub effect: Effect,
    /// Who, by the name of the mechanism the transport identity was proven by.
    pub mechanism: Option<String>,
    /// Who, by the Party the transport identity resolved to.
    pub party: Option<PartyId>,
    /// Who, by a claim either identity carries.
    pub claim: Option<Claim>,
    /// What: `receive`, `process` or `send`.
    pub action: Option<Action>,
    /// Where, by artifact: a name, or every name under a prefix when it ends
    /// in `*`.
    pub artifact: Option<String>,
    /// Where, by Location: as `artifact`, and only where the attempt
    /// receives or sends, because an Xmip Process is not a Location.
    pub location: Option<String>,
}

fn copy_text(s: &Option<String>) -> (r: Option<String>)
    ensures
        r == *s,
{
    match s {
        Some(x) => Some(x.clone()),
        None => None,
    }
}

impl Clone for Claim {
    fn clone(&self) -> (c: Claim)
        ensures
            c == *self,
    {
        Claim { name: self.name.clone(), value: self.value.clone() }
    }
}

impl Clone for Statement {
    fn clone(&self) -> (s: Statement)
        ensures
            s == *self,
    {
        Statement {
            name: self.name.clone(),
            effect: self.effect,
            mechanism: copy_text(&self.mechanism),
            party: self.party,
            claim: match &self.claim {
                Some(c) => Some(c.clone()),
                None => None,
            },
            action: self.action,
            artifact: copy_text(&self.artifact),
            location: copy_text(&self.location),
        }
    }
}

impl Statement {
    /// Who: the mechanism and the Party of the accountable identity, and a
    /// claim carried by either identity, each where the statement names one.
    pub open spec fn spec_who(self, identity: IdentityFacts) -> bool {
        &&& (self.mechanism matches Some(m) ==> identity.accountable.mechanism@ == m@)
        &&& (self.party matches Some(p) ==> identity.accountable.party_id == Some(p))
        &&& (self.claim matches Some(c) ==> identity.spec_carries(c.name@, c.value@))
    }

    /// What: the action, where the statement names one.
    pub open spec fn spec_what(self, attempt: Attempt) -> bool {
        self.action matches Some(a) ==> a == attempt.action
    }

    /// Where: the artifact matches the artifact pattern, and the location
    /// pattern, which applies only to an attempt that receives or sends.
    pub open spec fn spec_place(self, attempt: Attempt) -> bool {
        &&& (self.artifact matches Some(p) ==> pattern_matches(p@, attempt.artifact@))
        &&& (self.location matches Some(p) ==> attempt.action != Action::Process
            && pattern_matches(p@, attempt.artifact@))
    }

    /// The statement applies where the who, the what and the where all match.
    pub open spec fn spec_applies(self, identity: IdentityFacts, attempt: Attempt) -> bool {
        self.spec_who(identity) && self.spec_what(attempt) && self.spec_place(attempt)
    }

    /// Whether the statement applies to this identity attempting this.
    pub fn applies(&self, identity: &IdentityFacts, attempt: &Attempt) -> (r: bool)
        ensures
            r == self.spec_applies(*identity, *attempt),
    {
        self.who(identity) && self.what(attempt) && self.place(attempt)
    }

    fn who(&self, identity: &IdentityFacts) -> (r: bool)
        ensures
            r == self.spec_who(*identity),
    {
        let accountable = identity.accountable();
        let mechanism = match &self.mechanism {
            Some(name) => accountable.mechanism == *name,
            None => true,
        };
        let party = match self.party {
            Some(p) => match accountable.party_id {
                Some(q) => p.0 == q.0,
                None => false,
            },
            None => true,
        };
        let claim = match &self.claim {
            Some(c) => accountable.carries(&c.name, &c.value) || match &identity.message {
                Some(m) => m.carries(&c.name, &c.value),
                None => false,
            },
            None => true,
        };
        mechanism && party && claim
    }

    fn what(&self, attempt: &Attempt) -> (r: bool)
        ensures
            r == self.spec_what(*attempt),
    {
        match self.action {
            Some(a) => a == attempt.action,
            None => true,
        }
    }

    fn place(&self, attempt: &Attempt) -> (r: bool)
        ensures
            r == self.spec_place(*attempt),
    {
        let artifact = match &self.artifact {
            Some(pattern) => matches_pattern(pattern.as_str(), attempt.artifact.as_str()),
            None => true,
        };
        let location = match &self.location {
            Some(pattern) => attempt.action != Action::Process && matches_pattern(
                pattern.as_str(),
                attempt.artifact.as_str(),
            ),
            None => true,
        };
        artifact && location
    }
}

} // verus!
