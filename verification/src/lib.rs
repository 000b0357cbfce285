//! The policy authorize technology.
//!
//! One policy at the transport layer: a declarative policy document. The
//! [`Document`] is a list of [`Statement`]s, each with an effect — permit or
//! deny — and what it applies to: who (the mechanism, the Party, a claim),
//! what (the action) and where (the artifact or the Location, by name or by
//! prefix).
//!
//! The document is read once, at load, and read strictly: a statement with an
//! empty name is refused, and so are two statements with one name. At the
//! gate, deny wins: any denying statement that applies refuses the attempt,
//! naming the statement, however many others permit; failing that, a
//! permitting statement that applies allows; where no statement applies the
//! policy has no opinion and the question is the next policy's.
use vstd::prelude::*;

pub mod access;
pub mod laws;
pub mod party;
pub mod pattern;
pub mod statement;
pub mod text;

pub use access::{Action, Attempt, AuthenticatedIdentity, AuthorizeError, Decision, IdentityFacts, Layer};
pub use party::PartyId;
pub use statement::{Claim, Effect, Statement};

use text::{blank, decimal, is_blank, push_decimal};

verus! {

broadcast use vstd::string::group_string_axioms;

/// The manifest leaf, and the name a denial carries.
pub const NAME: &'static str = "policy";

/// Statements whose names are not blank and not repeated.
pub open spec fn names_are_sound(s: Seq<Statement>) -> bool {
    &&& forall|i: int| 0 <= i < s.len() ==> !is_blank(#[trigger] s[i].name@)
    &&& forall|i: int, j: int|
        0 <= i < j < s.len() ==> (#[trigger] s[i]).name@ != (#[trigger] s[j]).name@
}

/// Why the statement at `i` (counted from one in the message) has an empty
/// name.
pub open spec fn empty_name_refusal(i: int) -> Seq<char> {
    "statement "@ + decimal((i + 1) as nat) + " has an empty name"@
}

/// Why a name that two statements carry is refused.
pub open spec fn repeated_name_refusal(name: Seq<char>) -> Seq<char> {
    "two statements are named '"@ + name + "'"@
}

/// The first name, from index `i` on, that is blank or carried by an earlier
/// statement, and why.
pub open spec fn first_name_refusal(ts: Seq<Statement>, i: int) -> Option<Seq<char>>
    decreases ts.len() - i,
{
    if i < 0 || i >= ts.len() {
        None
    } else if is_blank(ts[i].name@) {
        Some(empty_name_refusal(i))
    } else if exists|j: int| 0 <= j < i && (#[trigger] ts[j]).name@ == ts[i].name@ {
        Some(repeated_name_refusal(ts[i].name@))
    } else {
        first_name_refusal(ts, i + 1)
    }
}

/// How every refusal at load reads.
pub open spec fn load_refusal(why: Seq<char>) -> Seq<char> {
    "the policy document is refused: "@ + why
}

/// What loading the statements `ts` gives: the first name refused, if any;
/// else the statements, in order.
pub open spec fn load_outcome(ts: Seq<Statement>) -> Result<Seq<Statement>, Seq<char>> {
    match first_name_refusal(ts, 0) {
        Some(why) => Err(load_refusal(why)),
        None => Ok(ts),
    }
}

/// Whether the statement at `i` applies and denies.
pub open spec fn denies_at(s: Seq<Statement>, identity: IdentityFacts, attempt: Attempt, i: int) -> bool {
    0 <= i < s.len() && s[i].spec_applies(identity, attempt) && s[i].effect == Effect::Deny
}

/// Whether some statement applies: the policy has an opinion.
pub open spec fn has_opinion(s: Seq<Statement>, identity: IdentityFacts, attempt: Attempt) -> bool {
    exists|i: int| 0 <= i < s.len() && (#[trigger] s[i]).spec_applies(identity, attempt)
}

/// Whether some statement that applies denies.
pub open spec fn is_denied(s: Seq<Statement>, identity: IdentityFacts, attempt: Attempt) -> bool {
    exists|i: int| #[trigger] denies_at(s, identity, attempt, i)
}

/// The reason a denial by the statement named `name` gives.
pub open spec fn denial_reason(name: Seq<char>, attempt: Attempt) -> Seq<char> {
    "statement '"@ + name + "' denies "@ + attempt.action.spec_word() + " on '"@
        + attempt.artifact@ + "'"@
}

/// A policy document, loaded.
#[derive(Debug, PartialEq, Eq)]
pub struct Document {
    statements: Vec<Statement>,
}

impl View for Document {
    type V = Seq<Statement>;

    closed spec fn view(&self) -> Seq<Statement> {
        self.statements@
    }
}

impl Default for Document {
    /// The empty document, which has no opinion on anything.
    fn default() -> (d: Document)
        ensures
            d@ == Seq::<Statement>::empty(),
    {
        Document { statements: Vec::new() }
    }
}

impl Clone for Document {
    fn clone(&self) -> (d: Document)
        ensures
            d@ == self@,
    {
        proof {
            use_type_invariant(self);
        }
        let mut statements: Vec<Statement> = Vec::new();
        let mut i: usize = 0;
        while i < self.statements.len()
            invariant
                0 <= i <= self.statements@.len(),
                statements@ == self.statements@.take(i as int),
            decreases self.statements@.len() - i,
        {
            statements.push(self.statements[i].clone());
            assert(statements@ =~= self.statements@.take(i + 1));
            i = i + 1;
        }
        assert(statements@ =~= self.statements@);
        Document { statements }
    }
}

impl Document {
    #[verifier::type_invariant]
    closed spec fn well_formed(self) -> bool {
        names_are_sound(self.statements@)
    }

    /// Load a document from its statements, as the document reads.
    ///
    /// # Errors
    ///
    /// Refuses a statement with an empty name, and two statements with one
    /// name, since a denial names the statement and must name one.
    pub fn load(statements: Vec<Statement>) -> (r: Result<Document, AuthorizeError>)
        ensures
            match r {
                Ok(d) => load_outcome(statements@) == Ok::<Seq<Statement>, Seq<char>>(d@)
                    && names_are_sound(d@),
                Err(e) => load_outcome(statements@) == Err::<Seq<Statement>, Seq<char>>(
                    e.message@,
                ),
            },
    {
        let n = statements.len();
        let mut i: usize = 0;
        while i < n
            invariant
                n == statements@.len(),
                0 <= i <= n,
                first_name_refusal(statements@, 0) == first_name_refusal(statements@, i as int),
                forall|j: int| 0 <= j < i ==> !is_blank(#[trigger] statements@[j].name@),
                forall|j: int, k: int|
                    0 <= j < k < i ==> (#[trigger] statements@[j]).name@ != (
                    #[trigger] statements@[k]).name@,
            decreases n - i,
        {
            if blank(statements[i].name.as_str()) {
                let mut message = String::from_str("the policy document is refused: ");
                message.append("statement ");
                push_decimal(&mut message, i + 1);
                message.append(" has an empty name");
                assert(message@ =~= load_refusal(empty_name_refusal(i as int)));
                return Err(AuthorizeError::new(message));
            }
            let mut j: usize = 0;
            while j < i
                invariant
                    n == statements@.len(),
                    0 <= j <= i < n,
                    first_name_refusal(statements@, 0) == first_name_refusal(
                        statements@,
                        i as int,
                    ),
                    !is_blank(statements@[i as int].name@),
                    forall|k: int|
                        0 <= k < j ==> (#[trigger] statements@[k]).name@
                            != statements@[i as int].name@,
                decreases i - j,
            {
                if statements[j].name == statements[i].name {
                    let mut message = String::from_str("the policy document is refused: ");
                    message.append("two statements are named '");
                    message.append(statements[i].name.as_str());
                    message.append("'");
                    assert(message@ =~= load_refusal(
                        repeated_name_refusal(statements@[i as int].name@),
                    ));
                    return Err(AuthorizeError::new(message));
                }
                j = j + 1;
            }
            i = i + 1;
        }
        Ok(Document { statements })
    }
}

impl Document {
    /// The statements, in the document's order.
    pub fn statements(&self) -> (s: &[Statement])
        ensures
            s@ == self@,
            names_are_sound(s@),
    {
        proof {
            use_type_invariant(self);
        }
        self.statements.as_slice()
    }

    /// The name of this policy, which a denial carries.
    pub fn name(&self) -> (n: &'static str)
        ensures
            n@ == NAME@,
    {
        NAME
    }

    /// The layer at which this policy decides.
    pub fn layer(&self) -> (l: Layer)
        ensures
            l == Layer::Transport,
    {
        Layer::Transport
    }

    /// The policy's decision on this identity attempting this.
    ///
    /// Deny wins: where a statement that applies denies, the attempt is
    /// refused, naming the first such statement in the document's order,
    /// however many others permit. Failing that, where a statement applies
    /// (and so permits), the attempt is allowed. Where no statement applies
    /// the policy has no opinion.
    pub fn decide(&self, identity: &IdentityFacts, attempt: &Attempt) -> (r: Option<Decision>)
        ensures
            r is None <==> !has_opinion(self@, *identity, *attempt),
            r == Some(Decision::Allowed) <==> has_opinion(self@, *identity, *attempt) && !is_denied(
                self@,
                *identity,
                *attempt,
            ),
            r matches Some(Decision::Denied { by, reason }) ==> exists|i: int|
                {
                    &&& #[trigger] denies_at(self@, *identity, *attempt, i)
                    &&& forall|j: int| 0 <= j < i ==> !denies_at(self@, *identity, *attempt, j)
                    &&& by@ == NAME@
                    &&& reason@ == denial_reason(self@[i].name@, *attempt)
                },
    {
        let n = self.statements.len();
        let mut applying = false;
        let mut i: usize = 0;
        while i < n
            invariant
                n == self@.len(),
                0 <= i <= n,
                applying == exists|j: int| 0 <= j < i && (#[trigger] self@[j]).spec_applies(*identity, *attempt),
                forall|j: int| 0 <= j < i ==> !#[trigger] denies_at(self@, *identity, *attempt, j),
            decreases n - i,
        {
            let statement = &self.statements[i];
            if statement.applies(identity, attempt) {
                applying = true;
                if statement.effect == Effect::Deny {
                    let mut reason = String::from_str("statement '");
                    reason.append(statement.name.as_str());
                    reason.append("' denies ");
                    reason.append(attempt.action.word());
                    reason.append(" on '");
                    reason.append(attempt.artifact.as_str());
                    reason.append("'");
                    let d = Decision::denied(NAME, reason);
                    assert(denies_at(self@, *identity, *attempt, i as int));
                    return Some(d);
                }
            }
            i = i + 1;
        }
        if applying {
            Some(Decision::Allowed)
        } else {
            None
        }
    }
}

} // verus!
