//! What an access point hands a policy: who is attempting (the identity facts), what
//! they attempt, and what a policy answers.
use vstd::prelude::*;

use crate::party::PartyId;
use crate::text::same_text;

verus! {

broadcast use vstd::string::group_string_axioms;

/// What an attempt does with an artifact.
#[derive(Clone, Copy, Debug, PartialEq, Eq, Structural)]
pub enum Action {
    /// Take a message in at a Location.
    Receive,
    /// Run an Xmip Process on it.
    Process,
    /// Hand a message out at a Location.
    Send,
}

impl Action {
    /// The word for the action, as a policy document writes it.
    pub open spec fn spec_word(self) -> Seq<char> {
        match self {
            Action::Receive => "receive"@,
            Action::Process => "process"@,
            Action::Send => "send"@,
        }
    }

    /// The word for the action: `receive`, `process` or `send`.
    pub fn word(&self) -> (w: &'static str)
        ensures
            w@ == self.spec_word(),
    {
        match self {
            Action::Receive => "receive",
            Action::Process => "process",
            Action::Send => "send",
        }
    }
}

/// The action that a word names, if it names one.
pub open spec fn action_of(word: Seq<char>) -> Option<Action> {
    if word == "receive"@ {
        Some(Action::Receive)
    } else if word == "process"@ {
        Some(Action::Process)
    } else if word == "send"@ {
        Some(Action::Send)
    } else {
        None
    }
}

/// Reads an action's word; `None` for any other word.
pub fn parse_action(word: &str) -> (r: Option<Action>)
    ensures
        r == action_of(word@),
{
    if same_text(word, "receive") {
        Some(Action::Receive)
    } else if same_text(word, "process") {
        Some(Action::Process)
    } else if same_text(word, "send") {
        Some(Action::Send)
    } else {
        None
    }
}

/// Why a word that names no action is refused.
pub open spec fn action_refusal(word: Seq<char>) -> Seq<char> {
    "unknown action '"@ + word + "': an action is receive, process or send"@
}

/// Why `word`, which names no action, is refused.
pub fn refuse_action(word: &str) -> (why: String)
    ensures
        why@ == action_refusal(word@),
{
    let mut why = String::from_str("unknown action '");
    why.append(word);
    why.append("': an action is receive, process or send");
    why
}

/// An attempt: an action on an artifact, named.
#[derive(Clone, Debug, PartialEq, Eq)]
pub struct Attempt {
    pub action: Action,
    /// The artifact, or the Location, acted on.
    pub artifact: String,
}

impl Attempt {
    pub fn new(action: Action, artifact: &str) -> (a: Attempt)
        ensures
            a.action == action,
            a.artifact@ == artifact@,
    {
        Attempt { action, artifact: String::from_str(artifact) }
    }
}

/// What a policy answers where it has an opinion.
#[derive(Clone, Debug, PartialEq, Eq)]
pub enum Decision {
    /// The attempt may go on.
    Allowed,
    /// The attempt is refused, by the named policy, for the reason given.
    Denied { by: String, reason: String },
}

impl Decision {
    /// A refusal by the policy `by`, for `reason`.
    pub fn denied(by: &str, reason: String) -> (d: Decision)
        ensures
            d matches Decision::Denied { by: b, reason: r } && b@ == by@ && r == reason,
    {
        Decision::Denied { by: String::from_str(by), reason }
    }

    /// How the decision reads: `allowed`, or `denied by {by}: {reason}`.
    pub open spec fn spec_message(self) -> Seq<char> {
        match self {
            Decision::Allowed => "allowed"@,
            Decision::Denied { by, reason } => "denied by "@ + by@ + ": "@ + reason@,
        }
    }

    /// How the decision reads: `allowed`, or `denied by {by}: {reason}`.
    pub fn message(&self) -> (m: String)
        ensures
            m@ == self.spec_message(),
    {
        match self {
            Decision::Allowed => String::from_str("allowed"),
            Decision::Denied { by, reason } => {
                let mut m = String::from_str("denied by ");
                m.append(by.as_str());
                m.append(": ");
                m.append(reason.as_str());
                m
            },
        }
    }
}

/// A refusal, with the words that say why.
#[derive(Clone, Debug, PartialEq, Eq)]
pub struct AuthorizeError {
    pub message: String,
}

impl AuthorizeError {
    pub fn new(message: String) -> (e: AuthorizeError)
        ensures
            e.message == message,
    {
        AuthorizeError { message }
    }
}

/// The layer at which a gate decides.
#[derive(Clone, Copy, Debug, PartialEq, Eq, Structural)]
pub enum Layer {
    /// Where a message comes in or goes out.
    Transport,
}

/// An identity as it was established: the mechanism that proved it, the
/// Party it resolved to, if any, and the evidence recorded, by name.
#[derive(Clone, Debug, PartialEq, Eq)]
pub struct AuthenticatedIdentity {
    /// The name of the mechanism that proved the identity.
    pub mechanism: String,
    pub party_id: Option<PartyId>,
    /// The evidence, as (name, value) pairs.
    pub evidence: Vec<(String, String)>,
}

impl AuthenticatedIdentity {
    /// An identity proven by the mechanism named `mechanism`, resolved to no
    /// Party and carrying no evidence.
    pub fn new(mechanism: &str) -> (a: AuthenticatedIdentity)
        ensures
            a.mechanism@ == mechanism@,
            a.party_id is None,
            a.evidence@.len() == 0,
    {
        AuthenticatedIdentity {
            mechanism: String::from_str(mechanism),
            party_id: None,
            evidence: Vec::new(),
        }
    }

    /// The same identity, resolved to `party`.
    pub fn resolving_to(self, party: PartyId) -> (a: AuthenticatedIdentity)
        ensures
            a.mechanism == self.mechanism,
            a.party_id == Some(party),
            a.evidence == self.evidence,
    {
        AuthenticatedIdentity { party_id: Some(party), ..self }
    }

    /// The same identity, with the evidence `name` = `value` recorded after
    /// what it had.
    pub fn with_evidence(self, name: &str, value: &str) -> (a: AuthenticatedIdentity)
        ensures
            a.mechanism == self.mechanism,
            a.party_id == self.party_id,
            a.evidence@.len() == self.evidence@.len() + 1,
            a.evidence@.drop_last() == self.evidence@,
            a.evidence@.last().0@ == name@,
            a.evidence@.last().1@ == value@,
    {
        let mut a = self;
        a.evidence.push((String::from_str(name), String::from_str(value)));
        a
    }

    /// Whether the identity carries the evidence `name` = `value`.
    pub open spec fn spec_carries(self, name: Seq<char>, value: Seq<char>) -> bool {
        exists|k: int|
            0 <= k < self.evidence@.len() && (#[trigger] self.evidence@[k]).0@ == name
                && self.evidence@[k].1@ == value
    }

    /// Whether the identity carries the evidence `name` = `value`.
    pub fn carries(&self, name: &String, value: &String) -> (r: bool)
        ensures
            r == self.spec_carries(name@, value@),
    {
        let mut k: usize = 0;
        while k < self.evidence.len()
            invariant
                0 <= k <= self.evidence@.len(),
                forall|j: int|
                    0 <= j < k ==> !((#[trigger] self.evidence@[j]).0@ == name@
                        && self.evidence@[j].1@ == value@),
            decreases self.evidence@.len() - k,
        {
            let held = &self.evidence[k];
            if held.0 == *name && held.1 == *value {
                return true;
            }
            k = k + 1;
        }
        false
    }
}

/// The identities behind an attempt: the accountable one, which answers for
/// it, and the one the message itself carries, if any.
#[derive(Clone, Debug, PartialEq, Eq)]
pub struct IdentityFacts {
    pub accountable: AuthenticatedIdentity,
    pub message: Option<AuthenticatedIdentity>,
}

impl IdentityFacts {
    pub fn new(accountable: AuthenticatedIdentity, message: Option<AuthenticatedIdentity>) -> (f:
        IdentityFacts)
        ensures
            f.accountable == accountable,
            f.message == message,
    {
        IdentityFacts { accountable, message }
    }

    /// The identity that answers for the attempt.
    pub fn accountable(&self) -> (a: &AuthenticatedIdentity)
        ensures
            *a == self.accountable,
    {
        &self.accountable
    }

    /// Whether either identity carries the evidence `name` = `value`.
    pub open spec fn spec_carries(self, name: Seq<char>, value: Seq<char>) -> bool {
        ||| self.accountable.spec_carries(name, value)
        ||| (self.message matches Some(m) && m.spec_carries(name, value))
    }
}

} // verus!
