//! What holds of the policy as a whole, over every document, identity and
//! attempt.
use vstd::prelude::*;

use crate::access::{action_of, Action, Attempt, AuthenticatedIdentity, IdentityFacts};
use crate::party::{hex_digit_value, is_party_text, party_of_text, hex_value};
use crate::pattern::pattern_matches;
use crate::statement::{Claim, Effect, Statement};
use crate::text::is_blank;
use crate::{denies_at, first_name_refusal, has_opinion, is_denied, load_outcome, names_are_sound};

verus! {

/// Deny wins wherever the denying statement stands: whether the policy has an
/// opinion, and whether it denies, depend on which statements the document
/// holds and not on their order.
pub proof fn law_order_does_not_decide(
    s1: Seq<Statement>,
    s2: Seq<Statement>,
    identity: IdentityFacts,
    attempt: Attempt,
)
    requires
        forall|x: Statement| s1.contains(x) <==> s2.contains(x),
    ensures
        has_opinion(s1, identity, attempt) == has_opinion(s2, identity, attempt),
        is_denied(s1, identity, attempt) == is_denied(s2, identity, attempt),
{
    assert forall|a: Seq<Statement>, b: Seq<Statement>|
        (forall|x: Statement| a.contains(x) ==> b.contains(x)) implies (has_opinion(
        a,
        identity,
        attempt,
    ) ==> has_opinion(b, identity, attempt)) && (is_denied(a, identity, attempt) ==> is_denied(
        b,
        identity,
        attempt,
    )) by {
        if has_opinion(a, identity, attempt) {
            let i = choose|i: int|
                0 <= i < a.len() && (#[trigger] a[i]).spec_applies(identity, attempt);
            assert(a.contains(a[i]));
            let k = choose|k: int| 0 <= k < b.len() && b[k] == a[i];
            assert(b[k].spec_applies(identity, attempt));
        }
        if is_denied(a, identity, attempt) {
            let i = choose|i: int| #[trigger] denies_at(a, identity, attempt, i);
            assert(a.contains(a[i]));
            let k = choose|k: int| 0 <= k < b.len() && b[k] == a[i];
            assert(denies_at(b, identity, attempt, k));
        }
    }
}

/// However many statements are added, before or after, a document that
/// denies an attempt still denies it, and one that has an opinion still has
/// one.
pub proof fn law_more_statements_never_lift_a_denial(
    s: Seq<Statement>,
    t: Seq<Statement>,
    identity: IdentityFacts,
    attempt: Attempt,
)
    ensures
        is_denied(s, identity, attempt) ==> is_denied(s + t, identity, attempt) && is_denied(
            t + s,
            identity,
            attempt,
        ),
        has_opinion(s, identity, attempt) ==> has_opinion(s + t, identity, attempt)
            && has_opinion(t + s, identity, attempt),
{
    if is_denied(s, identity, attempt) {
        let i = choose|i: int| #[trigger] denies_at(s, identity, attempt, i);
        assert((s + t)[i] == s[i]);
        assert(denies_at(s + t, identity, attempt, i));
        assert((t + s)[t.len() + i] == s[i]);
        assert(denies_at(t + s, identity, attempt, t.len() + i));
    }
    if has_opinion(s, identity, attempt) {
        let i = choose|i: int| 0 <= i < s.len() && (#[trigger] s[i]).spec_applies(identity, attempt);
        assert((s + t)[i] == s[i]);
        assert((t + s)[t.len() + i] == s[i]);
    }
}

/// A key left out applies to everything: a statement with nothing but a
/// name and an effect applies to every identity and every attempt.
pub proof fn law_a_key_left_out_applies_to_everything(
    statement: Statement,
    identity: IdentityFacts,
    attempt: Attempt,
)
    requires
        statement.mechanism is None,
        statement.party is None,
        statement.claim is None,
        statement.action is None,
        statement.artifact is None,
        statement.location is None,
    ensures
        statement.spec_applies(identity, attempt),
{
}

/// An Xmip Process is not a Location: a statement that names a Location never
/// applies to an attempt that processes.
pub proof fn law_a_process_is_not_a_location(
    statement: Statement,
    identity: IdentityFacts,
    attempt: Attempt,
)
    requires
        statement.location is Some,
        attempt.action == Action::Process,
    ensures
        !statement.spec_applies(identity, attempt),
{
}

/// A denial names one statement: in a document whose names are sound (as
/// every loaded document's are), no other statement carries the name of a
/// statement that denies.
pub proof fn law_a_denial_names_one_statement(
    s: Seq<Statement>,
    identity: IdentityFacts,
    attempt: Attempt,
    i: int,
    j: int,
)
    requires
        names_are_sound(s),
        denies_at(s, identity, attempt, i),
        0 <= j < s.len(),
        s[j].name@ == s[i].name@,
    ensures
        i == j,
{
    if i < j {
        assert(s[i].name@ != s[j].name@);
    } else if j < i {
        assert(s[j].name@ != s[i].name@);
    }
}

/// Every action's word reads back as that action.
pub proof fn law_an_action_reads_back_from_its_word(action: Action)
    ensures
        action_of(action.spec_word()) == Some(action),
{
    reveal_strlit("receive");
    reveal_strlit("process");
    reveal_strlit("send");
    assert("receive"@[0] != "process"@[0]);
    assert("receive"@.len() != "send"@.len());
    assert("process"@.len() != "send"@.len());
}

/// A pattern that ends in `*` matches every name that starts with what comes
/// before the `*`.
pub proof fn law_a_prefix_pattern_matches_every_name_under_it(
    prefix: Seq<char>,
    rest: Seq<char>,
)
    ensures
        pattern_matches(prefix.push('*'), prefix + rest),
{
    assert(prefix.push('*').drop_last() =~= prefix);
    assert((prefix + rest).subrange(0, prefix.len() as int) =~= prefix);
}

/// A pattern that does not end in `*` matches only the name it spells.
pub proof fn law_a_plain_pattern_matches_only_itself(pattern: Seq<char>, name: Seq<char>)
    requires
        pattern.len() == 0 || pattern.last() != '*',
    ensures
        pattern_matches(pattern, name) <==> pattern == name,
{
}

/// An attempt is allowed only on the word of a permitting statement that
/// applies: where the policy has an opinion and does not deny, some statement
/// that applies permits.
pub proof fn law_an_allowance_rests_on_a_permit(
    s: Seq<Statement>,
    identity: IdentityFacts,
    attempt: Attempt,
)
    requires
        has_opinion(s, identity, attempt),
        !is_denied(s, identity, attempt),
    ensures
        exists|i: int|
            0 <= i < s.len() && (#[trigger] s[i]).spec_applies(identity, attempt) && s[i].effect
                == Effect::Permit,
{
    let i = choose|i: int| 0 <= i < s.len() && (#[trigger] s[i]).spec_applies(identity, attempt);
    assert(!denies_at(s, identity, attempt, i));
}

/// The identities that may carry a claim: the accountable one, then the one
/// the message carries, if any.
pub open spec fn claim_holders(identity: IdentityFacts) -> Seq<AuthenticatedIdentity> {
    seq![identity.accountable] + match identity.message {
        Some(m) => seq![m],
        None => Seq::<AuthenticatedIdentity>::empty(),
    }
}

/// Who a statement applies to: the accountable identity was proven by the
/// mechanism it names and resolved to the Party it names, and one of the
/// identities carries the claim it names, evidence name and value alike;
/// each only where the statement names one.
pub proof fn law_who_is_the_mechanism_the_party_and_a_claim(
    statement: Statement,
    identity: IdentityFacts,
)
    ensures
        statement.spec_who(identity) == ({
            &&& (statement.mechanism matches Some(m) ==> identity.accountable.mechanism@ == m@)
            &&& (statement.party matches Some(p) ==> identity.accountable.party_id == Some(p))
            &&& (statement.claim matches Some(c) ==> exists|h: int, k: int|
                0 <= h < claim_holders(identity).len() && 0 <= k < claim_holders(
                    identity,
                )[h].evidence@.len() && (#[trigger] claim_holders(identity)[h].evidence@[k]).0@
                    == c.name@ && claim_holders(identity)[h].evidence@[k].1@ == c.value@)
        }),
{
    let holders = claim_holders(identity);
    assert(holders[0] == identity.accountable);
    if let Some(m) = identity.message {
        assert(holders.len() == 2 && holders[1] == m);
    } else {
        assert(holders.len() == 1);
    }
    if let Some(c) = statement.claim {
        if identity.spec_carries(c.name@, c.value@) {
            if identity.accountable.spec_carries(c.name@, c.value@) {
                let k = choose|k: int|
                    0 <= k < identity.accountable.evidence@.len()
                        && (#[trigger] identity.accountable.evidence@[k]).0@ == c.name@
                        && identity.accountable.evidence@[k].1@ == c.value@;
                assert(holders[0].evidence@[k] == identity.accountable.evidence@[k]);
            } else {
                let m = identity.message->0;
                let k = choose|k: int|
                    0 <= k < m.evidence@.len() && (#[trigger] m.evidence@[k]).0@ == c.name@
                        && m.evidence@[k].1@ == c.value@;
                assert(holders[1].evidence@[k] == m.evidence@[k]);
            }
        }
        if exists|h: int, k: int|
            0 <= h < holders.len() && 0 <= k < holders[h].evidence@.len()
                && (#[trigger] holders[h].evidence@[k]).0@ == c.name@
                && holders[h].evidence@[k].1@ == c.value@ {
            let (h, k) = choose|h: int, k: int|
                0 <= h < holders.len() && 0 <= k < holders[h].evidence@.len()
                    && (#[trigger] holders[h].evidence@[k]).0@ == c.name@
                    && holders[h].evidence@[k].1@ == c.value@;
            if h == 0 {
                assert(identity.accountable.evidence@[k] == holders[h].evidence@[k]);
                assert(identity.accountable.spec_carries(c.name@, c.value@));
            } else {
                let m = identity.message->0;
                assert(m.evidence@[k] == holders[h].evidence@[k]);
                assert(m.spec_carries(c.name@, c.value@));
            }
        }
    }
}

/// A statement that names no mechanism, no Party and no claim applies to
/// every identity.
pub proof fn law_no_who_key_excludes_any_identity(statement: Statement, identity: IdentityFacts)
    requires
        statement.mechanism is None,
        statement.party is None,
        statement.claim is None,
    ensures
        statement.spec_who(identity),
{
}

/// What a statement applies to: any action where it names none, else the
/// action it names.
pub proof fn law_what_is_the_action(statement: Statement, attempt: Attempt)
    ensures
        statement.spec_what(attempt) == (statement.action is None || statement.action == Some(
            attempt.action,
        )),
{
}

/// Where a statement applies: the attempt's artifact matches the artifact
/// pattern, where there is one, and the location pattern, where there is one,
/// and then only for an attempt that is not a Process.
pub proof fn law_where_is_the_artifact_and_the_location(statement: Statement, attempt: Attempt)
    ensures
        statement.spec_place(attempt) == ({
            &&& (statement.artifact is None || pattern_matches(
                statement.artifact->0@,
                attempt.artifact@,
            ))
            &&& (statement.location is None || (attempt.action != Action::Process
                && pattern_matches(statement.location->0@, attempt.artifact@)))
        }),
{
}

/// An artifact pattern on its own is a name, or every name under a prefix
/// when it ends in `*`.
pub proof fn law_an_artifact_is_a_name_or_a_prefix(statement: Statement, attempt: Attempt)
    requires
        statement.location is None,
        statement.artifact is Some,
    ensures
        ({
            let p = statement.artifact->0@;
            statement.spec_place(attempt) == if p.len() > 0 && p.last() == '*' {
                p.drop_last().is_prefix_of(attempt.artifact@)
            } else {
                attempt.artifact@ == p
            }
        }),
{
}

/// Whether `name` matches `pattern`, character by character: with a final
/// `*`, every character before it is the name's character at that place;
/// otherwise the two are the same length and agree everywhere.
pub open spec fn spelled_match(pattern: Seq<char>, name: Seq<char>) -> bool {
    if pattern.len() > 0 && pattern[pattern.len() - 1] == '*' {
        &&& pattern.len() - 1 <= name.len()
        &&& forall|k: int| 0 <= k < pattern.len() - 1 ==> pattern[k] == name[k]
    } else {
        &&& pattern.len() == name.len()
        &&& forall|k: int| 0 <= k < pattern.len() ==> pattern[k] == name[k]
    }
}

proof fn lemma_pattern_matches_is_spelled(pattern: Seq<char>, name: Seq<char>)
    ensures
        pattern_matches(pattern, name) == spelled_match(pattern, name),
{
    if pattern.len() > 0 && pattern[pattern.len() - 1] == '*' {
        let p = pattern.drop_last();
        if spelled_match(pattern, name) {
            assert(p =~= name.subrange(0, p.len() as int));
        }
        if pattern_matches(pattern, name) {
            assert forall|k: int| 0 <= k < pattern.len() - 1 implies pattern[k] == name[k] by {
                assert(p[k] == name.subrange(0, p.len() as int)[k]);
            }
        }
    } else {
        if spelled_match(pattern, name) {
            assert(pattern =~= name);
        }
    }
}

/// A statement applies to an identity attempting an action on an artifact
/// exactly when every key it names matches, whatever its effect:
/// - the mechanism named is the one the accountable identity was proven by;
/// - the Party named is the one the accountable identity resolved to;
/// - the claim named, name and value, is evidence that the accountable
///   identity or the message's identity carries;
/// - the action named is the attempt's;
/// - the artifact pattern named matches the attempt's artifact;
/// - the location pattern named matches it too, and the attempt is not a
///   Process.
pub proof fn law_a_statement_applies_exactly_when_every_key_it_names_matches(
    statement: Statement,
    identity: IdentityFacts,
    attempt: Attempt,
)
    ensures
        statement.spec_applies(identity, attempt) == ({
            &&& (statement.mechanism is None || statement.mechanism->0@
                == identity.accountable.mechanism@)
            &&& (statement.party is None || identity.accountable.party_id == statement.party)
            &&& (statement.claim is None || exists|h: int, k: int|
                0 <= h < claim_holders(identity).len() && 0 <= k < claim_holders(
                    identity,
                )[h].evidence@.len() && (#[trigger] claim_holders(identity)[h].evidence@[k]).0@
                    == statement.claim->0.name@ && claim_holders(identity)[h].evidence@[k].1@
                    == statement.claim->0.value@)
            &&& (statement.action is None || statement.action == Some(attempt.action))
            &&& (statement.artifact is None || spelled_match(
                statement.artifact->0@,
                attempt.artifact@,
            ))
            &&& (statement.location is None || (attempt.action != Action::Process
                && spelled_match(statement.location->0@, attempt.artifact@)))
        }),
{
    law_who_is_the_mechanism_the_party_and_a_claim(statement, identity);
    if let Some(p) = statement.artifact {
        lemma_pattern_matches_is_spelled(p@, attempt.artifact@);
    }
    if let Some(p) = statement.location {
        lemma_pattern_matches_is_spelled(p@, attempt.artifact@);
    }
}

/// The effect never decides whether a statement applies: two statements
/// that differ in their effect alone apply to the same identities and
/// attempts.
pub proof fn law_the_effect_never_decides_whether_a_statement_applies(
    permit: Statement,
    deny: Statement,
    identity: IdentityFacts,
    attempt: Attempt,
)
    requires
        permit.name == deny.name,
        permit.mechanism == deny.mechanism,
        permit.party == deny.party,
        permit.claim == deny.claim,
        permit.action == deny.action,
        permit.artifact == deny.artifact,
        permit.location == deny.location,
    ensures
        permit.spec_applies(identity, attempt) == deny.spec_applies(identity, attempt),
{
    law_a_statement_applies_exactly_when_every_key_it_names_matches(permit, identity, attempt);
    law_a_statement_applies_exactly_when_every_key_it_names_matches(deny, identity, attempt);
}

/// A statement that names an action applies to no attempt of another action,
/// and one that names a mechanism to no identity proven by another.
pub proof fn law_a_key_that_does_not_match_excludes(
    statement: Statement,
    identity: IdentityFacts,
    attempt: Attempt,
)
    ensures
        statement.action is Some && statement.action->0 != attempt.action ==> !statement.spec_applies(
            identity,
            attempt,
        ),
        statement.mechanism is Some && statement.mechanism->0@ != identity.accountable.mechanism@
            ==> !statement.spec_applies(identity, attempt),
        statement.party is Some && identity.accountable.party_id != statement.party
            ==> !statement.spec_applies(identity, attempt),
{
    law_a_statement_applies_exactly_when_every_key_it_names_matches(statement, identity, attempt);
}

/// Each of the three words names the action it spells, and each action is
/// written as its own word.
pub proof fn law_each_word_names_the_action_it_spells()
    ensures
        action_of("receive"@) == Some(Action::Receive),
        action_of("process"@) == Some(Action::Process),
        action_of("send"@) == Some(Action::Send),
        Action::Receive.spec_word() == "receive"@,
        Action::Process.spec_word() == "process"@,
        Action::Send.spec_word() == "send"@,
        action_of(seq!['r', 'e', 'c', 'e', 'i', 'v', 'e']) == Some(Action::Receive),
        action_of(seq!['p', 'r', 'o', 'c', 'e', 's', 's']) == Some(Action::Process),
        action_of(seq!['s', 'e', 'n', 'd']) == Some(Action::Send),
{
    reveal_strlit("receive");
    reveal_strlit("process");
    reveal_strlit("send");
    assert("receive"@ =~= seq!['r', 'e', 'c', 'e', 'i', 'v', 'e']);
    assert("process"@ =~= seq!['p', 'r', 'o', 'c', 'e', 's', 's']);
    assert("send"@ =~= seq!['s', 'e', 'n', 'd']);
    assert("receive"@[0] != "process"@[0]);
    assert("receive"@.len() != "send"@.len());
    assert("process"@.len() != "send"@.len());
}

proof fn lemma_sound_names_are_not_refused(ts: Seq<Statement>, i: int)
    requires
        names_are_sound(ts),
        0 <= i,
    ensures
        first_name_refusal(ts, i) is None,
    decreases ts.len() - i,
{
    if i < ts.len() {
        assert(!is_blank(ts[i].name@));
        assert(!exists|j: int| 0 <= j < i && (#[trigger] ts[j]).name@ == ts[i].name@);
        lemma_sound_names_are_not_refused(ts, i + 1);
    }
}

proof fn lemma_unrefused_names_are_sound(ts: Seq<Statement>, i: int)
    requires
        first_name_refusal(ts, i) is None,
        0 <= i,
    ensures
        forall|k: int| i <= k < ts.len() ==> !is_blank(#[trigger] ts[k].name@),
        forall|j: int, k: int|
            0 <= j < k < ts.len() && i <= k ==> (#[trigger] ts[j]).name@ != (#[trigger] ts[k]).name@,
    decreases ts.len() - i,
{
    if i < ts.len() {
        lemma_unrefused_names_are_sound(ts, i + 1);
        assert forall|j: int| 0 <= j < i implies (#[trigger] ts[j]).name@ != ts[i].name@ by {}
    }
}

/// Load refuses nothing but blank and repeated names: it gives back the
/// statements themselves, unchanged and in order, exactly when no name is
/// blank and no two names are the same.
pub proof fn law_load_refuses_only_blank_or_repeated_names(ts: Seq<Statement>)
    ensures
        names_are_sound(ts) ==> load_outcome(ts) == Ok::<Seq<Statement>, Seq<char>>(ts),
        load_outcome(ts) is Ok <==> names_are_sound(ts),
{
    if names_are_sound(ts) {
        lemma_sound_names_are_not_refused(ts, 0);
    }
    if load_outcome(ts) is Ok {
        lemma_unrefused_names_are_sound(ts, 0);
    }
}

/// A name with a visible ASCII character anywhere in it (`!` to `~`, letters,
/// digits and punctuation) is not blank, whatever spaces it also holds.
pub proof fn law_a_name_with_a_visible_character_is_not_blank(name: Seq<char>, k: int)
    requires
        0 <= k < name.len(),
        0x21 <= name[k] as u32 <= 0x7E,
    ensures
        !is_blank(name),
{
    assert(!crate::text::is_white_space(name[k]));
}

/// The ASCII lowercase of a character; any other character is itself.
pub open spec fn ascii_lowercase(c: char) -> char {
    if 'A' <= c <= 'Z' {
        ((c as u32) + 32) as char
    } else {
        c
    }
}

/// The hexadecimal digits are `0`–`9`, `a`–`f` and `A`–`F`, with the values
/// that they have in either case.
pub proof fn law_hex_digits_in_either_case(c: char)
    ensures
        '0' <= c <= '9' ==> hex_digit_value(c) == Some((c as u32 - 0x30) as nat),
        'a' <= c <= 'f' ==> hex_digit_value(c) == Some((c as u32 - 0x61 + 10) as nat),
        'A' <= c <= 'F' ==> hex_digit_value(c) == Some((c as u32 - 0x41 + 10) as nat),
        hex_digit_value(c) is Some <==> ('0' <= c <= '9' || 'a' <= c <= 'f' || 'A' <= c <= 'F'),
        hex_digit_value(ascii_lowercase(c)) == hex_digit_value(c),
{
}

proof fn lemma_hex_value_ignores_case(s: Seq<char>)
    ensures
        hex_value(s.map_values(|c: char| ascii_lowercase(c))) == hex_value(s),
    decreases s.len(),
{
    let t = s.map_values(|c: char| ascii_lowercase(c));
    if s.len() > 0 {
        assert(t.drop_last() =~= s.drop_last().map_values(|c: char| ascii_lowercase(c)));
        lemma_hex_value_ignores_case(s.drop_last());
        law_hex_digits_in_either_case(s.last());
        assert(t.last() == ascii_lowercase(s.last()));
    }
}

/// A Party's text is read alike in either case: a text and its lowercase
/// name the same Party, or both name none.
pub proof fn law_a_party_text_reads_alike_in_either_case(s: Seq<char>)
    ensures
        party_of_text(s.map_values(|c: char| ascii_lowercase(c))) == party_of_text(s),
{
    let t = s.map_values(|c: char| ascii_lowercase(c));
    lemma_hex_value_ignores_case(s);
    assert forall|i: int| 0 <= i < s.len() implies hex_digit_value(#[trigger] t[i])
        == hex_digit_value(s[i]) && (t[i] == '-' <==> s[i] == '-') by {
        law_hex_digits_in_either_case(s[i]);
    }
    if is_party_text(s) {
        assert forall|i: int| 0 <= i < 36 implies (if crate::party::is_hyphen_position(i) {
            t[i] == '-'
        } else {
            hex_digit_value(#[trigger] t[i]) is Some
        }) by {
            assert(hex_digit_value(t[i]) == hex_digit_value(s[i]));
        }
    }
    if is_party_text(t) {
        assert forall|i: int| 0 <= i < 36 implies (if crate::party::is_hyphen_position(i) {
            s[i] == '-'
        } else {
            hex_digit_value(#[trigger] s[i]) is Some
        }) by {
            assert(hex_digit_value(t[i]) == hex_digit_value(s[i]));
        }
    }
}

} // verus!
