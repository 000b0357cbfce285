use authorize_policy::{
    Action, Attempt, AuthenticatedIdentity, Claim, Effect, IdentityFacts, PartyId, Statement,
};

fn partner() -> IdentityFacts {
    IdentityFacts::new(
        AuthenticatedIdentity::new("mutual-tls")
            .resolving_to(PartyId::new(7))
            .with_evidence("department", "edi"),
        None,
    )
}

fn statement(name: &str, effect: Effect) -> Statement {
    Statement {
        name: name.to_string(),
        effect,
        mechanism: None,
        party: None,
        claim: None,
        action: None,
        artifact: None,
        location: None,
    }
}

fn claim(name: &str, value: &str) -> Option<Claim> {
    Some(Claim { name: name.to_string(), value: value.to_string() })
}

#[test]
fn every_key_that_is_there_must_match_and_a_key_left_out_matches_everything() {
    let mut narrow = statement("partners-receive", Effect::Permit);
    narrow.mechanism = Some("mutual-tls".to_string());
    narrow.party = PartyId::parse("00000000-0000-0000-0000-000000000007");
    narrow.claim = claim("department", "edi");
    narrow.action = Some(Action::Receive);
    narrow.location = Some("partner-*".to_string());
    let wide = statement("everything", Effect::Deny);

    assert!(narrow.applies(&partner(), &Attempt::new(Action::Receive, "partner-x")));
    assert!(!narrow.applies(&partner(), &Attempt::new(Action::Send, "partner-x")));
    assert!(!narrow.applies(&partner(), &Attempt::new(Action::Receive, "Billing")));
    assert!(wide.applies(&partner(), &Attempt::new(Action::Process, "Approval")));
    assert_eq!(wide.effect, Effect::Deny);
}

#[test]
fn who_is_the_mechanism_the_party_and_a_claim() {
    let mut other_party = statement("a", Effect::Permit);
    other_party.party = PartyId::parse("00000000-0000-0000-0000-000000000008");
    let mut other_mechanism = statement("b", Effect::Permit);
    other_mechanism.mechanism = Some("jwt".to_string());
    let mut other_claim = statement("c", Effect::Permit);
    other_claim.claim = claim("department", "hr");
    let attempt = Attempt::new(Action::Receive, "partner-x");

    assert!(!other_party.applies(&partner(), &attempt));
    assert!(!other_mechanism.applies(&partner(), &attempt));
    assert!(!other_claim.applies(&partner(), &attempt));
}

#[test]
fn an_artifact_is_exact_or_a_prefix_and_a_process_is_not_a_location() {
    let mut exact = statement("a", Effect::Permit);
    exact.artifact = Some("Billing".to_string());
    let mut under = statement("b", Effect::Permit);
    under.location = Some("Billing*".to_string());

    assert!(exact.applies(&partner(), &Attempt::new(Action::Process, "Billing")));
    assert!(!exact.applies(&partner(), &Attempt::new(Action::Process, "Billing-EU")));
    assert!(under.applies(&partner(), &Attempt::new(Action::Send, "Billing-EU")));
    assert!(!under.applies(&partner(), &Attempt::new(Action::Process, "Billing-EU")));
}

#[test]
fn a_claim_carried_by_the_message_identity_counts_too() {
    let mut s = statement("c", Effect::Permit);
    s.claim = claim("scope", "invoices");
    let carried = IdentityFacts::new(
        AuthenticatedIdentity::new("mutual-tls"),
        Some(AuthenticatedIdentity::new("jwt").with_evidence("scope", "invoices")),
    );
    let attempt = Attempt::new(Action::Send, "Billing");
    assert!(s.applies(&carried, &attempt));
    assert!(!s.applies(&partner(), &attempt));
    // The name and the value must both match.
    let mut other_value = statement("v", Effect::Permit);
    other_value.claim = claim("scope", "orders");
    assert!(!other_value.applies(&carried, &attempt));
    // The mechanism and the Party are the accountable identity's only.
    let mut m = statement("m", Effect::Permit);
    m.mechanism = Some("jwt".to_string());
    assert!(!m.applies(&carried, &attempt));
}

#[test]
fn a_party_names_only_a_resolved_identity() {
    let mut s = statement("p", Effect::Permit);
    s.party = Some(PartyId::new(7));
    let unresolved = IdentityFacts::new(AuthenticatedIdentity::new("mutual-tls"), None);
    let attempt = Attempt::new(Action::Send, "Billing");
    assert!(!s.applies(&unresolved, &attempt));
    assert!(s.applies(&partner(), &attempt));
}

#[test]
fn a_statement_of_nothing_but_name_and_effect_applies_to_every_attempt() {
    let wide = statement("w", Effect::Permit);
    let nobody = IdentityFacts::new(AuthenticatedIdentity::new(""), None);
    for action in [Action::Receive, Action::Process, Action::Send] {
        assert!(wide.applies(&nobody, &Attempt::new(action, "")));
        assert!(wide.applies(&partner(), &Attempt::new(action, "anything")));
    }
}

#[test]
fn what_is_the_action_named() {
    let mut s = statement("w", Effect::Permit);
    s.action = Some(Action::Process);
    assert!(s.applies(&partner(), &Attempt::new(Action::Process, "Approval")));
    assert!(!s.applies(&partner(), &Attempt::new(Action::Send, "Approval")));
    assert!(!s.applies(&partner(), &Attempt::new(Action::Receive, "Approval")));
}

#[test]
fn a_location_never_applies_to_a_process() {
    let mut s = statement("l", Effect::Deny);
    s.location = Some("*".to_string());
    assert!(!s.applies(&partner(), &Attempt::new(Action::Process, "Billing")));
    assert!(s.applies(&partner(), &Attempt::new(Action::Receive, "Billing")));
}

#[test]
fn a_statement_clones_to_itself() {
    let mut s = statement("n", Effect::Deny);
    s.mechanism = Some("jwt".to_string());
    s.party = Some(PartyId::new(11));
    s.claim = claim("x", "y");
    s.action = Some(Action::Process);
    s.artifact = Some("A*".to_string());
    s.location = Some("L".to_string());
    assert_eq!(s.clone(), s);
}
