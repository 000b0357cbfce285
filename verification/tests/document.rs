use authorize_policy::access::{parse_action, refuse_action};
use authorize_policy::party::refuse_party;
use authorize_policy::{
    Action, Attempt, AuthenticatedIdentity, Claim, Decision, Document, Effect, IdentityFacts,
    Layer, PartyId, Statement, NAME,
};

fn text(name: &str, effect: Effect) -> Statement {
    Statement {
        name: name.to_string(),
        effect,
        mechanism: None,
        party: None,
        claim: None,
        action: None,
        artifact: None,
        location: None,
    }
}

/// The three statements of the document the policy's own examples use.
fn document_text() -> Vec<Statement> {
    let mut partners = text("partners-receive", Effect::Permit);
    partners.mechanism = Some("mutual-tls".to_string());
    partners.action = Some(Action::Receive);
    partners.location = Some("partner-*".to_string());

    let mut party_seven = text("party-seven-sends-billing", Effect::Permit);
    party_seven.party = Some(PartyId::new(7));
    party_seven.action = Some(Action::Send);
    party_seven.artifact = Some("Billing".to_string());

    let mut contractors = text("contractors-never-send", Effect::Deny);
    contractors.claim =
        Some(Claim { name: "employment".to_string(), value: "contractor".to_string() });
    contractors.action = Some(Action::Send);

    vec![partners, party_seven, contractors]
}

fn partner(employment: &str) -> IdentityFacts {
    IdentityFacts::new(
        AuthenticatedIdentity::new("mutual-tls")
            .resolving_to(PartyId::new(7))
            .with_evidence("employment", employment),
        None,
    )
}

fn document() -> Document {
    Document::load(document_text()).expect("the document loads")
}

fn refused(texts: Vec<Statement>) -> String {
    Document::load(texts).expect_err("refused").message
}

#[test]
fn a_permitting_statement_that_applies_allows() {
    let decision = document().decide(
        &partner("staff"),
        &Attempt::new(Action::Receive, "partner-x"),
    );

    assert_eq!(decision, Some(Decision::Allowed));
    assert_eq!(document().name(), "policy");
    assert_eq!(document().layer(), Layer::Transport);
    assert_eq!(document().statements().len(), 3);
}

#[test]
fn deny_wins_and_names_the_statement_wherever_it_stands_in_the_document() {
    // Party 7 may send Billing, and the statement saying so comes first;
    // the contractor statement after it still refuses.
    let decision = document()
        .decide(
            &partner("contractor"),
            &Attempt::new(Action::Send, "Billing"),
        )
        .expect("an opinion");

    assert_eq!(
        decision.message(),
        "denied by policy: statement 'contractors-never-send' denies send on 'Billing'"
    );
    assert_eq!(
        document().decide(&partner("staff"), &Attempt::new(Action::Send, "Billing")),
        Some(Decision::Allowed)
    );
}

#[test]
fn nothing_applying_is_no_opinion() {
    assert_eq!(
        document().decide(
            &partner("staff"),
            &Attempt::new(Action::Process, "Approval")
        ),
        None
    );
    assert_eq!(
        Document::load(Vec::new())
            .expect("an empty document loads")
            .decide(&partner("staff"), &Attempt::new(Action::Send, "Billing")),
        None
    );
}

#[test]
fn a_document_that_does_not_say_what_it_means_is_refused_at_load() {
    // An effect that is neither permit nor deny, a missing name and a word
    // for an action or a Party are refused while the text is read; here is
    // what the library reads of the action and the Party.
    assert_eq!(parse_action("publish"), None);
    assert!(refuse_action("publish").contains("unknown action 'publish'"));
    assert_eq!(PartyId::parse("seven"), None);
    assert!(refused(vec![text(" ", Effect::Deny)]).contains("empty name"));
    assert!(refused(vec![text("a", Effect::Deny), text("a", Effect::Permit)])
        .contains("two statements are named 'a'"));
    assert!(refused(vec![text("", Effect::Deny)]).contains("the policy document is refused"));
}

#[test]
fn refusals_read_exactly() {
    assert_eq!(
        refuse_action("publish"),
        "unknown action 'publish': an action is receive, process or send"
    );
    assert_eq!(refuse_party("seven"), "party 'seven' is not a Party identifier");
    assert_eq!(
        refused(vec![text("a", Effect::Deny), text("a", Effect::Permit)]),
        "the policy document is refused: two statements are named 'a'"
    );
}

#[test]
fn an_empty_name_is_counted_from_one_in_the_document() {
    let mut texts: Vec<Statement> =
        (0..11).map(|i| text(&format!("s{i}"), Effect::Permit)).collect();
    texts.push(text("\t \u{3000}", Effect::Deny));
    assert_eq!(
        refused(texts),
        "the policy document is refused: statement 12 has an empty name"
    );
    assert_eq!(
        refused(vec![text("", Effect::Deny)]),
        "the policy document is refused: statement 1 has an empty name"
    );
}

#[test]
fn the_first_name_refused_is_the_one_reported() {
    let texts = vec![
        text("a", Effect::Deny),
        text("a", Effect::Permit),
        text("", Effect::Deny),
    ];
    assert_eq!(
        refused(texts),
        "the policy document is refused: two statements are named 'a'"
    );
}

#[test]
fn a_loaded_document_keeps_the_statements_in_order() {
    let d = document();
    let names: Vec<&str> = d.statements().iter().map(|s| s.name.as_str()).collect();
    assert_eq!(
        names,
        vec!["partners-receive", "party-seven-sends-billing", "contractors-never-send"]
    );
    assert_eq!(d.statements()[1].party, Some(PartyId::new(7)));
    assert_eq!(d.statements()[2].action, Some(Action::Send));
    assert_eq!(d.clone(), d);
}

#[test]
fn a_deny_first_or_last_denies_alike() {
    let mut texts = document_text();
    texts.reverse();
    let reversed = Document::load(texts).expect("loads");
    let decision = reversed
        .decide(&partner("contractor"), &Attempt::new(Action::Send, "Billing"))
        .expect("an opinion");
    assert_eq!(
        decision.message(),
        "denied by policy: statement 'contractors-never-send' denies send on 'Billing'"
    );
}

#[test]
fn the_first_denying_statement_is_the_one_named() {
    let mut texts = vec![text("first", Effect::Deny), text("second", Effect::Deny)];
    texts[1].action = Some(Action::Send);
    let d = Document::load(texts).expect("loads");
    let decision = d
        .decide(&partner("staff"), &Attempt::new(Action::Send, "Billing"))
        .expect("an opinion");
    assert_eq!(
        decision,
        Decision::Denied {
            by: NAME.to_string(),
            reason: "statement 'first' denies send on 'Billing'".to_string()
        }
    );
}

#[test]
fn more_permits_never_lift_a_denial() {
    let mut texts = document_text();
    for i in 0..5 {
        texts.push(text(&format!("everything-{i}"), Effect::Permit));
    }
    let d = Document::load(texts).expect("loads");
    let decision = d.decide(&partner("contractor"), &Attempt::new(Action::Send, "Billing"));
    assert!(matches!(decision, Some(Decision::Denied { .. })));
}

#[test]
fn the_default_document_has_no_opinion() {
    let d = Document::default();
    assert_eq!(d.statements().len(), 0);
    assert_eq!(
        d.decide(&partner("staff"), &Attempt::new(Action::Receive, "partner-x")),
        None
    );
}

#[test]
fn an_allowed_decision_reads_allowed() {
    assert_eq!(Decision::Allowed.message(), "allowed");
    assert_eq!(
        Decision::denied("policy", "because".to_string()).message(),
        "denied by policy: because"
    );
}
