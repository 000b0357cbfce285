use authorize_policy::access::{parse_action, refuse_action};
use authorize_policy::party::refuse_party;
use authorize_policy::pattern::matches_pattern;
use authorize_policy::text::{blank, chars_of, is_white_space_char, push_decimal, same_text};
use authorize_policy::{Action, PartyId};

#[test]
fn white_space_is_what_std_calls_white_space() {
    for n in 0..=0x10FFFFu32 {
        if let Some(c) = char::from_u32(n) {
            assert_eq!(is_white_space_char(c), c.is_whitespace(), "{n:#x}");
        }
    }
}

#[test]
fn a_blank_name_is_one_that_trims_to_nothing() {
    for s in ["", " ", "\t\n", "\u{a0}\u{2003}", "a", " a ", "\u{200b}"] {
        assert_eq!(blank(s), s.trim().is_empty(), "{s:?}");
    }
}

#[test]
fn decimal_numerals() {
    for n in [0usize, 7, 10, 12, 99, 100, 4096, usize::MAX] {
        let mut out = "#".to_string();
        push_decimal(&mut out, n);
        assert_eq!(out, format!("#{n}"));
    }
}

#[test]
fn texts_read_as_their_characters() {
    assert_eq!(chars_of("aé€😀"), vec!['a', 'é', '€', '😀']);
    assert!(same_text("send", "send"));
    assert!(!same_text("send", "sen"));
    assert!(!same_text("send", "Send"));
}

#[test]
fn party_identifiers_in_their_text_form() {
    assert_eq!(
        PartyId::parse("00000000-0000-0000-0000-000000000007"),
        Some(PartyId::new(7))
    );
    assert_eq!(
        PartyId::parse("ffffffff-ffff-ffff-ffff-ffffffffffff"),
        Some(PartyId::new(u128::MAX))
    );
    assert_eq!(
        PartyId::parse("FFFFFFFF-FFFF-FFFF-FFFF-FFFFFFFFFFFE"),
        Some(PartyId::new(u128::MAX - 1))
    );
    assert_eq!(
        PartyId::parse("12345678-9abc-def0-1234-56789abcdef0"),
        Some(PartyId::new(0x123456789abcdef0123456789abcdef0))
    );
    for refused in [
        "seven",
        "",
        "00000000-0000-0000-0000-00000000007",
        "00000000-0000-0000-0000-0000000000077",
        "000000000-000-0000-0000-000000000007",
        "00000000_0000_0000_0000_000000000007",
        "00000000-0000-0000-0000-00000000000g",
        "0000000000000000000000000000000000007",
        "00000000000000000000000000000007",
    ] {
        assert_eq!(PartyId::parse(refused), None, "{refused}");
    }
}

#[test]
fn patterns_are_names_or_prefixes() {
    assert!(matches_pattern("Billing", "Billing"));
    assert!(!matches_pattern("Billing", "Billing-EU"));
    assert!(!matches_pattern("Billing", "Billin"));
    assert!(matches_pattern("Billing*", "Billing-EU"));
    assert!(matches_pattern("Billing*", "Billing"));
    assert!(!matches_pattern("Billing*", "Billin"));
    assert!(!matches_pattern("Billing*", "billing-EU"));
    assert!(matches_pattern("*", ""));
    assert!(matches_pattern("*", "anything"));
    assert!(matches_pattern("", ""));
    assert!(!matches_pattern("", "a"));
    assert!(!matches_pattern("a*b", "axb"));
    assert!(matches_pattern("a*b", "a*b"));
}

#[test]
fn words_read_back() {
    for action in [Action::Receive, Action::Process, Action::Send] {
        assert_eq!(parse_action(action.word()), Some(action));
    }
    assert_eq!(parse_action("publish"), None);
    assert_eq!(parse_action("Send"), None);
    assert_eq!(
        refuse_action("Send"),
        "unknown action 'Send': an action is receive, process or send"
    );
    assert_eq!(refuse_party("7"), "party '7' is not a Party identifier");
}
