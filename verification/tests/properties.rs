use commitlint::engine::evaluate;
use commitlint::message::Message;
use commitlint::result::{Level, Violation};
use commitlint::rule::ticket_id::TicketId;
use commitlint::rule::Rule;
use commitlint::text::split_lines;

fn message_with(subject: Option<&str>, body: Option<&str>) -> Message {
    Message {
        raw: "raw text".to_string(),
        subject: subject.map(|s| s.to_string()),
        body: body.map(|s| s.to_string()),
        description: None,
        commit_type: None,
        scope: None,
        footers: None,
    }
}

const MISSING: &str = "Ticket ID is missing in either subject or body of commit message! It should be on last line if inside body, or at the end of subject!";
const DUP_BODY: &str = "Ticket ID is duplicated in body of commit message!";
const DUP_GENERAL: &str = "Ticket ID is duplicated in either subject or body of commit message!";
const LAST_LINE: &str = "Ticket ID should be on last line in body!";

#[test]
fn disabled_scopes_never_report_missing() {
    let rule = TicketId {
        subject: false,
        body: false,
        ..Default::default()
    };
    let message = message_with(Some("no ticket at all"), Some("nothing here either"));
    assert!(rule.validate(&message).is_none());
    let with_ticket = message_with(Some("has one #BOS-494"), Some("another #ABC-1"));
    assert!(rule.validate(&with_ticket).is_none());
}

#[test]
fn validate_is_idempotent() {
    let rule = TicketId {
        unique: true,
        ..Default::default()
    };
    let message = message_with(Some("subject #BOS-494"), Some("line one\nlast #ABC-2"));
    let first = rule.validate(&message);
    let second = rule.validate(&message);
    assert_eq!(first, second);
}

#[test]
fn subject_ticket_absent_body_passes() {
    let rule = TicketId {
        ..Default::default()
    };
    let message = message_with(Some("improve logging #BOS-494"), None);
    assert!(rule.validate(&message).is_none());
}

#[test]
fn body_only_line_ticket_passes() {
    let rule = TicketId {
        ..Default::default()
    };
    let message = message_with(Some("improve logging"), Some("refs #BOS-494"));
    assert!(rule.validate(&message).is_none());
}

#[test]
fn body_ticket_not_on_last_line_fails() {
    let rule = TicketId {
        ..Default::default()
    };
    let message = message_with(
        Some("improve logging"),
        Some("refs #BOS-494\nmore detail here"),
    );
    let violation = rule.validate(&message).unwrap();
    assert_eq!(violation.level, Level::Error);
    assert_eq!(violation.message, LAST_LINE);
}

#[test]
fn no_ticket_anywhere_fails_as_missing() {
    let rule = TicketId {
        ..Default::default()
    };
    let message = message_with(Some("improve logging"), Some("more detail here"));
    let violation = rule.validate(&message).unwrap();
    assert_eq!(violation.level, Level::Error);
    assert_eq!(violation.message, MISSING);
}

#[test]
fn unique_rejects_subject_and_last_line_tickets() {
    let rule = TicketId {
        unique: true,
        ..Default::default()
    };
    let message = message_with(Some("improve logging #BOS-494"), Some("refs #BOS-494"));
    let violation = rule.validate(&message).unwrap();
    assert_eq!(violation.level, Level::Error);
    assert_eq!(violation.message, DUP_BODY);
}

#[test]
fn unique_rejects_duplicates_off_the_last_line() {
    let rule = TicketId {
        unique: true,
        body_last_line: false,
        ..Default::default()
    };
    let message = message_with(
        Some("improve logging"),
        Some("refs #BOS-494\nalso #ABC-1\ndone"),
    );
    let violation = rule.validate(&message).unwrap();
    assert_eq!(violation.level, Level::Error);
    assert_eq!(violation.message, DUP_GENERAL);
}

#[test]
fn empty_body_behaves_like_absent_body() {
    let rule = TicketId {
        ..Default::default()
    };
    let with_empty = message_with(Some("no ticket"), Some(""));
    let with_none = message_with(Some("no ticket"), None);
    assert_eq!(rule.validate(&with_empty), rule.validate(&with_none));
    let ticketed_empty = message_with(Some("has one #BOS-494"), Some(""));
    let ticketed_none = message_with(Some("has one #BOS-494"), None);
    assert_eq!(rule.validate(&ticketed_empty), rule.validate(&ticketed_none));
    assert!(rule.validate(&ticketed_empty).is_none());
}

#[test]
fn level_override_is_used() {
    let rule = TicketId {
        level: Some(Level::Warning),
        ..Default::default()
    };
    let message = message_with(Some("no ticket"), None);
    let violation = rule.validate(&message).unwrap();
    assert_eq!(violation.level, Level::Warning);
    assert_eq!(violation.message, MISSING);
}

#[test]
fn unset_level_falls_back_to_default() {
    let rule = TicketId {
        level: None,
        ..Default::default()
    };
    let message = message_with(Some("no ticket"), None);
    let violation = rule.validate(&message).unwrap();
    assert_eq!(violation.level, Level::Error);
}

#[test]
fn subject_ticket_with_non_last_line_body_ticket_passes() {
    let rule = TicketId {
        ..Default::default()
    };
    let message = message_with(
        Some("improve logging #BOS-494"),
        Some("refs #ABC-1\nmore detail here"),
    );
    assert!(rule.validate(&message).is_none());
}

#[test]
fn default_configuration_fields() {
    let rule = TicketId::default();
    assert_eq!(rule.level, Some(Level::Error));
    assert!(!rule.unique);
    assert!(rule.subject);
    assert!(rule.body);
    assert!(rule.body_last_line);
}

#[test]
fn rule_capability_accessors() {
    let rule = TicketId::default();
    let message = message_with(None, None);
    assert_eq!(rule.name(), "ticket-id");
    assert_eq!(rule.default_level(), Level::Error);
    assert_eq!(rule.message(&message), MISSING);
}

#[test]
fn levels_are_ordered_by_rank() {
    assert!(Level::Error.rank() > Level::Warning.rank());
    assert!(Level::Error.at_least(&Level::Warning));
    assert!(Level::Error.at_least(&Level::Error));
    assert!(!Level::Warning.at_least(&Level::Error));
}

#[test]
fn engine_collects_violations_in_order() {
    let rules = vec![
        TicketId {
            level: Some(Level::Warning),
            ..Default::default()
        },
        TicketId {
            subject: false,
            body: false,
            ..Default::default()
        },
        TicketId {
            level: None,
            ..Default::default()
        },
    ];
    let message = message_with(Some("no ticket"), None);
    let violations: Vec<Violation> = evaluate(&message, &rules);
    assert_eq!(violations.len(), 2);
    assert_eq!(violations[0].level, Level::Warning);
    assert_eq!(violations[0].message, MISSING);
    assert_eq!(violations[1].level, Level::Error);
    assert_eq!(violations[1].message, MISSING);
}

#[test]
fn engine_with_no_rules_reports_nothing() {
    let rules: Vec<TicketId> = Vec::new();
    let message = message_with(Some("no ticket"), None);
    assert!(evaluate(&message, &rules).is_empty());
}

#[test]
fn decide_reports_from_scan_outcomes() {
    let rule = TicketId::default();
    assert!(rule.decide(true, 0, false, true).is_none());
    assert!(rule.decide(false, 1, true, false).is_none());
    let missing = rule.decide(false, 0, false, true).unwrap();
    assert_eq!(missing.message, MISSING);
    let off_last = rule.decide(false, 1, false, false).unwrap();
    assert_eq!(off_last.message, LAST_LINE);
    let unique_rule = TicketId {
        unique: true,
        ..Default::default()
    };
    let duplicated = unique_rule.decide(true, 1, true, false).unwrap();
    assert_eq!(duplicated.message, DUP_BODY);
    let duplicated_apart = unique_rule.decide(true, 1, false, false).unwrap();
    assert_eq!(duplicated_apart.message, DUP_GENERAL);
}

#[test]
fn split_lines_matches_line_semantics() {
    let parts = split_lines("first\r\nsecond\nthird\n");
    assert_eq!(parts, vec!["first", "second", "third"]);
    assert!(split_lines("").is_empty());
    assert_eq!(split_lines("\n"), vec![""]);
    assert_eq!(split_lines("tail\r"), vec!["tail\r"]);
}
