//! The ticket-ID rule: a commit message must reference a ticket identifier
//! such as `#BOS-494`, at a configurable place and multiplicity.

use vstd::prelude::*;

use crate::message::{opt_str, opt_text, Message};
use crate::pattern::{regex_is_match, regex_scan, spec_ticket_pattern, ticket_hit, ticket_pattern_str};
use crate::result::{Level, Violation, ViolationModel};
use crate::rule::Rule;
use crate::text::{spec_lines, split_lines};

verus! {

/// Configuration of the ticket-ID rule.
#[derive(Clone, Copy, Debug, PartialEq, Eq)]
pub struct TicketId {
    /// The severity override; the rule's default level is used when unset.
    pub level: Option<Level>,
    /// Whether more than one occurrence of a ticket ID is rejected.
    pub unique: bool,
    /// Whether a ticket ID may appear in the subject.
    pub subject: bool,
    /// Whether a ticket ID may appear in the body.
    pub body: bool,
    /// Whether a ticket ID inside the body must be on its last line.
    pub body_last_line: bool,
}

/// The severity the rule reports with: the configured override, or the
/// rule's default level when no override is set.
pub open spec fn resolved_level(c: TicketId) -> Level {
    match c.level {
        Option::Some(l) => l,
        Option::None => Level::Error,
    }
}

/// The description used when no ticket ID was found.
pub open spec fn missing_text() -> Seq<char> {
    "Ticket ID is missing in either subject or body of commit message! It should be on last line if inside body, or at the end of subject!"@
}

/// The description used when a ticket ID is duplicated and the body's last
/// line holds one.
pub open spec fn duplicate_body_text() -> Seq<char> {
    "Ticket ID is duplicated in body of commit message!"@
}

/// The description used when a ticket ID is duplicated across the subject
/// and the body.
pub open spec fn duplicate_text() -> Seq<char> {
    "Ticket ID is duplicated in either subject or body of commit message!"@
}

/// The description used when a ticket ID sits in the body but not on its
/// last line.
pub open spec fn last_line_text() -> Seq<char> {
    "Ticket ID should be on last line in body!"@
}

/// The description used when the ticket pattern does not compile, with the
/// rendered compiler error appended.
pub open spec fn invalid_pattern_text(err: Seq<char>) -> Seq<char> {
    "Invalid regex #[A-Z]+-\\d+: "@ + err
}

/// The outcome of matching the ticket pattern against every line in order:
/// the number of matching lines, or the first compiler error.
pub open spec fn scan_lines(pattern: Seq<char>, lines: Seq<Seq<char>>) -> Result<int, Seq<char>>
    decreases lines.len(),
{
    if lines.len() == 0 {
        Ok(0)
    } else {
        match scan_lines(pattern, lines.drop_last()) {
            Ok(n) => match regex_scan(pattern, lines.last()) {
                Ok(b) => Ok(n + if b { 1int } else { 0int }),
                Err(e) => Err(e),
            },
            Err(e) => Err(e),
        }
    }
}

/// A successful scan counts at most one match per line.
pub proof fn lemma_scan_lines_count(pattern: Seq<char>, lines: Seq<Seq<char>>)
    ensures
        scan_lines(pattern, lines) matches Ok(n) ==> 0 <= n <= lines.len(),
    decreases lines.len(),
{
    if lines.len() > 0 {
        lemma_scan_lines_count(pattern, lines.drop_last());
    }
}

/// A successful scan over lines one of which matches counts at least one.
pub proof fn lemma_scan_lines_hit(pattern: Seq<char>, lines: Seq<Seq<char>>, i: int)
    ensures
        (0 <= i < lines.len() && regex_scan(pattern, lines[i]) == Result::<bool, Seq<char>>::Ok(
            true,
        ) && scan_lines(pattern, lines) is Ok) ==> scan_lines(pattern, lines)->Ok_0 >= 1,
    decreases lines.len(),
{
    if 0 <= i < lines.len() && scan_lines(pattern, lines) is Ok {
        if i == lines.len() - 1 {
            lemma_scan_lines_count(pattern, lines.drop_last());
        } else {
            assert(lines.drop_last()[i] == lines[i]);
            lemma_scan_lines_hit(pattern, lines.drop_last(), i);
        }
    }
}

/// A line that fails to scan, after lines that scanned, fails the whole scan
/// with its error.
proof fn lemma_scan_lines_first_err(pattern: Seq<char>, lines: Seq<Seq<char>>, i: int)
    requires
        0 <= i < lines.len(),
        scan_lines(pattern, lines.take(i)) is Ok,
        regex_scan(pattern, lines[i]) is Err,
    ensures
        scan_lines(pattern, lines) == Result::<int, Seq<char>>::Err(
            regex_scan(pattern, lines[i])->Err_0,
        ),
    decreases lines.len(),
{
    if i == lines.len() - 1 {
        assert(lines.drop_last() =~= lines.take(i));
        assert(lines.last() == lines[i]);
    } else {
        assert(lines.drop_last().take(i) =~= lines.take(i));
        assert(lines.drop_last()[i] == lines[i]);
        lemma_scan_lines_first_err(pattern, lines.drop_last(), i);
    }
}

/// What the ticket-ID rule reports for a message.
///
/// The pattern is matched against the whole subject (counting at most one
/// occurrence) when the subject check is enabled, and against every body
/// line (each matching line counting separately) when the body check is
/// enabled. No match at all, while either check is enabled, is "missing";
/// more than one match under `unique` is "duplicated"; under
/// `body_last_line`, a match that is neither in the subject nor on the
/// body's non-empty last line is "should be on last line". A pattern that
/// does not compile is itself reported as a violation at the resolved level.
pub open spec fn ticket_validate_spec(c: TicketId, m: Message) -> Option<ViolationModel> {
    let pattern = spec_ticket_pattern();
    let subject_scan = regex_scan(pattern, opt_text(m.subject));
    if c.subject && subject_scan is Err {
        Some(
            ViolationModel {
                level: resolved_level(c),
                message: invalid_pattern_text(subject_scan->Err_0),
            },
        )
    } else {
        let subject_has = c.subject && subject_scan == Result::<bool, Seq<char>>::Ok(true);
        let lines = spec_lines(opt_text(m.body));
        let body_scan = scan_lines(pattern, lines);
        if c.body && body_scan is Err {
            Some(
                ViolationModel {
                    level: resolved_level(c),
                    message: invalid_pattern_text(body_scan->Err_0),
                },
            )
        } else {
            let body_hits = if c.body { body_scan->Ok_0 } else { 0 };
            let last_line_has = c.body && c.body_last_line && lines.len() > 0 && ticket_hit(
                lines.last(),
            );
            decide_spec(c, subject_has, body_hits, last_line_has, opt_text(m.body).len() == 0)
        }
    }
}

/// The decision core of the rule, over the outcomes of matching the ticket
/// pattern: whether the subject matched, how many body lines matched,
/// whether the body's last line matched while that is asked for, and whether
/// the body text is empty.
pub open spec fn decide_spec(
    c: TicketId,
    subject_has: bool,
    body_hits: int,
    last_line_has: bool,
    body_empty: bool,
) -> Option<ViolationModel> {
    let match_count = (if subject_has { 1int } else { 0int }) + body_hits;
    if match_count == 0 && (c.body || c.subject) {
        Some(ViolationModel { level: resolved_level(c), message: missing_text() })
    } else if c.unique && last_line_has && match_count > 1 {
        Some(ViolationModel { level: resolved_level(c), message: duplicate_body_text() })
    } else if c.unique && match_count > 1 {
        Some(ViolationModel { level: resolved_level(c), message: duplicate_text() })
    } else if c.body_last_line && !last_line_has && match_count >= 1 && !body_empty
        && !subject_has {
        Some(ViolationModel { level: resolved_level(c), message: last_line_text() })
    } else {
        None
    }
}

impl TicketId {
    /// Returns the severity this rule reports with: the configured override,
    /// or the default level when no override is set.
    pub fn resolve_level(&self) -> (r: Level)
        ensures
            r == resolved_level(*self),
    {
        match self.level {
            Option::Some(l) => l,
            Option::None => Level::Error,
        }
    }

    /// Decides what this rule reports, from the outcomes of matching the
    /// ticket pattern: whether the subject matched, how many body lines
    /// matched, whether the body's last line matched while that is asked
    /// for, and whether the body text is empty.
    pub fn decide(
        &self,
        subject_has: bool,
        body_hits: usize,
        last_line_has: bool,
        body_empty: bool,
    ) -> (r: Option<Violation>)
        ensures
            r.deep_view() == decide_spec(
                *self,
                subject_has,
                body_hits as int,
                last_line_has,
                body_empty,
            ),
    {
        let resolved = self.resolve_level();
        if !subject_has && body_hits == 0 && (self.body || self.subject) {
            return Some(
                Violation {
                    level: resolved,
                    message: String::from_str(
                        "Ticket ID is missing in either subject or body of commit message! It should be on last line if inside body, or at the end of subject!",
                    ),
                },
            );
        }
        if self.unique {
            let many = body_hits >= 2 || (subject_has && body_hits >= 1);
            if last_line_has && many {
                return Some(
                    Violation {
                        level: resolved,
                        message: String::from_str(
                            "Ticket ID is duplicated in body of commit message!",
                        ),
                    },
                );
            }
            if many {
                return Some(
                    Violation {
                        level: resolved,
                        message: String::from_str(
                            "Ticket ID is duplicated in either subject or body of commit message!",
                        ),
                    },
                );
            }
        }
        if self.body_last_line && !last_line_has && (subject_has || body_hits >= 1) && !body_empty
            && !subject_has {
            return Some(
                Violation {
                    level: resolved,
                    message: String::from_str("Ticket ID should be on last line in body!"),
                },
            );
        }
        None
    }

    /// Builds the violation reporting a ticket pattern that did not compile.
    fn invalid_violation(&self, err: String) -> (r: Violation)
        ensures
            r@ == (ViolationModel {
                level: resolved_level(*self),
                message: invalid_pattern_text(err@),
            }),
    {
        Violation {
            level: self.resolve_level(),
            message: String::from_str("Invalid regex #[A-Z]+-\\d+: ").concat(err.as_str()),
        }
    }
}

impl Rule for TicketId {
    open spec fn spec_validate(&self, message: Message) -> Option<ViolationModel> {
        ticket_validate_spec(*self, message)
    }

    open spec fn spec_name(&self) -> Seq<char> {
        "ticket-id"@
    }

    open spec fn spec_default_level(&self) -> Level {
        Level::Error
    }

    open spec fn spec_message(&self, message: Message) -> Seq<char> {
        missing_text()
    }

    fn name(&self) -> (r: &'static str) {
        "ticket-id"
    }

    fn default_level(&self) -> (r: Level) {
        Level::Error
    }

    fn message(&self, message: &Message) -> (r: String) {
        String::from_str(
            "Ticket ID is missing in either subject or body of commit message! It should be on last line if inside body, or at the end of subject!",
        )
    }

    fn validate(&self, message: &Message) -> (r: Option<Violation>) {
        let pattern = ticket_pattern_str();
        let mut subject_has = false;
        if self.subject {
            let subject_str = opt_str(&message.subject);
            match regex_is_match(pattern, subject_str) {
                Ok(b) => {
                    subject_has = b;
                },
                Err(e) => {
                    return Some(self.invalid_violation(e));
                },
            }
        }
        let body_str = opt_str(&message.body);
        let lines = split_lines(body_str);
        let ghost line_views = lines.deep_view();
        let mut hits: usize = 0;
        let mut last_has = false;
        if self.body {
            let mut i: usize = 0;
            while i < lines.len()
                invariant
                    i <= lines.len(),
                    pattern@ == spec_ticket_pattern(),
                    line_views == lines.deep_view(),
                    line_views.len() == lines@.len(),
                    line_views == spec_lines(opt_text(message.body)),
                    self.body,
                    self.subject ==> !(regex_scan(
                        spec_ticket_pattern(),
                        opt_text(message.subject),
                    ) is Err),
                    subject_has == (self.subject && regex_scan(
                        spec_ticket_pattern(),
                        opt_text(message.subject),
                    ) == Result::<bool, Seq<char>>::Ok(true)),
                    scan_lines(spec_ticket_pattern(), line_views.take(i as int))
                        == Result::<int, Seq<char>>::Ok(hits as int),
                    hits <= i,
                    last_has == (self.body_last_line && line_views.len() > 0 && i
                        == line_views.len() && ticket_hit(line_views.last())),
                decreases lines.len() - i,
            {
                proof {
                    assert(line_views[i as int] == lines@[i as int]@);
                }
                match regex_is_match(pattern, lines[i].as_str()) {
                    Ok(b) => {
                        if b {
                            hits = hits + 1;
                            if self.body_last_line && i == lines.len() - 1 {
                                last_has = true;
                            }
                        }
                    },
                    Err(e) => {
                        proof {
                            lemma_scan_lines_first_err(
                                spec_ticket_pattern(),
                                line_views,
                                i as int,
                            );
                        }
                        return Some(self.invalid_violation(e));
                    },
                }
                i = i + 1;
                proof {
                    assert(line_views.take(i as int).drop_last() =~= line_views.take(
                        i as int - 1,
                    ));
                    assert(line_views.take(i as int).last() == line_views[i as int - 1]);
                }
            }
            proof {
                assert(line_views.take(line_views.len() as int) =~= line_views);
            }
        }
        self.decide(subject_has, hits, last_has, body_str.is_empty())
    }
}

impl Default for TicketId {
    /// The documented default configuration: severity `Error`, duplicates
    /// allowed, ticket accepted in the subject and in the body, and required
    /// on the body's last line when only the body holds one.
    fn default() -> (r: Self)
        ensures
            r == (TicketId {
                level: Some(Level::Error),
                unique: false,
                subject: true,
                body: true,
                body_last_line: true,
            }),
    {
        TicketId {
            level: Some(Level::Error),
            unique: false,
            subject: true,
            body: true,
            body_last_line: true,
        }
    }
}

/// With both the subject and the body check disabled, the rule reports
/// nothing, whatever the message holds: no match is counted, and the
/// missing-ticket check asks for one of the two places to be enabled.
pub proof fn lemma_disabled_scopes_pass(c: TicketId, m: Message)
    requires
        !c.subject,
        !c.body,
    ensures
        ticket_validate_spec(c, m) is None,
{
}

/// Validation is deterministic: the model pins one outcome per configuration
/// and message, so two calls of `validate` on the same arguments return
/// equal violations, or both none.
pub proof fn lemma_validate_deterministic(
    c: TicketId,
    m: Message,
    r1: Option<ViolationModel>,
    r2: Option<ViolationModel>,
)
    ensures
        r1 == ticket_validate_spec(c, m) && r2 == ticket_validate_spec(c, m) ==> r1 == r2,
{
}

/// Under `unique`, a ticket in the subject together with a ticket on the
/// body's last line counts two matches and is reported as duplicated, even
/// though the last-line constraint alone is satisfied.
pub proof fn lemma_unique_rejects_double_hit(c: TicketId, m: Message)
    requires
        c.unique,
        c.subject,
        c.body,
    ensures
        ticket_hit(opt_text(m.subject)) && spec_lines(opt_text(m.body)).len() > 0 && ticket_hit(
            spec_lines(opt_text(m.body)).last(),
        ) && scan_lines(spec_ticket_pattern(), spec_lines(opt_text(m.body))) is Ok
            ==> ticket_validate_spec(c, m) == Some(
            ViolationModel {
                level: resolved_level(c),
                message: if c.body_last_line {
                    duplicate_body_text()
                } else {
                    duplicate_text()
                },
            },
        ),
{
    let lines = spec_lines(opt_text(m.body));
    if ticket_hit(opt_text(m.subject)) && lines.len() > 0 && ticket_hit(lines.last())
        && scan_lines(spec_ticket_pattern(), lines) is Ok {
        lemma_scan_lines_hit(spec_ticket_pattern(), lines, lines.len() - 1);
    }
}

/// An empty body text behaves exactly like an absent body: the rule reports
/// the same outcome for two messages that agree on the subject, one with an
/// empty body and one with none.
pub proof fn lemma_empty_body_like_absent(c: TicketId, with_empty: Message, with_none: Message)
    requires
        with_empty.body matches Some(b) && b@.len() == 0,
        with_none.body is None,
        with_none.subject == with_empty.subject,
    ensures
        ticket_validate_spec(c, with_empty) == ticket_validate_spec(c, with_none),
{
    assert(opt_text(with_empty.body) =~= opt_text(with_none.body));
}

} // verus!

