//! Notification payloads built from a matching rule.
use crate::cfg::Message;
use crate::text::{replace_all, replaced, same_text};
use vstd::prelude::*;

verus! {

/// Severity of a notification.
#[derive(PartialEq, Eq, Structural, Clone, Copy, Debug)]
pub enum Urgency {
    Low,
    Normal,
    Critical,
}

/// The severity that an urgency text names, if any.
pub open spec fn urgency_of(s: Seq<char>) -> Option<Urgency> {
    if s == "low"@ || s == "Low"@ {
        Some(Urgency::Low)
    } else if s == "normal"@ || s == "Normal"@ {
        Some(Urgency::Normal)
    } else if s == "critical"@ || s == "Critical"@ {
        Some(Urgency::Critical)
    } else {
        None
    }
}

/// An urgency text that names no known severity.
#[derive(Debug)]
pub struct ParseUrgencyError {
    pub s: String,
}

impl ParseUrgencyError {
    /// Human-readable description of the error.
    pub fn message(&self) -> (r: String)
        ensures
            r@ == "Error parsing notification urgency. Unknown urgency `"@ + self.s@ + "`"@,
    {
        let mut r = String::from_str("Error parsing notification urgency. Unknown urgency `");
        r.append(self.s.as_str());
        r.append("`");
        r
    }
}

/// Reads an urgency name, in lower case or with a capital first letter.
pub fn parse_urgency(urgency: &str) -> (r: Result<Urgency, ParseUrgencyError>)
    ensures
        match urgency_of(urgency@) {
            Some(u) => r == Ok::<Urgency, ParseUrgencyError>(u),
            None => r is Err && r->Err_0.s@ == urgency@,
        },
{
    if same_text(urgency, "low") || same_text(urgency, "Low") {
        Ok(Urgency::Low)
    } else if same_text(urgency, "normal") || same_text(urgency, "Normal") {
        Ok(Urgency::Normal)
    } else if same_text(urgency, "critical") || same_text(urgency, "Critical") {
        Ok(Urgency::Critical)
    } else {
        Err(ParseUrgencyError { s: urgency.to_owned() })
    }
}

/// The decimal digit for `d`, which is below ten.
pub open spec fn digit_char(d: nat) -> char {
    seq!['0', '1', '2', '3', '4', '5', '6', '7', '8', '9'][d as int]
}

/// Decimal digits of a natural number, without leading zeros.
pub open spec fn digits_text(n: nat) -> Seq<char>
    decreases n,
{
    if n < 10 {
        seq![digit_char(n)]
    } else {
        digits_text(n / 10).push(digit_char(n % 10))
    }
}

/// Decimal text of an integer, with a leading minus sign when negative.
pub open spec fn int_text(v: int) -> Seq<char> {
    if v < 0 {
        seq!['-'] + digits_text((-v) as nat)
    } else {
        digits_text(v as nat)
    }
}

/// Relies on `i64::to_string` (the integer's `Display`): decimal digits, with a
/// minus sign for negative values.
#[verifier::external_body]
fn decimal(v: i64) -> (r: String)
    ensures
        r@ == int_text(v as int),
{
    v.to_string()
}

/// The token in body and summary texts that stands for the percentage.
pub open spec fn percent_token() -> Seq<char> {
    "{percent}"@
}

/// Replaces each `{percent}` in `string` with the percentage in decimal.
pub fn format(string: &str, percent: i64) -> (r: String)
    ensures
        r@ == replaced(string@, percent_token(), int_text(percent as int)),
{
    let token = "{percent}";
    proof {
        reveal_strlit("{percent}");
    }
    let digits = decimal(percent);
    replace_all(string, token, digits.as_str())
}

/// What a notification shows, and the notification it replaces, if any.
#[derive(Debug)]
pub struct Payload {
    pub summary: Option<String>,
    pub body: Option<String>,
    pub icon: Option<String>,
    pub urgency: Option<Urgency>,
    pub id: Option<u32>,
}

/// The characters of an optional text.
pub open spec fn text_of(o: Option<String>) -> Option<Seq<char>> {
    match o {
        Some(s) => Some(s@),
        None => None,
    }
}

/// An optional template with the percentage filled in.
pub open spec fn filled(o: Option<String>, percent: int) -> Option<Seq<char>> {
    match o {
        Some(s) => Some(replaced(s@, percent_token(), int_text(percent))),
        None => None,
    }
}

/// Why a rule's notification could not be built.
#[derive(Debug)]
pub enum BuildNotificationError {
    ParseUrgency(ParseUrgencyError),
}

impl BuildNotificationError {
    /// Human-readable description of the error.
    pub fn message(&self) -> (r: String)
        ensures
            match self {
                BuildNotificationError::ParseUrgency(e) => r@ == "Unable to build notification: "@
                    + "Error parsing notification urgency. Unknown urgency `"@ + e.s@ + "`"@,
            },
    {
        match self {
            BuildNotificationError::ParseUrgency(e) => {
                let mut r = String::from_str("Unable to build notification: ");
                let detail = e.message();
                r.append(detail.as_str());
                r
            },
        }
    }
}

/// Whether a rule's notification can be built: its urgency, if given, is known.
pub open spec fn buildable(m: Message) -> bool {
    match m.urgency {
        Some(u) => urgency_of(u@) is Some,
        None => true,
    }
}

/// The payload built from a rule, as the rule and percentage determine it.
pub open spec fn built_from(p: Payload, m: Message, percent: int) -> bool {
    &&& text_of(p.summary) == filled(m.summary, percent)
    &&& text_of(p.body) == filled(m.body, percent)
    &&& text_of(p.icon) == text_of(m.icon)
    &&& p.urgency == match m.urgency {
        Some(u) => urgency_of(u@),
        None => None,
    }
}

fn fill(o: &Option<String>, percent: i64) -> (r: Option<String>)
    ensures
        text_of(r) == filled(*o, percent as int),
{
    match o {
        Some(s) => Some(format(s.as_str(), percent)),
        None => None,
    }
}

/// Builds the payload of a rule's notification for the given percentage: the
/// templates filled in, the icon as given, the urgency read. It names no
/// earlier notification.
pub fn build_notification(message: &Message, percent: i64) -> (r: Result<
    Payload,
    BuildNotificationError,
>)
    ensures
        buildable(*message) <==> r is Ok,
        r matches Ok(p) ==> built_from(p, *message, percent as int) && p.id is None,
        r matches Err(BuildNotificationError::ParseUrgency(e)) ==> text_of(message.urgency) == Some(
            e.s@,
        ),
{
    let urgency = match &message.urgency {
        Some(u) => match parse_urgency(u.as_str()) {
            Ok(v) => Some(v),
            Err(e) => {
                return Err(BuildNotificationError::ParseUrgency(e));
            },
        },
        None => None,
    };
    let icon = match &message.icon {
        Some(i) => Some(i.clone()),
        None => None,
    };
    Ok(
        Payload {
            summary: fill(&message.summary, percent),
            body: fill(&message.body, percent),
            icon,
            urgency,
            id: None,
        },
    )
}

} // verus!
