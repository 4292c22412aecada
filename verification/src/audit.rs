//! Audit trail values: identifiers, RFC 3339 timestamps and the records
//! that the append-only JSONL log receives.

use vstd::prelude::*;
use crate::text::{trim, trimmed};
use vstd::string::StrSliceExecFns;
use vstd::string::StringExecFns;
use crate::ollama::OllamaEnd;

verus! {

/// Version of the record layout written to the audit log.
pub const SCHEMA_VERSION: u32 = 1;

/// Lower-case hexadecimal digits, `0-9a-f`.
pub open spec fn is_lower_hex(c: char) -> bool {
    ('0' <= c && c <= '9') || ('a' <= c && c <= 'f')
}

/// The shape of an identifier: 32 lower-case hexadecimal digits.
pub open spec fn is_hex_id(s: Seq<char>) -> bool {
    s.len() == 32 && forall|i: int| 0 <= i < s.len() ==> is_lower_hex(#[trigger] s[i])
}

/// The marks of a random (version 4, RFC 4122 variant) UUID in its simple
/// form: the version digit `4` at index 12, and a variant digit `8`, `9`,
/// `a` or `b` at index 16.
pub open spec fn is_v4_marked(s: Seq<char>) -> bool {
    &&& s[12] == '4'
    &&& (s[16] == '8' || s[16] == '9' || s[16] == 'a' || s[16] == 'b')
}

/// A fresh random identifier: `uuid::Uuid::new_v4().simple().to_string()`,
/// which renders the 128 bits as 32 lower-case hexadecimal digits; `new_v4`
/// sets the version and variant bits (`& 0x..4FFFBFFF.. | 0x4000_8000..`).
/// Which identifier comes back is chance: only its shape is stated.
#[verifier::external_body]
pub fn new_id() -> (id: String)
    ensures
        is_hex_id(id@),
        is_v4_marked(id@),
{
    uuid::Uuid::new_v4().simple().to_string()
}

/// The clock time (hour, minute, second, in the offset that the text
/// carries) that `time::OffsetDateTime::parse(s, &Rfc3339)` reads from `s`,
/// or `None` where that parse fails.
pub uninterp spec fn rfc3339_clock(s: Seq<char>) -> Option<(u8, u8, u8)>;

/// Parses `s` with `time::OffsetDateTime::parse(s, &Rfc3339)` and takes the
/// clock time of the result (`time()`, then `hour()`, `minute()`,
/// `second()`). Stated: the result is `rfc3339_clock(s@)`; a clock time
/// lies in 0..24, 0..60, 0..60, as the crate documents for these accessors;
/// and the epoch `1970-01-01T00:00:00Z` (a full date, `T`, a full time and
/// `Z`, as the parser's grammar reads it) parses to midnight.
#[verifier::external_body]
fn parse_rfc3339_clock(s: &str) -> (r: Option<(u8, u8, u8)>)
    ensures
        r == rfc3339_clock(s@),
        r matches Some((h, m, sec)) ==> h < 24 && m < 60 && sec < 60,
        s@ == epoch_rfc3339() ==> r == Some((0u8, 0u8, 0u8)),
{
    time::OffsetDateTime::parse(s, &time::format_description::well_known::Rfc3339)
        .ok()
        .map(|odt| (odt.hour(), odt.minute(), odt.second()))
}

/// Whether `s` parses as an RFC 3339 date-time.
pub open spec fn is_rfc3339(s: Seq<char>) -> bool {
    rfc3339_clock(s) is Some
}

/// The clock time that an RFC 3339 text carries, if it parses.
pub fn rfc3339_time_of_day(s: &str) -> (r: Option<(u8, u8, u8)>)
    ensures
        r == rfc3339_clock(s@),
        r matches Some((h, m, sec)) ==> h < 24 && m < 60 && sec < 60,
{
    parse_rfc3339_clock(s)
}

/// The current UTC time formatted by
/// `time::OffsetDateTime::now_utc().format(&Rfc3339)`; `None` where the
/// formatting fails. Which time it is depends on the clock and is not
/// stated; what is stated is the form: the formatter writes
/// `YYYY-MM-DDTHH:MM:SS[.frac](Z|+HH:MM)`, which is not empty, has no
/// whitespace at either end and is read back by the RFC 3339 parser (it
/// fails instead on any value it cannot write so); `now_utc()` carries the
/// UTC offset, for which the formatter writes `Z` at the end.
#[verifier::external_body]
fn format_now_rfc3339() -> (r: Option<String>)
    ensures
        r matches Some(s) ==> s@.len() > 0 && trim(s@) == s@ && is_rfc3339(s@) && is_utc_text(
            s@,
        ),
{
    time::OffsetDateTime::now_utc().format(&time::format_description::well_known::Rfc3339).ok()
}

/// The epoch, used when the current time cannot be formatted.
pub open spec fn epoch_rfc3339() -> Seq<char> {
    "1970-01-01T00:00:00Z"@
}

/// The formatted current time, or the epoch where formatting failed.
pub fn rfc3339_or_epoch(formatted: Option<String>) -> (r: String)
    ensures
        r@ == (match formatted {
            Some(s) => s@,
            None => epoch_rfc3339(),
        }),
{
    match formatted {
        Some(s) => s,
        None => {
            let r = String::from_str("1970-01-01T00:00:00Z");
            r
        },
    }
}

/// A text that ends in `Z`, the RFC 3339 mark of UTC.
pub open spec fn is_utc_text(s: Seq<char>) -> bool {
    s.len() > 0 && s.last() == 'Z'
}

/// A timestamp text as this library writes it: not empty, without
/// whitespace at either end, and an RFC 3339 text.
pub open spec fn is_timestamp_text(s: Seq<char>) -> bool {
    &&& s.len() > 0
    &&& trim(s) == s
    &&& is_rfc3339(s)
}

proof fn lemma_epoch_is_trimmed()
    ensures
        epoch_rfc3339().len() > 0,
        trim(epoch_rfc3339()) == epoch_rfc3339(),
        is_utc_text(epoch_rfc3339()),
{
    reveal_strlit("1970-01-01T00:00:00Z");
    let e = epoch_rfc3339();
    assert(!crate::text::is_white_space(e[0]));
    assert(crate::text::trim_start(e) == e);
    assert(!crate::text::is_white_space(e.last()));
    assert(crate::text::trim_end(e) == e);
}

/// `f` is an outcome of formatting the current UTC time
/// (`format_now_rfc3339`): the text it wrote, or `None` where it failed.
pub closed spec fn is_now_formatting(f: Option<Seq<char>>) -> bool {
    exists|x: Option<String>|
        #[trigger] call_ensures(format_now_rfc3339, (), x) && f == match x {
            Some(t) => Some(t@),
            None => None,
        }
}

/// `s` is the current UTC time as the formatter wrote it, or the epoch
/// where that formatting failed.
pub closed spec fn is_formatted_now(s: Seq<char>) -> bool {
    exists|x: Option<String>|
        #[trigger] call_ensures(format_now_rfc3339, (), x) && s == match x {
            Some(t) => t@,
            None => epoch_rfc3339(),
        }
}

/// The current UTC time in RFC 3339, or `1970-01-01T00:00:00Z` where it
/// cannot be formatted.
pub fn now_rfc3339() -> (r: String)
    ensures
        is_timestamp_text(r@),
        is_utc_text(r@),
        is_formatted_now(r@),
{
    proof {
        lemma_epoch_is_trimmed();
    }
    let formatted = format_now_rfc3339();
    if formatted.is_none() {
        // The fallback is read back by the same RFC 3339 parser.
        let _midnight = parse_rfc3339_clock("1970-01-01T00:00:00Z");
    }
    rfc3339_or_epoch(formatted)
}

/// The current time is used whenever it can be formatted: the text is what
/// the formatter wrote for the current UTC time, and the epoch comes only
/// where the formatter wrote nothing.
pub proof fn law_now_is_formatted_time(r: String)
    requires
        call_ensures(now_rfc3339, (), r),
    ensures
        exists|f: Option<Seq<char>>|
            #[trigger] is_now_formatting(f) && (f matches Some(t) ==> r@ == t) && (f is None ==> r@
                == "1970-01-01T00:00:00Z"@),
{
    lemma_formatted_now_outcome(r@);
}

/// A text written as the current time comes from an outcome of the
/// formatter: the text it wrote, or the epoch where it wrote nothing.
pub proof fn lemma_formatted_now_outcome(s: Seq<char>)
    requires
        is_formatted_now(s),
    ensures
        exists|f: Option<Seq<char>>|
            #[trigger] is_now_formatting(f) && (f matches Some(t) ==> s == t) && (f is None ==> s
                == "1970-01-01T00:00:00Z"@),
{
    let x = choose|x: Option<String>|
        #[trigger] call_ensures(format_now_rfc3339, (), x) && s == match x {
            Some(t) => t@,
            None => epoch_rfc3339(),
        };
    let f: Option<Seq<char>> = match x {
        Some(t) => Some(t@),
        None => None,
    };
    assert(is_now_formatting(f));
}

/// The characters of an optional text.
pub open spec fn opt_view(raw: Option<&str>) -> Option<Seq<char>> {
    match raw {
        Some(s) => Some(s@),
        None => None,
    }
}

/// The client-provided timestamp that is kept: the trimmed text, when it is
/// not empty and parses as RFC 3339.
pub open spec fn accepted_timestamp(raw: Option<Seq<char>>) -> Option<Seq<char>> {
    match raw {
        Some(s) => if trim(s).len() > 0 && is_rfc3339(trim(s)) {
            Some(trim(s))
        } else {
            None
        },
        None => None,
    }
}

/// The client-provided timestamp, trimmed, when it is an RFC 3339 text.
pub fn accept_payload_timestamp(raw: Option<&str>) -> (r: Option<String>)
    ensures
        r matches Some(t) ==> accepted_timestamp(opt_view(raw)) == Some(t@),
        r is None ==> accepted_timestamp(opt_view(raw)) is None,
{
    match raw {
        Some(s) => {
            let t = trimmed(s);
            if !blank_trimmed(&t) && parse_rfc3339_clock(t.as_str()).is_some() {
                Some(t)
            } else {
                None
            }
        },
        None => None,
    }
}

/// Whether an already trimmed text is empty.
fn blank_trimmed(t: &String) -> (b: bool)
    ensures
        b == (t@.len() == 0),
{
    t.as_str().unicode_len() == 0
}

/// Prefer the client-provided timestamp when it parses as RFC 3339;
/// otherwise use the current UTC time (or the epoch where it cannot be
/// formatted). Either way the result is a timestamp text.
pub fn resolve_from_optional_payload(raw: Option<&str>) -> (r: String)
    ensures
        accepted_timestamp(opt_view(raw)) matches Some(t) ==> r@ == t,
        accepted_timestamp(opt_view(raw)) is None ==> is_timestamp_text(r@) && is_utc_text(r@)
            && is_formatted_now(r@),
        accepted_timestamp(opt_view(raw)) is None ==> (raw matches Some(s) ==> r@ != s@),
        is_timestamp_text(r@),
        accepted_timestamp(Some(r@)) == Some(r@),
{
    proof {
        if let Some(s) = raw {
            crate::text::law_trim_idempotent(s@);
        }
    }
    match accept_payload_timestamp(raw) {
        Some(t) => t,
        None => now_rfc3339(),
    }
}

/// Which request body an inbound HTTP message was read from.
#[derive(Clone, Copy, Debug, PartialEq, Eq, Structural)]
pub enum PayloadKind {
    Conversation,
    Evaluator,
    Plain,
}

impl PayloadKind {
    /// The name that the audit log records for this kind.
    pub fn name(&self) -> (s: &'static str)
        ensures
            s@ == (match self {
                PayloadKind::Conversation => "conversation"@,
                PayloadKind::Evaluator => "evaluator"@,
                PayloadKind::Plain => "plain"@,
            }),
    {
        match self {
            PayloadKind::Conversation => "conversation",
            PayloadKind::Evaluator => "evaluator",
            PayloadKind::Plain => "plain",
        }
    }
}

/// The kind-specific part of an audit record.
pub enum AuditDetails {
    /// A message that arrived over HTTP.
    HttpIn { body_len: usize, payload_kind: PayloadKind },
    /// A request to the model server is about to be sent.
    OllamaStart { model: String, endpoint: String, num_predict: Option<i32>, prompt_len: usize },
    /// How a request to the model server ended.
    OllamaEnd(OllamaEnd),
}

/// One line of the audit log.
pub struct AuditRecord {
    pub schema_version: u32,
    pub kind: &'static str,
    pub ts: String,
    pub conversation_id: String,
    pub request_id: String,
    pub event_id: String,
    pub details: AuditDetails,
}

} // verus!

verus! {

/// A timestamp that was accepted is accepted again, unchanged: resolving a
/// resolved client timestamp gives it back.
pub proof fn law_accepted_timestamp_stable(raw: Seq<char>)
    ensures
        accepted_timestamp(Some(raw)) matches Some(t) ==> accepted_timestamp(Some(t)) == Some(t),
{
    crate::text::law_trim_idempotent(raw);
}

/// Resolving a resolved timestamp gives it back: every timestamp text, the
/// form of every result of `resolve_from_optional_payload`, is accepted
/// unchanged.
pub proof fn law_resolved_timestamp_stable(r: Seq<char>)
    requires
        is_timestamp_text(r),
    ensures
        accepted_timestamp(Some(r)) == Some(r),
{
}

} // verus!
