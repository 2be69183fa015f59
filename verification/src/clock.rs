//! Wall-clock timestamps in RFC 3339 form, read through the `time` crate.
use vstd::prelude::*;

verus! {

/// A moment with its UTC offset, as the `time` crate holds it.
#[verifier::external_type_specification]
#[verifier::external_body]
pub struct ExOffsetDateTime(time::OffsetDateTime);

/// The error the `time` crate reports when a moment cannot be formatted.
#[verifier::external_type_specification]
#[verifier::external_body]
pub struct ExFormatError(time::error::Format);

/// The text that formatting `moment` as RFC 3339 gives, if it can be formatted.
pub uninterp spec fn rfc3339_text(moment: time::OffsetDateTime) -> Option<Seq<char>>;

/// `c` is an ASCII decimal digit.
pub open spec fn is_digit(c: char) -> bool {
    '0' <= c && c <= '9'
}

/// `s` begins with an RFC 3339 date and time, `YYYY-MM-DDTHH:MM:SS`, followed
/// by at least an offset designator.
pub open spec fn is_rfc3339_timestamp(s: Seq<char>) -> bool {
    &&& s.len() >= 20
    &&& s[4] == '-' && s[7] == '-' && s[10] == 'T' && s[13] == ':' && s[16] == ':'
    &&& forall|i: int|
        0 <= i < 19 && i != 4 && i != 7 && i != 10 && i != 13 && i != 16 ==> #[trigger] is_digit(
            s[i],
        )
}

/// `s` is the RFC 3339 text of some moment, or, for a moment that cannot be
/// formatted, the Unix epoch.
pub open spec fn is_clock_reading(s: Seq<char>) -> bool {
    exists|moment: time::OffsetDateTime|
        match #[trigger] rfc3339_text(moment) {
            Some(text) => s == text,
            None => s == "1970-01-01T00:00:00Z"@,
        }
}

/// `s` is a reading of the clock, written as RFC 3339 text.
pub open spec fn is_recorded_now(s: Seq<char>) -> bool {
    is_rfc3339_timestamp(s) && is_clock_reading(s)
}

/// The current moment in UTC, from `OffsetDateTime::now_utc`. Trusted to
/// return; nothing is stated of the moment, which depends on the clock.
#[verifier::external_body]
pub fn now_utc() -> time::OffsetDateTime {
    time::OffsetDateTime::now_utc()
}

/// `OffsetDateTime::format` with the `Rfc3339` description. Trusted: the text
/// is a function of the moment, and when it is produced it starts with the
/// four-digit year, month, day, `T`, hour, minute and second, separated as
/// RFC 3339 separates them, followed by an offset (as the crate's
/// `Rfc3339` formatter writes them).
#[verifier::external_body]
pub fn format_rfc3339(moment: time::OffsetDateTime) -> (res: Result<String, time::error::Format>)
    ensures
        match res {
            Ok(s) => rfc3339_text(moment) == Some(s@) && is_rfc3339_timestamp(s@),
            Err(_) => rfc3339_text(moment) is None,
        },
{
    moment.format(&time::format_description::well_known::Rfc3339)
}

/// The current moment as RFC 3339 text in UTC, or the Unix epoch when the
/// moment cannot be formatted.
pub fn now_rfc3339() -> (s: String)
    ensures
        is_recorded_now(s@),
{
    let moment = now_utc();
    match format_rfc3339(moment) {
        Ok(text) => text,
        Err(_) => {
            proof {
                reveal_strlit("1970-01-01T00:00:00Z");
            }
            let text = String::from_str("1970-01-01T00:00:00Z");
            assert(rfc3339_text(moment) is None);
            text
        },
    }
}

} // verus!
