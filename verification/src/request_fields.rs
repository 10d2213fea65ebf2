//! Reading typed fields out of the JSON body of a workspace request.
use vstd::prelude::*;

use crate::calendar::{days_from_civil, midnight_seconds, parse_ymd, valid_date, ymd_text_of, Date};
use crate::text::{chars_of, owned, push_str, string_of, trim, trimmed};
use crate::types::WorkspaceError;

verus! {

/// One field of a request body, as far as the handlers look at it.
#[derive(Debug, Clone)]
pub enum BodyField {
    /// The body has no such field.
    Absent,
    Null,
    /// A JSON number: the integer when it fits an `i64`, else nothing.
    Number(Option<i64>),
    Text(String),
    /// A boolean, an array or an object.
    Other,
}

/// What `time_field` returns: none for an absent, null or blank field;
/// unix seconds as given; a `YYYY-MM-DD` date (after trimming) as 00:00
/// UTC of that day; anything else is refused, with the field named.
pub open spec fn time_field_spec(value: BodyField, field: Seq<char>) -> Result<Option<int>, Seq<char>> {
    match value {
        BodyField::Absent => Ok(None),
        BodyField::Null => Ok(None),
        BodyField::Number(Some(n)) => Ok(Some(n as int)),
        BodyField::Number(None) => Err(field + " must be unix seconds"@),
        BodyField::Text(t) => if trimmed(t@).len() == 0 {
            Ok(None)
        } else {
            match ymd_text_of(trimmed(t@)) {
                Some(d) => Ok(Some(days_from_civil(d.year as int, d.month as int, d.day as int) * 86400)),
                None => Err(field + " must be YYYY-MM-DD"@),
            }
        },
        BodyField::Other => Err(field + " has the wrong type"@),
    }
}

/// The time a parsed date field stands for: 00:00 UTC of the date, or the
/// refusal naming the field when the text was no `YYYY-MM-DD` date.
pub fn parsed_date_time(parsed: Option<Date>, field: &str) -> (r: Result<Option<i64>, WorkspaceError>)
    requires
        parsed matches Some(d) ==> valid_date(d),
    ensures
        match parsed {
            Some(d) => r matches Ok(Some(s)) && s == days_from_civil(d.year as int, d.month as int, d.day as int)
                * 86400,
            None => r matches Err(WorkspaceError::Invalid(e)) && e@ == field@ + " must be YYYY-MM-DD"@,
        },
{
    match parsed {
        Some(d) => Ok(Some(midnight_seconds(d))),
        None => {
            let mut m = owned(field);
            push_str(&mut m, " must be YYYY-MM-DD");
            Err(WorkspaceError::Invalid(m))
        },
    }
}

/// A point in time as unix seconds or a `YYYY-MM-DD` date, taken as 00:00
/// UTC. Absent, null or blank means none.
pub fn time_field(value: &BodyField, field: &str) -> (r: Result<Option<i64>, WorkspaceError>)
    ensures
        match time_field_spec(*value, field@) {
            Ok(Some(t)) => r matches Ok(Some(s)) && s == t,
            Ok(None) => r matches Ok(None),
            Err(m) => r matches Err(WorkspaceError::Invalid(e)) && e@ == m,
        },
{
    match value {
        BodyField::Absent => Ok(None),
        BodyField::Null => Ok(None),
        BodyField::Number(Some(n)) => Ok(Some(*n)),
        BodyField::Number(None) => {
            let mut m = owned(field);
            push_str(&mut m, " must be unix seconds");
            Err(WorkspaceError::Invalid(m))
        },
        BodyField::Text(t) => {
            let chars = chars_of(t.as_str());
            let core = trim(&chars);
            if core.len() == 0 {
                return Ok(None);
            }
            let core_text = string_of(&core);
            parsed_date_time(parse_ymd(core_text.as_str()), field)
        },
        BodyField::Other => {
            let mut m = owned(field);
            push_str(&mut m, " has the wrong type");
            Err(WorkspaceError::Invalid(m))
        },
    }
}

} // verus!
