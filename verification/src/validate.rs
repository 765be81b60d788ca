//! Field rules of a creation request.

use vstd::prelude::*;
use vstd::string::*;
use crate::model::{CreatePerson, CreatePersonView};

verus! {

/// The most characters a name may have.
pub const MAX_NAME_CHARS: usize = 100;

/// The most characters a nickname may have.
pub const MAX_NICKNAME_CHARS: usize = 32;

/// The most characters a single tag may have.
pub const MAX_TAG_CHARS: usize = 32;

/// Why a creation request is refused before anything is queued or cached.
#[derive(Clone, Copy, Debug, PartialEq, Eq, Structural)]
pub enum ValidationError {
    NameTooLong,
    NicknameTooLong,
    InvalidBirthdate,
    TagTooLong,
}

/// Whether `text` parses as a calendar date under the `strftime`-style
/// `format`, as chrono decides it.
pub uninterp spec fn date_parses(text: Seq<char>, format: Seq<char>) -> bool;

/// `chrono::NaiveDate::parse_from_str`: whether the text parses as a date
/// under the format. The answer depends on the two texts alone.
#[verifier::external_body]
fn parses_as_date(text: &str, format: &str) -> (ok: bool)
    ensures
        ok == date_parses(text@, format@),
{
    chrono::NaiveDate::parse_from_str(text, format).is_ok()
}

/// Every tag, if there are any, is within the tag limit.
pub open spec fn tags_within_limit(tags: Option<Seq<Seq<char>>>) -> bool {
    match tags {
        None => true,
        Some(t) => forall|i: int| 0 <= i < t.len() ==> (#[trigger] t[i]).len() <= MAX_TAG_CHARS,
    }
}

/// The first rule that the request breaks, given whether its birthdate is a
/// real date: name, nickname, birthdate, tags, in this order.
pub open spec fn field_verdict(payload: CreatePersonView, date_ok: bool) -> Result<
    (),
    ValidationError,
> {
    if payload.name.len() > MAX_NAME_CHARS {
        Err(ValidationError::NameTooLong)
    } else if payload.nickname.len() > MAX_NICKNAME_CHARS {
        Err(ValidationError::NicknameTooLong)
    } else if !date_ok {
        Err(ValidationError::InvalidBirthdate)
    } else if !tags_within_limit(payload.tags) {
        Err(ValidationError::TagTooLong)
    } else {
        Ok(())
    }
}

/// The verdict on a request whose birthdate must read as `YYYY-MM-DD`.
pub open spec fn verdict(payload: CreatePersonView) -> Result<(), ValidationError> {
    field_verdict(payload, date_parses(payload.birthdate, "%Y-%m-%d"@))
}

fn tags_fit(tags: &Option<Vec<String>>) -> (ok: bool)
    ensures
        ok == tags_within_limit(crate::model::tags_view(*tags)),
{
    match tags {
        None => true,
        Some(list) => {
            let mut i: usize = 0;
            while i < list.len()
                invariant
                    i <= list.len(),
                    *tags == Some(*list),
                    forall|k: int| 0 <= k < i ==> (#[trigger] list.deep_view()[k]).len() <= MAX_TAG_CHARS,
                decreases list.len() - i,
            {
                if list[i].as_str().unicode_len() > MAX_TAG_CHARS {
                    proof {
                        let d = list.deep_view();
                        assert(d[i as int].len() > MAX_TAG_CHARS);
                        if tags_within_limit(Some(d)) {
                            assert(d[i as int].len() <= MAX_TAG_CHARS);
                        }
                    }
                    return false;
                }
                i = i + 1;
            }
            true
        },
    }
}

/// Checks the fields of a request whose birthdate has already been judged.
pub fn check_fields(payload: &CreatePerson, date_ok: bool) -> (r: Result<(), ValidationError>)
    ensures
        r == field_verdict(payload@, date_ok),
{
    if payload.name.as_str().unicode_len() > MAX_NAME_CHARS {
        return Err(ValidationError::NameTooLong);
    }
    if payload.nickname.as_str().unicode_len() > MAX_NICKNAME_CHARS {
        return Err(ValidationError::NicknameTooLong);
    }
    if !date_ok {
        return Err(ValidationError::InvalidBirthdate);
    }
    if !tags_fit(&payload.tags) {
        return Err(ValidationError::TagTooLong);
    }
    Ok(())
}

/// Validates a creation request.
pub fn validate_payload(payload: &CreatePerson) -> (r: Result<(), ValidationError>)
    ensures
        r == verdict(payload@),
{
    let date_ok = parses_as_date(payload.birthdate.as_str(), "%Y-%m-%d");
    check_fields(payload, date_ok)
}

} // verus!
