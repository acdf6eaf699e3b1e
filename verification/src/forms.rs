//! Requests as a web form sends them: every field is text, and a due date
//! is written as a local date and time without seconds.

use vstd::prelude::*;
use vstd::string::StringExecFns;
use crate::dto::{CreateMemoDto, UpdateMemoDto};
use crate::error::{validation_text, AppError};
use crate::text::clone_text;
use crate::validation::{check_title, title_ok, violation_text, Violation};

verus! {

/// The form that creates a memo.
#[derive(Debug)]
pub struct WebCreateMemoForm {
    pub title: String,
    pub description: Option<String>,
    pub date_to: String,
}

/// The form that updates a memo. A checkbox that is ticked sends some text,
/// one that is not sends nothing.
#[derive(Debug)]
pub struct WebUpdateMemoForm {
    pub title: String,
    pub description: Option<String>,
    pub date_to: String,
    pub completed: Option<String>,
}

/// The moment that `text` names when read by the pattern `format`, taken as
/// UTC, in microseconds since the Unix epoch; `None` where the text does not
/// fit the pattern or names no real moment.
pub uninterp spec fn parsed_date(text: Seq<char>, format: Seq<char>) -> Option<i64>;

/// The pattern of a form's due date: year, month and day, a `T`, hours and
/// minutes.
pub open spec fn form_date_format() -> Seq<char> {
    "%Y-%m-%dT%H:%M"@
}

/// How a due date that does not fit the pattern is reported.
pub open spec fn date_format_text() -> Seq<char> {
    "Invalid date format. Expected YYYY-MM-DDTHH:MM"@
}

/// Reads a date and time by a pattern.
///
/// Trusted: calls `chrono::NaiveDateTime::parse_from_str`, which reads the
/// text by a `strftime` pattern and fails where it does not fit, then
/// `NaiveDateTime::and_utc` and `DateTime::timestamp_micros`. The result
/// depends on the text and the pattern alone.
#[verifier::external_body]
fn parse_date(text: &str, format: &str) -> (parsed: Option<i64>)
    ensures
        parsed == parsed_date(text@, format@),
{
    match chrono::NaiveDateTime::parse_from_str(text, format) {
        Ok(moment) => Some(moment.and_utc().timestamp_micros()),
        Err(_) => None,
    }
}

/// Reads the due date of a form.
pub fn parse_form_date(text: &str) -> (parsed: Option<i64>)
    ensures
        parsed == parsed_date(text@, form_date_format()),
{
    parse_date(text, "%Y-%m-%dT%H:%M")
}

/// What a form's title and due date amount to, given what the due date was
/// read as: a title outside its bounds is reported first, then a due date
/// that could not be read; otherwise the due date.
pub open spec fn form_outcome(title: Seq<char>, parsed: Option<i64>, checked: Result<i64, AppError>) -> bool {
    if !title_ok(title) {
        checked is Err && checked->Err_0.is_validation(
            validation_text(violation_text(Violation::TitleLength)),
        )
    } else if parsed is None {
        checked is Err && checked->Err_0.is_validation(date_format_text())
    } else {
        checked == Ok::<i64, AppError>(parsed->0)
    }
}

/// Checks a form's title, and its due date as it was read.
pub fn check_form(title: &str, parsed: Option<i64>) -> (checked: Result<i64, AppError>)
    ensures
        form_outcome(title@, parsed, checked),
{
    if !check_title(title) {
        let mut text = String::from_str("Validation failed: ");
        let line = Violation::TitleLength.text();
        text.append(line.as_str());
        return Err(AppError::Validation(text));
    }
    match parsed {
        Some(date_to) => Ok(date_to),
        None => Err(
            AppError::Validation(String::from_str("Invalid date format. Expected YYYY-MM-DDTHH:MM")),
        ),
    }
}

/// What a creation form amounts to, given what its due date was read as: a
/// refusal as for any form, or a creation with the form's title and
/// description and the due date that was read.
pub open spec fn create_form_outcome(
    form: WebCreateMemoForm,
    parsed: Option<i64>,
    dto: Result<CreateMemoDto, AppError>,
) -> bool {
    if title_ok(form.title@) && parsed is Some {
        &&& dto is Ok
        &&& dto->Ok_0.title@ == form.title@
        &&& dto->Ok_0.description.deep_view() == form.description.deep_view()
        &&& dto->Ok_0.date_to == parsed->0
    } else {
        dto is Err && form_outcome(form.title@, parsed, Err(dto->Err_0))
    }
}

/// What an update form amounts to, given what its due date was read as: a
/// refusal as for any form, or an update with the form's title and
/// description and the due date that was read, completed exactly when the
/// checkbox sent something.
pub open spec fn update_form_outcome(
    form: WebUpdateMemoForm,
    parsed: Option<i64>,
    dto: Result<UpdateMemoDto, AppError>,
) -> bool {
    if title_ok(form.title@) && parsed is Some {
        &&& dto is Ok
        &&& dto->Ok_0.title@ == form.title@
        &&& dto->Ok_0.description.deep_view() == form.description.deep_view()
        &&& dto->Ok_0.date_to == parsed->0
        &&& dto->Ok_0.completed == (form.completed is Some)
    } else {
        dto is Err && form_outcome(form.title@, parsed, Err(dto->Err_0))
    }
}

impl WebCreateMemoForm {
    /// The creation that this form asks for, given what its due date was read
    /// as.
    pub fn to_dto_with(&self, parsed: Option<i64>) -> (dto: Result<CreateMemoDto, AppError>)
        ensures
            create_form_outcome(*self, parsed, dto),
    {
        match check_form(self.title.as_str(), parsed) {
            Ok(date_to) => Ok(
                CreateMemoDto {
                    title: self.title.clone(),
                    description: clone_text(&self.description),
                    date_to,
                },
            ),
            Err(e) => Err(e),
        }
    }

    /// The creation that this form asks for.
    pub fn to_dto(&self) -> (dto: Result<CreateMemoDto, AppError>)
        ensures
            create_form_outcome(*self, parsed_date(self.date_to@, form_date_format()), dto),
    {
        let parsed = parse_form_date(self.date_to.as_str());
        self.to_dto_with(parsed)
    }
}

impl WebUpdateMemoForm {
    /// The update that this form asks for, given what its due date was read
    /// as.
    pub fn to_dto_with(&self, parsed: Option<i64>) -> (dto: Result<UpdateMemoDto, AppError>)
        ensures
            update_form_outcome(*self, parsed, dto),
    {
        match check_form(self.title.as_str(), parsed) {
            Ok(date_to) => Ok(
                UpdateMemoDto {
                    title: self.title.clone(),
                    description: clone_text(&self.description),
                    date_to,
                    completed: self.completed.is_some(),
                },
            ),
            Err(e) => Err(e),
        }
    }

    /// The update that this form asks for.
    pub fn to_dto(&self) -> (dto: Result<UpdateMemoDto, AppError>)
        ensures
            update_form_outcome(*self, parsed_date(self.date_to@, form_date_format()), dto),
    {
        let parsed = parse_form_date(self.date_to.as_str());
        self.to_dto_with(parsed)
    }
}

} // verus!
