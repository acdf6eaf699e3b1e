//! The rules that a request must meet before the store is touched.

use vstd::prelude::*;
use vstd::string::StringExecFns;

verus! {

/// The fewest characters a title may have.
pub const TITLE_MIN: u64 = 1;

/// The most characters a title may have.
pub const TITLE_MAX: u64 = 200;

/// The most characters a description may have.
pub const DESCRIPTION_MAX: u64 = 1000;

/// The smallest page size.
pub const LIMIT_MIN: u64 = 1;

/// The largest page size.
pub const LIMIT_MAX: u64 = 100;

/// The most characters the name of a sort field may have.
pub const SORT_BY_MAX: u64 = 50;

/// A rule that a request broke.
#[derive(Clone, Copy, Debug, PartialEq, Eq, Structural)]
pub enum Violation {
    /// The title has no character or more than 200.
    TitleLength,
    /// The description has more than 1000 characters.
    DescriptionLength,
    /// The page size is not between 1 and 100.
    LimitRange,
    /// The name of the sort field has more than 50 characters.
    SortByLength,
}

/// A title is valid when it has between 1 and 200 characters.
pub open spec fn title_ok(title: Seq<char>) -> bool {
    TITLE_MIN <= title.len() <= TITLE_MAX
}

/// A description is valid when it has at most 1000 characters.
pub open spec fn description_ok(description: Seq<char>) -> bool {
    description.len() <= DESCRIPTION_MAX
}

/// A page size is valid when it is between 1 and 100.
pub open spec fn limit_ok(limit: u64) -> bool {
    LIMIT_MIN <= limit <= LIMIT_MAX
}

/// The name of a sort field is valid when it has at most 50 characters.
pub open spec fn sort_by_ok(name: Seq<char>) -> bool {
    name.len() <= SORT_BY_MAX
}

/// The rules that a title and a description break, the title's first. A field
/// that is absent breaks none.
pub open spec fn memo_violations(title: Option<Seq<char>>, description: Option<Seq<char>>) -> Seq<Violation> {
    let of_title = if title is Some && !title_ok(title->0) {
        seq![Violation::TitleLength]
    } else {
        Seq::<Violation>::empty()
    };
    let of_description = if description is Some && !description_ok(description->0) {
        seq![Violation::DescriptionLength]
    } else {
        Seq::<Violation>::empty()
    };
    of_title + of_description
}

/// The rules that a page size and the name of a sort field break, the page
/// size's first. A field that is absent breaks none.
pub open spec fn page_violations(limit: Option<u64>, sort_by: Option<Seq<char>>) -> Seq<Violation> {
    let of_limit = if limit is Some && !limit_ok(limit->0) {
        seq![Violation::LimitRange]
    } else {
        Seq::<Violation>::empty()
    };
    let of_sort_by = if sort_by is Some && !sort_by_ok(sort_by->0) {
        seq![Violation::SortByLength]
    } else {
        Seq::<Violation>::empty()
    };
    of_limit + of_sort_by
}

/// The line that reports a broken rule: the field, a colon, and what the
/// field must be.
pub open spec fn violation_text(violation: Violation) -> Seq<char> {
    match violation {
        Violation::TitleLength => "title: Title must be between 1 and 200 characters"@,
        Violation::DescriptionLength => "description: Description must not exceed 1000 characters"@,
        Violation::LimitRange => "limit: Limit must be between 1 and 100"@,
        Violation::SortByLength => "sort_by: Sort field must not exceed 50 characters"@,
    }
}

/// The report of several broken rules: their lines, one below the other.
pub open spec fn report_text(violations: Seq<Violation>) -> Seq<char>
    decreases violations.len(),
{
    if violations.len() == 0 {
        Seq::<char>::empty()
    } else if violations.len() == 1 {
        violation_text(violations[0])
    } else {
        report_text(violations.drop_last()) + "\n"@ + violation_text(violations.last())
    }
}

/// The broken rules of one request, in the order of its fields. A value
/// handed out as an error holds at least one.
#[derive(Debug)]
pub struct ValidationErrors {
    pub violations: Vec<Violation>,
}

impl Violation {
    /// The line that reports this broken rule.
    pub fn text(&self) -> (line: String)
        ensures
            line@ == violation_text(*self),
    {
        match self {
            Violation::TitleLength => String::from_str(
                "title: Title must be between 1 and 200 characters",
            ),
            Violation::DescriptionLength => String::from_str(
                "description: Description must not exceed 1000 characters",
            ),
            Violation::LimitRange => String::from_str("limit: Limit must be between 1 and 100"),
            Violation::SortByLength => String::from_str(
                "sort_by: Sort field must not exceed 50 characters",
            ),
        }
    }
}

impl ValidationErrors {
    /// The report of these broken rules.
    pub fn text(&self) -> (report: String)
        ensures
            report@ == report_text(self.violations@),
    {
        let mut report = String::new();
        let mut i: usize = 0;
        assert(self.violations@.take(0) =~= Seq::<Violation>::empty());
        while i < self.violations.len()
            invariant
                i <= self.violations.len(),
                report@ == report_text(self.violations@.take(i as int)),
            decreases self.violations.len() - i,
        {
            let ghost upto = self.violations@.take(i + 1);
            assert(upto.drop_last() =~= self.violations@.take(i as int));
            assert(upto.last() == self.violations@[i as int]);
            if i > 0 {
                report.append("\n");
            }
            let line = self.violations[i].text();
            report.append(line.as_str());
            assert(report@ =~= report_text(upto));
            i += 1;
        }
        assert(self.violations@.take(i as int) =~= self.violations@);
        report
    }
}

/// Whether a text has at least `min` and at most `max` characters, each bound
/// counting only where it is given.
///
/// Trusted: calls `validator::ValidateLength::validate_length` on a `str`
/// without its `equal` argument. That function counts the characters of the
/// text and compares the count with the bounds that are present.
#[verifier::external_body]
fn length_within(text: &str, min: Option<u64>, max: Option<u64>) -> (ok: bool)
    ensures
        ok == ((min is Some ==> text@.len() >= min->0) && (max is Some ==> text@.len() <= max->0)),
{
    validator::ValidateLength::validate_length(text, min, max, None)
}

/// Whether a number is at least `min` and at most `max`, each bound counting
/// only where it is given.
///
/// Trusted: calls `validator::ValidateRange::validate_range` on a `u64`
/// without exclusive bounds. That function compares the number with the
/// bounds that are present.
#[verifier::external_body]
fn number_within(value: u64, min: Option<u64>, max: Option<u64>) -> (ok: bool)
    ensures
        ok == ((min is Some ==> value >= min->0) && (max is Some ==> value <= max->0)),
{
    validator::ValidateRange::validate_range(&value, min, max, None, None)
}

/// Decides `title_ok`.
pub fn check_title(title: &str) -> (ok: bool)
    ensures
        ok == title_ok(title@),
{
    length_within(title, Some(TITLE_MIN), Some(TITLE_MAX))
}

/// Decides `description_ok`.
pub fn check_description(description: &str) -> (ok: bool)
    ensures
        ok == description_ok(description@),
{
    length_within(description, None, Some(DESCRIPTION_MAX))
}

/// Decides `limit_ok`.
pub fn check_limit(limit: u64) -> (ok: bool)
    ensures
        ok == limit_ok(limit),
{
    number_within(limit, Some(LIMIT_MIN), Some(LIMIT_MAX))
}

/// Decides `sort_by_ok`.
pub fn check_sort_by(name: &str) -> (ok: bool)
    ensures
        ok == sort_by_ok(name@),
{
    length_within(name, None, Some(SORT_BY_MAX))
}

/// Checks a title and a description, each where it is present, and reports
/// every rule that they break.
pub fn check_memo_fields(title: Option<&str>, description: Option<&str>) -> (checked: Result<
    (),
    ValidationErrors,
>)
    ensures
        checked is Ok <==> memo_violations(title.deep_view(), description.deep_view()).len() == 0,
        checked is Err ==> checked->Err_0.violations@ == memo_violations(
            title.deep_view(),
            description.deep_view(),
        ),
{
    let mut violations: Vec<Violation> = Vec::new();
    match title {
        Some(t) => {
            if !check_title(t) {
                violations.push(Violation::TitleLength);
            }
        },
        None => {},
    }
    match description {
        Some(d) => {
            if !check_description(d) {
                violations.push(Violation::DescriptionLength);
            }
        },
        None => {},
    }
    assert(violations@ =~= memo_violations(title.deep_view(), description.deep_view()));
    if violations.len() == 0 {
        Ok(())
    } else {
        Err(ValidationErrors { violations })
    }
}

/// Checks a page size and the name of a sort field, each where it is present,
/// and reports every rule that they break.
pub fn check_page_fields(limit: Option<u64>, sort_by: Option<&str>) -> (checked: Result<
    (),
    ValidationErrors,
>)
    ensures
        checked is Ok <==> page_violations(limit, sort_by.deep_view()).len() == 0,
        checked is Err ==> checked->Err_0.violations@ == page_violations(limit, sort_by.deep_view()),
{
    let mut violations: Vec<Violation> = Vec::new();
    match limit {
        Some(l) => {
            if !check_limit(l) {
                violations.push(Violation::LimitRange);
            }
        },
        None => {},
    }
    match sort_by {
        Some(name) => {
            if !check_sort_by(name) {
                violations.push(Violation::SortByLength);
            }
        },
        None => {},
    }
    assert(violations@ =~= page_violations(limit, sort_by.deep_view()));
    if violations.len() == 0 {
        Ok(())
    } else {
        Err(ValidationErrors { violations })
    }
}

} // verus!
