use vstd::prelude::*;
use vstd::string::StringExecFns;
use validator::{ValidateEmail, ValidateLength, ValidationError, ValidationErrors};
use std::borrow::Cow;
use std::collections::HashMap;
use crate::errors::text_opt;

verus! {

/// Message used when no field-level problem can be reported.
pub const ERR_DATA_INVALID: &'static str = "ข้อมูลไม่ถูกต้อง";

#[verifier::external_type_specification]
#[verifier::external_body]
pub struct ExValidationErrors(validator::ValidationErrors);

/// What the field-level entries of a `ValidationErrors` hold: for each field,
/// the problems found with it in order, each as its code and optional message.
pub uninterp spec fn field_issues(errors: ValidationErrors) -> Map<Seq<char>, Seq<(Seq<char>, Option<Seq<char>>)>>;

/// The fields of a `ValidationErrors` whose entry is a nested (struct or list) one.
pub uninterp spec fn nested_fields(errors: ValidationErrors) -> Set<Seq<char>>;

/// Whether `validator`'s e-mail check accepts a text.
pub uninterp spec fn email_accepted(s: Seq<char>) -> bool;

/// One problem found with a field.
#[derive(Debug)]
pub struct FieldIssue {
    pub code: String,
    pub message: Option<String>,
}

impl View for FieldIssue {
    type V = (Seq<char>, Option<Seq<char>>);

    open spec fn view(&self) -> (Seq<char>, Option<Seq<char>>) {
        (self.code@, text_opt(self.message))
    }
}

/// The field-level entries of a collection with none.
pub open spec fn no_issues() -> Map<Seq<char>, Seq<(Seq<char>, Option<Seq<char>>)>> {
    Map::empty()
}

/// The problems recorded so far for a field (none if it has no entry).
pub open spec fn issues_of(
    m: Map<Seq<char>, Seq<(Seq<char>, Option<Seq<char>>)>>,
    field: Seq<char>,
) -> Seq<(Seq<char>, Option<Seq<char>>)> {
    if m.contains_key(field) { m[field] } else { Seq::empty() }
}

/// The text shown for a list of problems: the message of the first one, or its
/// code when it has no message; the general message when the list is empty.
pub open spec fn first_shown(list: Seq<(Seq<char>, Option<Seq<char>>)>) -> Seq<char> {
    if list.len() == 0 {
        ERR_DATA_INVALID@
    } else {
        match list[0].1 {
            Some(m) => m,
            None => list[0].0,
        }
    }
}

/// Whether `text` is what is shown for the field-level problems `m`: the
/// general message when there are none, else the text shown for some field.
pub open spec fn is_shown_message(
    m: Map<Seq<char>, Seq<(Seq<char>, Option<Seq<char>>)>>,
    text: Seq<char>,
) -> bool {
    if m == no_issues() {
        text == ERR_DATA_INVALID@
    } else {
        exists|k: Seq<char>| m.contains_key(k) && text == first_shown(#[trigger] m[k])
    }
}

/// `ValidationErrors::new`: a collection with no entries.
#[verifier::external_body]
pub(crate) fn new_issue_set() -> (r: ValidationErrors)
    ensures
        field_issues(r) == no_issues(),
        nested_fields(r) == Set::<Seq<char>>::empty(),
{
    ValidationErrors::new()
}

#[verifier::external_type_specification]
#[verifier::external_body]
pub struct ExValidationError(validator::ValidationError);

/// The code and message of a `ValidationError`.
pub uninterp spec fn error_issue(err: ValidationError) -> (Seq<char>, Option<Seq<char>>);

/// A `ValidationError` with the given code and message and no parameters,
/// as `ValidationError::new(code).with_message(message)` builds it.
#[verifier::external_body]
pub(crate) fn new_issue(code: &'static str, message: &'static str) -> (r: ValidationError)
    ensures
        error_issue(r) == (code@, Some(message@)),
{
    ValidationError { code: Cow::Borrowed(code), message: Some(Cow::Borrowed(message)), params: HashMap::new() }
}

/// `ValidationError::add_param` of a text value; code and message are kept.
#[verifier::external_body]
pub(crate) fn add_text_param(err: &mut ValidationError, name: &'static str, value: &String)
    ensures
        error_issue(*final(err)) == error_issue(*old(err)),
{
    err.add_param(Cow::Borrowed(name), value)
}

/// `ValidationError::add_param` of a number; code and message are kept.
#[verifier::external_body]
pub(crate) fn add_count_param(err: &mut ValidationError, name: &'static str, value: u64)
    ensures
        error_issue(*final(err)) == error_issue(*old(err)),
{
    err.add_param(Cow::Borrowed(name), &value)
}

/// `ValidationErrors::add`: the error is appended to the field's list. `add`
/// panics where the field holds a nested entry, which `requires` rules out.
#[verifier::external_body]
pub(crate) fn add_issue(errors: &mut ValidationErrors, field: &'static str, err: ValidationError)
    requires
        !nested_fields(*old(errors)).contains(field@),
    ensures
        field_issues(*final(errors)) == field_issues(*old(errors)).insert(
            field@,
            issues_of(field_issues(*old(errors)), field@).push(error_issue(err)),
        ),
        nested_fields(*final(errors)) == nested_fields(*old(errors)),
{
    errors.add(field, err)
}

/// The first entry that `ValidationErrors::field_errors` yields. That map is
/// walked in no fixed order, so only that the entry belongs to some field is
/// claimed, and that there is none exactly when no field has an entry.
#[verifier::external_body]
pub(crate) fn first_field_issues(errors: &ValidationErrors) -> (r: Option<Vec<FieldIssue>>)
    ensures
        r is None <==> field_issues(*errors) == no_issues(),
        r matches Some(v) ==> exists|k: Seq<char>|
            field_issues(*errors).contains_key(k)
            && #[trigger] field_issues(*errors)[k] == v@.map_values(|i: FieldIssue| i@),
{
    errors.field_errors().iter().next().map(|(_field, errs)| {
        errs.iter().map(|e| FieldIssue { code: e.code.to_string(), message: e.message.as_ref().map(|m| m.to_string()) }).collect()
    })
}

/// Whether every problem of a list has a message.
pub open spec fn all_have_messages(list: Seq<(Seq<char>, Option<Seq<char>>)>) -> bool {
    forall|i: int| 0 <= i < list.len() ==> (#[trigger] list[i]).1 is Some
}

/// The messages of a list of problems, joined by `", "`.
pub open spec fn joined_messages(list: Seq<(Seq<char>, Option<Seq<char>>)>) -> Seq<char>
    decreases list.len(),
{
    if list.len() == 0 {
        Seq::empty()
    } else if list.len() == 1 {
        list[0].1.unwrap()
    } else {
        joined_messages(list.drop_last()) + ", "@ + list.last().1.unwrap()
    }
}

/// The line that `Display` writes for a field entry whose problems all carry a
/// message: the field, `": "`, and the messages joined by `", "`.
pub open spec fn entry_line(field: Seq<char>, list: Seq<(Seq<char>, Option<Seq<char>>)>) -> Seq<char> {
    field + ": "@ + joined_messages(list)
}

/// Whether `text` is what `Display` writes for a collection with the field
/// entries `m` and nested entries `nested`, as far as it is claimed: for one or
/// two field entries (and no nested one) whose problems all carry a message,
/// the entry's line, or the two lines in either order.
pub open spec fn is_issues_text(
    m: Map<Seq<char>, Seq<(Seq<char>, Option<Seq<char>>)>>,
    nested: Set<Seq<char>>,
    text: Seq<char>,
) -> bool {
    &&& forall|k: Seq<char>|
        m == no_issues().insert(k, #[trigger] m[k]) && nested == Set::<Seq<char>>::empty()
            && all_have_messages(m[k])
            ==> text == entry_line(k, m[k])
    &&& forall|k1: Seq<char>, k2: Seq<char>|
        k1 != k2 && m == no_issues().insert(k1, #[trigger] m[k1]).insert(k2, #[trigger] m[k2])
            && nested == Set::<Seq<char>>::empty() && all_have_messages(m[k1]) && all_have_messages(m[k2])
            ==> text == entry_line(k1, m[k1]) + "\n"@ + entry_line(k2, m[k2])
                || text == entry_line(k2, m[k2]) + "\n"@ + entry_line(k1, m[k1])
}

/// The text of the collection from its `Display` impl (`to_string`): one line
/// per entry, separated by newlines, in the order of the unordered map. What
/// is claimed is the text of a collection of one or two field entries (and no
/// nested one) whose problems all carry a message: the entry's line, or the
/// two lines in either order (`display_errors` in validator's source).
#[verifier::external_body]
pub(crate) fn issues_text(errors: &ValidationErrors) -> (r: String)
    ensures
        is_issues_text(field_issues(*errors), nested_fields(*errors), r@),
{
    errors.to_string()
}

/// `validator`'s e-mail check (`ValidateEmail::validate_email`). Its result is
/// named; that a text without `@` is refused is shown in its source.
#[verifier::external_body]
pub(crate) fn email_is_valid(s: &String) -> (r: bool)
    ensures
        r == email_accepted(s@),
        !s@.contains('@') ==> !r,
{
    s.validate_email()
}

/// `validator`'s length check with a lower bound only
/// (`ValidateLength::validate_length`): the number of characters is at least `min`.
#[verifier::external_body]
pub(crate) fn length_at_least(s: &String, min: u64) -> (r: bool)
    ensures
        r == (s@.len() >= min),
{
    s.validate_length(Some(min), None, None)
}

/// The text shown for the first entry that `field_errors` yields (`None`
/// when there is none): the message of its first problem, or else that
/// problem's code; the general message when there is no problem.
pub fn shown_message(first: Option<Vec<FieldIssue>>) -> (r: String)
    ensures
        match first {
            None => r@ == ERR_DATA_INVALID@,
            Some(list) => r@ == first_shown(list@.map_values(|i: FieldIssue| i@)),
        },
{
    match first {
        None => String::from_str(ERR_DATA_INVALID),
        Some(list) => {
            let ghost lv = list@.map_values(|i: FieldIssue| i@);
            if list.len() == 0 {
                String::from_str(ERR_DATA_INVALID)
            } else {
                let first = &list[0];
                assert(lv[0] == first@);
                match &first.message {
                    Some(m) => m.clone(),
                    None => first.code.clone(),
                }
            }
        },
    }
}

/// The message shown for a failed validation: the message (or else the code)
/// of the first problem of the first field that `field_errors` yields; the
/// general message when there is no such problem.
pub fn format_validation_error(errors: &ValidationErrors) -> (r: String)
    ensures
        is_shown_message(field_issues(*errors), r@),
{
    let first = first_field_issues(errors);
    let ghost fv = first;
    let r = shown_message(first);
    proof {
        if let Some(list) = fv {
            let lv = list@.map_values(|i: FieldIssue| i@);
            let k = choose|k: Seq<char>|
                field_issues(*errors).contains_key(k) && #[trigger] field_issues(*errors)[k] == lv;
            assert(first_shown(field_issues(*errors)[k]) == r@);
        }
    }
    r
}

} // verus!
