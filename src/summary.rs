use vstd::prelude::*;

use crate::courses::Program;
use crate::payload::{count_member, parse_json, text_leaves, text_member, Leaves};
use crate::text::{concat_text, decimal_of, decimal_text};

verus! {

pub const INFO_UNAVAILABLE: &'static str = "Информация недоступна";
pub const NO_DESCRIPTION: &'static str = "Нет описания";
pub const NO_COST: &'static str = "Не указана";
pub const NO_PLACES: &'static str = "Не указано";
pub const NO_FORM: &'static str = "Не указана";

pub const DESCRIPTION_LABEL: &'static str = "Описание: ";
pub const COST_LABEL: &'static str = ". Стоимость: ";
pub const PLACES_LABEL: &'static str = ". Места: ";
pub const FORM_LABEL: &'static str = " бюджетных. Форма: ";
pub const LINE_END: &'static str = ".";
pub const NAME_SEPARATOR: &'static str = ": ";
pub const COURSES_LABEL: &'static str = ". Количество курсов: ";
pub const URL_LABEL: &'static str = ". URL: ";

pub const DESCRIPTION_FIELD: &'static str = "description";
pub const COST_FIELD: &'static str = "cost";
pub const PLACES_FIELD: &'static str = "budget_places";
pub const FORM_FIELD: &'static str = "study_form";

/// The string at the top-level member `key`, or `default`.
pub open spec fn text_or(l: Leaves, key: Seq<char>, default: Seq<char>) -> Seq<char> {
    if l.0.contains_key(seq![key]) {
        l.0[seq![key]]
    } else {
        default
    }
}

/// The unsigned integer at the top-level member `key`, written in base 10, or `default`.
pub open spec fn count_text_or(l: Leaves, key: Seq<char>, default: Seq<char>) -> Seq<char> {
    if l.1.contains_key(seq![key]) {
        decimal_of(l.1[seq![key]] as nat)
    } else {
        default
    }
}

/// The line that sums up a program's record.
pub open spec fn info_line_of(l: Leaves) -> Seq<char> {
    DESCRIPTION_LABEL@ + text_or(l, DESCRIPTION_FIELD@, NO_DESCRIPTION@) + COST_LABEL@ + text_or(
        l,
        COST_FIELD@,
        NO_COST@,
    ) + PLACES_LABEL@ + count_text_or(l, PLACES_FIELD@, NO_PLACES@) + FORM_LABEL@ + text_or(
        l,
        FORM_FIELD@,
        NO_FORM@,
    ) + LINE_END@
}

/// The line that sums up a record given as JSON text, where there is one.
pub open spec fn info_summary_of(info: Option<Seq<char>>) -> Seq<char> {
    match info {
        Some(t) => match text_leaves(t) {
            Some(l) => info_line_of(l),
            None => INFO_UNAVAILABLE@,
        },
        None => INFO_UNAVAILABLE@,
    }
}

/// The summary of a program under the name `name`.
pub open spec fn program_summary_of(
    info: Option<Seq<char>>,
    name: Seq<char>,
    course_count: nat,
    url: Seq<char>,
) -> Seq<char> {
    name + NAME_SEPARATOR@ + info_summary_of(info) + COURSES_LABEL@ + decimal_of(course_count)
        + URL_LABEL@ + url
}

fn text_field_or(v: &serde_json::Value, key: &str, default: &str) -> (r: String)
    ensures
        r@ == text_or(crate::payload::json_leaves(*v), key@, default@),
{
    match text_member(v, key) {
        Some(t) => t,
        None => default.to_owned(),
    }
}

/// The line that sums up the record held by a JSON value.
fn info_line(v: &serde_json::Value) -> (r: String)
    ensures
        r@ == info_line_of(crate::payload::json_leaves(*v)),
{
    let description = text_field_or(v, DESCRIPTION_FIELD, NO_DESCRIPTION);
    let cost = text_field_or(v, COST_FIELD, NO_COST);
    let places = match count_member(v, PLACES_FIELD) {
        Some(n) => decimal_text(n),
        None => NO_PLACES.to_owned(),
    };
    let form = text_field_or(v, FORM_FIELD, NO_FORM);
    let s = concat_text(DESCRIPTION_LABEL, description.as_str());
    let s = concat_text(s.as_str(), COST_LABEL);
    let s = concat_text(s.as_str(), cost.as_str());
    let s = concat_text(s.as_str(), PLACES_LABEL);
    let s = concat_text(s.as_str(), places.as_str());
    let s = concat_text(s.as_str(), FORM_LABEL);
    let s = concat_text(s.as_str(), form.as_str());
    concat_text(s.as_str(), LINE_END)
}

/// A short description of a program for a prompt: its name, what its record
/// says of description, cost, budget places and form of study, the number of
/// its courses and its address.
pub fn create_program_summary(program: &Program, program_name: &str) -> (r: String)
    ensures
        r@ == program_summary_of(
            match program.info {
                Some(t) => Some(t@),
                None => None,
            },
            program_name@,
            program.courses@.len(),
            program.url@,
        ),
{
    let info_summary = match &program.info {
        Some(text) => match parse_json(text.as_str()) {
            Some(v) => info_line(&v),
            None => INFO_UNAVAILABLE.to_owned(),
        },
        None => INFO_UNAVAILABLE.to_owned(),
    };
    let count = decimal_text(program.courses.len() as u64);
    let s = concat_text(program_name, NAME_SEPARATOR);
    let s = concat_text(s.as_str(), info_summary.as_str());
    let s = concat_text(s.as_str(), COURSES_LABEL);
    let s = concat_text(s.as_str(), count.as_str());
    let s = concat_text(s.as_str(), URL_LABEL);
    concat_text(s.as_str(), program.url.as_str())
}

} // verus!
