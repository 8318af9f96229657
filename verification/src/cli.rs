//! What is asked of the user: which placeholders, and with what on offer.
//! Asking itself is left to the program.

use vstd::prelude::*;
use crate::functions;
use crate::functions::{is_month_text, is_now_text, is_registered, is_year_text};
use crate::template::compiled::{DefaultView, Field, Placeholder, PlaceholderDefault};

verus! {

/// The place of the first variable of `field` at or after `from`, or the
/// number of placeholders where none follows.
pub open spec fn variable_from(field: Field, from: int) -> int
    decreases field@.len() - from,
{
    if 0 <= from < field@.len() {
        if field@[from] is Variable {
            from
        } else {
            variable_from(field, from + 1)
        }
    } else {
        field@.len() as int
    }
}

/// The place of the next variable of `field` at or after `from`: the user
/// is asked for the variables in their order, and for nothing else.
pub fn next_variable(field: &Field, from: usize) -> (next: Option<usize>)
    ensures
        match next {
            Some(place) => from <= place < field@.len() && place == variable_from(
                *field,
                from as int,
            ),
            None => from >= field@.len() || variable_from(*field, from as int) == field@.len(),
        },
{
    let mut i: usize = from;
    while i < field.placeholders.len()
        invariant
            from <= i,
            i <= field.placeholders.len() || i == from,
            field@.len() == field.placeholders.len(),
            i <= field.placeholders.len() ==> variable_from(*field, from as int) == variable_from(
                *field,
                i as int,
            ),
        decreases field.placeholders.len() - i,
    {
        assert(field@[i as int] == field.placeholders[i as int]@);
        match &field.placeholders[i] {
            Placeholder::Variable { name: _, default: _ } => {
                return Some(i);
            },
            Placeholder::Function { name: _ } => {},
        }
        i += 1;
    }
    None
}

/// Whether an answer is taken: every variable needs a value, so an empty
/// answer is not.
pub fn is_answer(answer: &str) -> (taken: bool)
    ensures
        taken == (answer@.len() > 0),
{
    !answer.is_empty()
}

/// What is offered for `placeholder` when the user is asked: the text of
/// its default, or what the function of its default gives now, or nothing.
/// A function that the table does not hold is an error.
pub fn compute_default_value(placeholder: &Placeholder) -> (offer: functions::Result)
    ensures
        match placeholder@.default() {
            Some(DefaultView::Text(text)) => offer is Ok && offer->Ok_0@ == text,
            Some(DefaultView::Function(name)) => {
                &&& offer is Ok <==> is_registered(name)
                &&& offer matches Err(functions::Error::UnknownFunction(unknown)) ==> unknown@
                    == name
                &&& offer matches Ok(text) ==> {
                    &&& name == "now"@ ==> is_now_text(text@)
                    &&& name == "year"@ ==> is_year_text(text@)
                    &&& name == "month"@ ==> is_month_text(text@)
                }
            },
            None => offer is Ok && offer->Ok_0@.len() == 0,
        },
{
    match placeholder.default() {
        Some(PlaceholderDefault::String(text)) => Ok(text),
        Some(PlaceholderDefault::Function(name)) => functions::execute(name.as_str()),
        None => Ok(String::new()),
    }
}

} // verus!
