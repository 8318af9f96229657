//! What holds of rendering for all texts, placeholders and values.

use vstd::prelude::*;
use crate::functions::is_registered;
use crate::template::compiled::PlaceholderView;
use crate::template::error::ErrorView;
use crate::template::fields::FieldName;
use crate::template::grammar::{
    is_well_formed, lemma_placeholder_at, lemma_placeholders_from, placeholder_at,
    placeholders_in,
};
use crate::template::raw;
use crate::template::receipt::{
    fails, failing, rank, renders, renders_before, renders_text, Rendered,
};
use crate::template::render::{
    fault_of, field_fault, first_fault, first_refusal, is_resolution, joined, literal, names_of,
    pattern_of, pattern_refused, rendered, rendering, renders_to, substituted, substitution,
    SegmentView,
};
use crate::template::values::Values;

verus! {

/// Every placeholder that the grammar finds in a text is well formed: its
/// name is a letter followed by letters and digits, and so is the name of a
/// function that it offers; a text that it offers is not empty and holds
/// letters, digits and blanks only.
pub proof fn law_found_placeholders_are_well_formed(text: Seq<char>, k: int)
    requires
        0 <= k < placeholders_in(text).len(),
    ensures
        is_well_formed(placeholders_in(text)[k]),
{
    lemma_placeholders_from(text, 0);
}

/// A placeholder ends behind its start and within the text: the grammar
/// never stops on one, and never reads beyond the text.
pub proof fn law_placeholder_ends_behind_its_start(text: Seq<char>, i: int)
    requires
        placeholder_at(text, i) is Some,
    ensures
        i < (placeholder_at(text, i)->0).1 <= text.len(),
{
    lemma_placeholder_at(text, i);
}

/// Values that were set in stay as they are: where no segment is literal,
/// no pattern changes anything.
pub proof fn law_values_stay(segments: Seq<SegmentView>, pattern: Seq<char>, value: Seq<char>)
    requires
        forall|i: int| 0 <= i < segments.len() ==> !(#[trigger] segments[i]).literal,
    ensures
        substituted(segments, pattern, value) == segments,
    decreases segments.len(),
{
    if segments.len() > 0 {
        law_values_stay(segments.drop_last(), pattern, value);
        assert(segments.drop_last() + seq![segments.last()] =~= segments);
    }
}

/// A text with no placeholder renders to itself, whatever the values are.
pub proof fn law_plain_text_is_unchanged(
    text: Seq<char>,
    field: FieldName,
    values: Values,
    outcome: Result<Seq<char>, ErrorView>,
)
    requires
        placeholders_in(text).len() == 0,
        renders_to(placeholders_in(text), field, text, values, outcome),
    ensures
        outcome == Ok::<Seq<char>, ErrorView>(text),
{
}

/// Every slot of a template that holds no placeholder is rendered to its
/// own text, whatever the values are.
pub proof fn law_plain_slot_is_unchanged(
    raw: raw::Template,
    values: Values,
    output: Rendered,
    name: FieldName,
)
    requires
        renders(raw, values, output),
        raw.slot(name) is Some,
        placeholders_in(raw.slot(name)->0).len() == 0,
    ensures
        output.slot(name) == raw.slot(name),
{
}

/// Replacing no placeholder leaves the text as it is.
pub proof fn law_nothing_to_replace(text: Seq<char>, values: Seq<Seq<char>>)
    ensures
        rendered(text, Seq::<Seq<char>>::empty(), values) == text,
{
    let segments = rendering(text, Seq::<Seq<char>>::empty(), values, 0);
    assert(segments == seq![literal(text)]);
    assert(segments.drop_last() =~= Seq::empty());
    assert(joined(segments.drop_last()) =~= Seq::<char>::empty());
    assert(joined(segments) =~= text);
}

/// Whether every placeholder is a variable.
pub open spec fn only_variables(placeholders: Seq<PlaceholderView>) -> bool {
    forall|i: int| 0 <= i < placeholders.len() ==> #[trigger] placeholders[i] is Variable
}

/// Variables have one value each: two rows of values for the same variables
/// and the same build are the same row.
pub proof fn law_variables_have_one_value(
    placeholders: Seq<PlaceholderView>,
    held: Map<Seq<char>, Seq<char>>,
    first: Seq<Seq<char>>,
    second: Seq<Seq<char>>,
)
    requires
        only_variables(placeholders),
        is_resolution(placeholders, held, first),
        is_resolution(placeholders, held, second),
    ensures
        first == second,
{
    assert forall|i: int| 0 <= i < first.len() implies first[i] == second[i] by {
        assert(placeholders[i] is Variable);
    }
    assert(first =~= second);
}

/// Two renderings of a field whose placeholders are all variables, with the
/// same values, come to the same: the same text, or the same error.
pub proof fn law_literal_renders_agree(
    placeholders: Seq<PlaceholderView>,
    field: FieldName,
    text: Seq<char>,
    values: Values,
    first: Result<Seq<char>, ErrorView>,
    second: Result<Seq<char>, ErrorView>,
)
    requires
        only_variables(placeholders),
        renders_to(placeholders, field, text, values, first),
        renders_to(placeholders, field, text, values, second),
    ensures
        first == second,
{
    if placeholders.len() > 0 && field_fault(placeholders, field, values) is None {
        let held = values.at(field)->0@;
        let names = names_of(placeholders);
        let one = choose|found: Seq<Seq<char>>|
            is_resolution(placeholders, held, found) && first == #[trigger] substitution(
                text,
                names,
                found,
                field,
            );
        let other = choose|found: Seq<Seq<char>>|
            is_resolution(placeholders, held, found) && second == #[trigger] substitution(
                text,
                names,
                found,
                field,
            );
        law_variables_have_one_value(placeholders, held, one, other);
    }
}

/// Whether every placeholder of every slot of `raw` is a variable.
pub open spec fn only_variables_in(raw: raw::Template) -> bool {
    forall|name: FieldName|
        (#[trigger] raw.slot(name)) matches Some(text) ==> only_variables(placeholders_in(text))
}

/// Two renderings of a template with the same values agree in every slot
/// whose placeholders are all variables.
pub proof fn law_literal_templates_agree(
    raw: raw::Template,
    values: Values,
    first: Rendered,
    second: Rendered,
    name: FieldName,
)
    requires
        renders(raw, values, first),
        renders(raw, values, second),
        raw.slot(name) is Some,
        only_variables(placeholders_in(raw.slot(name)->0)),
    ensures
        first.slot(name) == second.slot(name),
{
    let text = raw.slot(name)->0;
    law_literal_renders_agree(
        placeholders_in(text),
        name,
        text,
        values,
        Ok(first.slot(name)->0),
        Ok(second.slot(name)->0),
    );
}

/// Of a template whose placeholders are all variables, two renderings with
/// the same values that fail, fail with the same error.
pub proof fn law_literal_failures_agree(
    raw: raw::Template,
    values: Values,
    first: ErrorView,
    second: ErrorView,
)
    requires
        only_variables_in(raw),
        fails(raw, values, first),
        fails(raw, values, second),
    ensures
        first == second,
{
    let one = choose|name: FieldName| failing(raw, values, first, name);
    let other = choose|name: FieldName| failing(raw, values, second, name);
    assert(failing(raw, values, first, one));
    assert(failing(raw, values, second, other));
    let text = raw.slot(one)->0;
    if rank(one) < rank(other) {
        assert(renders_before(raw.slot(one), one, values));
        let output = choose|output: Seq<char>| renders_text(text, one, values, output);
        law_literal_renders_agree(
            placeholders_in(text),
            one,
            text,
            values,
            Ok(output),
            Err(first),
        );
    } else if rank(other) < rank(one) {
        let late = raw.slot(other)->0;
        assert(renders_before(raw.slot(other), other, values));
        let output = choose|output: Seq<char>| renders_text(late, other, values, output);
        law_literal_renders_agree(
            placeholders_in(late),
            other,
            late,
            values,
            Ok(output),
            Err(second),
        );
    } else {
        assert(one == other);
        law_literal_renders_agree(
            placeholders_in(text),
            one,
            text,
            values,
            Err(first),
            Err(second),
        );
    }
}

/// Of a template whose placeholders are all variables, no rendering
/// succeeds where another with the same values fails.
pub proof fn law_literal_template_renders_or_fails(
    raw: raw::Template,
    values: Values,
    output: Rendered,
    error: ErrorView,
)
    requires
        only_variables_in(raw),
        renders(raw, values, output),
    ensures
        !fails(raw, values, error),
{
    if fails(raw, values, error) {
        let name = choose|name: FieldName| failing(raw, values, error, name);
        assert(failing(raw, values, error, name));
        let text = raw.slot(name)->0;
        law_literal_renders_agree(
            placeholders_in(text),
            name,
            text,
            values,
            Ok(output.slot(name)->0),
            Err(error),
        );
    }
}

/// Where the regex engine refuses none of the patterns, no placeholder is
/// refused its turn.
pub proof fn lemma_no_refusal(
    text: Seq<char>,
    names: Seq<Seq<char>>,
    values: Seq<Seq<char>>,
    from: int,
)
    requires
        forall|k: int| 0 <= k < names.len() ==> !pattern_refused(pattern_of(#[trigger] names[k])),
    ensures
        first_refusal(text, names, values, from) is None,
    decreases names.len() - from,
{
    if 0 <= from < names.len() {
        assert(!pattern_refused(pattern_of(names[from])));
        lemma_no_refusal(text, names, values, from + 1);
    }
}

/// Rendering a field succeeds where success is owed: the field has values
/// where it has placeholders, every variable has a value, every function is
/// in the table, and the regex engine refuses none of the patterns.
pub proof fn law_rendering_succeeds(
    placeholders: Seq<PlaceholderView>,
    field: FieldName,
    text: Seq<char>,
    values: Values,
    outcome: Result<Seq<char>, ErrorView>,
)
    requires
        field_fault(placeholders, field, values) is None,
        forall|k: int|
            0 <= k < placeholders.len() ==> !pattern_refused(
                pattern_of((#[trigger] placeholders[k]).name()),
            ),
        renders_to(placeholders, field, text, values, outcome),
    ensures
        outcome is Ok,
{
    if placeholders.len() > 0 {
        let names = names_of(placeholders);
        assert forall|k: int| 0 <= k < names.len() implies !pattern_refused(
            pattern_of(#[trigger] names[k]),
        ) by {
            assert(names[k] == placeholders[k].name());
        }
        assert forall|found: Seq<Seq<char>>| (#[trigger] substitution(
            text,
            names,
            found,
            field,
        )) is Ok by {
            lemma_no_refusal(text, names, found, 0);
        }
    }
}

/// Where a placeholder of a field has a fault, the fault of the first such
/// placeholder is what the field has.
pub proof fn lemma_first_fault(
    placeholders: Seq<PlaceholderView>,
    i: int,
    k: int,
    field: FieldName,
    held: Map<Seq<char>, Seq<char>>,
)
    requires
        0 <= i <= k < placeholders.len(),
        fault_of(placeholders[k], field, held) is Some,
        forall|j: int| i <= j < k ==> fault_of(#[trigger] placeholders[j], field, held) is None,
    ensures
        first_fault(placeholders, i, field, held) == fault_of(placeholders[k], field, held),
    decreases k - i,
{
    if i < k {
        assert(fault_of(placeholders[i], field, held) is None);
        lemma_first_fault(placeholders, i + 1, k, field, held);
    }
}

/// A fault of any placeholder makes the field have a fault.
pub proof fn lemma_some_fault(
    placeholders: Seq<PlaceholderView>,
    i: int,
    k: int,
    field: FieldName,
    held: Map<Seq<char>, Seq<char>>,
)
    requires
        0 <= i <= k < placeholders.len(),
        fault_of(placeholders[k], field, held) is Some,
    ensures
        first_fault(placeholders, i, field, held) is Some,
    decreases k - i,
{
    if i < k {
        lemma_some_fault(placeholders, i + 1, k, field, held);
    }
}

/// A variable without a value makes the rendering of its field fail: no
/// text comes out, with nothing in the variable's place. Where no
/// placeholder before it has a fault, the error is `MissingValue` with the
/// field and the variable's name.
pub proof fn law_missing_value_fails(
    placeholders: Seq<PlaceholderView>,
    k: int,
    field: FieldName,
    text: Seq<char>,
    values: Values,
    outcome: Result<Seq<char>, ErrorView>,
)
    requires
        0 <= k < placeholders.len(),
        placeholders[k] is Variable,
        values.at(field) is Some,
        !values.at(field)->0@.contains_key(placeholders[k].name()),
        renders_to(placeholders, field, text, values, outcome),
    ensures
        outcome is Err,
        (forall|j: int|
            0 <= j < k ==> fault_of(#[trigger] placeholders[j], field, values.at(field)->0@)
                is None) ==> outcome == Err::<Seq<char>, ErrorView>(
            ErrorView::MissingValue(field, placeholders[k].name()),
        ),
{
    let held = values.at(field)->0@;
    lemma_some_fault(placeholders, 0, k, field, held);
    if forall|j: int| 0 <= j < k ==> fault_of(#[trigger] placeholders[j], field, held) is None {
        lemma_first_fault(placeholders, 0, k, field, held);
    }
}

/// A function that the table does not hold makes the rendering of its field
/// fail. Where the field has values and no placeholder before the function
/// has a fault, the error is `UnknownFunction` with the function's name.
pub proof fn law_unknown_function_fails(
    placeholders: Seq<PlaceholderView>,
    k: int,
    field: FieldName,
    text: Seq<char>,
    values: Values,
    outcome: Result<Seq<char>, ErrorView>,
)
    requires
        0 <= k < placeholders.len(),
        placeholders[k] is Function,
        !is_registered(placeholders[k].name()),
        renders_to(placeholders, field, text, values, outcome),
    ensures
        outcome is Err,
        values.at(field) is Some && (forall|j: int|
            0 <= j < k ==> fault_of(#[trigger] placeholders[j], field, values.at(field)->0@)
                is None) ==> outcome == Err::<Seq<char>, ErrorView>(
            ErrorView::UnknownFunction(placeholders[k].name()),
        ),
{
    if values.at(field) is Some {
        let held = values.at(field)->0@;
        lemma_some_fault(placeholders, 0, k, field, held);
        if forall|j: int| 0 <= j < k ==> fault_of(#[trigger] placeholders[j], field, held) is None {
            lemma_first_fault(placeholders, 0, k, field, held);
        }
    }
}

} // verus!
