//! Rendering: every placeholder of a field's text gives way to its value.
//!
//! The text is kept as a row of segments. At first it is one literal segment.
//! Placeholder by placeholder, each literal segment is split where the
//! placeholder's pattern matches, and the value is set between the pieces.
//! A value that was set in is never searched again, so no value can be taken
//! for a placeholder.

use vstd::prelude::*;
use vstd::string::StringExecFns;
use crate::functions;
use crate::functions::{is_month_text, is_now_text, is_registered, is_year_text};
use crate::template::compiled::{Field, Placeholder, PlaceholderView, Template};
use crate::template::error::{Error, ErrorView};
use crate::template::fields::FieldName;
use crate::template::raw;
use crate::template::values::{FieldValues, Values};

verus! {

/// A stretch of a field's text while it is rendered.
#[derive(Debug, PartialEq, Eq)]
pub struct Segment {
    /// The characters of the stretch.
    pub text: String,
    /// Whether the stretch comes from the raw text; else it is a value.
    pub literal: bool,
}

/// A segment as a mathematical value.
pub struct SegmentView {
    pub text: Seq<char>,
    pub literal: bool,
}

impl View for Segment {
    type V = SegmentView;

    open spec fn view(&self) -> SegmentView {
        SegmentView { text: self.text@, literal: self.literal }
    }
}

impl DeepView for Segment {
    type V = SegmentView;

    open spec fn deep_view(&self) -> SegmentView {
        self@
    }
}

/// A stretch of raw text.
pub open spec fn literal(text: Seq<char>) -> SegmentView {
    SegmentView { text, literal: true }
}

/// A value that was set in.
pub open spec fn inserted(text: Seq<char>) -> SegmentView {
    SegmentView { text, literal: false }
}

/// What `Regex::split` of the `regex` crate yields for the regex compiled
/// from `pattern` and the haystack `text`: the stretches of `text` between
/// the matches, in order.
pub uninterp spec fn pattern_pieces(pattern: Seq<char>, text: Seq<char>) -> Seq<Seq<char>>;

/// Whether `Regex::new` of the `regex` crate refuses `pattern`: it is no
/// regular expression, or one that is too large.
pub uninterp spec fn pattern_refused(pattern: Seq<char>) -> bool;

/// `Regex::new` of the `regex` crate on `pattern`, and `Regex::split` of what
/// it returns on `text`. `None` stands for the error of `Regex::new`. The
/// contract gives the refusal and the pieces a name each, and claims that the
/// refusal depends on the pattern alone and the pieces on the two texts
/// alone.
#[verifier::external_body]
fn split(pattern: &str, text: &str) -> (pieces: Option<Vec<String>>)
    ensures
        pieces is None <==> pattern_refused(pattern@),
        pieces matches Some(found) ==> found.deep_view() == pattern_pieces(pattern@, text@),
{
    match regex::Regex::new(pattern) {
        Ok(matcher) => Some(matcher.split(text).map(|piece| piece.to_owned()).collect()),
        Err(_) => None,
    }
}

/// The pieces as literal segments, with `value` set between each two.
pub open spec fn interleaved(pieces: Seq<Seq<char>>, value: Seq<char>) -> Seq<SegmentView>
    decreases pieces.len(),
{
    if pieces.len() == 0 {
        Seq::empty()
    } else if pieces.len() == 1 {
        seq![literal(pieces[0])]
    } else {
        interleaved(pieces.drop_last(), value).push(inserted(value)).push(literal(pieces.last()))
    }
}

/// The segments after the matches of `pattern` in the literal ones have given
/// way to `value`.
pub open spec fn substituted(
    segments: Seq<SegmentView>,
    pattern: Seq<char>,
    value: Seq<char>,
) -> Seq<SegmentView>
    decreases segments.len(),
{
    if segments.len() == 0 {
        Seq::empty()
    } else {
        let last = segments.last();
        substituted(segments.drop_last(), pattern, value) + if last.literal {
            interleaved(pattern_pieces(pattern, last.text), value)
        } else {
            seq![last]
        }
    }
}

/// The text that the segments make up.
pub open spec fn joined(segments: Seq<SegmentView>) -> Seq<char>
    decreases segments.len(),
{
    if segments.len() == 0 {
        Seq::empty()
    } else {
        joined(segments.drop_last()) + segments.last().text
    }
}

/// The pattern of the placeholder called `name`, as a regular expression:
/// two opening braces, white space, the name, and then as little as possible
/// up to two closing braces.
pub open spec fn pattern_of(name: Seq<char>) -> Seq<char> {
    "\\{\\{\\s*"@ + name + ".*?\\}\\}"@
}

/// The segments of `text` after the first `count` placeholders gave way to
/// their values.
pub open spec fn rendering(
    text: Seq<char>,
    names: Seq<Seq<char>>,
    values: Seq<Seq<char>>,
    count: int,
) -> Seq<SegmentView>
    decreases count,
{
    if count <= 0 {
        seq![literal(text)]
    } else {
        substituted(
            rendering(text, names, values, count - 1),
            pattern_of(names[count - 1]),
            values[count - 1],
        )
    }
}

/// `text` after the placeholders called `names` gave way to `values`, one
/// after the other.
pub open spec fn rendered(text: Seq<char>, names: Seq<Seq<char>>, values: Seq<Seq<char>>) -> Seq<
    char,
> {
    joined(rendering(text, names, values, names.len() as int))
}

/// The names of the placeholders.
pub open spec fn names_of(placeholders: Seq<PlaceholderView>) -> Seq<Seq<char>> {
    placeholders.map_values(|p: PlaceholderView| p.name())
}

/// Why `placeholder` has no value: a variable that `held` lacks, a function
/// that the table lacks.
pub open spec fn fault_of(
    placeholder: PlaceholderView,
    field: FieldName,
    held: Map<Seq<char>, Seq<char>>,
) -> Option<ErrorView> {
    match placeholder {
        PlaceholderView::Variable { name, default } => if held.contains_key(name) {
            None
        } else {
            Some(ErrorView::MissingValue(field, name))
        },
        PlaceholderView::Function { name } => if is_registered(name) {
            None
        } else {
            Some(ErrorView::UnknownFunction(name))
        },
    }
}

/// Why the first placeholder from `i` on that has no value has none.
pub open spec fn first_fault(
    placeholders: Seq<PlaceholderView>,
    i: int,
    field: FieldName,
    held: Map<Seq<char>, Seq<char>>,
) -> Option<ErrorView>
    decreases placeholders.len() - i,
{
    if 0 <= i < placeholders.len() {
        match fault_of(placeholders[i], field, held) {
            Some(fault) => Some(fault),
            None => first_fault(placeholders, i + 1, field, held),
        }
    } else {
        None
    }
}

/// Whether `value` can be the value of `placeholder`: for a variable what
/// `held` has for it, for a function what the function can give.
pub open spec fn resolves(
    placeholder: PlaceholderView,
    held: Map<Seq<char>, Seq<char>>,
    value: Seq<char>,
) -> bool {
    match placeholder {
        PlaceholderView::Variable { name, default } => held.contains_key(name) && value
            == held[name],
        PlaceholderView::Function { name } => {
            &&& is_registered(name)
            &&& name == "now"@ ==> is_now_text(value)
            &&& name == "year"@ ==> is_year_text(value)
            &&& name == "month"@ ==> is_month_text(value)
        },
    }
}

/// Whether `values` can be the values of `placeholders`, one for one.
pub open spec fn is_resolution(
    placeholders: Seq<PlaceholderView>,
    held: Map<Seq<char>, Seq<char>>,
    values: Seq<Seq<char>>,
) -> bool {
    &&& values.len() == placeholders.len()
    &&& forall|i: int|
        0 <= i < placeholders.len() ==> resolves(#[trigger] placeholders[i], held, values[i])
}

/// Why a field with these placeholders cannot be rendered with `values`,
/// whatever the functions give: the field has placeholders and no values, or
/// one of the placeholders has no value.
pub open spec fn field_fault(
    placeholders: Seq<PlaceholderView>,
    field: FieldName,
    values: Values,
) -> Option<ErrorView> {
    if placeholders.len() == 0 {
        None
    } else {
        match values.at(field) {
            None => Some(ErrorView::MissingFieldValues(field)),
            Some(held) => first_fault(placeholders, 0, field, held@),
        }
    }
}

/// Whether one of the segments is literal: only in such a segment is a
/// pattern searched for.
pub open spec fn has_literal(segments: Seq<SegmentView>) -> bool {
    exists|i: int| 0 <= i < segments.len() && (#[trigger] segments[i]).literal
}

/// Whether the placeholder at `k` cannot give way: its turn comes with a
/// literal segment left to search, and the regex engine refuses its pattern.
pub open spec fn refused_at(
    text: Seq<char>,
    names: Seq<Seq<char>>,
    values: Seq<Seq<char>>,
    k: int,
) -> bool {
    has_literal(rendering(text, names, values, k)) && pattern_refused(pattern_of(names[k]))
}

/// The place of the first placeholder from `from` on that cannot give way.
pub open spec fn first_refusal(
    text: Seq<char>,
    names: Seq<Seq<char>>,
    values: Seq<Seq<char>>,
    from: int,
) -> Option<int>
    decreases names.len() - from,
{
    if 0 <= from < names.len() {
        if refused_at(text, names, values, from) {
            Some(from)
        } else {
            first_refusal(text, names, values, from + 1)
        }
    } else {
        None
    }
}

/// What letting the placeholders called `names` give way to `values` comes
/// to: the error that names the first placeholder that cannot give way, or
/// the text after all of them did.
pub open spec fn substitution(
    text: Seq<char>,
    names: Seq<Seq<char>>,
    values: Seq<Seq<char>>,
    field: FieldName,
) -> Result<Seq<char>, ErrorView> {
    match first_refusal(text, names, values, 0) {
        Some(k) => Err(ErrorView::Pattern(field, names[k])),
        None => Ok(rendered(text, names, values)),
    }
}

/// Whether `outcome` is what rendering `text` with these placeholders and
/// `values` comes to. A text without placeholders stays as it is. A field
/// with a fault fails with it. Else the placeholders give way to values that
/// they can have, up to the first whose pattern the regex engine refuses.
pub open spec fn renders_to(
    placeholders: Seq<PlaceholderView>,
    field: FieldName,
    text: Seq<char>,
    values: Values,
    outcome: Result<Seq<char>, ErrorView>,
) -> bool {
    if placeholders.len() == 0 {
        outcome == Ok::<Seq<char>, ErrorView>(text)
    } else {
        match field_fault(placeholders, field, values) {
            Some(fault) => outcome == Err::<Seq<char>, ErrorView>(fault),
            None => exists|found: Seq<Seq<char>>|
                is_resolution(placeholders, values.at(field)->0@, found) && outcome
                    == #[trigger] substitution(text, names_of(placeholders), found, field),
        }
    }
}

/// What a rendering came to, as a mathematical value.
pub open spec fn outcome_of(result: Result<String, Error>) -> Result<Seq<char>, ErrorView> {
    match result {
        Ok(text) => Ok(text@),
        Err(error) => Err(error@),
    }
}

/// The pieces as literal segments, with `value` set between each two.
pub fn interleave(pieces: Vec<String>, value: &str) -> (segments: Vec<Segment>)
    ensures
        segments.deep_view() == interleaved(pieces.deep_view(), value@),
{
    let mut segments: Vec<Segment> = Vec::new();
    let ghost all = pieces.deep_view();
    assert(all.len() == pieces.len());
    let mut i: usize = 0;
    for piece in it: pieces
        invariant
            i == it.index(),
            all.len() <= usize::MAX,
            it.seq().map_values(|s: String| s@) == all,
            segments.deep_view() == interleaved(all.take(i as int), value@),
    {
        let ghost before = segments.deep_view();
        proof {
            assert(piece@ == all[i as int]);
            assert(all.take(i + 1).drop_last() =~= all.take(i as int));
        }
        if i > 0 {
            segments.push(Segment { text: value.to_owned(), literal: false });
        }
        segments.push(Segment { text: piece, literal: true });
        proof {
            if i > 0 {
                assert(segments.deep_view() =~= before.push(inserted(value@)).push(
                    literal(all[i as int]),
                ));
            } else {
                assert(segments.deep_view() =~= seq![literal(all[0])]);
            }
        }
        i += 1;
    }
    assert(all.take(i as int) =~= all);
    segments
}

/// The text that the segments make up.
pub fn join(segments: &Vec<Segment>) -> (text: String)
    ensures
        text@ == joined(segments.deep_view()),
{
    let mut text = String::new();
    let mut i: usize = 0;
    while i < segments.len()
        invariant
            i <= segments.len(),
            text@ == joined(segments.deep_view().take(i as int)),
        decreases segments.len() - i,
    {
        proof {
            assert(segments.deep_view().take(i + 1).drop_last() =~= segments.deep_view().take(
                i as int,
            ));
        }
        text.append(segments[i].text.as_str());
        i += 1;
    }
    assert(segments.deep_view().take(i as int) =~= segments.deep_view());
    text
}

/// Lets the matches of `pattern` in the literal segments give way to `value`.
/// `None` says that the regex engine refused the pattern. The engine is asked
/// for literal segments only: where there is none, the segments come back as
/// they are, whatever the pattern is.
pub fn substitute(segments: Vec<Segment>, pattern: &str, value: &str) -> (replaced: Option<
    Vec<Segment>,
>)
    ensures
        replaced matches Some(result) ==> result.deep_view() == substituted(
            segments.deep_view(),
            pattern@,
            value@,
        ),
        replaced is None <==> has_literal(segments.deep_view()) && pattern_refused(pattern@),
        !has_literal(segments.deep_view()) ==> replaced is Some && replaced->0.deep_view()
            == segments.deep_view(),
{
    let mut result: Vec<Segment> = Vec::new();
    let ghost all = segments.deep_view();
    assert(all.len() == segments.len());
    let mut i: usize = 0;
    for segment in it: segments
        invariant
            i == it.index(),
            all == segments.deep_view(),
            !has_literal(all) ==> result.deep_view() == all.take(i as int),
            pattern_refused(pattern@) ==> forall|k: int| 0 <= k < i ==> !(#[trigger] all[k]).literal,
            all.len() <= usize::MAX,
            it.seq().map_values(|s: Segment| s@) == all,
            result.deep_view() == substituted(all.take(i as int), pattern@, value@),
    {
        let ghost before = result.deep_view();
        proof {
            assert(segment@ == all[i as int]);
            assert(all.take(i + 1).drop_last() =~= all.take(i as int));
        }
        if segment.literal {
            match split(pattern, segment.text.as_str()) {
                Some(pieces) => {
                    let mut fresh = interleave(pieces, value);
                    let ghost added = fresh.deep_view();
                    result.append(&mut fresh);
                    assert(result.deep_view() =~= before + added);
                },
                None => {
                    assert(all[i as int].literal);
                    return None;
                },
            }
            assert(all[i as int].literal);
        } else {
            result.push(segment);
            assert(result.deep_view() =~= before + seq![all[i as int]]);
            assert(all.take(i + 1) =~= all.take(i as int) + seq![all[i as int]]);
        }
        i += 1;
    }
    assert(all.take(i as int) =~= all);
    Some(result)
}

impl Template {
    /// The pattern of `placeholder` as a regular expression.
    pub fn create_pattern(placeholder: &Placeholder) -> (pattern: String)
        ensures
            pattern@ == pattern_of(placeholder@.name()),
    {
        let name = placeholder.name();
        let mut pattern = "\\{\\{\\s*".to_owned();
        pattern.append(name.as_str());
        pattern.append(".*?\\}\\}");
        pattern
    }

    /// The value of `placeholder` in the field `field`: for a variable what
    /// `values` holds for its name, for a function what the function gives
    /// now. A variable without a value and a function that the table lacks
    /// are errors; nothing is put in their place.
    pub fn get_value(placeholder: &Placeholder, field: FieldName, values: &FieldValues) -> (value:
        Result<String, Error>)
        ensures
            match fault_of(placeholder@, field, values@) {
                Some(fault) => value is Err && value->Err_0@ == fault,
                None => value is Ok && resolves(placeholder@, values@, value->Ok_0@),
            },
    {
        match placeholder {
            Placeholder::Variable { name, default: _ } => match values.get(name.as_str()) {
                Some(held) => Ok(held.clone()),
                None => Err(Error::MissingValue(field, name.clone())),
            },
            Placeholder::Function { name } => match functions::execute(name.as_str()) {
                Ok(text) => Ok(text),
                Err(functions::Error::UnknownFunction(unknown)) => Err(
                    Error::UnknownFunction(unknown),
                ),
            },
        }
    }

    /// The values of the placeholders, in their order; or why the first one
    /// that has no value has none.
    pub fn resolve(placeholders: &Vec<Placeholder>, field: FieldName, values: &FieldValues) -> (found:
        Result<Vec<String>, Error>)
        ensures
            match first_fault(placeholders.deep_view(), 0, field, values@) {
                Some(fault) => found is Err && found->Err_0@ == fault,
                None => found is Ok && is_resolution(
                    placeholders.deep_view(),
                    values@,
                    found->Ok_0.deep_view(),
                ),
            },
    {
        let mut found: Vec<String> = Vec::new();
        let ghost all = placeholders.deep_view();
        let mut i: usize = 0;
        while i < placeholders.len()
            invariant
                i <= placeholders.len(),
                all == placeholders.deep_view(),
                found.len() == i,
                first_fault(all, 0, field, values@) == first_fault(all, i as int, field, values@),
                forall|k: int| 0 <= k < i ==> resolves(#[trigger] all[k], values@, found[k]@),
            decreases placeholders.len() - i,
        {
            assert(all[i as int] == placeholders[i as int]@);
            match Self::get_value(&placeholders[i], field, values) {
                Ok(value) => {
                    found.push(value);
                },
                Err(error) => {
                    return Err(error);
                },
            }
            i += 1;
        }
        assert(found.deep_view().len() == all.len());
        assert forall|k: int| 0 <= k < all.len() implies resolves(
            #[trigger] all[k],
            values@,
            found.deep_view()[k],
        ) by {
            assert(found.deep_view()[k] == found[k]@);
        }
        Ok(found)
    }

    /// `input` after the placeholders gave way to `found`, one after the
    /// other; or the error that tells of the placeholder whose pattern the
    /// regex engine refused.
    fn replace_all(
        field: FieldName,
        input: &str,
        placeholders: &Vec<Placeholder>,
        found: &Vec<String>,
    ) -> (output: Result<String, Error>)
        requires
            found.len() == placeholders.len(),
        ensures
            outcome_of(output) == substitution(
                input@,
                names_of(placeholders.deep_view()),
                found.deep_view(),
                field,
            ),
    {
        let ghost names = names_of(placeholders.deep_view());
        let ghost values = found.deep_view();
        let mut segments: Vec<Segment> = Vec::new();
        segments.push(Segment { text: input.to_owned(), literal: true });
        assert(segments.deep_view() =~= seq![literal(input@)]);
        let mut i: usize = 0;
        while i < placeholders.len()
            invariant
                i <= placeholders.len() == found.len(),
                names == names_of(placeholders.deep_view()),
                values == found.deep_view(),
                names.len() == placeholders.len(),
                segments.deep_view() == rendering(input@, names, values, i as int),
                first_refusal(input@, names, values, 0) == first_refusal(
                    input@,
                    names,
                    values,
                    i as int,
                ),
            decreases placeholders.len() - i,
        {
            let pattern = Self::create_pattern(&placeholders[i]);
            proof {
                assert(names[i as int] == placeholders[i as int]@.name());
                assert(values[i as int] == found[i as int]@);
            }
            match substitute(segments, pattern.as_str(), found[i].as_str()) {
                Some(replaced) => {
                    segments = replaced;
                },
                None => {
                    return Err(Error::Pattern(field, placeholders[i].name()));
                },
            }
            i += 1;
        }
        Ok(join(&segments))
    }

    /// Renders the text `input` of the field `name`, whose placeholders are
    /// `field`, with the values of one build.
    pub fn replace_values(name: FieldName, field: &Field, input: &str, values: &Values) -> (output:
        Result<String, Error>)
        ensures
            renders_to(field@, name, input@, *values, outcome_of(output)),
    {
        if field.placeholders.len() == 0 {
            return Ok(input.to_owned());
        }
        let held = match values.get(name) {
            Some(held) => held,
            None => {
                return Err(Error::MissingFieldValues(name));
            },
        };
        let found = match Self::resolve(&field.placeholders, name, held) {
            Ok(found) => found,
            Err(error) => {
                return Err(error);
            },
        };
        let output = Self::replace_all(name, input, &field.placeholders, &found);
        assert(outcome_of(output) == substitution(
            input@,
            names_of(field@),
            found.deep_view(),
            name,
        ));
        output
    }
}

} // verus!
