//! The placeholder grammar.
//!
//! A text is read from left to right. Where a placeholder stands it is taken;
//! anywhere else one character is passed over. Every text can be read this
//! way: what looks like a placeholder and is none counts as plain text.
//!
//! ```text
//! placeholder = "{{" blank* (call | variable) blank* "}}"
//! call        = name "()"
//! variable    = name (":" default)?
//! default     = '"' (letter | digit | blank)+ '"' | call
//! name        = letter (letter | digit)*
//! blank       = " "
//! ```
//!
//! A letter is Latin or Cyrillic. Runs are as long as they can be.

use vstd::prelude::*;
use crate::template::compiled::{DefaultView, Placeholder, PlaceholderDefault, PlaceholderView};
use crate::text::{chars_of, text_of};

verus! {

/// A Latin letter.
pub open spec fn is_latin(c: char) -> bool {
    ('a' <= c && c <= 'z') || ('A' <= c && c <= 'Z')
}

/// A letter of the Russian alphabet.
pub open spec fn is_cyrillic(c: char) -> bool {
    ('\u{430}' <= c && c <= '\u{44f}') || ('\u{410}' <= c && c <= '\u{42f}') || c == '\u{451}'
        || c == '\u{401}'
}

/// A letter of either alphabet.
pub open spec fn is_letter(c: char) -> bool {
    is_latin(c) || is_cyrillic(c)
}

/// A decimal digit.
pub open spec fn is_digit(c: char) -> bool {
    '0' <= c && c <= '9'
}

/// The kinds of characters that the grammar reads in runs.
#[derive(Clone, Copy, PartialEq, Eq, Structural, Debug)]
pub enum Class {
    /// What a name holds after its first letter: letters and digits.
    Name,
    /// The blank.
    Blank,
    /// What a quoted default holds: letters, digits and blanks.
    Quoted,
}

impl Class {
    /// Whether `c` is of this kind.
    pub open spec fn admits(self, c: char) -> bool {
        match self {
            Class::Name => is_letter(c) || is_digit(c),
            Class::Blank => c == ' ',
            Class::Quoted => is_letter(c) || is_digit(c) || c == ' ',
        }
    }

    /// Whether `c` is of this kind.
    pub fn accepts(self, c: char) -> (yes: bool)
        ensures
            yes == self.admits(c),
    {
        let letter = ('a' <= c && c <= 'z') || ('A' <= c && c <= 'Z') || ('\u{430}' <= c && c
            <= '\u{44f}') || ('\u{410}' <= c && c <= '\u{42f}') || c == '\u{451}' || c
            == '\u{401}';
        let digit = '0' <= c && c <= '9';
        match self {
            Class::Name => letter || digit,
            Class::Blank => c == ' ',
            Class::Quoted => letter || digit || c == ' ',
        }
    }
}

/// Where the longest run of `class` characters that starts at `i` ends.
pub open spec fn run_end(text: Seq<char>, i: int, class: Class) -> int
    decreases text.len() - i,
{
    if 0 <= i < text.len() && class.admits(text[i]) {
        run_end(text, i + 1, class)
    } else {
        i
    }
}

/// Whether the characters `a` and `b` stand at `i` and `i + 1`.
pub open spec fn pair_at(text: Seq<char>, i: int, a: char, b: char) -> bool {
    0 <= i && i + 1 < text.len() && text[i] == a && text[i + 1] == b
}

/// Where the name that starts at `i` ends, if one starts there.
pub open spec fn name_at(text: Seq<char>, i: int) -> Option<int> {
    if 0 <= i < text.len() && is_letter(text[i]) {
        Some(run_end(text, i + 1, Class::Name))
    } else {
        None
    }
}

/// The call `name()` that starts at `i`: the name, and where the call ends.
pub open spec fn call_at(text: Seq<char>, i: int) -> Option<(Seq<char>, int)> {
    match name_at(text, i) {
        Some(end) => if pair_at(text, end, '(', ')') {
            Some((text.subrange(i, end), end + 2))
        } else {
            None
        },
        None => None,
    }
}

/// The default that starts at `i`, and where it ends.
pub open spec fn default_at(text: Seq<char>, i: int) -> Option<(DefaultView, int)> {
    if 0 <= i < text.len() && text[i] == '"' {
        let end = run_end(text, i + 1, Class::Quoted);
        if i + 1 < end && end < text.len() && text[end] == '"' {
            Some((DefaultView::Text(text.subrange(i + 1, end)), end + 1))
        } else {
            None
        }
    } else {
        match call_at(text, i) {
            Some((name, end)) => Some((DefaultView::Function(name), end)),
            None => None,
        }
    }
}

/// What stands between the braces, if it starts at `i`: a call, or else a
/// variable with the default that follows its colon.
pub open spec fn body_at(text: Seq<char>, i: int) -> Option<(PlaceholderView, int)> {
    match call_at(text, i) {
        Some((name, end)) => Some((PlaceholderView::Function { name }, end)),
        None => match name_at(text, i) {
            Some(end) => {
                let name = text.subrange(i, end);
                let given = if end < text.len() && text[end] == ':' {
                    default_at(text, end + 1)
                } else {
                    None
                };
                match given {
                    Some((default, after)) => Some(
                        (PlaceholderView::Variable { name, default: Some(default) }, after),
                    ),
                    None => Some((PlaceholderView::Variable { name, default: None }, end)),
                }
            },
            None => None,
        },
    }
}

/// The placeholder that starts at `i`, and where it ends.
pub open spec fn placeholder_at(text: Seq<char>, i: int) -> Option<(PlaceholderView, int)> {
    if pair_at(text, i, '{', '{') {
        match body_at(text, run_end(text, i + 2, Class::Blank)) {
            Some((placeholder, end)) => {
                let close = run_end(text, end, Class::Blank);
                if pair_at(text, close, '}', '}') {
                    Some((placeholder, close + 2))
                } else {
                    None
                }
            },
            None => None,
        }
    } else {
        None
    }
}

/// The placeholders of `text` from `i` on, in the order in which they stand.
pub open spec fn placeholders_from(text: Seq<char>, i: int) -> Seq<PlaceholderView>
    decreases text.len() - i,
{
    if 0 <= i < text.len() {
        match placeholder_at(text, i) {
            Some((placeholder, end)) => if i < end {
                seq![placeholder] + placeholders_from(text, end)
            } else {
                Seq::empty()
            },
            None => placeholders_from(text, i + 1),
        }
    } else {
        Seq::empty()
    }
}

/// The placeholders of `text`, in the order in which they stand.
pub open spec fn placeholders_in(text: Seq<char>) -> Seq<PlaceholderView> {
    placeholders_from(text, 0)
}

/// A run ends at or after its start and within the text, and on a character
/// that is not of its kind.
pub proof fn lemma_run_end(text: Seq<char>, i: int, class: Class)
    requires
        0 <= i <= text.len(),
    ensures
        i <= run_end(text, i, class) <= text.len(),
        run_end(text, i, class) < text.len() ==> !class.admits(text[run_end(text, i, class)]),
        forall|k: int| i <= k < run_end(text, i, class) ==> class.admits(#[trigger] text[k]),
    decreases text.len() - i,
{
    if i < text.len() && class.admits(text[i]) {
        lemma_run_end(text, i + 1, class);
    }
}

/// Whether `name` is a name of the grammar: a letter, then letters and
/// digits.
pub open spec fn is_name(name: Seq<char>) -> bool {
    &&& name.len() > 0
    &&& is_letter(name[0])
    &&& forall|k: int| 0 < k < name.len() ==> Class::Name.admits(#[trigger] name[k])
}

/// Whether `default` is a default of the grammar: a text of letters, digits
/// and blanks that is not empty, or the name of a function.
pub open spec fn is_default(default: DefaultView) -> bool {
    match default {
        DefaultView::Text(text) => text.len() > 0 && forall|k: int|
            0 <= k < text.len() ==> Class::Quoted.admits(#[trigger] text[k]),
        DefaultView::Function(name) => is_name(name),
    }
}

/// Whether `placeholder` is one that the grammar can find.
pub open spec fn is_well_formed(placeholder: PlaceholderView) -> bool {
    match placeholder {
        PlaceholderView::Variable { name, default } => is_name(name) && (default matches Some(d)
            ==> is_default(d)),
        PlaceholderView::Function { name } => is_name(name),
    }
}

/// A name that is read is a name, and ends behind its start within the text.
pub proof fn lemma_name_at(text: Seq<char>, i: int)
    requires
        name_at(text, i) is Some,
    ensures
        i < name_at(text, i)->0 <= text.len(),
        is_name(text.subrange(i, name_at(text, i)->0)),
{
    lemma_run_end(text, i + 1, Class::Name);
}

/// A default that is read is well formed, and ends behind its start within
/// the text.
pub proof fn lemma_default_at(text: Seq<char>, i: int)
    requires
        default_at(text, i) is Some,
    ensures
        i < (default_at(text, i)->0).1 <= text.len(),
        is_default((default_at(text, i)->0).0),
{
    if text[i] == '"' {
        lemma_run_end(text, i + 1, Class::Quoted);
    } else {
        lemma_name_at(text, i);
    }
}

/// What is read between the braces is well formed, and ends behind its start
/// within the text.
pub proof fn lemma_body_at(text: Seq<char>, i: int)
    requires
        body_at(text, i) is Some,
    ensures
        0 <= i < (body_at(text, i)->0).1 <= text.len(),
        is_well_formed((body_at(text, i)->0).0),
{
    lemma_name_at(text, i);
    let end = name_at(text, i)->0;
    if call_at(text, i) is None && end < text.len() && text[end] == ':' && default_at(
        text,
        end + 1,
    ) is Some {
        lemma_default_at(text, end + 1);
    }
}

/// A placeholder that is read is well formed. It is five characters long or
/// longer and ends within the text, so reading goes on behind it.
pub proof fn lemma_placeholder_at(text: Seq<char>, i: int)
    requires
        placeholder_at(text, i) is Some,
    ensures
        i + 4 < (placeholder_at(text, i)->0).1 <= text.len(),
        is_well_formed((placeholder_at(text, i)->0).0),
{
    let open = run_end(text, i + 2, Class::Blank);
    lemma_run_end(text, i + 2, Class::Blank);
    let (placeholder, end) = body_at(text, open)->0;
    lemma_body_at(text, open);
    lemma_run_end(text, end, Class::Blank);
}

/// Every placeholder that is found from `i` on is well formed.
pub proof fn lemma_placeholders_from(text: Seq<char>, i: int)
    ensures
        forall|k: int|
            0 <= k < placeholders_from(text, i).len() ==> is_well_formed(
                #[trigger] placeholders_from(text, i)[k],
            ),
    decreases text.len() - i,
{
    let all = placeholders_from(text, i);
    if 0 <= i < text.len() {
        if placeholder_at(text, i) is Some {
            let (placeholder, end) = placeholder_at(text, i)->0;
            lemma_placeholder_at(text, i);
            lemma_placeholders_from(text, end);
            let rest = placeholders_from(text, end);
            assert(all == seq![placeholder] + rest);
            assert forall|k: int| 0 <= k < all.len() implies is_well_formed(#[trigger] all[k]) by {
                if k > 0 {
                    assert(all[k] == rest[k - 1]);
                }
            }
        } else {
            lemma_placeholders_from(text, i + 1);
            assert(all == placeholders_from(text, i + 1));
        }
    } else {
        assert(all.len() == 0);
    }
}

/// The end of the longest run of `class` characters from `i` on.
pub fn scan(text: &Vec<char>, i: usize, class: Class) -> (end: usize)
    ensures
        end == run_end(text@, i as int, class),
        i <= end,
        i <= text.len() ==> end <= text.len(),
{
    let mut end: usize = i;
    while end < text.len() && class.accepts(text[end])
        invariant
            i <= end,
            i <= text.len() ==> end <= text.len(),
            run_end(text@, i as int, class) == run_end(text@, end as int, class),
        decreases text.len() - end,
    {
        end += 1;
    }
    end
}

/// Whether `a` and `b` stand at `i` and `i + 1`.
pub fn pair(text: &Vec<char>, i: usize, a: char, b: char) -> (yes: bool)
    ensures
        yes == pair_at(text@, i as int, a, b),
{
    i < text.len() && text.len() - i >= 2 && text[i] == a && text[i + 1] == b
}

/// The end of the name that starts at `i`.
pub fn read_name(text: &Vec<char>, i: usize) -> (end: Option<usize>)
    ensures
        end is Some == name_at(text@, i as int) is Some,
        end matches Some(e) ==> name_at(text@, i as int) == Some(e as int) && i < e <= text.len(),
{
    if i < text.len() && class_letter(text[i]) {
        Some(scan(text, i + 1, Class::Name))
    } else {
        None
    }
}

/// Whether `c` is a letter.
pub fn class_letter(c: char) -> (yes: bool)
    ensures
        yes == is_letter(c),
{
    ('a' <= c && c <= 'z') || ('A' <= c && c <= 'Z') || ('\u{430}' <= c && c <= '\u{44f}') || (
    '\u{410}' <= c && c <= '\u{42f}') || c == '\u{451}' || c == '\u{401}'
}

/// The call that starts at `i`: its name, and where it ends.
pub fn read_call(text: &Vec<char>, i: usize) -> (call: Option<(String, usize)>)
    ensures
        call is Some == call_at(text@, i as int) is Some,
        call matches Some((name, end)) ==> call_at(text@, i as int) == Some((name@, end as int))
            && i < end <= text.len(),
{
    match read_name(text, i) {
        Some(end) => if pair(text, end, '(', ')') {
            Some((text_of(text, i, end), end + 2))
        } else {
            None
        },
        None => None,
    }
}

/// The default that starts at `i`, and where it ends.
pub fn read_default(text: &Vec<char>, i: usize) -> (default: Option<(PlaceholderDefault, usize)>)
    ensures
        default is Some == default_at(text@, i as int) is Some,
        default matches Some((d, end)) ==> default_at(text@, i as int) == Some((d@, end as int))
            && i < end <= text.len(),
{
    if i < text.len() && text[i] == '"' {
        let end = scan(text, i + 1, Class::Quoted);
        if i + 1 < end && end < text.len() && text[end] == '"' {
            Some((PlaceholderDefault::String(text_of(text, i + 1, end)), end + 1))
        } else {
            None
        }
    } else {
        match read_call(text, i) {
            Some((name, end)) => Some((PlaceholderDefault::Function(name), end)),
            None => None,
        }
    }
}

/// What stands between the braces from `i` on, and where it ends.
pub fn read_body(text: &Vec<char>, i: usize) -> (body: Option<(Placeholder, usize)>)
    ensures
        body is Some == body_at(text@, i as int) is Some,
        body matches Some((p, end)) ==> body_at(text@, i as int) == Some((p@, end as int)) && i
            < end <= text.len(),
{
    match read_call(text, i) {
        Some((name, end)) => Some((Placeholder::Function { name }, end)),
        None => match read_name(text, i) {
            Some(end) => {
                let name = text_of(text, i, end);
                let given = if end < text.len() && text[end] == ':' {
                    read_default(text, end + 1)
                } else {
                    None
                };
                match given {
                    Some((default, after)) => Some(
                        (Placeholder::Variable { name, default: Some(default) }, after),
                    ),
                    None => Some((Placeholder::Variable { name, default: None }, end)),
                }
            },
            None => None,
        },
    }
}

/// The placeholder that starts at `i`, and where it ends.
pub fn read_placeholder(text: &Vec<char>, i: usize) -> (found: Option<(Placeholder, usize)>)
    ensures
        found is Some == placeholder_at(text@, i as int) is Some,
        found matches Some((p, end)) ==> placeholder_at(text@, i as int) == Some(
            (p@, end as int),
        ) && i < end <= text.len(),
{
    if pair(text, i, '{', '{') {
        assert(i + 2 <= text.len());
        let open = scan(text, i + 2, Class::Blank);
        match read_body(text, open) {
            Some((placeholder, end)) => {
                let close = scan(text, end, Class::Blank);
                if pair(text, close, '}', '}') {
                    Some((placeholder, close + 2))
                } else {
                    None
                }
            },
            None => None,
        }
    } else {
        None
    }
}

/// The place in a text from which nothing could be read. Every character
/// that starts no placeholder is plain text, so no text has such a place and
/// no function of this library returns one.
#[derive(Debug, PartialEq, Eq, Clone, Copy)]
pub struct Stuck {
    pub position: usize,
}

/// The placeholders of `text`, in the order in which they stand. It reads
/// every text: the result is never an error.
pub fn template(text: &str) -> (found: Result<Vec<Placeholder>, Stuck>)
    ensures
        found is Ok,
        found->Ok_0.deep_view() == placeholders_in(text@),
{
    let chars = chars_of(text);
    let mut found: Vec<Placeholder> = Vec::new();
    let mut i: usize = 0;
    while i < chars.len()
        invariant
            i <= chars.len(),
            chars@ == text@,
            found.deep_view() + placeholders_from(chars@, i as int) == placeholders_in(chars@),
        decreases chars.len() - i,
    {
        let ghost before = found.deep_view();
        match read_placeholder(&chars, i) {
            Some((placeholder, end)) => {
                found.push(placeholder);
                assert(found.deep_view() =~= before.push(placeholder@));
                assert(before.push(placeholder@) + placeholders_from(chars@, end as int)
                    =~= before + (seq![placeholder@] + placeholders_from(chars@, end as int)));
                i = end;
            },
            None => {
                i += 1;
            },
        }
    }
    assert(found.deep_view() + Seq::<PlaceholderView>::empty() =~= found.deep_view());
    Ok(found)
}

} // verus!
