//! Compiled templates: the placeholders of every text slot.

use vstd::prelude::*;
use crate::template::error::Error;
use crate::template::fields::{FieldMap, FieldName};
use crate::template::grammar::{placeholders_in, template, Stuck};
use crate::template::raw;

verus! {

/// What a variable offers when the user is asked for its value.
#[derive(Debug, PartialEq, Eq)]
pub enum PlaceholderDefault {
    /// A text, offered as it stands.
    String(String),
    /// The name of a function, whose result is offered.
    Function(String),
}

/// A placeholder found in a text slot.
#[derive(Debug, PartialEq, Eq)]
pub enum Placeholder {
    /// A variable: the caller of a build supplies its value.
    Variable { name: String, default: Option<PlaceholderDefault> },
    /// A function: its value is computed at every build.
    Function { name: String },
}

/// A default as a mathematical value.
pub enum DefaultView {
    Text(Seq<char>),
    Function(Seq<char>),
}

/// A placeholder as a mathematical value.
pub enum PlaceholderView {
    Variable { name: Seq<char>, default: Option<DefaultView> },
    Function { name: Seq<char> },
}

impl PlaceholderView {
    /// The name by which the placeholder is known.
    pub open spec fn name(self) -> Seq<char> {
        match self {
            PlaceholderView::Variable { name, default } => name,
            PlaceholderView::Function { name } => name,
        }
    }

    /// The default of a variable that has one.
    pub open spec fn default(self) -> Option<DefaultView> {
        match self {
            PlaceholderView::Variable { name, default } => default,
            PlaceholderView::Function { name } => None,
        }
    }
}

impl View for PlaceholderDefault {
    type V = DefaultView;

    open spec fn view(&self) -> DefaultView {
        match self {
            PlaceholderDefault::String(text) => DefaultView::Text(text@),
            PlaceholderDefault::Function(name) => DefaultView::Function(name@),
        }
    }
}

impl DeepView for PlaceholderDefault {
    type V = DefaultView;

    open spec fn deep_view(&self) -> DefaultView {
        self@
    }
}

impl View for Placeholder {
    type V = PlaceholderView;

    open spec fn view(&self) -> PlaceholderView {
        match self {
            Placeholder::Variable { name, default } => PlaceholderView::Variable {
                name: name@,
                default: match default {
                    Some(d) => Some(d@),
                    None => None,
                },
            },
            Placeholder::Function { name } => PlaceholderView::Function { name: name@ },
        }
    }
}

impl DeepView for Placeholder {
    type V = PlaceholderView;

    open spec fn deep_view(&self) -> PlaceholderView {
        self@
    }
}

impl Clone for PlaceholderDefault {
    fn clone(&self) -> (copy: Self)
        ensures
            copy@ == self@,
    {
        match self {
            PlaceholderDefault::String(text) => PlaceholderDefault::String(text.clone()),
            PlaceholderDefault::Function(name) => PlaceholderDefault::Function(name.clone()),
        }
    }
}

impl Clone for Placeholder {
    fn clone(&self) -> (copy: Self)
        ensures
            copy@ == self@,
    {
        match self {
            Placeholder::Variable { name, default } => Placeholder::Variable {
                name: name.clone(),
                default: match default {
                    Some(d) => Some(d.clone()),
                    None => None,
                },
            },
            Placeholder::Function { name } => Placeholder::Function { name: name.clone() },
        }
    }
}

impl Placeholder {
    /// The name of the placeholder.
    pub fn name(&self) -> (name: String)
        ensures
            name@ == self@.name(),
    {
        match self {
            Placeholder::Variable { name, default: _ } => name.clone(),
            Placeholder::Function { name } => name.clone(),
        }
    }

    /// The default of a variable that has one; a function has none.
    pub fn default(&self) -> (default: Option<PlaceholderDefault>)
        ensures
            default.is_some() == self@.default().is_some(),
            default matches Some(d) ==> Some(d@) == self@.default(),
    {
        match self {
            Placeholder::Variable { name: _, default } => match default {
                Some(d) => Some(d.clone()),
                None => None,
            },
            Placeholder::Function { name: _ } => None,
        }
    }
}

/// What compiling found in one text slot.
#[derive(Debug, PartialEq, Eq)]
pub struct Field {
    /// The placeholders of the slot, in the order in which they stand.
    pub placeholders: Vec<Placeholder>,
}

impl View for Field {
    type V = Seq<PlaceholderView>;

    open spec fn view(&self) -> Seq<PlaceholderView> {
        self.placeholders.deep_view()
    }
}

impl Clone for Field {
    fn clone(&self) -> (copy: Self)
        ensures
            copy@ == self@,
    {
        let mut placeholders: Vec<Placeholder> = Vec::new();
        let mut i: usize = 0;
        while i < self.placeholders.len()
            invariant
                i <= self.placeholders.len(),
                placeholders.deep_view() == self.placeholders.deep_view().take(i as int),
            decreases self.placeholders.len() - i,
        {
            let ghost before = placeholders.deep_view();
            placeholders.push(self.placeholders[i].clone());
            assert(placeholders.deep_view() =~= before.push(self.placeholders[i as int]@));
            assert(self.placeholders.deep_view().take(i + 1) =~= before.push(
                self.placeholders[i as int]@,
            ));
            i += 1;
        }
        assert(self.placeholders.deep_view().take(i as int) =~= self.placeholders.deep_view());
        Field { placeholders }
    }
}

impl Field {
    /// The placeholders of `text`. Every text has them: the result is never
    /// an error.
    pub fn new(text: &str) -> (field: Result<Field, Stuck>)
        ensures
            field is Ok,
            field->Ok_0@ == placeholders_in(text@),
    {
        match template(text) {
            Ok(placeholders) => Ok(Field { placeholders }),
            Err(stuck) => Err(stuck),
        }
    }
}

/// The fields of a compiled template, by name.
pub type Fields = FieldMap<Field>;

/// Whether `fields` holds, for each slot that `raw` has, the placeholders of
/// its text, and nothing for a slot that `raw` lacks.
pub open spec fn describes(fields: Fields, raw: raw::Template) -> bool {
    forall|name: FieldName|
        match #[trigger] raw.slot(name) {
            Some(text) => fields.at(name) is Some && fields.at(name)->0@ == placeholders_in(text),
            None => fields.at(name) is None,
        }
}

/// A compiled template: a raw template and the placeholders of its slots.
/// Neither changes once the template is made.
#[derive(Debug)]
pub struct Template {
    fields: Fields,
    raw: raw::Template,
}

impl Template {
    #[verifier::type_invariant]
    spec fn compiled(self) -> bool {
        describes(self.fields, self.raw)
    }

    /// The raw template that this one was compiled from.
    pub closed spec fn source(&self) -> raw::Template {
        self.raw
    }

    /// The fields that compiling found.
    pub closed spec fn fields(&self) -> Fields {
        self.fields
    }

    /// Compiles `raw`. Every raw template compiles: the result is never an
    /// error.
    pub fn new(raw: raw::Template) -> (compiled: Result<Self, Error>)
        ensures
            compiled is Ok,
            compiled->Ok_0.source() == raw,
            describes(compiled->Ok_0.fields(), raw),
    {
        match Self::parse(&raw) {
            Ok(fields) => Ok(Template { fields, raw }),
            Err(error) => Err(error),
        }
    }

    /// The placeholders of every slot that `raw` has: of title, price and
    /// date, and of name and tax number where the receipt goes to an
    /// organization.
    pub fn parse(raw: &raw::Template) -> (fields: Result<Fields, Error>)
        ensures
            fields is Ok,
            describes(fields->Ok_0, *raw),
    {
        let mut fields = Fields::new();
        match Field::new(raw.title.as_str()) {
            Ok(field) => fields.insert(FieldName::Title, field),
            Err(stuck) => return Err(Error::Parse(FieldName::Title, stuck)),
        }
        match Field::new(raw.price.as_str()) {
            Ok(field) => fields.insert(FieldName::Price, field),
            Err(stuck) => return Err(Error::Parse(FieldName::Price, stuck)),
        }
        match Field::new(raw.date.as_str()) {
            Ok(field) => fields.insert(FieldName::Date, field),
            Err(stuck) => return Err(Error::Parse(FieldName::Date, stuck)),
        }
        match &raw.counterparty {
            raw::Counterparty::Organization { name, inn } => {
                match Field::new(name.as_str()) {
                    Ok(field) => fields.insert(FieldName::CounterpartyOrganizationName, field),
                    Err(stuck) => return Err(
                        Error::Parse(FieldName::CounterpartyOrganizationName, stuck),
                    ),
                }
                match Field::new(inn.as_str()) {
                    Ok(field) => fields.insert(FieldName::CounterpartyOrganizationINN, field),
                    Err(stuck) => return Err(
                        Error::Parse(FieldName::CounterpartyOrganizationINN, stuck),
                    ),
                }
            },
            raw::Counterparty::Person => {},
        }
        Ok(fields)
    }

    /// The fields that compiling found.
    pub fn get_fields(&self) -> (fields: &Fields)
        ensures
            *fields == self.fields(),
            describes(*fields, self.source()),
    {
        proof {
            use_type_invariant(self);
        }
        &self.fields
    }

    /// The raw template that this one was compiled from.
    pub fn get_raw(&self) -> (raw: &raw::Template)
        ensures
            *raw == self.source(),
    {
        &self.raw
    }
}

} // verus!
