//! The five fields of a template, and maps from them.

use vstd::prelude::*;

verus! {

/// The fields of a template.
#[derive(Debug, Clone, Copy, PartialEq, Eq, Hash, Structural)]
pub enum FieldName {
    Title,
    Price,
    Date,
    CounterpartyOrganizationName,
    CounterpartyOrganizationINN,
}

impl FieldName {
    /// The five fields, in the order in which a template is worked through.
    pub open spec fn every() -> Seq<FieldName> {
        seq![
            FieldName::Title,
            FieldName::Price,
            FieldName::Date,
            FieldName::CounterpartyOrganizationName,
            FieldName::CounterpartyOrganizationINN,
        ]
    }

    /// The five fields, in the order in which a template is worked through.
    pub fn all() -> (names: Vec<FieldName>)
        ensures
            names@ == FieldName::every(),
    {
        let mut names: Vec<FieldName> = Vec::new();
        names.push(FieldName::Title);
        names.push(FieldName::Price);
        names.push(FieldName::Date);
        names.push(FieldName::CounterpartyOrganizationName);
        names.push(FieldName::CounterpartyOrganizationINN);
        names
    }

    /// The field as messages name it.
    pub fn label(&self) -> (label: &'static str)
        ensures
            label@ == match self {
                FieldName::Title => "title"@,
                FieldName::Price => "price"@,
                FieldName::Date => "date"@,
                FieldName::CounterpartyOrganizationName => "organization name"@,
                FieldName::CounterpartyOrganizationINN => "organization inn"@,
            },
    {
        match self {
            FieldName::Title => "title",
            FieldName::Price => "price",
            FieldName::Date => "date",
            FieldName::CounterpartyOrganizationName => "organization name",
            FieldName::CounterpartyOrganizationINN => "organization inn",
        }
    }
}

/// A map from fields to values of `T`.
#[derive(Debug, PartialEq, Eq)]
pub struct FieldMap<T> {
    title: Option<T>,
    price: Option<T>,
    date: Option<T>,
    organization_name: Option<T>,
    organization_inn: Option<T>,
}

impl<T> FieldMap<T> {
    /// What the map holds for `name`.
    pub closed spec fn at(&self, name: FieldName) -> Option<T> {
        match name {
            FieldName::Title => self.title,
            FieldName::Price => self.price,
            FieldName::Date => self.date,
            FieldName::CounterpartyOrganizationName => self.organization_name,
            FieldName::CounterpartyOrganizationINN => self.organization_inn,
        }
    }

    /// The map that holds nothing.
    pub fn new() -> (map: Self)
        ensures
            forall|name: FieldName| map.at(name) is None,
    {
        FieldMap {
            title: None,
            price: None,
            date: None,
            organization_name: None,
            organization_inn: None,
        }
    }

    /// Sets what the map holds for `name`.
    pub fn insert(&mut self, name: FieldName, value: T)
        ensures
            final(self).at(name) == Some(value),
            forall|other: FieldName| other != name ==> final(self).at(other) == old(self).at(other),
    {
        match name {
            FieldName::Title => self.title = Some(value),
            FieldName::Price => self.price = Some(value),
            FieldName::Date => self.date = Some(value),
            FieldName::CounterpartyOrganizationName => self.organization_name = Some(value),
            FieldName::CounterpartyOrganizationINN => self.organization_inn = Some(value),
        }
    }

    /// What the map holds for `name`.
    pub fn get(&self, name: FieldName) -> (value: Option<&T>)
        ensures
            match value {
                Some(v) => self.at(name) == Some(*v),
                None => self.at(name) is None,
            },
    {
        match name {
            FieldName::Title => self.title.as_ref(),
            FieldName::Price => self.price.as_ref(),
            FieldName::Date => self.date.as_ref(),
            FieldName::CounterpartyOrganizationName => self.organization_name.as_ref(),
            FieldName::CounterpartyOrganizationINN => self.organization_inn.as_ref(),
        }
    }

    /// Whether the map holds something for `name`.
    pub fn contains_key(&self, name: FieldName) -> (held: bool)
        ensures
            held == self.at(name) is Some,
    {
        self.get(name).is_some()
    }
}

} // verus!
