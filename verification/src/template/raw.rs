//! Raw templates: the text slots as their author wrote them.

use vstd::prelude::*;
use crate::template::fields::FieldName;

verus! {

/// The text slots of the party that the receipt is made out to.
#[derive(Debug, PartialEq, Eq)]
pub enum Counterparty {
    /// A private person: no slot.
    Person,
    /// An organization: its name and its tax number.
    Organization { name: String, inn: String },
}

impl Default for Counterparty {
    fn default() -> (party: Self)
        ensures
            party == Counterparty::Person,
    {
        Counterparty::Person
    }
}

/// A raw template. Every slot may hold placeholders.
#[derive(Debug, PartialEq, Eq)]
pub struct Template {
    pub title: String,
    pub price: String,
    pub date: String,
    pub counterparty: Counterparty,
}

impl Clone for Counterparty {
    fn clone(&self) -> (copy: Self)
        ensures
            copy == *self,
    {
        match self {
            Counterparty::Person => Counterparty::Person,
            Counterparty::Organization { name, inn } => Counterparty::Organization {
                name: name.clone(),
                inn: inn.clone(),
            },
        }
    }
}

impl Clone for Template {
    fn clone(&self) -> (copy: Self)
        ensures
            copy == *self,
    {
        Template {
            title: self.title.clone(),
            price: self.price.clone(),
            date: self.date.clone(),
            counterparty: self.counterparty.clone(),
        }
    }
}

impl Template {
    /// The text of the slot `name`, where the template has that slot.
    pub open spec fn slot(&self, name: FieldName) -> Option<Seq<char>> {
        match name {
            FieldName::Title => Some(self.title@),
            FieldName::Price => Some(self.price@),
            FieldName::Date => Some(self.date@),
            FieldName::CounterpartyOrganizationName => match self.counterparty {
                Counterparty::Organization { name, inn } => Some(name@),
                Counterparty::Person => None,
            },
            FieldName::CounterpartyOrganizationINN => match self.counterparty {
                Counterparty::Organization { name, inn } => Some(inn@),
                Counterparty::Person => None,
            },
        }
    }
}

} // verus!
