//! The values of one build: for each field, a text for each of its variables.

use vstd::prelude::*;
use crate::template::fields::FieldMap;

verus! {

/// The values of the variables of one field, by name.
#[derive(Debug)]
pub struct FieldValues {
    entries: Vec<(String, String)>,
}

/// The values of one build, by field.
pub type Values = FieldMap<FieldValues>;

/// What the entries hold for `name`: the entry entered last counts.
pub open spec fn lookup(entries: Seq<(String, String)>, name: Seq<char>) -> Option<Seq<char>>
    decreases entries.len(),
{
    if entries.len() == 0 {
        None
    } else if entries.last().0@ == name {
        Some(entries.last().1@)
    } else {
        lookup(entries.drop_last(), name)
    }
}

impl View for FieldValues {
    type V = Map<Seq<char>, Seq<char>>;

    closed spec fn view(&self) -> Map<Seq<char>, Seq<char>> {
        Map::new(
            |name: Seq<char>| lookup(self.entries@, name) is Some,
            |name: Seq<char>| lookup(self.entries@, name)->0,
        )
    }
}

impl FieldValues {
    /// No values.
    pub fn new() -> (values: Self)
        ensures
            values@ == Map::<Seq<char>, Seq<char>>::empty(),
    {
        let values = FieldValues { entries: Vec::new() };
        assert(values@ =~= Map::<Seq<char>, Seq<char>>::empty());
        values
    }

    /// Gives the variable `name` the value `value`, in place of the value
    /// that it had.
    pub fn insert(&mut self, name: String, value: String)
        ensures
            final(self)@ == old(self)@.insert(name@, value@),
    {
        self.entries.push((name, value));
        proof {
            assert(self.entries@.drop_last() =~= old(self).entries@);
            assert(self@ =~= old(self)@.insert(name@, value@));
        }
    }

    /// The value of the variable `name`, if it has one.
    pub fn get(&self, name: &str) -> (value: Option<&String>)
        ensures
            match value {
                Some(v) => self@.contains_key(name@) && self@[name@] == v@,
                None => !self@.contains_key(name@),
            },
    {
        let mut i: usize = self.entries.len();
        assert(self.entries@.take(i as int) =~= self.entries@);
        while i > 0
            invariant
                i <= self.entries.len(),
                lookup(self.entries@, name@) == lookup(self.entries@.take(i as int), name@),
            decreases i,
        {
            i -= 1;
            proof {
                assert(self.entries@.take(i + 1).drop_last() =~= self.entries@.take(i as int));
            }
            if *self.entries[i].0.as_str() == *name {
                return Some(&self.entries[i].1);
            }
        }
        None
    }
}

} // verus!
