//! Labels for enumerated choices (ages, genders, categories, MIME
//! names); their meaning comes from configuration at runtime.

use vstd::prelude::*;

verus! {

/// A database identifier for a label row.
pub type Id = i16;

/// A label for a choice: an identifier, a display text, and an
/// optional description.
#[derive(Debug, PartialEq)]
pub struct Label {
    pub id: Id,
    pub label: String,
    pub description: Option<String>,
}

impl Label {
    pub fn new(id: Id, label: String, description: Option<String>) -> (r: Self)
        ensures
            r.id == id,
            r.label@ == label@,
            r.description == description,
    {
        Label { id, label, description }
    }
}

impl Clone for Label {
    fn clone(&self) -> (r: Self)
        ensures
            r == *self,
    {
        Label {
            id: self.id,
            label: self.label.clone(),
            description: match &self.description {
                Some(d) => Some(d.clone()),
                None => None,
            },
        }
    }
}

/// The first label with the given identifier, if any.
pub open spec fn find_label_seq(s: Seq<Label>, id: Id) -> Option<Label>
    decreases s.len(),
{
    if s.len() == 0 {
        None
    } else if s[0].id == id {
        Some(s[0])
    } else {
        find_label_seq(s.drop_first(), id)
    }
}

/// Looks an identifier up in a list of labels; returns the first
/// label bearing it.
pub fn find_label(labels: &Vec<Label>, id: Id) -> (r: Option<Label>)
    ensures
        r == find_label_seq(labels@, id),
{
    let mut i: usize = 0;
    proof {
        assert(labels@.skip(0) =~= labels@);
    }
    while i < labels.len()
        invariant
            i <= labels@.len(),
            find_label_seq(labels@, id) == find_label_seq(labels@.skip(i as int), id),
            forall|j: int| 0 <= j < i ==> labels@[j].id != id,
        decreases labels@.len() - i,
    {
        let candidate = &labels[i];
        proof {
            assert(labels@.skip(i as int)[0] == labels@[i as int]);
            assert(labels@.skip(i as int).drop_first() =~= labels@.skip(i + 1));
        }
        if candidate.id == id {
            return Some(candidate.clone());
        }
        i = i + 1;
    }
    proof {
        assert(labels@.skip(labels@.len() as int).len() == 0);
    }
    None
}

} // verus!
