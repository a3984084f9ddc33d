//! Tag categories and their edits.
use vstd::prelude::*;
use crate::tag::{opt_str_view};

verus! {

/// A named, coloured group of tags.
#[derive(Clone, Debug)]
pub struct TagCategory {
    pub id: i64,
    pub name: String,
    pub color: String,
    pub description: Option<String>,
}

/// An edit of a tag category.
#[derive(Clone, Debug)]
pub struct PartialTagCategory {
    pub id: i64,
    pub name: String,
    pub color: String,
    pub description: Option<String>,
}

impl TagCategory {
    /// Applies an edit: name and colour are replaced, the description when
    /// one is given.
    pub fn apply_partial(&mut self, partial: &PartialTagCategory)
        ensures
            final(self).id == old(self).id,
            final(self).name == partial.name,
            final(self).color == partial.color,
            opt_str_view(final(self).description) == (match partial.description {
                Some(d) => Some(d@),
                None => opt_str_view(old(self).description),
            }),
    {
        self.name = partial.name.clone();
        self.color = partial.color.clone();
        match &partial.description {
            Some(d) => self.description = Some(d.clone()),
            None => {},
        }
    }

    /// A new category from an edit: id -1, the edit's fields.
    pub fn from_partial(value: &PartialTagCategory) -> (r: TagCategory)
        ensures
            r.id == -1,
            r.name == value.name,
            r.color == value.color,
            opt_str_view(r.description) == opt_str_view(value.description),
    {
        TagCategory {
            id: -1,
            name: value.name.clone(),
            color: value.color.clone(),
            description: match &value.description {
                Some(d) => Some(d.clone()),
                None => None,
            },
        }
    }
}

} // verus!
