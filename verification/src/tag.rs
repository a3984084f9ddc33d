//! Tags (and, with the same shape, platforms) and their edits.
use vstd::prelude::*;
use crate::text::{eq_chars, to_chars};

verus! {

/// A tag: its primary name, its other names, and its category.
#[derive(Clone, Debug)]
pub struct Tag {
    pub id: i64,
    pub name: String,
    pub description: String,
    pub date_modified: String,
    pub aliases: Vec<String>,
    pub category: Option<String>,
}

/// An edit of a tag: the name always, the other fields where given.
#[derive(Clone, Debug)]
pub struct PartialTag {
    pub id: i64,
    pub name: String,
    pub description: Option<String>,
    pub date_modified: Option<String>,
    pub aliases: Option<Vec<String>>,
    pub category: Option<String>,
}

/// A tag offered for a typed prefix, with the name it was found by.
#[derive(Clone, Debug)]
pub struct TagSuggestion {
    pub id: i64,
    pub name: String,
    pub matched_from: String,
    pub games_count: i64,
    pub category: Option<String>,
}

/// A name of a tag, by the tag's id.
#[derive(Clone, Debug)]
pub struct LooseTagAlias {
    pub id: i64,
    pub value: String,
}

pub open spec fn str_or(o: Option<String>, d: String) -> Seq<char> {
    match o {
        Some(s) => s@,
        None => d@,
    }
}

pub open spec fn opt_str_view(o: Option<String>) -> Option<Seq<char>> {
    match o {
        Some(s) => Some(s@),
        None => None,
    }
}

/// Whether `v` holds `s`.
pub fn contains_string(v: &Vec<String>, s: &String) -> (r: bool)
    ensures
        r == v.deep_view().contains(s@),
{
    let sc = to_chars(s.as_str());
    let mut i: usize = 0;
    while i < v.len()
        invariant
            i <= v@.len(),
            sc@ == s@,
            forall|j: int| 0 <= j < i ==> v.deep_view()[j] != s@,
        decreases v.len() - i,
    {
        if eq_chars(&to_chars(v[i].as_str()), &sc) {
            assert(v.deep_view()[i as int] == s@);
            return true;
        }
        i = i + 1;
    }
    false
}

/// The names after an edit: the given names, with the primary name added
/// at the end when it is not among them.
pub open spec fn names_with(names: Seq<Seq<char>>, name: Seq<char>) -> Seq<Seq<char>> {
    if names.contains(name) {
        names
    } else {
        names.push(name)
    }
}

/// `after` is `before` with the edit `p` applied: the name is replaced;
/// given aliases replace the aliases (with the name added when missing);
/// a given description, modification date or category replaces the old
/// one; the id is kept.
pub open spec fn tag_edited(before: Tag, p: PartialTag, after: Tag) -> bool {
    &&& after.id == before.id
    &&& after.name@ == p.name@
    &&& after.aliases.deep_view() == (match p.aliases {
        Some(a) => names_with(a.deep_view(), p.name@),
        None => before.aliases.deep_view(),
    })
    &&& after.description@ == str_or(p.description, before.description)
    &&& after.date_modified@ == str_or(p.date_modified, before.date_modified)
    &&& opt_str_view(after.category) == (match p.category {
        Some(c) => Some(c@),
        None => opt_str_view(before.category),
    })
}

/// The edit that sets every field of `t`.
pub open spec fn tag_as_edit(t: Tag) -> PartialTag {
    PartialTag {
        id: t.id,
        name: t.name,
        description: Some(t.description),
        date_modified: Some(t.date_modified),
        aliases: Some(t.aliases),
        category: t.category,
    }
}

impl Tag {
    /// Applies an edit (see `tag_edited`).
    pub fn apply_partial(&mut self, partial: &PartialTag)
        ensures
            tag_edited(*old(self), *partial, *final(self)),
    {
        self.name = partial.name.clone();
        match &partial.aliases {
            Some(a) => {
                let mut aliases = crate::game::search::filter::clone_strings(a);
                if !contains_string(&aliases, &self.name) {
                    let ghost a0 = aliases.deep_view();
                    aliases.push(self.name.clone());
                    assert(aliases.deep_view() =~= a0.push(partial.name@));
                }
                self.aliases = aliases;
            },
            None => {},
        }
        match &partial.description {
            Some(d) => self.description = d.clone(),
            None => {},
        }
        match &partial.date_modified {
            Some(d) => self.date_modified = d.clone(),
            None => {},
        }
        match &partial.category {
            Some(c) => self.category = Some(c.clone()),
            None => {},
        }
    }
}

impl PartialTag {
    /// An edit that changes nothing but the name, which is empty: id -1.
    pub fn new() -> (r: PartialTag)
        ensures
            r.id == -1,
            r.name@.len() == 0,
            r.description is None,
            r.date_modified is None,
            r.aliases is None,
            r.category is None,
    {
        PartialTag {
            id: -1,
            name: String::new(),
            description: None,
            date_modified: None,
            aliases: None,
            category: None,
        }
    }

    /// The edit that sets every field of a tag.
    pub fn from_tag(value: Tag) -> (r: PartialTag)
        ensures
            r == tag_as_edit(value),
    {
        PartialTag {
            id: value.id,
            name: value.name,
            description: Some(value.description),
            date_modified: Some(value.date_modified),
            aliases: Some(value.aliases),
            category: value.category,
        }
    }

    /// Gives the edit the current time as its modification date, unless it
    /// carries one.
    pub fn stamp_modified(&mut self)
        ensures
            old(self).date_modified is Some ==> *final(self) == *old(self),
            final(self).date_modified is Some,
            old(self).date_modified is None ==> (final(self).date_modified matches Some(t)
                && crate::stamp::timestamp_text(t@)),
            *final(self) == (PartialTag { date_modified: final(self).date_modified, ..*old(self) }),
    {
        if self.date_modified.is_none() {
            self.stamp_modified_at(crate::stamp::now_text());
        }
    }

    /// Gives the edit `now` as its modification date, unless it carries one.
    pub fn stamp_modified_at(&mut self, now: String)
        ensures
            *final(self) == (PartialTag {
                date_modified: match old(self).date_modified {
                    Some(d) => Some(d),
                    None => Some(now),
                },
                ..*old(self)
            }),
    {
        if self.date_modified.is_none() {
            self.date_modified = Some(now);
        }
    }
}

impl Default for PartialTag {
    fn default() -> (r: PartialTag)
        ensures
            r.id == -1,
            r.name@.len() == 0,
            r.description is None,
            r.date_modified is None,
            r.aliases is None,
            r.category is None,
    {
        PartialTag::new()
    }
}

/// Applying to any tag the edit made from `t` gives `t`'s name,
/// description, date and category (when `t` has one), and `t`'s aliases
/// with its name among them.
pub proof fn law_tag_edit_round_trip(t: Tag, before: Tag, after: Tag)
    requires
        tag_edited(before, tag_as_edit(t), after),
    ensures
        after.name@ == t.name@,
        after.description@ == t.description@,
        after.date_modified@ == t.date_modified@,
        after.aliases.deep_view() == names_with(t.aliases.deep_view(), t.name@),
        after.aliases.deep_view().contains(t.name@),
        t.category is Some ==> opt_str_view(after.category) == opt_str_view(t.category),
{
    let n = names_with(t.aliases.deep_view(), t.name@);
    if !t.aliases.deep_view().contains(t.name@) {
        assert(n[n.len() - 1] == t.name@);
    }
}

/// The first `n` aliases that no tag owns yet, in order, given each alias's
/// current owner.
pub open spec fn unowned_aliases(aliases: Seq<Seq<char>>, owners: Seq<Option<i64>>, n: nat) -> Seq<Seq<char>>
    decreases n,
{
    if n == 0 {
        Seq::empty()
    } else {
        let rest = unowned_aliases(aliases, owners, (n - 1) as nat);
        if owners[n - 1] is None {
            rest.push(aliases[n - 1])
        } else {
            rest
        }
    }
}

/// Whether one of the aliases belongs to a tag other than `tag_id`.
pub open spec fn alias_taken(owners: Seq<Option<i64>>, tag_id: i64) -> bool {
    exists|i: int| 0 <= i < owners.len() && (#[trigger] owners[i] matches Some(o) && o != tag_id)
}

/// Decides the aliases of a saved tag: `None` when one of them belongs to
/// another tag (the save is refused), else the aliases to add, those that
/// no tag owns yet. `owners[i]` is the tag that owns `aliases[i]`, if any.
pub fn alias_plan(tag_id: i64, aliases: &Vec<String>, owners: &Vec<Option<i64>>) -> (r: Option<Vec<String>>)
    requires
        owners@.len() == aliases@.len(),
    ensures
        r is None <==> alias_taken(owners@, tag_id),
        r matches Some(v) ==> v.deep_view() == unowned_aliases(aliases.deep_view(), owners@, aliases@.len()),
{
    let mut fresh: Vec<String> = Vec::new();
    let mut i: usize = 0;
    while i < aliases.len()
        invariant
            i <= aliases@.len(),
            owners@.len() == aliases@.len(),
            fresh.deep_view() == unowned_aliases(aliases.deep_view(), owners@, i as nat),
            forall|j: int| 0 <= j < i ==> !(#[trigger] owners@[j] matches Some(o) && o != tag_id),
        decreases aliases.len() - i,
    {
        match owners[i] {
            Some(o) => {
                if o != tag_id {
                    assert(owners@[i as int] matches Some(o) && o != tag_id);
                    return None;
                }
            },
            None => {
                let ghost f0 = fresh.deep_view();
                fresh.push(aliases[i].clone());
                assert(fresh.deep_view() =~= f0.push(aliases.deep_view()[i as int]));
            },
        }
        i = i + 1;
    }
    Some(fresh)
}

} // verus!
