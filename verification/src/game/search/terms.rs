//! Applying one complete search term (a key, a key character and a value)
//! to the parser's working filter.
use vstd::prelude::*;
use crate::game::ext::{ExtSearchableRegistered, ExtSearchableType};
use crate::game::extmap::{exec_keys, ext_push_exec, ext_set_exec, find_key};
use crate::game::search::{KeyChar, SizeFilter};
use crate::game::search::coerce::coerce_to_i64;
use crate::game::search::filter::{
    ForcedGameFilter, ListKind, NUM_FIELDS, StringField, clone_ext_copy, field_index_exec,
    list_index_exec,
};
use crate::game::search::parse::{
    SizeKey, apply_size, apply_string, apply_term, bool_value, ext_lookup, set_size_key,
    size_key_of, size_slot, string_field_of,
};
use crate::text::{append_chars, copy_chars, eq_lit, lowercase_chars, string_of};

verus! {

/// The flag that a value stands for (see `bool_value`).
pub fn bool_value_exec(value: &[char], negative: bool) -> (b: bool)
    ensures
        b == bool_value(value@, negative),
{
    let lv = lowercase_chars(value);
    let b = !(eq_lit(&lv, "no") && eq_lit(&lv, "false") && eq_lit(&lv, "0"));
    if negative {
        !b
    } else {
        b
    }
}

/// The text field that a lowercase key names (see `string_field_of`).
pub fn string_field_of_exec(k: &[char]) -> (r: Option<StringField>)
    ensures
        r == string_field_of(k@),
{
    if eq_lit(k, "id") {
        Some(StringField::Id)
    } else if eq_lit(k, "lib") || eq_lit(k, "library") {
        Some(StringField::Library)
    } else if eq_lit(k, "title") {
        Some(StringField::Title)
    } else if eq_lit(k, "dev") || eq_lit(k, "developer") {
        Some(StringField::Developer)
    } else if eq_lit(k, "pub") || eq_lit(k, "publisher") {
        Some(StringField::Publisher)
    } else if eq_lit(k, "series") {
        Some(StringField::Series)
    } else if eq_lit(k, "tag") {
        Some(StringField::Tags)
    } else if eq_lit(k, "plat") || eq_lit(k, "platform") {
        Some(StringField::Platforms)
    } else if eq_lit(k, "mode") || eq_lit(k, "playmode") {
        Some(StringField::PlayMode)
    } else if eq_lit(k, "status") {
        Some(StringField::Status)
    } else if eq_lit(k, "note") || eq_lit(k, "notes") {
        Some(StringField::Notes)
    } else if eq_lit(k, "src") || eq_lit(k, "source") {
        Some(StringField::Source)
    } else if eq_lit(k, "od") || eq_lit(k, "desc") || eq_lit(k, "description") || eq_lit(
        k,
        "originaldescription",
    ) {
        Some(StringField::OriginalDescription)
    } else if eq_lit(k, "lang") || eq_lit(k, "language") {
        Some(StringField::Language)
    } else if eq_lit(k, "ap") || eq_lit(k, "path") || eq_lit(k, "app") || eq_lit(
        k,
        "applicationpath",
    ) {
        Some(StringField::ApplicationPath)
    } else if eq_lit(k, "lc") || eq_lit(k, "launchcommand") {
        Some(StringField::LaunchCommand)
    } else if eq_lit(k, "ruffle") || eq_lit(k, "rufflesupport") {
        Some(StringField::RuffleSupport)
    } else {
        None
    }
}

/// The comparison field that a lowercase key names (see `size_key_of`).
pub fn size_key_of_exec(k: &[char]) -> (r: Option<SizeKey>)
    ensures
        r == size_key_of(k@),
{
    if eq_lit(k, "tags") {
        Some(SizeKey::Tags)
    } else if eq_lit(k, "platforms") {
        Some(SizeKey::Platforms)
    } else if eq_lit(k, "dateadded") || eq_lit(k, "da") {
        Some(SizeKey::DateAdded)
    } else if eq_lit(k, "datemodified") || eq_lit(k, "dm") {
        Some(SizeKey::DateModified)
    } else if eq_lit(k, "releasedate") || eq_lit(k, "rd") {
        Some(SizeKey::ReleaseDate)
    } else if eq_lit(k, "gamedata") || eq_lit(k, "gd") {
        Some(SizeKey::GameData)
    } else if eq_lit(k, "addapps") || eq_lit(k, "aa") {
        Some(SizeKey::AddApps)
    } else if eq_lit(k, "playtime") || eq_lit(k, "pt") {
        Some(SizeKey::Playtime)
    } else if eq_lit(k, "playcount") || eq_lit(k, "pc") {
        Some(SizeKey::Playcount)
    } else if eq_lit(k, "lastplayed") || eq_lit(k, "lp") {
        Some(SizeKey::LastPlayed)
    } else {
        None
    }
}

/// Position of the registered search key `k`, if any (see `ext_lookup`).
pub fn ext_lookup_exec(ext: &Vec<(String, ExtSearchableRegistered)>, k: &[char]) -> (r: Option<usize>)
    ensures
        match r {
            Some(i) => i < ext@.len() && ext_lookup(ext@, k@) == Some(ext@[i as int].1),
            None => ext_lookup(ext@, k@) is None,
        },
{
    let ks = string_of(k);
    find_key(ext, &ks)
}

/// Sets the comparison field `sk` (see `set_size_key`).
pub fn set_size_key_exec(s: &mut SizeFilter, sk: SizeKey, n: i64, value: &[char])
    ensures
        final(s).deep_view() == set_size_key(old(s).deep_view(), sk, n, value@),
{
    match sk {
        SizeKey::Tags => s.tags = Some(n),
        SizeKey::Platforms => s.platforms = Some(n),
        SizeKey::DateAdded => s.date_added = Some(string_of(value)),
        SizeKey::DateModified => s.date_modified = Some(string_of(value)),
        SizeKey::ReleaseDate => s.release_date = Some(string_of(value)),
        SizeKey::GameData => s.game_data = Some(n),
        SizeKey::AddApps => s.add_apps = Some(n),
        SizeKey::Playtime => s.playtime = Some(n),
        SizeKey::Playcount => s.playcount = Some(n),
        SizeKey::LastPlayed => s.last_played = Some(string_of(value)),
    }
}

/// Applies a comparison to one comparison filter; `false`, with the filter
/// unchanged, when the key is not a comparison key (see `apply_size`).
pub fn apply_size_exec(
    s: &mut SizeFilter,
    lkey: &[char],
    value: &[char],
    ext: &Vec<(String, ExtSearchableRegistered)>,
) -> (applied: bool)
    ensures
        match apply_size(old(s).deep_view(), lkey@, value@, ext@) {
            Some(v) => applied && final(s).deep_view() == v,
            None => !applied && *final(s) == *old(s),
        },
{
    let vs = string_of(value);
    let n = coerce_to_i64(vs.as_str());
    match size_key_of_exec(lkey) {
        Some(sk) => {
            set_size_key_exec(s, sk, n, value);
            true
        },
        None => match ext_lookup_exec(ext, lkey) {
            Some(i) => {
                let r = &ext[i].1;
                if r.value_type == ExtSearchableType::Number {
                    let mut m = match &s.ext {
                        Some(m) => clone_ext_copy(m),
                        None => Vec::new(),
                    };
                    ext_set_exec(&mut m, &r.ext_id, &r.key, n);
                    s.ext = Some(m);
                    true
                } else {
                    false
                }
            },
            None => false,
        },
    }
}

/// Appends `v` to the working list at `i`.
fn push_list(f: &mut ForcedGameFilter, i: usize, v: String)
    requires
        old(f).wf(),
        i < 4 * NUM_FIELDS,
    ensures
        final(f).wf(),
        final(f).deep_view() == (crate::game::search::filter::ForcedView {
            lists: old(f).deep_view().lists.update(
                i as int,
                old(f).deep_view().lists[i as int].push(v@),
            ),
            ..old(f).deep_view()
        }),
{
    let ghost before = f.lists@;
    let mut l = f.lists.remove(i);
    let ghost l0 = l;
    l.push(v);
    f.lists.insert(i, l);
    proof {
        assert(f.lists@ =~= before.update(i as int, l));
        assert(l.deep_view() =~= l0.deep_view().push(v@));
        assert(f.lists.deep_view() =~= old(f).deep_view().lists.update(
            i as int,
            old(f).deep_view().lists[i as int].push(v@),
        ));
    }
}

/// Appends `v` under `ext_id`, `key` in the extension terms of list `li`.
fn push_ext(f: &mut ForcedGameFilter, li: usize, ext_id: &String, key: &String, v: String)
    requires
        old(f).wf(),
        li < 4,
    ensures
        final(f).wf(),
        final(f).deep_view() == (crate::game::search::filter::ForcedView {
            exts: old(f).deep_view().exts.update(
                li as int,
                crate::game::extmap::ext_push(old(f).deep_view().exts[li as int], ext_id@, key@, v@),
            ),
            ..old(f).deep_view()
        }),
{
    let ghost before = f.exts@;
    let mut m = f.exts.remove(li);
    let ghost m0 = m;
    ext_push_exec(&mut m, ext_id, key, v);
    f.exts.insert(li, m);
    proof {
        assert(f.exts@ =~= before.update(li as int, m));
        assert(f.exts.deep_view() =~= old(f).deep_view().exts.update(
            li as int,
            crate::game::extmap::ext_push(old(f).deep_view().exts[li as int], ext_id@, key@, v@),
        ));
    }
}

/// Adds a text term to the list of kind `lk` (see `apply_string`).
pub fn apply_string_exec(
    f: &mut ForcedGameFilter,
    lkey: &[char],
    key: &[char],
    value: &[char],
    kc: Option<KeyChar>,
    lk: ListKind,
    ext: &Vec<(String, ExtSearchableRegistered)>,
)
    requires
        old(f).wf(),
    ensures
        final(f).wf(),
        final(f).deep_view() == apply_string(old(f).deep_view(), lkey@, key@, value@, kc, lk, ext@),
{
    let li = list_index_exec(lk);
    match string_field_of_exec(lkey) {
        Some(fld) => {
            let i = NUM_FIELDS * li + field_index_exec(fld);
            let v = if fld == StringField::RuffleSupport {
                lowercase_chars(value)
            } else {
                copy_chars(value)
            };
            push_list(f, i, string_of(&v));
        },
        None => {
            let found = ext_lookup_exec(ext, lkey);
            let is_text = match found {
                Some(j) => ext[j].1.value_type == ExtSearchableType::String,
                None => false,
            };
            if is_text {
                let j = found.unwrap();
                push_ext(f, li, &ext[j].1.ext_id, &ext[j].1.key, string_of(value));
            } else {
                let i = NUM_FIELDS * li + field_index_exec(StringField::Generic);
                let mut v: Vec<char> = Vec::new();
                match kc {
                    Some(k) => {
                        append_chars(&mut v, key);
                        v.push(k.to_char());
                        append_chars(&mut v, value);
                        assert(v@ =~= key@ + seq![crate::game::search::key_char_char(k)] + value@);
                    },
                    None => {
                        append_chars(&mut v, value);
                        assert(v@ =~= value@);
                    },
                }
                push_list(f, i, string_of(&v));
            }
        },
    }
}

/// Applies a complete term to the working filter (see `apply_term`).
pub fn apply_term_exec(
    f: &mut ForcedGameFilter,
    key: &[char],
    value: &[char],
    kc: Option<KeyChar>,
    negative: bool,
    lk: ListKind,
    ext: &Vec<(String, ExtSearchableRegistered)>,
)
    requires
        old(f).wf(),
    ensures
        final(f).wf(),
        final(f).deep_view() == apply_term(old(f).deep_view(), key@, value@, kc, negative, lk, ext@),
{
    let lkey = lowercase_chars(key);
    if eq_lit(&lkey, "installed") {
        f.bool_comp.installed = Some(bool_value_exec(value, negative));
        return;
    }
    let found = ext_lookup_exec(ext, &lkey);
    let is_flag = match found {
        Some(j) => ext[j].1.value_type == ExtSearchableType::Boolean,
        None => false,
    };
    if is_flag {
        let j = found.unwrap();
        let b = bool_value_exec(value, negative);
        let mut m = match &f.bool_comp.ext {
            Some(m) => clone_ext_copy(m),
            None => Vec::new(),
        };
        ext_set_exec(&mut m, &ext[j].1.ext_id, &ext[j].1.key, b);
        f.bool_comp.ext = Some(m);
        return;
    }
    match kc {
        Some(k) => {
            let ghost before = f.deep_view();
            let applied = match k {
                KeyChar::LOWER => apply_size_exec(&mut f.lower_than, &lkey, value, ext),
                KeyChar::HIGHER => apply_size_exec(&mut f.higher_than, &lkey, value, ext),
                KeyChar::MATCHES => apply_size_exec(&mut f.equal_to, &lkey, value, ext),
                KeyChar::EQUALS => apply_size_exec(&mut f.equal_to, &lkey, value, ext),
            };
            if applied {
                assert(f.deep_view().sizes =~= before.sizes.update(
                    size_slot(k),
                    f.deep_view().sizes[size_slot(k)],
                ));
                return;
            }
        },
        None => {},
    }
    apply_string_exec(f, &lkey, key, value, kc, lk, ext);
}

} // verus!
