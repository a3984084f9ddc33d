//! Properties of the search language, stated over `parse_state`.
use vstd::prelude::*;
use crate::game::ext::{ExtSearchableRegistered, ExtSearchableType};
use crate::game::search::{ElementType, KeyChar, key_char_char};
use crate::game::search::filter::{ForcedView, ListKind, StringField, empty_forced_view, slot};
use crate::game::search::filter::{list_index, list_kind_of, filter_from_forced, SizeView, empty_size_view, field_at, field_index, NUM_FIELDS, ListKind as LK, forced_list_to_option, field_view_from_forced, strs_view};
use crate::game::search::{FieldFilter, GameFilter, game_filter_is_empty, field_filter_is_empty};
use crate::game::search::parse::{
    ParseState, PosView, apply_term, bool_value, char_index, earliest_key_char_spec, ext_lookup,
    initial_state, lemma_char_index_from, parse_state, parse_tokens, phase_key, phase_modifiers,
    phase_quotes, phase_value, size_key_of, split_spaces, step, string_field_of, REPLACEMENT,
    apply_size, size_slot, SizeKey,
};
use crate::game::search::coerce::coerce_spec;
use crate::text::{ascii_lower_text, is_ascii_caseless_or_lower, is_ascii_text, is_ascii_lowercase_text, lemma_utf8_len_bounds, lowercase, utf8_len};

verus! {

/// A character that is not a space, a quote or a key character.
pub open spec fn plain_char(c: char) -> bool {
    c != ' ' && c != '"' && c != ':' && c != '<' && c != '>' && c != '='
}

/// A character that changes how a token starts: negation or a shortcut.
pub open spec fn leading_modifier(c: char) -> bool {
    c == '-' || c == '#' || c == '!' || c == '@'
}

/// Input without spaces is one piece.
pub proof fn lemma_split_no_space(s: Seq<char>)
    requires
        forall|i: int| 0 <= i < s.len() ==> s[i] != ' ',
    ensures
        split_spaces(s) == seq![s],
    decreases s.len(),
{
    if s.len() > 0 {
        lemma_split_no_space(s.drop_last());
        assert(s.drop_last().push(s.last()) =~= s);
        assert(split_spaces(s) =~= seq![s]);
    } else {
        assert(s =~= Seq::<char>::empty());
    }
}

/// The empty key names no field and is not `installed`.
proof fn lemma_empty_key_names_nothing()
    ensures
        string_field_of(Seq::empty()) is None,
        Seq::<char>::empty() != "installed"@,
{
    reveal_strlit("installed");
    assert("installed"@.len() == 9);
    reveal_strlit("id");
    assert("id"@.len() == 2);
    reveal_strlit("lib");
    assert("lib"@.len() == 3);
    reveal_strlit("library");
    assert("library"@.len() == 7);
    reveal_strlit("title");
    assert("title"@.len() == 5);
    reveal_strlit("dev");
    assert("dev"@.len() == 3);
    reveal_strlit("developer");
    assert("developer"@.len() == 9);
    reveal_strlit("pub");
    assert("pub"@.len() == 3);
    reveal_strlit("publisher");
    assert("publisher"@.len() == 9);
    reveal_strlit("series");
    assert("series"@.len() == 6);
    reveal_strlit("tag");
    assert("tag"@.len() == 3);
    reveal_strlit("plat");
    assert("plat"@.len() == 4);
    reveal_strlit("platform");
    assert("platform"@.len() == 8);
    reveal_strlit("mode");
    assert("mode"@.len() == 4);
    reveal_strlit("playmode");
    assert("playmode"@.len() == 8);
    reveal_strlit("status");
    assert("status"@.len() == 6);
    reveal_strlit("note");
    assert("note"@.len() == 4);
    reveal_strlit("notes");
    assert("notes"@.len() == 5);
    reveal_strlit("src");
    assert("src"@.len() == 3);
    reveal_strlit("source");
    assert("source"@.len() == 6);
    reveal_strlit("od");
    assert("od"@.len() == 2);
    reveal_strlit("desc");
    assert("desc"@.len() == 4);
    reveal_strlit("description");
    assert("description"@.len() == 11);
    reveal_strlit("originaldescription");
    assert("originaldescription"@.len() == 19);
    reveal_strlit("lang");
    assert("lang"@.len() == 4);
    reveal_strlit("language");
    assert("language"@.len() == 8);
    reveal_strlit("ap");
    assert("ap"@.len() == 2);
    reveal_strlit("path");
    assert("path"@.len() == 4);
    reveal_strlit("app");
    assert("app"@.len() == 3);
    reveal_strlit("applicationpath");
    assert("applicationpath"@.len() == 15);
    reveal_strlit("lc");
    assert("lc"@.len() == 2);
    reveal_strlit("launchcommand");
    assert("launchcommand"@.len() == 13);
    reveal_strlit("ruffle");
    assert("ruffle"@.len() == 6);
    reveal_strlit("rufflesupport");
    assert("rufflesupport"@.len() == 13);
}

/// The input of a single word, with a leading `-` when negated.
pub open spec fn word_input(w: Seq<char>, negated: bool) -> Seq<char> {
    if negated {
        seq!['-'] + w
    } else {
        w
    }
}

pub open spec fn plain_word(w: Seq<char>) -> bool {
    &&& w.len() > 0
    &&& forall|i: int| 0 <= i < w.len() ==> plain_char(#[trigger] w[i])
    &&& !leading_modifier(w[0])
}

/// The state a plain word leaves before its value is applied.
proof fn lemma_word_token(w: Seq<char>, negated: bool)
    requires
        plain_word(w),
    ensures
        ({
            let t = phase_quotes(phase_modifiers(initial_state(), word_input(w, negated)));
            let (t2, stop) = phase_key(t);
            &&& !t.st.capturing
            &&& t.st.value.len() == 0
            &&& !stop
            &&& t2.st == (ParseState {
                value: w,
                key_char: None,
                negative: negated,
                positions: if negated {
                    seq![PosView { element: ElementType::MODIFIER, value: seq!['-'], start: 0, end: 1 }]
                } else {
                    Seq::empty()
                },
                ..initial_state()
            })
            &&& t2.ts == (if negated {
                1int
            } else {
                0int
            })
        }),
{
    let input = word_input(w, negated);
    lemma_utf8_len_bounds(input);
    lemma_utf8_len_bounds(w);
    if negated {
        assert(input.skip(1) =~= w);
    }
    let t0 = phase_modifiers(initial_state(), input);
    assert(t0.token == w);
    let t = phase_quotes(t0);
    assert(t.token == w);
    lemma_char_index_from(w, ':', 0);
    lemma_char_index_from(w, '<', 0);
    lemma_char_index_from(w, '>', 0);
    lemma_char_index_from(w, '=', 0);
    assert(char_index(w, ':') == -1);
    assert(char_index(w, '<') == -1);
    assert(char_index(w, '>') == -1);
    assert(char_index(w, '=') == -1);
    assert(earliest_key_char_spec(w) is None);
    let (t2, stop) = phase_key(t);
    assert(t2.st =~= (ParseState {
        value: w,
        key_char: None,
        negative: negated,
        positions: if negated {
            seq![PosView { element: ElementType::MODIFIER, value: seq!['-'], start: 0, end: 1 }]
        } else {
            Seq::empty()
        },
        ..initial_state()
    }));
}

/// A value without a key is a generic term.
proof fn lemma_keyless_term(w: Seq<char>, negated: bool, ext: Seq<(String, ExtSearchableRegistered)>)
    requires
        ext_lookup(ext, Seq::empty()) is None,
    ensures
        apply_term(
            empty_forced_view(),
            Seq::empty(),
            w,
            None,
            negated,
            list_kind_of(negated, false),
            ext,
        ) == (ForcedView {
            lists: empty_forced_view().lists.update(slot(list_kind_of(negated, false), StringField::Generic), seq![w]),
            ..empty_forced_view()
        }),
{
    assert(is_ascii_lowercase_text(Seq::<char>::empty()));
    crate::text::lemma_lowercase_plain(Seq::<char>::empty());
    lemma_empty_key_names_nothing();
    let lk = list_kind_of(negated, false);
    assert(empty_forced_view().lists[slot(lk, StringField::Generic)] =~= Seq::<Seq<char>>::empty());
    assert(empty_forced_view().lists[slot(lk, StringField::Generic)].push(w) =~= seq![w]);
}

/// A word without spaces, quotes and key characters, that does not start
/// with `-`, `#`, `!` or `@`, is a generic term: it goes to the generic
/// whitelist, or, written after a `-`, to the generic blacklist. Nothing
/// else is set, and the spans are the `-` and the word.
pub proof fn law_single_word(w: Seq<char>, negated: bool, ext: Seq<(String, ExtSearchableRegistered)>)
    requires
        plain_word(w),
        ext_lookup(ext, Seq::empty()) is None,
    ensures
        parse_state(word_input(w, negated), ext).filter == (ForcedView {
            lists: empty_forced_view().lists.update(
                slot(
                    if negated {
                        ListKind::Blacklist
                    } else {
                        ListKind::Whitelist
                    },
                    StringField::Generic,
                ),
                seq![w],
            ),
            ..empty_forced_view()
        }),
        parse_state(word_input(w, negated), ext).positions == (if negated {
            seq![
                PosView { element: ElementType::MODIFIER, value: seq!['-'], start: 0, end: 1 },
                PosView { element: ElementType::VALUE, value: w, start: 1, end: 1 + utf8_len(w) as int },
            ]
        } else {
            seq![PosView { element: ElementType::VALUE, value: w, start: 0, end: utf8_len(w) as int }]
        }),
{
    let input = word_input(w, negated);
    assert forall|i: int| 0 <= i < input.len() implies input[i] != ' ' by {
        if negated && i > 0 {
            assert(input[i] == w[i - 1]);
        }
    }
    lemma_split_no_space(input);
    let tokens = seq![input];
    assert(tokens.drop_last() =~= Seq::<Seq<char>>::empty());
    assert(tokens.last() == input);
    assert(parse_tokens(tokens, ext) == step(parse_tokens(tokens.drop_last(), ext), input, ext));
    assert(parse_state(input, ext) == step(initial_state(), input, ext));
    lemma_word_token(w, negated);
    lemma_keyless_term(w, negated, ext);
    let t = phase_quotes(phase_modifiers(initial_state(), input));
    let (t2, stop) = phase_key(t);
    let pv = phase_value(t2.st, t2.ts, ext);
    assert(pv.filter == apply_term(
        empty_forced_view(),
        Seq::empty(),
        w,
        None,
        negated,
        list_kind_of(negated, false),
        ext,
    ));
    assert(pv.positions =~= (if negated {
        seq![
            PosView { element: ElementType::MODIFIER, value: seq!['-'], start: 0, end: 1 },
            PosView { element: ElementType::VALUE, value: w, start: 1, end: 1 + utf8_len(w) as int },
        ]
    } else {
        seq![PosView { element: ElementType::VALUE, value: w, start: 0, end: utf8_len(w) as int }]
    }));
}

/// A flag term is true unless it is negated, whatever value is written:
/// a value is false only if it is at once `no`, `false` and `0`.
pub proof fn law_flag_value(value: Seq<char>, negative: bool)
    ensures
        bool_value(value, negative) == !negative,
{
    reveal_strlit("no");
    reveal_strlit("false");
    assert("no"@.len() == 2);
    assert("false"@.len() == 5);
}

/// A key that names a text field is neither `installed` nor a comparison key.
proof fn lemma_text_key_is_plain(x: Seq<char>)
    requires
        string_field_of(x) is Some,
    ensures
        x != "installed"@,
        size_key_of(x) is None,
{
    reveal_strlit("installed");
    assert("installed"@.len() == 9);
    reveal_strlit("tags");
    assert("tags"@.len() == 4);
    reveal_strlit("platforms");
    assert("platforms"@.len() == 9);
    reveal_strlit("dateadded");
    assert("dateadded"@.len() == 9);
    reveal_strlit("da");
    assert("da"@.len() == 2);
    reveal_strlit("datemodified");
    assert("datemodified"@.len() == 12);
    reveal_strlit("dm");
    assert("dm"@.len() == 2);
    reveal_strlit("releasedate");
    assert("releasedate"@.len() == 11);
    reveal_strlit("rd");
    assert("rd"@.len() == 2);
    reveal_strlit("gamedata");
    assert("gamedata"@.len() == 8);
    reveal_strlit("gd");
    assert("gd"@.len() == 2);
    reveal_strlit("addapps");
    assert("addapps"@.len() == 7);
    reveal_strlit("aa");
    assert("aa"@.len() == 2);
    reveal_strlit("playtime");
    assert("playtime"@.len() == 8);
    reveal_strlit("pt");
    assert("pt"@.len() == 2);
    reveal_strlit("playcount");
    assert("playcount"@.len() == 9);
    reveal_strlit("pc");
    assert("pc"@.len() == 2);
    reveal_strlit("lastplayed");
    assert("lastplayed"@.len() == 10);
    reveal_strlit("lp");
    assert("lp"@.len() == 2);
    reveal_strlit("id");
    assert("id"@.len() == 2);
    reveal_strlit("lib");
    assert("lib"@.len() == 3);
    reveal_strlit("library");
    assert("library"@.len() == 7);
    reveal_strlit("title");
    assert("title"@.len() == 5);
    reveal_strlit("dev");
    assert("dev"@.len() == 3);
    reveal_strlit("developer");
    assert("developer"@.len() == 9);
    reveal_strlit("pub");
    assert("pub"@.len() == 3);
    reveal_strlit("publisher");
    assert("publisher"@.len() == 9);
    reveal_strlit("series");
    assert("series"@.len() == 6);
    reveal_strlit("tag");
    assert("tag"@.len() == 3);
    reveal_strlit("plat");
    assert("plat"@.len() == 4);
    reveal_strlit("platform");
    assert("platform"@.len() == 8);
    reveal_strlit("mode");
    assert("mode"@.len() == 4);
    reveal_strlit("playmode");
    assert("playmode"@.len() == 8);
    reveal_strlit("status");
    assert("status"@.len() == 6);
    reveal_strlit("note");
    assert("note"@.len() == 4);
    reveal_strlit("notes");
    assert("notes"@.len() == 5);
    reveal_strlit("src");
    assert("src"@.len() == 3);
    reveal_strlit("source");
    assert("source"@.len() == 6);
    reveal_strlit("od");
    assert("od"@.len() == 2);
    reveal_strlit("desc");
    assert("desc"@.len() == 4);
    reveal_strlit("description");
    assert("description"@.len() == 11);
    reveal_strlit("originaldescription");
    assert("originaldescription"@.len() == 19);
    reveal_strlit("lang");
    assert("lang"@.len() == 4);
    reveal_strlit("language");
    assert("language"@.len() == 8);
    reveal_strlit("ap");
    assert("ap"@.len() == 2);
    reveal_strlit("path");
    assert("path"@.len() == 4);
    reveal_strlit("app");
    assert("app"@.len() == 3);
    reveal_strlit("applicationpath");
    assert("applicationpath"@.len() == 15);
    reveal_strlit("lc");
    assert("lc"@.len() == 2);
    reveal_strlit("launchcommand");
    assert("launchcommand"@.len() == 13);
    reveal_strlit("ruffle");
    assert("ruffle"@.len() == 6);
    reveal_strlit("rufflesupport");
    assert("rufflesupport"@.len() == 13);
    assert("id"@ != "da"@) by { assert("id"@[0] != "da"@[0]); }
    assert("id"@ != "dm"@) by { assert("id"@[0] != "dm"@[0]); }
    assert("id"@ != "rd"@) by { assert("id"@[0] != "rd"@[0]); }
    assert("id"@ != "gd"@) by { assert("id"@[0] != "gd"@[0]); }
    assert("id"@ != "aa"@) by { assert("id"@[0] != "aa"@[0]); }
    assert("id"@ != "pt"@) by { assert("id"@[0] != "pt"@[0]); }
    assert("id"@ != "pc"@) by { assert("id"@[0] != "pc"@[0]); }
    assert("id"@ != "lp"@) by { assert("id"@[0] != "lp"@[0]); }
    assert("library"@ != "addapps"@) by { assert("library"@[0] != "addapps"@[0]); }
    assert("developer"@ != "installed"@) by { assert("developer"@[0] != "installed"@[0]); }
    assert("developer"@ != "platforms"@) by { assert("developer"@[0] != "platforms"@[0]); }
    assert("developer"@ != "dateadded"@) by { assert("developer"@[1] != "dateadded"@[1]); }
    assert("developer"@ != "playcount"@) by { assert("developer"@[0] != "playcount"@[0]); }
    assert("publisher"@ != "installed"@) by { assert("publisher"@[0] != "installed"@[0]); }
    assert("publisher"@ != "platforms"@) by { assert("publisher"@[1] != "platforms"@[1]); }
    assert("publisher"@ != "dateadded"@) by { assert("publisher"@[0] != "dateadded"@[0]); }
    assert("publisher"@ != "playcount"@) by { assert("publisher"@[1] != "playcount"@[1]); }
    assert("plat"@ != "tags"@) by { assert("plat"@[0] != "tags"@[0]); }
    assert("platform"@ != "gamedata"@) by { assert("platform"@[0] != "gamedata"@[0]); }
    assert("platform"@ != "playtime"@) by { assert("platform"@[3] != "playtime"@[3]); }
    assert("mode"@ != "tags"@) by { assert("mode"@[0] != "tags"@[0]); }
    assert("playmode"@ != "gamedata"@) by { assert("playmode"@[0] != "gamedata"@[0]); }
    assert("playmode"@ != "playtime"@) by { assert("playmode"@[4] != "playtime"@[4]); }
    assert("note"@ != "tags"@) by { assert("note"@[0] != "tags"@[0]); }
    assert("od"@ != "da"@) by { assert("od"@[0] != "da"@[0]); }
    assert("od"@ != "dm"@) by { assert("od"@[0] != "dm"@[0]); }
    assert("od"@ != "rd"@) by { assert("od"@[0] != "rd"@[0]); }
    assert("od"@ != "gd"@) by { assert("od"@[0] != "gd"@[0]); }
    assert("od"@ != "aa"@) by { assert("od"@[0] != "aa"@[0]); }
    assert("od"@ != "pt"@) by { assert("od"@[0] != "pt"@[0]); }
    assert("od"@ != "pc"@) by { assert("od"@[0] != "pc"@[0]); }
    assert("od"@ != "lp"@) by { assert("od"@[0] != "lp"@[0]); }
    assert("desc"@ != "tags"@) by { assert("desc"@[0] != "tags"@[0]); }
    assert("description"@ != "releasedate"@) by { assert("description"@[0] != "releasedate"@[0]); }
    assert("lang"@ != "tags"@) by { assert("lang"@[0] != "tags"@[0]); }
    assert("language"@ != "gamedata"@) by { assert("language"@[0] != "gamedata"@[0]); }
    assert("language"@ != "playtime"@) by { assert("language"@[0] != "playtime"@[0]); }
    assert("ap"@ != "da"@) by { assert("ap"@[0] != "da"@[0]); }
    assert("ap"@ != "dm"@) by { assert("ap"@[0] != "dm"@[0]); }
    assert("ap"@ != "rd"@) by { assert("ap"@[0] != "rd"@[0]); }
    assert("ap"@ != "gd"@) by { assert("ap"@[0] != "gd"@[0]); }
    assert("ap"@ != "aa"@) by { assert("ap"@[1] != "aa"@[1]); }
    assert("ap"@ != "pt"@) by { assert("ap"@[0] != "pt"@[0]); }
    assert("ap"@ != "pc"@) by { assert("ap"@[0] != "pc"@[0]); }
    assert("ap"@ != "lp"@) by { assert("ap"@[0] != "lp"@[0]); }
    assert("path"@ != "tags"@) by { assert("path"@[0] != "tags"@[0]); }
    assert("lc"@ != "da"@) by { assert("lc"@[0] != "da"@[0]); }
    assert("lc"@ != "dm"@) by { assert("lc"@[0] != "dm"@[0]); }
    assert("lc"@ != "rd"@) by { assert("lc"@[0] != "rd"@[0]); }
    assert("lc"@ != "gd"@) by { assert("lc"@[0] != "gd"@[0]); }
    assert("lc"@ != "aa"@) by { assert("lc"@[0] != "aa"@[0]); }
    assert("lc"@ != "pt"@) by { assert("lc"@[0] != "pt"@[0]); }
    assert("lc"@ != "pc"@) by { assert("lc"@[0] != "pc"@[0]); }
    assert("lc"@ != "lp"@) by { assert("lc"@[1] != "lp"@[1]); }
}

/// The input of one keyed term `key:rest`, with a leading `-` when negated.
pub open spec fn keyed_input(key: Seq<char>, rest: Seq<char>, negated: bool) -> Seq<char> {
    word_input(key + seq![':'] + rest, negated)
}

/// Text that can stand between double quotes within one term: no spaces and
/// no quotes.
pub open spec fn quotable(q: Seq<char>) -> bool {
    forall|i: int| 0 <= i < q.len() ==> q[i] != ' ' && q[i] != '"'
}

/// The value a keyed term's quoted part gives: the marker of an exact empty
/// value for `""`, else the text between the quotes.
pub open spec fn quoted_value(rest: Seq<char>) -> Seq<char> {
    if rest.len() == 2 {
        REPLACEMENT@
    } else {
        rest.skip(1).drop_last()
    }
}

/// The state a keyed term `key:"..."` leaves before its value is applied.
proof fn lemma_keyed_token(key: Seq<char>, rest: Seq<char>, negated: bool)
    requires
        plain_word(key),
        rest.len() >= 2,
        rest[0] == '"',
        rest.last() == '"',
        quotable(rest.skip(1).drop_last()),
    ensures
        ({
            let t = phase_quotes(phase_modifiers(initial_state(), keyed_input(key, rest, negated)));
            let (t2, stop) = phase_key(t);
            &&& !t.st.capturing
            &&& t.st.value.len() == 0
            &&& !stop
            &&& t2.st.key == key
            &&& t2.st.key_char == Some(KeyChar::MATCHES)
            &&& t2.st.negative == negated
            &&& t2.st.value == quoted_value(rest)
            &&& t2.st.filter == empty_forced_view()
        }),
{
    let token = key + seq![':'] + rest;
    let input = keyed_input(key, rest, negated);
    lemma_utf8_len_bounds(input);
    lemma_utf8_len_bounds(token);
    lemma_utf8_len_bounds(rest);
    if negated {
        assert(input.skip(1) =~= token);
    }
    assert(token[0] == key[0]);
    let t0 = phase_modifiers(initial_state(), input);
    assert(t0.token == token);
    let t = phase_quotes(t0);
    assert(t.token == token);
    let n: int = key.len() as int;
    assert(token[n] == ':');
    assert forall|j: int| 0 <= j < n implies plain_char(#[trigger] token[j]) by {
        assert(token[j] == key[j]);
    }
    lemma_char_index_from(token, ':', 0);
    lemma_char_index_from(token, '<', 0);
    lemma_char_index_from(token, '>', 0);
    lemma_char_index_from(token, '=', 0);
    assert(char_index(token, ':') == n);
    assert(earliest_key_char_spec(token) == Some(KeyChar::MATCHES));
    assert(token.take(n) =~= key);
    assert(token.skip(n + 1 as int) =~= rest);
    let (t2, stop) = phase_key(t);
    if rest.len() == 2 {
        assert(utf8_len(rest) == 2) by {
            let d = rest.drop_last();
            assert(d.drop_last() =~= Seq::<char>::empty());
            assert(d.last() == '"');
            assert(utf8_len(d.drop_last()) == 0);
            assert(('"' as u32) == 34);
            assert(utf8_len(d) == 1);
        }
    } else {
        assert(utf8_len(rest) != 2) by {
            lemma_utf8_len_bounds(rest);
        }
        assert(rest.skip(1).last() == '"');
    }
}

/// How a keyed term for a text field changes an empty filter.
proof fn lemma_text_term(
    key: Seq<char>,
    value: Seq<char>,
    negated: bool,
    exact: bool,
    fld: StringField,
    ext: Seq<(String, ExtSearchableRegistered)>,
)
    requires
        string_field_of(lowercase(key)) == Some(fld),
        ext_lookup(ext, lowercase(key)) is None,
    ensures
        apply_term(
            empty_forced_view(),
            key,
            value,
            Some(KeyChar::MATCHES),
            negated,
            list_kind_of(negated, exact),
            ext,
        ) == (ForcedView {
            lists: empty_forced_view().lists.update(
                slot(list_kind_of(negated, exact), fld),
                seq![if fld == StringField::RuffleSupport { lowercase(value) } else { value }],
            ),
            ..empty_forced_view()
        }),
{
    lemma_text_key_is_plain(lowercase(key));
    let i = slot(list_kind_of(negated, exact), fld);
    assert(0 <= i < empty_forced_view().lists.len());
    assert(empty_forced_view().lists[i] =~= Seq::<Seq<char>>::empty());
    let v = if fld == StringField::RuffleSupport { lowercase(value) } else { value };
    assert(empty_forced_view().lists[i].push(v) =~= seq![v]);
}

/// A key of a text field with an empty quoted value, `key:""`, asks for the
/// field to be exactly empty: the empty text goes to the field's exact
/// whitelist, or to its exact blacklist after a `-`. Nothing else is set.
pub proof fn law_empty_quotes_are_exact(
    key: Seq<char>,
    negated: bool,
    fld: StringField,
    ext: Seq<(String, ExtSearchableRegistered)>,
)
    requires
        plain_word(key),
        string_field_of(lowercase(key)) == Some(fld),
        ext_lookup(ext, lowercase(key)) is None,
    ensures
        parse_state(keyed_input(key, seq!['"', '"'], negated), ext).filter == (ForcedView {
            lists: empty_forced_view().lists.update(
                slot(list_kind_of(negated, true), fld),
                seq![Seq::<char>::empty()],
            ),
            ..empty_forced_view()
        }),
{
    let rest = seq!['"', '"'];
    assert(rest.skip(1).drop_last() =~= Seq::<char>::empty());
    lemma_keyed_token(key, rest, negated);
    lemma_single_token(keyed_input(key, rest, negated), key, rest, negated);
    reveal_strlit("UIOWHDYUAWDGBAWYUODIGAWYUIDIAWGHDYUI8AWGHDUIAWDHNAWUIODHJNAWIOUDHJNAWOUIDAJNWMLDK");
    assert(REPLACEMENT@.len() > 0);
    assert(is_ascii_lowercase_text(Seq::<char>::empty()));
    crate::text::lemma_lowercase_plain(Seq::<char>::empty());
    lemma_text_term(key, Seq::empty(), negated, true, fld, ext);
}

/// A quoted value keeps the key characters, `:`, `<`, `>` and `=`, written
/// inside it: `key:"text"` for a text field adds `text` as it stands (in
/// lowercase for the Ruffle support field) to the field's whitelist, or to
/// its blacklist after a `-`. Nothing else is set.
pub proof fn law_quoted_value_is_kept(
    key: Seq<char>,
    q: Seq<char>,
    negated: bool,
    fld: StringField,
    ext: Seq<(String, ExtSearchableRegistered)>,
)
    requires
        plain_word(key),
        q.len() > 0,
        quotable(q),
        q != REPLACEMENT@,
        string_field_of(lowercase(key)) == Some(fld),
        ext_lookup(ext, lowercase(key)) is None,
    ensures
        parse_state(keyed_input(key, seq!['"'] + q + seq!['"'], negated), ext).filter == (ForcedView {
            lists: empty_forced_view().lists.update(
                slot(list_kind_of(negated, false), fld),
                seq![if fld == StringField::RuffleSupport { lowercase(q) } else { q }],
            ),
            ..empty_forced_view()
        }),
{
    let rest = seq!['"'] + q + seq!['"'];
    assert(rest.skip(1).drop_last() =~= q);
    assert(rest[0] == '"');
    assert(rest.last() == '"');
    lemma_keyed_token(key, rest, negated);
    lemma_single_token(keyed_input(key, rest, negated), key, rest, negated);
    lemma_text_term(key, q, negated, false, fld, ext);
}

/// A keyed term without spaces is the whole input, read in one step.
proof fn lemma_single_token(input: Seq<char>, key: Seq<char>, rest: Seq<char>, negated: bool)
    requires
        input == keyed_input(key, rest, negated),
        forall|i: int| 0 <= i < key.len() ==> key[i] != ' ',
        forall|i: int| 0 <= i < rest.len() ==> rest[i] != ' ',
    ensures
        forall|ext: Seq<(String, ExtSearchableRegistered)>| parse_state(input, ext) == step(initial_state(), input, ext),
{
    let token = key + seq![':'] + rest;
    assert forall|i: int| 0 <= i < input.len() implies input[i] != ' ' by {
        let j = if negated { i - 1 } else { i };
        if !(negated && i == 0) {
            assert(input[i] == token[j]);
            if j < key.len() {
                assert(token[j] == key[j]);
            } else if j > key.len() {
                assert(token[j] == rest[j - key.len() - 1]);
            }
        }
    }
    lemma_split_no_space(input);
    let tokens = seq![input];
    assert(tokens.drop_last() =~= Seq::<Seq<char>>::empty());
    assert(tokens.last() == input);
    assert forall|ext: Seq<(String, ExtSearchableRegistered)>| parse_state(input, ext) == step(initial_state(), input, ext) by {
        assert(parse_tokens(tokens, ext) == step(parse_tokens(tokens.drop_last(), ext), input, ext));
    }
}

/// Whether a term with the lowered key `lkey` names something the search
/// knows: the `installed` flag, a text field, a comparison (with its key
/// character), or an extension's text or flag key; any other key makes the
/// whole term a generic word.
pub open spec fn key_is_known(
    f: ForcedView,
    lkey: Seq<char>,
    value: Seq<char>,
    kc: Option<KeyChar>,
    ext: Seq<(String, ExtSearchableRegistered)>,
) -> bool {
    ||| lkey == "installed"@
    ||| string_field_of(lkey) is Some
    ||| (kc matches Some(k) && apply_size(f.sizes[size_slot(k)], lkey, value, ext) is Some)
    ||| (ext_lookup(ext, lkey) matches Some(r) && (r.value_type == ExtSearchableType::String
        || r.value_type == ExtSearchableType::Boolean))
}

/// Law: search keys match without regard to ASCII case. Two ASCII keys that
/// are equal once `A`-`Z` are lowered, and that name something the search
/// knows, change the filter in the same way for the same value.
pub proof fn law_keys_ignore_ascii_case(
    f: ForcedView,
    k1: Seq<char>,
    k2: Seq<char>,
    value: Seq<char>,
    kc: Option<KeyChar>,
    negative: bool,
    lk: ListKind,
    ext: Seq<(String, ExtSearchableRegistered)>,
)
    requires
        is_ascii_text(k1),
        is_ascii_text(k2),
        ascii_lower_text(k1) == ascii_lower_text(k2),
        key_is_known(f, ascii_lower_text(k1), value, kc, ext),
    ensures
        lowercase(k1) == lowercase(k2),
        apply_term(f, k1, value, kc, negative, lk, ext) == apply_term(f, k2, value, kc, negative, lk, ext),
{
}

proof fn lemma_no_field_lists(x: FieldFilter)
    requires
        forall|i: int| 0 <= i < 18 ==> (#[trigger] x.deep_view().lists[i]) is None,
        x.deep_view().ext is None,
    ensures
        field_filter_is_empty(x),
{
    let l = x.deep_view().lists;
    assert(l[0] is None && l[1] is None && l[2] is None && l[3] is None && l[4] is None && l[5] is None);
    assert(l[6] is None && l[7] is None && l[8] is None && l[9] is None && l[10] is None && l[11] is None);
    assert(l[12] is None && l[13] is None && l[14] is None && l[15] is None && l[16] is None && l[17] is None);
}

/// Law: empty input gives no span and an empty filter, in which no matcher,
/// comparison or flag is set, no filter is nested, and all terms must
/// match.
pub proof fn law_empty_input(ext: Seq<(String, ExtSearchableRegistered)>, r: GameFilter)
    requires
        filter_from_forced(parse_state(Seq::empty(), ext).filter, r),
    ensures
        parse_state(Seq::empty(), ext).positions.len() == 0,
        game_filter_is_empty(r),
{
    let e = Seq::<char>::empty();
    assert(split_spaces(e) == seq![e]);
    assert(seq![e].drop_last() =~= Seq::<Seq<char>>::empty());
    assert(seq![e].last() == e);
    let st = parse_state(e, ext);
    let toks = split_spaces(e);
    assert(parse_tokens(toks.drop_last(), ext) == initial_state());
    assert(parse_tokens(toks, ext) == step(parse_tokens(toks.drop_last(), ext), toks.last(), ext));
    assert(st == step(initial_state(), e, ext));
    assert(earliest_key_char_spec(e) is None) by {
        crate::game::search::parse::lemma_char_index_from(e, ':', 0);
        crate::game::search::parse::lemma_char_index_from(e, '<', 0);
        crate::game::search::parse::lemma_char_index_from(e, '>', 0);
        crate::game::search::parse::lemma_char_index_from(e, '=', 0);
    }
    assert(st.filter == empty_forced_view());
    assert(st.positions.len() == 0);
    lemma_no_field_lists(r.whitelist);
    lemma_no_field_lists(r.blacklist);
    lemma_no_field_lists(r.exact_whitelist);
    lemma_no_field_lists(r.exact_blacklist);
}

/// A value that can follow a key within one term without quotes: not
/// empty, and no space, quote or key character.
pub open spec fn plain_value(v: Seq<char>) -> bool {
    v.len() > 0 && forall|i: int| 0 <= i < v.len() ==> plain_char(#[trigger] v[i])
}

/// The state a keyed term `key:value` leaves before its value is applied.
proof fn lemma_keyed_plain_token(key: Seq<char>, v: Seq<char>, negated: bool)
    requires
        plain_word(key),
        plain_value(v),
    ensures
        ({
            let t = phase_quotes(phase_modifiers(initial_state(), keyed_input(key, v, negated)));
            let (t2, stop) = phase_key(t);
            &&& !t.st.capturing
            &&& t.st.value.len() == 0
            &&& !stop
            &&& t2.st.key == key
            &&& t2.st.key_char == Some(KeyChar::MATCHES)
            &&& t2.st.negative == negated
            &&& t2.st.value == v
            &&& t2.st.filter == empty_forced_view()
        }),
{
    let token = key + seq![':'] + v;
    let input = keyed_input(key, v, negated);
    lemma_utf8_len_bounds(input);
    lemma_utf8_len_bounds(token);
    if negated {
        assert(input.skip(1) =~= token);
    }
    assert(token[0] == key[0]);
    let t0 = phase_modifiers(initial_state(), input);
    assert(t0.token == token);
    let t = phase_quotes(t0);
    assert(token.last() == v.last());
    assert(v.last() == v[v.len() - 1]);
    assert(t.token == token);
    let n: int = key.len() as int;
    assert(token[n] == ':');
    assert forall|j: int| 0 <= j < n implies plain_char(#[trigger] token[j]) by {
        assert(token[j] == key[j]);
    }
    lemma_char_index_from(token, ':', 0);
    lemma_char_index_from(token, '<', 0);
    lemma_char_index_from(token, '>', 0);
    lemma_char_index_from(token, '=', 0);
    assert(char_index(token, ':') == n);
    assert(earliest_key_char_spec(token) == Some(KeyChar::MATCHES));
    assert(token.take(n) =~= key);
    assert(token.skip(n + 1 as int) =~= v);
    assert(v[0] != '"');
}

/// The keys that name each text field in a search (`Generic` has none).
pub open spec fn field_keys(f: StringField) -> Seq<Seq<char>> {
    match f {
        StringField::Id => seq!["id"@],
        StringField::Generic => seq![],
        StringField::Library => seq!["lib"@, "library"@],
        StringField::Title => seq!["title"@],
        StringField::Developer => seq!["dev"@, "developer"@],
        StringField::Publisher => seq!["pub"@, "publisher"@],
        StringField::Series => seq!["series"@],
        StringField::Tags => seq!["tag"@],
        StringField::Platforms => seq!["plat"@, "platform"@],
        StringField::PlayMode => seq!["mode"@, "playmode"@],
        StringField::Status => seq!["status"@],
        StringField::Notes => seq!["note"@, "notes"@],
        StringField::Source => seq!["src"@, "source"@],
        StringField::OriginalDescription => seq!["od"@, "desc"@, "description"@, "originaldescription"@],
        StringField::Language => seq!["lang"@, "language"@],
        StringField::ApplicationPath => seq!["ap"@, "path"@, "app"@, "applicationpath"@],
        StringField::LaunchCommand => seq!["lc"@, "launchcommand"@],
        StringField::RuffleSupport => seq!["ruffle"@, "rufflesupport"@],
    }
}

#[verifier::rlimit(60)]
proof fn lemma_field_key(key: Seq<char>, fld: StringField)
    requires
        field_keys(fld).contains(key),
    ensures
        string_field_of(key) == Some(fld),
        is_ascii_lowercase_text(key),
        plain_word(key),
{
    reveal_strlit("id");
    reveal_strlit("lib");
    reveal_strlit("library");
    reveal_strlit("title");
    reveal_strlit("dev");
    reveal_strlit("developer");
    reveal_strlit("pub");
    reveal_strlit("publisher");
    reveal_strlit("series");
    reveal_strlit("tag");
    reveal_strlit("plat");
    reveal_strlit("platform");
    reveal_strlit("mode");
    reveal_strlit("playmode");
    reveal_strlit("status");
    reveal_strlit("note");
    reveal_strlit("notes");
    reveal_strlit("src");
    reveal_strlit("source");
    reveal_strlit("od");
    reveal_strlit("desc");
    reveal_strlit("description");
    reveal_strlit("originaldescription");
    reveal_strlit("lang");
    reveal_strlit("language");
    reveal_strlit("ap");
    reveal_strlit("path");
    reveal_strlit("app");
    reveal_strlit("applicationpath");
    reveal_strlit("lc");
    reveal_strlit("launchcommand");
    reveal_strlit("ruffle");
    reveal_strlit("rufflesupport");
    assert("id"@[0] == 'i' && "id"@[1] == 'd');
    assert("lib"@[0] == 'l' && "lib"@[1] == 'i' && "lib"@[2] == 'b');
    assert("library"@[0] == 'l' && "library"@[1] == 'i' && "library"@[2] == 'b' && "library"@[3] == 'r');
    assert("title"@[0] == 't' && "title"@[1] == 'i' && "title"@[2] == 't' && "title"@[3] == 'l');
    assert("dev"@[0] == 'd' && "dev"@[1] == 'e' && "dev"@[2] == 'v');
    assert("developer"@[0] == 'd' && "developer"@[1] == 'e' && "developer"@[2] == 'v' && "developer"@[3] == 'e');
    assert("pub"@[0] == 'p' && "pub"@[1] == 'u' && "pub"@[2] == 'b');
    assert("publisher"@[0] == 'p' && "publisher"@[1] == 'u' && "publisher"@[2] == 'b' && "publisher"@[3] == 'l');
    assert("series"@[0] == 's' && "series"@[1] == 'e' && "series"@[2] == 'r' && "series"@[3] == 'i');
    assert("tag"@[0] == 't' && "tag"@[1] == 'a' && "tag"@[2] == 'g');
    assert("plat"@[0] == 'p' && "plat"@[1] == 'l' && "plat"@[2] == 'a' && "plat"@[3] == 't');
    assert("platform"@[0] == 'p' && "platform"@[1] == 'l' && "platform"@[2] == 'a' && "platform"@[3] == 't');
    assert("mode"@[0] == 'm' && "mode"@[1] == 'o' && "mode"@[2] == 'd' && "mode"@[3] == 'e');
    assert("playmode"@[0] == 'p' && "playmode"@[1] == 'l' && "playmode"@[2] == 'a' && "playmode"@[3] == 'y');
    assert("status"@[0] == 's' && "status"@[1] == 't' && "status"@[2] == 'a' && "status"@[3] == 't');
    assert("note"@[0] == 'n' && "note"@[1] == 'o' && "note"@[2] == 't' && "note"@[3] == 'e');
    assert("notes"@[0] == 'n' && "notes"@[1] == 'o' && "notes"@[2] == 't' && "notes"@[3] == 'e');
    assert("src"@[0] == 's' && "src"@[1] == 'r' && "src"@[2] == 'c');
    assert("source"@[0] == 's' && "source"@[1] == 'o' && "source"@[2] == 'u' && "source"@[3] == 'r');
    assert("od"@[0] == 'o' && "od"@[1] == 'd');
    assert("desc"@[0] == 'd' && "desc"@[1] == 'e' && "desc"@[2] == 's' && "desc"@[3] == 'c');
    assert("description"@[0] == 'd' && "description"@[1] == 'e' && "description"@[2] == 's' && "description"@[3] == 'c');
    assert("originaldescription"@[0] == 'o' && "originaldescription"@[1] == 'r' && "originaldescription"@[2] == 'i' && "originaldescription"@[3] == 'g');
    assert("lang"@[0] == 'l' && "lang"@[1] == 'a' && "lang"@[2] == 'n' && "lang"@[3] == 'g');
    assert("language"@[0] == 'l' && "language"@[1] == 'a' && "language"@[2] == 'n' && "language"@[3] == 'g');
    assert("ap"@[0] == 'a' && "ap"@[1] == 'p');
    assert("path"@[0] == 'p' && "path"@[1] == 'a' && "path"@[2] == 't' && "path"@[3] == 'h');
    assert("app"@[0] == 'a' && "app"@[1] == 'p' && "app"@[2] == 'p');
    assert("applicationpath"@[0] == 'a' && "applicationpath"@[1] == 'p' && "applicationpath"@[2] == 'p' && "applicationpath"@[3] == 'l');
    assert("lc"@[0] == 'l' && "lc"@[1] == 'c');
    assert("launchcommand"@[0] == 'l' && "launchcommand"@[1] == 'a' && "launchcommand"@[2] == 'u' && "launchcommand"@[3] == 'n');
    assert("ruffle"@[0] == 'r' && "ruffle"@[1] == 'u' && "ruffle"@[2] == 'f' && "ruffle"@[3] == 'f');
    assert("rufflesupport"@[0] == 'r' && "rufflesupport"@[1] == 'u' && "rufflesupport"@[2] == 'f' && "rufflesupport"@[3] == 'f');
    let ks = field_keys(fld);
    let j = choose|j: int| 0 <= j < ks.len() && ks[j] == key;
    assert(ks[j] == key);
    assert(key.len() > 0);
    assert forall|i: int| 0 <= i < key.len() implies 'a' <= #[trigger] key[i] && key[i] <= 'z' by {
        assert(ks[j][i] == key[i]);
    }
    assert forall|i: int| 0 <= i < key.len() implies plain_char(#[trigger] key[i]) by {
        assert('a' <= key[i] && key[i] <= 'z');
    }
    assert forall|i: int| 0 <= i < key.len() implies is_ascii_caseless_or_lower(#[trigger] key[i]) by {
        assert('a' <= key[i] && key[i] <= 'z');
    }
    assert('a' <= key[0] && key[0] <= 'z');
}

/// Law: each key of a text field searches that field. Parsing `key:value`
/// (or `-key:value`), with a key of the field `fld` that no extension
/// claims, puts `value` (lowercased for the Ruffle support field) in the
/// list of `fld`, included or excluded, and sets nothing else. (A value
/// equal to the marker of an exact empty value, `REPLACEMENT`, is read as
/// that marker.)
pub proof fn law_text_keys(
    key: Seq<char>,
    value: Seq<char>,
    negated: bool,
    fld: StringField,
    ext: Seq<(String, ExtSearchableRegistered)>,
)
    requires
        field_keys(fld).contains(key),
        plain_value(value),
        value != REPLACEMENT@,
        ext_lookup(ext, key) is None,
    ensures
        parse_state(keyed_input(key, value, negated), ext).filter == (ForcedView {
            lists: empty_forced_view().lists.update(
                slot(list_kind_of(negated, false), fld),
                seq![if fld == StringField::RuffleSupport { lowercase(value) } else { value }],
            ),
            ..empty_forced_view()
        }),
{
    lemma_field_key(key, fld);
    crate::text::lemma_lowercase_plain(key);
    lemma_keyed_plain_token(key, value, negated);
    lemma_single_token(keyed_input(key, value, negated), key, value, negated);
    lemma_text_term(key, value, negated, false, fld, ext);
}

/// The input `key`, key character, `value`, after a `-` when negated.
pub open spec fn compared_input(key: Seq<char>, k: KeyChar, value: Seq<char>, negated: bool) -> Seq<char> {
    word_input(key + seq![key_char_char(k)] + value, negated)
}

/// The state a term `key` `k` `value` leaves before its value is applied.
proof fn lemma_compared_token(key: Seq<char>, k: KeyChar, v: Seq<char>, negated: bool)
    requires
        plain_word(key),
        plain_value(v),
    ensures
        ({
            let t = phase_quotes(phase_modifiers(initial_state(), compared_input(key, k, v, negated)));
            let (t2, stop) = phase_key(t);
            &&& !t.st.capturing
            &&& t.st.value.len() == 0
            &&& !stop
            &&& t2.st.key == key
            &&& t2.st.key_char == Some(k)
            &&& t2.st.negative == negated
            &&& t2.st.value == v
            &&& t2.st.filter == empty_forced_view()
        }),
{
    let c = key_char_char(k);
    let token = key + seq![c] + v;
    let input = compared_input(key, k, v, negated);
    lemma_utf8_len_bounds(input);
    lemma_utf8_len_bounds(token);
    if negated {
        assert(input.skip(1) =~= token);
    }
    assert(token[0] == key[0]);
    let t0 = phase_modifiers(initial_state(), input);
    assert(t0.token == token);
    let t = phase_quotes(t0);
    assert(token.last() == v.last());
    assert(v.last() == v[v.len() - 1]);
    assert(t.token == token);
    let n: int = key.len() as int;
    assert(token[n] == c);
    assert forall|j: int| 0 <= j < n implies plain_char(#[trigger] token[j]) by {
        assert(token[j] == key[j]);
    }
    assert forall|j: int| n < j < token.len() implies plain_char(#[trigger] token[j]) by {
        assert(token[j] == v[j - n - 1]);
    }
    lemma_char_index_from(token, ':', 0);
    lemma_char_index_from(token, '<', 0);
    lemma_char_index_from(token, '>', 0);
    lemma_char_index_from(token, '=', 0);
    assert(char_index(token, c) == n);
    assert(earliest_key_char_spec(token) == Some(k));
    assert(token.take(n) =~= key);
    assert(token.skip(n + 1 as int) =~= v);
    assert(v[0] != '"');
}

/// The keys that name each comparison field in a search.
pub open spec fn size_keys(sk: SizeKey) -> Seq<Seq<char>> {
    match sk {
        SizeKey::Tags => seq!["tags"@],
        SizeKey::Platforms => seq!["platforms"@],
        SizeKey::DateAdded => seq!["dateadded"@, "da"@],
        SizeKey::DateModified => seq!["datemodified"@, "dm"@],
        SizeKey::ReleaseDate => seq!["releasedate"@, "rd"@],
        SizeKey::GameData => seq!["gamedata"@, "gd"@],
        SizeKey::AddApps => seq!["addapps"@, "aa"@],
        SizeKey::Playtime => seq!["playtime"@, "pt"@],
        SizeKey::Playcount => seq!["playcount"@, "pc"@],
        SizeKey::LastPlayed => seq!["lastplayed"@, "lp"@],
    }
}

#[verifier::rlimit(80)]
proof fn lemma_size_key(key: Seq<char>, sk: SizeKey)
    requires
        size_keys(sk).contains(key),
    ensures
        size_key_of(key) == Some(sk),
        key != "installed"@,
        is_ascii_lowercase_text(key),
        plain_word(key),
{
    reveal_strlit("id");
    reveal_strlit("lib");
    reveal_strlit("library");
    reveal_strlit("title");
    reveal_strlit("dev");
    reveal_strlit("developer");
    reveal_strlit("pub");
    reveal_strlit("publisher");
    reveal_strlit("series");
    reveal_strlit("tag");
    reveal_strlit("plat");
    reveal_strlit("platform");
    reveal_strlit("mode");
    reveal_strlit("playmode");
    reveal_strlit("status");
    reveal_strlit("note");
    reveal_strlit("notes");
    reveal_strlit("src");
    reveal_strlit("source");
    reveal_strlit("od");
    reveal_strlit("desc");
    reveal_strlit("description");
    reveal_strlit("originaldescription");
    reveal_strlit("lang");
    reveal_strlit("language");
    reveal_strlit("ap");
    reveal_strlit("path");
    reveal_strlit("app");
    reveal_strlit("applicationpath");
    reveal_strlit("lc");
    reveal_strlit("launchcommand");
    reveal_strlit("ruffle");
    reveal_strlit("rufflesupport");
    reveal_strlit("installed");
    reveal_strlit("tags");
    reveal_strlit("platforms");
    reveal_strlit("dateadded");
    reveal_strlit("da");
    reveal_strlit("datemodified");
    reveal_strlit("dm");
    reveal_strlit("releasedate");
    reveal_strlit("rd");
    reveal_strlit("gamedata");
    reveal_strlit("gd");
    reveal_strlit("addapps");
    reveal_strlit("aa");
    reveal_strlit("playtime");
    reveal_strlit("pt");
    reveal_strlit("playcount");
    reveal_strlit("pc");
    reveal_strlit("lastplayed");
    reveal_strlit("lp");
    assert("id"@[0] == 'i' && "id"@[1] == 'd');
    assert("lib"@[0] == 'l' && "lib"@[1] == 'i' && "lib"@[2] == 'b');
    assert("library"@[0] == 'l' && "library"@[1] == 'i' && "library"@[2] == 'b' && "library"@[3] == 'r');
    assert("title"@[0] == 't' && "title"@[1] == 'i' && "title"@[2] == 't' && "title"@[3] == 'l');
    assert("dev"@[0] == 'd' && "dev"@[1] == 'e' && "dev"@[2] == 'v');
    assert("developer"@[0] == 'd' && "developer"@[1] == 'e' && "developer"@[2] == 'v' && "developer"@[3] == 'e');
    assert("pub"@[0] == 'p' && "pub"@[1] == 'u' && "pub"@[2] == 'b');
    assert("publisher"@[0] == 'p' && "publisher"@[1] == 'u' && "publisher"@[2] == 'b' && "publisher"@[3] == 'l');
    assert("series"@[0] == 's' && "series"@[1] == 'e' && "series"@[2] == 'r' && "series"@[3] == 'i');
    assert("tag"@[0] == 't' && "tag"@[1] == 'a' && "tag"@[2] == 'g');
    assert("plat"@[0] == 'p' && "plat"@[1] == 'l' && "plat"@[2] == 'a' && "plat"@[3] == 't');
    assert("platform"@[0] == 'p' && "platform"@[1] == 'l' && "platform"@[2] == 'a' && "platform"@[3] == 't');
    assert("mode"@[0] == 'm' && "mode"@[1] == 'o' && "mode"@[2] == 'd' && "mode"@[3] == 'e');
    assert("playmode"@[0] == 'p' && "playmode"@[1] == 'l' && "playmode"@[2] == 'a' && "playmode"@[3] == 'y');
    assert("status"@[0] == 's' && "status"@[1] == 't' && "status"@[2] == 'a' && "status"@[3] == 't');
    assert("note"@[0] == 'n' && "note"@[1] == 'o' && "note"@[2] == 't' && "note"@[3] == 'e');
    assert("notes"@[0] == 'n' && "notes"@[1] == 'o' && "notes"@[2] == 't' && "notes"@[3] == 'e');
    assert("src"@[0] == 's' && "src"@[1] == 'r' && "src"@[2] == 'c');
    assert("source"@[0] == 's' && "source"@[1] == 'o' && "source"@[2] == 'u' && "source"@[3] == 'r');
    assert("od"@[0] == 'o' && "od"@[1] == 'd');
    assert("desc"@[0] == 'd' && "desc"@[1] == 'e' && "desc"@[2] == 's' && "desc"@[3] == 'c');
    assert("description"@[0] == 'd' && "description"@[1] == 'e' && "description"@[2] == 's' && "description"@[3] == 'c');
    assert("originaldescription"@[0] == 'o' && "originaldescription"@[1] == 'r' && "originaldescription"@[2] == 'i' && "originaldescription"@[3] == 'g');
    assert("lang"@[0] == 'l' && "lang"@[1] == 'a' && "lang"@[2] == 'n' && "lang"@[3] == 'g');
    assert("language"@[0] == 'l' && "language"@[1] == 'a' && "language"@[2] == 'n' && "language"@[3] == 'g');
    assert("ap"@[0] == 'a' && "ap"@[1] == 'p');
    assert("path"@[0] == 'p' && "path"@[1] == 'a' && "path"@[2] == 't' && "path"@[3] == 'h');
    assert("app"@[0] == 'a' && "app"@[1] == 'p' && "app"@[2] == 'p');
    assert("applicationpath"@[0] == 'a' && "applicationpath"@[1] == 'p' && "applicationpath"@[2] == 'p' && "applicationpath"@[3] == 'l');
    assert("lc"@[0] == 'l' && "lc"@[1] == 'c');
    assert("launchcommand"@[0] == 'l' && "launchcommand"@[1] == 'a' && "launchcommand"@[2] == 'u' && "launchcommand"@[3] == 'n');
    assert("ruffle"@[0] == 'r' && "ruffle"@[1] == 'u' && "ruffle"@[2] == 'f' && "ruffle"@[3] == 'f');
    assert("rufflesupport"@[0] == 'r' && "rufflesupport"@[1] == 'u' && "rufflesupport"@[2] == 'f' && "rufflesupport"@[3] == 'f');
    assert("installed"@[0] == 'i' && "installed"@[1] == 'n' && "installed"@[2] == 's' && "installed"@[3] == 't');
    assert("tags"@[0] == 't' && "tags"@[1] == 'a' && "tags"@[2] == 'g' && "tags"@[3] == 's');
    assert("platforms"@[0] == 'p' && "platforms"@[1] == 'l' && "platforms"@[2] == 'a' && "platforms"@[3] == 't');
    assert("dateadded"@[0] == 'd' && "dateadded"@[1] == 'a' && "dateadded"@[2] == 't' && "dateadded"@[3] == 'e');
    assert("da"@[0] == 'd' && "da"@[1] == 'a');
    assert("datemodified"@[0] == 'd' && "datemodified"@[1] == 'a' && "datemodified"@[2] == 't' && "datemodified"@[3] == 'e');
    assert("dm"@[0] == 'd' && "dm"@[1] == 'm');
    assert("releasedate"@[0] == 'r' && "releasedate"@[1] == 'e' && "releasedate"@[2] == 'l' && "releasedate"@[3] == 'e');
    assert("rd"@[0] == 'r' && "rd"@[1] == 'd');
    assert("gamedata"@[0] == 'g' && "gamedata"@[1] == 'a' && "gamedata"@[2] == 'm' && "gamedata"@[3] == 'e');
    assert("gd"@[0] == 'g' && "gd"@[1] == 'd');
    assert("addapps"@[0] == 'a' && "addapps"@[1] == 'd' && "addapps"@[2] == 'd' && "addapps"@[3] == 'a');
    assert("aa"@[0] == 'a' && "aa"@[1] == 'a');
    assert("playtime"@[0] == 'p' && "playtime"@[1] == 'l' && "playtime"@[2] == 'a' && "playtime"@[3] == 'y');
    assert("pt"@[0] == 'p' && "pt"@[1] == 't');
    assert("playcount"@[0] == 'p' && "playcount"@[1] == 'l' && "playcount"@[2] == 'a' && "playcount"@[3] == 'y');
    assert("pc"@[0] == 'p' && "pc"@[1] == 'c');
    assert("lastplayed"@[0] == 'l' && "lastplayed"@[1] == 'a' && "lastplayed"@[2] == 's' && "lastplayed"@[3] == 't');
    assert("lp"@[0] == 'l' && "lp"@[1] == 'p');
    let ks = size_keys(sk);
    let j = choose|j: int| 0 <= j < ks.len() && ks[j] == key;
    assert(ks[j] == key);
    assert(key.len() > 0);
    assert forall|i: int| 0 <= i < key.len() implies 'a' <= #[trigger] key[i] && key[i] <= 'z' by {
        assert(ks[j][i] == key[i]);
    }
    assert forall|i: int| 0 <= i < key.len() implies plain_char(#[trigger] key[i]) by {
        assert('a' <= key[i] && key[i] <= 'z');
    }
    assert forall|i: int| 0 <= i < key.len() implies is_ascii_caseless_or_lower(#[trigger] key[i]) by {
        assert('a' <= key[i] && key[i] <= 'z');
    }
    assert('a' <= key[0] && key[0] <= 'z');
}

/// The comparison filter with only the field of `sk` set: counts to `n`,
/// dates to the text `value`.
pub open spec fn size_term(sk: SizeKey, n: i64, value: Seq<char>) -> SizeView {
    match sk {
        SizeKey::Tags => SizeView { tags: Some(n), ..empty_size_view() },
        SizeKey::Platforms => SizeView { platforms: Some(n), ..empty_size_view() },
        SizeKey::DateAdded => SizeView { date_added: Some(value), ..empty_size_view() },
        SizeKey::DateModified => SizeView { date_modified: Some(value), ..empty_size_view() },
        SizeKey::ReleaseDate => SizeView { release_date: Some(value), ..empty_size_view() },
        SizeKey::GameData => SizeView { game_data: Some(n), ..empty_size_view() },
        SizeKey::AddApps => SizeView { add_apps: Some(n), ..empty_size_view() },
        SizeKey::Playtime => SizeView { playtime: Some(n), ..empty_size_view() },
        SizeKey::Playcount => SizeView { playcount: Some(n), ..empty_size_view() },
        SizeKey::LastPlayed => SizeView { last_played: Some(value), ..empty_size_view() },
    }
}

/// Law: each comparison key compares its field, and the key character
/// picks the comparison. Parsing `key<value`, `key>value` or `key=value`
/// (negated or not), with a key of the field `sk` that no extension claims,
/// sets that field of the lower-than, higher-than or equal-to filter,
/// respectively, to the number `value` stands for (a count or time) or to
/// `value` itself (a date), and sets nothing else.
pub proof fn law_comparison_keys(
    key: Seq<char>,
    k: KeyChar,
    value: Seq<char>,
    negated: bool,
    sk: SizeKey,
    ext: Seq<(String, ExtSearchableRegistered)>,
)
    requires
        size_keys(sk).contains(key),
        k != KeyChar::MATCHES,
        plain_value(value),
        value != REPLACEMENT@,
        ext_lookup(ext, key) is None,
    ensures
        parse_state(compared_input(key, k, value, negated), ext).filter == (ForcedView {
            sizes: empty_forced_view().sizes.update(
                if k == KeyChar::LOWER { 0int } else if k == KeyChar::HIGHER { 1int } else { 2int },
                size_term(sk, coerce_spec(value), value),
            ),
            ..empty_forced_view()
        }),
{
    lemma_size_key(key, sk);
    crate::text::lemma_lowercase_plain(key);
    lemma_compared_token(key, k, value, negated);
    let input = compared_input(key, k, value, negated);
    let token = key + seq![key_char_char(k)] + value;
    assert forall|i: int| 0 <= i < input.len() implies input[i] != ' ' by {
        let j = if negated { i - 1 } else { i };
        if !(negated && i == 0) {
            assert(input[i] == token[j]);
            if j < key.len() {
                assert(token[j] == key[j]);
            } else if j > key.len() {
                assert(token[j] == value[j - key.len() - 1]);
            }
        }
    }
    lemma_split_no_space(input);
    let tokens = seq![input];
    assert(tokens.drop_last() =~= Seq::<Seq<char>>::empty());
    assert(tokens.last() == input);
    assert(parse_tokens(tokens, ext) == step(parse_tokens(tokens.drop_last(), ext), input, ext));
    let e = empty_forced_view();
    assert(e.sizes[size_slot(k)] == crate::game::search::filter::empty_size_view());
    assert(e.sizes.update(size_slot(k), size_term(sk, coerce_spec(value), value)) =~= e.sizes.update(
        if k == KeyChar::LOWER { 0int } else if k == KeyChar::HIGHER { 1int } else { 2int },
        size_term(sk, coerce_spec(value), value),
    ));
}

proof fn lemma_field_round(g: StringField)
    ensures
        0 <= field_index(g) < NUM_FIELDS,
        field_at(field_index(g) as int) == g,
{
}

/// What a list of the search holds, by view: `Some` of the values, or
/// `None` when the list is unset.
pub open spec fn list_of(ff: FieldFilter, g: StringField) -> Option<Seq<Seq<char>>> {
    strs_view(ff.get(g))
}

/// Law: in the search built from `key:value` (or `-key:value`), with a key
/// of the text field `fld` (not the library, whose terms are dropped) that
/// no extension claims, the included list of `fld` (the excluded list,
/// after `-`) holds just `value` (lowercased for the Ruffle support field),
/// and every other text list, included, excluded or exact, is unset.
pub proof fn law_text_key_search(
    key: Seq<char>,
    value: Seq<char>,
    negated: bool,
    fld: StringField,
    ext: Seq<(String, ExtSearchableRegistered)>,
    r: GameFilter,
)
    requires
        field_keys(fld).contains(key),
        fld != StringField::Library,
        plain_value(value),
        value != REPLACEMENT@,
        ext_lookup(ext, key) is None,
        filter_from_forced(parse_state(keyed_input(key, value, negated), ext).filter, r),
    ensures
        list_of(if negated { r.blacklist } else { r.whitelist }, fld) == Some(
            seq![if fld == StringField::RuffleSupport { lowercase(value) } else { value }],
        ),
        forall|g: StringField| g != fld ==> list_of(r.whitelist, g) is None && list_of(r.blacklist, g) is None,
        negated ==> forall|g: StringField| #[trigger] list_of(r.whitelist, g) is None,
        !negated ==> forall|g: StringField| #[trigger] list_of(r.blacklist, g) is None,
        forall|g: StringField| list_of(r.exact_whitelist, g) is None && list_of(r.exact_blacklist, g) is None,
{
    law_text_keys(key, value, negated, fld, ext);
    let v = parse_state(keyed_input(key, value, negated), ext).filter;
    let x = if fld == StringField::RuffleSupport { lowercase(value) } else { value };
    let lk = list_kind_of(negated, false);
    assert(lk == if negated { LK::Blacklist } else { LK::Whitelist });
    let e = empty_forced_view();
    assert forall|kk: LK, g: StringField| #![trigger forced_list_to_option(v, kk, field_index(g) as int)]
        forced_list_to_option(v, kk, field_index(g) as int) == (if kk == lk && g == fld { Some(seq![x]) } else {
            None::<Seq<Seq<char>>>
        }) by {
        lemma_field_round(g);
        lemma_field_round(fld);
        let i = slot(kk, g);
        assert(v.lists[i] == if i == slot(lk, fld) { seq![x] } else { e.lists[i] });
        assert(e.lists[i].len() == 0);
        if i == slot(lk, fld) {
            assert(list_index(kk) == list_index(lk));
            assert(kk == lk);
            assert(field_index(g) == field_index(fld));
            assert(g == fld);
        }
    }
    assert forall|kk: LK, ff: FieldFilter, g: StringField|
        #![trigger list_of(ff, g), field_view_from_forced(v, kk)]
        ff.deep_view() == field_view_from_forced(v, kk) implies list_of(ff, g) == forced_list_to_option(
        v,
        kk,
        field_index(g) as int,
    ) by {
        lemma_field_round(g);
        assert(ff.deep_view().lists[field_index(g) as int] == strs_view(ff.get(field_at(field_index(g) as int))));
    }
    assert forall|g: StringField| g != fld implies list_of(r.whitelist, g) is None && list_of(r.blacklist, g) is None by {
        assert(list_of(r.whitelist, g) == forced_list_to_option(v, LK::Whitelist, field_index(g) as int));
        assert(list_of(r.blacklist, g) == forced_list_to_option(v, LK::Blacklist, field_index(g) as int));
    }
    assert forall|g: StringField| negated implies #[trigger] list_of(r.whitelist, g) is None by {
        assert(list_of(r.whitelist, g) == forced_list_to_option(v, LK::Whitelist, field_index(g) as int));
    }
    assert forall|g: StringField| !negated implies #[trigger] list_of(r.blacklist, g) is None by {
        assert(list_of(r.blacklist, g) == forced_list_to_option(v, LK::Blacklist, field_index(g) as int));
    }
    assert forall|g: StringField| list_of(r.exact_whitelist, g) is None && list_of(r.exact_blacklist, g) is None by {
        assert(list_of(r.exact_whitelist, g) == forced_list_to_option(v, LK::ExactWhitelist, field_index(g) as int));
        assert(list_of(r.exact_blacklist, g) == forced_list_to_option(v, LK::ExactBlacklist, field_index(g) as int));
    }
    assert(list_of(r.whitelist, fld) == forced_list_to_option(v, LK::Whitelist, field_index(fld) as int));
    assert(list_of(r.blacklist, fld) == forced_list_to_option(v, LK::Blacklist, field_index(fld) as int));
}

} // verus!
