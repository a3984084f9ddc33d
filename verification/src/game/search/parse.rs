//! The user search language: words, `key:value` terms with the comparison
//! characters `:`, `<`, `>` and `=`, `-` negation, the `#`, `!` and `@`
//! shortcuts for tags, platforms and developers, and quoted values.
use vstd::prelude::*;
use crate::game::ext::{ExtSearchableRegistered, ExtSearchableType};
use crate::game::extmap::{exec_assoc_get, ext_push, ext_set};
use crate::game::search::{ElementPosition, ElementType, KeyChar, key_char_char};
use crate::game::search::coerce::coerce_spec;
use crate::game::search::filter::{
    BoolView, ExtBoolView, ExtNumView, ForcedView, ListKind, NUM_FIELDS, SizeView, StringField,
    field_index, list_index, list_kind_of,
};
use crate::text::{
    lemma_utf8_len_bounds, lemma_utf8_len_concat, lemma_utf8_len_drop_last, lemma_utf8_len_prefix,
    lemma_utf8_len_single, lemma_utf8_len_skip_first, lowercase, utf8_char_len, utf8_len,
};

verus! {

/// Marks a deliberately empty value (`key:""`) while a token is processed.
pub const REPLACEMENT: &'static str = "UIOWHDYUAWDGBAWYUODIGAWYUIDIAWGHDYUI8AWGHDUIAWDHNAWUIODHJNAWIOUDHJNAWOUIDAJNWMLDK";

// ---------------------------------------------------------------------------
// Tokens
// ---------------------------------------------------------------------------

/// `s.split(' ')`: the pieces between single spaces, empty ones included.
pub open spec fn split_spaces(s: Seq<char>) -> Seq<Seq<char>>
    decreases s.len(),
{
    if s.len() == 0 {
        seq![Seq::empty()]
    } else {
        let p = split_spaces(s.drop_last());
        if s.last() == ' ' {
            p.push(Seq::empty())
        } else {
            p.update(p.len() - 1, p.last().push(s.last()))
        }
    }
}

/// Bytes consumed by tokens, each followed by one separator.
pub open spec fn tokens_cost(ts: Seq<Seq<char>>) -> nat
    decreases ts.len(),
{
    if ts.len() == 0 {
        0
    } else {
        tokens_cost(ts.drop_last()) + utf8_len(ts.last()) + 1
    }
}

pub proof fn lemma_split_spaces(s: Seq<char>)
    ensures
        split_spaces(s).len() >= 1,
        tokens_cost(split_spaces(s)) == utf8_len(s) + 1,
    decreases s.len(),
{
    if s.len() > 0 {
        let p = split_spaces(s.drop_last());
        lemma_split_spaces(s.drop_last());
        assert(s.drop_last().push(s.last()) =~= s);
        if s.last() == ' ' {
            assert(split_spaces(s).drop_last() =~= p);
            assert(utf8_char_len(' ') == 1);
            let q = split_spaces(s);
            assert(q.last() =~= Seq::<char>::empty());
            assert(utf8_len(q.last()) == 0);
            assert(tokens_cost(q) == tokens_cost(q.drop_last()) + utf8_len(q.last()) + 1);
            assert(utf8_len(s) == utf8_len(s.drop_last()) + 1);
        } else {
            let q = split_spaces(s);
            assert(q.drop_last() =~= p.drop_last());
            assert(q.last() =~= p.last().push(s.last()));
            assert(p.last().push(s.last()).drop_last() =~= p.last());
            assert(utf8_len(q.last()) == utf8_len(p.last()) + utf8_char_len(s.last()));
            assert(tokens_cost(p) == tokens_cost(p.drop_last()) + utf8_len(p.last()) + 1);
            assert(tokens_cost(q) == tokens_cost(q.drop_last()) + utf8_len(q.last()) + 1);
            assert(tokens_cost(p.drop_last()) == tokens_cost(q.drop_last()));
            assert(utf8_len(s) == utf8_len(s.drop_last()) + utf8_char_len(s.last()));
        }
    } else {
        let q = split_spaces(s);
        assert(q.drop_last() =~= Seq::<Seq<char>>::empty());
        assert(tokens_cost(q.drop_last()) == 0);
    }
}

pub proof fn lemma_tokens_cost_prefix(ts: Seq<Seq<char>>, i: int)
    requires
        0 <= i <= ts.len(),
    ensures
        tokens_cost(ts.take(i)) <= tokens_cost(ts),
        i < ts.len() ==> tokens_cost(ts.take(i + 1)) == tokens_cost(ts.take(i)) + utf8_len(ts[i]) + 1,
    decreases ts.len() - i,
{
    if i < ts.len() {
        assert(ts.take(i + 1).drop_last() =~= ts.take(i));
        lemma_tokens_cost_prefix(ts, i + 1);
    } else {
        assert(ts.take(i) =~= ts);
    }
}

// ---------------------------------------------------------------------------
// Key characters
// ---------------------------------------------------------------------------

/// Index of the first occurrence of `c` in `s`, searching from `from`; `-1`
/// if none.
pub open spec fn char_index_from(s: Seq<char>, c: char, from: nat) -> int
    decreases s.len() - from,
{
    if from >= s.len() {
        -1
    } else if s[from as int] == c {
        from as int
    } else {
        char_index_from(s, c, from + 1)
    }
}

pub open spec fn char_index(s: Seq<char>, c: char) -> int {
    char_index_from(s, c, 0)
}

pub proof fn lemma_char_index_from(s: Seq<char>, c: char, from: nat)
    ensures
        ({
            let i = char_index_from(s, c, from);
            (i == -1 && forall|j: int| from <= j < s.len() ==> s[j] != c) || (from <= i < s.len()
                && s[i] == c && forall|j: int| from <= j < i ==> s[j] != c)
        }),
    decreases s.len() - from,
{
    if from < s.len() && s[from as int] != c {
        lemma_char_index_from(s, c, from + 1);
    }
}

/// One step of the search for the earliest key character: `k` replaces the
/// best so far when it occurs strictly earlier.
pub open spec fn earliest_step(acc: Option<(int, KeyChar)>, s: Seq<char>, k: KeyChar) -> Option<(int, KeyChar)> {
    let p = char_index(s, key_char_char(k));
    let better = match acc {
        Some((q, _)) => p < q,
        None => true,
    };
    if p >= 0 && better {
        Some((p, k))
    } else {
        acc
    }
}

/// The key character that occurs first in `s`, if any; `:`, `<`, `>` and
/// `=` are tried in that order.
pub open spec fn earliest_key_char_spec(s: Seq<char>) -> Option<KeyChar> {
    let r = earliest_step(
        earliest_step(
            earliest_step(earliest_step(None, s, KeyChar::MATCHES), s, KeyChar::LOWER),
            s,
            KeyChar::HIGHER,
        ),
        s,
        KeyChar::EQUALS,
    );
    match r {
        Some(x) => Some(x.1),
        None => None,
    }
}

// ---------------------------------------------------------------------------
// Parser state
// ---------------------------------------------------------------------------

/// An `ElementPosition` as values.
#[verifier::ext_equal]
pub struct PosView {
    pub element: ElementType,
    pub value: Seq<char>,
    pub start: int,
    pub end: int,
}

pub open spec fn pos_view(p: ElementPosition) -> PosView {
    PosView { element: p.element, value: p.value@, start: p.start as int, end: p.end as int }
}

/// The parser's state between tokens.
#[verifier::ext_equal]
pub struct ParseState {
    pub capturing: bool,
    pub key: Seq<char>,
    pub value: Seq<char>,
    pub key_char: Option<KeyChar>,
    pub negative: bool,
    pub positions: Seq<PosView>,
    pub current_pos: int,
    pub filter: ForcedView,
}

/// The parser's state within a token: the state, the rest of the token and
/// the byte position of that rest.
#[verifier::ext_equal]
pub struct TokenState {
    pub st: ParseState,
    pub token: Seq<char>,
    pub ts: int,
}

pub open spec fn initial_state() -> ParseState {
    ParseState {
        capturing: false,
        key: Seq::empty(),
        value: Seq::empty(),
        key_char: None,
        negative: false,
        positions: Seq::empty(),
        current_pos: 0,
        filter: crate::game::search::filter::empty_forced_view(),
    }
}

pub open spec fn with_position(st: ParseState, e: ElementType, v: Seq<char>, start: int, end: int) -> ParseState {
    ParseState {
        positions: st.positions.push(PosView { element: e, value: v, start: start, end: end }),
        ..st
    }
}

/// The key that a shortcut character stands for.
pub open spec fn shortcut_key(c: char) -> Option<Seq<char>> {
    if c == '#' {
        Some("tag"@)
    } else if c == '!' {
        Some("platform"@)
    } else if c == '@' {
        Some("developer"@)
    } else {
        None
    }
}

/// Leading `-` and shortcut characters of a token that is not inside quotes
/// and is longer than one byte.
pub open spec fn phase_modifiers(st: ParseState, raw: Seq<char>) -> TokenState {
    let ts = st.current_pos;
    if !st.capturing && utf8_len(raw) > 1 {
        let t1 = if raw[0] == '-' {
            TokenState {
                st: with_position(ParseState { negative: true, ..st }, ElementType::MODIFIER, seq!['-'], ts, ts + 1),
                token: raw.skip(1),
                ts: ts + 1,
            }
        } else {
            TokenState { st: st, token: raw, ts: ts }
        };
        if utf8_len(t1.token) > 1 {
            match shortcut_key(t1.token[0]) {
                Some(k) => TokenState {
                    st: with_position(
                        ParseState { key: k, ..t1.st },
                        ElementType::MODIFIER,
                        seq![t1.token[0]],
                        t1.ts,
                        t1.ts + 1,
                    ),
                    token: t1.token.skip(1),
                    ts: t1.ts + 1,
                },
                None => t1,
            }
        } else {
            t1
        }
    } else {
        TokenState { st: st, token: raw, ts: ts }
    }
}

/// Opening and closing quotes: a leading `"` starts capturing; while
/// capturing the token is added to the value (after a space when the value
/// is not empty); a trailing `"` ends capturing and is dropped.
pub open spec fn phase_quotes(t: TokenState) -> TokenState {
    let opens = t.token.len() > 0 && t.token[0] == '"';
    let token = if opens {
        t.token.skip(1)
    } else {
        t.token
    };
    let capturing = opens || t.st.capturing;
    let value = if capturing {
        if t.st.value.len() == 0 {
            token
        } else {
            t.st.value + seq![' '] + token
        }
    } else {
        t.st.value
    };
    let closes = token.len() > 0 && token.last() == '"' && capturing;
    TokenState {
        st: ParseState {
            capturing: if closes {
                false
            } else {
                capturing
            },
            value: if closes {
                value.drop_last()
            } else {
                value
            },
            ..t.st
        },
        token: token,
        ts: t.ts,
    }
}

/// Result of reading a key: the token state, and whether the token ended
/// by opening a quote (the parser then moves on without advancing its
/// position).
pub open spec fn phase_key(t: TokenState) -> (TokenState, bool) {
    let kc = earliest_key_char_spec(t.token);
    let t1 = match kc {
        Some(k) => {
            let idx = char_index(t.token, key_char_char(k));
            let key = t.token.take(idx);
            TokenState {
                st: with_position(
                    ParseState { key_char: kc, key: key, ..t.st },
                    ElementType::KEY,
                    key,
                    t.ts,
                    t.ts + utf8_len(key),
                ),
                token: t.token.skip(idx + 1),
                ts: t.ts + utf8_len(key),
            }
        },
        None => TokenState { st: ParseState { key_char: kc, ..t.st }, token: t.token, ts: t.ts },
    };
    let tok = t1.token;
    if tok.len() > 0 && tok[0] == '"' && tok.last() == '"' {
        if utf8_len(tok) == 2 {
            if t1.st.key.len() > 0 {
                (TokenState { st: ParseState { value: REPLACEMENT@, ..t1.st }, ..t1 }, false)
            } else {
                (t1, false)
            }
        } else {
            let inner = tok.skip(1);
            let v = if inner.len() > 0 && inner.last() == '"' {
                inner.drop_last()
            } else {
                Seq::empty()
            };
            (TokenState { st: ParseState { value: v, ..t1.st }, ..t1 }, false)
        }
    } else if tok.len() > 0 && tok[0] == '"' {
        (TokenState { st: ParseState { capturing: true, value: tok.skip(1), ..t1.st }, ..t1 }, true)
    } else {
        (TokenState { st: ParseState { value: tok, ..t1.st }, ..t1 }, false)
    }
}

/// The flag a value stands for: true unless it is at once `no`, `false` and
/// `0` (ignoring case), which no value is, flipped when negated. This is a
/// known quirk, kept on purpose: the three tests are joined with `&&`, so
/// `installed:false` still asks for installed games.
pub open spec fn bool_value(value: Seq<char>, negative: bool) -> bool {
    let lv = lowercase(value);
    let b = !(lv == "no"@ && lv == "false"@ && lv == "0"@);
    if negative {
        !b
    } else {
        b
    }
}

/// The text field a lowercase key names.
pub open spec fn string_field_of(k: Seq<char>) -> Option<StringField> {
    if k == "id"@ {
        Some(StringField::Id)
    } else if k == "lib"@ || k == "library"@ {
        Some(StringField::Library)
    } else if k == "title"@ {
        Some(StringField::Title)
    } else if k == "dev"@ || k == "developer"@ {
        Some(StringField::Developer)
    } else if k == "pub"@ || k == "publisher"@ {
        Some(StringField::Publisher)
    } else if k == "series"@ {
        Some(StringField::Series)
    } else if k == "tag"@ {
        Some(StringField::Tags)
    } else if k == "plat"@ || k == "platform"@ {
        Some(StringField::Platforms)
    } else if k == "mode"@ || k == "playmode"@ {
        Some(StringField::PlayMode)
    } else if k == "status"@ {
        Some(StringField::Status)
    } else if k == "note"@ || k == "notes"@ {
        Some(StringField::Notes)
    } else if k == "src"@ || k == "source"@ {
        Some(StringField::Source)
    } else if k == "od"@ || k == "desc"@ || k == "description"@ || k == "originaldescription"@ {
        Some(StringField::OriginalDescription)
    } else if k == "lang"@ || k == "language"@ {
        Some(StringField::Language)
    } else if k == "ap"@ || k == "path"@ || k == "app"@ || k == "applicationpath"@ {
        Some(StringField::ApplicationPath)
    } else if k == "lc"@ || k == "launchcommand"@ {
        Some(StringField::LaunchCommand)
    } else if k == "ruffle"@ || k == "rufflesupport"@ {
        Some(StringField::RuffleSupport)
    } else {
        None
    }
}

/// The comparison fields a lowercase key names.
#[derive(Clone, Copy, Debug, PartialEq, Eq, Structural)]
pub enum SizeKey {
    Tags,
    Platforms,
    DateAdded,
    DateModified,
    ReleaseDate,
    GameData,
    AddApps,
    Playtime,
    Playcount,
    LastPlayed,
}

pub open spec fn size_key_of(k: Seq<char>) -> Option<SizeKey> {
    if k == "tags"@ {
        Some(SizeKey::Tags)
    } else if k == "platforms"@ {
        Some(SizeKey::Platforms)
    } else if k == "dateadded"@ || k == "da"@ {
        Some(SizeKey::DateAdded)
    } else if k == "datemodified"@ || k == "dm"@ {
        Some(SizeKey::DateModified)
    } else if k == "releasedate"@ || k == "rd"@ {
        Some(SizeKey::ReleaseDate)
    } else if k == "gamedata"@ || k == "gd"@ {
        Some(SizeKey::GameData)
    } else if k == "addapps"@ || k == "aa"@ {
        Some(SizeKey::AddApps)
    } else if k == "playtime"@ || k == "pt"@ {
        Some(SizeKey::Playtime)
    } else if k == "playcount"@ || k == "pc"@ {
        Some(SizeKey::Playcount)
    } else if k == "lastplayed"@ || k == "lp"@ {
        Some(SizeKey::LastPlayed)
    } else {
        None
    }
}

/// The comparison filter a key character fills: lower-than, higher-than or
/// equal-to.
pub open spec fn size_slot(k: KeyChar) -> int {
    match k {
        KeyChar::LOWER => 0,
        KeyChar::HIGHER => 1,
        KeyChar::MATCHES => 2,
        KeyChar::EQUALS => 2,
    }
}

/// A registered search key and its owner, by lowercase search key.
pub open spec fn ext_lookup(ext: Seq<(String, ExtSearchableRegistered)>, k: Seq<char>) -> Option<
    ExtSearchableRegistered,
> {
    exec_assoc_get(ext, k)
}

pub open spec fn set_size_key(s: SizeView, sk: SizeKey, n: i64, value: Seq<char>) -> SizeView {
    match sk {
        SizeKey::Tags => SizeView { tags: Some(n), ..s },
        SizeKey::Platforms => SizeView { platforms: Some(n), ..s },
        SizeKey::DateAdded => SizeView { date_added: Some(value), ..s },
        SizeKey::DateModified => SizeView { date_modified: Some(value), ..s },
        SizeKey::ReleaseDate => SizeView { release_date: Some(value), ..s },
        SizeKey::GameData => SizeView { game_data: Some(n), ..s },
        SizeKey::AddApps => SizeView { add_apps: Some(n), ..s },
        SizeKey::Playtime => SizeView { playtime: Some(n), ..s },
        SizeKey::Playcount => SizeView { playcount: Some(n), ..s },
        SizeKey::LastPlayed => SizeView { last_played: Some(value), ..s },
    }
}

pub open spec fn unwrap_ext_num(o: Option<ExtNumView>) -> ExtNumView {
    match o {
        Some(m) => m,
        None => Seq::empty(),
    }
}

pub open spec fn unwrap_ext_bool(o: Option<ExtBoolView>) -> ExtBoolView {
    match o {
        Some(m) => m,
        None => Seq::empty(),
    }
}

/// A comparison: a known key, or a numeric key of an extension; `None` when
/// the key is neither.
pub open spec fn apply_size(
    s: SizeView,
    lkey: Seq<char>,
    value: Seq<char>,
    ext: Seq<(String, ExtSearchableRegistered)>,
) -> Option<SizeView> {
    let n = coerce_spec(value);
    match size_key_of(lkey) {
        Some(sk) => Some(set_size_key(s, sk, n, value)),
        None => match ext_lookup(ext, lkey) {
            Some(r) => if r.value_type == ExtSearchableType::Number {
                Some(SizeView { ext: Some(ext_set(unwrap_ext_num(s.ext), r.ext_id@, r.key@, n)), ..s })
            } else {
                None
            },
            None => None,
        },
    }
}

/// A text term: a known field, a text key of an extension, or else a
/// generic term (with its key and key character put back in front).
pub open spec fn apply_string(
    f: ForcedView,
    lkey: Seq<char>,
    key: Seq<char>,
    value: Seq<char>,
    kc: Option<KeyChar>,
    lk: ListKind,
    ext: Seq<(String, ExtSearchableRegistered)>,
) -> ForcedView {
    match string_field_of(lkey) {
        Some(fld) => {
            let i = NUM_FIELDS * list_index(lk) + field_index(fld);
            let v = if fld == StringField::RuffleSupport {
                lowercase(value)
            } else {
                value
            };
            ForcedView { lists: f.lists.update(i, f.lists[i].push(v)), ..f }
        },
        None => {
            let li = list_index(lk) as int;
            match ext_lookup(ext, lkey) {
                Some(r) if r.value_type == ExtSearchableType::String => ForcedView {
                    exts: f.exts.update(li, ext_push(f.exts[li], r.ext_id@, r.key@, value)),
                    ..f
                },
                _ => {
                    let i = NUM_FIELDS * list_index(lk) + field_index(StringField::Generic);
                    let v = match kc {
                        Some(k) => key + seq![key_char_char(k)] + value,
                        None => value,
                    };
                    ForcedView { lists: f.lists.update(i, f.lists[i].push(v)), ..f }
                },
            }
        },
    }
}

/// How a complete term changes the working filter.
pub open spec fn apply_term(
    f: ForcedView,
    key: Seq<char>,
    value: Seq<char>,
    kc: Option<KeyChar>,
    negative: bool,
    lk: ListKind,
    ext: Seq<(String, ExtSearchableRegistered)>,
) -> ForcedView {
    let lkey = lowercase(key);
    if lkey == "installed"@ {
        ForcedView { bools: BoolView { installed: Some(bool_value(value, negative)), ..f.bools }, ..f }
    } else {
        match ext_lookup(ext, lkey) {
            Some(r) if r.value_type == ExtSearchableType::Boolean => ForcedView {
                bools: BoolView {
                    ext: Some(
                        ext_set(unwrap_ext_bool(f.bools.ext), r.ext_id@, r.key@, bool_value(value, negative)),
                    ),
                    ..f.bools
                },
                ..f
            },
            _ => match kc {
                Some(k) => match apply_size(f.sizes[size_slot(k)], lkey, value, ext) {
                    Some(sz) => ForcedView { sizes: f.sizes.update(size_slot(k), sz), ..f },
                    None => apply_string(f, lkey, key, value, kc, lk, ext),
                },
                None => apply_string(f, lkey, key, value, kc, lk, ext),
            },
        }
    }
}

/// A complete value: its key character and value positions are recorded,
/// the term is applied, and the key, value and negation are cleared.
pub open spec fn phase_value(st: ParseState, ts: int, ext: Seq<(String, ExtSearchableRegistered)>) -> ParseState {
    let has_key = st.key.len() > 0;
    let is_repl = has_key && st.value == REPLACEMENT@;
    let value = if is_repl {
        Seq::empty()
    } else {
        st.value
    };
    let exact = has_key && (is_repl || st.key_char == Some(KeyChar::EQUALS));
    let lk = list_kind_of(st.negative, exact);
    let st1 = match st.key_char {
        Some(k) => with_position(st, ElementType::KEYCHAR, seq![key_char_char(k)], ts, ts + 1),
        None => st,
    };
    let ts1 = match st.key_char {
        Some(k) => ts + 1,
        None => ts,
    };
    let st2 = with_position(st1, ElementType::VALUE, value, ts1, ts1 + utf8_len(value));
    ParseState {
        filter: apply_term(st.filter, st.key, value, st.key_char, st.negative, lk, ext),
        negative: false,
        value: Seq::empty(),
        key: Seq::empty(),
        ..st2
    }
}

/// How one space-separated piece of the input changes the parser state.
pub open spec fn step(st: ParseState, raw: Seq<char>, ext: Seq<(String, ExtSearchableRegistered)>) -> ParseState {
    let advance = utf8_len(raw) + 1;
    let t = phase_quotes(phase_modifiers(st, raw));
    if t.st.capturing {
        ParseState { current_pos: st.current_pos + advance, ..t.st }
    } else {
        let (t2, stop) = if t.st.value.len() == 0 {
            phase_key(t)
        } else {
            (t, false)
        };
        if stop {
            t2.st
        } else {
            let st3 = if t2.st.value.len() > 0 {
                phase_value(t2.st, t2.ts, ext)
            } else {
                t2.st
            };
            ParseState { current_pos: st.current_pos + advance, ..st3 }
        }
    }
}

/// The state after the given pieces.
pub open spec fn parse_tokens(tokens: Seq<Seq<char>>, ext: Seq<(String, ExtSearchableRegistered)>) -> ParseState
    decreases tokens.len(),
{
    if tokens.len() == 0 {
        initial_state()
    } else {
        step(parse_tokens(tokens.drop_last(), ext), tokens.last(), ext)
    }
}

/// Whether every span lies within an `i32` (its start no later than its
/// end), the type of the offsets the spans are given back with.
pub open spec fn spans_fit(ps: Seq<PosView>) -> bool {
    forall|i: int| 0 <= i < ps.len() ==> 0 <= (#[trigger] ps[i]).start <= ps[i].end <= 0x7fff_ffff
}

/// Whether every span starts at or after 0 and ends at or before `b`.
pub open spec fn spans_within(ps: Seq<PosView>, b: int) -> bool {
    forall|i: int| 0 <= i < ps.len() ==> 0 <= (#[trigger] ps[i]).start <= ps[i].end <= b
}

proof fn lemma_push_within(ps: Seq<PosView>, p: PosView, b: int)
    requires
        spans_within(ps, b),
        0 <= p.start <= p.end <= b,
    ensures
        spans_within(ps.push(p), b),
{
    assert forall|i: int| 0 <= i < ps.push(p).len() implies 0 <= (#[trigger] ps.push(p)[i]).start <= ps.push(p)[i].end <= b by {
        if i < ps.len() {
            assert(ps.push(p)[i] == ps[i]);
        }
    }
}

proof fn lemma_within_more(ps: Seq<PosView>, b: int, b2: int)
    requires
        spans_within(ps, b),
        b <= b2,
    ensures
        spans_within(ps, b2),
{
}

/// The spans of one piece end within twice the bytes read after it.
proof fn lemma_step_spans(st: ParseState, raw: Seq<char>, ext: Seq<(String, ExtSearchableRegistered)>, c: int)
    requires
        bounded(st, c),
        spans_within(st.positions, 2 * c),
    ensures
        spans_within(step(st, raw, ext).positions, 2 * (c + utf8_len(raw) + 1)),
{
    let b = 2 * (c + utf8_len(raw) + 1);
    let e = st.current_pos + utf8_len(raw);
    lemma_within_more(st.positions, 2 * c, b);
    let t0 = phase_modifiers(st, raw);
    lemma_phase_modifiers(st, raw);
    assert(spans_within(t0.st.positions, b)) by {
        if !st.capturing && utf8_len(raw) > 1 {
            lemma_utf8_len_bounds(raw);
            lemma_utf8_len_skip_first(raw);
            let ts = st.current_pos;
            let t1 = if raw[0] == '-' {
                TokenState {
                    st: with_position(ParseState { negative: true, ..st }, ElementType::MODIFIER, seq!['-'], ts, ts + 1),
                    token: raw.skip(1),
                    ts: ts + 1,
                }
            } else {
                TokenState { st: st, token: raw, ts: ts }
            };
            if raw[0] == '-' {
                lemma_push_within(st.positions, PosView { element: ElementType::MODIFIER, value: seq!['-'], start: ts, end: ts + 1 }, b);
            }
            assert(spans_within(t1.st.positions, b));
            if utf8_len(t1.token) > 1 {
                lemma_utf8_len_bounds(t1.token);
                lemma_utf8_len_skip_first(t1.token);
                match shortcut_key(t1.token[0]) {
                    Some(k) => {
                        lemma_push_within(t1.st.positions, PosView { element: ElementType::MODIFIER, value: seq![t1.token[0]], start: t1.ts, end: t1.ts + 1 }, b);
                    },
                    None => {},
                }
            }
        }
    }
    let t = phase_quotes(t0);
    lemma_phase_quotes(t0);
    if !t.st.capturing {
        let (t2, stop) = if t.st.value.len() == 0 {
            phase_key(t)
        } else {
            (t, false)
        };
        if t.st.value.len() == 0 {
            lemma_phase_key(t);
            let kc = earliest_key_char_spec(t.token);
            match kc {
                Some(k) => {
                    law_earliest_key_char(t.token, k);
                    let idx = char_index(t.token, key_char_char(k));
                    lemma_utf8_len_prefix(t.token, idx);
                    let key = t.token.take(idx);
                    lemma_push_within(t.st.positions, PosView { element: ElementType::KEY, value: key, start: t.ts, end: t.ts + utf8_len(key) }, b);
                },
                None => {},
            }
        }
        assert(spans_within(t2.st.positions, b));
        if !stop && t2.st.value.len() > 0 {
            let st2 = t2.st;
            let ts = t2.ts;
            let is_repl = st2.key.len() > 0 && st2.value == REPLACEMENT@;
            let value = if is_repl { Seq::<char>::empty() } else { st2.value };
            let ts1 = match st2.key_char {
                Some(k) => ts + 1,
                None => ts,
            };
            let st1 = match st2.key_char {
                Some(k) => with_position(st2, ElementType::KEYCHAR, seq![key_char_char(k)], ts, ts + 1),
                None => st2,
            };
            assert(ts <= e);
            assert(utf8_len(value) <= c + 1 + utf8_len(raw)) by {
                if is_repl {
                    assert(value.len() == 0);
                }
            }
            match st2.key_char {
                Some(k) => {
                    lemma_push_within(st2.positions, PosView { element: ElementType::KEYCHAR, value: seq![key_char_char(k)], start: ts, end: ts + 1 }, b);
                },
                None => {},
            }
            lemma_push_within(st1.positions, PosView { element: ElementType::VALUE, value: value, start: ts1, end: ts1 + utf8_len(value) }, b);
        }
    }
}

/// The spans after some pieces end within twice the bytes they took.
pub proof fn lemma_tokens_spans(tokens: Seq<Seq<char>>, ext: Seq<(String, ExtSearchableRegistered)>)
    requires
        tokens_cost(tokens) <= 0x7fff_0000,
    ensures
        bounded(parse_tokens(tokens, ext), tokens_cost(tokens) as int),
        spans_within(parse_tokens(tokens, ext).positions, 2 * (tokens_cost(tokens) as int)),
    decreases tokens.len(),
{
    if tokens.len() > 0 {
        let rest = tokens.drop_last();
        lemma_tokens_spans(rest, ext);
        let c = tokens_cost(rest) as int;
        lemma_step_bounded(parse_tokens(rest, ext), tokens.last(), ext, c);
        lemma_step_spans(parse_tokens(rest, ext), tokens.last(), ext, c);
    }
}

/// The state after the whole input.
pub open spec fn parse_state(input: Seq<char>, ext: Seq<(String, ExtSearchableRegistered)>) -> ParseState {
    parse_tokens(split_spaces(input), ext)
}

// ---------------------------------------------------------------------------
// Properties
// ---------------------------------------------------------------------------

/// The key character found is the one that occurs first: it occurs, and no
/// key character occurs before it; when none is found, none occurs.
pub proof fn law_earliest_key_char(s: Seq<char>, other: KeyChar)
    ensures
        match earliest_key_char_spec(s) {
            Some(k) => 0 <= char_index(s, key_char_char(k)) < s.len() && (char_index(s, key_char_char(other))
                >= 0 ==> char_index(s, key_char_char(k)) <= char_index(s, key_char_char(other))),
            None => char_index(s, key_char_char(other)) == -1,
        },
{
    lemma_char_index_from(s, ':', 0);
    lemma_char_index_from(s, '<', 0);
    lemma_char_index_from(s, '>', 0);
    lemma_char_index_from(s, '=', 0);
}

/// Bounds on a parser state after input pieces that took `c` bytes: the
/// position, and the lengths of the pending key and value.
pub open spec fn bounded(st: ParseState, c: int) -> bool {
    &&& 0 <= st.current_pos <= c
    &&& utf8_len(st.key) <= c + 40
    &&& utf8_len(st.value) <= c
}

pub proof fn lemma_phase_modifiers(st: ParseState, raw: Seq<char>)
    ensures
        ({
            let t = phase_modifiers(st, raw);
            &&& t.st.current_pos == st.current_pos
            &&& t.st.value == st.value
            &&& t.st.capturing == st.capturing
            &&& t.st.filter == st.filter
            &&& st.current_pos <= t.ts
            &&& t.ts + utf8_len(t.token) == st.current_pos + utf8_len(raw)
            &&& (t.st.key == st.key || utf8_len(t.st.key) <= 40)
        }),
{
    if !st.capturing && utf8_len(raw) > 1 {
        lemma_utf8_len_bounds(raw);
        lemma_utf8_len_skip_first(raw);
        let tok1 = if raw[0] == '-' {
            raw.skip(1)
        } else {
            raw
        };
        if utf8_len(tok1) > 1 {
            lemma_utf8_len_bounds(tok1);
            lemma_utf8_len_skip_first(tok1);
            reveal_strlit("tag");
            reveal_strlit("platform");
            reveal_strlit("developer");
            lemma_utf8_len_bounds("tag"@);
            lemma_utf8_len_bounds("platform"@);
            lemma_utf8_len_bounds("developer"@);
        }
    }
}

pub proof fn lemma_phase_quotes(t: TokenState)
    ensures
        ({
            let u = phase_quotes(t);
            &&& u.ts == t.ts
            &&& u.st.current_pos == t.st.current_pos
            &&& u.st.key == t.st.key
            &&& u.st.filter == t.st.filter
            &&& utf8_len(u.token) <= utf8_len(t.token)
            &&& utf8_len(u.st.value) <= utf8_len(t.st.value) + 1 + utf8_len(t.token)
        }),
{
    let opens = t.token.len() > 0 && t.token[0] == '"';
    let token = if opens {
        t.token.skip(1)
    } else {
        t.token
    };
    if opens {
        lemma_utf8_len_skip_first(t.token);
    }
    let capturing = opens || t.st.capturing;
    if capturing && t.st.value.len() != 0 {
        lemma_utf8_len_concat(t.st.value, seq![' ']);
        lemma_utf8_len_concat(t.st.value + seq![' '], token);
        lemma_utf8_len_single(' ');
    }
    let value = if capturing {
        if t.st.value.len() == 0 {
            token
        } else {
            t.st.value + seq![' '] + token
        }
    } else {
        t.st.value
    };
    if value.len() > 0 {
        lemma_utf8_len_drop_last(value);
    }
}

pub proof fn lemma_phase_key(t: TokenState)
    requires
        t.st.value.len() == 0,
    ensures
        phase_key(t).0.st.current_pos == t.st.current_pos,
        phase_key(t).0.st.filter == t.st.filter,
        t.ts <= phase_key(t).0.ts,
        phase_key(t).0.ts + utf8_len(phase_key(t).0.token) <= t.ts + utf8_len(t.token),
        phase_key(t).0.st.key == t.st.key || utf8_len(phase_key(t).0.st.key) <= utf8_len(t.token),
        utf8_len(phase_key(t).0.st.value) <= utf8_len(t.token) || (phase_key(t).0.st.value == REPLACEMENT@
            && phase_key(t).0.st.key.len() > 0),
        phase_key(t).1 ==> phase_key(t).0.st.capturing && utf8_len(phase_key(t).0.st.value) <= utf8_len(t.token),
        !phase_key(t).1 ==> phase_key(t).0.st.capturing == t.st.capturing,
{
    let kc = earliest_key_char_spec(t.token);
    let tok = match kc {
        Some(k) => {
            law_earliest_key_char(t.token, k);
            let idx = char_index(t.token, key_char_char(k));
            lemma_utf8_len_prefix(t.token, idx);
            let rest = t.token.skip(idx);
            lemma_utf8_len_skip_first(rest);
            assert(rest.skip(1) =~= t.token.skip(idx + 1));
            t.token.skip(idx + 1)
        },
        None => t.token,
    };
    assert(utf8_len(tok) <= utf8_len(t.token));
    assert(utf8_len(t.st.value) == 0);
    if tok.len() > 0 {
        lemma_utf8_len_skip_first(tok);
        let inner = tok.skip(1);
        if inner.len() > 0 {
            lemma_utf8_len_drop_last(inner);
        }
    }
}

/// One piece keeps the parser state bounded by the bytes read so far.
pub proof fn lemma_step_bounded(
    st: ParseState,
    raw: Seq<char>,
    ext: Seq<(String, ExtSearchableRegistered)>,
    c: int,
)
    requires
        bounded(st, c),
        c + utf8_len(raw) <= 0x7fff_0000,
    ensures
        bounded(step(st, raw, ext), c + utf8_len(raw) + 1),
{
    let t0 = phase_modifiers(st, raw);
    lemma_phase_modifiers(st, raw);
    let t = phase_quotes(t0);
    lemma_phase_quotes(t0);
    if !t.st.capturing && t.st.value.len() == 0 {
        lemma_phase_key(t);
    }
}

} // verus!
