//! The executable search-input parser. Each phase is proved equal to its
//! counterpart in `parse`, and `parse_user_input` to `parse_state`.
use vstd::prelude::*;
use crate::game::ext::ExtSearchableRegistered;
use crate::game::search::{
    ElementPosition, ElementType, GameSearch, KeyChar, ParsedInput, is_default_search_except_filter,
    key_char_char,
};
use crate::game::search::filter::{ForcedGameFilter, filter_from_forced, game_filter_from_forced, list_kind_of_exec};
use crate::game::search::parse::{
    ParseState, PosView, REPLACEMENT, TokenState, bounded, char_index, earliest_key_char_spec,
    earliest_step, initial_state, lemma_char_index_from, lemma_phase_key, lemma_phase_modifiers,
    lemma_phase_quotes, lemma_split_spaces, lemma_step_bounded, parse_state, parse_tokens, phase_key,
    phase_modifiers, phase_quotes, phase_value, pos_view, shortcut_key, split_spaces, step,
    tokens_cost, with_position, spans_fit,
    lemma_tokens_spans, spans_within,
};
use crate::game::search::terms::apply_term_exec;
use crate::text::{
    append_chars, char_utf8_len, chars_utf8_len, copy_chars, eq_lit, lemma_utf8_len_bounds, lemma_utf8_len_prefix, skip_chars,
    string_of, take_chars, to_chars, utf8_char_len, utf8_len, utf8_len_above_one,
};

verus! {

/// The registered search keys that a call passes, as values.
pub open spec fn ext_seq(o: Option<&Vec<(String, ExtSearchableRegistered)>>) -> Seq<(String, ExtSearchableRegistered)> {
    match o {
        Some(v) => v@,
        None => Seq::empty(),
    }
}

pub open spec fn positions_view(ps: Seq<ElementPosition>) -> Seq<PosView> {
    ps.map_values(|p: ElementPosition| pos_view(p))
}

/// Index of the first `c` in `s` (see `char_index`).
fn char_index_exec(s: &[char], c: char) -> (r: Option<usize>)
    ensures
        match r {
            Some(i) => i as int == char_index(s@, c),
            None => char_index(s@, c) == -1,
        },
{
    proof {
        lemma_char_index_from(s@, c, 0);
    }
    let mut i: usize = 0;
    while i < s.len()
        invariant
            i <= s@.len(),
            forall|j: int| 0 <= j < i ==> s@[j] != c,
            ({
                let x = char_index(s@, c);
                (x == -1 && forall|j: int| 0 <= j < s@.len() ==> s@[j] != c) || (0 <= x < s@.len()
                    && s@[x] == c && forall|j: int| 0 <= j < x ==> s@[j] != c)
            }),
        decreases s.len() - i,
    {
        if s[i] == c {
            return Some(i);
        }
        i = i + 1;
    }
    None
}

pub open spec fn best_view(o: Option<(usize, KeyChar)>) -> Option<(int, KeyChar)> {
    match o {
        Some((p, k)) => Some((p as int, k)),
        None => None,
    }
}

fn earliest_step_exec(acc: Option<(usize, KeyChar)>, s: &[char], k: KeyChar) -> (r: Option<(usize, KeyChar)>)
    ensures
        best_view(r) == earliest_step(best_view(acc), s@, k),
{
    match char_index_exec(s, k.to_char()) {
        Some(p) => {
            let better = match acc {
                Some((q, _)) => p < q,
                None => true,
            };
            if better {
                Some((p, k))
            } else {
                acc
            }
        },
        None => acc,
    }
}

fn earliest_key_char_chars(s: &[char]) -> (r: Option<KeyChar>)
    ensures
        r == earliest_key_char_spec(s@),
{
    let a = earliest_step_exec(None, s, KeyChar::MATCHES);
    let b = earliest_step_exec(a, s, KeyChar::LOWER);
    let c = earliest_step_exec(b, s, KeyChar::HIGHER);
    let d = earliest_step_exec(c, s, KeyChar::EQUALS);
    match d {
        Some((_, k)) => Some(k),
        None => None,
    }
}

/// The key character (`:`, `<`, `>` or `=`) that occurs first in `s`.
pub fn earliest_key_char(s: &str) -> (r: Option<KeyChar>)
    ensures
        r == earliest_key_char_spec(s@),
{
    let cs = to_chars(s);
    earliest_key_char_chars(&cs)
}

fn shortcut_key_exec(c: char) -> (r: Option<Vec<char>>)
    ensures
        match r {
            Some(v) => shortcut_key(c) == Some(v@),
            None => shortcut_key(c) is None,
        },
{
    if c == '#' {
        Some(to_chars("tag"))
    } else if c == '!' {
        Some(to_chars("platform"))
    } else if c == '@' {
        Some(to_chars("developer"))
    } else {
        None
    }
}

/// A span while the input is read, its offsets not yet narrowed to `i32`.
struct RawPosition {
    element: ElementType,
    value: String,
    start: usize,
    end: usize,
}

spec fn raw_view(p: RawPosition) -> PosView {
    PosView { element: p.element, value: p.value@, start: p.start as int, end: p.end as int }
}

spec fn raw_positions_view(ps: Seq<RawPosition>) -> Seq<PosView> {
    ps.map_values(|p: RawPosition| raw_view(p))
}

/// The spans with `i32` offsets, where every one ends within an `i32`.
fn narrow_positions(raw: &Vec<RawPosition>) -> (r: Option<Vec<ElementPosition>>)
    ensures
        r is Some <==> spans_fit(raw_positions_view(raw@)),
        r matches Some(v) ==> positions_view(v@) == raw_positions_view(raw@),
{
    let ghost rv = raw_positions_view(raw@);
    let mut out: Vec<ElementPosition> = Vec::new();
    let mut i: usize = 0;
    while i < raw.len()
        invariant
            i <= raw@.len(),
            rv == raw_positions_view(raw@),
            forall|j: int| 0 <= j < i ==> 0 <= (#[trigger] rv[j]).start <= rv[j].end <= 0x7fff_ffff,
            positions_view(out@) =~= rv.take(i as int),
        decreases raw.len() - i,
    {
        let p = &raw[i];
        if p.end > 0x7fff_ffff || p.start > p.end {
            assert(!(0 <= rv[i as int].start <= rv[i as int].end <= 0x7fff_ffff));
            return None;
        }
        let q = ElementPosition { element: p.element, value: p.value.clone(), start: p.start as i32, end: p.end as i32 };
        proof {
            assert(rv[i as int] == raw_view(*p));
        }
        let ghost o0 = out@;
        out.push(q);
        proof {
            assert(positions_view(out@) =~= positions_view(o0).push(pos_view(q)));
            assert(rv.take(i + 1) =~= rv.take(i as int).push(rv[i as int]));
        }
        i = i + 1;
    }
    assert(rv.take(raw@.len() as int) =~= rv);
    Some(out)
}

/// The parser's working state.
struct Parser {
    capturing: bool,
    key: Vec<char>,
    value: Vec<char>,
    key_char: Option<KeyChar>,
    negative: bool,
    positions: Vec<RawPosition>,
    current_pos: usize,
    filter: ForcedGameFilter,
}

impl Parser {
    spec fn state(&self) -> ParseState {
        ParseState {
            capturing: self.capturing,
            key: self.key@,
            value: self.value@,
            key_char: self.key_char,
            negative: self.negative,
            positions: raw_positions_view(self.positions@),
            current_pos: self.current_pos as int,
            filter: self.filter.deep_view(),
        }
    }

    fn new() -> (p: Parser)
        ensures
            p.state() == initial_state(),
            p.filter.wf(),
    {
        let p = Parser {
            capturing: false,
            key: Vec::new(),
            value: Vec::new(),
            key_char: None,
            negative: false,
            positions: Vec::new(),
            current_pos: 0,
            filter: ForcedGameFilter::new(),
        };
        assert(raw_positions_view(p.positions@) =~= Seq::<PosView>::empty());
        assert(p.state() =~= initial_state());
        p
    }

    fn push_position(&mut self, e: ElementType, v: &[char], start: usize, end: usize)
        requires
            start <= end,
        ensures
            final(self).state() == with_position(old(self).state(), e, v@, start as int, end as int),
            final(self).filter == old(self).filter,
    {
        let p = RawPosition { element: e, value: string_of(v), start: start, end: end };
        self.positions.push(p);
        proof {
            assert(raw_positions_view(self.positions@) =~= raw_positions_view(old(self).positions@).push(raw_view(p)));
            assert(self.state() =~= with_position(old(self).state(), e, v@, start as int, end as int));
        }
    }

    /// Leading `-` and shortcut characters (see `phase_modifiers`).
    fn modifiers(&mut self, raw: &[char]) -> (r: (Vec<char>, usize))
        requires
            old(self).current_pos + utf8_len(raw@) <= 0x7fff_0000,
        ensures
            final(self).state() == phase_modifiers(old(self).state(), raw@).st,
            r.0@ == phase_modifiers(old(self).state(), raw@).token,
            r.1 == phase_modifiers(old(self).state(), raw@).ts,
            final(self).filter == old(self).filter,
    {
        let ghost st0 = self.state();
        proof {
            lemma_phase_modifiers(st0, raw@);
            lemma_utf8_len_bounds(raw@);
        }
        let mut ts = self.current_pos;
        if !self.capturing && utf8_len_above_one(raw) {
            let mut token: Vec<char>;
            if raw[0] == '-' {
                self.negative = true;
                let mut d: Vec<char> = Vec::new();
                d.push('-');
                self.push_position(ElementType::MODIFIER, &d, ts, ts + 1);
                token = skip_chars(raw, 1);
                ts = ts + 1;
            } else {
                token = copy_chars(raw);
            }
            if utf8_len_above_one(&token) {
                proof {
                    lemma_utf8_len_bounds(token@);
                }
                let c = token[0];
                match shortcut_key_exec(c) {
                    Some(k) => {
                        self.key = k;
                        let mut d: Vec<char> = Vec::new();
                        d.push(c);
                        self.push_position(ElementType::MODIFIER, &d, ts, ts + 1);
                        token = skip_chars(&token, 1);
                        ts = ts + 1;
                    },
                    None => {},
                }
            }
            (token, ts)
        } else {
            (copy_chars(raw), ts)
        }
    }

    /// Opening and closing quotes (see `phase_quotes`).
    fn quotes(&mut self, token: Vec<char>, ts: usize) -> (r: Vec<char>)
        ensures
            final(self).state() == phase_quotes(TokenState { st: old(self).state(), token: token@, ts: ts as int }).st,
            r@ == phase_quotes(TokenState { st: old(self).state(), token: token@, ts: ts as int }).token,
            final(self).filter == old(self).filter,
    {
        let opens = token.len() > 0 && token[0] == '"';
        let tok = if opens {
            skip_chars(&token, 1)
        } else {
            token
        };
        let capturing = opens || self.capturing;
        if capturing {
            if self.value.len() == 0 {
                self.value = copy_chars(&tok);
            } else {
                self.value.push(' ');
                append_chars(&mut self.value, &tok);
            }
        }
        let n = tok.len();
        let closes = n > 0 && tok[n - 1] == '"' && capturing;
        if closes {
            self.capturing = false;
            self.value.pop();
        } else {
            self.capturing = capturing;
        }
        proof {
            let t = phase_quotes(TokenState { st: old(self).state(), token: token@, ts: ts as int });
            assert(self.state() =~= t.st);
        }
        tok
    }

    /// A key before the first key character, and a value that is not inside
    /// open quotes (see `phase_key`).
    fn key_phase(&mut self, token: Vec<char>, ts: usize) -> (r: (Vec<char>, usize, bool))
        requires
            old(self).value@.len() == 0,
            ts + utf8_len(token@) <= 0x7fff_0000,
        ensures
            final(self).state() == phase_key(TokenState { st: old(self).state(), token: token@, ts: ts as int }).0.st,
            r.0@ == phase_key(TokenState { st: old(self).state(), token: token@, ts: ts as int }).0.token,
            r.1 == phase_key(TokenState { st: old(self).state(), token: token@, ts: ts as int }).0.ts,
            r.2 == phase_key(TokenState { st: old(self).state(), token: token@, ts: ts as int }).1,
            final(self).filter == old(self).filter,
    {
        let ghost t = TokenState { st: self.state(), token: token@, ts: ts as int };
        proof {
            lemma_phase_key(t);
        }
        let kc = earliest_key_char_chars(&token);
        let mut tok = token;
        let mut ts = ts;
        self.key_char = kc;
        match kc {
            Some(k) => {
                proof {
                    crate::game::search::parse::law_earliest_key_char(tok@, k);
                    assert(earliest_key_char_spec(tok@) == Some(k));
                    assert(0 <= char_index(tok@, key_char_char(k)) < tok@.len());
                }
                let idx = match char_index_exec(&tok, k.to_char()) {
                    Some(i) => i,
                    None => 0,
                };
                let n0 = tok.len();
                assert(idx < n0);
                let key = take_chars(&tok, idx);
                proof {
                    lemma_utf8_len_prefix(tok@, idx as int);
                }
                let klen = chars_utf8_len(&key);
                self.key = copy_chars(&key);
                self.push_position(ElementType::KEY, &key, ts, ts + klen);
                tok = skip_chars(&tok, idx + 1);
                ts = ts + klen;
            },
            None => {},
        }
        let n = tok.len();
        if n > 0 && tok[0] == '"' && tok[n - 1] == '"' {
            if chars_utf8_len(&tok) == 2 {
                if self.key.len() > 0 {
                    self.value = to_chars(REPLACEMENT);
                }
            } else {
                let inner = skip_chars(&tok, 1);
                let m = inner.len();
                if m > 0 && inner[m - 1] == '"' {
                    self.value = take_chars(&inner, m - 1);
                } else {
                    self.value = Vec::new();
                }
            }
            (tok, ts, false)
        } else if n > 0 && tok[0] == '"' {
            self.capturing = true;
            self.value = skip_chars(&tok, 1);
            (tok, ts, true)
        } else {
            self.value = copy_chars(&tok);
            (tok, ts, false)
        }
    }

    /// A complete value (see `phase_value`).
    fn value_phase(&mut self, ts: usize, ext: &Vec<(String, ExtSearchableRegistered)>)
        requires
            old(self).filter.wf(),
            ts + utf8_len(old(self).value@) <= 0xffff_0000,
        ensures
            final(self).filter.wf(),
            final(self).state() == phase_value(old(self).state(), ts as int, ext@),
    {
        let ghost st0 = self.state();
        let has_key = self.key.len() > 0;
        let is_repl = has_key && eq_lit(&self.value, REPLACEMENT);
        let value = if is_repl {
            Vec::new()
        } else {
            copy_chars(&self.value)
        };
        let is_equals = match self.key_char {
            Some(KeyChar::EQUALS) => true,
            _ => false,
        };
        let exact = has_key && (is_repl || is_equals);
        let lk = list_kind_of_exec(self.negative, exact);
        proof {
            if is_repl {
                reveal_strlit("UIOWHDYUAWDGBAWYUODIGAWYUIDIAWGHDYUI8AWGHDUIAWDHNAWUIODHJNAWIOUDHJNAWOUIDAJNWMLDK");
            }
        }
        let mut ts1 = ts;
        match self.key_char {
            Some(k) => {
                let mut c: Vec<char> = Vec::new();
                c.push(k.to_char());
                self.push_position(ElementType::KEYCHAR, &c, ts, ts + 1);
                ts1 = ts + 1;
            },
            None => {},
        }
        let vlen = chars_utf8_len(&value);
        self.push_position(ElementType::VALUE, &value, ts1, ts1 + vlen);
        let key_char = self.key_char;
        let negative = self.negative;
        apply_term_exec(&mut self.filter, &self.key, &value, key_char, negative, lk, ext);
        self.negative = false;
        self.value = Vec::new();
        self.key = Vec::new();
        proof {
            assert(self.state() =~= phase_value(st0, ts as int, ext@));
        }
    }

    /// One space-separated piece of the input (see `step`).
    fn step(&mut self, raw: &[char], ext: &Vec<(String, ExtSearchableRegistered)>, Ghost(c): Ghost<int>)
        requires
            old(self).filter.wf(),
            bounded(old(self).state(), c),
            c + utf8_len(raw@) <= 0x7fff_0000,
        ensures
            final(self).filter.wf(),
            final(self).state() == step(old(self).state(), raw@, ext@),
            bounded(final(self).state(), c + utf8_len(raw@) + 1),
    {
        let ghost st0 = self.state();
        let ghost t0 = phase_modifiers(st0, raw@);
        let ghost t = phase_quotes(t0);
        proof {
            lemma_step_bounded(st0, raw@, ext@, c);
            lemma_phase_modifiers(st0, raw@);
            lemma_phase_quotes(t0);
        }
        let pos0 = self.current_pos;
        let advance = chars_utf8_len(raw) + 1;
        let (token, ts) = self.modifiers(raw);
        let token = self.quotes(token, ts);
        if self.capturing {
            self.current_pos = pos0 + advance;
            proof {
                assert(self.state() =~= step(st0, raw@, ext@));
            }
            return;
        }
        if self.value.len() == 0 {
            proof {
                lemma_phase_key(t);
            }
            let (_token2, ts2, stop) = self.key_phase(token, ts);
            if stop {
                return;
            }
            if self.value.len() > 0 {
                proof {
                    reveal_strlit("UIOWHDYUAWDGBAWYUODIGAWYUIDIAWGHDYUI8AWGHDUIAWDHNAWUIODHJNAWIOUDHJNAWOUIDAJNWMLDK");
                    lemma_utf8_len_bounds(self.value@);
                }
                self.value_phase(ts2, ext);
            }
        } else {
            self.value_phase(ts, ext);
        }
        self.current_pos = pos0 + advance;
        proof {
            assert(self.state() =~= step(st0, raw@, ext@));
        }
    }
}

/// Whether the spans of `input` can be given back: their offsets are `i32`
/// byte offsets, so the input is at most `0x7fff_0000` bytes long and every
/// span ends within an `i32` (a quoted value's span can reach past the end
/// of the input; see `lemma_short_input_fits` for a simple bound).
pub open spec fn parse_fits(input: Seq<char>, ext: Seq<(String, ExtSearchableRegistered)>) -> bool {
    utf8_len(input) <= 0x7fff_0000 && spans_fit(parse_state(input, ext).positions)
}

/// Input of at most `0x3fff_0000` bytes can always be parsed: every span
/// ends within twice the input's length (plus two).
pub proof fn lemma_short_input_fits(input: Seq<char>, ext: Seq<(String, ExtSearchableRegistered)>)
    requires
        utf8_len(input) <= 0x3fff_0000,
    ensures
        parse_fits(input, ext),
{
    lemma_split_spaces(input);
    lemma_tokens_spans(split_spaces(input), ext);
    let ps = parse_state(input, ext).positions;
    assert forall|i: int| 0 <= i < ps.len() implies 0 <= (#[trigger] ps[i]).start <= ps[i].end <= 0x7fff_ffff by {
        assert(spans_within(ps, 2 * ((utf8_len(input) + 1) as int)));
    }
}

/// Whether the UTF-8 encoding of `s` takes at most `limit` bytes.
fn utf8_len_at_most(s: &[char], limit: usize) -> (r: bool)
    requires
        limit <= 0x7fff_ffff,
    ensures
        r == (utf8_len(s@) <= limit),
{
    let mut n: usize = 0;
    let mut i: usize = 0;
    while i < s.len()
        invariant
            i <= s@.len(),
            limit <= 0x7fff_ffff,
            n == utf8_len(s@.take(i as int)),
            n <= limit,
        decreases s.len() - i,
    {
        proof {
            lemma_utf8_len_prefix(s@, i + 1);
            assert(s@.take(i + 1).drop_last() =~= s@.take(i as int));
            lemma_utf8_len_prefix(s@, i as int);
        }
        n = n + char_utf8_len(s[i]);
        if n > limit {
            proof {
                lemma_utf8_len_prefix(s@, i + 1);
            }
            return false;
        }
        i = i + 1;
    }
    assert(s@.take(s@.len() as int) =~= s@);
    true
}

/// Parses a user search into a search request, with the spans of the input
/// that make it up; `None` where the spans cannot be given back (see
/// `parse_fits`).
pub fn try_parse_user_input(
    input: &str,
    ext_searchables: Option<&Vec<(String, ExtSearchableRegistered)>>,
) -> (r: Option<ParsedInput>)
    ensures
        r is Some <==> parse_fits(input@, ext_seq(ext_searchables)),
        r matches Some(p) ==> {
            &&& filter_from_forced(parse_state(input@, ext_seq(ext_searchables)).filter, p.search.filter)
            &&& is_default_search_except_filter(p.search)
            &&& positions_view(p.positions@) == parse_state(input@, ext_seq(ext_searchables)).positions
        },
{
    let empty: Vec<(String, ExtSearchableRegistered)> = Vec::new();
    let ext: &Vec<(String, ExtSearchableRegistered)> = match ext_searchables {
        Some(e) => e,
        None => &empty,
    };
    assert(ext@ =~= ext_seq(ext_searchables));
    let chars = to_chars(input);
    if !utf8_len_at_most(&chars, 0x7fff_0000) {
        return None;
    }
    let mut p = Parser::new();
    let mut token: Vec<char> = Vec::new();
    let mut i: usize = 0;
    proof {
        let sp = split_spaces(chars@.take(0));
        assert(chars@.take(0) =~= Seq::<char>::empty());
        assert(sp.drop_last() =~= Seq::<Seq<char>>::empty());
    }
    while i < chars.len()
        invariant
            i <= chars@.len(),
            chars@ == input@,
            ext@ == ext_seq(ext_searchables),
            utf8_len(input@) <= 0x7fff_0000,
            p.filter.wf(),
            p.state() == parse_tokens(split_spaces(chars@.take(i as int)).drop_last(), ext@),
            token@ == split_spaces(chars@.take(i as int)).last(),
            bounded(p.state(), tokens_cost(split_spaces(chars@.take(i as int)).drop_last()) as int),
            tokens_cost(split_spaces(chars@.take(i as int)).drop_last()) + utf8_len(token@) == utf8_len(
                chars@.take(i as int),
            ),
        decreases chars.len() - i,
    {
        let ghost pre = chars@.take(i as int);
        let ghost sp = split_spaces(pre);
        let ghost pre1 = chars@.take(i + 1);
        let ghost c = tokens_cost(sp.drop_last()) as int;
        proof {
            lemma_utf8_len_prefix(chars@, i as int);
            assert(pre1.drop_last() =~= pre);
            assert(pre1.last() == chars@[i as int]);
            lemma_split_spaces(pre);
        }
        if chars[i] == ' ' {
            p.step(&token, ext, Ghost(c));
            token = Vec::new();
            proof {
                assert(split_spaces(pre1) == sp.push(Seq::<char>::empty()));
                assert(split_spaces(pre1).drop_last() =~= sp);
                assert(utf8_char_len(' ') == 1);
            }
        } else {
            let ghost t0 = token@;
            token.push(chars[i]);
            proof {
                let sp1 = split_spaces(pre1);
                assert(sp1 == sp.update(sp.len() - 1, sp.last().push(chars@[i as int])));
                assert(sp1.drop_last() =~= sp.drop_last());
                assert(token@.drop_last() =~= t0);
            }
        }
        i = i + 1;
    }
    let ghost sp = split_spaces(chars@);
    let ghost c = tokens_cost(sp.drop_last()) as int;
    proof {
        assert(chars@.take(chars@.len() as int) =~= chars@);
        lemma_split_spaces(chars@);
        assert(sp.drop_last().push(sp.last()) =~= sp);
        assert(parse_tokens(sp, ext@) == step(p.state(), token@, ext@));
    }
    p.step(&token, ext, Ghost(c));
    let positions = match narrow_positions(&p.positions) {
        Some(v) => v,
        None => {
            return None;
        },
    };
    let mut search = GameSearch::default();
    search.filter = game_filter_from_forced(&p.filter);
    Some(ParsedInput { search, positions })
}

/// Parses a user search into a search request, with the spans of the input
/// that make it up (see `parse_fits`).
pub fn parse_user_input(
    input: &str,
    ext_searchables: Option<&Vec<(String, ExtSearchableRegistered)>>,
) -> (r: ParsedInput)
    requires
        parse_fits(input@, ext_seq(ext_searchables)),
    ensures
        filter_from_forced(parse_state(input@, ext_seq(ext_searchables)).filter, r.search.filter),
        is_default_search_except_filter(r.search),
        positions_view(r.positions@) == parse_state(input@, ext_seq(ext_searchables)).positions,
{
    match try_parse_user_input(input, ext_searchables) {
        Some(p) => p,
        None => {
            assert(false);
            ParsedInput { search: GameSearch::default(), positions: Vec::new() }
        },
    }
}

} // verus!
