//! Where the spans of a parsed search stand in its input.
use vstd::prelude::*;
use crate::game::ext::ExtSearchableRegistered;
use crate::game::search::{ElementType, KeyChar, key_char_char};
use crate::game::search::parse::{
    ParseState, PosView, TokenState, char_index, earliest_key_char_spec, initial_state,
    lemma_char_index_from, law_earliest_key_char, parse_state, parse_tokens, phase_key,
    phase_modifiers, phase_quotes, phase_value, shortcut_key, split_spaces, step,
};
use crate::text::{utf8_char_len, utf8_len};

verus! {

/// Whether `s` is made of ASCII characters other than `"`.
pub open spec fn plain_ascii(s: Seq<char>) -> bool {
    forall|i: int| 0 <= i < s.len() ==> (#[trigger] s[i] as u32) < 0x80 && s[i] != '"'
}

/// Whether each of the spans `ps` is a slice of `s` (its text is `s`
/// between its offsets), the spans come in order of their starts, and all
/// end by `b`.
pub open spec fn slice_chain(s: Seq<char>, ps: Seq<PosView>, b: int) -> bool {
    &&& forall|i: int|
        0 <= i < ps.len() ==> 0 <= (#[trigger] ps[i]).start <= ps[i].end <= b && ps[i].end <= s.len()
            && s.subrange(ps[i].start, ps[i].end) == ps[i].value
    &&& forall|i: int, j: int| 0 <= i < j < ps.len() ==> (#[trigger] ps[i]).start <= (#[trigger] ps[j]).start
}

proof fn lemma_ascii_len(x: Seq<char>)
    requires
        forall|i: int| 0 <= i < x.len() ==> (#[trigger] x[i] as u32) < 0x80,
    ensures
        utf8_len(x) == x.len(),
    decreases x.len(),
{
    if x.len() > 0 {
        let y = x.drop_last();
        assert forall|i: int| 0 <= i < y.len() implies (#[trigger] y[i] as u32) < 0x80 by {
            assert(y[i] == x[i]);
        }
        lemma_ascii_len(y);
        assert((x[x.len() - 1] as u32) < 0x80);
        assert(utf8_char_len(x.last()) == 1);
    }
}

proof fn lemma_slice_ascii_len(s: Seq<char>, a: int, b: int)
    requires
        plain_ascii(s),
        0 <= a <= b <= s.len(),
    ensures
        utf8_len(s.subrange(a, b)) == b - a,
        plain_ascii(s.subrange(a, b)),
{
    let x = s.subrange(a, b);
    assert forall|i: int| 0 <= i < x.len() implies (#[trigger] x[i] as u32) < 0x80 && x[i] != '"' by {
        assert(x[i] == s[a + i]);
    }
    lemma_ascii_len(x);
}

proof fn lemma_chain_push(s: Seq<char>, ps: Seq<PosView>, b: int, p: PosView)
    requires
        slice_chain(s, ps, b),
        0 <= b <= p.start <= p.end <= s.len(),
        s.subrange(p.start, p.end) == p.value,
    ensures
        slice_chain(s, ps.push(p), p.end),
{
    let q = ps.push(p);
    assert forall|i: int| 0 <= i < q.len() implies 0 <= (#[trigger] q[i]).start <= q[i].end <= p.end && q[i].end
        <= s.len() && s.subrange(q[i].start, q[i].end) == q[i].value by {
        if i < ps.len() {
            assert(q[i] == ps[i]);
        }
    }
    assert forall|i: int, j: int| 0 <= i < j < q.len() implies (#[trigger] q[i]).start <= (#[trigger] q[j]).start by {
        assert(q[i] == ps[i]);
        if j < ps.len() {
            assert(q[j] == ps[j]);
        }
    }
}

proof fn lemma_chain_more(s: Seq<char>, ps: Seq<PosView>, b: int, b2: int)
    requires
        slice_chain(s, ps, b),
        b <= b2,
    ensures
        slice_chain(s, ps, b2),
{
}

/// Within a token: the rest of the token is the input from `t.ts` to `e`,
/// the spans so far are slices ending by `t.ts`, and no value is pending.
pub open spec fn token_at(s: Seq<char>, t: TokenState, e: int) -> bool {
    &&& 0 <= t.ts <= e <= s.len()
    &&& t.token == s.subrange(t.ts, e)
    &&& slice_chain(s, t.st.positions, t.ts)
    &&& !t.st.capturing
    &&& t.st.value.len() == 0
}

proof fn lemma_modifiers_slices(s: Seq<char>, st: ParseState, raw: Seq<char>)
    requires
        plain_ascii(s),
        token_at(s, TokenState { st: st, token: raw, ts: st.current_pos }, st.current_pos + raw.len()),
    ensures
        token_at(s, phase_modifiers(st, raw), st.current_pos + raw.len()),
{
    let q = st.current_pos;
    let e = q + raw.len();
    lemma_slice_ascii_len(s, q, e);
    if utf8_len(raw) > 1 {
        let t1 = if raw[0] == '-' {
            TokenState {
                st: crate::game::search::parse::with_position(
                    ParseState { negative: true, ..st },
                    ElementType::MODIFIER,
                    seq!['-'],
                    q,
                    q + 1,
                ),
                token: raw.skip(1),
                ts: q + 1,
            }
        } else {
            TokenState { st: st, token: raw, ts: q }
        };
        if raw[0] == '-' {
            assert(s.subrange(q, q + 1) =~= seq!['-']) by {
                assert(raw[0] == s[q]);
            }
            lemma_chain_push(
                s,
                st.positions,
                q,
                PosView { element: ElementType::MODIFIER, value: seq!['-'], start: q, end: q + 1 },
            );
            assert(raw.skip(1) =~= s.subrange(q + 1, e));
        }
        assert(token_at(s, t1, e));
        lemma_slice_ascii_len(s, t1.ts, e);
        if utf8_len(t1.token) > 1 {
            match shortcut_key(t1.token[0]) {
                Some(k) => {
                    assert(s.subrange(t1.ts, t1.ts + 1) =~= seq![t1.token[0]]) by {
                        assert(t1.token[0] == s[t1.ts]);
                    }
                    lemma_chain_push(
                        s,
                        t1.st.positions,
                        t1.ts,
                        PosView { element: ElementType::MODIFIER, value: seq![t1.token[0]], start: t1.ts, end: t1.ts + 1 },
                    );
                    assert(t1.token.skip(1) =~= s.subrange(t1.ts + 1, e));
                },
                None => {},
            }
        }
    }
}

proof fn lemma_quotes_slices(s: Seq<char>, t: TokenState, e: int)
    requires
        plain_ascii(s),
        token_at(s, t, e),
    ensures
        phase_quotes(t).st == t.st,
        phase_quotes(t).token == t.token,
        phase_quotes(t).ts == t.ts,
{
    if t.token.len() > 0 {
        assert(t.token[0] == s[t.ts]);
        assert(t.token.last() == s[e - 1]);
    }
    assert(phase_quotes(t).st =~= t.st);
}

proof fn lemma_key_slices(s: Seq<char>, t: TokenState, e: int)
    requires
        plain_ascii(s),
        token_at(s, t, e),
    ensures
        !phase_key(t).1,
        ({
            let u = phase_key(t).0;
            &&& 0 <= u.ts <= e
            &&& slice_chain(s, u.st.positions, u.ts)
            &&& !u.st.capturing
            &&& u.st.value == u.token
            &&& match u.st.key_char {
                Some(k) => u.ts < e && s[u.ts] == key_char_char(k) && u.token == s.subrange(u.ts + 1, e),
                None => u.token == s.subrange(u.ts, e),
            }
        }),
{
    let kc = earliest_key_char_spec(t.token);
    match kc {
        Some(k) => {
            law_earliest_key_char(t.token, k);
            let c = key_char_char(k);
            lemma_char_index_from(t.token, c, 0);
            let idx = char_index(t.token, c);
            let key = t.token.take(idx);
            assert(key =~= s.subrange(t.ts, t.ts + idx));
            lemma_slice_ascii_len(s, t.ts, t.ts + idx);
            lemma_chain_push(
                s,
                t.st.positions,
                t.ts,
                PosView { element: ElementType::KEY, value: key, start: t.ts, end: t.ts + idx },
            );
            assert(t.token[idx] == s[t.ts + idx]);
            let rest = t.token.skip(idx + 1);
            assert(rest =~= s.subrange(t.ts + idx + 1, e));
            if rest.len() > 0 {
                assert(rest[0] == s[t.ts + idx + 1]);
            }
        },
        None => {
            if t.token.len() > 0 {
                assert(t.token[0] == s[t.ts]);
            }
        },
    }
}

proof fn lemma_value_slices(
    s: Seq<char>,
    st: ParseState,
    ts: int,
    e: int,
    ext: Seq<(String, ExtSearchableRegistered)>,
)
    requires
        plain_ascii(s),
        0 <= ts <= e <= s.len(),
        slice_chain(s, st.positions, ts),
        match st.key_char {
            Some(k) => ts < e && s[ts] == key_char_char(k) && st.value == s.subrange(ts + 1, e),
            None => st.value == s.subrange(ts, e),
        },
    ensures
        slice_chain(s, phase_value(st, ts, ext).positions, e),
        !phase_value(st, ts, ext).capturing || st.capturing,
        phase_value(st, ts, ext).value.len() == 0,
{
    let ts1 = match st.key_char {
        Some(k) => ts + 1,
        None => ts,
    };
    lemma_slice_ascii_len(s, ts1, e);
    let mut ps = st.positions;
    match st.key_char {
        Some(k) => {
            assert(s.subrange(ts, ts + 1) =~= seq![key_char_char(k)]);
            lemma_chain_push(
                s,
                st.positions,
                ts,
                PosView { element: ElementType::KEYCHAR, value: seq![key_char_char(k)], start: ts, end: ts + 1 },
            );
        },
        None => {},
    }
    let is_repl = st.key.len() > 0 && st.value == crate::game::search::parse::REPLACEMENT@;
    let value = if is_repl {
        Seq::<char>::empty()
    } else {
        st.value
    };
    let st1 = match st.key_char {
        Some(k) => crate::game::search::parse::with_position(
            st,
            ElementType::KEYCHAR,
            seq![key_char_char(k)],
            ts,
            ts + 1,
        ),
        None => st,
    };
    assert(slice_chain(s, st1.positions, ts1));
    if is_repl {
        assert(s.subrange(ts1, ts1) =~= Seq::<char>::empty());
        lemma_chain_push(
            s,
            st1.positions,
            ts1,
            PosView { element: ElementType::VALUE, value: value, start: ts1, end: ts1 },
        );
        lemma_chain_more(s, phase_value(st, ts, ext).positions, ts1, e);
    } else {
        lemma_chain_push(
            s,
            st1.positions,
            ts1,
            PosView { element: ElementType::VALUE, value: value, start: ts1, end: e },
        );
    }
}

/// One piece of quote-free ASCII input, standing at the parser's position,
/// adds spans that are slices of the input, after the earlier ones.
proof fn lemma_step_slices(
    s: Seq<char>,
    st: ParseState,
    raw: Seq<char>,
    ext: Seq<(String, ExtSearchableRegistered)>,
)
    requires
        plain_ascii(s),
        token_at(s, TokenState { st: st, token: raw, ts: st.current_pos }, st.current_pos + raw.len()),
    ensures
        ({
            let r = step(st, raw, ext);
            &&& !r.capturing
            &&& r.value.len() == 0
            &&& r.current_pos == st.current_pos + raw.len() + 1
            &&& slice_chain(s, r.positions, st.current_pos + raw.len())
        }),
{
    let e = st.current_pos + raw.len();
    lemma_slice_ascii_len(s, st.current_pos, e);
    lemma_modifiers_slices(s, st, raw);
    let t0 = phase_modifiers(st, raw);
    lemma_quotes_slices(s, t0, e);
    let t = phase_quotes(t0);
    assert(t == t0);
    lemma_key_slices(s, t, e);
    let t2 = phase_key(t).0;
    if t2.st.value.len() > 0 {
        lemma_value_slices(s, t2.st, t2.ts, e, ext);
    } else {
        lemma_chain_more(s, t2.st.positions, t2.ts, e);
    }
}

/// Before the last piece of a prefix of quote-free ASCII input: the state
/// stands at the start of that piece, and its spans are slices of the input.
proof fn lemma_prefix_slices(s: Seq<char>, i: int, ext: Seq<(String, ExtSearchableRegistered)>)
    requires
        plain_ascii(s),
        0 <= i <= s.len(),
    ensures
        ({
            let sp = split_spaces(s.take(i));
            let st = parse_tokens(sp.drop_last(), ext);
            let last = sp.last();
            &&& sp.len() >= 1
            &&& st.current_pos == i - last.len()
            &&& token_at(s, TokenState { st: st, token: last, ts: st.current_pos }, i)
        }),
    decreases i,
{
    if i == 0 {
        assert(s.take(0) =~= Seq::<char>::empty());
        let sp = split_spaces(s.take(0));
        assert(sp.drop_last() =~= Seq::<Seq<char>>::empty());
        assert(s.subrange(0, 0) =~= Seq::<char>::empty());
    } else {
        lemma_prefix_slices(s, i - 1, ext);
        let pre = s.take(i - 1);
        let pre1 = s.take(i);
        assert(pre1.drop_last() =~= pre);
        assert(pre1.last() == s[i - 1]);
        let sp = split_spaces(pre);
        let st = parse_tokens(sp.drop_last(), ext);
        let last = sp.last();
        if s[i - 1] == ' ' {
            assert(split_spaces(pre1) == sp.push(Seq::<char>::empty()));
            assert(split_spaces(pre1).drop_last() =~= sp);
            assert(sp.drop_last().push(last) =~= sp);
            assert(parse_tokens(sp, ext) == step(st, last, ext));
            lemma_step_slices(s, st, last, ext);
            lemma_chain_more(s, parse_tokens(sp, ext).positions, i - 1, i);
            assert(s.subrange(i, i) =~= Seq::<char>::empty());
        } else {
            let sp1 = split_spaces(pre1);
            assert(sp1 == sp.update(sp.len() - 1, last.push(s[i - 1])));
            assert(sp1.drop_last() =~= sp.drop_last());
            assert(sp1.last() =~= last.push(s[i - 1]));
            assert(last.push(s[i - 1]) =~= s.subrange(i - 1 - last.len(), i));
        }
    }
}

/// Law: in a parse of quote-free ASCII input, every span is a slice of the
/// input (its text is the input between its offsets, which lie within the
/// input), and the spans come in order of their starts.
pub proof fn law_spans_are_slices(input: Seq<char>, ext: Seq<(String, ExtSearchableRegistered)>)
    requires
        plain_ascii(input),
    ensures
        slice_chain(input, parse_state(input, ext).positions, input.len() as int),
{
    let n = input.len() as int;
    lemma_prefix_slices(input, n, ext);
    assert(input.take(n) =~= input);
    let sp = split_spaces(input);
    let st = parse_tokens(sp.drop_last(), ext);
    assert(sp.drop_last().push(sp.last()) =~= sp);
    assert(parse_state(input, ext) == step(st, sp.last(), ext));
    lemma_step_slices(input, st, sp.last(), ext);
}

} // verus!
