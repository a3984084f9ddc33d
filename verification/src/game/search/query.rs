//! Building the SQL `WHERE` clause of a filter, and the full query of a
//! search, together with the values bound to their `?` placeholders.
//!
//! Clauses and values are modelled as `Seq<Seq<char>>` and `Seq<ParamView>`;
//! each builder below states exactly which clauses and values it appends.
use vstd::prelude::*;
use crate::game::search::{
    FieldFilter, GameFilter, GameSearch, GameSearchDirection, GameSearchSortable, JsonValue, KeyChar,
    SearchParam, SizeFilter, game_filter_is_empty, field_filter_is_empty, size_filter_is_empty, bool_filter_is_empty,
};
use crate::text::{append_chars, append_str, copy_chars, i64_decimal, int_decimal, string_of, utf8_len};

verus! {

// ---------------------------------------------------------------------------
// Values bound to placeholders
// ---------------------------------------------------------------------------

/// A `SearchParam` as values.
pub enum ParamView {
    Boolean(bool),
    Text(Seq<char>),
    TextList(Seq<Seq<char>>),
    Integer(i64),
    Real(Seq<char>),
}

pub open spec fn param_view(p: SearchParam) -> ParamView {
    match p {
        SearchParam::Boolean(b) => ParamView::Boolean(b),
        SearchParam::String(s) => ParamView::Text(s@),
        SearchParam::StringVec(v) => ParamView::TextList(v.deep_view()),
        SearchParam::Integer64(i) => ParamView::Integer(i),
        SearchParam::Real(s) => ParamView::Real(s@),
    }
}

pub open spec fn params_view(ps: Seq<SearchParam>) -> Seq<ParamView> {
    ps.map_values(|p: SearchParam| param_view(p))
}

pub open spec fn texts_view(ps: Seq<Vec<char>>) -> Seq<Seq<char>> {
    ps.map_values(|v: Vec<char>| v@)
}

/// Clauses and values appended so far.
#[verifier::ext_equal]
pub struct Acc {
    pub clauses: Seq<Seq<char>>,
    pub params: Seq<ParamView>,
}

pub open spec fn acc_of(clauses: Seq<Vec<char>>, params: Seq<SearchParam>) -> Acc {
    Acc { clauses: texts_view(clauses), params: params_view(params) }
}

pub open spec fn acc_push(a: Acc, c: Seq<char>, ps: Seq<ParamView>) -> Acc {
    Acc { clauses: a.clauses.push(c), params: a.params + ps }
}

/// Appends one clause and its values.
fn push_clause(
    clauses: &mut Vec<Vec<char>>,
    params: &mut Vec<SearchParam>,
    c: Vec<char>,
    ps: Vec<SearchParam>,
)
    ensures
        acc_of(final(clauses)@, final(params)@) == acc_push(
            acc_of(old(clauses)@, old(params)@),
            c@,
            params_view(ps@),
        ),
{
    let ghost c0 = c@;
    clauses.push(c);
    let mut ps = ps;
    let ghost all = ps@;
    params.append(&mut ps);
    proof {
        assert(params_view(params@) =~= params_view(old(params)@) + params_view(all));
        assert(texts_view(clauses@) =~= texts_view(old(clauses)@).push(c0));
    }
}

// ---------------------------------------------------------------------------
// Text
// ---------------------------------------------------------------------------

/// `parts` joined with `sep` between them.
pub open spec fn join(parts: Seq<Seq<char>>, sep: Seq<char>) -> Seq<char>
    decreases parts.len(),
{
    if parts.len() == 0 {
        Seq::empty()
    } else if parts.len() == 1 {
        parts[0]
    } else {
        join(parts.drop_last(), sep) + sep + parts.last()
    }
}

pub fn join_exec(parts: &Vec<Vec<char>>, sep: &str) -> (r: Vec<char>)
    ensures
        r@ == join(texts_view(parts@), sep@),
{
    let mut r: Vec<char> = Vec::new();
    let mut i: usize = 0;
    while i < parts.len()
        invariant
            i <= parts@.len(),
            r@ == join(texts_view(parts@.take(i as int)), sep@),
        decreases parts.len() - i,
    {
        if i > 0 {
            append_str(&mut r, sep);
        }
        append_chars(&mut r, &parts[i]);
        proof {
            let t = texts_view(parts@.take(i + 1));
            assert(t.drop_last() =~= texts_view(parts@.take(i as int)));
            if i == 0 {
                assert(r@ =~= t[0]);
            }
        }
        i = i + 1;
    }
    assert(parts@.take(parts@.len() as int) =~= parts@);
    r
}

/// `n` copies of `s`.
pub open spec fn copies(s: Seq<char>, n: nat) -> Seq<Seq<char>> {
    Seq::new(n, |i: int| s)
}

/// `s` written `n` times in a row.
pub open spec fn repeat(s: Seq<char>, n: nat) -> Seq<char>
    decreases n,
{
    if n == 0 {
        Seq::empty()
    } else {
        repeat(s, (n - 1) as nat) + s
    }
}

/// A text matcher's comparison, by whether it excludes and is exact.
pub open spec fn comparator(blacklist: bool, exact: bool) -> Seq<char> {
    if blacklist {
        if exact {
            "!="@
        } else {
            "NOT LIKE"@
        }
    } else {
        if exact {
            "="@
        } else {
            "LIKE"@
        }
    }
}

fn comparator_exec(blacklist: bool, exact: bool) -> (r: &'static str)
    ensures
        r@ == comparator(blacklist, exact),
{
    if blacklist {
        if exact {
            "!="
        } else {
            "NOT LIKE"
        }
    } else {
        if exact {
            "="
        } else {
            "LIKE"
        }
    }
}

pub open spec fn in_comparator(blacklist: bool) -> Seq<char> {
    if blacklist {
        "NOT IN"@
    } else {
        "IN"@
    }
}

fn in_comparator_exec(blacklist: bool) -> (r: &'static str)
    ensures
        r@ == in_comparator(blacklist),
{
    if blacklist {
        "NOT IN"
    } else {
        "IN"
    }
}

/// The value bound for a text matcher: the text itself when exact, else the
/// text between `%` wildcards.
pub open spec fn value_param(v: Seq<char>, exact: bool) -> ParamView {
    if exact {
        ParamView::Text(v)
    } else {
        ParamView::Text("%"@ + v + "%"@)
    }
}

fn value_param_exec(v: &String, exact: bool) -> (r: SearchParam)
    ensures
        param_view(r) == value_param(v@, exact),
{
    if exact {
        SearchParam::String(v.clone())
    } else {
        let mut c: Vec<char> = Vec::new();
        append_str(&mut c, "%");
        append_str(&mut c, v.as_str());
        append_str(&mut c, "%");
        SearchParam::String(crate::text::string_of(&c))
    }
}

/// `game.<field> <op> ?`
pub open spec fn field_clause(field: Seq<char>, op: Seq<char>) -> Seq<char> {
    "game."@ + field + " "@ + op + " ?"@
}

fn field_clause_exec(field: &str, op: &str) -> (r: Vec<char>)
    ensures
        r@ == field_clause(field@, op@),
{
    let mut c: Vec<char> = Vec::new();
    append_str(&mut c, "game.");
    append_str(&mut c, field);
    append_str(&mut c, " ");
    append_str(&mut c, op);
    append_str(&mut c, " ?");
    assert(c@ =~= field_clause(field@, op@));
    c
}

/// `(<s>)`
pub open spec fn parens(s: Seq<char>) -> Seq<char> {
    "("@ + s + ")"@
}

fn parens_exec(s: &Vec<char>) -> (r: Vec<char>)
    ensures
        r@ == parens(s@),
{
    let mut c: Vec<char> = Vec::new();
    append_str(&mut c, "(");
    append_chars(&mut c, s);
    append_str(&mut c, ")");
    assert(c@ =~= parens(s@));
    c
}

// ---------------------------------------------------------------------------
// Text matchers on game columns
// ---------------------------------------------------------------------------

pub open spec fn value_params(vs: Seq<Seq<char>>, exact: bool) -> Seq<ParamView> {
    vs.map_values(|v: Seq<char>| value_param(v, exact))
}

/// A text matcher on a game column: with `match_any`, exact values are one
/// `IN` list; excluded values are one clause of `AND`-ed comparisons; other
/// values are one clause each.
pub open spec fn add_clause_spec(
    a: Acc,
    field: Seq<char>,
    values: Option<Seq<Seq<char>>>,
    exact: bool,
    blacklist: bool,
    match_any: bool,
) -> Acc {
    match values {
        None => a,
        Some(vs) => {
            let one = field_clause(field, comparator(blacklist, exact));
            if exact && match_any {
                acc_push(
                    a,
                    "game."@ + field + " "@ + in_comparator(blacklist) + " rarray(?)"@,
                    seq![ParamView::TextList(vs)],
                )
            } else if blacklist {
                acc_push(a, parens(join(copies(one, vs.len()), " AND "@)), value_params(vs, exact))
            } else {
                Acc { clauses: a.clauses + copies(one, vs.len()), params: a.params + value_params(vs, exact) }
            }
        },
    }
}

fn add_clause(
    clauses: &mut Vec<Vec<char>>,
    params: &mut Vec<SearchParam>,
    field: &str,
    values: &Option<Vec<String>>,
    exact: bool,
    blacklist: bool,
    match_any: bool,
)
    ensures
        acc_of(final(clauses)@, final(params)@) == add_clause_spec(
            acc_of(old(clauses)@, old(params)@),
            field@,
            values.deep_view(),
            exact,
            blacklist,
            match_any,
        ),
{
    match values {
        None => {},
        Some(vs) => {
            let op = comparator_exec(blacklist, exact);
            if exact && match_any {
                let mut c: Vec<char> = Vec::new();
                append_str(&mut c, "game.");
                append_str(&mut c, field);
                append_str(&mut c, " ");
                append_str(&mut c, in_comparator_exec(blacklist));
                append_str(&mut c, " rarray(?)");
                let mut ps: Vec<SearchParam> = Vec::new();
                ps.push(SearchParam::StringVec(crate::game::search::filter::clone_strings(vs)));
                proof {
                    assert(params_view(ps@) =~= seq![ParamView::TextList(vs.deep_view())]);
                    assert(c@ =~= "game."@ + field@ + " "@ + in_comparator(blacklist) + " rarray(?)"@);
                }
                push_clause(clauses, params, c, ps);
            } else {
                let ghost a0 = acc_of(clauses@, params@);
                let one = field_clause_exec(field, op);
                let mut inner: Vec<Vec<char>> = Vec::new();
                let mut i: usize = 0;
                while i < vs.len()
                    invariant
                        i <= vs@.len(),
                        one@ == field_clause(field@, comparator(blacklist, exact)),
                        blacklist ==> texts_view(inner@) =~= copies(one@, i as nat),
                        params_view(params@) =~= a0.params + value_params(vs.deep_view().take(i as int), exact),
                        blacklist ==> texts_view(clauses@) == a0.clauses,
                        !blacklist ==> texts_view(clauses@) =~= a0.clauses + copies(one@, i as nat),
                    decreases vs.len() - i,
                {
                    let ghost pv0 = params@;
                    let p = value_param_exec(&vs[i], exact);
                    params.push(p);
                    let cc = copy_chars(&one);
                    proof {
                        assert(copies(one@, (i + 1) as nat) =~= copies(one@, i as nat).push(one@));
                    }
                    if blacklist {
                        let ghost in0 = inner@;
                        inner.push(cc);
                        assert(texts_view(inner@) =~= texts_view(in0).push(one@));
                    } else {
                        let ghost cl0 = clauses@;
                        clauses.push(cc);
                        assert(texts_view(clauses@) =~= texts_view(cl0).push(one@));
                    }
                    proof {
                        assert(params_view(params@) =~= params_view(pv0).push(param_view(p)));
                        assert(vs.deep_view().take(i + 1) =~= vs.deep_view().take(i as int).push(vs@[i as int]@));
                        assert(value_params(vs.deep_view().take(i + 1), exact) =~= value_params(
                            vs.deep_view().take(i as int),
                            exact,
                        ).push(value_param(vs@[i as int]@, exact)));
                    }
                    i = i + 1;
                }
                proof {
                    assert(vs.deep_view().take(vs@.len() as int) =~= vs.deep_view());
                }
                if blacklist {
                    let j = join_exec(&inner, " AND ");
                    let c = parens_exec(&j);
                    clauses.push(c);
                    proof {
                        assert(texts_view(clauses@) =~= a0.clauses.push(c@));
                    }
                }
            }
        },
    }
}

/// Game ids: exact ids (always as one `IN` list, matching redirects too);
/// otherwise a 36-byte value is compared as an id (or a redirect's source),
/// any other value as a pattern.
pub open spec fn id_value_clause(v: Seq<char>, blacklist: bool) -> (Seq<char>, Seq<ParamView>) {
    if utf8_len(v) == 36 {
        let c = if blacklist {
            "!="@
        } else {
            "="@
        };
        (
            "(game.id "@ + c + " ? OR game.id "@ + c + " (SELECT id FROM game_redirect WHERE sourceId = ? LIMIT 1))"@,
            seq![ParamView::Text(v), ParamView::Text(v)],
        )
    } else {
        let c = if blacklist {
            "NOT LIKE"@
        } else {
            "LIKE"@
        };
        ("(game.id "@ + c + " ?)"@, seq![ParamView::Text("%"@ + v + "%"@)])
    }
}

pub open spec fn id_values_spec(a: Acc, vs: Seq<Seq<char>>, blacklist: bool) -> Acc
    decreases vs.len(),
{
    if vs.len() == 0 {
        a
    } else {
        let (c, ps) = id_value_clause(vs.last(), blacklist);
        acc_push(id_values_spec(a, vs.drop_last(), blacklist), c, ps)
    }
}

pub open spec fn id_clause_spec(a: Acc, values: Option<Seq<Seq<char>>>, exact: bool, blacklist: bool) -> Acc {
    match values {
        None => a,
        Some(vs) => if exact {
            let c = in_comparator(blacklist);
            acc_push(
                a,
                "(game.id "@ + c + " rarray(?) OR game.id "@ + c
                    + " (SELECT id FROM game_redirect WHERE sourceId IN rarray(?)))"@,
                seq![ParamView::TextList(vs), ParamView::TextList(vs)],
            )
        } else {
            id_values_spec(a, vs, blacklist)
        },
    }
}

fn id_value_clause_exec(v: &String, blacklist: bool) -> (r: (Vec<char>, Vec<SearchParam>))
    ensures
        r.0@ == id_value_clause(v@, blacklist).0,
        params_view(r.1@) == id_value_clause(v@, blacklist).1,
{
    let chars = crate::text::to_chars(v.as_str());
    let mut c: Vec<char> = Vec::new();
    let mut ps: Vec<SearchParam> = Vec::new();
    proof {
        crate::text::lemma_utf8_len_bounds(chars@);
    }
    let long = chars.len() <= 36 && crate::text::chars_utf8_len(&chars) == 36;
    if long {
        let op = if blacklist {
            "!="
        } else {
            "="
        };
        append_str(&mut c, "(game.id ");
        append_str(&mut c, op);
        append_str(&mut c, " ? OR game.id ");
        append_str(&mut c, op);
        append_str(&mut c, " (SELECT id FROM game_redirect WHERE sourceId = ? LIMIT 1))");
        ps.push(SearchParam::String(v.clone()));
        ps.push(SearchParam::String(v.clone()));
    } else {
        let op = if blacklist {
            "NOT LIKE"
        } else {
            "LIKE"
        };
        append_str(&mut c, "(game.id ");
        append_str(&mut c, op);
        append_str(&mut c, " ?)");
        ps.push(value_param_exec(v, false));
    }
    proof {
        assert(c@ =~= id_value_clause(v@, blacklist).0);
        assert(params_view(ps@) =~= id_value_clause(v@, blacklist).1);
    }
    (c, ps)
}

fn id_clause(
    clauses: &mut Vec<Vec<char>>,
    params: &mut Vec<SearchParam>,
    values: &Option<Vec<String>>,
    exact: bool,
    blacklist: bool,
)
    ensures
        acc_of(final(clauses)@, final(params)@) == id_clause_spec(
            acc_of(old(clauses)@, old(params)@),
            values.deep_view(),
            exact,
            blacklist,
        ),
{
    match values {
        None => {},
        Some(vs) => {
            if exact {
                let op = in_comparator_exec(blacklist);
                let mut c: Vec<char> = Vec::new();
                append_str(&mut c, "(game.id ");
                append_str(&mut c, op);
                append_str(&mut c, " rarray(?) OR game.id ");
                append_str(&mut c, op);
                append_str(&mut c, " (SELECT id FROM game_redirect WHERE sourceId IN rarray(?)))");
                let mut ps: Vec<SearchParam> = Vec::new();
                ps.push(SearchParam::StringVec(crate::game::search::filter::clone_strings(vs)));
                ps.push(SearchParam::StringVec(crate::game::search::filter::clone_strings(vs)));
                proof {
                    assert(params_view(ps@) =~= seq![
                        ParamView::TextList(vs.deep_view()),
                        ParamView::TextList(vs.deep_view()),
                    ]);
                    let c2 = in_comparator(blacklist);
                    assert(c@ =~= "(game.id "@ + c2 + " rarray(?) OR game.id "@ + c2
                        + " (SELECT id FROM game_redirect WHERE sourceId IN rarray(?)))"@);
                }
                push_clause(clauses, params, c, ps);
            } else {
                let ghost a0 = acc_of(clauses@, params@);
                let mut i: usize = 0;
                while i < vs.len()
                    invariant
                        i <= vs@.len(),
                        acc_of(clauses@, params@) == id_values_spec(a0, vs.deep_view().take(i as int), blacklist),
                    decreases vs.len() - i,
                {
                    let (c, ps) = id_value_clause_exec(&vs[i], blacklist);
                    push_clause(clauses, params, c, ps);
                    proof {
                        let t = vs.deep_view().take(i + 1);
                        assert(t.drop_last() =~= vs.deep_view().take(i as int));
                        assert(t.last() == vs@[i as int]@);
                    }
                    i = i + 1;
                }
                proof {
                    assert(vs.deep_view().take(vs@.len() as int) =~= vs.deep_view());
                }
            }
        },
    }
}

// ---------------------------------------------------------------------------
// Tags and platforms
// ---------------------------------------------------------------------------

/// A line break followed by `n` spaces.
pub open spec fn nl(n: nat) -> Seq<char> {
    seq!['\n'] + Seq::new(n, |i: int| ' ')
}

fn nl_exec(n: usize) -> (r: Vec<char>)
    ensures
        r@ == nl(n as nat),
{
    let mut r: Vec<char> = Vec::new();
    r.push('\n');
    let mut i: usize = 0;
    while i < n
        invariant
            i <= n,
            r@ =~= seq!['\n'] + Seq::new(i as nat, |k: int| ' '),
        decreases n - i,
    {
        r.push(' ');
        i = i + 1;
    }
    r
}

/// `SELECT gameId FROM game_<t>s_<t> WHERE <t>Id IN (<mid>SELECT <t>Id FROM
/// <t>_alias WHERE <cond><tail>`: the games with a tag (or platform) of
/// which an alias meets `cond`.
pub open spec fn alias_select(t: Seq<char>, mid: Seq<char>, cond: Seq<char>, tail: Seq<char>) -> Seq<char> {
    "SELECT gameId FROM game_"@ + t + "s_"@ + t + " WHERE "@ + t + "Id IN ("@ + mid + "SELECT "@ + t
        + "Id FROM "@ + t + "_alias WHERE "@ + cond + tail
}

fn alias_select_exec(t: &str, mid: &Vec<char>, cond: &Vec<char>, tail: &Vec<char>) -> (r: Vec<char>)
    ensures
        r@ == alias_select(t@, mid@, cond@, tail@),
{
    let mut c: Vec<char> = Vec::new();
    append_str(&mut c, "SELECT gameId FROM game_");
    append_str(&mut c, t);
    append_str(&mut c, "s_");
    append_str(&mut c, t);
    append_str(&mut c, " WHERE ");
    append_str(&mut c, t);
    append_str(&mut c, "Id IN (");
    append_chars(&mut c, mid);
    append_str(&mut c, "SELECT ");
    append_str(&mut c, t);
    append_str(&mut c, "Id FROM ");
    append_str(&mut c, t);
    append_str(&mut c, "_alias WHERE ");
    append_chars(&mut c, cond);
    append_chars(&mut c, tail);
    assert(c@ =~= alias_select(t@, mid@, cond@, tail@));
    c
}

/// `game.id <op> (<s>)`
pub open spec fn id_in(op: Seq<char>, s: Seq<char>) -> Seq<char> {
    "game.id "@ + op + " ("@ + s + ")"@
}

fn id_in_exec(op: &str, s: &Vec<char>) -> (r: Vec<char>)
    ensures
        r@ == id_in(op@, s@),
{
    let mut c: Vec<char> = Vec::new();
    append_str(&mut c, "game.id ");
    append_str(&mut c, op);
    append_str(&mut c, " (");
    append_chars(&mut c, s);
    append_str(&mut c, ")");
    assert(c@ =~= id_in(op@, s@));
    c
}

/// One further required tag in an all-of tag match.
pub open spec fn and_tag_part(t: Seq<char>, q: Seq<char>) -> Seq<char> {
    " AND gameId IN ("@ + nl(36) + alias_select(t, nl(40), q, nl(36) + ")"@) + nl(32) + ")"@
}

/// The text of a tag (or platform) matcher that is not an exact `IN` list:
/// included values all required (one value alone is simpler), excluded
/// values any of them, and with `match_any` the values as a list.
pub open spec fn tagged_text(t: Seq<char>, q: Seq<char>, n: nat, blacklist: bool, match_any: bool) -> Seq<char> {
    let op = in_comparator(blacklist);
    let j = join(copies(q, n), " OR "@);
    if !blacklist && !match_any {
        if n == 1 {
            "game.id "@ + op + " ("@ + alias_select(t, nl(32), q, ")"@ + nl(28) + ")"@)
        } else {
            id_in(op, alias_select(t, nl(36), q, nl(32) + ")"@) + repeat(and_tag_part(t, q), (n - 1) as nat))
        }
    } else if blacklist && !match_any {
        "game.id "@ + op + " ("@ + alias_select(t, nl(20), "("@ + j + ")"@, "))"@)
    } else {
        "game.id "@ + op + " ("@ + alias_select(t, nl(20), "name IN "@ + j, "))"@)
    }
}

pub open spec fn add_tagged_clause_spec(
    a: Acc,
    t: Seq<char>,
    values: Option<Seq<Seq<char>>>,
    exact: bool,
    blacklist: bool,
    match_any: bool,
) -> Acc {
    match values {
        None => a,
        Some(vs) => if exact && match_any {
            acc_push(
                a,
                "game.id "@ + in_comparator(blacklist) + " ("@ + alias_select(t, nl(16), "name IN rarray(?)"@, "))"@),
                seq![ParamView::TextList(vs)],
            )
        } else {
            let q = if exact {
                "name = ?"@
            } else {
                "name LIKE ?"@
            };
            acc_push(a, tagged_text(t, q, vs.len(), blacklist, match_any), value_params(vs, exact))
        },
    }
}

/// Whether a tag matcher can be built: an all-of match needs a value.
pub open spec fn tagged_ok(values: Option<Seq<Seq<char>>>, blacklist: bool, match_any: bool) -> bool {
    match values {
        Some(vs) => !blacklist && !match_any ==> vs.len() > 0,
        None => true,
    }
}

fn tagged_text_exec(t: &str, exact: bool, n: usize, blacklist: bool, match_any: bool) -> (r: Vec<char>)
    requires
        !blacklist && !match_any ==> n > 0,
    ensures
        r@ == tagged_text(
            t@,
            if exact {
                "name = ?"@
            } else {
                "name LIKE ?"@
            },
            n as nat,
            blacklist,
            match_any,
        ),
{
    let q = if exact {
        to_chars_lit("name = ?")
    } else {
        to_chars_lit("name LIKE ?")
    };
    let op = in_comparator_exec(blacklist);
    let mut inner: Vec<Vec<char>> = Vec::new();
    let mut i: usize = 0;
    while i < n
        invariant
            i <= n,
            texts_view(inner@) =~= copies(q@, i as nat),
        decreases n - i,
    {
        let ghost in0 = inner@;
        inner.push(copy_chars(&q));
        assert(texts_view(inner@) =~= texts_view(in0).push(q@));
        i = i + 1;
    }
    let j = join_exec(&inner, " OR ");
    if !blacklist && !match_any {
        if n == 1 {
            let mut tail = to_chars_lit(")");
            append_chars(&mut tail, &nl_exec(28));
            append_str(&mut tail, ")");
            let sel = alias_select_exec(t, &nl_exec(32), &q, &tail);
            let mut c: Vec<char> = Vec::new();
            append_str(&mut c, "game.id ");
            append_str(&mut c, op);
            append_str(&mut c, " (");
            append_chars(&mut c, &sel);
            assert(c@ =~= tagged_text(t@, q@, n as nat, blacklist, match_any));
            c
        } else {
            let mut tail = nl_exec(32);
            append_str(&mut tail, ")");
            let mut body = alias_select_exec(t, &nl_exec(36), &q, &tail);
            let mut part: Vec<char> = to_chars_lit(" AND gameId IN (");
            append_chars(&mut part, &nl_exec(36));
            let mut tail2 = nl_exec(36);
            append_str(&mut tail2, ")");
            append_chars(&mut part, &alias_select_exec(t, &nl_exec(40), &q, &tail2));
            append_chars(&mut part, &nl_exec(32));
            append_str(&mut part, ")");
            assert(part@ =~= and_tag_part(t@, q@));
            let ghost b0 = body@;
            let mut k: usize = 1;
            while k < n
                invariant
                    1 <= k <= n,
                    part@ == and_tag_part(t@, q@),
                    body@ =~= b0 + repeat(part@, (k - 1) as nat),
                decreases n - k,
            {
                append_chars(&mut body, &part);
                k = k + 1;
            }
            id_in_exec(op, &body)
        }
    } else if blacklist && !match_any {
        let cond = parens_exec(&j);
        let sel = alias_select_exec(t, &nl_exec(20), &cond, &to_chars_lit("))"));
        let mut c: Vec<char> = Vec::new();
        append_str(&mut c, "game.id ");
        append_str(&mut c, op);
        append_str(&mut c, " (");
        append_chars(&mut c, &sel);
        assert(c@ =~= tagged_text(t@, q@, n as nat, blacklist, match_any));
        c
    } else {
        let mut cond = to_chars_lit("name IN ");
        append_chars(&mut cond, &j);
        let sel = alias_select_exec(t, &nl_exec(20), &cond, &to_chars_lit("))"));
        let mut c: Vec<char> = Vec::new();
        append_str(&mut c, "game.id ");
        append_str(&mut c, op);
        append_str(&mut c, " (");
        append_chars(&mut c, &sel);
        assert(c@ =~= tagged_text(t@, q@, n as nat, blacklist, match_any));
        c
    }
}

/// The characters of a literal.
fn to_chars_lit(s: &str) -> (r: Vec<char>)
    ensures
        r@ == s@,
{
    crate::text::to_chars(s)
}

fn value_params_exec(vs: &Vec<String>, exact: bool) -> (r: Vec<SearchParam>)
    ensures
        params_view(r@) == value_params(vs.deep_view(), exact),
{
    let mut r: Vec<SearchParam> = Vec::new();
    let mut i: usize = 0;
    while i < vs.len()
        invariant
            i <= vs@.len(),
            params_view(r@) =~= value_params(vs.deep_view().take(i as int), exact),
        decreases vs.len() - i,
    {
        let ghost r0 = r@;
        let p = value_param_exec(&vs[i], exact);
        r.push(p);
        proof {
            assert(params_view(r@) =~= params_view(r0).push(param_view(p)));
            assert(vs.deep_view().take(i + 1) =~= vs.deep_view().take(i as int).push(vs@[i as int]@));
        }
        i = i + 1;
    }
    assert(vs.deep_view().take(vs@.len() as int) =~= vs.deep_view());
    r
}

fn add_tagged_clause(
    clauses: &mut Vec<Vec<char>>,
    params: &mut Vec<SearchParam>,
    t: &str,
    values: &Option<Vec<String>>,
    exact: bool,
    blacklist: bool,
    match_any: bool,
)
    requires
        tagged_ok(values.deep_view(), blacklist, match_any),
    ensures
        acc_of(final(clauses)@, final(params)@) == add_tagged_clause_spec(
            acc_of(old(clauses)@, old(params)@),
            t@,
            values.deep_view(),
            exact,
            blacklist,
            match_any,
        ),
{
    match values {
        None => {},
        Some(vs) => {
            if exact && match_any {
                let mut ps: Vec<SearchParam> = Vec::new();
                ps.push(SearchParam::StringVec(crate::game::search::filter::clone_strings(vs)));
                let sel = alias_select_exec(t, &nl_exec(16), &to_chars_lit("name IN rarray(?)"), &to_chars_lit("))"));
                let mut c: Vec<char> = Vec::new();
                append_str(&mut c, "game.id ");
                append_str(&mut c, in_comparator_exec(blacklist));
                append_str(&mut c, " (");
                append_chars(&mut c, &sel);
                proof {
                    assert(params_view(ps@) =~= seq![ParamView::TextList(vs.deep_view())]);
                    assert(c@ =~= "game.id "@ + in_comparator(blacklist) + " ("@ + alias_select(
                        t@,
                        nl(16),
                        "name IN rarray(?)"@,
                        "))"@,
                    ));
                }
                push_clause(clauses, params, c, ps);
            } else {
                let ps = value_params_exec(vs, exact);
                let c = tagged_text_exec(t, exact, vs.len(), blacklist, match_any);
                push_clause(clauses, params, c, ps);
            }
        },
    }
}

// ---------------------------------------------------------------------------
// Titles, generic terms, and game data paths
// ---------------------------------------------------------------------------

pub open spec fn strs_views(fs: Seq<&str>) -> Seq<Seq<char>> {
    fs.map_values(|f: &str| f@)
}

/// Values bound for a matcher over `k` columns: each value `k` times.
pub open spec fn multi_params(vs: Seq<Seq<char>>, k: nat, exact: bool) -> Seq<ParamView>
    decreases vs.len(),
{
    if vs.len() == 0 {
        Seq::empty()
    } else {
        multi_params(vs.drop_last(), k, exact) + Seq::new(k, |i: int| value_param(vs.last(), exact))
    }
}

/// `(game.<f1> <op> ? OR game.<f2> <op> ? ...)`
pub open spec fn multi_value_clause(fields: Seq<Seq<char>>, op: Seq<char>) -> Seq<char> {
    parens(join(fields.map_values(|f: Seq<char>| field_clause(f, op)), " OR "@))
}

/// A text matcher over several columns, any of which may match: excluded
/// values make one clause, included values one clause each.
pub open spec fn add_multi_clause_spec(
    a: Acc,
    fields: Seq<Seq<char>>,
    values: Option<Seq<Seq<char>>>,
    exact: bool,
    blacklist: bool,
) -> Acc {
    match values {
        None => a,
        Some(vs) => {
            let one = multi_value_clause(fields, comparator(blacklist, exact));
            let ps = multi_params(vs, fields.len(), exact);
            if blacklist {
                acc_push(a, parens(join(copies(one, vs.len()), " OR "@)), ps)
            } else {
                Acc { clauses: a.clauses + copies(one, vs.len()), params: a.params + ps }
            }
        },
    }
}

fn multi_value_clause_exec(fields: &[&str], op: &str) -> (r: Vec<char>)
    ensures
        r@ == multi_value_clause(strs_views(fields@), op@),
{
    let mut parts: Vec<Vec<char>> = Vec::new();
    let mut i: usize = 0;
    while i < fields.len()
        invariant
            i <= fields@.len(),
            texts_view(parts@) =~= strs_views(fields@.take(i as int)).map_values(
                |f: Seq<char>| field_clause(f, op@),
            ),
        decreases fields.len() - i,
    {
        let ghost p0 = parts@;
        parts.push(field_clause_exec(fields[i], op));
        assert(texts_view(parts@) =~= texts_view(p0).push(field_clause(fields@[i as int]@, op@)));
        i = i + 1;
    }
    assert(fields@.take(fields@.len() as int) =~= fields@);
    let j = join_exec(&parts, " OR ");
    parens_exec(&j)
}

fn multi_params_exec(vs: &Vec<String>, k: usize, exact: bool) -> (r: Vec<SearchParam>)
    ensures
        params_view(r@) == multi_params(vs.deep_view(), k as nat, exact),
{
    let mut r: Vec<SearchParam> = Vec::new();
    let mut i: usize = 0;
    while i < vs.len()
        invariant
            i <= vs@.len(),
            params_view(r@) =~= multi_params(vs.deep_view().take(i as int), k as nat, exact),
        decreases vs.len() - i,
    {
        let ghost r0 = r@;
        let mut m: usize = 0;
        while m < k
            invariant
                i < vs@.len(),
                m <= k,
                params_view(r@) =~= params_view(r0) + Seq::new(m as nat, |x: int| value_param(vs@[i as int]@, exact)),
            decreases k - m,
        {
            let ghost r1 = r@;
            let p = value_param_exec(&vs[i], exact);
            r.push(p);
            assert(params_view(r@) =~= params_view(r1).push(param_view(p)));
            m = m + 1;
        }
        proof {
            let t = vs.deep_view().take(i + 1);
            assert(t.drop_last() =~= vs.deep_view().take(i as int));
            assert(t.last() == vs@[i as int]@);
        }
        i = i + 1;
    }
    assert(vs.deep_view().take(vs@.len() as int) =~= vs.deep_view());
    r
}

fn add_multi_clause(
    clauses: &mut Vec<Vec<char>>,
    params: &mut Vec<SearchParam>,
    fields: &[&str],
    values: &Option<Vec<String>>,
    exact: bool,
    blacklist: bool,
)
    ensures
        acc_of(final(clauses)@, final(params)@) == add_multi_clause_spec(
            acc_of(old(clauses)@, old(params)@),
            strs_views(fields@),
            values.deep_view(),
            exact,
            blacklist,
        ),
{
    match values {
        None => {},
        Some(vs) => {
            let one = multi_value_clause_exec(fields, comparator_exec(blacklist, exact));
            let ps = multi_params_exec(vs, fields.len(), exact);
            copies_clause(clauses, params, &one, vs.len(), ps, blacklist);
        },
    }
}

/// Appends `n` copies of `one` (as one clause joined by `OR` when
/// `joined`), and the values `ps`.
fn copies_clause(
    clauses: &mut Vec<Vec<char>>,
    params: &mut Vec<SearchParam>,
    one: &Vec<char>,
    n: usize,
    ps: Vec<SearchParam>,
    joined: bool,
)
    ensures
        joined ==> acc_of(final(clauses)@, final(params)@) == acc_push(
            acc_of(old(clauses)@, old(params)@),
            parens(join(copies(one@, n as nat), " OR "@)),
            params_view(ps@),
        ),
        !joined ==> acc_of(final(clauses)@, final(params)@) == (Acc {
            clauses: texts_view(old(clauses)@) + copies(one@, n as nat),
            params: params_view(old(params)@) + params_view(ps@),
        }),
{
    let mut inner: Vec<Vec<char>> = Vec::new();
    let mut i: usize = 0;
    while i < n
        invariant
            i <= n,
            texts_view(inner@) =~= copies(one@, i as nat),
        decreases n - i,
    {
        let ghost in0 = inner@;
        inner.push(copy_chars(one));
        assert(texts_view(inner@) =~= texts_view(in0).push(one@));
        i = i + 1;
    }
    if joined {
        let j = join_exec(&inner, " OR ");
        let c = parens_exec(&j);
        push_clause(clauses, params, c, ps);
    } else {
        let ghost c0 = clauses@;
        clauses.append(&mut inner);
        let mut ps = ps;
        let ghost all = ps@;
        params.append(&mut ps);
        proof {
            assert(texts_view(clauses@) =~= texts_view(c0) + copies(one@, n as nat));
            assert(params_view(params@) =~= params_view(old(params)@) + params_view(all));
        }
    }
}

/// `game.id IN (SELECT gameId FROM game_data WHERE <f> <op> ?)`
pub open spec fn game_data_clause(f: Seq<char>, op: Seq<char>) -> Seq<char> {
    "game.id IN (SELECT gameId FROM game_data WHERE "@ + f + " "@ + op + " ?)"@
}

/// A text matcher on a column that both the game and its game data have:
/// excluded values must miss both; an included value may hit either.
pub open spec fn add_joint_clause_spec(
    a: Acc,
    field: Seq<char>,
    game_field: Seq<char>,
    values: Option<Seq<Seq<char>>>,
    exact: bool,
    blacklist: bool,
) -> Acc {
    match values {
        None => a,
        Some(vs) => {
            let op = comparator(blacklist, exact);
            let c1 = field_clause(game_field, op);
            let c2 = game_data_clause(field, op);
            let ps = multi_params(vs, 2, exact);
            if blacklist {
                acc_push(a, parens(join(copies(parens(c1 + " AND "@ + c2), vs.len()), " OR "@)), ps)
            } else {
                Acc { clauses: a.clauses + copies(parens(c1 + " OR "@ + c2), vs.len()), params: a.params + ps }
            }
        },
    }
}

fn add_joint_clause(
    clauses: &mut Vec<Vec<char>>,
    params: &mut Vec<SearchParam>,
    field: &str,
    game_field: &str,
    values: &Option<Vec<String>>,
    exact: bool,
    blacklist: bool,
)
    ensures
        acc_of(final(clauses)@, final(params)@) == add_joint_clause_spec(
            acc_of(old(clauses)@, old(params)@),
            field@,
            game_field@,
            values.deep_view(),
            exact,
            blacklist,
        ),
{
    match values {
        None => {},
        Some(vs) => {
            let op = comparator_exec(blacklist, exact);
            let mut body = field_clause_exec(game_field, op);
            if blacklist {
                append_str(&mut body, " AND ");
            } else {
                append_str(&mut body, " OR ");
            }
            append_str(&mut body, "game.id IN (SELECT gameId FROM game_data WHERE ");
            append_str(&mut body, field);
            append_str(&mut body, " ");
            append_str(&mut body, op);
            append_str(&mut body, " ?)");
            let one = parens_exec(&body);
            proof {
                let c1 = field_clause(game_field@, op@);
                let c2 = game_data_clause(field@, op@);
                if blacklist {
                    assert(one@ =~= parens(c1 + " AND "@ + c2));
                } else {
                    assert(one@ =~= parens(c1 + " OR "@ + c2));
                }
            }
            let ps = multi_params_exec(vs, 2, exact);
            copies_clause(clauses, params, &one, vs.len(), ps, blacklist);
        },
    }
}

// ---------------------------------------------------------------------------
// Comparisons
// ---------------------------------------------------------------------------

pub open spec fn clause_view(o: Option<(Vec<char>, Vec<SearchParam>)>) -> Option<(Seq<char>, Seq<ParamView>)> {
    match o {
        Some((c, ps)) => Some((c@, params_view(ps@))),
        None => None,
    }
}

pub open spec fn acc_opt(a: Acc, o: Option<(Seq<char>, Seq<ParamView>)>) -> Acc {
    match o {
        Some((c, ps)) => acc_push(a, c, ps),
        None => a,
    }
}

fn push_opt(clauses: &mut Vec<Vec<char>>, params: &mut Vec<SearchParam>, o: Option<(Vec<char>, Vec<SearchParam>)>)
    ensures
        acc_of(final(clauses)@, final(params)@) == acc_opt(acc_of(old(clauses)@, old(params)@), clause_view(o)),
{
    match o {
        Some((c, ps)) => push_clause(clauses, params, c, ps),
        None => {},
    }
}

fn text_of(parts: &[&str]) -> (r: Vec<char>)
    ensures
        r@ == concat(strs_views(parts@)),
{
    let mut c: Vec<char> = Vec::new();
    let mut i: usize = 0;
    while i < parts.len()
        invariant
            i <= parts@.len(),
            c@ == concat(strs_views(parts@.take(i as int))),
        decreases parts.len() - i,
    {
        append_str(&mut c, parts[i]);
        proof {
            assert(strs_views(parts@.take(i + 1)).drop_last() =~= strs_views(parts@.take(i as int)));
        }
        i = i + 1;
    }
    assert(parts@.take(parts@.len() as int) =~= parts@);
    c
}

/// The pieces written one after the other.
pub open spec fn concat(parts: Seq<Seq<char>>) -> Seq<char>
    decreases parts.len(),
{
    if parts.len() == 0 {
        Seq::empty()
    } else {
        concat(parts.drop_last()) + parts.last()
    }
}

fn one_int(n: i64) -> (r: Vec<SearchParam>)
    ensures
        params_view(r@) == seq![ParamView::Integer(n)],
{
    let mut r: Vec<SearchParam> = Vec::new();
    r.push(SearchParam::Integer64(n));
    assert(params_view(r@) =~= seq![ParamView::Integer(n)]);
    r
}

fn one_text(s: String) -> (r: Vec<SearchParam>)
    ensures
        params_view(r@) == seq![ParamView::Text(s@)],
{
    let mut r: Vec<SearchParam> = Vec::new();
    r.push(SearchParam::String(s));
    assert(params_view(r@) =~= seq![ParamView::Text(s@)]);
    r
}

/// A count of tags (or platforms): zero means none (for `=`) or some (for
/// `>`); otherwise the count is compared by grouping.
pub open spec fn compare_tag_clause(f: Seq<char>, k: KeyChar, v: Option<i64>) -> Option<(Seq<char>, Seq<ParamView>)> {
    match v {
        None => None,
        Some(n) => if n == 0 {
            match k {
                KeyChar::EQUALS => Some(
                    (concat(seq!["game.id NOT IN (SELECT gameId FROM game_"@, f, "s_"@, f, ")"@]), Seq::empty()),
                ),
                KeyChar::HIGHER => Some(
                    (concat(seq!["game.id IN (SELECT gameId FROM game_"@, f, "s_"@, f, ")"@]), Seq::empty()),
                ),
                _ => None,
            }
        } else {
            let group = " GROUP BY gameId HAVING COUNT(gameId) "@;
            match k {
                KeyChar::LOWER => Some(
                    (
                        concat(seq!["game.id NOT IN (SELECT gameId FROM game_"@, f, "s_"@, f, group, ">= ?)"@]),
                        seq![ParamView::Integer(n)],
                    ),
                ),
                KeyChar::HIGHER => Some(
                    (
                        concat(seq!["game.id IN (SELECT gameId FROM game_"@, f, "s_"@, f, group, "> ?)"@]),
                        seq![ParamView::Integer(n)],
                    ),
                ),
                KeyChar::EQUALS => Some(
                    (
                        concat(seq!["game.id IN (SELECT gameId FROM game_"@, f, "s_"@, f, group, "= ?)"@]),
                        seq![ParamView::Integer(n)],
                    ),
                ),
                KeyChar::MATCHES => None,
            }
        },
    }
}

fn compare_tag_clause_exec(f: &str, k: KeyChar, v: &Option<i64>) -> (r: Option<(Vec<char>, Vec<SearchParam>)>)
    ensures
        clause_view(r) == compare_tag_clause(f@, k, *v),
{
    match v {
        None => None,
        Some(n) => {
            let n = *n;
            if n == 0 {
                match k {
                    KeyChar::EQUALS => {
                        let p = ["game.id NOT IN (SELECT gameId FROM game_", f, "s_", f, ")"];
                        assert(strs_views(p@) =~= seq!["game.id NOT IN (SELECT gameId FROM game_"@, f@, "s_"@, f@, ")"@]);
                        Some((text_of(&p), Vec::new()))
                    },
                    KeyChar::HIGHER => {
                        let p = ["game.id IN (SELECT gameId FROM game_", f, "s_", f, ")"];
                        assert(strs_views(p@) =~= seq!["game.id IN (SELECT gameId FROM game_"@, f@, "s_"@, f@, ")"@]);
                        Some((text_of(&p), Vec::new()))
                    },
                    _ => None,
                }
            } else {
                let group = " GROUP BY gameId HAVING COUNT(gameId) ";
                match k {
                    KeyChar::LOWER => {
                        let p = ["game.id NOT IN (SELECT gameId FROM game_", f, "s_", f, group, ">= ?)"];
                        assert(strs_views(p@) =~= seq!["game.id NOT IN (SELECT gameId FROM game_"@, f@, "s_"@, f@, group@, ">= ?)"@]);
                        Some((text_of(&p), one_int(n)))
                    },
                    KeyChar::HIGHER => {
                        let p = ["game.id IN (SELECT gameId FROM game_", f, "s_", f, group, "> ?)"];
                        assert(strs_views(p@) =~= seq!["game.id IN (SELECT gameId FROM game_"@, f@, "s_"@, f@, group@, "> ?)"@]);
                        Some((text_of(&p), one_int(n)))
                    },
                    KeyChar::EQUALS => {
                        let p = ["game.id IN (SELECT gameId FROM game_", f, "s_", f, group, "= ?)"];
                        assert(strs_views(p@) =~= seq!["game.id IN (SELECT gameId FROM game_"@, f@, "s_"@, f@, group@, "= ?)"@]);
                        Some((text_of(&p), one_int(n)))
                    },
                    KeyChar::MATCHES => None,
                }
            }
        },
    }
}

/// A count of rows in `table` (keyed by `column`) per game, for additional
/// applications (zero as the boundary) and game data (zero or less as the
/// boundary).
pub open spec fn compare_rows_clause(
    table: Seq<char>,
    column: Seq<char>,
    k: KeyChar,
    v: Option<i64>,
    zero_or_less: bool,
) -> Option<(Seq<char>, Seq<ParamView>)> {
    match v {
        None => None,
        Some(n) => if (zero_or_less && n <= 0) || (!zero_or_less && n == 0) {
            match k {
                KeyChar::EQUALS => Some(
                    (concat(seq!["game.id NOT IN (SELECT "@, column, " FROM "@, table, ")"@]), Seq::empty()),
                ),
                KeyChar::HIGHER => Some((concat(seq!["game.id IN (SELECT "@, column, " FROM "@, table, ")"@]), Seq::empty())),
                _ => None,
            }
        } else {
            let group = concat(seq![" GROUP BY "@, column, " HAVING COUNT("@, column, ") "@]);
            match k {
                KeyChar::LOWER => Some(
                    (
                        concat(seq!["game.id NOT IN (SELECT "@, column, " FROM "@, table, group, ">= ?)"@]),
                        seq![ParamView::Integer(n)],
                    ),
                ),
                KeyChar::HIGHER => Some(
                    (
                        concat(seq!["game.id IN (SELECT "@, column, " FROM "@, table, group, "> ?)"@]),
                        seq![ParamView::Integer(n)],
                    ),
                ),
                KeyChar::EQUALS => Some(
                    (
                        concat(seq!["game.id IN (SELECT "@, column, " FROM "@, table, group, "= ?)"@]),
                        seq![ParamView::Integer(n)],
                    ),
                ),
                KeyChar::MATCHES => None,
            }
        },
    }
}

fn compare_rows_clause_exec(
    table: &str,
    column: &str,
    k: KeyChar,
    v: &Option<i64>,
    zero_or_less: bool,
) -> (r: Option<(Vec<char>, Vec<SearchParam>)>)
    ensures
        clause_view(r) == compare_rows_clause(table@, column@, k, *v, zero_or_less),
{
    match v {
        None => None,
        Some(n) => {
            let n = *n;
            if (zero_or_less && n <= 0) || (!zero_or_less && n == 0) {
                match k {
                    KeyChar::EQUALS => {
                        let p = ["game.id NOT IN (SELECT ", column, " FROM ", table, ")"];
                        assert(strs_views(p@) =~= seq!["game.id NOT IN (SELECT "@, column@, " FROM "@, table@, ")"@]);
                        Some((text_of(&p), Vec::new()))
                    },
                    KeyChar::HIGHER => {
                        let p = ["game.id IN (SELECT ", column, " FROM ", table, ")"];
                        assert(strs_views(p@) =~= seq!["game.id IN (SELECT "@, column@, " FROM "@, table@, ")"@]);
                        Some((text_of(&p), Vec::new()))
                    },
                    _ => None,
                }
            } else {
                let g = [" GROUP BY ", column, " HAVING COUNT(", column, ") "];
                assert(strs_views(g@) =~= seq![" GROUP BY "@, column@, " HAVING COUNT("@, column@, ") "@]);
                let group = text_of(&g);
                let head = match k {
                    KeyChar::LOWER => "game.id NOT IN (SELECT ",
                    _ => "game.id IN (SELECT ",
                };
                let tail = match k {
                    KeyChar::LOWER => ">= ?)",
                    KeyChar::HIGHER => "> ?)",
                    _ => "= ?)",
                };
                let p = [head, column, " FROM ", table];
                assert(strs_views(p@) =~= seq![head@, column@, " FROM "@, table@]);
                let mut c = text_of(&p);
                append_chars(&mut c, &group);
                append_str(&mut c, tail);
                match k {
                    KeyChar::MATCHES => None,
                    _ => {
                        proof {
                            let s6 = seq![head@, column@, " FROM "@, table@, group@, tail@];
                            let s5 = seq![head@, column@, " FROM "@, table@, group@];
                            let s4 = seq![head@, column@, " FROM "@, table@];
                            assert(s6.drop_last() =~= s5);
                            assert(s5.drop_last() =~= s4);
                            assert(concat(s5) == concat(s4) + group@);
                            assert(concat(s6) == concat(s5) + tail@);
                            assert(c@ =~= concat(s6));
                        }
                        Some((c, one_int(n)))
                    },
                }
            }
        },
    }
}

/// A date column compared as a date (or, with `as_text`, as text): `=`
/// matches dates that start with the value.
pub open spec fn compare_date_clause(f: Seq<char>, k: KeyChar, v: Option<Seq<char>>, as_text: bool) -> Option<
    (Seq<char>, Seq<ParamView>),
> {
    let col = if as_text {
        "game."@ + f
    } else {
        "date(game."@ + f + ")"@
    };
    match v {
        None => None,
        Some(d) => match k {
            KeyChar::MATCHES => None,
            KeyChar::LOWER => Some((col + " < ?"@, seq![ParamView::Text(d)])),
            KeyChar::HIGHER => Some((col + " >= ?"@, seq![ParamView::Text(d)])),
            KeyChar::EQUALS => Some((col + " LIKE ?"@, seq![ParamView::Text(d + "%"@)])),
        },
    }
}

fn compare_date_clause_exec(f: &str, k: KeyChar, v: &Option<String>, as_text: bool) -> (r: Option<
    (Vec<char>, Vec<SearchParam>),
>)
    ensures
        clause_view(r) == compare_date_clause(f@, k, crate::game::search::filter::str_view(*v), as_text),
{
    match v {
        None => None,
        Some(d) => {
            let mut col: Vec<char> = Vec::new();
            if as_text {
                append_str(&mut col, "game.");
                append_str(&mut col, f);
            } else {
                append_str(&mut col, "date(game.");
                append_str(&mut col, f);
                append_str(&mut col, ")");
            }
            match k {
                KeyChar::MATCHES => None,
                KeyChar::LOWER => {
                    append_str(&mut col, " < ?");
                    Some((col, one_text(d.clone())))
                },
                KeyChar::HIGHER => {
                    append_str(&mut col, " >= ?");
                    Some((col, one_text(d.clone())))
                },
                KeyChar::EQUALS => {
                    append_str(&mut col, " LIKE ?");
                    let mut p: Vec<char> = crate::text::to_chars(d.as_str());
                    append_str(&mut p, "%");
                    Some((col, one_text(crate::text::string_of(&p))))
                },
            }
        },
    }
}

/// A counter column compared with a number.
pub open spec fn compare_counter_clause(f: Seq<char>, k: KeyChar, v: Option<i64>) -> Option<(Seq<char>, Seq<ParamView>)> {
    match v {
        None => None,
        Some(n) => match k {
            KeyChar::MATCHES => None,
            KeyChar::LOWER => Some(("game."@ + f + " < ?"@, seq![ParamView::Integer(n)])),
            KeyChar::HIGHER => Some(("game."@ + f + " > ?"@, seq![ParamView::Integer(n)])),
            KeyChar::EQUALS => Some(("game."@ + f + " = ?"@, seq![ParamView::Integer(n)])),
        },
    }
}

fn compare_counter_clause_exec(f: &str, k: KeyChar, v: &Option<i64>) -> (r: Option<(Vec<char>, Vec<SearchParam>)>)
    ensures
        clause_view(r) == compare_counter_clause(f@, k, *v),
{
    match v {
        None => None,
        Some(n) => {
            let tail = match k {
                KeyChar::LOWER => " < ?",
                KeyChar::HIGHER => " > ?",
                _ => " = ?",
            };
            let mut c: Vec<char> = Vec::new();
            append_str(&mut c, "game.");
            append_str(&mut c, f);
            append_str(&mut c, tail);
            match k {
                KeyChar::MATCHES => None,
                _ => Some((c, one_int(*n))),
            }
        },
    }
}

// ---------------------------------------------------------------------------
// Extension data
// ---------------------------------------------------------------------------

/// The `(extension id, key, value)` entries of a two-level map, in order.
pub open spec fn flat_entries<V>(m: Seq<(Seq<char>, Seq<(Seq<char>, V)>)>) -> Seq<(Seq<char>, Seq<char>, V)>
    decreases m.len(),
{
    if m.len() == 0 {
        Seq::empty()
    } else {
        let last = m.last();
        flat_entries(m.drop_last()) + last.1.map_values(|p: (Seq<char>, V)| (last.0, p.0, p.1))
    }
}

/// One entry per value of the lists of a map of value lists.
pub open spec fn flat_values(es: Seq<(Seq<char>, Seq<char>, Seq<Seq<char>>)>) -> Seq<(Seq<char>, Seq<char>, Seq<char>)>
    decreases es.len(),
{
    if es.len() == 0 {
        Seq::empty()
    } else {
        let e = es.last();
        flat_values(es.drop_last()) + e.2.map_values(|v: Seq<char>| (e.0, e.1, v))
    }
}

fn flat_entries_strs(m: &Vec<(String, Vec<(String, Vec<String>)>)>) -> (r: Vec<(String, String, Vec<String>)>)
    ensures
        r.deep_view() == flat_entries(m.deep_view()),
{
    let mut r: Vec<(String, String, Vec<String>)> = Vec::new();
    let mut i: usize = 0;
    while i < m.len()
        invariant
            i <= m@.len(),
            r.deep_view() =~= flat_entries(m.deep_view().take(i as int)),
        decreases m.len() - i,
    {
        let id = &m[i].0;
        let inner = &m[i].1;
        let ghost r0 = r.deep_view();
        let mut j: usize = 0;
        while j < inner.len()
            invariant
                i < m@.len(),
                inner == m@[i as int].1,
                id == m@[i as int].0,
                j <= inner@.len(),
                r.deep_view() =~= r0 + inner.deep_view().take(j as int).map_values(
                    |p: (Seq<char>, Seq<Seq<char>>)| (id@, p.0, p.1),
                ),
            decreases inner.len() - j,
        {
            let ghost r1 = r.deep_view();
            let e = (id.clone(), inner[j].0.clone(), crate::game::search::filter::clone_strings(&inner[j].1));
            r.push(e);
            proof {
                assert(r.deep_view() =~= r1.push(e.deep_view()));
                assert(inner.deep_view().take(j + 1) =~= inner.deep_view().take(j as int).push(inner.deep_view()[j as int]));
            }
            j = j + 1;
        }
        proof {
            let t = m.deep_view().take(i + 1);
            assert(t.drop_last() =~= m.deep_view().take(i as int));
            assert(inner.deep_view().take(inner@.len() as int) =~= inner.deep_view());
        }
        i = i + 1;
    }
    assert(m.deep_view().take(m@.len() as int) =~= m.deep_view());
    r
}

fn flat_entries_copy<V: Copy + DeepView>(m: &Vec<(String, Vec<(String, V)>)>) -> (r: Vec<(String, String, V)>)
    ensures
        r.deep_view() == flat_entries(m.deep_view()),
{
    let mut r: Vec<(String, String, V)> = Vec::new();
    let mut i: usize = 0;
    while i < m.len()
        invariant
            i <= m@.len(),
            r.deep_view() =~= flat_entries(m.deep_view().take(i as int)),
        decreases m.len() - i,
    {
        let id = &m[i].0;
        let inner = &m[i].1;
        let ghost r0 = r.deep_view();
        let mut j: usize = 0;
        while j < inner.len()
            invariant
                i < m@.len(),
                inner == m@[i as int].1,
                id == m@[i as int].0,
                j <= inner@.len(),
                r.deep_view() =~= r0 + inner.deep_view().take(j as int).map_values(
                    |p: (Seq<char>, V::V)| (id@, p.0, p.1),
                ),
            decreases inner.len() - j,
        {
            let ghost r1 = r.deep_view();
            let e = (id.clone(), inner[j].0.clone(), inner[j].1);
            r.push(e);
            proof {
                assert(r.deep_view() =~= r1.push(e.deep_view()));
                assert(inner.deep_view().take(j + 1) =~= inner.deep_view().take(j as int).push(inner.deep_view()[j as int]));
            }
            j = j + 1;
        }
        proof {
            let t = m.deep_view().take(i + 1);
            assert(t.drop_last() =~= m.deep_view().take(i as int));
            assert(inner.deep_view().take(inner@.len() as int) =~= inner.deep_view());
        }
        i = i + 1;
    }
    assert(m.deep_view().take(m@.len() as int) =~= m.deep_view());
    r
}

fn flat_values_exec(es: &Vec<(String, String, Vec<String>)>) -> (r: Vec<(String, String, String)>)
    ensures
        r.deep_view() == flat_values(es.deep_view()),
{
    let mut r: Vec<(String, String, String)> = Vec::new();
    let mut i: usize = 0;
    while i < es.len()
        invariant
            i <= es@.len(),
            r.deep_view() =~= flat_values(es.deep_view().take(i as int)),
        decreases es.len() - i,
    {
        let e = &es[i];
        let ghost r0 = r.deep_view();
        let mut j: usize = 0;
        while j < e.2.len()
            invariant
                i < es@.len(),
                *e == es@[i as int],
                j <= e.2@.len(),
                r.deep_view() =~= r0 + e.2.deep_view().take(j as int).map_values(|v: Seq<char>| (e.0@, e.1@, v)),
            decreases e.2.len() - j,
        {
            let ghost r1 = r.deep_view();
            let x = (e.0.clone(), e.1.clone(), e.2[j].clone());
            r.push(x);
            proof {
                assert(r.deep_view() =~= r1.push(x.deep_view()));
                assert(e.2.deep_view().take(j + 1) =~= e.2.deep_view().take(j as int).push(e.2.deep_view()[j as int]));
            }
            j = j + 1;
        }
        proof {
            let t = es.deep_view().take(i + 1);
            assert(t.drop_last() =~= es.deep_view().take(i as int));
            assert(e.2.deep_view().take(e.2@.len() as int) =~= e.2.deep_view());
        }
        i = i + 1;
    }
    assert(es.deep_view().take(es@.len() as int) =~= es.deep_view());
    r
}

/// `game.id <neg>IN (SELECT gameId FROM ext_data WHERE extId = ? AND
/// JSON_EXTRACT(data, '$.<key>') <op> <rhs>)`
pub open spec fn ext_clause(neg: bool, key: Seq<char>, op: Seq<char>, rhs: Seq<char>) -> Seq<char> {
    (if neg {
        "game.id NOT IN"@
    } else {
        "game.id IN"@
    }) + " (SELECT gameId FROM ext_data WHERE extId = ? AND JSON_EXTRACT(data, '$."@ + key + "') "@ + op + " "@
        + rhs + ")"@
}

fn ext_clause_exec(neg: bool, key: &String, op: &str, rhs: &str) -> (r: Vec<char>)
    ensures
        r@ == ext_clause(neg, key@, op@, rhs@),
{
    let mut c: Vec<char> = Vec::new();
    if neg {
        append_str(&mut c, "game.id NOT IN");
    } else {
        append_str(&mut c, "game.id IN");
    }
    append_str(&mut c, " (SELECT gameId FROM ext_data WHERE extId = ? AND JSON_EXTRACT(data, '$.");
    append_str(&mut c, key.as_str());
    append_str(&mut c, "') ");
    append_str(&mut c, op);
    append_str(&mut c, " ");
    append_str(&mut c, rhs);
    append_str(&mut c, ")");
    assert(c@ =~= ext_clause(neg, key@, op@, rhs@));
    c
}

/// Extension text matchers: with `match_any`, exact values as one list per
/// key; otherwise one comparison per value, `AND`-ed together into one
/// clause when excluded.
pub open spec fn ext_add_clause_spec(
    a: Acc,
    values: Option<Seq<(Seq<char>, Seq<(Seq<char>, Seq<Seq<char>>)>)>>,
    exact: bool,
    blacklist: bool,
    match_any: bool,
) -> Acc {
    match values {
        None => a,
        Some(m) => {
            let es = flat_entries(m);
            if exact && match_any {
                Acc {
                    clauses: a.clauses + es.map_values(
                        |e: (Seq<char>, Seq<char>, Seq<Seq<char>>)| ext_clause(false, e.1, in_comparator(blacklist), "rarray(?)"@),
                    ),
                    params: a.params + ext_list_params(es),
                }
            } else {
                let vs = flat_values(es);
                let cs = vs.map_values(
                    |e: (Seq<char>, Seq<char>, Seq<char>)| ext_clause(false, e.1, comparator(blacklist, exact), "?"@),
                );
                let ps = ext_value_params(vs, exact);
                if blacklist {
                    acc_push(a, parens(join(cs, " AND "@)), ps)
                } else {
                    Acc { clauses: a.clauses + cs, params: a.params + ps }
                }
            }
        },
    }
}

pub open spec fn ext_list_params(es: Seq<(Seq<char>, Seq<char>, Seq<Seq<char>>)>) -> Seq<ParamView>
    decreases es.len(),
{
    if es.len() == 0 {
        Seq::empty()
    } else {
        ext_list_params(es.drop_last()) + seq![ParamView::Text(es.last().0), ParamView::TextList(es.last().2)]
    }
}

pub open spec fn ext_value_params(vs: Seq<(Seq<char>, Seq<char>, Seq<char>)>, exact: bool) -> Seq<ParamView>
    decreases vs.len(),
{
    if vs.len() == 0 {
        Seq::empty()
    } else {
        ext_value_params(vs.drop_last(), exact) + seq![ParamView::Text(vs.last().0), value_param(vs.last().2, exact)]
    }
}

fn ext_add_clause(
    clauses: &mut Vec<Vec<char>>,
    params: &mut Vec<SearchParam>,
    values: &Option<crate::game::search::ExtStrings>,
    exact: bool,
    blacklist: bool,
    match_any: bool,
)
    ensures
        acc_of(final(clauses)@, final(params)@) == ext_add_clause_spec(
            acc_of(old(clauses)@, old(params)@),
            values.deep_view(),
            exact,
            blacklist,
            match_any,
        ),
{
    match values {
        None => {},
        Some(m) => {
            let es = flat_entries_strs(m);
            let ghost a0 = acc_of(clauses@, params@);
            if exact && match_any {
                let op = in_comparator_exec(blacklist);
                let mut i: usize = 0;
                while i < es.len()
                    invariant
                        i <= es@.len(),
                        op@ == in_comparator(blacklist),
                        acc_of(clauses@, params@) == (Acc {
                            clauses: a0.clauses + es.deep_view().take(i as int).map_values(
                                |e: (Seq<char>, Seq<char>, Seq<Seq<char>>)| ext_clause(false, e.1, op@, "rarray(?)"@),
                            ),
                            params: a0.params + ext_list_params(es.deep_view().take(i as int)),
                        }),
                    decreases es.len() - i,
                {
                    let c = ext_clause_exec(false, &es[i].1, op, "rarray(?)");
                    let mut ps: Vec<SearchParam> = Vec::new();
                    ps.push(SearchParam::String(es[i].0.clone()));
                    ps.push(SearchParam::StringVec(crate::game::search::filter::clone_strings(&es[i].2)));
                    let ghost before = acc_of(clauses@, params@);
                    push_clause(clauses, params, c, ps);
                    proof {
                        let t = es.deep_view().take(i + 1);
                        assert(t.drop_last() =~= es.deep_view().take(i as int));
                        assert(params_view(ps@) =~= seq![ParamView::Text(t.last().0), ParamView::TextList(t.last().2)]);
                        assert(acc_of(clauses@, params@) =~= (Acc {
                            clauses: a0.clauses + t.map_values(
                                |e: (Seq<char>, Seq<char>, Seq<Seq<char>>)| ext_clause(false, e.1, op@, "rarray(?)"@),
                            ),
                            params: a0.params + ext_list_params(t),
                        }));
                    }
                    i = i + 1;
                }
                assert(es.deep_view().take(es@.len() as int) =~= es.deep_view());
            } else {
                let vs = flat_values_exec(&es);
                let op = comparator_exec(blacklist, exact);
                let mut inner: Vec<Vec<char>> = Vec::new();
                let mut ps: Vec<SearchParam> = Vec::new();
                let mut i: usize = 0;
                while i < vs.len()
                    invariant
                        i <= vs@.len(),
                        op@ == comparator(blacklist, exact),
                        texts_view(inner@) =~= vs.deep_view().take(i as int).map_values(
                            |e: (Seq<char>, Seq<char>, Seq<char>)| ext_clause(false, e.1, op@, "?"@),
                        ),
                        params_view(ps@) =~= ext_value_params(vs.deep_view().take(i as int), exact),
                    decreases vs.len() - i,
                {
                    let ghost in0 = inner@;
                    let ghost ps0 = ps@;
                    let c = ext_clause_exec(false, &vs[i].1, op, "?");
                    inner.push(c);
                    let p0 = SearchParam::String(vs[i].0.clone());
                    let p1 = value_param_exec(&vs[i].2, exact);
                    ps.push(p0);
                    ps.push(p1);
                    proof {
                        let t = vs.deep_view().take(i + 1);
                        assert(t.drop_last() =~= vs.deep_view().take(i as int));
                        assert(texts_view(inner@) =~= texts_view(in0).push(c@));
                        assert(params_view(ps@) =~= params_view(ps0) + seq![param_view(p0), param_view(p1)]);
                        assert(t.map_values(|e: (Seq<char>, Seq<char>, Seq<char>)| ext_clause(false, e.1, op@, "?"@))
                            =~= vs.deep_view().take(i as int).map_values(
                            |e: (Seq<char>, Seq<char>, Seq<char>)| ext_clause(false, e.1, op@, "?"@),
                        ).push(c@));
                    }
                    i = i + 1;
                }
                assert(vs.deep_view().take(vs@.len() as int) =~= vs.deep_view());
                if blacklist {
                    let j = join_exec(&inner, " AND ");
                    let c = parens_exec(&j);
                    push_clause(clauses, params, c, ps);
                } else {
                    let ghost c0 = clauses@;
                    let ghost all = ps@;
                    clauses.append(&mut inner);
                    params.append(&mut ps);
                    proof {
                        assert(texts_view(clauses@) =~= texts_view(c0) + vs.deep_view().map_values(
                            |e: (Seq<char>, Seq<char>, Seq<char>)| ext_clause(false, e.1, op@, "?"@),
                        ));
                        assert(params_view(params@) =~= a0.params + params_view(all));
                    }
                }
            }
        },
    }
}

/// Extension numbers: `=` (or `:`), `<` as "not at least", `>`.
pub open spec fn ext_compare_clause(k: KeyChar, key: Seq<char>) -> Seq<char> {
    match k {
        KeyChar::LOWER => ext_clause(true, key, ">="@, "?"@),
        KeyChar::HIGHER => ext_clause(false, key, ">"@, "?"@),
        _ => ext_clause(false, key, "="@, "?"@),
    }
}

pub open spec fn ext_compare_spec(a: Acc, k: KeyChar, values: Option<Seq<(Seq<char>, Seq<(Seq<char>, i64)>)>>) -> Acc {
    match values {
        None => a,
        Some(m) => {
            let es = flat_entries(m);
            Acc {
                clauses: a.clauses + es.map_values(|e: (Seq<char>, Seq<char>, i64)| ext_compare_clause(k, e.1)),
                params: a.params + ext_scalar_params(es.map_values(|e: (Seq<char>, Seq<char>, i64)| (e.0, ParamView::Integer(e.2)))),
            }
        },
    }
}

/// Each entry's extension id, then its value.
pub open spec fn ext_scalar_params(es: Seq<(Seq<char>, ParamView)>) -> Seq<ParamView>
    decreases es.len(),
{
    if es.len() == 0 {
        Seq::empty()
    } else {
        ext_scalar_params(es.drop_last()) + seq![ParamView::Text(es.last().0), es.last().1]
    }
}

pub open spec fn ext_bools_spec(a: Acc, values: Option<Seq<(Seq<char>, Seq<(Seq<char>, bool)>)>>) -> Acc {
    match values {
        None => a,
        Some(m) => {
            let es = flat_entries(m);
            Acc {
                clauses: a.clauses + es.map_values(|e: (Seq<char>, Seq<char>, bool)| ext_clause(false, e.1, "="@, "?"@)),
                params: a.params + ext_scalar_params(es.map_values(|e: (Seq<char>, Seq<char>, bool)| (e.0, ParamView::Boolean(e.2)))),
            }
        },
    }
}

fn ext_compare(
    clauses: &mut Vec<Vec<char>>,
    params: &mut Vec<SearchParam>,
    k: KeyChar,
    values: &Option<crate::game::search::ExtNumbers>,
)
    ensures
        acc_of(final(clauses)@, final(params)@) == ext_compare_spec(acc_of(old(clauses)@, old(params)@), k, values.deep_view()),
{
    match values {
        None => {},
        Some(m) => {
            let es = flat_entries_copy(m);
            let ghost a0 = acc_of(clauses@, params@);
            let ghost f = |e: (Seq<char>, Seq<char>, i64)| ext_compare_clause(k, e.1);
            let ghost g = |e: (Seq<char>, Seq<char>, i64)| (e.0, ParamView::Integer(e.2));
            let mut i: usize = 0;
            while i < es.len()
                invariant
                    i <= es@.len(),
                    f == (|e: (Seq<char>, Seq<char>, i64)| ext_compare_clause(k, e.1)),
                    g == (|e: (Seq<char>, Seq<char>, i64)| (e.0, ParamView::Integer(e.2))),
                    acc_of(clauses@, params@) == (Acc {
                        clauses: a0.clauses + es.deep_view().take(i as int).map_values(f),
                        params: a0.params + ext_scalar_params(es.deep_view().take(i as int).map_values(g)),
                    }),
                decreases es.len() - i,
            {
                let c = match k {
                    KeyChar::LOWER => ext_clause_exec(true, &es[i].1, ">=", "?"),
                    KeyChar::HIGHER => ext_clause_exec(false, &es[i].1, ">", "?"),
                    _ => ext_clause_exec(false, &es[i].1, "=", "?"),
                };
                let mut ps: Vec<SearchParam> = Vec::new();
                ps.push(SearchParam::String(es[i].0.clone()));
                ps.push(SearchParam::Integer64(es[i].2));
                push_clause(clauses, params, c, ps);
                proof {
                    let t = es.deep_view().take(i + 1);
                    assert(t.drop_last() =~= es.deep_view().take(i as int));
                    assert(t.map_values(f) =~= es.deep_view().take(i as int).map_values(f).push(c@));
                    assert(t.map_values(g).drop_last() =~= es.deep_view().take(i as int).map_values(g));
                    assert(params_view(ps@) =~= seq![ParamView::Text(t.last().0), ParamView::Integer(t.last().2)]);
                }
                i = i + 1;
            }
            assert(es.deep_view().take(es@.len() as int) =~= es.deep_view());
        },
    }
}

fn ext_bools(
    clauses: &mut Vec<Vec<char>>,
    params: &mut Vec<SearchParam>,
    values: &Option<crate::game::search::ExtBools>,
)
    ensures
        acc_of(final(clauses)@, final(params)@) == ext_bools_spec(acc_of(old(clauses)@, old(params)@), values.deep_view()),
{
    match values {
        None => {},
        Some(m) => {
            let es = flat_entries_copy(m);
            let ghost a0 = acc_of(clauses@, params@);
            let ghost f = |e: (Seq<char>, Seq<char>, bool)| ext_clause(false, e.1, "="@, "?"@);
            let ghost g = |e: (Seq<char>, Seq<char>, bool)| (e.0, ParamView::Boolean(e.2));
            let mut i: usize = 0;
            while i < es.len()
                invariant
                    i <= es@.len(),
                    f == (|e: (Seq<char>, Seq<char>, bool)| ext_clause(false, e.1, "="@, "?"@)),
                    g == (|e: (Seq<char>, Seq<char>, bool)| (e.0, ParamView::Boolean(e.2))),
                    acc_of(clauses@, params@) == (Acc {
                        clauses: a0.clauses + es.deep_view().take(i as int).map_values(f),
                        params: a0.params + ext_scalar_params(es.deep_view().take(i as int).map_values(g)),
                    }),
                decreases es.len() - i,
            {
                let c = ext_clause_exec(false, &es[i].1, "=", "?");
                let mut ps: Vec<SearchParam> = Vec::new();
                ps.push(SearchParam::String(es[i].0.clone()));
                ps.push(SearchParam::Boolean(es[i].2));
                push_clause(clauses, params, c, ps);
                proof {
                    let t = es.deep_view().take(i + 1);
                    assert(t.drop_last() =~= es.deep_view().take(i as int));
                    assert(t.map_values(f) =~= es.deep_view().take(i as int).map_values(f).push(c@));
                    assert(t.map_values(g).drop_last() =~= es.deep_view().take(i as int).map_values(g));
                    assert(params_view(ps@) =~= seq![ParamView::Text(t.last().0), ParamView::Boolean(t.last().2)]);
                }
                i = i + 1;
            }
            assert(es.deep_view().take(es@.len() as int) =~= es.deep_view());
        },
    }
}

// ---------------------------------------------------------------------------
// A whole filter
// ---------------------------------------------------------------------------

/// The text matchers of one list on the plain game columns.
#[verifier::opaque]
pub open spec fn field_lists_spec(a: Acc, l: FieldFilter, exact: bool, blacklist: bool, match_any: bool) -> Acc {
    let a0 = add_clause_spec(a, "library"@, l.library.deep_view(), exact, blacklist, match_any);
    let a1 = add_clause_spec(a0, "developer"@, l.developer.deep_view(), exact, blacklist, match_any);
    let a2 = add_clause_spec(a1, "publisher"@, l.publisher.deep_view(), exact, blacklist, match_any);
    let a3 = add_clause_spec(a2, "series"@, l.series.deep_view(), exact, blacklist, match_any);
    let a4 = add_clause_spec(a3, "playMode"@, l.play_mode.deep_view(), exact, blacklist, match_any);
    let a5 = add_clause_spec(a4, "status"@, l.status.deep_view(), exact, blacklist, match_any);
    let a6 = add_clause_spec(a5, "notes"@, l.notes.deep_view(), exact, blacklist, match_any);
    let a7 = add_clause_spec(a6, "source"@, l.source.deep_view(), exact, blacklist, match_any);
    let a8 = add_clause_spec(a7, "originalDescription"@, l.original_description.deep_view(), exact, blacklist, match_any);
    let a9 = add_clause_spec(a8, "language"@, l.language.deep_view(), exact, blacklist, match_any);
    let a10 = add_clause_spec(a9, "ruffleSupport"@, l.ruffle_support.deep_view(), exact, blacklist, match_any);
    a10
}

fn field_lists(
    clauses: &mut Vec<Vec<char>>,
    params: &mut Vec<SearchParam>,
    l: &FieldFilter,
    exact: bool,
    blacklist: bool,
    match_any: bool,
)
    ensures
        acc_of(final(clauses)@, final(params)@) == field_lists_spec(
            acc_of(old(clauses)@, old(params)@),
            *l,
            exact,
            blacklist,
            match_any,
        ),
{
    reveal(field_lists_spec);
    add_clause(clauses, params, "library", &l.library, exact, blacklist, match_any);
    add_clause(clauses, params, "developer", &l.developer, exact, blacklist, match_any);
    add_clause(clauses, params, "publisher", &l.publisher, exact, blacklist, match_any);
    add_clause(clauses, params, "series", &l.series, exact, blacklist, match_any);
    add_clause(clauses, params, "playMode", &l.play_mode, exact, blacklist, match_any);
    add_clause(clauses, params, "status", &l.status, exact, blacklist, match_any);
    add_clause(clauses, params, "notes", &l.notes, exact, blacklist, match_any);
    add_clause(clauses, params, "source", &l.source, exact, blacklist, match_any);
    add_clause(clauses, params, "originalDescription", &l.original_description, exact, blacklist, match_any);
    add_clause(clauses, params, "language", &l.language, exact, blacklist, match_any);
    add_clause(clauses, params, "ruffleSupport", &l.ruffle_support, exact, blacklist, match_any);
}

/// Text matchers on plain columns, then game ids. The blacklist of inexact
/// ids is matched like a whitelist, with `LIKE`: it selects the games, it
/// does not exclude them. This is a known quirk, kept on purpose: that
/// list's clause is built with the whitelist's flags.
#[verifier::opaque]
pub open spec fn stage_columns(a: Acc, f: GameFilter) -> Acc {
    let m = f.match_any;
    let a1 = field_lists_spec(a, f.exact_whitelist, true, false, m);
    let a2 = field_lists_spec(a1, f.exact_blacklist, true, true, m);
    let a3 = field_lists_spec(a2, f.whitelist, false, false, m);
    let a4 = field_lists_spec(a3, f.blacklist, false, true, m);
    let a5 = id_clause_spec(a4, f.exact_whitelist.id.deep_view(), true, false);
    let a6 = id_clause_spec(a5, f.exact_blacklist.id.deep_view(), true, true);
    let a7 = id_clause_spec(a6, f.whitelist.id.deep_view(), false, false);
    id_clause_spec(a7, f.blacklist.id.deep_view(), false, false)
}

fn stage_columns_exec(clauses: &mut Vec<Vec<char>>, params: &mut Vec<SearchParam>, f: &GameFilter)
    ensures
        acc_of(final(clauses)@, final(params)@) == stage_columns(acc_of(old(clauses)@, old(params)@), *f),
{
    reveal(stage_columns);
    let m = f.match_any;
    field_lists(clauses, params, &f.exact_whitelist, true, false, m);
    field_lists(clauses, params, &f.exact_blacklist, true, true, m);
    field_lists(clauses, params, &f.whitelist, false, false, m);
    field_lists(clauses, params, &f.blacklist, false, true, m);
    id_clause(clauses, params, &f.exact_whitelist.id, true, false);
    id_clause(clauses, params, &f.exact_blacklist.id, true, true);
    id_clause(clauses, params, &f.whitelist.id, false, false);
    id_clause(clauses, params, &f.blacklist.id, false, false);
}

/// Whether the tag and platform matchers of `f` (not of its nested
/// filters) can be built: an all-of match of included values needs one.
pub open spec fn tags_ok(f: GameFilter) -> bool {
    &&& tagged_ok(f.whitelist.tags.deep_view(), false, f.match_any)
    &&& tagged_ok(f.exact_whitelist.tags.deep_view(), false, f.match_any)
    &&& tagged_ok(f.whitelist.platforms.deep_view(), false, f.match_any)
    &&& tagged_ok(f.exact_whitelist.platforms.deep_view(), false, f.match_any)
}

/// Tags and platforms.
#[verifier::opaque]
pub open spec fn stage_tags(a: Acc, f: GameFilter) -> Acc {
    let m = f.match_any;
    let a1 = add_tagged_clause_spec(a, "tag"@, f.whitelist.tags.deep_view(), false, false, m);
    let a2 = add_tagged_clause_spec(a1, "tag"@, f.blacklist.tags.deep_view(), false, true, m);
    let a3 = add_tagged_clause_spec(a2, "tag"@, f.exact_whitelist.tags.deep_view(), true, false, m);
    let a4 = add_tagged_clause_spec(a3, "tag"@, f.exact_blacklist.tags.deep_view(), true, true, m);
    let a5 = add_tagged_clause_spec(a4, "platform"@, f.whitelist.platforms.deep_view(), false, false, m);
    let a6 = add_tagged_clause_spec(a5, "platform"@, f.blacklist.platforms.deep_view(), false, true, m);
    let a7 = add_tagged_clause_spec(a6, "platform"@, f.exact_whitelist.platforms.deep_view(), true, false, m);
    add_tagged_clause_spec(a7, "platform"@, f.exact_blacklist.platforms.deep_view(), true, true, m)
}

fn stage_tags_exec(clauses: &mut Vec<Vec<char>>, params: &mut Vec<SearchParam>, f: &GameFilter)
    requires
        tags_ok(*f),
    ensures
        acc_of(final(clauses)@, final(params)@) == stage_tags(acc_of(old(clauses)@, old(params)@), *f),
{
    reveal(stage_tags);
    let m = f.match_any;
    add_tagged_clause(clauses, params, "tag", &f.whitelist.tags, false, false, m);
    add_tagged_clause(clauses, params, "tag", &f.blacklist.tags, false, true, m);
    add_tagged_clause(clauses, params, "tag", &f.exact_whitelist.tags, true, false, m);
    add_tagged_clause(clauses, params, "tag", &f.exact_blacklist.tags, true, true, m);
    add_tagged_clause(clauses, params, "platform", &f.whitelist.platforms, false, false, m);
    add_tagged_clause(clauses, params, "platform", &f.blacklist.platforms, false, true, m);
    add_tagged_clause(clauses, params, "platform", &f.exact_whitelist.platforms, true, false, m);
    add_tagged_clause(clauses, params, "platform", &f.exact_blacklist.platforms, true, true, m);
}

pub open spec fn title_columns() -> Seq<Seq<char>> {
    seq!["title"@, "alternateTitles"@]
}

pub open spec fn generic_columns() -> Seq<Seq<char>> {
    seq!["title"@, "alternateTitles"@, "developer"@, "publisher"@, "series"@]
}

/// Titles, generic terms, application paths and launch commands.
#[verifier::opaque]
pub open spec fn stage_multi(a: Acc, f: GameFilter) -> Acc {
    let a1 = add_multi_clause_spec(a, title_columns(), f.whitelist.title.deep_view(), false, false);
    let a2 = add_multi_clause_spec(a1, generic_columns(), f.whitelist.generic.deep_view(), false, false);
    let a3 = add_multi_clause_spec(a2, title_columns(), f.blacklist.title.deep_view(), false, true);
    let a4 = add_multi_clause_spec(a3, generic_columns(), f.blacklist.generic.deep_view(), false, true);
    let ap = "applicationPath"@;
    let lc = "launchCommand"@;
    let a5 = add_joint_clause_spec(a4, ap, ap, f.whitelist.application_path.deep_view(), false, false);
    let a6 = add_joint_clause_spec(a5, ap, ap, f.blacklist.application_path.deep_view(), false, true);
    let a7 = add_joint_clause_spec(a6, ap, ap, f.exact_whitelist.application_path.deep_view(), true, false);
    let a8 = add_joint_clause_spec(a7, ap, ap, f.exact_blacklist.application_path.deep_view(), true, true);
    let a9 = add_joint_clause_spec(a8, lc, lc, f.whitelist.launch_command.deep_view(), false, false);
    let a10 = add_joint_clause_spec(a9, lc, lc, f.blacklist.launch_command.deep_view(), false, true);
    let a11 = add_joint_clause_spec(a10, lc, lc, f.exact_whitelist.launch_command.deep_view(), true, false);
    add_joint_clause_spec(a11, lc, lc, f.exact_blacklist.launch_command.deep_view(), true, true)
}

fn stage_multi_exec(clauses: &mut Vec<Vec<char>>, params: &mut Vec<SearchParam>, f: &GameFilter)
    ensures
        acc_of(final(clauses)@, final(params)@) == stage_multi(acc_of(old(clauses)@, old(params)@), *f),
{
    reveal(stage_multi);
    let titles = ["title", "alternateTitles"];
    let generic = ["title", "alternateTitles", "developer", "publisher", "series"];
    assert(strs_views(titles@) =~= title_columns());
    assert(strs_views(generic@) =~= generic_columns());
    add_multi_clause(clauses, params, &titles, &f.whitelist.title, false, false);
    add_multi_clause(clauses, params, &generic, &f.whitelist.generic, false, false);
    add_multi_clause(clauses, params, &titles, &f.blacklist.title, false, true);
    add_multi_clause(clauses, params, &generic, &f.blacklist.generic, false, true);
    let ap = "applicationPath";
    let lc = "launchCommand";
    add_joint_clause(clauses, params, ap, ap, &f.whitelist.application_path, false, false);
    add_joint_clause(clauses, params, ap, ap, &f.blacklist.application_path, false, true);
    add_joint_clause(clauses, params, ap, ap, &f.exact_whitelist.application_path, true, false);
    add_joint_clause(clauses, params, ap, ap, &f.exact_blacklist.application_path, true, true);
    add_joint_clause(clauses, params, lc, lc, &f.whitelist.launch_command, false, false);
    add_joint_clause(clauses, params, lc, lc, &f.blacklist.launch_command, false, true);
    add_joint_clause(clauses, params, lc, lc, &f.exact_whitelist.launch_command, true, false);
    add_joint_clause(clauses, params, lc, lc, &f.exact_blacklist.launch_command, true, true);
}

/// Counts of tags, platforms, additional applications and game data.
#[verifier::opaque]
pub open spec fn stage_counts(a: Acc, f: GameFilter) -> Acc {
    let a1 = acc_opt(a, compare_tag_clause("tag"@, KeyChar::LOWER, f.lower_than.tags));
    let a2 = acc_opt(a1, compare_tag_clause("tag"@, KeyChar::HIGHER, f.higher_than.tags));
    let a3 = acc_opt(a2, compare_tag_clause("tag"@, KeyChar::EQUALS, f.equal_to.tags));
    let a4 = acc_opt(a3, compare_tag_clause("platform"@, KeyChar::LOWER, f.lower_than.platforms));
    let a5 = acc_opt(a4, compare_tag_clause("platform"@, KeyChar::HIGHER, f.higher_than.platforms));
    let a6 = acc_opt(a5, compare_tag_clause("platform"@, KeyChar::EQUALS, f.equal_to.platforms));
    let aa = "additional_app"@;
    let pg = "parentGameId"@;
    let a7 = acc_opt(a6, compare_rows_clause(aa, pg, KeyChar::LOWER, f.lower_than.add_apps, false));
    let a8 = acc_opt(a7, compare_rows_clause(aa, pg, KeyChar::HIGHER, f.higher_than.add_apps, false));
    let a9 = acc_opt(a8, compare_rows_clause(aa, pg, KeyChar::EQUALS, f.equal_to.add_apps, false));
    let gd = "game_data"@;
    let gi = "gameId"@;
    let a10 = acc_opt(a9, compare_rows_clause(gd, gi, KeyChar::LOWER, f.lower_than.game_data, true));
    let a11 = acc_opt(a10, compare_rows_clause(gd, gi, KeyChar::HIGHER, f.higher_than.game_data, true));
    acc_opt(a11, compare_rows_clause(gd, gi, KeyChar::EQUALS, f.equal_to.game_data, true))
}

fn stage_counts_exec(clauses: &mut Vec<Vec<char>>, params: &mut Vec<SearchParam>, f: &GameFilter)
    ensures
        acc_of(final(clauses)@, final(params)@) == stage_counts(acc_of(old(clauses)@, old(params)@), *f),
{
    reveal(stage_counts);
    push_opt(clauses, params, compare_tag_clause_exec("tag", KeyChar::LOWER, &f.lower_than.tags));
    push_opt(clauses, params, compare_tag_clause_exec("tag", KeyChar::HIGHER, &f.higher_than.tags));
    push_opt(clauses, params, compare_tag_clause_exec("tag", KeyChar::EQUALS, &f.equal_to.tags));
    push_opt(clauses, params, compare_tag_clause_exec("platform", KeyChar::LOWER, &f.lower_than.platforms));
    push_opt(clauses, params, compare_tag_clause_exec("platform", KeyChar::HIGHER, &f.higher_than.platforms));
    push_opt(clauses, params, compare_tag_clause_exec("platform", KeyChar::EQUALS, &f.equal_to.platforms));
    let aa = "additional_app";
    let pg = "parentGameId";
    push_opt(clauses, params, compare_rows_clause_exec(aa, pg, KeyChar::LOWER, &f.lower_than.add_apps, false));
    push_opt(clauses, params, compare_rows_clause_exec(aa, pg, KeyChar::HIGHER, &f.higher_than.add_apps, false));
    push_opt(clauses, params, compare_rows_clause_exec(aa, pg, KeyChar::EQUALS, &f.equal_to.add_apps, false));
    let gd = "game_data";
    let gi = "gameId";
    push_opt(clauses, params, compare_rows_clause_exec(gd, gi, KeyChar::LOWER, &f.lower_than.game_data, true));
    push_opt(clauses, params, compare_rows_clause_exec(gd, gi, KeyChar::HIGHER, &f.higher_than.game_data, true));
    push_opt(clauses, params, compare_rows_clause_exec(gd, gi, KeyChar::EQUALS, &f.equal_to.game_data, true));
}

/// Dates, counters and the installed flag.
#[verifier::opaque]
pub open spec fn stage_values(a: Acc, f: GameFilter) -> Acc {
    let sv = |o: Option<String>| crate::game::search::filter::str_view(o);
    let a1 = acc_opt(a, compare_date_clause("dateAdded"@, KeyChar::LOWER, sv(f.lower_than.date_added), false));
    let a2 = acc_opt(a1, compare_date_clause("dateAdded"@, KeyChar::HIGHER, sv(f.higher_than.date_added), false));
    let a3 = acc_opt(a2, compare_date_clause("dateAdded"@, KeyChar::EQUALS, sv(f.equal_to.date_added), false));
    let a4 = acc_opt(a3, compare_date_clause("dateModified"@, KeyChar::LOWER, sv(f.lower_than.date_modified), false));
    let a5 = acc_opt(a4, compare_date_clause("dateModified"@, KeyChar::HIGHER, sv(f.higher_than.date_modified), false));
    let a6 = acc_opt(a5, compare_date_clause("dateModified"@, KeyChar::EQUALS, sv(f.equal_to.date_modified), false));
    let a7 = acc_opt(a6, compare_date_clause("lastPlayed"@, KeyChar::LOWER, sv(f.lower_than.last_played), false));
    let a8 = acc_opt(a7, compare_date_clause("lastPlayed"@, KeyChar::HIGHER, sv(f.higher_than.last_played), false));
    let a9 = acc_opt(a8, compare_date_clause("lastPlayed"@, KeyChar::EQUALS, sv(f.equal_to.last_played), false));
    let a10 = acc_opt(a9, compare_date_clause("releaseDate"@, KeyChar::LOWER, sv(f.lower_than.release_date), true));
    let a11 = acc_opt(a10, compare_date_clause("releaseDate"@, KeyChar::HIGHER, sv(f.higher_than.release_date), true));
    let a12 = acc_opt(a11, compare_date_clause("releaseDate"@, KeyChar::EQUALS, sv(f.equal_to.release_date), true));
    let a13 = acc_opt(a12, compare_counter_clause("playtime"@, KeyChar::LOWER, f.lower_than.playtime));
    let a14 = acc_opt(a13, compare_counter_clause("playtime"@, KeyChar::HIGHER, f.higher_than.playtime));
    let a15 = acc_opt(a14, compare_counter_clause("playtime"@, KeyChar::EQUALS, f.equal_to.playtime));
    let a16 = acc_opt(a15, compare_counter_clause("playCounter"@, KeyChar::LOWER, f.lower_than.playcount));
    let a17 = acc_opt(a16, compare_counter_clause("playCounter"@, KeyChar::HIGHER, f.higher_than.playcount));
    let a18 = acc_opt(a17, compare_counter_clause("playCounter"@, KeyChar::EQUALS, f.equal_to.playcount));
    match f.bool_comp.installed {
        Some(b) => acc_push(
            a18,
            "game.id IN (SELECT gameId FROM game_data WHERE game_data.presentOnDisk = ?)"@,
            seq![ParamView::Boolean(b)],
        ),
        None => a18,
    }
}

fn stage_values_exec(clauses: &mut Vec<Vec<char>>, params: &mut Vec<SearchParam>, f: &GameFilter)
    ensures
        acc_of(final(clauses)@, final(params)@) == stage_values(acc_of(old(clauses)@, old(params)@), *f),
{
    reveal(stage_values);
    let (l, h, e) = (KeyChar::LOWER, KeyChar::HIGHER, KeyChar::EQUALS);
    push_opt(clauses, params, compare_date_clause_exec("dateAdded", l, &f.lower_than.date_added, false));
    push_opt(clauses, params, compare_date_clause_exec("dateAdded", h, &f.higher_than.date_added, false));
    push_opt(clauses, params, compare_date_clause_exec("dateAdded", e, &f.equal_to.date_added, false));
    push_opt(clauses, params, compare_date_clause_exec("dateModified", l, &f.lower_than.date_modified, false));
    push_opt(clauses, params, compare_date_clause_exec("dateModified", h, &f.higher_than.date_modified, false));
    push_opt(clauses, params, compare_date_clause_exec("dateModified", e, &f.equal_to.date_modified, false));
    push_opt(clauses, params, compare_date_clause_exec("lastPlayed", l, &f.lower_than.last_played, false));
    push_opt(clauses, params, compare_date_clause_exec("lastPlayed", h, &f.higher_than.last_played, false));
    push_opt(clauses, params, compare_date_clause_exec("lastPlayed", e, &f.equal_to.last_played, false));
    push_opt(clauses, params, compare_date_clause_exec("releaseDate", l, &f.lower_than.release_date, true));
    push_opt(clauses, params, compare_date_clause_exec("releaseDate", h, &f.higher_than.release_date, true));
    push_opt(clauses, params, compare_date_clause_exec("releaseDate", e, &f.equal_to.release_date, true));
    push_opt(clauses, params, compare_counter_clause_exec("playtime", l, &f.lower_than.playtime));
    push_opt(clauses, params, compare_counter_clause_exec("playtime", h, &f.higher_than.playtime));
    push_opt(clauses, params, compare_counter_clause_exec("playtime", e, &f.equal_to.playtime));
    push_opt(clauses, params, compare_counter_clause_exec("playCounter", l, &f.lower_than.playcount));
    push_opt(clauses, params, compare_counter_clause_exec("playCounter", h, &f.higher_than.playcount));
    push_opt(clauses, params, compare_counter_clause_exec("playCounter", e, &f.equal_to.playcount));
    match f.bool_comp.installed {
        Some(b) => {
            let c = to_chars_lit("game.id IN (SELECT gameId FROM game_data WHERE game_data.presentOnDisk = ?)");
            let mut ps: Vec<SearchParam> = Vec::new();
            ps.push(SearchParam::Boolean(b));
            assert(params_view(ps@) =~= seq![ParamView::Boolean(b)]);
            push_clause(clauses, params, c, ps);
        },
        None => {},
    }
}

/// Extension terms, numbers and flags.
#[verifier::opaque]
pub open spec fn stage_ext(a: Acc, f: GameFilter) -> Acc {
    let m = f.match_any;
    let a1 = ext_add_clause_spec(a, f.whitelist.ext.deep_view(), false, false, m);
    let a2 = ext_add_clause_spec(a1, f.blacklist.ext.deep_view(), false, true, m);
    let a3 = ext_add_clause_spec(a2, f.exact_whitelist.ext.deep_view(), true, false, m);
    let a4 = ext_add_clause_spec(a3, f.exact_blacklist.ext.deep_view(), true, true, m);
    let a5 = ext_compare_spec(a4, KeyChar::EQUALS, f.equal_to.ext.deep_view());
    let a6 = ext_compare_spec(a5, KeyChar::LOWER, f.lower_than.ext.deep_view());
    let a7 = ext_compare_spec(a6, KeyChar::HIGHER, f.higher_than.ext.deep_view());
    ext_bools_spec(a7, f.bool_comp.ext.deep_view())
}

fn stage_ext_exec(clauses: &mut Vec<Vec<char>>, params: &mut Vec<SearchParam>, f: &GameFilter)
    ensures
        acc_of(final(clauses)@, final(params)@) == stage_ext(acc_of(old(clauses)@, old(params)@), *f),
{
    reveal(stage_ext);
    let m = f.match_any;
    ext_add_clause(clauses, params, &f.whitelist.ext, false, false, m);
    ext_add_clause(clauses, params, &f.blacklist.ext, false, true, m);
    ext_add_clause(clauses, params, &f.exact_whitelist.ext, true, false, m);
    ext_add_clause(clauses, params, &f.exact_blacklist.ext, true, true, m);
    ext_compare(clauses, params, KeyChar::EQUALS, &f.equal_to.ext);
    ext_compare(clauses, params, KeyChar::LOWER, &f.lower_than.ext);
    ext_compare(clauses, params, KeyChar::HIGHER, &f.higher_than.ext);
    ext_bools(clauses, params, &f.bool_comp.ext);
}

/// All matchers of a filter itself, after those of its nested filters.
pub open spec fn own_clauses(a: Acc, f: GameFilter) -> Acc {
    stage_ext(stage_values(stage_counts(stage_multi(stage_tags(stage_columns(a, f), f), f), f), f), f)
}

/// The clauses without the empty ones, `()`.
pub open spec fn drop_empty(cs: Seq<Seq<char>>) -> Seq<Seq<char>>
    decreases cs.len(),
{
    if cs.len() == 0 {
        Seq::empty()
    } else if cs.last() == "()"@ {
        drop_empty(cs.drop_last())
    } else {
        drop_empty(cs.drop_last()).push(cs.last())
    }
}

pub open spec fn clause_separator(match_any: bool) -> Seq<char> {
    if match_any {
        " OR "@
    } else {
        " AND "@
    }
}

/// The nested filters: each one's values in order, and its clause in
/// parentheses unless it is empty.
pub open spec fn subfilters_acc(subs: Seq<GameFilter>) -> Acc
    decreases subs,
{
    if subs.len() == 0 {
        Acc { clauses: Seq::empty(), params: Seq::empty() }
    } else {
        let a = subfilters_acc(subs.drop_last());
        let (t, ps) = filter_output(subs.last());
        Acc {
            clauses: if t.len() == 0 {
                a.clauses
            } else {
                a.clauses.push(parens(t))
            },
            params: a.params + ps,
        }
    }
}

/// The `WHERE` text of a filter and the values of its placeholders.
pub open spec fn filter_output(f: GameFilter) -> (Seq<char>, Seq<ParamView>)
    decreases f,
{
    let a = own_clauses(subfilters_acc(f.subfilters@), f);
    (join(drop_empty(a.clauses), clause_separator(f.match_any)), a.params)
}

/// Whether the filter and every nested filter can be built.
pub open spec fn filter_query_ok(f: GameFilter) -> bool
    decreases f,
{
    tags_ok(f) && filters_ok(f.subfilters@)
}

pub open spec fn filters_ok(subs: Seq<GameFilter>) -> bool
    decreases subs,
{
    subs.len() == 0 || (filters_ok(subs.drop_last()) && filter_query_ok(subs.last()))
}

pub proof fn lemma_filters_ok(subs: Seq<GameFilter>, i: int)
    requires
        filters_ok(subs),
        0 <= i < subs.len(),
    ensures
        filter_query_ok(subs[i]),
    decreases subs.len(),
{
    if i < subs.len() - 1 {
        lemma_filters_ok(subs.drop_last(), i);
    }
}

/// Law: a filter that sets nothing and has no nested filters gives no
/// condition and binds no values, whether it matches all terms or any.
pub proof fn law_empty_filter_builds_nothing(f: GameFilter)
    requires
        game_filter_is_empty(GameFilter { match_any: false, ..f }),
    ensures
        filter_output(f) == (Seq::<char>::empty(), Seq::<ParamView>::empty()),
{
    reveal(field_lists_spec);
    reveal(stage_columns);
    reveal(stage_tags);
    reveal(stage_multi);
    reveal(stage_counts);
    reveal(stage_values);
    reveal(stage_ext);
    let e = Acc { clauses: Seq::empty(), params: Seq::empty() };
    assert(f.subfilters@.len() == 0);
    assert(subfilters_acc(f.subfilters@) == e);
    assert(own_clauses(e, f) == e);
    assert(drop_empty(Seq::<Seq<char>>::empty()) == Seq::<Seq<char>>::empty());
    assert(join(Seq::<Seq<char>>::empty(), clause_separator(f.match_any)) == Seq::<char>::empty());
}

/// Whether `f` has no terms of its own: every matcher, comparison and flag
/// is unset (its nested filters and `match_any` aside).
pub open spec fn no_own_terms(f: GameFilter) -> bool {
    &&& field_filter_is_empty(f.whitelist)
    &&& field_filter_is_empty(f.blacklist)
    &&& field_filter_is_empty(f.exact_whitelist)
    &&& field_filter_is_empty(f.exact_blacklist)
    &&& size_filter_is_empty(f.lower_than)
    &&& size_filter_is_empty(f.higher_than)
    &&& size_filter_is_empty(f.equal_to)
    &&& bool_filter_is_empty(f.bool_comp)
}

/// The nested filters' clauses are all parenthesised, so none is `()`.
proof fn lemma_subfilters_keep(subs: Seq<GameFilter>)
    ensures
        drop_empty(subfilters_acc(subs).clauses) == subfilters_acc(subs).clauses,
    decreases subs.len(),
{
    if subs.len() > 0 {
        lemma_subfilters_keep(subs.drop_last());
        let a = subfilters_acc(subs.drop_last());
        let t = filter_output(subs.last()).0;
        if t.len() > 0 {
            reveal_strlit("(");
            reveal_strlit(")");
            reveal_strlit("()");
            assert(parens(t).len() > 2);
            let c = a.clauses.push(parens(t));
            assert(c.drop_last() =~= a.clauses);
            assert(c.last() != "()"@);
        }
    }
}

/// Law: a filter with no terms of its own gives exactly its nested filters'
/// clauses, each in parentheses and the empty ones left out (see
/// `subfilters_acc`), joined with ` OR ` when it matches any term and
/// ` AND ` otherwise; it binds their values, nested filter by nested
/// filter, in order.
pub proof fn law_nested_only(f: GameFilter)
    requires
        no_own_terms(f),
    ensures
        filter_output(f).0 == join(subfilters_acc(f.subfilters@).clauses, clause_separator(f.match_any)),
        filter_output(f).1 == subfilters_acc(f.subfilters@).params,
{
    reveal(field_lists_spec);
    reveal(stage_columns);
    reveal(stage_tags);
    reveal(stage_multi);
    reveal(stage_counts);
    reveal(stage_values);
    reveal(stage_ext);
    let a = subfilters_acc(f.subfilters@);
    assert(own_clauses(a, f) == a);
    lemma_subfilters_keep(f.subfilters@);
}

/// Whether the only terms `f` may have of its own are comparisons of the
/// play time and play count, and it has no nested filters.
pub open spec fn only_play_comparisons(f: GameFilter) -> bool {
    &&& f.subfilters@.len() == 0
    &&& no_own_terms(GameFilter {
        lower_than: SizeFilter { playtime: None, playcount: None, ..f.lower_than },
        higher_than: SizeFilter { playtime: None, playcount: None, ..f.higher_than },
        equal_to: SizeFilter { playtime: None, playcount: None, ..f.equal_to },
        ..f
    })
}

/// The play comparisons of `f`: play time lower, higher, equal, then play
/// count lower, higher, equal.
pub open spec fn play_comparisons(f: GameFilter) -> Seq<Option<i64>> {
    seq![
        f.lower_than.playtime,
        f.higher_than.playtime,
        f.equal_to.playtime,
        f.lower_than.playcount,
        f.higher_than.playcount,
        f.equal_to.playcount,
    ]
}

/// Whether the `i`-th play comparison of `f` is `n` and the others are
/// unset.
pub open spec fn single_play_comparison(f: GameFilter, i: int, n: i64) -> bool {
    forall|j: int| 0 <= j < 6 ==> #[trigger] play_comparisons(f)[j] == (if j == i { Some(n) } else { None })
}

/// Law: a filter that compares only the play time (or only the play count)
/// with `n` selects the games whose play time (play count) is below `n`
/// for a lower-than term, above `n` for a higher-than term, and equal to
/// `n` for an equal-to term: its text is that one comparison of the
/// counter's column, and `n` its one value.
pub proof fn law_play_comparisons(f: GameFilter, i: int, n: i64)
    requires
        only_play_comparisons(f),
        0 <= i < 6,
        single_play_comparison(f, i, n),
    ensures
        i == 0 ==> filter_output(f) == ("game.playtime < ?"@, seq![ParamView::Integer(n)]),
        i == 1 ==> filter_output(f) == ("game.playtime > ?"@, seq![ParamView::Integer(n)]),
        i == 2 ==> filter_output(f) == ("game.playtime = ?"@, seq![ParamView::Integer(n)]),
        i == 3 ==> filter_output(f) == ("game.playCounter < ?"@, seq![ParamView::Integer(n)]),
        i == 4 ==> filter_output(f) == ("game.playCounter > ?"@, seq![ParamView::Integer(n)]),
        i == 5 ==> filter_output(f) == ("game.playCounter = ?"@, seq![ParamView::Integer(n)]),
{
    reveal(field_lists_spec);
    reveal(stage_columns);
    reveal(stage_tags);
    reveal(stage_multi);
    reveal(stage_counts);
    reveal(stage_values);
    reveal(stage_ext);
    let p = play_comparisons(f);
    assert(p[0] == (if i == 0 { Some(n) } else { None }));
    assert(p[1] == (if i == 1 { Some(n) } else { None }));
    assert(p[2] == (if i == 2 { Some(n) } else { None }));
    assert(p[3] == (if i == 3 { Some(n) } else { None }));
    assert(p[4] == (if i == 4 { Some(n) } else { None }));
    assert(p[5] == (if i == 5 { Some(n) } else { None }));
    let e = Acc { clauses: Seq::empty(), params: Seq::empty() };
    assert(subfilters_acc(f.subfilters@) == e);
    let a = own_clauses(e, f);
    reveal_strlit("()");
    reveal_strlit("game.");
    reveal_strlit(" < ?");
    reveal_strlit(" > ?");
    reveal_strlit(" = ?");
    let c = if i == 0 {
        "game."@ + "playtime"@ + " < ?"@
    } else if i == 1 {
        "game."@ + "playtime"@ + " > ?"@
    } else if i == 2 {
        "game."@ + "playtime"@ + " = ?"@
    } else if i == 3 {
        "game."@ + "playCounter"@ + " < ?"@
    } else if i == 4 {
        "game."@ + "playCounter"@ + " > ?"@
    } else {
        "game."@ + "playCounter"@ + " = ?"@
    };
    assert(a == Acc { clauses: seq![c], params: seq![ParamView::Integer(n)] });
    assert(c.len() > 2);
    assert(seq![c].drop_last() =~= Seq::<Seq<char>>::empty());
    assert(seq![c].last() == c);
    assert(c != "()"@);
    assert(drop_empty(Seq::<Seq<char>>::empty()) == Seq::<Seq<char>>::empty());
    assert(drop_empty(seq![c]) =~= Seq::<Seq<char>>::empty().push(c));
    assert(Seq::<Seq<char>>::empty().push(c) =~= seq![c]);
    reveal_strlit("playtime");
    reveal_strlit("playCounter");
    reveal_strlit("game.playtime < ?");
    reveal_strlit("game.playtime > ?");
    reveal_strlit("game.playtime = ?");
    reveal_strlit("game.playCounter < ?");
    reveal_strlit("game.playCounter > ?");
    reveal_strlit("game.playCounter = ?");
    assert(i == 0 ==> c =~= "game.playtime < ?"@);
    assert(i == 1 ==> c =~= "game.playtime > ?"@);
    assert(i == 2 ==> c =~= "game.playtime = ?"@);
    assert(i == 3 ==> c =~= "game.playCounter < ?"@);
    assert(i == 4 ==> c =~= "game.playCounter > ?"@);
    assert(i == 5 ==> c =~= "game.playCounter = ?"@);
}

fn tagged_ok_exec(values: &Option<Vec<String>>, match_any: bool) -> (r: bool)
    ensures
        r == tagged_ok(values.deep_view(), false, match_any),
{
    match values {
        Some(vs) => match_any || vs.len() > 0,
        None => true,
    }
}

/// Whether a query can be built for the filter: every list of tags or
/// platforms that must all match, in it and in its nested filters, names at
/// least one.
pub fn filter_buildable(f: &GameFilter) -> (r: bool)
    ensures
        r == filter_query_ok(*f),
    decreases f,
{
    let m = f.match_any;
    if !(tagged_ok_exec(&f.whitelist.tags, m) && tagged_ok_exec(&f.exact_whitelist.tags, m)
        && tagged_ok_exec(&f.whitelist.platforms, m) && tagged_ok_exec(&f.exact_whitelist.platforms, m)) {
        return false;
    }
    let ghost subs = f.subfilters@;
    let mut i: usize = 0;
    while i < f.subfilters.len()
        invariant
            i <= subs.len(),
            subs == f.subfilters@,
            filters_ok(subs.take(i as int)),
        decreases f.subfilters.len() - i,
    {
        proof {
            assert(subs.take(i + 1).drop_last() =~= subs.take(i as int));
            assert(subs.take(i + 1).last() == subs[i as int]);
            assert(decreases_to!(f => f.subfilters));
        }
        if !filter_buildable(&f.subfilters[i]) {
            proof {
                if filters_ok(subs) {
                    lemma_filters_ok(subs, i as int);
                }
            }
            return false;
        }
        i = i + 1;
    }
    assert(subs.take(subs.len() as int) =~= subs);
    true
}

fn drop_empty_exec(cs: &Vec<Vec<char>>) -> (r: Vec<Vec<char>>)
    ensures
        texts_view(r@) == drop_empty(texts_view(cs@)),
{
    let empty = to_chars_lit("()");
    let mut r: Vec<Vec<char>> = Vec::new();
    let mut i: usize = 0;
    while i < cs.len()
        invariant
            i <= cs@.len(),
            empty@ == "()"@,
            texts_view(r@) =~= drop_empty(texts_view(cs@.take(i as int))),
        decreases cs.len() - i,
    {
        let ghost r0 = r@;
        proof {
            let t = texts_view(cs@.take(i + 1));
            assert(t.drop_last() =~= texts_view(cs@.take(i as int)));
            assert(t.last() == cs@[i as int]@);
        }
        if !crate::text::eq_chars(&cs[i], &empty) {
            r.push(copy_chars(&cs[i]));
            assert(texts_view(r@) =~= texts_view(r0).push(cs@[i as int]@));
        }
        i = i + 1;
    }
    assert(cs@.take(cs@.len() as int) =~= cs@);
    r
}

/// Builds the `WHERE` text of `filter`, appending the values of its
/// placeholders to `params`.
pub fn build_filter_query(filter: &GameFilter, params: &mut Vec<SearchParam>) -> (r: Vec<char>)
    requires
        filter_query_ok(*filter),
    ensures
        r@ == filter_output(*filter).0,
        params_view(final(params)@) == params_view(old(params)@) + filter_output(*filter).1,
    decreases filter,
{
    let mut clauses: Vec<Vec<char>> = Vec::new();
    let mut ps: Vec<SearchParam> = Vec::new();
    let mut i: usize = 0;
    while i < filter.subfilters.len()
        invariant
            i <= filter.subfilters@.len(),
            filter_query_ok(*filter),
            acc_of(clauses@, ps@) == subfilters_acc(filter.subfilters@.take(i as int)),
        decreases filter.subfilters.len() - i,
    {
        let sub = &filter.subfilters[i];
        proof {
            lemma_filters_ok(filter.subfilters@, i as int);
        }
        let ghost ps0 = ps@;
        let ghost c0 = clauses@;
        let t = build_filter_query(sub, &mut ps);
        if t.len() > 0 {
            let c = parens_exec(&t);
            clauses.push(c);
        }
        proof {
            let s = filter.subfilters@.take(i + 1);
            assert(s.drop_last() =~= filter.subfilters@.take(i as int));
            assert(s.last() == *sub);
            let a = subfilters_acc(s.drop_last());
            let out = filter_output(*sub);
            assert(subfilters_acc(s) == (Acc {
                clauses: if out.0.len() == 0 {
                    a.clauses
                } else {
                    a.clauses.push(parens(out.0))
                },
                params: a.params + out.1,
            }));
            if t@.len() > 0 {
                assert(texts_view(clauses@) =~= texts_view(c0).push(parens(t@)));
            } else {
                assert(texts_view(clauses@) =~= texts_view(c0));
            }
            assert(acc_of(clauses@, ps@) =~= subfilters_acc(s));
        }
        i = i + 1;
    }
    assert(filter.subfilters@.take(filter.subfilters@.len() as int) =~= filter.subfilters@);
    stage_columns_exec(&mut clauses, &mut ps, filter);
    stage_tags_exec(&mut clauses, &mut ps, filter);
    stage_multi_exec(&mut clauses, &mut ps, filter);
    stage_counts_exec(&mut clauses, &mut ps, filter);
    stage_values_exec(&mut clauses, &mut ps, filter);
    stage_ext_exec(&mut clauses, &mut ps, filter);
    let kept = drop_empty_exec(&clauses);
    let sep = if filter.match_any {
        " OR "
    } else {
        " AND "
    };
    let r = join_exec(&kept, sep);
    let ghost all = ps@;
    params.append(&mut ps);
    proof {
        assert(params_view(params@) =~= params_view(old(params)@) + params_view(all));
        let a = own_clauses(subfilters_acc(filter.subfilters@), *filter);
        assert(filter_output(*filter) == (join(drop_empty(a.clauses), clause_separator(filter.match_any)), a.params))
            by {
            reveal(filter_output);
        }
    }
    r
}

// ---------------------------------------------------------------------------
// A whole search
// ---------------------------------------------------------------------------

/// The column a search is ordered by.
pub open spec fn order_column(s: GameSearch) -> Seq<char> {
    if s.ext_order is Some {
        "OrderedExt.ExtValue"@
    } else {
        match s.order.column {
            GameSearchSortable::TITLE => "game.title"@,
            GameSearchSortable::DEVELOPER => "game.developer"@,
            GameSearchSortable::PUBLISHER => "game.publisher"@,
            GameSearchSortable::SERIES => "game.series"@,
            GameSearchSortable::PLATFORM => "game.platformName"@,
            GameSearchSortable::DATEADDED => "game.dateAdded"@,
            GameSearchSortable::DATEMODIFIED => "game.dateModified"@,
            GameSearchSortable::RELEASEDATE => "game.releaseDate"@,
            GameSearchSortable::LASTPLAYED => "game.lastPlayed"@,
            GameSearchSortable::PLAYTIME => "game.playtime"@,
            GameSearchSortable::CUSTOM => "OrderedIDs.RowNum"@,
            _ => "unknown"@,
        }
    }
}

/// The date comparisons of `f`, in this order: added, modified, last
/// played and release date, each lower, higher, equal.
pub open spec fn date_comparisons(f: GameFilter) -> Seq<Option<Seq<char>>> {
    let sv = |o: Option<String>| crate::game::search::filter::str_view(o);
    seq![
        sv(f.lower_than.date_added),
        sv(f.higher_than.date_added),
        sv(f.equal_to.date_added),
        sv(f.lower_than.date_modified),
        sv(f.higher_than.date_modified),
        sv(f.equal_to.date_modified),
        sv(f.lower_than.last_played),
        sv(f.higher_than.last_played),
        sv(f.equal_to.last_played),
        sv(f.lower_than.release_date),
        sv(f.higher_than.release_date),
        sv(f.equal_to.release_date),
    ]
}

/// Whether the only terms `f` may have of its own are date comparisons,
/// and it has no nested filters.
pub open spec fn only_date_comparisons(f: GameFilter) -> bool {
    &&& f.subfilters@.len() == 0
    &&& no_own_terms(GameFilter {
        lower_than: SizeFilter { date_added: None, date_modified: None, last_played: None, release_date: None, ..f.lower_than },
        higher_than: SizeFilter { date_added: None, date_modified: None, last_played: None, release_date: None, ..f.higher_than },
        equal_to: SizeFilter { date_added: None, date_modified: None, last_played: None, release_date: None, ..f.equal_to },
        ..f
    })
}

/// Law: a filter that compares only one date with `d` selects the games
/// whose date is before `d` for a lower-than term, on or after `d` for a
/// higher-than term, and on `d` (the date starting with `d`) for an
/// equal-to term; the dates of adding, modifying and last playing are
/// compared as dates, the release date as text.
pub proof fn law_date_comparisons(f: GameFilter, i: int, d: Seq<char>)
    requires
        only_date_comparisons(f),
        0 <= i < 12,
        forall|j: int| 0 <= j < 12 ==> #[trigger] date_comparisons(f)[j] == (if j == i { Some(d) } else { None }),
    ensures
        i == 0 ==> filter_output(f) == ("date(game.dateAdded) < ?"@, seq![ParamView::Text(d)]),
        i == 1 ==> filter_output(f) == ("date(game.dateAdded) >= ?"@, seq![ParamView::Text(d)]),
        i == 2 ==> filter_output(f) == ("date(game.dateAdded) LIKE ?"@, seq![ParamView::Text(d + "%"@)]),
        i == 3 ==> filter_output(f) == ("date(game.dateModified) < ?"@, seq![ParamView::Text(d)]),
        i == 4 ==> filter_output(f) == ("date(game.dateModified) >= ?"@, seq![ParamView::Text(d)]),
        i == 5 ==> filter_output(f) == ("date(game.dateModified) LIKE ?"@, seq![ParamView::Text(d + "%"@)]),
        i == 6 ==> filter_output(f) == ("date(game.lastPlayed) < ?"@, seq![ParamView::Text(d)]),
        i == 7 ==> filter_output(f) == ("date(game.lastPlayed) >= ?"@, seq![ParamView::Text(d)]),
        i == 8 ==> filter_output(f) == ("date(game.lastPlayed) LIKE ?"@, seq![ParamView::Text(d + "%"@)]),
        i == 9 ==> filter_output(f) == ("game.releaseDate < ?"@, seq![ParamView::Text(d)]),
        i == 10 ==> filter_output(f) == ("game.releaseDate >= ?"@, seq![ParamView::Text(d)]),
        i == 11 ==> filter_output(f) == ("game.releaseDate LIKE ?"@, seq![ParamView::Text(d + "%"@)]),
{
    reveal(field_lists_spec);
    reveal(stage_columns);
    reveal(stage_tags);
    reveal(stage_multi);
    reveal(stage_counts);
    reveal(stage_values);
    reveal(stage_ext);
    let p = date_comparisons(f);
    assert(p[0] == (if i == 0 { Some(d) } else { None }));
    assert(p[1] == (if i == 1 { Some(d) } else { None }));
    assert(p[2] == (if i == 2 { Some(d) } else { None }));
    assert(p[3] == (if i == 3 { Some(d) } else { None }));
    assert(p[4] == (if i == 4 { Some(d) } else { None }));
    assert(p[5] == (if i == 5 { Some(d) } else { None }));
    assert(p[6] == (if i == 6 { Some(d) } else { None }));
    assert(p[7] == (if i == 7 { Some(d) } else { None }));
    assert(p[8] == (if i == 8 { Some(d) } else { None }));
    assert(p[9] == (if i == 9 { Some(d) } else { None }));
    assert(p[10] == (if i == 10 { Some(d) } else { None }));
    assert(p[11] == (if i == 11 { Some(d) } else { None }));
    let e = Acc { clauses: Seq::empty(), params: Seq::empty() };
    assert(subfilters_acc(f.subfilters@) == e);
    reveal_strlit(" < ?");
    reveal_strlit(" >= ?");
    reveal_strlit(" LIKE ?");
    reveal_strlit("%");
    reveal_strlit("()");
    reveal_strlit(")");
    reveal_strlit("date(game.");
    reveal_strlit("date(game.dateAdded) < ?");
    reveal_strlit("date(game.dateAdded) >= ?");
    reveal_strlit("date(game.dateAdded) LIKE ?");
    reveal_strlit("date(game.dateModified) < ?");
    reveal_strlit("date(game.dateModified) >= ?");
    reveal_strlit("date(game.dateModified) LIKE ?");
    reveal_strlit("date(game.lastPlayed) < ?");
    reveal_strlit("date(game.lastPlayed) >= ?");
    reveal_strlit("date(game.lastPlayed) LIKE ?");
    reveal_strlit("dateAdded");
    reveal_strlit("dateModified");
    reveal_strlit("game.");
    reveal_strlit("game.releaseDate < ?");
    reveal_strlit("game.releaseDate >= ?");
    reveal_strlit("game.releaseDate LIKE ?");
    reveal_strlit("lastPlayed");
    reveal_strlit("releaseDate");
    let c = if i == 0 {
        "date(game."@ + "dateAdded"@ + ")"@ + " < ?"@
    } else if i == 1 {
        "date(game."@ + "dateAdded"@ + ")"@ + " >= ?"@
    } else if i == 2 {
        "date(game."@ + "dateAdded"@ + ")"@ + " LIKE ?"@
    } else if i == 3 {
        "date(game."@ + "dateModified"@ + ")"@ + " < ?"@
    } else if i == 4 {
        "date(game."@ + "dateModified"@ + ")"@ + " >= ?"@
    } else if i == 5 {
        "date(game."@ + "dateModified"@ + ")"@ + " LIKE ?"@
    } else if i == 6 {
        "date(game."@ + "lastPlayed"@ + ")"@ + " < ?"@
    } else if i == 7 {
        "date(game."@ + "lastPlayed"@ + ")"@ + " >= ?"@
    } else if i == 8 {
        "date(game."@ + "lastPlayed"@ + ")"@ + " LIKE ?"@
    } else if i == 9 {
        "game."@ + "releaseDate"@ + " < ?"@
    } else if i == 10 {
        "game."@ + "releaseDate"@ + " >= ?"@
    } else {
        "game."@ + "releaseDate"@ + " LIKE ?"@
    };
    let ps = if i == 2 || i == 5 || i == 8 || i == 11 {
        seq![ParamView::Text(d + "%"@)]
    } else {
        seq![ParamView::Text(d)]
    };
    assert(own_clauses(e, f) == Acc { clauses: seq![c], params: ps });
    assert(c.len() > 2);
    lemma_single_clause(f, c, ps);
    assert(i == 0 ==> c =~= "date(game.dateAdded) < ?"@);
    assert(i == 1 ==> c =~= "date(game.dateAdded) >= ?"@);
    assert(i == 2 ==> c =~= "date(game.dateAdded) LIKE ?"@);
    assert(i == 3 ==> c =~= "date(game.dateModified) < ?"@);
    assert(i == 4 ==> c =~= "date(game.dateModified) >= ?"@);
    assert(i == 5 ==> c =~= "date(game.dateModified) LIKE ?"@);
    assert(i == 6 ==> c =~= "date(game.lastPlayed) < ?"@);
    assert(i == 7 ==> c =~= "date(game.lastPlayed) >= ?"@);
    assert(i == 8 ==> c =~= "date(game.lastPlayed) LIKE ?"@);
    assert(i == 9 ==> c =~= "game.releaseDate < ?"@);
    assert(i == 10 ==> c =~= "game.releaseDate >= ?"@);
    assert(i == 11 ==> c =~= "game.releaseDate LIKE ?"@);
}

/// A filter without nested filters whose own terms give one clause `c`
/// (not `()`) gives `c` and its values.
proof fn lemma_single_clause(f: GameFilter, c: Seq<char>, ps: Seq<ParamView>)
    requires
        f.subfilters@.len() == 0,
        own_clauses(Acc { clauses: Seq::empty(), params: Seq::empty() }, f) == (Acc { clauses: seq![c], params: ps }),
        c.len() > 2,
    ensures
        filter_output(f) == (c, ps),
{
    let e = Acc { clauses: Seq::empty(), params: Seq::empty() };
    assert(subfilters_acc(f.subfilters@) == e);
    reveal_strlit("()");
    assert(seq![c].drop_last() =~= Seq::<Seq<char>>::empty());
    assert(seq![c].last() == c);
    assert(c != "()"@);
    assert(drop_empty(Seq::<Seq<char>>::empty()) == Seq::<Seq<char>>::empty());
    assert(drop_empty(seq![c]) =~= Seq::<Seq<char>>::empty().push(c));
    assert(Seq::<Seq<char>>::empty().push(c) =~= seq![c]);
}

/// The count comparisons of `f`, in this order: tags, platforms,
/// additional applications and content packs, each lower, higher, equal.
pub open spec fn count_comparisons(f: GameFilter) -> Seq<Option<i64>> {
    seq![
        f.lower_than.tags,
        f.higher_than.tags,
        f.equal_to.tags,
        f.lower_than.platforms,
        f.higher_than.platforms,
        f.equal_to.platforms,
        f.lower_than.add_apps,
        f.higher_than.add_apps,
        f.equal_to.add_apps,
        f.lower_than.game_data,
        f.higher_than.game_data,
        f.equal_to.game_data,
    ]
}

/// Whether the only terms `f` may have of its own are count comparisons,
/// and it has no nested filters.
pub open spec fn only_count_comparisons(f: GameFilter) -> bool {
    &&& f.subfilters@.len() == 0
    &&& no_own_terms(GameFilter {
        lower_than: SizeFilter { tags: None, platforms: None, add_apps: None, game_data: None, ..f.lower_than },
        higher_than: SizeFilter { tags: None, platforms: None, add_apps: None, game_data: None, ..f.higher_than },
        equal_to: SizeFilter { tags: None, platforms: None, add_apps: None, game_data: None, ..f.equal_to },
        ..f
    })
}

/// Law: a filter that compares only one count with a positive `n` selects
/// the games that do not have `n` or more of those rows for a lower-than
/// term, more than `n` for a higher-than term, and exactly `n` for an
/// equal-to term, counting the game's tags, platforms, additional
/// applications or content packs.
#[verifier::rlimit(40)]
pub proof fn law_count_comparisons(f: GameFilter, i: int, n: i64)
    requires
        only_count_comparisons(f),
        0 <= i < 12,
        n > 0,
        forall|j: int| 0 <= j < 12 ==> #[trigger] count_comparisons(f)[j] == (if j == i { Some(n) } else { None }),
    ensures
        i == 0 ==> filter_output(f) == ("game.id NOT IN (SELECT gameId FROM game_tags_tag GROUP BY gameId HAVING COUNT(gameId) >= ?)"@, seq![ParamView::Integer(n)]),
        i == 1 ==> filter_output(f) == ("game.id IN (SELECT gameId FROM game_tags_tag GROUP BY gameId HAVING COUNT(gameId) > ?)"@, seq![ParamView::Integer(n)]),
        i == 2 ==> filter_output(f) == ("game.id IN (SELECT gameId FROM game_tags_tag GROUP BY gameId HAVING COUNT(gameId) = ?)"@, seq![ParamView::Integer(n)]),
        i == 3 ==> filter_output(f) == ("game.id NOT IN (SELECT gameId FROM game_platforms_platform GROUP BY gameId HAVING COUNT(gameId) >= ?)"@, seq![ParamView::Integer(n)]),
        i == 4 ==> filter_output(f) == ("game.id IN (SELECT gameId FROM game_platforms_platform GROUP BY gameId HAVING COUNT(gameId) > ?)"@, seq![ParamView::Integer(n)]),
        i == 5 ==> filter_output(f) == ("game.id IN (SELECT gameId FROM game_platforms_platform GROUP BY gameId HAVING COUNT(gameId) = ?)"@, seq![ParamView::Integer(n)]),
        i == 6 ==> filter_output(f) == ("game.id NOT IN (SELECT parentGameId FROM additional_app GROUP BY parentGameId HAVING COUNT(parentGameId) >= ?)"@, seq![ParamView::Integer(n)]),
        i == 7 ==> filter_output(f) == ("game.id IN (SELECT parentGameId FROM additional_app GROUP BY parentGameId HAVING COUNT(parentGameId) > ?)"@, seq![ParamView::Integer(n)]),
        i == 8 ==> filter_output(f) == ("game.id IN (SELECT parentGameId FROM additional_app GROUP BY parentGameId HAVING COUNT(parentGameId) = ?)"@, seq![ParamView::Integer(n)]),
        i == 9 ==> filter_output(f) == ("game.id NOT IN (SELECT gameId FROM game_data GROUP BY gameId HAVING COUNT(gameId) >= ?)"@, seq![ParamView::Integer(n)]),
        i == 10 ==> filter_output(f) == ("game.id IN (SELECT gameId FROM game_data GROUP BY gameId HAVING COUNT(gameId) > ?)"@, seq![ParamView::Integer(n)]),
        i == 11 ==> filter_output(f) == ("game.id IN (SELECT gameId FROM game_data GROUP BY gameId HAVING COUNT(gameId) = ?)"@, seq![ParamView::Integer(n)]),
{
    reveal(field_lists_spec);
    reveal(stage_columns);
    reveal(stage_tags);
    reveal(stage_multi);
    reveal(stage_counts);
    reveal(stage_values);
    reveal(stage_ext);
    reveal_with_fuel(concat, 7);
    let p = count_comparisons(f);
    assert(p[0] == (if i == 0 { Some(n) } else { None }));
    assert(p[1] == (if i == 1 { Some(n) } else { None }));
    assert(p[2] == (if i == 2 { Some(n) } else { None }));
    assert(p[3] == (if i == 3 { Some(n) } else { None }));
    assert(p[4] == (if i == 4 { Some(n) } else { None }));
    assert(p[5] == (if i == 5 { Some(n) } else { None }));
    assert(p[6] == (if i == 6 { Some(n) } else { None }));
    assert(p[7] == (if i == 7 { Some(n) } else { None }));
    assert(p[8] == (if i == 8 { Some(n) } else { None }));
    assert(p[9] == (if i == 9 { Some(n) } else { None }));
    assert(p[10] == (if i == 10 { Some(n) } else { None }));
    assert(p[11] == (if i == 11 { Some(n) } else { None }));
    reveal_strlit(" FROM ");
    reveal_strlit(" GROUP BY ");
    reveal_strlit(" GROUP BY gameId HAVING COUNT(gameId) ");
    reveal_strlit(" HAVING COUNT(");
    reveal_strlit(")");
    reveal_strlit(") ");
    reveal_strlit("= ?)");
    reveal_strlit("> ?)");
    reveal_strlit(">= ?)");
    reveal_strlit("additional_app");
    reveal_strlit("game.id IN (SELECT ");
    reveal_strlit("game.id IN (SELECT gameId FROM game_");
    reveal_strlit("game.id IN (SELECT gameId FROM game_data GROUP BY gameId HAVING COUNT(gameId) = ?)");
    reveal_strlit("game.id IN (SELECT gameId FROM game_data GROUP BY gameId HAVING COUNT(gameId) > ?)");
    reveal_strlit("game.id IN (SELECT gameId FROM game_platforms_platform GROUP BY gameId HAVING COUNT(gameId) = ?)");
    reveal_strlit("game.id IN (SELECT gameId FROM game_platforms_platform GROUP BY gameId HAVING COUNT(gameId) > ?)");
    reveal_strlit("game.id IN (SELECT gameId FROM game_tags_tag GROUP BY gameId HAVING COUNT(gameId) = ?)");
    reveal_strlit("game.id IN (SELECT gameId FROM game_tags_tag GROUP BY gameId HAVING COUNT(gameId) > ?)");
    reveal_strlit("game.id IN (SELECT parentGameId FROM additional_app GROUP BY parentGameId HAVING COUNT(parentGameId) = ?)");
    reveal_strlit("game.id IN (SELECT parentGameId FROM additional_app GROUP BY parentGameId HAVING COUNT(parentGameId) > ?)");
    reveal_strlit("game.id NOT IN (SELECT ");
    reveal_strlit("game.id NOT IN (SELECT gameId FROM game_");
    reveal_strlit("game.id NOT IN (SELECT gameId FROM game_data GROUP BY gameId HAVING COUNT(gameId) >= ?)");
    reveal_strlit("game.id NOT IN (SELECT gameId FROM game_platforms_platform GROUP BY gameId HAVING COUNT(gameId) >= ?)");
    reveal_strlit("game.id NOT IN (SELECT gameId FROM game_tags_tag GROUP BY gameId HAVING COUNT(gameId) >= ?)");
    reveal_strlit("game.id NOT IN (SELECT parentGameId FROM additional_app GROUP BY parentGameId HAVING COUNT(parentGameId) >= ?)");
    reveal_strlit("gameId");
    reveal_strlit("game_data");
    reveal_strlit("parentGameId");
    reveal_strlit("platform");
    reveal_strlit("s_");
    reveal_strlit("tag");
    assert(i == 0 ==> compare_tag_clause("tag"@, KeyChar::LOWER, Some(n)) == Some(("game.id NOT IN (SELECT gameId FROM game_tags_tag GROUP BY gameId HAVING COUNT(gameId) >= ?)"@, seq![ParamView::Integer(n)]))) by {
        if i == 0 {
            assert(compare_tag_clause("tag"@, KeyChar::LOWER, Some(n)).unwrap().0 =~= "game.id NOT IN (SELECT gameId FROM game_tags_tag GROUP BY gameId HAVING COUNT(gameId) >= ?)"@);
        }
    }
    assert(i == 1 ==> compare_tag_clause("tag"@, KeyChar::HIGHER, Some(n)) == Some(("game.id IN (SELECT gameId FROM game_tags_tag GROUP BY gameId HAVING COUNT(gameId) > ?)"@, seq![ParamView::Integer(n)]))) by {
        if i == 1 {
            assert(compare_tag_clause("tag"@, KeyChar::HIGHER, Some(n)).unwrap().0 =~= "game.id IN (SELECT gameId FROM game_tags_tag GROUP BY gameId HAVING COUNT(gameId) > ?)"@);
        }
    }
    assert(i == 2 ==> compare_tag_clause("tag"@, KeyChar::EQUALS, Some(n)) == Some(("game.id IN (SELECT gameId FROM game_tags_tag GROUP BY gameId HAVING COUNT(gameId) = ?)"@, seq![ParamView::Integer(n)]))) by {
        if i == 2 {
            assert(compare_tag_clause("tag"@, KeyChar::EQUALS, Some(n)).unwrap().0 =~= "game.id IN (SELECT gameId FROM game_tags_tag GROUP BY gameId HAVING COUNT(gameId) = ?)"@);
        }
    }
    assert(i == 3 ==> compare_tag_clause("platform"@, KeyChar::LOWER, Some(n)) == Some(("game.id NOT IN (SELECT gameId FROM game_platforms_platform GROUP BY gameId HAVING COUNT(gameId) >= ?)"@, seq![ParamView::Integer(n)]))) by {
        if i == 3 {
            assert(compare_tag_clause("platform"@, KeyChar::LOWER, Some(n)).unwrap().0 =~= "game.id NOT IN (SELECT gameId FROM game_platforms_platform GROUP BY gameId HAVING COUNT(gameId) >= ?)"@);
        }
    }
    assert(i == 4 ==> compare_tag_clause("platform"@, KeyChar::HIGHER, Some(n)) == Some(("game.id IN (SELECT gameId FROM game_platforms_platform GROUP BY gameId HAVING COUNT(gameId) > ?)"@, seq![ParamView::Integer(n)]))) by {
        if i == 4 {
            assert(compare_tag_clause("platform"@, KeyChar::HIGHER, Some(n)).unwrap().0 =~= "game.id IN (SELECT gameId FROM game_platforms_platform GROUP BY gameId HAVING COUNT(gameId) > ?)"@);
        }
    }
    assert(i == 5 ==> compare_tag_clause("platform"@, KeyChar::EQUALS, Some(n)) == Some(("game.id IN (SELECT gameId FROM game_platforms_platform GROUP BY gameId HAVING COUNT(gameId) = ?)"@, seq![ParamView::Integer(n)]))) by {
        if i == 5 {
            assert(compare_tag_clause("platform"@, KeyChar::EQUALS, Some(n)).unwrap().0 =~= "game.id IN (SELECT gameId FROM game_platforms_platform GROUP BY gameId HAVING COUNT(gameId) = ?)"@);
        }
    }
    assert(i == 6 ==> compare_rows_clause("additional_app"@, "parentGameId"@, KeyChar::LOWER, Some(n), false) == Some(("game.id NOT IN (SELECT parentGameId FROM additional_app GROUP BY parentGameId HAVING COUNT(parentGameId) >= ?)"@, seq![ParamView::Integer(n)]))) by {
        if i == 6 {
            assert(compare_rows_clause("additional_app"@, "parentGameId"@, KeyChar::LOWER, Some(n), false).unwrap().0 =~= "game.id NOT IN (SELECT parentGameId FROM additional_app GROUP BY parentGameId HAVING COUNT(parentGameId) >= ?)"@);
        }
    }
    assert(i == 7 ==> compare_rows_clause("additional_app"@, "parentGameId"@, KeyChar::HIGHER, Some(n), false) == Some(("game.id IN (SELECT parentGameId FROM additional_app GROUP BY parentGameId HAVING COUNT(parentGameId) > ?)"@, seq![ParamView::Integer(n)]))) by {
        if i == 7 {
            assert(compare_rows_clause("additional_app"@, "parentGameId"@, KeyChar::HIGHER, Some(n), false).unwrap().0 =~= "game.id IN (SELECT parentGameId FROM additional_app GROUP BY parentGameId HAVING COUNT(parentGameId) > ?)"@);
        }
    }
    assert(i == 8 ==> compare_rows_clause("additional_app"@, "parentGameId"@, KeyChar::EQUALS, Some(n), false) == Some(("game.id IN (SELECT parentGameId FROM additional_app GROUP BY parentGameId HAVING COUNT(parentGameId) = ?)"@, seq![ParamView::Integer(n)]))) by {
        if i == 8 {
            assert(compare_rows_clause("additional_app"@, "parentGameId"@, KeyChar::EQUALS, Some(n), false).unwrap().0 =~= "game.id IN (SELECT parentGameId FROM additional_app GROUP BY parentGameId HAVING COUNT(parentGameId) = ?)"@);
        }
    }
    assert(i == 9 ==> compare_rows_clause("game_data"@, "gameId"@, KeyChar::LOWER, Some(n), true) == Some(("game.id NOT IN (SELECT gameId FROM game_data GROUP BY gameId HAVING COUNT(gameId) >= ?)"@, seq![ParamView::Integer(n)]))) by {
        if i == 9 {
            assert(compare_rows_clause("game_data"@, "gameId"@, KeyChar::LOWER, Some(n), true).unwrap().0 =~= "game.id NOT IN (SELECT gameId FROM game_data GROUP BY gameId HAVING COUNT(gameId) >= ?)"@);
        }
    }
    assert(i == 10 ==> compare_rows_clause("game_data"@, "gameId"@, KeyChar::HIGHER, Some(n), true) == Some(("game.id IN (SELECT gameId FROM game_data GROUP BY gameId HAVING COUNT(gameId) > ?)"@, seq![ParamView::Integer(n)]))) by {
        if i == 10 {
            assert(compare_rows_clause("game_data"@, "gameId"@, KeyChar::HIGHER, Some(n), true).unwrap().0 =~= "game.id IN (SELECT gameId FROM game_data GROUP BY gameId HAVING COUNT(gameId) > ?)"@);
        }
    }
    assert(i == 11 ==> compare_rows_clause("game_data"@, "gameId"@, KeyChar::EQUALS, Some(n), true) == Some(("game.id IN (SELECT gameId FROM game_data GROUP BY gameId HAVING COUNT(gameId) = ?)"@, seq![ParamView::Integer(n)]))) by {
        if i == 11 {
            assert(compare_rows_clause("game_data"@, "gameId"@, KeyChar::EQUALS, Some(n), true).unwrap().0 =~= "game.id IN (SELECT gameId FROM game_data GROUP BY gameId HAVING COUNT(gameId) = ?)"@);
        }
    }
    let e = Acc { clauses: Seq::empty(), params: Seq::empty() };
    let texts = seq![
        "game.id NOT IN (SELECT gameId FROM game_tags_tag GROUP BY gameId HAVING COUNT(gameId) >= ?)"@,
        "game.id IN (SELECT gameId FROM game_tags_tag GROUP BY gameId HAVING COUNT(gameId) > ?)"@,
        "game.id IN (SELECT gameId FROM game_tags_tag GROUP BY gameId HAVING COUNT(gameId) = ?)"@,
        "game.id NOT IN (SELECT gameId FROM game_platforms_platform GROUP BY gameId HAVING COUNT(gameId) >= ?)"@,
        "game.id IN (SELECT gameId FROM game_platforms_platform GROUP BY gameId HAVING COUNT(gameId) > ?)"@,
        "game.id IN (SELECT gameId FROM game_platforms_platform GROUP BY gameId HAVING COUNT(gameId) = ?)"@,
        "game.id NOT IN (SELECT parentGameId FROM additional_app GROUP BY parentGameId HAVING COUNT(parentGameId) >= ?)"@,
        "game.id IN (SELECT parentGameId FROM additional_app GROUP BY parentGameId HAVING COUNT(parentGameId) > ?)"@,
        "game.id IN (SELECT parentGameId FROM additional_app GROUP BY parentGameId HAVING COUNT(parentGameId) = ?)"@,
        "game.id NOT IN (SELECT gameId FROM game_data GROUP BY gameId HAVING COUNT(gameId) >= ?)"@,
        "game.id IN (SELECT gameId FROM game_data GROUP BY gameId HAVING COUNT(gameId) > ?)"@,
        "game.id IN (SELECT gameId FROM game_data GROUP BY gameId HAVING COUNT(gameId) = ?)"@
    ];
    let c = texts[i];
    assert(c.len() > 2);
    assert(own_clauses(e, f) == Acc { clauses: seq![c], params: seq![ParamView::Integer(n)] });
    lemma_single_clause(f, c, seq![ParamView::Integer(n)]);
}

proof fn lemma_add_single(a: Acc, field: Seq<char>, v: Seq<char>, exact: bool, blacklist: bool)
    ensures
        add_clause_spec(a, field, Some(seq![v]), exact, blacklist, false) == acc_push(
            a,
            if blacklist {
                parens(field_clause(field, comparator(blacklist, exact)))
            } else {
                field_clause(field, comparator(blacklist, exact))
            },
            seq![value_param(v, exact)],
        ),
{
    let one = field_clause(field, comparator(blacklist, exact));
    assert(copies(one, 1) =~= seq![one]);
    assert(value_params(seq![v], exact) =~= seq![value_param(v, exact)]);
    assert(seq![one].len() == 1);
    assert(join(seq![one], " AND "@) == one);
    assert(Seq::<Seq<char>>::empty() + seq![one] =~= seq![one]);
}

/// The whitelist text lists of `f` on plain game columns, in this order:
/// library, developer, publisher, series, play mode, status, notes, source,
/// original description, language, Ruffle support.
pub open spec fn whitelist_texts(f: GameFilter) -> Seq<Option<Seq<Seq<char>>>> {
    seq![
        f.whitelist.library.deep_view(),
        f.whitelist.developer.deep_view(),
        f.whitelist.publisher.deep_view(),
        f.whitelist.series.deep_view(),
        f.whitelist.play_mode.deep_view(),
        f.whitelist.status.deep_view(),
        f.whitelist.notes.deep_view(),
        f.whitelist.source.deep_view(),
        f.whitelist.original_description.deep_view(),
        f.whitelist.language.deep_view(),
        f.whitelist.ruffle_support.deep_view(),
    ]
}

/// Law: a filter (matching all terms) whose only term is one included value
/// `v` for a plain text column selects the games whose column contains `v`: its text is that one
/// comparison of that column, and its value `v` (wrapped in `%` for a
/// containment test).
#[verifier::rlimit(60)]
pub proof fn law_whitelist_text(f: GameFilter, i: int, v: Seq<char>)
    requires
        f.subfilters@.len() == 0,
        !f.match_any,
        no_own_terms(GameFilter { whitelist: FieldFilter { library: None, developer: None, publisher: None, series: None, play_mode: None, status: None, notes: None, source: None, original_description: None, language: None, ruffle_support: None, ..f.whitelist }, ..f }),
        0 <= i < 11,
        forall|j: int| 0 <= j < 11 ==> #[trigger] whitelist_texts(f)[j] == (if j == i { Some(seq![v]) } else { None }),
    ensures
        i == 0 ==> filter_output(f) == ("game.library LIKE ?"@, seq![ParamView::Text("%"@ + v + "%"@)]),
        i == 1 ==> filter_output(f) == ("game.developer LIKE ?"@, seq![ParamView::Text("%"@ + v + "%"@)]),
        i == 2 ==> filter_output(f) == ("game.publisher LIKE ?"@, seq![ParamView::Text("%"@ + v + "%"@)]),
        i == 3 ==> filter_output(f) == ("game.series LIKE ?"@, seq![ParamView::Text("%"@ + v + "%"@)]),
        i == 4 ==> filter_output(f) == ("game.playMode LIKE ?"@, seq![ParamView::Text("%"@ + v + "%"@)]),
        i == 5 ==> filter_output(f) == ("game.status LIKE ?"@, seq![ParamView::Text("%"@ + v + "%"@)]),
        i == 6 ==> filter_output(f) == ("game.notes LIKE ?"@, seq![ParamView::Text("%"@ + v + "%"@)]),
        i == 7 ==> filter_output(f) == ("game.source LIKE ?"@, seq![ParamView::Text("%"@ + v + "%"@)]),
        i == 8 ==> filter_output(f) == ("game.originalDescription LIKE ?"@, seq![ParamView::Text("%"@ + v + "%"@)]),
        i == 9 ==> filter_output(f) == ("game.language LIKE ?"@, seq![ParamView::Text("%"@ + v + "%"@)]),
        i == 10 ==> filter_output(f) == ("game.ruffleSupport LIKE ?"@, seq![ParamView::Text("%"@ + v + "%"@)]),
{
    reveal(field_lists_spec);
    reveal(stage_columns);
    reveal(stage_tags);
    reveal(stage_multi);
    reveal(stage_counts);
    reveal(stage_values);
    reveal(stage_ext);
    let p = whitelist_texts(f);
    assert(p[0] == (if i == 0 { Some(seq![v]) } else { None::<Seq<Seq<char>>> }));
    assert(p[1] == (if i == 1 { Some(seq![v]) } else { None::<Seq<Seq<char>>> }));
    assert(p[2] == (if i == 2 { Some(seq![v]) } else { None::<Seq<Seq<char>>> }));
    assert(p[3] == (if i == 3 { Some(seq![v]) } else { None::<Seq<Seq<char>>> }));
    assert(p[4] == (if i == 4 { Some(seq![v]) } else { None::<Seq<Seq<char>>> }));
    assert(p[5] == (if i == 5 { Some(seq![v]) } else { None::<Seq<Seq<char>>> }));
    assert(p[6] == (if i == 6 { Some(seq![v]) } else { None::<Seq<Seq<char>>> }));
    assert(p[7] == (if i == 7 { Some(seq![v]) } else { None::<Seq<Seq<char>>> }));
    assert(p[8] == (if i == 8 { Some(seq![v]) } else { None::<Seq<Seq<char>>> }));
    assert(p[9] == (if i == 9 { Some(seq![v]) } else { None::<Seq<Seq<char>>> }));
    assert(p[10] == (if i == 10 { Some(seq![v]) } else { None::<Seq<Seq<char>>> }));
    assert forall|a: Acc, col: Seq<char>| #[trigger] add_clause_spec(a, col, Some(seq![v]), false, false, false) == acc_push(a, if false { parens(field_clause(col, comparator(false, false))) } else { field_clause(col, comparator(false, false)) }, seq![value_param(v, false)]) by {
        lemma_add_single(a, col, v, false, false);
    }
    let col = seq!["library"@, "developer"@, "publisher"@, "series"@, "playMode"@, "status"@, "notes"@, "source"@, "originalDescription"@, "language"@, "ruffleSupport"@][i];
    let one = field_clause(col, comparator(false, false));
    let c = if false { parens(one) } else { one };
    let e = Acc { clauses: Seq::empty(), params: Seq::empty() };
    assert(own_clauses(e, f) == Acc { clauses: seq![c], params: seq![value_param(v, false)] });
    reveal_strlit(" ");
    reveal_strlit(" ?");
    reveal_strlit("%");
    reveal_strlit("(");
    reveal_strlit(")");
    reveal_strlit("LIKE");
    reveal_strlit("developer");
    reveal_strlit("game.");
    reveal_strlit("game.developer LIKE ?");
    reveal_strlit("game.language LIKE ?");
    reveal_strlit("game.library LIKE ?");
    reveal_strlit("game.notes LIKE ?");
    reveal_strlit("game.originalDescription LIKE ?");
    reveal_strlit("game.playMode LIKE ?");
    reveal_strlit("game.publisher LIKE ?");
    reveal_strlit("game.ruffleSupport LIKE ?");
    reveal_strlit("game.series LIKE ?");
    reveal_strlit("game.source LIKE ?");
    reveal_strlit("game.status LIKE ?");
    reveal_strlit("language");
    reveal_strlit("library");
    reveal_strlit("notes");
    reveal_strlit("originalDescription");
    reveal_strlit("playMode");
    reveal_strlit("publisher");
    reveal_strlit("ruffleSupport");
    reveal_strlit("series");
    reveal_strlit("source");
    reveal_strlit("status");
    assert(i == 0 ==> c =~= "game.library LIKE ?"@);
    assert(i == 1 ==> c =~= "game.developer LIKE ?"@);
    assert(i == 2 ==> c =~= "game.publisher LIKE ?"@);
    assert(i == 3 ==> c =~= "game.series LIKE ?"@);
    assert(i == 4 ==> c =~= "game.playMode LIKE ?"@);
    assert(i == 5 ==> c =~= "game.status LIKE ?"@);
    assert(i == 6 ==> c =~= "game.notes LIKE ?"@);
    assert(i == 7 ==> c =~= "game.source LIKE ?"@);
    assert(i == 8 ==> c =~= "game.originalDescription LIKE ?"@);
    assert(i == 9 ==> c =~= "game.language LIKE ?"@);
    assert(i == 10 ==> c =~= "game.ruffleSupport LIKE ?"@);
    assert(c.len() > 2);
    lemma_single_clause(f, c, seq![value_param(v, false)]);
}

/// The blacklist text lists of `f` on plain game columns, in this order:
/// library, developer, publisher, series, play mode, status, notes, source,
/// original description, language, Ruffle support.
pub open spec fn blacklist_texts(f: GameFilter) -> Seq<Option<Seq<Seq<char>>>> {
    seq![
        f.blacklist.library.deep_view(),
        f.blacklist.developer.deep_view(),
        f.blacklist.publisher.deep_view(),
        f.blacklist.series.deep_view(),
        f.blacklist.play_mode.deep_view(),
        f.blacklist.status.deep_view(),
        f.blacklist.notes.deep_view(),
        f.blacklist.source.deep_view(),
        f.blacklist.original_description.deep_view(),
        f.blacklist.language.deep_view(),
        f.blacklist.ruffle_support.deep_view(),
    ]
}

/// Law: a filter (matching all terms) whose only term is one excluded value
/// `v` for a plain text column selects the games whose column does not contain `v`: its text is that one
/// comparison of that column, and its value `v` (wrapped in `%` for a
/// containment test).
#[verifier::rlimit(60)]
pub proof fn law_blacklist_text(f: GameFilter, i: int, v: Seq<char>)
    requires
        f.subfilters@.len() == 0,
        !f.match_any,
        no_own_terms(GameFilter { blacklist: FieldFilter { library: None, developer: None, publisher: None, series: None, play_mode: None, status: None, notes: None, source: None, original_description: None, language: None, ruffle_support: None, ..f.blacklist }, ..f }),
        0 <= i < 11,
        forall|j: int| 0 <= j < 11 ==> #[trigger] blacklist_texts(f)[j] == (if j == i { Some(seq![v]) } else { None }),
    ensures
        i == 0 ==> filter_output(f) == ("(game.library NOT LIKE ?)"@, seq![ParamView::Text("%"@ + v + "%"@)]),
        i == 1 ==> filter_output(f) == ("(game.developer NOT LIKE ?)"@, seq![ParamView::Text("%"@ + v + "%"@)]),
        i == 2 ==> filter_output(f) == ("(game.publisher NOT LIKE ?)"@, seq![ParamView::Text("%"@ + v + "%"@)]),
        i == 3 ==> filter_output(f) == ("(game.series NOT LIKE ?)"@, seq![ParamView::Text("%"@ + v + "%"@)]),
        i == 4 ==> filter_output(f) == ("(game.playMode NOT LIKE ?)"@, seq![ParamView::Text("%"@ + v + "%"@)]),
        i == 5 ==> filter_output(f) == ("(game.status NOT LIKE ?)"@, seq![ParamView::Text("%"@ + v + "%"@)]),
        i == 6 ==> filter_output(f) == ("(game.notes NOT LIKE ?)"@, seq![ParamView::Text("%"@ + v + "%"@)]),
        i == 7 ==> filter_output(f) == ("(game.source NOT LIKE ?)"@, seq![ParamView::Text("%"@ + v + "%"@)]),
        i == 8 ==> filter_output(f) == ("(game.originalDescription NOT LIKE ?)"@, seq![ParamView::Text("%"@ + v + "%"@)]),
        i == 9 ==> filter_output(f) == ("(game.language NOT LIKE ?)"@, seq![ParamView::Text("%"@ + v + "%"@)]),
        i == 10 ==> filter_output(f) == ("(game.ruffleSupport NOT LIKE ?)"@, seq![ParamView::Text("%"@ + v + "%"@)]),
{
    reveal(field_lists_spec);
    reveal(stage_columns);
    reveal(stage_tags);
    reveal(stage_multi);
    reveal(stage_counts);
    reveal(stage_values);
    reveal(stage_ext);
    let p = blacklist_texts(f);
    assert(p[0] == (if i == 0 { Some(seq![v]) } else { None::<Seq<Seq<char>>> }));
    assert(p[1] == (if i == 1 { Some(seq![v]) } else { None::<Seq<Seq<char>>> }));
    assert(p[2] == (if i == 2 { Some(seq![v]) } else { None::<Seq<Seq<char>>> }));
    assert(p[3] == (if i == 3 { Some(seq![v]) } else { None::<Seq<Seq<char>>> }));
    assert(p[4] == (if i == 4 { Some(seq![v]) } else { None::<Seq<Seq<char>>> }));
    assert(p[5] == (if i == 5 { Some(seq![v]) } else { None::<Seq<Seq<char>>> }));
    assert(p[6] == (if i == 6 { Some(seq![v]) } else { None::<Seq<Seq<char>>> }));
    assert(p[7] == (if i == 7 { Some(seq![v]) } else { None::<Seq<Seq<char>>> }));
    assert(p[8] == (if i == 8 { Some(seq![v]) } else { None::<Seq<Seq<char>>> }));
    assert(p[9] == (if i == 9 { Some(seq![v]) } else { None::<Seq<Seq<char>>> }));
    assert(p[10] == (if i == 10 { Some(seq![v]) } else { None::<Seq<Seq<char>>> }));
    assert forall|a: Acc, col: Seq<char>| #[trigger] add_clause_spec(a, col, Some(seq![v]), false, true, false) == acc_push(a, if true { parens(field_clause(col, comparator(true, false))) } else { field_clause(col, comparator(true, false)) }, seq![value_param(v, false)]) by {
        lemma_add_single(a, col, v, false, true);
    }
    let col = seq!["library"@, "developer"@, "publisher"@, "series"@, "playMode"@, "status"@, "notes"@, "source"@, "originalDescription"@, "language"@, "ruffleSupport"@][i];
    let one = field_clause(col, comparator(true, false));
    let c = if true { parens(one) } else { one };
    let e = Acc { clauses: Seq::empty(), params: Seq::empty() };
    assert(own_clauses(e, f) == Acc { clauses: seq![c], params: seq![value_param(v, false)] });
    reveal_strlit(" ");
    reveal_strlit(" ?");
    reveal_strlit("%");
    reveal_strlit("(");
    reveal_strlit("(game.developer NOT LIKE ?)");
    reveal_strlit("(game.language NOT LIKE ?)");
    reveal_strlit("(game.library NOT LIKE ?)");
    reveal_strlit("(game.notes NOT LIKE ?)");
    reveal_strlit("(game.originalDescription NOT LIKE ?)");
    reveal_strlit("(game.playMode NOT LIKE ?)");
    reveal_strlit("(game.publisher NOT LIKE ?)");
    reveal_strlit("(game.ruffleSupport NOT LIKE ?)");
    reveal_strlit("(game.series NOT LIKE ?)");
    reveal_strlit("(game.source NOT LIKE ?)");
    reveal_strlit("(game.status NOT LIKE ?)");
    reveal_strlit(")");
    reveal_strlit("NOT LIKE");
    reveal_strlit("developer");
    reveal_strlit("game.");
    reveal_strlit("language");
    reveal_strlit("library");
    reveal_strlit("notes");
    reveal_strlit("originalDescription");
    reveal_strlit("playMode");
    reveal_strlit("publisher");
    reveal_strlit("ruffleSupport");
    reveal_strlit("series");
    reveal_strlit("source");
    reveal_strlit("status");
    assert(i == 0 ==> c =~= "(game.library NOT LIKE ?)"@);
    assert(i == 1 ==> c =~= "(game.developer NOT LIKE ?)"@);
    assert(i == 2 ==> c =~= "(game.publisher NOT LIKE ?)"@);
    assert(i == 3 ==> c =~= "(game.series NOT LIKE ?)"@);
    assert(i == 4 ==> c =~= "(game.playMode NOT LIKE ?)"@);
    assert(i == 5 ==> c =~= "(game.status NOT LIKE ?)"@);
    assert(i == 6 ==> c =~= "(game.notes NOT LIKE ?)"@);
    assert(i == 7 ==> c =~= "(game.source NOT LIKE ?)"@);
    assert(i == 8 ==> c =~= "(game.originalDescription NOT LIKE ?)"@);
    assert(i == 9 ==> c =~= "(game.language NOT LIKE ?)"@);
    assert(i == 10 ==> c =~= "(game.ruffleSupport NOT LIKE ?)"@);
    assert(c.len() > 2);
    lemma_single_clause(f, c, seq![value_param(v, false)]);
}

/// The exact_whitelist text lists of `f` on plain game columns, in this order:
/// library, developer, publisher, series, play mode, status, notes, source,
/// original description, language, Ruffle support.
pub open spec fn exact_whitelist_texts(f: GameFilter) -> Seq<Option<Seq<Seq<char>>>> {
    seq![
        f.exact_whitelist.library.deep_view(),
        f.exact_whitelist.developer.deep_view(),
        f.exact_whitelist.publisher.deep_view(),
        f.exact_whitelist.series.deep_view(),
        f.exact_whitelist.play_mode.deep_view(),
        f.exact_whitelist.status.deep_view(),
        f.exact_whitelist.notes.deep_view(),
        f.exact_whitelist.source.deep_view(),
        f.exact_whitelist.original_description.deep_view(),
        f.exact_whitelist.language.deep_view(),
        f.exact_whitelist.ruffle_support.deep_view(),
    ]
}

/// Law: a filter (matching all terms) whose only term is one exactly included value
/// `v` for a plain text column selects the games whose column is `v`: its text is that one
/// comparison of that column, and its value `v` (wrapped in `%` for a
/// containment test).
#[verifier::rlimit(60)]
pub proof fn law_exact_whitelist_text(f: GameFilter, i: int, v: Seq<char>)
    requires
        f.subfilters@.len() == 0,
        !f.match_any,
        no_own_terms(GameFilter { exact_whitelist: FieldFilter { library: None, developer: None, publisher: None, series: None, play_mode: None, status: None, notes: None, source: None, original_description: None, language: None, ruffle_support: None, ..f.exact_whitelist }, ..f }),
        0 <= i < 11,
        forall|j: int| 0 <= j < 11 ==> #[trigger] exact_whitelist_texts(f)[j] == (if j == i { Some(seq![v]) } else { None }),
    ensures
        i == 0 ==> filter_output(f) == ("game.library = ?"@, seq![ParamView::Text(v)]),
        i == 1 ==> filter_output(f) == ("game.developer = ?"@, seq![ParamView::Text(v)]),
        i == 2 ==> filter_output(f) == ("game.publisher = ?"@, seq![ParamView::Text(v)]),
        i == 3 ==> filter_output(f) == ("game.series = ?"@, seq![ParamView::Text(v)]),
        i == 4 ==> filter_output(f) == ("game.playMode = ?"@, seq![ParamView::Text(v)]),
        i == 5 ==> filter_output(f) == ("game.status = ?"@, seq![ParamView::Text(v)]),
        i == 6 ==> filter_output(f) == ("game.notes = ?"@, seq![ParamView::Text(v)]),
        i == 7 ==> filter_output(f) == ("game.source = ?"@, seq![ParamView::Text(v)]),
        i == 8 ==> filter_output(f) == ("game.originalDescription = ?"@, seq![ParamView::Text(v)]),
        i == 9 ==> filter_output(f) == ("game.language = ?"@, seq![ParamView::Text(v)]),
        i == 10 ==> filter_output(f) == ("game.ruffleSupport = ?"@, seq![ParamView::Text(v)]),
{
    reveal(field_lists_spec);
    reveal(stage_columns);
    reveal(stage_tags);
    reveal(stage_multi);
    reveal(stage_counts);
    reveal(stage_values);
    reveal(stage_ext);
    let p = exact_whitelist_texts(f);
    assert(p[0] == (if i == 0 { Some(seq![v]) } else { None::<Seq<Seq<char>>> }));
    assert(p[1] == (if i == 1 { Some(seq![v]) } else { None::<Seq<Seq<char>>> }));
    assert(p[2] == (if i == 2 { Some(seq![v]) } else { None::<Seq<Seq<char>>> }));
    assert(p[3] == (if i == 3 { Some(seq![v]) } else { None::<Seq<Seq<char>>> }));
    assert(p[4] == (if i == 4 { Some(seq![v]) } else { None::<Seq<Seq<char>>> }));
    assert(p[5] == (if i == 5 { Some(seq![v]) } else { None::<Seq<Seq<char>>> }));
    assert(p[6] == (if i == 6 { Some(seq![v]) } else { None::<Seq<Seq<char>>> }));
    assert(p[7] == (if i == 7 { Some(seq![v]) } else { None::<Seq<Seq<char>>> }));
    assert(p[8] == (if i == 8 { Some(seq![v]) } else { None::<Seq<Seq<char>>> }));
    assert(p[9] == (if i == 9 { Some(seq![v]) } else { None::<Seq<Seq<char>>> }));
    assert(p[10] == (if i == 10 { Some(seq![v]) } else { None::<Seq<Seq<char>>> }));
    assert forall|a: Acc, col: Seq<char>| #[trigger] add_clause_spec(a, col, Some(seq![v]), true, false, false) == acc_push(a, if false { parens(field_clause(col, comparator(false, true))) } else { field_clause(col, comparator(false, true)) }, seq![value_param(v, true)]) by {
        lemma_add_single(a, col, v, true, false);
    }
    let col = seq!["library"@, "developer"@, "publisher"@, "series"@, "playMode"@, "status"@, "notes"@, "source"@, "originalDescription"@, "language"@, "ruffleSupport"@][i];
    let one = field_clause(col, comparator(false, true));
    let c = if false { parens(one) } else { one };
    let e = Acc { clauses: Seq::empty(), params: Seq::empty() };
    assert(own_clauses(e, f) == Acc { clauses: seq![c], params: seq![value_param(v, true)] });
    reveal_strlit(" ");
    reveal_strlit(" ?");
    reveal_strlit("%");
    reveal_strlit("(");
    reveal_strlit(")");
    reveal_strlit("=");
    reveal_strlit("developer");
    reveal_strlit("game.");
    reveal_strlit("game.developer = ?");
    reveal_strlit("game.language = ?");
    reveal_strlit("game.library = ?");
    reveal_strlit("game.notes = ?");
    reveal_strlit("game.originalDescription = ?");
    reveal_strlit("game.playMode = ?");
    reveal_strlit("game.publisher = ?");
    reveal_strlit("game.ruffleSupport = ?");
    reveal_strlit("game.series = ?");
    reveal_strlit("game.source = ?");
    reveal_strlit("game.status = ?");
    reveal_strlit("language");
    reveal_strlit("library");
    reveal_strlit("notes");
    reveal_strlit("originalDescription");
    reveal_strlit("playMode");
    reveal_strlit("publisher");
    reveal_strlit("ruffleSupport");
    reveal_strlit("series");
    reveal_strlit("source");
    reveal_strlit("status");
    assert(i == 0 ==> c =~= "game.library = ?"@);
    assert(i == 1 ==> c =~= "game.developer = ?"@);
    assert(i == 2 ==> c =~= "game.publisher = ?"@);
    assert(i == 3 ==> c =~= "game.series = ?"@);
    assert(i == 4 ==> c =~= "game.playMode = ?"@);
    assert(i == 5 ==> c =~= "game.status = ?"@);
    assert(i == 6 ==> c =~= "game.notes = ?"@);
    assert(i == 7 ==> c =~= "game.source = ?"@);
    assert(i == 8 ==> c =~= "game.originalDescription = ?"@);
    assert(i == 9 ==> c =~= "game.language = ?"@);
    assert(i == 10 ==> c =~= "game.ruffleSupport = ?"@);
    assert(c.len() > 2);
    lemma_single_clause(f, c, seq![value_param(v, true)]);
}

/// The exact_blacklist text lists of `f` on plain game columns, in this order:
/// library, developer, publisher, series, play mode, status, notes, source,
/// original description, language, Ruffle support.
pub open spec fn exact_blacklist_texts(f: GameFilter) -> Seq<Option<Seq<Seq<char>>>> {
    seq![
        f.exact_blacklist.library.deep_view(),
        f.exact_blacklist.developer.deep_view(),
        f.exact_blacklist.publisher.deep_view(),
        f.exact_blacklist.series.deep_view(),
        f.exact_blacklist.play_mode.deep_view(),
        f.exact_blacklist.status.deep_view(),
        f.exact_blacklist.notes.deep_view(),
        f.exact_blacklist.source.deep_view(),
        f.exact_blacklist.original_description.deep_view(),
        f.exact_blacklist.language.deep_view(),
        f.exact_blacklist.ruffle_support.deep_view(),
    ]
}

/// Law: a filter (matching all terms) whose only term is one exactly excluded value
/// `v` for a plain text column selects the games whose column is not `v`: its text is that one
/// comparison of that column, and its value `v` (wrapped in `%` for a
/// containment test).
#[verifier::rlimit(60)]
pub proof fn law_exact_blacklist_text(f: GameFilter, i: int, v: Seq<char>)
    requires
        f.subfilters@.len() == 0,
        !f.match_any,
        no_own_terms(GameFilter { exact_blacklist: FieldFilter { library: None, developer: None, publisher: None, series: None, play_mode: None, status: None, notes: None, source: None, original_description: None, language: None, ruffle_support: None, ..f.exact_blacklist }, ..f }),
        0 <= i < 11,
        forall|j: int| 0 <= j < 11 ==> #[trigger] exact_blacklist_texts(f)[j] == (if j == i { Some(seq![v]) } else { None }),
    ensures
        i == 0 ==> filter_output(f) == ("(game.library != ?)"@, seq![ParamView::Text(v)]),
        i == 1 ==> filter_output(f) == ("(game.developer != ?)"@, seq![ParamView::Text(v)]),
        i == 2 ==> filter_output(f) == ("(game.publisher != ?)"@, seq![ParamView::Text(v)]),
        i == 3 ==> filter_output(f) == ("(game.series != ?)"@, seq![ParamView::Text(v)]),
        i == 4 ==> filter_output(f) == ("(game.playMode != ?)"@, seq![ParamView::Text(v)]),
        i == 5 ==> filter_output(f) == ("(game.status != ?)"@, seq![ParamView::Text(v)]),
        i == 6 ==> filter_output(f) == ("(game.notes != ?)"@, seq![ParamView::Text(v)]),
        i == 7 ==> filter_output(f) == ("(game.source != ?)"@, seq![ParamView::Text(v)]),
        i == 8 ==> filter_output(f) == ("(game.originalDescription != ?)"@, seq![ParamView::Text(v)]),
        i == 9 ==> filter_output(f) == ("(game.language != ?)"@, seq![ParamView::Text(v)]),
        i == 10 ==> filter_output(f) == ("(game.ruffleSupport != ?)"@, seq![ParamView::Text(v)]),
{
    reveal(field_lists_spec);
    reveal(stage_columns);
    reveal(stage_tags);
    reveal(stage_multi);
    reveal(stage_counts);
    reveal(stage_values);
    reveal(stage_ext);
    let p = exact_blacklist_texts(f);
    assert(p[0] == (if i == 0 { Some(seq![v]) } else { None::<Seq<Seq<char>>> }));
    assert(p[1] == (if i == 1 { Some(seq![v]) } else { None::<Seq<Seq<char>>> }));
    assert(p[2] == (if i == 2 { Some(seq![v]) } else { None::<Seq<Seq<char>>> }));
    assert(p[3] == (if i == 3 { Some(seq![v]) } else { None::<Seq<Seq<char>>> }));
    assert(p[4] == (if i == 4 { Some(seq![v]) } else { None::<Seq<Seq<char>>> }));
    assert(p[5] == (if i == 5 { Some(seq![v]) } else { None::<Seq<Seq<char>>> }));
    assert(p[6] == (if i == 6 { Some(seq![v]) } else { None::<Seq<Seq<char>>> }));
    assert(p[7] == (if i == 7 { Some(seq![v]) } else { None::<Seq<Seq<char>>> }));
    assert(p[8] == (if i == 8 { Some(seq![v]) } else { None::<Seq<Seq<char>>> }));
    assert(p[9] == (if i == 9 { Some(seq![v]) } else { None::<Seq<Seq<char>>> }));
    assert(p[10] == (if i == 10 { Some(seq![v]) } else { None::<Seq<Seq<char>>> }));
    assert forall|a: Acc, col: Seq<char>| #[trigger] add_clause_spec(a, col, Some(seq![v]), true, true, false) == acc_push(a, if true { parens(field_clause(col, comparator(true, true))) } else { field_clause(col, comparator(true, true)) }, seq![value_param(v, true)]) by {
        lemma_add_single(a, col, v, true, true);
    }
    let col = seq!["library"@, "developer"@, "publisher"@, "series"@, "playMode"@, "status"@, "notes"@, "source"@, "originalDescription"@, "language"@, "ruffleSupport"@][i];
    let one = field_clause(col, comparator(true, true));
    let c = if true { parens(one) } else { one };
    let e = Acc { clauses: Seq::empty(), params: Seq::empty() };
    assert(own_clauses(e, f) == Acc { clauses: seq![c], params: seq![value_param(v, true)] });
    reveal_strlit(" ");
    reveal_strlit(" ?");
    reveal_strlit("!=");
    reveal_strlit("%");
    reveal_strlit("(");
    reveal_strlit("(game.developer != ?)");
    reveal_strlit("(game.language != ?)");
    reveal_strlit("(game.library != ?)");
    reveal_strlit("(game.notes != ?)");
    reveal_strlit("(game.originalDescription != ?)");
    reveal_strlit("(game.playMode != ?)");
    reveal_strlit("(game.publisher != ?)");
    reveal_strlit("(game.ruffleSupport != ?)");
    reveal_strlit("(game.series != ?)");
    reveal_strlit("(game.source != ?)");
    reveal_strlit("(game.status != ?)");
    reveal_strlit(")");
    reveal_strlit("developer");
    reveal_strlit("game.");
    reveal_strlit("language");
    reveal_strlit("library");
    reveal_strlit("notes");
    reveal_strlit("originalDescription");
    reveal_strlit("playMode");
    reveal_strlit("publisher");
    reveal_strlit("ruffleSupport");
    reveal_strlit("series");
    reveal_strlit("source");
    reveal_strlit("status");
    assert(i == 0 ==> c =~= "(game.library != ?)"@);
    assert(i == 1 ==> c =~= "(game.developer != ?)"@);
    assert(i == 2 ==> c =~= "(game.publisher != ?)"@);
    assert(i == 3 ==> c =~= "(game.series != ?)"@);
    assert(i == 4 ==> c =~= "(game.playMode != ?)"@);
    assert(i == 5 ==> c =~= "(game.status != ?)"@);
    assert(i == 6 ==> c =~= "(game.notes != ?)"@);
    assert(i == 7 ==> c =~= "(game.source != ?)"@);
    assert(i == 8 ==> c =~= "(game.originalDescription != ?)"@);
    assert(i == 9 ==> c =~= "(game.language != ?)"@);
    assert(i == 10 ==> c =~= "(game.ruffleSupport != ?)"@);
    assert(c.len() > 2);
    lemma_single_clause(f, c, seq![value_param(v, true)]);
}

/// Whether sorting by `c` sorts by a column of the game table (every
/// sortable column but random and custom order).
pub open spec fn sorts_by_game_column(c: GameSearchSortable) -> bool {
    c != GameSearchSortable::RANDOM && c != GameSearchSortable::CUSTOM
}

/// Law: a search sorted by a column of the game table (and not by an
/// extension value) orders by that column: titles by `game.title`,
/// developers by `game.developer`, and so on; and two searches sorted by
/// different columns order by different game columns.
pub proof fn law_order_columns(s: GameSearch, t: GameSearch)
    requires
        s.ext_order is None,
        t.ext_order is None,
    ensures
        s.order.column == GameSearchSortable::TITLE ==> order_column(s) == "game.title"@,
        s.order.column == GameSearchSortable::DEVELOPER ==> order_column(s) == "game.developer"@,
        s.order.column == GameSearchSortable::PUBLISHER ==> order_column(s) == "game.publisher"@,
        s.order.column == GameSearchSortable::SERIES ==> order_column(s) == "game.series"@,
        s.order.column == GameSearchSortable::PLATFORM ==> order_column(s) == "game.platformName"@,
        s.order.column == GameSearchSortable::DATEADDED ==> order_column(s) == "game.dateAdded"@,
        s.order.column == GameSearchSortable::DATEMODIFIED ==> order_column(s) == "game.dateModified"@,
        s.order.column == GameSearchSortable::RELEASEDATE ==> order_column(s) == "game.releaseDate"@,
        s.order.column == GameSearchSortable::LASTPLAYED ==> order_column(s) == "game.lastPlayed"@,
        s.order.column == GameSearchSortable::PLAYTIME ==> order_column(s) == "game.playtime"@,
        sorts_by_game_column(s.order.column) && sorts_by_game_column(t.order.column) && s.order.column
            != t.order.column ==> order_column(s) != order_column(t),
{
    reveal_strlit("game.title");
    reveal_strlit("game.developer");
    reveal_strlit("game.publisher");
    reveal_strlit("game.series");
    reveal_strlit("game.platformName");
    reveal_strlit("game.dateAdded");
    reveal_strlit("game.dateModified");
    reveal_strlit("game.releaseDate");
    reveal_strlit("game.lastPlayed");
    reveal_strlit("game.playtime");
    let a = order_column(s);
    let b = order_column(t);
    if sorts_by_game_column(s.order.column) && sorts_by_game_column(t.order.column) && s.order.column
        != t.order.column {
        if a.len() == b.len() {
            assert(a[5] != b[5] || a[6] != b[6] || a[7] != b[7] || a[9] != b[9]);
        }
    }
}

fn order_column_exec(s: &GameSearch) -> (r: &'static str)
    ensures
        r@ == order_column(*s),
{
    if s.ext_order.is_some() {
        "OrderedExt.ExtValue"
    } else {
        match s.order.column {
            GameSearchSortable::TITLE => "game.title",
            GameSearchSortable::DEVELOPER => "game.developer",
            GameSearchSortable::PUBLISHER => "game.publisher",
            GameSearchSortable::SERIES => "game.series",
            GameSearchSortable::PLATFORM => "game.platformName",
            GameSearchSortable::DATEADDED => "game.dateAdded",
            GameSearchSortable::DATEMODIFIED => "game.dateModified",
            GameSearchSortable::RELEASEDATE => "game.releaseDate",
            GameSearchSortable::LASTPLAYED => "game.lastPlayed",
            GameSearchSortable::PLAYTIME => "game.playtime",
            GameSearchSortable::CUSTOM => "OrderedIDs.RowNum",
            _ => "unknown",
        }
    }
}

pub open spec fn order_direction(d: GameSearchDirection) -> Seq<char> {
    match d {
        GameSearchDirection::ASC => "ASC"@,
        GameSearchDirection::DESC => "DESC"@,
    }
}

fn order_direction_exec(d: GameSearchDirection) -> (r: &'static str)
    ensures
        r@ == order_direction(d),
{
    match d {
        GameSearchDirection::ASC => "ASC",
        GameSearchDirection::DESC => "DESC",
    }
}

/// The value bound for the order value of a page boundary: numbers as
/// reals, text as itself, anything else as empty text.
pub open spec fn offset_param(v: JsonValue) -> ParamView {
    match v {
        JsonValue::Integer(n) => ParamView::Real(int_decimal(n as int)),
        JsonValue::Real(t) => ParamView::Real(t@),
        JsonValue::Text(t) => ParamView::Text(t@),
        _ => ParamView::Text(Seq::empty()),
    }
}

fn offset_param_exec(v: &JsonValue) -> (r: SearchParam)
    ensures
        param_view(r) == offset_param(*v),
{
    match v {
        JsonValue::Integer(n) => SearchParam::Real(string_of(&i64_decimal(*n))),
        JsonValue::Real(t) => SearchParam::Real(t.clone()),
        JsonValue::Text(t) => SearchParam::String(t.clone()),
        _ => SearchParam::String(String::new()),
    }
}

/// The joins a search needs before its `WHERE`: the extension order or the
/// custom order, then the tag filter index.
pub open spec fn search_joins(s: GameSearch, selection: Seq<char>) -> Seq<char> {
    let q1 = if s.ext_order is Some {
        selection + " INNER JOIN OrderedExt ON game.id = OrderedExt.id"@
    } else if s.order.column == GameSearchSortable::CUSTOM {
        selection + " INNER JOIN OrderedIDs ON game.id = OrderedIDs.id"@
    } else {
        selection
    };
    match s.with_tag_filter {
        Some(tags) if tags@.len() > 0 => q1 + " INNER JOIN tag_filter_index ON game.id = tag_filter_index.id"@,
        _ => q1,
    }
}

/// The page boundary condition and its values: after the boundary in the
/// search's order.
pub open spec fn offset_clause(s: GameSearch) -> (Seq<char>, Seq<ParamView>) {
    match s.offset {
        None => (Seq::empty(), Seq::empty()),
        Some(off) => if s.order.column == GameSearchSortable::CUSTOM {
            (" WHERE OrderedIDs.RowNum > ?"@, seq![offset_param(off.value)])
        } else {
            let op = match s.order.direction {
                GameSearchDirection::ASC => ">"@,
                GameSearchDirection::DESC => "<"@,
            };
            (
                " WHERE ("@ + order_column(s) + " COLLATE NOCASE, game.title, game.id) "@ + op + " (?, ?, ?)"@,
                seq![offset_param(off.value), ParamView::Text(off.title@), ParamView::Text(off.game_id@)],
            )
        },
    }
}

/// The ordering and the page size.
pub open spec fn order_clause(s: GameSearch) -> Seq<char> {
    let limit = " LIMIT "@ + int_decimal(s.limit as int);
    if s.order.column == GameSearchSortable::RANDOM {
        " ORDER BY RANDOM()"@ + limit
    } else if s.order.column == GameSearchSortable::CUSTOM {
        " ORDER BY OrderedIDs.RowNum"@ + limit
    } else {
        let d = order_direction(s.order.direction);
        " ORDER BY "@ + order_column(s) + " COLLATE NOCASE "@ + d + ", game.title "@ + d + limit
    }
}

/// The query text of a search after `selection`, given the text and
/// values of its filter: the page boundary's values come before the
/// filter's.
pub open spec fn search_query_with(s: GameSearch, selection: Seq<char>, w: Seq<char>, fps: Seq<ParamView>) -> (
    Seq<char>,
    Seq<ParamView>,
) {
    let (oc, ops) = offset_clause(s);
    let q = search_joins(s, selection) + oc;
    let q2 = if w.len() > 0 && w != "()"@ {
        q + (if s.offset is Some {
            " AND ("@
        } else {
            " WHERE ("@
        }) + w + ")"@
    } else {
        q
    };
    (q2 + order_clause(s), ops + fps)
}

/// The query text of a search after `selection`, and its values.
pub open spec fn search_query(s: GameSearch, selection: Seq<char>) -> (Seq<char>, Seq<ParamView>) {
    search_query_with(s, selection, filter_output(s.filter).0, filter_output(s.filter).1)
}

/// Law: every search query ends with its ordering and page size. A search
/// sorted by a column of the game table (and not by an extension value)
/// ends with `ORDER BY` that column, case-insensitively, then the title, both
/// ascending (`ASC`) or both descending (`DESC`) as the search asks, then
/// `LIMIT` and the page size; a random order ends with `ORDER BY RANDOM()`.
pub proof fn law_search_query_order(s: GameSearch, selection: Seq<char>)
    ensures
        ({
            let q = search_query(s, selection).0;
            let d = if s.order.direction == GameSearchDirection::ASC { "ASC"@ } else { "DESC"@ };
            let limit = " LIMIT "@ + int_decimal(s.limit as int);
            let tail = if s.order.column == GameSearchSortable::RANDOM {
                " ORDER BY RANDOM()"@ + limit
            } else if sorts_by_game_column(s.order.column) && s.ext_order is None {
                " ORDER BY "@ + order_column(s) + " COLLATE NOCASE "@ + d + ", game.title "@ + d + limit
            } else {
                order_clause(s)
            };
            &&& tail.len() <= q.len()
            &&& q.subrange(q.len() - tail.len(), q.len() as int) == tail
        }),
{
    let (w, fps) = filter_output(s.filter);
    let (oc, ops) = offset_clause(s);
    let q0 = search_joins(s, selection) + oc;
    let q2 = if w.len() > 0 && w != "()"@ {
        q0 + (if s.offset is Some { " AND ("@ } else { " WHERE ("@ }) + w + ")"@
    } else {
        q0
    };
    let q = search_query(s, selection).0;
    assert(q == q2 + order_clause(s));
    assert(q.subrange(q2.len() as int, q.len() as int) =~= order_clause(s));
}

fn search_joins_exec(search: &GameSearch, selection: &str) -> (r: Vec<char>)
    ensures
        r@ == search_joins(*search, selection@),
{
    let mut q: Vec<char> = crate::text::to_chars(selection);
    if search.ext_order.is_some() {
        append_str(&mut q, " INNER JOIN OrderedExt ON game.id = OrderedExt.id");
    } else if search.order.column == GameSearchSortable::CUSTOM {
        append_str(&mut q, " INNER JOIN OrderedIDs ON game.id = OrderedIDs.id");
    }
    match &search.with_tag_filter {
        Some(tags) => {
            if tags.len() > 0 {
                append_str(&mut q, " INNER JOIN tag_filter_index ON game.id = tag_filter_index.id");
            }
        },
        None => {},
    }
    q
}

fn offset_clause_exec(search: &GameSearch) -> (r: (Vec<char>, Vec<SearchParam>))
    ensures
        r.0@ == offset_clause(*search).0,
        params_view(r.1@) == offset_clause(*search).1,
{
    let mut q: Vec<char> = Vec::new();
    let mut params: Vec<SearchParam> = Vec::new();
    match &search.offset {
        Some(off) => {
            let v = offset_param_exec(&off.value);
            if search.order.column == GameSearchSortable::CUSTOM {
                append_str(&mut q, " WHERE OrderedIDs.RowNum > ?");
                params.push(v);
            } else {
                append_str(&mut q, " WHERE (");
                append_str(&mut q, order_column_exec(search));
                append_str(&mut q, " COLLATE NOCASE, game.title, game.id) ");
                match search.order.direction {
                    GameSearchDirection::ASC => append_str(&mut q, ">"),
                    GameSearchDirection::DESC => append_str(&mut q, "<"),
                }
                append_str(&mut q, " (?, ?, ?)");
                params.push(v);
                params.push(SearchParam::String(off.title.clone()));
                params.push(SearchParam::String(off.game_id.clone()));
            }
        },
        None => {},
    }
    assert(q@ =~= offset_clause(*search).0);
    assert(params_view(params@) =~= offset_clause(*search).1);
    (q, params)
}

fn order_clause_exec(search: &GameSearch) -> (r: Vec<char>)
    ensures
        r@ == order_clause(*search),
{
    let mut q: Vec<char> = Vec::new();
    if search.order.column == GameSearchSortable::RANDOM {
        append_str(&mut q, " ORDER BY RANDOM()");
    } else if search.order.column == GameSearchSortable::CUSTOM {
        append_str(&mut q, " ORDER BY OrderedIDs.RowNum");
    } else {
        let oc = order_column_exec(search);
        let dir = order_direction_exec(search.order.direction);
        append_str(&mut q, " ORDER BY ");
        append_str(&mut q, oc);
        append_str(&mut q, " COLLATE NOCASE ");
        append_str(&mut q, dir);
        append_str(&mut q, ", game.title ");
        append_str(&mut q, dir);
    }
    append_str(&mut q, " LIMIT ");
    append_chars(&mut q, &i64_decimal(search.limit));
    assert(q@ =~= order_clause(*search));
    q
}

fn assemble_search_query(search: &GameSearch, selection: &str, w: &Vec<char>, fps: Vec<SearchParam>) -> (r: (
    String,
    Vec<SearchParam>,
))
    ensures
        r.0@ == search_query_with(*search, selection@, w@, params_view(fps@)).0,
        params_view(r.1@) == search_query_with(*search, selection@, w@, params_view(fps@)).1,
{
    let mut fps = fps;
    let ghost fv = params_view(fps@);
    let mut q = search_joins_exec(search, selection);
    let (oc, mut params) = offset_clause_exec(search);
    append_chars(&mut q, &oc);
    let empty = to_chars_lit("()");
    if w.len() > 0 && !crate::text::eq_chars(w, &empty) {
        if search.offset.is_some() {
            append_str(&mut q, " AND (");
        } else {
            append_str(&mut q, " WHERE (");
        }
        append_chars(&mut q, w);
        append_str(&mut q, ")");
    }
    let ord = order_clause_exec(search);
    append_chars(&mut q, &ord);
    let ghost pre = params@;
    params.append(&mut fps);
    proof {
        assert(params_view(params@) =~= params_view(pre) + fv);
        let (oc2, ops) = offset_clause(*search);
        let q0 = search_joins(*search, selection@) + oc2;
        if w@.len() > 0 && w@ != "()"@ {
            assert(q@ =~= q0 + (if search.offset is Some {
                " AND ("@
            } else {
                " WHERE ("@
            }) + w@ + ")"@ + order_clause(*search));
        } else {
            assert(q@ =~= q0 + order_clause(*search));
        }
    }
    (string_of(&q), params)
}

/// Builds the query of a search that starts with `selection`.
pub fn build_search_query(search: &GameSearch, selection: &str) -> (r: (String, Vec<SearchParam>))
    requires
        filter_query_ok(search.filter),
    ensures
        r.0@ == search_query(*search, selection@).0,
        params_view(r.1@) == search_query(*search, selection@).1,
{
    let mut fps: Vec<SearchParam> = Vec::new();
    let w = build_filter_query(&search.filter, &mut fps);
    assert(params_view(fps@) =~= filter_output(search.filter).1);
    assemble_search_query(search, selection, &w, fps)
}

// ---------------------------------------------------------------------------
// Showing a query
// ---------------------------------------------------------------------------

/// How a bound value is written: flags as `true`/`false`, lists with
/// `', '` between items, numbers in decimal.
pub open spec fn param_text(p: ParamView) -> Seq<char> {
    match p {
        ParamView::Boolean(b) => if b {
            "true"@
        } else {
            "false"@
        },
        ParamView::Text(t) => t,
        ParamView::TextList(l) => join(l, "', '"@),
        ParamView::Integer(n) => int_decimal(n as int),
        ParamView::Real(t) => t,
    }
}

impl SearchParam {
    /// The text of this value as it is shown in a formatted query.
    pub fn to_text(&self) -> (r: String)
        ensures
            r@ == param_text(param_view(*self)),
    {
        match self {
            SearchParam::Boolean(b) => if *b {
                string_of(&to_chars_lit("true"))
            } else {
                string_of(&to_chars_lit("false"))
            },
            SearchParam::String(t) => t.clone(),
            SearchParam::StringVec(l) => {
                let mut parts: Vec<Vec<char>> = Vec::new();
                let mut i: usize = 0;
                while i < l.len()
                    invariant
                        i <= l@.len(),
                        texts_view(parts@) =~= l.deep_view().take(i as int),
                    decreases l.len() - i,
                {
                    let ghost p0 = parts@;
                    parts.push(crate::text::to_chars(l[i].as_str()));
                    assert(texts_view(parts@) =~= texts_view(p0).push(l@[i as int]@));
                    i = i + 1;
                }
                assert(l.deep_view().take(l@.len() as int) =~= l.deep_view());
                string_of(&join_exec(&parts, "', '"))
            },
            SearchParam::Integer64(n) => string_of(&i64_decimal(*n)),
            SearchParam::Real(t) => t.clone(),
        }
    }
}

/// The state of the query formatter between characters.
#[verifier::ext_equal]
pub struct FmtState {
    pub out: Seq<char>,
    pub trim: bool,
    pub indent: int,
    pub skip_drop: bool,
    pub next: int,
    pub ok: bool,
}

/// How the formatter handles the character at `idx`: an opening bracket
/// starts an indented block unless `)` or `*` follows; a closing bracket
/// ends one; `?` shows the next value in quotes; spaces and line breaks at
/// the start of a line are dropped. `ok` turns false where a block is
/// closed that was never opened.
pub open spec fn fmt_step(st: FmtState, q: Seq<char>, idx: int, subs: Seq<ParamView>) -> FmtState {
    let ch = q[idx];
    if ch == '(' {
        if idx + 1 < q.len() && (q[idx + 1] == ')' || q[idx + 1] == '*') {
            FmtState { out: st.out.push('('), skip_drop: true, ..st }
        } else {
            FmtState { out: st.out.push('(').push('\n'), indent: st.indent + 4, trim: true, ..st }
        }
    } else if ch == ')' {
        if st.skip_drop {
            FmtState { out: st.out.push(')'), skip_drop: false, ..st }
        } else {
            FmtState {
                out: st.out.push('\n') + Seq::new((st.indent - 4) as nat, |i: int| ' ') + seq![')'],
                trim: false,
                indent: st.indent - 4,
                ok: st.ok && st.indent >= 4,
                ..st
            }
        }
    } else if ch == '?' {
        if st.next < subs.len() {
            FmtState { out: st.out + seq!['\''] + param_text(subs[st.next]) + seq!['\''], next: st.next + 1, ..st }
        } else {
            FmtState { out: st.out.push('?'), ..st }
        }
    } else if ch == ' ' {
        if st.trim {
            st
        } else {
            FmtState { out: st.out.push(' '), ..st }
        }
    } else if ch == '\n' {
        FmtState { trim: true, ..st }
    } else {
        if st.trim {
            FmtState { out: st.out + Seq::new(st.indent as nat, |i: int| ' ') + seq![ch], trim: false, ..st }
        } else {
            FmtState { out: st.out.push(ch), ..st }
        }
    }
}

/// The formatter's state after the first `n` characters.
pub open spec fn fmt_run(q: Seq<char>, subs: Seq<ParamView>, n: nat) -> FmtState
    decreases n,
{
    if n == 0 {
        FmtState { out: Seq::empty(), trim: false, indent: 0, skip_drop: false, next: 0, ok: true }
    } else {
        fmt_step(fmt_run(q, subs, (n - 1) as nat), q, n - 1, subs)
    }
}

proof fn lemma_fmt_ok_prefix(q: Seq<char>, subs: Seq<ParamView>, n: nat, m: nat)
    requires
        n <= m,
        fmt_run(q, subs, m).ok,
    ensures
        fmt_run(q, subs, n).ok,
        fmt_run(q, subs, n).indent >= 0,
        0 <= fmt_run(q, subs, n).next <= n,
    decreases m,
{
    if n < m {
        lemma_fmt_ok_prefix(q, subs, n, (m - 1) as nat);
    } else if n > 0 {
        lemma_fmt_ok_prefix(q, subs, (n - 1) as nat, (m - 1) as nat);
    }
}

fn push_spaces(out: &mut Vec<char>, n: usize)
    ensures
        final(out)@ == old(out)@ + Seq::new(n as nat, |i: int| ' '),
{
    let mut i: usize = 0;
    while i < n
        invariant
            i <= n,
            out@ =~= old(out)@ + Seq::new(i as nat, |k: int| ' '),
        decreases n - i,
    {
        out.push(' ');
        i = i + 1;
    }
}

/// Lays a query out over several lines, with each `?` replaced by its
/// value in quotes, for reading. Every block must be opened before it is
/// closed.
pub fn format_query(query: &str, substitutions: Vec<SearchParam>) -> (r: String)
    requires
        fmt_run(query@, params_view(substitutions@), query@.len()).ok,
        4 * query@.len() <= usize::MAX,
    ensures
        r@ == fmt_run(query@, params_view(substitutions@), query@.len()).out,
{
    let q = crate::text::to_chars(query);
    let ghost subs = params_view(substitutions@);
    let mut out: Vec<char> = Vec::new();
    let mut trim = false;
    let mut indent: usize = 0;
    let mut skip_drop = false;
    let mut next: usize = 0;
    let mut idx: usize = 0;
    while idx < q.len()
        invariant
            q@ == query@,
            subs == params_view(substitutions@),
            idx <= q@.len(),
            fmt_run(q@, subs, q@.len()).ok,
            4 * q@.len() <= usize::MAX,
            ({
                let st = fmt_run(q@, subs, idx as nat);
                &&& st.out == out@
                &&& st.trim == trim
                &&& st.indent == indent as int
                &&& st.skip_drop == skip_drop
                &&& st.next == next as int
                &&& st.ok
            }),
        decreases q.len() - idx,
    {
        proof {
            lemma_fmt_ok_prefix(q@, subs, (idx + 1) as nat, q@.len());
            lemma_fmt_max_indent(q@, subs, (idx + 1) as nat, q@.len());
        }
        let ch = q[idx];
        if ch == '(' {
            if idx + 1 < q.len() && (q[idx + 1] == ')' || q[idx + 1] == '*') {
                out.push('(');
                skip_drop = true;
            } else {
                indent = indent + 4;
                trim = true;
                out.push('(');
                out.push('\n');
            }
        } else if ch == ')' {
            if skip_drop {
                skip_drop = false;
                out.push(')');
            } else {
                trim = false;
                indent = indent - 4;
                out.push('\n');
                push_spaces(&mut out, indent);
                out.push(')');
            }
        } else if ch == '?' {
            if next < substitutions.len() {
                out.push('\'');
                let t = substitutions[next].to_text();
                append_str(&mut out, t.as_str());
                out.push('\'');
                next = next + 1;
            } else {
                out.push('?');
            }
        } else if ch == ' ' {
            if !trim {
                out.push(' ');
            }
        } else if ch == '\n' {
            trim = true;
        } else {
            if trim {
                push_spaces(&mut out, indent);
                trim = false;
            }
            out.push(ch);
        }
        proof {
            let st = fmt_run(q@, subs, idx as nat);
            assert(fmt_run(q@, subs, (idx + 1) as nat) == fmt_step(st, q@, idx as int, subs));
            assert(out@ =~= fmt_step(st, q@, idx as int, subs).out);
        }
        idx = idx + 1;
    }
    string_of(&out)
}

proof fn lemma_fmt_max_indent(q: Seq<char>, subs: Seq<ParamView>, n: nat, m: nat)
    requires
        n <= m,
        fmt_run(q, subs, m).ok,
    ensures
        fmt_run(q, subs, n).indent <= 4 * n,
    decreases n,
{
    if n > 0 {
        lemma_fmt_max_indent(q, subs, (n - 1) as nat, m);
        lemma_fmt_ok_prefix(q, subs, (n - 1) as nat, m);
    }
}

} // verus!
