//! Every value a generated filter binds has its `?` placeholder.
use vstd::prelude::*;
use crate::game::search::{FieldFilter, GameFilter, GameSearch, GameSearchDirection, GameSearchSortable, KeyChar};
use crate::text::{int_decimal, nat_decimal, utf8_len};
use crate::game::search::filter::str_view;
use crate::game::search::query::{
    Acc, ParamView, acc_opt, acc_push, compare_counter_clause, compare_date_clause, compare_rows_clause,
    compare_tag_clause, add_clause_spec, add_tagged_clause_spec, id_clause_spec, id_value_clause, id_values_spec,
    tagged_ok, tags_ok, value_params, field_lists_spec, stage_columns, stage_tags, stage_multi, stage_counts,
    stage_values, stage_ext, own_clauses, drop_empty, clause_separator, subfilters_acc, filter_output,
    filter_query_ok, filters_ok, offset_clause, order_clause, order_column, order_direction, search_joins,
    search_query, title_columns, generic_columns, ext_add_clause_spec, ext_bools_spec, ext_clause, ext_compare_clause, ext_compare_spec,
    ext_list_params, ext_scalar_params, ext_value_params, flat_entries, flat_values, add_joint_clause_spec, add_multi_clause_spec, multi_params, multi_value_clause, alias_select, and_tag_part, comparator, id_in, concat, copies, field_clause, game_data_clause, in_comparator, join, nl,
    parens, repeat, tagged_text,
};

verus! {

/// Number of `?` placeholders in `s`.
pub open spec fn holes(s: Seq<char>) -> nat
    decreases s.len(),
{
    if s.len() == 0 {
        0
    } else {
        holes(s.drop_last()) + if s.last() == '?' { 1nat } else { 0nat }
    }
}

pub proof fn lemma_holes_add(a: Seq<char>, b: Seq<char>)
    ensures
        holes(a + b) == holes(a) + holes(b),
    decreases b.len(),
{
    if b.len() == 0 {
        assert(a + b =~= a);
    } else {
        lemma_holes_add(a, b.drop_last());
        assert((a + b).drop_last() =~= a + b.drop_last());
    }
}

/// Text without `?` has no placeholder.
pub proof fn lemma_holes_free(s: Seq<char>)
    requires
        forall|i: int| 0 <= i < s.len() ==> s[i] != '?',
    ensures
        holes(s) == 0,
    decreases s.len(),
{
    if s.len() > 0 {
        lemma_holes_free(s.drop_last());
    }
}

/// Text with exactly one `?`, at `k`, has one placeholder.
pub proof fn lemma_holes_one(s: Seq<char>, k: int)
    requires
        0 <= k < s.len(),
        s[k] == '?',
        forall|i: int| 0 <= i < s.len() && i != k ==> s[i] != '?',
    ensures
        holes(s) == 1,
{
    let a = s.take(k);
    let b = s.skip(k + 1);
    assert(s =~= a + seq!['?'] + b);
    lemma_holes_free(a);
    assert forall|i: int| 0 <= i < b.len() implies b[i] != '?' by {
        assert(b[i] == s[k + 1 + i]);
    }
    lemma_holes_free(b);
    let q = seq!['?'];
    assert(q.drop_last() =~= Seq::<char>::empty());
    assert(q.last() == '?');
    assert(holes(Seq::<char>::empty()) == 0);
    assert(holes(q) == 1);
    lemma_holes_add(a + q, b);
    lemma_holes_add(a, q);
}

/// Number of placeholders over all of `cs`.
pub open spec fn holes_all(cs: Seq<Seq<char>>) -> nat
    decreases cs.len(),
{
    if cs.len() == 0 {
        0
    } else {
        holes_all(cs.drop_last()) + holes(cs.last())
    }
}

pub proof fn lemma_holes_all_add(a: Seq<Seq<char>>, b: Seq<Seq<char>>)
    ensures
        holes_all(a + b) == holes_all(a) + holes_all(b),
    decreases b.len(),
{
    if b.len() == 0 {
        assert(a + b =~= a);
    } else {
        lemma_holes_all_add(a, b.drop_last());
        assert((a + b).drop_last() =~= a + b.drop_last());
    }
}

/// Pieces with `k` placeholders each have `k` per piece in all.
pub proof fn lemma_holes_all_const(cs: Seq<Seq<char>>, k: nat)
    requires
        forall|i: int| 0 <= i < cs.len() ==> holes(#[trigger] cs[i]) == k,
    ensures
        holes_all(cs) == k * cs.len(),
    decreases cs.len(),
{
    if cs.len() > 0 {
        let d = cs.drop_last();
        assert forall|i: int| 0 <= i < d.len() implies holes(#[trigger] d[i]) == k by {
            assert(d[i] == cs[i]);
        }
        lemma_holes_all_const(d, k);
        assert(holes(cs.last()) == k);
        let n = d.len();
        assert(k * n + k == k * (n + 1)) by (nonlinear_arith);
    }
}

/// Joining with a separator without placeholders keeps those of the pieces.
pub proof fn lemma_holes_join(parts: Seq<Seq<char>>, sep: Seq<char>)
    requires
        holes(sep) == 0,
    ensures
        holes(join(parts, sep)) == holes_all(parts),
    decreases parts.len(),
{
    if parts.len() == 1 {
        assert(parts.drop_last() =~= Seq::<Seq<char>>::empty());
        assert(holes_all(parts.drop_last()) == 0);
        assert(parts.last() == parts[0]);
    } else if parts.len() >= 2 {
        lemma_holes_join(parts.drop_last(), sep);
        lemma_holes_add(join(parts.drop_last(), sep) + sep, parts.last());
        lemma_holes_add(join(parts.drop_last(), sep), sep);
    }
}

pub proof fn lemma_holes_concat(parts: Seq<Seq<char>>)
    ensures
        holes(concat(parts)) == holes_all(parts),
    decreases parts.len(),
{
    if parts.len() > 0 {
        lemma_holes_concat(parts.drop_last());
        lemma_holes_add(concat(parts.drop_last()), parts.last());
    }
}

pub proof fn lemma_holes_copies(s: Seq<char>, n: nat)
    ensures
        holes_all(copies(s, n)) == holes(s) * n,
{
    let cs = copies(s, n);
    assert forall|i: int| 0 <= i < cs.len() implies holes(#[trigger] cs[i]) == holes(s) by {}
    lemma_holes_all_const(cs, holes(s));
}

pub proof fn lemma_holes_repeat(s: Seq<char>, n: nat)
    ensures
        holes(repeat(s, n)) == holes(s) * n,
    decreases n,
{
    if n == 0 {
        assert(repeat(s, 0) == Seq::<char>::empty());
        assert(holes(Seq::<char>::empty()) == 0);
    } else {
        let m: nat = (n - 1) as nat;
        lemma_holes_repeat(s, m);
        lemma_holes_add(repeat(s, m), s);
        assert(repeat(s, n) == repeat(s, m) + s);
        let h = holes(s);
        assert(h * m + h == h * n) by (nonlinear_arith)
            requires
                m + 1 == n,
        ;
    }
}

/// Whether the values of `a` match its placeholders in number.
pub open spec fn balanced(a: Acc) -> bool {
    holes_all(a.clauses) == a.params.len()
}

pub proof fn lemma_push_balanced(a: Acc, c: Seq<char>, ps: Seq<ParamView>)
    requires
        balanced(a),
        holes(c) == ps.len(),
    ensures
        balanced(acc_push(a, c, ps)),
{
    assert(acc_push(a, c, ps).clauses.drop_last() =~= a.clauses);
}

pub proof fn lemma_extend_balanced(a: Acc, cs: Seq<Seq<char>>, ps: Seq<ParamView>)
    requires
        balanced(a),
        holes_all(cs) == ps.len(),
    ensures
        balanced(Acc { clauses: a.clauses + cs, params: a.params + ps }),
{
    lemma_holes_all_add(a.clauses, cs);
}

/// Whether `s` holds no `?`.
pub open spec fn free(s: Seq<char>) -> bool {
    forall|i: int| 0 <= i < s.len() ==> s[i] != '?'
}

pub proof fn lemma_free_holes(s: Seq<char>)
    requires
        free(s),
    ensures
        holes(s) == 0,
{
    lemma_holes_free(s);
}

// ---------------------------------------------------------------------------
// The pieces of the generated text
// ---------------------------------------------------------------------------

pub proof fn lemma_comparators_free(blacklist: bool, exact: bool)
    ensures
        holes(comparator(blacklist, exact)) == 0,
        holes(in_comparator(blacklist)) == 0,
{
    reveal_strlit("!=");
    reveal_strlit("NOT LIKE");
    reveal_strlit("=");
    reveal_strlit("LIKE");
    reveal_strlit("NOT IN");
    reveal_strlit("IN");
    lemma_free_holes(comparator(blacklist, exact));
    lemma_free_holes(in_comparator(blacklist));
}

pub proof fn lemma_parens(x: Seq<char>)
    ensures
        holes(parens(x)) == holes(x),
{
    reveal_strlit("(");
    reveal_strlit(")");
    lemma_free_holes("("@);
    lemma_free_holes(")"@);
    lemma_holes_add("("@ + x, ")"@);
    lemma_holes_add("("@, x);
}

pub proof fn lemma_nl(n: nat)
    ensures
        holes(nl(n)) == 0,
{
    lemma_free_holes(nl(n));
}

pub proof fn lemma_field_clause(field: Seq<char>, op: Seq<char>)
    requires
        free(field),
        holes(op) == 0,
    ensures
        holes(field_clause(field, op)) == 1,
{
    reveal_strlit("game.");
    reveal_strlit(" ");
    reveal_strlit(" ?");
    lemma_free_holes("game."@);
    lemma_free_holes(" "@);
    lemma_free_holes(field);
    lemma_holes_one(" ?"@, 1);
    let a = "game."@ + field;
    let b = a + " "@;
    let c = b + op;
    lemma_holes_add("game."@, field);
    lemma_holes_add(a, " "@);
    lemma_holes_add(b, op);
    lemma_holes_add(c, " ?"@);
}

pub proof fn lemma_game_data_clause(field: Seq<char>, op: Seq<char>)
    requires
        free(field),
        holes(op) == 0,
    ensures
        holes(game_data_clause(field, op)) == 1,
{
    let h = "game.id IN (SELECT gameId FROM game_data WHERE "@;
    reveal_strlit("game.id IN (SELECT gameId FROM game_data WHERE ");
    reveal_strlit(" ");
    reveal_strlit(" ?)");
    lemma_free_holes(h);
    lemma_free_holes(" "@);
    lemma_free_holes(field);
    lemma_holes_one(" ?)"@, 1);
    lemma_holes_add(h, field);
    lemma_holes_add(h + field, " "@);
    lemma_holes_add(h + field + " "@, op);
    lemma_holes_add(h + field + " "@ + op, " ?)"@);
}

/// Holes of a sum of five pieces.
proof fn lemma_holes5(a: Seq<char>, b: Seq<char>, c: Seq<char>, d: Seq<char>, e: Seq<char>)
    ensures
        holes(a + b + c + d + e) == holes(a) + holes(b) + holes(c) + holes(d) + holes(e),
{
    lemma_holes_add(a, b);
    lemma_holes_add(a + b, c);
    lemma_holes_add(a + b + c, d);
    lemma_holes_add(a + b + c + d, e);
}

pub proof fn lemma_alias_select(t: Seq<char>, mid: Seq<char>, cond: Seq<char>, tail: Seq<char>)
    requires
        free(t),
        holes(mid) == 0,
    ensures
        holes(alias_select(t, mid, cond, tail)) == holes(cond) + holes(tail),
{
    let p1 = "SELECT gameId FROM game_"@;
    let p2 = "s_"@;
    let p3 = " WHERE "@;
    let p4 = "Id IN ("@;
    let p5 = "SELECT "@;
    let p6 = "Id FROM "@;
    let p7 = "_alias WHERE "@;
    reveal_strlit("SELECT gameId FROM game_");
    reveal_strlit("s_");
    reveal_strlit(" WHERE ");
    reveal_strlit("Id IN (");
    reveal_strlit("SELECT ");
    reveal_strlit("Id FROM ");
    reveal_strlit("_alias WHERE ");
    lemma_free_holes(p1);
    lemma_free_holes(p2);
    lemma_free_holes(p3);
    lemma_free_holes(p4);
    lemma_free_holes(p5);
    lemma_free_holes(p6);
    lemma_free_holes(p7);
    lemma_free_holes(t);
    let x1 = p1 + t + p2 + t + p3;
    lemma_holes5(p1, t, p2, t, p3);
    let x2 = x1 + t + p4 + mid + p5;
    lemma_holes5(x1, t, p4, mid, p5);
    let x3 = x2 + t + p6 + t + p7;
    lemma_holes5(x2, t, p6, t, p7);
    lemma_holes_add(x3, cond);
    lemma_holes_add(x3 + cond, tail);
}

pub proof fn lemma_id_in(op: Seq<char>, x: Seq<char>)
    requires
        holes(op) == 0,
    ensures
        holes(id_in(op, x)) == holes(x),
{
    reveal_strlit("game.id ");
    reveal_strlit(" (");
    reveal_strlit(")");
    lemma_free_holes("game.id "@);
    lemma_free_holes(" ("@);
    lemma_free_holes(")"@);
    lemma_holes5("game.id "@, op, " ("@, x, ")"@);
}

pub proof fn lemma_and_tag_part(t: Seq<char>, q: Seq<char>)
    requires
        free(t),
    ensures
        holes(and_tag_part(t, q)) == holes(q),
{
    reveal_strlit(" AND gameId IN (");
    reveal_strlit(")");
    lemma_free_holes(" AND gameId IN ("@);
    lemma_free_holes(")"@);
    lemma_nl(36);
    lemma_nl(40);
    lemma_nl(32);
    lemma_holes_add(nl(36), ")"@);
    lemma_alias_select(t, nl(40), q, nl(36) + ")"@);
    lemma_holes5(" AND gameId IN ("@, nl(36), alias_select(t, nl(40), q, nl(36) + ")"@), nl(32), ")"@);
}

/// `n` copies of a one-placeholder piece joined by a separator without any.
proof fn lemma_join_copies(q: Seq<char>, n: nat, sep: Seq<char>)
    requires
        holes(q) == 1,
        holes(sep) == 0,
    ensures
        holes(join(copies(q, n), sep)) == n,
{
    lemma_holes_join(copies(q, n), sep);
    lemma_holes_copies(q, n);
    let h = holes(q);
    assert(h * n == n) by (nonlinear_arith)
        requires
            h == 1,
    ;
}

pub proof fn lemma_tagged_text(t: Seq<char>, q: Seq<char>, n: nat, blacklist: bool, match_any: bool)
    requires
        free(t),
        holes(q) == 1,
        !blacklist && !match_any ==> n >= 1,
    ensures
        holes(tagged_text(t, q, n, blacklist, match_any)) == n,
{
    let op = in_comparator(blacklist);
    lemma_comparators_free(blacklist, false);
    reveal_strlit(" OR ");
    reveal_strlit("game.id ");
    reveal_strlit(" (");
    reveal_strlit(")");
    reveal_strlit("(");
    reveal_strlit("))");
    reveal_strlit("name IN ");
    lemma_free_holes(" OR "@);
    lemma_free_holes("game.id "@);
    lemma_free_holes(" ("@);
    lemma_free_holes(")"@);
    lemma_free_holes("("@);
    lemma_free_holes("))"@);
    lemma_free_holes("name IN "@);
    let jn = join(copies(q, n), " OR "@);
    lemma_join_copies(q, n, " OR "@);
    lemma_nl(20);
    lemma_nl(28);
    lemma_nl(32);
    lemma_nl(36);
    if !blacklist && !match_any {
        if n == 1 {
            let tail = ")"@ + nl(28) + ")"@;
            lemma_holes_add(")"@, nl(28));
            lemma_holes_add(")"@ + nl(28), ")"@);
            lemma_alias_select(t, nl(32), q, tail);
            lemma_holes_add("game.id "@, op);
            lemma_holes_add("game.id "@ + op, " ("@);
            lemma_holes_add("game.id "@ + op + " ("@, alias_select(t, nl(32), q, tail));
            assert(holes(tail) == 0);
            assert(holes(alias_select(t, nl(32), q, tail)) == 1);
            assert(tagged_text(t, q, n, blacklist, match_any) == "game.id "@ + op + " ("@ + alias_select(t, nl(32), q, tail));
        } else {
            let m: nat = (n - 1) as nat;
            lemma_holes_add(nl(32), ")"@);
            lemma_and_tag_part(t, q);
            lemma_holes_repeat(and_tag_part(t, q), m);
            let h = holes(and_tag_part(t, q));
            assert(h * m == m) by (nonlinear_arith)
                requires
                    h == 1,
            ;
            let tail = nl(32) + ")"@ + repeat(and_tag_part(t, q), m);
            lemma_holes_add(nl(32) + ")"@, repeat(and_tag_part(t, q), m));
            lemma_alias_select(t, nl(36), q, tail);
            assert(alias_select(t, nl(36), q, nl(32) + ")"@) + repeat(and_tag_part(t, q), m)
                =~= alias_select(t, nl(36), q, tail));
            lemma_id_in(op, alias_select(t, nl(36), q, tail));
            assert(holes(and_tag_part(t, q)) == 1);
            assert(holes(repeat(and_tag_part(t, q), m)) == m);
            assert(holes(tail) == m);
            assert(tagged_text(t, q, n, blacklist, match_any) == id_in(op, alias_select(t, nl(36), q, tail)));
        }
    } else if blacklist && !match_any {
        let cond = "("@ + jn + ")"@;
        lemma_holes_add("("@, jn);
        lemma_holes_add("("@ + jn, ")"@);
        lemma_alias_select(t, nl(20), cond, "))"@);
        lemma_holes_add("game.id "@, op);
        lemma_holes_add("game.id "@ + op, " ("@);
        lemma_holes_add("game.id "@ + op + " ("@, alias_select(t, nl(20), cond, "))"@));
    } else {
        let cond = "name IN "@ + jn;
        lemma_holes_add("name IN "@, jn);
        lemma_alias_select(t, nl(20), cond, "))"@);
        lemma_holes_add("game.id "@, op);
        lemma_holes_add("game.id "@ + op, " ("@);
        lemma_holes_add("game.id "@ + op + " ("@, alias_select(t, nl(20), cond, "))"@));
    }
}

// ---------------------------------------------------------------------------
// Each matcher keeps values and placeholders in step
// ---------------------------------------------------------------------------

/// An optional clause whose values match its placeholders.
pub open spec fn clause_ok(o: Option<(Seq<char>, Seq<ParamView>)>) -> bool {
    match o {
        Some((c, ps)) => holes(c) == ps.len(),
        None => true,
    }
}

pub proof fn lemma_acc_opt(a: Acc, o: Option<(Seq<char>, Seq<ParamView>)>)
    requires
        balanced(a),
        clause_ok(o),
    ensures
        balanced(acc_opt(a, o)),
{
    match o {
        Some((c, ps)) => lemma_push_balanced(a, c, ps),
        None => {},
    }
}

proof fn lemma_holes_all5(a: Seq<char>, b: Seq<char>, c: Seq<char>, d: Seq<char>, e: Seq<char>)
    ensures
        holes_all(seq![a, b, c, d, e]) == holes(a) + holes(b) + holes(c) + holes(d) + holes(e),
{
    let s = seq![a, b, c, d, e];
    assert(s.drop_last() =~= seq![a, b, c, d]);
    assert(s.drop_last().drop_last() =~= seq![a, b, c]);
    assert(s.drop_last().drop_last().drop_last() =~= seq![a, b]);
    assert(seq![a, b].drop_last() =~= seq![a]);
    assert(seq![a].drop_last() =~= Seq::<Seq<char>>::empty());
    reveal_with_fuel(holes_all, 6);
}

proof fn lemma_holes_all6(a: Seq<char>, b: Seq<char>, c: Seq<char>, d: Seq<char>, e: Seq<char>, f: Seq<char>)
    ensures
        holes_all(seq![a, b, c, d, e, f]) == holes(a) + holes(b) + holes(c) + holes(d) + holes(e) + holes(f),
{
    let s = seq![a, b, c, d, e, f];
    assert(s.drop_last() =~= seq![a, b, c, d, e]);
    lemma_holes_all5(a, b, c, d, e);
}

pub proof fn lemma_compare_tag_clause(f: Seq<char>, k: KeyChar, v: Option<i64>)
    requires
        free(f),
    ensures
        clause_ok(compare_tag_clause(f, k, v)),
{
    lemma_free_holes(f);
    reveal_strlit("game.id NOT IN (SELECT gameId FROM game_");
    reveal_strlit("game.id IN (SELECT gameId FROM game_");
    reveal_strlit("s_");
    reveal_strlit(")");
    reveal_strlit(" GROUP BY gameId HAVING COUNT(gameId) ");
    reveal_strlit(">= ?)");
    reveal_strlit("> ?)");
    reveal_strlit("= ?)");
    let n1 = "game.id NOT IN (SELECT gameId FROM game_"@;
    let n2 = "game.id IN (SELECT gameId FROM game_"@;
    let g = " GROUP BY gameId HAVING COUNT(gameId) "@;
    lemma_free_holes(n1);
    lemma_free_holes(n2);
    lemma_free_holes("s_"@);
    lemma_free_holes(")"@);
    lemma_free_holes(g);
    lemma_holes_one(">= ?)"@, 3);
    lemma_holes_one("> ?)"@, 2);
    lemma_holes_one("= ?)"@, 2);
    lemma_holes_concat(seq![n1, f, "s_"@, f, ")"@]);
    lemma_holes_all5(n1, f, "s_"@, f, ")"@);
    lemma_holes_concat(seq![n2, f, "s_"@, f, ")"@]);
    lemma_holes_all5(n2, f, "s_"@, f, ")"@);
    lemma_holes_concat(seq![n1, f, "s_"@, f, g, ">= ?)"@]);
    lemma_holes_all6(n1, f, "s_"@, f, g, ">= ?)"@);
    lemma_holes_concat(seq![n2, f, "s_"@, f, g, "> ?)"@]);
    lemma_holes_all6(n2, f, "s_"@, f, g, "> ?)"@);
    lemma_holes_concat(seq![n2, f, "s_"@, f, g, "= ?)"@]);
    lemma_holes_all6(n2, f, "s_"@, f, g, "= ?)"@);
}

pub proof fn lemma_compare_rows_clause(table: Seq<char>, column: Seq<char>, k: KeyChar, v: Option<i64>, z: bool)
    requires
        free(table),
        free(column),
    ensures
        clause_ok(compare_rows_clause(table, column, k, v, z)),
{
    lemma_free_holes(table);
    lemma_free_holes(column);
    reveal_strlit("game.id NOT IN (SELECT ");
    reveal_strlit("game.id IN (SELECT ");
    reveal_strlit(" FROM ");
    reveal_strlit(")");
    reveal_strlit(" GROUP BY ");
    reveal_strlit(" HAVING COUNT(");
    reveal_strlit(") ");
    reveal_strlit(">= ?)");
    reveal_strlit("> ?)");
    reveal_strlit("= ?)");
    let n1 = "game.id NOT IN (SELECT "@;
    let n2 = "game.id IN (SELECT "@;
    lemma_free_holes(n1);
    lemma_free_holes(n2);
    lemma_free_holes(" FROM "@);
    lemma_free_holes(")"@);
    lemma_free_holes(" GROUP BY "@);
    lemma_free_holes(" HAVING COUNT("@);
    lemma_free_holes(") "@);
    lemma_holes_one(">= ?)"@, 3);
    lemma_holes_one("> ?)"@, 2);
    lemma_holes_one("= ?)"@, 2);
    let g = concat(seq![" GROUP BY "@, column, " HAVING COUNT("@, column, ") "@]);
    lemma_holes_concat(seq![" GROUP BY "@, column, " HAVING COUNT("@, column, ") "@]);
    lemma_holes_all5(" GROUP BY "@, column, " HAVING COUNT("@, column, ") "@);
    lemma_holes_concat(seq![n1, column, " FROM "@, table, ")"@]);
    lemma_holes_all5(n1, column, " FROM "@, table, ")"@);
    lemma_holes_concat(seq![n2, column, " FROM "@, table, ")"@]);
    lemma_holes_all5(n2, column, " FROM "@, table, ")"@);
    lemma_holes_concat(seq![n1, column, " FROM "@, table, g, ">= ?)"@]);
    lemma_holes_all6(n1, column, " FROM "@, table, g, ">= ?)"@);
    lemma_holes_concat(seq![n2, column, " FROM "@, table, g, "> ?)"@]);
    lemma_holes_all6(n2, column, " FROM "@, table, g, "> ?)"@);
    lemma_holes_concat(seq![n2, column, " FROM "@, table, g, "= ?)"@]);
    lemma_holes_all6(n2, column, " FROM "@, table, g, "= ?)"@);
}

pub proof fn lemma_compare_date_clause(f: Seq<char>, k: KeyChar, v: Option<Seq<char>>, as_text: bool)
    requires
        free(f),
    ensures
        clause_ok(compare_date_clause(f, k, v, as_text)),
{
    lemma_free_holes(f);
    reveal_strlit("game.");
    reveal_strlit("date(game.");
    reveal_strlit(")");
    reveal_strlit(" < ?");
    reveal_strlit(" >= ?");
    reveal_strlit(" LIKE ?");
    lemma_free_holes("game."@);
    lemma_free_holes("date(game."@);
    lemma_free_holes(")"@);
    lemma_holes_one(" < ?"@, 3);
    lemma_holes_one(" >= ?"@, 4);
    lemma_holes_one(" LIKE ?"@, 6);
    let col = if as_text {
        "game."@ + f
    } else {
        "date(game."@ + f + ")"@
    };
    lemma_holes_add("game."@, f);
    lemma_holes_add("date(game."@, f);
    lemma_holes_add("date(game."@ + f, ")"@);
    assert(holes(col) == 0);
    lemma_holes_add(col, " < ?"@);
    lemma_holes_add(col, " >= ?"@);
    lemma_holes_add(col, " LIKE ?"@);
}

pub proof fn lemma_compare_counter_clause(f: Seq<char>, k: KeyChar, v: Option<i64>)
    requires
        free(f),
    ensures
        clause_ok(compare_counter_clause(f, k, v)),
{
    lemma_free_holes(f);
    reveal_strlit("game.");
    reveal_strlit(" < ?");
    reveal_strlit(" > ?");
    reveal_strlit(" = ?");
    lemma_free_holes("game."@);
    lemma_holes_one(" < ?"@, 3);
    lemma_holes_one(" > ?"@, 3);
    lemma_holes_one(" = ?"@, 3);
    lemma_holes_add("game."@, f);
    lemma_holes_add("game."@ + f, " < ?"@);
    lemma_holes_add("game."@ + f, " > ?"@);
    lemma_holes_add("game."@ + f, " = ?"@);
}

pub proof fn lemma_add_clause(
    a: Acc,
    field: Seq<char>,
    values: Option<Seq<Seq<char>>>,
    exact: bool,
    blacklist: bool,
    match_any: bool,
)
    requires
        balanced(a),
        free(field),
    ensures
        balanced(add_clause_spec(a, field, values, exact, blacklist, match_any)),
{
    match values {
        None => {},
        Some(vs) => {
            lemma_comparators_free(blacklist, exact);
            let one = field_clause(field, comparator(blacklist, exact));
            lemma_field_clause(field, comparator(blacklist, exact));
            let n = vs.len();
            if exact && match_any {
                reveal_strlit("game.");
                reveal_strlit(" ");
                reveal_strlit(" rarray(?)");
                lemma_free_holes("game."@);
                lemma_free_holes(" "@);
                lemma_free_holes(field);
                lemma_holes_one(" rarray(?)"@, 8);
                lemma_holes5("game."@, field, " "@, in_comparator(blacklist), " rarray(?)"@);
                lemma_push_balanced(
                    a,
                    "game."@ + field + " "@ + in_comparator(blacklist) + " rarray(?)"@,
                    seq![ParamView::TextList(vs)],
                );
            } else if blacklist {
                reveal_strlit(" AND ");
                lemma_free_holes(" AND "@);
                lemma_join_copies(one, n, " AND "@);
                lemma_parens(join(copies(one, n), " AND "@));
                lemma_push_balanced(a, parens(join(copies(one, n), " AND "@)), value_params(vs, exact));
            } else {
                lemma_holes_copies(one, n);
                assert(holes(one) * n == n);
                lemma_extend_balanced(a, copies(one, n), value_params(vs, exact));
            }
        },
    }
}

proof fn lemma_id_values(a: Acc, vs: Seq<Seq<char>>, blacklist: bool)
    requires
        balanced(a),
    ensures
        balanced(id_values_spec(a, vs, blacklist)),
    decreases vs.len(),
{
    if vs.len() > 0 {
        lemma_id_values(a, vs.drop_last(), blacklist);
        let v = vs.last();
        let (c, ps) = id_value_clause(v, blacklist);
        reveal_strlit("(game.id ");
        reveal_strlit("!=");
        reveal_strlit("=");
        reveal_strlit("NOT LIKE");
        reveal_strlit("LIKE");
        reveal_strlit(" ? OR game.id ");
        reveal_strlit(" (SELECT id FROM game_redirect WHERE sourceId = ? LIMIT 1))");
        reveal_strlit(" ?)");
        let op = if utf8_len(v) == 36 {
            if blacklist {
                "!="@
            } else {
                "="@
            }
        } else {
            if blacklist {
                "NOT LIKE"@
            } else {
                "LIKE"@
            }
        };
        lemma_free_holes("(game.id "@);
        lemma_free_holes(op);
        lemma_holes_one(" ? OR game.id "@, 1);
        lemma_holes_one(" (SELECT id FROM game_redirect WHERE sourceId = ? LIMIT 1))"@, 48);
        lemma_holes_one(" ?)"@, 1);
        if utf8_len(v) == 36 {
            lemma_holes5(
                "(game.id "@,
                op,
                " ? OR game.id "@,
                op,
                " (SELECT id FROM game_redirect WHERE sourceId = ? LIMIT 1))"@,
            );
        } else {
            lemma_holes_add("(game.id "@, op);
            lemma_holes_add("(game.id "@ + op, " ?)"@);
        }
        lemma_push_balanced(id_values_spec(a, vs.drop_last(), blacklist), c, ps);
    }
}

pub proof fn lemma_id_clause(a: Acc, values: Option<Seq<Seq<char>>>, exact: bool, blacklist: bool)
    requires
        balanced(a),
    ensures
        balanced(id_clause_spec(a, values, exact, blacklist)),
{
    match values {
        None => {},
        Some(vs) => if exact {
            let c = in_comparator(blacklist);
            lemma_comparators_free(blacklist, exact);
            reveal_strlit("(game.id ");
            reveal_strlit(" rarray(?) OR game.id ");
            reveal_strlit(" (SELECT id FROM game_redirect WHERE sourceId IN rarray(?)))");
            lemma_free_holes("(game.id "@);
            lemma_holes_one(" rarray(?) OR game.id "@, 8);
            lemma_holes_one(" (SELECT id FROM game_redirect WHERE sourceId IN rarray(?)))"@, 56);
            lemma_holes5(
                "(game.id "@,
                c,
                " rarray(?) OR game.id "@,
                c,
                " (SELECT id FROM game_redirect WHERE sourceId IN rarray(?)))"@,
            );
            lemma_push_balanced(
                a,
                "(game.id "@ + c + " rarray(?) OR game.id "@ + c
                    + " (SELECT id FROM game_redirect WHERE sourceId IN rarray(?)))"@,
                seq![ParamView::TextList(vs), ParamView::TextList(vs)],
            );
        } else {
            lemma_id_values(a, vs, blacklist);
        },
    }
}

pub proof fn lemma_add_tagged_clause(
    a: Acc,
    t: Seq<char>,
    values: Option<Seq<Seq<char>>>,
    exact: bool,
    blacklist: bool,
    match_any: bool,
)
    requires
        balanced(a),
        free(t),
        tagged_ok(values, blacklist, match_any),
    ensures
        balanced(add_tagged_clause_spec(a, t, values, exact, blacklist, match_any)),
{
    match values {
        None => {},
        Some(vs) => if exact && match_any {
            lemma_comparators_free(blacklist, exact);
            reveal_strlit("game.id ");
            reveal_strlit(" (");
            reveal_strlit("name IN rarray(?)");
            reveal_strlit("))");
            lemma_free_holes("game.id "@);
            lemma_free_holes(" ("@);
            lemma_free_holes("))"@);
            lemma_holes_one("name IN rarray(?)"@, 15);
            lemma_nl(16);
            lemma_alias_select(t, nl(16), "name IN rarray(?)"@, "))"@);
            let sel = alias_select(t, nl(16), "name IN rarray(?)"@, "))"@);
            lemma_holes_add("game.id "@, in_comparator(blacklist));
            lemma_holes_add("game.id "@ + in_comparator(blacklist), " ("@);
            lemma_holes_add("game.id "@ + in_comparator(blacklist) + " ("@, sel);
            lemma_push_balanced(a, "game.id "@ + in_comparator(blacklist) + " ("@ + sel, seq![ParamView::TextList(vs)]);
        } else {
            let q = if exact {
                "name = ?"@
            } else {
                "name LIKE ?"@
            };
            reveal_strlit("name = ?");
            reveal_strlit("name LIKE ?");
            if exact {
                lemma_holes_one("name = ?"@, 7);
            } else {
                lemma_holes_one("name LIKE ?"@, 10);
            }
            lemma_tagged_text(t, q, vs.len(), blacklist, match_any);
            lemma_push_balanced(a, tagged_text(t, q, vs.len(), blacklist, match_any), value_params(vs, exact));
        },
    }
}

proof fn lemma_multi_params_len(vs: Seq<Seq<char>>, k: nat, exact: bool)
    ensures
        multi_params(vs, k, exact).len() == k * vs.len(),
    decreases vs.len(),
{
    if vs.len() > 0 {
        lemma_multi_params_len(vs.drop_last(), k, exact);
        let n = vs.drop_last().len();
        assert(k * n + k == k * (n + 1)) by (nonlinear_arith);
    }
}

pub proof fn lemma_multi_value_clause(fields: Seq<Seq<char>>, op: Seq<char>)
    requires
        forall|i: int| 0 <= i < fields.len() ==> free(#[trigger] fields[i]),
        holes(op) == 0,
    ensures
        holes(multi_value_clause(fields, op)) == fields.len(),
{
    let cs = fields.map_values(|f: Seq<char>| field_clause(f, op));
    assert forall|i: int| 0 <= i < cs.len() implies holes(#[trigger] cs[i]) == 1 by {
        lemma_field_clause(fields[i], op);
    }
    lemma_holes_all_const(cs, 1);
    reveal_strlit(" OR ");
    lemma_free_holes(" OR "@);
    lemma_holes_join(cs, " OR "@);
    lemma_parens(join(cs, " OR "@));
}

pub proof fn lemma_add_multi_clause(
    a: Acc,
    fields: Seq<Seq<char>>,
    values: Option<Seq<Seq<char>>>,
    exact: bool,
    blacklist: bool,
)
    requires
        balanced(a),
        forall|i: int| 0 <= i < fields.len() ==> free(#[trigger] fields[i]),
    ensures
        balanced(add_multi_clause_spec(a, fields, values, exact, blacklist)),
{
    match values {
        None => {},
        Some(vs) => {
            lemma_comparators_free(blacklist, exact);
            let one = multi_value_clause(fields, comparator(blacklist, exact));
            lemma_multi_value_clause(fields, comparator(blacklist, exact));
            let n = vs.len();
            let k = fields.len();
            lemma_multi_params_len(vs, k, exact);
            lemma_holes_copies(one, n);
            assert(holes(one) * n == k * n) by (nonlinear_arith)
                requires
                    holes(one) == k,
            ;
            if blacklist {
                reveal_strlit(" OR ");
                lemma_free_holes(" OR "@);
                lemma_holes_join(copies(one, n), " OR "@);
                lemma_parens(join(copies(one, n), " OR "@));
                lemma_push_balanced(a, parens(join(copies(one, n), " OR "@)), multi_params(vs, k, exact));
            } else {
                lemma_extend_balanced(a, copies(one, n), multi_params(vs, k, exact));
            }
        },
    }
}

pub proof fn lemma_add_joint_clause(
    a: Acc,
    field: Seq<char>,
    game_field: Seq<char>,
    values: Option<Seq<Seq<char>>>,
    exact: bool,
    blacklist: bool,
)
    requires
        balanced(a),
        free(field),
        free(game_field),
    ensures
        balanced(add_joint_clause_spec(a, field, game_field, values, exact, blacklist)),
{
    match values {
        None => {},
        Some(vs) => {
            let op = comparator(blacklist, exact);
            lemma_comparators_free(blacklist, exact);
            let c1 = field_clause(game_field, op);
            let c2 = game_data_clause(field, op);
            lemma_field_clause(game_field, op);
            lemma_game_data_clause(field, op);
            let n = vs.len();
            lemma_multi_params_len(vs, 2, exact);
            reveal_strlit(" AND ");
            reveal_strlit(" OR ");
            lemma_free_holes(" AND "@);
            lemma_free_holes(" OR "@);
            if blacklist {
                let one = parens(c1 + " AND "@ + c2);
                lemma_holes_add(c1, " AND "@);
                lemma_holes_add(c1 + " AND "@, c2);
                lemma_parens(c1 + " AND "@ + c2);
                lemma_holes_copies(one, n);
                lemma_holes_join(copies(one, n), " OR "@);
                lemma_parens(join(copies(one, n), " OR "@));
                assert(holes(one) * n == 2 * n) by (nonlinear_arith)
                    requires
                        holes(one) == 2,
                ;
                lemma_push_balanced(a, parens(join(copies(one, n), " OR "@)), multi_params(vs, 2, exact));
            } else {
                let one = parens(c1 + " OR "@ + c2);
                lemma_holes_add(c1, " OR "@);
                lemma_holes_add(c1 + " OR "@, c2);
                lemma_parens(c1 + " OR "@ + c2);
                lemma_holes_copies(one, n);
                assert(holes(one) * n == 2 * n) by (nonlinear_arith)
                    requires
                        holes(one) == 2,
                ;
                lemma_extend_balanced(a, copies(one, n), multi_params(vs, 2, exact));
            }
        },
    }
}

/// Whether no key of a two-level extension map holds a `?`.
pub open spec fn keys_free<V>(m: Seq<(Seq<char>, Seq<(Seq<char>, V)>)>) -> bool {
    forall|i: int| 0 <= i < flat_entries(m).len() ==> free(#[trigger] flat_entries(m)[i].1)
}

pub open spec fn opt_keys_free<V>(m: Option<Seq<(Seq<char>, Seq<(Seq<char>, V)>)>>) -> bool {
    match m {
        Some(mm) => keys_free(mm),
        None => true,
    }
}

pub proof fn lemma_ext_clause(neg: bool, key: Seq<char>, op: Seq<char>, rhs: Seq<char>)
    requires
        free(key),
        holes(op) == 0,
    ensures
        holes(ext_clause(neg, key, op, rhs)) == 1 + holes(rhs),
{
    let head = if neg {
        "game.id NOT IN"@
    } else {
        "game.id IN"@
    };
    let mid = " (SELECT gameId FROM ext_data WHERE extId = ? AND JSON_EXTRACT(data, '$."@;
    reveal_strlit("game.id NOT IN");
    reveal_strlit("game.id IN");
    reveal_strlit(" (SELECT gameId FROM ext_data WHERE extId = ? AND JSON_EXTRACT(data, '$.");
    reveal_strlit("') ");
    reveal_strlit(" ");
    reveal_strlit(")");
    lemma_free_holes(head);
    lemma_holes_one(mid, 44);
    lemma_free_holes(key);
    lemma_free_holes("') "@);
    lemma_free_holes(" "@);
    lemma_free_holes(")"@);
    lemma_holes5(head, mid, key, "') "@, op);
    let x = head + mid + key + "') "@ + op;
    lemma_holes_add(x, " "@);
    lemma_holes_add(x + " "@, rhs);
    lemma_holes_add(x + " "@ + rhs, ")"@);
}

proof fn lemma_q_holes()
    ensures
        holes("?"@) == 1,
        holes("rarray(?)"@) == 1,
{
    reveal_strlit("?");
    reveal_strlit("rarray(?)");
    lemma_holes_one("?"@, 0);
    lemma_holes_one("rarray(?)"@, 7);
}

proof fn lemma_flat_values_keys(es: Seq<(Seq<char>, Seq<char>, Seq<Seq<char>>)>)
    requires
        forall|i: int| 0 <= i < es.len() ==> free(#[trigger] es[i].1),
    ensures
        forall|j: int| 0 <= j < flat_values(es).len() ==> free(#[trigger] flat_values(es)[j].1),
    decreases es.len(),
{
    if es.len() > 0 {
        let d = es.drop_last();
        assert forall|i: int| 0 <= i < d.len() implies free(#[trigger] d[i].1) by {
            assert(d[i] == es[i]);
        }
        lemma_flat_values_keys(d);
        let e = es.last();
        assert(free(es[es.len() - 1].1));
        let tail = e.2.map_values(|v: Seq<char>| (e.0, e.1, v));
        let fv = flat_values(es);
        assert forall|j: int| 0 <= j < fv.len() implies free(#[trigger] fv[j].1) by {
            if j < flat_values(d).len() {
                assert(fv[j] == flat_values(d)[j]);
            } else {
                assert(fv[j] == tail[j - flat_values(d).len()]);
            }
        }
    }
}

proof fn lemma_ext_list_params_len(es: Seq<(Seq<char>, Seq<char>, Seq<Seq<char>>)>)
    ensures
        ext_list_params(es).len() == 2 * es.len(),
    decreases es.len(),
{
    if es.len() > 0 {
        lemma_ext_list_params_len(es.drop_last());
    }
}

proof fn lemma_ext_value_params_len(vs: Seq<(Seq<char>, Seq<char>, Seq<char>)>, exact: bool)
    ensures
        ext_value_params(vs, exact).len() == 2 * vs.len(),
    decreases vs.len(),
{
    if vs.len() > 0 {
        lemma_ext_value_params_len(vs.drop_last(), exact);
    }
}

proof fn lemma_ext_scalar_params_len(es: Seq<(Seq<char>, ParamView)>)
    ensures
        ext_scalar_params(es).len() == 2 * es.len(),
    decreases es.len(),
{
    if es.len() > 0 {
        lemma_ext_scalar_params_len(es.drop_last());
    }
}

pub proof fn lemma_ext_add_clause(
    a: Acc,
    values: Option<Seq<(Seq<char>, Seq<(Seq<char>, Seq<Seq<char>>)>)>>,
    exact: bool,
    blacklist: bool,
    match_any: bool,
)
    requires
        balanced(a),
        opt_keys_free(values),
    ensures
        balanced(ext_add_clause_spec(a, values, exact, blacklist, match_any)),
{
    match values {
        None => {},
        Some(m) => {
            let es = flat_entries(m);
            lemma_comparators_free(blacklist, exact);
            lemma_q_holes();
            if exact && match_any {
                let cs = es.map_values(
                    |e: (Seq<char>, Seq<char>, Seq<Seq<char>>)| ext_clause(false, e.1, in_comparator(blacklist), "rarray(?)"@),
                );
                assert forall|i: int| 0 <= i < cs.len() implies holes(#[trigger] cs[i]) == 2 by {
                    assert(free(es[i].1));
                    lemma_ext_clause(false, es[i].1, in_comparator(blacklist), "rarray(?)"@);
                }
                lemma_holes_all_const(cs, 2);
                lemma_ext_list_params_len(es);
                lemma_extend_balanced(a, cs, ext_list_params(es));
            } else {
                let vs = flat_values(es);
                assert forall|i: int| 0 <= i < es.len() implies free(#[trigger] es[i].1) by {}
                lemma_flat_values_keys(es);
                let cs = vs.map_values(
                    |e: (Seq<char>, Seq<char>, Seq<char>)| ext_clause(false, e.1, comparator(blacklist, exact), "?"@),
                );
                assert forall|i: int| 0 <= i < cs.len() implies holes(#[trigger] cs[i]) == 2 by {
                    assert(free(vs[i].1));
                    lemma_ext_clause(false, vs[i].1, comparator(blacklist, exact), "?"@);
                }
                lemma_holes_all_const(cs, 2);
                lemma_ext_value_params_len(vs, exact);
                if blacklist {
                    reveal_strlit(" AND ");
                    lemma_free_holes(" AND "@);
                    lemma_holes_join(cs, " AND "@);
                    lemma_parens(join(cs, " AND "@));
                    lemma_push_balanced(a, parens(join(cs, " AND "@)), ext_value_params(vs, exact));
                } else {
                    lemma_extend_balanced(a, cs, ext_value_params(vs, exact));
                }
            }
        },
    }
}

pub proof fn lemma_ext_compare(a: Acc, k: KeyChar, values: Option<Seq<(Seq<char>, Seq<(Seq<char>, i64)>)>>)
    requires
        balanced(a),
        opt_keys_free(values),
    ensures
        balanced(ext_compare_spec(a, k, values)),
{
    match values {
        None => {},
        Some(m) => {
            let es = flat_entries(m);
            lemma_q_holes();
            reveal_strlit(">=");
            reveal_strlit(">");
            reveal_strlit("=");
            lemma_free_holes(">="@);
            lemma_free_holes(">"@);
            lemma_free_holes("="@);
            let cs = es.map_values(|e: (Seq<char>, Seq<char>, i64)| ext_compare_clause(k, e.1));
            assert forall|i: int| 0 <= i < cs.len() implies holes(#[trigger] cs[i]) == 2 by {
                assert(free(es[i].1));
                lemma_ext_clause(true, es[i].1, ">="@, "?"@);
                lemma_ext_clause(false, es[i].1, ">"@, "?"@);
                lemma_ext_clause(false, es[i].1, "="@, "?"@);
            }
            lemma_holes_all_const(cs, 2);
            let ps = es.map_values(|e: (Seq<char>, Seq<char>, i64)| (e.0, ParamView::Integer(e.2)));
            lemma_ext_scalar_params_len(ps);
            lemma_extend_balanced(a, cs, ext_scalar_params(ps));
        },
    }
}

pub proof fn lemma_ext_bools(a: Acc, values: Option<Seq<(Seq<char>, Seq<(Seq<char>, bool)>)>>)
    requires
        balanced(a),
        opt_keys_free(values),
    ensures
        balanced(ext_bools_spec(a, values)),
{
    match values {
        None => {},
        Some(m) => {
            let es = flat_entries(m);
            lemma_q_holes();
            reveal_strlit("=");
            lemma_free_holes("="@);
            let cs = es.map_values(|e: (Seq<char>, Seq<char>, bool)| ext_clause(false, e.1, "="@, "?"@));
            assert forall|i: int| 0 <= i < cs.len() implies holes(#[trigger] cs[i]) == 2 by {
                assert(free(es[i].1));
                lemma_ext_clause(false, es[i].1, "="@, "?"@);
            }
            lemma_holes_all_const(cs, 2);
            let ps = es.map_values(|e: (Seq<char>, Seq<char>, bool)| (e.0, ParamView::Boolean(e.2)));
            lemma_ext_scalar_params_len(ps);
            lemma_extend_balanced(a, cs, ext_scalar_params(ps));
        },
    }
}

// ---------------------------------------------------------------------------
// Each stage, and the whole filter
// ---------------------------------------------------------------------------

proof fn lemma_field_lists(a: Acc, l: FieldFilter, exact: bool, blacklist: bool, match_any: bool)
    requires
        balanced(a),
    ensures
        balanced(field_lists_spec(a, l, exact, blacklist, match_any)),
{
    reveal(field_lists_spec);
    reveal_strlit("library");
    let a0 = add_clause_spec(a, "library"@, l.library.deep_view(), exact, blacklist, match_any);
    lemma_add_clause(a, "library"@, l.library.deep_view(), exact, blacklist, match_any);
    reveal_strlit("developer");
    let a1 = add_clause_spec(a0, "developer"@, l.developer.deep_view(), exact, blacklist, match_any);
    lemma_add_clause(a0, "developer"@, l.developer.deep_view(), exact, blacklist, match_any);
    reveal_strlit("publisher");
    let a2 = add_clause_spec(a1, "publisher"@, l.publisher.deep_view(), exact, blacklist, match_any);
    lemma_add_clause(a1, "publisher"@, l.publisher.deep_view(), exact, blacklist, match_any);
    reveal_strlit("series");
    let a3 = add_clause_spec(a2, "series"@, l.series.deep_view(), exact, blacklist, match_any);
    lemma_add_clause(a2, "series"@, l.series.deep_view(), exact, blacklist, match_any);
    reveal_strlit("playMode");
    let a4 = add_clause_spec(a3, "playMode"@, l.play_mode.deep_view(), exact, blacklist, match_any);
    lemma_add_clause(a3, "playMode"@, l.play_mode.deep_view(), exact, blacklist, match_any);
    reveal_strlit("status");
    let a5 = add_clause_spec(a4, "status"@, l.status.deep_view(), exact, blacklist, match_any);
    lemma_add_clause(a4, "status"@, l.status.deep_view(), exact, blacklist, match_any);
    reveal_strlit("notes");
    let a6 = add_clause_spec(a5, "notes"@, l.notes.deep_view(), exact, blacklist, match_any);
    lemma_add_clause(a5, "notes"@, l.notes.deep_view(), exact, blacklist, match_any);
    reveal_strlit("source");
    let a7 = add_clause_spec(a6, "source"@, l.source.deep_view(), exact, blacklist, match_any);
    lemma_add_clause(a6, "source"@, l.source.deep_view(), exact, blacklist, match_any);
    reveal_strlit("originalDescription");
    let a8 = add_clause_spec(a7, "originalDescription"@, l.original_description.deep_view(), exact, blacklist, match_any);
    lemma_add_clause(a7, "originalDescription"@, l.original_description.deep_view(), exact, blacklist, match_any);
    reveal_strlit("language");
    let a9 = add_clause_spec(a8, "language"@, l.language.deep_view(), exact, blacklist, match_any);
    lemma_add_clause(a8, "language"@, l.language.deep_view(), exact, blacklist, match_any);
    reveal_strlit("ruffleSupport");
    let a10 = add_clause_spec(a9, "ruffleSupport"@, l.ruffle_support.deep_view(), exact, blacklist, match_any);
    lemma_add_clause(a9, "ruffleSupport"@, l.ruffle_support.deep_view(), exact, blacklist, match_any);
}

proof fn lemma_stage_columns(a: Acc, f: GameFilter)
    requires
        balanced(a),
    ensures
        balanced(stage_columns(a, f)),
{
    reveal(stage_columns);
    let m = f.match_any;
    let a1 = field_lists_spec(a, f.exact_whitelist, true, false, m);
    lemma_field_lists(a, f.exact_whitelist, true, false, m);
    let a2 = field_lists_spec(a1, f.exact_blacklist, true, true, m);
    lemma_field_lists(a1, f.exact_blacklist, true, true, m);
    let a3 = field_lists_spec(a2, f.whitelist, false, false, m);
    lemma_field_lists(a2, f.whitelist, false, false, m);
    let a4 = field_lists_spec(a3, f.blacklist, false, true, m);
    lemma_field_lists(a3, f.blacklist, false, true, m);
    let a5 = id_clause_spec(a4, f.exact_whitelist.id.deep_view(), true, false);
    lemma_id_clause(a4, f.exact_whitelist.id.deep_view(), true, false);
    let a6 = id_clause_spec(a5, f.exact_blacklist.id.deep_view(), true, true);
    lemma_id_clause(a5, f.exact_blacklist.id.deep_view(), true, true);
    let a7 = id_clause_spec(a6, f.whitelist.id.deep_view(), false, false);
    lemma_id_clause(a6, f.whitelist.id.deep_view(), false, false);
    lemma_id_clause(a7, f.blacklist.id.deep_view(), false, false);
}

proof fn lemma_stage_tags(a: Acc, f: GameFilter)
    requires
        balanced(a),
        tags_ok(f),
    ensures
        balanced(stage_tags(a, f)),
{
    reveal(stage_tags);
    reveal_strlit("tag");
    reveal_strlit("platform");
    let m = f.match_any;
    let t = "tag"@;
    let p = "platform"@;
    let a1 = add_tagged_clause_spec(a, t, f.whitelist.tags.deep_view(), false, false, m);
    lemma_add_tagged_clause(a, t, f.whitelist.tags.deep_view(), false, false, m);
    let a2 = add_tagged_clause_spec(a1, t, f.blacklist.tags.deep_view(), false, true, m);
    lemma_add_tagged_clause(a1, t, f.blacklist.tags.deep_view(), false, true, m);
    let a3 = add_tagged_clause_spec(a2, t, f.exact_whitelist.tags.deep_view(), true, false, m);
    lemma_add_tagged_clause(a2, t, f.exact_whitelist.tags.deep_view(), true, false, m);
    let a4 = add_tagged_clause_spec(a3, t, f.exact_blacklist.tags.deep_view(), true, true, m);
    lemma_add_tagged_clause(a3, t, f.exact_blacklist.tags.deep_view(), true, true, m);
    let a5 = add_tagged_clause_spec(a4, p, f.whitelist.platforms.deep_view(), false, false, m);
    lemma_add_tagged_clause(a4, p, f.whitelist.platforms.deep_view(), false, false, m);
    let a6 = add_tagged_clause_spec(a5, p, f.blacklist.platforms.deep_view(), false, true, m);
    lemma_add_tagged_clause(a5, p, f.blacklist.platforms.deep_view(), false, true, m);
    let a7 = add_tagged_clause_spec(a6, p, f.exact_whitelist.platforms.deep_view(), true, false, m);
    lemma_add_tagged_clause(a6, p, f.exact_whitelist.platforms.deep_view(), true, false, m);
    lemma_add_tagged_clause(a7, p, f.exact_blacklist.platforms.deep_view(), true, true, m);
}

proof fn lemma_stage_multi(a: Acc, f: GameFilter)
    requires
        balanced(a),
    ensures
        balanced(stage_multi(a, f)),
{
    reveal(stage_multi);
    reveal_strlit("title");
    reveal_strlit("alternateTitles");
    reveal_strlit("developer");
    reveal_strlit("publisher");
    reveal_strlit("series");
    reveal_strlit("applicationPath");
    reveal_strlit("launchCommand");
    let tc = title_columns();
    let gc = generic_columns();
    assert forall|i: int| 0 <= i < tc.len() implies free(#[trigger] tc[i]) by {}
    assert forall|i: int| 0 <= i < gc.len() implies free(#[trigger] gc[i]) by {}
    let a1 = add_multi_clause_spec(a, tc, f.whitelist.title.deep_view(), false, false);
    lemma_add_multi_clause(a, tc, f.whitelist.title.deep_view(), false, false);
    let a2 = add_multi_clause_spec(a1, gc, f.whitelist.generic.deep_view(), false, false);
    lemma_add_multi_clause(a1, gc, f.whitelist.generic.deep_view(), false, false);
    let a3 = add_multi_clause_spec(a2, tc, f.blacklist.title.deep_view(), false, true);
    lemma_add_multi_clause(a2, tc, f.blacklist.title.deep_view(), false, true);
    let a4 = add_multi_clause_spec(a3, gc, f.blacklist.generic.deep_view(), false, true);
    lemma_add_multi_clause(a3, gc, f.blacklist.generic.deep_view(), false, true);
    let ap = "applicationPath"@;
    let lc = "launchCommand"@;
    let a5 = add_joint_clause_spec(a4, ap, ap, f.whitelist.application_path.deep_view(), false, false);
    lemma_add_joint_clause(a4, ap, ap, f.whitelist.application_path.deep_view(), false, false);
    let a6 = add_joint_clause_spec(a5, ap, ap, f.blacklist.application_path.deep_view(), false, true);
    lemma_add_joint_clause(a5, ap, ap, f.blacklist.application_path.deep_view(), false, true);
    let a7 = add_joint_clause_spec(a6, ap, ap, f.exact_whitelist.application_path.deep_view(), true, false);
    lemma_add_joint_clause(a6, ap, ap, f.exact_whitelist.application_path.deep_view(), true, false);
    let a8 = add_joint_clause_spec(a7, ap, ap, f.exact_blacklist.application_path.deep_view(), true, true);
    lemma_add_joint_clause(a7, ap, ap, f.exact_blacklist.application_path.deep_view(), true, true);
    let a9 = add_joint_clause_spec(a8, lc, lc, f.whitelist.launch_command.deep_view(), false, false);
    lemma_add_joint_clause(a8, lc, lc, f.whitelist.launch_command.deep_view(), false, false);
    let a10 = add_joint_clause_spec(a9, lc, lc, f.blacklist.launch_command.deep_view(), false, true);
    lemma_add_joint_clause(a9, lc, lc, f.blacklist.launch_command.deep_view(), false, true);
    let a11 = add_joint_clause_spec(a10, lc, lc, f.exact_whitelist.launch_command.deep_view(), true, false);
    lemma_add_joint_clause(a10, lc, lc, f.exact_whitelist.launch_command.deep_view(), true, false);
    lemma_add_joint_clause(a11, lc, lc, f.exact_blacklist.launch_command.deep_view(), true, true);
}

proof fn lemma_stage_counts(a: Acc, f: GameFilter)
    requires
        balanced(a),
    ensures
        balanced(stage_counts(a, f)),
{
    reveal(stage_counts);
    reveal_strlit("tag");
    reveal_strlit("platform");
    reveal_strlit("additional_app");
    reveal_strlit("parentGameId");
    reveal_strlit("game_data");
    reveal_strlit("gameId");
    let aa = "additional_app"@;
    let pg = "parentGameId"@;
    let gd = "game_data"@;
    let gi = "gameId"@;
    let a1 = acc_opt(a, compare_tag_clause("tag"@, KeyChar::LOWER, f.lower_than.tags));
    lemma_compare_tag_clause("tag"@, KeyChar::LOWER, f.lower_than.tags);
    lemma_acc_opt(a, compare_tag_clause("tag"@, KeyChar::LOWER, f.lower_than.tags));
    let a2 = acc_opt(a1, compare_tag_clause("tag"@, KeyChar::HIGHER, f.higher_than.tags));
    lemma_compare_tag_clause("tag"@, KeyChar::HIGHER, f.higher_than.tags);
    lemma_acc_opt(a1, compare_tag_clause("tag"@, KeyChar::HIGHER, f.higher_than.tags));
    let a3 = acc_opt(a2, compare_tag_clause("tag"@, KeyChar::EQUALS, f.equal_to.tags));
    lemma_compare_tag_clause("tag"@, KeyChar::EQUALS, f.equal_to.tags);
    lemma_acc_opt(a2, compare_tag_clause("tag"@, KeyChar::EQUALS, f.equal_to.tags));
    let a4 = acc_opt(a3, compare_tag_clause("platform"@, KeyChar::LOWER, f.lower_than.platforms));
    lemma_compare_tag_clause("platform"@, KeyChar::LOWER, f.lower_than.platforms);
    lemma_acc_opt(a3, compare_tag_clause("platform"@, KeyChar::LOWER, f.lower_than.platforms));
    let a5 = acc_opt(a4, compare_tag_clause("platform"@, KeyChar::HIGHER, f.higher_than.platforms));
    lemma_compare_tag_clause("platform"@, KeyChar::HIGHER, f.higher_than.platforms);
    lemma_acc_opt(a4, compare_tag_clause("platform"@, KeyChar::HIGHER, f.higher_than.platforms));
    let a6 = acc_opt(a5, compare_tag_clause("platform"@, KeyChar::EQUALS, f.equal_to.platforms));
    lemma_compare_tag_clause("platform"@, KeyChar::EQUALS, f.equal_to.platforms);
    lemma_acc_opt(a5, compare_tag_clause("platform"@, KeyChar::EQUALS, f.equal_to.platforms));
    let a7 = acc_opt(a6, compare_rows_clause(aa, pg, KeyChar::LOWER, f.lower_than.add_apps, false));
    lemma_compare_rows_clause(aa, pg, KeyChar::LOWER, f.lower_than.add_apps, false);
    lemma_acc_opt(a6, compare_rows_clause(aa, pg, KeyChar::LOWER, f.lower_than.add_apps, false));
    let a8 = acc_opt(a7, compare_rows_clause(aa, pg, KeyChar::HIGHER, f.higher_than.add_apps, false));
    lemma_compare_rows_clause(aa, pg, KeyChar::HIGHER, f.higher_than.add_apps, false);
    lemma_acc_opt(a7, compare_rows_clause(aa, pg, KeyChar::HIGHER, f.higher_than.add_apps, false));
    let a9 = acc_opt(a8, compare_rows_clause(aa, pg, KeyChar::EQUALS, f.equal_to.add_apps, false));
    lemma_compare_rows_clause(aa, pg, KeyChar::EQUALS, f.equal_to.add_apps, false);
    lemma_acc_opt(a8, compare_rows_clause(aa, pg, KeyChar::EQUALS, f.equal_to.add_apps, false));
    let a10 = acc_opt(a9, compare_rows_clause(gd, gi, KeyChar::LOWER, f.lower_than.game_data, true));
    lemma_compare_rows_clause(gd, gi, KeyChar::LOWER, f.lower_than.game_data, true);
    lemma_acc_opt(a9, compare_rows_clause(gd, gi, KeyChar::LOWER, f.lower_than.game_data, true));
    let a11 = acc_opt(a10, compare_rows_clause(gd, gi, KeyChar::HIGHER, f.higher_than.game_data, true));
    lemma_compare_rows_clause(gd, gi, KeyChar::HIGHER, f.higher_than.game_data, true);
    lemma_acc_opt(a10, compare_rows_clause(gd, gi, KeyChar::HIGHER, f.higher_than.game_data, true));
    let a12 = acc_opt(a11, compare_rows_clause(gd, gi, KeyChar::EQUALS, f.equal_to.game_data, true));
    lemma_compare_rows_clause(gd, gi, KeyChar::EQUALS, f.equal_to.game_data, true);
    lemma_acc_opt(a11, compare_rows_clause(gd, gi, KeyChar::EQUALS, f.equal_to.game_data, true));
}

proof fn lemma_stage_values(a: Acc, f: GameFilter)
    requires
        balanced(a),
    ensures
        balanced(stage_values(a, f)),
{
    reveal(stage_values);
    reveal_strlit("dateAdded");
    reveal_strlit("dateModified");
    reveal_strlit("lastPlayed");
    reveal_strlit("releaseDate");
    reveal_strlit("playtime");
    reveal_strlit("playCounter");
    let a1 = acc_opt(a, compare_date_clause("dateAdded"@, KeyChar::LOWER, str_view(f.lower_than.date_added), false));
    lemma_compare_date_clause("dateAdded"@, KeyChar::LOWER, str_view(f.lower_than.date_added), false);
    lemma_acc_opt(a, compare_date_clause("dateAdded"@, KeyChar::LOWER, str_view(f.lower_than.date_added), false));
    let a2 = acc_opt(a1, compare_date_clause("dateAdded"@, KeyChar::HIGHER, str_view(f.higher_than.date_added), false));
    lemma_compare_date_clause("dateAdded"@, KeyChar::HIGHER, str_view(f.higher_than.date_added), false);
    lemma_acc_opt(a1, compare_date_clause("dateAdded"@, KeyChar::HIGHER, str_view(f.higher_than.date_added), false));
    let a3 = acc_opt(a2, compare_date_clause("dateAdded"@, KeyChar::EQUALS, str_view(f.equal_to.date_added), false));
    lemma_compare_date_clause("dateAdded"@, KeyChar::EQUALS, str_view(f.equal_to.date_added), false);
    lemma_acc_opt(a2, compare_date_clause("dateAdded"@, KeyChar::EQUALS, str_view(f.equal_to.date_added), false));
    let a4 = acc_opt(a3, compare_date_clause("dateModified"@, KeyChar::LOWER, str_view(f.lower_than.date_modified), false));
    lemma_compare_date_clause("dateModified"@, KeyChar::LOWER, str_view(f.lower_than.date_modified), false);
    lemma_acc_opt(a3, compare_date_clause("dateModified"@, KeyChar::LOWER, str_view(f.lower_than.date_modified), false));
    let a5 = acc_opt(a4, compare_date_clause("dateModified"@, KeyChar::HIGHER, str_view(f.higher_than.date_modified), false));
    lemma_compare_date_clause("dateModified"@, KeyChar::HIGHER, str_view(f.higher_than.date_modified), false);
    lemma_acc_opt(a4, compare_date_clause("dateModified"@, KeyChar::HIGHER, str_view(f.higher_than.date_modified), false));
    let a6 = acc_opt(a5, compare_date_clause("dateModified"@, KeyChar::EQUALS, str_view(f.equal_to.date_modified), false));
    lemma_compare_date_clause("dateModified"@, KeyChar::EQUALS, str_view(f.equal_to.date_modified), false);
    lemma_acc_opt(a5, compare_date_clause("dateModified"@, KeyChar::EQUALS, str_view(f.equal_to.date_modified), false));
    let a7 = acc_opt(a6, compare_date_clause("lastPlayed"@, KeyChar::LOWER, str_view(f.lower_than.last_played), false));
    lemma_compare_date_clause("lastPlayed"@, KeyChar::LOWER, str_view(f.lower_than.last_played), false);
    lemma_acc_opt(a6, compare_date_clause("lastPlayed"@, KeyChar::LOWER, str_view(f.lower_than.last_played), false));
    let a8 = acc_opt(a7, compare_date_clause("lastPlayed"@, KeyChar::HIGHER, str_view(f.higher_than.last_played), false));
    lemma_compare_date_clause("lastPlayed"@, KeyChar::HIGHER, str_view(f.higher_than.last_played), false);
    lemma_acc_opt(a7, compare_date_clause("lastPlayed"@, KeyChar::HIGHER, str_view(f.higher_than.last_played), false));
    let a9 = acc_opt(a8, compare_date_clause("lastPlayed"@, KeyChar::EQUALS, str_view(f.equal_to.last_played), false));
    lemma_compare_date_clause("lastPlayed"@, KeyChar::EQUALS, str_view(f.equal_to.last_played), false);
    lemma_acc_opt(a8, compare_date_clause("lastPlayed"@, KeyChar::EQUALS, str_view(f.equal_to.last_played), false));
    let a10 = acc_opt(a9, compare_date_clause("releaseDate"@, KeyChar::LOWER, str_view(f.lower_than.release_date), true));
    lemma_compare_date_clause("releaseDate"@, KeyChar::LOWER, str_view(f.lower_than.release_date), true);
    lemma_acc_opt(a9, compare_date_clause("releaseDate"@, KeyChar::LOWER, str_view(f.lower_than.release_date), true));
    let a11 = acc_opt(a10, compare_date_clause("releaseDate"@, KeyChar::HIGHER, str_view(f.higher_than.release_date), true));
    lemma_compare_date_clause("releaseDate"@, KeyChar::HIGHER, str_view(f.higher_than.release_date), true);
    lemma_acc_opt(a10, compare_date_clause("releaseDate"@, KeyChar::HIGHER, str_view(f.higher_than.release_date), true));
    let a12 = acc_opt(a11, compare_date_clause("releaseDate"@, KeyChar::EQUALS, str_view(f.equal_to.release_date), true));
    lemma_compare_date_clause("releaseDate"@, KeyChar::EQUALS, str_view(f.equal_to.release_date), true);
    lemma_acc_opt(a11, compare_date_clause("releaseDate"@, KeyChar::EQUALS, str_view(f.equal_to.release_date), true));
    let a13 = acc_opt(a12, compare_counter_clause("playtime"@, KeyChar::LOWER, f.lower_than.playtime));
    lemma_compare_counter_clause("playtime"@, KeyChar::LOWER, f.lower_than.playtime);
    lemma_acc_opt(a12, compare_counter_clause("playtime"@, KeyChar::LOWER, f.lower_than.playtime));
    let a14 = acc_opt(a13, compare_counter_clause("playtime"@, KeyChar::HIGHER, f.higher_than.playtime));
    lemma_compare_counter_clause("playtime"@, KeyChar::HIGHER, f.higher_than.playtime);
    lemma_acc_opt(a13, compare_counter_clause("playtime"@, KeyChar::HIGHER, f.higher_than.playtime));
    let a15 = acc_opt(a14, compare_counter_clause("playtime"@, KeyChar::EQUALS, f.equal_to.playtime));
    lemma_compare_counter_clause("playtime"@, KeyChar::EQUALS, f.equal_to.playtime);
    lemma_acc_opt(a14, compare_counter_clause("playtime"@, KeyChar::EQUALS, f.equal_to.playtime));
    let a16 = acc_opt(a15, compare_counter_clause("playCounter"@, KeyChar::LOWER, f.lower_than.playcount));
    lemma_compare_counter_clause("playCounter"@, KeyChar::LOWER, f.lower_than.playcount);
    lemma_acc_opt(a15, compare_counter_clause("playCounter"@, KeyChar::LOWER, f.lower_than.playcount));
    let a17 = acc_opt(a16, compare_counter_clause("playCounter"@, KeyChar::HIGHER, f.higher_than.playcount));
    lemma_compare_counter_clause("playCounter"@, KeyChar::HIGHER, f.higher_than.playcount);
    lemma_acc_opt(a16, compare_counter_clause("playCounter"@, KeyChar::HIGHER, f.higher_than.playcount));
    let a18 = acc_opt(a17, compare_counter_clause("playCounter"@, KeyChar::EQUALS, f.equal_to.playcount));
    lemma_compare_counter_clause("playCounter"@, KeyChar::EQUALS, f.equal_to.playcount);
    lemma_acc_opt(a17, compare_counter_clause("playCounter"@, KeyChar::EQUALS, f.equal_to.playcount));
    let inst = "game.id IN (SELECT gameId FROM game_data WHERE game_data.presentOnDisk = ?)"@;
    reveal_strlit("game.id IN (SELECT gameId FROM game_data WHERE game_data.presentOnDisk = ?)");
    lemma_holes_one(inst, 73);
    match f.bool_comp.installed {
        Some(b) => lemma_push_balanced(a18, inst, seq![ParamView::Boolean(b)]),
        None => {},
    }
}

/// Whether no extension key that a filter or its nested filters name
/// holds a `?`.
pub open spec fn ext_keys_free(f: GameFilter) -> bool
    decreases f,
{
    &&& opt_keys_free(f.whitelist.ext.deep_view())
    &&& opt_keys_free(f.blacklist.ext.deep_view())
    &&& opt_keys_free(f.exact_whitelist.ext.deep_view())
    &&& opt_keys_free(f.exact_blacklist.ext.deep_view())
    &&& opt_keys_free(f.equal_to.ext.deep_view())
    &&& opt_keys_free(f.lower_than.ext.deep_view())
    &&& opt_keys_free(f.higher_than.ext.deep_view())
    &&& opt_keys_free(f.bool_comp.ext.deep_view())
    &&& subs_keys_free(f.subfilters@)
}

pub open spec fn subs_keys_free(subs: Seq<GameFilter>) -> bool
    decreases subs,
{
    subs.len() == 0 || (subs_keys_free(subs.drop_last()) && ext_keys_free(subs.last()))
}

proof fn lemma_stage_ext(a: Acc, f: GameFilter)
    requires
        balanced(a),
        ext_keys_free(f),
    ensures
        balanced(stage_ext(a, f)),
{
    reveal(stage_ext);
    let m = f.match_any;
    let a1 = ext_add_clause_spec(a, f.whitelist.ext.deep_view(), false, false, m);
    lemma_ext_add_clause(a, f.whitelist.ext.deep_view(), false, false, m);
    let a2 = ext_add_clause_spec(a1, f.blacklist.ext.deep_view(), false, true, m);
    lemma_ext_add_clause(a1, f.blacklist.ext.deep_view(), false, true, m);
    let a3 = ext_add_clause_spec(a2, f.exact_whitelist.ext.deep_view(), true, false, m);
    lemma_ext_add_clause(a2, f.exact_whitelist.ext.deep_view(), true, false, m);
    let a4 = ext_add_clause_spec(a3, f.exact_blacklist.ext.deep_view(), true, true, m);
    lemma_ext_add_clause(a3, f.exact_blacklist.ext.deep_view(), true, true, m);
    let a5 = ext_compare_spec(a4, KeyChar::EQUALS, f.equal_to.ext.deep_view());
    lemma_ext_compare(a4, KeyChar::EQUALS, f.equal_to.ext.deep_view());
    let a6 = ext_compare_spec(a5, KeyChar::LOWER, f.lower_than.ext.deep_view());
    lemma_ext_compare(a5, KeyChar::LOWER, f.lower_than.ext.deep_view());
    let a7 = ext_compare_spec(a6, KeyChar::HIGHER, f.higher_than.ext.deep_view());
    lemma_ext_compare(a6, KeyChar::HIGHER, f.higher_than.ext.deep_view());
    lemma_ext_bools(a7, f.bool_comp.ext.deep_view());
}

proof fn lemma_drop_empty(cs: Seq<Seq<char>>)
    ensures
        holes_all(drop_empty(cs)) == holes_all(cs),
    decreases cs.len(),
{
    if cs.len() > 0 {
        lemma_drop_empty(cs.drop_last());
        reveal_strlit("()");
        lemma_free_holes("()"@);
        let d = drop_empty(cs.drop_last());
        if cs.last() != "()"@ {
            assert(d.push(cs.last()).drop_last() =~= d);
        }
    }
}

proof fn lemma_subfilters_balanced(subs: Seq<GameFilter>)
    requires
        filters_ok(subs),
        subs_keys_free(subs),
    ensures
        balanced(subfilters_acc(subs)),
    decreases subs,
{
    if subs.len() > 0 {
        lemma_subfilters_balanced(subs.drop_last());
        law_every_value_has_a_placeholder(subs.last());
        let a = subfilters_acc(subs.drop_last());
        let (t, ps) = filter_output(subs.last());
        if t.len() == 0 {
            assert(holes(t) == 0);
            assert(a.params + ps =~= a.params);
        } else {
            lemma_parens(t);
            lemma_push_balanced(a, parens(t), ps);
        }
    }
}

/// Law: every value that a buildable filter binds has its `?` in the
/// filter's text, and every `?` has its value: the text holds exactly as
/// many placeholders as there are values. Extension keys are written into
/// the text, so none of them may hold a `?`.
pub proof fn law_every_value_has_a_placeholder(f: GameFilter)
    requires
        filter_query_ok(f),
        ext_keys_free(f),
    ensures
        holes(filter_output(f).0) == filter_output(f).1.len(),
    decreases f,
{
    lemma_subfilters_balanced(f.subfilters@);
    let a0 = subfilters_acc(f.subfilters@);
    let a1 = stage_columns(a0, f);
    lemma_stage_columns(a0, f);
    let a2 = stage_tags(a1, f);
    lemma_stage_tags(a1, f);
    let a3 = stage_multi(a2, f);
    lemma_stage_multi(a2, f);
    let a4 = stage_counts(a3, f);
    lemma_stage_counts(a3, f);
    let a5 = stage_values(a4, f);
    lemma_stage_values(a4, f);
    lemma_stage_ext(a5, f);
    let a = own_clauses(a0, f);
    lemma_drop_empty(a.clauses);
    reveal_strlit(" OR ");
    reveal_strlit(" AND ");
    lemma_free_holes(" OR "@);
    lemma_free_holes(" AND "@);
    lemma_holes_join(drop_empty(a.clauses), clause_separator(f.match_any));
}

proof fn lemma_digit_free(d: nat)
    requires
        d < 10,
    ensures
        ((('0' as u32) + d) as char) != '?',
{
    assert(('0' as u32) == 48);
    assert(('?' as u32) == 63);
    let c = (('0' as u32) + d) as char;
    assert(c as u32 == 48 + d);
}

proof fn lemma_nat_decimal_free(n: nat)
    ensures
        free(nat_decimal(n)),
    decreases n,
{
    if n < 10 {
        lemma_digit_free(n);
    } else {
        lemma_nat_decimal_free(n / 10);
        lemma_digit_free(n % 10);
    }
}

proof fn lemma_int_decimal_free(n: int)
    ensures
        holes(int_decimal(n)) == 0,
{
    if n < 0 {
        lemma_nat_decimal_free((-n) as nat);
        assert(free(seq!['-'] + nat_decimal((-n) as nat))) by {
            let t = seq!['-'] + nat_decimal((-n) as nat);
            assert forall|i: int| 0 <= i < t.len() implies t[i] != '?' by {
                if i > 0 {
                    assert(t[i] == nat_decimal((-n) as nat)[i - 1]);
                }
            }
        }
    } else {
        lemma_nat_decimal_free(n as nat);
    }
    lemma_free_holes(int_decimal(n));
}

proof fn lemma_order_column_free(s: GameSearch)
    ensures
        holes(order_column(s)) == 0,
{
    reveal_strlit("OrderedExt.ExtValue");
    reveal_strlit("game.title");
    reveal_strlit("game.developer");
    reveal_strlit("game.publisher");
    reveal_strlit("game.series");
    reveal_strlit("game.platformName");
    reveal_strlit("game.dateAdded");
    reveal_strlit("game.dateModified");
    reveal_strlit("game.releaseDate");
    reveal_strlit("game.lastPlayed");
    reveal_strlit("game.playtime");
    reveal_strlit("OrderedIDs.RowNum");
    reveal_strlit("unknown");
    lemma_free_holes(order_column(s));
}

proof fn lemma_order_clause_free(s: GameSearch)
    ensures
        holes(order_clause(s)) == 0,
{
    lemma_order_column_free(s);
    lemma_int_decimal_free(s.limit as int);
    reveal_strlit(" LIMIT ");
    reveal_strlit(" ORDER BY RANDOM()");
    reveal_strlit(" ORDER BY OrderedIDs.RowNum");
    reveal_strlit(" ORDER BY ");
    reveal_strlit(" COLLATE NOCASE ");
    reveal_strlit(", game.title ");
    reveal_strlit("ASC");
    reveal_strlit("DESC");
    lemma_free_holes(" LIMIT "@);
    lemma_free_holes(" ORDER BY RANDOM()"@);
    lemma_free_holes(" ORDER BY OrderedIDs.RowNum"@);
    lemma_free_holes(" ORDER BY "@);
    lemma_free_holes(" COLLATE NOCASE "@);
    lemma_free_holes(", game.title "@);
    let d = order_direction(s.order.direction);
    lemma_free_holes(d);
    let limit = " LIMIT "@ + int_decimal(s.limit as int);
    lemma_holes_add(" LIMIT "@, int_decimal(s.limit as int));
    lemma_holes_add(" ORDER BY RANDOM()"@, limit);
    lemma_holes_add(" ORDER BY OrderedIDs.RowNum"@, limit);
    lemma_holes5(" ORDER BY "@, order_column(s), " COLLATE NOCASE "@, d, ", game.title "@);
    let x = " ORDER BY "@ + order_column(s) + " COLLATE NOCASE "@ + d + ", game.title "@;
    lemma_holes_add(x, d);
    lemma_holes_add(x + d, limit);
}

proof fn lemma_search_joins(s: GameSearch, selection: Seq<char>)
    requires
        free(selection),
    ensures
        holes(search_joins(s, selection)) == 0,
{
    lemma_free_holes(selection);
    reveal_strlit(" INNER JOIN OrderedExt ON game.id = OrderedExt.id");
    reveal_strlit(" INNER JOIN OrderedIDs ON game.id = OrderedIDs.id");
    reveal_strlit(" INNER JOIN tag_filter_index ON game.id = tag_filter_index.id");
    let e = " INNER JOIN OrderedExt ON game.id = OrderedExt.id"@;
    let c = " INNER JOIN OrderedIDs ON game.id = OrderedIDs.id"@;
    let t = " INNER JOIN tag_filter_index ON game.id = tag_filter_index.id"@;
    lemma_free_holes(e);
    lemma_free_holes(c);
    lemma_free_holes(t);
    lemma_holes_add(selection, e);
    lemma_holes_add(selection, c);
    let q1 = if s.ext_order is Some {
        selection + e
    } else if s.order.column == GameSearchSortable::CUSTOM {
        selection + c
    } else {
        selection
    };
    lemma_holes_add(q1, t);
}

proof fn lemma_offset_clause(s: GameSearch)
    ensures
        holes(offset_clause(s).0) == offset_clause(s).1.len(),
{
    reveal_strlit(" WHERE OrderedIDs.RowNum > ?");
    reveal_strlit(" WHERE (");
    reveal_strlit(" COLLATE NOCASE, game.title, game.id) ");
    reveal_strlit(">");
    reveal_strlit("<");
    reveal_strlit(" (?, ?, ?)");
    reveal_strlit(" (");
    reveal_strlit("?");
    reveal_strlit(", ");
    reveal_strlit(")");
    lemma_holes_one(" WHERE OrderedIDs.RowNum > ?"@, 27);
    lemma_free_holes(" WHERE ("@);
    lemma_free_holes(" COLLATE NOCASE, game.title, game.id) "@);
    lemma_free_holes(">"@);
    lemma_free_holes("<"@);
    lemma_free_holes(" ("@);
    lemma_free_holes(", "@);
    lemma_free_holes(")"@);
    lemma_holes_one("?"@, 0);
    lemma_order_column_free(s);
    let three = " (?, ?, ?)"@;
    assert(three =~= " ("@ + "?"@ + ", "@ + "?"@ + ", "@ + "?"@ + ")"@);
    lemma_holes5(" ("@, "?"@, ", "@, "?"@, ", "@);
    let y = " ("@ + "?"@ + ", "@ + "?"@ + ", "@;
    lemma_holes_add(y, "?"@);
    lemma_holes_add(y + "?"@, ")"@);
    assert(holes(three) == 3);
    let op = match s.order.direction {
        GameSearchDirection::ASC => ">"@,
        GameSearchDirection::DESC => "<"@,
    };
    lemma_holes5(" WHERE ("@, order_column(s), " COLLATE NOCASE, game.title, game.id) "@, op, three);
}

/// Law: a whole search query, after a selection without `?`, binds
/// exactly as many values as its text has placeholders: the page boundary's
/// values, then the filter's.
pub proof fn law_search_query_placeholders(s: GameSearch, selection: Seq<char>)
    requires
        free(selection),
        filter_query_ok(s.filter),
        ext_keys_free(s.filter),
    ensures
        holes(search_query(s, selection).0) == search_query(s, selection).1.len(),
{
    law_every_value_has_a_placeholder(s.filter);
    let w = filter_output(s.filter).0;
    let fps = filter_output(s.filter).1;
    lemma_offset_clause(s);
    lemma_search_joins(s, selection);
    lemma_order_clause_free(s);
    let (oc, ops) = offset_clause(s);
    let q = search_joins(s, selection) + oc;
    lemma_holes_add(search_joins(s, selection), oc);
    reveal_strlit(" AND (");
    reveal_strlit(" WHERE (");
    reveal_strlit(")");
    reveal_strlit("()");
    lemma_free_holes(" AND ("@);
    lemma_free_holes(" WHERE ("@);
    lemma_free_holes(")"@);
    lemma_free_holes("()"@);
    let open = if s.offset is Some {
        " AND ("@
    } else {
        " WHERE ("@
    };
    lemma_holes_add(q, open);
    lemma_holes_add(q + open, w);
    lemma_holes_add(q + open + w, ")"@);
    let q2 = if w.len() > 0 && w != "()"@ {
        q + open + w + ")"@
    } else {
        q
    };
    if !(w.len() > 0 && w != "()"@) {
        assert(holes(w) == 0);
    }
    lemma_holes_add(q2, order_clause(s));
}

} // verus!
