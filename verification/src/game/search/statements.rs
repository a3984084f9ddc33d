//! The SQL statements of the search operations (results, counts, page
//! indexes, the tag filter index) and the decisions around them.
use vstd::prelude::*;
use crate::game::search::{
    FieldFilter, GameFilter, GameSearch, GameSearchDirection, GameSearchOrder, GameSearchRelations, GameSearchSortable, SearchParam, TagFilterInfo,
    field_filter_is_empty, game_filter_is_empty, is_default_search_except_filter, size_filter_is_empty,
    bool_filter_is_empty,
};
use crate::game::search::query::{
    ParamView, build_search_query, filter_query_ok, order_column, join, order_direction, params_view, search_query,
    tagged_ok, tags_ok, filters_ok, filter_buildable,
};
use crate::text::{append_chars, append_str, i64_decimal, int_decimal, string_of, to_chars};

verus! {

pub const COUNT_QUERY: &'static str = "SELECT COUNT(*) FROM game";

pub const RESULTS_QUERY: &'static str = "SELECT game.id, title, alternateTitles, series, developer, publisher, platformsStr, platformName, dateAdded, dateModified, broken, extreme, playMode, status, notes, tagsStr, source, applicationPath, launchCommand, releaseDate, version, originalDescription, language, activeDataId, activeDataOnDisk, lastPlayed, playtime, activeGameConfigId, activeGameConfigOwner, archiveState, library, playCounter, logoPath, screenshotPath, ruffleSupport FROM game";

pub const SLIM_RESULTS_QUERY: &'static str = "SELECT game.id, title, series, developer, publisher, platformsStr, \nplatformName, tagsStr, library, logoPath, screenshotPath \nFROM game";

pub const TAG_FILTER_INDEX_QUERY: &'static str = "INSERT INTO tag_filter_index (id) SELECT game.id FROM game";

pub const EXT_CTE_HEAD: &'static str = "WITH OrderedExt AS (\n            SELECT\n                gameId AS id,\n                COALESCE(JSON_EXTRACT(data, '$.";

pub const EXT_CTE_MID: &'static str = "'), ";

pub const EXT_CTE_TAIL: &'static str = ") AS ExtValue\n            FROM ext_data\n            WHERE extId = '";

pub const EXT_CTE_END: &'static str = "'\n        ) ";

pub const CUSTOM_CTE: &'static str = "WITH OrderedIDs AS (\n            SELECT\n            id,\n            ROW_NUMBER() OVER (ORDER BY (SELECT NULL)) AS RowNum\n            FROM custom_id_order\n        ) ";

pub const INDEX_EXT_HEAD: &'static str = "\n            WITH OrderedExt AS (\n                SELECT\n                    gameId AS id,\n                    COALESCE(JSON_EXTRACT(data, '$.";

pub const INDEX_EXT_TAIL: &'static str = ") AS ExtValue\n                FROM ext_data\n                WHERE extId = '";

pub const INDEX_EXT_END: &'static str = "'\n            )\n            SELECT \n                game.id, \n                OrderedExt.ExtValue, \n                game.title, \n                ROW_NUMBER() OVER (ORDER BY OrderedExt.ExtValue, game.title, game.id) AS rn \n            FROM game";

pub const INDEX_CUSTOM: &'static str = "\n            WITH OrderedIDs AS (\n                SELECT\n                id,\n                ROW_NUMBER() OVER (ORDER BY (SELECT NULL)) AS RowNum\n                FROM custom_id_order\n            ) \n            SELECT game.id, OrderedIDs.RowNum, game.title, ROW_NUMBER() OVER (ORDER BY OrderedIDs.RowNum, game.title, game.id) AS rn FROM game";

// ---------------------------------------------------------------------------
// Results and counts
// ---------------------------------------------------------------------------

/// `base` after the common table that an extension order or a custom order
/// needs.
pub open spec fn with_order_table(s: GameSearch, base: Seq<char>) -> Seq<char> {
    match s.ext_order {
        Some(eo) => EXT_CTE_HEAD@ + eo.key@ + EXT_CTE_MID@ + eo.default@ + EXT_CTE_TAIL@ + eo.ext_id@ + EXT_CTE_END@
            + base,
        None => if s.order.column == GameSearchSortable::CUSTOM {
            CUSTOM_CTE@ + base
        } else {
            base
        },
    }
}

fn with_order_table_exec(s: &GameSearch, base: &str) -> (r: Vec<char>)
    ensures
        r@ == with_order_table(*s, base@),
{
    let mut q: Vec<char> = Vec::new();
    match &s.ext_order {
        Some(eo) => {
            append_str(&mut q, EXT_CTE_HEAD);
            append_str(&mut q, eo.key.as_str());
            append_str(&mut q, EXT_CTE_MID);
            append_str(&mut q, eo.default.as_str());
            append_str(&mut q, EXT_CTE_TAIL);
            append_str(&mut q, eo.ext_id.as_str());
            append_str(&mut q, EXT_CTE_END);
        },
        None => {
            if s.order.column == GameSearchSortable::CUSTOM {
                append_str(&mut q, CUSTOM_CTE);
            }
        },
    }
    append_str(&mut q, base);
    assert(q@ =~= with_order_table(*s, base@));
    q
}

pub open spec fn results_base(s: GameSearch) -> Seq<char> {
    if s.slim {
        SLIM_RESULTS_QUERY@
    } else {
        RESULTS_QUERY@
    }
}

/// The selection of a result search: all game columns, or the few of a
/// slim search.
pub fn search_selection(s: &GameSearch) -> (r: String)
    ensures
        r@ == with_order_table(*s, results_base(*s)),
{
    let base = if s.slim {
        SLIM_RESULTS_QUERY
    } else {
        RESULTS_QUERY
    };
    string_of(&with_order_table_exec(s, base))
}

/// The selection of a count search.
pub fn count_selection(s: &GameSearch) -> (r: String)
    ensures
        r@ == with_order_table(*s, COUNT_QUERY@),
{
    string_of(&with_order_table_exec(s, COUNT_QUERY))
}

// ---------------------------------------------------------------------------
// Page indexes
// ---------------------------------------------------------------------------

/// The column a page index is ordered by, before an extension order.
pub open spec fn index_order_column(c: GameSearchSortable) -> Seq<char> {
    match c {
        GameSearchSortable::TITLE => "game.title"@,
        GameSearchSortable::DEVELOPER => "game.developer"@,
        GameSearchSortable::PUBLISHER => "game.publisher"@,
        GameSearchSortable::SERIES => "game.series"@,
        GameSearchSortable::PLATFORM => "game.platformName"@,
        GameSearchSortable::DATEADDED => "game.dateAdded"@,
        GameSearchSortable::DATEMODIFIED => "game.dateModified"@,
        GameSearchSortable::RELEASEDATE => "game.releaseDate"@,
        GameSearchSortable::LASTPLAYED => "game.lastPlayed"@,
        GameSearchSortable::PLAYTIME => "game.playtime"@,
        GameSearchSortable::CUSTOM => "RowNum"@,
        _ => "unknown"@,
    }
}

/// Law: the page index of a search is numbered in the search's own order:
/// for a search sorted by a column (and not by an extension value), the
/// index orders by the very column the search orders by; for a custom
/// order, by the same row number, named within its subquery.
pub proof fn law_index_orders_like_search(s: GameSearch)
    requires
        s.ext_order is None,
    ensures
        s.order.column != GameSearchSortable::CUSTOM && s.order.column != GameSearchSortable::RANDOM
            ==> index_order_column(s.order.column) == order_column(s),
        s.order.column == GameSearchSortable::CUSTOM ==> order_column(s) == "OrderedIDs."@ + index_order_column(
            s.order.column,
        ),
{
    reveal_strlit("OrderedIDs.");
    reveal_strlit("RowNum");
    reveal_strlit("OrderedIDs.RowNum");
    if s.order.column == GameSearchSortable::CUSTOM {
        assert("OrderedIDs.RowNum"@ =~= "OrderedIDs."@ + "RowNum"@);
    }
}

fn index_order_column_exec(c: GameSearchSortable) -> (r: &'static str)
    ensures
        r@ == index_order_column(c),
{
    match c {
        GameSearchSortable::TITLE => "game.title",
        GameSearchSortable::DEVELOPER => "game.developer",
        GameSearchSortable::PUBLISHER => "game.publisher",
        GameSearchSortable::SERIES => "game.series",
        GameSearchSortable::PLATFORM => "game.platformName",
        GameSearchSortable::DATEADDED => "game.dateAdded",
        GameSearchSortable::DATEMODIFIED => "game.dateModified",
        GameSearchSortable::RELEASEDATE => "game.releaseDate",
        GameSearchSortable::LASTPLAYED => "game.lastPlayed",
        GameSearchSortable::PLAYTIME => "game.playtime",
        GameSearchSortable::CUSTOM => "RowNum",
        _ => "unknown",
    }
}

/// The numbered rows that a page index is taken from.
pub open spec fn index_selection(s: GameSearch) -> Seq<char> {
    match s.ext_order {
        Some(eo) => INDEX_EXT_HEAD@ + eo.key@ + EXT_CTE_MID@ + eo.default@ + INDEX_EXT_TAIL@ + eo.ext_id@
            + INDEX_EXT_END@,
        None => if s.order.column == GameSearchSortable::CUSTOM {
            INDEX_CUSTOM@
        } else {
            let oc = index_order_column(s.order.column);
            let d = order_direction(s.order.direction);
            "SELECT game.id, "@ + oc + ", game.title, ROW_NUMBER() OVER (ORDER BY "@ + oc + " COLLATE NOCASE "@ + d
                + ", game.title "@ + d + ", game.id) AS rn FROM game"@
        },
    }
}

fn index_selection_exec(s: &GameSearch) -> (r: String)
    ensures
        r@ == index_selection(*s),
{
    let mut q: Vec<char> = Vec::new();
    match &s.ext_order {
        Some(eo) => {
            append_str(&mut q, INDEX_EXT_HEAD);
            append_str(&mut q, eo.key.as_str());
            append_str(&mut q, EXT_CTE_MID);
            append_str(&mut q, eo.default.as_str());
            append_str(&mut q, INDEX_EXT_TAIL);
            append_str(&mut q, eo.ext_id.as_str());
            append_str(&mut q, INDEX_EXT_END);
        },
        None => {
            if s.order.column == GameSearchSortable::CUSTOM {
                append_str(&mut q, INDEX_CUSTOM);
            } else {
                let oc = index_order_column_exec(s.order.column);
                let d = match s.order.direction {
                    GameSearchDirection::ASC => "ASC",
                    GameSearchDirection::DESC => "DESC",
                };
                append_str(&mut q, "SELECT game.id, ");
                append_str(&mut q, oc);
                append_str(&mut q, ", game.title, ROW_NUMBER() OVER (ORDER BY ");
                append_str(&mut q, oc);
                append_str(&mut q, " COLLATE NOCASE ");
                append_str(&mut q, d);
                append_str(&mut q, ", game.title ");
                append_str(&mut q, d);
                append_str(&mut q, ", game.id) AS rn FROM game");
            }
        },
    }
    assert(q@ =~= index_selection(*s));
    string_of(&q)
}

/// The value a page index is ordered by in its outer query.
pub open spec fn index_value_column(s: GameSearch) -> Seq<char> {
    if s.ext_order is Some {
        "ExtValue"@
    } else {
        index_order_column(s.order.column)
    }
}

/// The page size a search index runs with: the given limit, else
/// 999999999.
pub open spec fn index_limit(limit: Option<i64>) -> i64 {
    match limit {
        Some(l) => l,
        None => 999999999,
    }
}

/// The query of a page index: every `page`-th row of the search (the
/// search's own limit), with its order value and title. The search runs
/// with `limit` (or 999999999) rows, which is written back to it.
pub fn search_index_query(search: &mut GameSearch, limit: Option<i64>) -> (r: (String, Vec<SearchParam>))
    requires
        filter_query_ok(old(search).filter),
    ensures
        *final(search) == (GameSearch { limit: index_limit(limit), ..*old(search) }),
        r.0@ == "SELECT game.id, "@ + index_value_column(*old(search)) + ", game.title FROM ("@ + search_query(
            *final(search),
            index_selection(*old(search)),
        ).0 + ") game WHERE rn % ? = 0"@,
        params_view(r.1@) == search_query(*final(search), index_selection(*old(search))).1 + seq![
            ParamView::Text(int_decimal(old(search).limit as int)),
        ],
{
    let page_size = search.limit;
    search.limit = match limit {
        Some(l) => l,
        None => 999999999,
    };
    let selection = index_selection_exec(search);
    let value_column = if search.ext_order.is_some() {
        "ExtValue"
    } else {
        index_order_column_exec(search.order.column)
    };
    let (inner, mut params) = build_search_query(search, selection.as_str());
    let mut q: Vec<char> = Vec::new();
    append_str(&mut q, "SELECT game.id, ");
    append_str(&mut q, value_column);
    append_str(&mut q, ", game.title FROM (");
    append_str(&mut q, inner.as_str());
    append_str(&mut q, ") game WHERE rn % ? = 0");
    let ghost p0 = params@;
    let p = SearchParam::String(string_of(&i64_decimal(page_size)));
    params.push(p);
    proof {
        assert(params_view(params@) =~= params_view(p0).push(crate::game::search::query::param_view(p)));
    }
    (string_of(&q), params)
}

/// `search_index_query` for any search: `Some` of its query where the
/// filter can be built, with the page size set as there; otherwise `None`,
/// and the search is left as it is.
pub fn try_search_index_query(search: &mut GameSearch, limit: Option<i64>) -> (r: Option<(String, Vec<SearchParam>)>)
    ensures
        r is Some <==> filter_query_ok(old(search).filter),
        r is None ==> *final(search) == *old(search),
        r matches Some(q) ==> {
            &&& *final(search) == (GameSearch { limit: index_limit(limit), ..*old(search) })
            &&& q.0@ == "SELECT game.id, "@ + index_value_column(*old(search)) + ", game.title FROM ("@
                + search_query(*final(search), index_selection(*old(search))).0 + ") game WHERE rn % ? = 0"@
            &&& params_view(q.1@) == search_query(*final(search), index_selection(*old(search))).1 + seq![
                ParamView::Text(int_decimal(old(search).limit as int)),
            ]
        },
{
    if filter_buildable(&search.filter) {
        Some(search_index_query(search, limit))
    } else {
        None
    }
}

// ---------------------------------------------------------------------------
// The tag filter index
// ---------------------------------------------------------------------------

/// A filter that excludes, in one list, the games with any of `tags`, and
/// sets nothing else.
pub open spec fn excludes_only_tags(f: GameFilter, tags: Seq<Seq<char>>) -> bool {
    &&& f.subfilters@.len() == 0
    &&& field_filter_is_empty(f.whitelist)
    &&& field_filter_is_empty(f.blacklist)
    &&& field_filter_is_empty(f.exact_whitelist)
    &&& field_filter_is_empty(FieldFilter { tags: None, ..f.exact_blacklist })
    &&& f.exact_blacklist.tags.deep_view() == Some(tags)
    &&& size_filter_is_empty(f.lower_than)
    &&& size_filter_is_empty(f.higher_than)
    &&& size_filter_is_empty(f.equal_to)
    &&& bool_filter_is_empty(f.bool_comp)
    &&& f.match_any
}

/// The search that fills the tag filter index: the default search with a
/// large page, excluding games with any of `tags`.
pub fn tag_filter_search(tags: &Vec<String>) -> (r: GameSearch)
    ensures
        is_default_search_except_filter(GameSearch { limit: 1000, ..r }),
        r.limit == 999999999,
        excludes_only_tags(r.filter, tags.deep_view()),
{
    let mut s = GameSearch::default();
    s.limit = 999999999;
    s.filter.exact_blacklist.tags = Some(crate::game::search::filter::clone_strings(tags));
    s.filter.match_any = true;
    s
}

/// Whether `r` is the search that fills the tag filter index before `s`
/// runs: present exactly when `s` carries tags to filter out, and then
/// excluding those tags.
pub open spec fn refreshes_tag_filter(s: GameSearch, r: Option<GameSearch>) -> bool {
    match r {
        Some(f) => {
            &&& s.with_tag_filter matches Some(t) && t@.len() > 0
            &&& f.limit == 999999999
            &&& excludes_only_tags(f.filter, s.with_tag_filter->0.deep_view())
            &&& is_default_search_except_filter(GameSearch { limit: 1000, ..f })
        },
        None => !(s.with_tag_filter matches Some(t) && t@.len() > 0),
    }
}

/// The search that fills the tag filter index before `search` runs, when
/// the search carries tags to filter out; otherwise `None`.
pub fn tag_filter_refresh(search: &GameSearch) -> (r: Option<GameSearch>)
    ensures
        refreshes_tag_filter(*search, r),
{
    match &search.with_tag_filter {
        Some(t) => {
            if t.len() > 0 {
                Some(tag_filter_search(t))
            } else {
                None
            }
        },
        None => None,
    }
}

/// The custom order of game ids to store before a page index of `search`
/// is built: its ids, when it is ordered by them and names at least one.
pub fn custom_order_refresh(search: &GameSearch) -> (r: Option<Vec<String>>)
    ensures
        match r {
            Some(ids) => {
                &&& search.order.column == GameSearchSortable::CUSTOM
                &&& search.custom_id_order matches Some(c) && c@.len() > 0
                &&& ids.deep_view() == search.custom_id_order->0.deep_view()
            },
            None => !(search.order.column == GameSearchSortable::CUSTOM
                && (search.custom_id_order matches Some(c) && c@.len() > 0)),
        },
{
    if search.order.column == GameSearchSortable::CUSTOM {
        match &search.custom_id_order {
            Some(c) => {
                if c.len() > 0 {
                    Some(crate::game::search::filter::clone_strings(c))
                } else {
                    None
                }
            },
            None => None,
        }
    } else {
        None
    }
}

/// Turns `search` into a pick of `count` games in random order. When the
/// search carries tags to filter out, also gives the search that fills the
/// tag filter index for them; otherwise `None`.
pub fn random_search(search: &mut GameSearch, count: i64) -> (r: Option<GameSearch>)
    ensures
        *final(search) == (GameSearch {
            limit: count,
            order: GameSearchOrder { column: GameSearchSortable::RANDOM, ..old(search).order },
            ..*old(search)
        }),
        refreshes_tag_filter(*old(search), r),
{
    search.limit = count;
    search.order.column = GameSearchSortable::RANDOM;
    tag_filter_refresh(search)
}

/// A filter that asks for games tagged exactly `tag`, and for nothing else.
pub open spec fn requires_only_tag(f: GameFilter, tag: Seq<char>) -> bool {
    &&& f.subfilters@.len() == 0
    &&& field_filter_is_empty(f.whitelist)
    &&& field_filter_is_empty(f.blacklist)
    &&& field_filter_is_empty(FieldFilter { tags: None, ..f.exact_whitelist })
    &&& f.exact_whitelist.tags.deep_view() == Some(seq![tag])
    &&& field_filter_is_empty(f.exact_blacklist)
    &&& size_filter_is_empty(f.lower_than)
    &&& size_filter_is_empty(f.higher_than)
    &&& size_filter_is_empty(f.equal_to)
    &&& bool_filter_is_empty(f.bool_comp)
    &&& !f.match_any
}

/// The search for every game tagged exactly `tag`, with all its related
/// records loaded.
pub fn with_tag_search(tag: &str) -> (r: GameSearch)
    ensures
        is_default_search_except_filter(GameSearch {
            limit: 1000,
            load_relations: GameSearchRelations { tags: false, platforms: false, game_data: false, add_apps: false, ..r.load_relations },
            ..r
        }),
        r.load_relations.tags && r.load_relations.platforms && r.load_relations.game_data && r.load_relations.add_apps,
        r.limit == 9999999999,
        requires_only_tag(r.filter, tag@),
{
    let mut s = GameSearch::default();
    s.load_relations.tags = true;
    s.load_relations.platforms = true;
    s.load_relations.game_data = true;
    s.load_relations.add_apps = true;
    let mut v: Vec<String> = Vec::new();
    v.push(string_of(&to_chars(tag)));
    proof {
        assert(v.deep_view() =~= seq![tag@]);
    }
    s.filter.exact_whitelist.tags = Some(v);
    s.limit = 9999999999;
    s
}

/// The text under which a custom order of game ids is stored: the ids
/// joined with `;`.
pub fn custom_order_text(ids: &Vec<String>) -> (r: String)
    ensures
        r@ == join(ids.deep_view(), ";"@),
{
    crate::game::join_strings(ids, ";")
}

/// Strict lexicographic order of character sequences, by code point (the
/// order of `String`, whose bytes are UTF-8).
pub open spec fn text_lt(a: Seq<char>, b: Seq<char>) -> bool
    decreases a.len(),
{
    if a.len() == 0 {
        b.len() > 0
    } else if b.len() == 0 {
        false
    } else if a[0] != b[0] {
        a[0] < b[0]
    } else {
        text_lt(a.skip(1), b.skip(1))
    }
}

pub open spec fn text_le(a: Seq<char>, b: Seq<char>) -> bool {
    a == b || text_lt(a, b)
}

pub proof fn lemma_text_lt_irreflexive(a: Seq<char>)
    ensures
        !text_lt(a, a),
    decreases a.len(),
{
    if a.len() > 0 {
        lemma_text_lt_irreflexive(a.skip(1));
    }
}

pub proof fn lemma_text_lt_transitive(a: Seq<char>, b: Seq<char>, c: Seq<char>)
    requires
        text_lt(a, b),
        text_lt(b, c),
    ensures
        text_lt(a, c),
    decreases a.len(),
{
    if a.len() > 0 && b.len() > 0 && c.len() > 0 {
        if a[0] == b[0] && b[0] == c[0] {
            lemma_text_lt_transitive(a.skip(1), b.skip(1), c.skip(1));
        }
    }
}

pub proof fn lemma_text_lt_total(a: Seq<char>, b: Seq<char>)
    ensures
        a == b || text_lt(a, b) || text_lt(b, a),
    decreases a.len(),
{
    if a.len() > 0 && b.len() > 0 {
        if a[0] == b[0] {
            lemma_text_lt_total(a.skip(1), b.skip(1));
            if a.skip(1) == b.skip(1) {
                assert(a =~= seq![a[0]] + a.skip(1));
                assert(b =~= seq![b[0]] + b.skip(1));
            }
        }
    } else if a.len() == 0 && b.len() == 0 {
        assert(a =~= b);
    }
}

fn text_lt_exec(a: &[char], b: &[char]) -> (r: bool)
    ensures
        r == text_lt(a@, b@),
{
    let mut i: usize = 0;
    assert(a@.skip(0) =~= a@);
    assert(b@.skip(0) =~= b@);
    while i < a.len() && i < b.len()
        invariant
            i <= a@.len(),
            i <= b@.len(),
            forall|j: int| 0 <= j < i ==> a@[j] == b@[j],
            text_lt(a@, b@) == text_lt(a@.skip(i as int), b@.skip(i as int)),
        decreases a.len() - i,
    {
        if a[i] != b[i] {
            proof {
                assert(a@.skip(i as int)[0] == a@[i as int]);
                assert(b@.skip(i as int)[0] == b@[i as int]);
            }
            return a[i] < b[i];
        }
        proof {
            assert(a@.skip(i as int).skip(1) =~= a@.skip(i + 1));
            assert(b@.skip(i as int).skip(1) =~= b@.skip(i + 1));
        }
        i = i + 1;
    }
    i == a.len() && i < b.len()
}

pub open spec fn sorted_texts(s: Seq<Seq<char>>) -> bool {
    forall|i: int, j: int| 0 <= i < j < s.len() ==> text_le(#[trigger] s[i], #[trigger] s[j])
}

/// `v` in ascending order, as `slice::sort` puts it.
pub fn sort_strings(v: &Vec<String>) -> (r: Vec<String>)
    ensures
        sorted_texts(r.deep_view()),
        r.deep_view().to_multiset() == v.deep_view().to_multiset(),
{
    let mut r: Vec<String> = Vec::new();
    let mut rc: Vec<Vec<char>> = Vec::new();
    let mut k: usize = 0;
    assert(r.deep_view() =~= v.deep_view().take(0));
    while k < v.len()
        invariant
            k <= v@.len(),
            rc@.len() == r@.len(),
            forall|i: int| 0 <= i < rc@.len() ==> (#[trigger] rc@[i])@ == r@[i]@,
            sorted_texts(r.deep_view()),
            r.deep_view().to_multiset() == v.deep_view().take(k as int).to_multiset(),
        decreases v.len() - k,
    {
        let x = to_chars(v[k].as_str());
        let mut p: usize = 0;
        while p < rc.len() && !text_lt_exec(&x, &rc[p])
            invariant
                p <= rc@.len(),
                rc@.len() == r@.len(),
                forall|i: int| 0 <= i < rc@.len() ==> (#[trigger] rc@[i])@ == r@[i]@,
                forall|i: int| 0 <= i < p ==> !text_lt(x@, #[trigger] r.deep_view()[i]),
            decreases rc.len() - p,
        {
            p = p + 1;
        }
        let ghost old_r = r.deep_view();
        proof {
            assert forall|i: int| 0 <= i < p implies text_le(#[trigger] old_r[i], x@) by {
                lemma_text_lt_total(old_r[i], x@);
            }
            if p < old_r.len() {
                assert(text_lt(x@, old_r[p as int]));
                assert forall|i: int| p <= i < old_r.len() implies text_lt(x@, #[trigger] old_r[i]) by {
                    if i > p {
                        assert(text_le(old_r[p as int], old_r[i]));
                        if old_r[p as int] != old_r[i] {
                            lemma_text_lt_transitive(x@, old_r[p as int], old_r[i]);
                        }
                    }
                }
            }
        }
        r.insert(p, v[k].clone());
        rc.insert(p, x);
        proof {
            assert(r.deep_view() =~= old_r.insert(p as int, v@[k as int]@));
            vstd::seq_lib::to_multiset_insert(old_r, p as int, v@[k as int]@);
            let t = v.deep_view().take(k + 1);
            assert(t =~= v.deep_view().take(k as int).push(v@[k as int]@));
            vstd::seq_lib::to_multiset_build(v.deep_view().take(k as int), v@[k as int]@);
            let nr = r.deep_view();
            assert forall|i: int, j: int| 0 <= i < j < nr.len() implies text_le(#[trigger] nr[i], #[trigger] nr[j]) by {
                if j < p {
                    assert(nr[i] == old_r[i] && nr[j] == old_r[j]);
                } else if j == p {
                    assert(nr[i] == old_r[i]);
                } else if i == p {
                    assert(nr[j] == old_r[j - 1]);
                } else if i < p {
                    assert(nr[i] == old_r[i] && nr[j] == old_r[j - 1]);
                    assert(text_le(old_r[i], x@));
                    assert(text_lt(x@, old_r[j - 1]));
                    if old_r[i] != x@ {
                        lemma_text_lt_transitive(old_r[i], x@, old_r[j - 1]);
                    }
                } else {
                    assert(nr[i] == old_r[i - 1] && nr[j] == old_r[j - 1]);
                }
            }
        }
        k = k + 1;
    }
    assert(v.deep_view().take(v@.len() as int) =~= v.deep_view());
    r
}

/// What `prepare_tag_filter_index` does to a search: a large page, a filter
/// that excludes the search's tag filter (when it has tags) and nothing
/// else, and no tag filter left on the search.
pub open spec fn tag_filter_prepared(old_s: GameSearch, s: GameSearch) -> bool {
    let moved = match old_s.with_tag_filter {
        Some(t) => t@.len() > 0,
        None => false,
    };
    &&& s.limit == 9999999999999999
    &&& s.load_relations == old_s.load_relations
    &&& s.custom_id_order == old_s.custom_id_order
    &&& s.order == old_s.order
    &&& s.ext_order == old_s.ext_order
    &&& s.offset == old_s.offset
    &&& s.slim == old_s.slim
    &&& (if moved {
        &&& s.with_tag_filter is None
        &&& excludes_only_tags(s.filter, old_s.with_tag_filter->0.deep_view())
    } else {
        &&& s.with_tag_filter == old_s.with_tag_filter
        &&& game_filter_is_empty(GameFilter { match_any: false, ..s.filter })
        &&& s.filter.match_any
    })
}

/// Prepares a search to fill the tag filter index, and gives the index key
/// (the tags in ascending order, joined by `;`), or `None` when there are
/// no tags and nothing is to be done.
pub fn prepare_tag_filter_index(search: &mut GameSearch) -> (r: Option<String>)
    ensures
        tag_filter_prepared(*old(search), *final(search)),
        match r {
            Some(key) => {
                &&& old(search).with_tag_filter matches Some(t) && t@.len() > 0
                &&& exists|sorted: Seq<Seq<char>>|
                    sorted_texts(sorted) && sorted.to_multiset()
                        == old(search).with_tag_filter->0.deep_view().to_multiset() && key@ == join(
                        sorted,
                        seq![';'],
                    )
            },
            None => !(old(search).with_tag_filter matches Some(t) && t@.len() > 0),
        },
        filter_query_ok(final(search).filter),
{
    search.limit = 9999999999999999;
    search.filter = GameFilter::default();
    search.filter.match_any = true;
    let tags = match &search.with_tag_filter {
        Some(t) => {
            if t.len() > 0 {
                Some(crate::game::search::filter::clone_strings(t))
            } else {
                None
            }
        },
        None => None,
    };
    proof {
        reveal_with_fuel(filters_ok, 1);
    }
    match tags {
        Some(t) => {
            let sorted = sort_strings(&t);
            search.filter.exact_blacklist.tags = Some(t);
            search.with_tag_filter = None;
            let mut parts: Vec<Vec<char>> = Vec::new();
            let mut i: usize = 0;
            while i < sorted.len()
                invariant
                    i <= sorted@.len(),
                    crate::game::search::query::texts_view(parts@) =~= sorted.deep_view().take(i as int),
                decreases sorted.len() - i,
            {
                let ghost p0 = parts@;
                parts.push(to_chars(sorted[i].as_str()));
                assert(crate::game::search::query::texts_view(parts@) =~= crate::game::search::query::texts_view(
                    p0,
                ).push(sorted@[i as int]@));
                i = i + 1;
            }
            assert(sorted.deep_view().take(sorted@.len() as int) =~= sorted.deep_view());
            let key = crate::game::search::query::join_exec(&parts, ";");
            proof {
                reveal_strlit(";");
                assert(";"@ =~= seq![';']);
            }
            Some(string_of(&key))
        },
        None => None,
    }
}

/// Whether the stored tag filter index already answers `key`: it does when
/// it was built for the same key and has not been marked dirty since.
pub fn tag_filter_index_current(info: &Option<TagFilterInfo>, key: &String) -> (r: bool)
    ensures
        r == (info matches Some(i) && !i.dirty && i.key@ == key@),
{
    match info {
        Some(i) => !i.dirty && crate::text::eq_chars(&to_chars(i.key.as_str()), &to_chars(key.as_str())),
        None => false,
    }
}

} // verus!
