use flashpoint_archive::game::search::query::{build_filter_query, build_search_query, format_query};
use flashpoint_archive::game::search::statements::{
    count_selection, try_search_index_query, prepare_tag_filter_index, search_index_query, search_selection, sort_strings, tag_filter_index_current,
    tag_filter_search, COUNT_QUERY, CUSTOM_CTE, RESULTS_QUERY, SLIM_RESULTS_QUERY,
};
use flashpoint_archive::game::search::coerce::coerce_to_i64;
use flashpoint_archive::game::search::filter::clone_game_filter;
use flashpoint_archive::game::search::{
    GameFilter, GameSearch, GameSearchOffset, GameSearchSortable, JsonValue, SearchParam, TagFilterInfo,
};

fn text(v: Vec<char>) -> String {
    v.into_iter().collect()
}

fn param_texts(ps: &[SearchParam]) -> Vec<String> {
    ps.iter().map(|p| p.to_text()).collect()
}

#[test]
fn title_terms_match_both_title_columns() {
    let mut f = GameFilter::default();
    f.whitelist.title = Some(vec!["cat".to_string()]);
    let mut params = Vec::new();
    let q = text(build_filter_query(&f, &mut params));
    assert_eq!(q, "(game.title LIKE ? OR game.alternateTitles LIKE ?)");
    assert_eq!(param_texts(&params), vec!["%cat%", "%cat%"]);
}

#[test]
fn excluded_values_are_one_clause() {
    let mut f = GameFilter::default();
    f.blacklist.developer = Some(vec!["a".to_string(), "b".to_string()]);
    let mut params = Vec::new();
    let q = text(build_filter_query(&f, &mut params));
    assert_eq!(q, "(game.developer NOT LIKE ? AND game.developer NOT LIKE ?)");
    assert_eq!(param_texts(&params), vec!["%a%", "%b%"]);
}

#[test]
fn exact_values_with_match_any_are_a_list() {
    let mut f = GameFilter::default();
    f.exact_whitelist.developer = Some(vec!["a".to_string(), "b".to_string()]);
    f.match_any = true;
    let mut params = Vec::new();
    let q = text(build_filter_query(&f, &mut params));
    assert_eq!(q, "game.developer IN rarray(?)");
    assert_eq!(param_texts(&params), vec!["a', 'b"]);
}

#[test]
fn clauses_join_with_and() {
    let mut f = GameFilter::default();
    f.whitelist.title = Some(vec!["x".to_string()]);
    f.higher_than.playtime = Some(5);
    f.bool_comp.installed = Some(true);
    let mut params = Vec::new();
    let q = text(build_filter_query(&f, &mut params));
    assert_eq!(
        q,
        "(game.title LIKE ? OR game.alternateTitles LIKE ?) AND game.playtime > ? AND game.id IN (SELECT gameId FROM game_data WHERE game_data.presentOnDisk = ?)"
    );
    assert_eq!(param_texts(&params), vec!["%x%", "%x%", "5", "true"]);
}

#[test]
fn empty_exclusion_list_is_dropped() {
    let mut f = GameFilter::default();
    f.blacklist.series = Some(vec![]);
    let mut params = Vec::new();
    let q = text(build_filter_query(&f, &mut params));
    assert_eq!(q, "");
    assert!(params.is_empty());
}

#[test]
fn ids_of_36_bytes_follow_redirects() {
    let mut f = GameFilter::default();
    let id = "00deff25-5cd2-40d1-a0e7-151d82ce16c5".to_string();
    f.whitelist.id = Some(vec![id.clone(), "abc".to_string()]);
    let mut params = Vec::new();
    let q = text(build_filter_query(&f, &mut params));
    assert_eq!(
        q,
        "(game.id = ? OR game.id = (SELECT id FROM game_redirect WHERE sourceId = ? LIMIT 1)) AND (game.id LIKE ?)"
    );
    assert_eq!(param_texts(&params), vec![id.clone(), id, "%abc%".to_string()]);
}

#[test]
fn nested_filters_come_first_in_brackets() {
    let mut inner = GameFilter::default();
    inner.whitelist.tags = Some(vec!["Action".to_string()]);
    let mut outer = GameFilter::default();
    outer.subfilters = vec![inner];
    outer.equal_to.add_apps = Some(0);
    let mut params = Vec::new();
    let q = text(build_filter_query(&outer, &mut params));
    let expected = format!(
        "(game.id IN (SELECT gameId FROM game_tags_tag WHERE tagId IN (\n{}SELECT tagId FROM tag_alias WHERE name LIKE ?)\n{})) AND game.id NOT IN (SELECT parentGameId FROM additional_app)",
        " ".repeat(32),
        " ".repeat(28)
    );
    assert_eq!(q, expected);
    assert_eq!(param_texts(&params), vec!["%Action%"]);
}

#[test]
fn extension_numbers_compare_json_values() {
    let mut f = GameFilter::default();
    f.lower_than.ext = Some(vec![("ext1".to_string(), vec![("score".to_string(), 4)])]);
    let mut params = Vec::new();
    let q = text(build_filter_query(&f, &mut params));
    assert_eq!(
        q,
        "game.id NOT IN (SELECT gameId FROM ext_data WHERE extId = ? AND JSON_EXTRACT(data, '$.score') >= ?)"
    );
    assert_eq!(param_texts(&params), vec!["ext1", "4"]);
}

#[test]
fn search_query_with_filter_and_order() {
    let mut s = GameSearch::default();
    s.filter.whitelist.title = Some(vec!["cat".to_string()]);
    let (q, params) = build_search_query(&s, "SELECT game.id FROM game");
    assert_eq!(
        q,
        "SELECT game.id FROM game WHERE ((game.title LIKE ? OR game.alternateTitles LIKE ?)) ORDER BY game.title COLLATE NOCASE ASC, game.title ASC LIMIT 1000"
    );
    assert_eq!(params.len(), 2);
}

#[test]
fn search_query_with_page_boundary() {
    let mut s = GameSearch::default();
    s.offset = Some(GameSearchOffset {
        value: JsonValue::Text("Cat".to_string()),
        title: "Cat".to_string(),
        game_id: "id1".to_string(),
    });
    let (q, params) = build_search_query(&s, "SELECT game.id FROM game");
    assert_eq!(
        q,
        "SELECT game.id FROM game WHERE (game.title COLLATE NOCASE, game.title, game.id) > (?, ?, ?) ORDER BY game.title COLLATE NOCASE ASC, game.title ASC LIMIT 1000"
    );
    assert_eq!(param_texts(&params), vec!["Cat", "Cat", "id1"]);
}

#[test]
fn random_order_has_no_columns() {
    let mut s = GameSearch::default();
    s.order.column = GameSearchSortable::RANDOM;
    s.limit = 5;
    let (q, _) = build_search_query(&s, "SELECT 1");
    assert_eq!(q, "SELECT 1 ORDER BY RANDOM() LIMIT 5");
}

#[test]
fn formatted_query_shows_values() {
    let f = format_query("SELECT a FROM (b) WHERE x = ?", vec![SearchParam::String("v".to_string())]);
    assert_eq!(f, "SELECT a FROM (\n    b\n) WHERE x = 'v'");
    let g = format_query("SELECT COUNT(*) FROM game WHERE y = ? AND z = ?", vec![SearchParam::Integer64(-5)]);
    assert_eq!(g, "SELECT COUNT(*) FROM game WHERE y = '-5' AND z = ?");
}

#[test]
fn param_texts_are_written_plainly() {
    assert_eq!(SearchParam::Boolean(false).to_text(), "false");
    assert_eq!(SearchParam::StringVec(vec!["a".to_string(), "b".to_string()]).to_text(), "a', 'b");
    assert_eq!(SearchParam::Integer64(12).to_text(), "12");
    assert_eq!(SearchParam::Real("1.5".to_string()).to_text(), "1.5");
}

#[test]
fn selections_of_results_and_counts() {
    let mut s = GameSearch::default();
    assert_eq!(count_selection(&s), COUNT_QUERY);
    assert_eq!(search_selection(&s), RESULTS_QUERY);
    s.slim = true;
    assert_eq!(search_selection(&s), SLIM_RESULTS_QUERY);
    s.order.column = GameSearchSortable::CUSTOM;
    assert_eq!(count_selection(&s), format!("{}{}", CUSTOM_CTE, COUNT_QUERY));
}

#[test]
fn page_index_query() {
    let mut s = GameSearch::default();
    let (q, params) = search_index_query(&mut s, None);
    assert_eq!(s.limit, 999999999);
    let inner = "SELECT game.id, game.title, game.title, ROW_NUMBER() OVER (ORDER BY game.title COLLATE NOCASE ASC, game.title ASC, game.id) AS rn FROM game ORDER BY game.title COLLATE NOCASE ASC, game.title ASC LIMIT 999999999";
    assert_eq!(q, format!("SELECT game.id, game.title, game.title FROM ({}) game WHERE rn % ? = 0", inner));
    assert_eq!(param_texts(&params), vec!["1000"]);
}

#[test]
fn tag_filter_index_preparation() {
    let mut s = GameSearch::default();
    s.with_tag_filter = Some(vec!["b".to_string(), "a".to_string()]);
    let key = prepare_tag_filter_index(&mut s);
    assert_eq!(key, Some("a;b".to_string()));
    assert!(s.with_tag_filter.is_none());
    assert_eq!(s.filter.exact_blacklist.tags, Some(vec!["b".to_string(), "a".to_string()]));
    assert!(s.filter.match_any);
    assert_eq!(s.limit, 9999999999999999);
    let mut none = GameSearch::default();
    assert_eq!(prepare_tag_filter_index(&mut none), None);
    let info = Some(TagFilterInfo { key: "a;b".to_string(), dirty: false });
    assert!(tag_filter_index_current(&info, &"a;b".to_string()));
    let dirty = Some(TagFilterInfo { key: "a;b".to_string(), dirty: true });
    assert!(!tag_filter_index_current(&dirty, &"a;b".to_string()));
    assert!(!tag_filter_index_current(&None, &"a;b".to_string()));
}

#[test]
fn tag_filter_search_excludes_tags() {
    let s = tag_filter_search(&vec!["x".to_string()]);
    assert_eq!(s.limit, 999999999);
    assert!(s.filter.match_any);
    assert_eq!(s.filter.exact_blacklist.tags, Some(vec!["x".to_string()]));
}

#[test]
fn strings_sort_ascending() {
    let v = vec!["pear".to_string(), "apple".to_string(), "Zoo".to_string(), "apple".to_string(), "ápple".to_string()];
    let mut expected = v.clone();
    expected.sort();
    assert_eq!(sort_strings(&v), expected);
}

#[test]
fn durations_and_numbers() {
    assert_eq!(coerce_to_i64("1h30m"), 5400);
    assert_eq!(coerce_to_i64("2d"), 172800);
    assert_eq!(coerce_to_i64("1w"), 604800);
    assert_eq!(coerce_to_i64("90s"), 90);
    assert_eq!(coerce_to_i64("10"), 10);
    assert_eq!(coerce_to_i64("1+2"), 3);
    assert_eq!(coerce_to_i64("abc"), 0);
}

fn holes(q: &str) -> usize {
    q.chars().filter(|c| *c == '?').count()
}

fn busy_filter() -> GameFilter {
    let mut f = GameFilter::default();
    f.whitelist.title = Some(vec!["cat".to_string(), "dog".to_string()]);
    f.whitelist.generic = Some(vec!["run".to_string()]);
    f.blacklist.developer = Some(vec!["a".to_string(), "b".to_string()]);
    f.exact_whitelist.tags = Some(vec!["Action".to_string(), "Puzzle".to_string()]);
    f.exact_blacklist.platforms = Some(vec!["Flash".to_string()]);
    f.whitelist.ext = Some(vec![(
        "ext1".to_string(),
        vec![("key".to_string(), vec!["v1".to_string(), "v2".to_string()])],
    )]);
    f.higher_than.playtime = Some(5);
    f.lower_than.date_added = Some("2020".to_string());
    f.equal_to.tags = Some(3);
    f.equal_to.ext = Some(vec![("ext1".to_string(), vec![("n".to_string(), 4)])]);
    f.bool_comp.installed = Some(true);
    f.bool_comp.ext = Some(vec![("ext1".to_string(), vec![("flag".to_string(), false)])]);
    let mut inner = GameFilter::default();
    inner.match_any = true;
    inner.exact_whitelist.developer = Some(vec!["x".to_string(), "y".to_string()]);
    inner.whitelist.series = Some(vec!["s".to_string()]);
    f.subfilters = vec![inner];
    f
}

#[test]
fn every_value_has_a_placeholder() {
    let f = busy_filter();
    let mut params = Vec::new();
    let q = text(build_filter_query(&f, &mut params));
    assert!(params.len() > 10);
    assert_eq!(holes(&q), params.len());
    let mut g = GameFilter::default();
    g.match_any = true;
    g.whitelist.library = Some(vec!["arcade".to_string()]);
    g.exact_whitelist.language = Some(vec!["en".to_string(), "fr".to_string()]);
    g.subfilters = vec![f];
    let mut params = Vec::new();
    let q = text(build_filter_query(&g, &mut params));
    assert_eq!(holes(&q), params.len());
}

#[test]
fn search_query_placeholders_match_params() {
    let mut s = GameSearch::default();
    s.filter = busy_filter();
    s.limit = 50;
    let (q, params) = build_search_query(&s, RESULTS_QUERY);
    assert_eq!(holes(&q), params.len());
    let (q, params) = build_search_query(&s, COUNT_QUERY);
    assert_eq!(holes(&q), params.len());
}

#[test]
fn blank_numbers_read_as_zero() {
    assert_eq!(coerce_to_i64(" "), 0);
    assert_eq!(coerce_to_i64("  \t\n"), 0);
    assert_eq!(coerce_to_i64(" 5 "), 5);
}

#[test]
fn nested_only_filter_joins_its_children() {
    let mut a = GameFilter::default();
    a.whitelist.title = Some(vec!["x".to_string()]);
    let mut b = GameFilter::default();
    b.higher_than.playtime = Some(5);
    let empty = GameFilter::default();
    let (mut pa, mut pb) = (Vec::new(), Vec::new());
    let ta = text(build_filter_query(&a, &mut pa));
    let tb = text(build_filter_query(&b, &mut pb));
    let mut f = GameFilter::default();
    f.subfilters = vec![clone_game_filter(&a), empty, clone_game_filter(&b)];
    let mut params = Vec::new();
    let q = text(build_filter_query(&f, &mut params));
    assert_eq!(q, format!("({}) AND ({})", ta, tb));
    let mut expected = param_texts(&pa);
    expected.extend(param_texts(&pb));
    assert_eq!(param_texts(&params), expected);
    f.match_any = true;
    let mut params = Vec::new();
    let q = text(build_filter_query(&f, &mut params));
    assert_eq!(q, format!("({}) OR ({})", ta, tb));
}

#[test]
fn checked_index_query_refuses_unbuildable_filter() {
    use_checked_index();
}

fn use_checked_index() {
    let mut s = GameSearch::default();
    s.limit = 50;
    s.filter.whitelist.tags = Some(vec![]);
    assert!(try_search_index_query(&mut s, Some(10)).is_none());
    assert_eq!(s.limit, 50);
    s.filter.whitelist.tags = Some(vec!["Action".to_string()]);
    let q = try_search_index_query(&mut s, Some(10)).expect("buildable");
    assert_eq!(s.limit, 10);
    assert!(q.0.ends_with(") game WHERE rn % ? = 0"));
    assert_eq!(q.1.last().unwrap().to_text(), "50");
}
