use flashpoint_archive::game::ext::{
    ext_index_statements, ExtSearchable, ExtSearchableType, ExtensionIndex, ExtensionInfo, ExtensionRegistry,
};
use flashpoint_archive::game::search::query::filter_buildable;
use flashpoint_archive::game::search::statements::{
    custom_order_refresh, custom_order_text, random_search, tag_filter_refresh, with_tag_search,
};
use flashpoint_archive::game::search::{GameFilter, GameSearch, GameSearchSortable};
use flashpoint_archive::game::{distinct_values, join_strings, Game, PartialGame, TagVec};
use flashpoint_archive::game_data::{GameData, PartialGameData};
use flashpoint_archive::merge_game_filters;
use flashpoint_archive::tag::{alias_plan, PartialTag, Tag};
use flashpoint_archive::tag_category::{PartialTagCategory, TagCategory};
use flashpoint_archive::text::trim;
use flashpoint_archive::update::{
    plan_game_update, plan_update, platform_aliases, tag_aliases, RemotePlatform, RemoteTag,
};
use flashpoint_archive::util::{counts_fit_exec, directory_node, file_node, gen_content_tree};

fn names(v: &[&str]) -> Vec<String> {
    v.iter().map(|s| s.to_string()).collect()
}

fn sample_tag() -> Tag {
    Tag {
        id: 7,
        name: "Action".to_string(),
        description: "Fast games".to_string(),
        date_modified: "2024-01-01".to_string(),
        aliases: names(&["Action", "Act"]),
        category: Some("genre".to_string()),
    }
}

#[test]
fn delimited_names_are_trimmed_and_empty_ones_dropped() {
    let t = TagVec::from_delimited_string(" a ; b;;c ");
    assert_eq!(t.0, names(&["a", "b", "c"]));
    let e = TagVec::from_delimited_string("");
    assert!(e.0.is_empty());
}

#[test]
fn delimited_names_trim_unicode_white_space() {
    let t = TagVec::from_delimited_string("\u{3000}Arcade\u{00a0}; \tPuzzle\n");
    assert_eq!(t.0, names(&["Arcade", "Puzzle"]));
}

#[test]
fn trim_agrees_with_std_on_every_character() {
    let mut c: u32 = 0;
    while c <= 0x10ffff {
        if let Some(ch) = char::from_u32(c) {
            let s = format!("{ch}x{ch}");
            assert_eq!(trim(&s), s.trim(), "character {c:#x}");
        }
        c += 1;
    }
}

#[test]
fn tag_list_text_uses_semicolon_and_space() {
    let t = TagVec(names(&["Action", "Puzzle", "Arcade"]));
    assert_eq!(t.to_text(), "Action; Puzzle; Arcade");
    assert_eq!(t.serialized(), "Action;Puzzle;Arcade");
    assert_eq!(TagVec::new().to_text(), "");
}

#[test]
fn tag_list_text_reads_back() {
    let t = TagVec(names(&["Action", "Puzzle", "Arcade"]));
    let back = TagVec::from_delimited_string(&t.to_text());
    assert_eq!(back.0, t.0);
}

#[test]
fn serialized_tag_list_reads_back_as_written() {
    let t = TagVec(names(&["a", " b", ""]));
    let back = TagVec::from_serialized(&t.serialized());
    assert_eq!(back.0, t.0);
    // An empty list comes back as one empty name.
    assert_eq!(TagVec::from_serialized("").0, names(&[""]));
}

#[test]
fn join_strings_separates_each_pair() {
    assert_eq!(join_strings(&names(&["x", "y", "z"]), ", "), "x, y, z");
    assert_eq!(join_strings(&names(&["only"]), ", "), "only");
    assert_eq!(join_strings(&Vec::new(), ", "), "");
}

#[test]
fn tag_edit_replaces_given_fields() {
    let mut t = sample_tag();
    let mut p = PartialTag::new();
    p.id = 7;
    p.name = "Platformer".to_string();
    p.description = Some("Jumping".to_string());
    t.apply_partial(&p);
    assert_eq!(t.name, "Platformer");
    assert_eq!(t.description, "Jumping");
    assert_eq!(t.date_modified, "2024-01-01");
    assert_eq!(t.aliases, names(&["Action", "Act"]));
    assert_eq!(t.category, Some("genre".to_string()));
}

#[test]
fn tag_edit_from_tag_round_trips() {
    let t = sample_tag();
    let mut other = Tag {
        id: 1,
        name: "x".to_string(),
        description: String::new(),
        date_modified: String::new(),
        aliases: Vec::new(),
        category: None,
    };
    other.apply_partial(&PartialTag::from_tag(t.clone()));
    assert_eq!(other.name, t.name);
    assert_eq!(other.description, t.description);
    assert_eq!(other.aliases, t.aliases);
    assert_eq!(other.category, t.category);
}

#[test]
fn tag_edit_stamp_keeps_a_given_date() {
    let mut p = PartialTag::new();
    p.date_modified = Some("2020-02-02".to_string());
    p.stamp_modified();
    assert_eq!(p.date_modified, Some("2020-02-02".to_string()));
    let mut q = PartialTag::new();
    q.stamp_modified();
    assert!(q.date_modified.is_some());
}

#[test]
fn category_edit_replaces_name_and_colour() {
    let mut c = TagCategory { id: 3, name: "genre".to_string(), color: "#fff".to_string(), description: Some("d".to_string()) };
    c.apply_partial(&PartialTagCategory { id: 3, name: "kind".to_string(), color: "#000".to_string(), description: None });
    assert_eq!(c.name, "kind");
    assert_eq!(c.color, "#000");
    assert_eq!(c.description, Some("d".to_string()));
    let made = TagCategory::from_partial(&PartialTagCategory {
        id: 4,
        name: "n".to_string(),
        color: "c".to_string(),
        description: Some("x".to_string()),
    });
    assert_eq!(made.id, -1);
    assert_eq!(made.description, Some("x".to_string()));
}

#[test]
fn game_data_edit_and_round_trip() {
    let mut d = GameData::new();
    d.game_id = "g".to_string();
    let mut p = PartialGameData::from_game_data(d.clone());
    p.title = Some("Pack".to_string());
    p.size = Some(42);
    let mut e = d.clone();
    e.apply_partial(&p);
    assert_eq!(e.title, "Pack");
    assert_eq!(e.size, 42);
    assert_eq!(e.game_id, "g");
    let f = GameData::from_partial(&p);
    assert_eq!(f.title, "Pack");
    assert_eq!(f.size, 42);
}

#[test]
fn game_edit_adds_primary_platform() {
    let mut g = Game::new();
    g.id = "abc".to_string();
    g.platforms = TagVec(names(&["Flash"]));
    let mut p = PartialGame::new();
    p.id = "abc".to_string();
    p.primary_platform = Some("HTML5".to_string());
    p.title = Some("New title".to_string());
    g.apply_partial(&p);
    assert_eq!(g.platforms.0, names(&["Flash", "HTML5"]));
    assert_eq!(g.primary_platform, "HTML5");
    assert_eq!(g.title, "New title");
    assert_eq!(g.id, "abc");
}

#[test]
fn game_edit_with_empty_id_gets_a_fresh_one() {
    let mut g = Game::new();
    g.id = "old".to_string();
    let p = PartialGame::new();
    g.apply_partial(&p);
    assert_eq!(g.id.len(), 36);
    assert_ne!(g.id, "old");
}

#[test]
fn game_edit_from_game_round_trips() {
    let mut g = Game::new();
    g.id = "id1".to_string();
    g.title = "T".to_string();
    g.tags = TagVec(names(&["a", "b"]));
    g.playtime = 12;
    let mut other = Game::new();
    other.apply_partial(&PartialGame::from_game(g.clone()));
    assert_eq!(other.id, g.id);
    assert_eq!(other.title, g.title);
    assert_eq!(other.tags.0, g.tags.0);
    assert_eq!(other.playtime, 12);
}

#[test]
fn recording_a_play_counts_it() {
    let mut g = Game::new();
    g.playtime = 100;
    g.play_counter = 2;
    g.record_play(30);
    assert_eq!(g.playtime, 130);
    assert_eq!(g.play_counter, 3);
    assert!(g.last_played.is_some());
}

#[test]
fn game_edit_stamp_only_when_missing() {
    let mut p = PartialGame::new();
    p.date_modified = Some("2021-01-01".to_string());
    p.stamp_modified();
    assert_eq!(p.date_modified, Some("2021-01-01".to_string()));
    let mut q = PartialGame::new();
    q.stamp_modified();
    assert!(q.date_modified.is_some());
}

#[test]
fn merged_filters_hold_both_and_match_all_only_when_both_do() {
    let mut a = GameFilter::default();
    a.whitelist.title = Some(names(&["cat"]));
    a.match_any = true;
    let mut b = GameFilter::default();
    b.blacklist.developer = Some(names(&["dog"]));
    let m = merge_game_filters(&a, &b);
    assert_eq!(m.subfilters.len(), 2);
    assert_eq!(m.subfilters[0].whitelist.title, Some(names(&["cat"])));
    assert_eq!(m.subfilters[1].blacklist.developer, Some(names(&["dog"])));
    assert!(!m.match_any);
    b.match_any = true;
    assert!(merge_game_filters(&a, &b).match_any);
}

#[test]
fn update_plan_splits_records() {
    let records = vec![(1, false), (2, true), (3, false), (4, true)];
    let stored = vec![1, 2, 9];
    let plan = plan_update(&records, &stored);
    assert_eq!(plan.deleted_ids, vec![2]);
    assert_eq!(plan.changed, vec![0]);
    assert_eq!(plan.added, vec![2]);
}

#[test]
fn game_update_plan_splits_by_id() {
    let (changed, added) = plan_game_update(&names(&["a", "b", "c"]), &names(&["b", "z"]));
    assert_eq!(changed, vec![1]);
    assert_eq!(added, vec![0, 2]);
}

#[test]
fn aliases_are_listed_per_record_in_order() {
    let ps = vec![
        RemotePlatform {
            id: 1,
            name: "Flash".to_string(),
            description: String::new(),
            date_modified: String::new(),
            aliases: names(&["Flash", "Shockwave Flash"]),
            deleted: false,
        },
        RemotePlatform {
            id: 2,
            name: "HTML5".to_string(),
            description: String::new(),
            date_modified: String::new(),
            aliases: names(&["HTML5"]),
            deleted: false,
        },
    ];
    let a = platform_aliases(&ps);
    let got: Vec<(i64, String)> = a.iter().map(|x| (x.id, x.value.clone())).collect();
    assert_eq!(
        got,
        vec![(1, "Flash".to_string()), (1, "Shockwave Flash".to_string()), (2, "HTML5".to_string())]
    );
    let ts = vec![RemoteTag {
        id: 5,
        name: "Action".to_string(),
        description: String::new(),
        category: "genre".to_string(),
        date_modified: String::new(),
        aliases: names(&["Action", "Act"]),
        deleted: true,
    }];
    let b = tag_aliases(&ts);
    assert_eq!(b.len(), 2);
    assert_eq!(b[1].id, 5);
    assert_eq!(b[1].value, "Act");
}

#[test]
fn content_tree_counts_every_node_below() {
    let inner = vec![file_node("a.swf".to_string(), 10), file_node("b.swf".to_string(), 20)];
    assert!(counts_fit_exec(&inner));
    let dir = directory_node("games".to_string(), inner);
    assert_eq!(dir.count, 2);
    assert_eq!(dir.node_type, "directory");
    let top = vec![dir, file_node("readme.txt".to_string(), 5)];
    assert!(counts_fit_exec(&top));
    let root = gen_content_tree(top);
    assert_eq!(root.name, "content");
    assert_eq!(root.count, 4);
    assert_eq!(root.children[1].node_type, "file");
    assert_eq!(root.children[1].size, 5);
}

#[test]
fn content_tree_count_overflow_is_detected() {
    let mut big = file_node("x".to_string(), 0);
    big.count = i64::MAX;
    assert!(!counts_fit_exec(&vec![big]));
}

#[test]
fn extension_indexes_become_statements() {
    let ext = ExtensionInfo {
        id: "scores".to_string(),
        searchables: Vec::new(),
        indexes: vec![ExtensionIndex { name: "best".to_string(), key: "best_score".to_string() }],
    };
    assert_eq!(
        ext_index_statements(&ext),
        vec!["CREATE INDEX IF NOT EXISTS idx_ext_scores_best on ext_data(extId, JSON_EXTRACT(data, '$.best_score'))"
            .to_string()]
    );
}

#[test]
fn later_extension_takes_over_a_search_key() {
    let mut reg = ExtensionRegistry::new();
    let searchable = |key: &str| ExtSearchable {
        key: key.to_string(),
        value_type: ExtSearchableType::Number,
        search_key: "score".to_string(),
    };
    reg.register_ext(ExtensionInfo { id: "one".to_string(), searchables: vec![searchable("a")], indexes: Vec::new() });
    reg.register_ext(ExtensionInfo { id: "two".to_string(), searchables: vec![searchable("b")], indexes: Vec::new() });
    let found: Vec<_> = reg.searchables.iter().filter(|(k, _)| k == "score").collect();
    assert_eq!(found.len(), 1);
    assert_eq!(found[0].1.ext_id, "two");
    assert_eq!(found[0].1.key, "b");
}

#[test]
fn random_search_sets_count_and_order() {
    let mut s = GameSearch::default();
    s.with_tag_filter = Some(names(&["Violence"]));
    let f = random_search(&mut s, 5).expect("tags to filter");
    assert_eq!(s.limit, 5);
    assert!(matches!(s.order.column, GameSearchSortable::RANDOM));
    assert_eq!(f.limit, 999999999);
    assert_eq!(f.filter.exact_blacklist.tags, Some(names(&["Violence"])));
    assert!(f.filter.match_any);
    let mut plain = GameSearch::default();
    assert!(random_search(&mut plain, 3).is_none());
}

#[test]
fn custom_order_text_joins_ids() {
    assert_eq!(custom_order_text(&names(&["a", "b"])), "a;b");
    assert_eq!(custom_order_text(&Vec::new()), "");
}

#[test]
fn distinct_values_split_trim_and_list_once() {
    let v = names(&["Single Player; Multiplayer", "Single Player", "Cooperative ;Multiplayer"]);
    assert_eq!(distinct_values(&v), names(&["Single Player", "Multiplayer", "Cooperative"]));
    // An empty value gives one empty piece.
    assert_eq!(distinct_values(&names(&[""])), names(&[""]));
}

#[test]
fn with_tag_search_loads_everything_for_one_tag() {
    let s = with_tag_search("Puzzle");
    assert_eq!(s.limit, 9999999999);
    assert!(s.load_relations.tags && s.load_relations.platforms && s.load_relations.game_data && s.load_relations.add_apps);
    assert_eq!(s.filter.exact_whitelist.tags, Some(names(&["Puzzle"])));
    assert!(!s.filter.match_any);
}

#[test]
fn refreshes_happen_only_when_asked_for() {
    let mut s = GameSearch::default();
    assert!(tag_filter_refresh(&s).is_none());
    s.with_tag_filter = Some(Vec::new());
    assert!(tag_filter_refresh(&s).is_none());
    s.with_tag_filter = Some(names(&["Gore"]));
    let f = tag_filter_refresh(&s).expect("a refresh");
    assert_eq!(f.filter.exact_blacklist.tags, Some(names(&["Gore"])));

    s.custom_id_order = Some(names(&["g1", "g2"]));
    assert!(custom_order_refresh(&s).is_none());
    s.order.column = GameSearchSortable::CUSTOM;
    assert_eq!(custom_order_refresh(&s), Some(names(&["g1", "g2"])));
    s.custom_id_order = Some(Vec::new());
    assert!(custom_order_refresh(&s).is_none());
}

#[test]
fn alias_plan_refuses_aliases_of_other_tags() {
    let aliases = names(&["Action", "Act", "Fast"]);
    assert_eq!(alias_plan(7, &aliases, &vec![Some(7), None, None]), Some(names(&["Act", "Fast"])));
    assert_eq!(alias_plan(7, &aliases, &vec![Some(7), Some(8), None]), None);
}

#[test]
fn filters_with_empty_required_lists_cannot_be_built() {
    let mut f = GameFilter::default();
    assert!(filter_buildable(&f));
    f.whitelist.tags = Some(Vec::new());
    assert!(!filter_buildable(&f));
    f.match_any = true;
    assert!(filter_buildable(&f));
    let mut outer = GameFilter::default();
    let mut inner = GameFilter::default();
    inner.exact_whitelist.platforms = Some(Vec::new());
    outer.subfilters.push(inner);
    assert!(!filter_buildable(&outer));
}

#[test]
fn timestamps_are_what_is_given() {
    let g = Game::new_at("id-1".to_string(), "2024-01-02T03:04:05.006Z".to_string());
    assert_eq!(g.id, "id-1");
    assert_eq!(g.library, "arcade");
    assert_eq!(g.date_added, "2024-01-02T03:04:05.006Z");
    assert_eq!(g.date_modified, "2024-01-02T03:04:05.006Z");
    let mut h = g.clone();
    h.record_play_at(30, "2024-02-02T00:00:00.000Z".to_string());
    assert_eq!(h.play_counter, 1);
    assert_eq!(h.playtime, 30);
    assert_eq!(h.last_played, Some("2024-02-02T00:00:00.000Z".to_string()));
    let mut p = PartialGame::new();
    p.stamp_modified_at("T1".to_string());
    assert_eq!(p.date_modified, Some("T1".to_string()));
    p.stamp_modified_at("T2".to_string());
    assert_eq!(p.date_modified, Some("T1".to_string()));
    let mut t = PartialTag::default();
    t.stamp_modified_at("T3".to_string());
    assert_eq!(t.date_modified, Some("T3".to_string()));
    let d = GameData::new_at("T4".to_string());
    assert_eq!(d.date_added, "T4");
    assert_eq!(d.id, -1);
}

#[test]
fn new_ids_are_v4_uuids() {
    for _ in 0..20 {
        let g = Game::new();
        let id: Vec<char> = g.id.chars().collect();
        assert_eq!(id.len(), 36);
        for (i, c) in id.iter().enumerate() {
            if i == 8 || i == 13 || i == 18 || i == 23 {
                assert_eq!(*c, '-');
            } else {
                assert!(c.is_ascii_hexdigit() && !c.is_ascii_uppercase());
            }
        }
        assert_eq!(id[14], '4');
        assert!("89ab".contains(id[19]));
    }
}

#[test]
fn built_game_starts_fresh() {
    let mut p = PartialGame::new();
    p.title = Some("T".to_string());
    let g = Game::from_partial(&p);
    assert_eq!(g.library, "arcade");
    assert_eq!(g.title, "T");
    assert_eq!(g.playtime, 0);
    assert!(g.active_data_id.is_none() && g.last_played.is_none());
    assert_eq!(g.id.len(), 36);
}

fn is_timestamp(s: &str) -> bool {
    let c: Vec<char> = s.chars().collect();
    let n = c.len();
    if n < 24 {
        return false;
    }
    let y = n - 20;
    let digit = |i: usize| c[i].is_ascii_digit();
    let year_ok = (y == 4 && digit(0)) || (y >= 5 && (c[0] == '+' || c[0] == '-'));
    year_ok
        && (1..y).all(digit)
        && c[y] == '-' && c[y + 3] == '-' && c[y + 6] == 'T' && c[y + 9] == ':' && c[y + 12] == ':'
        && c[y + 15] == '.' && c[y + 19] == 'Z'
        && [1, 2, 4, 5, 7, 8, 10, 11, 13, 14, 16, 17, 18].iter().all(|k| digit(y + k))
}

#[test]
fn clock_times_have_the_timestamp_shape() {
    let g = Game::new();
    assert!(is_timestamp(&g.date_added), "{}", g.date_added);
    assert!(is_timestamp(&g.date_modified));
    let mut h = g.clone();
    h.record_play(5);
    assert!(is_timestamp(h.last_played.as_deref().unwrap()));
    let mut p = PartialGame::new();
    p.stamp_modified();
    assert!(is_timestamp(p.date_modified.as_deref().unwrap()));
    assert!(is_timestamp(&GameData::new().date_added));
    assert!(!is_timestamp("2024-01-02 03:04:05"));
}
