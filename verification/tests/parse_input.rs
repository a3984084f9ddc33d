use flashpoint_archive::game::ext::{ExtSearchable, ExtSearchableType, ExtensionInfo, ExtensionRegistry};
use flashpoint_archive::game::search::parse_user_input;
use flashpoint_archive::game::search::parser::{earliest_key_char, try_parse_user_input};
use flashpoint_archive::game::search::{ElementType, KeyChar};

#[test]
fn parse_user_search_input_assorted() {
    parse_user_input("test", None);
    parse_user_input(r#"tag:"sonic""#, None);
    parse_user_input(r#"o_%$ dev:"san" disk t:7 potato"#, None);

    // "" should be treated as exact
    // Allow key characters in quoted text
    let s = parse_user_input(r#"title:"" series:"sonic:hedgehog" -developer:"""#, None).search;
    assert!(s.filter.exact_whitelist.title.is_some());
    assert_eq!(s.filter.exact_whitelist.title.unwrap()[0], "");
    assert!(s.filter.whitelist.series.is_some());
    assert_eq!(s.filter.whitelist.series.unwrap()[0], "sonic:hedgehog");
    assert!(s.filter.exact_blacklist.developer.is_some());
    assert_eq!(s.filter.exact_blacklist.developer.unwrap()[0], "");

    // Make sure the number filters are populated and the time text is processes
    let s2 = parse_user_input(r#"playtime>1h30m tags:3 playcount<3"#, None).search;
    assert!(s2.filter.higher_than.playtime.is_some());
    assert_eq!(s2.filter.higher_than.playtime.unwrap(), 60 * 90);
    assert!(s2.filter.equal_to.tags.is_some());
    assert_eq!(s2.filter.equal_to.tags.unwrap(), 3);
    assert!(s2.filter.lower_than.playcount.is_some());
    assert_eq!(s2.filter.lower_than.playcount.unwrap(), 3);
}

#[test]
fn parse_user_search_input_sizes() {
    let search = parse_user_input("tags>5 addapps=3 gamedata<12 test>generic", None).search;
    assert!(search.filter.higher_than.tags.is_some());
    assert_eq!(search.filter.higher_than.tags.unwrap(), 5);
    assert!(search.filter.equal_to.add_apps.is_some());
    assert_eq!(search.filter.equal_to.add_apps.unwrap(), 3);
    assert!(search.filter.lower_than.game_data.is_some());
    assert_eq!(search.filter.lower_than.game_data.unwrap(), 12);
    assert!(search.filter.whitelist.generic.is_some());
    let generics = search.filter.whitelist.generic.unwrap();
    assert_eq!(generics.len(), 1);
    assert_eq!(generics[0], "test>generic");
}

#[test]
fn parse_user_search_input() {
    let input = r#"sonic title:"dog cat" -title:"cat dog" tag:Action -mario installed:true"#;
    let search = parse_user_input(input, None).search;
    assert!(search.filter.whitelist.generic.is_some());
    assert_eq!(search.filter.whitelist.generic.unwrap()[0], "sonic");
    assert!(search.filter.whitelist.title.is_some());
    assert_eq!(search.filter.whitelist.title.unwrap()[0], "dog cat");
    assert!(search.filter.blacklist.title.is_some());
    assert_eq!(search.filter.blacklist.title.unwrap()[0], "cat dog");
    assert!(search.filter.whitelist.tags.is_some());
    assert_eq!(search.filter.whitelist.tags.unwrap()[0], "Action");
    assert!(search.filter.blacklist.generic.is_some());
    assert_eq!(search.filter.blacklist.generic.unwrap()[0], "mario");
    assert!(search.filter.bool_comp.installed.is_some());
    assert_eq!(search.filter.bool_comp.installed.unwrap(), true);
}

#[test]
fn parse_user_search_input_whitespace() {
    let input = r#"series:"紅白Flash合戦  / Red & White Flash Battle 2013""#;
    let search = parse_user_input(input, None).search;
    assert!(search.filter.whitelist.series.is_some());
    assert_eq!(search.filter.whitelist.series.unwrap()[0], "紅白Flash合戦  / Red & White Flash Battle 2013");
}

#[test]
fn parse_user_quick_search_input() {
    let input = r#"#Action -!Flash @"armor games" !"#;
    let search = parse_user_input(input, None).search;
    assert!(search.filter.whitelist.tags.is_some());
    assert_eq!(search.filter.whitelist.tags.unwrap()[0], "Action");
    assert!(search.filter.blacklist.platforms.is_some());
    assert_eq!(search.filter.blacklist.platforms.unwrap()[0], "Flash");
    assert!(search.filter.whitelist.developer.is_some());
    assert_eq!(search.filter.whitelist.developer.unwrap()[0], "armor games");
    assert!(search.filter.whitelist.generic.is_some());
    assert_eq!(search.filter.whitelist.generic.unwrap()[0], "!");
}

#[test]
fn parse_user_exact_search_input() {
    let input = r#"!Flash -publisher=Newgrounds =sonic"#;
    let search = parse_user_input(input, None).search;
    assert!(search.filter.whitelist.platforms.is_some());
    assert_eq!(search.filter.whitelist.platforms.unwrap()[0], "Flash");
    assert!(search.filter.exact_blacklist.publisher.is_some());
    assert_eq!(search.filter.exact_blacklist.publisher.unwrap()[0], "Newgrounds");
    assert!(search.filter.whitelist.generic.is_some());
    assert!(search.filter.exact_whitelist.generic.is_none());
    assert_eq!(search.filter.whitelist.generic.unwrap()[0], "=sonic");
}

#[test]
fn single_word_is_generic_with_its_span() {
    let parsed = parse_user_input("sonic", None);
    assert_eq!(parsed.search.filter.whitelist.generic.unwrap(), vec!["sonic".to_string()]);
    assert!(parsed.search.filter.blacklist.generic.is_none());
    assert_eq!(parsed.positions.len(), 1);
    assert!(matches!(parsed.positions[0].element, ElementType::VALUE));
    assert_eq!(parsed.positions[0].value, "sonic");
    assert_eq!((parsed.positions[0].start, parsed.positions[0].end), (0, 5));
}

#[test]
fn negated_word_is_excluded_with_its_spans() {
    let parsed = parse_user_input("-mario", None);
    assert_eq!(parsed.search.filter.blacklist.generic.unwrap(), vec!["mario".to_string()]);
    assert!(parsed.search.filter.whitelist.generic.is_none());
    assert_eq!(parsed.positions.len(), 2);
    assert!(matches!(parsed.positions[0].element, ElementType::MODIFIER));
    assert_eq!((parsed.positions[0].start, parsed.positions[0].end), (0, 1));
    assert!(matches!(parsed.positions[1].element, ElementType::VALUE));
    assert_eq!((parsed.positions[1].start, parsed.positions[1].end), (1, 6));
}

#[test]
fn key_value_spans() {
    let parsed = parse_user_input("title:cat", None);
    let kinds: Vec<(String, i32, i32)> = parsed
        .positions
        .iter()
        .map(|p| (p.value.clone(), p.start, p.end))
        .collect();
    assert_eq!(
        kinds,
        vec![
            ("title".to_string(), 0, 5),
            (":".to_string(), 5, 6),
            ("cat".to_string(), 6, 9),
        ]
    );
}

#[test]
fn installed_flag_ignores_its_value() {
    let s = parse_user_input("installed:no", None).search;
    assert_eq!(s.filter.bool_comp.installed, Some(true));
    let s = parse_user_input("-installed:yes", None).search;
    assert_eq!(s.filter.bool_comp.installed, Some(false));
}

#[test]
fn ruffle_values_are_lowercased() {
    let s = parse_user_input("ruffle:Standalone", None).search;
    assert_eq!(s.filter.whitelist.ruffle_support.unwrap(), vec!["standalone".to_string()]);
}

#[test]
fn keys_ignore_case() {
    let s = parse_user_input("TITLE:Dog", None).search;
    assert_eq!(s.filter.whitelist.title.unwrap(), vec!["Dog".to_string()]);
}

#[test]
fn library_terms_are_not_carried_into_the_filter() {
    let s = parse_user_input("lib:arcade", None).search;
    assert!(s.filter.whitelist.library.is_none());
    assert!(s.filter.whitelist.generic.is_none());
}

#[test]
fn dates_keep_their_text() {
    let s = parse_user_input("dateadded>2021-01 rd<2000", None).search;
    assert_eq!(s.filter.higher_than.date_added, Some("2021-01".to_string()));
    assert_eq!(s.filter.lower_than.release_date, Some("2000".to_string()));
}

#[test]
fn default_search_settings() {
    let s = parse_user_input("x", None).search;
    assert_eq!(s.limit, 1000);
    assert!(s.load_relations.ext_data);
    assert!(!s.load_relations.tags);
    assert!(!s.slim);
    assert!(s.filter.subfilters.is_empty());
    assert!(!s.filter.match_any);
}

#[test]
fn earliest_key_char_picks_first() {
    assert!(matches!(earliest_key_char("a<b:c"), Some(KeyChar::LOWER)));
    assert!(matches!(earliest_key_char("a:b<c"), Some(KeyChar::MATCHES)));
    assert!(matches!(earliest_key_char("x=1>2"), Some(KeyChar::EQUALS)));
    assert!(earliest_key_char("plain").is_none());
}

fn registry() -> ExtensionRegistry {
    let mut reg = ExtensionRegistry::new();
    reg.register_ext(ExtensionInfo {
        id: "ext1".to_string(),
        searchables: vec![
            ExtSearchable { key: "score".to_string(), value_type: ExtSearchableType::Number, search_key: "score".to_string() },
            ExtSearchable { key: "fav".to_string(), value_type: ExtSearchableType::Boolean, search_key: "favorite".to_string() },
            ExtSearchable { key: "note".to_string(), value_type: ExtSearchableType::String, search_key: "extnote".to_string() },
        ],
        indexes: vec![],
    });
    reg
}

#[test]
fn extension_keys_fill_extension_filters() {
    let reg = registry();
    let s = parse_user_input("score>4 favorite:yes extnote:hello", Some(&reg.searchables)).search;
    let hi = s.filter.higher_than.ext.unwrap();
    assert_eq!(hi, vec![("ext1".to_string(), vec![("score".to_string(), 4)])]);
    let flags = s.filter.bool_comp.ext.unwrap();
    assert_eq!(flags, vec![("ext1".to_string(), vec![("fav".to_string(), true)])]);
    let texts = s.filter.whitelist.ext.unwrap();
    assert_eq!(texts, vec![("ext1".to_string(), vec![("note".to_string(), vec!["hello".to_string()])])]);
}

#[test]
fn unknown_keys_without_extensions_are_generic() {
    let s = parse_user_input("score>4", None).search;
    assert_eq!(s.filter.whitelist.generic.unwrap(), vec!["score>4".to_string()]);
}

#[test]
fn words_and_keyed_terms_together() {
    let search = parse_user_input("Sonic platform:Flash", None).search;
    assert_eq!(search.filter.whitelist.generic, Some(vec!["Sonic".to_string()]));
    assert_eq!(search.filter.whitelist.platforms, Some(vec!["Flash".to_string()]));
    assert_eq!(search.limit, 1000);
}

#[test]
fn game_extension_user_input() {
    let mut reg = ExtensionRegistry::new();
    reg.register_ext(ExtensionInfo {
        id: "user_score".to_owned(),
        searchables: vec![
            ExtSearchable { key: "renamed".to_owned(), search_key: "name".to_owned(), value_type: ExtSearchableType::String },
            ExtSearchable { key: "fav".to_owned(), search_key: "fav".to_owned(), value_type: ExtSearchableType::Boolean },
            ExtSearchable { key: "score".to_owned(), search_key: "score".to_owned(), value_type: ExtSearchableType::Number },
        ],
        indexes: vec![],
    });
    let search = parse_user_input("score>5 name:sonic fav=1", Some(&reg.searchables)).search;

    // Number field
    let ext_search = search.filter.higher_than.ext.unwrap();
    let entry = &ext_search.iter().find(|(k, _)| k == "user_score").unwrap().1;
    assert_eq!(entry.iter().find(|(k, _)| k == "score").unwrap().1, 5);

    // Bool field
    let ext_search = search.filter.bool_comp.ext.unwrap();
    let entry = &ext_search.iter().find(|(k, _)| k == "user_score").unwrap().1;
    assert_eq!(entry.iter().find(|(k, _)| k == "fav").unwrap().1, true);

    // String field
    let ext_search = search.filter.whitelist.ext.unwrap();
    let entry = &ext_search.iter().find(|(k, _)| k == "user_score").unwrap().1;
    let values = &entry.iter().find(|(k, _)| k == "renamed").unwrap().1;
    assert!(values.iter().any(|s| s == "sonic"));
}

#[test]
fn blank_quoted_number_is_zero() {
    let s = parse_user_input("playtime>\"\t\"", None).search;
    assert_eq!(s.filter.higher_than.playtime, Some(0));
}

#[test]
fn keys_ignore_ascii_case() {
    let a = parse_user_input("Title:cat DEVELOPER:bob PlayTime>3", None).search;
    let b = parse_user_input("title:cat developer:bob playtime>3", None).search;
    assert_eq!(a.filter.whitelist.title, b.filter.whitelist.title);
    assert_eq!(a.filter.whitelist.title, Some(vec!["cat".to_string()]));
    assert_eq!(a.filter.whitelist.developer, Some(vec!["bob".to_string()]));
    assert_eq!(a.filter.higher_than.playtime, Some(3));
    // an unknown key keeps its text in the generic term
    let c = parse_user_input("Foo:bar", None).search;
    assert_eq!(c.filter.whitelist.generic, Some(vec!["Foo:bar".to_string()]));
}

#[test]
fn spans_are_slices_of_ascii_input() {
    let input = "-#tag:puzzle title=Cat  @dev x>3";
    let parsed = parse_user_input(input, None);
    let mut last = 0;
    for p in &parsed.positions {
        assert!(0 <= p.start && p.start <= p.end);
        assert_eq!(&input[p.start as usize..p.end as usize], p.value);
        assert!(p.start >= last);
        last = p.start;
    }
    assert!(parsed.positions.len() >= 8);
}

#[test]
fn checked_parse_agrees_with_parse() {
    for input in ["", "Sonic platform:Flash", r#"title:"a b" -#x tags>2"#] {
        let a = try_parse_user_input(input, None).expect("fits");
        let b = parse_user_input(input, None);
        assert_eq!(a.positions.len(), b.positions.len());
        for (p, q) in a.positions.iter().zip(b.positions.iter()) {
            assert_eq!((p.start, p.end, &p.value), (q.start, q.end, &q.value));
        }
        assert_eq!(a.search.limit, 1000);
        assert_eq!(a.search.filter.whitelist.platforms, b.search.filter.whitelist.platforms);
    }
}

#[test]
fn empty_input_gives_empty_search() {
    let r = parse_user_input("", None);
    assert!(r.positions.is_empty());
    let f = r.search.filter;
    assert!(f.whitelist.generic.is_none() && f.whitelist.title.is_none() && f.blacklist.tags.is_none());
    assert!(f.higher_than.playtime.is_none() && f.bool_comp.installed.is_none());
    assert!(f.subfilters.is_empty() && !f.match_any);
}
