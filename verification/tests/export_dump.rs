use flashpoint_archive::export::launcher_dump;
use flashpoint_archive::game::{AdditionalApp, Game, TagVec};
use flashpoint_archive::game_data::GameData;
use flashpoint_archive::tag::Tag;
use flashpoint_archive::tag_category::TagCategory;
use flashpoint_archive::update::{alias_list, page_after, RemoteGame, RemoteGamesRes};

fn names(v: &[&str]) -> Vec<String> {
    v.iter().map(|s| s.to_string()).collect()
}

fn record(id: i64, name: &str, aliases: &[&str], category: Option<&str>) -> Tag {
    Tag {
        id,
        name: name.to_string(),
        description: format!("about {name}"),
        date_modified: String::new(),
        aliases: names(aliases),
        category: category.map(|c| c.to_string()),
    }
}

fn category(id: i64, name: &str, description: Option<&str>) -> TagCategory {
    TagCategory { id, name: name.to_string(), color: "#fff".to_string(), description: description.map(|d| d.to_string()) }
}

#[test]
fn dump_lists_platform_and_tag_aliases_in_order() {
    let platforms = vec![record(1, "Flash", &["Flash", "SWF"], None), record(2, "HTML5", &["HTML5"], None)];
    let tags = vec![record(10, "Action", &["Action", "Act"], Some("genre")), record(11, "Odd", &[], Some("missing"))];
    let cats = vec![category(3, "genre", None), category(4, "theme", Some("t")), category(5, "genre", Some("g"))];
    let d = launcher_dump(&platforms, &tags, &cats, &Vec::new());

    let pa: Vec<(i64, String)> = d.platforms.aliases.iter().map(|a| (a.platform_id, a.name.clone())).collect();
    assert_eq!(pa, vec![(1, "Flash".to_string()), (1, "SWF".to_string()), (2, "HTML5".to_string())]);
    assert_eq!(d.platforms.platforms[1].primary_alias, "HTML5");
    assert_eq!(d.platforms.platforms[1].description, "about HTML5");

    let ta: Vec<(i64, String)> = d.tags.aliases.iter().map(|a| (a.tag_id, a.name.clone())).collect();
    assert_eq!(ta, vec![(10, "Action".to_string()), (10, "Act".to_string())]);
    // The last category of a name wins; an unknown category gives 0.
    assert_eq!(d.tags.tags[0].category_id, 5);
    assert_eq!(d.tags.tags[1].category_id, 0);
    assert_eq!(d.tags.categories[0].description, "");
    assert_eq!(d.tags.categories[2].description, "g");
}

#[test]
fn dump_flattens_games_and_their_relations() {
    let mut g = Game::new();
    g.id = "g1".to_string();
    g.title = "Game One".to_string();
    g.legacy_application_path = "flash.exe".to_string();
    g.tags = TagVec(names(&["Action", "Puzzle"]));
    g.platforms = TagVec(names(&["Flash"]));
    g.add_apps = Some(vec![AdditionalApp {
        id: "a1".to_string(),
        name: "Manual".to_string(),
        application_path: "x".to_string(),
        launch_command: "y".to_string(),
        auto_run_before: false,
        wait_for_exit: true,
        parent_game_id: "other".to_string(),
    }]);
    let mut data = GameData::new();
    data.id = 9;
    data.game_id = "g1".to_string();
    data.sha256 = "abc".to_string();
    g.game_data = Some(vec![data]);
    let mut h = Game::new();
    h.id = "g2".to_string();
    h.tags = TagVec(names(&["Action"]));

    let d = launcher_dump(&Vec::new(), &Vec::new(), &Vec::new(), &vec![g, h]);
    assert_eq!(d.games.games.len(), 2);
    assert_eq!(d.games.games[0].application_path, "flash.exe");
    assert_eq!(d.games.games[0].title, "Game One");
    assert!(d.games.games[0].ruffle_support.is_none());
    assert_eq!(d.games.add_apps.len(), 1);
    assert_eq!(d.games.add_apps[0].id, Some("a1".to_string()));
    assert_eq!(d.games.add_apps[0].parent_game_id, "g1");
    assert_eq!(d.games.game_data.len(), 1);
    assert_eq!(d.games.game_data[0].sha_256, "abc");
    assert!(!d.games.game_data[0].indexed);
    let tr: Vec<(String, String)> = d.tag_relations.iter().map(|r| (r.game_id.clone(), r.value.clone())).collect();
    assert_eq!(
        tr,
        vec![
            ("g1".to_string(), "Action".to_string()),
            ("g1".to_string(), "Puzzle".to_string()),
            ("g2".to_string(), "Action".to_string())
        ]
    );
    assert_eq!(d.platform_relations.len(), 1);
}

#[test]
fn alias_text_is_split_and_trimmed() {
    assert_eq!(alias_list("Flash; Shockwave ;;"), names(&["Flash", "Shockwave", "", ""]));
    assert_eq!(alias_list(""), names(&[""]));
}

#[test]
fn next_page_starts_after_the_last_game() {
    let empty = RemoteGamesRes {
        games: Vec::new(),
        add_apps: Vec::new(),
        game_data: Vec::new(),
        tag_relations: Vec::new(),
        platform_relations: Vec::new(),
    };
    assert_eq!(page_after(&empty), None);
    let game = |id: &str| RemoteGame {
        id: id.to_string(),
        title: String::new(),
        alternate_titles: String::new(),
        series: String::new(),
        developer: String::new(),
        publisher: String::new(),
        date_added: String::new(),
        date_modified: String::new(),
        play_mode: String::new(),
        status: String::new(),
        notes: String::new(),
        source: String::new(),
        application_path: String::new(),
        launch_command: String::new(),
        release_date: String::new(),
        version: String::new(),
        original_description: String::new(),
        language: String::new(),
        library: String::new(),
        platform_name: String::new(),
        archive_state: 0,
        ruffle_support: String::new(),
    };
    let page = RemoteGamesRes { games: vec![game("x"), game("y")], ..empty };
    assert_eq!(page_after(&page), Some("y".to_string()));
}
