//! The launcher dump: every platform, tag, category and game of the archive
//! in the flat shape the launcher imports.
use vstd::prelude::*;
use crate::game::Game;
use crate::tag::Tag;

verus! {

/// A name given to a game: a tag or a platform, by game id.
#[derive(Clone, Debug)]
pub struct LauncherDumpRelation {
    pub game_id: String,
    pub value: String,
}

/// The whole dump.
#[derive(Debug)]
pub struct LauncherDump {
    pub games: LauncherDumpGames,
    pub tags: LauncherDumpTags,
    pub platforms: LauncherDumpPlatforms,
    pub tag_relations: Vec<LauncherDumpRelation>,
    pub platform_relations: Vec<LauncherDumpRelation>,
}

#[derive(Debug)]
pub struct LauncherDumpGames {
    pub add_apps: Vec<AdditionalApp>,
    pub game_data: Vec<GameData>,
    pub games: Vec<GameDump>,
}

#[derive(Debug)]
pub struct LauncherDumpTags {
    pub categories: Vec<TagCategory>,
    pub aliases: Vec<TagAlias>,
    pub tags: Vec<LauncherDumpTagsTag>,
}

#[derive(Debug)]
pub struct LauncherDumpPlatforms {
    pub aliases: Vec<PlatformAlias>,
    pub platforms: Vec<LauncherDumpPlatformsPlatform>,
}

#[derive(Clone, Debug)]
pub struct LauncherDumpTagsAliases {
    pub tag_id: i64,
    pub name: String,
}

#[derive(Clone, Debug)]
pub struct LauncherDumpTagsTag {
    pub id: i64,
    pub category_id: i64,
    pub description: String,
    pub primary_alias: String,
}

#[derive(Clone, Debug)]
pub struct LauncherDumpPlatformsPlatform {
    pub id: i64,
    pub description: String,
    pub primary_alias: String,
}

/// A game as the dump lists it.
#[derive(Clone, Debug)]
pub struct GameDump {
    pub id: String,
    pub title: String,
    pub alternate_titles: String,
    pub series: String,
    pub developer: String,
    pub publisher: String,
    pub primary_platform: String,
    pub date_added: String,
    pub date_modified: String,
    pub play_mode: String,
    pub status: String,
    pub notes: String,
    pub source: String,
    pub application_path: String,
    pub launch_command: String,
    pub release_date: String,
    pub version: String,
    pub original_desc: String,
    pub language: String,
    pub library: String,
    pub active_data_id: Option<i64>,
    pub ruffle_support: Option<String>,
    pub action: String,
    pub reason: String,
    pub deleted: bool,
    pub user_id: i64,
}

/// A content pack as the dump lists it.
#[derive(Clone, Debug)]
pub struct GameData {
    pub id: i64,
    pub game_id: String,
    pub title: String,
    pub date_added: String,
    pub sha_256: String,
    pub crc_32: i32,
    pub size: i64,
    pub parameters: Option<String>,
    pub application_path: String,
    pub launch_command: String,
    pub indexed: bool,
    pub index_error: bool,
}

/// An additional application as the dump lists it.
#[derive(Clone, Debug)]
pub struct AdditionalApp {
    pub id: Option<String>,
    pub application_path: String,
    pub auto_run_before: bool,
    pub launch_command: String,
    pub name: String,
    pub wait_for_exit: bool,
    pub parent_game_id: String,
}

#[derive(Clone, Debug)]
pub struct TagAlias {
    pub tag_id: i64,
    pub name: String,
}

#[derive(Clone, Debug)]
pub struct PlatformAlias {
    pub platform_id: i64,
    pub name: String,
}

/// A tag category as the dump lists it: the description is never absent.
#[derive(Clone, Debug)]
pub struct TagCategory {
    pub id: i64,
    pub name: String,
    pub color: String,
    pub description: String,
}

// ---------------------------------------------------------------------------
// What each record becomes
// ---------------------------------------------------------------------------

/// The aliases of a platform, each with the platform's id.
pub open spec fn platform_aliases_of(p: Tag) -> Seq<PlatformAlias> {
    p.aliases@.map_values(|a: String| PlatformAlias { platform_id: p.id, name: a })
}

/// The aliases of a tag, each with the tag's id.
pub open spec fn tag_aliases_of(t: Tag) -> Seq<TagAlias> {
    t.aliases@.map_values(|a: String| TagAlias { tag_id: t.id, name: a })
}

pub open spec fn platform_entry(p: Tag) -> LauncherDumpPlatformsPlatform {
    LauncherDumpPlatformsPlatform { id: p.id, description: p.description, primary_alias: p.name }
}

/// The id of the last category named `name`; 0 when none is, or when there
/// is no name.
pub open spec fn category_id_of(cats: Seq<crate::tag_category::TagCategory>, name: Option<String>) -> i64
    decreases cats.len(),
{
    match name {
        None => 0,
        Some(n) => if cats.len() == 0 {
            0
        } else if cats.last().name@ == n@ {
            cats.last().id
        } else {
            category_id_of(cats.drop_last(), name)
        },
    }
}

pub open spec fn tag_entry(t: Tag, cats: Seq<crate::tag_category::TagCategory>) -> LauncherDumpTagsTag {
    LauncherDumpTagsTag {
        id: t.id,
        category_id: category_id_of(cats, t.category),
        description: t.description,
        primary_alias: t.name,
    }
}

/// A category as dumped: its description, or the empty text.
pub open spec fn category_entry(c: crate::tag_category::TagCategory, d: TagCategory) -> bool {
    &&& d.id == c.id
    &&& d.name == c.name
    &&& d.color == c.color
    &&& d.description@ == match c.description {
        Some(s) => s@,
        None => Seq::empty(),
    }
}

/// The relations of a game to each of the given names.
pub open spec fn relations_of(game_id: String, names: Seq<String>) -> Seq<LauncherDumpRelation> {
    names.map_values(|v: String| LauncherDumpRelation { game_id: game_id, value: v })
}

/// An additional application of game `game_id`, as dumped.
pub open spec fn app_entry(a: crate::game::AdditionalApp, game_id: String) -> AdditionalApp {
    AdditionalApp {
        id: Some(a.id),
        application_path: a.application_path,
        auto_run_before: a.auto_run_before,
        launch_command: a.launch_command,
        name: a.name,
        wait_for_exit: a.wait_for_exit,
        parent_game_id: game_id,
    }
}

pub open spec fn apps_of(g: Game) -> Seq<AdditionalApp> {
    match g.add_apps {
        Some(v) => v@.map_values(|a: crate::game::AdditionalApp| app_entry(a, g.id)),
        None => Seq::empty(),
    }
}

pub open spec fn data_entry(d: crate::game_data::GameData) -> GameData {
    GameData {
        id: d.id,
        game_id: d.game_id,
        title: d.title,
        date_added: d.date_added,
        sha_256: d.sha256,
        crc_32: d.crc32,
        size: d.size,
        parameters: d.parameters,
        application_path: d.application_path,
        launch_command: d.launch_command,
        indexed: false,
        index_error: false,
    }
}

pub open spec fn data_of(g: Game) -> Seq<GameData> {
    match g.game_data {
        Some(v) => v@.map_values(|d: crate::game_data::GameData| data_entry(d)),
        None => Seq::empty(),
    }
}

/// A game as dumped: its fields, its legacy paths as its paths, no Ruffle
/// support, and empty action and reason.
pub open spec fn game_entry(g: Game, d: GameDump) -> bool {
    &&& d.id == g.id
    &&& d.title == g.title
    &&& d.alternate_titles == g.alternate_titles
    &&& d.series == g.series
    &&& d.developer == g.developer
    &&& d.publisher == g.publisher
    &&& d.primary_platform == g.primary_platform
    &&& d.date_added == g.date_added
    &&& d.date_modified == g.date_modified
    &&& d.play_mode == g.play_mode
    &&& d.status == g.status
    &&& d.notes == g.notes
    &&& d.source == g.source
    &&& d.application_path == g.legacy_application_path
    &&& d.launch_command == g.legacy_launch_command
    &&& d.release_date == g.release_date
    &&& d.version == g.version
    &&& d.original_desc == g.original_description
    &&& d.language == g.language
    &&& d.library == g.library
    &&& d.active_data_id == g.active_data_id
    &&& d.ruffle_support is None
    &&& d.action@.len() == 0
    &&& d.reason@.len() == 0
    &&& !d.deleted
    &&& d.user_id == 0
}

// ---------------------------------------------------------------------------
// Building the dump
// ---------------------------------------------------------------------------

/// The platforms part of the dump: every alias with its platform's id, in
/// order, and each platform under its primary name.
pub fn platforms_dump(platforms: &Vec<Tag>) -> (r: LauncherDumpPlatforms)
    ensures
        r.aliases@ == platforms@.map_values(|p: Tag| platform_aliases_of(p)).flatten_alt(),
        r.platforms@ == platforms@.map_values(|p: Tag| platform_entry(p)),
{
    let mut aliases: Vec<PlatformAlias> = Vec::new();
    let mut entries: Vec<LauncherDumpPlatformsPlatform> = Vec::new();
    let mut i: usize = 0;
    while i < platforms.len()
        invariant
            i <= platforms@.len(),
            aliases@ == platforms@.take(i as int).map_values(|p: Tag| platform_aliases_of(p)).flatten_alt(),
            entries@ == platforms@.take(i as int).map_values(|p: Tag| platform_entry(p)),
        decreases platforms.len() - i,
    {
        let p = &platforms[i];
        let ghost before = aliases@;
        let ghost mine = platform_aliases_of(*p);
        let mut j: usize = 0;
        while j < p.aliases.len()
            invariant
                j <= p.aliases@.len(),
                p == platforms@[i as int],
                mine == platform_aliases_of(*p),
                aliases@ == before + mine.take(j as int),
            decreases p.aliases.len() - j,
        {
            aliases.push(PlatformAlias { platform_id: p.id, name: p.aliases[j].clone() });
            assert(mine.take(j + 1) =~= mine.take(j as int).push(mine[j as int]));
            j = j + 1;
        }
        assert(mine.take(mine.len() as int) =~= mine);
        entries.push(LauncherDumpPlatformsPlatform {
            id: p.id,
            description: p.description.clone(),
            primary_alias: p.name.clone(),
        });
        proof {
            let f = |p: Tag| platform_aliases_of(p);
            let s = platforms@.take(i + 1).map_values(f);
            assert(s.drop_last() =~= platforms@.take(i as int).map_values(f));
            assert(s.last() == mine);
            assert(platforms@.take(i + 1).map_values(|p: Tag| platform_entry(p)) =~= platforms@.take(
                i as int,
            ).map_values(|p: Tag| platform_entry(p)).push(platform_entry(*p)));
        }
        i = i + 1;
    }
    assert(platforms@.take(platforms@.len() as int) =~= platforms@);
    LauncherDumpPlatforms { aliases, platforms: entries }
}

/// The id of the last category named `name`, 0 when there is none.
fn category_id(categories: &Vec<crate::tag_category::TagCategory>, name: &Option<String>) -> (r: i64)
    ensures
        r == category_id_of(categories@, *name),
{
    match name {
        None => 0,
        Some(n) => {
            let target = crate::text::to_chars(n.as_str());
            let mut k: usize = categories.len();
            assert(categories@.take(k as int) =~= categories@);
            while k > 0
                invariant
                    k <= categories@.len(),
                    target@ == n@,
                    *name == Some(*n),
                    category_id_of(categories@, *name) == category_id_of(categories@.take(k as int), *name),
                decreases k,
            {
                let c = &categories[k - 1];
                proof {
                    let t = categories@.take(k as int);
                    assert(t.last() == categories@[k - 1]);
                    assert(t.drop_last() =~= categories@.take(k - 1));
                }
                let ghost t = categories@.take(k as int);
                assert(t.len() == k && k > 0);
                if crate::text::eq_chars(&crate::text::to_chars(c.name.as_str()), &target) {
                    assert(t.last().name@ == n@);
                    assert(category_id_of(t, *name) == t.last().id);
                    return c.id;
                }
                assert(category_id_of(t, *name) == category_id_of(t.drop_last(), *name));
                k = k - 1;
            }
            0
        },
    }
}

/// The tags part of the dump: every alias with its tag's id, every category
/// (an absent description dumped as empty), and each tag with the id of its
/// category (the last category of that name; 0 when none).
pub fn tags_dump(tags: &Vec<Tag>, categories: &Vec<crate::tag_category::TagCategory>) -> (r: LauncherDumpTags)
    ensures
        r.aliases@ == tags@.map_values(|t: Tag| tag_aliases_of(t)).flatten_alt(),
        r.categories@.len() == categories@.len(),
        forall|i: int| 0 <= i < categories@.len() ==> category_entry(categories@[i], #[trigger] r.categories@[i]),
        r.tags@ == tags@.map_values(|t: Tag| tag_entry(t, categories@)),
{
    let mut aliases: Vec<TagAlias> = Vec::new();
    let mut entries: Vec<LauncherDumpTagsTag> = Vec::new();
    let mut i: usize = 0;
    while i < tags.len()
        invariant
            i <= tags@.len(),
            aliases@ == tags@.take(i as int).map_values(|t: Tag| tag_aliases_of(t)).flatten_alt(),
            entries@ == tags@.take(i as int).map_values(|t: Tag| tag_entry(t, categories@)),
        decreases tags.len() - i,
    {
        let t = &tags[i];
        let ghost before = aliases@;
        let ghost mine = tag_aliases_of(*t);
        let mut j: usize = 0;
        while j < t.aliases.len()
            invariant
                j <= t.aliases@.len(),
                t == tags@[i as int],
                mine == tag_aliases_of(*t),
                aliases@ == before + mine.take(j as int),
            decreases t.aliases.len() - j,
        {
            aliases.push(TagAlias { tag_id: t.id, name: t.aliases[j].clone() });
            assert(mine.take(j + 1) =~= mine.take(j as int).push(mine[j as int]));
            j = j + 1;
        }
        assert(mine.take(mine.len() as int) =~= mine);
        let cid = category_id(categories, &t.category);
        entries.push(LauncherDumpTagsTag {
            id: t.id,
            category_id: cid,
            description: t.description.clone(),
            primary_alias: t.name.clone(),
        });
        proof {
            let f = |t: Tag| tag_aliases_of(t);
            let s = tags@.take(i + 1).map_values(f);
            assert(s.drop_last() =~= tags@.take(i as int).map_values(f));
            assert(s.last() == mine);
            assert(tags@.take(i + 1).map_values(|t: Tag| tag_entry(t, categories@)) =~= tags@.take(
                i as int,
            ).map_values(|t: Tag| tag_entry(t, categories@)).push(tag_entry(*t, categories@)));
        }
        i = i + 1;
    }
    assert(tags@.take(tags@.len() as int) =~= tags@);
    let mut cats: Vec<TagCategory> = Vec::new();
    let mut k: usize = 0;
    while k < categories.len()
        invariant
            k <= categories@.len(),
            cats@.len() == k,
            forall|m: int| 0 <= m < k ==> category_entry(categories@[m], #[trigger] cats@[m]),
        decreases categories.len() - k,
    {
        let c = &categories[k];
        let description = match &c.description {
            Some(d) => d.clone(),
            None => String::new(),
        };
        cats.push(TagCategory { id: c.id, name: c.name.clone(), color: c.color.clone(), description });
        k = k + 1;
    }
    LauncherDumpTags { categories: cats, aliases, tags: entries }
}

/// The entry of one game.
fn game_dump_entry(g: &Game) -> (d: GameDump)
    ensures
        game_entry(*g, d),
{
    GameDump {
        id: g.id.clone(),
        title: g.title.clone(),
        alternate_titles: g.alternate_titles.clone(),
        series: g.series.clone(),
        developer: g.developer.clone(),
        publisher: g.publisher.clone(),
        primary_platform: g.primary_platform.clone(),
        date_added: g.date_added.clone(),
        date_modified: g.date_modified.clone(),
        play_mode: g.play_mode.clone(),
        status: g.status.clone(),
        notes: g.notes.clone(),
        source: g.source.clone(),
        application_path: g.legacy_application_path.clone(),
        launch_command: g.legacy_launch_command.clone(),
        release_date: g.release_date.clone(),
        version: g.version.clone(),
        original_desc: g.original_description.clone(),
        language: g.language.clone(),
        library: g.library.clone(),
        active_data_id: g.active_data_id,
        ruffle_support: None,
        action: String::new(),
        reason: String::new(),
        deleted: false,
        user_id: 0,
    }
}

/// Appends the relations of game `game_id` to each of `names`.
fn push_relations(out: &mut Vec<LauncherDumpRelation>, game_id: &String, names: &Vec<String>)
    ensures
        final(out)@ == old(out)@ + relations_of(*game_id, names@),
{
    let ghost mine = relations_of(*game_id, names@);
    let mut j: usize = 0;
    while j < names.len()
        invariant
            j <= names@.len(),
            mine == relations_of(*game_id, names@),
            out@ == old(out)@ + mine.take(j as int),
        decreases names.len() - j,
    {
        out.push(LauncherDumpRelation { game_id: game_id.clone(), value: names[j].clone() });
        assert(mine.take(j + 1) =~= mine.take(j as int).push(mine[j as int]));
        j = j + 1;
    }
    assert(mine.take(mine.len() as int) =~= mine);
}

/// The games part of the dump with the tag and platform relations: each
/// game's entry, all additional applications (each under its game's id) and
/// content packs of the games, and one relation per tag and per platform of
/// each game, in order.
pub fn games_dump(games: &Vec<Game>) -> (r: (LauncherDumpGames, Vec<LauncherDumpRelation>, Vec<LauncherDumpRelation>))
    ensures
        r.0.games@.len() == games@.len(),
        forall|i: int| 0 <= i < games@.len() ==> game_entry(games@[i], #[trigger] r.0.games@[i]),
        r.0.add_apps@ == games@.map_values(|g: Game| apps_of(g)).flatten_alt(),
        r.0.game_data@ == games@.map_values(|g: Game| data_of(g)).flatten_alt(),
        r.1@ == games@.map_values(|g: Game| relations_of(g.id, g.tags.0@)).flatten_alt(),
        r.2@ == games@.map_values(|g: Game| relations_of(g.id, g.platforms.0@)).flatten_alt(),
{
    let mut entries: Vec<GameDump> = Vec::new();
    let mut apps: Vec<AdditionalApp> = Vec::new();
    let mut data: Vec<GameData> = Vec::new();
    let mut tag_rel: Vec<LauncherDumpRelation> = Vec::new();
    let mut plat_rel: Vec<LauncherDumpRelation> = Vec::new();
    let mut i: usize = 0;
    while i < games.len()
        invariant
            i <= games@.len(),
            entries@.len() == i,
            forall|m: int| 0 <= m < i ==> game_entry(games@[m], #[trigger] entries@[m]),
            apps@ == games@.take(i as int).map_values(|g: Game| apps_of(g)).flatten_alt(),
            data@ == games@.take(i as int).map_values(|g: Game| data_of(g)).flatten_alt(),
            tag_rel@ == games@.take(i as int).map_values(|g: Game| relations_of(g.id, g.tags.0@)).flatten_alt(),
            plat_rel@ == games@.take(i as int).map_values(|g: Game| relations_of(g.id, g.platforms.0@)).flatten_alt(),
        decreases games.len() - i,
    {
        let g = &games[i];
        let ghost apps0 = apps@;
        let ghost data0 = data@;
        match &g.add_apps {
            Some(list) => {
                let ghost mine = apps_of(*g);
                let mut j: usize = 0;
                while j < list.len()
                    invariant
                        j <= list@.len(),
                        g == games@[i as int],
                        g.add_apps == Some(*list),
                        mine == apps_of(*g),
                        apps@ == apps0 + mine.take(j as int),
                    decreases list.len() - j,
                {
                    let a = &list[j];
                    apps.push(AdditionalApp {
                        id: Some(a.id.clone()),
                        application_path: a.application_path.clone(),
                        auto_run_before: a.auto_run_before,
                        launch_command: a.launch_command.clone(),
                        name: a.name.clone(),
                        wait_for_exit: a.wait_for_exit,
                        parent_game_id: g.id.clone(),
                    });
                    assert(mine.take(j + 1) =~= mine.take(j as int).push(mine[j as int]));
                    j = j + 1;
                }
                assert(mine.take(mine.len() as int) =~= mine);
            },
            None => {
                assert(apps0 + apps_of(*g) =~= apps0);
            },
        }
        match &g.game_data {
            Some(list) => {
                let ghost mine = data_of(*g);
                let mut j: usize = 0;
                while j < list.len()
                    invariant
                        j <= list@.len(),
                        g == games@[i as int],
                        g.game_data == Some(*list),
                        mine == data_of(*g),
                        data@ == data0 + mine.take(j as int),
                    decreases list.len() - j,
                {
                    let d = &list[j];
                    data.push(GameData {
                        id: d.id,
                        game_id: d.game_id.clone(),
                        title: d.title.clone(),
                        date_added: d.date_added.clone(),
                        sha_256: d.sha256.clone(),
                        crc_32: d.crc32,
                        size: d.size,
                        parameters: match &d.parameters {
                            Some(p) => Some(p.clone()),
                            None => None,
                        },
                        application_path: d.application_path.clone(),
                        launch_command: d.launch_command.clone(),
                        indexed: false,
                        index_error: false,
                    });
                    assert(mine.take(j + 1) =~= mine.take(j as int).push(mine[j as int]));
                    j = j + 1;
                }
                assert(mine.take(mine.len() as int) =~= mine);
            },
            None => {
                assert(data0 + data_of(*g) =~= data0);
            },
        }
        push_relations(&mut tag_rel, &g.id, &g.tags.0);
        push_relations(&mut plat_rel, &g.id, &g.platforms.0);
        entries.push(game_dump_entry(g));
        proof {
            let t = games@.take(i + 1);
            let t0 = games@.take(i as int);
            assert(t.drop_last() =~= t0);
            assert(t.last() == *g);
            assert(t.map_values(|g: Game| apps_of(g)).drop_last() =~= t0.map_values(|g: Game| apps_of(g)));
            assert(t.map_values(|g: Game| data_of(g)).drop_last() =~= t0.map_values(|g: Game| data_of(g)));
            assert(t.map_values(|g: Game| relations_of(g.id, g.tags.0@)).drop_last() =~= t0.map_values(
                |g: Game| relations_of(g.id, g.tags.0@),
            ));
            assert(t.map_values(|g: Game| relations_of(g.id, g.platforms.0@)).drop_last() =~= t0.map_values(
                |g: Game| relations_of(g.id, g.platforms.0@),
            ));
        }
        i = i + 1;
    }
    assert(games@.take(games@.len() as int) =~= games@);
    (LauncherDumpGames { add_apps: apps, game_data: data, games: entries }, tag_rel, plat_rel)
}

/// The dump of the given platforms, tags, categories and games (see
/// `platforms_dump`, `tags_dump` and `games_dump`).
pub fn launcher_dump(
    platforms: &Vec<Tag>,
    tags: &Vec<Tag>,
    categories: &Vec<crate::tag_category::TagCategory>,
    games: &Vec<Game>,
) -> (r: LauncherDump)
    ensures
        r.platforms.aliases@ == platforms@.map_values(|p: Tag| platform_aliases_of(p)).flatten_alt(),
        r.platforms.platforms@ == platforms@.map_values(|p: Tag| platform_entry(p)),
        r.tags.aliases@ == tags@.map_values(|t: Tag| tag_aliases_of(t)).flatten_alt(),
        r.tags.categories@.len() == categories@.len(),
        forall|i: int| 0 <= i < categories@.len() ==> category_entry(categories@[i], #[trigger] r.tags.categories@[i]),
        r.tags.tags@ == tags@.map_values(|t: Tag| tag_entry(t, categories@)),
        r.games.games@.len() == games@.len(),
        forall|i: int| 0 <= i < games@.len() ==> game_entry(games@[i], #[trigger] r.games.games@[i]),
        r.games.add_apps@ == games@.map_values(|g: Game| apps_of(g)).flatten_alt(),
        r.games.game_data@ == games@.map_values(|g: Game| data_of(g)).flatten_alt(),
        r.tag_relations@ == games@.map_values(|g: Game| relations_of(g.id, g.tags.0@)).flatten_alt(),
        r.platform_relations@ == games@.map_values(|g: Game| relations_of(g.id, g.platforms.0@)).flatten_alt(),
{
    let p = platforms_dump(platforms);
    let t = tags_dump(tags, categories);
    let (g, tag_relations, platform_relations) = games_dump(games);
    LauncherDump { games: g, tags: t, platforms: p, tag_relations, platform_relations }
}

} // verus!
