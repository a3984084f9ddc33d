//! Game records, their edits, and game search.
pub mod ext;
pub mod extmap;
pub mod search;

use vstd::prelude::*;
use crate::game_data::{GameData, or_else, opt_str_or};
use crate::tag::{Tag, contains_string, names_with, opt_str_view, str_or};
use crate::game::search::query::join;
use crate::text::{
    append_str, lacks, lemma_split_on_sep_then, lemma_split_on_single, split_on, split_on_exec,
    str_trim, string_of, trim, trim_end, trim_start,
};

verus! {

/// A list of names (tags or platforms), stored as one `;`-separated text.
#[derive(Clone, Debug)]
pub struct TagVec(pub Vec<String>);

/// The names in `parts`, each trimmed, without the empty ones.
pub open spec fn trimmed_names(parts: Seq<Seq<char>>) -> Seq<Seq<char>>
    decreases parts.len(),
{
    if parts.len() == 0 {
        Seq::empty()
    } else {
        let rest = trimmed_names(parts.drop_last());
        let t = str_trim(parts.last());
        if t.len() == 0 {
            rest
        } else {
            rest.push(t)
        }
    }
}

/// `v` joined with `sep` between each pair.
pub fn join_strings(v: &Vec<String>, sep: &str) -> (r: String)
    ensures
        r@ == join(v.deep_view(), sep@),
{
    let ghost names = v.deep_view();
    let mut out: Vec<char> = Vec::new();
    let mut i: usize = 0;
    while i < v.len()
        invariant
            i <= v@.len(),
            names == v.deep_view(),
            out@ == join(names.take(i as int), sep@),
        decreases v.len() - i,
    {
        if i > 0 {
            append_str(&mut out, sep);
        }
        append_str(&mut out, v[i].as_str());
        proof {
            let t = names.take(i + 1);
            assert(t.drop_last() =~= names.take(i as int));
            assert(t.last() == v@[i as int]@);
            if i == 0 {
                assert(out@ =~= t[0]);
            }
        }
        i = i + 1;
    }
    assert(names.take(names.len() as int) =~= names);
    string_of(&out)
}

impl TagVec {
    /// An empty list.
    pub fn new() -> (r: TagVec)
        ensures
            r.0@.len() == 0,
    {
        TagVec(Vec::new())
    }

    /// The names of a stored list: the pieces between `;`, trimmed, without
    /// the empty ones.
    pub fn from_delimited_string(s: &str) -> (r: TagVec)
        ensures
            r.0.deep_view() == trimmed_names(split_on(s@, ';')),
    {
        let parts = split_on_exec(s, ';');
        let ghost pv = parts@.map_values(|v: Vec<char>| v@);
        let mut names: Vec<String> = Vec::new();
        let mut i: usize = 0;
        while i < parts.len()
            invariant
                i <= parts@.len(),
                pv == parts@.map_values(|v: Vec<char>| v@),
                names.deep_view() == trimmed_names(pv.take(i as int)),
            decreases parts.len() - i,
        {
            let p = string_of(&parts[i]);
            let t = trim(p.as_str());
            let tc = crate::text::to_chars(t.as_str());
            proof {
                assert(pv.take(i + 1).drop_last() =~= pv.take(i as int));
                assert(pv.take(i + 1).last() == parts@[i as int]@);
            }
            if tc.len() > 0 {
                let ghost n0 = names.deep_view();
                names.push(t);
                assert(names.deep_view() =~= n0.push(tc@));
            }
            i = i + 1;
        }
        assert(pv.take(pv.len() as int) =~= pv);
        TagVec(names)
    }

    /// Whether the list holds `s`.
    pub fn contains(&self, s: &String) -> (r: bool)
        ensures
            r == self.0.deep_view().contains(s@),
    {
        contains_string(&self.0, s)
    }

    /// Appends a name.
    pub fn push(&mut self, s: String)
        ensures
            final(self).0.deep_view() == old(self).0.deep_view().push(s@),
    {
        let ghost v0 = self.0.deep_view();
        self.0.push(s);
        assert(self.0.deep_view() =~= v0.push(s@));
    }

    /// The names joined with `sep` between each pair.
    fn joined(&self, sep: &str) -> (r: String)
        ensures
            r@ == join(self.0.deep_view(), sep@),
    {
        join_strings(&self.0, sep)
    }

    /// The list as it is shown and stored in a game record: the names joined
    /// with `"; "`.
    pub fn to_text(&self) -> (r: String)
        ensures
            r@ == join(self.0.deep_view(), "; "@),
    {
        self.joined("; ")
    }

    /// The list in its serialised form: the names joined with `";"`.
    pub fn serialized(&self) -> (r: String)
        ensures
            r@ == join(self.0.deep_view(), ";"@),
    {
        self.joined(";")
    }

    /// A list read back from its serialised form: every piece between `;`,
    /// as it stands.
    pub fn from_serialized(s: &str) -> (r: TagVec)
        ensures
            r.0.deep_view() == split_on(s@, ';'),
    {
        let parts = split_on_exec(s, ';');
        let ghost pv = parts@.map_values(|v: Vec<char>| v@);
        let mut names: Vec<String> = Vec::new();
        let mut i: usize = 0;
        while i < parts.len()
            invariant
                i <= parts@.len(),
                pv == parts@.map_values(|v: Vec<char>| v@),
                names.deep_view() == pv.take(i as int),
            decreases parts.len() - i,
        {
            let p = string_of(&parts[i]);
            let ghost n0 = names.deep_view();
            names.push(p);
            proof {
                assert(pv[i as int] == parts@[i as int]@);
                assert(names.deep_view() =~= n0.push(pv[i as int]));
                assert(pv.take(i + 1) =~= pv.take(i as int).push(pv[i as int]));
            }
            i = i + 1;
        }
        assert(pv.take(pv.len() as int) =~= pv);
        TagVec(names)
    }
}

impl Default for TagVec {
    fn default() -> (r: TagVec)
        ensures
            r.0@.len() == 0,
    {
        TagVec::new()
    }
}

/// Every name in `names` lacks `sep`.
pub open spec fn all_lack(names: Seq<Seq<char>>, sep: char) -> bool {
    forall|i: int| 0 <= i < names.len() ==> lacks(#[trigger] names[i], sep)
}

/// Law: a non-empty list whose names hold no `;` is read back from its
/// serialised form unchanged.
pub proof fn law_serialized_round_trip(names: Seq<Seq<char>>)
    requires
        names.len() >= 1,
        all_lack(names, ';'),
    ensures
        split_on(join(names, ";"@), ';') == names,
    decreases names.len(),
{
    reveal_strlit(";");
    if names.len() == 1 {
        assert(lacks(names[0], ';'));
        lemma_split_on_single(names[0], ';');
        assert(seq![names[0]] =~= names);
    } else {
        let dl = names.drop_last();
        assert forall|i: int| 0 <= i < dl.len() implies lacks(#[trigger] dl[i], ';') by {
            assert(dl[i] == names[i]);
        }
        law_serialized_round_trip(dl);
        assert(lacks(names[names.len() - 1], ';'));
        assert(join(names, ";"@) =~= join(dl, ";"@).push(';') + names.last());
        lemma_split_on_sep_then(join(dl, ";"@), names.last(), ';');
        assert(dl.push(names.last()) =~= names);
    }
}

/// The pieces of a `"; "`-joined list cut at `;`: every name after the first
/// keeps the space written before it.
pub open spec fn spaced(names: Seq<Seq<char>>) -> Seq<Seq<char>> {
    Seq::new(names.len(), |k: int| if k == 0 { names[0] } else { seq![' '] + names[k] })
}

proof fn lemma_join_spaced(names: Seq<Seq<char>>)
    ensures
        join(names, "; "@) == join(spaced(names), ";"@),
    decreases names.len(),
{
    reveal_strlit(";");
    reveal_strlit("; ");
    if names.len() >= 2 {
        let dl = names.drop_last();
        lemma_join_spaced(dl);
        assert(spaced(names).drop_last() =~= spaced(dl));
        assert(spaced(names).last() == seq![' '] + names.last());
        assert(join(names, "; "@) =~= join(spaced(names), ";"@));
    }
}

/// A trimmed name with a space before it trims back to itself.
proof fn lemma_trim_spaced(n: Seq<char>)
    requires
        str_trim(n) == n,
    ensures
        str_trim(seq![' '] + n) == n,
{
    let m = seq![' '] + n;
    assert(m.drop_first() =~= n);
    assert(trim_start(m) == trim_start(n));
}

proof fn lemma_trimmed_spaced(names: Seq<Seq<char>>)
    requires
        forall|i: int| 0 <= i < names.len() ==> (#[trigger] names[i]).len() > 0 && str_trim(names[i]) == names[i],
    ensures
        trimmed_names(spaced(names)) == names,
    decreases names.len(),
{
    if names.len() > 0 {
        let dl = names.drop_last();
        assert forall|i: int| 0 <= i < dl.len() implies (#[trigger] dl[i]).len() > 0 && str_trim(dl[i]) == dl[i] by {
            assert(dl[i] == names[i]);
        }
        lemma_trimmed_spaced(dl);
        let sp = spaced(names);
        assert(sp.drop_last() =~= spaced(dl));
        let k = names.len() - 1;
        assert(names[k].len() > 0 && str_trim(names[k]) == names[k]);
        if k > 0 {
            lemma_trim_spaced(names[k]);
        }
        assert(str_trim(sp.last()) == names.last());
        assert(dl.push(names.last()) =~= names);
    }
}

/// Law: a list of trimmed, non-empty names without `;`, written as a game
/// record stores it, is read back unchanged.
pub proof fn law_text_round_trip(names: Seq<Seq<char>>)
    requires
        forall|i: int| 0 <= i < names.len() ==> (#[trigger] names[i]).len() > 0 && str_trim(names[i]) == names[i],
        all_lack(names, ';'),
    ensures
        trimmed_names(split_on(join(names, "; "@), ';')) == names,
{
    if names.len() == 0 {
        assert(join(names, "; "@) == Seq::<char>::empty());
        assert(split_on(Seq::<char>::empty(), ';') == seq![Seq::<char>::empty()]);
        let e = seq![Seq::<char>::empty()];
        assert(e.drop_last() =~= Seq::<Seq<char>>::empty());
        assert(str_trim(Seq::<char>::empty()) == Seq::<char>::empty());
        assert(trimmed_names(e.drop_last()) == Seq::<Seq<char>>::empty());
        assert(e.last() == Seq::<char>::empty());
        assert(trimmed_names(e) == Seq::<Seq<char>>::empty());
        assert(names =~= Seq::<Seq<char>>::empty());
    } else {
        lemma_join_spaced(names);
        let sp = spaced(names);
        assert forall|i: int| 0 <= i < sp.len() implies lacks(#[trigger] sp[i], ';') by {
            assert(lacks(names[i], ';'));
            if i > 0 {
                let m = seq![' '] + names[i];
                assert forall|j: int| 0 <= j < m.len() implies m[j] != ';' by {
                    if j > 0 {
                        assert(m[j] == names[i][j - 1]);
                    }
                }
            }
        }
        law_serialized_round_trip(sp);
        assert(split_on(join(names, "; "@), ';') == sp);
        lemma_trimmed_spaced(names);
    }
}

/// The pieces of the values, each value cut at `;` and each piece trimmed,
/// in order.
pub open spec fn trimmed_pieces(values: Seq<Seq<char>>) -> Seq<Seq<char>>
    decreases values.len(),
{
    if values.len() == 0 {
        Seq::empty()
    } else {
        trimmed_pieces(values.drop_last()) + split_on(values.last(), ';').map_values(
            |p: Seq<char>| str_trim(p),
        )
    }
}

/// `s` with every repeated value left out after its first occurrence.
pub open spec fn first_occurrences(s: Seq<Seq<char>>) -> Seq<Seq<char>>
    decreases s.len(),
{
    if s.len() == 0 {
        Seq::empty()
    } else {
        let r = first_occurrences(s.drop_last());
        if r.contains(s.last()) {
            r
        } else {
            r.push(s.last())
        }
    }
}

/// Pushing a value adds exactly that value to what a sequence contains.
proof fn lemma_push_contains(s: Seq<Seq<char>>, a: Seq<char>, x: Seq<char>)
    ensures
        s.push(a).contains(x) <==> (s.contains(x) || x == a),
{
    let t = s.push(a);
    if s.contains(x) {
        let k = choose|k: int| 0 <= k < s.len() && s[k] == x;
        assert(t[k] == x);
    }
    if x == a {
        assert(t[s.len() as int] == x);
    }
    if t.contains(x) {
        let k = choose|k: int| 0 <= k < t.len() && t[k] == x;
        if k < s.len() {
            assert(s[k] == x);
        }
    }
}

/// Law: keeping first occurrences lists every value of `s` exactly once.
pub proof fn law_first_occurrences(s: Seq<Seq<char>>)
    ensures
        first_occurrences(s).no_duplicates(),
        forall|x: Seq<char>| first_occurrences(s).contains(x) <==> s.contains(x),
    decreases s.len(),
{
    if s.len() > 0 {
        let d = s.drop_last();
        let a = s.last();
        law_first_occurrences(d);
        let r = first_occurrences(d);
        let f = first_occurrences(s);
        assert(s =~= d.push(a));
        assert forall|x: Seq<char>| s.contains(x) <==> (d.contains(x) || x == a) by {
            lemma_push_contains(d, a, x);
        }
        if r.contains(a) {
            assert(f == r);
        } else {
            assert(f == r.push(a));
            assert forall|x: Seq<char>| f.contains(x) <==> (r.contains(x) || x == a) by {
                lemma_push_contains(r, a, x);
            }
            assert forall|i: int, j: int| 0 <= i < f.len() && 0 <= j < f.len() && i != j implies f[i] != f[j] by {
                if i < r.len() && j < r.len() {
                    assert(r[i] == f[i] && r[j] == f[j]);
                } else if i < r.len() {
                    assert(r[i] == f[i]);
                    assert(f[j] == a);
                } else {
                    assert(r[j] == f[j]);
                    assert(f[i] == a);
                }
            }
        }
    }
}

/// The distinct pieces of the values: each value cut at `;`, each piece
/// trimmed, each result listed once, in the order first met.
pub fn distinct_values(values: &Vec<String>) -> (r: Vec<String>)
    ensures
        r.deep_view() == first_occurrences(trimmed_pieces(values.deep_view())),
{
    let ghost vals = values.deep_view();
    let mut r: Vec<String> = Vec::new();
    let mut i: usize = 0;
    while i < values.len()
        invariant
            i <= values@.len(),
            vals == values.deep_view(),
            r.deep_view() == first_occurrences(trimmed_pieces(vals.take(i as int))),
        decreases values.len() - i,
    {
        let parts = split_on_exec(values[i].as_str(), ';');
        let ghost pv = parts@.map_values(|v: Vec<char>| v@);
        let ghost tp = pv.map_values(|p: Seq<char>| str_trim(p));
        let ghost before = trimmed_pieces(vals.take(i as int));
        let mut j: usize = 0;
        assert(before + tp.take(0) =~= before);
        while j < parts.len()
            invariant
                j <= parts@.len(),
                pv == parts@.map_values(|v: Vec<char>| v@),
                tp == pv.map_values(|p: Seq<char>| str_trim(p)),
                r.deep_view() == first_occurrences(before + tp.take(j as int)),
            decreases parts.len() - j,
        {
            let t = trim(string_of(&parts[j]).as_str());
            let ghost flat = before + tp.take(j as int);
            proof {
                assert(tp[j as int] == str_trim(parts@[j as int]@));
                assert((before + tp.take(j + 1)).drop_last() =~= flat);
                assert((before + tp.take(j + 1)).last() == t@);
            }
            if !contains_string(&r, &t) {
                let ghost r0 = r.deep_view();
                r.push(t);
                assert(r.deep_view() =~= r0.push(tp[j as int]));
            }
            j = j + 1;
        }
        proof {
            assert(tp.take(tp.len() as int) =~= tp);
            assert(vals.take(i + 1).drop_last() =~= vals.take(i as int));
            assert(vals.take(i + 1).last() == values@[i as int]@);
            assert(pv == split_on(values@[i as int]@, ';'));
        }
        i = i + 1;
    }
    assert(vals.take(vals.len() as int) =~= vals);
    r
}

/// A further application that a game can start.
#[derive(Clone, Debug)]
pub struct AdditionalApp {
    pub id: String,
    pub name: String,
    pub application_path: String,
    pub launch_command: String,
    pub auto_run_before: bool,
    pub wait_for_exit: bool,
    pub parent_game_id: String,
}

/// A game.
#[derive(Clone, Debug)]
pub struct Game {
    pub id: String,
    pub library: String,
    pub title: String,
    pub alternate_titles: String,
    pub series: String,
    pub developer: String,
    pub publisher: String,
    pub primary_platform: String,
    pub platforms: TagVec,
    pub date_added: String,
    pub date_modified: String,
    pub detailed_platforms: Option<Vec<Tag>>,
    pub legacy_broken: bool,
    pub legacy_extreme: bool,
    pub play_mode: String,
    pub status: String,
    pub notes: String,
    pub tags: TagVec,
    pub detailed_tags: Option<Vec<Tag>>,
    pub source: String,
    pub legacy_application_path: String,
    pub legacy_launch_command: String,
    pub release_date: String,
    pub version: String,
    pub original_description: String,
    pub language: String,
    pub active_data_id: Option<i64>,
    pub active_data_on_disk: bool,
    pub last_played: Option<String>,
    pub playtime: i64,
    pub play_counter: i64,
    pub active_game_config_id: Option<i64>,
    pub active_game_config_owner: Option<String>,
    pub archive_state: i64,
    pub game_data: Option<Vec<GameData>>,
    pub add_apps: Option<Vec<AdditionalApp>>,
}

/// An edit of a game: its id, and the fields that are given.
#[derive(Clone, Debug)]
pub struct PartialGame {
    pub id: String,
    pub library: Option<String>,
    pub title: Option<String>,
    pub alternate_titles: Option<String>,
    pub series: Option<String>,
    pub developer: Option<String>,
    pub publisher: Option<String>,
    pub primary_platform: Option<String>,
    pub platforms: Option<TagVec>,
    pub date_added: Option<String>,
    pub date_modified: Option<String>,
    pub legacy_broken: Option<bool>,
    pub legacy_extreme: Option<bool>,
    pub play_mode: Option<String>,
    pub status: Option<String>,
    pub notes: Option<String>,
    pub tags: Option<TagVec>,
    pub source: Option<String>,
    pub legacy_application_path: Option<String>,
    pub legacy_launch_command: Option<String>,
    pub release_date: Option<String>,
    pub version: Option<String>,
    pub original_description: Option<String>,
    pub language: Option<String>,
    pub active_data_id: Option<i64>,
    pub active_data_on_disk: Option<bool>,
    pub last_played: Option<String>,
    pub playtime: Option<i64>,
    pub active_game_config_id: Option<i64>,
    pub active_game_config_owner: Option<String>,
    pub archive_state: Option<i64>,
    pub add_apps: Option<Vec<AdditionalApp>>,
}

/// A game that is now known by another id.
#[derive(Clone, Debug)]
pub struct GameRedirect {
    pub source_id: String,
    pub dest_id: String,
}

pub open spec fn names_or(o: Option<TagVec>, d: TagVec) -> Seq<Seq<char>> {
    match o {
        Some(t) => t.0.deep_view(),
        None => d.0.deep_view(),
    }
}

/// The platforms after an edit: the given platforms (or the old ones),
/// with a given primary platform added when it is missing.
pub open spec fn platforms_after(before: Game, p: PartialGame) -> Seq<Seq<char>> {
    let ps = names_or(p.platforms, before.platforms);
    match p.primary_platform {
        Some(pp) => names_with(ps, pp@),
        None => ps,
    }
}

/// The id and name fields after an edit: the id becomes the edit's (a
/// fresh one when the edit's is empty), given names replace the old ones,
/// and a given primary platform joins the platforms.
pub open spec fn names_edited(before: Game, p: PartialGame, after: Game) -> bool {
    &&& (if p.id@.len() == 0 {
        crate::stamp::uuid_v4_text(after.id@)
    } else {
        after.id == p.id
    })
    &&& after.library@ == str_or(p.library, before.library)
    &&& after.title@ == str_or(p.title, before.title)
    &&& after.alternate_titles@ == str_or(p.alternate_titles, before.alternate_titles)
    &&& after.series@ == str_or(p.series, before.series)
    &&& after.developer@ == str_or(p.developer, before.developer)
    &&& after.publisher@ == str_or(p.publisher, before.publisher)
    &&& after.platforms.0.deep_view() == platforms_after(before, p)
    &&& after.primary_platform@ == str_or(p.primary_platform, before.primary_platform)
}

/// The descriptive fields after an edit: given ones replace the old ones.
pub open spec fn texts_edited(before: Game, p: PartialGame, after: Game) -> bool {
    &&& after.date_added@ == str_or(p.date_added, before.date_added)
    &&& after.date_modified@ == str_or(p.date_modified, before.date_modified)
    &&& after.play_mode@ == str_or(p.play_mode, before.play_mode)
    &&& after.status@ == str_or(p.status, before.status)
    &&& after.notes@ == str_or(p.notes, before.notes)
    &&& after.tags.0.deep_view() == names_or(p.tags, before.tags)
    &&& after.source@ == str_or(p.source, before.source)
    &&& after.legacy_application_path@ == str_or(p.legacy_application_path, before.legacy_application_path)
    &&& after.legacy_launch_command@ == str_or(p.legacy_launch_command, before.legacy_launch_command)
    &&& after.release_date@ == str_or(p.release_date, before.release_date)
    &&& after.version@ == str_or(p.version, before.version)
    &&& after.original_description@ == str_or(p.original_description, before.original_description)
    &&& after.language@ == str_or(p.language, before.language)
}

/// The state fields after an edit: given ones replace the old ones.
pub open spec fn states_edited(before: Game, p: PartialGame, after: Game) -> bool {
    &&& after.legacy_broken == or_else(p.legacy_broken, before.legacy_broken)
    &&& after.legacy_extreme == or_else(p.legacy_extreme, before.legacy_extreme)
    &&& after.active_data_id == (match p.active_data_id {
        Some(x) => Some(x),
        None => before.active_data_id,
    })
    &&& after.active_data_on_disk == or_else(p.active_data_on_disk, before.active_data_on_disk)
    &&& opt_str_view(after.last_played) == opt_str_or(p.last_played, before.last_played)
    &&& after.playtime == or_else(p.playtime, before.playtime)
    &&& after.active_game_config_id == (match p.active_game_config_id {
        Some(x) => Some(x),
        None => before.active_game_config_id,
    })
    &&& opt_str_view(after.active_game_config_owner) == opt_str_or(
        p.active_game_config_owner,
        before.active_game_config_owner,
    )
    &&& after.archive_state == or_else(p.archive_state, before.archive_state)
}

/// The loaded relations, play count, data and additional applications are
/// the same.
pub open spec fn relations_kept(before: Game, after: Game) -> bool {
    &&& after.detailed_platforms == before.detailed_platforms
    &&& after.detailed_tags == before.detailed_tags
    &&& after.play_counter == before.play_counter
    &&& after.game_data == before.game_data
    &&& after.add_apps == before.add_apps
}

pub open spec fn same_names(a: Game, b: Game) -> bool {
    &&& b.id == a.id && b.library == a.library && b.title == a.title
    &&& b.alternate_titles == a.alternate_titles && b.series == a.series && b.developer == a.developer
    &&& b.publisher == a.publisher && b.platforms == a.platforms && b.primary_platform == a.primary_platform
}

pub open spec fn same_texts(a: Game, b: Game) -> bool {
    &&& b.date_added == a.date_added && b.date_modified == a.date_modified && b.play_mode == a.play_mode
    &&& b.status == a.status && b.notes == a.notes && b.tags == a.tags && b.source == a.source
    &&& b.legacy_application_path == a.legacy_application_path
    &&& b.legacy_launch_command == a.legacy_launch_command && b.release_date == a.release_date
    &&& b.version == a.version && b.original_description == a.original_description && b.language == a.language
}

pub open spec fn same_states(a: Game, b: Game) -> bool {
    &&& b.legacy_broken == a.legacy_broken && b.legacy_extreme == a.legacy_extreme
    &&& b.active_data_id == a.active_data_id && b.active_data_on_disk == a.active_data_on_disk
    &&& b.last_played == a.last_played && b.playtime == a.playtime
    &&& b.active_game_config_id == a.active_game_config_id
    &&& b.active_game_config_owner == a.active_game_config_owner && b.archive_state == a.archive_state
}

/// `after` is `before` with the edit `p` applied (see the three parts);
/// the loaded relations, play count, data and additional applications are
/// kept.
pub open spec fn game_edited(before: Game, p: PartialGame, after: Game) -> bool {
    &&& names_edited(before, p, after)
    &&& texts_edited(before, p, after)
    &&& states_edited(before, p, after)
    &&& relations_kept(before, after)
}

/// `p` is the edit made from `g`: every field of `g` given, the platforms
/// with the primary platform added when missing.
pub open spec fn game_as_edit(g: Game, p: PartialGame) -> bool {
    &&& p.id == g.id
    &&& p.library == Some(g.library)
    &&& p.title == Some(g.title)
    &&& p.alternate_titles == Some(g.alternate_titles)
    &&& p.series == Some(g.series)
    &&& p.developer == Some(g.developer)
    &&& p.publisher == Some(g.publisher)
    &&& p.primary_platform == Some(g.primary_platform)
    &&& match p.platforms {
        Some(t) => t.0.deep_view() == names_with(g.platforms.0.deep_view(), g.primary_platform@),
        None => false,
    }
    &&& p.date_added == Some(g.date_added)
    &&& p.date_modified == Some(g.date_modified)
    &&& p.legacy_broken == Some(g.legacy_broken)
    &&& p.legacy_extreme == Some(g.legacy_extreme)
    &&& p.play_mode == Some(g.play_mode)
    &&& p.status == Some(g.status)
    &&& p.notes == Some(g.notes)
    &&& p.tags == Some(g.tags)
    &&& p.source == Some(g.source)
    &&& p.legacy_application_path == Some(g.legacy_application_path)
    &&& p.legacy_launch_command == Some(g.legacy_launch_command)
    &&& p.release_date == Some(g.release_date)
    &&& p.version == Some(g.version)
    &&& p.original_description == Some(g.original_description)
    &&& p.language == Some(g.language)
    &&& p.active_data_id == g.active_data_id
    &&& p.active_data_on_disk == Some(g.active_data_on_disk)
    &&& p.last_played == g.last_played
    &&& p.playtime == Some(g.playtime)
    &&& p.active_game_config_id == g.active_game_config_id
    &&& p.active_game_config_owner == g.active_game_config_owner
    &&& p.archive_state == Some(g.archive_state)
    &&& p.add_apps == g.add_apps
}

fn pick(o: &Option<String>, d: &mut String)
    ensures
        final(d)@ == str_or(*o, *old(d)),
{
    match o {
        Some(s) => *d = s.clone(),
        None => {},
    }
}

/// Whether `g` is a new game: a random id (see `uuid_v4_text`), added and
/// modified dates that are times (see `timestamp_text`), the `arcade`
/// library, and everything else empty.
pub open spec fn fresh_game(g: Game) -> bool {
    &&& crate::stamp::uuid_v4_text(g.id@)
    &&& crate::stamp::timestamp_text(g.date_added@)
    &&& crate::stamp::timestamp_text(g.date_modified@)
    &&& empty_game(g)
}

/// Whether `g` holds the `arcade` library and nothing else (its id and its
/// added and modified dates aside).
pub open spec fn empty_game(g: Game) -> bool {
    &&& g.library@ == "arcade"@
    &&& g.title@.len() == 0 && g.alternate_titles@.len() == 0 && g.series@.len() == 0
    &&& g.developer@.len() == 0 && g.publisher@.len() == 0 && g.primary_platform@.len() == 0
    &&& g.platforms.0@.len() == 0 && g.tags.0@.len() == 0
    &&& g.detailed_platforms is None && g.detailed_tags is None
    &&& !g.legacy_broken && !g.legacy_extreme
    &&& g.play_mode@.len() == 0 && g.status@.len() == 0 && g.notes@.len() == 0 && g.source@.len() == 0
    &&& g.legacy_application_path@.len() == 0 && g.legacy_launch_command@.len() == 0
    &&& g.release_date@.len() == 0 && g.version@.len() == 0
    &&& g.original_description@.len() == 0 && g.language@.len() == 0
    &&& g.active_data_id is None && !g.active_data_on_disk && g.last_played is None
    &&& g.playtime == 0 && g.play_counter == 0 && g.archive_state == 0
    &&& g.active_game_config_id is None && g.active_game_config_owner is None
    &&& g.game_data is None && g.add_apps is None
}

impl Game {
    /// A new game: a fresh id, the `arcade` library, added and modified
    /// now, everything else empty.
    pub fn new() -> (r: Game)
        ensures
            fresh_game(r),
    {
        Game::new_at(crate::stamp::new_id(), crate::stamp::now_text())
    }

    /// A new game with the given id, added and modified at `now`: the
    /// `arcade` library and everything else empty.
    pub fn new_at(id: String, now: String) -> (r: Game)
        ensures
            empty_game(r),
            r.id == id,
            r.date_added@ == now@,
            r.date_modified@ == now@,
    {
        Game {
            id: id,
            library: string_of(&crate::text::to_chars("arcade")),
            title: String::new(),
            alternate_titles: String::new(),
            series: String::new(),
            developer: String::new(),
            publisher: String::new(),
            primary_platform: String::new(),
            platforms: TagVec::new(),
            date_added: now.clone(),
            date_modified: now,
            detailed_platforms: None,
            legacy_broken: false,
            legacy_extreme: false,
            play_mode: String::new(),
            status: String::new(),
            notes: String::new(),
            tags: TagVec::new(),
            detailed_tags: None,
            source: String::new(),
            legacy_application_path: String::new(),
            legacy_launch_command: String::new(),
            release_date: String::new(),
            version: String::new(),
            original_description: String::new(),
            language: String::new(),
            active_data_id: None,
            active_data_on_disk: false,
            last_played: None,
            playtime: 0,
            play_counter: 0,
            active_game_config_id: None,
            active_game_config_owner: None,
            archive_state: 0,
            game_data: None,
            add_apps: None,
        }
    }

    fn apply_names(&mut self, source: &PartialGame)
        ensures
            names_edited(*old(self), *source, *final(self)),
            same_texts(*old(self), *final(self)),
            same_states(*old(self), *final(self)),
            relations_kept(*old(self), *final(self)),
    {
        if source.id.as_str().unicode_len() == 0 {
            self.id = crate::stamp::new_id();
        } else {
            self.id = source.id.clone();
        }
        pick(&source.library, &mut self.library);
        pick(&source.title, &mut self.title);
        pick(&source.alternate_titles, &mut self.alternate_titles);
        pick(&source.series, &mut self.series);
        pick(&source.developer, &mut self.developer);
        pick(&source.publisher, &mut self.publisher);
        match &source.platforms {
            Some(p) => self.platforms = TagVec(crate::game::search::filter::clone_strings(&p.0)),
            None => {},
        }
        match &source.primary_platform {
            Some(pp) => {
                if !self.platforms.contains(pp) {
                    self.platforms.push(pp.clone());
                }
                self.primary_platform = pp.clone();
            },
            None => {},
        }
    }

    fn apply_texts(&mut self, source: &PartialGame)
        ensures
            same_names(*old(self), *final(self)),
            texts_edited(*old(self), *source, *final(self)),
            same_states(*old(self), *final(self)),
            relations_kept(*old(self), *final(self)),
    {
        pick(&source.date_added, &mut self.date_added);
        pick(&source.date_modified, &mut self.date_modified);
        pick(&source.play_mode, &mut self.play_mode);
        pick(&source.status, &mut self.status);
        pick(&source.notes, &mut self.notes);
        match &source.tags {
            Some(t) => self.tags = TagVec(crate::game::search::filter::clone_strings(&t.0)),
            None => {},
        }
        pick(&source.source, &mut self.source);
        pick(&source.legacy_application_path, &mut self.legacy_application_path);
        pick(&source.legacy_launch_command, &mut self.legacy_launch_command);
        pick(&source.release_date, &mut self.release_date);
        pick(&source.version, &mut self.version);
        pick(&source.original_description, &mut self.original_description);
        pick(&source.language, &mut self.language);
    }

    fn apply_states(&mut self, source: &PartialGame)
        ensures
            same_names(*old(self), *final(self)),
            same_texts(*old(self), *final(self)),
            states_edited(*old(self), *source, *final(self)),
            relations_kept(*old(self), *final(self)),
    {
        if let Some(b) = source.legacy_broken {
            self.legacy_broken = b;
        }
        if let Some(b) = source.legacy_extreme {
            self.legacy_extreme = b;
        }
        if let Some(x) = source.active_data_id {
            self.active_data_id = Some(x);
        }
        if let Some(b) = source.active_data_on_disk {
            self.active_data_on_disk = b;
        }
        if let Some(s) = &source.last_played {
            self.last_played = Some(s.clone());
        }
        if let Some(x) = source.playtime {
            self.playtime = x;
        }
        if let Some(x) = source.active_game_config_id {
            self.active_game_config_id = Some(x);
        }
        if let Some(s) = &source.active_game_config_owner {
            self.active_game_config_owner = Some(s.clone());
        }
        if let Some(x) = source.archive_state {
            self.archive_state = x;
        }
    }

    /// Applies an edit (see `game_edited`).
    pub fn apply_partial(&mut self, source: &PartialGame)
        ensures
            game_edited(*old(self), *source, *final(self)),
    {
        self.apply_names(source);
        self.apply_texts(source);
        self.apply_states(source);
    }

    /// A new game (see `new`) with the edit applied.
    pub fn from_partial(source: &PartialGame) -> (r: Game)
        ensures
            exists|before: Game| fresh_game(before) && game_edited(before, *source, r),
    {
        let mut game = Game::new();
        let ghost before = game;
        game.apply_partial(source);
        assert(fresh_game(before) && game_edited(before, *source, game));
        game
    }

    /// Records one play of `seconds`: one more play, the time added, and the
    /// current time as the last play.
    pub fn record_play(&mut self, seconds: i64)
        requires
            old(self).play_counter < i64::MAX,
            i64::MIN <= old(self).playtime + seconds <= i64::MAX,
        ensures
            final(self).play_counter == old(self).play_counter + 1,
            final(self).playtime == old(self).playtime + seconds,
            final(self).last_played matches Some(t) && crate::stamp::timestamp_text(t@),
            *final(self) == (Game {
                play_counter: final(self).play_counter,
                playtime: final(self).playtime,
                last_played: final(self).last_played,
                ..*old(self)
            }),
    {
        self.record_play_at(seconds, crate::stamp::now_text());
    }

    /// Records one play of `seconds` made at `now`: one more play, the time
    /// added, and `now` as the last play.
    pub fn record_play_at(&mut self, seconds: i64, now: String)
        requires
            old(self).play_counter < i64::MAX,
            i64::MIN <= old(self).playtime + seconds <= i64::MAX,
        ensures
            *final(self) == (Game {
                play_counter: (old(self).play_counter + 1) as i64,
                playtime: (old(self).playtime + seconds) as i64,
                last_played: Some(now),
                ..*old(self)
            }),
    {
        self.play_counter = self.play_counter + 1;
        self.playtime = self.playtime + seconds;
        self.last_played = Some(now);
    }
}

impl PartialGame {
    /// An edit with an empty id and no field given.
    pub fn new() -> (r: PartialGame)
        ensures
            r.id@.len() == 0,
            r.library is None && r.title is None && r.alternate_titles is None && r.series is None,
            r.developer is None && r.publisher is None && r.primary_platform is None && r.platforms is None,
            r.date_added is None && r.date_modified is None && r.legacy_broken is None && r.legacy_extreme is None,
            r.play_mode is None && r.status is None && r.notes is None && r.tags is None && r.source is None,
            r.legacy_application_path is None && r.legacy_launch_command is None && r.release_date is None,
            r.version is None && r.original_description is None && r.language is None,
            r.active_data_id is None && r.active_data_on_disk is None && r.last_played is None,
            r.playtime is None && r.active_game_config_id is None && r.active_game_config_owner is None,
            r.archive_state is None && r.add_apps is None,
    {
        PartialGame {
            id: String::new(),
            library: None,
            title: None,
            alternate_titles: None,
            series: None,
            developer: None,
            publisher: None,
            primary_platform: None,
            platforms: None,
            date_added: None,
            date_modified: None,
            legacy_broken: None,
            legacy_extreme: None,
            play_mode: None,
            status: None,
            notes: None,
            tags: None,
            source: None,
            legacy_application_path: None,
            legacy_launch_command: None,
            release_date: None,
            version: None,
            original_description: None,
            language: None,
            active_data_id: None,
            active_data_on_disk: None,
            last_played: None,
            playtime: None,
            active_game_config_id: None,
            active_game_config_owner: None,
            archive_state: None,
            add_apps: None,
        }
    }

    /// The edit that sets every field of a game (see `game_as_edit`).
    pub fn from_game(game: Game) -> (r: PartialGame)
        ensures
            game_as_edit(game, r),
    {
        let mut plats = TagVec(crate::game::search::filter::clone_strings(&game.platforms.0));
        if !plats.contains(&game.primary_platform) {
            plats.push(game.primary_platform.clone());
        }
        PartialGame {
            id: game.id,
            library: Some(game.library),
            title: Some(game.title),
            alternate_titles: Some(game.alternate_titles),
            series: Some(game.series),
            developer: Some(game.developer),
            publisher: Some(game.publisher),
            primary_platform: Some(game.primary_platform),
            platforms: Some(plats),
            date_added: Some(game.date_added),
            date_modified: Some(game.date_modified),
            legacy_broken: Some(game.legacy_broken),
            legacy_extreme: Some(game.legacy_extreme),
            play_mode: Some(game.play_mode),
            status: Some(game.status),
            notes: Some(game.notes),
            tags: Some(game.tags),
            source: Some(game.source),
            legacy_application_path: Some(game.legacy_application_path),
            legacy_launch_command: Some(game.legacy_launch_command),
            release_date: Some(game.release_date),
            version: Some(game.version),
            original_description: Some(game.original_description),
            language: Some(game.language),
            active_data_id: game.active_data_id,
            active_data_on_disk: Some(game.active_data_on_disk),
            last_played: game.last_played,
            playtime: Some(game.playtime),
            active_game_config_id: game.active_game_config_id,
            active_game_config_owner: game.active_game_config_owner,
            archive_state: Some(game.archive_state),
            add_apps: game.add_apps,
        }
    }

    /// Gives the edit the current time as its modification date, unless it
    /// carries one.
    pub fn stamp_modified(&mut self)
        ensures
            old(self).date_modified is Some ==> *final(self) == *old(self),
            final(self).date_modified is Some,
            old(self).date_modified is None ==> (final(self).date_modified matches Some(t)
                && crate::stamp::timestamp_text(t@)),
            *final(self) == (PartialGame { date_modified: final(self).date_modified, ..*old(self) }),
    {
        if self.date_modified.is_none() {
            self.stamp_modified_at(crate::stamp::now_text());
        }
    }

    /// Gives the edit `now` as its modification date, unless it carries one.
    pub fn stamp_modified_at(&mut self, now: String)
        ensures
            *final(self) == (PartialGame {
                date_modified: match old(self).date_modified {
                    Some(d) => Some(d),
                    None => Some(now),
                },
                ..*old(self)
            }),
    {
        if self.date_modified.is_none() {
            self.date_modified = Some(now);
        }
    }
}

impl Default for Game {
    fn default() -> (r: Game)
        ensures
            fresh_game(r),
    {
        Game::new()
    }
}

impl Default for PartialGame {
    fn default() -> (r: PartialGame)
        ensures
            r.id@.len() == 0,
            r.library is None && r.title is None && r.platforms is None && r.tags is None,
    {
        PartialGame::new()
    }
}

/// Adding a name to names that already hold it changes nothing.
pub proof fn lemma_names_with_idempotent(names: Seq<Seq<char>>, n: Seq<char>)
    ensures
        names_with(names, n).contains(n),
        names_with(names_with(names, n), n) == names_with(names, n),
{
    if !names.contains(n) {
        assert(names.push(n)[names.len() as int] == n);
    }
}

/// The edit made from a game (with a non-empty id), applied to any game,
/// gives back that game's id and fields; its platforms come back with the
/// primary platform among them.
pub proof fn law_game_edit_round_trip(g: Game, p: PartialGame, before: Game, after: Game)
    requires
        g.id@.len() > 0,
        game_as_edit(g, p),
        game_edited(before, p, after),
    ensures
        after.id == g.id,
        after.library@ == g.library@ && after.title@ == g.title@ && after.alternate_titles@ == g.alternate_titles@,
        after.series@ == g.series@ && after.developer@ == g.developer@ && after.publisher@ == g.publisher@,
        after.primary_platform@ == g.primary_platform@,
        after.platforms.0.deep_view() == names_with(g.platforms.0.deep_view(), g.primary_platform@),
        after.date_added@ == g.date_added@ && after.date_modified@ == g.date_modified@,
        after.legacy_broken == g.legacy_broken && after.legacy_extreme == g.legacy_extreme,
        after.play_mode@ == g.play_mode@ && after.status@ == g.status@ && after.notes@ == g.notes@,
        after.tags.0.deep_view() == g.tags.0.deep_view(),
        after.source@ == g.source@ && after.release_date@ == g.release_date@ && after.version@ == g.version@,
        after.legacy_application_path@ == g.legacy_application_path@,
        after.legacy_launch_command@ == g.legacy_launch_command@,
        after.original_description@ == g.original_description@ && after.language@ == g.language@,
        after.active_data_on_disk == g.active_data_on_disk && after.playtime == g.playtime,
        after.archive_state == g.archive_state,
        g.active_data_id is Some ==> after.active_data_id == g.active_data_id,
        g.last_played is Some ==> opt_str_view(after.last_played) == opt_str_view(g.last_played),
{
    lemma_names_with_idempotent(g.platforms.0.deep_view(), g.primary_platform@);
}

/// Law: a game built from the edit made from `g` (a new game with that edit
/// applied, as `from_partial` builds it) is `g` again in every field an
/// edit carries, its platforms with the primary one among them, including
/// the optional ones `g` leaves unset; its play count is 0 and no relation
/// is loaded.
pub proof fn law_built_game_round_trip(g: Game, p: PartialGame, before: Game, after: Game)
    requires
        g.id@.len() > 0,
        game_as_edit(g, p),
        fresh_game(before),
        game_edited(before, p, after),
    ensures
        after.id == g.id,
        after.active_data_id == g.active_data_id,
        opt_str_view(after.last_played) == opt_str_view(g.last_played),
        after.active_game_config_id == g.active_game_config_id,
        opt_str_view(after.active_game_config_owner) == opt_str_view(g.active_game_config_owner),
        after.playtime == g.playtime && after.archive_state == g.archive_state,
        after.platforms.0.deep_view() == names_with(g.platforms.0.deep_view(), g.primary_platform@),
        after.play_counter == 0,
        after.detailed_platforms is None && after.detailed_tags is None,
        after.game_data is None && after.add_apps is None,
{
    law_game_edit_round_trip(g, p, before, after);
}

/// An edit that gives nothing but the game's own id leaves every field of
/// the game as it was.
pub proof fn law_empty_edit_keeps_game(before: Game, p: PartialGame, after: Game)
    requires
        p.id == before.id,
        p.id@.len() > 0,
        p.library is None && p.title is None && p.alternate_titles is None && p.series is None,
        p.developer is None && p.publisher is None && p.primary_platform is None && p.platforms is None,
        p.date_added is None && p.date_modified is None && p.legacy_broken is None && p.legacy_extreme is None,
        p.play_mode is None && p.status is None && p.notes is None && p.tags is None && p.source is None,
        p.legacy_application_path is None && p.legacy_launch_command is None && p.release_date is None,
        p.version is None && p.original_description is None && p.language is None,
        p.active_data_id is None && p.active_data_on_disk is None && p.last_played is None,
        p.playtime is None && p.active_game_config_id is None && p.active_game_config_owner is None,
        p.archive_state is None,
        game_edited(before, p, after),
    ensures
        after.id == before.id,
        after.title@ == before.title@ && after.library@ == before.library@,
        after.platforms.0.deep_view() == before.platforms.0.deep_view(),
        after.tags.0.deep_view() == before.tags.0.deep_view(),
        after.primary_platform@ == before.primary_platform@,
        after.playtime == before.playtime && after.archive_state == before.archive_state,
        after.active_data_id == before.active_data_id,
        opt_str_view(after.last_played) == opt_str_view(before.last_played),
{
}

} // verus!
