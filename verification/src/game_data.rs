//! Game data: the downloadable content packs of a game, and their edits.
use vstd::prelude::*;
use crate::tag::{opt_str_view, str_or};

verus! {

/// One content pack of a game.
#[derive(Clone, Debug)]
pub struct GameData {
    pub id: i64,
    pub game_id: String,
    pub title: String,
    pub date_added: String,
    pub sha256: String,
    pub crc32: i32,
    pub present_on_disk: bool,
    pub path: Option<String>,
    pub size: i64,
    pub parameters: Option<String>,
    pub application_path: String,
    pub launch_command: String,
}

/// An edit of a content pack: the fields that are given.
#[derive(Clone, Debug)]
pub struct PartialGameData {
    pub id: Option<i64>,
    pub game_id: String,
    pub title: Option<String>,
    pub date_added: Option<String>,
    pub sha256: Option<String>,
    pub crc32: Option<i32>,
    pub present_on_disk: Option<bool>,
    pub path: Option<String>,
    pub size: Option<i64>,
    pub parameters: Option<String>,
    pub application_path: Option<String>,
    pub launch_command: Option<String>,
}

pub open spec fn or_else<T>(o: Option<T>, d: T) -> T {
    match o {
        Some(v) => v,
        None => d,
    }
}

pub open spec fn opt_str_or(o: Option<String>, d: Option<String>) -> Option<Seq<char>> {
    match o {
        Some(s) => Some(s@),
        None => opt_str_view(d),
    }
}

/// `after` is `before` with the given fields of `p` written over it; the
/// game it belongs to is kept.
pub open spec fn game_data_edited(before: GameData, p: PartialGameData, after: GameData) -> bool {
    &&& after.id == or_else(p.id, before.id)
    &&& after.game_id == before.game_id
    &&& after.title@ == str_or(p.title, before.title)
    &&& after.date_added@ == str_or(p.date_added, before.date_added)
    &&& after.sha256@ == str_or(p.sha256, before.sha256)
    &&& after.crc32 == or_else(p.crc32, before.crc32)
    &&& after.size == or_else(p.size, before.size)
    &&& after.present_on_disk == or_else(p.present_on_disk, before.present_on_disk)
    &&& opt_str_view(after.path) == opt_str_or(p.path, before.path)
    &&& opt_str_view(after.parameters) == opt_str_or(p.parameters, before.parameters)
    &&& after.application_path@ == str_or(p.application_path, before.application_path)
    &&& after.launch_command@ == str_or(p.launch_command, before.launch_command)
}

/// The edit that sets every field of `d`.
pub open spec fn game_data_as_edit(d: GameData) -> PartialGameData {
    PartialGameData {
        id: Some(d.id),
        game_id: d.game_id,
        title: Some(d.title),
        date_added: Some(d.date_added),
        sha256: Some(d.sha256),
        crc32: Some(d.crc32),
        present_on_disk: Some(d.present_on_disk),
        path: d.path,
        size: Some(d.size),
        parameters: d.parameters,
        application_path: Some(d.application_path),
        launch_command: Some(d.launch_command),
    }
}

impl GameData {
    /// Applies an edit (see `game_data_edited`).
    pub fn apply_partial(&mut self, value: &PartialGameData)
        ensures
            game_data_edited(*old(self), *value, *final(self)),
    {
        if let Some(id) = value.id {
            self.id = id;
        }
        if let Some(title) = &value.title {
            self.title = title.clone();
        }
        if let Some(date_added) = &value.date_added {
            self.date_added = date_added.clone();
        }
        if let Some(sha256) = &value.sha256 {
            self.sha256 = sha256.clone();
        }
        if let Some(crc32) = value.crc32 {
            self.crc32 = crc32;
        }
        if let Some(size) = value.size {
            self.size = size;
        }
        if let Some(present_on_disk) = value.present_on_disk {
            self.present_on_disk = present_on_disk;
        }
        if let Some(path) = &value.path {
            self.path = Some(path.clone());
        }
        if let Some(parameters) = &value.parameters {
            self.parameters = Some(parameters.clone());
        }
        if let Some(application_path) = &value.application_path {
            self.application_path = application_path.clone();
        }
        if let Some(launch_command) = &value.launch_command {
            self.launch_command = launch_command.clone();
        }
    }

    /// A new content pack: id -1, no game, added now, everything else empty.
    pub fn new() -> (r: GameData)
        ensures
            crate::stamp::timestamp_text(r.date_added@),
            r.id == -1,
            r.game_id@.len() == 0,
            r.title@.len() == 0,
            r.sha256@.len() == 0,
            r.crc32 == 0,
            r.size == 0,
            !r.present_on_disk,
            r.path is None,
            r.parameters is None,
            r.application_path@.len() == 0,
            r.launch_command@.len() == 0,
    {
        GameData::new_at(crate::stamp::now_text())
    }

    /// A new content pack added at `now`: id -1, no game, everything else
    /// empty.
    pub fn new_at(now: String) -> (r: GameData)
        ensures
            r.id == -1,
            r.game_id@.len() == 0,
            r.title@.len() == 0,
            r.date_added == now,
            r.sha256@.len() == 0,
            r.crc32 == 0,
            r.size == 0,
            !r.present_on_disk,
            r.path is None,
            r.parameters is None,
            r.application_path@.len() == 0,
            r.launch_command@.len() == 0,
    {
        GameData {
            id: -1,
            game_id: String::new(),
            title: String::new(),
            date_added: now,
            sha256: String::new(),
            crc32: 0,
            size: 0,
            present_on_disk: false,
            path: None,
            parameters: None,
            application_path: String::new(),
            launch_command: String::new(),
        }
    }

    /// A new content pack of the edit's game, with the edit applied.
    pub fn from_partial(value: &PartialGameData) -> (r: GameData)
        ensures
            exists|before: GameData|
                before.id == -1 && before.game_id == value.game_id && before.title@.len() == 0
                    && before.sha256@.len() == 0 && before.crc32 == 0 && before.size == 0 && !before.present_on_disk
                    && before.path is None && before.parameters is None && before.application_path@.len() == 0
                    && before.launch_command@.len() == 0 && game_data_edited(before, *value, r),
    {
        let mut data = GameData::new();
        data.game_id = value.game_id.clone();
        let ghost before = data;
        data.apply_partial(value);
        data
    }
}

impl Default for GameData {
    fn default() -> (r: GameData)
        ensures
            r.id == -1,
            r.game_id@.len() == 0,
            r.title@.len() == 0,
            r.sha256@.len() == 0,
            r.crc32 == 0,
            r.size == 0,
            !r.present_on_disk,
            r.path is None,
            r.parameters is None,
            r.application_path@.len() == 0,
            r.launch_command@.len() == 0,
    {
        GameData::new()
    }
}

impl PartialGameData {
    /// The edit that sets every field of a content pack.
    pub fn from_game_data(value: GameData) -> (r: PartialGameData)
        ensures
            r == game_data_as_edit(value),
    {
        PartialGameData {
            id: Some(value.id),
            game_id: value.game_id,
            title: Some(value.title),
            date_added: Some(value.date_added),
            sha256: Some(value.sha256),
            crc32: Some(value.crc32),
            present_on_disk: Some(value.present_on_disk),
            path: value.path,
            size: Some(value.size),
            parameters: value.parameters,
            application_path: Some(value.application_path),
            launch_command: Some(value.launch_command),
        }
    }
}

/// Applying to a content pack of the same game the edit made from `d` gives
/// back `d`, field for field.
pub proof fn law_game_data_edit_round_trip(d: GameData, before: GameData, after: GameData)
    requires
        before.game_id == d.game_id,
        game_data_edited(before, game_data_as_edit(d), after),
    ensures
        after.id == d.id,
        after.game_id == d.game_id,
        after.title@ == d.title@,
        after.date_added@ == d.date_added@,
        after.sha256@ == d.sha256@,
        after.crc32 == d.crc32,
        after.size == d.size,
        after.present_on_disk == d.present_on_disk,
        after.application_path@ == d.application_path@,
        after.launch_command@ == d.launch_command@,
        d.path is Some ==> opt_str_view(after.path) == opt_str_view(d.path),
        d.parameters is Some ==> opt_str_view(after.parameters) == opt_str_view(d.parameters),
{
}

/// Applying an edit that gives no field leaves a content pack as it was.
pub proof fn law_empty_edit_keeps_game_data(before: GameData, p: PartialGameData, after: GameData)
    requires
        p.id is None && p.title is None && p.date_added is None && p.sha256 is None && p.crc32 is None
            && p.present_on_disk is None && p.path is None && p.size is None && p.parameters is None
            && p.application_path is None && p.launch_command is None,
        game_data_edited(before, p, after),
    ensures
        after.id == before.id,
        after.title@ == before.title@,
        after.date_added@ == before.date_added@,
        after.sha256@ == before.sha256@,
        after.crc32 == before.crc32,
        after.size == before.size,
        after.present_on_disk == before.present_on_disk,
        opt_str_view(after.path) == opt_str_view(before.path),
        opt_str_view(after.parameters) == opt_str_view(before.parameters),
        after.application_path@ == before.application_path@,
        after.launch_command@ == before.launch_command@,
{
}

} // verus!
