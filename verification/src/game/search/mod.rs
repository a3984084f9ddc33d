//! Game search: the search request model, the user-input parser and the SQL
//! query builder.
pub mod coerce;
pub mod filter;
pub mod laws;
pub mod parse;
pub mod parser;
pub mod placeholders;
pub mod spans;
pub mod query;
pub mod statements;
pub mod terms;

pub use parser::parse_user_input;
pub use crate::game::extmap::InsertOrGet;

use vstd::prelude::*;

verus! {

/// Columns a search can be ordered by.
#[allow(non_camel_case_types)]
#[derive(Clone, Copy, Debug, PartialEq, Eq, Structural)]
pub enum GameSearchSortable {
    TITLE,
    DEVELOPER,
    PUBLISHER,
    SERIES,
    PLATFORM,
    DATEADDED,
    DATEMODIFIED,
    RELEASEDATE,
    LASTPLAYED,
    PLAYTIME,
    RANDOM,
    CUSTOM,
}

/// Ordering direction.
#[allow(non_camel_case_types)]
#[derive(Clone, Copy, Debug, PartialEq, Eq, Structural)]
pub enum GameSearchDirection {
    ASC,
    DESC,
}

#[derive(Clone, Copy, Debug)]
pub struct GameSearchOrder {
    pub column: GameSearchSortable,
    pub direction: GameSearchDirection,
}

/// Which related records a search loads with each game.
#[derive(Clone, Copy, Debug)]
pub struct GameSearchRelations {
    pub tags: bool,
    pub platforms: bool,
    pub game_data: bool,
    pub add_apps: bool,
    pub ext_data: bool,
}

/// A JSON value as the search model carries it. `Real` holds the decimal
/// text of a non-integer number; `Other` the JSON text of an array or object.
#[derive(Clone, Debug)]
pub enum JsonValue {
    Null,
    Bool(bool),
    Integer(i64),
    Real(String),
    Text(String),
    Other(String),
}

/// Keyset pagination: the order value, title and id of the last game seen.
#[derive(Clone, Debug)]
pub struct GameSearchOffset {
    pub value: JsonValue,
    pub title: String,
    pub game_id: String,
}

/// Ordering by a value stored in an extension's data; `default` is the JSON
/// text used where a game has no such value.
#[derive(Clone, Debug)]
pub struct GameSearchOrderExt {
    pub ext_id: String,
    pub key: String,
    pub default: String,
}

/// Extension terms: extension id, then key, then values.
pub type ExtStrings = Vec<(String, Vec<(String, Vec<String>)>)>;

/// Extension numbers: extension id, then key, then value.
pub type ExtNumbers = Vec<(String, Vec<(String, i64)>)>;

/// Extension flags: extension id, then key, then value.
pub type ExtBools = Vec<(String, Vec<(String, bool)>)>;

/// Text matchers, one optional list per field.
#[derive(Clone, Debug)]
pub struct FieldFilter {
    pub id: Option<Vec<String>>,
    pub generic: Option<Vec<String>>,
    pub library: Option<Vec<String>>,
    pub title: Option<Vec<String>>,
    pub developer: Option<Vec<String>>,
    pub publisher: Option<Vec<String>>,
    pub series: Option<Vec<String>>,
    pub tags: Option<Vec<String>>,
    pub platforms: Option<Vec<String>>,
    pub play_mode: Option<Vec<String>>,
    pub status: Option<Vec<String>>,
    pub notes: Option<Vec<String>>,
    pub source: Option<Vec<String>>,
    pub original_description: Option<Vec<String>>,
    pub language: Option<Vec<String>>,
    pub application_path: Option<Vec<String>>,
    pub launch_command: Option<Vec<String>>,
    pub ruffle_support: Option<Vec<String>>,
    pub ext: Option<ExtStrings>,
}

/// Boolean matchers.
#[derive(Clone, Debug)]
pub struct BoolFilter {
    pub installed: Option<bool>,
    pub ext: Option<ExtBools>,
}

/// Numeric and date comparisons (the comparison itself is given by the
/// filter slot that holds this value).
#[derive(Clone, Debug)]
pub struct SizeFilter {
    pub tags: Option<i64>,
    pub platforms: Option<i64>,
    pub date_added: Option<String>,
    pub date_modified: Option<String>,
    pub release_date: Option<String>,
    pub game_data: Option<i64>,
    pub add_apps: Option<i64>,
    pub playtime: Option<i64>,
    pub playcount: Option<i64>,
    pub last_played: Option<String>,
    pub ext: Option<ExtNumbers>,
}

/// A filter over games: its own matchers, combined with AND (or with OR when
/// `match_any`), together with nested filters.
#[derive(Debug)]
pub struct GameFilter {
    pub subfilters: Vec<GameFilter>,
    pub whitelist: FieldFilter,
    pub blacklist: FieldFilter,
    pub exact_whitelist: FieldFilter,
    pub exact_blacklist: FieldFilter,
    pub lower_than: SizeFilter,
    pub higher_than: SizeFilter,
    pub equal_to: SizeFilter,
    pub bool_comp: BoolFilter,
    pub match_any: bool,
}

/// A complete search request.
#[derive(Debug)]
pub struct GameSearch {
    pub filter: GameFilter,
    pub load_relations: GameSearchRelations,
    pub custom_id_order: Option<Vec<String>>,
    pub order: GameSearchOrder,
    pub ext_order: Option<GameSearchOrderExt>,
    pub offset: Option<GameSearchOffset>,
    pub limit: i64,
    pub slim: bool,
    pub with_tag_filter: Option<Vec<String>>,
}

/// One entry of a search index: a page boundary.
#[derive(Clone, Debug)]
pub struct PageTuple {
    pub id: String,
    pub order_val: JsonValue,
    pub title: String,
}

/// A value bound to a `?` placeholder of a generated query. `Real` holds
/// the decimal text of a floating-point parameter.
#[derive(Clone, Debug)]
pub enum SearchParam {
    Boolean(bool),
    String(String),
    StringVec(Vec<String>),
    Integer64(i64),
    Real(String),
}

/// The stored state of the tag filter index.
#[derive(Clone, Debug)]
pub struct TagFilterInfo {
    pub key: String,
    pub dirty: bool,
}

/// What a highlighted span of user input is.
#[allow(non_camel_case_types)]
#[derive(Clone, Copy, Debug, PartialEq, Eq, Structural)]
pub enum ElementType {
    MODIFIER,
    KEY,
    KEYCHAR,
    VALUE,
}

/// A span of user input, in bytes.
#[derive(Clone, Debug)]
pub struct ElementPosition {
    pub element: ElementType,
    pub value: String,
    pub start: i32,
    pub end: i32,
}

/// A parsed user search, with the spans it was made of.
#[derive(Debug)]
pub struct ParsedInput {
    pub search: GameSearch,
    pub positions: Vec<ElementPosition>,
}

/// The comparison character between a key and its value.
#[allow(non_camel_case_types)]
#[derive(Clone, Copy, Debug, PartialEq, Eq, Structural)]
pub enum KeyChar {
    MATCHES,
    LOWER,
    HIGHER,
    EQUALS,
}

/// The character that writes a key character.
pub open spec fn key_char_char(k: KeyChar) -> char {
    match k {
        KeyChar::MATCHES => ':',
        KeyChar::LOWER => '<',
        KeyChar::HIGHER => '>',
        KeyChar::EQUALS => '=',
    }
}

impl KeyChar {
    /// The character that writes this key character.
    pub fn to_char(self) -> (c: char)
        ensures
            c == key_char_char(self),
    {
        match self {
            KeyChar::MATCHES => ':',
            KeyChar::LOWER => '<',
            KeyChar::HIGHER => '>',
            KeyChar::EQUALS => '=',
        }
    }

    /// The one-character string that writes this key character.
    pub fn to_string(self) -> (s: String)
        ensures
            s@ == seq![key_char_char(self)],
    {
        let mut s = String::new();
        crate::text::push_char(&mut s, self.to_char());
        s
    }
}

pub open spec fn field_filter_is_empty(f: FieldFilter) -> bool {
    &&& f.id is None
    &&& f.generic is None
    &&& f.library is None
    &&& f.title is None
    &&& f.developer is None
    &&& f.publisher is None
    &&& f.series is None
    &&& f.tags is None
    &&& f.platforms is None
    &&& f.play_mode is None
    &&& f.status is None
    &&& f.notes is None
    &&& f.source is None
    &&& f.original_description is None
    &&& f.language is None
    &&& f.application_path is None
    &&& f.launch_command is None
    &&& f.ruffle_support is None
    &&& f.ext is None
}

pub open spec fn size_filter_is_empty(f: SizeFilter) -> bool {
    &&& f.tags is None
    &&& f.platforms is None
    &&& f.date_added is None
    &&& f.date_modified is None
    &&& f.release_date is None
    &&& f.game_data is None
    &&& f.add_apps is None
    &&& f.playtime is None
    &&& f.playcount is None
    &&& f.last_played is None
    &&& f.ext is None
}

pub open spec fn bool_filter_is_empty(f: BoolFilter) -> bool {
    f.installed is None && f.ext is None
}

/// A filter that matches on nothing and has no nested filters.
pub open spec fn game_filter_is_empty(f: GameFilter) -> bool {
    &&& f.subfilters@.len() == 0
    &&& field_filter_is_empty(f.whitelist)
    &&& field_filter_is_empty(f.blacklist)
    &&& field_filter_is_empty(f.exact_whitelist)
    &&& field_filter_is_empty(f.exact_blacklist)
    &&& size_filter_is_empty(f.lower_than)
    &&& size_filter_is_empty(f.higher_than)
    &&& size_filter_is_empty(f.equal_to)
    &&& bool_filter_is_empty(f.bool_comp)
    &&& !f.match_any
}

/// The default search: empty filter, title ascending, no extension data
/// except `ext_data`, a page of 1000.
pub open spec fn is_default_search_except_filter(s: GameSearch) -> bool {
    &&& !s.load_relations.tags
    &&& !s.load_relations.platforms
    &&& !s.load_relations.game_data
    &&& !s.load_relations.add_apps
    &&& s.load_relations.ext_data
    &&& s.custom_id_order is None
    &&& s.order.column == GameSearchSortable::TITLE
    &&& s.order.direction == GameSearchDirection::ASC
    &&& s.ext_order is None
    &&& s.offset is None
    &&& s.limit == 1000
    &&& !s.slim
    &&& s.with_tag_filter is None
}

impl Default for FieldFilter {
    fn default() -> (r: Self)
        ensures
            field_filter_is_empty(r),
    {
        FieldFilter {
            id: None,
            generic: None,
            library: None,
            title: None,
            developer: None,
            publisher: None,
            series: None,
            tags: None,
            platforms: None,
            play_mode: None,
            status: None,
            notes: None,
            source: None,
            original_description: None,
            language: None,
            application_path: None,
            launch_command: None,
            ruffle_support: None,
            ext: None,
        }
    }
}

impl Default for SizeFilter {
    fn default() -> (r: Self)
        ensures
            size_filter_is_empty(r),
    {
        SizeFilter {
            tags: None,
            platforms: None,
            date_added: None,
            date_modified: None,
            release_date: None,
            game_data: None,
            add_apps: None,
            playtime: None,
            playcount: None,
            last_played: None,
            ext: None,
        }
    }
}

impl Default for BoolFilter {
    fn default() -> (r: Self)
        ensures
            bool_filter_is_empty(r),
    {
        BoolFilter { installed: None, ext: None }
    }
}

impl Default for GameFilter {
    fn default() -> (r: Self)
        ensures
            game_filter_is_empty(r),
    {
        GameFilter {
            subfilters: Vec::new(),
            whitelist: FieldFilter::default(),
            blacklist: FieldFilter::default(),
            exact_whitelist: FieldFilter::default(),
            exact_blacklist: FieldFilter::default(),
            lower_than: SizeFilter::default(),
            higher_than: SizeFilter::default(),
            equal_to: SizeFilter::default(),
            bool_comp: BoolFilter::default(),
            match_any: false,
        }
    }
}

impl Default for GameSearchRelations {
    fn default() -> (r: Self)
        ensures
            !r.tags && !r.platforms && !r.game_data && !r.add_apps && r.ext_data,
    {
        GameSearchRelations {
            tags: false,
            platforms: false,
            game_data: false,
            add_apps: false,
            ext_data: true,
        }
    }
}

impl Default for GameSearch {
    fn default() -> (r: Self)
        ensures
            is_default_search_except_filter(r),
            game_filter_is_empty(r.filter),
    {
        GameSearch {
            filter: GameFilter::default(),
            load_relations: GameSearchRelations::default(),
            custom_id_order: None,
            order: GameSearchOrder {
                column: GameSearchSortable::TITLE,
                direction: GameSearchDirection::ASC,
            },
            ext_order: None,
            offset: None,
            limit: 1000,
            slim: false,
            with_tag_filter: None,
        }
    }
}

} // verus!
