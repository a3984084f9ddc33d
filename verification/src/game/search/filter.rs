//! Field-indexed access to filters, and the working filter that the parser
//! fills before it becomes a `GameFilter`.
use vstd::prelude::*;
use crate::game::search::{BoolFilter, ExtBools, ExtNumbers, ExtStrings, FieldFilter, GameFilter, SizeFilter};

verus! {

/// The text fields a filter can match on.
#[derive(Clone, Copy, Debug, PartialEq, Eq, Structural)]
pub enum StringField {
    Id,
    Generic,
    Library,
    Title,
    Developer,
    Publisher,
    Series,
    Tags,
    Platforms,
    PlayMode,
    Status,
    Notes,
    Source,
    OriginalDescription,
    Language,
    ApplicationPath,
    LaunchCommand,
    RuffleSupport,
}

pub open spec fn field_index(f: StringField) -> nat {
    match f {
        StringField::Id => 0,
        StringField::Generic => 1,
        StringField::Library => 2,
        StringField::Title => 3,
        StringField::Developer => 4,
        StringField::Publisher => 5,
        StringField::Series => 6,
        StringField::Tags => 7,
        StringField::Platforms => 8,
        StringField::PlayMode => 9,
        StringField::Status => 10,
        StringField::Notes => 11,
        StringField::Source => 12,
        StringField::OriginalDescription => 13,
        StringField::Language => 14,
        StringField::ApplicationPath => 15,
        StringField::LaunchCommand => 16,
        StringField::RuffleSupport => 17,
    }
}

pub open spec fn field_at(i: int) -> StringField {
    if i == 0 {
        StringField::Id
    } else if i == 1 {
        StringField::Generic
    } else if i == 2 {
        StringField::Library
    } else if i == 3 {
        StringField::Title
    } else if i == 4 {
        StringField::Developer
    } else if i == 5 {
        StringField::Publisher
    } else if i == 6 {
        StringField::Series
    } else if i == 7 {
        StringField::Tags
    } else if i == 8 {
        StringField::Platforms
    } else if i == 9 {
        StringField::PlayMode
    } else if i == 10 {
        StringField::Status
    } else if i == 11 {
        StringField::Notes
    } else if i == 12 {
        StringField::Source
    } else if i == 13 {
        StringField::OriginalDescription
    } else if i == 14 {
        StringField::Language
    } else if i == 15 {
        StringField::ApplicationPath
    } else if i == 16 {
        StringField::LaunchCommand
    } else {
        StringField::RuffleSupport
    }
}

/// Number of text fields.
pub const NUM_FIELDS: usize = 18;

pub proof fn lemma_field_at(i: int)
    requires
        0 <= i < NUM_FIELDS,
    ensures
        field_index(field_at(i)) == i,
{
}

pub fn field_index_exec(f: StringField) -> (i: usize)
    ensures
        i == field_index(f),
{
    match f {
        StringField::Id => 0,
        StringField::Generic => 1,
        StringField::Library => 2,
        StringField::Title => 3,
        StringField::Developer => 4,
        StringField::Publisher => 5,
        StringField::Series => 6,
        StringField::Tags => 7,
        StringField::Platforms => 8,
        StringField::PlayMode => 9,
        StringField::Status => 10,
        StringField::Notes => 11,
        StringField::Source => 12,
        StringField::OriginalDescription => 13,
        StringField::Language => 14,
        StringField::ApplicationPath => 15,
        StringField::LaunchCommand => 16,
        StringField::RuffleSupport => 17,
    }
}

pub fn field_at_exec(i: usize) -> (f: StringField)
    requires
        i < NUM_FIELDS,
    ensures
        f == field_at(i as int),
{
    if i == 0 {
        StringField::Id
    } else if i == 1 {
        StringField::Generic
    } else if i == 2 {
        StringField::Library
    } else if i == 3 {
        StringField::Title
    } else if i == 4 {
        StringField::Developer
    } else if i == 5 {
        StringField::Publisher
    } else if i == 6 {
        StringField::Series
    } else if i == 7 {
        StringField::Tags
    } else if i == 8 {
        StringField::Platforms
    } else if i == 9 {
        StringField::PlayMode
    } else if i == 10 {
        StringField::Status
    } else if i == 11 {
        StringField::Notes
    } else if i == 12 {
        StringField::Source
    } else if i == 13 {
        StringField::OriginalDescription
    } else if i == 14 {
        StringField::Language
    } else if i == 15 {
        StringField::ApplicationPath
    } else if i == 16 {
        StringField::LaunchCommand
    } else {
        StringField::RuffleSupport
    }
}

/// The four text-matcher lists of a filter.
#[derive(Clone, Copy, Debug, PartialEq, Eq, Structural)]
pub enum ListKind {
    Whitelist,
    Blacklist,
    ExactWhitelist,
    ExactBlacklist,
}

pub open spec fn list_index(k: ListKind) -> nat {
    match k {
        ListKind::Whitelist => 0,
        ListKind::Blacklist => 1,
        ListKind::ExactWhitelist => 2,
        ListKind::ExactBlacklist => 3,
    }
}

pub fn list_index_exec(k: ListKind) -> (i: usize)
    ensures
        i == list_index(k),
{
    match k {
        ListKind::Whitelist => 0,
        ListKind::Blacklist => 1,
        ListKind::ExactWhitelist => 2,
        ListKind::ExactBlacklist => 3,
    }
}

/// The list that a value goes to, by whether it is negated and exact.
pub open spec fn list_kind_of(negative: bool, exact: bool) -> ListKind {
    if negative {
        if exact {
            ListKind::ExactBlacklist
        } else {
            ListKind::Blacklist
        }
    } else {
        if exact {
            ListKind::ExactWhitelist
        } else {
            ListKind::Whitelist
        }
    }
}

pub fn list_kind_of_exec(negative: bool, exact: bool) -> (k: ListKind)
    ensures
        k == list_kind_of(negative, exact),
{
    if negative {
        if exact {
            ListKind::ExactBlacklist
        } else {
            ListKind::Blacklist
        }
    } else {
        if exact {
            ListKind::ExactWhitelist
        } else {
            ListKind::Whitelist
        }
    }
}

pub open spec fn strs_view(o: Option<Vec<String>>) -> Option<Seq<Seq<char>>> {
    match o {
        Some(v) => Some(v.deep_view()),
        None => None,
    }
}

pub type ExtStrView = Seq<(Seq<char>, Seq<(Seq<char>, Seq<Seq<char>>)>)>;

pub type ExtNumView = Seq<(Seq<char>, Seq<(Seq<char>, i64)>)>;

pub type ExtBoolView = Seq<(Seq<char>, Seq<(Seq<char>, bool)>)>;

/// A `FieldFilter` as values: one optional list per field, by field index.
#[verifier::ext_equal]
pub struct FieldFilterView {
    pub lists: Seq<Option<Seq<Seq<char>>>>,
    pub ext: Option<ExtStrView>,
}

/// A `SizeFilter` as values.
#[verifier::ext_equal]
pub struct SizeView {
    pub tags: Option<i64>,
    pub platforms: Option<i64>,
    pub date_added: Option<Seq<char>>,
    pub date_modified: Option<Seq<char>>,
    pub release_date: Option<Seq<char>>,
    pub game_data: Option<i64>,
    pub add_apps: Option<i64>,
    pub playtime: Option<i64>,
    pub playcount: Option<i64>,
    pub last_played: Option<Seq<char>>,
    pub ext: Option<ExtNumView>,
}

/// A `BoolFilter` as values.
#[verifier::ext_equal]
pub struct BoolView {
    pub installed: Option<bool>,
    pub ext: Option<ExtBoolView>,
}

pub open spec fn str_view(o: Option<String>) -> Option<Seq<char>> {
    match o {
        Some(s) => Some(s@),
        None => None,
    }
}

impl DeepView for FieldFilter {
    type V = FieldFilterView;

    open spec fn deep_view(&self) -> FieldFilterView {
        FieldFilterView {
            lists: Seq::new(NUM_FIELDS as nat, |i: int| strs_view(self.get(field_at(i)))),
            ext: self.ext.deep_view(),
        }
    }
}

impl DeepView for SizeFilter {
    type V = SizeView;

    open spec fn deep_view(&self) -> SizeView {
        SizeView {
            tags: self.tags,
            platforms: self.platforms,
            date_added: str_view(self.date_added),
            date_modified: str_view(self.date_modified),
            release_date: str_view(self.release_date),
            game_data: self.game_data,
            add_apps: self.add_apps,
            playtime: self.playtime,
            playcount: self.playcount,
            last_played: str_view(self.last_played),
            ext: self.ext.deep_view(),
        }
    }
}

impl DeepView for BoolFilter {
    type V = BoolView;

    open spec fn deep_view(&self) -> BoolView {
        BoolView { installed: self.installed, ext: self.ext.deep_view() }
    }
}

impl FieldFilter {
    /// The list of one field.
    pub open spec fn get(self, f: StringField) -> Option<Vec<String>> {
        match f {
            StringField::Id => self.id,
            StringField::Generic => self.generic,
            StringField::Library => self.library,
            StringField::Title => self.title,
            StringField::Developer => self.developer,
            StringField::Publisher => self.publisher,
            StringField::Series => self.series,
            StringField::Tags => self.tags,
            StringField::Platforms => self.platforms,
            StringField::PlayMode => self.play_mode,
            StringField::Status => self.status,
            StringField::Notes => self.notes,
            StringField::Source => self.source,
            StringField::OriginalDescription => self.original_description,
            StringField::Language => self.language,
            StringField::ApplicationPath => self.application_path,
            StringField::LaunchCommand => self.launch_command,
            StringField::RuffleSupport => self.ruffle_support,
        }
    }

    /// The list of one field.
    pub fn field(&self, f: StringField) -> (r: &Option<Vec<String>>)
        ensures
            *r == self.get(f),
    {
        match f {
            StringField::Id => &self.id,
            StringField::Generic => &self.generic,
            StringField::Library => &self.library,
            StringField::Title => &self.title,
            StringField::Developer => &self.developer,
            StringField::Publisher => &self.publisher,
            StringField::Series => &self.series,
            StringField::Tags => &self.tags,
            StringField::Platforms => &self.platforms,
            StringField::PlayMode => &self.play_mode,
            StringField::Status => &self.status,
            StringField::Notes => &self.notes,
            StringField::Source => &self.source,
            StringField::OriginalDescription => &self.original_description,
            StringField::Language => &self.language,
            StringField::ApplicationPath => &self.application_path,
            StringField::LaunchCommand => &self.launch_command,
            StringField::RuffleSupport => &self.ruffle_support,
        }
    }

    /// Replaces the list of one field.
    pub fn set(&mut self, f: StringField, v: Option<Vec<String>>)
        ensures
            final(self).get(f) == v,
            forall|g: StringField| g != f ==> final(self).get(g) == old(self).get(g),
            final(self).ext == old(self).ext,
    {
        match f {
            StringField::Id => self.id = v,
            StringField::Generic => self.generic = v,
            StringField::Library => self.library = v,
            StringField::Title => self.title = v,
            StringField::Developer => self.developer = v,
            StringField::Publisher => self.publisher = v,
            StringField::Series => self.series = v,
            StringField::Tags => self.tags = v,
            StringField::Platforms => self.platforms = v,
            StringField::PlayMode => self.play_mode = v,
            StringField::Status => self.status = v,
            StringField::Notes => self.notes = v,
            StringField::Source => self.source = v,
            StringField::OriginalDescription => self.original_description = v,
            StringField::Language => self.language = v,
            StringField::ApplicationPath => self.application_path = v,
            StringField::LaunchCommand => self.launch_command = v,
            StringField::RuffleSupport => self.ruffle_support = v,
        }
    }
}

/// A copy of a list of strings.
pub fn clone_strings(v: &Vec<String>) -> (r: Vec<String>)
    ensures
        r@ == v@,
        r.deep_view() == v.deep_view(),
{
    let mut r: Vec<String> = Vec::new();
    let mut i: usize = 0;
    while i < v.len()
        invariant
            i <= v@.len(),
            r@ =~= v@.take(i as int),
        decreases v.len() - i,
    {
        r.push(v[i].clone());
        i = i + 1;
    }
    assert(r.deep_view() =~= v.deep_view());
    r
}

/// A copy of an extension term map.
pub fn clone_ext_strings(m: &ExtStrings) -> (r: ExtStrings)
    ensures
        r.deep_view() == m.deep_view(),
{
    let mut r: ExtStrings = Vec::new();
    let mut i: usize = 0;
    while i < m.len()
        invariant
            i <= m@.len(),
            r@.len() == i,
            forall|q: int| 0 <= q < i ==> (#[trigger] r@[q]).deep_view() == m@[q].deep_view(),
        decreases m.len() - i,
    {
        let mut inner: Vec<(String, Vec<String>)> = Vec::new();
        let mut j: usize = 0;
        while j < m[i].1.len()
            invariant
                i < m@.len(),
                j <= m@[i as int].1@.len(),
                inner@.len() == j,
                forall|q: int| 0 <= q < j ==> (#[trigger] inner@[q]).deep_view() == m@[i as int].1@[q].deep_view(),
            decreases m@[i as int].1@.len() - j,
        {
            let k = m[i].1[j].0.clone();
            let l = clone_strings(&m[i].1[j].1);
            inner.push((k, l));
            j = j + 1;
        }
        assert(inner.deep_view() =~= m@[i as int].1.deep_view());
        let k0 = m[i].0.clone();
        r.push((k0, inner));
        i = i + 1;
    }
    assert(r.deep_view() =~= m.deep_view());
    r
}

/// A copy of an extension number or flag map.
pub fn clone_ext_copy<V: Copy + DeepView>(m: &Vec<(String, Vec<(String, V)>)>) -> (r: Vec<(String, Vec<(String, V)>)>)
    ensures
        r.deep_view() == m.deep_view(),
{
    let mut r: Vec<(String, Vec<(String, V)>)> = Vec::new();
    let mut i: usize = 0;
    while i < m.len()
        invariant
            i <= m@.len(),
            r@.len() == i,
            forall|q: int| 0 <= q < i ==> (#[trigger] r@[q]).deep_view() == m@[q].deep_view(),
        decreases m.len() - i,
    {
        let mut inner: Vec<(String, V)> = Vec::new();
        let mut j: usize = 0;
        while j < m[i].1.len()
            invariant
                i < m@.len(),
                j <= m@[i as int].1@.len(),
                inner@.len() == j,
                forall|q: int| 0 <= q < j ==> (#[trigger] inner@[q]).deep_view() == m@[i as int].1@[q].deep_view(),
            decreases m@[i as int].1@.len() - j,
        {
            let k = m[i].1[j].0.clone();
            inner.push((k, m[i].1[j].1));
            j = j + 1;
        }
        assert(inner.deep_view() =~= m@[i as int].1.deep_view());
        let k0 = m[i].0.clone();
        r.push((k0, inner));
        i = i + 1;
    }
    assert(r.deep_view() =~= m.deep_view());
    r
}

pub fn clone_opt_strings(o: &Option<Vec<String>>) -> (r: Option<Vec<String>>)
    ensures
        strs_view(r) == strs_view(*o),
{
    match o {
        Some(v) => Some(clone_strings(v)),
        None => None,
    }
}

pub fn clone_opt_string(o: &Option<String>) -> (r: Option<String>)
    ensures
        r == *o,
{
    match o {
        Some(v) => Some(v.clone()),
        None => None,
    }
}

/// A copy of a size filter.
pub fn clone_size_filter(s: &SizeFilter) -> (r: SizeFilter)
    ensures
        r.deep_view() == s.deep_view(),
{
    let ext = match &s.ext {
        Some(m) => Some(clone_ext_copy(m)),
        None => None,
    };
    SizeFilter {
        tags: s.tags,
        platforms: s.platforms,
        date_added: clone_opt_string(&s.date_added),
        date_modified: clone_opt_string(&s.date_modified),
        release_date: clone_opt_string(&s.release_date),
        game_data: s.game_data,
        add_apps: s.add_apps,
        playtime: s.playtime,
        playcount: s.playcount,
        last_played: clone_opt_string(&s.last_played),
        ext: ext,
    }
}

/// A copy of a flag filter.
pub fn clone_bool_filter(s: &BoolFilter) -> (r: BoolFilter)
    ensures
        r.deep_view() == s.deep_view(),
{
    let ext = match &s.ext {
        Some(m) => Some(clone_ext_copy(m)),
        None => None,
    };
    BoolFilter { installed: s.installed, ext: ext }
}

/// The filter that the parser fills: the value lists, one per list kind and
/// field at index `NUM_FIELDS * kind + field`, one extension term map per
/// list kind, and the comparison filters.
pub struct ForcedGameFilter {
    pub lists: Vec<Vec<String>>,
    pub exts: Vec<ExtStrings>,
    pub lower_than: SizeFilter,
    pub higher_than: SizeFilter,
    pub equal_to: SizeFilter,
    pub bool_comp: BoolFilter,
}

/// A `ForcedGameFilter` as values; `sizes` holds lower-than, higher-than and
/// equal-to in that order.
#[verifier::ext_equal]
pub struct ForcedView {
    pub lists: Seq<Seq<Seq<char>>>,
    pub exts: Seq<ExtStrView>,
    pub sizes: Seq<SizeView>,
    pub bools: BoolView,
}

pub open spec fn slot(k: ListKind, f: StringField) -> int {
    NUM_FIELDS * list_index(k) + field_index(f)
}

impl DeepView for ForcedGameFilter {
    type V = ForcedView;

    open spec fn deep_view(&self) -> ForcedView {
        ForcedView {
            lists: self.lists.deep_view(),
            exts: self.exts.deep_view(),
            sizes: seq![
                self.lower_than.deep_view(),
                self.higher_than.deep_view(),
                self.equal_to.deep_view(),
            ],
            bools: self.bool_comp.deep_view(),
        }
    }
}

pub open spec fn empty_size_view() -> SizeView {
    SizeView {
        tags: None,
        platforms: None,
        date_added: None,
        date_modified: None,
        release_date: None,
        game_data: None,
        add_apps: None,
        playtime: None,
        playcount: None,
        last_played: None,
        ext: None,
    }
}

/// The working filter before any value is added.
pub open spec fn empty_forced_view() -> ForcedView {
    ForcedView {
        lists: Seq::new(4 * NUM_FIELDS as nat, |i: int| Seq::<Seq<char>>::empty()),
        exts: Seq::new(4, |i: int| Seq::<(Seq<char>, Seq<(Seq<char>, Seq<Seq<char>>)>)>::empty()),
        sizes: seq![empty_size_view(), empty_size_view(), empty_size_view()],
        bools: BoolView { installed: None, ext: None },
    }
}

impl ForcedGameFilter {
    pub open spec fn wf(&self) -> bool {
        self.lists@.len() == 4 * NUM_FIELDS && self.exts@.len() == 4
    }

    /// An empty working filter.
    pub fn new() -> (r: Self)
        ensures
            r.wf(),
            r.deep_view() == empty_forced_view(),
    {
        let mut lists: Vec<Vec<String>> = Vec::new();
        let mut i: usize = 0;
        while i < 4 * NUM_FIELDS
            invariant
                i <= 4 * NUM_FIELDS,
                lists@.len() == i,
                forall|j: int| 0 <= j < i ==> (#[trigger] lists@[j])@.len() == 0,
            decreases 4 * NUM_FIELDS - i,
        {
            lists.push(Vec::new());
            i = i + 1;
        }
        let mut exts: Vec<ExtStrings> = Vec::new();
        exts.push(Vec::new());
        exts.push(Vec::new());
        exts.push(Vec::new());
        exts.push(Vec::new());
        let r = ForcedGameFilter {
            lists,
            exts,
            lower_than: SizeFilter::default(),
            higher_than: SizeFilter::default(),
            equal_to: SizeFilter::default(),
            bool_comp: BoolFilter::default(),
        };
        proof {
            assert forall|j: int| 0 <= j < 4 * NUM_FIELDS implies r.lists.deep_view()[j]
                =~= Seq::<Seq<char>>::empty() by {
                assert(r.lists@[j]@.len() == 0);
            }
            assert(r.lists.deep_view() =~= empty_forced_view().lists);
            assert forall|j: int| 0 <= j < 4 implies r.exts.deep_view()[j]
                =~= Seq::<(Seq<char>, Seq<(Seq<char>, Seq<Seq<char>>)>)>::empty() by {
                assert(r.exts@[j]@.len() == 0);
            }
            assert(r.exts.deep_view() =~= empty_forced_view().exts);
            assert(r.deep_view().sizes =~= empty_forced_view().sizes);
            assert(r.deep_view() =~= empty_forced_view());
        }
        r
    }
}

impl Default for ForcedGameFilter {
    fn default() -> (r: Self)
        ensures
            r.wf(),
            r.deep_view() == empty_forced_view(),
    {
        ForcedGameFilter::new()
    }
}

/// The field list that a working list becomes: an empty list becomes
/// `None`, and the library list is not carried over at all, so `library:`
/// terms never reach the filter. This is a known quirk of the search
/// language, kept on purpose: every field list is copied but the
/// library's.
pub open spec fn forced_list_to_option(v: ForcedView, k: ListKind, i: int) -> Option<Seq<Seq<char>>> {
    let l = v.lists[NUM_FIELDS * list_index(k) + i];
    if i == field_index(StringField::Library) || l.len() == 0 {
        None
    } else {
        Some(l)
    }
}

/// What one list kind of a working filter becomes.
pub open spec fn field_view_from_forced(v: ForcedView, k: ListKind) -> FieldFilterView {
    FieldFilterView {
        lists: Seq::new(NUM_FIELDS as nat, |i: int| forced_list_to_option(v, k, i)),
        ext: if v.exts[list_index(k) as int].len() == 0 {
            None
        } else {
            Some(v.exts[list_index(k) as int])
        },
    }
}

/// `r` is the `GameFilter` that a working filter with view `v` stands for.
pub open spec fn filter_from_forced(v: ForcedView, r: GameFilter) -> bool {
    &&& r.subfilters@.len() == 0
    &&& !r.match_any
    &&& r.whitelist.deep_view() == field_view_from_forced(v, ListKind::Whitelist)
    &&& r.blacklist.deep_view() == field_view_from_forced(v, ListKind::Blacklist)
    &&& r.exact_whitelist.deep_view() == field_view_from_forced(v, ListKind::ExactWhitelist)
    &&& r.exact_blacklist.deep_view() == field_view_from_forced(v, ListKind::ExactBlacklist)
    &&& r.lower_than.deep_view() == v.sizes[0]
    &&& r.higher_than.deep_view() == v.sizes[1]
    &&& r.equal_to.deep_view() == v.sizes[2]
    &&& r.bool_comp.deep_view() == v.bools
}

fn field_filter_of_forced(ff: &ForcedGameFilter, k: ListKind) -> (r: FieldFilter)
    requires
        ff.wf(),
    ensures
        r.deep_view() == field_view_from_forced(ff.deep_view(), k),
{
    let ghost v = ff.deep_view();
    let li = list_index_exec(k);
    let ext = if ff.exts[li].len() > 0 {
        Some(clone_ext_strings(&ff.exts[li]))
    } else {
        None
    };
    let mut r = FieldFilter::default();
    r.ext = ext;
    let base = NUM_FIELDS * li;
    let mut i: usize = 0;
    while i < NUM_FIELDS
        invariant
            ff.wf(),
            v == ff.deep_view(),
            base == NUM_FIELDS * list_index(k),
            i <= NUM_FIELDS,
            r.ext.deep_view() == field_view_from_forced(v, k).ext,
            forall|j: int| 0 <= j < i ==> #[trigger] strs_view(r.get(field_at(j))) == forced_list_to_option(v, k, j),
            forall|j: int| i <= j < NUM_FIELDS ==> #[trigger] r.get(field_at(j)) is None,
        decreases NUM_FIELDS - i,
    {
        let f = field_at_exec(i);
        proof {
            lemma_field_at(i as int);
        }
        let l = &ff.lists[base + i];
        if f != StringField::Library && l.len() > 0 {
            let c = clone_strings(l);
            r.set(f, Some(c));
        }
        proof {
            assert forall|j: int| 0 <= j < i + 1 implies #[trigger] strs_view(r.get(field_at(j)))
                == forced_list_to_option(v, k, j) by {
                lemma_field_at(j);
            }
            assert forall|j: int| i + 1 <= j < NUM_FIELDS implies #[trigger] r.get(field_at(j)) is None by {
                lemma_field_at(j);
            }
        }
        i = i + 1;
    }
    assert(r.deep_view().lists =~= field_view_from_forced(v, k).lists);
    r
}

/// The `GameFilter` that a working filter stands for. The library lists are
/// dropped on purpose (see `forced_list_to_option`).
pub fn game_filter_from_forced(ff: &ForcedGameFilter) -> (r: GameFilter)
    requires
        ff.wf(),
    ensures
        filter_from_forced(ff.deep_view(), r),
{
    GameFilter {
        subfilters: Vec::new(),
        whitelist: field_filter_of_forced(ff, ListKind::Whitelist),
        blacklist: field_filter_of_forced(ff, ListKind::Blacklist),
        exact_whitelist: field_filter_of_forced(ff, ListKind::ExactWhitelist),
        exact_blacklist: field_filter_of_forced(ff, ListKind::ExactBlacklist),
        lower_than: clone_size_filter(&ff.lower_than),
        higher_than: clone_size_filter(&ff.higher_than),
        equal_to: clone_size_filter(&ff.equal_to),
        bool_comp: clone_bool_filter(&ff.bool_comp),
        match_any: false,
    }
}

// ---------------------------------------------------------------------------
// Whole filters
// ---------------------------------------------------------------------------

/// A `GameFilter` as values: nested filters, then the four matcher lists,
/// the three comparison filters, the flags, and how matchers combine.
#[verifier::ext_equal]
pub struct GameFilterView {
    pub subfilters: Seq<GameFilterView>,
    pub lists: Seq<FieldFilterView>,
    pub sizes: Seq<SizeView>,
    pub bools: BoolView,
    pub match_any: bool,
}

pub open spec fn game_filter_view(f: GameFilter) -> GameFilterView
    decreases f,
{
    GameFilterView {
        subfilters: filter_views(f.subfilters@),
        lists: seq![
            f.whitelist.deep_view(),
            f.blacklist.deep_view(),
            f.exact_whitelist.deep_view(),
            f.exact_blacklist.deep_view(),
        ],
        sizes: seq![f.lower_than.deep_view(), f.higher_than.deep_view(), f.equal_to.deep_view()],
        bools: f.bool_comp.deep_view(),
        match_any: f.match_any,
    }
}

pub open spec fn filter_views(fs: Seq<GameFilter>) -> Seq<GameFilterView>
    decreases fs,
{
    if fs.len() == 0 {
        Seq::empty()
    } else {
        filter_views(fs.drop_last()).push(game_filter_view(fs.last()))
    }
}

/// A copy of a matcher list.
#[verifier::spinoff_prover]
#[verifier::rlimit(40)]
pub fn clone_field_filter(f: &FieldFilter) -> (r: FieldFilter)
    ensures
        r.deep_view() == f.deep_view(),
        r.tags.deep_view() == f.tags.deep_view(),
        r.platforms.deep_view() == f.platforms.deep_view(),
{
    let r = FieldFilter {
        id: clone_opt_strings(&f.id),
        generic: clone_opt_strings(&f.generic),
        library: clone_opt_strings(&f.library),
        title: clone_opt_strings(&f.title),
        developer: clone_opt_strings(&f.developer),
        publisher: clone_opt_strings(&f.publisher),
        series: clone_opt_strings(&f.series),
        tags: clone_opt_strings(&f.tags),
        platforms: clone_opt_strings(&f.platforms),
        play_mode: clone_opt_strings(&f.play_mode),
        status: clone_opt_strings(&f.status),
        notes: clone_opt_strings(&f.notes),
        source: clone_opt_strings(&f.source),
        original_description: clone_opt_strings(&f.original_description),
        language: clone_opt_strings(&f.language),
        application_path: clone_opt_strings(&f.application_path),
        launch_command: clone_opt_strings(&f.launch_command),
        ruffle_support: clone_opt_strings(&f.ruffle_support),
        ext: match &f.ext {
            Some(m) => Some(clone_ext_strings(m)),
            None => None,
        },
    };
    assert(r.deep_view().lists =~= f.deep_view().lists) by {
        assert forall|i: int| 0 <= i < NUM_FIELDS implies #[trigger] r.deep_view().lists[i] == f.deep_view().lists[i] by {
            lemma_field_at(i);
        }
    }
    assert(r.tags.deep_view() == f.tags.deep_view()) by {
        assert(strs_view(r.tags) == strs_view(f.tags));
    }
    assert(r.platforms.deep_view() == f.platforms.deep_view()) by {
        assert(strs_view(r.platforms) == strs_view(f.platforms));
    }
    r
}

/// A copy of a filter with its nested filters; it can be built into a
/// query exactly when the source filter can.
pub fn clone_game_filter(f: &GameFilter) -> (r: GameFilter)
    ensures
        game_filter_view(r) == game_filter_view(*f),
        crate::game::search::query::filter_query_ok(r) == crate::game::search::query::filter_query_ok(*f),
    decreases f,
{
    let mut subs: Vec<GameFilter> = Vec::new();
    let mut i: usize = 0;
    while i < f.subfilters.len()
        invariant
            i <= f.subfilters@.len(),
            filter_views(subs@) == filter_views(f.subfilters@.take(i as int)),
            crate::game::search::query::filters_ok(subs@) == crate::game::search::query::filters_ok(
                f.subfilters@.take(i as int),
            ),
        decreases f.subfilters.len() - i,
    {
        let c = clone_game_filter(&f.subfilters[i]);
        let ghost s0 = subs@;
        subs.push(c);
        proof {
            let t = f.subfilters@.take(i + 1);
            assert(t.drop_last() =~= f.subfilters@.take(i as int));
            assert(t.last() == f.subfilters@[i as int]);
            assert(subs@.drop_last() =~= s0);
            assert(subs@.last() == c);
        }
        i = i + 1;
    }
    assert(f.subfilters@.take(f.subfilters@.len() as int) =~= f.subfilters@);
    let r = GameFilter {
        subfilters: subs,
        whitelist: clone_field_filter(&f.whitelist),
        blacklist: clone_field_filter(&f.blacklist),
        exact_whitelist: clone_field_filter(&f.exact_whitelist),
        exact_blacklist: clone_field_filter(&f.exact_blacklist),
        lower_than: clone_size_filter(&f.lower_than),
        higher_than: clone_size_filter(&f.higher_than),
        equal_to: clone_size_filter(&f.equal_to),
        bool_comp: clone_bool_filter(&f.bool_comp),
        match_any: f.match_any,
    };
    assert(game_filter_view(r) =~= game_filter_view(*f));
    r
}

} // verus!
