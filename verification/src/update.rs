//! Records of a metadata update from the remote server, and the plan of
//! how they are applied.
use vstd::prelude::*;

verus! {

/// A list bound to one `?` placeholder as an array.
#[derive(Clone, Debug)]
pub struct SqlVec<T>(pub Vec<T>);

#[derive(Clone, Debug)]
pub struct RemoteDeletedGamesRes {
    pub games: Vec<RemoteDeletedGame>,
}

#[derive(Clone, Debug)]
pub struct RemoteDeletedGame {
    pub id: String,
    pub date_modified: String,
    pub reason: String,
}

#[derive(Clone, Debug)]
pub struct RemoteGamesRes {
    pub games: Vec<RemoteGame>,
    pub add_apps: Vec<RemoteAddApp>,
    pub game_data: Vec<RemoteGameData>,
    pub tag_relations: Vec<Vec<String>>,
    pub platform_relations: Vec<Vec<String>>,
}

#[derive(Clone, Debug)]
pub struct RemoteGameData {
    pub game_id: String,
    pub title: String,
    pub date_added: String,
    pub sha_256: String,
    pub crc_32: u32,
    pub size: i64,
    pub parameters: Option<String>,
    pub application_path: String,
    pub launch_command: String,
}

#[derive(Clone, Debug)]
pub struct RemoteAddApp {
    pub name: String,
    pub application_path: String,
    pub launch_command: String,
    pub wait_for_exit: bool,
    pub auto_run_before: bool,
    pub parent_game_id: String,
}

#[derive(Clone, Debug)]
pub struct RemoteGame {
    pub id: String,
    pub title: String,
    pub alternate_titles: String,
    pub series: String,
    pub developer: String,
    pub publisher: String,
    pub date_added: String,
    pub date_modified: String,
    pub play_mode: String,
    pub status: String,
    pub notes: String,
    pub source: String,
    pub application_path: String,
    pub launch_command: String,
    pub release_date: String,
    pub version: String,
    pub original_description: String,
    pub language: String,
    pub library: String,
    pub platform_name: String,
    pub archive_state: i32,
    pub ruffle_support: String,
}

#[derive(Clone, Debug)]
pub struct RemoteCategory {
    pub id: i64,
    pub name: String,
    pub color: String,
    pub description: String,
}

#[derive(Clone, Debug)]
pub struct RemoteTag {
    pub id: i64,
    pub name: String,
    pub description: String,
    pub category: String,
    pub date_modified: String,
    pub aliases: Vec<String>,
    pub deleted: bool,
}

#[derive(Clone, Debug)]
pub struct RemotePlatform {
    pub id: i64,
    pub name: String,
    pub description: String,
    pub date_modified: String,
    pub aliases: Vec<String>,
    pub deleted: bool,
}

/// A name of a tag or platform, by its id.
#[derive(Clone, Debug)]
pub struct Alias {
    pub id: i64,
    pub value: String,
}

/// The `(id, name)` pairs of records with names, record by record.
pub open spec fn aliases_of(rs: Seq<(i64, Seq<Seq<char>>)>) -> Seq<(i64, Seq<char>)>
    decreases rs.len(),
{
    if rs.len() == 0 {
        Seq::empty()
    } else {
        let r = rs.last();
        aliases_of(rs.drop_last()) + r.1.map_values(|a: Seq<char>| (r.0, a))
    }
}

pub open spec fn alias_views(v: Seq<Alias>) -> Seq<(i64, Seq<char>)> {
    v.map_values(|a: Alias| (a.id, a.value@))
}

pub open spec fn platform_names(ps: Seq<RemotePlatform>) -> Seq<(i64, Seq<Seq<char>>)> {
    ps.map_values(|p: RemotePlatform| (p.id, p.aliases.deep_view()))
}

pub open spec fn tag_names(ts: Seq<RemoteTag>) -> Seq<(i64, Seq<Seq<char>>)> {
    ts.map_values(|t: RemoteTag| (t.id, t.aliases.deep_view()))
}

fn push_aliases(out: &mut Vec<Alias>, id: i64, names: &Vec<String>)
    ensures
        alias_views(final(out)@) == alias_views(old(out)@) + names.deep_view().map_values(|a: Seq<char>| (id, a)),
{
    let mut j: usize = 0;
    while j < names.len()
        invariant
            j <= names@.len(),
            alias_views(out@) =~= alias_views(old(out)@) + names.deep_view().take(j as int).map_values(
                |a: Seq<char>| (id, a),
            ),
        decreases names.len() - j,
    {
        let ghost o0 = out@;
        let a = Alias { id, value: names[j].clone() };
        out.push(a);
        proof {
            assert(alias_views(out@) =~= alias_views(o0).push((id, names@[j as int]@)));
            assert(names.deep_view().take(j + 1) =~= names.deep_view().take(j as int).push(names@[j as int]@));
        }
        j = j + 1;
    }
    assert(names.deep_view().take(names@.len() as int) =~= names.deep_view());
}

/// Every name of every platform, as `(platform id, name)`, in order.
pub fn platform_aliases(platforms: &Vec<RemotePlatform>) -> (r: Vec<Alias>)
    ensures
        alias_views(r@) == aliases_of(platform_names(platforms@)),
{
    let mut r: Vec<Alias> = Vec::new();
    let mut i: usize = 0;
    while i < platforms.len()
        invariant
            i <= platforms@.len(),
            alias_views(r@) == aliases_of(platform_names(platforms@.take(i as int))),
        decreases platforms.len() - i,
    {
        push_aliases(&mut r, platforms[i].id, &platforms[i].aliases);
        proof {
            let t = platform_names(platforms@.take(i + 1));
            assert(t.drop_last() =~= platform_names(platforms@.take(i as int)));
        }
        i = i + 1;
    }
    assert(platforms@.take(platforms@.len() as int) =~= platforms@);
    r
}

/// Every name of every tag, as `(tag id, name)`, in order.
pub fn tag_aliases(tags: &Vec<RemoteTag>) -> (r: Vec<Alias>)
    ensures
        alias_views(r@) == aliases_of(tag_names(tags@)),
{
    let mut r: Vec<Alias> = Vec::new();
    let mut i: usize = 0;
    while i < tags.len()
        invariant
            i <= tags@.len(),
            alias_views(r@) == aliases_of(tag_names(tags@.take(i as int))),
        decreases tags.len() - i,
    {
        push_aliases(&mut r, tags[i].id, &tags[i].aliases);
        proof {
            let t = tag_names(tags@.take(i + 1));
            assert(t.drop_last() =~= tag_names(tags@.take(i as int)));
        }
        i = i + 1;
    }
    assert(tags@.take(tags@.len() as int) =~= tags@);
    r
}

/// How the records of an update, given as `(id, deleted)`, meet the
/// stored ones: the ids of stored records to delete, and the positions of
/// records that change a stored one and of records that are new.
#[derive(Clone, Debug)]
pub struct UpdatePlan {
    pub deleted_ids: Vec<i64>,
    pub changed: Vec<usize>,
    pub added: Vec<usize>,
}

/// The ids, in order, of the records that are stored and deleted.
pub open spec fn deleted_ids(rs: Seq<(i64, bool)>, stored: Seq<i64>) -> Seq<i64>
    decreases rs.len(),
{
    if rs.len() == 0 {
        Seq::empty()
    } else {
        let rest = deleted_ids(rs.drop_last(), stored);
        let r = rs.last();
        if stored.contains(r.0) && r.1 {
            rest.push(r.0)
        } else {
            rest
        }
    }
}

/// The positions, in order, of the records with `stored.contains(id) ==
/// known` that are not deleted.
pub open spec fn kept_positions(rs: Seq<(i64, bool)>, stored: Seq<i64>, known: bool) -> Seq<int>
    decreases rs.len(),
{
    if rs.len() == 0 {
        Seq::empty()
    } else {
        let rest = kept_positions(rs.drop_last(), stored, known);
        let r = rs.last();
        if stored.contains(r.0) == known && !r.1 {
            rest.push(rs.len() - 1)
        } else {
            rest
        }
    }
}

pub open spec fn positions_view(v: Seq<usize>) -> Seq<int> {
    v.map_values(|p: usize| p as int)
}

fn contains_id(v: &Vec<i64>, x: i64) -> (r: bool)
    ensures
        r == v@.contains(x),
{
    let mut i: usize = 0;
    while i < v.len()
        invariant
            i <= v@.len(),
            forall|j: int| 0 <= j < i ==> v@[j] != x,
        decreases v.len() - i,
    {
        if v[i] == x {
            assert(v@[i as int] == x);
            return true;
        }
        i = i + 1;
    }
    false
}

/// Splits the records of an update (`(id, deleted)` each) against the
/// stored ids: stored and deleted ones are removed; stored and kept ones
/// are changed; unknown and kept ones are added; unknown deleted ones are
/// ignored.
pub fn plan_update(records: &Vec<(i64, bool)>, stored: &Vec<i64>) -> (r: UpdatePlan)
    ensures
        r.deleted_ids@ == deleted_ids(records@, stored@),
        positions_view(r.changed@) == kept_positions(records@, stored@, true),
        positions_view(r.added@) == kept_positions(records@, stored@, false),
{
    let mut plan = UpdatePlan { deleted_ids: Vec::new(), changed: Vec::new(), added: Vec::new() };
    let mut i: usize = 0;
    while i < records.len()
        invariant
            i <= records@.len(),
            plan.deleted_ids@ == deleted_ids(records@.take(i as int), stored@),
            positions_view(plan.changed@) == kept_positions(records@.take(i as int), stored@, true),
            positions_view(plan.added@) == kept_positions(records@.take(i as int), stored@, false),
        decreases records.len() - i,
    {
        let (id, deleted) = records[i];
        let known = contains_id(stored, id);
        proof {
            let t = records@.take(i + 1);
            assert(t.drop_last() =~= records@.take(i as int));
            assert(t.last() == records@[i as int]);
        }
        let ghost c0 = plan.changed@;
        let ghost a0 = plan.added@;
        if known && deleted {
            plan.deleted_ids.push(id);
        } else if known && !deleted {
            plan.changed.push(i);
            assert(positions_view(plan.changed@) =~= positions_view(c0).push(i as int));
        } else if !known && !deleted {
            plan.added.push(i);
            assert(positions_view(plan.added@) =~= positions_view(a0).push(i as int));
        }
        i = i + 1;
    }
    assert(records@.take(records@.len() as int) =~= records@);
    plan
}

/// Law: an update deletes exactly the stored records it marks deleted: an
/// id is among the deleted ids if and only if some record of the update has
/// that id, is marked deleted, and the id is stored.
pub proof fn law_deleted_ids(rs: Seq<(i64, bool)>, stored: Seq<i64>, id: i64)
    ensures
        deleted_ids(rs, stored).contains(id) <==> (stored.contains(id) && exists|k: int|
            0 <= k < rs.len() && #[trigger] rs[k] == (id, true)),
    decreases rs.len(),
{
    if rs.len() > 0 {
        let init = rs.drop_last();
        law_deleted_ids(init, stored, id);
        let r = rs.last();
        let rest = deleted_ids(init, stored);
        if stored.contains(id) && exists|k: int| 0 <= k < rs.len() && #[trigger] rs[k] == (id, true) {
            let k = choose|k: int| 0 <= k < rs.len() && #[trigger] rs[k] == (id, true);
            if k < rs.len() - 1 {
                assert(init[k] == rs[k]);
                assert(rest.contains(id));
                if stored.contains(r.0) && r.1 {
                    let j = choose|j: int| 0 <= j < rest.len() && rest[j] == id;
                    assert(rest.push(r.0)[j] == id);
                }
            } else {
                assert(r == (id, true));
                assert(deleted_ids(rs, stored) == rest.push(id));
                assert(rest.push(id)[rest.len() as int] == id);
            }
        }
        if deleted_ids(rs, stored).contains(id) {
            let d = deleted_ids(rs, stored);
            let j = choose|j: int| 0 <= j < d.len() && d[j] == id;
            if stored.contains(r.0) && r.1 && j == rest.len() {
                assert(rs[rs.len() - 1] == (id, true));
            } else {
                assert(rest[j] == id);
                assert(rest.contains(id));
                let k = choose|k: int| 0 <= k < init.len() && #[trigger] init[k] == (id, true);
                assert(rs[k] == init[k]);
            }
        }
    }
}


/// Every record of an update is handled at most once: a record that is not
/// deleted is either changed or added, never both; a deleted one is
/// neither.
pub proof fn law_plan_partitions(rs: Seq<(i64, bool)>, stored: Seq<i64>, k: int)
    requires
        0 <= k < rs.len(),
    ensures
        !rs[k].1 ==> (kept_positions(rs, stored, true).contains(k) || kept_positions(rs, stored, false).contains(k)),
        !(kept_positions(rs, stored, true).contains(k) && kept_positions(rs, stored, false).contains(k)),
        rs[k].1 ==> !kept_positions(rs, stored, true).contains(k) && !kept_positions(rs, stored, false).contains(k),
    decreases rs.len(),
{
    let n = rs.len() - 1;
    lemma_kept_positions_below(rs.drop_last(), stored, true);
    lemma_kept_positions_below(rs.drop_last(), stored, false);
    let t = kept_positions(rs, stored, true);
    let f = kept_positions(rs, stored, false);
    let t0 = kept_positions(rs.drop_last(), stored, true);
    let f0 = kept_positions(rs.drop_last(), stored, false);
    if k < n {
        law_plan_partitions(rs.drop_last(), stored, k);
        assert(rs.drop_last()[k] == rs[k]);
        assert(t0.contains(k) == t.contains(k)) by {
            if t.contains(k) {
                let j = choose|j: int| 0 <= j < t.len() && t[j] == k;
                if j == t.len() - 1 && t != t0 {
                    assert(t == t0.push(n));
                }
            }
            if t0.contains(k) {
                let j = choose|j: int| 0 <= j < t0.len() && t0[j] == k;
                assert(t[j] == k);
            }
        }
        assert(f0.contains(k) == f.contains(k)) by {
            if f.contains(k) {
                let j = choose|j: int| 0 <= j < f.len() && f[j] == k;
                if j == f.len() - 1 && f != f0 {
                    assert(f == f0.push(n));
                }
            }
            if f0.contains(k) {
                let j = choose|j: int| 0 <= j < f0.len() && f0[j] == k;
                assert(f[j] == k);
            }
        }
    } else {
        assert(!t0.contains(n));
        assert(!f0.contains(n));
        if stored.contains(rs.last().0) && !rs.last().1 {
            assert(t[t.len() - 1] == n);
        } else if !stored.contains(rs.last().0) && !rs.last().1 {
            assert(f[f.len() - 1] == n);
        }
    }
}

/// The positions kept so far are below the number of records.
proof fn lemma_kept_positions_below(rs: Seq<(i64, bool)>, stored: Seq<i64>, known: bool)
    ensures
        forall|j: int|
            0 <= j < kept_positions(rs, stored, known).len() ==> #[trigger] kept_positions(rs, stored, known)[j]
                < rs.len(),
    decreases rs.len(),
{
    if rs.len() > 0 {
        lemma_kept_positions_below(rs.drop_last(), stored, known);
        let k = kept_positions(rs, stored, known);
        let k0 = kept_positions(rs.drop_last(), stored, known);
        assert forall|j: int| 0 <= j < k.len() implies #[trigger] k[j] < rs.len() by {
            if j < k0.len() {
                assert(k[j] == k0[j]);
            }
        }
    }
}

proof fn lemma_kept_positions_member(rs: Seq<(i64, bool)>, stored: Seq<i64>, known: bool, k: int)
    requires
        0 <= k < rs.len(),
    ensures
        kept_positions(rs, stored, known).contains(k) <==> (!rs[k].1 && stored.contains(rs[k].0) == known),
    decreases rs.len(),
{
    let n = rs.len() - 1;
    let rest = kept_positions(rs.drop_last(), stored, known);
    lemma_kept_positions_below(rs.drop_last(), stored, known);
    if k < n {
        lemma_kept_positions_member(rs.drop_last(), stored, known, k);
        assert(rs.drop_last()[k] == rs[k]);
        if stored.contains(rs.last().0) == known && !rs.last().1 {
            assert(rest.push(n).contains(k) == rest.contains(k)) by {
                if rest.push(n).contains(k) {
                    let j = choose|j: int| 0 <= j < rest.push(n).len() && rest.push(n)[j] == k;
                    if j < rest.len() {
                        assert(rest[j] == k);
                    }
                }
                if rest.contains(k) {
                    let j = choose|j: int| 0 <= j < rest.len() && rest[j] == k;
                    assert(rest.push(n)[j] == k);
                }
            }
        }
    } else {
        assert(!rest.contains(n));
        if stored.contains(rs.last().0) == known && !rs.last().1 {
            assert(rest.push(n)[rest.len() as int] == n);
        }
    }
}

/// Law: an update changes exactly its records that are stored and not
/// deleted, and adds exactly those that are not stored and not deleted:
/// a record's position is among the changed ones if and only if its id is
/// stored and it is not marked deleted, and among the added ones if and
/// only if its id is not stored and it is not marked deleted.
pub proof fn law_plan_changes_and_adds(rs: Seq<(i64, bool)>, stored: Seq<i64>, k: int)
    requires
        0 <= k < rs.len(),
    ensures
        kept_positions(rs, stored, true).contains(k) <==> (!rs[k].1 && stored.contains(rs[k].0)),
        kept_positions(rs, stored, false).contains(k) <==> (!rs[k].1 && !stored.contains(rs[k].0)),
{
    lemma_kept_positions_member(rs, stored, true, k);
    lemma_kept_positions_member(rs, stored, false, k);
}

/// The positions, in order, of the ids that are stored (`known`) or not.
pub open spec fn id_positions(ids: Seq<Seq<char>>, stored: Seq<Seq<char>>, known: bool) -> Seq<int>
    decreases ids.len(),
{
    if ids.len() == 0 {
        Seq::empty()
    } else {
        let rest = id_positions(ids.drop_last(), stored, known);
        if stored.contains(ids.last()) == known {
            rest.push(ids.len() - 1)
        } else {
            rest
        }
    }
}

proof fn lemma_id_positions_member(ids: Seq<Seq<char>>, stored: Seq<Seq<char>>, known: bool, k: int)
    requires
        0 <= k <= ids.len(),
    ensures
        forall|j: int| 0 <= j < id_positions(ids, stored, known).len() ==> #[trigger] id_positions(ids, stored, known)[j] < ids.len(),
        k < ids.len() ==> (id_positions(ids, stored, known).contains(k) <==> stored.contains(ids[k]) == known),
    decreases ids.len(),
{
    if ids.len() > 0 {
        let n = ids.len() - 1;
        let rest = id_positions(ids.drop_last(), stored, known);
        lemma_id_positions_member(ids.drop_last(), stored, known, if k < n { k } else { n });
        let all = id_positions(ids, stored, known);
        assert forall|j: int| 0 <= j < all.len() implies #[trigger] all[j] < ids.len() by {
            if j < rest.len() {
                assert(all[j] == rest[j]);
            }
        }
        if k < n {
            assert(ids.drop_last()[k] == ids[k]);
            if stored.contains(ids.last()) == known {
                assert(rest.push(n).contains(k) == rest.contains(k)) by {
                    if rest.push(n).contains(k) {
                        let j = choose|j: int| 0 <= j < rest.push(n).len() && rest.push(n)[j] == k;
                        if j < rest.len() {
                            assert(rest[j] == k);
                        }
                    }
                    if rest.contains(k) {
                        let j = choose|j: int| 0 <= j < rest.len() && rest[j] == k;
                        assert(rest.push(n)[j] == k);
                    }
                }
            }
        } else if k == n {
            assert(!rest.contains(n));
            if stored.contains(ids.last()) == known {
                assert(rest.push(n)[rest.len() as int] == n);
            }
        }
    }
}

/// Law: a game update changes exactly the games whose id is stored and adds
/// exactly the others: a game's position is among the changed ones if and
/// only if its id is stored, and among the added ones if and only if not.
pub proof fn law_game_update_split(ids: Seq<Seq<char>>, stored: Seq<Seq<char>>, k: int)
    requires
        0 <= k < ids.len(),
    ensures
        id_positions(ids, stored, true).contains(k) <==> stored.contains(ids[k]),
        id_positions(ids, stored, false).contains(k) <==> !stored.contains(ids[k]),
{
    lemma_id_positions_member(ids, stored, true, k);
    lemma_id_positions_member(ids, stored, false, k);
}

/// Splits the games of an update, by id, against the stored game ids: the
/// positions of the games that change a stored one, and of the new ones.
pub fn plan_game_update(ids: &Vec<String>, stored: &Vec<String>) -> (r: (Vec<usize>, Vec<usize>))
    ensures
        positions_view(r.0@) == id_positions(ids.deep_view(), stored.deep_view(), true),
        positions_view(r.1@) == id_positions(ids.deep_view(), stored.deep_view(), false),
{
    let mut changed: Vec<usize> = Vec::new();
    let mut added: Vec<usize> = Vec::new();
    let ghost iv = ids.deep_view();
    let mut i: usize = 0;
    while i < ids.len()
        invariant
            i <= ids@.len(),
            iv == ids.deep_view(),
            positions_view(changed@) == id_positions(iv.take(i as int), stored.deep_view(), true),
            positions_view(added@) == id_positions(iv.take(i as int), stored.deep_view(), false),
        decreases ids.len() - i,
    {
        let known = crate::tag::contains_string(stored, &ids[i]);
        proof {
            let t = iv.take(i + 1);
            assert(t.drop_last() =~= iv.take(i as int));
            assert(t.last() == ids@[i as int]@);
        }
        let ghost c0 = changed@;
        let ghost a0 = added@;
        if known {
            changed.push(i);
            assert(positions_view(changed@) =~= positions_view(c0).push(i as int));
        } else {
            added.push(i);
            assert(positions_view(added@) =~= positions_view(a0).push(i as int));
        }
        i = i + 1;
    }
    assert(iv.take(iv.len() as int) =~= iv);
    (changed, added)
}

/// The aliases of a record written as one text: every piece between `;`,
/// trimmed, empty ones included.
pub fn alias_list(text: &str) -> (r: Vec<String>)
    ensures
        r.deep_view() == crate::text::split_on(text@, ';').map_values(|p: Seq<char>| crate::text::str_trim(p)),
{
    let parts = crate::text::split_on_exec(text, ';');
    let ghost pv = parts@.map_values(|v: Vec<char>| v@);
    let ghost tp = pv.map_values(|p: Seq<char>| crate::text::str_trim(p));
    let mut r: Vec<String> = Vec::new();
    let mut i: usize = 0;
    while i < parts.len()
        invariant
            i <= parts@.len(),
            pv == parts@.map_values(|v: Vec<char>| v@),
            tp == pv.map_values(|p: Seq<char>| crate::text::str_trim(p)),
            r.deep_view() == tp.take(i as int),
        decreases parts.len() - i,
    {
        let t = crate::text::trim(crate::text::string_of(&parts[i]).as_str());
        let ghost r0 = r.deep_view();
        r.push(t);
        proof {
            assert(tp[i as int] == crate::text::str_trim(parts@[i as int]@));
            assert(r.deep_view() =~= r0.push(tp[i as int]));
            assert(tp.take(i + 1) =~= tp.take(i as int).push(tp[i as int]));
        }
        i = i + 1;
    }
    assert(tp.take(tp.len() as int) =~= tp);
    r
}

/// Where the next page of remote games starts: after the last game of this
/// page, or nowhere (`None`) when the page is empty and the games are all
/// fetched.
pub fn page_after(page: &RemoteGamesRes) -> (r: Option<String>)
    ensures
        match r {
            Some(id) => page.games@.len() > 0 && id == page.games@.last().id,
            None => page.games@.len() == 0,
        },
{
    if page.games.len() > 0 {
        Some(page.games[page.games.len() - 1].id.clone())
    } else {
        None
    }
}

} // verus!
