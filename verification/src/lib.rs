//! Search, filtering and record-merging logic of the Flashpoint Archive
//! game database, with its contracts.
pub mod export;
pub mod game;
pub mod game_data;
pub mod platform;
pub mod service;
pub mod stamp;
pub mod tag;
pub mod tag_category;
pub mod text;
pub mod update;
pub mod util;

use vstd::prelude::*;
use crate::game::search::{
    GameFilter, bool_filter_is_empty, field_filter_is_empty, size_filter_is_empty,
};
use crate::game::search::filter::{clone_game_filter, game_filter_view};
use crate::game::search::query::filter_query_ok;

verus! {

/// A filter made of `a` and `b` as its two nested filters, matching what
/// both match, or what either matches when both match any of their terms.
pub fn merge_game_filters(a: &GameFilter, b: &GameFilter) -> (r: GameFilter)
    ensures
        r.subfilters@.len() == 2,
        game_filter_view(r.subfilters@[0]) == game_filter_view(*a),
        game_filter_view(r.subfilters@[1]) == game_filter_view(*b),
        field_filter_is_empty(r.whitelist) && field_filter_is_empty(r.blacklist),
        field_filter_is_empty(r.exact_whitelist) && field_filter_is_empty(r.exact_blacklist),
        size_filter_is_empty(r.lower_than) && size_filter_is_empty(r.higher_than),
        size_filter_is_empty(r.equal_to) && bool_filter_is_empty(r.bool_comp),
        r.match_any == (a.match_any && b.match_any),
        filter_query_ok(*a) && filter_query_ok(*b) ==> filter_query_ok(r),
{
    let mut new_filter = GameFilter::default();
    let ca = clone_game_filter(a);
    let cb = clone_game_filter(b);
    let mut subs: Vec<GameFilter> = Vec::new();
    subs.push(ca);
    subs.push(cb);
    new_filter.subfilters = subs;
    if a.match_any && b.match_any {
        new_filter.match_any = true;
    }
    proof {
        let s = new_filter.subfilters@;
        assert(s.drop_last().drop_last() =~= Seq::<GameFilter>::empty());
        assert(s.drop_last().last() == ca);
        if filter_query_ok(*a) && filter_query_ok(*b) {
            let s1 = s.drop_last();
            assert(crate::game::search::query::filters_ok(s1.drop_last()));
            assert(crate::game::search::query::filters_ok(s1));
            assert(crate::game::search::query::filters_ok(s));
            assert(crate::game::search::query::tags_ok(new_filter));
        }
    }
    new_filter
}

} // verus!
