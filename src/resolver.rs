use vstd::prelude::*;

use crate::catalog::{pairs_of, Game};
use crate::distance::{edit_distance, levenshtein, lemma_distance_to_self};

verus! {

/// Entry `i` of `entries` is the one closest to `query`: no entry is nearer,
/// and every entry before it is strictly farther (the first of equals wins).
pub open spec fn is_closest(query: Seq<char>, entries: Seq<(u32, Seq<char>)>, i: int) -> bool {
    &&& 0 <= i < entries.len()
    &&& forall|j: int|
        0 <= j < entries.len() ==> edit_distance(query, entries[i].1) <= #[trigger] edit_distance(
            query,
            entries[j].1,
        )
    &&& forall|j: int|
        0 <= j < i ==> edit_distance(query, entries[i].1) < #[trigger] edit_distance(
            query,
            entries[j].1,
        )
}

/// What resolving `query` against `entries` may return: nothing exactly when
/// there are no entries, and otherwise the identifier and name of the closest
/// entry.
pub open spec fn resolves_to(
    query: Seq<char>,
    entries: Seq<(u32, Seq<char>)>,
    r: Option<(u32, String)>,
) -> bool {
    match r {
        None => entries.len() == 0,
        Some(found) => exists|i: int| is_closest(query, entries, i) && entries[i] == (found.0, found.1@),
    }
}

/// The identifier and name of the game whose name is nearest to `input` by
/// edit distance, compared case-sensitively; among equally near games the
/// first wins. There is no distance limit: a non-empty list always yields a
/// game, and only an empty one yields `None`.
pub fn find_closest_match(input: &str, games: &[Game]) -> (r: Option<(u32, String)>)
    ensures
        resolves_to(input@, pairs_of(games@), r),
        r is None <==> games@.len() == 0,
{
    let ghost entries = pairs_of(games@);
    let mut found = false;
    let mut best: usize = 0;
    let mut best_distance: usize = 0;
    let mut i: usize = 0;
    while i < games.len()
        invariant
            entries == pairs_of(games@),
            i <= games@.len(),
            found <==> i > 0,
            found ==> best < i,
            found ==> best_distance as nat == edit_distance(input@, entries[best as int].1),
            found ==> forall|j: int| 0 <= j < i ==> best_distance <= #[trigger] edit_distance(input@, entries[j].1),
            found ==> forall|j: int| 0 <= j < best ==> best_distance < #[trigger] edit_distance(input@, entries[j].1),
        decreases games@.len() - i,
    {
        let distance = levenshtein(input, games[i].name.as_str());
        assert(entries[i as int].1 == games@[i as int].name@);
        if !found || distance < best_distance {
            found = true;
            best = i;
            best_distance = distance;
        }
        i = i + 1;
    }
    if found {
        let r = Some((games[best].appid, games[best].name.clone()));
        assert(is_closest(input@, entries, best as int));
        r
    } else {
        None
    }
}

/// Over a non-empty catalog, resolving always yields a game, and that game is
/// one of the catalog's entries: no identifier is made up.
pub proof fn lemma_match_is_catalog_entry(
    query: Seq<char>,
    entries: Seq<(u32, Seq<char>)>,
    r: Option<(u32, String)>,
)
    requires
        entries.len() > 0,
        resolves_to(query, entries, r),
    ensures
        match r {
            Some(found) => exists|i: int|
                0 <= i < entries.len() && entries[i] == (found.0, found.1@),
            None => false,
        },
{
}

/// Over an empty catalog, resolving never yields a game.
pub proof fn lemma_empty_catalog_has_no_match(
    query: Seq<char>,
    entries: Seq<(u32, Seq<char>)>,
    r: Option<(u32, String)>,
)
    requires
        entries.len() == 0,
        resolves_to(query, entries, r),
    ensures
        r is None,
{
}

/// When some name equals the query exactly, the entry that resolving yields
/// is at distance zero from the query; and the closest entry is the only one
/// of its kind, so ties go to the earliest entry.
pub proof fn lemma_exact_name_wins(
    query: Seq<char>,
    entries: Seq<(u32, Seq<char>)>,
    exact: int,
    i: int,
    k: int,
)
    requires
        0 <= exact < entries.len(),
        entries[exact].1 == query,
        is_closest(query, entries, i),
        is_closest(query, entries, k),
    ensures
        edit_distance(query, entries[i].1) == 0,
        i == k,
        forall|j: int| 0 <= j < i ==> entries[j].1 != query,
{
    lemma_distance_to_self(query);
    assert(edit_distance(query, entries[exact].1) == 0);
    if i < k {
        assert(edit_distance(query, entries[k].1) < edit_distance(query, entries[i].1));
    } else if k < i {
        assert(edit_distance(query, entries[i].1) < edit_distance(query, entries[k].1));
    }
    assert forall|j: int| 0 <= j < i implies entries[j].1 != query by {
        if entries[j].1 == query {
            assert(edit_distance(query, entries[j].1) == 0);
        }
    }
}

} // verus!
