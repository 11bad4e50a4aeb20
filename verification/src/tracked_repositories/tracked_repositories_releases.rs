//! The tag cache: for each tracked repository, the last tag that was seen and
//! the time at which that tag was first seen.

use crate::ids::{parse_id, uuid_value, RowError};
use crate::time::Timestamp;
use std::collections::HashMap;
use vstd::prelude::*;

verus! {

/// One row of the tag cache.
#[derive(Debug)]
pub struct CachedRepositoryRelease {
    pub tracked_repository_id: u128,
    pub tag_name: String,
    pub first_seen_at: Timestamp,
}

/// What a cache row holds for its repository.
pub struct CachedTag {
    pub tag: Seq<char>,
    pub first_seen_at: Timestamp,
}

/// A [`CachedRepositoryRelease`] over sequences of characters.
pub struct CachedRepositoryReleaseView {
    pub tracked_repository_id: u128,
    pub tag_name: Seq<char>,
    pub first_seen_at: Timestamp,
}

impl View for CachedRepositoryRelease {
    type V = CachedRepositoryReleaseView;

    open spec fn view(&self) -> CachedRepositoryReleaseView {
        CachedRepositoryReleaseView {
            tracked_repository_id: self.tracked_repository_id,
            tag_name: self.tag_name@,
            first_seen_at: self.first_seen_at,
        }
    }
}

impl CachedRepositoryRelease {
    /// What the row holds for its repository: its tag and its time, without
    /// the id under which it is kept.
    pub open spec fn content(&self) -> CachedTag {
        CachedTag { tag: self.tag_name@, first_seen_at: self.first_seen_at }
    }
}

impl CachedRepositoryRelease {
    /// The cache row that a stored row holds. The id column must hold a UUID.
    pub fn from_columns(tracked_repository_id: &str, tag_name: String, first_seen_at: Timestamp) -> (r:
        Result<Self, RowError>)
        ensures
            match r {
                Ok(row) => uuid_value(tracked_repository_id@) == Some(row.tracked_repository_id)
                    && row@ == (CachedRepositoryReleaseView {
                    tracked_repository_id: row.tracked_repository_id,
                    tag_name: tag_name@,
                    first_seen_at,
                }),
                Err(e) => uuid_value(tracked_repository_id@) is None && e == RowError::InvalidId,
            },
    {
        match parse_id(tracked_repository_id) {
            Ok(id) => Ok(CachedRepositoryRelease { tracked_repository_id: id, tag_name, first_seen_at }),
            Err(e) => Err(e),
        }
    }
}

impl Clone for CachedRepositoryRelease {
    fn clone(&self) -> (r: Self)
        ensures
            r == *self,
    {
        CachedRepositoryRelease {
            tracked_repository_id: self.tracked_repository_id,
            tag_name: self.tag_name.clone(),
            first_seen_at: self.first_seen_at,
        }
    }
}

/// The cache after `tag`, observed at `at`, is stored for `id`: a new row
/// where there was none, a new tag and time where the tag differs, and no
/// change at all where the stored tag is `tag`.
pub open spec fn upserted(
    cache: Map<u128, CachedTag>,
    id: u128,
    tag: Seq<char>,
    at: Timestamp,
) -> Map<u128, CachedTag> {
    if cache.contains_key(id) && cache[id].tag == tag {
        cache
    } else {
        cache.insert(id, CachedTag { tag, first_seen_at: at })
    }
}

/// What the cache keeps under a repository's id.
struct StoredTag {
    tag_name: String,
    first_seen_at: Timestamp,
}

/// An in-memory tag cache with one row per repository.
pub struct TagCache {
    rows: HashMap<u128, StoredTag>,
}

impl View for TagCache {
    type V = Map<u128, CachedTag>;

    closed spec fn view(&self) -> Map<u128, CachedTag> {
        Map::new(
            |id: u128| self.rows@.contains_key(id),
            |id: u128|
                CachedTag {
                    tag: self.rows@[id].tag_name@,
                    first_seen_at: self.rows@[id].first_seen_at,
                },
        )
    }
}

impl TagCache {
    /// A cache without rows.
    pub fn new() -> (cache: Self)
        ensures
            cache@ == Map::<u128, CachedTag>::empty(),
    {
        let cache = TagCache { rows: HashMap::new() };
        assert(cache@ =~= Map::<u128, CachedTag>::empty());
        cache
    }

    /// The row of `id`, if there is one.
    pub fn find_by_tracked_release_id(&self, id: u128) -> (r: Option<CachedRepositoryRelease>)
        ensures
            match r {
                Some(row) => self@.contains_key(id) && row@ == (CachedRepositoryReleaseView {
                    tracked_repository_id: id,
                    tag_name: self@[id].tag,
                    first_seen_at: self@[id].first_seen_at,
                }),
                None => !self@.contains_key(id),
            },
    {
        broadcast use vstd::std_specs::hash::group_hash_axioms;

        match self.rows.get(&id) {
            Some(row) => Some(
                CachedRepositoryRelease {
                    tracked_repository_id: id,
                    tag_name: row.tag_name.clone(),
                    first_seen_at: row.first_seen_at,
                },
            ),
            None => None,
        }
    }

    /// Stores `cached` under its id. A row with the same tag is left as it
    /// is, time included; otherwise the tag and the time of `cached` replace
    /// what was there.
    pub fn save(&mut self, cached: &CachedRepositoryRelease)
        ensures
            final(self)@ == upserted(
                old(self)@,
                cached.tracked_repository_id,
                cached.tag_name@,
                cached.first_seen_at,
            ),
    {
        broadcast use vstd::std_specs::hash::group_hash_axioms;

        let id = cached.tracked_repository_id;
        let same = match self.rows.get(&id) {
            Some(row) => row.tag_name == cached.tag_name,
            None => false,
        };
        if !same {
            let row = StoredTag {
                tag_name: cached.tag_name.clone(),
                first_seen_at: cached.first_seen_at,
            };
            self.rows.insert(id, row);
            assert(self@ =~= upserted(old(self)@, id, cached.tag_name@, cached.first_seen_at));
        }
    }
}

/// Storing the tag that a row already holds changes nothing, whatever time
/// comes with it: the time of first sight stays.
pub proof fn lemma_same_tag_keeps_row(
    cache: Map<u128, CachedTag>,
    id: u128,
    tag: Seq<char>,
    at: Timestamp,
)
    requires
        cache.contains_key(id),
        cache[id].tag == tag,
    ensures
        upserted(cache, id, tag, at) == cache,
        upserted(cache, id, tag, at)[id].first_seen_at == cache[id].first_seen_at,
{
}

/// Storing a tag that differs from the stored one, or a first tag, leaves
/// the row with the new tag and the new time, and every other row as it was.
pub proof fn lemma_new_tag_replaces_row(
    cache: Map<u128, CachedTag>,
    id: u128,
    tag: Seq<char>,
    at: Timestamp,
)
    requires
        !cache.contains_key(id) || cache[id].tag != tag,
    ensures
        upserted(cache, id, tag, at).contains_key(id),
        upserted(cache, id, tag, at)[id] == (CachedTag { tag, first_seen_at: at }),
        forall|other: u128|
            other != id ==> (upserted(cache, id, tag, at).contains_key(other)
                <==> cache.contains_key(other)),
        forall|other: u128|
            other != id && cache.contains_key(other) ==> upserted(cache, id, tag, at)[other]
                == cache[other],
{
}

/// Storing the same observation twice is the same as storing it once, and
/// a later time for the same tag does not move the time of first sight.
pub proof fn lemma_upsert_idempotent(
    cache: Map<u128, CachedTag>,
    id: u128,
    tag: Seq<char>,
    at: Timestamp,
    later: Timestamp,
)
    ensures
        upserted(upserted(cache, id, tag, at), id, tag, later) == upserted(cache, id, tag, at),
{
}

} // verus!
