//! The avatar cache: for each user, the avatar last fetched.
//!
//! The records live in a `dashmap::DashMap`. What the cache holds is named
//! by [`cached_avatars`]; the three functions below that call into `dashmap`
//! are believed, not proved.

use crate::avatar::{avatar_view, AvatarData, AvatarView};
use dashmap::DashMap;
use std::sync::Arc;
use vstd::prelude::*;

verus! {

/// `dashmap::DashMap`, carried through verified code as an opaque value.
#[verifier::external_type_specification]
#[verifier::external_body]
#[verifier::reject_recursive_types(K)]
#[verifier::reject_recursive_types(V)]
#[verifier::reject_recursive_types(S)]
pub struct ExDashMap<K, V, S>(DashMap<K, V, S>);

/// The entries of a map of avatars: for each user that has one, the record.
pub uninterp spec fn cached_avatars(map: DashMap<u64, Arc<AvatarData>>) -> Map<u64, AvatarView>;

/// `DashMap::new`: a map without entries.
#[verifier::external_body]
fn empty_map() -> (created: DashMap<u64, Arc<AvatarData>>)
    ensures
        cached_avatars(created) == (Map::<u64, AvatarView>::empty()),
{
    DashMap::new()
}

/// `DashMap::get`: the record stored under `user`, shared, or `None` where
/// the map has no entry for `user`. The reference into the map is given up
/// before the function returns.
#[verifier::external_body]
fn map_get(map: &DashMap<u64, Arc<AvatarData>>, user: u64) -> (found: Option<Arc<AvatarData>>)
    ensures
        match found {
            Some(record) => cached_avatars(*map).contains_key(user) && cached_avatars(*map)[user]
                == record@,
            None => !cached_avatars(*map).contains_key(user),
        },
{
    match map.get(&user) {
        Some(entry) => Some(Arc::clone(entry.value())),
        None => None,
    }
}

/// `DashMap::insert`: afterwards `user` has the record `record`, in place
/// of any it had, and every other user has what it had.
#[verifier::external_body]
fn map_insert(map: &mut DashMap<u64, Arc<AvatarData>>, user: u64, record: &Arc<AvatarData>)
    ensures
        cached_avatars(*final(map)) == cached_avatars(*old(map)).insert(user, record@),
{
    map.insert(user, Arc::clone(record));
}

/// The avatar cache.
pub struct AvatarCache {
    entries: DashMap<u64, Arc<AvatarData>>,
}

impl View for AvatarCache {
    type V = Map<u64, AvatarView>;

    closed spec fn view(&self) -> Map<u64, AvatarView> {
        cached_avatars(self.entries)
    }
}

impl AvatarCache {
    /// A cache without records.
    pub fn new() -> (cache: AvatarCache)
        ensures
            cache@ == Map::<u64, AvatarView>::empty(),
    {
        AvatarCache { entries: empty_map() }
    }

    /// The record kept for `user`, if any.
    pub fn get(&self, user: u64) -> (found: Option<Arc<AvatarData>>)
        ensures
            avatar_view(found) == (if self@.contains_key(user) {
                Some(self@[user])
            } else {
                None
            }),
    {
        map_get(&self.entries, user)
    }

    /// Keeps `record` for `user`, in place of any record kept before. The
    /// records of other users stay as they are.
    pub fn insert(&mut self, user: u64, record: &Arc<AvatarData>)
        ensures
            final(self)@ == old(self)@.insert(user, record@),
    {
        map_insert(&mut self.entries, user, record);
    }
}

} // verus!
