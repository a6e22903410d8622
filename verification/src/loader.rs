use vstd::prelude::*;

verus! {

/// The batched reader behind the query layer: one loader over the four
/// repositories whose records the per-request caches batch by key.
#[derive(Debug)]
pub struct DatabaseLoader<H, L, M, T> {
    pub history_repo: H,
    pub library_repo: L,
    pub manga_repo: M,
    pub tracker_repo: T,
}

impl<H, L, M, T> DatabaseLoader<H, L, M, T> {
    /// A loader over the given repositories.
    pub fn new(history_repo: H, library_repo: L, manga_repo: M, tracker_repo: T) -> (r:
        DatabaseLoader<H, L, M, T>)
        ensures
            r.history_repo == history_repo,
            r.library_repo == library_repo,
            r.manga_repo == manga_repo,
            r.tracker_repo == tracker_repo,
    {
        DatabaseLoader { history_repo, library_repo, manga_repo, tracker_repo }
    }
}

/// A favorite lookup key: user id and manga id.
#[derive(Debug, Clone, PartialEq, Eq, Hash)]
pub struct UserFavoriteId(pub i64, pub i64);

/// A favorite lookup key: user id and manga path.
#[derive(Debug, Clone, PartialEq, Eq, Hash)]
pub struct UserFavoritePath(pub i64, pub String);

/// A last-read lookup key: user id and manga id.
#[derive(Debug, Clone, PartialEq, Eq, Hash)]
pub struct UserLastReadId(pub i64, pub i64);

/// An unread-count lookup key: user id and manga id.
#[derive(Debug, Clone, PartialEq, Eq, Hash)]
pub struct UserUnreadChaptersId(pub i64, pub i64);

/// A read-progress lookup key: user id and chapter id.
#[derive(Debug, Clone, PartialEq, Eq, Hash)]
pub struct UserHistoryId(pub i64, pub i64);

/// A manga lookup key.
#[derive(Debug, Clone, PartialEq, Eq, Hash)]
pub struct MangaId(pub i64);

/// A tracker lookup key: user id and manga id.
#[derive(Debug, Clone, PartialEq, Eq, Hash)]
pub struct UserTrackerMangaId(pub i64, pub i64);

/// A category-count lookup key: user id and optional category id.
#[derive(Debug, Clone, PartialEq, Eq, Hash)]
pub struct UserCategoryId(pub i64, pub Option<i64>);

} // verus!
