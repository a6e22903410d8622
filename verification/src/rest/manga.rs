use vstd::prelude::*;

use crate::entities;

verus! {

/// A manga as the transport layer reports it.
#[derive(Debug)]
pub struct Manga {
    pub id: i64,
    pub source_id: i64,
    pub title: String,
    pub author: Vec<String>,
    pub genre: Vec<String>,
    pub status: Option<String>,
    pub description: Option<String>,
    pub path: String,
    pub cover_url: String,
}

/// The transport record for a manga: a direct field copy.
pub open spec fn spec_manga_payload(m: entities::Manga) -> Manga {
    Manga {
        id: m.id,
        source_id: m.source_id,
        title: m.title,
        author: m.author,
        genre: m.genre,
        status: m.status,
        description: m.description,
        path: m.path,
        cover_url: m.cover_url,
    }
}

impl Manga {
    /// Converts a host record into its transport shape by direct field copy.
    pub fn from_entity(m: entities::Manga) -> (r: Manga)
        ensures
            r == spec_manga_payload(m),
    {
        Manga {
            id: m.id,
            source_id: m.source_id,
            title: m.title,
            author: m.author,
            genre: m.genre,
            status: m.status,
            description: m.description,
            path: m.path,
            cover_url: m.cover_url,
        }
    }
}

/// The query parameters of a fetch-by-id request.
#[derive(Debug)]
pub struct FetchMangaByIdParams {
    pub refresh: bool,
}

/// The response carrying one manga.
#[derive(Debug)]
pub struct FetchMangaByIdResponse {
    pub manga: Manga,
}

impl FetchMangaByIdResponse {
    /// Wraps one record, converted by direct field copy.
    pub fn from_entity(m: entities::Manga) -> (r: FetchMangaByIdResponse)
        ensures
            r.manga == spec_manga_payload(m),
    {
        FetchMangaByIdResponse { manga: Manga::from_entity(m) }
    }
}

} // verus!
