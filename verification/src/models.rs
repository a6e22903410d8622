use vstd::prelude::*;

verus! {

/// Manga details as a plugin hands them across the boundary, normalized
/// across sources.  This is the interchange shape of the dispatch bus; the
/// host converts it field by field into its own record.
#[derive(Debug)]
pub struct MangaInfo {
    pub source_id: i64,
    pub title: String,
    pub author: Vec<String>,
    pub genre: Vec<String>,
    pub status: Option<String>,
    pub description: Option<String>,
    pub path: String,
    pub cover_url: String,
}

/// Chapter details as a plugin hands them across the boundary.
#[derive(Debug)]
pub struct ChapterInfo {
    pub source_id: i64,
    pub title: String,
    pub path: String,
    pub number: i64,
    pub scanlator: String,
    pub uploaded: i64,
}

} // verus!
