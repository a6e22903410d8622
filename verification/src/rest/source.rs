use vstd::prelude::*;

use crate::entities;
use crate::entities::Filters;

verus! {

/// A source as the transport layer reports it.
#[derive(Debug)]
pub struct Source {
    pub id: i64,
    pub name: String,
    pub url: String,
    pub version: String,
    pub rustc_version: String,
    pub lib_version: String,
    pub icon: String,
    pub has_update: bool,
}

/// The transport record for a source: a direct field copy.
pub open spec fn spec_source_payload(s: entities::Source) -> Source {
    Source {
        id: s.id,
        name: s.name,
        url: s.url,
        version: s.version,
        rustc_version: s.rustc_version,
        lib_version: s.lib_version,
        icon: s.icon,
        has_update: s.has_update,
    }
}

impl Source {
    /// Converts a host record into its transport shape by direct field copy.
    pub fn from_entity(s: entities::Source) -> (r: Source)
        ensures
            r == spec_source_payload(s),
    {
        Source {
            id: s.id,
            name: s.name,
            url: s.url,
            version: s.version,
            rustc_version: s.rustc_version,
            lib_version: s.lib_version,
            icon: s.icon,
            has_update: s.has_update,
        }
    }
}

/// Converts a list of host records in order.
fn source_payloads(items: Vec<entities::Source>) -> (r: Vec<Source>)
    ensures
        r@.len() == items@.len(),
        forall|i: int| 0 <= i < items@.len() ==> r@[i] == spec_source_payload(items@[i]),
{
    let mut out: Vec<Source> = Vec::new();
    let mut rest = items;
    let ghost all = rest@;
    while rest.len() > 0
        invariant
            out@.len() + rest@.len() == all.len(),
            rest@ =~= all.subrange(out@.len() as int, all.len() as int),
            forall|k: int| 0 <= k < out@.len() ==> out@[k] == spec_source_payload(all[k]),
        decreases rest@.len(),
    {
        let ghost done = out@.len() as int;
        let item = rest.remove(0);
        proof {
            assert(item == all[done]);
            assert(rest@ =~= all.subrange(done + 1, all.len() as int));
        }
        out.push(Source::from_entity(item));
    }
    out
}

/// The response listing the installed sources.
#[derive(Debug)]
pub struct FetchInstalledSourcesResponse {
    pub sources: Vec<Source>,
}

impl FetchInstalledSourcesResponse {
    /// Wraps the installed records, each converted by direct field copy in
    /// order.
    pub fn from_entities(items: Vec<entities::Source>) -> (r: FetchInstalledSourcesResponse)
        ensures
            r.sources@.len() == items@.len(),
            forall|i: int|
                0 <= i < items@.len() ==> r.sources@[i] == spec_source_payload(items@[i]),
    {
        FetchInstalledSourcesResponse { sources: source_payloads(items) }
    }
}

/// The response listing the sources available to install.
#[derive(Debug)]
pub struct FetchAvailableSourcesResponse {
    pub sources: Vec<Source>,
}

impl FetchAvailableSourcesResponse {
    /// Wraps the available records, each converted by direct field copy in
    /// order.
    pub fn from_entities(items: Vec<entities::Source>) -> (r: FetchAvailableSourcesResponse)
        ensures
            r.sources@.len() == items@.len(),
            forall|i: int|
                0 <= i < items@.len() ==> r.sources@[i] == spec_source_payload(items@[i]),
    {
        FetchAvailableSourcesResponse { sources: source_payloads(items) }
    }
}

/// The response carrying one source.
#[derive(Debug)]
pub struct FetchSourceResponse {
    pub source: Source,
}

impl FetchSourceResponse {
    /// Wraps one record, converted by direct field copy.
    pub fn from_entity(s: entities::Source) -> (r: FetchSourceResponse)
        ensures
            r.source == spec_source_payload(s),
    {
        FetchSourceResponse { source: Source::from_entity(s) }
    }
}

/// The query parameters of a popular-catalog request.
#[derive(Debug)]
pub struct FetchPopularMangaParams {
    pub page: i64,
}

/// A catalog entry as the transport layer reports it; the cover location is
/// handed in already proxied for the client.
#[derive(Debug)]
pub struct Manga {
    pub source_id: i64,
    pub title: String,
    pub path: String,
    pub cover_url: String,
}

impl Manga {
    /// Converts a host record into its transport shape: a direct field
    /// copy, but the cover location is replaced by the proxied one the
    /// caller prepared.
    pub fn from_entity(m: entities::Manga, cover_url: String) -> (r: Manga)
        ensures
            r.source_id == m.source_id,
            r.title == m.title,
            r.path == m.path,
            r.cover_url == cover_url,
    {
        Manga { source_id: m.source_id, title: m.title, path: m.path, cover_url }
    }
}

/// The response of a popular-catalog request.
#[derive(Debug)]
pub struct FetchPopularMangaResponse {
    pub manga: Vec<Manga>,
}

/// The query parameters of a latest-catalog request.
#[derive(Debug)]
pub struct FetchLatestMangaParams {
    pub page: i64,
}

/// The response of a latest-catalog request.
#[derive(Debug)]
pub struct FetchLatestMangaResponse {
    pub manga: Vec<Manga>,
}

/// The body of a search request.
#[derive(Debug)]
pub struct SearchMangaRequest {
    pub query: Option<String>,
    pub filters: Option<Filters>,
}

/// The query parameters of a search request.
#[derive(Debug)]
pub struct SearchMangaParams {
    pub page: i64,
}

/// The response of a search request.
#[derive(Debug)]
pub struct SearchMangaResponse {
    pub manga: Vec<Manga>,
}

} // verus!
