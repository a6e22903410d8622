use vstd::prelude::*;

use crate::models::{ChapterInfo, MangaInfo};

verus! {

/// An installed source plugin record.  `version`, `rustc_version` and
/// `lib_version` always reflect the currently loaded package, never the
/// remote manifest; `has_update` is never stored meaningfully, it is
/// computed at query time.
#[derive(Debug)]
pub struct Source {
    pub id: i64,
    pub name: String,
    pub url: String,
    pub version: String,
    pub rustc_version: String,
    pub lib_version: String,
    pub icon: String,
    pub has_update: bool,
}

impl Source {
    /// A field-by-field copy, equal to `*self`.
    pub fn duplicate(&self) -> (r: Source)
        ensures
            r == *self,
    {
        Source {
            id: self.id,
            name: self.name.clone(),
            url: self.url.clone(),
            version: self.version.clone(),
            rustc_version: self.rustc_version.clone(),
            lib_version: self.lib_version.clone(),
            icon: self.icon.clone(),
            has_update: self.has_update,
        }
    }
}

/// A manga record on the host side.
#[derive(Debug)]
pub struct Manga {
    pub id: i64,
    pub source_id: i64,
    pub title: String,
    pub author: Vec<String>,
    pub genre: Vec<String>,
    pub status: Option<String>,
    pub description: Option<String>,
    pub path: String,
    pub cover_url: String,
}

/// The host manga record made from a plugin record: a direct field copy,
/// with no database identity yet.
pub open spec fn spec_manga_from_info(m: MangaInfo) -> Manga {
    Manga {
        id: 0,
        source_id: m.source_id,
        title: m.title,
        author: m.author,
        genre: m.genre,
        status: m.status,
        description: m.description,
        path: m.path,
        cover_url: m.cover_url,
    }
}

impl Manga {
    /// Converts a plugin record into a host record by direct field copy.
    pub fn from_info(m: MangaInfo) -> (r: Manga)
        ensures
            r == spec_manga_from_info(m),
    {
        Manga {
            id: 0,
            source_id: m.source_id,
            title: m.title,
            author: m.author,
            genre: m.genre,
            status: m.status,
            description: m.description,
            path: m.path,
            cover_url: m.cover_url,
        }
    }
}

/// A chapter record on the host side.
#[derive(Debug)]
pub struct Chapter {
    pub id: i64,
    pub source_id: i64,
    pub manga_id: i64,
    pub title: String,
    pub path: String,
    pub number: i64,
    pub scanlator: String,
    pub uploaded: i64,
}

/// The host chapter record made from a plugin record: a direct field copy
/// with no database identity and no owning manga yet.
pub open spec fn spec_chapter_from_info(c: ChapterInfo) -> Chapter {
    Chapter {
        id: 0,
        source_id: c.source_id,
        manga_id: 0,
        title: c.title,
        path: c.path,
        number: c.number,
        scanlator: c.scanlator,
        uploaded: c.uploaded,
    }
}

impl Chapter {
    /// Converts a plugin record into a host record by direct field copy.
    pub fn from_info(c: ChapterInfo) -> (r: Chapter)
        ensures
            r == spec_chapter_from_info(c),
    {
        Chapter {
            id: 0,
            source_id: c.source_id,
            manga_id: 0,
            title: c.title,
            path: c.path,
            number: c.number,
            scanlator: c.scanlator,
            uploaded: c.uploaded,
        }
    }
}

/// Search filters handed through to a plugin, as ordered key/value pairs.
#[derive(Debug)]
pub struct Filters(pub Vec<(String, String)>);

impl Filters {
    /// The pairs the filter was built from.
    pub fn into_inner(self) -> (r: Vec<(String, String)>)
        ensures
            r == self.0,
    {
        self.0
    }
}

/// A user account record.
#[derive(Debug)]
pub struct User {
    pub id: i64,
    pub username: String,
    pub password: String,
    pub is_admin: bool,
    pub telegram_chat_id: Option<i64>,
    pub pushover_user_key: Option<String>,
}

impl Default for User {
    /// The empty account: no identity, no credentials, no channels.
    fn default() -> (r: User)
        ensures
            r.id == 0,
            r.username@ == Seq::<char>::empty(),
            r.password@ == Seq::<char>::empty(),
            r.is_admin == false,
            r.telegram_chat_id is None,
            r.pushover_user_key is None,
    {
        User {
            id: 0,
            username: String::new(),
            password: String::new(),
            is_admin: false,
            telegram_chat_id: None,
            pushover_user_key: None,
        }
    }
}

} // verus!
