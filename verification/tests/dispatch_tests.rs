use tanoshi::errors::{DispatchFailure, SourceError};
use tanoshi::index::SourceDto;
use tanoshi::models::{ChapterInfo, MangaInfo};
use tanoshi::registry::Handle;
use tanoshi::repository::SourceRepository;

fn repo_with_source(id: i64) -> SourceRepository {
    let mut repo = SourceRepository::new("X".to_string(), "Y".to_string());
    let index = vec![SourceDto {
        id,
        name: "foo".to_string(),
        url: "https://repo.example/foo".to_string(),
        version: "1.0.0".to_string(),
        rustc_version: "X".to_string(),
        lib_version: "Y".to_string(),
        icon: "foo.png".to_string(),
    }];
    let d = repo.prepare_install(&index, id).unwrap();
    repo.commit_install(&d, Handle { token: 42 }).unwrap();
    repo
}

fn manga_info(title: &str) -> MangaInfo {
    MangaInfo {
        source_id: 1,
        title: title.to_string(),
        author: vec!["a1".to_string(), "a2".to_string()],
        genre: vec!["g".to_string()],
        status: Some("Ongoing".to_string()),
        description: Some("d".to_string()),
        path: format!("/manga/{title}"),
        cover_url: format!("https://img.example/{title}.jpg"),
    }
}

#[test]
fn dispatch_to_absent_source_fails_not_found() {
    let repo = SourceRepository::new("X".to_string(), "Y".to_string());
    let r = repo.get_popular_manga(9, Ok(vec![manga_info("m")]));
    assert_eq!(r.unwrap_err(), SourceError::NotFound);
    let r = repo.get_pages(9, Ok(vec!["p1".to_string()]));
    assert_eq!(r.unwrap_err(), SourceError::NotFound);
}

#[test]
fn dispatch_after_uninstall_fails_not_found() {
    let mut repo = repo_with_source(1);
    repo.uninstall_source(1).unwrap();
    assert!(!repo.exists_source(1));
    let r = repo.get_latest_manga(1, Ok(vec![]));
    assert_eq!(r.unwrap_err(), SourceError::NotFound);
    let r = repo.get_manga_by_source_path(1, Ok(manga_info("m")));
    assert_eq!(r.unwrap_err(), SourceError::NotFound);
}

#[test]
fn collaborator_failures_surface_as_their_errors() {
    let repo = repo_with_source(1);
    let r = repo.get_popular_manga(1, Err(DispatchFailure::Execution));
    assert_eq!(r.unwrap_err(), SourceError::ExecutionError);
    let r = repo.search_manga(1, Err(DispatchFailure::Protocol));
    assert_eq!(r.unwrap_err(), SourceError::ProtocolError);
    let r = repo.get_chapters_by_source_path(1, Err(DispatchFailure::Execution));
    assert_eq!(r.unwrap_err(), SourceError::ExecutionError);
    let r = repo.get_pages(1, Err(DispatchFailure::Protocol));
    assert_eq!(r.unwrap_err(), SourceError::ProtocolError);
}

#[test]
fn manga_records_are_copied_field_by_field_in_order() {
    let repo = repo_with_source(1);
    let fetched = vec![manga_info("one"), manga_info("two")];
    let out = repo.get_popular_manga(1, Ok(fetched)).unwrap();
    assert_eq!(out.len(), 2);
    assert_eq!(out[0].id, 0);
    assert_eq!(out[0].source_id, 1);
    assert_eq!(out[0].title, "one");
    assert_eq!(out[0].author, vec!["a1".to_string(), "a2".to_string()]);
    assert_eq!(out[0].genre, vec!["g".to_string()]);
    assert_eq!(out[0].status.as_deref(), Some("Ongoing"));
    assert_eq!(out[0].description.as_deref(), Some("d"));
    assert_eq!(out[0].path, "/manga/one");
    assert_eq!(out[0].cover_url, "https://img.example/one.jpg");
    assert_eq!(out[1].title, "two");
}

#[test]
fn detail_record_is_copied_field_by_field() {
    let repo = repo_with_source(1);
    let out = repo.get_manga_by_source_path(1, Ok(manga_info("solo"))).unwrap();
    assert_eq!(out.id, 0);
    assert_eq!(out.title, "solo");
    assert_eq!(out.path, "/manga/solo");
}

#[test]
fn chapter_records_are_copied_in_order() {
    let repo = repo_with_source(1);
    let fetched = vec![
        ChapterInfo {
            source_id: 1,
            title: "c1".to_string(),
            path: "/c/1".to_string(),
            number: 1,
            scanlator: "grp".to_string(),
            uploaded: 1700000000,
        },
        ChapterInfo {
            source_id: 1,
            title: "c2".to_string(),
            path: "/c/2".to_string(),
            number: 2,
            scanlator: "grp".to_string(),
            uploaded: 1700000500,
        },
    ];
    let out = repo.get_chapters_by_source_path(1, Ok(fetched)).unwrap();
    assert_eq!(out.len(), 2);
    assert_eq!(out[0].id, 0);
    assert_eq!(out[0].manga_id, 0);
    assert_eq!(out[0].title, "c1");
    assert_eq!(out[0].number, 1);
    assert_eq!(out[1].path, "/c/2");
    assert_eq!(out[1].uploaded, 1700000500);
}

#[test]
fn pages_pass_through_unchanged() {
    let repo = repo_with_source(1);
    let out = repo
        .get_pages(1, Ok(vec!["https://img.example/1.png".to_string(), "2.png".to_string()]))
        .unwrap();
    assert_eq!(out, vec!["https://img.example/1.png".to_string(), "2.png".to_string()]);
}

#[test]
fn resolve_yields_the_registered_handle() {
    let repo = repo_with_source(1);
    assert_eq!(repo.resolve(1).unwrap().token, 42);
    assert_eq!(repo.resolve(2).unwrap_err(), SourceError::NotFound);
}
