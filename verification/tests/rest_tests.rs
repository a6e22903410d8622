use tanoshi::auth::Claims;
use tanoshi::entities;
use tanoshi::errors::SourceError;
use tanoshi::rest::manga::FetchMangaByIdResponse;
use tanoshi::rest::source::{
    FetchAvailableSourcesResponse, FetchInstalledSourcesResponse, FetchSourceResponse, Manga,
};
use tanoshi::rest::user::{FetchUserResponse, FetchUsersResponse};
use tanoshi::rest::{require_admin, ErrorResponse};
use tanoshi::users::UserError;

fn entity_source(id: i64, name: &str) -> entities::Source {
    entities::Source {
        id,
        name: name.to_string(),
        url: format!("https://repo.example/{name}"),
        version: "1.0.0".to_string(),
        rustc_version: "X".to_string(),
        lib_version: "Y".to_string(),
        icon: format!("{name}.png"),
        has_update: false,
    }
}

fn entity_manga(title: &str) -> entities::Manga {
    entities::Manga {
        id: 9,
        source_id: 1,
        title: title.to_string(),
        author: vec!["a".to_string()],
        genre: vec!["g".to_string()],
        status: None,
        description: Some("d".to_string()),
        path: "/m/1".to_string(),
        cover_url: "https://img.example/c.jpg".to_string(),
    }
}

fn entity_user(name: &str) -> entities::User {
    entities::User {
        id: 3,
        username: name.to_string(),
        password: "$argon2-something".to_string(),
        is_admin: false,
        telegram_chat_id: Some(44),
        pushover_user_key: None,
    }
}

#[test]
fn user_errors_map_to_status_and_message() {
    let r = ErrorResponse::from_user_error(UserError::UserNotFound);
    assert_eq!((r.http_code, r.message.as_str()), (404, "user not found"));
    let r = ErrorResponse::from_user_error(UserError::WrongPassword);
    assert_eq!((r.http_code, r.message.as_str()), (401, "wrong password"));
    let r = ErrorResponse::from_user_error(UserError::Forbidden);
    assert_eq!((r.http_code, r.message.as_str()), (403, "forbidden"));
    let r = ErrorResponse::from_user_error(UserError::InsufficientPasswordLength);
    assert_eq!((r.http_code, r.message.as_str()), (400, "password length insufficient"));
    let r = ErrorResponse::from_user_error(UserError::Other("db gone".to_string()));
    assert_eq!((r.http_code, r.message.as_str()), (500, "db gone"));
}

#[test]
fn source_errors_map_to_status_and_message() {
    let r = ErrorResponse::from_source_error(SourceError::AlreadyInstalled);
    assert_eq!(
        (r.http_code, r.message.as_str()),
        (400, "source installed, use updateSource to update")
    );
    let r = ErrorResponse::from_source_error(SourceError::IncompatibleVersion);
    assert_eq!(
        (r.http_code, r.message.as_str()),
        (400, "Incompatible version, update tanoshi server")
    );
    let r = ErrorResponse::from_source_error(SourceError::NoNewVersion);
    assert_eq!((r.http_code, r.message.as_str()), (400, "No new version"));
    let r = ErrorResponse::from_source_error(SourceError::NotFound);
    assert_eq!((r.http_code, r.message.as_str()), (404, "source not found"));
    let r = ErrorResponse::from_source_error(SourceError::NotFoundInIndex);
    assert_eq!(
        (r.http_code, r.message.as_str()),
        (404, "source not found in repository index")
    );
    let r = ErrorResponse::from_source_error(SourceError::RepoUnreachable);
    assert_eq!((r.http_code, r.message.as_str()), (502, "repository unreachable"));
    let r = ErrorResponse::from_source_error(SourceError::MalformedIndex);
    assert_eq!((r.http_code, r.message.as_str()), (502, "malformed repository index"));
    let r = ErrorResponse::from_source_error(SourceError::VersionParseError);
    assert_eq!((r.http_code, r.message.as_str()), (400, "failed to parse version"));
    let r = ErrorResponse::from_source_error(SourceError::ExecutionError);
    assert_eq!((r.http_code, r.message.as_str()), (500, "extension error"));
    let r = ErrorResponse::from_source_error(SourceError::ProtocolError);
    assert_eq!((r.http_code, r.message.as_str()), (500, "protocol error"));
}

#[test]
fn only_admins_pass_the_admin_gate() {
    let admin = Claims { sub: 1, username: "a".to_string(), is_admin: true, exp: 10 };
    assert!(require_admin(&admin, "forbidden").is_ok());
    let reader = Claims { sub: 2, username: "r".to_string(), is_admin: false, exp: 10 };
    let err = require_admin(&reader, "forbidden").unwrap_err();
    assert_eq!((err.http_code, err.message.as_str()), (403, "forbidden"));
    let err = require_admin(&reader, "only admin can create user").unwrap_err();
    assert_eq!(
        (err.http_code, err.message.as_str()),
        (403, "only admin can create user")
    );
}

#[test]
fn source_responses_copy_fields_in_order() {
    let r = FetchInstalledSourcesResponse::from_entities(vec![
        entity_source(1, "foo"),
        entity_source(2, "bar"),
    ]);
    assert_eq!(r.sources.len(), 2);
    assert_eq!(r.sources[0].id, 1);
    assert_eq!(r.sources[0].name, "foo");
    assert_eq!(r.sources[0].rustc_version, "X");
    assert_eq!(r.sources[1].name, "bar");

    let r = FetchAvailableSourcesResponse::from_entities(vec![entity_source(3, "baz")]);
    assert_eq!(r.sources.len(), 1);
    assert_eq!(r.sources[0].icon, "baz.png");

    let r = FetchSourceResponse::from_entity(entity_source(4, "qux"));
    assert_eq!(r.source.id, 4);
    assert_eq!(r.source.url, "https://repo.example/qux");
}

#[test]
fn manga_payloads_copy_fields() {
    let r = FetchMangaByIdResponse::from_entity(entity_manga("t"));
    assert_eq!(r.manga.id, 9);
    assert_eq!(r.manga.title, "t");
    assert_eq!(r.manga.description.as_deref(), Some("d"));

    let m = Manga::from_entity(entity_manga("t"), "proxied-cover".to_string());
    assert_eq!(m.source_id, 1);
    assert_eq!(m.title, "t");
    assert_eq!(m.path, "/m/1");
    assert_eq!(m.cover_url, "proxied-cover");
}

#[test]
fn user_payloads_drop_the_password_hash() {
    let r = FetchUserResponse::from_entity(entity_user("alice"));
    assert_eq!(r.user.id, 3);
    assert_eq!(r.user.username, "alice");
    assert_eq!(r.user.telegram_chat_id, Some(44));

    let r = FetchUsersResponse::from_entities(vec![entity_user("a"), entity_user("b")]);
    assert_eq!(r.users.len(), 2);
    assert_eq!(r.users[0].username, "a");
    assert_eq!(r.users[1].username, "b");
}
