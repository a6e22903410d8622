use tanoshi::entities::User;
use tanoshi::models::ChapterInfo;
use tanoshi::notify::{plan_user_notification, NotificationTarget};
use tanoshi::services::chapters_with_manga_id;

fn account(telegram: Option<i64>, pushover: Option<&str>) -> User {
    User {
        id: 1,
        username: "alice".to_string(),
        password: "hash".to_string(),
        is_admin: false,
        telegram_chat_id: telegram,
        pushover_user_key: pushover.map(str::to_string),
    }
}

#[test]
fn plan_covers_both_channels_push_first() {
    let user = account(Some(99), Some("key"));
    let plan = plan_user_notification(
        &user,
        &Some("New chapter".to_string()),
        &"Chapter 5 is out".to_string(),
    );
    assert_eq!(plan.len(), 2);
    match &plan[0] {
        NotificationTarget::Pushover { user_key, title, body } => {
            assert_eq!(user_key, "key");
            assert_eq!(title.as_deref(), Some("New chapter"));
            assert_eq!(body, "Chapter 5 is out");
        }
        other => panic!("expected the push delivery first, got {other:?}"),
    }
    match &plan[1] {
        NotificationTarget::Telegram { chat_id, message } => {
            assert_eq!(*chat_id, 99);
            assert_eq!(message, "<b>New chapter</b>\nChapter 5 is out");
        }
        other => panic!("expected the chat delivery second, got {other:?}"),
    }
}

#[test]
fn plan_without_title_sends_the_bare_body() {
    let user = account(Some(99), None);
    let plan = plan_user_notification(&user, &None, &"just text".to_string());
    assert_eq!(plan.len(), 1);
    match &plan[0] {
        NotificationTarget::Telegram { chat_id, message } => {
            assert_eq!(*chat_id, 99);
            assert_eq!(message, "just text");
        }
        other => panic!("expected a chat delivery, got {other:?}"),
    }
}

#[test]
fn plan_for_an_account_without_channels_is_empty() {
    let user = account(None, None);
    let plan = plan_user_notification(&user, &Some("t".to_string()), &"b".to_string());
    assert!(plan.is_empty());
}

#[test]
fn fetched_chapters_are_owned_by_the_given_manga() {
    let items = vec![
        ChapterInfo {
            source_id: 4,
            title: "c1".to_string(),
            path: "/c/1".to_string(),
            number: 1,
            scanlator: "s".to_string(),
            uploaded: 1,
        },
        ChapterInfo {
            source_id: 4,
            title: "c2".to_string(),
            path: "/c/2".to_string(),
            number: 2,
            scanlator: "s".to_string(),
            uploaded: 2,
        },
    ];
    let chapters = chapters_with_manga_id(items, 77);
    assert_eq!(chapters.len(), 2);
    assert_eq!(chapters[0].manga_id, 77);
    assert_eq!(chapters[0].source_id, 4);
    assert_eq!(chapters[0].title, "c1");
    assert_eq!(chapters[1].manga_id, 77);
    assert_eq!(chapters[1].path, "/c/2");
}
