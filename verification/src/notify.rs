use vstd::prelude::*;

use crate::entities::User;

verus! {

/// One delivery a notification plan asks for.  The sending itself is
/// outside work; this module only decides who gets what.
#[derive(Debug)]
pub enum NotificationTarget {
    /// A push message to the account's push channel.
    Pushover { user_key: String, title: Option<String>, body: String },
    /// A chat message to the account's chat channel.
    Telegram { chat_id: i64, message: String },
}

/// The chat message text: the title, when there is one, set in bold on its
/// own line above the body.
pub open spec fn spec_telegram_message(title: Option<String>, body: Seq<char>) -> Seq<char> {
    match title {
        Some(t) => "<b>"@ + t@ + "</b>\n"@ + body,
        None => body,
    }
}

fn clone_title(title: &Option<String>) -> (r: Option<String>)
    ensures
        r == *title,
{
    match title {
        Some(t) => Some(t.clone()),
        None => None,
    }
}

fn telegram_message(title: &Option<String>, body: &String) -> (r: String)
    ensures
        r@ == spec_telegram_message(*title, body@),
{
    match title {
        Some(t) => {
            let s = "<b>".to_owned();
            let s = s.concat(t.as_str());
            let s = s.concat("</b>\n");
            s.concat(body.as_str())
        },
        None => body.clone(),
    }
}

/// The deliveries a notification to one account asks for: one push message
/// when the account has a push key, then one chat message when it has a
/// chat id, and nothing else.
pub fn plan_user_notification(user: &User, title: &Option<String>, body: &String) -> (r: Vec<
    NotificationTarget,
>)
    ensures
        r@.len() == (if user.pushover_user_key is Some {
            1int
        } else {
            0int
        }) + (if user.telegram_chat_id is Some {
            1int
        } else {
            0int
        }),
        user.pushover_user_key matches Some(k) ==> r@[0] == (NotificationTarget::Pushover {
            user_key: k,
            title: *title,
            body: *body,
        }),
        user.telegram_chat_id matches Some(c) ==> (r@[r@.len() - 1] matches NotificationTarget::Telegram {
            chat_id,
            message,
        } && chat_id == c && message@ == spec_telegram_message(*title, body@)),
{
    let mut out: Vec<NotificationTarget> = Vec::new();
    match &user.pushover_user_key {
        Some(k) => {
            out.push(
                NotificationTarget::Pushover {
                    user_key: k.clone(),
                    title: clone_title(title),
                    body: body.clone(),
                },
            );
        },
        None => {},
    }
    match &user.telegram_chat_id {
        Some(c) => {
            out.push(NotificationTarget::Telegram { chat_id: *c, message: telegram_message(title, body) });
        },
        None => {},
    }
    out
}

} // verus!
