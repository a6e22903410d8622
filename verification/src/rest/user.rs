use vstd::prelude::*;

use crate::entities;

verus! {

/// The body of a login request.
#[derive(Debug)]
pub struct LoginRequest {
    pub username: String,
    pub password: String,
}

/// The response of a successful login: the signed session token.
#[derive(Debug)]
pub struct LoginResponse {
    pub token: String,
}

/// The body of an admin-driven account creation.
#[derive(Debug)]
pub struct CreateUserRequest {
    pub username: String,
    pub password: String,
    pub is_admin: bool,
}

/// The body of a self-registration.
#[derive(Debug)]
pub struct RegisterRequest {
    pub username: String,
    pub password: String,
    pub is_admin: bool,
}

/// The body of a password change.
#[derive(Debug)]
pub struct ChangePasswordRequest {
    pub old_password: String,
    pub new_password: String,
}

/// The body setting or clearing an account's chat channel.
#[derive(Debug)]
pub struct UpdateTelegramChatIdRequest {
    pub chat_id: Option<i64>,
}

/// The body setting or clearing an account's push channel key.
#[derive(Debug)]
pub struct UpdatePushoverUserKeyRequest {
    pub user_key: Option<String>,
}

/// An account as the transport layer reports it: everything but the
/// password hash, which never leaves the host.
#[derive(Debug)]
pub struct User {
    pub id: i64,
    pub username: String,
    pub is_admin: bool,
    pub telegram_chat_id: Option<i64>,
    pub pushover_user_key: Option<String>,
}

/// The transport record for an account: a direct field copy that leaves the
/// password hash behind.
pub open spec fn spec_user_payload(u: entities::User) -> User {
    User {
        id: u.id,
        username: u.username,
        is_admin: u.is_admin,
        telegram_chat_id: u.telegram_chat_id,
        pushover_user_key: u.pushover_user_key,
    }
}

impl User {
    /// Converts an account record into its transport shape, dropping the
    /// password hash.
    pub fn from_entity(u: entities::User) -> (r: User)
        ensures
            r == spec_user_payload(u),
    {
        User {
            id: u.id,
            username: u.username,
            is_admin: u.is_admin,
            telegram_chat_id: u.telegram_chat_id,
            pushover_user_key: u.pushover_user_key,
        }
    }
}

/// The response listing every account.
#[derive(Debug)]
pub struct FetchUsersResponse {
    pub users: Vec<User>,
}

impl FetchUsersResponse {
    /// Wraps the account records, each converted in order with the password
    /// hash dropped.
    pub fn from_entities(items: Vec<entities::User>) -> (r: FetchUsersResponse)
        ensures
            r.users@.len() == items@.len(),
            forall|i: int| 0 <= i < items@.len() ==> r.users@[i] == spec_user_payload(items@[i]),
    {
        let mut out: Vec<User> = Vec::new();
        let mut rest = items;
        let ghost all = rest@;
        while rest.len() > 0
            invariant
                out@.len() + rest@.len() == all.len(),
                rest@ =~= all.subrange(out@.len() as int, all.len() as int),
                forall|k: int| 0 <= k < out@.len() ==> out@[k] == spec_user_payload(all[k]),
            decreases rest@.len(),
        {
            let ghost done = out@.len() as int;
            let item = rest.remove(0);
            proof {
                assert(item == all[done]);
                assert(rest@ =~= all.subrange(done + 1, all.len() as int));
            }
            out.push(User::from_entity(item));
        }
        FetchUsersResponse { users: out }
    }
}

/// The response carrying one account.
#[derive(Debug)]
pub struct FetchUserResponse {
    pub user: User,
}

impl FetchUserResponse {
    /// Wraps one account record, with the password hash dropped.
    pub fn from_entity(u: entities::User) -> (r: FetchUserResponse)
        ensures
            r.user == spec_user_payload(u),
    {
        FetchUserResponse { user: User::from_entity(u) }
    }
}

} // verus!
