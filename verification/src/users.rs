use vstd::prelude::*;
use vstd::string::StringSliceAdditionalSpecFns;

use crate::entities::User;

verus! {

/// Errors of the user-account decisions.
#[derive(Debug)]
pub enum UserError {
    UserNotFound,
    WrongPassword,
    Forbidden,
    InsufficientPasswordLength,
    Other(String),
}

/// The fewest bytes a password may have.
pub const MIN_PASSWORD_LEN: usize = 8;

/// The encoded hash that a password and a salt determine.
pub uninterp spec fn hash_of(password: Seq<u8>, salt: Seq<u8>) -> Seq<char>;

/// Whether a password matches an encoded hash: `Some(b)` when the hash
/// decodes and the comparison says `b`, `None` when the hash does not
/// decode.  Both are functions of the two arguments alone.
pub uninterp spec fn verify_check_of(encoded: Seq<char>, password: Seq<u8>) -> Option<bool>;

/// Relies on argon2::hash_encoded with the default configuration: the
/// encoded hash is a deterministic function of the password and the salt;
/// argon2::verify_encoded accepts the very password it was made from — the
/// encoded string embeds the salt and parameters, so verification
/// recomputes the same hash — and with a salt of eight bytes or more the
/// only input it rejects is a password longer than its length limit.
#[verifier::external_body]
fn hash_password(password: &str, salt: &[u8]) -> (r: Result<String, UserError>)
    requires
        8 <= salt@.len() <= u32::MAX,
    ensures
        password.len() <= u32::MAX as usize ==> r is Ok,
        r matches Ok(h) ==> h@ == hash_of(password.spec_bytes(), salt@) && verify_check_of(
            h@,
            password.spec_bytes(),
        ) == Some(true),
        r matches Err(e) ==> e matches UserError::Other(_),
{
    argon2::hash_encoded(password.as_bytes(), salt, &argon2::Config::default()).map_err(
        |e| UserError::Other(format!("{e}")),
    )
}

/// Relies on argon2::verify_encoded: whether the password matches is a
/// deterministic function of the encoded hash and the password; the error
/// case is a hash that does not decode.
#[verifier::external_body]
fn check_password(encoded: &str, password: &str) -> (r: Result<bool, UserError>)
    ensures
        r matches Ok(b) ==> verify_check_of(encoded@, password.spec_bytes()) == Some(b),
        r matches Err(e) ==> verify_check_of(encoded@, password.spec_bytes()) is None && e
            matches UserError::Other(_),
{
    argon2::verify_encoded(encoded, password.as_bytes()).map_err(
        |e| UserError::Other(format!("{e}")),
    )
}

/// Relies on rand::thread_rng and RngCore::fill_bytes: a fresh random salt;
/// nothing is promised of its value.
#[verifier::external_body]
fn random_salt() -> (r: [u8; 32]) {
    let mut salt = [0u8; 32];
    rand::RngCore::fill_bytes(&mut rand::thread_rng(), &mut salt);
    salt
}

/// Decides a login attempt against the stored account: `Ok` exactly when
/// the password matches the stored hash.
pub fn login_check(user: &User, password: &str) -> (r: Result<(), UserError>)
    ensures
        r is Ok <==> verify_check_of(user.password@, password.spec_bytes()) == Some(true),
        verify_check_of(user.password@, password.spec_bytes()) == Some(false) ==> r == Err::<
            (),
            UserError,
        >(UserError::WrongPassword),
        verify_check_of(user.password@, password.spec_bytes()) is None ==> (r matches Err(e)
            && e matches UserError::Other(_)),
{
    match check_password(user.password.as_str(), password) {
        Ok(true) => Ok(()),
        Ok(false) => Err(UserError::WrongPassword),
        Err(e) => Err(e),
    }
}

/// The account record an admin-driven creation inserts: rejects a password
/// of fewer than the minimum bytes, otherwise hashes it with a fresh salt.
pub fn prepare_create_user(username: &str, password: &str, is_admin: bool) -> (r: Result<
    User,
    UserError,
>)
    ensures
        r == Err::<User, UserError>(UserError::InsufficientPasswordLength) <==> password.len()
            < MIN_PASSWORD_LEN,
        password.len() >= MIN_PASSWORD_LEN && password.len() <= u32::MAX as usize ==> r
            matches Ok(_),
        r matches Ok(u) ==> password.len() >= MIN_PASSWORD_LEN && u.id == 0
            && u.username@ == username@ && u.is_admin == is_admin && u.telegram_chat_id is None
            && u.pushover_user_key is None && verify_check_of(u.password@, password.spec_bytes())
            == Some(true) && (exists|salt: Seq<u8>|
            salt.len() == 32 && u.password@ == hash_of(password.spec_bytes(), salt)),
        r matches Err(e) ==> (e matches UserError::InsufficientPasswordLength || e
            matches UserError::Other(_)),
{
    if password.len() < MIN_PASSWORD_LEN {
        return Err(UserError::InsufficientPasswordLength);
    }
    let salt = random_salt();
    let salt_slice = salt.as_slice();
    proof {
        assert(salt_slice@ =~= salt@);
        assert(salt@.len() == 32);
    }
    let hash = match hash_password(password, salt_slice) {
        Ok(h) => h,
        Err(e) => {
            return Err(e);
        },
    };
    proof {
        assert(hash@ == hash_of(password.spec_bytes(), salt_slice@));
    }
    Ok(
        User {
            id: 0,
            username: username.to_owned(),
            password: hash,
            is_admin,
            telegram_chat_id: None,
            pushover_user_key: None,
        },
    )
}

/// The account record that self-registration inserts.  Only the very first
/// account may register itself — any later account is created by an admin —
/// and that first account is made an admin whatever was asked.
#[allow(unused_variables)]
pub fn prepare_register(user_count: usize, username: &str, password: &str, is_admin: bool) -> (r:
    Result<User, UserError>)
    ensures
        r == Err::<User, UserError>(UserError::Forbidden) <==> user_count > 0,
        r == Err::<User, UserError>(UserError::InsufficientPasswordLength) <==> user_count == 0
            && password.len() < MIN_PASSWORD_LEN,
        user_count == 0 && password.len() >= MIN_PASSWORD_LEN && password.len() <= u32::MAX
            as usize ==> r matches Ok(_),
        r matches Err(e) ==> (e matches UserError::Forbidden || e
            matches UserError::InsufficientPasswordLength || e matches UserError::Other(_)),
        r matches Ok(u) ==> user_count == 0 && password.len() >= MIN_PASSWORD_LEN && u.id == 0
            && u.username@ == username@ && u.is_admin == true
            && u.telegram_chat_id is None && u.pushover_user_key is None && verify_check_of(
            u.password@,
            password.spec_bytes(),
        ) == Some(true) && (exists|salt: Seq<u8>|
            salt.len() == 32 && u.password@ == hash_of(password.spec_bytes(), salt)),
{
    if user_count > 0 {
        return Err(UserError::Forbidden);
    }
    prepare_create_user(username, password, true)
}

/// The new hash a password change stores: `Ok` exactly when the old
/// password matches the stored hash and the new one is long enough.
pub fn prepare_change_password(user: &User, old_password: &str, new_password: &str) -> (r: Result<
    String,
    UserError,
>)
    ensures
        verify_check_of(user.password@, old_password.spec_bytes()) == Some(false) ==> (r matches Err(
            e,
        ) && e matches UserError::Other(m) && m@ == "Wrong old password"@),
        verify_check_of(user.password@, old_password.spec_bytes()) is None ==> (r matches Err(e)
            && e matches UserError::Other(_)),
        r == Err::<String, UserError>(UserError::InsufficientPasswordLength) <==> verify_check_of(
            user.password@,
            old_password.spec_bytes(),
        ) == Some(true) && new_password.len() < MIN_PASSWORD_LEN,
        verify_check_of(user.password@, old_password.spec_bytes()) == Some(true)
            && new_password.len() >= MIN_PASSWORD_LEN && new_password.len() <= u32::MAX as usize
            ==> r matches Ok(_),
        r matches Ok(h) ==> verify_check_of(user.password@, old_password.spec_bytes()) == Some(true)
            && new_password.len() >= MIN_PASSWORD_LEN && verify_check_of(
            h@,
            new_password.spec_bytes(),
        ) == Some(true) && (exists|salt: Seq<u8>|
            salt.len() == 32 && h@ == hash_of(new_password.spec_bytes(), salt)),
{
    match check_password(user.password.as_str(), old_password) {
        Ok(true) => {},
        Ok(false) => {
            return Err(UserError::Other("Wrong old password".to_owned()));
        },
        Err(e) => {
            return Err(e);
        },
    }
    if new_password.len() < MIN_PASSWORD_LEN {
        return Err(UserError::InsufficientPasswordLength);
    }
    let salt = random_salt();
    let salt_slice = salt.as_slice();
    proof {
        assert(salt_slice@ =~= salt@);
        assert(salt@.len() == 32);
    }
    match hash_password(new_password, salt_slice) {
        Ok(h) => {
            proof {
                assert(h@ == hash_of(new_password.spec_bytes(), salt_slice@));
            }
            Ok(h)
        },
        Err(e) => Err(e),
    }
}

} // verus!
