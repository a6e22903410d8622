use vstd::prelude::*;

use crate::auth::Claims;
use crate::errors::SourceError;
use crate::users::UserError;

pub mod image;
pub mod manga;
pub mod source;
pub mod user;

verus! {

/// What the transport layer sends for a failed request: a status code and a
/// human-readable message, passed through verbatim.
#[derive(Debug)]
pub struct ErrorResponse {
    pub http_code: u16,
    pub message: String,
}

impl ErrorResponse {
    /// The transport translation of a user-account error: each taxonomy
    /// member gets its status and message, with no recovery of its own.
    pub fn from_user_error(e: UserError) -> (r: ErrorResponse)
        ensures
            ({
                match e {
                    UserError::UserNotFound => r.http_code == 404 && r.message@
                        == "user not found"@,
                    UserError::WrongPassword => r.http_code == 401 && r.message@
                        == "wrong password"@,
                    UserError::Forbidden => r.http_code == 403 && r.message@ == "forbidden"@,
                    UserError::InsufficientPasswordLength => r.http_code == 400 && r.message@
                        == "password length insufficient"@,
                    UserError::Other(m) => r.http_code == 500 && r.message == m,
                }
            }),
    {
        match e {
            UserError::UserNotFound => ErrorResponse {
                http_code: 404,
                message: "user not found".to_owned(),
            },
            UserError::WrongPassword => ErrorResponse {
                http_code: 401,
                message: "wrong password".to_owned(),
            },
            UserError::Forbidden => ErrorResponse { http_code: 403, message: "forbidden".to_owned() },
            UserError::InsufficientPasswordLength => ErrorResponse {
                http_code: 400,
                message: "password length insufficient".to_owned(),
            },
            UserError::Other(m) => ErrorResponse { http_code: 500, message: m },
        }
    }

    /// The transport translation of a lifecycle or dispatch error: each
    /// taxonomy member gets its status and message, passed through verbatim.
    pub fn from_source_error(e: SourceError) -> (r: ErrorResponse)
        ensures
            ({
                match e {
                    SourceError::RepoUnreachable => r.http_code == 502 && r.message@
                        == "repository unreachable"@,
                    SourceError::MalformedIndex => r.http_code == 502 && r.message@
                        == "malformed repository index"@,
                    SourceError::NotFoundInIndex => r.http_code == 404 && r.message@
                        == "source not found in repository index"@,
                    SourceError::NotFound => r.http_code == 404 && r.message@
                        == "source not found"@,
                    SourceError::AlreadyInstalled => r.http_code == 400 && r.message@
                        == "source installed, use updateSource to update"@,
                    SourceError::IncompatibleVersion => r.http_code == 400 && r.message@
                        == "Incompatible version, update tanoshi server"@,
                    SourceError::NoNewVersion => r.http_code == 400 && r.message@
                        == "No new version"@,
                    SourceError::VersionParseError => r.http_code == 400 && r.message@
                        == "failed to parse version"@,
                    SourceError::ExecutionError => r.http_code == 500 && r.message@
                        == "extension error"@,
                    SourceError::ProtocolError => r.http_code == 500 && r.message@
                        == "protocol error"@,
                }
            }),
    {
        match e {
            SourceError::RepoUnreachable => ErrorResponse {
                http_code: 502,
                message: "repository unreachable".to_owned(),
            },
            SourceError::MalformedIndex => ErrorResponse {
                http_code: 502,
                message: "malformed repository index".to_owned(),
            },
            SourceError::NotFoundInIndex => ErrorResponse {
                http_code: 404,
                message: "source not found in repository index".to_owned(),
            },
            SourceError::NotFound => ErrorResponse {
                http_code: 404,
                message: "source not found".to_owned(),
            },
            SourceError::AlreadyInstalled => ErrorResponse {
                http_code: 400,
                message: "source installed, use updateSource to update".to_owned(),
            },
            SourceError::IncompatibleVersion => ErrorResponse {
                http_code: 400,
                message: "Incompatible version, update tanoshi server".to_owned(),
            },
            SourceError::NoNewVersion => ErrorResponse {
                http_code: 400,
                message: "No new version".to_owned(),
            },
            SourceError::VersionParseError => ErrorResponse {
                http_code: 400,
                message: "failed to parse version".to_owned(),
            },
            SourceError::ExecutionError => ErrorResponse {
                http_code: 500,
                message: "extension error".to_owned(),
            },
            SourceError::ProtocolError => ErrorResponse {
                http_code: 500,
                message: "protocol error".to_owned(),
            },
        }
    }
}

/// Admits only an admin session; every administrative request must pass
/// through this.  Each endpoint words its own rejection: listing accounts
/// says "forbidden", creating one says "only admin can create user".
pub fn require_admin(claims: &Claims, message: &str) -> (r: Result<(), ErrorResponse>)
    ensures
        claims.is_admin <==> r is Ok,
        !claims.is_admin ==> (r matches Err(e) && e.http_code == 403 && e.message@ == message@),
{
    if claims.is_admin {
        Ok(())
    } else {
        Err(ErrorResponse { http_code: 403, message: message.to_owned() })
    }
}

} // verus!
