//! Who gets in: the reservation service's password check, the notification
//! service's login check, and the session guard in front of protected routes.
use vstd::prelude::*;
use crate::records::UserRecord;
use crate::text::owned;

verus! {

/// What `bcrypt::verify(password, hash)` answers: `Some(true)` when the
/// password hashes to `hash` with the cost and salt stored in it,
/// `Some(false)` when it does not, `None` when `hash` is no bcrypt hash.
pub uninterp spec fn bcrypt_verdict(password: Seq<char>, hash: Seq<char>) -> Option<bool>;

/// Checks a password against a bcrypt hash with `bcrypt::verify`; an error
/// of the crate (a malformed hash, cost or salt) becomes `None`. The verdict
/// is named, not described: it rests on the bcrypt algorithm.
#[verifier::external_body]
fn bcrypt_verify(password: &str, hash: &str) -> (r: Option<bool>)
    ensures
        r == bcrypt_verdict(password@, hash@),
{
    match bcrypt::verify(password, hash) {
        Ok(b) => Some(b),
        Err(_) => None,
    }
}

/// The customer let in by the reservation service, given the stored customer
/// with the card number asked for and the verdict of the password check:
/// only a stored customer whose hash the password matches.
pub open spec fn admitted(user: Option<UserRecord>, verdict: Option<bool>) -> Option<i32> {
    match user {
        Some(u) => if verdict == Some(true) {
            Some(u.id)
        } else {
            None
        },
        None => None,
    }
}

/// Decides on a login to the reservation service once the password has been
/// checked against the stored hash.
pub fn decide_authorization(user: Option<&UserRecord>, verdict: Option<bool>) -> (r: Option<i32>)
    ensures
        r == admitted(
            match user {
                Some(u) => Some(*u),
                None => None,
            },
            verdict,
        ),
{
    match user {
        Some(u) => match verdict {
            Some(true) => Some(u.id),
            _ => None,
        },
        None => None,
    }
}

/// Logs a customer in to the reservation service: the id of the stored
/// customer when the password matches its bcrypt hash, `None` when there is
/// no such customer, the password does not match, or the hash is malformed.
pub fn authorize(password: &str, user: Option<&UserRecord>) -> (r: Option<i32>)
    ensures
        r == match user {
            Some(u) => admitted(Some(*u), bcrypt_verdict(password@, u.password@)),
            None => None,
        },
{
    match user {
        Some(u) => {
            let verdict = bcrypt_verify(password, u.password.as_str());
            decide_authorization(Some(u), verdict)
        },
        None => None,
    }
}

/// Logs a customer in to the notification service: the id of the stored
/// customer when the password equals the stored one.
pub fn server_login(password: &String, user: Option<&UserRecord>) -> (r: Option<i32>)
    ensures
        r == match user {
            Some(u) => if u.password@ == password@ {
                Some(u.id)
            } else {
                None
            },
            None => None,
        },
{
    match user {
        Some(u) => if *password != u.password {
            None
        } else {
            Some(u.id)
        },
        None => None,
    }
}

/// The answer a protected route gives instead of serving the request.
#[derive(Clone, Debug)]
pub struct Rejection {
    pub status: u16,
    pub body: String,
}

/// Reads the session id of a protected request: the lookup of `id` in the
/// session either failed (its error text is answered with status 500), found
/// nothing (status 500, "Sessionid was not fund"), or found the id.
pub fn session_id_or_reject(lookup: Result<Option<i32>, String>) -> (r: Result<i32, Rejection>)
    ensures
        match lookup {
            Ok(Some(id)) => r == Ok::<i32, Rejection>(id),
            Ok(None) => r matches Err(rej) && rej.status == 500 && rej.body@
                == "Sessionid was not fund"@,
            Err(e) => r matches Err(rej) && rej.status == 500 && rej.body == e,
        },
{
    match lookup {
        Ok(Some(id)) => Ok(id),
        Ok(None) => Err(Rejection { status: 500, body: owned("Sessionid was not fund") }),
        Err(e) => Err(Rejection { status: 500, body: e }),
    }
}

/// Finds the customer of a protected request once the session table has
/// been read (`listing`) and the customer looked up (`user`): a failed read
/// or lookup answers its error text with status 500, a missing customer is
/// answered with status 401 and "Hello".
pub fn user_or_reject(listing: Result<(), String>, user: Result<Option<UserRecord>, String>) -> (r:
    Result<UserRecord, Rejection>)
    ensures
        match (listing, user) {
            (Err(e), _) => r matches Err(rej) && rej.status == 500 && rej.body == e,
            (Ok(_), Err(e)) => r matches Err(rej) && rej.status == 500 && rej.body == e,
            (Ok(_), Ok(None)) => r matches Err(rej) && rej.status == 401 && rej.body@ == "Hello"@,
            (Ok(_), Ok(Some(u))) => r matches Ok(v) && v == u,
        },
{
    match listing {
        Err(e) => Err(Rejection { status: 500, body: e }),
        Ok(_) => match user {
            Err(e) => Err(Rejection { status: 500, body: e }),
            Ok(None) => Err(Rejection { status: 401, body: owned("Hello") }),
            Ok(Some(u)) => Ok(u),
        },
    }
}


/// How a login request encodes its credentials.
#[derive(Clone, Copy, Debug, PartialEq, Eq, Structural)]
pub enum LoginBodyFormat {
    Form,
    Json,
}

/// The encoding a login request's content type names: a form or JSON;
/// `None` for any other or a missing content type, which is refused with
/// "Invalid Content-Type".
pub fn login_body_format(content_type: Option<&str>) -> (r: Option<LoginBodyFormat>)
    ensures
        r == match content_type {
            Some(c) => if c@ == "application/x-www-form-urlencoded"@ {
                Some(LoginBodyFormat::Form)
            } else if c@ == "application/json"@ {
                Some(LoginBodyFormat::Json)
            } else {
                None
            },
            None => None,
        },
{
    match content_type {
        Some(c) => if crate::text::str_equal(c, "application/x-www-form-urlencoded") {
            Some(LoginBodyFormat::Form)
        } else if crate::text::str_equal(c, "application/json") {
            Some(LoginBodyFormat::Json)
        } else {
            None
        },
        None => None,
    }
}

} // verus!
