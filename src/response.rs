use vstd::prelude::*;

use crate::model::{CheckResponse, Failure};

verus! {

/// The error text with which the server declines a username that is taken.
pub const USERNAME_TAKEN: &'static str = "This username is not available";

impl Failure {
    /// The numeric code of the failure: 1 unreachable, 2 malformed, 3 rejected.
    pub fn code(&self) -> (r: u8)
        ensures
            r == match *self {
                Failure::Unreachable => 1u8,
                Failure::Malformed => 2u8,
                Failure::Rejected => 3u8,
            },
    {
        match self {
            Failure::Unreachable => 1,
            Failure::Malformed => 2,
            Failure::Rejected => 3,
        }
    }
}

/// Reads the `success` flag of a response: 1 means success, anything else a
/// rejection.
pub fn check_success(success: u8) -> (r: Result<(), Failure>)
    ensures
        r == if success == 1 {
            Ok::<(), Failure>(())
        } else {
            Err(Failure::Rejected)
        },
{
    if success == 1 {
        Ok(())
    } else {
        Err(Failure::Rejected)
    }
}

/// Whether a username is taken, read from the answer to a check of it: a
/// successful check means it is free; a failed one means it is taken exactly when
/// the error text is `USERNAME_TAKEN`, and a failed one without error text is a
/// rejection.
pub fn user_exists_from(resp: &CheckResponse) -> (r: Result<bool, Failure>)
    ensures
        r == if resp.success == 1 {
            Ok::<bool, Failure>(false)
        } else {
            match resp.error {
                Some(x) => Ok(x@ == USERNAME_TAKEN@),
                None => Err(Failure::Rejected),
            }
        },
{
    if resp.success == 1 {
        return Ok(false);
    }
    match &resp.error {
        Some(x) => {
            let taken = String::from_str(USERNAME_TAKEN);
            Ok(*x == taken)
        },
        None => Err(Failure::Rejected),
    }
}

/// Whether a password is long enough to be accepted: more than four bytes. This
/// check is local; the server is not asked.
pub fn check_password(password: &str) -> (r: bool)
    ensures
        r == (password.len() > 4),
{
    password.len() > 4
}

/// Login state of one client: who it acts for, and whether it holds a session.
pub struct Session {
    pub username: String,
    pub logged: bool,
}

impl Session {
    /// A session for `username`, not yet logged in.
    pub fn new(username: String) -> (r: Session)
        ensures
            r.username == username,
            !r.logged,
    {
        Session { username, logged: false }
    }

    /// Records the answer to a login request, given as the response's `success`
    /// flag or the failure of the request. Returns `Ok(true)` when the session
    /// was already logged in (no request is needed then), `Ok(false)` when this
    /// answer logs it in.
    pub fn record_login(&mut self, response: Result<u8, Failure>) -> (r: Result<bool, Failure>)
        ensures
            final(self).username == old(self).username,
            old(self).logged ==> r == Ok::<bool, Failure>(true) && final(self).logged,
            !old(self).logged ==> match response {
                Ok(1u8) => r == Ok::<bool, Failure>(false) && final(self).logged,
                Ok(_) => r == Err::<bool, Failure>(Failure::Rejected) && !final(self).logged,
                Err(f) => r == Err::<bool, Failure>(f) && !final(self).logged,
            },
    {
        if self.logged {
            return Ok(true);
        }
        match response {
            Ok(success) => {
                if success == 1 {
                    self.logged = true;
                    Ok(false)
                } else {
                    Err(Failure::Rejected)
                }
            },
            Err(f) => Err(f),
        }
    }
}

} // verus!
