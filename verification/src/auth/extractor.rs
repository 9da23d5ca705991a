//! The authenticated user of a request.
use crate::error::Error;
use vstd::prelude::*;

verus! {

/// The user on whose behalf a request is served.
#[derive(Clone, Copy, Debug, PartialEq, Eq, Structural)]
pub struct AuthContext {
    user_id: u64,
}

impl AuthContext {
    /// The user id this context carries.
    pub closed spec fn spec_user_id(self) -> u64 {
        self.user_id
    }

    /// A context for the user `user_id`.
    pub fn new(user_id: u64) -> (r: Self)
        ensures
            r.spec_user_id() == user_id,
    {
        Self { user_id }
    }

    /// The id of the authenticated user.
    pub fn user_id(&self) -> (r: u64)
        ensures
            r == self.spec_user_id(),
    {
        self.user_id
    }

    /// The context the authentication middleware stored with the request,
    /// or `AuthTokenNotProvided` when it stored none.
    pub fn from_request_extension(stored: Option<&AuthContext>) -> (r: Result<AuthContext, Error>)
        ensures
            match stored {
                Some(ctx) => r == Ok::<AuthContext, Error>(*ctx),
                None => r matches Err(Error::AuthTokenNotProvided),
            },
    {
        match stored {
            Some(ctx) => Ok(*ctx),
            None => Err(Error::AuthTokenNotProvided),
        }
    }
}

} // verus!
