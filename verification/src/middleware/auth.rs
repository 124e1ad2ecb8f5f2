//! The bearer-token check in front of the upload route.

use vstd::prelude::*;
use vstd::string::*;
use crate::error::ApiError;
use crate::text::{after_prefix, str_eq, strip_prefix};

verus! {

/// The token that an `Authorization` header presents: all that follows the
/// scheme `Bearer `, taken off once. A request without the header, or with
/// another scheme, presents none.
pub open spec fn presented_token(authorization: Option<Seq<char>>) -> Option<Seq<char>> {
    match authorization {
        Some(header) => after_prefix(header, "Bearer "@),
        None => None,
    }
}

/// The check of a bearer token against the one that the service requires.
#[derive(Debug, PartialEq, Eq)]
pub struct AuthMiddleware {
    required_token: String,
}

impl Clone for AuthMiddleware {
    fn clone(&self) -> (copy: Self)
        ensures
            copy == *self,
    {
        AuthMiddleware { required_token: self.required_token.clone() }
    }
}

impl AuthMiddleware {
    /// The token that requests must present.
    pub closed spec fn required(&self) -> Seq<char> {
        self.required_token@
    }

    /// Lets a request pass if and only if the token that its `Authorization`
    /// header presents is the required one; turns it away as unauthorized
    /// otherwise.
    pub fn authorize(&self, authorization: Option<&str>) -> (verdict: Result<(), ApiError>)
        ensures
            verdict is Ok <==> presented_token(
                match authorization {
                    Some(header) => Some(header@),
                    None => None,
                },
            ) == Some(self.required()),
            verdict is Err ==> verdict == Err::<(), ApiError>(ApiError::Unauthorized),
    {
        match authorization {
            Some(header) => match strip_prefix(header, "Bearer ") {
                Some(token) => {
                    if str_eq(token.as_str(), self.required_token.as_str()) {
                        Ok(())
                    } else {
                        Err(ApiError::Unauthorized)
                    }
                },
                None => Err(ApiError::Unauthorized),
            },
            None => Err(ApiError::Unauthorized),
        }
    }
}

/// The check for the token `required_token`.
pub fn create_auth_middleware(required_token: String) -> (middleware: AuthMiddleware)
    ensures
        middleware.required() == required_token@,
{
    AuthMiddleware { required_token }
}

} // verus!
