//! Token checks for the gateway's guarded endpoints: one token grants the
//! basic operations, a second, separate token the stop operation. The
//! gateway extracts the request's token header and hands it in; a guard
//! value exists only for a request whose token matched.

use vstd::prelude::*;

verus! {

/// Why a request was turned away.
#[derive(Clone, Copy, Debug, PartialEq, Eq, Structural)]
pub enum AuthError {
    /// The request carried no token at all.
    MissingToken,
    /// The token did not match the expected one.
    WrongToken,
}

/// A missing token is turned away as missing, a non-matching one as wrong,
/// and exactly a matching one is let through.
fn check_token(provided: Option<&String>, expected: &String) -> (r: Result<(), AuthError>)
    ensures
        r is Ok <==> (provided matches Some(t) && t@ == expected@),
        provided is None ==> r == Result::<(), AuthError>::Err(AuthError::MissingToken),
        provided matches Some(t) && t@ != expected@ ==> r == Result::<(), AuthError>::Err(
            AuthError::WrongToken,
        ),
{
    match provided {
        None => Err(AuthError::MissingToken),
        Some(t) => {
            if *t == *expected {
                Ok(())
            } else {
                Err(AuthError::WrongToken)
            }
        },
    }
}

/// Proof of access to the basic endpoints: start, ip and wake.
pub struct BasicAuth(());

impl BasicAuth {
    /// Grants access exactly when the request's token equals the configured
    /// basic token.
    pub fn from_token(provided: Option<&String>, expected: &String) -> (r: Result<
        BasicAuth,
        AuthError,
    >)
        ensures
            r is Ok <==> (provided matches Some(t) && t@ == expected@),
            provided is None ==> (r matches Err(e) && e == AuthError::MissingToken),
            provided matches Some(t) && t@ != expected@ ==> (r matches Err(e) && e
                == AuthError::WrongToken),
    {
        match check_token(provided, expected) {
            Ok(_) => Ok(BasicAuth(())),
            Err(e) => Err(e),
        }
    }
}

/// Proof of access to the stop endpoint.
pub struct StopAuth(());

impl StopAuth {
    /// Grants access exactly when the request's token equals the configured
    /// stop token.
    pub fn from_token(provided: Option<&String>, expected: &String) -> (r: Result<
        StopAuth,
        AuthError,
    >)
        ensures
            r is Ok <==> (provided matches Some(t) && t@ == expected@),
            provided is None ==> (r matches Err(e) && e == AuthError::MissingToken),
            provided matches Some(t) && t@ != expected@ ==> (r matches Err(e) && e
                == AuthError::WrongToken),
    {
        match check_token(provided, expected) {
            Ok(_) => Ok(StopAuth(())),
            Err(e) => Err(e),
        }
    }
}

} // verus!
