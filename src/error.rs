use vstd::prelude::*;

verus! {

/// Why collecting the stargazers failed. Every failure is final: nothing is
/// retried and no partial result is kept.
#[derive(Debug)]
pub enum StarError {
    /// The API answered with a status outside `200..=299`.
    Remote(u16),
    /// The response body did not have the expected shape.
    Parse(String),
    /// The request never got an answer (name lookup, connection, TLS).
    Transport(String),
    /// The token or the command line cannot be used.
    Config(String),
}

impl StarError {
    /// A copy of this error.
    pub fn duplicate(&self) -> (r: StarError)
        ensures
            r == *self,
    {
        match self {
            StarError::Remote(code) => StarError::Remote(*code),
            StarError::Parse(m) => StarError::Parse(m.clone()),
            StarError::Transport(m) => StarError::Transport(m.clone()),
            StarError::Config(m) => StarError::Config(m.clone()),
        }
    }
}

/// A status in `200..=299` is a success.
pub open spec fn is_success(status: u16) -> bool {
    200 <= status && status <= 299
}

/// Accepts a successful HTTP status and turns any other into a remote error
/// that carries it.
pub fn check_status(status: u16) -> (r: Result<(), StarError>)
    ensures
        is_success(status) <==> r is Ok,
        !is_success(status) ==> r == Err::<(), StarError>(StarError::Remote(status)),
{
    if 200 <= status && status <= 299 {
        Ok(())
    } else {
        Err(StarError::Remote(status))
    }
}

} // verus!
