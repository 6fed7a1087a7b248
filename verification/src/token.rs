//! Web tokens: the claims of a token and how a token is renewed. Signing a
//! token and reading a signed one are left to the caller.

use vstd::prelude::*;

verus! {

/// For how many seconds a token is good.
pub const DEFAULT_TOKEN_VALIDITY: u64 = 3600;

/// The failures of token handling.
#[derive(Clone, Copy, Debug, PartialEq, Eq, Structural)]
pub enum TokenError {
    /// A session token could not be created.
    Create,
    /// A session token could not be verified.
    Verify,
}

impl TokenError {
    /// The text that describes the failure.
    pub open spec fn text(self) -> Seq<char> {
        match self {
            TokenError::Create => "unable to create session token"@,
            TokenError::Verify => "unable to verify session token"@,
        }
    }

    /// The text that describes the failure.
    pub fn message(&self) -> (text: String)
        ensures
            text@ == self.text(),
    {
        match self {
            TokenError::Create => "unable to create session token".to_owned(),
            TokenError::Verify => "unable to verify session token".to_owned(),
        }
    }
}

/// The claims of a web token.
#[derive(Debug)]
pub struct Token {
    /// The subject of the token.
    pub sub: String,
    /// When the token runs out, in seconds.
    pub exp: u64,
    /// When the token was issued, in seconds.
    pub iat: u64,
    /// The token's own identifier.
    pub jti: String,
}

impl Token {
    /// Whether a token issued at `current_time` still has an expiry.
    pub open spec fn can_issue(current_time: u64) -> bool {
        current_time + DEFAULT_TOKEN_VALIDITY <= u64::MAX
    }

    /// The claims of a token for `username`, issued at `current_time` under
    /// the identifier `jti` and good for `DEFAULT_TOKEN_VALIDITY` seconds.
    /// Fails with `Create` exactly where the expiry is beyond the last
    /// second there is.
    pub fn create(
        username: &str,
        current_time: u64,
        jti: String,
    ) -> (claims: Result<Token, TokenError>)
        ensures
            match claims {
                Ok(t) => {
                    &&& Self::can_issue(current_time)
                    &&& t.sub@ == username@
                    &&& t.iat == current_time
                    &&& t.exp == current_time + DEFAULT_TOKEN_VALIDITY
                    &&& t.jti == jti
                },
                Err(e) => !Self::can_issue(current_time) && e == TokenError::Create,
            },
    {
        if current_time > u64::MAX - DEFAULT_TOKEN_VALIDITY {
            return Err(TokenError::Create);
        }
        Ok(
            Token {
                sub: String::from_str(username),
                exp: current_time + DEFAULT_TOKEN_VALIDITY,
                iat: current_time,
                jti,
            },
        )
    }

    /// Renews a token: `presented` holds the claims read from a token that
    /// was found good, or `None` where it was not. A good token gives the
    /// claims of a new one for the same subject, issued at `current_time`
    /// under the identifier `jti`; a bad one fails with `Verify`.
    pub fn verify(
        presented: Option<Token>,
        current_time: u64,
        jti: String,
    ) -> (claims: Result<Token, TokenError>)
        ensures
            match presented {
                None => claims == Err::<Token, TokenError>(TokenError::Verify),
                Some(prior) => match claims {
                    Ok(t) => {
                        &&& Self::can_issue(current_time)
                        &&& t.sub@ == prior.sub@
                        &&& t.iat == current_time
                        &&& t.exp == current_time + DEFAULT_TOKEN_VALIDITY
                        &&& t.jti == jti
                    },
                    Err(e) => !Self::can_issue(current_time) && e == TokenError::Create,
                },
            },
    {
        match presented {
            None => Err(TokenError::Verify),
            Some(prior) => Self::create(prior.sub.as_str(), current_time, jti),
        }
    }
}

} // verus!
