//! What a client keeps of its registration with a server and of the tokens
//! that it was granted.

use vstd::prelude::*;

verus! {

/// An application as registered with a server.
#[derive(Debug, Clone, PartialEq, Eq)]
pub struct AppData {
    pub id: String,
    pub name: String,
    pub website: Option<String>,
    pub redirect_uri: Option<String>,
    pub client_id: String,
    pub client_secret: String,
    /// Where the user authorises the application, once it is known.
    pub url: Option<String>,
    pub session_token: Option<String>,
}

impl AppData {
    /// A registration with the given parts, with no authorisation address and
    /// no session token yet.
    pub fn new(
        id: String,
        name: String,
        website: Option<String>,
        redirect_uri: Option<String>,
        client_id: String,
        client_secret: String,
    ) -> (app: AppData)
        ensures
            app == (AppData {
                id,
                name,
                website,
                redirect_uri,
                client_id,
                client_secret,
                url: None,
                session_token: None,
            }),
    {
        AppData {
            id,
            name,
            website,
            redirect_uri,
            client_id,
            client_secret,
            url: None,
            session_token: None,
        }
    }
}

/// A token as granted by a server.
#[derive(Debug, Clone, PartialEq, Eq)]
pub struct TokenData {
    pub access_token: String,
    pub token_type: String,
    pub scope: Option<String>,
    /// When the token was granted, in seconds since the epoch.
    pub created_at: Option<u64>,
    /// For how many seconds the token is good.
    pub expires_in: Option<u64>,
    pub refresh_token: Option<String>,
}

impl TokenData {
    /// A token with the given parts.
    pub fn new(
        access_token: String,
        token_type: String,
        scope: Option<String>,
        created_at: Option<u64>,
        expires_in: Option<u64>,
        refresh_token: Option<String>,
    ) -> (token: TokenData)
        ensures
            token == (TokenData {
                access_token,
                token_type,
                scope,
                created_at,
                expires_in,
                refresh_token,
            }),
    {
        TokenData { access_token, token_type, scope, created_at, expires_in, refresh_token }
    }
}

} // verus!
