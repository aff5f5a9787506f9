//! What a Pixelfed server answers when an application registers and when a
//! token is granted.

use crate::oauth::{AppData, TokenData};
use vstd::prelude::*;
use vstd::std_specs::convert::FromSpecImpl;

verus! {

/// A registration as the server reports it.
#[derive(Debug, Clone, PartialEq, Eq)]
pub struct AppDataFromServer {
    pub id: String,
    pub name: String,
    pub website: Option<String>,
    pub redirect_uri: String,
    pub client_id: String,
    pub client_secret: String,
}

/// A granted token as the server reports it.
#[derive(Debug, Clone, PartialEq, Eq)]
pub struct TokenDataFromServer {
    pub access_token: String,
    pub refresh_token: String,
    pub token_type: String,
    pub expires_in: u64,
    pub created_at: u64,
}

impl AppDataFromServer {
    /// The registration that the client keeps: every part that the server
    /// reports, the redirect address as present.
    pub open spec fn app_data(self) -> AppData {
        AppData {
            id: self.id,
            name: self.name,
            website: self.website,
            redirect_uri: Some(self.redirect_uri),
            client_id: self.client_id,
            client_secret: self.client_secret,
            url: None,
            session_token: None,
        }
    }
}

impl From<AppDataFromServer> for AppData {
    fn from(val: AppDataFromServer) -> (app: AppData)
        ensures
            app == val.app_data(),
    {
        AppData::new(
            val.id,
            val.name,
            val.website,
            Some(val.redirect_uri),
            val.client_id,
            val.client_secret,
        )
    }
}

impl FromSpecImpl<AppDataFromServer> for AppData {
    open spec fn obeys_from_spec() -> bool {
        true
    }

    open spec fn from_spec(val: AppDataFromServer) -> AppData {
        val.app_data()
    }
}

impl TokenDataFromServer {
    /// The token that the client keeps: every part that the server reports,
    /// and no scope, which the server does not report.
    pub open spec fn token_data(self) -> TokenData {
        TokenData {
            access_token: self.access_token,
            token_type: self.token_type,
            scope: None,
            created_at: Some(self.created_at),
            expires_in: Some(self.expires_in),
            refresh_token: Some(self.refresh_token),
        }
    }
}

impl From<TokenDataFromServer> for TokenData {
    fn from(val: TokenDataFromServer) -> (token: TokenData)
        ensures
            token == val.token_data(),
    {
        TokenData::new(
            val.access_token,
            val.token_type,
            None,
            Some(val.created_at),
            Some(val.expires_in),
            Some(val.refresh_token),
        )
    }
}

impl FromSpecImpl<TokenDataFromServer> for TokenData {
    open spec fn obeys_from_spec() -> bool {
        true
    }

    open spec fn from_spec(val: TokenDataFromServer) -> TokenData {
        val.token_data()
    }
}

} // verus!
