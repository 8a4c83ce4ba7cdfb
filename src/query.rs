use vstd::prelude::*;

use reqwest::header::HeaderValue;

use crate::auth::{basic_authorization, spec_basic_authorization};
use crate::model::{Credentials, ServiceQuery};

verus! {

/// Root of the API's JSON endpoints.
pub const API_BASE: &'static str = "https://api.rtt.io/api/v1/json";

/// The search endpoint for `origin`, narrowed to `destination` when one is given.
pub open spec fn spec_search_url(origin: Seq<char>, destination: Option<Seq<char>>) -> Seq<char> {
    let base = API_BASE@ + "/search/"@ + origin;
    match destination {
        Some(d) => base + "/to/"@ + d,
        None => base,
    }
}

/// Builds the search URL for `query`: `<base>/search/<origin>`, followed by
/// `/to/<destination>` when the query names a destination.
pub fn search_url(query: &ServiceQuery) -> (r: String)
    ensures
        r@ == spec_search_url(query.origin@, opt_view(query.destination)),
{
    let mut url = String::from_str(API_BASE);
    url.append("/search/");
    url.append(query.origin.as_str());
    match &query.destination {
        Some(d) => {
            url.append("/to/");
            url.append(d.as_str());
        },
        None => {},
    }
    url
}

/// Environment variable that holds the account's user name.
pub const USERNAME_VAR: &'static str = "RTT_USERNAME";

/// Environment variable that holds the account's password.
pub const PASSWORD_VAR: &'static str = "RTT_PASSWORD";

/// Why a departure search could not be completed.
pub enum FetchError {
    /// A required credential variable is not set; holds the variable's name.
    MissingCredential(String),
    /// The credentials cannot form a valid `Authorization` header value.
    InvalidAuthHeader,
    /// The request could not be sent or its response not received.
    Transport(String),
    /// The response body is not the expected JSON shape.
    Decode(String),
}

impl FetchError {
    /// A description of the error for the user. Credentials never appear in it.
    pub fn message(&self) -> (r: String)
        ensures
            r@ == match self {
                FetchError::MissingCredential(v) => v@ + " environment variable not set"@,
                FetchError::InvalidAuthHeader => "credentials do not form a valid header value"@,
                FetchError::Transport(m) => "request failed: "@ + m@,
                FetchError::Decode(m) => "could not decode response: "@ + m@,
            },
    {
        match self {
            FetchError::MissingCredential(v) => v.clone().concat(" environment variable not set"),
            FetchError::InvalidAuthHeader => String::from_str(
                "credentials do not form a valid header value",
            ),
            FetchError::Transport(m) => String::from_str("request failed: ").concat(m.as_str()),
            FetchError::Decode(m) => String::from_str("could not decode response: ").concat(
                m.as_str(),
            ),
        }
    }
}

/// The view of an optional string.
pub open spec fn opt_view(o: Option<String>) -> Option<Seq<char>> {
    match o {
        Some(s) => Some(s@),
        None => None,
    }
}

/// Takes the credentials from the values of the two credential variables,
/// as read from the environment (`None` where one is unset). The user name
/// is looked for first.
pub fn credentials_from(username: Option<String>, password: Option<String>) -> (r: Result<
    Credentials,
    FetchError,
>)
    ensures
        username is None ==> (r matches Err(FetchError::MissingCredential(v)) && v@ == USERNAME_VAR@),
        username is Some && password is None ==> (r matches Err(
            FetchError::MissingCredential(v),
        ) && v@ == PASSWORD_VAR@),
        username is Some && password is Some ==> (r matches Ok(c) && c.username@
            == username->0@ && c.password@ == password->0@),
{
    match (username, password) {
        (None, _) => Err(FetchError::MissingCredential(String::from_str(USERNAME_VAR))),
        (Some(_), None) => Err(FetchError::MissingCredential(String::from_str(PASSWORD_VAR))),
        (Some(u), Some(p)) => Ok(Credentials { username: u, password: p }),
    }
}

/// Everything the one GET request of a search carries.
pub struct FetchRequest {
    pub url: String,
    /// The `Authorization` header's text.
    pub authorization: String,
    /// `authorization` as a header value.
    pub auth_header: HeaderValue,
}

/// Prepares the search request for `query` with `credentials`: the search
/// URL and the Basic authorization header.
pub fn build_request(query: &ServiceQuery, credentials: &Credentials) -> (r: Result<
    FetchRequest,
    FetchError,
>)
    ensures
        r matches Ok(req) && req.url@ == spec_search_url(query.origin@, opt_view(query.destination))
            && req.authorization@ == spec_basic_authorization(
            credentials.username@,
            credentials.password@,
        ),
{
    let url = search_url(query);
    let authorization = basic_authorization(credentials);
    match HeaderValue::from_str(authorization.as_str()) {
        Ok(auth_header) => Ok(FetchRequest { url, authorization, auth_header }),
        Err(_) => Err(FetchError::InvalidAuthHeader),
    }
}

/// Decides, before any network call, what a search from `query` sends:
/// the credential variables' values are checked first, and a missing one
/// ends the search with no request made.
pub fn prepare_fetch(query: &ServiceQuery, username: Option<String>, password: Option<String>) -> (r:
    Result<FetchRequest, FetchError>)
    ensures
        username is None ==> (r matches Err(FetchError::MissingCredential(v)) && v@ == USERNAME_VAR@),
        username is Some && password is None ==> (r matches Err(
            FetchError::MissingCredential(v),
        ) && v@ == PASSWORD_VAR@),
        username is Some && password is Some ==> (r matches Ok(req) && req.url@
            == spec_search_url(query.origin@, opt_view(query.destination)) && req.authorization@
            == spec_basic_authorization(username->0@, password->0@)),
{
    let credentials = match credentials_from(username, password) {
        Ok(c) => c,
        Err(e) => return Err(e),
    };
    build_request(query, &credentials)
}

} // verus!
