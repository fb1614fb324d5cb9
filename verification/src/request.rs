//! The requests of a scan: where each of them goes and what it carries.
//!
//! Every request is a GET that carries the token and the name of this
//! client. The library only describes the request; the caller sends it.

use vstd::prelude::*;
use vstd::string::*;
use crate::config::{Scope, ScopeView, Settings};
use crate::lookup::{Lookup, LookupError};

verus! {

/// Why the repositories could not be listed. Without a listing there is
/// nothing to scan.
#[derive(Clone, Copy, Debug, PartialEq, Eq, Structural)]
pub enum TransportError {
    /// The address of the listing is no URL, so nothing was sent.
    InvalidEndpoint,
    /// The request could not be sent, or no complete response came back.
    /// Whoever sends the request reports this.
    Unreachable,
    /// The body of the response is not a JSON array of repositories.
    /// Whoever decodes the body reports this.
    Undecodable,
}

/// A GET request: the URL, and the values of the two headers
/// `Authorization` and `User-Agent`.
pub struct Request {
    pub url: String,
    pub authorization: String,
    pub user_agent: String,
}

/// The name of the header that carries the token.
pub const AUTHORIZATION: &'static str = "Authorization";

/// The name of the header that names this client.
pub const USER_AGENT: &'static str = "User-Agent";

/// How this client names itself.
pub const CLIENT: &'static str = "conspectus/1.0";

/// `url::ParseError`, the URL parser's error. Nothing inside it is visible
/// here; it only says that the parser failed.
#[verifier::external_type_specification]
#[verifier::external_body]
pub struct ExUrlParseError(url::ParseError);

/// What `url::Url::parse` makes of an address: the serialization of the
/// URL that it parses, or `None` where it fails.
pub uninterp spec fn url_serialization(address: Seq<char>) -> Option<Seq<char>>;

/// Parses an address with `url::Url::parse` and hands out the URL as the
/// text that the parser serialized it to. Nothing is proved of the parser:
/// its result is only given the name `url_serialization`.
#[verifier::external_body]
fn parse_url(address: &str) -> (parsed: Result<String, url::ParseError>)
    ensures
        url_serialization(address@) == match parsed {
            Ok(url) => Some(url@),
            Err(_) => None,
        },
{
    match url::Url::parse(address) {
        Ok(url) => Ok(String::from(url)),
        Err(error) => Err(error),
    }
}

/// Under whose name the repositories of a scope are addressed: the user's,
/// or the organization's. The team only matters for the listing.
pub open spec fn owner_text(scope: ScopeView) -> Seq<char> {
    match scope {
        ScopeView::User { user_name } => user_name,
        ScopeView::Org { organization_name, team_name } => organization_name,
    }
}

/// The end of a lookup's address, after the repository's name.
pub open spec fn endpoint_text(lookup: Lookup) -> Seq<char> {
    match lookup {
        Lookup::DependabotFile => "/contents/.github/dependabot.yml"@,
        Lookup::CodeownersFile => "/contents/.github/CODEOWNERS"@,
        Lookup::DependabotAlerts => "/vulnerability-alerts"@,
        Lookup::SecretScanningAlerts => "/secret-scanning/alerts"@,
        Lookup::CodeScanningAlerts => "/code-scanning/alerts"@,
        Lookup::OpenPullRequests => "/pulls?state=open"@,
    }
}

/// The address of a lookup about a repository, as it is written before any
/// parsing.
pub open spec fn lookup_address_text(
    scope: ScopeView,
    lookup: Lookup,
    repository_name: Seq<char>,
) -> Seq<char> {
    "https://api.github.com/repos/"@ + owner_text(scope) + "/"@ + repository_name + endpoint_text(
        lookup,
    )
}

/// The address of the listing, as it is written before any parsing. For a
/// user it is fixed; for a team it asks for pages of 100.
pub open spec fn listing_address_text(scope: ScopeView) -> Seq<char> {
    match scope {
        ScopeView::User { user_name } => "https://api.github.com/user/repos"@,
        ScopeView::Org { organization_name, team_name } => "https://api.github.com/orgs/"@
            + organization_name + "/teams/"@ + team_name + "/repos?per_page=100"@,
    }
}

/// The value of the `Authorization` header for a token.
pub open spec fn authorization_text(token: Seq<char>) -> Seq<char> {
    "token "@ + token
}

/// Whether a request is the one that goes to `url` with `token`.
pub open spec fn is_request(request: Request, url: Seq<char>, token: Seq<char>) -> bool {
    &&& request.url@ == url
    &&& request.authorization@ == authorization_text(token)
    &&& request.user_agent@ == CLIENT@
}

fn endpoint(lookup: Lookup) -> (text: &'static str)
    ensures
        text@ == endpoint_text(lookup),
{
    match lookup {
        Lookup::DependabotFile => "/contents/.github/dependabot.yml",
        Lookup::CodeownersFile => "/contents/.github/CODEOWNERS",
        Lookup::DependabotAlerts => "/vulnerability-alerts",
        Lookup::SecretScanningAlerts => "/secret-scanning/alerts",
        Lookup::CodeScanningAlerts => "/code-scanning/alerts",
        Lookup::OpenPullRequests => "/pulls?state=open",
    }
}

/// Writes the address of a lookup about a repository.
pub fn lookup_address(scope: &Scope, lookup: Lookup, repository_name: &str) -> (address: String)
    ensures
        address@ == lookup_address_text(scope@, lookup, repository_name@),
{
    let owner = match scope {
        Scope::User { user_name } => user_name.as_str(),
        Scope::Org { organization_name, team_name } => organization_name.as_str(),
    };
    let mut address = String::from_str("https://api.github.com/repos/");
    address.append(owner);
    address.append("/");
    address.append(repository_name);
    address.append(endpoint(lookup));
    address
}

/// Writes the address of the listing.
pub fn listing_address(scope: &Scope) -> (address: String)
    ensures
        address@ == listing_address_text(scope@),
{
    match scope {
        Scope::User { user_name } => String::from_str("https://api.github.com/user/repos"),
        Scope::Org { organization_name, team_name } => {
            let mut address = String::from_str("https://api.github.com/orgs/");
            address.append(organization_name.as_str());
            address.append("/teams/");
            address.append(team_name.as_str());
            address.append("/repos?per_page=100");
            address
        },
    }
}

impl Request {
    /// The request that goes to `url` with `token`.
    pub fn new(url: String, token: &str) -> (request: Request)
        ensures
            is_request(request, url@, token@),
    {
        let mut authorization = String::from_str("token ");
        authorization.append(token);
        Request { url, authorization, user_agent: String::from_str(CLIENT) }
    }
}

/// The request of a lookup about a repository. It is there exactly where
/// the URL parser accepts the lookup's address, and goes to the URL as the
/// parser wrote it.
pub fn lookup_request(settings: &Settings, lookup: Lookup, repository_name: &str) -> (request:
    Result<Request, LookupError>)
    ensures
        match url_serialization(lookup_address_text(settings@.scope, lookup, repository_name@)) {
            Some(url) => request matches Ok(r) && is_request(r, url, settings@.token),
            None => request matches Err(e) && e == LookupError::InvalidEndpoint,
        },
{
    let address = lookup_address(settings.scope(), lookup, repository_name);
    match parse_url(address.as_str()) {
        Ok(url) => Ok(Request::new(url, settings.token())),
        Err(_) => Err(LookupError::InvalidEndpoint),
    }
}

/// The request that lists the repositories of the scan. It is there
/// exactly where the URL parser accepts the listing's address.
pub fn listing_request(settings: &Settings) -> (request: Result<Request, TransportError>)
    ensures
        match url_serialization(listing_address_text(settings@.scope)) {
            Some(url) => request matches Ok(r) && is_request(r, url, settings@.token),
            None => request matches Err(e) && e == TransportError::InvalidEndpoint,
        },
{
    let address = listing_address(settings.scope());
    match parse_url(address.as_str()) {
        Ok(url) => Ok(Request::new(url, settings.token())),
        Err(_) => Err(TransportError::InvalidEndpoint),
    }
}

} // verus!
