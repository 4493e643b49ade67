//! OAuth2 authorization-code flow for the reddit API: the session object,
//! its builders, and the token lifecycle (authorize, refresh, revoke).

use crate::callback_server::get_browser_response;
use crate::encoding::basic_auth_header;
use crate::encoding::pct_encoded;
use crate::encoding::percent_encode;
use crate::json::lookup_member;
use crate::json::lookup_value;
use crate::json::parse_json_object;
use crate::json::spec_parse_object;
use crate::json::JsonValue;
use crate::json::SpecJsonValue;
use crate::model::token::OAuthToken;
use crate::transport::OAuthTransport;
use crate::util::convert_map_to_string;
use crate::util::generate_random_string;
use crate::util::is_alphanumeric_char;
use crate::util::pairs_view;
use crate::util::query_concat;
use vstd::prelude::*;

verus! {

/// Whether the issued bearer token is refreshable after it expires.
#[allow(non_camel_case_types)]
#[derive(PartialEq, Eq, Structural, Clone, Copy, Debug)]
pub enum AuthorizationTime {
    permanent,
    temporary,
}

impl AuthorizationTime {
    /// The exact string the consent URL carries for this duration.
    pub open spec fn spec_wire_string(self) -> Seq<char> {
        match self {
            AuthorizationTime::permanent => "permanent"@,
            AuthorizationTime::temporary => "temporary"@,
        }
    }

    /// Maps the duration to its wire string.
    pub fn wire_string(&self) -> (r: String)
        ensures
            r@ == self.spec_wire_string(),
    {
        match self {
            AuthorizationTime::permanent => "permanent".to_owned(),
            AuthorizationTime::temporary => "temporary".to_owned(),
        }
    }
}

/// The state of one authorization session: freshly built, authorized after
/// a successful exchange, or failed.
#[derive(PartialEq, Eq, Structural, Clone, Copy, Debug)]
pub enum OAuthState {
    IDLE,
    AUTHORIZED,
    ERROR,
}

/// Every way one attempt or lifecycle operation can fail.
#[derive(PartialEq, Eq, Structural, Clone, Copy, Debug)]
pub enum OAuthError {
    /// The session was built without a callback URL or a state token.
    ConfigError,
    /// The consent page could not be opened in a browser.
    BrowserLaunchError,
    /// The provider redirected with an error, or the callback was malformed.
    CallbackProtocolError,
    /// The timeout guard fired before a decisive callback arrived.
    TimeoutError,
    /// The callback's state token differs from the attempt's.
    StateMismatchError,
    /// The token endpoint's response was not a bearer token.
    TokenExchangeError,
    /// A refresh was asked of a token without a refresh token.
    NotRefreshableError,
    /// The revoke endpoint rejected the client credentials.
    RevokeCredentialError,
}

impl OAuthError {
    /// The message reported for this error.
    pub open spec fn spec_message(self) -> Seq<char> {
        match self {
            OAuthError::ConfigError => "`callback_url` and `state_string` have to be set"@,
            OAuthError::BrowserLaunchError => "Could not open browser. Is a default browser set?"@,
            OAuthError::CallbackProtocolError => "Unexpected response from reddit"@,
            OAuthError::TimeoutError => "Reached timeout; user did not authorize in time."@,
            OAuthError::StateMismatchError
                => "State string of response is not the same. Cannot trust the bearer token."@,
            OAuthError::TokenExchangeError
                => "Could not parse the token endpoint response into a bearer token"@,
            OAuthError::NotRefreshableError => "Token not refreshable `refresh_token` is empty"@,
            OAuthError::RevokeCredentialError
                => "Client credentials sent as HTTP Basic Authorization were invalid"@,
        }
    }

    /// The message reported for this error.
    pub fn message(&self) -> (r: String)
        ensures
            r@ == self.spec_message(),
    {
        match self {
            OAuthError::ConfigError => "`callback_url` and `state_string` have to be set".to_owned(),
            OAuthError::BrowserLaunchError => "Could not open browser. Is a default browser set?".to_owned(),
            OAuthError::CallbackProtocolError => "Unexpected response from reddit".to_owned(),
            OAuthError::TimeoutError => "Reached timeout; user did not authorize in time.".to_owned(),
            OAuthError::StateMismatchError
                => "State string of response is not the same. Cannot trust the bearer token.".to_owned(),
            OAuthError::TokenExchangeError
                => "Could not parse the token endpoint response into a bearer token".to_owned(),
            OAuthError::NotRefreshableError => "Token not refreshable `refresh_token` is empty".to_owned(),
            OAuthError::RevokeCredentialError
                => "Client credentials sent as HTTP Basic Authorization were invalid".to_owned(),
        }
    }
}

/// The scopes a bearer token can be limited to.
#[allow(non_camel_case_types)]
#[derive(PartialEq, Eq, Structural, Clone, Copy, Debug)]
pub enum RedditApiScope {
    identity,
    edit,
    flair,
    history,
    modconfig,
    modflair,
    modlog,
    modposts,
    modwiki,
    mysubreddits,
    privatemessages,
    read,
    report,
    save,
    submit,
    subscribe,
    vote,
    wikiedit,
    wikiread,
}

impl RedditApiScope {
    /// The exact scope string the provider expects.
    pub open spec fn spec_wire_string(self) -> Seq<char> {
        match self {
            RedditApiScope::identity => "identity"@,
            RedditApiScope::edit => "edit"@,
            RedditApiScope::flair => "flair"@,
            RedditApiScope::history => "history"@,
            RedditApiScope::modconfig => "modconfig"@,
            RedditApiScope::modflair => "modflair"@,
            RedditApiScope::modlog => "modlog"@,
            RedditApiScope::modposts => "modposts"@,
            RedditApiScope::modwiki => "modwiki"@,
            RedditApiScope::mysubreddits => "mysubreddits"@,
            RedditApiScope::privatemessages => "privatemessages"@,
            RedditApiScope::read => "read"@,
            RedditApiScope::report => "report"@,
            RedditApiScope::save => "save"@,
            RedditApiScope::submit => "submit"@,
            RedditApiScope::subscribe => "subscribe"@,
            RedditApiScope::vote => "vote"@,
            RedditApiScope::wikiedit => "wikiedit"@,
            RedditApiScope::wikiread => "wikiread"@,
        }
    }

    /// Maps the scope to its wire string.
    pub fn wire_string(&self) -> (r: String)
        ensures
            r@ == self.spec_wire_string(),
    {
        match self {
            RedditApiScope::identity => "identity".to_owned(),
            RedditApiScope::edit => "edit".to_owned(),
            RedditApiScope::flair => "flair".to_owned(),
            RedditApiScope::history => "history".to_owned(),
            RedditApiScope::modconfig => "modconfig".to_owned(),
            RedditApiScope::modflair => "modflair".to_owned(),
            RedditApiScope::modlog => "modlog".to_owned(),
            RedditApiScope::modposts => "modposts".to_owned(),
            RedditApiScope::modwiki => "modwiki".to_owned(),
            RedditApiScope::mysubreddits => "mysubreddits".to_owned(),
            RedditApiScope::privatemessages => "privatemessages".to_owned(),
            RedditApiScope::read => "read".to_owned(),
            RedditApiScope::report => "report".to_owned(),
            RedditApiScope::save => "save".to_owned(),
            RedditApiScope::submit => "submit".to_owned(),
            RedditApiScope::subscribe => "subscribe".to_owned(),
            RedditApiScope::vote => "vote".to_owned(),
            RedditApiScope::wikiedit => "wikiedit".to_owned(),
            RedditApiScope::wikiread => "wikiread".to_owned(),
        }
    }
}

/// The credentials of the registered client application, supplied once and
/// read by the URL builder and the token lifecycle.
#[derive(Clone, Debug)]
pub struct RedditClientCredentials {
    pub client_id: String,
    pub client_secret: String,
}

impl RedditClientCredentials {
    /// A credentials value with both fields still to be set; the caller
    /// supplies the real values explicitly, through the setters.
    pub fn default() -> (r: RedditClientCredentials)
        ensures
            r.client_id@ == Seq::<char>::empty(),
            r.client_secret@ == Seq::<char>::empty(),
    {
        RedditClientCredentials { client_id: String::new(), client_secret: String::new() }
    }

    /// Sets `client_id`.
    pub fn client_id(self, client_id: &str) -> (r: RedditClientCredentials)
        ensures
            r.client_id@ == client_id@,
            r.client_secret == self.client_secret,
    {
        RedditClientCredentials { client_id: client_id.to_owned(), ..self }
    }

    /// Sets `client_secret`.
    pub fn client_secret(self, client_secret: &str) -> (r: RedditClientCredentials)
        ensures
            r.client_secret@ == client_secret@,
            r.client_id == self.client_id,
    {
        RedditClientCredentials { client_secret: client_secret.to_owned(), ..self }
    }
}

/// One authorization session: the callback URL the listener will serve, the
/// per-attempt anti-forgery state token, the session state and, after a
/// failure, its message.
#[derive(Clone, Debug)]
pub struct RedditOAuth {
    pub callback_url: String,
    pub oauth_state: OAuthState,
    pub error_string: Option<String>,
    pub state_string: String,
    pub client_credentials: RedditClientCredentials,
}

impl RedditOAuth {
    /// A fresh idle session with a newly generated ten-character state
    /// token; the callback URL and credentials are still to be set.
    pub fn default() -> (r: RedditOAuth)
        ensures
            r.callback_url@ == Seq::<char>::empty(),
            r.oauth_state == OAuthState::IDLE,
            r.error_string is None,
            r.state_string@.len() == 10,
            forall|j: int|
                0 <= j < r.state_string@.len() ==> is_alphanumeric_char(#[trigger] r.state_string@[j]),
            r.client_credentials.client_id@ == Seq::<char>::empty(),
            r.client_credentials.client_secret@ == Seq::<char>::empty(),
    {
        RedditOAuth {
            callback_url: String::new(),
            oauth_state: OAuthState::IDLE,
            error_string: None,
            state_string: generate_random_string(10),
            client_credentials: RedditClientCredentials::default(),
        }
    }

    /// Sets `state_string`.
    pub fn state_string(self, state_string: &str) -> (r: RedditOAuth)
        ensures
            r.state_string@ == state_string@,
            r.callback_url == self.callback_url,
            r.oauth_state == self.oauth_state,
            r.error_string == self.error_string,
            r.client_credentials == self.client_credentials,
    {
        RedditOAuth { state_string: state_string.to_owned(), ..self }
    }

    /// Sets `oauth_state`.
    pub fn oauth_state(self, oauth_state: OAuthState) -> (r: RedditOAuth)
        ensures
            r.oauth_state == oauth_state,
            r.callback_url == self.callback_url,
            r.state_string == self.state_string,
            r.error_string == self.error_string,
            r.client_credentials == self.client_credentials,
    {
        RedditOAuth { oauth_state, ..self }
    }

    /// Sets `error_string`.
    pub fn error_state(self, error_state: &str) -> (r: RedditOAuth)
        ensures
            r.error_string matches Some(m) && m@ == error_state@,
            r.callback_url == self.callback_url,
            r.oauth_state == self.oauth_state,
            r.state_string == self.state_string,
            r.client_credentials == self.client_credentials,
    {
        RedditOAuth { error_string: Some(error_state.to_owned()), ..self }
    }

    /// Validates the session: with a callback URL and a state token set it
    /// is idle and ready to use, otherwise it is put in the error state
    /// with the configuration message.
    pub fn build(self) -> (r: RedditOAuth)
        ensures
            r.callback_url == self.callback_url,
            r.state_string == self.state_string,
            r.client_credentials == self.client_credentials,
            (self.callback_url@ == Seq::<char>::empty() || self.state_string@ == Seq::<
                char,
            >::empty()) ==> r.oauth_state == OAuthState::ERROR && (r.error_string matches Some(m)
                && m@ == OAuthError::ConfigError.spec_message()),
            !(self.callback_url@ == Seq::<char>::empty() || self.state_string@ == Seq::<
                char,
            >::empty()) ==> r.oauth_state == OAuthState::IDLE && r.error_string
                == self.error_string,
    {
        if self.callback_url.as_str().is_empty() || self.state_string.as_str().is_empty() {
            let message = OAuthError::ConfigError.message();
            proof {
                assert(self.callback_url@ == Seq::<char>::empty() || self.state_string@ =~= Seq::<
                    char,
                >::empty());
            }
            return RedditOAuth {
                oauth_state: OAuthState::ERROR,
                error_string: Some(message),
                ..self
            };
        }
        RedditOAuth { oauth_state: OAuthState::IDLE, ..self }
    }

    /// Opens the consent page in the user's browser, waits for the
    /// state-validated callback, and exchanges its code for a bearer token.
    /// On success the session is authorized and the returned token is the
    /// parse of the exchange response; on any failure it is in the error
    /// state with that failure's message, and nothing is returned.
    pub fn authorize_client<T: OAuthTransport>(
        &mut self,
        scope: &str,
        duration: Option<AuthorizationTime>,
        transport: &mut T,
    ) -> (r: Option<OAuthToken>)
        ensures
            final(self).callback_url == old(self).callback_url,
            final(self).state_string == old(self).state_string,
            final(self).client_credentials == old(self).client_credentials,
            r matches Some(t) ==> final(self).oauth_state == OAuthState::AUTHORIZED
                && (exists|b: Seq<char>|
                #[trigger] token_matches_response(t, b, Seq::<char>::empty())),
            r is None ==> final(self).oauth_state == OAuthState::ERROR && (final(self).error_string
                matches Some(m) && (m@ == OAuthError::BrowserLaunchError.spec_message() || m@
                == OAuthError::TimeoutError.spec_message() || m@
                == OAuthError::CallbackProtocolError.spec_message() || m@
                == OAuthError::StateMismatchError.spec_message() || m@
                == OAuthError::TokenExchangeError.spec_message())),
    {
        let duration_string = match duration {
            Some(d) => d.wire_string(),
            None => AuthorizationTime::permanent.wire_string(),
        };
        let authorize_url = build_authorize_url(
            self.client_credentials.client_id.as_str(),
            self.callback_url.as_str(),
            self.state_string.as_str(),
            scope,
            duration_string.as_str(),
        );
        if !transport.open_browser_url(authorize_url.as_str()) {
            self.oauth_state = OAuthState::ERROR;
            self.error_string = Some(OAuthError::BrowserLaunchError.message());
            return None;
        }
        match get_browser_response(transport, 120, self.state_string.as_str()) {
            Ok(code) => match self.get_initial_access_token(code.as_str(), transport) {
                Some(token) => {
                    self.oauth_state = OAuthState::AUTHORIZED;
                    Some(token)
                },
                None => {
                    self.oauth_state = OAuthState::ERROR;
                    self.error_string = Some(OAuthError::TokenExchangeError.message());
                    None
                },
            },
            Err(e) => {
                self.error_string = Some(e.message());
                self.oauth_state = OAuthState::ERROR;
                None
            },
        }
    }

    /// Exchanges an authorization code for a bearer token: POSTs the
    /// exchange body with the Basic credential to the token endpoint and
    /// parses whatever comes back. Whatever the endpoint answered, a
    /// returned token is exactly the parse of that response body, with an
    /// empty refresh token where the response carried none; an unparseable
    /// response yields nothing. The request body and the parse are pinned
    /// by `access_token_request_body` and `parse_token_body`.
    pub fn get_initial_access_token<T: OAuthTransport>(
        &self,
        code: &str,
        transport: &mut T,
    ) -> (r: Option<OAuthToken>)
        ensures
            r matches Some(t) ==> exists|b: Seq<char>|
                #[trigger] token_matches_response(t, b, Seq::<char>::empty()),
    {
        let body = access_token_request_body(code, self.callback_url.as_str());
        let header = basic_auth_header(
            self.client_credentials.client_id.as_str(),
            self.client_credentials.client_secret.as_str(),
        );
        let answer = transport.post(
            "https://www.reddit.com/api/v1/access_token",
            body.as_str(),
            header.as_str(),
        );
        match parse_token_body(answer.as_str(), "") {
            Some(token) => {
                proof {
                    reveal_strlit("");
                    assert(""@ =~= Seq::<char>::empty());
                    assert(token_matches_response(token, answer@, Seq::<char>::empty()));
                }
                Some(token)
            },
            None => None,
        }
    }

    /// Refreshes an expired bearer token. A token without a refresh token
    /// fails at once, before anything is sent; otherwise the provider's
    /// answer is parsed with the old refresh token carried forward wherever
    /// the response omits one (see `parse_token_body`). Every failure puts
    /// the session in the error state with the failure's message — the
    /// not-refreshable message exactly when the refresh token was empty,
    /// the exchange message otherwise — and a success touches nothing.
    pub fn refresh_token<T: OAuthTransport>(
        &mut self,
        to_refresh: &OAuthToken,
        transport: &mut T,
    ) -> (r: Option<OAuthToken>)
        ensures
            final(self).callback_url == old(self).callback_url,
            final(self).state_string == old(self).state_string,
            final(self).client_credentials == old(self).client_credentials,
            r is None ==> final(self).oauth_state == OAuthState::ERROR && final(self).error_string
                is Some,
            to_refresh.refresh_token@ == Seq::<char>::empty() ==> (r is None
                && (final(self).error_string matches Some(m) && m@
                == OAuthError::NotRefreshableError.spec_message())),
            to_refresh.refresh_token@.len() > 0 && r is None ==> (final(self).error_string
                matches Some(m) && m@ == OAuthError::TokenExchangeError.spec_message()),
            r is Some ==> final(self).oauth_state == old(self).oauth_state
                && final(self).error_string == old(self).error_string,
            r matches Some(t) ==> exists|b: Seq<char>|
                #[trigger] token_matches_response(t, b, to_refresh.refresh_token@),
    {
        if to_refresh.refresh_token.as_str().is_empty() {
            self.error_string = Some(OAuthError::NotRefreshableError.message());
            self.oauth_state = OAuthState::ERROR;
            return None;
        }
        let body = refresh_request_body(to_refresh.refresh_token.as_str());
        let header = basic_auth_header(
            self.client_credentials.client_id.as_str(),
            self.client_credentials.client_secret.as_str(),
        );
        let answer = transport.post(
            "https://www.reddit.com/api/v1/access_token",
            body.as_str(),
            header.as_str(),
        );
        match parse_token_body(answer.as_str(), to_refresh.refresh_token.as_str()) {
            Some(token) => {
                proof {
                    assert(token_matches_response(token, answer@, to_refresh.refresh_token@));
                }
                Some(token)
            },
            None => {
                self.error_string = Some(OAuthError::TokenExchangeError.message());
                self.oauth_state = OAuthState::ERROR;
                None
            },
        }
    }

    /// Revokes a bearer token by hand: POSTs the revocation body with the
    /// Basic credential; the provider answers with an empty body exactly
    /// when the revocation was accepted (see `revoke_response`).
    pub fn revoke_token<T: OAuthTransport>(
        &mut self,
        to_revoke: &OAuthToken,
        transport: &mut T,
    ) -> (r: Result<(), String>)
        ensures
            *final(self) == *old(self),
            r matches Err(m) ==> m@ == OAuthError::RevokeCredentialError.spec_message(),
    {
        let body = revoke_request_body(to_revoke.access_token.as_str());
        let header = basic_auth_header(
            self.client_credentials.client_id.as_str(),
            self.client_credentials.client_secret.as_str(),
        );
        let answer = transport.post(
            "https://www.reddit.com/api/v1/revoke_token",
            body.as_str(),
            header.as_str(),
        );
        revoke_response(answer.as_str())
    }
}

/// The consent-page query parameters, in order, each value percent-encoded.
pub open spec fn spec_authorize_params(
    client_id: Seq<char>,
    callback_url: Seq<char>,
    state_string: Seq<char>,
    scope: Seq<char>,
    duration_string: Seq<char>,
) -> Seq<(Seq<char>, Seq<char>)> {
    seq![
        ("response_type"@, pct_encoded("code"@)),
        ("duration"@, pct_encoded(duration_string)),
        ("scope"@, pct_encoded(scope)),
        ("state"@, pct_encoded(state_string)),
        ("client_id"@, pct_encoded(client_id)),
        ("redirect_uri"@, pct_encoded(callback_url)),
    ]
}

/// The consent-page URL: the provider's authorize endpoint with the query
/// of `spec_authorize_params`.
pub open spec fn spec_authorize_url(
    client_id: Seq<char>,
    callback_url: Seq<char>,
    state_string: Seq<char>,
    scope: Seq<char>,
    duration_string: Seq<char>,
) -> Seq<char> {
    "https://www.reddit.com/api/v1/authorize?"@ + query_concat(
        spec_authorize_params(client_id, callback_url, state_string, scope, duration_string),
    )
}

/// Builds the consent-page URL from the attempt's parameters; every value
/// is percent-encoded, the parameters stand in a fixed order.
pub fn build_authorize_url(
    client_id: &str,
    callback_url: &str,
    state_string: &str,
    scope: &str,
    duration_string: &str,
) -> (r: String)
    ensures
        r@ == spec_authorize_url(client_id@, callback_url@, state_string@, scope@,
        duration_string@),
{
    let mut params: Vec<(String, String)> = Vec::new();
    params.push(("response_type".to_owned(), percent_encode("code")));
    params.push(("duration".to_owned(), percent_encode(duration_string)));
    params.push(("scope".to_owned(), percent_encode(scope)));
    params.push(("state".to_owned(), percent_encode(state_string)));
    params.push(("client_id".to_owned(), percent_encode(client_id)));
    params.push(("redirect_uri".to_owned(), percent_encode(callback_url)));
    let query = convert_map_to_string(&params);
    proof {
        assert(pairs_view(params@) =~= spec_authorize_params(client_id@, callback_url@,
        state_string@, scope@, duration_string@));
    }
    let mut url = "https://www.reddit.com/api/v1/authorize?".to_owned();
    url.append(query.as_str());
    url
}

/// The body of the code-for-token exchange request.
pub fn access_token_request_body(code: &str, redirect_uri: &str) -> (r: String)
    ensures
        r@ == "grant_type=authorization_code&code="@ + code@ + "&redirect_uri="@ + redirect_uri@,
{
    let mut body = "grant_type=authorization_code&code=".to_owned();
    body.append(code);
    body.append("&redirect_uri=");
    body.append(redirect_uri);
    body
}

/// The body of the refresh request.
pub fn refresh_request_body(refresh_token_value: &str) -> (r: String)
    ensures
        r@ == "grant_type=refresh_token&refresh_token="@ + refresh_token_value@,
{
    let mut body = "grant_type=refresh_token&refresh_token=".to_owned();
    body.append(refresh_token_value);
    body
}

/// The body of the revocation request.
pub fn revoke_request_body(access_token_value: &str) -> (r: String)
    ensures
        r@ == "token="@ + access_token_value@ + "&token_type_hint=access_token"@,
{
    let mut body = "token=".to_owned();
    body.append(access_token_value);
    body.append("&token_type_hint=access_token");
    body
}

/// The bearer-token fields of a parsed token object: access token, token
/// type, expiry, scope, and the refresh token when the response carries
/// one. Nothing is yielded when a required member is missing or has the
/// wrong shape.
pub open spec fn spec_token_fields(ms: Seq<(Seq<char>, SpecJsonValue)>) -> Option<
    (Seq<char>, Seq<char>, u64, Seq<char>, Option<Seq<char>>),
> {
    match (
        lookup_member(ms, "access_token"@),
        lookup_member(ms, "token_type"@),
        lookup_member(ms, "expires_in"@),
        lookup_member(ms, "scope"@),
    ) {
        (
            Some(SpecJsonValue::Str(access)),
            Some(SpecJsonValue::Str(ttype)),
            Some(SpecJsonValue::Num(expires)),
            Some(SpecJsonValue::Str(scope)),
        ) => match lookup_member(ms, "refresh_token"@) {
            Some(SpecJsonValue::Str(refresh)) => Some(
                (access, ttype, expires, scope, Some(refresh)),
            ),
            None => Some((access, ttype, expires, scope, None)),
            Some(_) => None,
        },
        _ => None,
    }
}

/// The bearer-token fields of a whole response body.
pub open spec fn spec_token_response(body: Seq<char>) -> Option<
    (Seq<char>, Seq<char>, u64, Seq<char>, Option<Seq<char>>),
> {
    match spec_parse_object(body) {
        Some(ms) => spec_token_fields(ms),
        None => None,
    }
}

/// Whether a bearer token is exactly the parse of the given response body,
/// with `fallback` standing in for an omitted `refresh_token` member. This
/// is what the lifecycle operations promise of every token they return.
pub open spec fn token_matches_response(
    t: OAuthToken,
    body: Seq<char>,
    fallback: Seq<char>,
) -> bool {
    match spec_token_response(body) {
        Some(f) => t.access_token@ == f.0 && t.token_type@ == f.1 && t.expires_in == f.2
            && t.scope@ == f.3 && t.refresh_token@ == (match f.4 {
            Some(rf) => rf,
            None => fallback,
        }),
        None => false,
    }
}

/// Parses a token-endpoint response body into a bearer token. A body that
/// is not a token object yields nothing; a token whose response omits the
/// `refresh_token` member gets `fallback_refresh` in its place, so a
/// refresh keeps the old token's refresh token.
pub fn parse_token_body(body: &str, fallback_refresh: &str) -> (r: Option<OAuthToken>)
    ensures
        match spec_token_response(body@) {
            Some(f) => {
                if f.2 <= usize::MAX {
                    r matches Some(t) && t.access_token@ == f.0 && t.token_type@ == f.1
                        && t.expires_in == f.2 && t.scope@ == f.3 && t.refresh_token@ == (match f.4 {
                        Some(rf) => rf,
                        None => fallback_refresh@,
                    })
                } else {
                    r is None
                }
            },
            None => r is None,
        },
{
    let members = match parse_json_object(body) {
        Some(m) => m,
        None => {
            return None;
        },
    };
    let access_token = match lookup_value(&members, "access_token") {
        Some(JsonValue::Str(s)) => s.clone(),
        _ => {
            return None;
        },
    };
    let token_type = match lookup_value(&members, "token_type") {
        Some(JsonValue::Str(s)) => s.clone(),
        _ => {
            return None;
        },
    };
    let expires = match lookup_value(&members, "expires_in") {
        Some(JsonValue::Num(n)) => *n,
        _ => {
            return None;
        },
    };
    let scope = match lookup_value(&members, "scope") {
        Some(JsonValue::Str(s)) => s.clone(),
        _ => {
            return None;
        },
    };
    let refresh_token = match lookup_value(&members, "refresh_token") {
        Some(JsonValue::Str(s)) => s.clone(),
        None => fallback_refresh.to_owned(),
        Some(_) => {
            return None;
        },
    };
    if expires > (usize::MAX as u64) {
        return None;
    }
    Some(
        OAuthToken {
            access_token,
            token_type,
            expires_in: expires as usize,
            scope,
            refresh_token,
        },
    )
}

/// Reads the revoke endpoint's answer: the empty response body means the
/// revocation was accepted, and any other body means the client
/// credentials were rejected.
pub fn revoke_response(body: &str) -> (r: Result<(), String>)
    ensures
        r is Ok <==> body@.len() == 0,
        r matches Err(m) ==> m@ == OAuthError::RevokeCredentialError.spec_message(),
{
    if body.is_empty() {
        Ok(())
    } else {
        Err(OAuthError::RevokeCredentialError.message())
    }
}

} // verus!
