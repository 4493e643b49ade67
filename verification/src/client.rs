//! The REST client object: its builders, and the request preparation and
//! response rules of the listing and comment endpoints. Sending the
//! prepared requests over HTTP is outside collaborators' work; everything
//! decided here — parameter validation, scope checks, URL and payload
//! construction — is verified.

use crate::model::responses::CommentResponse;
use crate::model::sort_time::SortTime;
use crate::model::token::OAuthToken;
use crate::oauth2::RedditClientCredentials;
use crate::util::bool_to_string;
use crate::util::contains_substr;
use crate::util::convert_map_to_string;
use crate::util::pairs_view;
use crate::util::query_concat;
use crate::util::spec_contains_seq;
use crate::util::spec_dec_digits;
use crate::util::u32_to_string;
use vstd::prelude::*;

verus! {

/// The reddit API client: endpoint prefixes, client credentials, and the
/// bearer token the authorization flow produced.
#[derive(Clone, Debug)]
pub struct Reddit {
    pub authorized_prefix: String,
    pub basic_prefix: String,
    pub oauth_prefix: String,
    pub client_credentials: RedditClientCredentials,
    pub bearer_token: Option<OAuthToken>,
    pub is_built: bool,
}

impl Reddit {
    /// A client against the default reddit endpoints, with the credentials
    /// and the bearer token still to be set; usable after `build()`.
    pub fn default() -> (r: Reddit)
        ensures
            r.authorized_prefix@ == "https://www.reddit.com/api/v1/"@,
            r.basic_prefix@ == "https://www.reddit.com"@,
            r.oauth_prefix@ == "https://oauth.reddit.com"@,
            r.client_credentials.client_id@ == Seq::<char>::empty(),
            r.client_credentials.client_secret@ == Seq::<char>::empty(),
            r.bearer_token is None,
            !r.is_built,
    {
        Reddit {
            authorized_prefix: "https://www.reddit.com/api/v1/".to_owned(),
            basic_prefix: "https://www.reddit.com".to_owned(),
            oauth_prefix: "https://oauth.reddit.com".to_owned(),
            client_credentials: RedditClientCredentials::default(),
            bearer_token: None,
            is_built: false,
        }
    }

    /// Sets the client credentials.
    pub fn client_credentials(self, client_credentials: &RedditClientCredentials) -> (r: Reddit)
        ensures
            r.client_credentials.client_id@ == client_credentials.client_id@,
            r.client_credentials.client_secret@ == client_credentials.client_secret@,
            r.authorized_prefix == self.authorized_prefix,
            r.basic_prefix == self.basic_prefix,
            r.oauth_prefix == self.oauth_prefix,
            r.bearer_token == self.bearer_token,
            r.is_built == self.is_built,
    {
        Reddit {
            client_credentials: RedditClientCredentials {
                client_id: client_credentials.client_id.clone(),
                client_secret: client_credentials.client_secret.clone(),
            },
            ..self
        }
    }

    /// Sets the OAuth endpoint prefix.
    pub fn authorized_prefix(self, prefix: &str) -> (r: Reddit)
        ensures
            r.authorized_prefix@ == prefix@,
            r.basic_prefix == self.basic_prefix,
            r.oauth_prefix == self.oauth_prefix,
            r.client_credentials == self.client_credentials,
            r.bearer_token == self.bearer_token,
            r.is_built == self.is_built,
    {
        Reddit { authorized_prefix: prefix.to_owned(), ..self }
    }

    /// Sets the prefix for the endpoints that need no authorization.
    pub fn basic_prefix(self, prefix: &str) -> (r: Reddit)
        ensures
            r.basic_prefix@ == prefix@,
            r.authorized_prefix == self.authorized_prefix,
            r.oauth_prefix == self.oauth_prefix,
            r.client_credentials == self.client_credentials,
            r.bearer_token == self.bearer_token,
            r.is_built == self.is_built,
    {
        Reddit { basic_prefix: prefix.to_owned(), ..self }
    }

    /// Sets the bearer token.
    pub fn bearer_token(self, token: OAuthToken) -> (r: Reddit)
        ensures
            r.bearer_token matches Some(t) && t == token,
            r.authorized_prefix == self.authorized_prefix,
            r.basic_prefix == self.basic_prefix,
            r.oauth_prefix == self.oauth_prefix,
            r.client_credentials == self.client_credentials,
            r.is_built == self.is_built,
    {
        Reddit { bearer_token: Some(token), ..self }
    }

    /// Validates the client. Both endpoint prefixes must be set: a client
    /// without them cannot reach the API at all, so such a value is ruled
    /// out before any use.
    pub fn build(self) -> (r: Reddit)
        requires
            self.authorized_prefix@.len() > 0,
            self.basic_prefix@.len() > 0,
        ensures
            r.is_built,
            r.authorized_prefix == self.authorized_prefix,
            r.basic_prefix == self.basic_prefix,
            r.oauth_prefix == self.oauth_prefix,
            r.client_credentials == self.client_credentials,
            r.bearer_token == self.bearer_token,
    {
        Reddit { is_built: true, ..self }
    }

    /// Prepares one listing request: validates the limit bounds, that at
    /// most one of `after` and `before` is set, that a bearer token with
    /// the `read` scope is present, and yields the request URL and its
    /// authorization header.
    pub fn listing_request(
        &self,
        sorting: &str,
        subreddit: Option<&str>,
        t: Option<SortTime>,
        after: &str,
        before: &str,
        count: u32,
        limit: u32,
        show: bool,
        sr_detail: bool,
    ) -> (r: Result<(String, String), String>)
        ensures
            ({
                let sortv = match t {
                    Some(st) => st.spec_wire_string(),
                    None => Seq::<char>::empty(),
                };
                let subv = match subreddit {
                    Some(s) => s@,
                    None => Seq::<char>::empty(),
                };
                if limit > 100 || limit == 0 {
                    r matches Err(m) && m@ == "Limit bounds are [1, 100]"@
                } else if after@.len() > 0 && before@.len() > 0 {
                    r matches Err(m) && m@
                        == "Set `after` XOR `before`. Do not set both to a specific value."@
                } else {
                    match self.bearer_token {
                        None => r matches Err(m) && m@
                            == "Bearer Token not set. Authorization necessary for this action"@,
                        Some(token) => {
                            if !spec_contains_seq(token.scope@, "read"@) {
                                r matches Err(m) && m@
                                    == "Insufficient scope rights. Need scope: `read`."@
                            } else {
                                r matches Ok(p) && p.0@ == spec_listing_url(
                                    subv,
                                    sorting@,
                                    spec_listing_params(sortv, limit as int, before@, after@,
                                    count as int, show, sr_detail),
                                ) && p.1@ == "Authorization: Basic "@
                                    + self.client_credentials.client_secret@
                            }
                        },
                    }
                }
            }),
    {
        if limit > 100 || limit == 0 {
            return Err("Limit bounds are [1, 100]".to_owned());
        }
        if !after.is_empty() && !before.is_empty() {
            return Err("Set `after` XOR `before`. Do not set both to a specific value.".to_owned());
        }
        let token = match &self.bearer_token {
            Some(token) => token,
            None => {
                return Err(
                    "Bearer Token not set. Authorization necessary for this action".to_owned(),
                );
            },
        };
        if !contains_substr(token.scope.as_str(), "read") {
            return Err("Insufficient scope rights. Need scope: `read`.".to_owned());
        }
        let sort_time_filter = match t {
            Some(st) => st.wire_string(),
            None => String::new(),
        };
        let subreddit_string = match subreddit {
            Some(s) => s.to_owned(),
            None => String::new(),
        };
        let mut params: Vec<(String, String)> = Vec::new();
        params.push(("t".to_owned(), sort_time_filter));
        params.push(("limit".to_owned(), u32_to_string(limit)));
        params.push(("before".to_owned(), before.to_owned()));
        params.push(("after".to_owned(), after.to_owned()));
        params.push(("count".to_owned(), u32_to_string(count)));
        params.push(("show".to_owned(), bool_to_string(show)));
        params.push(("sr_detail".to_owned(), bool_to_string(sr_detail)));
        params.push(("raw_json".to_owned(), "1".to_owned()));
        let query = convert_map_to_string(&params);
        proof {
            reveal_strlit("1");
            reveal_strlit("/");
            let sortv = match t {
                Some(st) => st.spec_wire_string(),
                None => Seq::<char>::empty(),
            };
            assert(pairs_view(params@) =~~= spec_listing_params(sortv, limit as int, before@,
            after@, count as int, show, sr_detail));
        }
        let mut url = "https://www.reddit.com".to_owned();
        url.append(subreddit_string.as_str());
        url.append("/");
        url.append(sorting);
        url.append("/.json?");
        url.append(query.as_str());
        let mut header = "Authorization: Basic ".to_owned();
        header.append(self.client_credentials.client_secret.as_str());
        Ok((url, header))
    }

    /// Prepares one comment submission: checks that a bearer token with the
    /// `submit` scope is present and yields the request URL, the payload
    /// and the bearer authorization header.
    pub fn comment_request(&self, thing_id: &str, text: &str) -> (r: Result<
        (String, String, String),
        String,
    >)
        ensures
            match self.bearer_token {
                None => r matches Err(m) && m@
                    == "Bearer Token not set. Authorization necessary for commenting"@,
                Some(token) => {
                    if !spec_contains_seq(token.scope@, "submit"@) {
                        r matches Err(m) && m@ == "Insufficient scope rights. Need scope: `submit`."@
                    } else {
                        r matches Ok(p) && p.0@ == self.oauth_prefix@ + "/api/comment"@ && p.1@
                            == query_concat(spec_comment_params(text@, thing_id@)) && p.2@
                            == "Authorization: bearer "@ + token.access_token@
                    }
                },
            },
    {
        let token = match &self.bearer_token {
            Some(token) => token,
            None => {
                return Err(
                    "Bearer Token not set. Authorization necessary for commenting".to_owned(),
                );
            },
        };
        if !contains_substr(token.scope.as_str(), "submit") {
            return Err("Insufficient scope rights. Need scope: `submit`.".to_owned());
        }
        let mut params: Vec<(String, String)> = Vec::new();
        params.push(("api_type".to_owned(), "json".to_owned()));
        params.push(("text".to_owned(), text.to_owned()));
        params.push(("return_rtjson".to_owned(), "true".to_owned()));
        params.push(("thing_id".to_owned(), thing_id.to_owned()));
        let payload = convert_map_to_string(&params);
        proof {
            assert(pairs_view(params@) =~= spec_comment_params(text@, thing_id@));
        }
        let mut url = self.oauth_prefix.clone();
        url.append("/api/comment");
        let mut header = "Authorization: bearer ".to_owned();
        header.append(token.access_token.as_str());
        Ok((url, payload, header))
    }
}

/// The query parameters of one listing request, in order.
pub open spec fn spec_listing_params(
    sort_time: Seq<char>,
    limit: int,
    before: Seq<char>,
    after: Seq<char>,
    count: int,
    show: bool,
    sr_detail: bool,
) -> Seq<(Seq<char>, Seq<char>)> {
    seq![
        ("t"@, sort_time),
        ("limit"@, spec_dec_digits(limit)),
        ("before"@, before),
        ("after"@, after),
        ("count"@, spec_dec_digits(count)),
        ("show"@, if show {
            "true"@
        } else {
            "false"@
        }),
        ("sr_detail"@, if sr_detail {
            "true"@
        } else {
            "false"@
        }),
        ("raw_json"@, seq!['1']),
    ]
}

/// The URL of one listing request.
pub open spec fn spec_listing_url(
    subreddit: Seq<char>,
    sorting: Seq<char>,
    params: Seq<(Seq<char>, Seq<char>)>,
) -> Seq<char> {
    "https://www.reddit.com"@ + subreddit + seq!['/'] + sorting + "/.json?"@ + query_concat(params)
}

/// The payload parameters of one comment submission, in order.
pub open spec fn spec_comment_params(text: Seq<char>, thing_id: Seq<char>) -> Seq<
    (Seq<char>, Seq<char>),
> {
    seq![
        ("api_type"@, "json"@),
        ("text"@, text),
        ("return_rtjson"@, "true"@),
        ("thing_id"@, thing_id),
    ]
}

/// Reads the provider's answer to a submitted comment: no error member
/// means the comment was accepted, and an error member reports its first
/// error as `[name] - description`. A reported error always carries at
/// least one pair of name and description.
pub fn comment_outcome(response: &CommentResponse) -> (r: Result<(), String>)
    requires
        response.json matches Some(e) ==> e.errors@.len() > 0 && e.errors@[0]@.len() >= 2,
    ensures
        match response.json {
            None => r is Ok,
            Some(e) => r matches Err(m) && m@ == seq!['['] + e.errors@[0]@[0]@ + "] - "@
                + e.errors@[0]@[1]@,
        },
{
    proof {
        reveal_strlit("[");
    }
    match &response.json {
        None => Ok(()),
        Some(e) => {
            let first = &e.errors[0];
            let mut message = "[".to_owned();
            message.append(first[0].as_str());
            message.append("] - ");
            message.append(first[1].as_str());
            Err(message)
        },
    }
}

} // verus!
