//! The callback listener's decision logic: parsing the redirect request's
//! query string as a generic key-value map, classifying each request as
//! decisive or to be skipped, validating the anti-forgery state token, and
//! consuming the listener/timeout race until one decisive result.

use crate::oauth2::OAuthError;
use crate::transport::ListenerEvent;
use crate::transport::OAuthTransport;
use crate::util::pairs_view;
use crate::util::str_eq;
use vstd::prelude::*;

verus! {

/// The one decisive outcome of an attempt's callback race.
#[derive(Clone, Debug, PartialEq)]
pub enum CallbackResult {
    /// A well-formed redirect carrying the authorization code and the
    /// echoed state token.
    Success { code: String, state: String },
    /// The provider's own error redirect.
    ProtocolError { message: String },
    /// The timeout guard fired first.
    Timeout { message: String },
}

/// The first position at or after `i` where the character occurs, or the
/// length when it does not.
pub open spec fn spec_find_char(s: Seq<char>, c: char, i: int) -> int
    decreases s.len() - i,
{
    if 0 <= i < s.len() {
        if s[i] == c {
            i
        } else {
            spec_find_char(s, c, i + 1)
        }
    } else {
        s.len() as int
    }
}

fn find_char_from(s: &str, c: char, i: usize) -> (r: usize)
    requires
        i <= s@.len(),
    ensures
        r as int == spec_find_char(s@, c, i as int),
        i <= r <= s@.len(),
        r < s@.len() ==> s@[r as int] == c,
    decreases s@.len() - i,
{
    if i < s.unicode_len() {
        if s.get_char(i) == c {
            i
        } else {
            find_char_from(s, c, i + 1)
        }
    } else {
        i
    }
}

/// One `&`-delimited segment as a key-value pair: the part before the first
/// `=` is the key, the part after it the value; a segment without `=` is a
/// key with an empty value.
pub open spec fn spec_split_pair(seg: Seq<char>) -> (Seq<char>, Seq<char>) {
    let e = spec_find_char(seg, '=', 0);
    if e == seg.len() {
        (seg, Seq::<char>::empty())
    } else {
        (seg.subrange(0, e), seg.subrange(e + 1, seg.len() as int))
    }
}

fn split_pair(seg: &str) -> (r: (String, String))
    ensures
        (r.0@, r.1@) == spec_split_pair(seg@),
{
    let n = seg.unicode_len();
    let e = find_char_from(seg, '=', 0);
    if e == n {
        (seg.to_owned(), String::new())
    } else {
        (seg.substring_char(0, e).to_owned(), seg.substring_char(e + 1, n).to_owned())
    }
}

/// The query string as a key-value map: split on `&`, each segment split on
/// its first `=`, order and surplus parameters preserved.
pub open spec fn spec_query_pairs(q: Seq<char>) -> Seq<(Seq<char>, Seq<char>)>
    decreases q.len(),
{
    let a = spec_find_char(q, '&', 0);
    if 0 <= a < q.len() {
        seq![spec_split_pair(q.subrange(0, a))] + spec_query_pairs(q.subrange(a + 1, q.len() as int))
    } else {
        seq![spec_split_pair(q)]
    }
}

/// Parses a query string into its key-value pairs.
pub fn parse_query_pairs(q: &str) -> (r: Vec<(String, String)>)
    ensures
        pairs_view(r@) == spec_query_pairs(q@),
    decreases q@.len(),
{
    let n = q.unicode_len();
    let a = find_char_from(q, '&', 0);
    if a == n {
        let head = split_pair(q);
        let v: Vec<(String, String)> = vec![head];
        proof {
            assert(pairs_view(v@) =~= spec_query_pairs(q@));
        }
        v
    } else {
        let head = split_pair(q.substring_char(0, a));
        let mut rest = parse_query_pairs(q.substring_char(a + 1, n));
        rest.insert(0, head);
        proof {
            assert(pairs_view(rest@) =~= spec_query_pairs(q@));
        }
        rest
    }
}

/// The value of the first pair with the given key, if any.
pub open spec fn lookup_pair(pairs: Seq<(Seq<char>, Seq<char>)>, key: Seq<char>) -> Option<
    Seq<char>,
>
    decreases pairs.len(),
{
    if pairs.len() == 0 {
        None
    } else if pairs[0].0 == key {
        Some(pairs[0].1)
    } else {
        lookup_pair(pairs.skip(1), key)
    }
}

/// Finds the first query parameter with the given key.
pub fn lookup_query_value(pairs: &Vec<(String, String)>, key: &str) -> (r: Option<String>)
    ensures
        match lookup_pair(pairs_view(pairs@), key@) {
            Some(v) => r matches Some(s) && s@ == v,
            None => r is None,
        },
{
    let mut i: usize = 0;
    proof {
        assert(pairs_view(pairs@).skip(0) =~= pairs_view(pairs@));
    }
    while i < pairs.len()
        invariant
            i <= pairs@.len(),
            lookup_pair(pairs_view(pairs@), key@) == lookup_pair(
                pairs_view(pairs@).skip(i as int),
                key@,
            ),
        decreases pairs@.len() - i,
    {
        proof {
            assert(pairs_view(pairs@).skip(i as int)[0] == (pairs@[i as int].0@,
            pairs@[i as int].1@));
            assert(pairs_view(pairs@).skip(i as int).skip(1) =~= pairs_view(pairs@).skip(i + 1));
        }
        if str_eq(pairs[i].0.as_str(), key) {
            return Some(pairs[i].1.clone());
        }
        i = i + 1;
    }
    proof {
        assert(pairs_view(pairs@).skip(pairs@.len() as int) =~= Seq::<
            (Seq<char>, Seq<char>),
        >::empty());
    }
    None
}

/// The first position where `/?` starts, or the length when the request
/// carries no such query prefix.
pub open spec fn spec_find_query_start(u: Seq<char>, i: int) -> int
    decreases u.len() - i,
{
    if 0 <= i && i + 1 < u.len() {
        if u[i] == '/' && u[i + 1] == '?' {
            i
        } else {
            spec_find_query_start(u, i + 1)
        }
    } else {
        u.len() as int
    }
}

fn find_query_start(u: &str, i: usize) -> (r: usize)
    requires
        i <= u@.len(),
    ensures
        r as int == spec_find_query_start(u@, i as int),
        i <= r <= u@.len(),
        r < u@.len() ==> r + 1 < u@.len(),
    decreases u@.len() - i,
{
    let n = u.unicode_len();
    if i < n && i + 1 < n {
        if u.get_char(i) == '/' && u.get_char(i + 1) == '?' {
            i
        } else {
            find_query_start(u, i + 1)
        }
    } else {
        proof {
            assert(spec_find_query_start(u@, i as int) == u@.len());
        }
        u.unicode_len()
    }
}

/// Everything after the first `/?` of a request URL, or nothing when the
/// request carries no query string.
pub open spec fn spec_url_query(u: Seq<char>) -> Option<Seq<char>> {
    let k = spec_find_query_start(u, 0);
    if k == u.len() {
        None
    } else {
        Some(u.subrange(k + 2, u.len() as int))
    }
}

fn url_query(u: &str) -> (r: Option<String>)
    ensures
        match spec_url_query(u@) {
            Some(q) => r matches Some(s) && s@ == q,
            None => r is None,
        },
{
    let n = u.unicode_len();
    let k = find_query_start(u, 0);
    if k == n {
        None
    } else {
        Some(u.substring_char(k + 2, n).to_owned())
    }
}

/// Classifies one incoming request: the provider's error redirect is the
/// decisive protocol error; a request whose query holds both `code` and
/// `state`, in any order and possibly among other parameters, is the
/// decisive success; anything else is skipped and the listener keeps
/// waiting.
pub fn classify_request(url: &str) -> (r: Option<CallbackResult>)
    ensures
        match spec_url_query(url@) {
            None => r is None,
            Some(q) => {
                let pairs = spec_query_pairs(q);
                if lookup_pair(pairs, "error"@) is Some {
                    r matches Some(c) && c matches CallbackResult::ProtocolError { message }
                        && message@ == OAuthError::CallbackProtocolError.spec_message()
                } else {
                    match (lookup_pair(pairs, "code"@), lookup_pair(pairs, "state"@)) {
                        (Some(cv), Some(sv)) => r matches Some(c) && (c
                            matches CallbackResult::Success { code, state } && code@ == cv
                            && state@ == sv),
                        _ => r is None,
                    }
                }
            },
        },
{
    let q = match url_query(url) {
        Some(q) => q,
        None => {
            return None;
        },
    };
    let pairs = parse_query_pairs(q.as_str());
    if lookup_query_value(&pairs, "error").is_some() {
        return Some(
            CallbackResult::ProtocolError { message: OAuthError::CallbackProtocolError.message() },
        );
    }
    let code = lookup_query_value(&pairs, "code");
    let state = lookup_query_value(&pairs, "state");
    match (code, state) {
        (Some(code), Some(state)) => Some(CallbackResult::Success { code, state }),
        _ => None,
    }
}

/// Turns one race event into the decisive result, or nothing when the
/// request is to be skipped: the guard firing is the decisive timeout.
pub fn decide_event(event: &ListenerEvent) -> (r: Option<CallbackResult>)
    ensures
        match event {
            ListenerEvent::TimedOut => r matches Some(c) && (c matches CallbackResult::Timeout {
                message,
            } && message@ == OAuthError::TimeoutError.spec_message()),
            ListenerEvent::Request { url } => (match spec_url_query(url@) {
                None => r is None,
                Some(q) => {
                    let pairs = spec_query_pairs(q);
                    if lookup_pair(pairs, "error"@) is Some {
                        r matches Some(c) && (c matches CallbackResult::ProtocolError { message }
                            && message@ == OAuthError::CallbackProtocolError.spec_message())
                    } else {
                        match (lookup_pair(pairs, "code"@), lookup_pair(pairs, "state"@)) {
                            (Some(cv), Some(sv)) => r matches Some(c) && (c
                                matches CallbackResult::Success { code, state } && code@ == cv
                                && state@ == sv),
                            _ => r is None,
                        }
                    }
                },
            }),
        },
{
    match event {
        ListenerEvent::TimedOut => Some(
            CallbackResult::Timeout { message: OAuthError::TimeoutError.message() },
        ),
        ListenerEvent::Request { url } => classify_request(url.as_str()),
    }
}

/// Validates the decisive result against this attempt's state token: the
/// timeout and the protocol error keep their meaning, and a success counts
/// only when the echoed state equals the attempt's token byte for byte;
/// any mismatch is a state-mismatch failure even though a code arrived.
pub fn validate_callback(client_state: &str, result: CallbackResult) -> (r: Result<
    String,
    OAuthError,
>)
    ensures
        match result {
            CallbackResult::Success { code, state } => {
                if state@ == client_state@ {
                    r matches Ok(c) && c@ == code@
                } else {
                    r matches Err(e) && e == OAuthError::StateMismatchError
                }
            },
            CallbackResult::ProtocolError { message } => r matches Err(e) && e
                == OAuthError::CallbackProtocolError,
            CallbackResult::Timeout { message } => r matches Err(e) && e
                == OAuthError::TimeoutError,
        },
{
    match result {
        CallbackResult::Success { code, state } => {
            if str_eq(state.as_str(), client_state) {
                Ok(code)
            } else {
                Err(OAuthError::StateMismatchError)
            }
        },
        CallbackResult::ProtocolError { message: _ } => Err(OAuthError::CallbackProtocolError),
        CallbackResult::Timeout { message: _ } => Err(OAuthError::TimeoutError),
    }
}

/// Waits on the listener/timeout race and hands back the authorization code
/// of the first decisive, state-validated callback. Undecisive requests are
/// skipped and the wait goes on; an error is exactly one of the timeout,
/// the protocol error or the state mismatch.
pub fn get_browser_response<T: OAuthTransport>(
    transport: &mut T,
    auth_time: u64,
    client_state: &str,
) -> (r: Result<String, OAuthError>)
    ensures
        r matches Err(e) ==> (e == OAuthError::TimeoutError || e
            == OAuthError::CallbackProtocolError || e == OAuthError::StateMismatchError),
{
    transport.start_waiting(auth_time);
    let mut remaining: usize = usize::MAX;
    while remaining > 0
        decreases remaining,
    {
        let event = transport.next_event();
        match decide_event(&event) {
            Some(result) => {
                return validate_callback(client_state, result);
            },
            None => {
                remaining = remaining - 1;
            },
        }
    }
    Err(OAuthError::TimeoutError)
}

} // verus!
