//! The outside collaborators of one authorization attempt, seen from the
//! library as a single interface: the browser launcher, the callback
//! listener raced against the timeout guard, and the HTTP poster. The
//! library promises nothing about these calls; every decision taken on
//! what they return is made by verified code.

use vstd::prelude::*;

verus! {

/// What the listener race delivers next: one incoming request, or the
/// timeout guard firing first.
#[derive(Clone, Debug, PartialEq)]
pub enum ListenerEvent {
    Request { url: String },
    TimedOut,
}

/// One attempt's outside world. A production implementation opens the
/// OS browser, serves the redirect URI on a local socket raced against a
/// sleeping timer, and POSTs over HTTP; a test implementation scripts the
/// events instead.
pub trait OAuthTransport {
    /// Opens the consent URL in the user's browser; false when that failed.
    fn open_browser_url(&mut self, url: &str) -> bool;

    /// Binds the callback listener and arms the timeout guard for one
    /// attempt of `auth_time` seconds.
    fn start_waiting(&mut self, auth_time: u64);

    /// Blocks until the race yields its next event: an incoming request on
    /// the listener, or the guard firing.
    fn next_event(&mut self) -> ListenerEvent;

    /// POSTs the body to the URL with the given authorization header and
    /// hands back the response body.
    fn post(&mut self, url: &str, body: &str, header: &str) -> String;
}

} // verus!
