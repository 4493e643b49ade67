//! OAuth2 authorization-code flow for the reddit API: state generation,
//! consent-URL construction, callback handling, state validation, and the
//! token exchange/refresh/revoke lifecycle, with the decision logic verified.

pub mod callback_server;
pub mod client;
pub mod encoding;
pub mod json;
pub mod model;
pub mod oauth2;
pub mod transport;
pub mod util;
