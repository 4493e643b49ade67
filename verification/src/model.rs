//! Data types mirroring the provider's payload shapes, as far as they are
//! plain values; the listing payloads that carry floating-point fields live
//! with the unverified REST plumbing instead.

pub mod comment;
pub mod post;
pub mod preview;
pub mod responses;
pub mod sort_time;
pub mod thing;
pub mod token;
