//! Discovery of local identities: WebFinger lookup by account, ActivityPub
//! actor documents by content negotiation, and profile redirects for browsers.
pub mod account;
pub mod dispatch;
pub mod documents;
pub mod identity;
pub mod negotiate;
pub mod text;
