//! Authentication: the OAuth2 flow against Anypoint Platform and token storage.
pub mod callback;
pub mod oauth;
pub mod token;
