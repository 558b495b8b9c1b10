//! Client core for a REST video-platform API: OAuth2 implicit-grant
//! redirect URLs, callback-fragment parsing, validated query-parameter
//! builders, and decoding of the success-or-error response envelope.

pub mod client;
pub mod config;
pub mod error;
pub mod extract_query_parameters;
pub mod login;
pub mod login_flow;
pub mod response;
pub mod token;
pub mod video;
