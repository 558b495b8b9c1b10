use vstd::prelude::*;

verus! {

/// Client configuration, supplied once at startup by the host
/// application: the API key and the OAuth client identity.
#[derive(Debug)]
pub struct Config {
    pub api_key: String,
    pub client_id: String,
    pub redirect_uri: String,
}

} // verus!
