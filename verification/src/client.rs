//! The API client object holding the basic information for querying.

use vstd::prelude::*;
use vstd::string::*;

use crate::error::YoutubeError;
use crate::video::{spec_replace, VideoEndPoint};

verus! {

/// The request-URL template of a client: the base URL, a placeholder
/// for the resource, and the caller's credentials.
pub open spec fn spec_api_url(base: Seq<char>, token: Seq<char>, api_key: Seq<char>) -> Seq<char> {
    base + "/API?access_token="@ + token + "&api="@ + api_key
}

/// Api object that contains the basic info for querying.
#[derive(Debug)]
pub struct Client {
    pub base_url: String,
    pub token: String,
    pub api_key: String,
}

impl Client {
    /// A client for the fixed production base URL, with the caller's
    /// access token and API key.
    pub fn new(token: &str, api_key: &str) -> (c: Client)
        ensures
            c.base_url@ == "https://www.googleapis.com/youtube/v3"@,
            c.token@ == token@,
            c.api_key@ == api_key@,
    {
        Client {
            base_url: String::from_str("https://www.googleapis.com/youtube/v3"),
            api_key: String::from_str(api_key),
            token: String::from_str(token),
        }
    }

    /// Get the video API: the endpoint whose URL is this client's
    /// template with the placeholder resolved to the videos resource.
    pub fn video(&mut self) -> (v: VideoEndPoint)
        ensures
            *final(self) == *old(self),
            v.url@ == spec_replace(
                spec_api_url(old(self).base_url@, old(self).token@, old(self).api_key@),
                "API"@,
                "videos"@,
            ),
    {
        let mut url = self.base_url.clone();
        url.append("/API?access_token=");
        url.append(self.token.as_str());
        url.append("&api=");
        url.append(self.api_key.as_str());
        VideoEndPoint::new(url)
    }
}

/// Everything that can go wrong during one API exchange: a structured
/// upstream error, or a failure of decoding or transport.
#[derive(Debug)]
pub enum ClientError {
    /// The upstream API answered with `{"error": {code, message}}`.
    Youtube(YoutubeError),
    /// The response body matched neither the expected success shape nor
    /// the error shape; carries the decoder's diagnostic.
    Decode(String),
    /// The network exchange itself failed; carries the transport's
    /// diagnostic.  Never conflated with an upstream error.
    Transport(String),
}

} // verus!
