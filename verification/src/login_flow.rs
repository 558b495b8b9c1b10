//! Login flow where the URLs for user redirect during login are built
//! and response token fragments are extracted.

use vstd::prelude::*;
use vstd::string::*;

use crate::config::Config;
use crate::error::InputError;
use crate::extract_query_parameters::{extract_query_fragments, spec_fragments};
use crate::login::login_flow::{assemble_full_url, spec_full_url};
use crate::token::{all_keys_known, AccessTokenResponse};

verus! {

/// Struct with query fragments used to build the authentication
/// redirect URL; this variant computes the URL on demand and can also
/// cache it in its `full_url` field.
#[derive(Debug)]
pub struct AuthenticationRedirectUrl {
    /// The application's ID.
    pub client_id: String,
    /// Where the API redirects the user after completed authorization.
    pub redirect_url: String,
    /// Response after the authorization process, set to 'token'.
    pub response_type: String,
    /// The resources the application is granted access to.
    pub scope: String,
    /// Maintains state between the authorization request and the
    /// authorization server's response.
    pub state: String,
    /// The full authentication redirect URL.
    pub full_url: String,
}

impl Default for AuthenticationRedirectUrl {
    fn default() -> (r: AuthenticationRedirectUrl)
        ensures
            r.client_id@ == Seq::<char>::empty(),
            r.redirect_url@ == Seq::<char>::empty(),
            r.response_type@ == Seq::<char>::empty(),
            r.scope@ == Seq::<char>::empty(),
            r.state@ == Seq::<char>::empty(),
            r.full_url@ == Seq::<char>::empty(),
    {
        AuthenticationRedirectUrl {
            client_id: String::new(),
            redirect_url: String::new(),
            response_type: String::new(),
            scope: String::new(),
            state: String::new(),
            full_url: String::new(),
        }
    }
}

impl AuthenticationRedirectUrl {
    /// Read the configuration and fix the constant fragments: the
    /// response type is always 'token' and the scope is the fixed
    /// read-only scope; the state is left empty.
    pub fn new(config: Config) -> (r: AuthenticationRedirectUrl)
        ensures
            r.client_id@ == config.client_id@,
            r.redirect_url@ == config.redirect_uri@,
            r.response_type@ == "token"@,
            r.scope@ == "https://www.googleapis.com/auth/youtube.readonly"@,
            r.state@ == Seq::<char>::empty(),
            r.full_url@ == Seq::<char>::empty(),
    {
        proof {
            reveal_strlit("");
            assert(""@ =~= Seq::<char>::empty());
        }
        AuthenticationRedirectUrl::default()
            .parse_client_id(config.client_id.as_str())
            .parse_redirect_url(config.redirect_uri.as_str())
            .parse_response_type("token")
            .parse_scope("https://www.googleapis.com/auth/youtube.readonly")
            .parse_state("")
    }

    /// Parse the client ID to its field.
    pub fn parse_client_id(self, client_id: &str) -> (r: Self)
        ensures
            r.client_id@ == client_id@,
            r.redirect_url == self.redirect_url,
            r.response_type == self.response_type,
            r.scope == self.scope,
            r.state == self.state,
            r.full_url == self.full_url,
    {
        let mut r = self;
        r.client_id = String::from_str(client_id);
        r
    }

    /// Parse the redirect URL to its field.
    pub fn parse_redirect_url(self, redirect_url: &str) -> (r: Self)
        ensures
            r.redirect_url@ == redirect_url@,
            r.client_id == self.client_id,
            r.response_type == self.response_type,
            r.scope == self.scope,
            r.state == self.state,
            r.full_url == self.full_url,
    {
        let mut r = self;
        r.redirect_url = String::from_str(redirect_url);
        r
    }

    /// Parse the response type to its field.
    pub fn parse_response_type(self, response_type: &str) -> (r: Self)
        ensures
            r.response_type@ == response_type@,
            r.client_id == self.client_id,
            r.redirect_url == self.redirect_url,
            r.scope == self.scope,
            r.state == self.state,
            r.full_url == self.full_url,
    {
        let mut r = self;
        r.response_type = String::from_str(response_type);
        r
    }

    /// Parse the scope to its field.
    pub fn parse_scope(self, scope: &str) -> (r: Self)
        ensures
            r.scope@ == scope@,
            r.client_id == self.client_id,
            r.redirect_url == self.redirect_url,
            r.response_type == self.response_type,
            r.state == self.state,
            r.full_url == self.full_url,
    {
        let mut r = self;
        r.scope = String::from_str(scope);
        r
    }

    /// State is not required, but recommended.  Parse the state to its
    /// field.
    pub fn parse_state(self, state: &str) -> (r: Self)
        ensures
            r.state@ == state@,
            r.client_id == self.client_id,
            r.redirect_url == self.redirect_url,
            r.response_type == self.response_type,
            r.scope == self.scope,
            r.full_url == self.full_url,
    {
        let mut r = self;
        r.state = String::from_str(state);
        r
    }

    /// Build and return the full redirect URL without storing it; the
    /// URL is a pure function of the five fragment fields.
    pub fn build_full_url(&mut self) -> (r: String)
        ensures
            *final(self) == *old(self),
            r@ == spec_full_url(
                old(self).scope@,
                old(self).state@,
                old(self).redirect_url@,
                old(self).response_type@,
                old(self).client_id@,
            ),
    {
        assemble_full_url(
            self.scope.as_str(),
            self.state.as_str(),
            self.redirect_url.as_str(),
            self.response_type.as_str(),
            self.client_id.as_str(),
        )
    }

    /// Build the full redirect URL and store it in its field.
    pub fn parse_full_url(self) -> (r: Self)
        ensures
            r.full_url@ == spec_full_url(
                self.scope@,
                self.state@,
                self.redirect_url@,
                self.response_type@,
                self.client_id@,
            ),
            r.client_id == self.client_id,
            r.redirect_url == self.redirect_url,
            r.response_type == self.response_type,
            r.scope == self.scope,
            r.state == self.state,
    {
        let mut r = self;
        let url = r.build_full_url();
        r.full_url = url;
        r
    }

    /// Returns the full redirect URL.
    pub fn get_full_url(&self) -> (r: &String)
        ensures
            r@ == self.full_url@,
    {
        &self.full_url
    }

    /// Returns the state fragment.
    pub fn get_state(&self) -> (r: &String)
        ensures
            r@ == self.state@,
    {
        &self.state
    }
}

/// Extract and parse the token fragments carried by the fragment of a
/// redirect URL, if the URL has one.  A URL without a fragment yields
/// a token record with every field empty.
pub fn parse_token_fragments(hash: Option<&str>) -> (r: Result<AccessTokenResponse, InputError>)
    ensures
        match r {
            Ok(t) => match hash {
                Some(h) => spec_fragments(h@) matches Ok(m) && all_keys_known(m)
                    && t.matches_map(m),
                None => t.matches_map(Seq::empty()),
            },
            Err(e) => hash matches Some(h) && match spec_fragments(h@) {
                Ok(m) => e == InputError::UnrecognizedTokenKey && !all_keys_known(m),
                Err(pe) => e == pe,
            },
        },
{
    match extract_query_fragments(hash) {
        Err(e) => Err(e),
        Ok(map) => AccessTokenResponse::from_fragment(&map),
    }
}

} // verus!
