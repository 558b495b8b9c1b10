//! Login flow where the URL for the user redirect during login is
//! built from the client configuration.

use vstd::prelude::*;
use vstd::string::*;

use crate::config::Config;

verus! {

/// The authorization-server redirect URL assembled from its query
/// fragments, in the fixed order the server expects: scope, state,
/// redirect_uri, response_type, client_id.  Values are inserted
/// verbatim; no percent-encoding is performed, so callers must supply
/// values that are already URL-safe.
pub open spec fn spec_full_url(
    scope: Seq<char>,
    state: Seq<char>,
    redirect_url: Seq<char>,
    response_type: Seq<char>,
    client_id: Seq<char>,
) -> Seq<char> {
    "https://accounts.google.com/o/oauth2/v2/auth?"@ + "scope="@ + scope + "&state="@ + state
        + "&redirect_uri="@ + redirect_url + "&response_type="@ + response_type + "&client_id="@
        + client_id
}

/// Assemble the redirect URL from its five fragment values.
pub(crate) fn assemble_full_url(
    scope: &str,
    state: &str,
    redirect_url: &str,
    response_type: &str,
    client_id: &str,
) -> (r: String)
    ensures
        r@ == spec_full_url(scope@, state@, redirect_url@, response_type@, client_id@),
{
    let mut url = String::from_str("https://accounts.google.com/o/oauth2/v2/auth?");
    url.append("scope=");
    url.append(scope);
    url.append("&state=");
    url.append(state);
    url.append("&redirect_uri=");
    url.append(redirect_url);
    url.append("&response_type=");
    url.append(response_type);
    url.append("&client_id=");
    url.append(client_id);
    url
}

/// Struct with query fragments used to build the authentication
/// redirect URL.
#[derive(Debug)]
pub struct AuthenticationRedirectUrl {
    /// The application's ID.
    pub client_id: String,
    /// Where the API redirects the user after completed authorization.
    pub redirect_url: String,
    /// Response after the authorization process, set to 'token'.
    pub response_type: String,
    /// The resources the application is granted access to.
    pub scope: String,
    /// Maintains state between the authorization request and the
    /// authorization server's response.
    pub state: String,
    /// The full authentication redirect URL.
    pub full_url: String,
}

impl Default for AuthenticationRedirectUrl {
    fn default() -> (r: AuthenticationRedirectUrl)
        ensures
            r.client_id@ == Seq::<char>::empty(),
            r.redirect_url@ == Seq::<char>::empty(),
            r.response_type@ == Seq::<char>::empty(),
            r.scope@ == Seq::<char>::empty(),
            r.state@ == Seq::<char>::empty(),
            r.full_url@ == Seq::<char>::empty(),
    {
        AuthenticationRedirectUrl {
            client_id: String::new(),
            redirect_url: String::new(),
            response_type: String::new(),
            scope: String::new(),
            state: String::new(),
            full_url: String::new(),
        }
    }
}

impl AuthenticationRedirectUrl {
    /// Read the configuration and fix the constant fragments: the
    /// response type is always 'token' and the scope is the fixed
    /// read-only scope; the state is left empty.
    pub fn new(config: Config) -> (r: AuthenticationRedirectUrl)
        ensures
            r.client_id@ == config.client_id@,
            r.redirect_url@ == config.redirect_uri@,
            r.response_type@ == "token"@,
            r.scope@ == "https://www.googleapis.com/auth/youtube.readonly"@,
            r.state@ == Seq::<char>::empty(),
            r.full_url@ == Seq::<char>::empty(),
    {
        proof {
            reveal_strlit("");
            assert(""@ =~= Seq::<char>::empty());
        }
        AuthenticationRedirectUrl::default()
            .parse_client_id(config.client_id.as_str())
            .parse_redirect_url(config.redirect_uri.as_str())
            .parse_response_type("token")
            .parse_scope("https://www.googleapis.com/auth/youtube.readonly")
            .parse_state("")
    }

    /// Parse the client ID to its field.
    pub fn parse_client_id(self, client_id: &str) -> (r: Self)
        ensures
            r.client_id@ == client_id@,
            r.redirect_url == self.redirect_url,
            r.response_type == self.response_type,
            r.scope == self.scope,
            r.state == self.state,
            r.full_url == self.full_url,
    {
        let mut r = self;
        r.client_id = String::from_str(client_id);
        r
    }

    /// Parse the redirect URL to its field.
    pub fn parse_redirect_url(self, redirect_url: &str) -> (r: Self)
        ensures
            r.redirect_url@ == redirect_url@,
            r.client_id == self.client_id,
            r.response_type == self.response_type,
            r.scope == self.scope,
            r.state == self.state,
            r.full_url == self.full_url,
    {
        let mut r = self;
        r.redirect_url = String::from_str(redirect_url);
        r
    }

    /// Parse the response type to its field.
    pub fn parse_response_type(self, response_type: &str) -> (r: Self)
        ensures
            r.response_type@ == response_type@,
            r.client_id == self.client_id,
            r.redirect_url == self.redirect_url,
            r.scope == self.scope,
            r.state == self.state,
            r.full_url == self.full_url,
    {
        let mut r = self;
        r.response_type = String::from_str(response_type);
        r
    }

    /// Parse the scope to its field.
    pub fn parse_scope(self, scope: &str) -> (r: Self)
        ensures
            r.scope@ == scope@,
            r.client_id == self.client_id,
            r.redirect_url == self.redirect_url,
            r.response_type == self.response_type,
            r.state == self.state,
            r.full_url == self.full_url,
    {
        let mut r = self;
        r.scope = String::from_str(scope);
        r
    }

    /// State is not required, but recommended.  Parse the state to its
    /// field.
    pub fn parse_state(self, state: &str) -> (r: Self)
        ensures
            r.state@ == state@,
            r.client_id == self.client_id,
            r.redirect_url == self.redirect_url,
            r.response_type == self.response_type,
            r.scope == self.scope,
            r.full_url == self.full_url,
    {
        let mut r = self;
        r.state = String::from_str(state);
        r
    }

    /// Build and assign the full redirect URL.  Building is
    /// deterministic: the URL is a pure function of the five fragment
    /// fields.
    pub fn build_full_url(self) -> (r: Self)
        ensures
            r.full_url@ == spec_full_url(
                self.scope@,
                self.state@,
                self.redirect_url@,
                self.response_type@,
                self.client_id@,
            ),
            r.client_id == self.client_id,
            r.redirect_url == self.redirect_url,
            r.response_type == self.response_type,
            r.scope == self.scope,
            r.state == self.state,
    {
        let url = assemble_full_url(
            self.scope.as_str(),
            self.state.as_str(),
            self.redirect_url.as_str(),
            self.response_type.as_str(),
            self.client_id.as_str(),
        );
        let mut r = self;
        r.full_url = url;
        r
    }

    /// Returns the full redirect URL.
    pub fn get_full_url(&self) -> (r: &String)
        ensures
            r@ == self.full_url@,
    {
        &self.full_url
    }

    /// Returns the state fragment.
    pub fn get_state(&self) -> (r: &String)
        ensures
            r@ == self.state@,
    {
        &self.state
    }
}

} // verus!
