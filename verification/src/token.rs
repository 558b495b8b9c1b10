//! Extraction of the typed access-token record from the parsed
//! fragment of an OAuth implicit-grant redirect.

use vstd::prelude::*;
use vstd::string::*;

use crate::error::InputError;
use crate::extract_query_parameters::{
    parse_fragment, spec_fragments, FragmentMap,
};

verus! {

/// The keys an implicit-grant redirect fragment may carry.
pub open spec fn token_vocab(k: Seq<char>) -> bool {
    ||| k == "state"@
    ||| k == "access_token"@
    ||| k == "token_type"@
    ||| k == "expires_in"@
    ||| k == "scope"@
}

/// Every key of the mapping belongs to the token vocabulary.
pub open spec fn all_keys_known(m: Seq<(Seq<char>, Seq<char>)>) -> bool {
    forall|i: int| 0 <= i < m.len() ==> token_vocab(m[i].0)
}

/// The value of the last entry with key `k`, or empty if the key is
/// absent: a missing key leaves the field at its default.
pub open spec fn spec_value_of(m: Seq<(Seq<char>, Seq<char>)>, k: Seq<char>) -> Seq<char>
    decreases m.len(),
{
    if m.len() == 0 {
        Seq::empty()
    } else if m.last().0 == k {
        m.last().1
    } else {
        spec_value_of(m.drop_last(), k)
    }
}

/// The five vocabulary keys are pairwise distinct.
proof fn lemma_vocab_distinct()
    ensures
        "state"@ != "access_token"@,
        "state"@ != "token_type"@,
        "state"@ != "expires_in"@,
        "state"@ != "scope"@,
        "access_token"@ != "token_type"@,
        "access_token"@ != "expires_in"@,
        "access_token"@ != "scope"@,
        "token_type"@ != "expires_in"@,
        "token_type"@ != "scope"@,
        "expires_in"@ != "scope"@,
{
    reveal_strlit("state");
    reveal_strlit("access_token");
    reveal_strlit("token_type");
    reveal_strlit("expires_in");
    reveal_strlit("scope");
    assert("state"@.len() == 5);
    assert("access_token"@.len() == 12);
    assert("token_type"@.len() == 10);
    assert("expires_in"@.len() == 10);
    assert("scope"@.len() == 5);
    assert("state"@[1] == 't');
    assert("scope"@[1] == 'c');
    assert("token_type"@[0] == 't');
    assert("expires_in"@[0] == 'e');
}

/// The access-token record delivered by an OAuth implicit-grant
/// redirect; fields missing from the fragment stay empty.
#[derive(Debug)]
pub struct AccessTokenResponse {
    pub state: String,
    pub access_token: String,
    pub token_type: String,
    pub expires_in: String,
    pub scope: String,
}

impl Default for AccessTokenResponse {
    fn default() -> (t: AccessTokenResponse)
        ensures
            t.state@ == Seq::<char>::empty(),
            t.access_token@ == Seq::<char>::empty(),
            t.token_type@ == Seq::<char>::empty(),
            t.expires_in@ == Seq::<char>::empty(),
            t.scope@ == Seq::<char>::empty(),
    {
        AccessTokenResponse {
            state: String::new(),
            access_token: String::new(),
            token_type: String::new(),
            expires_in: String::new(),
            scope: String::new(),
        }
    }
}

impl AccessTokenResponse {
    /// Each field holds the value the mapping assigns to its key, or
    /// stays empty where the mapping has none.
    pub open spec fn matches_map(&self, m: Seq<(Seq<char>, Seq<char>)>) -> bool {
        &&& self.state@ == spec_value_of(m, "state"@)
        &&& self.access_token@ == spec_value_of(m, "access_token"@)
        &&& self.token_type@ == spec_value_of(m, "token_type"@)
        &&& self.expires_in@ == spec_value_of(m, "expires_in"@)
        &&& self.scope@ == spec_value_of(m, "scope"@)
    }

    /// Build the token record from a parsed fragment mapping.  Succeeds
    /// exactly when every key belongs to the token vocabulary; missing
    /// keys leave their fields empty.
    pub fn from_fragment(map: &FragmentMap) -> (r: Result<AccessTokenResponse, InputError>)
        ensures
            match r {
                Ok(t) => all_keys_known(map@) && t.matches_map(map@),
                Err(e) => e == InputError::UnrecognizedTokenKey && !all_keys_known(map@),
            },
    {
        let mut token = AccessTokenResponse::default();
        let n = map.len();
        let mut i: usize = 0;
        while i < n
            invariant
                n == map@.len(),
                i <= n,
                forall|j: int| 0 <= j < i ==> token_vocab(map@[j].0),
                token.matches_map(map@.subrange(0, i as int)),
            decreases n - i,
        {
            proof {
                lemma_vocab_distinct();
            }
            let (key, value) = map.pair_at(i);
            let ghost prefix = map@.subrange(0, i as int);
            if *key == String::from_str("state") {
                token.state = value.clone();
            } else if *key == String::from_str("access_token") {
                token.access_token = value.clone();
            } else if *key == String::from_str("token_type") {
                token.token_type = value.clone();
            } else if *key == String::from_str("expires_in") {
                token.expires_in = value.clone();
            } else if *key == String::from_str("scope") {
                token.scope = value.clone();
            } else {
                proof {
                    assert(!token_vocab(map@[i as int].0));
                }
                return Err(InputError::UnrecognizedTokenKey);
            }
            proof {
                let longer = map@.subrange(0, i + 1);
                assert(longer.drop_last() =~~= prefix);
                assert(longer.last() == map@[i as int]);
            }
            i += 1;
        }
        proof {
            assert(map@.subrange(0, n as int) =~~= map@);
        }
        Ok(token)
    }

    /// Parse a redirect fragment and extract the access-token record
    /// it carries.
    pub fn get_token(hash: String) -> (r: Result<AccessTokenResponse, InputError>)
        ensures
            match r {
                Ok(t) => spec_fragments(hash@) matches Ok(m) && all_keys_known(m)
                    && t.matches_map(m),
                Err(e) => match spec_fragments(hash@) {
                    Ok(m) => e == InputError::UnrecognizedTokenKey && !all_keys_known(m),
                    Err(pe) => e == pe,
                },
            },
    {
        match parse_fragment(hash.as_str()) {
            Err(e) => Err(e),
            Ok(map) => AccessTokenResponse::from_fragment(&map),
        }
    }
}

/// Extract the key-value pairs of a fragment into an ordered mapping.
pub fn extract_query_fragments(hash: String) -> (r: Result<FragmentMap, InputError>)
    ensures
        match r {
            Ok(m) => m.wf() && spec_fragments(hash@) == Ok::<_, InputError>(m@),
            Err(e) => spec_fragments(hash@) == Err::<Seq<(Seq<char>, Seq<char>)>, _>(e),
        },
{
    parse_fragment(hash.as_str())
}

} // verus!
