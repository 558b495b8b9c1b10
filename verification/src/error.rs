use vstd::prelude::*;
use vstd::string::*;

verus! {

/// A structured error returned by the upstream API, carried inside the
/// body of an otherwise successful HTTP response.
#[derive(Debug)]
pub struct YoutubeError {
    pub code: u16,
    pub message: String,
}

impl YoutubeError {
    /// The HTTP status code of an error response.
    pub fn code(&self) -> (c: u16)
        ensures
            c == self.code,
    {
        self.code
    }

    /// The human-readable message of an error response.
    pub fn message(&self) -> (m: &str)
        ensures
            m@ == self.message@,
    {
        self.message.as_str()
    }
}

/// A contract violation in the data handed to the client core: a
/// malformed fragment pair, a fragment key outside the token
/// vocabulary, or a misconfigured query builder.  These abort the
/// operation; nothing is silently defaulted.
#[derive(Clone, Copy, Debug, PartialEq, Eq, Structural)]
pub enum InputError {
    /// A fragment pair whose key is empty.
    MissingKey,
    /// A fragment pair without a value (no `=`, or nothing after it).
    MissingValue,
    /// A fragment key outside the OAuth token vocabulary.
    UnrecognizedTokenKey,
    /// A list request configured with both of `chart`, `my_rating`, or
    /// with neither.
    ChartMyRatingExclusive,
}

impl InputError {
    /// The description of this error, in spec form.
    pub open spec fn spec_message(&self) -> Seq<char> {
        match self {
            InputError::MissingKey => "missing key in fragment pair"@,
            InputError::MissingValue => "missing value in fragment pair"@,
            InputError::UnrecognizedTokenKey => "unrecognized token fragment key"@,
            InputError::ChartMyRatingExclusive => "expected exactly one of chart, my_rating"@,
        }
    }

    /// A descriptive message for the collaborator that received this
    /// error.
    pub fn message(&self) -> (m: String)
        ensures
            m@ == self.spec_message(),
    {
        match self {
            InputError::MissingKey => String::from_str("missing key in fragment pair"),
            InputError::MissingValue => String::from_str("missing value in fragment pair"),
            InputError::UnrecognizedTokenKey => String::from_str("unrecognized token fragment key"),
            InputError::ChartMyRatingExclusive => String::from_str(
                "expected exactly one of chart, my_rating",
            ),
        }
    }
}

} // verus!
