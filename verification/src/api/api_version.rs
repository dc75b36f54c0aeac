use std::str::FromStr;

use vstd::prelude::*;
use vstd::string::StringExecFns;

use crate::api::api_error::{
    blank_entry, ApiError, ApiErrorCode, ApiErrorEntry, ApiErrorEntryView, ApiErrorKind,
};
use crate::infrastructure::json::json_quoted;

verus! {

/// The versions of the API that the service answers.
#[derive(Debug, Clone, Copy, PartialEq, Eq, Structural)]
pub enum ApiVersion {
    V1,
    V2,
}

/// The version that `text` names: `v1` or `v2`, and nothing else.
pub open spec fn version_named(text: Seq<char>) -> Option<ApiVersion> {
    if text == "v1"@ {
        Some(ApiVersion::V1)
    } else if text == "v2"@ {
        Some(ApiVersion::V2)
    } else {
        None
    }
}

impl ApiVersion {
    /// The name of the version, as it stands in a path.
    pub open spec fn name(self) -> Seq<char> {
        match self {
            ApiVersion::V1 => "v1"@,
            ApiVersion::V2 => "v2"@,
        }
    }

    /// The name of the version, as it stands in a path.
    pub fn as_str(&self) -> (name: &'static str)
        ensures
            name@ == self.name(),
    {
        match self {
            ApiVersion::V1 => "v1",
            ApiVersion::V2 => "v2",
        }
    }

    /// The name of the version, as it stands in a path.
    pub fn to_string(&self) -> (name: String)
        ensures
            name@ == self.name(),
    {
        self.as_str().to_owned()
    }
}

impl FromStr for ApiVersion {
    type Err = ();

    fn from_str(s: &str) -> (result: Result<ApiVersion, ()>)
        ensures
            result == version_named(s@).ok_or(()),
    {
        if s.eq("v1") {
            Ok(ApiVersion::V1)
        } else if s.eq("v2") {
            Ok(ApiVersion::V2)
        } else {
            Err(())
        }
    }
}

/// Why no version could be taken from a request.
#[derive(Debug)]
pub enum ApiVersionError {
    /// The version given is none that the service answers.
    InvalidVersion(String),
    /// The path holds no version.
    ParameterMissing,
    /// The parameters of the path could not be read.
    VersionExtractError,
}

impl ApiVersionError {
    /// The sentence that names the error.
    pub open spec fn message(self) -> Seq<char> {
        match self {
            ApiVersionError::InvalidVersion(version) => "unknown version: "@ + version@,
            ApiVersionError::ParameterMissing => "parameter is missing: version"@,
            ApiVersionError::VersionExtractError => "could not extract api version"@,
        }
    }

    /// The sentence that names the error.
    pub fn to_string(&self) -> (text: String)
        ensures
            text@ == self.message(),
    {
        match self {
            ApiVersionError::InvalidVersion(version) => {
                let mut text = "unknown version: ".to_owned();
                text.append(version.as_str());
                text
            },
            ApiVersionError::ParameterMissing => "parameter is missing: version".to_owned(),
            ApiVersionError::VersionExtractError => "could not extract api version".to_owned(),
        }
    }
}

/// What the entry made for a request without a usable version says,
/// whenever it was made.
pub open spec fn describes_version_error(entry: ApiErrorEntryView, message: Seq<char>) -> bool {
    &&& entry == (ApiErrorEntryView {
        code: Some(json_quoted(ApiErrorCode::ApiVersionError.name())),
        kind: Some(json_quoted(ApiErrorKind::ValidationError.name())),
        ..blank_entry(message, entry.timestamp)
    })
    &&& entry.timestamp >= 0
}

/// Whether `error` is the answer to a request without a usable version:
/// status 400 and one entry with the message `message`.
pub open spec fn is_version_error(error: ApiError, message: Seq<char>) -> bool {
    &&& error.status == 400
    &&& error.errors@.len() == 1
    &&& describes_version_error(error.errors@[0]@, message)
}

impl From<ApiVersionError> for ApiError {
    /// The answer to a request without a usable version.
    fn from(err: ApiVersionError) -> (error: ApiError)
        ensures
            is_version_error(error, err.message()),
    {
        let message = err.to_string();
        let error_entry = ApiErrorEntry::new(message.as_str()).code(
            ApiErrorCode::ApiVersionError,
        ).kind(ApiErrorKind::ValidationError);
        ApiError::from((400u16, error_entry))
    }
}

impl vstd::std_specs::convert::FromSpecImpl<ApiVersionError> for ApiError {
    /// The entry holds the time at which it was made, so the result is
    /// stated by `from` itself.
    open spec fn obeys_from_spec() -> bool {
        false
    }

    open spec fn from_spec(err: ApiVersionError) -> ApiError {
        arbitrary()
    }
}

/// The version that `version` names, or the answer to a request for a
/// version that the service does not know.
pub fn parse_version(version: &str) -> (result: Result<ApiVersion, ApiError>)
    ensures
        match version_named(version@) {
            Some(known) => result == Ok::<ApiVersion, ApiError>(known),
            None => result matches Err(error) && is_version_error(
                error,
                "unknown version: "@ + version@,
            ),
        },
{
    match ApiVersion::from_str(version) {
        Ok(known) => Ok(known),
        Err(_) => Err(ApiError::from(ApiVersionError::InvalidVersion(version.to_owned()))),
    }
}

/// The version of a request, from what was found in its path: `None`
/// where the parameters of the path could not be read, `Some(None)`
/// where they hold no version, else the text given as version.
pub fn version_from_path(parameter: Option<Option<&str>>) -> (result: Result<ApiVersion, ApiError>)
    ensures
        match parameter {
            None => result matches Err(error) && is_version_error(
                error,
                ApiVersionError::VersionExtractError.message(),
            ),
            Some(None) => result matches Err(error) && is_version_error(
                error,
                ApiVersionError::ParameterMissing.message(),
            ),
            Some(Some(version)) => match version_named(version@) {
                Some(known) => result == Ok::<ApiVersion, ApiError>(known),
                None => result matches Err(error) && is_version_error(
                    error,
                    "unknown version: "@ + version@,
                ),
            },
        },
{
    match parameter {
        None => Err(ApiError::from(ApiVersionError::VersionExtractError)),
        Some(None) => Err(ApiError::from(ApiVersionError::ParameterMissing)),
        Some(Some(version)) => parse_version(version),
    }
}

} // verus!
