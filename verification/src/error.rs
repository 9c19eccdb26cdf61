//! Why a request could not be served, and what the client is told.

use vstd::prelude::*;

use crate::text::join;

verus! {

/// `reqwest::Error`, carried through and never looked into.
#[verifier::external_type_specification]
#[verifier::external_body]
pub struct ExReqwestError(reqwest::Error);

/// `anyhow::Error`, carried through and never looked into.
#[verifier::external_type_specification]
#[verifier::external_body]
pub struct ExAnyhowError(anyhow::Error);

/// Top-level error type for request-handling paths.
#[derive(Debug)]
pub enum AppError {
    /// All candidate upstreams are unavailable or unhealthy.
    NoUpstreamAvailable,
    /// The upstream returned an error or an unexpected connection failure.
    Upstream(reqwest::Error),
    /// An unexpected internal failure.
    Internal(anyhow::Error),
}

impl AppError {
    /// The HTTP status that an error is answered with.
    pub open spec fn http_status(self) -> u16 {
        match self {
            AppError::NoUpstreamAvailable => 503,
            AppError::Upstream(_) => 502,
            AppError::Internal(_) => 500,
        }
    }

    /// The HTTP status that the client receives.
    pub fn status_code(&self) -> (status: u16)
        ensures
            status == self.http_status(),
    {
        match self {
            AppError::NoUpstreamAvailable => 503,
            AppError::Upstream(_) => 502,
            AppError::Internal(_) => 500,
        }
    }

    /// `message` is what the client is told: for an error from below, its
    /// display text behind the name of its kind.
    pub open spec fn is_told(self, message: Seq<char>) -> bool {
        match self {
            AppError::NoUpstreamAvailable => message == "no upstream available"@,
            AppError::Upstream(e) => exists|shown: String|
                {
                    &&& #[trigger] vstd::string::to_string_from_display_ensures::<reqwest::Error>(
                        &e,
                        shown,
                    )
                    &&& message == "upstream error: "@ + shown@
                },
            AppError::Internal(e) => exists|shown: String|
                {
                    &&& #[trigger] vstd::string::to_string_from_display_ensures::<anyhow::Error>(
                        &e,
                        shown,
                    )
                    &&& message == "internal error: "@ + shown@
                },
        }
    }

    /// What the client is told.
    pub fn message(&self) -> (message: String)
        ensures
            self.is_told(message@),
    {
        match self {
            AppError::NoUpstreamAvailable => "no upstream available".to_owned(),
            AppError::Upstream(e) => {
                let shown = e.to_string();
                join("upstream error: ", shown.as_str())
            },
            AppError::Internal(e) => {
                let shown = e.to_string();
                join("internal error: ", shown.as_str())
            },
        }
    }
}

impl From<reqwest::Error> for AppError {
    fn from(e: reqwest::Error) -> (error: Self) {
        AppError::Upstream(e)
    }
}

impl vstd::std_specs::convert::FromSpecImpl<reqwest::Error> for AppError {
    open spec fn obeys_from_spec() -> bool {
        true
    }

    open spec fn from_spec(e: reqwest::Error) -> Self {
        AppError::Upstream(e)
    }
}

impl From<anyhow::Error> for AppError {
    fn from(e: anyhow::Error) -> (error: Self) {
        AppError::Internal(e)
    }
}

impl vstd::std_specs::convert::FromSpecImpl<anyhow::Error> for AppError {
    open spec fn obeys_from_spec() -> bool {
        true
    }

    open spec fn from_spec(e: anyhow::Error) -> Self {
        AppError::Internal(e)
    }
}

/// A request without an upstream is answered with 503, one whose upstream fails
/// with 502, and any other failure with 500.
pub proof fn errors_are_answered(failed: reqwest::Error, broken: anyhow::Error)
    ensures
        AppError::NoUpstreamAvailable.http_status() == 503,
        AppError::Upstream(failed).http_status() == 502,
        AppError::Internal(broken).http_status() == 500,
{
}

/// The client is told the kind of the error, and of an error from below its own
/// text behind it, just as it is.
pub proof fn errors_are_told(
    failed: reqwest::Error,
    broken: anyhow::Error,
    message: Seq<char>,
    shown: String,
)
    ensures
        AppError::NoUpstreamAvailable.is_told(message) <==> message == "no upstream available"@,
        vstd::string::to_string_from_display_ensures::<reqwest::Error>(&failed, shown)
            ==> AppError::Upstream(failed).is_told("upstream error: "@ + shown@),
        vstd::string::to_string_from_display_ensures::<anyhow::Error>(&broken, shown)
            ==> AppError::Internal(broken).is_told("internal error: "@ + shown@),
{
    if vstd::string::to_string_from_display_ensures::<reqwest::Error>(&failed, shown) {
        let error = AppError::Upstream(failed);
        let told = "upstream error: "@ + shown@;
        if let AppError::Upstream(e) = error {
            assert(e == failed);
            assert(vstd::string::to_string_from_display_ensures::<reqwest::Error>(&e, shown));
            assert(error.is_told(told));
        }
    }
    if vstd::string::to_string_from_display_ensures::<anyhow::Error>(&broken, shown) {
        let error = AppError::Internal(broken);
        let told = "internal error: "@ + shown@;
        if let AppError::Internal(e) = error {
            assert(e == broken);
            assert(vstd::string::to_string_from_display_ensures::<anyhow::Error>(&e, shown));
            assert(error.is_told(told));
        }
    }
}

/// What the client is told of a failed upstream is such a text.
pub proof fn told_of_upstream(failed: reqwest::Error, message: Seq<char>) -> (shown: String)
    requires
        AppError::Upstream(failed).is_told(message),
    ensures
        vstd::string::to_string_from_display_ensures::<reqwest::Error>(&failed, shown),
        message == "upstream error: "@ + shown@,
{
    choose|shown: String|
        #[trigger] vstd::string::to_string_from_display_ensures::<reqwest::Error>(&failed, shown)
            && message == "upstream error: "@ + shown@
}

/// What the client is told of any other failure is such a text.
pub proof fn told_of_failure(broken: anyhow::Error, message: Seq<char>) -> (shown: String)
    requires
        AppError::Internal(broken).is_told(message),
    ensures
        vstd::string::to_string_from_display_ensures::<anyhow::Error>(&broken, shown),
        message == "internal error: "@ + shown@,
{
    choose|shown: String|
        #[trigger] vstd::string::to_string_from_display_ensures::<anyhow::Error>(&broken, shown)
            && message == "internal error: "@ + shown@
}

/// A failed upstream request becomes an upstream error, and any other failure an
/// internal one.
pub proof fn failures_keep_their_kind(failed: reqwest::Error, broken: anyhow::Error)
    ensures
        <AppError as vstd::std_specs::convert::FromSpec<reqwest::Error>>::from_spec(failed)
            == AppError::Upstream(failed),
        <AppError as vstd::std_specs::convert::FromSpec<anyhow::Error>>::from_spec(broken)
            == AppError::Internal(broken),
{
}

}
