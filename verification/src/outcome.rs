//! Classification of an external generation call's result: either a text
//! payload, or one of a fixed set of failures, each with its own fixed
//! user-facing display text.

use vstd::prelude::*;

verus! {

/// The result of one generation call. Exactly one variant holds, and only
/// success carries data.
#[derive(Debug, PartialEq, Eq)]
pub enum GenerationOutcome {
    /// The service answered with status 200; the payload is its body text.
    Success(String),
    /// The service answered with status 401: the configured credential is
    /// no longer accepted.
    Unauthorized,
    /// The service answered with any other status.
    ServerError,
    /// No response was obtained at all.
    NetworkFailure,
}

/// The mathematical value of a `GenerationOutcome`.
pub enum OutcomeView {
    Success(Seq<char>),
    Unauthorized,
    ServerError,
    NetworkFailure,
}

impl View for GenerationOutcome {
    type V = OutcomeView;

    open spec fn view(&self) -> OutcomeView {
        match self {
            GenerationOutcome::Success(body) => OutcomeView::Success(body@),
            GenerationOutcome::Unauthorized => OutcomeView::Unauthorized,
            GenerationOutcome::ServerError => OutcomeView::ServerError,
            GenerationOutcome::NetworkFailure => OutcomeView::NetworkFailure,
        }
    }
}

/// The outcome an HTTP status and body classify as.
pub open spec fn classify_status_spec(status: u16, body: Seq<char>) -> OutcomeView {
    if status == 200 {
        OutcomeView::Success(body)
    } else if status == 401 {
        OutcomeView::Unauthorized
    } else {
        OutcomeView::ServerError
    }
}

/// The fixed display text of a failure outcome. A success has none; the
/// empty sequence stands in for it.
pub open spec fn failure_text_spec(o: OutcomeView) -> Seq<char> {
    match o {
        OutcomeView::Success(_) => Seq::empty(),
        OutcomeView::Unauthorized => "Unauthorized, refresh token?"@,
        OutcomeView::ServerError => "An error has occurred"@,
        OutcomeView::NetworkFailure => "Unable to contact ChatGPT server."@,
    }
}

/// Classifies what came back from the generation endpoint: `None` when no
/// response was obtained, otherwise the status code and the body text.
pub fn classify_response(response: Option<(u16, String)>) -> (o: GenerationOutcome)
    ensures
        match response {
            Option::None => o@ == OutcomeView::NetworkFailure,
            Option::Some((status, body)) => o@ == classify_status_spec(status, body@),
        },
{
    match response {
        Option::None => GenerationOutcome::NetworkFailure,
        Option::Some((status, body)) => {
            if status == 200 {
                GenerationOutcome::Success(body)
            } else if status == 401 {
                GenerationOutcome::Unauthorized
            } else {
                GenerationOutcome::ServerError
            }
        },
    }
}

impl GenerationOutcome {
    /// The display text posted for a failure outcome.
    pub fn failure_text(&self) -> (t: String)
        requires
            !(self@ is Success),
        ensures
            t@ == failure_text_spec(self@),
    {
        match self {
            GenerationOutcome::Success(_) => String::new(),
            GenerationOutcome::Unauthorized => String::from_str("Unauthorized, refresh token?"),
            GenerationOutcome::ServerError => String::from_str("An error has occurred"),
            GenerationOutcome::NetworkFailure => String::from_str(
                "Unable to contact ChatGPT server.",
            ),
        }
    }
}

} // verus!
