use vstd::prelude::*;

verus! {

/// The integer value of the UUID that `s` spells, if it spells one.
pub uninterp spec fn uuid_parsed(s: Seq<char>) -> Option<u128>;

/// Relies on `uuid::Uuid::parse_str` and `Uuid::as_u128`: the outcome depends
/// on the text alone.
#[verifier::external_body]
fn parse_uuid(s: &str) -> (r: Option<u128>)
    ensures
        r == uuid_parsed(s@),
{
    uuid::Uuid::parse_str(s).ok().map(|u| u.as_u128())
}

/// Failures of the order service.
#[derive(Clone, Debug, PartialEq, Eq)]
pub enum AppError {
    /// The relational store failed; the text describes the failure.
    PostgresError(String),
    /// A local resource could not be read.
    IOError(String),
    /// An order identifier that is not a UUID; holds the text given.
    UIDError(String),
    /// No order is stored under the identifier.
    NotFound,
    /// The transaction could not be committed.
    CommitError(String),
}

impl AppError {
    /// The HTTP status that answers a request failing with this error.
    pub open spec fn status_spec(&self) -> u16 {
        match self {
            AppError::UIDError(_) => 400,
            AppError::NotFound => 404,
            _ => 500,
        }
    }

    pub fn status_code(&self) -> (r: u16)
        ensures
            r == self.status_spec(),
    {
        match self {
            AppError::UIDError(_) => 400,
            AppError::NotFound => 404,
            _ => 500,
        }
    }
}

/// Reads an order identifier from its text form.
pub fn parse_order_id(s: &str) -> (r: Result<u128, AppError>)
    ensures
        match uuid_parsed(s@) {
            Some(v) => r == Ok::<u128, AppError>(v),
            None => r matches Err(AppError::UIDError(t)) && t@ == s@,
        },
{
    match parse_uuid(s) {
        Some(v) => Ok(v),
        None => Err(AppError::UIDError(s.to_string())),
    }
}

} // verus!
