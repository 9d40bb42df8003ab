//! The kinds of failure that the client tells apart, and the error that it
//! hands to its callers.

use vstd::prelude::*;
use vstd::std_specs::cmp::{PartialEqSpec, PartialEqSpecImpl};
use vstd::std_specs::convert::{FromSpec, FromSpecImpl};
use crate::decimal::{decimal_digits, decimal_string};
use crate::delay::Delay;
use crate::status::{lemma_unknown_without_phrase, reason_for, render_status, status_text};

verus! {

/// Every failure that the client can meet. Most callers only show or log
/// these; they reach them through [`RewardsError`].
#[derive(Debug, Hash)]
pub enum InternalError {
    /// The request did not complete at all.
    RequestFailed,
    /// The server answered with a status that reports a fault of its own.
    InternalServerError(u16),
    /// The server refused the request as malformed; holds the status code.
    BadRequest(u16),
    /// The server answered with a status that the client does not handle.
    UnhandledStatus(u16),
    /// The operation should be tried again, not before the delay if one is
    /// given.
    RetryLater(Option<Delay>),
    /// What was asked for does not exist.
    NotFound,
    /// Structured data could not be encoded or decoded.
    SerializationFailed,
    /// The server's answer could be read but made no sense; holds the reason.
    InvalidResponse(String),
    /// The proof that came with a credential did not hold.
    InvalidProof,
    /// A query on local state was refused.
    QueryError,
    /// Every credential has been spent.
    OutOfCredentials,
    /// Local state could not be written; holds the reason.
    StorageWriteFailed(String),
    /// Local state could not be read; holds the reason.
    StorageReadFailed(String),
    /// The order has not been paid.
    OrderUnpaid,
    /// A variant was met that the client does not know.
    UnhandledVariant,
    /// The order belongs to another location.
    OrderLocationMismatch,
    /// The credentials of an item are absent or incomplete.
    ItemCredentialsMissing,
    /// The credentials of an item are no longer valid.
    ItemCredentialsExpired,
    /// The merchant or the SKU is not a known one.
    InvalidMerchantOrSku,
    /// Shared state was in use and could not be borrowed.
    BorrowFailed,
}

/// What an [`InternalError`] holds, with each text as its characters.
pub enum InternalErrorView {
    RequestFailed,
    InternalServerError(u16),
    BadRequest(u16),
    UnhandledStatus(u16),
    RetryLater(Option<Delay>),
    NotFound,
    SerializationFailed,
    InvalidResponse(Seq<char>),
    InvalidProof,
    QueryError,
    OutOfCredentials,
    StorageWriteFailed(Seq<char>),
    StorageReadFailed(Seq<char>),
    OrderUnpaid,
    UnhandledVariant,
    OrderLocationMismatch,
    ItemCredentialsMissing,
    ItemCredentialsExpired,
    InvalidMerchantOrSku,
    BorrowFailed,
}

/// The advice to try again: alone, or followed by the whole milliseconds of
/// the delay.
pub open spec fn retry_text(after: Option<Delay>) -> Seq<char> {
    match after {
        Some(delay) => "Retry later"@ + " after "@ + decimal_digits(delay.millis()) + " ms"@,
        None => "Retry later"@,
    }
}

impl InternalErrorView {
    /// The sentence that reports this failure to a reader.
    pub open spec fn text(self) -> Seq<char> {
        match self {
            InternalErrorView::RequestFailed => "HTTP request failed"@,
            InternalErrorView::InternalServerError(code) => status_text(
                "Server internal error"@,
                code,
                reason_for(code),
            ),
            InternalErrorView::BadRequest(code) => status_text("Bad client request"@, code, reason_for(code)),
            InternalErrorView::UnhandledStatus(code) => status_text(
                "Unhandled request status"@,
                code,
                reason_for(code),
            ),
            InternalErrorView::RetryLater(after) => retry_text(after),
            InternalErrorView::NotFound => "Resource not found"@,
            InternalErrorView::SerializationFailed => "Could not (de)serialize"@,
            InternalErrorView::InvalidResponse(reason) => "Server returned an invalid response: "@ + reason,
            InternalErrorView::InvalidProof => "Included proof was not valid"@,
            InternalErrorView::QueryError => "Error in the query"@,
            InternalErrorView::OutOfCredentials => "All credentials have been spent"@,
            InternalErrorView::StorageWriteFailed(reason) => "Failed to write changes to storage "@ + reason,
            InternalErrorView::StorageReadFailed(reason) => "Failed to read from storage: "@ + reason,
            InternalErrorView::OrderUnpaid => "The order is unpaid"@,
            InternalErrorView::UnhandledVariant => "Variant is unhandled"@,
            InternalErrorView::OrderLocationMismatch => "Order location does not match"@,
            InternalErrorView::ItemCredentialsMissing => "Item credentials are missing or incomplete"@,
            InternalErrorView::ItemCredentialsExpired => "Item credentials have expired"@,
            InternalErrorView::InvalidMerchantOrSku => "Invalid merchant or sku"@,
            InternalErrorView::BorrowFailed => "Borrow failed"@,
        }
    }
}

impl View for InternalError {
    type V = InternalErrorView;

    open spec fn view(&self) -> InternalErrorView {
        match self {
            InternalError::RequestFailed => InternalErrorView::RequestFailed,
            InternalError::InternalServerError(code) => InternalErrorView::InternalServerError(*code),
            InternalError::BadRequest(code) => InternalErrorView::BadRequest(*code),
            InternalError::UnhandledStatus(code) => InternalErrorView::UnhandledStatus(*code),
            InternalError::RetryLater(after) => InternalErrorView::RetryLater(*after),
            InternalError::NotFound => InternalErrorView::NotFound,
            InternalError::SerializationFailed => InternalErrorView::SerializationFailed,
            InternalError::InvalidResponse(reason) => InternalErrorView::InvalidResponse(reason@),
            InternalError::InvalidProof => InternalErrorView::InvalidProof,
            InternalError::QueryError => InternalErrorView::QueryError,
            InternalError::OutOfCredentials => InternalErrorView::OutOfCredentials,
            InternalError::StorageWriteFailed(reason) => InternalErrorView::StorageWriteFailed(reason@),
            InternalError::StorageReadFailed(reason) => InternalErrorView::StorageReadFailed(reason@),
            InternalError::OrderUnpaid => InternalErrorView::OrderUnpaid,
            InternalError::UnhandledVariant => InternalErrorView::UnhandledVariant,
            InternalError::OrderLocationMismatch => InternalErrorView::OrderLocationMismatch,
            InternalError::ItemCredentialsMissing => InternalErrorView::ItemCredentialsMissing,
            InternalError::ItemCredentialsExpired => InternalErrorView::ItemCredentialsExpired,
            InternalError::InvalidMerchantOrSku => InternalErrorView::InvalidMerchantOrSku,
            InternalError::BorrowFailed => InternalErrorView::BorrowFailed,
        }
    }
}

impl Clone for InternalError {
    /// A copy that holds the same kind and the same data.
    fn clone(&self) -> (copy: Self)
        ensures
            copy == *self,
    {
        match self {
            InternalError::RequestFailed => InternalError::RequestFailed,
            InternalError::InternalServerError(code) => InternalError::InternalServerError(*code),
            InternalError::BadRequest(code) => InternalError::BadRequest(*code),
            InternalError::UnhandledStatus(code) => InternalError::UnhandledStatus(*code),
            InternalError::RetryLater(after) => InternalError::RetryLater(*after),
            InternalError::NotFound => InternalError::NotFound,
            InternalError::SerializationFailed => InternalError::SerializationFailed,
            InternalError::InvalidResponse(reason) => InternalError::InvalidResponse(
                reason.clone(),
            ),
            InternalError::InvalidProof => InternalError::InvalidProof,
            InternalError::QueryError => InternalError::QueryError,
            InternalError::OutOfCredentials => InternalError::OutOfCredentials,
            InternalError::StorageWriteFailed(reason) => InternalError::StorageWriteFailed(
                reason.clone(),
            ),
            InternalError::StorageReadFailed(reason) => InternalError::StorageReadFailed(
                reason.clone(),
            ),
            InternalError::OrderUnpaid => InternalError::OrderUnpaid,
            InternalError::UnhandledVariant => InternalError::UnhandledVariant,
            InternalError::OrderLocationMismatch => InternalError::OrderLocationMismatch,
            InternalError::ItemCredentialsMissing => InternalError::ItemCredentialsMissing,
            InternalError::ItemCredentialsExpired => InternalError::ItemCredentialsExpired,
            InternalError::InvalidMerchantOrSku => InternalError::InvalidMerchantOrSku,
            InternalError::BorrowFailed => InternalError::BorrowFailed,
        }
    }
}

impl PartialEq for InternalError {
    /// Two errors are equal when they are of the same kind and hold the same
    /// data.
    fn eq(&self, other: &Self) -> (same: bool) {
        match (self, other) {
            (InternalError::RequestFailed, InternalError::RequestFailed) => true,
            (InternalError::InternalServerError(a), InternalError::InternalServerError(b)) => *a
                == *b,
            (InternalError::BadRequest(a), InternalError::BadRequest(b)) => *a == *b,
            (InternalError::UnhandledStatus(a), InternalError::UnhandledStatus(b)) => *a == *b,
            (InternalError::RetryLater(a), InternalError::RetryLater(b)) => match (a, b) {
                (Some(x), Some(y)) => *x == *y,
                (None, None) => true,
                _ => false,
            },
            (InternalError::NotFound, InternalError::NotFound) => true,
            (InternalError::SerializationFailed, InternalError::SerializationFailed) => true,
            (InternalError::InvalidResponse(a), InternalError::InvalidResponse(b)) => *a == *b,
            (InternalError::InvalidProof, InternalError::InvalidProof) => true,
            (InternalError::QueryError, InternalError::QueryError) => true,
            (InternalError::OutOfCredentials, InternalError::OutOfCredentials) => true,
            (InternalError::StorageWriteFailed(a), InternalError::StorageWriteFailed(b)) => *a
                == *b,
            (InternalError::StorageReadFailed(a), InternalError::StorageReadFailed(b)) => *a == *b,
            (InternalError::OrderUnpaid, InternalError::OrderUnpaid) => true,
            (InternalError::UnhandledVariant, InternalError::UnhandledVariant) => true,
            (InternalError::OrderLocationMismatch, InternalError::OrderLocationMismatch) => true,
            (InternalError::ItemCredentialsMissing, InternalError::ItemCredentialsMissing) => true,
            (InternalError::ItemCredentialsExpired, InternalError::ItemCredentialsExpired) => true,
            (InternalError::InvalidMerchantOrSku, InternalError::InvalidMerchantOrSku) => true,
            (InternalError::BorrowFailed, InternalError::BorrowFailed) => true,
            _ => false,
        }
    }
}

impl PartialEqSpecImpl for InternalError {
    open spec fn obeys_eq_spec() -> bool {
        true
    }

    open spec fn eq_spec(&self, other: &InternalError) -> bool {
        self@ == other@
    }
}

impl Eq for InternalError {}

/// Writes the advice to try again, with the delay where one is given.
pub fn render_retry(after: Option<Delay>) -> (line: String)
    ensures
        line@ == retry_text(after),
{
    let mut line = String::from_str("Retry later");
    match after {
        Some(delay) => {
            line.append(" after ");
            let millis = decimal_string(delay.as_millis());
            line.append(millis.as_str());
            line.append(" ms");
        },
        None => {},
    }
    line
}

impl InternalError {
    /// Writes the sentence that reports this failure to a reader. It is never
    /// empty.
    pub fn render(&self) -> (line: String)
        ensures
            line@ == self@.text(),
            line@.len() > 0,
    {
        proof {
            lemma_text_is_not_empty(self@);
        }
        match self {
            InternalError::RequestFailed => String::from_str("HTTP request failed"),
            InternalError::InternalServerError(code) => render_status(
                "Server internal error",
                *code,
            ),
            InternalError::BadRequest(code) => render_status("Bad client request", *code),
            InternalError::UnhandledStatus(code) => render_status(
                "Unhandled request status",
                *code,
            ),
            InternalError::RetryLater(after) => render_retry(*after),
            InternalError::NotFound => String::from_str("Resource not found"),
            InternalError::SerializationFailed => String::from_str("Could not (de)serialize"),
            InternalError::InvalidResponse(reason) => String::from_str(
                "Server returned an invalid response: ",
            ).concat(reason.as_str()),
            InternalError::InvalidProof => String::from_str("Included proof was not valid"),
            InternalError::QueryError => String::from_str("Error in the query"),
            InternalError::OutOfCredentials => String::from_str("All credentials have been spent"),
            InternalError::StorageWriteFailed(reason) => String::from_str(
                "Failed to write changes to storage ",
            ).concat(reason.as_str()),
            InternalError::StorageReadFailed(reason) => String::from_str(
                "Failed to read from storage: ",
            ).concat(reason.as_str()),
            InternalError::OrderUnpaid => String::from_str("The order is unpaid"),
            InternalError::UnhandledVariant => String::from_str("Variant is unhandled"),
            InternalError::OrderLocationMismatch => String::from_str(
                "Order location does not match",
            ),
            InternalError::ItemCredentialsMissing => String::from_str(
                "Item credentials are missing or incomplete",
            ),
            InternalError::ItemCredentialsExpired => String::from_str(
                "Item credentials have expired",
            ),
            InternalError::InvalidMerchantOrSku => String::from_str("Invalid merchant or sku"),
            InternalError::BorrowFailed => String::from_str("Borrow failed"),
        }
    }
}

/// The error of `serde_json`, which its encoder and its decoder both return.
/// Nothing is known of a value of it: it is only passed through.
#[verifier::external_type_specification]
#[verifier::external_body]
pub struct ExJsonError(serde_json::Error);

impl From<serde_json::Error> for InternalError {
    /// Whatever went wrong while encoding or decoding, the kind is
    /// `SerializationFailed`: the detail is dropped.
    fn from(failure: serde_json::Error) -> (kind: Self)
        ensures
            kind == InternalError::SerializationFailed,
    {
        InternalError::SerializationFailed
    }
}

impl FromSpecImpl<serde_json::Error> for InternalError {
    open spec fn obeys_from_spec() -> bool {
        true
    }

    open spec fn from_spec(failure: serde_json::Error) -> Self {
        InternalError::SerializationFailed
    }
}

/// The error that callers of the client receive: one [`InternalError`],
/// never changed once wrapped.
#[derive(Debug, Hash)]
pub struct RewardsError(pub(crate) InternalError);

impl View for RewardsError {
    type V = InternalErrorView;

    /// What the wrapped kind holds.
    open spec fn view(&self) -> InternalErrorView {
        self.kind()@
    }
}

impl RewardsError {
    /// The kind that this error wraps.
    pub closed spec fn kind(self) -> InternalError {
        self.0
    }

    /// The error that wraps `kind`.
    pub closed spec fn wrap(kind: InternalError) -> RewardsError {
        RewardsError(kind)
    }

    /// Writes the sentence that reports this failure: that of the wrapped kind.
    pub fn render(&self) -> (line: String)
        ensures
            line@ == self@.text(),
            line@.len() > 0,
    {
        self.0.render()
    }

    /// The kind that this error wraps: its one underlying cause.
    pub fn cause(&self) -> (kind: &InternalError)
        ensures
            *kind == self.kind(),
    {
        &self.0
    }
}

impl Clone for RewardsError {
    /// A copy that wraps the same kind.
    fn clone(&self) -> (copy: Self)
        ensures
            copy == *self,
    {
        RewardsError(self.0.clone())
    }
}

impl PartialEq for RewardsError {
    /// Two errors are equal when the kinds that they wrap are.
    fn eq(&self, other: &Self) -> (same: bool) {
        self.0 == other.0
    }
}

impl PartialEqSpecImpl for RewardsError {
    open spec fn obeys_eq_spec() -> bool {
        true
    }

    open spec fn eq_spec(&self, other: &RewardsError) -> bool {
        self@ == other@
    }
}

impl Eq for RewardsError {}

impl From<InternalError> for RewardsError {
    /// Wraps `kind`.
    fn from(kind: InternalError) -> (error: Self)
        ensures
            error.kind() == kind,
    {
        RewardsError(kind)
    }
}

impl FromSpecImpl<InternalError> for RewardsError {
    open spec fn obeys_from_spec() -> bool {
        true
    }

    open spec fn from_spec(kind: InternalError) -> Self {
        RewardsError::wrap(kind)
    }
}

impl From<(InternalError, usize)> for RewardsError {
    /// Wraps the kind with which the last of several attempts failed. The
    /// number of the attempt is dropped.
    fn from(failed: (InternalError, usize)) -> (error: Self)
        ensures
            error.kind() == failed.0,
    {
        RewardsError(failed.0)
    }
}

impl FromSpecImpl<(InternalError, usize)> for RewardsError {
    open spec fn obeys_from_spec() -> bool {
        true
    }

    open spec fn from_spec(failed: (InternalError, usize)) -> Self {
        RewardsError::wrap(failed.0)
    }
}

impl From<serde_json::Error> for RewardsError {
    /// Whatever went wrong while encoding or decoding, the error wraps
    /// `SerializationFailed`.
    fn from(failure: serde_json::Error) -> (error: Self)
        ensures
            error.kind() == InternalError::SerializationFailed,
    {
        RewardsError(InternalError::from(failure))
    }
}

impl FromSpecImpl<serde_json::Error> for RewardsError {
    open spec fn obeys_from_spec() -> bool {
        true
    }

    open spec fn from_spec(failure: serde_json::Error) -> Self {
        RewardsError::wrap(InternalError::SerializationFailed)
    }
}

/// Every kind is reported by a sentence that is not empty.
pub proof fn lemma_text_is_not_empty(kind: InternalErrorView)
    ensures
        kind.text().len() > 0,
{
    reveal_strlit("HTTP request failed");
    reveal_strlit("Server internal error");
    reveal_strlit("Bad client request");
    reveal_strlit("Unhandled request status");
    reveal_strlit("Retry later");
    reveal_strlit("Resource not found");
    reveal_strlit("Could not (de)serialize");
    reveal_strlit("Server returned an invalid response: ");
    reveal_strlit("Included proof was not valid");
    reveal_strlit("Error in the query");
    reveal_strlit("All credentials have been spent");
    reveal_strlit("Failed to write changes to storage ");
    reveal_strlit("Failed to read from storage: ");
    reveal_strlit("The order is unpaid");
    reveal_strlit("Variant is unhandled");
    reveal_strlit("Order location does not match");
    reveal_strlit("Item credentials are missing or incomplete");
    reveal_strlit("Item credentials have expired");
    reveal_strlit("Invalid merchant or sku");
    reveal_strlit("Borrow failed");
}

/// Two errors of the same kind with the same data are equal, and are
/// reported by the same sentence.
pub proof fn lemma_same_data_same_report(first: InternalError, second: InternalError)
    requires
        first@ == second@,
    ensures
        PartialEqSpec::eq_spec(&first, &second),
        first@.text() == second@.text(),
{
}

/// A status without a reason phrase, be it a status code that has none or a
/// number that is no status code, is reported with the word "unknown" in the
/// phrase's place, in each of the three kinds that hold a status.
pub proof fn lemma_status_without_phrase(code: u16)
    requires
        reason_for(code) is None,
    ensures
        InternalErrorView::InternalServerError(code).text() == "Server internal error"@ + ": "@
            + decimal_digits(code as nat) + " unknown"@,
        InternalErrorView::BadRequest(code).text() == "Bad client request"@ + ": "@
            + decimal_digits(code as nat) + " unknown"@,
        InternalErrorView::UnhandledStatus(code).text() == "Unhandled request status"@ + ": "@
            + decimal_digits(code as nat) + " unknown"@,
{
    lemma_unknown_without_phrase("Server internal error"@, code);
    lemma_unknown_without_phrase("Bad client request"@, code);
    lemma_unknown_without_phrase("Unhandled request status"@, code);
}

/// The kind of a wrapped error is the kind that was wrapped, and the error is
/// reported as that kind is.
pub proof fn lemma_wrap_keeps_kind(kind: InternalError)
    ensures
        <RewardsError as FromSpec<InternalError>>::from_spec(kind).kind() == kind,
        <RewardsError as FromSpec<InternalError>>::from_spec(kind)@ == kind@,
{
}

/// The number of the attempt plays no part: one kind gives one error,
/// whichever attempts it failed at.
pub proof fn lemma_attempt_is_dropped(kind: InternalError, first: usize, second: usize)
    ensures
        <RewardsError as FromSpec<(InternalError, usize)>>::from_spec((kind, first))
            == <RewardsError as FromSpec<(InternalError, usize)>>::from_spec((kind, second)),
        <RewardsError as FromSpec<(InternalError, usize)>>::from_spec((kind, first)).kind()
            == kind,
{
}

/// Every failure of the encoder or the decoder is wrapped as
/// `SerializationFailed`.
pub proof fn lemma_json_failure_is_serialization(failure: serde_json::Error)
    ensures
        <InternalError as FromSpec<serde_json::Error>>::from_spec(failure)
            == InternalError::SerializationFailed,
        <RewardsError as FromSpec<serde_json::Error>>::from_spec(failure).kind()
            == InternalError::SerializationFailed,
{
}

} // verus!
