use vstd::prelude::*;

use crate::traits::{message_view, ErrorText, ExitReport};

verus! {

/// The generalized return value of a job function.
///
/// A job function can return any type that implements
/// `Into<JobReturnStatus>`. The return value determines whether or not the
/// job succeeded as well as whether a final status message should be
/// emitted:
///
/// | Type | success | final status message |
/// |:-----|:--------|:---------------------|
/// | `()` | `true` | none |
/// | `bool` | the boolean | none |
/// | `&'static str`, `String` | `true` | the string |
/// | [`ExitReport`] | its `success` flag | none if succeeded, otherwise its text |
/// | `Result<T: ToReturnStatus, E: ErrorText>` | the value's own classification, or `false` on `Err` | the value's message, or the error's text |
/// | `Option<T: ToReturnStatus>` | the value's own classification, or `false` on `None` | the value's message, if present |
#[derive(Debug)]
pub struct JobReturnStatus {
    /// The final status message to publish, if any.
    pub message: Option<String>,
    /// Whether the job is considered to have succeeded.
    pub is_success: bool,
}

impl JobReturnStatus {
    /// Builds a return status from its parts.
    pub fn new(message: Option<String>, is_success: bool) -> (r: Self)
        ensures
            r.message == message,
            r.is_success == is_success,
    {
        JobReturnStatus { message, is_success }
    }

    /// The return status recorded when a job terminates abnormally instead
    /// of returning a value: a failure with a fixed diagnostic message.
    pub fn panicked() -> (r: Self)
        ensures
            r.is_success == false,
            message_view(r.message) == Some("The job panicked"@),
    {
        JobReturnStatus { message: Some("The job panicked".to_owned()), is_success: false }
    }
}

impl Default for JobReturnStatus {
    /// The classification of a job that produced no value: a success with no
    /// final message.
    fn default() -> (r: Self)
        ensures
            r.message is None,
            r.is_success == true,
    {
        JobReturnStatus { message: None, is_success: true }
    }
}

impl PartialEq for JobReturnStatus {
    fn eq(&self, other: &Self) -> (r: bool) {
        self.is_success == other.is_success && match (&self.message, &other.message) {
            (Some(a), Some(b)) => *a == *b,
            (None, None) => true,
            _ => false,
        }
    }
}

impl Eq for JobReturnStatus {}

impl vstd::std_specs::cmp::PartialEqSpecImpl for JobReturnStatus {
    open spec fn obeys_eq_spec() -> bool {
        true
    }

    open spec fn eq_spec(&self, other: &Self) -> bool {
        self.is_success == other.is_success && message_view(self.message) == message_view(
            other.message,
        )
    }
}

/// Conversion of a job function's return value into a [`JobReturnStatus`],
/// recursing structurally through wrapper shapes. The `From` impls on
/// [`JobReturnStatus`] dispatch through this trait.
pub trait ToReturnStatus: Sized {
    /// Whether this value classifies as a success.
    spec fn return_success(&self) -> bool;

    /// The final message, if any, that this value classifies to.
    spec fn return_message(self) -> Option<Seq<char>>;

    /// Classifies this value.
    fn into_return_status(self) -> (r: JobReturnStatus)
        ensures
            r.is_success == self.return_success(),
            message_view(r.message) == self.return_message(),
    ;
}

impl ToReturnStatus for () {
    open spec fn return_success(&self) -> bool {
        true
    }

    open spec fn return_message(self) -> Option<Seq<char>> {
        None
    }

    fn into_return_status(self) -> (r: JobReturnStatus) {
        JobReturnStatus { message: None, is_success: true }
    }
}

impl ToReturnStatus for bool {
    open spec fn return_success(&self) -> bool {
        *self
    }

    open spec fn return_message(self) -> Option<Seq<char>> {
        None
    }

    fn into_return_status(self) -> (r: JobReturnStatus) {
        JobReturnStatus { message: None, is_success: self }
    }
}

impl ToReturnStatus for &'static str {
    open spec fn return_success(&self) -> bool {
        true
    }

    open spec fn return_message(self) -> Option<Seq<char>> {
        Some(self@)
    }

    fn into_return_status(self) -> (r: JobReturnStatus) {
        JobReturnStatus { message: Some(self.to_owned()), is_success: true }
    }
}

impl ToReturnStatus for String {
    open spec fn return_success(&self) -> bool {
        true
    }

    open spec fn return_message(self) -> Option<Seq<char>> {
        Some(self@)
    }

    fn into_return_status(self) -> (r: JobReturnStatus) {
        JobReturnStatus { message: Some(self), is_success: true }
    }
}

impl ToReturnStatus for ExitReport {
    open spec fn return_success(&self) -> bool {
        self.success
    }

    open spec fn return_message(self) -> Option<Seq<char>> {
        if self.success {
            None
        } else {
            Some(self.text@)
        }
    }

    fn into_return_status(self) -> (r: JobReturnStatus) {
        if self.success {
            JobReturnStatus { message: None, is_success: true }
        } else {
            JobReturnStatus { message: Some(self.text), is_success: false }
        }
    }
}

impl<T: ToReturnStatus, E: ErrorText> ToReturnStatus for Result<T, E> {
    open spec fn return_success(&self) -> bool {
        match self {
            Ok(value) => value.return_success(),
            Err(_) => false,
        }
    }

    open spec fn return_message(self) -> Option<Seq<char>> {
        match self {
            Ok(value) => value.return_message(),
            Err(error) => Some(error.text_spec()),
        }
    }

    fn into_return_status(self) -> (r: JobReturnStatus) {
        match self {
            Ok(value) => value.into_return_status(),
            Err(error) => JobReturnStatus { message: Some(error.error_text()), is_success: false },
        }
    }
}

impl<T: ToReturnStatus> ToReturnStatus for Option<T> {
    open spec fn return_success(&self) -> bool {
        match self {
            Some(value) => value.return_success(),
            None => false,
        }
    }

    open spec fn return_message(self) -> Option<Seq<char>> {
        match self {
            Some(value) => value.return_message(),
            None => None,
        }
    }

    fn into_return_status(self) -> (r: JobReturnStatus) {
        match self {
            Some(value) => value.into_return_status(),
            None => JobReturnStatus { message: None, is_success: false },
        }
    }
}

impl From<()> for JobReturnStatus {
    fn from(value: ()) -> (r: JobReturnStatus)
        ensures
            r.is_success == true,
            r.message is None,
    {
        value.into_return_status()
    }
}

impl vstd::std_specs::convert::FromSpecImpl<()> for JobReturnStatus {
    open spec fn obeys_from_spec() -> bool {
        true
    }

    open spec fn from_spec(value: ()) -> JobReturnStatus {
        JobReturnStatus { message: None, is_success: true }
    }
}

impl From<bool> for JobReturnStatus {
    fn from(value: bool) -> (r: JobReturnStatus)
        ensures
            r.is_success == value,
            r.message is None,
    {
        value.into_return_status()
    }
}

impl vstd::std_specs::convert::FromSpecImpl<bool> for JobReturnStatus {
    open spec fn obeys_from_spec() -> bool {
        true
    }

    open spec fn from_spec(value: bool) -> JobReturnStatus {
        JobReturnStatus { message: None, is_success: value }
    }
}

impl From<&'static str> for JobReturnStatus {
    fn from(value: &'static str) -> (r: JobReturnStatus)
        ensures
            r.is_success == true,
            message_view(r.message) == Some(value@),
    {
        value.into_return_status()
    }
}

impl vstd::std_specs::convert::FromSpecImpl<&'static str> for JobReturnStatus {
    open spec fn obeys_from_spec() -> bool {
        false
    }

    open spec fn from_spec(value: &'static str) -> JobReturnStatus {
        arbitrary()
    }
}

impl From<String> for JobReturnStatus {
    fn from(value: String) -> (r: JobReturnStatus)
        ensures
            r.is_success == true,
            message_view(r.message) == Some(value@),
    {
        value.into_return_status()
    }
}

impl vstd::std_specs::convert::FromSpecImpl<String> for JobReturnStatus {
    open spec fn obeys_from_spec() -> bool {
        false
    }

    open spec fn from_spec(value: String) -> JobReturnStatus {
        arbitrary()
    }
}

impl From<ExitReport> for JobReturnStatus {
    fn from(value: ExitReport) -> (r: JobReturnStatus)
        ensures
            r.is_success == value.success,
            message_view(r.message) == (if value.success {
                None::<Seq<char>>
            } else {
                Some(value.text@)
            }),
    {
        value.into_return_status()
    }
}

impl vstd::std_specs::convert::FromSpecImpl<ExitReport> for JobReturnStatus {
    open spec fn obeys_from_spec() -> bool {
        false
    }

    open spec fn from_spec(value: ExitReport) -> JobReturnStatus {
        arbitrary()
    }
}

impl<T: ToReturnStatus, E: ErrorText> From<Result<T, E>> for JobReturnStatus {
    fn from(value: Result<T, E>) -> (r: JobReturnStatus)
        ensures
            r.is_success == value.return_success(),
            message_view(r.message) == value.return_message(),
    {
        value.into_return_status()
    }
}

impl<T: ToReturnStatus, E: ErrorText> vstd::std_specs::convert::FromSpecImpl<Result<T, E>> for JobReturnStatus {
    open spec fn obeys_from_spec() -> bool {
        false
    }

    open spec fn from_spec(value: Result<T, E>) -> JobReturnStatus {
        arbitrary()
    }
}

impl<T: ToReturnStatus> From<Option<T>> for JobReturnStatus {
    fn from(value: Option<T>) -> (r: JobReturnStatus)
        ensures
            r.is_success == value.return_success(),
            message_view(r.message) == value.return_message(),
    {
        value.into_return_status()
    }
}

impl<T: ToReturnStatus> vstd::std_specs::convert::FromSpecImpl<Option<T>> for JobReturnStatus {
    open spec fn obeys_from_spec() -> bool {
        false
    }

    open spec fn from_spec(value: Option<T>) -> JobReturnStatus {
        arbitrary()
    }
}

} // verus!
