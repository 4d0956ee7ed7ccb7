use vstd::prelude::*;

use crate::return_status::ToReturnStatus;
use crate::traits::{message_view, ErrorText, ExitReport};

verus! {

/// The generalized return value of a job function.
///
/// This type classifies the same shapes as
/// [`JobReturnStatus`](crate::JobReturnStatus), with the same rules; it is
/// the variant of the classification kept for callers that name the result
/// of a job function rather than its status.
#[derive(Debug)]
pub struct JobReturnValue {
    /// The final status message to publish, if any.
    pub message: Option<String>,
    /// Whether the job is considered to have succeeded.
    pub is_success: bool,
}

impl JobReturnValue {
    /// Builds a return value from its parts.
    pub fn new(message: Option<String>, is_success: bool) -> (r: Self)
        ensures
            r.message == message,
            r.is_success == is_success,
    {
        JobReturnValue { message, is_success }
    }

    /// The return value recorded when a job terminates abnormally instead of
    /// returning: a failure with a fixed diagnostic message.
    pub fn panicked() -> (r: Self)
        ensures
            r.is_success == false,
            message_view(r.message) == Some("The job panicked"@),
    {
        JobReturnValue { message: Some("The job panicked".to_owned()), is_success: false }
    }
}

impl Default for JobReturnValue {
    /// The classification of a job that produced no value: a success with no
    /// final message.
    fn default() -> (r: Self)
        ensures
            r.message is None,
            r.is_success == true,
    {
        JobReturnValue { message: None, is_success: true }
    }
}

impl PartialEq for JobReturnValue {
    fn eq(&self, other: &Self) -> (r: bool) {
        self.is_success == other.is_success && match (&self.message, &other.message) {
            (Some(a), Some(b)) => *a == *b,
            (None, None) => true,
            _ => false,
        }
    }
}

impl Eq for JobReturnValue {}

impl vstd::std_specs::cmp::PartialEqSpecImpl for JobReturnValue {
    open spec fn obeys_eq_spec() -> bool {
        true
    }

    open spec fn eq_spec(&self, other: &Self) -> bool {
        self.is_success == other.is_success && message_view(self.message) == message_view(
            other.message,
        )
    }
}

impl From<()> for JobReturnValue {
    fn from(value: ()) -> (r: JobReturnValue)
        ensures
            r.is_success == true,
            r.message is None,
    {
        let s = value.into_return_status();
        JobReturnValue { message: s.message, is_success: s.is_success }
    }
}

impl vstd::std_specs::convert::FromSpecImpl<()> for JobReturnValue {
    open spec fn obeys_from_spec() -> bool {
        true
    }

    open spec fn from_spec(value: ()) -> JobReturnValue {
        JobReturnValue { message: None, is_success: true }
    }
}

impl From<bool> for JobReturnValue {
    fn from(value: bool) -> (r: JobReturnValue)
        ensures
            r.is_success == value,
            r.message is None,
    {
        let s = value.into_return_status();
        JobReturnValue { message: s.message, is_success: s.is_success }
    }
}

impl vstd::std_specs::convert::FromSpecImpl<bool> for JobReturnValue {
    open spec fn obeys_from_spec() -> bool {
        true
    }

    open spec fn from_spec(value: bool) -> JobReturnValue {
        JobReturnValue { message: None, is_success: value }
    }
}

impl From<&'static str> for JobReturnValue {
    fn from(value: &'static str) -> (r: JobReturnValue)
        ensures
            r.is_success == true,
            message_view(r.message) == Some(value@),
    {
        let s = value.into_return_status();
        JobReturnValue { message: s.message, is_success: s.is_success }
    }
}

impl vstd::std_specs::convert::FromSpecImpl<&'static str> for JobReturnValue {
    open spec fn obeys_from_spec() -> bool {
        false
    }

    open spec fn from_spec(value: &'static str) -> JobReturnValue {
        arbitrary()
    }
}

impl From<String> for JobReturnValue {
    fn from(value: String) -> (r: JobReturnValue)
        ensures
            r.is_success == true,
            message_view(r.message) == Some(value@),
    {
        let s = value.into_return_status();
        JobReturnValue { message: s.message, is_success: s.is_success }
    }
}

impl vstd::std_specs::convert::FromSpecImpl<String> for JobReturnValue {
    open spec fn obeys_from_spec() -> bool {
        false
    }

    open spec fn from_spec(value: String) -> JobReturnValue {
        arbitrary()
    }
}

impl From<ExitReport> for JobReturnValue {
    fn from(value: ExitReport) -> (r: JobReturnValue)
        ensures
            r.is_success == value.success,
            message_view(r.message) == (if value.success {
                None::<Seq<char>>
            } else {
                Some(value.text@)
            }),
    {
        let s = value.into_return_status();
        JobReturnValue { message: s.message, is_success: s.is_success }
    }
}

impl vstd::std_specs::convert::FromSpecImpl<ExitReport> for JobReturnValue {
    open spec fn obeys_from_spec() -> bool {
        false
    }

    open spec fn from_spec(value: ExitReport) -> JobReturnValue {
        arbitrary()
    }
}

impl<T: ToReturnStatus, E: ErrorText> From<Result<T, E>> for JobReturnValue {
    fn from(value: Result<T, E>) -> (r: JobReturnValue)
        ensures
            r.is_success == value.return_success(),
            message_view(r.message) == value.return_message(),
    {
        let s = value.into_return_status();
        JobReturnValue { message: s.message, is_success: s.is_success }
    }
}

impl<T: ToReturnStatus, E: ErrorText> vstd::std_specs::convert::FromSpecImpl<Result<T, E>> for JobReturnValue {
    open spec fn obeys_from_spec() -> bool {
        false
    }

    open spec fn from_spec(value: Result<T, E>) -> JobReturnValue {
        arbitrary()
    }
}

impl<T: ToReturnStatus> From<Option<T>> for JobReturnValue {
    fn from(value: Option<T>) -> (r: JobReturnValue)
        ensures
            r.is_success == value.return_success(),
            message_view(r.message) == value.return_message(),
    {
        let s = value.into_return_status();
        JobReturnValue { message: s.message, is_success: s.is_success }
    }
}

impl<T: ToReturnStatus> vstd::std_specs::convert::FromSpecImpl<Option<T>> for JobReturnValue {
    open spec fn obeys_from_spec() -> bool {
        false
    }

    open spec fn from_spec(value: Option<T>) -> JobReturnValue {
        arbitrary()
    }
}

} // verus!
