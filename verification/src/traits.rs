use vstd::prelude::*;

verus! {

/// The view of an optional message: the character sequence of the text, if
/// there is one.
pub open spec fn message_view(m: Option<String>) -> Option<Seq<char>> {
    match m {
        Some(s) => Some(s@),
        None => None,
    }
}

/// A failure value produced by a job function. All the library ever reads
/// from such a value is its textual representation.
pub trait ErrorText: Sized {
    /// The text that this value renders to.
    spec fn text_spec(&self) -> Seq<char>;

    /// Renders this value to its text.
    fn error_text(self) -> (r: String)
        ensures
            r@ == self.text_spec(),
    ;
}

impl ErrorText for &'static str {
    open spec fn text_spec(&self) -> Seq<char> {
        self@
    }

    fn error_text(self) -> (r: String) {
        self.to_owned()
    }
}

impl ErrorText for String {
    open spec fn text_spec(&self) -> Seq<char> {
        self@
    }

    fn error_text(self) -> (r: String) {
        self
    }
}

/// What the library reads from a process-exit-status-like value: whether it
/// denotes success, and its textual representation.
#[derive(Clone, Debug)]
pub struct ExitReport {
    /// Whether the process terminated successfully.
    pub success: bool,
    /// The textual representation of the termination status.
    pub text: String,
}

/// Represents the allowed return types of a job function.
///
/// The return value of a job determines whether or not the job succeeded, as
/// well as whether a final status message should be emitted:
///
/// | Type | success | final status message |
/// |:-----|:--------|:---------------------|
/// | `()` | `true` | none |
/// | `bool` | the boolean | none |
/// | `&'static str`, `String` | `true` | the string |
/// | [`ExitReport`] | its `success` flag | none if succeeded, otherwise its text |
/// | `Result<T: JobOutput, E: ErrorText>` | whether it is `Ok` | the value's message, or the error's text |
/// | `Option<T: JobOutput>` | whether it is `Some` | the value's message, if present |
pub trait JobOutput: Sized {
    /// Whether this output denotes success.
    spec fn success_spec(&self) -> bool;

    /// The final message, if any, that this output produces.
    spec fn message_spec(self) -> Option<Seq<char>>;

    /// Returns true if this output represents a success.
    fn is_success(&self) -> (r: bool)
        ensures
            r == self.success_spec(),
    ;

    /// Returns the final status message, if any, represented by this output.
    fn into_message(self) -> (r: Option<String>)
        ensures
            message_view(r) == self.message_spec(),
    ;
}

impl JobOutput for () {
    open spec fn success_spec(&self) -> bool {
        true
    }

    open spec fn message_spec(self) -> Option<Seq<char>> {
        None
    }

    fn is_success(&self) -> (r: bool) {
        true
    }

    fn into_message(self) -> (r: Option<String>) {
        None
    }
}

impl JobOutput for bool {
    open spec fn success_spec(&self) -> bool {
        *self
    }

    open spec fn message_spec(self) -> Option<Seq<char>> {
        None
    }

    fn is_success(&self) -> (r: bool) {
        *self
    }

    fn into_message(self) -> (r: Option<String>) {
        None
    }
}

impl JobOutput for &'static str {
    open spec fn success_spec(&self) -> bool {
        true
    }

    open spec fn message_spec(self) -> Option<Seq<char>> {
        Some(self@)
    }

    fn is_success(&self) -> (r: bool) {
        true
    }

    fn into_message(self) -> (r: Option<String>) {
        Some(self.to_owned())
    }
}

impl JobOutput for String {
    open spec fn success_spec(&self) -> bool {
        true
    }

    open spec fn message_spec(self) -> Option<Seq<char>> {
        Some(self@)
    }

    fn is_success(&self) -> (r: bool) {
        true
    }

    fn into_message(self) -> (r: Option<String>) {
        Some(self)
    }
}

impl JobOutput for ExitReport {
    open spec fn success_spec(&self) -> bool {
        self.success
    }

    open spec fn message_spec(self) -> Option<Seq<char>> {
        if self.success {
            None
        } else {
            Some(self.text@)
        }
    }

    fn is_success(&self) -> (r: bool) {
        self.success
    }

    fn into_message(self) -> (r: Option<String>) {
        if self.success {
            None
        } else {
            Some(self.text)
        }
    }
}

impl<T: JobOutput, E: ErrorText> JobOutput for Result<T, E> {
    open spec fn success_spec(&self) -> bool {
        match self {
            Ok(_) => true,
            Err(_) => false,
        }
    }

    open spec fn message_spec(self) -> Option<Seq<char>> {
        match self {
            Ok(value) => value.message_spec(),
            Err(error) => Some(error.text_spec()),
        }
    }

    fn is_success(&self) -> (r: bool) {
        match self {
            Ok(_) => true,
            Err(_) => false,
        }
    }

    fn into_message(self) -> (r: Option<String>) {
        match self {
            Ok(value) => value.into_message(),
            Err(error) => Some(error.error_text()),
        }
    }
}

impl<T: JobOutput> JobOutput for Option<T> {
    open spec fn success_spec(&self) -> bool {
        match self {
            Some(_) => true,
            None => false,
        }
    }

    open spec fn message_spec(self) -> Option<Seq<char>> {
        match self {
            Some(value) => value.message_spec(),
            None => None,
        }
    }

    fn is_success(&self) -> (r: bool) {
        match self {
            Some(_) => true,
            None => false,
        }
    }

    fn into_message(self) -> (r: Option<String>) {
        match self {
            Some(value) => value.into_message(),
            None => None,
        }
    }
}

} // verus!
