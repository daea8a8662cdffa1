use vstd::prelude::*;
use vstd::string::StringExecFns;

verus! {

/// The closed taxonomy of task failures: a logical failure reported by the
/// action itself (`Unknown`) or an abnormal termination of the action while
/// it ran (`Panic`).
#[derive(Debug, Copy, Clone, PartialEq, Eq, Structural)]
pub enum TaskErrorCode {
    Unknown,
    Panic,
}

/// The canonical textual form of an error code.
pub open spec fn spec_code_text(code: TaskErrorCode) -> Seq<char> {
    match code {
        TaskErrorCode::Unknown => "Unknown"@,
        TaskErrorCode::Panic => "Panic"@,
    }
}

/// The debug rendering of a string: the characters wrapped in double quotes,
/// with quotes, backslashes and non-printable characters escaped. It depends
/// on the characters alone.
pub uninterp spec fn debug_quoted(s: Seq<char>) -> Seq<char>;

/// Relies on the standard debug formatting of `str` (what `{:?}` prints): the
/// string wrapped in double quotes with its quotes, backslashes and
/// non-printable characters escaped; a pure function of the characters.
#[verifier::external_body]
fn debug_format(s: &str) -> (r: String)
    ensures
        r@ == debug_quoted(s@),
{
    format!("{:?}", s)
}

/// The message derived from a code and an optional detail string: the code's
/// canonical text alone, or followed by the debug-quoted detail.
pub open spec fn spec_message_for(code: TaskErrorCode, detail: Option<Seq<char>>) -> Seq<char> {
    match detail {
        None => spec_code_text(code),
        Some(d) => spec_code_text(code) + ": "@ + debug_quoted(d),
    }
}

/// A task failure: a code and a message derived from that code (and an
/// optional detail) at construction time, never mutated afterward.
pub struct TaskError {
    message: String,
    code: TaskErrorCode,
    detail: Ghost<Option<Seq<char>>>,
}

impl TaskError {
    /// The code this error carries.
    pub closed spec fn spec_code(self) -> TaskErrorCode {
        self.code
    }

    /// The message this error carries.
    pub closed spec fn spec_message(self) -> Seq<char> {
        self.message@
    }

    /// The detail string supplied at construction, if any.
    pub closed spec fn spec_detail(self) -> Option<Seq<char>> {
        self.detail@
    }

    #[verifier::type_invariant]
    spec fn inv(self) -> bool {
        self.message@ == spec_message_for(self.code, self.detail@)
    }

    fn code_text(code: TaskErrorCode) -> (r: &'static str)
        ensures
            r@ == spec_code_text(code),
    {
        match code {
            TaskErrorCode::Unknown => "Unknown",
            TaskErrorCode::Panic => "Panic",
        }
    }

    /// Derive the message for a code and an optional detail string.
    pub fn message_for(code: TaskErrorCode, message: Option<&str>) -> (r: String)
        ensures
            r@ == spec_message_for(code, match message {
                Some(m) => Some(m@),
                None => None,
            }),
    {
        match message {
            Some(m) => {
                let mut s = String::from_str(Self::code_text(code));
                s.append(": ");
                let quoted = debug_format(m);
                s.append(quoted.as_str());
                s
            },
            None => String::from_str(Self::code_text(code)),
        }
    }

    /// The error's code.
    pub fn code(&self) -> (r: TaskErrorCode)
        ensures
            r == self.spec_code(),
    {
        self.code
    }

    /// The rendering used for logs and diagnostics: the debug-quoted
    /// description, with the same formatting whatever the error's origin.
    pub fn display_string(&self) -> (r: String)
        ensures
            r@ == debug_quoted(self.spec_message()),
    {
        debug_format(self.description())
    }

    /// A human-readable description of the error: always exactly the message
    /// derived from the error's code and detail at construction time.
    pub fn description(&self) -> (r: &str)
        ensures
            r@ == self.spec_message(),
            r@ == spec_message_for(self.spec_code(), self.spec_detail()),
    {
        proof {
            use_type_invariant(self);
        }
        self.message.as_str()
    }
}

impl From<TaskErrorCode> for TaskError {
    /// Build an error from a code alone: the message is the code's canonical
    /// text.
    fn from(code: TaskErrorCode) -> (r: TaskError)
        ensures
            r.spec_code() == code,
            r.spec_message() == spec_message_for(code, None),
            r.spec_detail() == None::<Seq<char>>,
    {
        TaskError { code, message: TaskError::message_for(code, None), detail: Ghost(None) }
    }
}

impl vstd::std_specs::convert::FromSpecImpl<TaskErrorCode> for TaskError {
    open spec fn obeys_from_spec() -> bool {
        false
    }

    open spec fn from_spec(code: TaskErrorCode) -> TaskError {
        arbitrary()
    }
}

impl<'a> From<&'a str> for TaskError {
    /// Build an error from a free-form detail string: the code is `Unknown`
    /// and the message embeds the code's text and the quoted detail.
    fn from(message: &'a str) -> (r: TaskError)
        ensures
            r.spec_code() == TaskErrorCode::Unknown,
            r.spec_message() == spec_message_for(TaskErrorCode::Unknown, Some(message@)),
            r.spec_detail() == Some(message@),
    {
        TaskError {
            code: TaskErrorCode::Unknown,
            message: TaskError::message_for(TaskErrorCode::Unknown, Some(message)),
            detail: Ghost(Some(message@)),
        }
    }
}

impl<'a> vstd::std_specs::convert::FromSpecImpl<&'a str> for TaskError {
    open spec fn obeys_from_spec() -> bool {
        false
    }

    open spec fn from_spec(message: &'a str) -> TaskError {
        arbitrary()
    }
}

} // verus!
