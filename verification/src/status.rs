//! The status protocol: every operation of the foreign function table answers
//! with a raw status word, and this module is the one place where such a word
//! becomes either the operation's value or a structured failure.

use vstd::prelude::*;
use vstd::string::StringExecFns;

verus! {

/// Raw status word of an operation that succeeded.
pub const OK: u32 = 0;

/// Raw status word: a value buffer does not fit the shape it was given with.
pub const INVALID_ARGUMENT: u32 = 1;

/// Raw status word: the foreign side could not allocate.
pub const OUT_OF_MEMORY: u32 = 2;

/// Raw status word: the addressed object is not in a state that admits the operation.
pub const RUNTIME_ERROR: u32 = 3;

/// Raw status word: a handle does not name a live object of the kind the operation works on.
pub const NOT_SUPPORTED: u32 = 4;

/// Symbolic identity of a raw status word.
#[derive(Clone, Copy, Debug, PartialEq, Eq, Structural)]
pub enum Code {
    Success,
    InvalidArgument,
    OutOfMemory,
    RuntimeError,
    NotSupported,
    /// Any raw word outside the table above. It is a failure like the others.
    Unknown,
}

impl Code {
    /// The code that a raw status word stands for.
    pub open spec fn of(raw: u32) -> Code {
        if raw == OK {
            Code::Success
        } else if raw == INVALID_ARGUMENT {
            Code::InvalidArgument
        } else if raw == OUT_OF_MEMORY {
            Code::OutOfMemory
        } else if raw == RUNTIME_ERROR {
            Code::RuntimeError
        } else if raw == NOT_SUPPORTED {
            Code::NotSupported
        } else {
            Code::Unknown
        }
    }

    /// The name under which a code appears in failure texts.
    pub open spec fn name_text(self) -> Seq<char> {
        match self {
            Code::Success => "Ok"@,
            Code::InvalidArgument => "InvalidArgument"@,
            Code::OutOfMemory => "OutOfMemory"@,
            Code::RuntimeError => "RuntimeError"@,
            Code::NotSupported => "NotSupported"@,
            Code::Unknown => "Unknown"@,
        }
    }

    /// Reads a raw status word.
    pub fn from_raw(raw: u32) -> (code: Code)
        ensures
            code == Code::of(raw),
            code == Code::Success <==> raw == OK,
    {
        if raw == OK {
            Code::Success
        } else if raw == INVALID_ARGUMENT {
            Code::InvalidArgument
        } else if raw == OUT_OF_MEMORY {
            Code::OutOfMemory
        } else if raw == RUNTIME_ERROR {
            Code::RuntimeError
        } else if raw == NOT_SUPPORTED {
            Code::NotSupported
        } else {
            Code::Unknown
        }
    }

    /// The symbolic name of the code.
    pub fn name(self) -> (text: &'static str)
        ensures
            text@ == self.name_text(),
    {
        match self {
            Code::Success => "Ok",
            Code::InvalidArgument => "InvalidArgument",
            Code::OutOfMemory => "OutOfMemory",
            Code::RuntimeError => "RuntimeError",
            Code::NotSupported => "NotSupported",
            Code::Unknown => "Unknown",
        }
    }
}

/// A failing status: the raw word as the foreign side gave it, and the
/// message that the foreign side supplied for it, unchanged. The word is
/// never `OK`.
#[derive(Debug)]
pub struct Status {
    raw: u32,
    message: String,
}

impl Status {
    #[verifier::type_invariant]
    spec fn failing(self) -> bool {
        self.raw != OK
    }

    /// The raw status word.
    pub closed spec fn word(&self) -> u32 {
        self.raw
    }

    /// The foreign message.
    pub closed spec fn text(&self) -> Seq<char> {
        self.message@
    }

    /// The symbolic identity of the raw word.
    pub open spec fn code_of(&self) -> Code {
        Code::of(self.word())
    }

    /// Whether this status is the word `raw` with the message `message`.
    pub open spec fn is(&self, raw: u32, message: Seq<char>) -> bool {
        self.word() == raw && self.text() == message
    }

    /// The raw status word, which is not `OK`.
    pub fn raw(&self) -> (raw: u32)
        ensures
            raw == self.word(),
            raw != OK,
    {
        proof {
            use_type_invariant(self);
        }
        self.raw
    }

    /// The foreign message, word for word.
    pub fn message(&self) -> (message: &str)
        ensures
            message@ == self.text(),
    {
        self.message.as_str()
    }

    /// The symbolic identity of the raw word.
    pub fn code(&self) -> (code: Code)
        ensures
            code == self.code_of(),
            code != Code::Success,
    {
        proof {
            use_type_invariant(self);
        }
        Code::from_raw(self.raw)
    }
}

/// The chokepoint of the protocol. A raw word `OK` yields the value that the
/// call produced; any other word yields a `Status` that keeps the word and
/// the foreign message, so that no failing status is dropped on the way.
pub fn from_api_status<T>(raw: u32, ok_val: T, message: &str) -> (result: Result<T, Status>)
    ensures
        raw == OK ==> result == Ok::<T, Status>(ok_val),
        raw != OK ==> result is Err && result->Err_0.is(raw, message@),
{
    if raw == OK {
        Ok(ok_val)
    } else {
        Err(Status { raw, message: String::from_str(message) })
    }
}

/// A failure that ends the current operation with no way to go on: the hard
/// presentation of a failing status, or a null pointer where a handle was
/// expected.
#[derive(Debug)]
pub enum Failure {
    /// The foreign side could not build or find what the operation needs.
    Construction(Status),
    /// The operation was tried on an object whose state does not admit it,
    /// such as a parameter that holds no storage.
    InvalidState(Status),
    /// The length of a value buffer is not the element count of its shape.
    ShapeMismatch(Status),
    /// A null pointer was about to be wrapped.
    NullHandle,
}

impl Failure {
    /// Whether this failure is the hard presentation of the failing word
    /// `raw` with the foreign message `message`.
    pub open spec fn arises_from(&self, raw: u32, message: Seq<char>) -> bool {
        match self {
            Failure::ShapeMismatch(status) => raw == INVALID_ARGUMENT && status.is(raw, message),
            Failure::InvalidState(status) => raw == RUNTIME_ERROR && status.is(raw, message),
            Failure::Construction(status) => raw != OK && raw != INVALID_ARGUMENT && raw
                != RUNTIME_ERROR && status.is(raw, message),
            Failure::NullHandle => false,
        }
    }

    /// The text that `describe` gives.
    pub open spec fn description(&self) -> Seq<char> {
        match self {
            Failure::Construction(status) => status.code_of().name_text() + ": "@
                + status.text(),
            Failure::InvalidState(status) => status.code_of().name_text() + ": "@
                + status.text(),
            Failure::ShapeMismatch(status) => status.code_of().name_text() + ": "@
                + status.text(),
            Failure::NullHandle => "pointer must not be null"@,
        }
    }

    /// The hard presentation of a failing status: the class of the failure
    /// follows from the code, and the status travels inside it unchanged.
    pub fn from_status(status: Status) -> (failure: Failure)
        ensures
            failure.arises_from(status.word(), status.text()),
    {
        match status.code() {
            Code::InvalidArgument => Failure::ShapeMismatch(status),
            Code::RuntimeError => Failure::InvalidState(status),
            _ => Failure::Construction(status),
        }
    }

    /// What a caller that gives up shows to the user: the symbolic name of the
    /// code, then the foreign message word for word.
    pub fn describe(&self) -> (text: String)
        ensures
            text@ == self.description(),
    {
        match self {
            Failure::Construction(status) => describe_status(status),
            Failure::InvalidState(status) => describe_status(status),
            Failure::ShapeMismatch(status) => describe_status(status),
            Failure::NullHandle => String::from_str("pointer must not be null"),
        }
    }
}

fn describe_status(status: &Status) -> (text: String)
    ensures
        text@ == status.code_of().name_text() + ": "@ + status.text(),
{
    let mut text: String = String::from_str(status.code().name());
    text.append(": ");
    text.append(status.message());
    text
}

/// Whether `result` is what the hard presentation makes of the raw word
/// `raw`, given that the foreign message was `message`: a value exactly when
/// the word is `OK`, and else the failure that arises from the word.
pub open spec fn hard<T>(result: Result<T, Failure>, raw: u32, message: Seq<char>) -> bool {
    match result {
        Ok(_) => raw == OK,
        Err(failure) => failure.arises_from(raw, message),
    }
}

/// A raw status in the hard presentation, for operations that produce nothing.
pub fn check_api_status(raw: u32, message: &str) -> (result: Result<(), Failure>)
    ensures
        hard(result, raw, message@),
{
    match from_api_status(raw, (), message) {
        Ok(unit) => Ok(unit),
        Err(status) => Err(Failure::from_status(status)),
    }
}

/// A failure that the caller may handle and go on: the recoverable
/// presentation of a failing status, used by the operations that read and
/// write files. It names the file and keeps the foreign message word for word.
#[derive(Debug)]
pub struct IoFailure {
    pub path: String,
    pub message: String,
}

impl IoFailure {
    /// Whether this failure names the file `path` and carries `message`.
    pub open spec fn is(&self, path: Seq<char>, message: Seq<char>) -> bool {
        self.path@ == path && self.message@ == message
    }

    /// The recoverable presentation of a failing status.
    pub fn from_status(path: &str, status: Status) -> (failure: IoFailure)
        ensures
            failure.is(path@, status.text()),
    {
        IoFailure { path: String::from_str(path), message: String::from_str(status.message()) }
    }
}

/// Whether `result` is what the recoverable presentation makes of the raw
/// word `raw` for the file `path`, given that the foreign message was
/// `message`.
pub open spec fn recoverable(
    result: Result<(), IoFailure>,
    raw: u32,
    path: Seq<char>,
    message: Seq<char>,
) -> bool {
    match result {
        Ok(_) => raw == OK,
        Err(failure) => raw != OK && failure.is(path, message),
    }
}

/// A raw status in the recoverable presentation.
pub fn io_result(raw: u32, path: &str, message: &str) -> (result: Result<(), IoFailure>)
    ensures
        recoverable(result, raw, path@, message@),
{
    match from_api_status(raw, (), message) {
        Ok(unit) => Ok(unit),
        Err(status) => Err(IoFailure::from_status(path, status)),
    }
}

} // verus!
