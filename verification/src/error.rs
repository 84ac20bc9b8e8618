//! Failures of boundary calls and the channel that keeps the last one.

use vstd::prelude::*;
use vstd::utf8::encode_utf8;

verus! {

/// The kinds of failure a boundary call can report.
#[derive(Clone, Copy, Debug, PartialEq, Eq, Structural)]
pub enum ErrorKind {
    /// A required input was null or was not valid text.
    InvalidArgument,
    /// A text did not parse as an address, a network or a protocol.
    ParseError,
    /// The service could not be constructed, or the logger not installed.
    InitializationError,
    /// The service itself failed.
    ServiceError,
    /// The execution context for the service could not be established.
    InternalError,
}

/// A failure: its kind and the message that names the stage that failed.
#[derive(Clone, Debug, PartialEq, Eq)]
pub struct BoundaryError {
    pub kind: ErrorKind,
    pub message: String,
}

/// The mathematical value of a `BoundaryError`.
pub struct ErrorView {
    pub kind: ErrorKind,
    pub message: Seq<char>,
}

impl View for BoundaryError {
    type V = ErrorView;

    open spec fn view(&self) -> ErrorView {
        ErrorView { kind: self.kind, message: self.message@ }
    }
}

/// The failure of the given kind whose message is `message`.
pub open spec fn failure(kind: ErrorKind, message: Seq<char>) -> ErrorView {
    ErrorView { kind, message }
}

/// The outcome of a call that returns nothing, with the error by its view.
pub open spec fn outcome_view(outcome: Result<(), BoundaryError>) -> Result<(), ErrorView> {
    match outcome {
        Ok(()) => Ok(()),
        Err(e) => Err(e@),
    }
}

/// What the channel holds after an outcome was recorded: nothing after a
/// success, the failure's message after a failure.
pub open spec fn channel_after(outcome: Result<(), ErrorView>) -> Option<Seq<char>> {
    match outcome {
        Ok(()) => None,
        Err(e) => Some(e.message),
    }
}

/// The length that the channel reports: the number of bytes of the stored
/// message in UTF-8, and 0 where nothing is stored.
pub open spec fn stored_length(stored: Option<Seq<char>>) -> nat {
    match stored {
        None => 0,
        Some(message) => encode_utf8(message).len(),
    }
}

/// The bytes of the stored message in UTF-8, empty where nothing is stored.
pub open spec fn stored_bytes(stored: Option<Seq<char>>) -> Seq<u8> {
    match stored {
        None => Seq::empty(),
        Some(message) => encode_utf8(message),
    }
}

/// Whether a buffer of `capacity` bytes can take the stored message, and the
/// number of bytes written fits the signed result.
pub open spec fn fits(stored: Option<Seq<char>>, capacity: nat) -> bool {
    stored_length(stored) <= capacity && stored_length(stored) <= isize::MAX
}

impl BoundaryError {
    /// A failure of the given kind with the given message.
    pub fn new(kind: ErrorKind, message: &str) -> (e: BoundaryError)
        ensures
            e@ == failure(kind, message@),
    {
        BoundaryError { kind, message: String::from_str(message) }
    }

    /// The message, as a `String`.
    pub fn to_string(&self) -> (s: String)
        ensures
            s@ == self@.message,
    {
        self.message.clone()
    }
}

/// The slot for the last failure of one thread. Every boundary call writes to
/// it: a success clears it, a failure stores its message.
#[derive(Debug)]
pub struct ErrorChannel {
    message: Option<String>,
}

impl View for ErrorChannel {
    type V = Option<Seq<char>>;

    closed spec fn view(&self) -> Option<Seq<char>> {
        match self.message {
            None => None,
            Some(m) => Some(m@),
        }
    }
}

impl ErrorChannel {
    /// A channel that holds nothing.
    pub fn new() -> (channel: ErrorChannel)
        ensures
            channel@ is None,
    {
        ErrorChannel { message: None }
    }

    /// Stores `message`, replacing what was stored.
    pub fn set(&mut self, message: String)
        ensures
            final(self)@ == Some(message@),
    {
        self.message = Some(message);
    }

    /// Removes what is stored.
    pub fn clear(&mut self)
        ensures
            final(self)@ is None,
    {
        self.message = None;
    }

    /// Records the outcome of a boundary call: a success clears the channel, a
    /// failure stores its message.
    pub fn update_if_required(&mut self, outcome: Result<(), BoundaryError>)
        ensures
            final(self)@ == channel_after(outcome_view(outcome)),
    {
        match outcome {
            Ok(()) => self.clear(),
            Err(e) => self.set(e.message),
        }
    }

    /// The number of bytes of the stored message, 0 where nothing is stored.
    pub fn length(&self) -> (n: usize)
        ensures
            n == stored_length(self@),
    {
        match &self.message {
            None => 0,
            Some(m) => m.as_str().as_bytes().len(),
        }
    }

    /// Copies the stored message into `buffer` and returns the number of bytes
    /// written, 0 where nothing is stored. Returns -1 and leaves the buffer as
    /// it was where `buffer` is absent or too small for the whole message.
    pub fn copy_into(&self, buffer: Option<&mut [u8]>) -> (written: isize)
        ensures
            buffer is None ==> written == -1,
            buffer matches Some(b) ==> {
                &&& final(b)@.len() == b@.len()
                &&& fits(self@, b@.len()) ==> {
                    &&& written == stored_length(self@)
                    &&& final(b)@ == stored_bytes(self@) + b@.skip(written as int)
                }
                &&& !fits(self@, b@.len()) ==> written == -1 && final(b)@ == b@
            },
    {
        match buffer {
            None => -1,
            Some(b) => {
                match &self.message {
                    None => 0,
                    Some(m) => {
                        let bytes = m.as_str().as_bytes();
                        let n: usize = bytes.len();
                        let limit: usize = isize::MAX as usize;
                        if n > b.len() || n > limit {
                            -1
                        } else {
                            let ghost before = b@;
                            let mut i: usize = 0;
                            while i < n
                                invariant
                                    i <= n,
                                    n == bytes@.len(),
                                    n <= b@.len(),
                                    b@.len() == before.len(),
                                    b@ == bytes@.take(i as int) + before.skip(i as int),
                                decreases n - i,
                            {
                                b[i] = bytes[i];
                                i = i + 1;
                            }
                            assert(bytes@.take(n as int) == bytes@);
                            n as isize
                        }
                    },
                }
            },
        }
    }
}

} // verus!
