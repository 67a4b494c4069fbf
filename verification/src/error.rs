//! The errors of the library.
use crate::text;
use crate::text::Text;
use vstd::prelude::*;

verus! {

/// What the driver reported: its result code, and the code as the driver's bindings print it.
#[derive(Debug, PartialEq, Eq)]
pub struct DriverError {
    /// The numeric result code.
    pub code: u32,
    /// The printed form of the error.
    pub text: String,
}

/// Error type for all fallible operations in this crate.
#[derive(Debug, PartialEq, Eq)]
pub enum SparkError {
    /// A requested kernel entry point was not found.
    KernelNotFound(String),
    /// The GPU is not the supported target; carries its compute capability.
    UnsupportedArch {
        /// Major version of the compute capability.
        major: u32,
        /// Minor version of the compute capability.
        minor: u32,
    },
    /// An error returned by the driver.
    Driver(DriverError),
    /// An argument failed validation.
    InvalidArgument(String),
    /// A kernel launch was not accepted by the driver.
    LaunchFailed(String),
    /// An I/O error.
    Io(String),
    /// Any other error described by the contained message.
    Other(String),
}

/// Convenience alias for results returned by this crate.
pub type Result<T> = core::result::Result<T, SparkError>;

/// A [`SparkError`] by its contents.
#[verifier::ext_equal]
pub enum Fault {
    KernelNotFound(Seq<char>),
    UnsupportedArch { major: int, minor: int },
    Driver { code: int, text: Seq<char> },
    InvalidArgument(Seq<char>),
    LaunchFailed(Seq<char>),
    Io(Seq<char>),
    Other(Seq<char>),
}

impl View for SparkError {
    type V = Fault;

    open spec fn view(&self) -> Fault {
        match *self {
            SparkError::KernelNotFound(s) => Fault::KernelNotFound(s@),
            SparkError::UnsupportedArch { major, minor } => Fault::UnsupportedArch {
                major: major as int,
                minor: minor as int,
            },
            SparkError::Driver(e) => Fault::Driver { code: e.code as int, text: e.text@ },
            SparkError::InvalidArgument(s) => Fault::InvalidArgument(s@),
            SparkError::LaunchFailed(s) => Fault::LaunchFailed(s@),
            SparkError::Io(s) => Fault::Io(s@),
            SparkError::Other(s) => Fault::Other(s@),
        }
    }
}

impl From<DriverError> for SparkError {
    fn from(e: DriverError) -> (r: SparkError) {
        SparkError::Driver(e)
    }
}

impl vstd::std_specs::convert::FromSpecImpl<DriverError> for SparkError {
    open spec fn obeys_from_spec() -> bool {
        true
    }

    open spec fn from_spec(e: DriverError) -> SparkError {
        SparkError::Driver(e)
    }
}

impl Fault {
    /// The sentence that describes the error to a reader.
    pub open spec fn message(self) -> Seq<char> {
        match self {
            Fault::KernelNotFound(name) => "kernel not found: "@ + name,
            Fault::UnsupportedArch { major, minor } => "unsupported GPU architecture: compute capability "@
                + text::decimal(major) + "."@ + text::decimal(minor) + ", expected 12.1 (SM121)"@,
            Fault::Driver { code, text } => "CUDA driver error: "@ + text,
            Fault::InvalidArgument(msg) => "invalid argument: "@ + msg,
            Fault::LaunchFailed(msg) => "kernel launch failed: "@ + msg,
            Fault::Io(msg) => "I/O error: "@ + msg,
            Fault::Other(msg) => msg,
        }
    }
}

impl SparkError {
    /// The sentence that describes the error to a reader.
    pub fn message(&self) -> (r: String)
        ensures
            r@ == self@.message(),
    {
        match self {
            SparkError::KernelNotFound(name) => Text::new("kernel not found: ").s(
                name.as_str(),
            ).done(),
            SparkError::UnsupportedArch { major, minor } => Text::new(
                "unsupported GPU architecture: compute capability ",
            ).n(*major as u64).s(".").n(*minor as u64).s(", expected 12.1 (SM121)").done(),
            SparkError::Driver(e) => Text::new("CUDA driver error: ").s(e.text.as_str()).done(),
            SparkError::InvalidArgument(msg) => Text::new("invalid argument: ").s(
                msg.as_str(),
            ).done(),
            SparkError::LaunchFailed(msg) => Text::new("kernel launch failed: ").s(
                msg.as_str(),
            ).done(),
            SparkError::Io(msg) => Text::new("I/O error: ").s(msg.as_str()).done(),
            SparkError::Other(msg) => msg.clone(),
        }
    }
}

impl Text {
    /// Refuses a request with this text as the reason.
    pub fn refuse<T>(self) -> (r: Result<T>)
        ensures
            r is Err,
            r->Err_0@ == Fault::InvalidArgument(self@),
    {
        Err(SparkError::InvalidArgument(self.done()))
    }
}

} // verus!
