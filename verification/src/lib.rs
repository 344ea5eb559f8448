//! Client-side core of an SDK for a remote model-compilation service.
//!
//! The service accepts a model artifact plus configuration as a multipart
//! request, exposes an asynchronous compile task that is polled until it
//! reaches a terminal phase, and then serves either the compiled artifact or
//! a failure log.  This crate holds the verified logic of that client: the
//! credential and endpoint resolution rules, the request builders and the
//! multipart form layout, the response decoder, and the task-polling state
//! machine.  The I/O around it (HTTP, environment, files) is expected to be
//! driven by a thin unverified shell that feeds plain values in and out.

use vstd::prelude::*;

pub mod client;
pub mod compile;
pub mod config;
pub mod dss;
pub mod flow;
pub mod json;
pub mod text;
pub mod transport;

pub use client::FuriosaClient;
pub use client::VersionInfo;
pub use compile::CompileRequest;
pub use compile::CompileTask;
pub use compile::CompileTaskPhase;
pub use compile::TargetIr;
pub use config::get_endpoint_from_env;
pub use config::FURIOSA_API_ENDPOINT_ENV;
pub use dss::CalibrateRequest;
pub use dss::DynamicRange;
pub use dss::OptimizeRequest;
pub use dss::QuantizeRequest;

verus! {

/// Which kind of I/O failure an [`ClientError::Io`] carries.
///
/// The client only ever distinguishes "the file was not there" (the optional
/// credential file case) from every other failure, so the model keeps just
/// enough structure for that decision.
#[derive(Clone, Copy, Debug, PartialEq, Eq, Structural)]
pub enum IoErrorKind {
    NotFound,
    PermissionDenied,
    Other,
}

/// How a read of an environment variable ended.
#[derive(Clone, Copy, Debug, PartialEq, Eq, Structural)]
pub enum EnvVarError {
    NotPresent,
    NotUnicode,
}

/// The closed error taxonomy of the client.
///
/// Every operation either fully succeeds or fails with exactly one of these.
#[derive(Debug)]
pub enum ClientError {
    /// A file or network level failure, with its message.
    Io(IoErrorKind, String),
    /// A malformed line in the credential/config file: the line text and its index.
    ConfigParse(String, usize),
    /// An environment variable could not be read.
    ConfigEnvVar(EnvVarError),
    /// Both credential variables were still unset after the optional file load.
    NoApiKey,
    /// The server answered outside the 2xx range, or the transport itself failed.
    ApiError(String),
    /// The compile task reached the Failed phase; carries the server's log text.
    CompilationFailed(String),
    /// A string did not name any intermediate representation.
    InvalidTargetIr(String),
}

/// The human-readable text of an error, one fixed phrasing per variant.
pub open spec fn message_of(e: ClientError) -> Seq<char> {
    match e {
        ClientError::Io(_, m) => "IO Error: "@ + m@,
        ClientError::ConfigParse(line, idx) => "Error parsing line: '"@ + line@
            + "', error at line index: "@ + crate::text::dec_digits(idx as nat),
        ClientError::ConfigEnvVar(EnvVarError::NotPresent) => "environment variable not found"@,
        ClientError::ConfigEnvVar(EnvVarError::NotUnicode) =>
            "environment variable was not valid unicode"@,
        ClientError::NoApiKey => "FURIOSA_ACCESS_KEY_ID, FURIOSA_SECRET_ACCESS_KEY must be set"@,
        ClientError::ApiError(m) => "ApiError: "@ + m@,
        ClientError::CompilationFailed(m) => "Compilation failed:\n"@ + m@,
        ClientError::InvalidTargetIr(s) => "Invalid target ir: "@ + s@,
    }
}

impl ClientError {
    /// Builds the I/O variant from a kind and a message.
    pub fn io_error(kind: IoErrorKind, msg: &str) -> (e: ClientError)
        ensures
            e matches ClientError::Io(k, m) && k == kind && m@ == msg@,
    {
        ClientError::Io(kind, msg.to_owned())
    }

    /// The error rendered as one line of text (two for a failed compilation,
    /// whose log follows on its own lines).
    pub fn message(&self) -> (r: String)
        ensures
            r@ == message_of(*self),
    {
        match self {
            ClientError::Io(_, m) => {
                let mut s = "IO Error: ".to_owned();
                s.append(m.as_str());
                s
            },
            ClientError::ConfigParse(line, idx) => {
                let mut s = "Error parsing line: '".to_owned();
                s.append(line.as_str());
                s.append("', error at line index: ");
                let d = crate::text::dec_string(*idx);
                s.append(d.as_str());
                s
            },
            ClientError::ConfigEnvVar(EnvVarError::NotPresent) => {
                "environment variable not found".to_owned()
            },
            ClientError::ConfigEnvVar(EnvVarError::NotUnicode) => {
                "environment variable was not valid unicode".to_owned()
            },
            ClientError::NoApiKey => {
                "FURIOSA_ACCESS_KEY_ID, FURIOSA_SECRET_ACCESS_KEY must be set".to_owned()
            },
            ClientError::ApiError(m) => {
                let mut s = "ApiError: ".to_owned();
                s.append(m.as_str());
                s
            },
            ClientError::CompilationFailed(m) => {
                let mut s = "Compilation failed:\n".to_owned();
                s.append(m.as_str());
                s
            },
            ClientError::InvalidTargetIr(t) => {
                let mut s = "Invalid target ir: ".to_owned();
                s.append(t.as_str());
                s
            },
        }
    }
}

} // verus!
