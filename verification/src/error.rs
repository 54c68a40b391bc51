use vstd::prelude::*;
use crate::text::{chars_of, extend_str, string_of};

verus! {

/// Errors of the loop engine and of the server around it. The errors of reading
/// files and of JSON keep the text of the error they come from.
#[derive(Debug)]
pub enum OuraError {
    LoopAlreadyRunning,
    NoActiveLoop,
    LoopNotRunning(String),
    BackgroundLoopRunning,
    IoError(String),
    JsonError(String),
    Internal(String),
}

impl OuraError {
    /// The JSON-RPC error code under which the error is reported.
    pub fn code(&self) -> (c: i32)
        ensures
            c == self.spec_code(),
    {
        match self {
            OuraError::LoopAlreadyRunning => -32001,
            OuraError::NoActiveLoop => -32002,
            OuraError::LoopNotRunning(_) => -32003,
            OuraError::BackgroundLoopRunning => -32004,
            OuraError::IoError(_) => -32603,
            OuraError::JsonError(_) => -32603,
            OuraError::Internal(_) => -32603,
        }
    }

    pub open spec fn spec_code(&self) -> int {
        match self {
            OuraError::LoopAlreadyRunning => -32001,
            OuraError::NoActiveLoop => -32002,
            OuraError::LoopNotRunning(_) => -32003,
            OuraError::BackgroundLoopRunning => -32004,
            OuraError::IoError(_) => -32603,
            OuraError::JsonError(_) => -32603,
            OuraError::Internal(_) => -32603,
        }
    }

    pub open spec fn spec_message(&self) -> Seq<char> {
        match self {
            OuraError::LoopAlreadyRunning => "Loop already running"@,
            OuraError::NoActiveLoop => "No active loop"@,
            OuraError::LoopNotRunning(s) => "Loop not running (status: "@ + s@ + ")"@,
            OuraError::BackgroundLoopRunning => "Background loop running, stop it first"@,
            OuraError::IoError(e) => "IO error: "@ + e@,
            OuraError::JsonError(e) => "JSON error: "@ + e@,
            OuraError::Internal(e) => "Internal error: "@ + e@,
        }
    }

    /// The text the error is reported with.
    pub fn message(&self) -> (r: String)
        ensures
            r@ == self.spec_message(),
    {
        let v = match self {
            OuraError::LoopAlreadyRunning => chars_of("Loop already running"),
            OuraError::NoActiveLoop => chars_of("No active loop"),
            OuraError::LoopNotRunning(s) => {
                let mut v = chars_of("Loop not running (status: ");
                extend_str(&mut v, s.as_str());
                extend_str(&mut v, ")");
                v
            },
            OuraError::BackgroundLoopRunning => chars_of("Background loop running, stop it first"),
            OuraError::IoError(e) => {
                let mut v = chars_of("IO error: ");
                extend_str(&mut v, e.as_str());
                v
            },
            OuraError::JsonError(e) => {
                let mut v = chars_of("JSON error: ");
                extend_str(&mut v, e.as_str());
                v
            },
            OuraError::Internal(e) => {
                let mut v = chars_of("Internal error: ");
                extend_str(&mut v, e.as_str());
                v
            },
        };
        string_of(&v)
    }
}

} // verus!
