//! Failures of the session and streaming manager.
use vstd::prelude::*;
use crate::events::concat2;

verus! {

/// The ways an operation of the manager can fail.
#[derive(Clone, Debug)]
pub enum ControlError {
    /// No executable of the named tool was found.
    BinaryNotFound { tool: String },
    /// The external process could not be started.
    ProcessSpawnFailure { message: String },
    /// The mirroring process closed or failed before announcing its stream.
    HandshakeFailure { message: String },
    /// Writing a command to a session failed.
    CommandIoFailure { message: String },
    /// No session is cached for the device.
    NoActiveSession { udid: String },
    /// The stream URL could not be reached.
    UpstreamConnectFailure { message: String },
    /// Reading the upstream stream failed part way.
    UpstreamChunkError { message: String },
    /// The gesture tool ran and exited unsuccessfully.
    ExternalToolFailure { exit_code: Option<i32>, stderr: String },
    /// A touch request carried no points.
    EmptyTouches,
    /// A touch request named an unknown touch type.
    UnknownTouchType { given: String },
}

impl ControlError {
    /// Whether the failure lies with the request (a 4xx answer) rather than
    /// with the server (5xx).
    pub open spec fn is_validation(&self) -> bool {
        self is EmptyTouches || self is UnknownTouchType
    }

    /// The human-readable text of the failure.
    pub open spec fn text(&self) -> Seq<char> {
        match self {
            ControlError::BinaryNotFound { tool } => tool@ + " binary not found"@,
            ControlError::ProcessSpawnFailure { message } => message@,
            ControlError::HandshakeFailure { message } => message@,
            ControlError::CommandIoFailure { message } => message@,
            ControlError::NoActiveSession { udid } => "No active session for simulator "@ + udid@,
            ControlError::UpstreamConnectFailure { message } => message@,
            ControlError::UpstreamChunkError { message } => message@,
            ControlError::ExternalToolFailure { stderr, .. } => "AXe command failed: "@ + stderr@,
            ControlError::EmptyTouches => "At least one touch point is required"@,
            ControlError::UnknownTouchType { given } =>
                "Invalid touch type: "@ + given@ + ". Must be 'began', 'moved', or 'ended'"@,
        }
    }

    /// The HTTP status that reports this failure.
    pub fn status_code(&self) -> (r: u16)
        ensures
            r == (if self.is_validation() { 400u16 } else { 500u16 }),
    {
        match self {
            ControlError::EmptyTouches => 400,
            ControlError::UnknownTouchType { .. } => 400,
            _ => 500,
        }
    }

    /// The human-readable text of the failure.
    pub fn message(&self) -> (r: String)
        ensures
            r@ == self.text(),
    {
        match self {
            ControlError::BinaryNotFound { tool } => concat2(tool.as_str(), " binary not found"),
            ControlError::ProcessSpawnFailure { message } => message.clone(),
            ControlError::HandshakeFailure { message } => message.clone(),
            ControlError::CommandIoFailure { message } => message.clone(),
            ControlError::NoActiveSession { udid } => concat2("No active session for simulator ", udid.as_str()),
            ControlError::UpstreamConnectFailure { message } => message.clone(),
            ControlError::UpstreamChunkError { message } => message.clone(),
            ControlError::ExternalToolFailure { stderr, .. } => concat2("AXe command failed: ", stderr.as_str()),
            ControlError::EmptyTouches => String::from_str("At least one touch point is required"),
            ControlError::UnknownTouchType { given } => crate::events::concat3(
                "Invalid touch type: ",
                given.as_str(),
                ". Must be 'began', 'moved', or 'ended'",
            ),
        }
    }
}

/// The answer to a touch, tap or swipe request.
#[derive(Clone, Debug)]
pub struct TouchResponse {
    pub success: bool,
    pub error: Option<String>,
}

impl TouchResponse {
    /// The answer that reports `outcome`: success, or the failure's text.
    pub fn from_outcome(outcome: &Result<(), ControlError>) -> (r: TouchResponse)
        ensures
            r.success == outcome is Ok,
            outcome is Ok ==> r.error is None,
            outcome is Err ==> (r.error is Some && r.error->0@ == outcome->Err_0.text()),
    {
        match outcome {
            Ok(()) => TouchResponse { success: true, error: None },
            Err(e) => TouchResponse { success: false, error: Some(e.message()) },
        }
    }
}

} // verus!
