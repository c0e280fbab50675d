//! Failure kinds reported by the library.

use vstd::prelude::*;

verus! {

/// Why an operation failed.
#[derive(Debug, Clone, Copy, PartialEq, Eq, Structural)]
pub enum Error {
    /// No browser executable could be located.
    ExecutableNotFound,
    /// No port of the probed range could be bound.
    PortUnavailable,
    /// The browser process could not be started.
    SpawnFailed,
    /// The browser's log ended without announcing its debug endpoint.
    DebugUrlNotFound,
    /// The transport has shut down or its socket is gone.
    TransportClosed,
    /// No reply arrived within the time allowed for the call.
    RequestTimeout,
    /// A reply lacked a field the protocol promises, or had the wrong form.
    UnexpectedResponseShape,
    /// The selector matched no node of the document.
    ElementNotFound,
    /// The capture reply carried no image payload.
    NoImageData,
    /// The page did not settle within the readiness deadline.
    ContentUnstableTimeout,
    /// Killing the process or removing its profile directory failed.
    ProcessCleanupFailed,
    /// The tab is not attached, or has been closed already.
    TabClosed,
}

impl Error {
    /// The text shown to a user for this failure.
    pub open spec fn text(self) -> Seq<char> {
        match self {
            Error::ExecutableNotFound => "browser executable not found"@,
            Error::PortUnavailable => "no debug port available"@,
            Error::SpawnFailed => "failed to spawn the browser"@,
            Error::DebugUrlNotFound => "debug URL not found in the browser log"@,
            Error::TransportClosed => "transport closed"@,
            Error::RequestTimeout => "timed out waiting for a reply"@,
            Error::UnexpectedResponseShape => "unexpected response shape"@,
            Error::ElementNotFound => "element not found"@,
            Error::NoImageData => "no image data received"@,
            Error::ContentUnstableTimeout => "page content did not become stable"@,
            Error::ProcessCleanupFailed => "browser cleanup failed"@,
            Error::TabClosed => "tab is not attached"@,
        }
    }

    /// Returns the text shown to a user for this failure.
    pub fn message(&self) -> (m: &'static str)
        ensures
            m@ == self.text(),
    {
        match self {
            Error::ExecutableNotFound => "browser executable not found",
            Error::PortUnavailable => "no debug port available",
            Error::SpawnFailed => "failed to spawn the browser",
            Error::DebugUrlNotFound => "debug URL not found in the browser log",
            Error::TransportClosed => "transport closed",
            Error::RequestTimeout => "timed out waiting for a reply",
            Error::UnexpectedResponseShape => "unexpected response shape",
            Error::ElementNotFound => "element not found",
            Error::NoImageData => "no image data received",
            Error::ContentUnstableTimeout => "page content did not become stable",
            Error::ProcessCleanupFailed => "browser cleanup failed",
            Error::TabClosed => "tab is not attached",
        }
    }

    /// Whether the failure is only logged and never fails the caller's
    /// operation.
    pub open spec fn non_fatal(self) -> bool {
        self == Error::ProcessCleanupFailed
    }

    /// Returns whether the failure is only logged.
    pub fn is_non_fatal(&self) -> (b: bool)
        ensures
            b == self.non_fatal(),
    {
        matches!(self, Error::ProcessCleanupFailed)
    }
}

} // verus!
