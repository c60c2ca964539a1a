//! Failures of forwarding a session's streams.

use crate::io_error::{IoError, IoErrorView};
use vstd::prelude::*;
use vstd::string::StringExecFns;

verus! {

/// What went wrong while a stream was forwarded.
#[derive(Debug, PartialEq, Eq)]
pub enum ForwarderError {
    /// Reading from a stream failed.
    ReadFromStream(IoError),
    /// Shutting down writes on a stream failed.
    ShutDownStream(IoError),
    /// Writing to a stream failed.
    WriteToStream(IoError),
}

/// What a [`ForwarderError`] is.
pub enum ForwarderErrorView {
    ReadFromStream(IoErrorView),
    ShutDownStream(IoErrorView),
    WriteToStream(IoErrorView),
}

impl View for ForwarderError {
    type V = ForwarderErrorView;

    open spec fn view(&self) -> ForwarderErrorView {
        match self {
            ForwarderError::ReadFromStream(e) => ForwarderErrorView::ReadFromStream(e@),
            ForwarderError::ShutDownStream(e) => ForwarderErrorView::ShutDownStream(e@),
            ForwarderError::WriteToStream(e) => ForwarderErrorView::WriteToStream(e@),
        }
    }
}

impl Clone for ForwarderError {
    fn clone(&self) -> (e: ForwarderError)
        ensures
            e@ == self@,
    {
        match self {
            ForwarderError::ReadFromStream(x) => ForwarderError::ReadFromStream(x.clone()),
            ForwarderError::ShutDownStream(x) => ForwarderError::ShutDownStream(x.clone()),
            ForwarderError::WriteToStream(x) => ForwarderError::WriteToStream(x.clone()),
        }
    }
}

/// The text that describes an error.
pub open spec fn spec_error_text(e: ForwarderErrorView) -> Seq<char> {
    match e {
        ForwarderErrorView::ReadFromStream(e) => "failed to read from stream: "@ + e.message,
        ForwarderErrorView::ShutDownStream(e) => "failed to shut down stream: "@ + e.message,
        ForwarderErrorView::WriteToStream(e) => "failed to write to stream: "@ + e.message,
    }
}

impl ForwarderError {
    /// Describes the error in words.
    pub fn to_string(&self) -> (text: String)
        ensures
            text@ == spec_error_text(self@),
    {
        match self {
            ForwarderError::ReadFromStream(e) => String::from_str(
                "failed to read from stream: ",
            ).concat(e.message.as_str()),
            ForwarderError::ShutDownStream(e) => String::from_str(
                "failed to shut down stream: ",
            ).concat(e.message.as_str()),
            ForwarderError::WriteToStream(e) => String::from_str(
                "failed to write to stream: ",
            ).concat(e.message.as_str()),
        }
    }
}

} // verus!
