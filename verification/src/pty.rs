//! Failures of the pseudoterminal calls that a shell session is set up with.

use crate::io_error::{IoError, IoErrorView};
use vstd::prelude::*;
use vstd::string::StringExecFns;

verus! {

/// The pseudoterminal call that failed, with the system's reason.
#[derive(Debug, PartialEq, Eq)]
pub enum PtyError {
    GetPtyName(IoError),
    GrantPt(IoError),
    OpenPtyChild(IoError),
    OpenPtyParent(IoError),
    SetControllingTty(IoError),
    SetDimensions(IoError),
    UnlockPt(IoError),
}

/// What a [`PtyError`] is.
pub enum PtyErrorView {
    GetPtyName(IoErrorView),
    GrantPt(IoErrorView),
    OpenPtyChild(IoErrorView),
    OpenPtyParent(IoErrorView),
    SetControllingTty(IoErrorView),
    SetDimensions(IoErrorView),
    UnlockPt(IoErrorView),
}

impl View for PtyError {
    type V = PtyErrorView;

    open spec fn view(&self) -> PtyErrorView {
        match self {
            PtyError::GetPtyName(e) => PtyErrorView::GetPtyName(e@),
            PtyError::GrantPt(e) => PtyErrorView::GrantPt(e@),
            PtyError::OpenPtyChild(e) => PtyErrorView::OpenPtyChild(e@),
            PtyError::OpenPtyParent(e) => PtyErrorView::OpenPtyParent(e@),
            PtyError::SetControllingTty(e) => PtyErrorView::SetControllingTty(e@),
            PtyError::SetDimensions(e) => PtyErrorView::SetDimensions(e@),
            PtyError::UnlockPt(e) => PtyErrorView::UnlockPt(e@),
        }
    }
}

impl Clone for PtyError {
    fn clone(&self) -> (e: PtyError)
        ensures
            e@ == self@,
    {
        match self {
            PtyError::GetPtyName(x) => PtyError::GetPtyName(x.clone()),
            PtyError::GrantPt(x) => PtyError::GrantPt(x.clone()),
            PtyError::OpenPtyChild(x) => PtyError::OpenPtyChild(x.clone()),
            PtyError::OpenPtyParent(x) => PtyError::OpenPtyParent(x.clone()),
            PtyError::SetControllingTty(x) => PtyError::SetControllingTty(x.clone()),
            PtyError::SetDimensions(x) => PtyError::SetDimensions(x.clone()),
            PtyError::UnlockPt(x) => PtyError::UnlockPt(x.clone()),
        }
    }
}

/// The text that describes an error.
pub open spec fn spec_error_text(e: PtyErrorView) -> Seq<char> {
    match e {
        PtyErrorView::GetPtyName(e) => "failed to get pt name: "@ + e.message,
        PtyErrorView::GrantPt(e) => "failed to grant pt: "@ + e.message,
        PtyErrorView::OpenPtyChild(e) => "failed to open pty child: "@ + e.message,
        PtyErrorView::OpenPtyParent(e) => "failed to open pty parent: "@ + e.message,
        PtyErrorView::SetControllingTty(e) => "failed to set controlling tty: "@ + e.message,
        PtyErrorView::SetDimensions(e) => "failed to set pty dimensions: "@ + e.message,
        PtyErrorView::UnlockPt(e) => "failed to unlock pt: "@ + e.message,
    }
}

impl PtyError {
    /// Describes the error in words.
    pub fn to_string(&self) -> (text: String)
        ensures
            text@ == spec_error_text(self@),
    {
        match self {
            PtyError::GetPtyName(e) => String::from_str("failed to get pt name: ").concat(
                e.message.as_str(),
            ),
            PtyError::GrantPt(e) => String::from_str("failed to grant pt: ").concat(
                e.message.as_str(),
            ),
            PtyError::OpenPtyChild(e) => String::from_str("failed to open pty child: ").concat(
                e.message.as_str(),
            ),
            PtyError::OpenPtyParent(e) => String::from_str("failed to open pty parent: ").concat(
                e.message.as_str(),
            ),
            PtyError::SetControllingTty(e) => String::from_str(
                "failed to set controlling tty: ",
            ).concat(e.message.as_str()),
            PtyError::SetDimensions(e) => String::from_str(
                "failed to set pty dimensions: ",
            ).concat(e.message.as_str()),
            PtyError::UnlockPt(e) => String::from_str("failed to unlock pt: ").concat(
                e.message.as_str(),
            ),
        }
    }
}

} // verus!
