//! Decisions of the update workflow. The vendor update capability — the
//! check, the download and the install — is a black box driven by the
//! surrounding program; the functions here decide what each of its
//! outcomes means and record every failure into the progress tracker
//! before it is surfaced.

use vstd::prelude::*;
use crate::progress::{ProgressModel, UpdateProgress};

verus! {

/// What the vendor capability reports about an available update.
pub struct UpdateInfo {
    /// Version of the available update.
    pub version: String,
    /// Release notes, when the vendor supplies any.
    pub notes: Option<String>,
    /// Where the update is downloaded from.
    pub download_url: String,
}

/// Outcome of a successful update check.
pub enum UpdateCheck {
    /// The running version is current.
    NotAvailable,
    /// An update can be downloaded.
    Available { info: UpdateInfo },
}

/// Why the update workflow stopped.
pub enum UpdateError {
    /// The update check itself failed; the transport's text is kept.
    CheckFailed { message: String },
    /// A download was requested but no update is available.
    NoUpdateAvailable,
    /// The download or install failed; the transport's text is kept.
    DownloadFailed { message: String },
}

impl UpdateError {
    /// The error as text, as it is surfaced to the caller.
    pub fn message(&self) -> (r: String)
        ensures
            r@ == (match *self {
                UpdateError::CheckFailed { message } => "Failed to check for updates: "@
                    + message@,
                UpdateError::NoUpdateAvailable => "No update available"@,
                UpdateError::DownloadFailed { message } => message@,
            }),
    {
        match self {
            UpdateError::CheckFailed { message } => {
                let mut s = String::from_str("Failed to check for updates: ");
                s.append(message.as_str());
                s
            },
            UpdateError::NoUpdateAvailable => String::from_str("No update available"),
            UpdateError::DownloadFailed { message } => message.clone(),
        }
    }
}

/// Everything of the tracker's state but the error text is the same.
pub open spec fn same_but_error(a: ProgressModel, b: ProgressModel) -> bool {
    &&& b.downloading == a.downloading
    &&& b.percent_centi == a.percent_centi
    &&& b.downloaded == a.downloaded
    &&& b.total == a.total
    &&& b.complete == a.complete
}

/// Decides what a (re-)check before the download means. An available
/// update is handed on; no update, or a failed check, is recorded into the
/// tracker's error field — without discarding its byte counts — and
/// surfaced. Exactly the no-update answer yields `NoUpdateAvailable`, and
/// exactly a failed check yields `CheckFailed`.
pub fn record_check_outcome(p: &mut UpdateProgress, outcome: Result<UpdateCheck, String>) -> (r:
    Result<UpdateInfo, UpdateError>)
    requires
        old(p).wf(),
    ensures
        final(p).wf(),
        same_but_error(old(p)@, final(p)@),
        outcome matches Ok(UpdateCheck::Available { info }) ==> {
            &&& final(p)@ == old(p)@
            &&& r == Ok::<UpdateInfo, UpdateError>(info)
        },
        outcome matches Ok(UpdateCheck::NotAvailable) ==> {
            &&& final(p)@.error == Some("No update available"@)
            &&& r == Err::<UpdateInfo, UpdateError>(UpdateError::NoUpdateAvailable)
        },
        outcome matches Err(m) ==> {
            &&& final(p)@.error == Some(m@)
            &&& r matches Err(UpdateError::CheckFailed { message }) && message@ == m@
        },
{
    match outcome {
        Ok(UpdateCheck::Available { info }) => Ok(info),
        Ok(UpdateCheck::NotAvailable) => {
            p.on_error(String::from_str("No update available"));
            Err(UpdateError::NoUpdateAvailable)
        },
        Err(m) => {
            p.on_error(m.clone());
            Err(UpdateError::CheckFailed { message: m })
        },
    }
}

/// Decides what the download-and-install outcome means: success passes
/// through; a failure is recorded into the tracker — keeping the byte
/// counts — and surfaced as `DownloadFailed`, if and only if the transport
/// failed.
pub fn record_download_outcome(p: &mut UpdateProgress, outcome: Result<(), String>) -> (r: Result<
    (),
    UpdateError,
>)
    requires
        old(p).wf(),
    ensures
        final(p).wf(),
        same_but_error(old(p)@, final(p)@),
        outcome is Ok ==> final(p)@ == old(p)@ && r is Ok,
        outcome matches Err(m) ==> {
            &&& final(p)@.error == Some(m@)
            &&& r matches Err(UpdateError::DownloadFailed { message }) && message@ == m@
        },
{
    match outcome {
        Ok(()) => Ok(()),
        Err(m) => {
            p.on_error(m.clone());
            Err(UpdateError::DownloadFailed { message: m })
        },
    }
}

} // verus!
