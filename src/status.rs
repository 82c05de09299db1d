use vstd::prelude::*;

verus! {

/// The status a worker sends back for one target.
#[derive(Debug, Clone, Copy, PartialEq, Eq, Structural)]
pub enum DownloadDoneStatus {
    Success,
    Failed,
}

/// Why materializing a target failed.
#[derive(Debug, Clone, Copy, PartialEq, Eq, Structural)]
pub enum MaterializeError {
    /// Creating a directory, the staging file, or publishing it failed.
    Filesystem,
    /// A file target carried no source URL.
    MissingSource,
    /// The request or the streaming of its body failed.
    Transport,
    /// Changing the owner of a created entry failed.
    Ownership,
}

pub open spec fn status_of(r: Result<(), MaterializeError>) -> DownloadDoneStatus {
    if r.is_ok() {
        DownloadDoneStatus::Success
    } else {
        DownloadDoneStatus::Failed
    }
}

/// Every failure collapses to `Failed`; success is `Success`.
pub fn done_status(r: &Result<(), MaterializeError>) -> (s: DownloadDoneStatus)
    ensures
        s == status_of(*r),
{
    match r {
        Ok(()) => DownloadDoneStatus::Success,
        Err(_) => DownloadDoneStatus::Failed,
    }
}

} // verus!
