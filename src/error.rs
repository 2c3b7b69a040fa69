use vstd::prelude::*;

verus! {

/// The kind of an operating-system I/O failure, as far as this library tells
/// them apart.
#[derive(Clone, Copy, Debug, PartialEq, Eq, Structural)]
pub enum IoKind {
    NotFound,
    PermissionDenied,
    AlreadyExists,
    Other,
}

/// Why a watch could not be established or released.
#[derive(Clone, Copy, Debug, PartialEq, Eq, Structural)]
pub enum WatchError {
    /// The path does not exist.
    PathNotFound,
    /// The process may not watch the path.
    PermissionDenied,
    /// The notification facility failed for another reason.
    Failed,
}

/// A failure as the notification facility reports it.
#[derive(Clone, Copy, Debug, PartialEq, Eq, Structural)]
pub enum NotifyFailure {
    Generic,
    Io(IoKind),
    PathNotFound,
    WatchNotFound,
    InvalidConfig,
    MaxFilesWatch,
}

/// Errors of the file commands and of the watch sessions.
#[derive(Clone, Copy, Debug, PartialEq, Eq, Structural)]
pub enum FsError {
    /// A read, write, remove, rename or move failed.
    Io(IoKind),
    /// A watch could not be established.
    Watcher(WatchError),
    /// The handle names no live session: unknown, or already stopped.
    HandleNotFound,
    /// Every handle has been given out.
    HandlesExhausted,
}

pub open spec fn spec_watch_error(f: NotifyFailure) -> WatchError {
    match f {
        NotifyFailure::PathNotFound => WatchError::PathNotFound,
        NotifyFailure::Io(IoKind::NotFound) => WatchError::PathNotFound,
        NotifyFailure::Io(IoKind::PermissionDenied) => WatchError::PermissionDenied,
        _ => WatchError::Failed,
    }
}

/// Sorts a failure of the notification facility into the library's watch
/// errors: a missing path, a refused permission, or anything else.
pub fn watch_error(f: NotifyFailure) -> (r: WatchError)
    ensures
        r == spec_watch_error(f),
{
    match f {
        NotifyFailure::PathNotFound => WatchError::PathNotFound,
        NotifyFailure::Io(IoKind::NotFound) => WatchError::PathNotFound,
        NotifyFailure::Io(IoKind::PermissionDenied) => WatchError::PermissionDenied,
        _ => WatchError::Failed,
    }
}

} // verus!
