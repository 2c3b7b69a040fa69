use crate::error::{FsError, IoKind};
use vstd::prelude::*;

verus! {

/// What removing a path takes, given what is at the path.
#[derive(Clone, Copy, Debug, PartialEq, Eq, Structural)]
pub enum RemoveAction {
    /// Nothing is there: the removal is done already.
    Nothing,
    /// A file is there: remove it.
    RemoveFile,
    /// A directory is there: remove it with all it holds.
    RemoveDirAll,
}

/// How a move is carried out, given what is at its source.
#[derive(Clone, Copy, Debug, PartialEq, Eq, Structural)]
pub enum MoveKind {
    /// The source is a single file.
    File,
    /// The source is a directory tree.
    Dir,
}

/// Decides how to remove a path: nothing to do where it does not exist, else
/// remove the file, or the directory recursively.
pub fn remove_action(exists: bool, is_file: bool) -> (r: RemoveAction)
    ensures
        !exists ==> r == RemoveAction::Nothing,
        exists && is_file ==> r == RemoveAction::RemoveFile,
        exists && !is_file ==> r == RemoveAction::RemoveDirAll,
{
    if !exists {
        RemoveAction::Nothing
    } else if is_file {
        RemoveAction::RemoveFile
    } else {
        RemoveAction::RemoveDirAll
    }
}

/// Whether a rename may go ahead: it fails with `AlreadyExists` exactly where
/// the new name is taken.
pub fn rename_check(target_exists: bool) -> (r: Result<(), FsError>)
    ensures
        target_exists <==> r is Err,
        r is Err ==> r == Err::<(), FsError>(FsError::Io(IoKind::AlreadyExists)),
{
    if target_exists {
        Err(FsError::Io(IoKind::AlreadyExists))
    } else {
        Ok(())
    }
}

/// Decides a move: it fails with `AlreadyExists` exactly where the
/// destination exists and `overwrite` is not set; else it moves a file or a
/// directory tree, by what the source is.
pub fn move_plan(source_is_file: bool, target_exists: bool, overwrite: bool) -> (r: Result<
    MoveKind,
    FsError,
>)
    ensures
        r is Err <==> (target_exists && !overwrite),
        match r {
            Ok(k) => k == (if source_is_file {
                MoveKind::File
            } else {
                MoveKind::Dir
            }),
            Err(e) => e == FsError::Io(IoKind::AlreadyExists),
        },
{
    if target_exists && !overwrite {
        Err(FsError::Io(IoKind::AlreadyExists))
    } else if source_is_file {
        Ok(MoveKind::File)
    } else {
        Ok(MoveKind::Dir)
    }
}

/// The error reported for a failed move: `AlreadyExists` stays what it is,
/// every other failure becomes `Other`.
pub fn move_error(kind: IoKind) -> (r: FsError)
    ensures
        kind == IoKind::AlreadyExists ==> r == FsError::Io(IoKind::AlreadyExists),
        kind != IoKind::AlreadyExists ==> r == FsError::Io(IoKind::Other),
{
    match kind {
        IoKind::AlreadyExists => FsError::Io(IoKind::AlreadyExists),
        _ => FsError::Io(IoKind::Other),
    }
}

} // verus!
