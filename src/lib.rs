//! Local file-system access and debounced change notification.
//!
//! The library holds the decisions of the file commands, the shape of a
//! directory listing, the watch options, the lifecycle of watch sessions and
//! the table of live sessions. Reading and writing the disk is left to the
//! caller, which hands the library plain values.

mod entry;
mod error;
mod ops;
mod options;
mod platform;
mod registry;
mod session;

pub use entry::{millis_since, read_dir, DirEntry, EpochOffset, RawEntry, RawMetadata};
pub use error::{watch_error, FsError, IoKind, NotifyFailure, WatchError};
pub use ops::{move_error, move_plan, remove_action, rename_check, MoveKind, RemoveAction};
pub use options::{WatchOptions, DEFAULT_DEBOUNCE_MS};
pub use registry::WatchRegistry;
pub use platform::{DebounceEventResult, PlatformDebouncer};
pub use session::{
    forward_batch, lemma_stop_twice, spec_release_list, spec_watch_list, start_watch, unwatch, watch,
    WatchSession,
};
