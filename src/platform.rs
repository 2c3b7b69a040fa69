use crate::error::{IoKind, NotifyFailure};
use vstd::prelude::*;

verus! {

/// An error of the notification facility; read only through [`failure_of`].
#[verifier::external_type_specification]
#[verifier::external_body]
pub struct ExNotifyError(notify::Error);

/// One coalesced event of a flush, carried through unread.
#[verifier::external_type_specification]
#[verifier::external_body]
pub struct ExDebouncedEvent(notify_debouncer_full::DebouncedEvent);

/// The sending side of the channel a debouncer flushes into.
#[verifier::external_type_specification]
#[verifier::external_body]
#[verifier::reject_recursive_types(T)]
pub struct ExSender<T>(std::sync::mpsc::Sender<T>);

/// A running debouncer of this platform's notification facility, with the
/// recommended watcher and file-identity cache. Only the functions below
/// touch it. Dropping the value stops the debouncer and closes the channel it
/// sends to.
#[verifier::external_body]
pub struct PlatformDebouncer {
    inner: notify_debouncer_full::Debouncer<
        notify::RecommendedWatcher,
        notify_debouncer_full::RecommendedCache,
    >,
}

/// The watch requests handed to the debouncer so far, in order: each path
/// with whether it was to be watched recursively.
pub uninterp spec fn watch_requests(d: PlatformDebouncer) -> Seq<(Seq<char>, bool)>;

/// The release requests handed to the debouncer so far, in order.
pub uninterp spec fn release_requests(d: PlatformDebouncer) -> Seq<Seq<char>>;

/// The debounce window, in milliseconds, the debouncer was started with.
pub uninterp spec fn window_of(d: PlatformDebouncer) -> u64;

/// What a debouncer hands over at each flush: the events of one window, or
/// the errors of one window.
pub type DebounceEventResult = Result<
    Vec<notify_debouncer_full::DebouncedEvent>,
    Vec<notify::Error>,
>;

/// Relies on `notify_debouncer_full::new_debouncer`: starts a debouncer whose
/// window is `debounce_ms` milliseconds and which sends each flush to `tx`.
#[verifier::external_body]
pub(crate) fn new_debouncer(
    debounce_ms: u64,
    tx: std::sync::mpsc::Sender<DebounceEventResult>,
) -> (r: Result<PlatformDebouncer, notify::Error>)
    ensures
        r is Ok ==> watch_requests(r->Ok_0) == Seq::<(Seq<char>, bool)>::empty(),
        r is Ok ==> release_requests(r->Ok_0) == Seq::<Seq<char>>::empty(),
        r is Ok ==> window_of(r->Ok_0) == debounce_ms,
{
    notify_debouncer_full::new_debouncer(std::time::Duration::from_millis(debounce_ms), None, tx)
        .map(|inner| PlatformDebouncer { inner })
}

/// Relies on `notify_debouncer_full::Debouncer::watch`: registers `path`,
/// with its sub-directories where `recursive` is set.
#[verifier::external_body]
pub(crate) fn watch_path(d: &mut PlatformDebouncer, path: &str, recursive: bool) -> (r: Result<
    (),
    notify::Error,
>)
    ensures
        watch_requests(*final(d)) == watch_requests(*old(d)).push((path@, recursive)),
        release_requests(*final(d)) == release_requests(*old(d)),
        window_of(*final(d)) == window_of(*old(d)),
{
    let mode = match recursive {
        true => notify::RecursiveMode::Recursive,
        false => notify::RecursiveMode::NonRecursive,
    };
    d.inner.watch(path, mode)
}

/// Relies on `notify_debouncer_full::Debouncer::unwatch`: releases `path`.
#[verifier::external_body]
pub(crate) fn unwatch_path(d: &mut PlatformDebouncer, path: &str) -> (r: Result<(), notify::Error>)
    ensures
        release_requests(*final(d)) == release_requests(*old(d)).push(path@),
        watch_requests(*final(d)) == watch_requests(*old(d)),
        window_of(*final(d)) == window_of(*old(d)),
{
    d.inner.unwatch(path)
}

/// Relies on the public `kind` field of `notify::Error` and on
/// `std::io::Error::kind`: the variant of the failure, fields dropped.
#[verifier::external_body]
pub(crate) fn failure_of(e: &notify::Error) -> (r: NotifyFailure) {
    match &e.kind {
        notify::ErrorKind::Generic(_) => NotifyFailure::Generic,
        notify::ErrorKind::Io(io) => NotifyFailure::Io(match io.kind() {
            std::io::ErrorKind::NotFound => IoKind::NotFound,
            std::io::ErrorKind::PermissionDenied => IoKind::PermissionDenied,
            std::io::ErrorKind::AlreadyExists => IoKind::AlreadyExists,
            _ => IoKind::Other,
        }),
        notify::ErrorKind::PathNotFound => NotifyFailure::PathNotFound,
        notify::ErrorKind::WatchNotFound => NotifyFailure::WatchNotFound,
        notify::ErrorKind::InvalidConfig(_) => NotifyFailure::InvalidConfig,
        notify::ErrorKind::MaxFilesWatch => NotifyFailure::MaxFilesWatch,
    }
}

} // verus!
