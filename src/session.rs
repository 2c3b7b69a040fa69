use crate::error::{watch_error, FsError, WatchError};
use crate::options::WatchOptions;
use crate::platform::{
    failure_of, new_debouncer, release_requests, unwatch_path, watch_path, watch_requests,
    window_of, DebounceEventResult, PlatformDebouncer,
};
use crate::registry::WatchRegistry;
use vstd::prelude::*;

verus! {

/// The watch requests for `paths`, in order, each with the mode `recursive`.
pub open spec fn spec_watch_list(paths: Seq<String>, recursive: bool) -> Seq<(Seq<char>, bool)> {
    paths.map_values(|p: String| (p@, recursive))
}

/// The release requests for `paths`, in order.
pub open spec fn spec_release_list(paths: Seq<String>) -> Seq<Seq<char>> {
    paths.map_values(|p: String| p@)
}

/// One live watch request: the debouncer that serves it, the paths it
/// registered, and the options shared by all of them.
pub struct WatchSession {
    debouncer: PlatformDebouncer,
    paths: Vec<String>,
    options: WatchOptions,
}

impl WatchSession {
    /// The paths registered for the session, in the order requested.
    pub closed spec fn spec_paths(&self) -> Seq<String> {
        self.paths@
    }

    /// The options the session was started with.
    pub closed spec fn spec_options(&self) -> WatchOptions {
        self.options
    }

    /// The watch requests handed to the session's debouncer, in order.
    pub closed spec fn spec_requests(&self) -> Seq<(Seq<char>, bool)> {
        watch_requests(self.debouncer)
    }

    /// The release requests handed to the session's debouncer, in order.
    pub closed spec fn spec_releases(&self) -> Seq<Seq<char>> {
        release_requests(self.debouncer)
    }

    /// The debounce window the session's debouncer was started with.
    pub closed spec fn spec_window(&self) -> u64 {
        window_of(self.debouncer)
    }

    /// The paths registered for the session.
    pub fn paths(&self) -> (r: &Vec<String>)
        ensures
            r@ == self.spec_paths(),
    {
        &self.paths
    }

    /// The options the session was started with.
    pub fn options(&self) -> (r: WatchOptions)
        ensures
            r == self.spec_options(),
    {
        self.options
    }

    /// Starts a debouncer with the window of `options` that sends its flushes
    /// to `tx`; the session watches no path yet.
    pub fn open(tx: std::sync::mpsc::Sender<DebounceEventResult>, options: WatchOptions) -> (r:
        Result<WatchSession, FsError>)
        ensures
            match r {
                Ok(s) => {
                    &&& s.spec_paths() == Seq::<String>::empty()
                    &&& s.spec_options() == options
                    &&& s.spec_window() == options.debounce
                    &&& s.spec_requests() == Seq::<(Seq<char>, bool)>::empty()
                    &&& s.spec_releases() == Seq::<Seq<char>>::empty()
                },
                Err(e) => e is Watcher,
            },
    {
        match new_debouncer(options.debounce, tx) {
            Ok(debouncer) => Ok(WatchSession { debouncer, paths: Vec::new(), options }),
            Err(e) => Err(FsError::Watcher(watch_error(failure_of(&e)))),
        }
    }

    /// Hands each of `paths` to the debouncer, once and in order, with the
    /// session's mode, and adds them to the session.
    ///
    /// All or nothing: where a path cannot be registered, no later path is
    /// tried, the paths of this call registered before it are released again,
    /// in order, the session's paths stay as they were, and the error is
    /// returned.
    pub fn add_paths(&mut self, paths: &Vec<String>) -> (r: Result<(), FsError>)
        ensures
            final(self).spec_options() == old(self).spec_options(),
            final(self).spec_window() == old(self).spec_window(),
            match r {
                Ok(()) => {
                    &&& final(self).spec_paths() == old(self).spec_paths() + paths@
                    &&& final(self).spec_requests() == old(self).spec_requests()
                        + spec_watch_list(paths@, old(self).spec_options().recursive)
                    &&& final(self).spec_releases() == old(self).spec_releases()
                },
                Err(e) => {
                    &&& e is Watcher
                    &&& final(self).spec_paths() == old(self).spec_paths()
                    &&& exists|i: int|
                        0 <= i < paths@.len() && final(self).spec_requests()
                            == old(self).spec_requests() + spec_watch_list(
                            #[trigger] paths@.subrange(0, i + 1),
                            old(self).spec_options().recursive,
                        ) && final(self).spec_releases() == old(self).spec_releases()
                            + spec_release_list(paths@.subrange(0, i))
                },
            },
    {
        let recursive = self.options.recursive;
        let ghost req0 = watch_requests(self.debouncer);
        let mut i: usize = 0;
        while i < paths.len()
            invariant
                i <= paths@.len(),
                recursive == self.options.recursive,
                self.options == old(self).options,
                self.paths == old(self).paths,
                window_of(self.debouncer) == window_of(old(self).debouncer),
                release_requests(self.debouncer) == release_requests(old(self).debouncer),
                req0 == watch_requests(old(self).debouncer),
                watch_requests(self.debouncer) == req0 + spec_watch_list(
                    paths@.subrange(0, i as int),
                    recursive,
                ),
            decreases paths@.len() - i,
        {
            let ghost before = watch_requests(self.debouncer);
            let res = watch_path(&mut self.debouncer, paths[i].as_str(), recursive);
            assert(spec_watch_list(paths@.subrange(0, i as int + 1), recursive) =~= spec_watch_list(
                paths@.subrange(0, i as int),
                recursive,
            ).push((paths@[i as int]@, recursive)));
            assert(watch_requests(self.debouncer) =~= req0 + spec_watch_list(
                paths@.subrange(0, i as int + 1),
                recursive,
            ));
            match res {
                Ok(()) => {},
                Err(e) => {
                    let _ = release_prefix(&mut self.debouncer, paths, i);
                    assert(0 <= i < paths@.len());
                    return Err(FsError::Watcher(watch_error(failure_of(&e))));
                },
            }
            i = i + 1;
        }
        assert(paths@.subrange(0, paths@.len() as int) =~= paths@);
        append_paths(&mut self.paths, paths);
        Ok(())
    }

    /// Hands every path of the session to the debouncer's release, once and
    /// in order, going on past a path whose release fails. Returns one
    /// outcome per path, in the same order: `None` where it was released,
    /// else the error.
    pub fn release(&mut self) -> (r: Vec<(String, Option<WatchError>)>)
        ensures
            final(self).spec_paths() == old(self).spec_paths(),
            final(self).spec_options() == old(self).spec_options(),
            final(self).spec_window() == old(self).spec_window(),
            final(self).spec_requests() == old(self).spec_requests(),
            final(self).spec_releases() == old(self).spec_releases() + spec_release_list(
                old(self).spec_paths(),
            ),
            r@.len() == old(self).spec_paths().len(),
            forall|i: int| 0 <= i < r@.len() ==> (#[trigger] r@[i]).0 == old(self).spec_paths()[i],
    {
        let n = self.paths.len();
        let r = release_prefix(&mut self.debouncer, &self.paths, n);
        assert(self.paths@.subrange(0, n as int) =~= self.paths@);
        r
    }
}

fn append_paths(dst: &mut Vec<String>, paths: &Vec<String>)
    ensures
        final(dst)@ == old(dst)@ + paths@,
{
    let mut i: usize = 0;
    while i < paths.len()
        invariant
            i <= paths@.len(),
            dst@ == old(dst)@ + paths@.subrange(0, i as int),
        decreases paths@.len() - i,
    {
        dst.push(paths[i].clone());
        assert(old(dst)@ + paths@.subrange(0, i as int + 1) =~= dst@);
        i = i + 1;
    }
    assert(paths@.subrange(0, paths@.len() as int) =~= paths@);
}

/// Hands the first `n` of `paths` to the debouncer's release, one by one and
/// in order, never stopping early; returns one outcome per path.
fn release_prefix(d: &mut PlatformDebouncer, paths: &Vec<String>, n: usize) -> (r: Vec<
    (String, Option<WatchError>),
>)
    requires
        n <= paths@.len(),
    ensures
        release_requests(*final(d)) == release_requests(*old(d)) + spec_release_list(
            paths@.subrange(0, n as int),
        ),
        watch_requests(*final(d)) == watch_requests(*old(d)),
        window_of(*final(d)) == window_of(*old(d)),
        r@.len() == n,
        forall|i: int| 0 <= i < n ==> (#[trigger] r@[i]).0 == paths@[i],
{
    let mut outcomes: Vec<(String, Option<WatchError>)> = Vec::new();
    let mut i: usize = 0;
    while i < n
        invariant
            n <= paths@.len(),
            i <= n,
            outcomes@.len() == i,
            forall|k: int| 0 <= k < i ==> (#[trigger] outcomes@[k]).0 == paths@[k],
            release_requests(*d) == release_requests(*old(d)) + spec_release_list(
                paths@.subrange(0, i as int),
            ),
            watch_requests(*d) == watch_requests(*old(d)),
            window_of(*d) == window_of(*old(d)),
        decreases n - i,
    {
        let outcome = match unwatch_path(d, paths[i].as_str()) {
            Ok(()) => None,
            Err(e) => Some(watch_error(failure_of(&e))),
        };
        outcomes.push((paths[i].clone(), outcome));
        assert(spec_release_list(paths@.subrange(0, i as int + 1)) =~= spec_release_list(
            paths@.subrange(0, i as int),
        ).push(paths@[i as int]@));
        assert(release_requests(*d) =~= release_requests(*old(d)) + spec_release_list(
            paths@.subrange(0, i as int + 1),
        ));
        i = i + 1;
    }
    outcomes
}

/// Starts a debouncer with the window of `options` that sends its flushes to
/// `tx`, and hands it every one of `paths`, once and in order, with the mode
/// of `options`.
///
/// All or nothing: where a path cannot be registered, no later path is tried,
/// the paths registered before it are released again (see
/// [`WatchSession::add_paths`]), and the error is returned.
pub fn watch(
    paths: &Vec<String>,
    tx: std::sync::mpsc::Sender<DebounceEventResult>,
    options: WatchOptions,
) -> (r: Result<WatchSession, FsError>)
    ensures
        match r {
            Ok(s) => {
                &&& s.spec_paths() == paths@
                &&& s.spec_options() == options
                &&& s.spec_window() == options.debounce
                &&& s.spec_requests() == spec_watch_list(paths@, options.recursive)
                &&& s.spec_releases() == Seq::<Seq<char>>::empty()
            },
            Err(e) => e is Watcher,
        },
{
    let mut session = WatchSession::open(tx, options)?;
    match session.add_paths(paths) {
        Ok(()) => {
            assert(Seq::<String>::empty() + paths@ =~= paths@);
            assert(Seq::<(Seq<char>, bool)>::empty() + spec_watch_list(paths@, options.recursive)
                =~= spec_watch_list(paths@, options.recursive));
            Ok(session)
        },
        Err(e) => Err(e),
    }
}

/// Whether stopping the session under `handle` succeeds in a table whose
/// contents are `m`.
pub open spec fn spec_stop_succeeds(m: Map<u64, WatchSession>, handle: u64) -> bool {
    m.contains_key(handle)
}

/// The contents of the table after the session under `handle` is stopped.
pub open spec fn spec_after_stop(m: Map<u64, WatchSession>, handle: u64) -> Map<u64, WatchSession> {
    m.remove(handle)
}

/// Starts a session over `paths` (see [`watch`]) and stores it in `registry`
/// under a fresh handle, which is returned. Fails with `HandlesExhausted`,
/// before any debouncer is started, exactly where every handle has been given
/// out. On failure the table is left as it was.
pub fn start_watch(
    registry: &mut WatchRegistry<WatchSession>,
    paths: &Vec<String>,
    tx: std::sync::mpsc::Sender<DebounceEventResult>,
    options: WatchOptions,
) -> (r: Result<u64, FsError>)
    requires
        old(registry).wf(),
    ensures
        final(registry).wf(),
        r == Err::<u64, FsError>(FsError::HandlesExhausted) <==> old(registry).next_handle()
            == u64::MAX,
        match r {
            Ok(h) => {
                &&& !old(registry)@.contains_key(h)
                &&& final(registry)@.contains_key(h)
                &&& final(registry)@.remove(h) == old(registry)@
                &&& final(registry)@[h].spec_paths() == paths@
                &&& final(registry)@[h].spec_options() == options
                &&& final(registry)@[h].spec_window() == options.debounce
                &&& final(registry)@[h].spec_requests() == spec_watch_list(paths@, options.recursive)
                &&& final(registry)@[h].spec_releases() == Seq::<Seq<char>>::empty()
            },
            Err(e) => {
                &&& final(registry)@ == old(registry)@
                &&& (e is Watcher || e == FsError::HandlesExhausted)
            },
        },
{
    if registry.is_full() {
        return Err(FsError::HandlesExhausted);
    }
    let session = watch(paths, tx, options)?;
    let h = registry.insert(session);
    match h {
        Ok(h) => {
            assert(final(registry)@.remove(h) =~= old(registry)@);
            Ok(h)
        },
        Err(e) => Err(e),
    }
}

/// Stops the session under `handle`: takes it out of `registry`, then hands
/// each of its paths to the debouncer's release, once and in order, going on
/// past failures. Returns the released session, whose drop stops its
/// debouncer, with one outcome per path; fails with `HandleNotFound` where
/// `handle` names no live session.
pub fn unwatch(registry: &mut WatchRegistry<WatchSession>, handle: u64) -> (r: Result<
    (WatchSession, Vec<(String, Option<WatchError>)>),
    FsError,
>)
    requires
        old(registry).wf(),
    ensures
        final(registry).wf(),
        final(registry)@ == spec_after_stop(old(registry)@, handle),
        r is Ok <==> spec_stop_succeeds(old(registry)@, handle),
        match r {
            Ok((s, outcomes)) => {
                let before = old(registry)@[handle];
                &&& s.spec_paths() == before.spec_paths()
                &&& s.spec_options() == before.spec_options()
                &&& s.spec_window() == before.spec_window()
                &&& s.spec_requests() == before.spec_requests()
                &&& s.spec_releases() == before.spec_releases() + spec_release_list(
                    before.spec_paths(),
                )
                &&& outcomes@.len() == before.spec_paths().len()
                &&& forall|i: int|
                    0 <= i < outcomes@.len() ==> (#[trigger] outcomes@[i]).0
                        == before.spec_paths()[i]
            },
            Err(e) => e == FsError::HandleNotFound,
        },
{
    match registry.take(handle) {
        Ok(session) => {
            let mut session = session;
            let outcomes = session.release();
            Ok((session, outcomes))
        },
        Err(e) => Err(e),
    }
}

/// Stopping a session twice: the first stop succeeds, and in the table it
/// leaves the second stop of the same handle fails.
pub proof fn lemma_stop_twice(m: Map<u64, WatchSession>, handle: u64)
    requires
        m.contains_key(handle),
    ensures
        spec_stop_succeeds(m, handle),
        !spec_stop_succeeds(spec_after_stop(m, handle), handle),
{
}

/// What the bridge forwards from one flush of a debouncer: every event of a
/// successful flush, in the order flushed, and nothing from a flush of errors.
pub fn forward_batch<E, X>(batch: Result<Vec<E>, X>) -> (r: Vec<E>)
    ensures
        r@ == match batch {
            Ok(events) => events@,
            Err(_) => Seq::<E>::empty(),
        },
{
    match batch {
        Ok(events) => events,
        Err(_) => Vec::new(),
    }
}

} // verus!
