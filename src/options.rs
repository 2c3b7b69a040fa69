use vstd::prelude::*;

verus! {

/// Debounce window, in milliseconds, of a session started without options.
pub const DEFAULT_DEBOUNCE_MS: u64 = 2000;

/// How a watch session observes its paths.
///
/// One value is shared by every path of a session and does not change once
/// the session exists.
#[derive(Clone, Copy, Debug, PartialEq, Eq, Structural)]
pub struct WatchOptions {
    /// Whether sub-directories (also those created later) are watched too.
    pub recursive: bool,
    /// Length of the debounce window, in milliseconds.
    pub debounce: u64,
}

impl Default for WatchOptions {
    /// Non-recursive, with a window of two seconds.
    fn default() -> (r: WatchOptions)
        ensures
            r.recursive == false,
            r.debounce == DEFAULT_DEBOUNCE_MS,
    {
        WatchOptions { recursive: false, debounce: DEFAULT_DEBOUNCE_MS }
    }
}

impl WatchOptions {
    /// Options with the given mode and window.
    pub fn new(recursive: bool, debounce: u64) -> (r: WatchOptions)
        ensures
            r.recursive == recursive,
            r.debounce == debounce,
    {
        WatchOptions { recursive, debounce }
    }
}

} // verus!
