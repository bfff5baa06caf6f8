use crate::cache::{write_model, SharedTextCache};
use crate::err_tools::ErrorX;
use vstd::prelude::*;

verus! {

/// The two states of a file watcher: constructed but not yet subscribed to
/// filesystem notifications, or subscribed.
pub enum WatchState {
    Idle,
    Watching,
}

/// The decision core of the file watcher. It captures the watch target at
/// construction, decides when the one subscription must be made, and applies
/// the outcome of each reload to the shared cache: a successful reload
/// replaces the snapshot wholesale, a failed one leaves the last good
/// snapshot in place.
pub struct FileWatcher {
    state: WatchState,
    filename: String,
}

impl FileWatcher {
    /// Whether the watcher is subscribed to filesystem notifications.
    pub closed spec fn is_watching(&self) -> bool {
        self.state is Watching
    }

    /// The watch target captured at construction.
    pub closed spec fn target(&self) -> Seq<char> {
        self.filename@
    }

    /// A watcher for the given target, not yet subscribed.
    pub fn new(filename: String) -> (w: FileWatcher)
        ensures
            !w.is_watching(),
            w.target() == filename@,
    {
        FileWatcher { state: WatchState::Idle, filename }
    }

    /// The watch target, for the caller that performs the subscription and
    /// the reloads.
    pub fn filename(&self) -> (r: &String)
        ensures
            r@ == self.target(),
    {
        &self.filename
    }

    /// Whether the subscription has been made, for the caller that must only
    /// apply reloads while watching.
    pub fn watching(&self) -> (b: bool)
        ensures
            b == self.is_watching(),
    {
        match self.state {
            WatchState::Idle => false,
            WatchState::Watching => true,
        }
    }

    /// Requests monitoring. The first request asks the caller to subscribe
    /// (the result is true exactly then); every later request is a no-op, so
    /// redundant requests on every render tick are harmless.
    pub fn ensure_watching(&mut self) -> (subscribe: bool)
        ensures
            final(self).is_watching(),
            subscribe == !old(self).is_watching(),
            final(self).target() == old(self).target(),
    {
        match self.state {
            WatchState::Idle => {
                self.state = WatchState::Watching;
                true
            },
            WatchState::Watching => false,
        }
    }

    /// Applies one reload outcome to the shared cache: a successful reload
    /// writes the whole new snapshot, a failed one retains the last good
    /// snapshot. The result says whether the cache was refreshed.
    pub fn apply_reload(&self, cache: &mut SharedTextCache, load: Result<String, Box<ErrorX>>) -> (refreshed: bool)
        requires
            self.is_watching(),
        ensures
            load matches Ok(s) ==> refreshed && final(cache)@ == write_model(old(cache)@, s@),
            load is Err ==> !refreshed && final(cache)@ == old(cache)@,
    {
        match load {
            Ok(s) => {
                cache.write(s);
                true
            },
            Err(_) => false,
        }
    }
}

} // verus!
