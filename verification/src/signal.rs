use crate::supervisor::Event;
use std::sync::atomic::AtomicBool;
use std::sync::atomic::Ordering;
use std::sync::Arc;
use vstd::prelude::*;

verus! {

/// The stop signal of the process: a flag that holds `true` while the driver is to keep
/// running. The interrupt handler requests the stop, the work loop reads the flag between
/// two rounds of work, and nothing ever sets it back. Clones share one flag.
#[derive(Clone)]
pub struct StopSignal {
    running: Arc<AtomicBool>,
}

impl StopSignal {
    /// A signal on which no stop has been requested.
    pub fn new() -> StopSignal {
        StopSignal { running: Arc::new(AtomicBool::new(true)) }
    }

    /// Requests the stop, with a release store: what the requester wrote before is
    /// visible to a reader that finds the stop requested.
    pub fn request_stop(&self) {
        self.running.store(false, Ordering::Release);
    }

    /// Reads the flag, with an acquire load, and reports the reading as the event that
    /// the work loop waits for between two rounds of work. `running` is `false` once a
    /// stop has been requested; what is read depends on what other threads did, so
    /// nothing more is promised of it.
    pub fn read(&self) -> (event: Event)
        ensures
            event is StopSignalRead,
    {
        Event::StopSignalRead { running: self.running.load(Ordering::Acquire) }
    }
}

} // verus!
