//! The attachment state of a diagnostic log stream.
//!
//! The engine keeps one process-wide set of attached log streams, and
//! attaching or detaching the same stream twice must not reach it. The
//! decision — whether an engine call is due — lives here, verified; the
//! caller performs the call it is told to.

use vstd::prelude::*;

verus! {

/// The attachment state of one diagnostic stream.
#[derive(Debug, Clone, PartialEq)]
pub struct LogStream {
    attached: bool,
}

impl LogStream {
    /// Whether the stream is attached to the engine.
    pub closed spec fn is_attached(self) -> bool {
        self.attached
    }

    /// A stream that is not yet attached.
    pub fn new() -> (s: LogStream)
        ensures
            !s.is_attached(),
    {
        LogStream { attached: false }
    }

    /// Whether the stream is attached.
    pub fn attached(&self) -> (r: bool)
        ensures
            r == self.is_attached(),
    {
        self.attached
    }

    /// Attach the stream. The result says whether the caller must make
    /// the engine's attach call now: exactly once over any number of
    /// consecutive attaches.
    pub fn attach(&mut self) -> (engine_call: bool)
        ensures
            final(self).is_attached(),
            engine_call <==> !old(self).is_attached(),
    {
        let engine_call = !self.attached;
        self.attached = true;
        engine_call
    }

    /// Detach the stream. The result says whether the caller must make
    /// the engine's detach call now: exactly once over any number of
    /// consecutive detaches, and never for a stream that was not
    /// attached.
    pub fn detach(&mut self) -> (engine_call: bool)
        ensures
            !final(self).is_attached(),
            engine_call <==> old(self).is_attached(),
    {
        let engine_call = self.attached;
        self.attached = false;
        engine_call
    }
}

} // verus!
