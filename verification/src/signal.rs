use vstd::prelude::*;

verus! {

/// The value carried by the readiness signal once asynchronous initialization
/// finishes: the engine environment, the controller bound to the frame, and
/// the webview retrieved from that controller, each named by its handle.
#[derive(Clone, Copy, PartialEq, Eq, Structural, Debug)]
pub struct ReadyValue {
    pub environment: u64,
    pub controller: u64,
    pub webview: u64,
}

/// Single-producer, multi-consumer, replayable readiness signal: it completes
/// at most once, and after completion every reader observes the same value.
/// The field is private, so the `pending -> completed` transition can happen
/// only through [`ReadySignal::complete`], whose precondition makes a second
/// completion unreachable in verified code.
#[derive(Clone, Copy, Debug)]
pub struct ReadySignal {
    value: Option<ReadyValue>,
}

impl ReadySignal {
    /// The completed value, or `None` while the signal is still pending.
    pub closed spec fn value_of(self) -> Option<ReadyValue> {
        self.value
    }

    pub open spec fn is_pending(self) -> bool {
        self.value_of() is None
    }

    /// A fresh signal, still pending.
    pub fn new() -> (s: Self)
        ensures
            s.is_pending(),
    {
        ReadySignal { value: None }
    }

    /// Completes the signal. Callable at most once: a caller must show the
    /// signal is still pending, so a second completion is a verification
    /// error at the call site, not a runtime check.
    pub fn complete(&mut self, value: ReadyValue)
        requires
            old(self).is_pending(),
        ensures
            final(self).value_of() == Some(value),
    {
        self.value = Some(value);
    }

    /// Reads the signal: the completed value, or `None` while pending.
    /// Every read after completion observes the same value.
    pub fn get(&self) -> (r: Option<ReadyValue>)
        ensures
            r == self.value_of(),
    {
        self.value
    }

    pub fn is_completed(&self) -> (r: bool)
        ensures
            r == !self.is_pending(),
    {
        self.value.is_some()
    }
}

} // verus!
