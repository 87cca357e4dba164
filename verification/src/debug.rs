//! Holder bookkeeping for the diagnostic mutex: each successful
//! acquisition records the caller's source location, release clears it,
//! and on a timed-out wait the previous holder — if one is known — is
//! what gets reported.

use vstd::prelude::*;

verus! {

/// A call site: where a lock was last successfully acquired.
pub struct CallerLocation {
    pub file: String,
    pub line: u32,
    pub column: u32,
}

impl CallerLocation {
    /// A copy of the location, equal to the original.
    pub fn duplicate(&self) -> (r: CallerLocation)
        ensures
            r == *self,
    {
        CallerLocation { file: self.file.clone(), line: self.line, column: self.column }
    }
}

/// What a timed-out wait reports: the previous successful acquirer, or
/// that no caller is known.
pub enum TimeoutReport {
    PreviousHolder(CallerLocation),
    NoCallerInfo,
}

/// The diagnostic record protected alongside a mutex: who acquired it
/// last. This is a debugging aid only; it never changes what the mutex
/// itself does.
pub struct LockDiagnostics {
    pub last_locked_from: Option<CallerLocation>,
}

impl LockDiagnostics {
    /// A fresh record: no holder known.
    pub fn new() -> (r: Self)
        ensures
            r.last_locked_from is None,
    {
        LockDiagnostics { last_locked_from: None }
    }

    /// What to report when the wait deadline elapses: the previous
    /// holder's location exactly when one is recorded.
    pub fn on_timeout(&self) -> (r: TimeoutReport)
        ensures
            match self.last_locked_from {
                Some(l) => (r matches TimeoutReport::PreviousHolder(h) && h == l),
                None => r is NoCallerInfo,
            },
    {
        match &self.last_locked_from {
            Some(l) => TimeoutReport::PreviousHolder(l.duplicate()),
            None => TimeoutReport::NoCallerInfo,
        }
    }

    /// On every successful acquisition the acquirer's call site becomes
    /// the recorded holder.
    pub fn on_acquire(&mut self, caller: CallerLocation)
        ensures
            final(self).last_locked_from == Some(caller),
    {
        self.last_locked_from = Some(caller);
    }

    /// On release — on every exit path — the recorded holder is cleared.
    pub fn on_release(&mut self)
        ensures
            final(self).last_locked_from is None,
    {
        self.last_locked_from = None;
    }
}

} // verus!
