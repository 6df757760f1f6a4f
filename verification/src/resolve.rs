//! Resolving the effective dark-mode preference and tracking one toggle
//! submission at a time.

use vstd::prelude::*;

verus! {

/// Why a toggle attempt failed.
///
/// `ContextMissing` is the action's own failure: it was invoked without the
/// request/response context it needs, a programming or environment error.
/// `TransportFailure` is the caller's view of a round trip that did not
/// complete: the optimistic value must not be adopted as confirmed.
#[derive(Clone, Copy, Debug, PartialEq, Eq, Structural)]
pub enum ActionError {
    ContextMissing,
    TransportFailure,
}

/// The effective preference: a pending submission wins, else the last
/// confirmed server answer, else the initial cookie-derived value.
pub open spec fn spec_resolve(pending: Option<bool>, confirmed: Option<bool>, initial: bool) -> bool {
    match pending {
        Some(p) => p,
        None => match confirmed {
            Some(c) => c,
            None => initial,
        },
    }
}

/// Computes the effective preference from its three possible sources,
/// in priority order: pending, then confirmed, then initial.
pub fn resolve(pending: Option<bool>, confirmed: Option<bool>, initial: bool) -> (r: bool)
    ensures
        r == spec_resolve(pending, confirmed, initial),
        pending is Some ==> r == pending.unwrap(),
        pending is None && confirmed is Some ==> r == confirmed.unwrap(),
        pending is None && confirmed is None ==> r == initial,
{
    match pending {
        Some(p) => p,
        None => match confirmed {
            Some(c) => c,
            None => initial,
        },
    }
}

/// The view-local state of the toggle: the value read at page load, the last
/// confirmed server answer, and the requested value of the one submission
/// that may be in flight.
///
/// The view is idle when `pending` is `None` and submitting otherwise;
/// exactly one source is authoritative at any time, which `spec_resolve`
/// picks.
pub struct ToggleState {
    pub pending: Option<bool>,
    pub confirmed: Option<bool>,
    pub initial: bool,
}

impl ToggleState {
    /// The value this state resolves to.
    pub open spec fn resolved_spec(self) -> bool {
        spec_resolve(self.pending, self.confirmed, self.initial)
    }

    /// No submission is in flight.
    pub open spec fn is_idle_spec(self) -> bool {
        self.pending is None
    }

    /// The state at page load: only the initial cookie-derived value is known.
    pub fn new(initial: bool) -> (s: ToggleState)
        ensures
            s.pending is None,
            s.confirmed is None,
            s.initial == initial,
            s.resolved_spec() == initial,
    {
        ToggleState { pending: None, confirmed: None, initial }
    }

    /// The currently displayed preference.
    pub fn resolved(&self) -> (r: bool)
        ensures
            r == self.resolved_spec(),
    {
        resolve(self.pending, self.confirmed, self.initial)
    }

    /// Whether a new submission may be started.
    pub fn is_idle(&self) -> (r: bool)
        ensures
            r == self.is_idle_spec(),
    {
        self.pending.is_none()
    }

    /// Starts a submission of the negated current preference and returns the
    /// payload to send. Only one submission may be in flight at a time, so
    /// the control must be disabled until `complete` is called.
    ///
    /// The resolved value flips at once: the requested value is displayed
    /// optimistically, before the server confirms.
    pub fn begin_submit(&mut self) -> (payload: bool)
        requires
            old(self).is_idle_spec(),
        ensures
            payload == !old(self).resolved_spec(),
            final(self).pending == Some(payload),
            final(self).confirmed == old(self).confirmed,
            final(self).initial == old(self).initial,
            final(self).resolved_spec() == !old(self).resolved_spec(),
    {
        let payload = !self.resolved();
        self.pending = Some(payload);
        payload
    }

    /// Ends the in-flight submission with the server's answer.
    ///
    /// On `Ok(v)` the echoed value becomes the confirmed one and the state
    /// resolves to it. On an error the submission is non-authoritative:
    /// nothing is confirmed, and resolution reverts to the value the state
    /// resolved to before the submission began.
    pub fn complete(&mut self, response: Result<bool, ActionError>)
        requires
            !old(self).is_idle_spec(),
        ensures
            final(self).is_idle_spec(),
            final(self).initial == old(self).initial,
            response is Ok ==> final(self).confirmed == Some(response.unwrap())
                && final(self).resolved_spec() == response.unwrap(),
            response is Err ==> final(self).confirmed == old(self).confirmed
                && final(self).resolved_spec() == spec_resolve(None, old(self).confirmed, old(self).initial),
    {
        self.pending = None;
        match response {
            Ok(v) => {
                self.confirmed = Some(v);
            },
            Err(_) => {},
        }
    }
}

} // verus!
