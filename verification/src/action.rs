//! The toggle action: the remote operation that persists a requested
//! preference by setting the `darkmode` cookie on the response and echoing
//! the value back.
//!
//! The request/response context is threaded in explicitly: the caller hands
//! the action the response's cookie slot when it runs inside a request
//! lifecycle, and `None` when that context is missing. The ambient lookup
//! itself, like the transport, belongs to the host around this crate.

use vstd::prelude::*;

use crate::cookie::spec_set_cookie_value;
use crate::cookie::set_cookie_value;
use crate::resolve::ActionError;

verus! {

/// The cookie slot of one response: at most one `Set-Cookie` header, written
/// by overwriting, never by appending.
pub struct ResponseCookies {
    pub set_cookie: Option<Vec<u8>>,
}

impl ResponseCookies {
    /// The `Set-Cookie` value this response carries, if any.
    pub open spec fn cookie_spec(self) -> Option<Seq<u8>> {
        match self.set_cookie {
            Some(v) => Some(v@),
            None => None,
        }
    }

    /// A fresh response, carrying no cookie yet.
    pub fn new() -> (r: ResponseCookies)
        ensures
            r.cookie_spec() is None,
    {
        ResponseCookies { set_cookie: None }
    }

    /// Replaces whatever cookie the response carried with `value`.
    pub fn overwrite_cookie(&mut self, value: Vec<u8>)
        ensures
            final(self).cookie_spec() == Some(value@),
    {
        self.set_cookie = Some(value);
    }
}

/// The cookie a response carries after one toggle with input `prefers_dark`:
/// always exactly the one freshly built `Set-Cookie` value, whatever the
/// response carried before.
pub open spec fn spec_response_cookie_after(
    prev: Option<Seq<u8>>,
    prefers_dark: bool,
) -> Option<Seq<u8>> {
    Some(spec_set_cookie_value(prefers_dark))
}

/// Persists the requested preference and echoes it back.
///
/// `response` is the response's cookie slot, present exactly when the action
/// runs inside a request lifecycle. With it present the action overwrites the
/// response's cookie with `darkmode=<value>; Path=/` and answers `Ok` with
/// the same value, which the caller takes as the new confirmed one. Without
/// it nothing can be persisted and the action fails with `ContextMissing`.
pub fn toggle_dark_mode(response: &mut Option<ResponseCookies>, prefers_dark: bool) -> (r: Result<
    bool,
    ActionError,
>)
    ensures
        *old(response) is None ==> *final(response) is None && r == Err::<bool, ActionError>(
            ActionError::ContextMissing,
        ),
        *old(response) is Some ==> *final(response) is Some
            && (*final(response)).unwrap().cookie_spec() == spec_response_cookie_after(
            (*old(response)).unwrap().cookie_spec(),
            prefers_dark,
        ) && r == Ok::<bool, ActionError>(prefers_dark),
{
    match response {
        None => Err(ActionError::ContextMissing),
        Some(rc) => {
            rc.overwrite_cookie(set_cookie_value(prefers_dark));
            Ok(prefers_dark)
        },
    }
}

/// Toggling twice in sequence with the same input leaves the same single
/// cookie as toggling once: the second call overwrites the first's cookie
/// with an equal value, nothing accumulates, and after each call the stored
/// cookie reads back as exactly the toggled value.
pub proof fn lemma_toggle_idempotent(prev: Option<Seq<u8>>, prefers_dark: bool)
    ensures
        spec_response_cookie_after(
            spec_response_cookie_after(prev, prefers_dark),
            prefers_dark,
        ) == spec_response_cookie_after(prev, prefers_dark),
        spec_response_cookie_after(prev, prefers_dark) == Some(
            spec_set_cookie_value(prefers_dark),
        ),
        crate::cookie::spec_prefers_dark(
            crate::cookie::spec_applied_pair(spec_set_cookie_value(prefers_dark)),
        ) == prefers_dark,
{
    crate::cookie::lemma_set_cookie_round_trip(prefers_dark);
}

} // verus!
