//! Which failures are only passing.

use crate::effects::{Effect, EffectView, IoEvent, IoEventView, Outbox};
use crate::state::PlaybackState;
use crate::text::{
    ascii_lowered, contains, occurs_in, to_ascii_lowercase, to_lowercase, unicode_lowered,
};
use crate::time::Moment;
use vstd::prelude::*;

verus! {

/// Whether a failure says that Spotify has no device to play on.
pub open spec fn no_active_device(error: Seq<char>) -> bool {
    let lowered = ascii_lowered(error);
    occurs_in(lowered, "no_active_device"@) || occurs_in(lowered, "no active device"@)
}

/// Whether a failure says that Spotify has no device to play on.
pub fn is_no_active_device_error(error: &str) -> (r: bool)
    ensures
        r == no_active_device(error@),
{
    let lowered = to_ascii_lowercase(error);
    contains(lowered.as_str(), "no_active_device") || contains(lowered.as_str(), "no active device")
}

/// A failure of a poll that passes by itself.
#[derive(Clone, Copy, Debug, PartialEq, Eq, Structural)]
pub enum TransientPollError {
    SessionExpired,
    RateLimited,
    NetworkFailure,
    ServerUnavailable,
}

/// Whether a failure says that the session has expired.
pub open spec fn says_session_expired(error: Seq<char>, lowered: Seq<char>) -> bool {
    ||| occurs_in(error, "401"@)
    ||| occurs_in(error, "Unauthorized"@)
    ||| occurs_in(lowered, "access token missing"@)
}

/// Whether a failure says that too many requests were made.
pub open spec fn says_rate_limited(error: Seq<char>) -> bool {
    ||| occurs_in(error, "429"@)
    ||| occurs_in(error, "Too Many Requests"@)
    ||| occurs_in(error, "Too many requests"@)
}

/// Whether a failure says that Spotify was not reached.
pub open spec fn says_network_failure(error: Seq<char>, lowered: Seq<char>) -> bool {
    ||| occurs_in(lowered, "error sending request for url"@)
    ||| occurs_in(error, "connection reset"@)
    ||| occurs_in(error, "connection refused"@)
    ||| occurs_in(error, "timed out"@)
    ||| occurs_in(error, "temporary failure"@)
    ||| occurs_in(error, "dns"@)
}

/// Whether a failure says that Spotify cannot answer for now.
pub open spec fn says_server_unavailable(error: Seq<char>) -> bool {
    ||| occurs_in(error, "504"@)
    ||| occurs_in(error, "503"@)
    ||| occurs_in(error, "502"@)
    ||| occurs_in(error, "Gateway Timeout"@)
    ||| occurs_in(error, "Service Unavailable"@)
    ||| occurs_in(error, "Bad Gateway"@)
}

/// Which passing failure a text tells of, the first that applies; `lowered` is
/// the same text in lower case.
pub open spec fn transient_kind(error: Seq<char>, lowered: Seq<char>) -> Option<
    TransientPollError,
> {
    if says_session_expired(error, lowered) {
        Some(TransientPollError::SessionExpired)
    } else if says_rate_limited(error) {
        Some(TransientPollError::RateLimited)
    } else if says_network_failure(error, lowered) {
        Some(TransientPollError::NetworkFailure)
    } else if says_server_unavailable(error) {
        Some(TransientPollError::ServerUnavailable)
    } else {
        None
    }
}

/// Which passing failure a text tells of; `lowered` is the same text in lower
/// case.
pub fn classify_poll_error(err_text: &str, lowered: &str) -> (r: Option<TransientPollError>)
    ensures
        r == transient_kind(err_text@, lowered@),
{
    if contains(err_text, "401") || contains(err_text, "Unauthorized") || contains(
        lowered,
        "access token missing",
    ) {
        return Some(TransientPollError::SessionExpired);
    }
    if contains(err_text, "429") || contains(err_text, "Too Many Requests") || contains(
        err_text,
        "Too many requests",
    ) {
        return Some(TransientPollError::RateLimited);
    }
    if contains(lowered, "error sending request for url") || contains(err_text, "connection reset")
        || contains(err_text, "connection refused") || contains(err_text, "timed out") || contains(
        err_text,
        "temporary failure",
    ) || contains(err_text, "dns") {
        return Some(TransientPollError::NetworkFailure);
    }
    if contains(err_text, "504") || contains(err_text, "503") || contains(err_text, "502")
        || contains(err_text, "Gateway Timeout") || contains(err_text, "Service Unavailable")
        || contains(err_text, "Bad Gateway") {
        return Some(TransientPollError::ServerUnavailable);
    }
    None
}

impl TransientPollError {
    /// What the user is told of the failure.
    pub open spec fn spec_message(self) -> Seq<char> {
        match self {
            TransientPollError::SessionExpired =>
                "Spotify session expired. Refreshing authentication automatically."@,
            TransientPollError::RateLimited =>
                "Spotify rate limit hit. Retrying automatically; please wait a few seconds."@,
            TransientPollError::NetworkFailure =>
                "Temporary Spotify network error while polling playback; retrying automatically."@,
            TransientPollError::ServerUnavailable =>
                "Spotify server temporarily unavailable (5xx); retrying automatically."@,
        }
    }

    /// For how many seconds the user is told.
    pub open spec fn spec_ttl_secs(self) -> u64 {
        match self {
            TransientPollError::SessionExpired => 5,
            TransientPollError::RateLimited => 6,
            TransientPollError::NetworkFailure => 5,
            TransientPollError::ServerUnavailable => 10,
        }
    }

    /// What the user is told of the failure, and for how many seconds.
    pub fn message(self) -> (r: (&'static str, u64))
        ensures
            r.0@ == self.spec_message(),
            r.1 == self.spec_ttl_secs(),
    {
        match self {
            TransientPollError::SessionExpired => (
                "Spotify session expired. Refreshing authentication automatically.",
                5,
            ),
            TransientPollError::RateLimited => (
                "Spotify rate limit hit. Retrying automatically; please wait a few seconds.",
                6,
            ),
            TransientPollError::NetworkFailure => (
                "Temporary Spotify network error while polling playback; retrying automatically.",
                5,
            ),
            TransientPollError::ServerUnavailable => (
                "Spotify server temporarily unavailable (5xx); retrying automatically.",
                10,
            ),
        }
    }
}

/// The effects of a passing failure: an expired session is renewed.
pub open spec fn transient_effects(
    out: Seq<EffectView>,
    kind: Option<TransientPollError>,
) -> Seq<EffectView> {
    if kind == Some(TransientPollError::SessionExpired) {
        out.push(EffectView::Dispatch(IoEventView::RefreshAuthentication))
    } else {
        out
    }
}

/// The state after a passing failure: the poll counts as made now.
pub open spec fn after_transient(
    state: PlaybackState,
    kind: Option<TransientPollError>,
    now: Moment,
) -> PlaybackState {
    if kind is Some {
        PlaybackState { instant_since_last_current_playback_poll: now, ..state }
    } else {
        state
    }
}

/// Takes a failure of a poll that passes by itself, so that it does not take
/// the screen from what still plays: the next poll is scheduled, an expired
/// session is renewed, and the result is the message to show and for how many
/// seconds. Any other failure is left alone.
pub fn handle_transient_playback_poll_error(
    state: &mut PlaybackState,
    out: &mut Outbox,
    err_text: &str,
    now: Moment,
) -> (r: Option<(&'static str, u64)>)
    ensures
        ({
            let kind = transient_kind(err_text@, unicode_lowered(err_text@));
            &&& *final(state) == after_transient(*old(state), kind, now)
            &&& final(out)@ == transient_effects(old(out)@, kind)
            &&& r is Some <==> kind is Some
            &&& r matches Some((message, ttl_secs)) ==> message@ == kind->0.spec_message()
                && ttl_secs == kind->0.spec_ttl_secs()
        }),
{
    let lowered = to_lowercase(err_text);
    match classify_poll_error(err_text, lowered.as_str()) {
        Some(kind) => {
            match kind {
                TransientPollError::SessionExpired => {
                    out.push(Effect::Dispatch(IoEvent::RefreshAuthentication));
                },
                _ => {},
            }
            state.instant_since_last_current_playback_poll = now;
            Some(kind.message())
        },
        None => None,
    }
}

/// The session is renewed exactly where the failure says that it has expired,
/// whatever else it says; no other passing failure asks for anything.
pub proof fn law_only_an_expired_session_is_renewed(
    out: Seq<EffectView>,
    error: Seq<char>,
    lowered: Seq<char>,
)
    ensures
        transient_effects(out, transient_kind(error, lowered)) == (if says_session_expired(
            error,
            lowered,
        ) {
            out.push(EffectView::Dispatch(IoEventView::RefreshAuthentication))
        } else {
            out
        }),
{
}

/// Spotify has no device to play on exactly where the failure says
/// `no_active_device` or `no active device`, ASCII case aside.
pub proof fn law_what_says_that_there_is_no_device(error: &str, r: bool)
    requires
        call_ensures(is_no_active_device_error, (error,), r),
    ensures
        occurs_in(ascii_lowered(error@), "no_active_device"@) ==> r,
        occurs_in(ascii_lowered(error@), "no active device"@) ==> r,
        !occurs_in(ascii_lowered(error@), "no_active_device"@) && !occurs_in(
            ascii_lowered(error@),
            "no active device"@,
        ) ==> !r,
        no_active_device(error@) == r,
{
}

/// Each passing failure is told by its words, and where several are told, an
/// expired session comes first, then too many requests, then the network, then
/// the server.
pub proof fn law_what_tells_of_a_passing_failure(
    error: &str,
    lowered: &str,
    r: Option<TransientPollError>,
)
    requires
        call_ensures(classify_poll_error, (error, lowered), r),
    ensures
        ({
            let e = error@;
            let l = lowered@;
            let expired = occurs_in(e, "401"@) || occurs_in(e, "Unauthorized"@) || occurs_in(
                l,
                "access token missing"@,
            );
            let limited = occurs_in(e, "429"@) || occurs_in(e, "Too Many Requests"@) || occurs_in(
                e,
                "Too many requests"@,
            );
            let network = occurs_in(l, "error sending request for url"@) || occurs_in(
                e,
                "connection reset"@,
            ) || occurs_in(e, "connection refused"@) || occurs_in(e, "timed out"@) || occurs_in(
                e,
                "temporary failure"@,
            ) || occurs_in(e, "dns"@);
            let server = occurs_in(e, "504"@) || occurs_in(e, "503"@) || occurs_in(e, "502"@)
                || occurs_in(e, "Gateway Timeout"@) || occurs_in(e, "Service Unavailable"@)
                || occurs_in(e, "Bad Gateway"@);
            &&& expired ==> r == Some(TransientPollError::SessionExpired)
            &&& !expired && limited ==> r == Some(TransientPollError::RateLimited)
            &&& !expired && !limited && network ==> r == Some(TransientPollError::NetworkFailure)
            &&& !expired && !limited && !network && server ==> r == Some(
                TransientPollError::ServerUnavailable,
            )
            &&& !expired && !limited && !network && !server ==> r is None
            &&& transient_kind(e, l) == r
        }),
{
}

/// A passing failure is told in its own words for its own time, schedules the
/// next poll, and renews the session where that has expired. It changes nothing
/// else, and any other failure changes nothing at all.
pub proof fn law_what_a_passing_failure_does(
    state: &mut PlaybackState,
    out: &mut Outbox,
    error: &str,
    now: Moment,
    r: Option<(&'static str, u64)>,
)
    requires
        call_ensures(handle_transient_playback_poll_error, (state, out, error, now), r),
    ensures
        ({
            let kind = transient_kind(error@, unicode_lowered(error@));
            &&& kind is None ==> r is None && *final(state) == *old(state) && final(out)@
                == old(out)@
            &&& kind is Some ==> {
                &&& r is Some
                &&& *final(state) == (PlaybackState {
                    instant_since_last_current_playback_poll: now,
                    ..*old(state)
                })
            }
            &&& kind == Some(TransientPollError::SessionExpired) ==> {
                &&& (r->0).0@ == "Spotify session expired. Refreshing authentication automatically."@
                &&& (r->0).1 == 5
                &&& final(out)@ == old(out)@ + seq![
                    EffectView::Dispatch(IoEventView::RefreshAuthentication),
                ]
            }
            &&& kind == Some(TransientPollError::RateLimited) ==> {
                &&& (r->0).0@
                    == "Spotify rate limit hit. Retrying automatically; please wait a few seconds."@
                &&& (r->0).1 == 6
                &&& final(out)@ == old(out)@
            }
            &&& kind == Some(TransientPollError::NetworkFailure) ==> {
                &&& (r->0).0@
                    == "Temporary Spotify network error while polling playback; retrying automatically."@
                &&& (r->0).1 == 5
                &&& final(out)@ == old(out)@
            }
            &&& kind == Some(TransientPollError::ServerUnavailable) ==> {
                &&& (r->0).0@
                    == "Spotify server temporarily unavailable (5xx); retrying automatically."@
                &&& (r->0).1 == 10
                &&& final(out)@ == old(out)@
            }
        }),
{
}

/// Each passing failure has its own words and its own time.
pub proof fn law_how_passing_failures_are_told(kind: TransientPollError, r: (&'static str, u64))
    requires
        call_ensures(TransientPollError::message, (kind,), r),
    ensures
        kind == TransientPollError::SessionExpired ==> r.0@
            == "Spotify session expired. Refreshing authentication automatically."@ && r.1 == 5,
        kind == TransientPollError::RateLimited ==> r.0@
            == "Spotify rate limit hit. Retrying automatically; please wait a few seconds."@ && r.1
            == 6,
        kind == TransientPollError::NetworkFailure ==> r.0@
            == "Temporary Spotify network error while polling playback; retrying automatically."@
            && r.1 == 5,
        kind == TransientPollError::ServerUnavailable ==> r.0@
            == "Spotify server temporarily unavailable (5xx); retrying automatically."@ && r.1
            == 10,
{
}

} // verus!
