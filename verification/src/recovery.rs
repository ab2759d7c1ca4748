//! How often an idle native player is woken up.

use crate::time::Moment;
use vstd::prelude::*;

verus! {

/// How often an idle native player is woken up at most.
pub const MAX_NATIVE_IDLE_RECOVERY_ATTEMPTS: u8 = 2;

/// The nanoseconds that must pass between two attempts.
pub const NATIVE_IDLE_RECOVERY_RETRY_INTERVAL: u64 = 5_000_000_000;

/// How far the current idle episode has come.
#[derive(Clone, Copy, Debug, PartialEq, Eq, Structural)]
pub enum NativeIdleRecoveryPhase {
    /// Nothing was tried yet.
    Armed,
    Idle { attempts: u8, last_attempt: Moment },
}

/// Which native player is watched, and how far its idle episode has come.
#[derive(Clone, Copy, Debug, PartialEq, Eq, Structural)]
pub struct NativeIdleRecoveryState {
    pub player_instance: Option<usize>,
    pub phase: NativeIdleRecoveryPhase,
}

impl Default for NativeIdleRecoveryState {
    fn default() -> (r: Self)
        ensures
            r.player_instance is None,
            r.phase == NativeIdleRecoveryPhase::Armed,
    {
        NativeIdleRecoveryState { player_instance: None, phase: NativeIdleRecoveryPhase::Armed }
    }
}

impl NativeIdleRecoveryPhase {
    /// Whether an attempt may be made now: the first at any time, a further one
    /// while there are any left and enough time has passed.
    pub open spec fn grants(self, now: Moment) -> bool {
        match self {
            NativeIdleRecoveryPhase::Armed => true,
            NativeIdleRecoveryPhase::Idle { attempts, last_attempt } => {
                &&& attempts < MAX_NATIVE_IDLE_RECOVERY_ATTEMPTS
                &&& now.spec_nanos_since(last_attempt) >= NATIVE_IDLE_RECOVERY_RETRY_INTERVAL
            },
        }
    }

    /// The number of attempts that were made.
    pub open spec fn made(self) -> nat {
        match self {
            NativeIdleRecoveryPhase::Armed => 0,
            NativeIdleRecoveryPhase::Idle { attempts, .. } => attempts as nat,
        }
    }
}

impl NativeIdleRecoveryState {
    /// No more attempts are counted than may be made.
    pub open spec fn well_formed(self) -> bool {
        self.phase.made() <= MAX_NATIVE_IDLE_RECOVERY_ATTEMPTS
    }

    /// The state once a player was observed: a new player begins anew.
    pub open spec fn observing(self, player_instance: Option<usize>) -> Self {
        if self.player_instance == player_instance {
            self
        } else {
            NativeIdleRecoveryState { player_instance, phase: NativeIdleRecoveryPhase::Armed }
        }
    }

    /// The state once an attempt was asked for: one more is counted where it is
    /// granted.
    pub open spec fn attempting(self, now: Moment) -> Self {
        if self.phase.grants(now) {
            NativeIdleRecoveryState {
                phase: NativeIdleRecoveryPhase::Idle {
                    attempts: (self.phase.made() + 1) as u8,
                    last_attempt: now,
                },
                ..self
            }
        } else {
            self
        }
    }

    /// The state once the player was activated on purpose: no attempt is left.
    pub open spec fn settled(self, now: Moment) -> Self {
        NativeIdleRecoveryState {
            phase: NativeIdleRecoveryPhase::Idle {
                attempts: MAX_NATIVE_IDLE_RECOVERY_ATTEMPTS,
                last_attempt: now,
            },
            ..self
        }
    }

    /// Notes which player is there. A player other than the last one begins a
    /// new episode.
    pub fn observe_player_instance(&mut self, player_instance: Option<usize>)
        ensures
            *final(self) == old(self).observing(player_instance),
    {
        let same = match (self.player_instance, player_instance) {
            (Some(a), Some(b)) => a == b,
            (None, None) => true,
            _ => false,
        };
        if !same {
            self.player_instance = player_instance;
            self.phase = NativeIdleRecoveryPhase::Armed;
        }
    }

    /// Whether to wake the idle player up now, and counts the attempt if so.
    pub fn should_attempt_idle_recovery(&mut self, now: Moment) -> (r: bool)
        ensures
            r == old(self).phase.grants(now),
            *final(self) == old(self).attempting(now),
    {
        match self.phase {
            NativeIdleRecoveryPhase::Armed => {
                self.phase = NativeIdleRecoveryPhase::Idle { attempts: 1, last_attempt: now };
                true
            },
            NativeIdleRecoveryPhase::Idle { attempts, last_attempt } => {
                if attempts < MAX_NATIVE_IDLE_RECOVERY_ATTEMPTS && now.nanos_since(last_attempt)
                    >= NATIVE_IDLE_RECOVERY_RETRY_INTERVAL {
                    self.phase = NativeIdleRecoveryPhase::Idle {
                        attempts: attempts + 1,
                        last_attempt: now,
                    };
                    true
                } else {
                    false
                }
            },
        }
    }

    /// Ends the current episode: the player was activated on purpose.
    pub fn settle_current_episode(&mut self, now: Moment)
        ensures
            *final(self) == old(self).settled(now),
    {
        self.phase = NativeIdleRecoveryPhase::Idle {
            attempts: MAX_NATIVE_IDLE_RECOVERY_ATTEMPTS,
            last_attempt: now,
        };
    }
}

/// Something that happens to the recovery of an idle player.
pub enum RecoveryEvent {
    Observe(Option<usize>),
    Attempt(Moment),
    Settle(Moment),
}

/// The state once an event has happened.
pub open spec fn recovery_after(
    state: NativeIdleRecoveryState,
    event: RecoveryEvent,
) -> NativeIdleRecoveryState {
    match event {
        RecoveryEvent::Observe(player_instance) => state.observing(player_instance),
        RecoveryEvent::Attempt(now) => state.attempting(now),
        RecoveryEvent::Settle(now) => state.settled(now),
    }
}

/// When attempts are granted while a series of events happens.
pub open spec fn granted_attempts(
    state: NativeIdleRecoveryState,
    events: Seq<RecoveryEvent>,
) -> Seq<Moment>
    decreases events.len(),
{
    if events.len() == 0 {
        Seq::empty()
    } else {
        let rest = granted_attempts(recovery_after(state, events[0]), events.drop_first());
        match events[0] {
            RecoveryEvent::Attempt(now) => if state.phase.grants(now) {
                seq![now] + rest
            } else {
                rest
            },
            _ => rest,
        }
    }
}

/// Whether no event replaces the player.
pub open spec fn keeps_player(player_instance: Option<usize>, events: Seq<RecoveryEvent>) -> bool {
    forall|i: int|
        0 <= i < events.len() ==> (#[trigger] events[i] matches RecoveryEvent::Observe(observed)
            ==> observed == player_instance)
}

/// Every event keeps the state valid.
pub proof fn law_recovery_state_stays_valid(state: NativeIdleRecoveryState, event: RecoveryEvent)
    requires
        state.well_formed(),
    ensures
        recovery_after(state, event).well_formed(),
{
}

/// As long as the player is the same, it is woken up at most twice, whatever
/// else is observed in between.
pub proof fn law_idle_recovery_is_limited(
    state: NativeIdleRecoveryState,
    events: Seq<RecoveryEvent>,
)
    requires
        state.well_formed(),
        keeps_player(state.player_instance, events),
    ensures
        granted_attempts(state, events).len() + state.phase.made()
            <= MAX_NATIVE_IDLE_RECOVERY_ATTEMPTS,
    decreases events.len(),
{
    if events.len() > 0 {
        let next = recovery_after(state, events[0]);
        assert(keeps_player(next.player_instance, events.drop_first())) by {
            assert forall|i: int| 0 <= i < events.drop_first().len() implies (
            #[trigger] events.drop_first()[i] matches RecoveryEvent::Observe(observed)
                ==> observed == next.player_instance) by {
                assert(events.drop_first()[i] == events[i + 1]);
                assert(events[0] matches RecoveryEvent::Observe(observed) ==> observed
                    == state.player_instance);
            }
        }
        assert(events[0] matches RecoveryEvent::Observe(observed) ==> observed
            == state.player_instance);
        law_idle_recovery_is_limited(next, events.drop_first());
    }
}

/// As long as the player is the same, the retry interval passes between two
/// attempts to wake it up, and between an earlier attempt and the next one.
pub proof fn law_idle_recovery_is_spaced(
    state: NativeIdleRecoveryState,
    events: Seq<RecoveryEvent>,
)
    requires
        keeps_player(state.player_instance, events),
    ensures
        forall|i: int|
            0 < i < granted_attempts(state, events).len() ==> (#[trigger] granted_attempts(
                state,
                events,
            )[i]).spec_nanos_since(granted_attempts(state, events)[i - 1])
                >= NATIVE_IDLE_RECOVERY_RETRY_INTERVAL,
        granted_attempts(state, events).len() > 0 ==> (
        state.phase matches NativeIdleRecoveryPhase::Idle { attempts, last_attempt } ==> {
            &&& attempts < MAX_NATIVE_IDLE_RECOVERY_ATTEMPTS
            &&& granted_attempts(state, events)[0].spec_nanos_since(last_attempt)
                >= NATIVE_IDLE_RECOVERY_RETRY_INTERVAL
        }),
    decreases events.len(),
{
    if events.len() > 0 {
        let next = recovery_after(state, events[0]);
        assert(events[0] matches RecoveryEvent::Observe(observed) ==> observed
            == state.player_instance);
        assert(keeps_player(next.player_instance, events.drop_first())) by {
            assert forall|i: int| 0 <= i < events.drop_first().len() implies (
            #[trigger] events.drop_first()[i] matches RecoveryEvent::Observe(observed)
                ==> observed == next.player_instance) by {
                assert(events.drop_first()[i] == events[i + 1]);
            }
        }
        law_idle_recovery_is_spaced(next, events.drop_first());
        let rest = granted_attempts(next, events.drop_first());
        let all = granted_attempts(state, events);
        assert forall|i: int| 0 < i < all.len() implies (#[trigger] all[i]).spec_nanos_since(
            all[i - 1],
        ) >= NATIVE_IDLE_RECOVERY_RETRY_INTERVAL by {
            if all.len() == rest.len() + 1 {
                assert(all[i] == rest[i - 1]);
                if i > 1 {
                    assert(all[i - 1] == rest[i - 2]);
                }
            } else {
                assert(all == rest);
            }
        }
    }
}

/// Once the player was activated on purpose, it is not woken up again while it
/// stays; a new player may be woken up at once.
pub proof fn law_only_a_new_player_rearms(
    state: NativeIdleRecoveryState,
    activated: Moment,
    events: Seq<RecoveryEvent>,
    replacement: Option<usize>,
    now: Moment,
)
    requires
        keeps_player(state.player_instance, events),
        replacement != state.player_instance,
    ensures
        granted_attempts(state.settled(activated), events).len() == 0,
        state.settled(activated).observing(replacement).phase.grants(now),
{
    law_idle_recovery_is_limited(state.settled(activated), events);
}

/// The first attempt to wake a player up is granted at any time, a second one
/// once five seconds have passed since the first, and none after that. An
/// attempt that is granted is counted and dated; one that is not changes
/// nothing.
pub proof fn law_when_an_attempt_is_granted(
    now: Moment,
    recovery: &mut NativeIdleRecoveryState,
    r: bool,
)
    requires
        call_ensures(NativeIdleRecoveryState::should_attempt_idle_recovery, (recovery, now), r),
    ensures
        old(recovery).phase is Armed ==> r,
        old(recovery).phase matches NativeIdleRecoveryPhase::Idle { attempts, last_attempt } ==> {
            r <==> attempts < 2 && now.nanos - last_attempt.nanos >= 5_000_000_000
        },
        final(recovery).player_instance == old(recovery).player_instance,
        !r ==> *final(recovery) == *old(recovery),
        r && old(recovery).phase is Armed ==> final(recovery).phase
            == (NativeIdleRecoveryPhase::Idle { attempts: 1, last_attempt: now }),
        r ==> (old(recovery).phase matches NativeIdleRecoveryPhase::Idle { attempts, .. } ==> (
        final(recovery).phase matches NativeIdleRecoveryPhase::Idle {
            attempts: made,
            last_attempt,
        } && made == attempts + 1 && last_attempt == now)),
{
}

/// The player that was seen last is the one that counts. The same one again
/// leaves the episode as it is, another one begins anew.
pub proof fn law_another_player_begins_anew(
    seen: Option<usize>,
    recovery: &mut NativeIdleRecoveryState,
)
    requires
        call_ensures(NativeIdleRecoveryState::observe_player_instance, (recovery, seen), ()),
    ensures
        final(recovery).player_instance == seen,
        old(recovery).player_instance == seen ==> final(recovery).phase == old(recovery).phase,
        old(recovery).player_instance != seen ==> final(recovery).phase
            == NativeIdleRecoveryPhase::Armed,
{
}

/// After an activation on purpose no attempt is granted at any time, as long as
/// the player stays.
pub proof fn law_an_activation_on_purpose_ends_the_episode(
    activated: Moment,
    recovery: &mut NativeIdleRecoveryState,
    settled: &mut NativeIdleRecoveryState,
    later: Moment,
    r: bool,
)
    requires
        call_ensures(NativeIdleRecoveryState::settle_current_episode, (recovery, activated), ()),
        *old(settled) == *final(recovery),
        call_ensures(NativeIdleRecoveryState::should_attempt_idle_recovery, (settled, later), r),
    ensures
        !r,
        final(recovery).player_instance == old(recovery).player_instance,
        final(recovery).phase matches NativeIdleRecoveryPhase::Idle { last_attempt, .. }
            && last_attempt == activated,
{
}

/// What was not observed yet knows no player and has made no attempt.
pub proof fn law_recovery_begins_with_nothing_tried(r: NativeIdleRecoveryState)
    requires
        call_ensures(NativeIdleRecoveryState::default, (), r),
    ensures
        r.player_instance is None,
        r.phase.made() == 0,
        forall|now: Moment| #[trigger] r.phase.grants(now),
{
}

} // verus!
