//! How playback goes on after an item has ended or was interrupted.

use crate::effects::{
    optional_call, plain_call, query_call, ApiCall, ApiCallView, ApiMethod, Effect, EffectView,
    Outbox,
};
use crate::ids::{identity_of, spotify_item_identity, PlayContextId, PlayableId};
use crate::items::{playable_item_id, PlaybackContext};
use crate::poll::item_id;
use crate::start::PlaybackRequest;
use crate::state::{PlaybackEnv, PlaybackState};
use crate::text::same_text;
use crate::transport::unless_native;
use vstd::prelude::*;

verus! {

/// What follows an item of a list that plays natively.
#[derive(Debug, PartialEq, Eq)]
pub struct NextOfList {
    pub uris: Option<Vec<PlayableId>>,
    pub offset: Option<usize>,
}

/// What the program knows of native playback after an item has ended.
#[derive(Debug, PartialEq, Eq)]
pub struct NativeTransition {
    /// Whether another item plays already.
    pub advanced: bool,
    /// What follows in the list that plays.
    pub next: Option<NextOfList>,
    /// Whether the list that plays is at its end.
    pub exhausted: bool,
}

/// What comes next after an item has ended.
#[derive(Debug, PartialEq)]
pub enum ContinueNext {
    Done,
    /// The Web API is asked what plays.
    AskPlayback(ApiCall),
    /// Playback is started.
    Start(PlaybackRequest),
    /// The next item is gone to.
    NextTrack,
    /// The Web API is asked to go to the next item on the native device.
    AdvanceNative(ApiCall),
}

/// What comes next after an item has ended, requests by their contents.
pub enum ContinueNextView {
    Done,
    AskPlayback(ApiCallView),
    Start(PlaybackRequest),
    NextTrack,
    AdvanceNative(ApiCallView),
}

impl View for ContinueNext {
    type V = ContinueNextView;

    open spec fn view(&self) -> ContinueNextView {
        match *self {
            ContinueNext::Done => ContinueNextView::Done,
            ContinueNext::AskPlayback(call) => ContinueNextView::AskPlayback(call@),
            ContinueNext::Start(request) => ContinueNextView::Start(request),
            ContinueNext::NextTrack => ContinueNextView::NextTrack,
            ContinueNext::AdvanceNative(call) => ContinueNextView::AdvanceNative(call@),
        }
    }
}

/// The request that asks what plays.
pub open spec fn ask_playback() -> ApiCallView {
    plain_call(ApiMethod::Get, "me/player"@, None)
}

/// What comes next once the native transition is known: nothing where playback
/// went on by itself, else the next item of its list, else nothing where the
/// list is at its end.
pub open spec fn next_after_transition(transition: NativeTransition) -> ContinueNextView {
    if transition.advanced {
        ContinueNextView::Done
    } else if transition.next is Some {
        ContinueNextView::Start(
            PlaybackRequest {
                context: None,
                uris: transition.next->0.uris,
                offset: transition.next->0.offset,
            },
        )
    } else if transition.exhausted {
        ContinueNextView::Done
    } else {
        ContinueNextView::AskPlayback(ask_playback())
    }
}

/// Whether a list has come to its end, so that silence is what is wanted.
pub open spec fn ends_on_purpose(transition: NativeTransition) -> bool {
    !transition.advanced && transition.next is None && transition.exhausted
}

/// Goes on after an item of native playback has ended.
pub fn continue_after_transition(transition: NativeTransition, out: &mut Outbox) -> (r:
    ContinueNext)
    ensures
        r@ == next_after_transition(transition),
        final(out)@ == (if ends_on_purpose(transition) {
            old(out)@.push(EffectView::SetNativePlaybackIntent(false))
        } else {
            old(out)@
        }),
{
    if transition.advanced {
        return ContinueNext::Done;
    }
    if let Some(next) = transition.next {
        return ContinueNext::Start(
            PlaybackRequest { context: None, uris: next.uris, offset: next.offset },
        );
    }
    if transition.exhausted {
        out.push(Effect::SetNativePlaybackIntent(false));
        return ContinueNext::Done;
    }
    ContinueNext::AskPlayback(ApiCall::new(ApiMethod::Get, "me/player", None))
}

/// Whether playback stands at the start of the item that has ended.
pub open spec fn still_on_finished(
    ctx: PlaybackContext,
    previous_track_id: Seq<char>,
) -> bool {
    &&& item_id(ctx.item) is Some
    &&& identity_of(item_id(ctx.item)->0) == identity_of(previous_track_id)
    &&& match ctx.progress_ms {
        Some(progress) => progress == 0,
        None => true,
    }
}

/// What comes next once it is known what plays. Where playback still stands at
/// the item that has ended, the next one is gone to; where it stands at another
/// one, that one is played, so that none is skipped.
pub open spec fn next_after_playback(
    state: PlaybackState,
    native: bool,
    previous_track_id: Seq<char>,
    reply: Option<PlaybackContext>,
) -> ContinueNextView {
    if reply is None || reply->0.is_playing {
        ContinueNextView::Done
    } else if still_on_finished(reply->0, previous_track_id) {
        if native {
            match state.native_device_id {
                Some(device_id) => ContinueNextView::AdvanceNative(
                    query_call(
                        ApiMethod::Post,
                        "me/player/next"@,
                        "device_id"@,
                        device_id@,
                        None,
                    ),
                ),
                None => ContinueNextView::Done,
            }
        } else {
            ContinueNextView::NextTrack
        }
    } else if item_id(reply->0.item) is Some {
        ContinueNextView::Start(PlaybackRequest { context: None, uris: None, offset: None })
    } else {
        ContinueNextView::Done
    }
}

/// Whether native playback has stalled and the native device is not known.
pub open spec fn stalls_unknown(
    state: PlaybackState,
    native: bool,
    previous_track_id: Seq<char>,
    reply: Option<PlaybackContext>,
) -> bool {
    &&& native
    &&& reply is Some
    &&& !reply->0.is_playing
    &&& still_on_finished(reply->0, previous_track_id)
    &&& state.native_device_id is None
}

fn is_still_on_finished(ctx: &PlaybackContext, current_id: &Option<String>, previous: &str) -> (r:
    bool)
    requires
        crate::text::optional_text(*current_id) == item_id(ctx.item),
    ensures
        r == still_on_finished(*ctx, previous@),
{
    match current_id {
        Some(current) => {
            let at_start = match ctx.progress_ms {
                Some(progress) => progress == 0,
                None => true,
            };
            same_text(
                spotify_item_identity(current.as_str()),
                spotify_item_identity(previous),
            ) && at_start
        },
        None => false,
    }
}

impl PlaybackState {
    /// Begins to go on after an item has ended. Where the native player is the
    /// one that plays, what is known of its transition comes first; else the
    /// call to make is returned, which asks what plays.
    pub fn ensure_playback_continues(&self, env: &PlaybackEnv) -> (r: Option<ApiCall>)
        ensures
            optional_call(r) == unless_native(self.native_is_active(*env), ask_playback()),
    {
        if self.is_native_streaming_active_for_playback(env) {
            return None;
        }
        Some(ApiCall::new(ApiMethod::Get, "me/player", None))
    }

    /// Goes on after an item has ended, once it is known what plays. `native`
    /// tells whether the native player was the one that played.
    pub fn continue_after_playback(
        &self,
        native: bool,
        previous_track_id: &str,
        reply: Option<PlaybackContext>,
        out: &mut Outbox,
    ) -> (r: ContinueNext)
        ensures
            r@ == next_after_playback(*self, native, previous_track_id@, reply),
            final(out)@ == (if stalls_unknown(*self, native, previous_track_id@, reply) {
                old(out)@.push(EffectView::ForceNativeStreamingRecovery)
            } else {
                old(out)@
            }),
    {
        let ctx = match reply {
            Some(ctx) => ctx,
            None => {
                return ContinueNext::Done;
            },
        };
        if ctx.is_playing {
            return ContinueNext::Done;
        }
        let current_id = match &ctx.item {
            Some(item) => playable_item_id(item),
            None => None,
        };
        if is_still_on_finished(&ctx, &current_id, previous_track_id) {
            if !native {
                return ContinueNext::NextTrack;
            }
            return match &self.native_device_id {
                Some(device_id) => ContinueNext::AdvanceNative(
                    ApiCall::new(ApiMethod::Post, "me/player/next", None).with(
                        "device_id",
                        device_id.clone(),
                    ),
                ),
                None => {
                    out.push(Effect::ForceNativeStreamingRecovery);
                    ContinueNext::Done
                },
            };
        }
        if current_id.is_some() {
            return ContinueNext::Start(PlaybackRequest { context: None, uris: None, offset: None });
        }
        ContinueNext::Done
    }
}

/// Resumes a context that was interrupted, at the track given, or that track
/// on its own. Where neither is known, the queue is at its end.
pub fn resume_spotify_context(
    context: Option<PlayContextId>,
    track: Option<PlayableId>,
    out: &mut Outbox,
) -> (r: Option<PlaybackRequest>)
    ensures
        r is None <==> context is None && track is None,
        r matches Some(request) ==> {
            &&& request.context == context
            &&& request.offset is None
            &&& request.uris is Some <==> track is Some
            &&& track is Some ==> request.uris->0@ == seq![track->0]
        },
        final(out)@ == (if context is None && track is None {
            old(out)@.push(
                EffectView::SetStatusMessage { message: "Queue finished"@, ttl_secs: 3 },
            )
        } else {
            old(out)@
        }),
{
    match track {
        Some(track) => {
            let mut uris: Vec<PlayableId> = Vec::new();
            uris.push(track);
            assert(uris@ =~= seq![track]);
            Some(PlaybackRequest { context, uris: Some(uris), offset: None })
        },
        None => {
            if context.is_none() {
                out.status("Queue finished", 3);
                return None;
            }
            Some(PlaybackRequest { context, uris: None, offset: None })
        },
    }
}

/// Takes the answer to a request to go to the next item on the native device:
/// where it failed, the native player is recovered.
pub fn advance_answered(reply: Result<(), String>, out: &mut Outbox)
    ensures
        final(out)@ == (if reply is Ok {
            old(out)@
        } else {
            old(out)@.push(EffectView::ForceNativeStreamingRecovery)
        }),
{
    if reply.is_err() {
        out.push(Effect::ForceNativeStreamingRecovery);
    }
}

/// No item is skipped: where playback has come to another item than the one
/// that ended, or into that one, it is not told to go to the next.
pub proof fn law_no_item_is_skipped(
    state: PlaybackState,
    native: bool,
    previous_track_id: Seq<char>,
    ctx: PlaybackContext,
)
    requires
        !still_on_finished(ctx, previous_track_id),
    ensures
        ({
            let next = next_after_playback(state, native, previous_track_id, Some(ctx));
            &&& !(next is NextTrack)
            &&& !(next is AdvanceNative)
        }),
{
}

/// Where the native player is the one that plays, its transition is asked for
/// first; else the Web API is asked what plays.
pub proof fn law_what_is_asked_when_an_item_has_ended(
    state: PlaybackState,
    env: PlaybackEnv,
    native: bool,
    r: Option<ApiCall>,
)
    requires
        call_ensures(
            PlaybackState::is_native_streaming_active_for_playback,
            (&state, &env),
            native,
        ),
        call_ensures(PlaybackState::ensure_playback_continues, (&state, &env), r),
    ensures
        r is None <==> native,
        r is Some ==> r->0@ == (ApiCallView {
            method: ApiMethod::Get,
            path: "me/player"@,
            query: Seq::empty(),
            body: None,
        }),
{
}

/// Native playback that went on by itself is left alone. Else what follows in
/// its list is started, as it is known. Else a list at its end has stopped on
/// purpose, which is noted. Else the Web API is asked what plays.
pub proof fn law_what_follows_a_native_transition(
    transition: NativeTransition,
    out: &mut Outbox,
    r: ContinueNext,
)
    requires
        call_ensures(continue_after_transition, (transition, out), r),
    ensures
        transition.advanced ==> r@ is Done && final(out)@ == old(out)@,
        !transition.advanced ==> (transition.next matches Some(next) ==> {
            &&& r@ == ContinueNextView::Start(
                PlaybackRequest { context: None, uris: next.uris, offset: next.offset },
            )
            &&& final(out)@ == old(out)@
        }),
        !transition.advanced && transition.next is None && transition.exhausted ==> {
            &&& r@ is Done
            &&& final(out)@ == old(out)@ + seq![EffectView::SetNativePlaybackIntent(false)]
        },
        !transition.advanced && transition.next is None && !transition.exhausted ==> {
            &&& final(out)@ == old(out)@
            &&& r@ == ContinueNextView::AskPlayback(
                ApiCallView {
                    method: ApiMethod::Get,
                    path: "me/player"@,
                    query: Seq::empty(),
                    body: None,
                },
            )
        },
        r is Done <==> r@ is Done,
        r is Start <==> r@ is Start,
        r is AskPlayback <==> r@ is AskPlayback,
{
}

/// Playback that stands, at its beginning, at the item that has ended goes on to
/// the next item, be it a track or an episode: on the native device where that
/// played and is known, by recovering the player where it played and its device
/// is not known, and by a step forward else.
pub proof fn law_a_finished_item_is_left(
    state: PlaybackState,
    native: bool,
    previous: &str,
    ctx: PlaybackContext,
    current: Seq<char>,
    out: &mut Outbox,
    r: ContinueNext,
)
    requires
        call_ensures(
            PlaybackState::continue_after_playback,
            (&state, native, previous, Some(ctx), out),
            r,
        ),
        !ctx.is_playing,
        ctx.progress_ms is None || ctx.progress_ms == Some(0i64),
        ctx.item matches Some(item) && match item {
            crate::items::PlayableItem::Track { id, .. } => id is Some && id->0@ == current,
            crate::items::PlayableItem::Episode { id, .. } => id@ == current,
            crate::items::PlayableItem::Unknown => false,
        },
        identity_of(current) == identity_of(previous@),
    ensures
        !native ==> r@ is NextTrack && final(out)@ == old(out)@,
        native && state.native_device_id is Some ==> {
            &&& final(out)@ == old(out)@
            &&& r@ == ContinueNextView::AdvanceNative(
                ApiCallView {
                    method: ApiMethod::Post,
                    path: "me/player/next"@,
                    query: seq![("device_id"@, state.native_device_id->0@)],
                    body: None,
                },
            )
        },
        native && state.native_device_id is None ==> r@ is Done && final(out)@ == old(out)@ + seq![
            EffectView::ForceNativeStreamingRecovery,
        ],
        r is NextTrack <==> r@ is NextTrack,
{
    if native && state.native_device_id is Some {
        assert(Seq::<(Seq<char>, Seq<char>)>::empty().push(
            ("device_id"@, state.native_device_id->0@),
        ) =~= seq![("device_id"@, state.native_device_id->0@)]);
    }
}

/// Playback that stands at another item, or inside the one that has ended, is
/// resumed as it is, so that nothing is skipped. Where it plays, where there is
/// no item with an identifier, or where nothing is known, nothing is done.
pub proof fn law_playback_elsewhere_is_resumed(
    state: PlaybackState,
    native: bool,
    previous: &str,
    reply: Option<PlaybackContext>,
    out: &mut Outbox,
    r: ContinueNext,
)
    requires
        call_ensures(
            PlaybackState::continue_after_playback,
            (&state, native, previous, reply, out),
            r,
        ),
    ensures
        reply is None ==> r@ is Done && final(out)@ == old(out)@,
        reply matches Some(ctx) ==> {
            let id = match ctx.item {
                Some(crate::items::PlayableItem::Track { id: Some(id), .. }) => Some(id@),
                Some(crate::items::PlayableItem::Episode { id, .. }) => Some(id@),
                _ => None,
            };
            let elsewhere = id is Some && (identity_of(id->0) != identity_of(previous@) || (
            ctx.progress_ms is Some && ctx.progress_ms->0 != 0));
            &&& ctx.is_playing ==> r@ is Done && final(out)@ == old(out)@
            &&& id is None ==> r@ is Done && final(out)@ == old(out)@
            &&& !ctx.is_playing && elsewhere ==> {
                &&& final(out)@ == old(out)@
                &&& r@ == ContinueNextView::Start(
                    PlaybackRequest { context: None, uris: None, offset: None },
                )
            }
        },
{
}

/// A context that was interrupted resumes at the track that is given, the
/// context alone where no track is, and the track alone where no context is.
/// Where neither is known, the queue is finished, which is told for three
/// seconds.
pub proof fn law_what_resuming_a_context_starts(
    context: Option<PlayContextId>,
    track: Option<PlayableId>,
    out: &mut Outbox,
    r: Option<PlaybackRequest>,
)
    requires
        call_ensures(resume_spotify_context, (context, track, out), r),
    ensures
        context is None && track is None ==> {
            &&& r is None
            &&& final(out)@ == old(out)@ + seq![
                EffectView::SetStatusMessage { message: "Queue finished"@, ttl_secs: 3 },
            ]
        },
        context is Some || track is Some ==> {
            &&& r is Some
            &&& final(out)@ == old(out)@
            &&& r->0.context == context
            &&& r->0.offset is None
            &&& track is None ==> r->0.uris is None
            &&& track is Some ==> r->0.uris is Some && r->0.uris->0@ == seq![track->0]
        },
{
}

/// A step forward on the native device that failed has the player recovered; one
/// that was accepted asks for nothing.
pub proof fn law_what_the_answer_to_an_advance_does(reply: Result<(), String>, out: &mut Outbox)
    requires
        call_ensures(advance_answered, (reply, out), ()),
    ensures
        reply is Ok ==> final(out)@ == old(out)@,
        reply is Err ==> final(out)@ == old(out)@ + seq![EffectView::ForceNativeStreamingRecovery],
{
}

/// What comes next after an item has ended is read as it is.
pub proof fn law_what_comes_next_is_read_as_it_is(next: ContinueNext)
    ensures
        next is Done ==> next@ is Done,
        next is NextTrack ==> next@ is NextTrack,
        next matches ContinueNext::AskPlayback(call) ==> next@ == ContinueNextView::AskPlayback(
            call@,
        ),
        next matches ContinueNext::Start(request) ==> next@ == ContinueNextView::Start(request),
        next matches ContinueNext::AdvanceNative(call) ==> next@
            == ContinueNextView::AdvanceNative(call@),
{
}

/// Whatever item has ended, a track or an episode: where playback stands at it,
/// at its beginning, the next item is gone to.
pub proof fn law_a_finished_item_is_followed(
    state: PlaybackState,
    native: bool,
    previous: Seq<char>,
    ctx: PlaybackContext,
    id: String,
    name: String,
)
    requires
        !ctx.is_playing,
        ctx.progress_ms is None || ctx.progress_ms == Some(0i64),
        ctx.item == Some(crate::items::PlayableItem::Track { id: Some(id), name }) || ctx.item
            == Some(crate::items::PlayableItem::Episode { id, name }),
        identity_of(id@) == identity_of(previous),
    ensures
        !native ==> next_after_playback(state, native, previous, Some(ctx)) is NextTrack,
        native && state.native_device_id is Some ==> next_after_playback(
            state,
            native,
            previous,
            Some(ctx),
        ) is AdvanceNative,
{
}

} // verus!
