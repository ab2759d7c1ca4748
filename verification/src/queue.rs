//! The queue of what plays next.

use crate::effects::{
    plain_call, query_call, ApiCall, ApiMethod, Effect, EffectView, Outbox, PluginDataKind,
};
use crate::ids::PlayableId;
use crate::state::PlaybackState;
use crate::text::optional_text;
use crate::time::{Moment, NANOS_PER_SEC};
use vstd::prelude::*;

verus! {

/// For how many seconds a message on the queue is shown.
pub const QUEUE_MESSAGE_SECS: u32 = 3;

/// What plays, and what plays next.
#[derive(Debug, PartialEq, Eq)]
pub struct QueueState<T> {
    pub currently_playing: Option<T>,
    pub queue: Vec<T>,
}

/// The items of a list that are there, in their order.
pub open spec fn present<T>(items: Seq<Option<T>>) -> Seq<T>
    decreases items.len(),
{
    if items.len() == 0 {
        Seq::empty()
    } else {
        match items.last() {
            Some(item) => present(items.drop_last()).push(item),
            None => present(items.drop_last()),
        }
    }
}

/// The items of a list that are there, in their order.
fn collect_present<T>(items: Vec<Option<T>>) -> (r: Vec<T>)
    ensures
        r@ == present(items@),
{
    let mut rest = items;
    let mut reversed: Vec<T> = Vec::new();
    assert(reversed@.reverse() =~= Seq::<T>::empty());
    assert(present(rest@) + reversed@.reverse() =~= present(items@));
    while rest.len() > 0
        invariant
            present(rest@) + reversed@.reverse() == present(items@),
        decreases rest.len(),
    {
        let ghost before = rest@;
        let ghost found = reversed@;
        if let Some(last) = rest.pop() {
            assert(rest@ =~= before.drop_last());
            if let Some(item) = last {
                reversed.push(item);
                assert(reversed@.reverse() =~= seq![item] + found.reverse());
                assert(present(rest@) + reversed@.reverse() =~= present(before) + found.reverse());
            }
        }
    }
    let mut collected: Vec<T> = Vec::new();
    assert(collected@ + reversed@.reverse() =~= present(items@));
    while reversed.len() > 0
        invariant
            collected@ + reversed@.reverse() == present(items@),
        decreases reversed.len(),
    {
        let ghost before = reversed@;
        let ghost found = collected@;
        if let Some(item) = reversed.pop() {
            assert(before.reverse() =~= seq![item] + reversed@.reverse());
            collected.push(item);
            assert(collected@ + reversed@.reverse() =~= found + before.reverse());
        }
    }
    assert(collected@ =~= present(items@));
    collected
}

impl PlaybackState {
    /// Whether this is the state `before` with a message on the queue, which
    /// was set at `now`.
    pub open spec fn has_queue_message(
        self,
        before: Self,
        message: Seq<char>,
        now: Moment,
    ) -> bool {
        &&& optional_text(self.status_message) == Some(message)
        &&& self == PlaybackState {
            status_message: self.status_message,
            status_message_expires_at: Some(
                Moment { nanos: (now.nanos + 3_000_000_000) as i64 },
            ),
            ..before
        }
    }

    fn tell_of_queue(&mut self, message: &str, now: Moment)
        requires
            now.nanos + QUEUE_MESSAGE_SECS * NANOS_PER_SEC <= i64::MAX,
        ensures
            final(self).has_queue_message(*old(self), message@, now),
    {
        self.status_message = Some(message.to_string());
        self.status_message_expires_at = Some(now.after(QUEUE_MESSAGE_SECS));
    }

    /// Takes the answer to a request to add an item to the queue.
    pub fn item_queued(&mut self, now: Moment, reply: Result<(), String>, out: &mut Outbox)
        requires
            reply is Ok ==> now.nanos + QUEUE_MESSAGE_SECS * NANOS_PER_SEC <= i64::MAX,
        ensures
            reply is Ok ==> final(self).has_queue_message(*old(self), "Added to queue"@, now),
            reply is Err ==> *final(self) == *old(self),
            final(out)@ == (match reply {
                Ok(_) => old(out)@,
                Err(error) => old(out)@.push(EffectView::HandleError(error@)),
            }),
    {
        match reply {
            Ok(_) => {
                self.tell_of_queue("Added to queue", now);
            },
            Err(error) => {
                out.error(error.as_str());
            },
        }
    }

    /// Takes the answer to a request for the queue, each item as far as it could
    /// be read. Returns the queue to show: none where the request failed. Those
    /// who wait for the queue are told in either case.
    pub fn queue_answered<T>(
        &mut self,
        now: Moment,
        reply: Result<(Option<T>, Vec<Option<T>>), String>,
        out: &mut Outbox,
    ) -> (r: Option<QueueState<T>>)
        requires
            reply is Err ==> now.nanos + QUEUE_MESSAGE_SECS * NANOS_PER_SEC <= i64::MAX,
        ensures
            r is Some <==> reply is Ok,
            r matches Some(shown) ==> {
                &&& shown.currently_playing == reply->Ok_0.0
                &&& shown.queue@ == present(reply->Ok_0.1@)
            },
            reply is Ok ==> *final(self) == *old(self),
            reply is Err ==> final(self).has_queue_message(
                *old(self),
                "Could not load queue (no active device?)"@,
                now,
            ),
            final(out)@ == old(out)@.push(EffectView::BumpPluginData(PluginDataKind::Queue)),
    {
        out.push(Effect::BumpPluginData(PluginDataKind::Queue));
        match reply {
            Ok((currently_playing, items)) => Some(
                QueueState { currently_playing, queue: collect_present(items) },
            ),
            Err(_) => {
                self.tell_of_queue("Could not load queue (no active device?)", now);
                None
            },
        }
    }
}

/// The request to add an item to the queue.
pub fn add_item_to_queue(item: &PlayableId) -> (r: ApiCall)
    ensures
        r@ == query_call(ApiMethod::Post, "me/player/queue"@, "uri"@, item.spec_uri(), None),
{
    ApiCall::new(ApiMethod::Post, "me/player/queue", None).with("uri", item.uri())
}

/// The request for the queue.
pub fn get_queue() -> (r: ApiCall)
    ensures
        r@ == plain_call(ApiMethod::Get, "me/player/queue"@, None),
{
    ApiCall::new(ApiMethod::Get, "me/player/queue", None)
}

/// An item more in a queue is shown behind the others where it could be read,
/// and is left out where not; nothing else is.
pub proof fn law_what_could_be_read_is_shown_in_order<T>(items: Seq<Option<T>>, item: Option<T>)
    ensures
        present(Seq::<Option<T>>::empty()).len() == 0,
        item is Some ==> present(items.push(item)) == present(items) + seq![item->0],
        item is None ==> present(items.push(item)) == present(items),
{
    assert(items.push(item).drop_last() =~= items);
}

/// A queue that was answered shows what plays and what could be read of the
/// rest; one that was refused shows nothing and is told of for three seconds.
/// Those who wait are told in either case, and nothing else changes.
pub proof fn law_what_the_answer_for_the_queue_does<T>(
    state: &mut PlaybackState,
    now: Moment,
    reply: Result<(Option<T>, Vec<Option<T>>), String>,
    out: &mut Outbox,
    r: Option<QueueState<T>>,
)
    requires
        now.nanos + 3_000_000_000 <= i64::MAX,
        call_ensures(PlaybackState::queue_answered::<T>, (state, now, reply, out), r),
    ensures
        final(out)@ == old(out)@ + seq![EffectView::BumpPluginData(PluginDataKind::Queue)],
        reply is Err ==> {
            &&& r is None
            &&& final(state).status_message is Some
            &&& final(state).status_message->0@ == "Could not load queue (no active device?)"@
            &&& final(state).status_message_expires_at is Some
            &&& final(state).status_message_expires_at->0.nanos == now.nanos + 3_000_000_000
            &&& (PlaybackState {
                status_message: old(state).status_message,
                status_message_expires_at: old(state).status_message_expires_at,
                ..*final(state)
            }) == *old(state)
        },
        reply is Ok ==> {
            &&& *final(state) == *old(state)
            &&& r is Some
            &&& r->0.currently_playing == (reply->Ok_0).0
            &&& r->0.queue@ == present((reply->Ok_0).1@)
        },
{
}

/// An item is queued by its URI. Once it is, the user is told for three seconds;
/// a refusal is shown as an error.
pub proof fn law_what_queueing_does(
    item: PlayableId,
    call: ApiCall,
    queue: ApiCall,
    state: &mut PlaybackState,
    now: Moment,
    reply: Result<(), String>,
    out: &mut Outbox,
)
    requires
        call_ensures(add_item_to_queue, (&item,), call),
        call_ensures(get_queue, (), queue),
        now.nanos + 3_000_000_000 <= i64::MAX,
        call_ensures(PlaybackState::item_queued, (state, now, reply, out), ()),
    ensures
        call@.method == ApiMethod::Post,
        call@.path == "me/player/queue"@,
        call@.query == seq![("uri"@, item.spec_uri())],
        call@.body is None,
        queue@.method == ApiMethod::Get,
        queue@.path == "me/player/queue"@,
        queue@.query.len() == 0,
        queue@.body is None,
        reply is Ok ==> {
            &&& final(out)@ == old(out)@
            &&& final(state).status_message is Some
            &&& final(state).status_message->0@ == "Added to queue"@
            &&& final(state).status_message_expires_at is Some
            &&& final(state).status_message_expires_at->0.nanos == now.nanos + 3_000_000_000
            &&& (PlaybackState {
                status_message: old(state).status_message,
                status_message_expires_at: old(state).status_message_expires_at,
                ..*final(state)
            }) == *old(state)
        },
        reply matches Err(error) ==> {
            &&& *final(state) == *old(state)
            &&& final(out)@ == old(out)@ + seq![EffectView::HandleError(error@)]
        },
{
    assert(call@.query =~= seq![("uri"@, item.spec_uri())]);
}

} // verus!
