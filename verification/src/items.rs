//! What the Web API reports: devices, items and the playback in progress.

use crate::text::{eq_ignore_ascii_case, optional_text, same_ignoring_ascii_case, same_text};
use vstd::prelude::*;

verus! {

/// Whether playback repeats.
#[derive(Clone, Copy, Debug, PartialEq, Eq, Structural)]
pub enum RepeatState {
    Off,
    Track,
    Context,
}

/// The name of a repeat state in a query.
pub open spec fn repeat_name(state: RepeatState) -> Seq<char> {
    match state {
        RepeatState::Off => "off"@,
        RepeatState::Track => "track"@,
        RepeatState::Context => "context"@,
    }
}

/// Converts `rspotify`'s `RepeatState` into a string slice: the variant's name
/// in lower case.
#[verifier::external_body]
pub(crate) fn repeat_text(state: RepeatState) -> (r: &'static str)
    ensures
        r@ == repeat_name(state),
{
    match state {
        RepeatState::Off => rspotify::model::RepeatState::Off.into(),
        RepeatState::Track => rspotify::model::RepeatState::Track.into(),
        RepeatState::Context => rspotify::model::RepeatState::Context.into(),
    }
}

/// A device that Spotify can play on.
#[derive(Debug, PartialEq, Eq)]
pub struct Device {
    pub id: Option<String>,
    pub name: String,
    pub volume_percent: Option<u32>,
}

impl Device {
    /// Whether the device has the identifier `id`.
    pub open spec fn spec_has_id(self, id: Seq<char>) -> bool {
        optional_text(self.id) == Some(id)
    }

    /// Whether the device has the name `name`, ASCII case aside.
    pub open spec fn spec_is_named(self, name: Seq<char>) -> bool {
        same_ignoring_ascii_case(self.name@, name)
    }

    /// Whether the device has the identifier `id`.
    pub fn has_id(&self, id: &str) -> (r: bool)
        ensures
            r == self.spec_has_id(id@),
    {
        match &self.id {
            Some(own) => same_text(own.as_str(), id),
            None => false,
        }
    }

    /// Whether the device has the name `name`, ASCII case aside.
    pub fn is_named(&self, name: &str) -> (r: bool)
        ensures
            r == self.spec_is_named(name@),
    {
        eq_ignore_ascii_case(self.name.as_str(), name)
    }
}

/// An item that plays: a track, an episode, or something that is neither.
#[derive(Debug, PartialEq, Eq)]
#[allow(inconsistent_fields)]
pub enum PlayableItem {
    /// A track. Local files have no identifier.
    Track { id: Option<String>, name: String },
    Episode { id: String, name: String },
    Unknown,
}

impl PlayableItem {
    /// The identifier of the item, where it has one.
    pub open spec fn spec_id(self) -> Option<Seq<char>> {
        match self {
            PlayableItem::Track { id, .. } => optional_text(id),
            PlayableItem::Episode { id, .. } => Some(id@),
            PlayableItem::Unknown => None,
        }
    }

    /// The name of the item, where it has one.
    pub open spec fn spec_name(self) -> Option<Seq<char>> {
        match self {
            PlayableItem::Track { name, .. } => Some(name@),
            PlayableItem::Episode { name, .. } => Some(name@),
            PlayableItem::Unknown => None,
        }
    }
}

/// The identifier of an item, where it has one.
pub fn playable_item_id(item: &PlayableItem) -> (r: Option<String>)
    ensures
        optional_text(r) == item.spec_id(),
{
    match item {
        PlayableItem::Track { id, .. } => id.clone(),
        PlayableItem::Episode { id, .. } => Some(id.clone()),
        PlayableItem::Unknown => None,
    }
}

/// The name of an item, where it has one.
pub fn playable_item_name(item: &PlayableItem) -> (r: Option<&str>)
    ensures
        r is Some <==> item.spec_name() is Some,
        r matches Some(name) ==> item.spec_name() == Some(name@),
{
    match item {
        PlayableItem::Track { name, .. } => Some(name.as_str()),
        PlayableItem::Episode { name, .. } => Some(name.as_str()),
        PlayableItem::Unknown => None,
    }
}

/// Whether an item is the one that the native player reports: it has the
/// native name, or its identifier is that of the last known track.
pub open spec fn confirms_native(
    native_name: Seq<char>,
    item: PlayableItem,
    last_track_id: Option<Seq<char>>,
) -> bool {
    ||| item.spec_name() == Some(native_name)
    ||| item.spec_id() is Some && item.spec_id() == last_track_id
}

/// Whether the Web API reports the item that the native player reports: by its
/// name, or by the identifier of the last known track.
pub fn api_confirms_native_info_is_current(
    native_name: &str,
    item: &PlayableItem,
    last_track_id: Option<&str>,
) -> (r: bool)
    ensures
        r == confirms_native(
            native_name@,
            *item,
            match last_track_id {
                Some(id) => Some(id@),
                None => None,
            },
        ),
{
    if let Some(name) = playable_item_name(item) {
        if same_text(name, native_name) {
            return true;
        }
    }
    match (playable_item_id(item), last_track_id) {
        (Some(api_id), Some(last)) => same_text(api_id.as_str(), last),
        _ => false,
    }
}

/// The playback in progress, as far as the rules of playback read it.
#[derive(Debug, PartialEq, Eq)]
pub struct PlaybackContext {
    pub device: Device,
    pub shuffle_state: bool,
    pub repeat_state: RepeatState,
    pub is_playing: bool,
    pub item: Option<PlayableItem>,
    /// Whether playback runs through an album, a playlist or the like.
    pub has_context: bool,
    pub progress_ms: Option<i64>,
}

/// The repeat states are named `off`, `track` and `context`.
pub proof fn law_repeat_states_have_names()
    ensures
        repeat_name(RepeatState::Off) == "off"@,
        repeat_name(RepeatState::Track) == "track"@,
        repeat_name(RepeatState::Context) == "context"@,
{
}

/// A device has an identifier exactly where it has one and that has the same
/// characters; it has a name exactly where only the case of ASCII letters
/// differs.
pub proof fn law_a_device_is_known_by_identifier_and_name(
    device: Device,
    id: &str,
    name: &str,
    has_id: bool,
    is_named: bool,
)
    requires
        call_ensures(Device::has_id, (&device, id), has_id),
        call_ensures(Device::is_named, (&device, name), is_named),
    ensures
        device.id is None ==> !has_id,
        device.id is Some ==> has_id == (device.id->0@ == id@),
        is_named == same_ignoring_ascii_case(device.name@, name@),
        device.spec_has_id(id@) == has_id,
        device.spec_is_named(name@) == is_named,
{
}

/// Tracks and episodes have their own identifier and name, local tracks have a
/// name only, and what is neither has none of the two.
pub proof fn law_an_item_has_its_identifier_and_name(
    item: PlayableItem,
    id: Option<String>,
    name: Option<&str>,
)
    requires
        call_ensures(playable_item_id, (&item,), id),
        call_ensures(playable_item_name, (&item,), name),
    ensures
        item matches PlayableItem::Track { id: own, name: title } ==> {
            &&& id is Some <==> own is Some
            &&& own is Some ==> id->0@ == own->0@
            &&& name is Some && name->0@ == title@
        },
        item matches PlayableItem::Episode { id: own, name: title } ==> {
            &&& id is Some && id->0@ == own@
            &&& name is Some && name->0@ == title@
        },
        item is Unknown ==> id is None && name is None,
{
}

/// The Web API confirms what the native player reports exactly where the item
/// has the native name, or has an identifier and that is the last known one.
pub proof fn law_an_item_confirms_by_name_or_identifier(
    native_name: &str,
    item: PlayableItem,
    last_track_id: Option<&str>,
    r: bool,
)
    requires
        call_ensures(api_confirms_native_info_is_current, (native_name, &item, last_track_id), r),
    ensures
        item matches PlayableItem::Track { id, name } ==> (r <==> {
            ||| name@ == native_name@
            ||| id is Some && last_track_id is Some && id->0@ == last_track_id->0@
        }),
        item matches PlayableItem::Episode { id, name } ==> (r <==> {
            ||| name@ == native_name@
            ||| last_track_id is Some && id@ == last_track_id->0@
        }),
        item is Unknown ==> !r,
{
}

} // verus!
