//! Which device a command goes to, and which device is remembered.

use crate::items::Device;
use crate::text::same_text;
use vstd::prelude::*;

verus! {

/// The characters of an optional string slice.
pub open spec fn chars(text: Option<&str>) -> Option<Seq<char>> {
    match text {
        Some(t) => Some(t@),
        None => None,
    }
}

/// What decides whether playback activates the native player.
#[derive(Clone, Copy, Debug, PartialEq, Eq, Structural)]
pub struct NativeActivationContext {
    pub player_connected: bool,
    pub current_device_id_present: bool,
    pub current_device_is_confirmed_native: bool,
    pub current_device_name_matches_native: bool,
    pub native_has_fresh_activity: bool,
    pub saved_device_matches_native: bool,
    pub saved_external_confirmed_available: bool,
}

impl Default for NativeActivationContext {
    fn default() -> (r: Self)
        ensures
            r == (NativeActivationContext {
                player_connected: false,
                current_device_id_present: false,
                current_device_is_confirmed_native: false,
                current_device_name_matches_native: false,
                native_has_fresh_activity: false,
                saved_device_matches_native: false,
                saved_external_confirmed_available: false,
            }),
    {
        NativeActivationContext {
            player_connected: false,
            current_device_id_present: false,
            current_device_is_confirmed_native: false,
            current_device_name_matches_native: false,
            native_has_fresh_activity: false,
            saved_device_matches_native: false,
            saved_external_confirmed_available: false,
        }
    }
}

impl NativeActivationContext {
    /// Whether Spotify plays on a device that is not the native one. A device
    /// that only bears the native name, without fresh activity of the native
    /// player, is a leftover of it.
    pub open spec fn external_in_use(self) -> bool {
        &&& self.current_device_id_present
        &&& !self.current_device_is_confirmed_native
        &&& !(self.current_device_name_matches_native && !self.native_has_fresh_activity)
    }

    /// Whether playback activates the native player: it is connected, no other
    /// device is in use, and no other device that was saved is available.
    pub open spec fn activates(self) -> bool {
        &&& self.player_connected
        &&& !self.external_in_use()
        &&& self.saved_device_matches_native || !self.saved_external_confirmed_available
    }
}

/// Whether playback activates the native player.
pub fn should_activate_native_for_playback(context: NativeActivationContext) -> (r: bool)
    ensures
        r == context.activates(),
{
    if !context.player_connected {
        return false;
    }
    let stale_native_name = context.current_device_name_matches_native
        && !context.native_has_fresh_activity;
    let usable_external = context.current_device_id_present
        && !context.current_device_is_confirmed_native && !stale_native_name;
    if usable_external {
        return false;
    }
    if context.saved_device_matches_native {
        return true;
    }
    !context.saved_external_confirmed_available
}

/// What becomes of the saved device when the native player is used.
#[derive(Clone, Copy, Debug, PartialEq, Eq, Structural)]
pub enum NativeDevicePreferenceUpdate {
    Persist,
    KeepExistingPreference,
}

/// Whether the native device is saved: on request, where none is saved, or
/// where the saved one is the native one.
pub open spec fn persists(
    saved_device_id: Option<Seq<char>>,
    explicit_persist: bool,
    saved_device_matches_native: bool,
) -> bool {
    explicit_persist || saved_device_id is None || saved_device_matches_native
}

/// What becomes of the saved device when the native player is used: it gives
/// way on request, where none is saved, or where it is the native one.
pub fn native_device_preference_update(
    saved_device_id: Option<&str>,
    explicit_persist: bool,
    saved_device_matches_native: bool,
) -> (r: NativeDevicePreferenceUpdate)
    ensures
        r == (if persists(chars(saved_device_id), explicit_persist, saved_device_matches_native) {
            NativeDevicePreferenceUpdate::Persist
        } else {
            NativeDevicePreferenceUpdate::KeepExistingPreference
        }),
{
    if explicit_persist || saved_device_id.is_none() || saved_device_matches_native {
        NativeDevicePreferenceUpdate::Persist
    } else {
        NativeDevicePreferenceUpdate::KeepExistingPreference
    }
}

/// What becomes of the saved device when the native player is idle; nothing
/// where another device was saved.
pub fn native_idle_device_preference_update(
    saved_device_id: Option<&str>,
    saved_device_matches_native: bool,
) -> (r: Option<NativeDevicePreferenceUpdate>)
    ensures
        r == (if persists(chars(saved_device_id), false, saved_device_matches_native) {
            Some(NativeDevicePreferenceUpdate::Persist)
        } else {
            None
        }),
{
    match native_device_preference_update(saved_device_id, false, saved_device_matches_native) {
        NativeDevicePreferenceUpdate::Persist => Some(NativeDevicePreferenceUpdate::Persist),
        NativeDevicePreferenceUpdate::KeepExistingPreference => None,
    }
}

/// The devices that Spotify lists.
#[derive(Debug, PartialEq, Eq)]
pub struct DevicePayload {
    pub devices: Vec<Device>,
}

/// Whether a list holds a device with an identifier and a name, ASCII case
/// aside.
pub open spec fn lists_named(devices: Seq<Device>, id: Seq<char>, name: Seq<char>) -> bool {
    exists|i: int|
        0 <= i < devices.len() && (#[trigger] devices[i]).spec_has_id(id)
            && devices[i].spec_is_named(name)
}

/// Whether a list holds a device with an identifier and another name, ASCII
/// case aside.
pub open spec fn lists_other(devices: Seq<Device>, id: Seq<char>, name: Seq<char>) -> bool {
    exists|i: int|
        0 <= i < devices.len() && (#[trigger] devices[i]).spec_has_id(id)
            && !devices[i].spec_is_named(name)
}

/// Whether a list holds a device with an identifier.
pub open spec fn lists_id(devices: Seq<Device>, id: Seq<char>) -> bool {
    exists|i: int| 0 <= i < devices.len() && (#[trigger] devices[i]).spec_has_id(id)
}

/// Whether a list holds a device with a name, ASCII case aside.
pub open spec fn lists_name(devices: Seq<Device>, name: Seq<char>) -> bool {
    exists|i: int| 0 <= i < devices.len() && (#[trigger] devices[i]).spec_is_named(name)
}

impl DevicePayload {
    /// Whether the list holds a device with an identifier and a name.
    pub fn lists_named(&self, id: &str, name: &str) -> (r: bool)
        ensures
            r == lists_named(self.devices@, id@, name@),
    {
        for i in 0..self.devices.len()
            invariant
                forall|j: int|
                    0 <= j < i ==> !((#[trigger] self.devices@[j]).spec_has_id(id@)
                        && self.devices@[j].spec_is_named(name@)),
        {
            if self.devices[i].has_id(id) && self.devices[i].is_named(name) {
                return true;
            }
        }
        false
    }

    /// Whether the list holds a device with an identifier and another name.
    pub fn lists_other(&self, id: &str, name: &str) -> (r: bool)
        ensures
            r == lists_other(self.devices@, id@, name@),
    {
        for i in 0..self.devices.len()
            invariant
                forall|j: int|
                    0 <= j < i ==> !((#[trigger] self.devices@[j]).spec_has_id(id@)
                        && !self.devices@[j].spec_is_named(name@)),
        {
            if self.devices[i].has_id(id) && !self.devices[i].is_named(name) {
                return true;
            }
        }
        false
    }

    /// Whether the list holds a device with a name.
    pub fn lists_name(&self, name: &str) -> (r: bool)
        ensures
            r == lists_name(self.devices@, name@),
    {
        for i in 0..self.devices.len()
            invariant
                forall|j: int| 0 <= j < i ==> !(#[trigger] self.devices@[j]).spec_is_named(name@),
        {
            if self.devices[i].is_named(name) {
                return true;
            }
        }
        false
    }
}

/// Whether Spotify lists a device with the identifier of the native one. The
/// name alone does not count: it may be that of a player long gone.
pub fn spotify_payload_confirms_native_device(payload: &DevicePayload, native_device_id: &str) -> (r:
    bool)
    ensures
        r == lists_id(payload.devices@, native_device_id@),
{
    for i in 0..payload.devices.len()
        invariant
            forall|j: int|
                0 <= j < i ==> !(#[trigger] payload.devices@[j]).spec_has_id(native_device_id@),
    {
        if payload.devices[i].has_id(native_device_id) {
            return true;
        }
    }
    false
}

/// Whether the saved device is the native one: it has its identifier, or it is
/// listed under its name.
pub open spec fn saved_is_native(
    saved_device_id: Option<Seq<char>>,
    native_device_id: Option<Seq<char>>,
    devices: Option<DevicePayload>,
    native_device_name: Seq<char>,
) -> bool {
    &&& saved_device_id is Some
    &&& {
        ||| native_device_id == saved_device_id
        ||| devices is Some && lists_named(
            devices->0.devices@,
            saved_device_id->0,
            native_device_name,
        )
    }
}

/// Whether the saved device is the native one: it has its identifier, or it is
/// listed under its name.
pub fn saved_device_matches_native_player(
    saved_device_id: Option<&str>,
    native_device_id: Option<&str>,
    devices: &Option<DevicePayload>,
    native_device_name: &str,
) -> (r: bool)
    ensures
        r == saved_is_native(
            chars(saved_device_id),
            chars(native_device_id),
            *devices,
            native_device_name@,
        ),
{
    match saved_device_id {
        Some(saved) => {
            if let Some(native) = native_device_id {
                if same_text(native, saved) {
                    return true;
                }
            }
            match devices {
                Some(payload) => payload.lists_named(saved, native_device_name),
                None => false,
            }
        },
        None => false,
    }
}

/// What decides whether an item of the Web API is older than what the native
/// player plays.
#[derive(Clone, Copy, Debug, PartialEq, Eq, Structural)]
pub struct StaleApiItemContext {
    pub native_info_present: bool,
    pub api_item_present: bool,
    pub api_confirms_native_info: bool,
    pub native_track_id_present: bool,
    pub api_item_matches_native_track: bool,
    pub native_streaming_was_active: bool,
    pub native_activation_pending: bool,
    pub api_device_is_native: bool,
}

impl StaleApiItemContext {
    /// Whether the native player is or was in charge of playback.
    pub open spec fn native_in_charge(self) -> bool {
        self.native_streaming_was_active || self.native_activation_pending
            || self.api_device_is_native
    }

    /// Whether the item of the Web API is another one than the native player
    /// plays, as far as that is known.
    pub open spec fn contradicts_native(self) -> bool {
        &&& self.api_item_present
        &&& !self.api_confirms_native_info
        &&& self.native_info_present || (self.native_track_id_present
            && !self.api_item_matches_native_track)
    }
}

/// Whether the item of the Web API is stale, so that what the native player
/// plays stays: it contradicts the native player, which is in charge.
pub fn stale_api_item_should_preserve_native_context(context: StaleApiItemContext) -> (r: bool)
    ensures
        r == (context.contradicts_native() && context.native_in_charge()),
{
    context.api_item_present && !context.api_confirms_native_info && (context.native_info_present
        || (context.native_track_id_present && !context.api_item_matches_native_track)) && (
    context.native_streaming_was_active || context.native_activation_pending
        || context.api_device_is_native)
}

/// Whether the item of the Web API is stale where no native player is built in:
/// another player tells of its track, and the item does not confirm it.
pub fn stale_without_native_player(
    native_info_present: bool,
    api_item_present: bool,
    api_confirms_native_info: bool,
) -> (r: bool)
    ensures
        r == (native_info_present && api_item_present && !api_confirms_native_info),
{
    native_info_present && api_item_present && !api_confirms_native_info
}

/// Playback activates the native player only where that is connected; never
/// while another device is in use, that is one with an identifier which is
/// neither confirmed as native nor a leftover that bears the native name; and
/// never against another saved device that is available. In every other case
/// it does.
pub proof fn law_when_the_native_player_is_activated(context: NativeActivationContext, r: bool)
    requires
        call_ensures(should_activate_native_for_playback, (context,), r),
    ensures
        !context.player_connected ==> !r,
        context.current_device_id_present && !context.current_device_is_confirmed_native
            && !context.current_device_name_matches_native ==> !r,
        context.current_device_id_present && !context.current_device_is_confirmed_native
            && context.native_has_fresh_activity ==> !r,
        context.saved_external_confirmed_available && !context.saved_device_matches_native ==> !r,
        context.player_connected && (!context.current_device_id_present
            || context.current_device_is_confirmed_native || (
        context.current_device_name_matches_native && !context.native_has_fresh_activity)) && (
        context.saved_device_matches_native || !context.saved_external_confirmed_available) ==> r,
        context.activates() == r,
{
}

/// The native device is saved on request, where none was saved, and where the
/// saved one is native; in no other case does it replace a saved one. An idle
/// player is offered under the same terms, but never on request.
pub proof fn law_when_the_native_device_is_saved(
    saved: Option<&str>,
    explicit: bool,
    matches_native: bool,
    r: NativeDevicePreferenceUpdate,
    idle: Option<NativeDevicePreferenceUpdate>,
)
    requires
        call_ensures(native_device_preference_update, (saved, explicit, matches_native), r),
        call_ensures(native_idle_device_preference_update, (saved, matches_native), idle),
    ensures
        explicit ==> r == NativeDevicePreferenceUpdate::Persist,
        saved is None ==> r == NativeDevicePreferenceUpdate::Persist,
        matches_native ==> r == NativeDevicePreferenceUpdate::Persist,
        !explicit && saved is Some && !matches_native ==> r
            == NativeDevicePreferenceUpdate::KeepExistingPreference,
        saved is None || matches_native ==> idle == Some(NativeDevicePreferenceUpdate::Persist),
        saved is Some && !matches_native ==> idle is None,
{
}

/// A list of devices is searched as a whole: a device more in it is found where
/// it fits, and takes no other one away. A list without devices holds none.
pub proof fn law_every_device_of_a_list_counts(
    devices: Seq<Device>,
    device: Device,
    id: Seq<char>,
    name: Seq<char>,
)
    ensures
        !lists_named(Seq::empty(), id, name),
        !lists_other(Seq::empty(), id, name),
        !lists_id(Seq::empty(), id),
        !lists_name(Seq::empty(), name),
        lists_named(devices.push(device), id, name) <==> lists_named(devices, id, name) || (
        device.spec_has_id(id) && device.spec_is_named(name)),
        lists_other(devices.push(device), id, name) <==> lists_other(devices, id, name) || (
        device.spec_has_id(id) && !device.spec_is_named(name)),
        lists_id(devices.push(device), id) <==> lists_id(devices, id) || device.spec_has_id(id),
        lists_name(devices.push(device), name) <==> lists_name(devices, name)
            || device.spec_is_named(name),
{
    let more = devices.push(device);
    assert(more[devices.len() as int] == device);
    assert forall|i: int| 0 <= i < devices.len() implies #[trigger] devices[i] == more[i] by {}
    if lists_named(devices, id, name) {
        let i = choose|i: int|
            0 <= i < devices.len() && (#[trigger] devices[i]).spec_has_id(id)
                && devices[i].spec_is_named(name);
        assert(more[i] == devices[i]);
    }
    if lists_other(devices, id, name) {
        let i = choose|i: int|
            0 <= i < devices.len() && (#[trigger] devices[i]).spec_has_id(id)
                && !devices[i].spec_is_named(name);
        assert(more[i] == devices[i]);
    }
    if lists_id(devices, id) {
        let i = choose|i: int|
            0 <= i < devices.len() && (#[trigger] devices[i]).spec_has_id(id);
        assert(more[i] == devices[i]);
    }
    if lists_name(devices, name) {
        let i = choose|i: int|
            0 <= i < devices.len() && (#[trigger] devices[i]).spec_is_named(name);
        assert(more[i] == devices[i]);
    }
}

/// What is asked of a list of devices is answered from its devices, the first
/// to the last.
pub proof fn law_a_list_of_devices_is_searched(
    payload: DevicePayload,
    id: &str,
    name: &str,
    i: int,
    named: bool,
    other: bool,
    by_id: bool,
    by_name: bool,
)
    requires
        call_ensures(DevicePayload::lists_named, (&payload, id, name), named),
        call_ensures(DevicePayload::lists_other, (&payload, id, name), other),
        call_ensures(spotify_payload_confirms_native_device, (&payload, id), by_id),
        call_ensures(DevicePayload::lists_name, (&payload, name), by_name),
        0 <= i < payload.devices@.len(),
    ensures
        payload.devices@[i].spec_has_id(id@) ==> by_id,
        payload.devices@[i].spec_is_named(name@) ==> by_name,
        payload.devices@[i].spec_has_id(id@) && payload.devices@[i].spec_is_named(name@) ==> named,
        payload.devices@[i].spec_has_id(id@) && !payload.devices@[i].spec_is_named(name@) ==> other,
        by_id == lists_id(payload.devices@, id@),
        by_name == lists_name(payload.devices@, name@),
        named == lists_named(payload.devices@, id@, name@),
        other == lists_other(payload.devices@, id@, name@),
        by_id == (named || other),
{
    if lists_id(payload.devices@, id@) {
        let k = choose|k: int|
            0 <= k < payload.devices@.len() && (#[trigger] payload.devices@[k]).spec_has_id(id@);
        assert(payload.devices@[k].spec_is_named(name@) ==> named);
    }
    if named {
        let k = choose|k: int|
            0 <= k < payload.devices@.len() && (#[trigger] payload.devices@[k]).spec_has_id(id@)
                && payload.devices@[k].spec_is_named(name@);
        assert(payload.devices@[k].spec_has_id(id@));
    }
    if other {
        let k = choose|k: int|
            0 <= k < payload.devices@.len() && (#[trigger] payload.devices@[k]).spec_has_id(id@)
                && !payload.devices@[k].spec_is_named(name@);
        assert(payload.devices@[k].spec_has_id(id@));
    }
}

/// The saved device is the native one exactly where it has the native
/// identifier, or is listed under the native name. Where none is saved, it is
/// not.
pub proof fn law_when_the_saved_device_is_native(
    saved: Option<&str>,
    native: Option<&str>,
    devices: Option<DevicePayload>,
    name: &str,
    r: bool,
)
    requires
        call_ensures(saved_device_matches_native_player, (saved, native, &devices, name), r),
    ensures
        saved is None ==> !r,
        saved is Some && native is Some && saved->0@ == native->0@ ==> r,
        saved is Some && devices is Some && lists_named(devices->0.devices@, saved->0@, name@)
            ==> r,
        saved is Some && (native is None || native->0@ != saved->0@) && (devices is None
            || !lists_named(devices->0.devices@, saved->0@, name@)) ==> !r,
{
}

/// A report is stale only where it has an item which does not confirm the native
/// track, and only while the native player is active, about to be, or the device
/// of the report. The item must contradict something: what the native player
/// says of its track, or the last known track.
pub proof fn law_when_a_report_is_stale(context: StaleApiItemContext, r: bool)
    requires
        call_ensures(stale_api_item_should_preserve_native_context, (context,), r),
    ensures
        !context.api_item_present ==> !r,
        context.api_confirms_native_info ==> !r,
        !context.native_streaming_was_active && !context.native_activation_pending
            && !context.api_device_is_native ==> !r,
        !context.native_info_present && !context.native_track_id_present ==> !r,
        !context.native_info_present && context.api_item_matches_native_track ==> !r,
        context.api_item_present && !context.api_confirms_native_info && (
        context.native_info_present || (context.native_track_id_present
            && !context.api_item_matches_native_track)) && (context.native_streaming_was_active
            || context.native_activation_pending || context.api_device_is_native) ==> r,
        r == (context.contradicts_native() && context.native_in_charge()),
{
}

/// Without a native player built in, a report is stale exactly where another
/// player tells of its track and the report has an item which does not confirm
/// it.
pub proof fn law_when_a_report_is_stale_without_native_player(
    native_info_present: bool,
    api_item_present: bool,
    confirms: bool,
    r: bool,
)
    requires
        call_ensures(
            stale_without_native_player,
            (native_info_present, api_item_present, confirms),
            r,
        ),
    ensures
        !native_info_present || !api_item_present || confirms ==> !r,
        native_info_present && api_item_present && !confirms ==> r,
{
}

/// Of nothing that decides on the native player is anything known by default.
pub proof fn law_nothing_is_known_by_default(r: NativeActivationContext)
    requires
        call_ensures(NativeActivationContext::default, (), r),
    ensures
        !r.player_connected,
        !r.current_device_id_present,
        !r.current_device_is_confirmed_native,
        !r.current_device_name_matches_native,
        !r.native_has_fresh_activity,
        !r.saved_device_matches_native,
        !r.saved_external_confirmed_available,
{
}

} // verus!
