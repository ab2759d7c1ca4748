//! Spotify identifiers and their URIs.

use crate::text::rsplit_once_colon;
use rspotify::model::{AlbumId, ArtistId, EpisodeId, PlaylistId, ShowId, TrackId};
use rspotify::prelude::Id;
use vstd::prelude::*;

verus! {

/// Whether a character may stand in an identifier: an ASCII letter or digit.
pub open spec fn id_char(c: char) -> bool {
    ||| '0' <= c && c <= '9'
    ||| 'A' <= c && c <= 'Z'
    ||| 'a' <= c && c <= 'z'
}

/// Whether a text is an identifier: ASCII letters and digits only.
pub open spec fn valid_id(id: Seq<char>) -> bool {
    forall|i: int| 0 <= i < id.len() ==> id_char(#[trigger] id[i])
}

/// The URI of the thing of a kind with an identifier, `spotify:kind:id`.
pub open spec fn spotify_uri(kind: Seq<char>, id: Seq<char>) -> Seq<char> {
    "spotify:"@ + kind + ":"@ + id
}

/// Calls `TrackId::from_id` and `Id::uri` of `rspotify`: identifiers of ASCII
/// letters and digits are accepted, and their URI is `spotify:track:id`.
#[verifier::external_body]
fn track_uri(id: &str) -> (r: Option<String>)
    ensures
        r is Some <==> valid_id(id@),
        r matches Some(uri) ==> uri@ == spotify_uri("track"@, id@),
{
    match TrackId::from_id(id) {
        Ok(track) => Some(track.uri()),
        Err(_) => None,
    }
}

/// Calls `EpisodeId::from_id` and `Id::uri` of `rspotify`: identifiers of ASCII
/// letters and digits are accepted, and their URI is `spotify:episode:id`.
#[verifier::external_body]
fn episode_uri(id: &str) -> (r: Option<String>)
    ensures
        r is Some <==> valid_id(id@),
        r matches Some(uri) ==> uri@ == spotify_uri("episode"@, id@),
{
    match EpisodeId::from_id(id) {
        Ok(episode) => Some(episode.uri()),
        Err(_) => None,
    }
}

/// Calls `ArtistId::from_id` and `Id::uri` of `rspotify`: identifiers of ASCII
/// letters and digits are accepted, and their URI is `spotify:artist:id`.
#[verifier::external_body]
fn artist_uri(id: &str) -> (r: Option<String>)
    ensures
        r is Some <==> valid_id(id@),
        r matches Some(uri) ==> uri@ == spotify_uri("artist"@, id@),
{
    match ArtistId::from_id(id) {
        Ok(artist) => Some(artist.uri()),
        Err(_) => None,
    }
}

/// Calls `AlbumId::from_id` and `Id::uri` of `rspotify`: identifiers of ASCII
/// letters and digits are accepted, and their URI is `spotify:album:id`.
#[verifier::external_body]
fn album_uri(id: &str) -> (r: Option<String>)
    ensures
        r is Some <==> valid_id(id@),
        r matches Some(uri) ==> uri@ == spotify_uri("album"@, id@),
{
    match AlbumId::from_id(id) {
        Ok(album) => Some(album.uri()),
        Err(_) => None,
    }
}

/// Calls `PlaylistId::from_id` and `Id::uri` of `rspotify`: identifiers of
/// ASCII letters and digits are accepted, and their URI is
/// `spotify:playlist:id`.
#[verifier::external_body]
fn playlist_uri(id: &str) -> (r: Option<String>)
    ensures
        r is Some <==> valid_id(id@),
        r matches Some(uri) ==> uri@ == spotify_uri("playlist"@, id@),
{
    match PlaylistId::from_id(id) {
        Ok(playlist) => Some(playlist.uri()),
        Err(_) => None,
    }
}

/// Calls `ShowId::from_id` and `Id::uri` of `rspotify`: identifiers of ASCII
/// letters and digits are accepted, and their URI is `spotify:show:id`.
#[verifier::external_body]
fn show_uri(id: &str) -> (r: Option<String>)
    ensures
        r is Some <==> valid_id(id@),
        r matches Some(uri) ==> uri@ == spotify_uri("show"@, id@),
{
    match ShowId::from_id(id) {
        Ok(show) => Some(show.uri()),
        Err(_) => None,
    }
}

/// The kinds of things that play on their own.
#[derive(Clone, Copy, Debug, PartialEq, Eq, Structural)]
pub enum PlayableKind {
    Track,
    Episode,
}

impl PlayableKind {
    /// The name of the kind in a URI.
    pub open spec fn name(self) -> Seq<char> {
        match self {
            PlayableKind::Track => "track"@,
            PlayableKind::Episode => "episode"@,
        }
    }

    /// The URI of the thing of this kind with the identifier `id`; nothing
    /// where `id` is not an identifier.
    fn uri_of(self, id: &str) -> (r: Option<String>)
        ensures
            r is Some <==> valid_id(id@),
            r matches Some(uri) ==> uri@ == spotify_uri(self.name(), id@),
    {
        match self {
            PlayableKind::Track => track_uri(id),
            PlayableKind::Episode => episode_uri(id),
        }
    }
}

/// The kinds of things that hold what plays in an order of their own.
#[derive(Clone, Copy, Debug, PartialEq, Eq, Structural)]
pub enum ContextKind {
    Artist,
    Album,
    Playlist,
    Show,
}

impl ContextKind {
    /// The name of the kind in a URI.
    pub open spec fn name(self) -> Seq<char> {
        match self {
            ContextKind::Artist => "artist"@,
            ContextKind::Album => "album"@,
            ContextKind::Playlist => "playlist"@,
            ContextKind::Show => "show"@,
        }
    }

    /// The URI of the thing of this kind with the identifier `id`; nothing
    /// where `id` is not an identifier.
    fn uri_of(self, id: &str) -> (r: Option<String>)
        ensures
            r is Some <==> valid_id(id@),
            r matches Some(uri) ==> uri@ == spotify_uri(self.name(), id@),
    {
        match self {
            ContextKind::Artist => artist_uri(id),
            ContextKind::Album => album_uri(id),
            ContextKind::Playlist => playlist_uri(id),
            ContextKind::Show => show_uri(id),
        }
    }
}

/// A track or an episode, by its identifier.
#[derive(Debug, PartialEq, Eq)]
pub struct PlayableId {
    kind: PlayableKind,
    id: String,
}

impl PlayableId {
    #[verifier::type_invariant]
    closed spec fn well_formed(self) -> bool {
        valid_id(self.id@)
    }

    /// Whether this is a track or an episode.
    pub closed spec fn spec_kind(self) -> PlayableKind {
        self.kind
    }

    /// The characters of the identifier.
    pub closed spec fn spec_id(self) -> Seq<char> {
        self.id@
    }

    /// The characters of the URI.
    pub open spec fn spec_uri(self) -> Seq<char> {
        spotify_uri(self.spec_kind().name(), self.spec_id())
    }

    /// The thing of a kind with the identifier `id`; nothing where `id` holds
    /// anything but ASCII letters and digits.
    pub fn from_id(kind: PlayableKind, id: &str) -> (r: Option<PlayableId>)
        ensures
            r is Some <==> valid_id(id@),
            r matches Some(playable) ==> playable.spec_kind() == kind && playable.spec_id() == id@,
    {
        match kind.uri_of(id) {
            Some(_) => Some(PlayableId { kind, id: id.to_string() }),
            None => None,
        }
    }

    /// The identifier.
    pub fn id(&self) -> (r: &str)
        ensures
            r@ == self.spec_id(),
            valid_id(r@),
    {
        proof {
            use_type_invariant(self);
        }
        self.id.as_str()
    }

    /// The URI, `spotify:kind:id`.
    pub fn uri(&self) -> (r: String)
        ensures
            r@ == self.spec_uri(),
    {
        proof {
            use_type_invariant(self);
        }
        self.kind.uri_of(self.id.as_str()).unwrap()
    }
}

impl Clone for PlayableId {
    fn clone(&self) -> (r: Self)
        ensures
            r == *self,
    {
        proof {
            use_type_invariant(self);
        }
        PlayableId { kind: self.kind, id: self.id.clone() }
    }
}

/// An artist, an album, a playlist or a show, by its identifier.
#[derive(Debug, PartialEq, Eq)]
pub struct PlayContextId {
    kind: ContextKind,
    id: String,
}

impl PlayContextId {
    #[verifier::type_invariant]
    closed spec fn well_formed(self) -> bool {
        valid_id(self.id@)
    }

    /// What kind of context this is.
    pub closed spec fn spec_kind(self) -> ContextKind {
        self.kind
    }

    /// The characters of the identifier.
    pub closed spec fn spec_id(self) -> Seq<char> {
        self.id@
    }

    /// The characters of the URI.
    pub open spec fn spec_uri(self) -> Seq<char> {
        spotify_uri(self.spec_kind().name(), self.spec_id())
    }

    /// The context of a kind with the identifier `id`; nothing where `id`
    /// holds anything but ASCII letters and digits.
    pub fn from_id(kind: ContextKind, id: &str) -> (r: Option<PlayContextId>)
        ensures
            r is Some <==> valid_id(id@),
            r matches Some(context) ==> context.spec_kind() == kind && context.spec_id() == id@,
    {
        match kind.uri_of(id) {
            Some(_) => Some(PlayContextId { kind, id: id.to_string() }),
            None => None,
        }
    }

    /// The URI, `spotify:kind:id`.
    pub fn uri(&self) -> (r: String)
        ensures
            r@ == self.spec_uri(),
    {
        proof {
            use_type_invariant(self);
        }
        self.kind.uri_of(self.id.as_str()).unwrap()
    }
}

impl Clone for PlayContextId {
    fn clone(&self) -> (r: Self)
        ensures
            r == *self,
    {
        proof {
            use_type_invariant(self);
        }
        PlayContextId { kind: self.kind, id: self.id.clone() }
    }
}

/// The URIs of a list, in its order.
pub open spec fn uris_of(list: Seq<PlayableId>) -> Seq<Seq<char>> {
    list.map_values(|playable: PlayableId| playable.spec_uri())
}

/// The URIs of an optional list, in its order.
pub open spec fn optional_uris_of(list: Option<Vec<PlayableId>>) -> Option<Seq<Seq<char>>> {
    match list {
        Some(l) => Some(uris_of(l@)),
        None => None,
    }
}

/// The URI of an optional context.
pub open spec fn optional_uri_of(context: Option<PlayContextId>) -> Option<Seq<char>> {
    match context {
        Some(c) => Some(c.spec_uri()),
        None => None,
    }
}

/// The URIs of a list, in its order.
pub fn playable_uris(list: &[PlayableId]) -> (r: Vec<String>)
    ensures
        crate::text::texts(r@) == uris_of(list@),
{
    let mut uris: Vec<String> = Vec::new();
    for i in 0..list.len()
        invariant
            uris.len() == i,
            forall|j: int| 0 <= j < i ==> (#[trigger] uris@[j])@ == list@[j].spec_uri(),
    {
        uris.push(list[i].uri());
    }
    assert(crate::text::texts(uris@) =~= uris_of(list@));
    uris
}

/// The URIs of an optional list, in its order.
pub fn optional_playable_uris(list: &Option<Vec<PlayableId>>) -> (r: Option<Vec<String>>)
    ensures
        crate::text::optional_texts(r) == optional_uris_of(*list),
{
    match list {
        Some(l) => Some(playable_uris(l.as_slice())),
        None => None,
    }
}

/// The URI of an optional context.
pub fn optional_context_uri(context: &Option<PlayContextId>) -> (r: Option<String>)
    ensures
        crate::text::optional_text(r) == optional_uri_of(*context),
{
    match context {
        Some(c) => Some(c.uri()),
        None => None,
    }
}

/// The part of a text behind its last colon, or all of it where it has none.
pub open spec fn identity_of(value: Seq<char>) -> Seq<char>
    decreases value.len(),
{
    if value.len() == 0 || value.last() == ':' {
        Seq::empty()
    } else {
        identity_of(value.drop_last()).push(value.last())
    }
}

proof fn lemma_identity_without_colon(value: Seq<char>)
    requires
        !value.contains(':'),
    ensures
        identity_of(value) == value,
    decreases value.len(),
{
    if value.len() > 0 {
        assert(value.contains(value.last()));
        assert forall|i: int| 0 <= i < value.drop_last().len() implies value.drop_last()[i]
            != ':' by {
            assert(value.contains(value[i]));
        }
        lemma_identity_without_colon(value.drop_last());
        assert(value.drop_last().push(value.last()) =~= value);
    }
}

proof fn lemma_identity_behind_colon(before: Seq<char>, after: Seq<char>)
    requires
        !after.contains(':'),
    ensures
        identity_of(before.push(':') + after) == after,
    decreases after.len(),
{
    let value = before.push(':') + after;
    if after.len() == 0 {
        assert(value =~= before.push(':'));
    } else {
        assert(after.contains(after.last()));
        assert(value.drop_last() =~= before.push(':') + after.drop_last());
        assert forall|i: int| 0 <= i < after.drop_last().len() implies after.drop_last()[i]
            != ':' by {
            assert(after.contains(after[i]));
        }
        lemma_identity_behind_colon(before, after.drop_last());
        assert(after.drop_last().push(after.last()) =~= after);
    }
}

/// What tells one item from another in an identifier or a URI: the part behind
/// the last colon.
pub fn spotify_item_identity(value: &str) -> (r: &str)
    ensures
        r@ == identity_of(value@),
{
    match rsplit_once_colon(value) {
        Some((before, after)) => {
            proof {
                lemma_identity_behind_colon(before@, after@);
            }
            after
        },
        None => {
            proof {
                lemma_identity_without_colon(value@);
            }
            value
        },
    }
}

/// An item has the same identity whether it is given by its identifier or by
/// its URI.
pub proof fn law_uri_and_id_have_one_identity(kind: Seq<char>, id: Seq<char>)
    requires
        valid_id(id),
    ensures
        identity_of(spotify_uri(kind, id)) == id,
        identity_of(id) == id,
{
    reveal_strlit(":");
    assert(!id.contains(':')) by {
        if id.contains(':') {
            let i = choose|i: int| 0 <= i < id.len() && id[i] == ':';
            assert(id_char(id[i]));
        }
    }
    lemma_identity_without_colon(id);
    lemma_identity_behind_colon("spotify:"@ + kind, id);
    assert(("spotify:"@ + kind).push(':') + id =~= spotify_uri(kind, id));
}

/// A track or an episode is made from every identifier of ASCII letters and
/// digits, and from no other; its identifier is the one that was given, and its
/// URI is `spotify:`, the kind, a colon and that identifier.
pub proof fn law_a_playable_has_its_uri(
    kind: PlayableKind,
    given: &str,
    made: Option<PlayableId>,
    id: &str,
    uri: String,
)
    requires
        call_ensures(PlayableId::from_id, (kind, given), made),
        made is Some ==> call_ensures(PlayableId::id, (&made->0,), id),
        made is Some ==> call_ensures(PlayableId::uri, (&made->0,), uri),
    ensures
        made is Some <==> forall|i: int|
            0 <= i < given@.len() ==> {
                let c = #[trigger] given@[i] as int;
                48 <= c <= 57 || 65 <= c <= 90 || 97 <= c <= 122
            },
        made is Some ==> id@ == given@,
        made is Some && kind == PlayableKind::Track ==> uri@ == "spotify:track:"@ + given@,
        made is Some && kind == PlayableKind::Episode ==> uri@ == "spotify:episode:"@ + given@,
{
    reveal_strlit("spotify:");
    reveal_strlit(":");
    reveal_strlit("track");
    reveal_strlit("episode");
    reveal_strlit("spotify:track:");
    reveal_strlit("spotify:episode:");
    if valid_id(given@) {
        assert forall|i: int| 0 <= i < given@.len() implies {
            let c = #[trigger] given@[i] as int;
            48 <= c <= 57 || 65 <= c <= 90 || 97 <= c <= 122
        } by {
            assert(id_char(given@[i]));
        }
    }
    if made is Some {
        assert("spotify:"@ + "track"@ + ":"@ =~= "spotify:track:"@);
        assert("spotify:"@ + "episode"@ + ":"@ =~= "spotify:episode:"@);
    }
}

/// A context is made from every identifier of ASCII letters and digits, and from
/// no other; its URI is `spotify:`, the kind, a colon and that identifier.
pub proof fn law_a_context_has_its_uri(
    kind: ContextKind,
    given: &str,
    made: Option<PlayContextId>,
    uri: String,
)
    requires
        call_ensures(PlayContextId::from_id, (kind, given), made),
        made is Some ==> call_ensures(PlayContextId::uri, (&made->0,), uri),
    ensures
        made is Some <==> forall|i: int|
            0 <= i < given@.len() ==> {
                let c = #[trigger] given@[i] as int;
                48 <= c <= 57 || 65 <= c <= 90 || 97 <= c <= 122
            },
        made is Some && kind == ContextKind::Artist ==> uri@ == "spotify:artist:"@ + given@,
        made is Some && kind == ContextKind::Album ==> uri@ == "spotify:album:"@ + given@,
        made is Some && kind == ContextKind::Playlist ==> uri@ == "spotify:playlist:"@ + given@,
        made is Some && kind == ContextKind::Show ==> uri@ == "spotify:show:"@ + given@,
{
    reveal_strlit("spotify:");
    reveal_strlit(":");
    reveal_strlit("artist");
    reveal_strlit("album");
    reveal_strlit("playlist");
    reveal_strlit("show");
    reveal_strlit("spotify:artist:");
    reveal_strlit("spotify:album:");
    reveal_strlit("spotify:playlist:");
    reveal_strlit("spotify:show:");
    if valid_id(given@) {
        assert forall|i: int| 0 <= i < given@.len() implies {
            let c = #[trigger] given@[i] as int;
            48 <= c <= 57 || 65 <= c <= 90 || 97 <= c <= 122
        } by {
            assert(id_char(given@[i]));
        }
    }
    if made is Some {
        assert("spotify:"@ + "artist"@ + ":"@ =~= "spotify:artist:"@);
        assert("spotify:"@ + "album"@ + ":"@ =~= "spotify:album:"@);
        assert("spotify:"@ + "playlist"@ + ":"@ =~= "spotify:playlist:"@);
        assert("spotify:"@ + "show"@ + ":"@ =~= "spotify:show:"@);
    }
}

/// The URIs of a list are the URIs of its items, one for one and in order.
pub proof fn law_the_uris_of_a_list(
    list: &[PlayableId],
    uris: Vec<String>,
    i: int,
    uri: String,
)
    requires
        call_ensures(playable_uris, (list,), uris),
        0 <= i < list@.len(),
        call_ensures(PlayableId::uri, (&list@[i],), uri),
    ensures
        uris@.len() == list@.len(),
        uris@[i]@ == uri@,
{
    assert(crate::text::texts(uris@).len() == uris@.len());
    assert(crate::text::texts(uris@)[i] == uris@[i]@);
}

/// Optional lists and contexts have URIs exactly where they are there, namely
/// their own.
pub proof fn law_the_uris_of_what_is_there(
    list: Option<Vec<PlayableId>>,
    uris: Option<Vec<String>>,
    context: Option<PlayContextId>,
    uri: Option<String>,
)
    requires
        call_ensures(optional_playable_uris, (&list,), uris),
        call_ensures(optional_context_uri, (&context,), uri),
    ensures
        uris is Some <==> list is Some,
        list is Some ==> uris->0@.len() == list->0@.len(),
        forall|i: int|
            list is Some && 0 <= i < list->0@.len() ==> (#[trigger] uris->0@[i])@
                == list->0@[i].spec_uri(),
        uri is Some <==> context is Some,
        context is Some ==> uri->0@ == context->0.spec_uri(),
{
    if list is Some {
        assert(crate::text::texts(uris->0@).len() == uris->0@.len());
        assert forall|i: int| 0 <= i < list->0@.len() implies (#[trigger] uris->0@[i])@
            == list->0@[i].spec_uri() by {
            assert(crate::text::texts(uris->0@)[i] == uris->0@[i]@);
        }
    }
}

/// The identity of an item is what stands behind its last colon, and all of it
/// where it has none.
pub proof fn law_the_identity_stands_behind_the_last_colon(
    value: &str,
    before: Seq<char>,
    after: Seq<char>,
    r: &str,
)
    requires
        call_ensures(spotify_item_identity, (value,), r),
        forall|i: int| 0 <= i < after.len() ==> #[trigger] after[i] != ':',
    ensures
        value@ == before + seq![':'] + after ==> r@ == after,
        value@ == after ==> r@ == after,
{
    assert(!after.contains(':'));
    lemma_identity_without_colon(after);
    lemma_identity_behind_colon(before, after);
    assert(before + seq![':'] + after =~= before.push(':') + after);
}

} // verus!
