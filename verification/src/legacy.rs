//! Playlists in the older, flat layout, and their conversion to the current
//! one.

use crate::beatmap::{
    decode_date, spec_decode_date, Beatmap, BeatmapType, BeatmapView,
};
use crate::error::{BlistError, BlistErrorView, SchemaError, SchemaErrorView};
use crate::json::{
    get, items_view, json_parsed, lemma_array_view, lemma_members_empty, lemma_members_push,
    lemma_object_view, map_members, members_to_map, members_view, new_map, optional_string,
    parse, required_string, spec_get, spec_optional_string, spec_required_string, text_view,
    JsonMap, JsonValue, JsonView, Member,
};
use crate::playlist::{
    cover_view, CoverView, Playlist, PlaylistCover, PlaylistCoverType, PlaylistView, SCHEMA,
};
use crate::time::{date_view, Instant, Timestamp};
use crate::utils::{
    bytes_start_with, has_signature, jpg_magic_number, jpg_signature, png_magic_number,
    png_signature, spec_has_signature, str_eq,
};
use vstd::prelude::*;
use vstd::string::StringSliceAdditionalSpecFns;

verus! {

#[verifier::external_type_specification]
#[verifier::external_body]
pub struct ExDecodeError(base64::DecodeError);

/// What opens an image field that holds a PNG image as a data URI.
pub const PNG_B64_PREFIX: &'static str = "data:image/png;base64,";

/// What opens an image field that holds a JPEG image as a data URI.
pub const JPG_B64_PREFIX: &'static str = "data:image/jpg;base64,";

/// What opens an image field that holds a JPEG image as a data URI, with
/// the longer name of the format.
pub const JPEG_B64_PREFIX: &'static str = "data:image/jpeg;base64,";

/// What `base64::decode` makes of a text in the standard alphabet: the bytes
/// it stands for, or nothing where the text is no base64.
pub uninterp spec fn base64_decoded(text: Seq<u8>) -> Option<Seq<u8>>;

/// Calls `base64::decode`. The contract gives the outcome its name,
/// [`base64_decoded`]: the same text always decodes to the same bytes, or
/// always fails.
#[verifier::external_body]
pub(crate) fn decode_base64(text: &[u8]) -> (r: Result<Vec<u8>, base64::DecodeError>)
    ensures
        r matches Ok(data) ==> base64_decoded(text@) == Some(data@),
        r is Err ==> base64_decoded(text@) is None,
{
    base64::decode(text)
}

/// Why a legacy playlist could not be converted.
#[derive(Debug)]
pub enum ConvertError {
    /// What follows the prefix of a data URI in the image field is no
    /// base64.
    Image(base64::DecodeError),
}

/// The mathematical content of a [`ConvertError`]: its kind.
pub enum ConvertErrorView {
    Image,
}

impl View for ConvertError {
    type V = ConvertErrorView;

    open spec fn view(&self) -> ConvertErrorView {
        ConvertErrorView::Image
    }
}

/// A track in the legacy layout: a key, a hash or neither, and whatever
/// else the entry held.
#[derive(Debug, Clone, PartialEq, Eq)]
pub struct LegacyBeatmap {
    pub key: Option<String>,
    pub hash: Option<String>,
    pub date: Option<Timestamp>,
    pub custom_data: JsonMap,
}

/// A playlist in the legacy layout.
#[derive(Debug, Clone, PartialEq, Eq)]
pub struct LegacyPlaylist {
    pub title: String,
    pub author: Option<String>,
    pub description: Option<String>,
    pub maps: Vec<LegacyBeatmap>,
    pub cover: Option<String>,
    pub custom_data: JsonMap,
}

/// The mathematical content of a [`LegacyBeatmap`].
pub struct LegacyBeatmapView {
    pub key: Option<Seq<char>>,
    pub hash: Option<Seq<char>>,
    pub date: Option<Instant>,
    pub custom_data: Map<Seq<char>, JsonView>,
}

/// The mathematical content of a [`LegacyPlaylist`].
pub struct LegacyPlaylistView {
    pub title: Seq<char>,
    pub author: Option<Seq<char>>,
    pub description: Option<Seq<char>>,
    pub maps: Seq<LegacyBeatmapView>,
    pub cover: Option<Seq<char>>,
    pub custom_data: Map<Seq<char>, JsonView>,
}

impl View for LegacyBeatmap {
    type V = LegacyBeatmapView;

    open spec fn view(&self) -> LegacyBeatmapView {
        LegacyBeatmapView {
            key: text_view(self.key),
            hash: text_view(self.hash),
            date: date_view(self.date),
            custom_data: map_members(self.custom_data),
        }
    }
}

/// The content of a list of legacy tracks.
pub open spec fn legacy_maps_view(maps: Seq<LegacyBeatmap>) -> Seq<LegacyBeatmapView> {
    Seq::new(maps.len(), |i: int| maps[i]@)
}

impl View for LegacyPlaylist {
    type V = LegacyPlaylistView;

    open spec fn view(&self) -> LegacyPlaylistView {
        LegacyPlaylistView {
            title: self.title@,
            author: text_view(self.author),
            description: text_view(self.description),
            maps: legacy_maps_view(self.maps@),
            cover: text_view(self.cover),
            custom_data: map_members(self.custom_data),
        }
    }
}

/// The content of what converting a legacy playlist returns.
pub open spec fn convert_result_view(r: Result<Playlist, ConvertError>) -> Result<
    PlaylistView,
    ConvertErrorView,
> {
    match r {
        Ok(p) => Ok(p@),
        Err(error) => Err(error@),
    }
}

/// The content of what reading an image field returns.
pub open spec fn image_result_view(r: Result<Option<PlaylistCover>, ConvertError>) -> Result<
    Option<CoverView>,
    ConvertErrorView,
> {
    match r {
        Ok(cover) => Ok(cover_view(cover)),
        Err(error) => Err(error@),
    }
}

/// The members that the legacy layout knows of a track.
pub open spec fn spec_is_song_key(key: Seq<char>) -> bool {
    key == "key"@ || key == "hash"@ || key == "dateAdded"@
}

/// The members that the legacy layout knows of a playlist.
pub open spec fn spec_is_playlist_key(key: Seq<char>) -> bool {
    key == "playlistTitle"@ || key == "playlistAuthor"@ || key == "playlistDescription"@ || key
        == "songs"@ || key == "image"@
}

/// Whether the layout knows a member, of a playlist or of a track.
pub open spec fn spec_is_known_key(key: Seq<char>, of_playlist: bool) -> bool {
    if of_playlist {
        spec_is_playlist_key(key)
    } else {
        spec_is_song_key(key)
    }
}

/// The members that the layout does not know: the custom data.
pub open spec fn spec_rest(members: Map<Seq<char>, JsonView>, of_playlist: bool) -> Map<
    Seq<char>,
    JsonView,
> {
    Map::new(
        |key: Seq<char>| members.contains_key(key) && !spec_is_known_key(key, of_playlist),
        |key: Seq<char>| members[key],
    )
}

/// The legacy track that a document denotes. Key and hash are optional
/// strings, the date an optional RFC 3339 text under `dateAdded`; every
/// other member is custom data.
pub open spec fn spec_legacy_beatmap_from_json(v: JsonView) -> Result<
    LegacyBeatmapView,
    SchemaErrorView,
> {
    match v {
        JsonView::Object(members) => {
            let key = spec_optional_string(members, "key"@);
            let hash = spec_optional_string(members, "hash"@);
            let date = spec_decode_date(members, "dateAdded"@);
            if key is Err {
                Err(key->Err_0)
            } else if hash is Err {
                Err(hash->Err_0)
            } else if date is Err {
                Err(date->Err_0)
            } else {
                Ok(
                    LegacyBeatmapView {
                        key: key->Ok_0,
                        hash: hash->Ok_0,
                        date: date->Ok_0,
                        custom_data: spec_rest(members, false),
                    },
                )
            }
        },
        _ => Err(SchemaErrorView::NotAnObject),
    }
}

/// The legacy tracks that the first `n` documents of a list denote, or the
/// first failure among them.
pub open spec fn spec_legacy_maps_from_json(items: Seq<JsonView>, n: nat) -> Result<
    Seq<LegacyBeatmapView>,
    SchemaErrorView,
>
    decreases n,
{
    if n == 0 {
        Ok(Seq::empty())
    } else {
        match spec_legacy_maps_from_json(items, (n - 1) as nat) {
            Err(error) => Err(error),
            Ok(before) => match spec_legacy_beatmap_from_json(items[n - 1]) {
                Err(error) => Err(error),
                Ok(b) => Ok(before.push(b)),
            },
        }
    }
}

/// The tracks of a legacy playlist, as its members state them: none where
/// the member is absent.
pub open spec fn spec_decode_songs(members: Map<Seq<char>, JsonView>) -> Result<
    Seq<LegacyBeatmapView>,
    SchemaErrorView,
> {
    match spec_get(members, "songs"@) {
        None => Ok(Seq::empty()),
        Some(JsonView::Array(items)) => spec_legacy_maps_from_json(items, items.len()),
        Some(_) => Err(SchemaErrorView::InvalidField { field: "songs"@ }),
    }
}

/// The legacy playlist that a document denotes. The title is required;
/// author, description and image are optional strings; every member that
/// the layout does not know is custom data.
pub open spec fn spec_legacy_from_json(v: JsonView) -> Result<LegacyPlaylistView, SchemaErrorView> {
    match v {
        JsonView::Object(members) => {
            let title = spec_required_string(members, "playlistTitle"@);
            let author = spec_optional_string(members, "playlistAuthor"@);
            let description = spec_optional_string(members, "playlistDescription"@);
            let maps = spec_decode_songs(members);
            let cover = spec_optional_string(members, "image"@);
            if title is Err {
                Err(title->Err_0)
            } else if author is Err {
                Err(author->Err_0)
            } else if description is Err {
                Err(description->Err_0)
            } else if maps is Err {
                Err(maps->Err_0)
            } else if cover is Err {
                Err(cover->Err_0)
            } else {
                Ok(
                    LegacyPlaylistView {
                        title: title->Ok_0,
                        author: author->Ok_0,
                        description: description->Ok_0,
                        maps: maps->Ok_0,
                        cover: cover->Ok_0,
                        custom_data: spec_rest(members, true),
                    },
                )
            }
        },
        _ => Err(SchemaErrorView::NotAnObject),
    }
}

/// The content of what reading a legacy playlist returns.
pub open spec fn legacy_result_view(r: Result<LegacyPlaylist, BlistError>) -> Result<
    LegacyPlaylistView,
    BlistErrorView,
> {
    match r {
        Ok(l) => Ok(l@),
        Err(error) => Err(error@),
    }
}

/// The legacy playlist that a text holds: the text must be JSON, and the
/// document laid out as a legacy playlist.
pub open spec fn spec_read_legacy(text: Seq<u8>) -> Result<LegacyPlaylistView, BlistErrorView> {
    match json_parsed(text) {
        None => Err(BlistErrorView::Json),
        Some(document) => match spec_legacy_from_json(document) {
            Err(error) => Err(BlistErrorView::Schema(error)),
            Ok(l) => Ok(l),
        },
    }
}

/// The kind of a track that comes from a legacy entry: by key where there
/// is a key, else by hash where there is a hash, else by level identifier.
pub open spec fn spec_legacy_kind(l: LegacyBeatmapView) -> BeatmapType {
    if l.key is Some {
        BeatmapType::Key
    } else if l.hash is Some {
        BeatmapType::Hash
    } else {
        BeatmapType::LevelId
    }
}

/// Custom data, kept or dropped.
pub open spec fn spec_kept(custom_data: Map<Seq<char>, JsonView>, preserve: bool) -> Map<
    Seq<char>,
    JsonView,
> {
    if preserve {
        custom_data
    } else {
        Map::empty()
    }
}

/// The track that a legacy entry becomes. It has no difficulties and no
/// level identifier.
pub open spec fn spec_into_beatmap(l: LegacyBeatmapView, preserve: bool) -> BeatmapView {
    BeatmapView {
        ty: spec_legacy_kind(l),
        date: l.date,
        difficulties: Seq::empty(),
        key: l.key,
        hash: l.hash,
        level_id: None,
        custom_data: spec_kept(l.custom_data, preserve),
    }
}

/// The tracks that legacy entries become.
pub open spec fn spec_into_beatmaps(maps: Seq<LegacyBeatmapView>, preserve: bool) -> Seq<
    BeatmapView,
> {
    Seq::new(maps.len(), |i: int| spec_into_beatmap(maps[i], preserve))
}

/// A text without the spaces that open it.
pub open spec fn spec_strip_spaces(text: Seq<u8>) -> Seq<u8>
    decreases text.len(),
{
    if text.len() > 0 && text[0] == 0x20u8 {
        spec_strip_spaces(text.drop_first())
    } else {
        text
    }
}

/// A PNG cover under its usual name.
pub open spec fn spec_png_cover(data: Seq<u8>) -> CoverView {
    CoverView { path: "cover.png"@, data, ty: PlaylistCoverType::Png }
}

/// A JPEG cover under its usual name.
pub open spec fn spec_jpg_cover(data: Seq<u8>) -> CoverView {
    CoverView { path: "cover.jpg"@, data, ty: PlaylistCoverType::Jpg }
}

/// The cover that image bytes of unannounced kind make: what their
/// signature says, and none where it says nothing.
pub open spec fn spec_sniff_cover(data: Seq<u8>) -> Option<CoverView> {
    if spec_has_signature(data, png_signature()) {
        Some(spec_png_cover(data))
    } else if spec_has_signature(data, jpg_signature()) {
        Some(spec_jpg_cover(data))
    } else {
        None
    }
}

/// What follows the prefix of a data URI, decoded. Spaces between the
/// prefix and the base64 are passed over.
pub open spec fn spec_payload(image: Seq<u8>, prefix: Seq<u8>) -> Option<Seq<u8>> {
    base64_decoded(spec_strip_spaces(image.skip(prefix.len() as int)))
}

/// The cover that the image field of a legacy playlist holds. A data URI
/// of a known kind says the kind itself, and its bytes are taken as that
/// kind unseen; what follows its prefix must be base64. Any other text is
/// taken for bare base64: it is decoded and its signature decides. Text
/// that is no base64, and bytes of neither kind, make no cover and no
/// error.
pub open spec fn spec_image_cover(image: Seq<u8>) -> Result<Option<CoverView>, ConvertErrorView> {
    if spec_has_signature(image, PNG_B64_PREFIX.spec_bytes()) {
        match spec_payload(image, PNG_B64_PREFIX.spec_bytes()) {
            Some(data) => Ok(Some(spec_png_cover(data))),
            None => Err(ConvertErrorView::Image),
        }
    } else if spec_has_signature(image, JPG_B64_PREFIX.spec_bytes()) {
        match spec_payload(image, JPG_B64_PREFIX.spec_bytes()) {
            Some(data) => Ok(Some(spec_jpg_cover(data))),
            None => Err(ConvertErrorView::Image),
        }
    } else if spec_has_signature(image, JPEG_B64_PREFIX.spec_bytes()) {
        match spec_payload(image, JPEG_B64_PREFIX.spec_bytes()) {
            Some(data) => Ok(Some(spec_jpg_cover(data))),
            None => Err(ConvertErrorView::Image),
        }
    } else {
        match base64_decoded(image) {
            Some(data) => Ok(spec_sniff_cover(data)),
            None => Ok(None),
        }
    }
}

/// The cover of a legacy playlist, none where it has no image field.
pub open spec fn spec_legacy_cover(cover: Option<Seq<char>>) -> Result<
    Option<CoverView>,
    ConvertErrorView,
> {
    match cover {
        Some(text) => spec_image_cover(vstd::utf8::encode_utf8(text)),
        None => Ok(None),
    }
}

/// The playlist that a legacy playlist becomes.
pub open spec fn spec_into_playlist(l: LegacyPlaylistView, preserve: bool) -> Result<
    PlaylistView,
    ConvertErrorView,
> {
    match spec_legacy_cover(l.cover) {
        Err(error) => Err(error),
        Ok(cover) => Ok(
            PlaylistView {
                schema: SCHEMA@,
                title: l.title,
                author: l.author,
                description: l.description,
                cover,
                maps: spec_into_beatmaps(l.maps, preserve),
                custom_data: spec_kept(l.custom_data, preserve),
            },
        ),
    }
}

/// Once a document of a list fails, the list fails with it, however far
/// one reads on.
pub proof fn lemma_legacy_maps_failure_stays(items: Seq<JsonView>, k: nat, n: nat)
    requires
        k <= n,
        spec_legacy_maps_from_json(items, k) is Err,
    ensures
        spec_legacy_maps_from_json(items, n) == spec_legacy_maps_from_json(items, k),
    decreases n,
{
    if k < n {
        lemma_legacy_maps_failure_stays(items, k, (n - 1) as nat);
    }
}

/// Tells whether the legacy layout knows a member.
pub fn is_known_key(key: &str, of_playlist: bool) -> (r: bool)
    ensures
        r == spec_is_known_key(key@, of_playlist),
{
    if of_playlist {
        str_eq(key, "playlistTitle") || str_eq(key, "playlistAuthor") || str_eq(
            key,
            "playlistDescription",
        ) || str_eq(key, "songs") || str_eq(key, "image")
    } else {
        str_eq(key, "key") || str_eq(key, "hash") || str_eq(key, "dateAdded")
    }
}

/// Copies the members that the legacy layout does not know.
pub fn rest(members: &Vec<Member>, of_playlist: bool) -> (r: Vec<Member>)
    ensures
        members_view(r@) == spec_rest(members_view(members@), of_playlist),
{
    let mut out: Vec<Member> = Vec::new();
    let mut i: usize = 0;
    proof {
        lemma_members_empty(out@);
        lemma_members_empty(members@.subrange(0, 0));
        assert(members_view(out@) =~= spec_rest(
            members_view(members@.subrange(0, 0)),
            of_playlist,
        ));
    }
    while i < members.len()
        invariant
            i <= members@.len(),
            members_view(out@) == spec_rest(
                members_view(members@.subrange(0, i as int)),
                of_playlist,
            ),
        decreases members@.len() - i,
    {
        let ghost before = members@.subrange(0, i as int);
        proof {
            assert(members@.subrange(0, i + 1) =~= before.push(members@[i as int]));
            lemma_members_push(before, members@[i as int]);
        }
        if !is_known_key(members[i].key.as_str(), of_playlist) {
            let copy = members[i].duplicate();
            proof {
                lemma_members_push(out@, copy);
            }
            out.push(copy);
        }
        assert(members_view(out@) =~= spec_rest(
            members_view(members@.subrange(0, i + 1)),
            of_playlist,
        ));
        i += 1;
    }
    assert(members@.subrange(0, i as int) =~= members@);
    out
}

/// The cover that image bytes of unannounced kind make.
pub fn sniff_cover(data: Vec<u8>) -> (r: Option<PlaylistCover>)
    ensures
        cover_view(r) == spec_sniff_cover(data@),
{
    let png = png_magic_number();
    let jpg = jpg_magic_number();
    if has_signature(data.as_slice(), png.as_slice()) {
        Some(PlaylistCover { path: "cover.png".to_owned(), data, ty: PlaylistCoverType::Png })
    } else if has_signature(data.as_slice(), jpg.as_slice()) {
        Some(PlaylistCover { path: "cover.jpg".to_owned(), data, ty: PlaylistCoverType::Jpg })
    } else {
        None
    }
}

/// Decodes what follows the prefix of a data URI.
fn decode_payload(image: &[u8], prefix: &[u8]) -> (r: Result<Vec<u8>, ConvertError>)
    requires
        spec_has_signature(image@, prefix@),
    ensures
        match r {
            Ok(data) => spec_payload(image@, prefix@) == Some(data@),
            Err(_) => spec_payload(image@, prefix@) is None,
        },
{
    let mut start: usize = prefix.len();
    while start < image.len() && image[start] == 0x20u8
        invariant
            prefix@.len() <= start <= image@.len(),
            spec_strip_spaces(image@.skip(prefix@.len() as int)) == spec_strip_spaces(
                image@.skip(start as int),
            ),
        decreases image@.len() - start,
    {
        assert(image@.skip(start as int).drop_first() =~= image@.skip(start + 1));
        start += 1;
    }
    let payload = vstd::slice::slice_subrange(image, start, image.len());
    assert(payload@ =~= image@.skip(start as int));
    match decode_base64(payload) {
        Ok(data) => Ok(data),
        Err(error) => Err(ConvertError::Image(error)),
    }
}

/// Reads the cover that the image field of a legacy playlist holds.
pub fn image_cover(image: &str) -> (r: Result<Option<PlaylistCover>, ConvertError>)
    ensures
        image_result_view(r) == spec_image_cover(image.spec_bytes()),
{
    let bytes = image.as_bytes();
    let png = PNG_B64_PREFIX.as_bytes();
    let jpg = JPG_B64_PREFIX.as_bytes();
    let jpeg = JPEG_B64_PREFIX.as_bytes();
    if bytes_start_with(bytes, png) {
        match decode_payload(bytes, png) {
            Ok(data) => Ok(
                Some(
                    PlaylistCover {
                        path: "cover.png".to_owned(),
                        data,
                        ty: PlaylistCoverType::Png,
                    },
                ),
            ),
            Err(error) => Err(error),
        }
    } else if bytes_start_with(bytes, jpg) {
        match decode_payload(bytes, jpg) {
            Ok(data) => Ok(
                Some(
                    PlaylistCover {
                        path: "cover.jpg".to_owned(),
                        data,
                        ty: PlaylistCoverType::Jpg,
                    },
                ),
            ),
            Err(error) => Err(error),
        }
    } else if bytes_start_with(bytes, jpeg) {
        match decode_payload(bytes, jpeg) {
            Ok(data) => Ok(
                Some(
                    PlaylistCover {
                        path: "cover.jpg".to_owned(),
                        data,
                        ty: PlaylistCoverType::Jpg,
                    },
                ),
            ),
            Err(error) => Err(error),
        }
    } else {
        match decode_base64(bytes) {
            Ok(data) => Ok(sniff_cover(data)),
            Err(_) => Ok(None),
        }
    }
}

impl LegacyBeatmap {
    /// Reads a legacy track from a document.
    pub fn from_json(v: &JsonValue) -> (r: Result<LegacyBeatmap, SchemaError>)
        ensures
            match r {
                Ok(b) => spec_legacy_beatmap_from_json(v@) == Ok::<
                    LegacyBeatmapView,
                    SchemaErrorView,
                >(b@),
                Err(error) => spec_legacy_beatmap_from_json(v@) == Err::<
                    LegacyBeatmapView,
                    SchemaErrorView,
                >(error@),
            },
    {
        match v {
            JsonValue::Object(members) => {
                proof {
                    lemma_object_view(*members);
                }
                let key = match optional_string(members, "key") {
                    Ok(key) => key,
                    Err(error) => return Err(error),
                };
                let hash = match optional_string(members, "hash") {
                    Ok(hash) => hash,
                    Err(error) => return Err(error),
                };
                let date = match decode_date(members, "dateAdded") {
                    Ok(date) => date,
                    Err(error) => return Err(error),
                };
                let custom_data = members_to_map(&rest(members, false));
                Ok(LegacyBeatmap { key, hash, date, custom_data })
            },
            _ => Err(SchemaError::NotAnObject),
        }
    }

    /// The track of the current layout that the legacy track stands for.
    /// The custom data is kept only where `preserve_custom_data` says so.
    pub fn to_beatmap(&self, preserve_custom_data: bool) -> (r: Beatmap)
        ensures
            r@ == spec_into_beatmap(self@, preserve_custom_data),
    {
        let ty = if self.key.is_some() {
            BeatmapType::Key
        } else if self.hash.is_some() {
            BeatmapType::Hash
        } else {
            BeatmapType::LevelId
        };
        let custom_data = if preserve_custom_data {
            self.custom_data.clone()
        } else {
            new_map()
        };
        let r = Beatmap {
            ty,
            date: self.date,
            difficulties: Vec::new(),
            key: self.key.clone(),
            hash: self.hash.clone(),
            level_id: None,
            custom_data,
        };
        assert(r@.difficulties =~= Seq::empty());
        r
    }

    /// Turns the legacy track into a track of the current layout. The
    /// custom data is kept only where `preserve_custom_data` says so.
    pub fn into_beatmap(self, preserve_custom_data: bool) -> (r: Beatmap)
        ensures
            r@ == spec_into_beatmap(self@, preserve_custom_data),
    {
        self.to_beatmap(preserve_custom_data)
    }
}

/// Reads the tracks of a legacy playlist from its members.
pub fn decode_songs(members: &Vec<Member>) -> (r: Result<Vec<LegacyBeatmap>, SchemaError>)
    ensures
        match r {
            Ok(maps) => spec_decode_songs(members_view(members@)) == Ok::<
                Seq<LegacyBeatmapView>,
                SchemaErrorView,
            >(legacy_maps_view(maps@)),
            Err(error) => spec_decode_songs(members_view(members@)) == Err::<
                Seq<LegacyBeatmapView>,
                SchemaErrorView,
            >(error@),
        },
{
    match get(members, "songs") {
        None => {
            let out: Vec<LegacyBeatmap> = Vec::new();
            assert(legacy_maps_view(out@) =~= Seq::empty());
            Ok(out)
        },
        Some(JsonValue::Array(items)) => {
            proof {
                lemma_array_view(*items);
            }
            let ghost all = items_view(items@);
            let mut out: Vec<LegacyBeatmap> = Vec::new();
            let mut i: usize = 0;
            assert(legacy_maps_view(out@) =~= Seq::empty());
            while i < items.len()
                invariant
                    i <= items@.len(),
                    all == items_view(items@),
                    spec_get(members_view(members@), "songs"@) == Some(JsonView::Array(all)),
                    spec_legacy_maps_from_json(all, i as nat) == Ok::<
                        Seq<LegacyBeatmapView>,
                        SchemaErrorView,
                    >(legacy_maps_view(out@)),
                decreases items@.len() - i,
            {
                match LegacyBeatmap::from_json(&items[i]) {
                    Ok(b) => {
                        let ghost before = legacy_maps_view(out@);
                        out.push(b);
                        assert(legacy_maps_view(out@) =~= before.push(b@));
                    },
                    Err(error) => {
                        proof {
                            assert(spec_legacy_maps_from_json(all, (i + 1) as nat) is Err);
                            lemma_legacy_maps_failure_stays(all, (i + 1) as nat, all.len());
                        }
                        return Err(error);
                    },
                }
                i += 1;
            }
            Ok(out)
        },
        Some(_) => Err(SchemaError::InvalidField { field: "songs" }),
    }
}

impl LegacyPlaylist {
    /// Reads a legacy playlist from the text of its file.
    pub fn read(text: &[u8]) -> (r: Result<LegacyPlaylist, BlistError>)
        ensures
            legacy_result_view(r) == spec_read_legacy(text@),
    {
        let document = match parse(text) {
            Ok(document) => document,
            Err(error) => return Err(BlistError::Json(error)),
        };
        match LegacyPlaylist::from_json(&document) {
            Ok(l) => Ok(l),
            Err(error) => Err(BlistError::Schema(error)),
        }
    }

    /// Reads a legacy playlist from a document.
    pub fn from_json(v: &JsonValue) -> (r: Result<LegacyPlaylist, SchemaError>)
        ensures
            match r {
                Ok(l) => spec_legacy_from_json(v@) == Ok::<LegacyPlaylistView, SchemaErrorView>(
                    l@,
                ),
                Err(error) => spec_legacy_from_json(v@) == Err::<
                    LegacyPlaylistView,
                    SchemaErrorView,
                >(error@),
            },
    {
        match v {
            JsonValue::Object(members) => {
                proof {
                    lemma_object_view(*members);
                }
                let title = match required_string(members, "playlistTitle") {
                    Ok(title) => title,
                    Err(error) => return Err(error),
                };
                let author = match optional_string(members, "playlistAuthor") {
                    Ok(author) => author,
                    Err(error) => return Err(error),
                };
                let description = match optional_string(members, "playlistDescription") {
                    Ok(description) => description,
                    Err(error) => return Err(error),
                };
                let maps = match decode_songs(members) {
                    Ok(maps) => maps,
                    Err(error) => return Err(error),
                };
                let cover = match optional_string(members, "image") {
                    Ok(cover) => cover,
                    Err(error) => return Err(error),
                };
                let custom_data = members_to_map(&rest(members, true));
                Ok(LegacyPlaylist { title, author, description, maps, cover, custom_data })
            },
            _ => Err(SchemaError::NotAnObject),
        }
    }

    /// Turns the legacy playlist into a playlist of the current layout.
    /// Custom data, of the playlist and of each track, is kept only where
    /// `preserve_custom_data` says so.
    pub fn into_playlist(self, preserve_custom_data: bool) -> (r: Result<Playlist, ConvertError>)
        ensures
            convert_result_view(r) == spec_into_playlist(self@, preserve_custom_data),
    {
        let ghost legacy = self@;
        let cover = match &self.cover {
            Some(image) => match image_cover(image.as_str()) {
                Ok(cover) => cover,
                Err(error) => return Err(error),
            },
            None => None,
        };
        let mut maps: Vec<Beatmap> = Vec::new();
        let mut i: usize = 0;
        while i < self.maps.len()
            invariant
                i <= self.maps@.len(),
                maps@.len() == i,
                forall|j: int|
                    0 <= j < i ==> maps@[j]@ == spec_into_beatmap(
                        #[trigger] self.maps@[j]@,
                        preserve_custom_data,
                    ),
            decreases self.maps@.len() - i,
        {
            let map = self.maps[i].to_beatmap(preserve_custom_data);
            maps.push(map);
            i += 1;
        }
        let custom_data = if preserve_custom_data {
            self.custom_data
        } else {
            new_map()
        };
        let r = Playlist {
            _schema: SCHEMA,
            title: self.title,
            author: self.author,
            description: self.description,
            cover,
            maps,
            custom_data,
        };
        assert(r@.maps =~= spec_into_beatmaps(legacy.maps, preserve_custom_data));
        Ok(r)
    }
}

} // verus!
