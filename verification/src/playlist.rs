//! The playlist itself, its cover, and the rules that both must keep.

use crate::archive::{
    add_entry, archive_entries, container_entries, entry_added, finish, new_writer,
    open_archive, packed, read_entry, writer_entries,
};
use crate::beatmap::{
    spec_beatmap_from_json, spec_beatmap_json, spec_validate_beatmap, Beatmap, BeatmapView,
};
use crate::error::{BlistError, BlistErrorView, SchemaError, SchemaErrorView};
use crate::json::{
    get, items_view, json_parsed, json_text, lemma_array_view, lemma_members_empty,
    lemma_object_view, map_is_empty, map_members, map_to_members, members_to_map,
    members_view, new_map, optional_object, optional_string, parse, print, put,
    required_string, spec_get, spec_is_empty, spec_optional_object, spec_optional_string,
    spec_required_string, text_view, JsonMap, JsonValue, JsonView, Member,
};
use crate::utils::{
    has_signature, jpg_magic_number, jpg_signature, path_has_extension, path_is_invalid,
    png_magic_number, png_signature, spec_extension, spec_has_signature,
    spec_is_empty_or_has_newlines, spec_path_is_invalid, str_is_empty_or_has_newlines,
};
use crate::validation::{
    PlaylistCoverError, PlaylistCoverErrorView, PlaylistError, PlaylistErrorView,
};
use vstd::prelude::*;

verus! {

/// Where the layout of a manifest is laid down.
pub const SCHEMA: &'static str =
    "https://raw.githubusercontent.com/raftario/blist/master/playlist.schema.json";

/// Where the layout of a manifest is laid down.
pub fn schema() -> (r: &'static str)
    ensures
        r@ == SCHEMA@,
{
    SCHEMA
}

/// The name of the entry that holds the manifest.
pub const MANIFEST_NAME: &'static str = "playlist.json";

/// The kind of image that a cover holds.
#[derive(Debug, Copy, Clone, PartialEq, Eq, Hash)]
pub enum PlaylistCoverType {
    Png,
    Jpg,
    /// Not determined yet. A cover of this kind never passes validation.
    Unknown,
}

impl Default for PlaylistCoverType {
    fn default() -> (r: Self)
        ensures
            r == PlaylistCoverType::Unknown,
    {
        PlaylistCoverType::Unknown
    }
}

/// The cover image of a playlist: the name of its archive entry, its bytes,
/// and its kind.
#[derive(Debug, Clone, PartialEq, Eq, Hash)]
pub struct PlaylistCover {
    pub path: String,
    pub data: Vec<u8>,
    pub ty: PlaylistCoverType,
}

/// A playlist: what it is called, who made it, and its tracks in order.
#[derive(Debug, Clone, PartialEq, Eq)]
pub struct Playlist {
    /// Where the layout of the manifest is laid down. Written as it stands;
    /// a playlist that was read always carries [`SCHEMA`].
    pub _schema: &'static str,
    pub title: String,
    pub author: Option<String>,
    pub description: Option<String>,
    pub cover: Option<PlaylistCover>,
    pub maps: Vec<Beatmap>,
    pub custom_data: JsonMap,
}

/// The mathematical content of a [`PlaylistCover`].
pub struct CoverView {
    pub path: Seq<char>,
    pub data: Seq<u8>,
    pub ty: PlaylistCoverType,
}

/// The mathematical content of a [`Playlist`].
pub struct PlaylistView {
    pub schema: Seq<char>,
    pub title: Seq<char>,
    pub author: Option<Seq<char>>,
    pub description: Option<Seq<char>>,
    pub cover: Option<CoverView>,
    pub maps: Seq<BeatmapView>,
    pub custom_data: Map<Seq<char>, JsonView>,
}

impl View for PlaylistCover {
    type V = CoverView;

    open spec fn view(&self) -> CoverView {
        CoverView { path: self.path@, data: self.data@, ty: self.ty }
    }
}

/// The content of an optional cover.
pub open spec fn cover_view(cover: Option<PlaylistCover>) -> Option<CoverView> {
    match cover {
        Some(c) => Some(c@),
        None => None,
    }
}

/// The content of a list of tracks.
pub open spec fn maps_view(maps: Seq<Beatmap>) -> Seq<BeatmapView> {
    Seq::new(maps.len(), |i: int| maps[i]@)
}

impl View for Playlist {
    type V = PlaylistView;

    open spec fn view(&self) -> PlaylistView {
        PlaylistView {
            schema: self._schema@,
            title: self.title@,
            author: text_view(self.author),
            description: text_view(self.description),
            cover: cover_view(self.cover),
            maps: maps_view(self.maps@),
            custom_data: map_members(self.custom_data),
        }
    }
}

/// The content of what validating a cover returns.
pub open spec fn cover_result_view(r: Result<(), PlaylistCoverError>) -> Result<
    (),
    PlaylistCoverErrorView,
> {
    match r {
        Ok(_) => Ok(()),
        Err(error) => Err(error@),
    }
}

/// The content of what validating a playlist returns.
pub open spec fn playlist_result_view(r: Result<(), PlaylistError>) -> Result<
    (),
    PlaylistErrorView,
> {
    match r {
        Ok(_) => Ok(()),
        Err(error) => Err(error@),
    }
}

/// The content of what an operation without a result returns.
pub open spec fn unit_result_view(r: Result<(), BlistError>) -> Result<(), BlistErrorView> {
    match r {
        Ok(_) => Ok(()),
        Err(error) => Err(error@),
    }
}

/// The path is a bare file name whose extension says PNG.
pub open spec fn spec_is_png_path(path: Seq<char>) -> bool {
    !spec_path_is_invalid(path) && spec_extension(path) == Some("png"@)
}

/// The path is a bare file name whose extension says JPEG.
pub open spec fn spec_is_jpg_path(path: Seq<char>) -> bool {
    !spec_path_is_invalid(path) && (spec_extension(path) == Some("jpg"@) || spec_extension(path)
        == Some("jpeg"@))
}

/// The rule of a cover. Its kind must be known, its path a bare file name
/// with the extension of that kind, and its bytes must open with the
/// signature of that kind. The path is judged before the bytes.
pub open spec fn spec_validate_cover(c: CoverView) -> Result<(), PlaylistCoverErrorView> {
    match c.ty {
        PlaylistCoverType::Png => if !spec_is_png_path(c.path) {
            Err(PlaylistCoverErrorView::InvalidCoverPath { ty: "png"@, path: c.path })
        } else if !spec_has_signature(c.data, png_signature()) {
            Err(PlaylistCoverErrorView::InvalidCoverData { ty: "png"@ })
        } else {
            Ok(())
        },
        PlaylistCoverType::Jpg => if !spec_is_jpg_path(c.path) {
            Err(PlaylistCoverErrorView::InvalidCoverPath { ty: "jpg"@, path: c.path })
        } else if !spec_has_signature(c.data, jpg_signature()) {
            Err(PlaylistCoverErrorView::InvalidCoverData { ty: "jpg"@ })
        } else {
            Ok(())
        },
        PlaylistCoverType::Unknown => Err(PlaylistCoverErrorView::UnknownCoverType),
    }
}

/// The first track at or after `from` that breaks its rule, as the error
/// that a playlist reports for it.
pub open spec fn spec_first_invalid_beatmap(maps: Seq<BeatmapView>, from: int) -> Option<
    PlaylistErrorView,
>
    decreases maps.len() - from,
{
    if from < 0 || from >= maps.len() {
        None
    } else {
        match spec_validate_beatmap(maps[from]) {
            Err(error) => Some(PlaylistErrorView::InvalidBeatmap { idx: from, error }),
            Ok(_) => spec_first_invalid_beatmap(maps, from + 1),
        }
    }
}

/// The first of title, author and description that breaks its rule: the
/// title and the author are single lines that are not empty, the description
/// is not empty.
pub open spec fn spec_invalid_text(p: PlaylistView) -> Option<PlaylistErrorView> {
    if spec_is_empty_or_has_newlines(p.title) {
        Some(PlaylistErrorView::InvalidField { field: "title"@, value: p.title })
    } else if p.author is Some && spec_is_empty_or_has_newlines(p.author->0) {
        Some(PlaylistErrorView::InvalidField { field: "author"@, value: p.author->0 })
    } else if p.description is Some && p.description->0.len() == 0 {
        Some(PlaylistErrorView::InvalidField { field: "description"@, value: p.description->0 })
    } else {
        None
    }
}

/// The breach of the cover, where the cover is to be judged and there is one.
pub open spec fn spec_invalid_cover(p: PlaylistView, validate_cover: bool) -> Option<
    PlaylistErrorView,
> {
    if validate_cover && p.cover is Some {
        match spec_validate_cover(p.cover->0) {
            Err(error) => Some(PlaylistErrorView::InvalidCover(error)),
            Ok(_) => None,
        }
    } else {
        None
    }
}

/// The rule of a playlist: title, author, description, then the cover,
/// then the tracks in order. The first breach is the one reported.
pub open spec fn spec_validate(p: PlaylistView, validate_cover: bool) -> Result<
    (),
    PlaylistErrorView,
> {
    match spec_invalid_text(p) {
        Some(error) => Err(error),
        None => match spec_invalid_cover(p, validate_cover) {
            Some(error) => Err(error),
            None => match spec_first_invalid_beatmap(p.maps, 0) {
                Some(error) => Err(error),
                None => Ok(()),
            },
        },
    }
}

/// The content of what reading a playlist returns.
pub open spec fn read_result_view(r: Result<Playlist, BlistError>) -> Result<
    PlaylistView,
    BlistErrorView,
> {
    match r {
        Ok(p) => Ok(p@),
        Err(error) => Err(error@),
    }
}

/// The content of what making a cover returns.
pub open spec fn cover_made_view(r: Result<PlaylistCover, PlaylistCoverError>) -> Result<
    CoverView,
    PlaylistCoverErrorView,
> {
    match r {
        Ok(c) => Ok(c@),
        Err(error) => Err(error@),
    }
}

/// The kind of image that the path of a cover announces. The path must be
/// a bare file name; its extension decides.
pub open spec fn spec_kind_of_path(path: Seq<char>) -> Result<
    PlaylistCoverType,
    PlaylistCoverErrorView,
> {
    if spec_path_is_invalid(path) {
        Err(PlaylistCoverErrorView::InvalidCoverPath { ty: "unknown"@, path })
    } else if spec_extension(path) == Some("png"@) {
        Ok(PlaylistCoverType::Png)
    } else if spec_extension(path) == Some("jpg"@) || spec_extension(path) == Some("jpeg"@) {
        Ok(PlaylistCoverType::Jpg)
    } else {
        Err(PlaylistCoverErrorView::UnknownCoverType)
    }
}

/// The cover that the bytes of an entry make, once the kind is settled: the
/// bytes must open with the signature of the kind.
pub open spec fn spec_cover_from_entry(
    path: Seq<char>,
    ty: PlaylistCoverType,
    data: Seq<u8>,
) -> Result<CoverView, PlaylistCoverErrorView> {
    match ty {
        PlaylistCoverType::Png => if spec_has_signature(data, png_signature()) {
            Ok(CoverView { path, data, ty })
        } else {
            Err(PlaylistCoverErrorView::InvalidCoverData { ty: "png"@ })
        },
        PlaylistCoverType::Jpg => if spec_has_signature(data, jpg_signature()) {
            Ok(CoverView { path, data, ty })
        } else {
            Err(PlaylistCoverErrorView::InvalidCoverData { ty: "jpg"@ })
        },
        PlaylistCoverType::Unknown => Err(PlaylistCoverErrorView::UnknownCoverType),
    }
}

/// A playlist read from a manifest, with the cover that the entries of the
/// archive give it. The path is judged first, then the entry must be there,
/// then its bytes are judged.
pub open spec fn spec_with_cover(
    skeleton: PlaylistView,
    entries: Map<Seq<char>, Seq<u8>>,
) -> Result<PlaylistView, BlistErrorView> {
    match skeleton.cover {
        None => Ok(skeleton),
        Some(announced) => match spec_kind_of_path(announced.path) {
            Err(error) => Err(BlistErrorView::Validation(PlaylistErrorView::InvalidCover(error))),
            Ok(ty) => if !entries.contains_key(announced.path) {
                Err(BlistErrorView::Zip)
            } else {
                match spec_cover_from_entry(announced.path, ty, entries[announced.path]) {
                    Err(error) => Err(
                        BlistErrorView::Validation(PlaylistErrorView::InvalidCover(error)),
                    ),
                    Ok(cover) => Ok(PlaylistView { cover: Some(cover), ..skeleton }),
                }
            },
        },
    }
}

/// A playlist, provided that it keeps its rule.
pub open spec fn spec_checked(p: PlaylistView) -> Result<PlaylistView, BlistErrorView> {
    match spec_validate(p, true) {
        Ok(_) => Ok(p),
        Err(error) => Err(BlistErrorView::Validation(error)),
    }
}

/// The playlist that the entries of an archive hold: the manifest entry
/// must be there, be JSON and be laid out as a manifest; the cover that it
/// announces must be there and fit; the whole must keep its rule.
pub open spec fn spec_read_entries(entries: Map<Seq<char>, Seq<u8>>) -> Result<
    PlaylistView,
    BlistErrorView,
> {
    if !entries.contains_key(MANIFEST_NAME@) {
        Err(BlistErrorView::Zip)
    } else {
        match json_parsed(entries[MANIFEST_NAME@]) {
            None => Err(BlistErrorView::Json),
            Some(manifest) => match spec_playlist_from_json(manifest) {
                Err(error) => Err(BlistErrorView::Schema(error)),
                Ok(skeleton) => match spec_with_cover(skeleton, entries) {
                    Err(error) => Err(error),
                    Ok(p) => spec_checked(p),
                },
            },
        }
    }
}

/// The playlist that a container holds.
pub open spec fn spec_read(container: Seq<u8>) -> Result<PlaylistView, BlistErrorView> {
    match container_entries(container) {
        None => Err(BlistErrorView::Zip),
        Some(entries) => spec_read_entries(entries),
    }
}

/// The entries that a playlist is packed into: the manifest, then the cover
/// under its path where there is one.
pub open spec fn spec_entries(p: PlaylistView, manifest: Seq<u8>) -> Seq<(Seq<char>, Seq<u8>)> {
    let first = seq![(MANIFEST_NAME@, manifest)];
    match p.cover {
        Some(c) => first.push((c.path, c.data)),
        None => first,
    }
}

/// The first entry of a container: the manifest under its name.
pub open spec fn spec_manifest_entry(manifest: Seq<u8>) -> Seq<(Seq<char>, Seq<u8>)> {
    seq![(MANIFEST_NAME@, manifest)]
}

/// The writer takes every entry of a playlist, and packs them.
pub open spec fn spec_packs(p: PlaylistView, manifest: Seq<u8>) -> bool {
    &&& entry_added(Seq::empty(), MANIFEST_NAME@, manifest)
    &&& p.cover matches Some(c) ==> entry_added(spec_manifest_entry(manifest), c.path, c.data)
    &&& packed(spec_entries(p, manifest)) is Some
}

/// The content of what writing a playlist returns.
pub open spec fn write_result_view(r: Result<Vec<u8>, BlistError>) -> Result<
    Seq<u8>,
    BlistErrorView,
> {
    match r {
        Ok(container) => Ok(container@),
        Err(error) => Err(error@),
    }
}

/// The container that a playlist is written into. A playlist that breaks
/// its rule is refused with the breach. Otherwise the manifest is printed
/// and the entries are packed, and the container comes back exactly when
/// printing succeeds, the writer takes every entry and packing succeeds.
pub open spec fn spec_write(p: PlaylistView) -> Result<Seq<u8>, BlistErrorView> {
    match spec_validate(p, true) {
        Err(error) => Err(BlistErrorView::Validation(error)),
        Ok(_) => match json_text(spec_manifest(p)) {
            None => Err(BlistErrorView::Json),
            Some(manifest) => if spec_packs(p, manifest) {
                Ok(packed(spec_entries(p, manifest))->0)
            } else {
                Err(BlistErrorView::Zip)
            },
        },
    }
}

/// A list of tracks as a list of documents.
pub open spec fn spec_maps_json(maps: Seq<BeatmapView>) -> Seq<JsonView> {
    Seq::new(maps.len(), |i: int| spec_beatmap_json(maps[i]))
}

/// Puts a string under a key where there is one.
pub open spec fn spec_put_text(
    members: Map<Seq<char>, JsonView>,
    key: Seq<char>,
    text: Option<Seq<char>>,
) -> Map<Seq<char>, JsonView> {
    match text {
        Some(s) => members.insert(key, JsonView::String(s)),
        None => members,
    }
}

/// The path of a cover, where there is a cover.
pub open spec fn spec_cover_path(cover: Option<CoverView>) -> Option<Seq<char>> {
    match cover {
        Some(c) => Some(c.path),
        None => None,
    }
}

/// The members of a manifest up to and including the cover. Author,
/// description and cover are left out where there are none; of the cover
/// only the path is written.
pub open spec fn spec_manifest_head(p: PlaylistView) -> Map<Seq<char>, JsonView> {
    let start = Map::<Seq<char>, JsonView>::empty().insert(
        "$schema"@,
        JsonView::String(p.schema),
    ).insert("title"@, JsonView::String(p.title));
    spec_put_text(
        spec_put_text(spec_put_text(start, "author"@, p.author), "description"@, p.description),
        "cover"@,
        spec_cover_path(p.cover),
    )
}

/// The members of a manifest. The custom data is left out where there is
/// none.
pub open spec fn spec_manifest_members(p: PlaylistView) -> Map<Seq<char>, JsonView> {
    let body = spec_manifest_head(p).insert("maps"@, JsonView::Array(spec_maps_json(p.maps)));
    if spec_is_empty(p.custom_data) {
        body
    } else {
        body.insert("customData"@, JsonView::Object(p.custom_data))
    }
}

/// The manifest of a playlist.
pub open spec fn spec_manifest(p: PlaylistView) -> JsonView {
    JsonView::Object(spec_manifest_members(p))
}

/// The tracks that the first `n` documents of a list denote, or the first
/// failure among them.
pub open spec fn spec_maps_from_json(items: Seq<JsonView>, n: nat) -> Result<
    Seq<BeatmapView>,
    SchemaErrorView,
>
    decreases n,
{
    if n == 0 {
        Ok(Seq::empty())
    } else {
        match spec_maps_from_json(items, (n - 1) as nat) {
            Err(error) => Err(error),
            Ok(before) => match spec_beatmap_from_json(items[n - 1]) {
                Err(error) => Err(error),
                Ok(b) => Ok(before.push(b)),
            },
        }
    }
}

/// The tracks of a playlist, as the members of its manifest state them.
pub open spec fn spec_decode_maps(members: Map<Seq<char>, JsonView>) -> Result<
    Seq<BeatmapView>,
    SchemaErrorView,
> {
    match spec_get(members, "maps"@) {
        None => Err(SchemaErrorView::MissingField { field: "maps"@ }),
        Some(JsonView::Array(items)) => spec_maps_from_json(items, items.len()),
        Some(_) => Err(SchemaErrorView::InvalidField { field: "maps"@ }),
    }
}

/// The cover that the members of a manifest announce: a path alone, with no
/// bytes and no kind yet. A member that is no string announces none.
pub open spec fn spec_decode_cover(members: Map<Seq<char>, JsonView>) -> Option<CoverView> {
    match spec_get(members, "cover"@) {
        Some(JsonView::String(path)) => Some(
            CoverView { path, data: Seq::empty(), ty: PlaylistCoverType::Unknown },
        ),
        _ => None,
    }
}

/// The playlist that a manifest denotes, its cover still without bytes. The
/// members are read in the order title, author, description, cover, maps,
/// custom data, and the first that fails decides the error. Members that
/// the format does not know are passed over, the `$schema` member among
/// them: the playlist carries [`SCHEMA`].
pub open spec fn spec_playlist_from_json(v: JsonView) -> Result<PlaylistView, SchemaErrorView> {
    match v {
        JsonView::Object(members) => {
            let title = spec_required_string(members, "title"@);
            let author = spec_optional_string(members, "author"@);
            let description = spec_optional_string(members, "description"@);
            let maps = spec_decode_maps(members);
            let custom_data = spec_optional_object(members, "customData"@);
            if title is Err {
                Err(title->Err_0)
            } else if author is Err {
                Err(author->Err_0)
            } else if description is Err {
                Err(description->Err_0)
            } else if maps is Err {
                Err(maps->Err_0)
            } else if custom_data is Err {
                Err(custom_data->Err_0)
            } else {
                Ok(
                    PlaylistView {
                        schema: SCHEMA@,
                        title: title->Ok_0,
                        author: author->Ok_0,
                        description: description->Ok_0,
                        cover: spec_decode_cover(members),
                        maps: maps->Ok_0,
                        custom_data: custom_data->Ok_0,
                    },
                )
            }
        },
        _ => Err(SchemaErrorView::NotAnObject),
    }
}

/// Once a document of a list fails, the list fails with it, however far
/// one reads on.
pub proof fn lemma_maps_failure_stays(items: Seq<JsonView>, k: nat, n: nat)
    requires
        k <= n,
        spec_maps_from_json(items, k) is Err,
    ensures
        spec_maps_from_json(items, n) == spec_maps_from_json(items, k),
    decreases n,
{
    if k < n {
        lemma_maps_failure_stays(items, k, (n - 1) as nat);
    }
}

/// Reads the tracks of a playlist from the members of its manifest.
pub fn decode_maps(members: &Vec<Member>) -> (r: Result<Vec<Beatmap>, SchemaError>)
    ensures
        match r {
            Ok(maps) => spec_decode_maps(members_view(members@)) == Ok::<
                Seq<BeatmapView>,
                SchemaErrorView,
            >(maps_view(maps@)),
            Err(error) => spec_decode_maps(members_view(members@)) == Err::<
                Seq<BeatmapView>,
                SchemaErrorView,
            >(error@),
        },
{
    match get(members, "maps") {
        None => Err(SchemaError::MissingField { field: "maps" }),
        Some(JsonValue::Array(items)) => {
            proof {
                lemma_array_view(*items);
            }
            let ghost all = items_view(items@);
            let mut out: Vec<Beatmap> = Vec::new();
            let mut i: usize = 0;
            assert(maps_view(out@) =~= Seq::empty());
            while i < items.len()
                invariant
                    i <= items@.len(),
                    all == items_view(items@),
                    spec_get(members_view(members@), "maps"@) == Some(JsonView::Array(all)),
                    spec_maps_from_json(all, i as nat) == Ok::<Seq<BeatmapView>, SchemaErrorView>(
                        maps_view(out@),
                    ),
                decreases items@.len() - i,
            {
                match Beatmap::from_json(&items[i]) {
                    Ok(b) => {
                        let ghost before = maps_view(out@);
                        out.push(b);
                        assert(maps_view(out@) =~= before.push(b@));
                    },
                    Err(error) => {
                        proof {
                            assert(spec_maps_from_json(all, (i + 1) as nat) is Err);
                            lemma_maps_failure_stays(all, (i + 1) as nat, all.len());
                        }
                        return Err(error);
                    },
                }
                i += 1;
            }
            Ok(out)
        },
        Some(_) => Err(SchemaError::InvalidField { field: "maps" }),
    }
}

/// Reads the cover that the members of a manifest announce.
pub fn decode_cover(members: &Vec<Member>) -> (r: Option<PlaylistCover>)
    ensures
        cover_view(r) == spec_decode_cover(members_view(members@)),
{
    match get(members, "cover") {
        Some(JsonValue::String(path)) => {
            let data: Vec<u8> = Vec::new();
            assert(data@ =~= Seq::empty());
            Some(PlaylistCover { path: path.clone(), data, ty: PlaylistCoverType::Unknown })
        },
        _ => None,
    }
}

impl PlaylistCover {
    /// The kind of image that the path of a cover announces.
    pub fn kind_of_path(path: &str) -> (r: Result<PlaylistCoverType, PlaylistCoverError>)
        ensures
            match r {
                Ok(ty) => spec_kind_of_path(path@) == Ok::<
                    PlaylistCoverType,
                    PlaylistCoverErrorView,
                >(ty),
                Err(error) => spec_kind_of_path(path@) == Err::<
                    PlaylistCoverType,
                    PlaylistCoverErrorView,
                >(error@),
            },
    {
        if path_is_invalid(path) {
            Err(PlaylistCoverError::InvalidCoverPath { ty: "unknown", path: path.to_owned() })
        } else if path_has_extension(path, "png") {
            Ok(PlaylistCoverType::Png)
        } else if path_has_extension(path, "jpg") || path_has_extension(path, "jpeg") {
            Ok(PlaylistCoverType::Jpg)
        } else {
            Err(PlaylistCoverError::UnknownCoverType)
        }
    }

    /// Makes a cover of the bytes of an archive entry, once the kind is
    /// settled.
    pub fn from_entry(path: String, ty: PlaylistCoverType, data: Vec<u8>) -> (r: Result<
        PlaylistCover,
        PlaylistCoverError,
    >)
        ensures
            cover_made_view(r) == spec_cover_from_entry(path@, ty, data@),
    {
        match ty {
            PlaylistCoverType::Png => {
                let signature = png_magic_number();
                if !has_signature(data.as_slice(), signature.as_slice()) {
                    return Err(PlaylistCoverError::InvalidCoverData { ty: "png" });
                }
            },
            PlaylistCoverType::Jpg => {
                let signature = jpg_magic_number();
                if !has_signature(data.as_slice(), signature.as_slice()) {
                    return Err(PlaylistCoverError::InvalidCoverData { ty: "jpg" });
                }
            },
            PlaylistCoverType::Unknown => return Err(PlaylistCoverError::UnknownCoverType),
        }
        Ok(PlaylistCover { path, data, ty })
    }

    /// Checks the cover against its rule.
    pub fn validate(&self) -> (r: Result<(), PlaylistCoverError>)
        ensures
            cover_result_view(r) == spec_validate_cover(self@),
    {
        match self.ty {
            PlaylistCoverType::Png => {
                if path_is_invalid(self.path.as_str()) || !path_has_extension(
                    self.path.as_str(),
                    "png",
                ) {
                    return Err(
                        PlaylistCoverError::InvalidCoverPath { ty: "png", path: self.path.clone() },
                    );
                }
                let signature = png_magic_number();
                if !has_signature(self.data.as_slice(), signature.as_slice()) {
                    return Err(PlaylistCoverError::InvalidCoverData { ty: "png" });
                }
            },
            PlaylistCoverType::Jpg => {
                if path_is_invalid(self.path.as_str()) {
                    return Err(
                        PlaylistCoverError::InvalidCoverPath { ty: "jpg", path: self.path.clone() },
                    );
                }
                if !path_has_extension(self.path.as_str(), "jpg") && !path_has_extension(
                    self.path.as_str(),
                    "jpeg",
                ) {
                    return Err(
                        PlaylistCoverError::InvalidCoverPath { ty: "jpg", path: self.path.clone() },
                    );
                }
                let signature = jpg_magic_number();
                if !has_signature(self.data.as_slice(), signature.as_slice()) {
                    return Err(PlaylistCoverError::InvalidCoverData { ty: "jpg" });
                }
            },
            PlaylistCoverType::Unknown => return Err(PlaylistCoverError::UnknownCoverType),
        }
        Ok(())
    }
}

impl Playlist {
    /// A playlist with a title and nothing else.
    pub fn new(title: String) -> (r: Playlist)
        ensures
            r@ == (PlaylistView {
                schema: SCHEMA@,
                title: title@,
                author: None,
                description: None,
                cover: None,
                maps: Seq::empty(),
                custom_data: Map::empty(),
            }),
    {
        let r = Playlist {
            _schema: SCHEMA,
            title,
            author: None,
            description: None,
            cover: None,
            maps: Vec::new(),
            custom_data: new_map(),
        };
        assert(r@.maps =~= Seq::empty());
        r
    }

    /// Makes the bytes the cover of the playlist, as a PNG image under the
    /// name `cover.png`.
    pub fn set_png_cover(&mut self, data: Vec<u8>) -> (r: Result<(), BlistError>)
        ensures
            r is Ok,
            final(self)@ == (PlaylistView {
                cover: Some(
                    CoverView { path: "cover.png"@, data: data@, ty: PlaylistCoverType::Png },
                ),
                ..old(self)@
            }),
    {
        let path = "cover.png".to_owned();
        self.cover = Some(PlaylistCover { path, data, ty: PlaylistCoverType::Png });
        Ok(())
    }

    /// Makes the bytes the cover of the playlist, as a JPEG image under the
    /// name `cover.jpg`.
    pub fn set_jpg_cover(&mut self, data: Vec<u8>) -> (r: Result<(), BlistError>)
        ensures
            r is Ok,
            final(self)@ == (PlaylistView {
                cover: Some(
                    CoverView { path: "cover.jpg"@, data: data@, ty: PlaylistCoverType::Jpg },
                ),
                ..old(self)@
            }),
    {
        let path = "cover.jpg".to_owned();
        self.cover = Some(PlaylistCover { path, data, ty: PlaylistCoverType::Jpg });
        Ok(())
    }

    /// Reads a playlist from the bytes of a container. The cover that the
    /// manifest announces is read from its own entry and judged at once;
    /// the playlist comes back only if it keeps its rule.
    pub fn read(container: Vec<u8>) -> (r: Result<Playlist, BlistError>)
        ensures
            read_result_view(r) == spec_read(container@),
    {
        let mut archive = match open_archive(container) {
            Ok(archive) => archive,
            Err(error) => return Err(BlistError::Zip(error)),
        };
        let ghost entries = archive_entries(archive);
        let text = match read_entry(&mut archive, MANIFEST_NAME) {
            Ok(text) => text,
            Err(error) => return Err(BlistError::Zip(error)),
        };
        let manifest = match parse(text.as_slice()) {
            Ok(manifest) => manifest,
            Err(error) => return Err(BlistError::Json(error)),
        };
        let mut playlist = match Playlist::from_json(&manifest) {
            Ok(playlist) => playlist,
            Err(error) => return Err(BlistError::Schema(error)),
        };
        let ghost skeleton = playlist@;
        let announced = playlist.cover.take();
        if let Some(c) = announced {
            let ty = match PlaylistCover::kind_of_path(c.path.as_str()) {
                Ok(ty) => ty,
                Err(error) => return Err(
                    BlistError::Validation(PlaylistError::InvalidCover(error)),
                ),
            };
            let data = match read_entry(&mut archive, c.path.as_str()) {
                Ok(data) => data,
                Err(error) => return Err(BlistError::Zip(error)),
            };
            let cover = match PlaylistCover::from_entry(c.path, ty, data) {
                Ok(cover) => cover,
                Err(error) => return Err(
                    BlistError::Validation(PlaylistError::InvalidCover(error)),
                ),
            };
            playlist.cover = Some(cover);
        }
        assert(spec_with_cover(skeleton, entries) == Ok::<PlaylistView, BlistErrorView>(
            playlist@,
        ));
        match playlist.validate_inner(true) {
            Ok(_) => Ok(playlist),
            Err(error) => Err(BlistError::Validation(error)),
        }
    }

    /// Writes the playlist into the bytes of a container, provided that it
    /// keeps its rule: the manifest first, then the cover under its path.
    pub fn write(&self) -> (r: Result<Vec<u8>, BlistError>)
        ensures
            write_result_view(r) == spec_write(self@),
    {
        if let Err(error) = self.validate_inner(true) {
            return Err(BlistError::Validation(error));
        }
        let manifest = self.to_json();
        let text = match print(&manifest) {
            Ok(text) => text,
            Err(error) => return Err(BlistError::Json(error)),
        };
        let mut writer = new_writer();
        if let Err(error) = add_entry(&mut writer, MANIFEST_NAME, text.as_slice()) {
            return Err(BlistError::Zip(error));
        }
        assert(writer_entries(writer) =~= spec_manifest_entry(text@));
        if let Some(c) = &self.cover {
            if let Err(error) = add_entry(&mut writer, c.path.as_str(), c.data.as_slice()) {
                return Err(BlistError::Zip(error));
            }
        }
        assert(writer_entries(writer) == spec_entries(self@, text@));
        match finish(writer) {
            Ok(container) => Ok(container),
            Err(error) => Err(BlistError::Zip(error)),
        }
    }

    /// The manifest of the playlist.
    pub fn to_json(&self) -> (r: JsonValue)
        ensures
            r@ == spec_manifest(self@),
    {
        let mut members: Vec<Member> = Vec::new();
        proof {
            lemma_members_empty(members@);
        }
        put(&mut members, "$schema", JsonValue::String(self._schema.to_owned()));
        put(&mut members, "title", JsonValue::String(self.title.clone()));
        if let Some(author) = &self.author {
            put(&mut members, "author", JsonValue::String(author.clone()));
        }
        if let Some(description) = &self.description {
            put(&mut members, "description", JsonValue::String(description.clone()));
        }
        if let Some(cover) = &self.cover {
            put(&mut members, "cover", JsonValue::String(cover.path.clone()));
        }
        assert(members_view(members@) == spec_manifest_head(self@));

        let mut items: Vec<JsonValue> = Vec::new();
        let mut i: usize = 0;
        while i < self.maps.len()
            invariant
                i <= self.maps@.len(),
                items@.len() == i,
                forall|j: int|
                    0 <= j < i ==> items@[j]@ == spec_beatmap_json(#[trigger] self.maps@[j]@),
            decreases self.maps@.len() - i,
        {
            let item = self.maps[i].to_json();
            items.push(item);
            i += 1;
        }
        proof {
            lemma_array_view(items);
            assert(items_view(items@) =~= spec_maps_json(self@.maps));
        }
        put(&mut members, "maps", JsonValue::Array(items));
        if !map_is_empty(&self.custom_data) {
            let inner = map_to_members(&self.custom_data);
            proof {
                lemma_object_view(inner);
            }
            put(&mut members, "customData", JsonValue::Object(inner));
        }
        proof {
            lemma_object_view(members);
        }
        JsonValue::Object(members)
    }

    /// Reads a playlist from its manifest. A cover that the manifest
    /// announces comes back with its path alone: no bytes, and no kind yet.
    pub fn from_json(v: &JsonValue) -> (r: Result<Playlist, SchemaError>)
        ensures
            match r {
                Ok(p) => spec_playlist_from_json(v@) == Ok::<PlaylistView, SchemaErrorView>(p@),
                Err(error) => spec_playlist_from_json(v@) == Err::<PlaylistView, SchemaErrorView>(
                    error@,
                ),
            },
    {
        match v {
            JsonValue::Object(members) => {
                proof {
                    lemma_object_view(*members);
                }
                let title = match required_string(members, "title") {
                    Ok(title) => title,
                    Err(error) => return Err(error),
                };
                let author = match optional_string(members, "author") {
                    Ok(author) => author,
                    Err(error) => return Err(error),
                };
                let description = match optional_string(members, "description") {
                    Ok(description) => description,
                    Err(error) => return Err(error),
                };
                let maps = match decode_maps(members) {
                    Ok(maps) => maps,
                    Err(error) => return Err(error),
                };
                let custom_data = match optional_object(members, "customData") {
                    Ok(inner) => members_to_map(&inner),
                    Err(error) => return Err(error),
                };
                let cover = decode_cover(members);
                Ok(
                    Playlist {
                        _schema: schema(),
                        title,
                        author,
                        description,
                        cover,
                        maps,
                        custom_data,
                    },
                )
            },
            _ => Err(SchemaError::NotAnObject),
        }
    }

    /// Checks the playlist, cover included, against its rule.
    pub fn validate(&self) -> (r: Result<(), BlistError>)
        ensures
            unit_result_view(r) == match spec_validate(self@, true) {
                Ok(_) => Ok::<(), BlistErrorView>(()),
                Err(error) => Err(BlistErrorView::Validation(error)),
            },
    {
        match self.validate_inner(true) {
            Ok(_) => Ok(()),
            Err(error) => Err(BlistError::Validation(error)),
        }
    }

    /// Checks the playlist against its rule, with or without its cover.
    pub fn validate_inner(&self, validate_cover: bool) -> (r: Result<(), PlaylistError>)
        ensures
            playlist_result_view(r) == spec_validate(self@, validate_cover),
    {
        if str_is_empty_or_has_newlines(self.title.as_str()) {
            return Err(PlaylistError::InvalidField { field: "title", value: self.title.clone() });
        }
        if let Some(a) = &self.author {
            if str_is_empty_or_has_newlines(a.as_str()) {
                return Err(PlaylistError::InvalidField { field: "author", value: a.clone() });
            }
        }
        if let Some(d) = &self.description {
            if d.as_str().is_empty() {
                return Err(PlaylistError::InvalidField { field: "description", value: d.clone() });
            }
        }

        if validate_cover {
            if let Some(c) = &self.cover {
                if let Err(error) = c.validate() {
                    return Err(PlaylistError::InvalidCover(error));
                }
            }
        }

        let mut idx: usize = 0;
        while idx < self.maps.len()
            invariant
                idx <= self.maps@.len(),
                spec_invalid_text(self@) is None,
                spec_invalid_cover(self@, validate_cover) is None,
                spec_first_invalid_beatmap(self@.maps, 0) == spec_first_invalid_beatmap(
                    self@.maps,
                    idx as int,
                ),
            decreases self.maps@.len() - idx,
        {
            if let Err(error) = self.maps[idx].validate() {
                return Err(PlaylistError::InvalidBeatmap { idx, error });
            }
            idx += 1;
        }

        Ok(())
    }
}

} // verus!
