//! The round trip: what is written is what is read. Proved for the passage
//! between playlists and manifests, and for reading after writing as far as
//! the archive and the JSON text come back as they went out.

use crate::archive::{container_entries, packed};
use crate::beatmap::{
    spec_beatmap_from_json, spec_beatmap_json, spec_difficulties_from_json,
    spec_difficulties_json, spec_difficulty_from_json, spec_difficulty_json,
    spec_kind_from_name, spec_kind_name, BeatmapType, BeatmapView, DifficultyView,
};
use crate::error::{BlistErrorView, SchemaErrorView};
use crate::json::{json_parsed, json_text};
use crate::playlist::{
    spec_cover_from_entry, spec_entries, spec_kind_of_path, spec_manifest, spec_maps_from_json,
    spec_maps_json, spec_playlist_from_json, spec_read, spec_read_entries, spec_validate,
    spec_validate_cover, CoverView, PlaylistCoverType, PlaylistView, MANIFEST_NAME, SCHEMA,
};
use crate::time::{spec_instant_text, spec_parse_instant, Instant};
use crate::validation::PlaylistCoverErrorView;
use vstd::prelude::*;

verus! {

broadcast use vstd::string::group_string_axioms;

/// A date comes back from its RFC 3339 text as it went in.
pub open spec fn spec_date_survives(date: Option<Instant>) -> bool {
    match date {
        Some(instant) => spec_instant_text(instant) matches Some(text) && spec_parse_instant(text)
            == Some(instant),
        None => true,
    }
}

/// The dates of all tracks come back from their texts as they went in.
pub open spec fn spec_dates_survive(p: PlaylistView) -> bool {
    forall|i: int| 0 <= i < p.maps.len() ==> spec_date_survives(#[trigger] p.maps[i].date)
}

/// A playlist as its manifest alone tells it: the cover has its path, but
/// no bytes and no kind yet.
pub open spec fn spec_skeleton(p: PlaylistView) -> PlaylistView {
    PlaylistView {
        cover: match p.cover {
            Some(c) => Some(
                CoverView { path: c.path, data: Seq::empty(), ty: PlaylistCoverType::Unknown },
            ),
            None => None,
        },
        ..p
    }
}

/// The entries of an archive hold what a list of entries says, each under
/// its name.
pub open spec fn spec_holds(
    entries: Map<Seq<char>, Seq<u8>>,
    written: Seq<(Seq<char>, Seq<u8>)>,
) -> bool {
    forall|i: int|
        0 <= i < written.len() ==> entries.contains_key(#[trigger] written[i].0)
            && entries[written[i].0] == written[i].1
}

/// The keys of a manifest and of its tracks differ from one another, and so
/// do the words for the kinds of tracks and for the kinds of covers.
pub proof fn lemma_keys_differ()
    ensures
        "type"@ != "date"@,
        "type"@ != "difficulties"@,
        "type"@ != "key"@,
        "type"@ != "hash"@,
        "type"@ != "levelID"@,
        "type"@ != "customData"@,
        "date"@ != "difficulties"@,
        "date"@ != "key"@,
        "date"@ != "hash"@,
        "date"@ != "levelID"@,
        "date"@ != "customData"@,
        "difficulties"@ != "key"@,
        "difficulties"@ != "hash"@,
        "difficulties"@ != "levelID"@,
        "difficulties"@ != "customData"@,
        "key"@ != "hash"@,
        "key"@ != "levelID"@,
        "key"@ != "customData"@,
        "hash"@ != "levelID"@,
        "hash"@ != "customData"@,
        "levelID"@ != "customData"@,
        "name"@ != "characteristic"@,
        "$schema"@ != "title"@,
        "$schema"@ != "author"@,
        "$schema"@ != "description"@,
        "$schema"@ != "cover"@,
        "$schema"@ != "maps"@,
        "$schema"@ != "customData"@,
        "title"@ != "author"@,
        "title"@ != "description"@,
        "title"@ != "cover"@,
        "title"@ != "maps"@,
        "title"@ != "customData"@,
        "author"@ != "description"@,
        "author"@ != "cover"@,
        "author"@ != "maps"@,
        "author"@ != "customData"@,
        "description"@ != "cover"@,
        "description"@ != "maps"@,
        "description"@ != "customData"@,
        "cover"@ != "maps"@,
        "cover"@ != "customData"@,
        "maps"@ != "customData"@,
        "png"@ != "jpg"@,
        "png"@ != "jpeg"@,
{
    reveal_strlit("type");
    reveal_strlit("date");
    reveal_strlit("difficulties");
    reveal_strlit("key");
    reveal_strlit("hash");
    reveal_strlit("levelID");
    reveal_strlit("customData");
    reveal_strlit("name");
    reveal_strlit("characteristic");
    reveal_strlit("$schema");
    reveal_strlit("title");
    reveal_strlit("author");
    reveal_strlit("description");
    reveal_strlit("cover");
    reveal_strlit("maps");
    reveal_strlit("png");
    reveal_strlit("jpg");
    reveal_strlit("jpeg");
    assert("type"@.len() == 4);
    assert("date"@.len() == 4);
    assert("difficulties"@.len() == 12);
    assert("key"@.len() == 3);
    assert("hash"@.len() == 4);
    assert("levelID"@.len() == 7);
    assert("customData"@.len() == 10);
    assert("name"@.len() == 4);
    assert("characteristic"@.len() == 14);
    assert("$schema"@.len() == 7);
    assert("title"@.len() == 5);
    assert("author"@.len() == 6);
    assert("description"@.len() == 11);
    assert("cover"@.len() == 5);
    assert("maps"@.len() == 4);
    assert("png"@.len() == 3);
    assert("jpg"@.len() == 3);
    assert("jpeg"@.len() == 4);
    assert("type"@[0] != "date"@[0]);
    assert("type"@[0] != "hash"@[0]);
    assert("date"@[0] != "hash"@[0]);
    assert("title"@[0] != "cover"@[0]);
    assert("png"@[0] != "jpg"@[0]);
}

/// The word for a kind of track stands for that kind.
pub proof fn lemma_kind_round_trip(ty: BeatmapType)
    ensures
        spec_kind_from_name(spec_kind_name(ty)) == Some(ty),
{
    lemma_keys_differ();
}

/// A difficulty comes back from its document as it went in.
pub proof fn lemma_difficulty_round_trip(d: DifficultyView)
    ensures
        spec_difficulty_from_json(spec_difficulty_json(d)) == Ok::<
            DifficultyView,
            SchemaErrorView,
        >(d),
{
    lemma_keys_differ();
}

/// The first `n` difficulties come back from their documents as they went
/// in.
pub proof fn lemma_difficulties_round_trip(difficulties: Seq<DifficultyView>, n: nat)
    requires
        n <= difficulties.len(),
    ensures
        spec_difficulties_from_json(spec_difficulties_json(difficulties), n) == Ok::<
            Seq<DifficultyView>,
            SchemaErrorView,
        >(difficulties.take(n as int)),
    decreases n,
{
    if n == 0 {
        assert(difficulties.take(0) =~= Seq::empty());
    } else {
        lemma_difficulties_round_trip(difficulties, (n - 1) as nat);
        lemma_difficulty_round_trip(difficulties[n - 1]);
        assert(difficulties.take(n as int) =~= difficulties.take(n - 1).push(
            difficulties[n - 1],
        ));
    }
}

/// A track whose date survives its text comes back from its document as it
/// went in.
pub proof fn lemma_beatmap_round_trip(b: BeatmapView)
    requires
        spec_date_survives(b.date),
    ensures
        spec_beatmap_from_json(spec_beatmap_json(b)) == Ok::<BeatmapView, SchemaErrorView>(b),
{
    lemma_keys_differ();
    lemma_kind_round_trip(b.ty);
    lemma_difficulties_round_trip(b.difficulties, b.difficulties.len());
    assert(b.difficulties.take(b.difficulties.len() as int) =~= b.difficulties);
    if b.difficulties.len() == 0 {
        assert(b.difficulties =~= Seq::empty());
    }
    let back = spec_beatmap_from_json(spec_beatmap_json(b));
    assert(back is Ok);
    assert(back->Ok_0.custom_data =~= b.custom_data);
}

/// The first `n` tracks come back from their documents as they went in.
pub proof fn lemma_maps_round_trip(maps: Seq<BeatmapView>, n: nat)
    requires
        n <= maps.len(),
        forall|i: int| 0 <= i < maps.len() ==> spec_date_survives(#[trigger] maps[i].date),
    ensures
        spec_maps_from_json(spec_maps_json(maps), n) == Ok::<Seq<BeatmapView>, SchemaErrorView>(
            maps.take(n as int),
        ),
    decreases n,
{
    if n == 0 {
        assert(maps.take(0) =~= Seq::empty());
    } else {
        lemma_maps_round_trip(maps, (n - 1) as nat);
        lemma_beatmap_round_trip(maps[n - 1]);
        assert(maps.take(n as int) =~= maps.take(n - 1).push(maps[n - 1]));
    }
}

/// A playlist that carries the schema of the format and whose dates survive
/// their texts comes back from its manifest as it went in, its cover
/// stripped to the path.
pub proof fn lemma_manifest_round_trip(p: PlaylistView)
    requires
        p.schema == SCHEMA@,
        spec_dates_survive(p),
    ensures
        spec_playlist_from_json(spec_manifest(p)) == Ok::<PlaylistView, SchemaErrorView>(
            spec_skeleton(p),
        ),
{
    lemma_keys_differ();
    lemma_maps_round_trip(p.maps, p.maps.len());
    assert(p.maps.take(p.maps.len() as int) =~= p.maps);
    let back = spec_playlist_from_json(spec_manifest(p));
    assert(back is Ok);
    assert(back->Ok_0.custom_data =~= p.custom_data);
}

/// A valid cover is what its path and its bytes make of themselves: the
/// path announces its kind, and the bytes fit it.
pub proof fn lemma_cover_round_trip(c: CoverView)
    requires
        spec_validate_cover(c) is Ok,
    ensures
        spec_kind_of_path(c.path) == Ok::<PlaylistCoverType, PlaylistCoverErrorView>(c.ty),
        spec_cover_from_entry(c.path, c.ty, c.data) == Ok::<CoverView, PlaylistCoverErrorView>(c),
{
    lemma_keys_differ();
}

/// Reading gives back a valid playlist that carries the schema of the
/// format from entries that hold its manifest and its cover: provided that
/// the dates survive their texts, and that the text of the manifest is read
/// as the manifest that was printed.
pub proof fn lemma_read_entries_of_playlist(
    p: PlaylistView,
    entries: Map<Seq<char>, Seq<u8>>,
    text: Seq<u8>,
)
    requires
        p.schema == SCHEMA@,
        spec_validate(p, true) is Ok,
        spec_dates_survive(p),
        json_parsed(text) == Some(spec_manifest(p)),
        spec_holds(entries, spec_entries(p, text)),
    ensures
        spec_read_entries(entries) == Ok::<PlaylistView, BlistErrorView>(p),
{
    lemma_manifest_round_trip(p);
    let written = spec_entries(p, text);
    assert(written[0] == (MANIFEST_NAME@, text));
    assert(entries.contains_key(written[0].0));
    match p.cover {
        Some(c) => {
            lemma_cover_round_trip(c);
            assert(written[1] == (c.path, c.data));
            assert(entries.contains_key(written[1].0));
        },
        None => {},
    }
}

/// The round trip. Let a valid playlist that carries the schema of the
/// format be written, and let the outside world give back what it was given: the dates survive their texts, the
/// text of the manifest is read as the manifest that was printed, and the
/// container opens to the entries that were packed. Then reading the
/// container gives back the playlist.
pub proof fn lemma_round_trip(p: PlaylistView, text: Seq<u8>, container: Seq<u8>)
    requires
        p.schema == SCHEMA@,
        spec_validate(p, true) is Ok,
        json_text(spec_manifest(p)) == Some(text),
        packed(spec_entries(p, text)) == Some(container),
        spec_dates_survive(p),
        json_parsed(text) == Some(spec_manifest(p)),
        container_entries(container) matches Some(entries) && spec_holds(
            entries,
            spec_entries(p, text),
        ),
    ensures
        spec_read(container) == Ok::<PlaylistView, BlistErrorView>(p),
{
    lemma_read_entries_of_playlist(p, container_entries(container)->0, text);
}

} // verus!
