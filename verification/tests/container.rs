use blist::beatmap::Beatmap;
use blist::error::{BlistError, SchemaError};
use blist::json::{JsonValue, Member};
use blist::legacy::LegacyPlaylist;
use blist::playlist::{Playlist, PlaylistCoverType};
use blist::time::Timestamp;
use blist::validation::{PlaylistCoverError, PlaylistError};
use std::io::{Cursor, Read, Write};

const PNG: [u8; 8] = [0x89, 0x50, 0x4E, 0x47, 0x0D, 0x0A, 0x1A, 0x0A];

fn pack(entries: &[(&str, &[u8])]) -> Vec<u8> {
    let mut writer = zip::ZipWriter::new(Cursor::new(Vec::new()));
    for (name, data) in entries {
        writer.start_file(*name, zip::write::FileOptions::default()).unwrap();
        writer.write_all(data).unwrap();
    }
    writer.finish().unwrap().into_inner()
}

fn unpack(container: Vec<u8>, name: &str) -> Vec<u8> {
    let mut archive = zip::ZipArchive::new(Cursor::new(container)).unwrap();
    let mut file = archive.by_name(name).unwrap();
    let mut data = Vec::new();
    file.read_to_end(&mut data).unwrap();
    data
}

#[test]
fn container_holds_the_manifest_and_the_cover() {
    let mut playlist = Playlist::new("title".to_owned());
    let mut data = PNG.to_vec();
    data.extend_from_slice(b"pixels");
    playlist.set_png_cover(data.clone()).unwrap();
    let container = playlist.write().unwrap();

    assert_eq!(unpack(container.clone(), "cover.png"), data);
    let manifest: serde_json::Value =
        serde_json::from_slice(&unpack(container.clone(), "playlist.json")).unwrap();
    assert_eq!(manifest["title"], serde_json::Value::String("title".to_owned()));
    assert_eq!(manifest["cover"], serde_json::Value::String("cover.png".to_owned()));
    assert_eq!(manifest["maps"], serde_json::Value::Array(Vec::new()));
    assert_eq!(
        manifest["$schema"],
        serde_json::Value::String(
            "https://raw.githubusercontent.com/raftario/blist/master/playlist.schema.json"
                .to_owned()
        )
    );
    assert!(manifest.get("author").is_none());
    assert!(manifest.get("customData").is_none());
    let archive = zip::ZipArchive::new(Cursor::new(container)).unwrap();
    assert_eq!(archive.len(), 2);
}

#[test]
fn container_without_a_cover_has_one_entry() {
    let container = Playlist::new("title".to_owned()).write().unwrap();
    let archive = zip::ZipArchive::new(Cursor::new(container)).unwrap();
    assert_eq!(archive.len(), 1);
}

#[test]
fn same_playlist_packs_to_the_same_bytes() {
    let mut playlist = Playlist::new("title".to_owned());
    let mut map = Beatmap::new_key("16af".to_owned());
    map.date = Timestamp::new(1_600_000_000, 0);
    playlist.maps.push(map);
    assert_eq!(playlist.write().unwrap(), playlist.write().unwrap());
}

#[test]
fn read_a_container_made_elsewhere() {
    let manifest = br#"{
        "title": "made elsewhere",
        "author": null,
        "cover": "art.jpeg",
        "maps": [
            {"type": "key", "key": "16af", "date": "2020-01-01 00:00:00+00:00"},
            {"type": "levelID", "levelID": "custom_level", "difficulties": [
                {"name": "Expert", "characteristic": "Standard"}
            ], "customData": {"note": [1, 2.5, true, null, {"deep": "value"}]}}
        ],
        "unknown": 42
    }"#;
    let art = [0xFFu8, 0xD8, 0xFF, 0xE0, 1, 2, 3];
    let playlist = Playlist::read(pack(&[("art.jpeg", &art), ("playlist.json", manifest)])).unwrap();
    assert_eq!(playlist.title, "made elsewhere");
    assert_eq!(playlist.author, None);
    assert!(playlist.custom_data.is_empty());
    let cover = playlist.cover.clone().unwrap();
    assert_eq!(cover.ty, PlaylistCoverType::Jpg);
    assert_eq!(cover.data, art.to_vec());
    assert_eq!(cover.path, "art.jpeg");
    assert_eq!(playlist.maps.len(), 2);
    assert_eq!(playlist.maps[0].date, Timestamp::new(1_577_836_800, 0));
    assert_eq!(playlist.maps[1].difficulties.len(), 1);
    assert_eq!(playlist.maps[1].custom_data.len(), 1);
    let note = playlist.maps[1].custom_data["note"].as_array().unwrap();
    assert_eq!(note.len(), 5);
    assert_eq!(note[0], serde_json::Value::Number(serde_json::Number::from(1u64)));
    assert_eq!(note[1].as_f64(), Some(2.5));
    assert_eq!(note[2], serde_json::Value::Bool(true));
    assert_eq!(note[3], serde_json::Value::Null);
    assert_eq!(note[4]["deep"], serde_json::Value::String("value".to_owned()));

    let again = Playlist::read(playlist.write().unwrap()).unwrap();
    assert_eq!(again, playlist);
}

#[test]
fn read_needs_the_manifest_entry() {
    let container = pack(&[("other.json", b"{}")]);
    assert!(matches!(Playlist::read(container), Err(BlistError::Zip(_))));
}

#[test]
fn read_needs_json() {
    let container = pack(&[("playlist.json", b"{ not json")]);
    assert!(matches!(Playlist::read(container), Err(BlistError::Json(_))));
}

#[test]
fn read_needs_a_manifest() {
    let container = pack(&[("playlist.json", br#"{"title": "t"}"#)]);
    assert!(matches!(
        Playlist::read(container),
        Err(BlistError::Schema(SchemaError::MissingField { field: "maps" }))
    ));
    let container = pack(&[("playlist.json", b"[]")]);
    assert!(matches!(Playlist::read(container), Err(BlistError::Schema(SchemaError::NotAnObject))));
}

#[test]
fn read_needs_the_cover_entry() {
    let manifest = br#"{"title": "t", "cover": "cover.png", "maps": []}"#;
    let container = pack(&[("playlist.json", manifest)]);
    assert!(matches!(Playlist::read(container), Err(BlistError::Zip(_))));
}

#[test]
fn read_judges_the_cover_at_once() {
    let manifest = br#"{"title": "t", "cover": "cover.png", "maps": []}"#;
    let container = pack(&[("playlist.json", manifest), ("cover.png", b"no image")]);
    assert!(matches!(
        Playlist::read(container),
        Err(BlistError::Validation(PlaylistError::InvalidCover(
            PlaylistCoverError::InvalidCoverData { ty: "png" }
        )))
    ));

    let manifest = br#"{"title": "t", "cover": "cover.gif", "maps": []}"#;
    let container = pack(&[("playlist.json", manifest), ("cover.gif", b"GIF89a")]);
    assert!(matches!(
        Playlist::read(container),
        Err(BlistError::Validation(PlaylistError::InvalidCover(
            PlaylistCoverError::UnknownCoverType
        )))
    ));

    let manifest = br#"{"title": "t", "cover": "art/cover.png", "maps": []}"#;
    let container = pack(&[("playlist.json", manifest), ("art/cover.png", &PNG)]);
    match Playlist::read(container) {
        Err(BlistError::Validation(PlaylistError::InvalidCover(
            PlaylistCoverError::InvalidCoverPath { ty, path },
        ))) => {
            assert_eq!(ty, "unknown");
            assert_eq!(path, "art/cover.png");
        }
        other => panic!("unexpected {:?}", other),
    }
}

#[test]
fn read_validates_the_playlist() {
    let manifest = br#"{"title": "", "maps": []}"#;
    let container = pack(&[("playlist.json", manifest)]);
    assert!(matches!(
        Playlist::read(container),
        Err(BlistError::Validation(PlaylistError::InvalidField { field: "title", .. }))
    ));
    let manifest = br#"{"title": "t", "maps": [{"type": "hash", "key": "16af"}]}"#;
    let container = pack(&[("playlist.json", manifest)]);
    assert!(matches!(
        Playlist::read(container),
        Err(BlistError::Validation(PlaylistError::InvalidBeatmap { idx: 0, .. }))
    ));
}

#[test]
fn custom_data_comes_back_as_the_same_mapping() {
    let mut playlist = Playlist::new("t".to_owned());
    playlist.custom_data.insert("b".to_owned(), serde_json::Value::Null);
    playlist.custom_data.insert("a".to_owned(), serde_json::Value::Bool(true));
    let mut nested = serde_json::Map::new();
    nested.insert("z".to_owned(), serde_json::Value::String("last".to_owned()));
    nested.insert("y".to_owned(), serde_json::Value::Array(vec![serde_json::Value::Null]));
    playlist.custom_data.insert("nested".to_owned(), serde_json::Value::Object(nested));
    let mut map = Beatmap::new_key("16af".to_owned());
    map.custom_data.insert("k".to_owned(), serde_json::Value::Bool(false));
    map.custom_data.insert("k".to_owned(), serde_json::Value::Bool(true));
    playlist.maps.push(map);

    let back = Playlist::read(playlist.write().unwrap()).unwrap();
    assert_eq!(back, playlist);
    assert_eq!(back.maps[0].custom_data["k"], serde_json::Value::Bool(true));
    assert_eq!(back.custom_data.len(), 3);
}

#[test]
fn later_member_counts_on_the_way_out() {
    // A document with one key twice: what is printed holds the later member.
    let mut playlist = Playlist::new("t".to_owned());
    playlist.author = Some("a".to_owned());
    let manifest = match playlist.to_json() {
        JsonValue::Object(mut members) => {
            members.push(Member { key: "author".to_owned(), value: JsonValue::Null });
            members.push(Member {
                key: "title".to_owned(),
                value: JsonValue::String("later".to_owned()),
            });
            JsonValue::Object(members)
        }
        other => panic!("unexpected {:?}", other),
    };
    let read = Playlist::from_json(&manifest).unwrap();
    assert_eq!(read.title, "later");
    assert_eq!(read.author, None);
}

#[test]
fn numbers_in_custom_data_survive() {
    let mut playlist = Playlist::new("t".to_owned());
    playlist
        .custom_data
        .insert("count".to_owned(), serde_json::Value::Number(serde_json::Number::from(7u64)));
    playlist.custom_data.insert(
        "ratio".to_owned(),
        serde_json::Value::Number(serde_json::Number::from_f64(0.25).unwrap()),
    );
    playlist
        .custom_data
        .insert("debt".to_owned(), serde_json::Value::Number(serde_json::Number::from(-3i64)));
    let back = Playlist::read(playlist.write().unwrap()).unwrap();
    assert_eq!(back, playlist);
}

#[test]
fn dates_far_away_survive() {
    let mut playlist = Playlist::new("t".to_owned());
    for (secs, nanos) in [(253_402_300_800i64, 0u32), (-62_198_755_200, 1), (0, 999_999_999)] {
        let mut map = Beatmap::new_key("16af".to_owned());
        map.date = Timestamp::new(secs, nanos);
        assert!(map.date.is_some());
        playlist.maps.push(map);
    }
    let back = Playlist::read(playlist.write().unwrap()).unwrap();
    assert_eq!(back, playlist);
}

#[test]
fn legacy_playlist_from_text() {
    let text = br#"{
        "playlistTitle": "Legacy",
        "playlistAuthor": "Someone",
        "image": "data:image/png;base64, iVBORw0KGgo=",
        "syncURL": "https://example.org/list",
        "songs": [
            {"key": "16af", "songName": "First", "dateAdded": "2019-06-01T12:00:00Z"},
            {"hash": "0123456789abcdef0123456789abcdef01234567", "songName": "Second"}
        ]
    }"#;
    let legacy = LegacyPlaylist::read(text).unwrap();
    assert_eq!(legacy.title, "Legacy");
    assert_eq!(legacy.maps.len(), 2);
    assert_eq!(legacy.custom_data.len(), 1);
    assert_eq!(
        legacy.custom_data["syncURL"],
        serde_json::Value::String("https://example.org/list".to_owned())
    );

    let playlist = legacy.into_playlist(true).unwrap();
    assert_eq!(playlist.cover.as_ref().unwrap().data, PNG.to_vec());
    assert_eq!(playlist.cover.as_ref().unwrap().ty, PlaylistCoverType::Png);
    assert!(playlist.validate().is_ok());
    let back = Playlist::read(playlist.write().unwrap()).unwrap();
    assert_eq!(back, playlist);

    let dropped = LegacyPlaylist::read(text).unwrap().into_playlist(false).unwrap();
    assert!(dropped.custom_data.is_empty());
    assert!(dropped.maps.iter().all(|m| m.custom_data.is_empty()));
    assert_eq!(dropped.maps[0].key, playlist.maps[0].key);
}

#[test]
fn legacy_text_must_be_json_and_a_legacy_playlist() {
    assert!(matches!(LegacyPlaylist::read(b"nonsense"), Err(BlistError::Json(_))));
    assert!(matches!(
        LegacyPlaylist::read(b"{}"),
        Err(BlistError::Schema(SchemaError::MissingField { field: "playlistTitle" }))
    ));
    assert!(matches!(
        LegacyPlaylist::read(br#"{"playlistTitle": 1}"#),
        Err(BlistError::Schema(SchemaError::InvalidField { field: "playlistTitle" }))
    ));
}

#[test]
fn read_refuses_an_entry_that_wants_a_password() {
    // An entry that is not marked encrypted but carries the extra field of
    // AES encryption: zip has no reader for it.
    let mut writer = zip::ZipWriter::new(Cursor::new(Vec::new()));
    writer
        .start_file_with_extra_data("playlist.json", zip::write::FileOptions::default())
        .unwrap();
    writer.write_all(&[0x03, 0x99, 7, 0, 2, 0, b'A', b'E', 1, 0, 0]).unwrap();
    writer.end_extra_data().unwrap();
    writer.write_all(br#"{"title": "t", "maps": []}"#).unwrap();
    let mut container = writer.finish().unwrap().into_inner();
    assert!(Playlist::read(container.clone()).is_ok());

    let mut patched = 0;
    for i in 0..container.len() - 3 {
        if container[i..i + 4] == [0x03, 0x99, 7, 0] {
            container[i] = 0x01;
            patched += 1;
        }
    }
    assert_eq!(patched, 2);
    assert!(matches!(Playlist::read(container), Err(BlistError::Zip(_))));
}
