use blist::beatmap::{Beatmap, BeatmapDifficulty, BeatmapType};
use blist::error::{BlistError, SchemaError};
use blist::json::{JsonValue, Member};
use blist::playlist::{Playlist, PlaylistCover, PlaylistCoverType, SCHEMA};
use blist::time::Timestamp;
use blist::validation::{
    BeatmapDifficultyError, BeatmapError, PlaylistCoverError, PlaylistError,
};

const PNG: [u8; 8] = [0x89, 0x50, 0x4E, 0x47, 0x0D, 0x0A, 0x1A, 0x0A];
const JPG: [u8; 3] = [0xFF, 0xD8, 0xFF];
const HASH: &str = "0123456789abcdef0123456789abcdef01234567";

fn png_bytes() -> Vec<u8> {
    let mut data = PNG.to_vec();
    data.extend_from_slice(&[1, 2, 3, 4]);
    data
}

fn jpg_bytes() -> Vec<u8> {
    let mut data = JPG.to_vec();
    data.extend_from_slice(&[0xE0, 9, 8, 7]);
    data
}

fn sample() -> Playlist {
    let mut playlist = Playlist::new("playlist".to_owned());
    playlist.author = Some("author".to_owned());
    playlist.description = Some("description".to_owned());
    playlist
        .custom_data
        .insert("key".to_owned(), serde_json::Value::String("value".to_owned()));

    let mut map = Beatmap::new_key("16af".to_owned());
    map.difficulties.push(BeatmapDifficulty {
        name: "Expert+".to_owned(),
        characteristic: "normal".to_owned(),
    });
    playlist.maps.push(map);
    playlist.maps.push(Beatmap::new_hash(HASH.to_string()));
    playlist.maps.push(Beatmap::new_level_id("level ID".to_string()));
    playlist
}

#[test]
fn write_and_read() {
    let mut old = Playlist::new("playlist".to_owned());
    old.author = Some("author".to_owned());
    old.description = Some("description".to_owned());
    old.custom_data
        .insert("key".to_owned(), serde_json::Value::String("value".to_owned()));

    let mut map = Beatmap::new_key("16af".to_owned());
    map.difficulties.push(BeatmapDifficulty {
        name: "Expert+".to_owned(),
        characteristic: "normal".to_owned(),
    });
    old.maps.push(map);
    old.maps.push(Beatmap::new_hash(
        "0123456789abcdef0123456789abcdef01234567".to_string(),
    ));
    old.maps.push(Beatmap::new_level_id("level ID".to_string()));

    let buffer = old.write().unwrap();
    let new = Playlist::read(buffer).unwrap();

    assert_eq!(old, new);
}

#[test]
fn validation() {
    let string = "string".to_owned();
    let newline = "newline\n".to_owned();
    let empty = "".to_owned();

    let mut playlist = Playlist::new(string.clone());

    let invalid_title = Playlist::new(newline.clone());
    assert!(invalid_title.validate().is_err());

    let mut invalid_author = playlist.clone();
    invalid_author.author = Some(newline.clone());
    assert!(invalid_author.validate().is_err());

    let mut invalid_description = playlist.clone();
    invalid_description.description = Some(empty.clone());
    assert!(invalid_description.validate().is_err());

    let mut invalid_cover_path = playlist.clone();
    invalid_cover_path.cover = Some(PlaylistCover {
        path: "subdirectory/cover.exe".to_owned(),
        data: vec![0, 1, 2, 3, 4, 5, 6, 7, 8, 9],
        ty: PlaylistCoverType::Jpg,
    });
    assert!(invalid_cover_path.validate().is_err());

    let mut invalid_cover_data = playlist.clone();
    invalid_cover_data.cover = Some(PlaylistCover {
        path: "cover.png".to_owned(),
        data: vec![0, 1, 2, 3, 4, 5, 6, 7, 8, 9],
        ty: PlaylistCoverType::Png,
    });
    assert!(invalid_cover_data.validate().is_err());

    let mut unknown_cover_type = playlist.clone();
    unknown_cover_type.cover = Some(PlaylistCover {
        path: "cover".to_owned(),
        data: Vec::new(),
        ty: PlaylistCoverType::Unknown,
    });
    assert!(unknown_cover_type.validate().is_err());

    let invalid_key = Beatmap::new_key(string.clone());
    playlist.maps.push(invalid_key);
    assert!(playlist.validate().is_err());

    playlist.maps.clear();
    let invalid_hash = Beatmap::new_hash(string);
    playlist.maps.push(invalid_hash);
    assert!(playlist.validate().is_err());

    playlist.maps.clear();
    let invalid_level_id = Beatmap::new_level_id(empty.clone());
    playlist.maps.push(invalid_level_id);
    assert!(playlist.validate().is_err());

    playlist.maps.clear();
    let mut invalid_difficulty = Beatmap::new_key("16af".to_owned());
    invalid_difficulty.difficulties.push(BeatmapDifficulty {
        name: empty,
        characteristic: newline,
    });
    playlist.maps.push(invalid_difficulty);
    assert!(playlist.validate().is_err());
}

#[test]
fn valid_playlist_passes() {
    assert!(sample().validate().is_ok());
    assert_eq!(sample().validate_inner(true), Ok(()));
    assert_eq!(sample().validate_inner(false), Ok(()));
}

#[test]
fn title_must_be_a_single_line() {
    for title in ["", "two\nlines", "carriage\rreturn"] {
        let playlist = Playlist::new(title.to_owned());
        assert_eq!(
            playlist.validate_inner(true),
            Err(PlaylistError::InvalidField { field: "title", value: title.to_owned() })
        );
    }
    assert_eq!(Playlist::new("a title".to_owned()).validate_inner(true), Ok(()));
}

#[test]
fn author_must_be_a_single_line() {
    for author in ["", "two\nlines", "carriage\rreturn"] {
        let mut playlist = Playlist::new("title".to_owned());
        playlist.author = Some(author.to_owned());
        assert_eq!(
            playlist.validate_inner(true),
            Err(PlaylistError::InvalidField { field: "author", value: author.to_owned() })
        );
    }
}

#[test]
fn description_may_span_lines_but_not_be_empty() {
    let mut playlist = Playlist::new("title".to_owned());
    playlist.description = Some("first\nsecond".to_owned());
    assert_eq!(playlist.validate_inner(true), Ok(()));
    playlist.description = Some(String::new());
    assert_eq!(
        playlist.validate_inner(true),
        Err(PlaylistError::InvalidField { field: "description", value: String::new() })
    );
}

#[test]
fn title_is_judged_before_author() {
    let mut playlist = Playlist::new(String::new());
    playlist.author = Some(String::new());
    assert_eq!(
        playlist.validate_inner(true),
        Err(PlaylistError::InvalidField { field: "title", value: String::new() })
    );
}

#[test]
fn validate_wraps_the_breach() {
    let playlist = Playlist::new(String::new());
    match playlist.validate() {
        Err(BlistError::Validation(PlaylistError::InvalidField { field, value })) => {
            assert_eq!(field, "title");
            assert_eq!(value, "");
        }
        other => panic!("unexpected {:?}", other),
    }
}

#[test]
fn hash_must_be_forty_hex_digits() {
    let mut map = Beatmap::new_hash(HASH.to_owned());
    assert_eq!(map.validate(), Ok(()));

    map.hash = Some("deadbeef".to_owned());
    assert_eq!(
        map.validate(),
        Err(BeatmapError::InvalidField { field: "hash", value: "deadbeef".to_owned() })
    );

    let not_hex = "zz23456789abcdef0123456789abcdef01234567";
    map.hash = Some(not_hex.to_owned());
    assert_eq!(
        map.validate(),
        Err(BeatmapError::InvalidField { field: "hash", value: not_hex.to_owned() })
    );

    let too_long = "0123456789abcdef0123456789abcdef012345678";
    map.hash = Some(too_long.to_owned());
    assert!(map.validate().is_err());

    map.hash = Some("0123456789ABCDEF0123456789abcdef01234567".to_owned());
    assert_eq!(map.validate(), Ok(()));
}

#[test]
fn key_must_be_hex_and_not_empty() {
    let mut map = Beatmap::new_key("16af".to_owned());
    assert_eq!(map.validate(), Ok(()));
    map.key = Some(String::new());
    assert_eq!(
        map.validate(),
        Err(BeatmapError::InvalidField { field: "key", value: String::new() })
    );
    map.key = Some("xyz".to_owned());
    assert_eq!(
        map.validate(),
        Err(BeatmapError::InvalidField { field: "key", value: "xyz".to_owned() })
    );
}

#[test]
fn level_id_must_be_a_single_line() {
    let mut map = Beatmap::new_level_id("level ID".to_owned());
    assert_eq!(map.validate(), Ok(()));
    map.level_id = Some("two\nlines".to_owned());
    assert_eq!(
        map.validate(),
        Err(BeatmapError::InvalidField { field: "levelID", value: "two\nlines".to_owned() })
    );
}

#[test]
fn kind_without_identifier_is_mismatched() {
    let mut map = Beatmap::new_key("16af".to_owned());
    map.ty = BeatmapType::Hash;
    assert_eq!(
        map.validate(),
        Err(BeatmapError::MismatchedType { ty: "hash", field: "hash" })
    );
    map.ty = BeatmapType::LevelId;
    assert_eq!(
        map.validate(),
        Err(BeatmapError::MismatchedType { ty: "levelID", field: "levelID" })
    );
    map.ty = BeatmapType::Key;
    map.key = None;
    assert_eq!(
        map.validate(),
        Err(BeatmapError::MismatchedType { ty: "key", field: "key" })
    );
}

#[test]
fn identifiers_beside_the_kind_are_judged_too() {
    let mut map = Beatmap::new_key("16af".to_owned());
    map.hash = Some("deadbeef".to_owned());
    assert_eq!(
        map.validate(),
        Err(BeatmapError::InvalidField { field: "hash", value: "deadbeef".to_owned() })
    );
}

#[test]
fn first_invalid_difficulty_is_reported() {
    let mut map = Beatmap::new_key("16af".to_owned());
    map.difficulties.push(BeatmapDifficulty {
        name: "Expert".to_owned(),
        characteristic: "Standard".to_owned(),
    });
    map.difficulties.push(BeatmapDifficulty {
        name: "Hard".to_owned(),
        characteristic: String::new(),
    });
    map.difficulties.push(BeatmapDifficulty {
        name: String::new(),
        characteristic: "Standard".to_owned(),
    });
    assert_eq!(
        map.validate(),
        Err(BeatmapError::InvalidDifficulty {
            idx: 1,
            error: BeatmapDifficultyError::InvalidField {
                field: "characteristic",
                value: String::new()
            }
        })
    );
}

#[test]
fn difficulty_name_is_judged_first() {
    let difficulty = BeatmapDifficulty { name: String::new(), characteristic: "a\nb".to_owned() };
    assert_eq!(
        difficulty.validate(),
        Err(BeatmapDifficultyError::InvalidField { field: "name", value: String::new() })
    );
    let fine = BeatmapDifficulty { name: "Easy".to_owned(), characteristic: "Standard".to_owned() };
    assert_eq!(fine.validate(), Ok(()));
}

#[test]
fn first_invalid_track_is_reported() {
    let mut playlist = Playlist::new("title".to_owned());
    playlist.maps.push(Beatmap::new_key("16af".to_owned()));
    playlist.maps.push(Beatmap::new_key("nothex".to_owned()));
    playlist.maps.push(Beatmap::new_hash("short".to_owned()));
    assert_eq!(
        playlist.validate_inner(true),
        Err(PlaylistError::InvalidBeatmap {
            idx: 1,
            error: BeatmapError::InvalidField { field: "key", value: "nothex".to_owned() }
        })
    );
}

#[test]
fn png_cover_signature() {
    let mut cover = PlaylistCover {
        path: "cover.png".to_owned(),
        data: png_bytes(),
        ty: PlaylistCoverType::Png,
    };
    assert_eq!(cover.validate(), Ok(()));

    cover.ty = PlaylistCoverType::Jpg;
    assert!(cover.validate().is_err());

    cover.ty = PlaylistCoverType::Png;
    cover.data = PNG[..7].to_vec();
    assert_eq!(cover.validate(), Err(PlaylistCoverError::InvalidCoverData { ty: "png" }));

    cover.data = PNG.to_vec();
    assert_eq!(cover.validate(), Ok(()));
}

#[test]
fn jpg_cover_signature_and_extensions() {
    let mut cover = PlaylistCover {
        path: "cover.jpg".to_owned(),
        data: jpg_bytes(),
        ty: PlaylistCoverType::Jpg,
    };
    assert_eq!(cover.validate(), Ok(()));
    cover.path = "cover.jpeg".to_owned();
    assert_eq!(cover.validate(), Ok(()));
    cover.path = "cover.png".to_owned();
    assert_eq!(
        cover.validate(),
        Err(PlaylistCoverError::InvalidCoverPath { ty: "jpg", path: "cover.png".to_owned() })
    );
    cover.path = "cover.jpg".to_owned();
    cover.data = png_bytes();
    assert_eq!(cover.validate(), Err(PlaylistCoverError::InvalidCoverData { ty: "jpg" }));
}

#[test]
fn nested_cover_path_fails() {
    let cover = PlaylistCover {
        path: "subdirectory/cover.jpg".to_owned(),
        data: jpg_bytes(),
        ty: PlaylistCoverType::Jpg,
    };
    assert_eq!(
        cover.validate(),
        Err(PlaylistCoverError::InvalidCoverPath {
            ty: "jpg",
            path: "subdirectory/cover.jpg".to_owned()
        })
    );
    let mut playlist = Playlist::new("title".to_owned());
    playlist.cover = Some(cover);
    assert!(playlist.validate().is_err());
    assert!(playlist.write().is_err());
    assert_eq!(playlist.validate_inner(false), Ok(()));
}

#[test]
fn unknown_cover_kind_fails() {
    let cover = PlaylistCover {
        path: "cover.png".to_owned(),
        data: png_bytes(),
        ty: PlaylistCoverType::Unknown,
    };
    assert_eq!(cover.validate(), Err(PlaylistCoverError::UnknownCoverType));
    assert_eq!(PlaylistCoverType::default(), PlaylistCoverType::Unknown);
}

#[test]
fn kind_of_path() {
    assert_eq!(PlaylistCover::kind_of_path("cover.png"), Ok(PlaylistCoverType::Png));
    assert_eq!(PlaylistCover::kind_of_path("cover.jpg"), Ok(PlaylistCoverType::Jpg));
    assert_eq!(PlaylistCover::kind_of_path("cover.jpeg"), Ok(PlaylistCoverType::Jpg));
    assert_eq!(
        PlaylistCover::kind_of_path("cover.gif"),
        Err(PlaylistCoverError::UnknownCoverType)
    );
    assert_eq!(
        PlaylistCover::kind_of_path("a/cover.png"),
        Err(PlaylistCoverError::InvalidCoverPath { ty: "unknown", path: "a/cover.png".to_owned() })
    );
    assert_eq!(
        PlaylistCover::kind_of_path("cover"),
        Err(PlaylistCoverError::InvalidCoverPath { ty: "unknown", path: "cover".to_owned() })
    );
}

#[test]
fn cover_from_entry() {
    let cover =
        PlaylistCover::from_entry("cover.png".to_owned(), PlaylistCoverType::Png, png_bytes());
    assert_eq!(
        cover,
        Ok(PlaylistCover {
            path: "cover.png".to_owned(),
            data: png_bytes(),
            ty: PlaylistCoverType::Png
        })
    );
    assert_eq!(
        PlaylistCover::from_entry("cover.png".to_owned(), PlaylistCoverType::Png, jpg_bytes()),
        Err(PlaylistCoverError::InvalidCoverData { ty: "png" })
    );
    assert_eq!(
        PlaylistCover::from_entry("cover.jpg".to_owned(), PlaylistCoverType::Jpg, png_bytes()),
        Err(PlaylistCoverError::InvalidCoverData { ty: "jpg" })
    );
    assert_eq!(
        PlaylistCover::from_entry("cover.jpg".to_owned(), PlaylistCoverType::Unknown, jpg_bytes()),
        Err(PlaylistCoverError::UnknownCoverType)
    );
}

#[test]
fn set_cover() {
    let mut playlist = Playlist::new("title".to_owned());
    assert!(playlist.set_png_cover(png_bytes()).is_ok());
    assert_eq!(
        playlist.cover,
        Some(PlaylistCover {
            path: "cover.png".to_owned(),
            data: png_bytes(),
            ty: PlaylistCoverType::Png
        })
    );
    assert!(playlist.set_jpg_cover(jpg_bytes()).is_ok());
    assert_eq!(
        playlist.cover,
        Some(PlaylistCover {
            path: "cover.jpg".to_owned(),
            data: jpg_bytes(),
            ty: PlaylistCoverType::Jpg
        })
    );
    assert_eq!(playlist.title, "title");
}

#[test]
fn write_and_read_with_png_cover() {
    let mut old = sample();
    old.set_png_cover(png_bytes()).unwrap();
    let buffer = old.write().unwrap();
    assert_ne!(buffer, png_bytes());
    let new = Playlist::read(buffer).unwrap();
    assert_eq!(old, new);
    assert_eq!(new.cover.unwrap().data, png_bytes());
}

#[test]
fn write_and_read_with_jpg_cover() {
    let mut old = sample();
    old.set_jpg_cover(jpg_bytes()).unwrap();
    let new = Playlist::read(old.write().unwrap()).unwrap();
    assert_eq!(old, new);
}

#[test]
fn write_and_read_with_jpeg_extension() {
    let mut old = sample();
    old.cover = Some(PlaylistCover {
        path: "front.jpeg".to_owned(),
        data: jpg_bytes(),
        ty: PlaylistCoverType::Jpg,
    });
    let new = Playlist::read(old.write().unwrap()).unwrap();
    assert_eq!(old, new);
}

#[test]
fn write_and_read_keeps_dates() {
    let mut old = Playlist::new("dates".to_owned());
    let mut map = Beatmap::new_key("16af".to_owned());
    map.date = Timestamp::new(1_577_836_800, 123_000_000);
    assert!(map.date.is_some());
    old.maps.push(map);
    let mut none = Beatmap::new_hash(HASH.to_owned());
    none.date = None;
    old.maps.push(none);
    let new = Playlist::read(old.write().unwrap()).unwrap();
    assert_eq!(old, new);
    assert_eq!(new.maps[0].date.unwrap().secs(), 1_577_836_800);
    assert_eq!(new.maps[0].date.unwrap().nanos(), 123_000_000);
}

#[test]
fn write_refuses_an_invalid_playlist() {
    let playlist = Playlist::new("two\nlines".to_owned());
    match playlist.write() {
        Err(BlistError::Validation(PlaylistError::InvalidField { field, .. })) => {
            assert_eq!(field, "title")
        }
        other => panic!("unexpected {:?}", other),
    }
}

#[test]
fn read_refuses_what_is_no_archive() {
    assert!(matches!(Playlist::read(b"not an archive".to_vec()), Err(BlistError::Zip(_))));
    assert!(matches!(Playlist::read(Vec::new()), Err(BlistError::Zip(_))));
}

#[test]
fn manifest_of_a_playlist() {
    let mut playlist = Playlist::new("title".to_owned());
    playlist.set_png_cover(png_bytes()).unwrap();
    let manifest = playlist.to_json();
    let expected = JsonValue::Object(vec![
        Member { key: "$schema".to_owned(), value: JsonValue::String(SCHEMA.to_owned()) },
        Member { key: "title".to_owned(), value: JsonValue::String("title".to_owned()) },
        Member { key: "cover".to_owned(), value: JsonValue::String("cover.png".to_owned()) },
        Member { key: "maps".to_owned(), value: JsonValue::Array(Vec::new()) },
    ]);
    assert_eq!(manifest, expected);
}

#[test]
fn manifest_of_a_track() {
    let mut map = Beatmap::new_key("16af".to_owned());
    map.date = Timestamp::new(0, 0);
    map.difficulties.push(BeatmapDifficulty {
        name: "Expert+".to_owned(),
        characteristic: "normal".to_owned(),
    });
    let expected = JsonValue::Object(vec![
        Member { key: "type".to_owned(), value: JsonValue::String("key".to_owned()) },
        Member {
            key: "date".to_owned(),
            value: JsonValue::String("1970-01-01T00:00:00Z".to_owned()),
        },
        Member {
            key: "difficulties".to_owned(),
            value: JsonValue::Array(vec![JsonValue::Object(vec![
                Member { key: "name".to_owned(), value: JsonValue::String("Expert+".to_owned()) },
                Member {
                    key: "characteristic".to_owned(),
                    value: JsonValue::String("normal".to_owned()),
                },
            ])]),
        },
        Member { key: "key".to_owned(), value: JsonValue::String("16af".to_owned()) },
        Member { key: "hash".to_owned(), value: JsonValue::Null },
        Member { key: "levelID".to_owned(), value: JsonValue::Null },
    ]);
    assert_eq!(map.to_json(), expected);
    assert_eq!(Beatmap::from_json(&expected), Ok(map));
}

#[test]
fn playlist_from_manifest() {
    let mut playlist = sample();
    playlist.cover = Some(PlaylistCover {
        path: "cover.png".to_owned(),
        data: Vec::new(),
        ty: PlaylistCoverType::Unknown,
    });
    assert_eq!(Playlist::from_json(&playlist.to_json()), Ok(playlist));
}

#[test]
fn manifest_must_be_laid_out_as_the_format_asks() {
    assert_eq!(Playlist::from_json(&JsonValue::Null), Err(SchemaError::NotAnObject));
    assert_eq!(
        Playlist::from_json(&JsonValue::Object(Vec::new())),
        Err(SchemaError::MissingField { field: "title" })
    );
    let title = Member { key: "title".to_owned(), value: JsonValue::String("t".to_owned()) };
    assert_eq!(
        Playlist::from_json(&JsonValue::Object(vec![title.clone()])),
        Err(SchemaError::MissingField { field: "maps" })
    );
    assert_eq!(
        Playlist::from_json(&JsonValue::Object(vec![
            title.clone(),
            Member { key: "maps".to_owned(), value: JsonValue::Bool(true) },
        ])),
        Err(SchemaError::InvalidField { field: "maps" })
    );
    assert_eq!(
        Playlist::from_json(&JsonValue::Object(vec![
            title.clone(),
            Member { key: "author".to_owned(), value: JsonValue::Bool(true) },
            Member { key: "maps".to_owned(), value: JsonValue::Array(Vec::new()) },
        ])),
        Err(SchemaError::InvalidField { field: "author" })
    );
    assert_eq!(
        Playlist::from_json(&JsonValue::Object(vec![
            title.clone(),
            Member { key: "maps".to_owned(), value: JsonValue::Array(vec![JsonValue::Null]) },
        ])),
        Err(SchemaError::NotAnObject)
    );
    assert_eq!(
        Playlist::from_json(&JsonValue::Object(vec![
            title.clone(),
            Member { key: "author".to_owned(), value: JsonValue::Null },
            Member { key: "cover".to_owned(), value: JsonValue::Bool(false) },
            Member { key: "unknown".to_owned(), value: JsonValue::Bool(false) },
            Member { key: "maps".to_owned(), value: JsonValue::Array(Vec::new()) },
        ])),
        Ok(Playlist::new("t".to_owned()))
    );
}

#[test]
fn track_must_be_laid_out_as_the_format_asks() {
    assert_eq!(
        Beatmap::from_json(&JsonValue::Object(Vec::new())),
        Err(SchemaError::MissingField { field: "type" })
    );
    assert_eq!(
        Beatmap::from_json(&JsonValue::Object(vec![Member {
            key: "type".to_owned(),
            value: JsonValue::String("song".to_owned())
        }])),
        Err(SchemaError::InvalidField { field: "type" })
    );
    assert_eq!(
        Beatmap::from_json(&JsonValue::Object(vec![
            Member { key: "type".to_owned(), value: JsonValue::String("levelID".to_owned()) },
            Member { key: "date".to_owned(), value: JsonValue::String("yesterday".to_owned()) },
        ])),
        Err(SchemaError::InvalidField { field: "date" })
    );
    let bare = Beatmap::from_json(&JsonValue::Object(vec![Member {
        key: "type".to_owned(),
        value: JsonValue::String("hash".to_owned()),
    }]))
    .unwrap();
    assert_eq!(bare.ty, BeatmapType::Hash);
    assert_eq!(bare.date, None);
    assert_eq!(bare.hash, None);
    assert!(bare.difficulties.is_empty());
    assert!(bare.custom_data.is_empty());
}

#[test]
fn later_member_counts_where_a_key_occurs_twice() {
    let manifest = JsonValue::Object(vec![
        Member { key: "title".to_owned(), value: JsonValue::String("first".to_owned()) },
        Member { key: "title".to_owned(), value: JsonValue::String("second".to_owned()) },
        Member { key: "maps".to_owned(), value: JsonValue::Array(Vec::new()) },
    ]);
    assert_eq!(Playlist::from_json(&manifest).unwrap().title, "second");
}

#[test]
fn new_tracks() {
    let key = Beatmap::new_key("16af".to_owned());
    assert_eq!(key.ty, BeatmapType::Key);
    assert_eq!(key.key.as_deref(), Some("16af"));
    assert!(key.date.is_some() && key.hash.is_none() && key.level_id.is_none());
    let hash = Beatmap::new_hash(HASH.to_owned());
    assert_eq!(hash.ty, BeatmapType::Hash);
    assert_eq!(hash.hash.as_deref(), Some(HASH));
    let level = Beatmap::new_level_id("id".to_owned());
    assert_eq!(level.ty, BeatmapType::LevelId);
    assert_eq!(level.level_id.as_deref(), Some("id"));
    assert!(level.difficulties.is_empty() && level.custom_data.is_empty());
}

#[test]
fn timestamps() {
    let t = Timestamp::new(1_577_836_800, 0).unwrap();
    assert_eq!(t.to_text(), "2020-01-01T00:00:00Z");
    assert_eq!(Timestamp::parse("2020-01-01T00:00:00Z"), Some(t));
    assert_eq!(Timestamp::parse("2020-01-01T01:00:00+01:00"), Some(t));
    assert_eq!(Timestamp::parse("not a date"), None);
    assert_eq!(Timestamp::new(i64::MAX, 0), None);
    let fraction = Timestamp::new(1, 500_000_000).unwrap();
    assert_eq!(fraction.to_text(), "1970-01-01T00:00:01.500Z");
    let now = Timestamp::now();
    assert_eq!(Timestamp::parse(&now.to_text()), Some(now));
}

#[test]
fn tracks_are_ordered_by_date() {
    let mut early = Beatmap::new_key("16af".to_owned());
    early.date = Timestamp::new(10, 5);
    let mut late = Beatmap::new_hash(HASH.to_owned());
    late.date = Timestamp::new(10, 6);
    let mut later = Beatmap::new_key("ffff".to_owned());
    later.date = Timestamp::new(11, 0);
    let mut undated = Beatmap::new_key("16af".to_owned());
    undated.date = None;

    assert!(early < late);
    assert!(late < later);
    assert!(later > early);
    assert!(undated < early);
    assert!(early >= undated);
    assert_eq!(early.partial_cmp(&late), Some(std::cmp::Ordering::Less));
    assert_eq!(late.partial_cmp(&early), Some(std::cmp::Ordering::Greater));
    assert_eq!(undated.partial_cmp(&undated.clone()), Some(std::cmp::Ordering::Equal));
    let mut same_date = Beatmap::new_level_id("id".to_owned());
    same_date.date = early.date;
    assert_eq!(early.partial_cmp(&same_date), Some(std::cmp::Ordering::Equal));
    assert_eq!(
        blist::ordering::date_order(&early.date, &later.date),
        std::cmp::Ordering::Less
    );
}
