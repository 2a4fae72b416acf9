//! Tracks of a playlist: a reference to a level by key, hash or level
//! identifier, with the difficulties that the playlist picks.

use crate::error::{SchemaError, SchemaErrorView};
use crate::json::{
    get, items_view, lemma_array_view, lemma_members_empty, lemma_object_view, map_is_empty,
    map_members, map_to_members, members_to_map, members_view, new_map, optional_object,
    optional_string, put, required_string, spec_get, spec_is_empty, spec_optional_object,
    spec_optional_string, spec_required_string, spec_text_json, text_json, text_view, JsonMap,
    JsonValue, JsonView, Member,
};
use crate::time::{date_view, spec_instant_text, spec_parse_instant, Instant, Timestamp};
use crate::utils::str_eq;
use crate::utils::{
    spec_is_empty_or_has_newlines, spec_is_hex, str_char_count, str_is_empty_or_has_newlines,
    str_is_hex,
};
use crate::validation::{
    BeatmapDifficultyError, BeatmapDifficultyErrorView, BeatmapError, BeatmapErrorView,
};
use vstd::prelude::*;

verus! {

/// Number of characters in the hash of a level.
pub const HASH_LEN: usize = 40;

/// How a track refers to its level.
#[derive(Debug, Copy, Clone, PartialEq, Eq, Hash)]
pub enum BeatmapType {
    Key,
    Hash,
    LevelId,
}

/// A difficulty of a level, by name and characteristic.
#[derive(Debug, Clone, PartialEq, Eq, Hash)]
pub struct BeatmapDifficulty {
    pub name: String,
    pub characteristic: String,
}

/// A track of a playlist.
#[derive(Debug, Clone, PartialEq, Eq)]
pub struct Beatmap {
    pub ty: BeatmapType,
    pub date: Option<Timestamp>,
    pub difficulties: Vec<BeatmapDifficulty>,
    pub key: Option<String>,
    pub hash: Option<String>,
    pub level_id: Option<String>,
    pub custom_data: JsonMap,
}

/// The mathematical content of a [`BeatmapDifficulty`].
pub struct DifficultyView {
    pub name: Seq<char>,
    pub characteristic: Seq<char>,
}

/// The mathematical content of a [`Beatmap`].
pub struct BeatmapView {
    pub ty: BeatmapType,
    pub date: Option<Instant>,
    pub difficulties: Seq<DifficultyView>,
    pub key: Option<Seq<char>>,
    pub hash: Option<Seq<char>>,
    pub level_id: Option<Seq<char>>,
    pub custom_data: Map<Seq<char>, JsonView>,
}

impl View for BeatmapDifficulty {
    type V = DifficultyView;

    open spec fn view(&self) -> DifficultyView {
        DifficultyView { name: self.name@, characteristic: self.characteristic@ }
    }
}

/// The content of a list of difficulties.
pub open spec fn difficulties_view(difficulties: Seq<BeatmapDifficulty>) -> Seq<DifficultyView> {
    Seq::new(difficulties.len(), |i: int| difficulties[i]@)
}

impl View for Beatmap {
    type V = BeatmapView;

    open spec fn view(&self) -> BeatmapView {
        BeatmapView {
            ty: self.ty,
            date: date_view(self.date),
            difficulties: difficulties_view(self.difficulties@),
            key: text_view(self.key),
            hash: text_view(self.hash),
            level_id: text_view(self.level_id),
            custom_data: map_members(self.custom_data),
        }
    }
}

/// The content of what validating a difficulty returns.
pub open spec fn difficulty_result_view(
    r: Result<(), BeatmapDifficultyError>,
) -> Result<(), BeatmapDifficultyErrorView> {
    match r {
        Ok(_) => Ok(()),
        Err(error) => Err(error@),
    }
}

/// The content of what validating a track returns.
pub open spec fn beatmap_result_view(r: Result<(), BeatmapError>) -> Result<(), BeatmapErrorView> {
    match r {
        Ok(_) => Ok(()),
        Err(error) => Err(error@),
    }
}

/// The rule of a difficulty: name, then characteristic, each a single line
/// that is not empty.
pub open spec fn spec_validate_difficulty(d: DifficultyView) -> Result<
    (),
    BeatmapDifficultyErrorView,
> {
    if spec_is_empty_or_has_newlines(d.name) {
        Err(BeatmapDifficultyErrorView::InvalidField { field: "name"@, value: d.name })
    } else if spec_is_empty_or_has_newlines(d.characteristic) {
        Err(
            BeatmapDifficultyErrorView::InvalidField {
                field: "characteristic"@,
                value: d.characteristic,
            },
        )
    } else {
        Ok(())
    }
}

/// The first difficulty at or after `from` that breaks its rule, as the
/// error that a track reports for it.
pub open spec fn spec_first_invalid_difficulty(
    difficulties: Seq<DifficultyView>,
    from: int,
) -> Option<BeatmapErrorView>
    decreases difficulties.len() - from,
{
    if from < 0 || from >= difficulties.len() {
        None
    } else {
        match spec_validate_difficulty(difficulties[from]) {
            Err(error) => Some(BeatmapErrorView::InvalidDifficulty { idx: from, error }),
            Ok(_) => spec_first_invalid_difficulty(difficulties, from + 1),
        }
    }
}

/// The identifier that the kind of a track calls for is absent.
pub open spec fn spec_mismatched_type(b: BeatmapView) -> Option<BeatmapErrorView> {
    match b.ty {
        BeatmapType::Key => if b.key is None {
            Some(BeatmapErrorView::MismatchedType { ty: "key"@, field: "key"@ })
        } else {
            None
        },
        BeatmapType::Hash => if b.hash is None {
            Some(BeatmapErrorView::MismatchedType { ty: "hash"@, field: "hash"@ })
        } else {
            None
        },
        BeatmapType::LevelId => if b.level_id is None {
            Some(BeatmapErrorView::MismatchedType { ty: "levelID"@, field: "levelID"@ })
        } else {
            None
        },
    }
}

/// A key is one or more hexadecimal digits.
pub open spec fn spec_key_is_valid(key: Seq<char>) -> bool {
    key.len() > 0 && spec_is_hex(key)
}

/// A hash is exactly forty hexadecimal digits.
pub open spec fn spec_hash_is_valid(hash: Seq<char>) -> bool {
    hash.len() == HASH_LEN && spec_is_hex(hash)
}

/// A level identifier is a single line that is not empty.
pub open spec fn spec_level_id_is_valid(level_id: Seq<char>) -> bool {
    !spec_is_empty_or_has_newlines(level_id)
}

/// The first identifier, in the order key, hash, level identifier, that is
/// present and breaks its rule.
pub open spec fn spec_invalid_identifier(b: BeatmapView) -> Option<BeatmapErrorView> {
    if b.key is Some && !spec_key_is_valid(b.key->0) {
        Some(BeatmapErrorView::InvalidField { field: "key"@, value: b.key->0 })
    } else if b.hash is Some && !spec_hash_is_valid(b.hash->0) {
        Some(BeatmapErrorView::InvalidField { field: "hash"@, value: b.hash->0 })
    } else if b.level_id is Some && !spec_level_id_is_valid(b.level_id->0) {
        Some(BeatmapErrorView::InvalidField { field: "levelID"@, value: b.level_id->0 })
    } else {
        None
    }
}

/// The rule of a track. The identifier that its kind calls for must be
/// present; then every difficulty must keep its rule, in order; then every
/// identifier that is present must keep its rule, whether or not the kind
/// calls for it. The first breach is the one reported.
pub open spec fn spec_validate_beatmap(b: BeatmapView) -> Result<(), BeatmapErrorView> {
    match spec_mismatched_type(b) {
        Some(error) => Err(error),
        None => match spec_first_invalid_difficulty(b.difficulties, 0) {
            Some(error) => Err(error),
            None => match spec_invalid_identifier(b) {
                Some(error) => Err(error),
                None => Ok(()),
            },
        },
    }
}

/// The word that a manifest uses for the kind of a track.
pub open spec fn spec_kind_name(ty: BeatmapType) -> Seq<char> {
    match ty {
        BeatmapType::Key => "key"@,
        BeatmapType::Hash => "hash"@,
        BeatmapType::LevelId => "levelID"@,
    }
}

/// The kind of track that a word of a manifest stands for.
pub open spec fn spec_kind_from_name(name: Seq<char>) -> Option<BeatmapType> {
    if name == "key"@ {
        Some(BeatmapType::Key)
    } else if name == "hash"@ {
        Some(BeatmapType::Hash)
    } else if name == "levelID"@ {
        Some(BeatmapType::LevelId)
    } else {
        None
    }
}

/// A date as a document: its RFC 3339 text, null where there is none.
pub open spec fn spec_date_json(date: Option<Instant>) -> JsonView {
    match date {
        Some(instant) => match spec_instant_text(instant) {
            Some(text) => JsonView::String(text),
            None => JsonView::Null,
        },
        None => JsonView::Null,
    }
}

/// A difficulty as a document.
pub open spec fn spec_difficulty_json(d: DifficultyView) -> JsonView {
    JsonView::Object(
        Map::<Seq<char>, JsonView>::empty().insert("name"@, JsonView::String(d.name)).insert(
            "characteristic"@,
            JsonView::String(d.characteristic),
        ),
    )
}

/// A list of difficulties as a list of documents.
pub open spec fn spec_difficulties_json(difficulties: Seq<DifficultyView>) -> Seq<JsonView> {
    Seq::new(difficulties.len(), |i: int| spec_difficulty_json(difficulties[i]))
}

/// The members that every track writes before its optional ones.
pub open spec fn spec_beatmap_head(b: BeatmapView) -> Map<Seq<char>, JsonView> {
    Map::<Seq<char>, JsonView>::empty().insert(
        "type"@,
        JsonView::String(spec_kind_name(b.ty)),
    ).insert("date"@, spec_date_json(b.date))
}

/// The members of a track up to and including its identifiers. The
/// difficulties are left out where there are none.
pub open spec fn spec_beatmap_body(b: BeatmapView) -> Map<Seq<char>, JsonView> {
    let head = spec_beatmap_head(b);
    let with_difficulties = if b.difficulties.len() > 0 {
        head.insert("difficulties"@, JsonView::Array(spec_difficulties_json(b.difficulties)))
    } else {
        head
    };
    with_difficulties.insert("key"@, spec_text_json(b.key)).insert(
        "hash"@,
        spec_text_json(b.hash),
    ).insert("levelID"@, spec_text_json(b.level_id))
}

/// The members of a track in a manifest. The custom data is left out where
/// there is none.
pub open spec fn spec_beatmap_members(b: BeatmapView) -> Map<Seq<char>, JsonView> {
    let body = spec_beatmap_body(b);
    if spec_is_empty(b.custom_data) {
        body
    } else {
        body.insert("customData"@, JsonView::Object(b.custom_data))
    }
}

/// A track as a document of a manifest.
pub open spec fn spec_beatmap_json(b: BeatmapView) -> JsonView {
    JsonView::Object(spec_beatmap_members(b))
}

/// The difficulty that a document denotes.
pub open spec fn spec_difficulty_from_json(v: JsonView) -> Result<DifficultyView, SchemaErrorView> {
    match v {
        JsonView::Object(members) => {
            let name = spec_required_string(members, "name"@);
            let characteristic = spec_required_string(members, "characteristic"@);
            if name is Err {
                Err(name->Err_0)
            } else if characteristic is Err {
                Err(characteristic->Err_0)
            } else {
                Ok(DifficultyView { name: name->Ok_0, characteristic: characteristic->Ok_0 })
            }
        },
        _ => Err(SchemaErrorView::NotAnObject),
    }
}

/// The difficulties that the first `n` documents of a list denote, or the
/// first failure among them.
pub open spec fn spec_difficulties_from_json(items: Seq<JsonView>, n: nat) -> Result<
    Seq<DifficultyView>,
    SchemaErrorView,
>
    decreases n,
{
    if n == 0 {
        Ok(Seq::empty())
    } else {
        match spec_difficulties_from_json(items, (n - 1) as nat) {
            Err(error) => Err(error),
            Ok(before) => match spec_difficulty_from_json(items[n - 1]) {
                Err(error) => Err(error),
                Ok(d) => Ok(before.push(d)),
            },
        }
    }
}

/// The kind of a track, as its members state it.
pub open spec fn spec_decode_type(members: Map<Seq<char>, JsonView>) -> Result<
    BeatmapType,
    SchemaErrorView,
> {
    match spec_required_string(members, "type"@) {
        Err(error) => Err(error),
        Ok(name) => match spec_kind_from_name(name) {
            Some(ty) => Ok(ty),
            None => Err(SchemaErrorView::InvalidField { field: "type"@ }),
        },
    }
}

/// The date that a member holds, none where the member is absent or null.
pub open spec fn spec_decode_date(members: Map<Seq<char>, JsonView>, key: Seq<char>) -> Result<
    Option<Instant>,
    SchemaErrorView,
> {
    match spec_get(members, key) {
        None => Ok(None),
        Some(JsonView::Null) => Ok(None),
        Some(JsonView::String(text)) => match spec_parse_instant(text) {
            Some(instant) => Ok(Some(instant)),
            None => Err(SchemaErrorView::InvalidField { field: key }),
        },
        Some(_) => Err(SchemaErrorView::InvalidField { field: key }),
    }
}

/// The difficulties of a track, as its members state them: none where the
/// member is absent.
pub open spec fn spec_decode_difficulties(members: Map<Seq<char>, JsonView>) -> Result<
    Seq<DifficultyView>,
    SchemaErrorView,
> {
    match spec_get(members, "difficulties"@) {
        None => Ok(Seq::empty()),
        Some(JsonView::Array(items)) => spec_difficulties_from_json(items, items.len()),
        Some(_) => Err(SchemaErrorView::InvalidField { field: "difficulties"@ }),
    }
}

/// The track that a document of a manifest denotes. The members are read in
/// the order type, date, difficulties, key, hash, level identifier, custom
/// data, and the first that fails decides the error. Members that the format
/// does not know are passed over.
pub open spec fn spec_beatmap_from_json(v: JsonView) -> Result<BeatmapView, SchemaErrorView> {
    match v {
        JsonView::Object(members) => {
            let ty = spec_decode_type(members);
            let date = spec_decode_date(members, "date"@);
            let difficulties = spec_decode_difficulties(members);
            let key = spec_optional_string(members, "key"@);
            let hash = spec_optional_string(members, "hash"@);
            let level_id = spec_optional_string(members, "levelID"@);
            let custom_data = spec_optional_object(members, "customData"@);
            if ty is Err {
                Err(ty->Err_0)
            } else if date is Err {
                Err(date->Err_0)
            } else if difficulties is Err {
                Err(difficulties->Err_0)
            } else if key is Err {
                Err(key->Err_0)
            } else if hash is Err {
                Err(hash->Err_0)
            } else if level_id is Err {
                Err(level_id->Err_0)
            } else if custom_data is Err {
                Err(custom_data->Err_0)
            } else {
                Ok(
                    BeatmapView {
                        ty: ty->Ok_0,
                        date: date->Ok_0,
                        difficulties: difficulties->Ok_0,
                        key: key->Ok_0,
                        hash: hash->Ok_0,
                        level_id: level_id->Ok_0,
                        custom_data: custom_data->Ok_0,
                    },
                )
            }
        },
        _ => Err(SchemaErrorView::NotAnObject),
    }
}

/// Once a document of a list fails, the list fails with it, however far
/// one reads on.
pub proof fn lemma_difficulties_failure_stays(items: Seq<JsonView>, k: nat, n: nat)
    requires
        k <= n,
        spec_difficulties_from_json(items, k) is Err,
    ensures
        spec_difficulties_from_json(items, n) == spec_difficulties_from_json(items, k),
    decreases n,
{
    if k < n {
        lemma_difficulties_failure_stays(items, k, (n - 1) as nat);
    }
}

/// Reads the kind of a track from its word in a manifest.
pub fn kind_from_name(name: &str) -> (r: Option<BeatmapType>)
    ensures
        r == spec_kind_from_name(name@),
{
    if str_eq(name, "key") {
        Some(BeatmapType::Key)
    } else if str_eq(name, "hash") {
        Some(BeatmapType::Hash)
    } else if str_eq(name, "levelID") {
        Some(BeatmapType::LevelId)
    } else {
        None
    }
}

/// The word that a manifest uses for the kind of a track.
pub fn kind_name(ty: BeatmapType) -> (r: &'static str)
    ensures
        r@ == spec_kind_name(ty),
{
    match ty {
        BeatmapType::Key => "key",
        BeatmapType::Hash => "hash",
        BeatmapType::LevelId => "levelID",
    }
}

/// Reads a date from a member that may be absent or null.
pub fn decode_date(members: &Vec<Member>, key: &'static str) -> (r: Result<
    Option<Timestamp>,
    SchemaError,
>)
    ensures
        match r {
            Ok(date) => spec_decode_date(members_view(members@), key@) == Ok::<
                Option<Instant>,
                SchemaErrorView,
            >(date_view(date)),
            Err(error) => spec_decode_date(members_view(members@), key@) == Err::<
                Option<Instant>,
                SchemaErrorView,
            >(error@),
        },
{
    match get(members, key) {
        None => Ok(None),
        Some(JsonValue::Null) => Ok(None),
        Some(JsonValue::String(text)) => match Timestamp::parse(text.as_str()) {
            Some(date) => Ok(Some(date)),
            None => Err(SchemaError::InvalidField { field: key }),
        },
        Some(_) => Err(SchemaError::InvalidField { field: key }),
    }
}

/// A date as a document: its RFC 3339 text, null where there is none.
pub fn date_json(date: &Option<Timestamp>) -> (r: JsonValue)
    ensures
        r@ == spec_date_json(date_view(*date)),
{
    match date {
        Some(t) => JsonValue::String(t.to_text()),
        None => JsonValue::Null,
    }
}

impl BeatmapDifficulty {
    /// Checks the difficulty against its rule.
    pub fn validate(&self) -> (r: Result<(), BeatmapDifficultyError>)
        ensures
            difficulty_result_view(r) == spec_validate_difficulty(self@),
    {
        if str_is_empty_or_has_newlines(self.name.as_str()) {
            return Err(
                BeatmapDifficultyError::InvalidField { field: "name", value: self.name.clone() },
            );
        }
        if str_is_empty_or_has_newlines(self.characteristic.as_str()) {
            return Err(
                BeatmapDifficultyError::InvalidField {
                    field: "characteristic",
                    value: self.characteristic.clone(),
                },
            );
        }
        Ok(())
    }

    /// The difficulty as a document of a manifest.
    pub fn to_json(&self) -> (r: JsonValue)
        ensures
            r@ == spec_difficulty_json(self@),
    {
        let mut members: Vec<Member> = Vec::new();
        proof {
            lemma_members_empty(members@);
        }
        put(&mut members, "name", JsonValue::String(self.name.clone()));
        put(&mut members, "characteristic", JsonValue::String(self.characteristic.clone()));
        proof {
            lemma_object_view(members);
        }
        JsonValue::Object(members)
    }

    /// Reads a difficulty from a document of a manifest.
    pub fn from_json(v: &JsonValue) -> (r: Result<BeatmapDifficulty, SchemaError>)
        ensures
            match r {
                Ok(d) => spec_difficulty_from_json(v@) == Ok::<DifficultyView, SchemaErrorView>(d@),
                Err(error) => spec_difficulty_from_json(v@) == Err::<
                    DifficultyView,
                    SchemaErrorView,
                >(error@),
            },
    {
        match v {
            JsonValue::Object(members) => {
                proof {
                    lemma_object_view(*members);
                }
                let name = match required_string(members, "name") {
                    Ok(name) => name,
                    Err(error) => return Err(error),
                };
                let characteristic = match required_string(members, "characteristic") {
                    Ok(characteristic) => characteristic,
                    Err(error) => return Err(error),
                };
                Ok(BeatmapDifficulty { name, characteristic })
            },
            _ => Err(SchemaError::NotAnObject),
        }
    }
}

/// Reads the difficulties of a track from its members.
pub fn decode_difficulties(members: &Vec<Member>) -> (r: Result<
    Vec<BeatmapDifficulty>,
    SchemaError,
>)
    ensures
        match r {
            Ok(difficulties) => spec_decode_difficulties(members_view(members@)) == Ok::<
                Seq<DifficultyView>,
                SchemaErrorView,
            >(difficulties_view(difficulties@)),
            Err(error) => spec_decode_difficulties(members_view(members@)) == Err::<
                Seq<DifficultyView>,
                SchemaErrorView,
            >(error@),
        },
{
    match get(members, "difficulties") {
        None => {
            let out: Vec<BeatmapDifficulty> = Vec::new();
            assert(difficulties_view(out@) =~= Seq::empty());
            Ok(out)
        },
        Some(JsonValue::Array(items)) => {
            proof {
                lemma_array_view(*items);
            }
            let ghost all = items_view(items@);
            let mut out: Vec<BeatmapDifficulty> = Vec::new();
            let mut i: usize = 0;
            assert(difficulties_view(out@) =~= Seq::empty());
            while i < items.len()
                invariant
                    i <= items@.len(),
                    all == items_view(items@),
                    spec_get(members_view(members@), "difficulties"@) == Some(
                        JsonView::Array(all),
                    ),
                    spec_difficulties_from_json(all, i as nat) == Ok::<
                        Seq<DifficultyView>,
                        SchemaErrorView,
                    >(difficulties_view(out@)),
                decreases items@.len() - i,
            {
                match BeatmapDifficulty::from_json(&items[i]) {
                    Ok(d) => {
                        let ghost before = difficulties_view(out@);
                        out.push(d);
                        assert(difficulties_view(out@) =~= before.push(d@));
                    },
                    Err(error) => {
                        proof {
                            assert(spec_difficulties_from_json(all, (i + 1) as nat) is Err);
                            lemma_difficulties_failure_stays(all, (i + 1) as nat, all.len());
                        }
                        return Err(error);
                    },
                }
                i += 1;
            }
            Ok(out)
        },
        Some(_) => Err(SchemaError::InvalidField { field: "difficulties" }),
    }
}

impl Beatmap {
    /// A track that refers to its level by key, added now.
    pub fn new_key(key: String) -> (r: Beatmap)
        ensures
            r@.date is Some,
            r@ == (BeatmapView {
                ty: BeatmapType::Key,
                date: r@.date,
                difficulties: Seq::empty(),
                key: Some(key@),
                hash: None,
                level_id: None,
                custom_data: Map::empty(),
            }),
    {
        let r = Beatmap {
            ty: BeatmapType::Key,
            date: Some(Timestamp::now()),
            difficulties: Vec::new(),
            key: Some(key),
            hash: None,
            level_id: None,
            custom_data: new_map(),
        };
        assert(r@.difficulties =~= Seq::empty());
        r
    }

    /// A track that refers to its level by hash, added now.
    pub fn new_hash(hash: String) -> (r: Beatmap)
        ensures
            r@.date is Some,
            r@ == (BeatmapView {
                ty: BeatmapType::Hash,
                date: r@.date,
                difficulties: Seq::empty(),
                key: None,
                hash: Some(hash@),
                level_id: None,
                custom_data: Map::empty(),
            }),
    {
        let r = Beatmap {
            ty: BeatmapType::Hash,
            date: Some(Timestamp::now()),
            difficulties: Vec::new(),
            key: None,
            hash: Some(hash),
            level_id: None,
            custom_data: new_map(),
        };
        assert(r@.difficulties =~= Seq::empty());
        r
    }

    /// A track that refers to its level by level identifier, added now.
    pub fn new_level_id(level_id: String) -> (r: Beatmap)
        ensures
            r@.date is Some,
            r@ == (BeatmapView {
                ty: BeatmapType::LevelId,
                date: r@.date,
                difficulties: Seq::empty(),
                key: None,
                hash: None,
                level_id: Some(level_id@),
                custom_data: Map::empty(),
            }),
    {
        let r = Beatmap {
            ty: BeatmapType::LevelId,
            date: Some(Timestamp::now()),
            difficulties: Vec::new(),
            key: None,
            hash: None,
            level_id: Some(level_id),
            custom_data: new_map(),
        };
        assert(r@.difficulties =~= Seq::empty());
        r
    }

    /// The track as a document of a manifest.
    pub fn to_json(&self) -> (r: JsonValue)
        ensures
            r@ == spec_beatmap_json(self@),
    {
        let mut members: Vec<Member> = Vec::new();
        proof {
            lemma_members_empty(members@);
        }
        put(&mut members, "type", JsonValue::String(kind_name(self.ty).to_owned()));
        put(&mut members, "date", date_json(&self.date));
        if self.difficulties.len() > 0 {
            let mut items: Vec<JsonValue> = Vec::new();
            let mut i: usize = 0;
            while i < self.difficulties.len()
                invariant
                    i <= self.difficulties@.len(),
                    items@.len() == i,
                    forall|j: int|
                        0 <= j < i ==> items@[j]@ == spec_difficulty_json(
                            #[trigger] self.difficulties@[j]@,
                        ),
                decreases self.difficulties@.len() - i,
            {
                let item = self.difficulties[i].to_json();
                items.push(item);
                i += 1;
            }
            proof {
                lemma_array_view(items);
                assert(items_view(items@) =~= spec_difficulties_json(
                    self@.difficulties,
                ));
            }
            put(&mut members, "difficulties", JsonValue::Array(items));
        }
        put(&mut members, "key", text_json(&self.key));
        put(&mut members, "hash", text_json(&self.hash));
        put(&mut members, "levelID", text_json(&self.level_id));
        assert(members_view(members@) == spec_beatmap_body(self@));
        if !map_is_empty(&self.custom_data) {
            let inner = map_to_members(&self.custom_data);
            proof {
                lemma_object_view(inner);
            }
            put(&mut members, "customData", JsonValue::Object(inner));
        }
        proof {
            lemma_object_view(members);
        }
        JsonValue::Object(members)
    }

    /// Reads a track from a document of a manifest.
    pub fn from_json(v: &JsonValue) -> (r: Result<Beatmap, SchemaError>)
        ensures
            match r {
                Ok(b) => spec_beatmap_from_json(v@) == Ok::<BeatmapView, SchemaErrorView>(b@),
                Err(error) => spec_beatmap_from_json(v@) == Err::<BeatmapView, SchemaErrorView>(
                    error@,
                ),
            },
    {
        match v {
            JsonValue::Object(members) => {
                proof {
                    lemma_object_view(*members);
                }
                let name = match required_string(members, "type") {
                    Ok(name) => name,
                    Err(error) => return Err(error),
                };
                let ty = match kind_from_name(name.as_str()) {
                    Some(ty) => ty,
                    None => return Err(SchemaError::InvalidField { field: "type" }),
                };
                let date = match decode_date(members, "date") {
                    Ok(date) => date,
                    Err(error) => return Err(error),
                };
                let difficulties = match decode_difficulties(members) {
                    Ok(difficulties) => difficulties,
                    Err(error) => return Err(error),
                };
                let key = match optional_string(members, "key") {
                    Ok(key) => key,
                    Err(error) => return Err(error),
                };
                let hash = match optional_string(members, "hash") {
                    Ok(hash) => hash,
                    Err(error) => return Err(error),
                };
                let level_id = match optional_string(members, "levelID") {
                    Ok(level_id) => level_id,
                    Err(error) => return Err(error),
                };
                let custom_data = match optional_object(members, "customData") {
                    Ok(inner) => members_to_map(&inner),
                    Err(error) => return Err(error),
                };
                Ok(Beatmap { ty, date, difficulties, key, hash, level_id, custom_data })
            },
            _ => Err(SchemaError::NotAnObject),
        }
    }

    /// Checks the track against its rule.
    pub fn validate(&self) -> (r: Result<(), BeatmapError>)
        ensures
            beatmap_result_view(r) == spec_validate_beatmap(self@),
    {
        match self.ty {
            BeatmapType::Key => {
                if self.key.is_none() {
                    return Err(BeatmapError::MismatchedType { ty: "key", field: "key" });
                }
            },
            BeatmapType::Hash => {
                if self.hash.is_none() {
                    return Err(BeatmapError::MismatchedType { ty: "hash", field: "hash" });
                }
            },
            BeatmapType::LevelId => {
                if self.level_id.is_none() {
                    return Err(BeatmapError::MismatchedType { ty: "levelID", field: "levelID" });
                }
            },
        }

        let mut idx: usize = 0;
        while idx < self.difficulties.len()
            invariant
                idx <= self.difficulties@.len(),
                spec_mismatched_type(self@) is None,
                spec_first_invalid_difficulty(self@.difficulties, 0)
                    == spec_first_invalid_difficulty(self@.difficulties, idx as int),
            decreases self.difficulties@.len() - idx,
        {
            if let Err(error) = self.difficulties[idx].validate() {
                return Err(BeatmapError::InvalidDifficulty { idx, error });
            }
            idx += 1;
        }

        if let Some(k) = &self.key {
            if k.as_str().is_empty() || !str_is_hex(k.as_str()) {
                return Err(BeatmapError::InvalidField { field: "key", value: k.clone() });
            }
        }
        if let Some(h) = &self.hash {
            if str_char_count(h.as_str()) != HASH_LEN || !str_is_hex(h.as_str()) {
                return Err(BeatmapError::InvalidField { field: "hash", value: h.clone() });
            }
        }
        if let Some(li) = &self.level_id {
            if str_is_empty_or_has_newlines(li.as_str()) {
                return Err(BeatmapError::InvalidField { field: "levelID", value: li.clone() });
            }
        }

        Ok(())
    }
}

} // verus!
