//! What holds of the library as a whole: laws that relate its rules and its
//! functions to one another, each proved from their definitions.

use crate::beatmap::{spec_validate_beatmap, BeatmapType, BeatmapView, HASH_LEN};
use crate::json::spec_is_empty;
use crate::legacy::{
    base64_decoded, spec_image_cover, spec_into_beatmap, spec_into_playlist, spec_jpg_cover,
    spec_payload, spec_png_cover, ConvertErrorView, LegacyBeatmapView, LegacyPlaylistView, JPEG_B64_PREFIX,
    JPG_B64_PREFIX, PNG_B64_PREFIX,
};
use crate::playlist::{
    spec_validate, spec_validate_cover, CoverView, PlaylistCoverType, PlaylistView, SCHEMA,
};
use crate::utils::{
    is_newline, is_separator, jpg_signature, lemma_last_dot_found, png_signature, spec_extension, spec_has_separator,
    spec_has_signature, spec_is_empty_or_has_newlines, spec_is_hex, spec_path_is_invalid,
    PNG_MAGIC_NUMBER_LEN,
};
use crate::validation::{PlaylistCoverErrorView, PlaylistErrorView};
use vstd::prelude::*;
use vstd::string::StringSliceAdditionalSpecFns;

verus! {

/// A playlist with nothing but a title.
pub open spec fn spec_titled(title: Seq<char>) -> PlaylistView {
    PlaylistView {
        schema: SCHEMA@,
        title,
        author: None,
        description: None,
        cover: None,
        maps: Seq::empty(),
        custom_data: Map::empty(),
    }
}

/// A track that refers to its level by hash and holds nothing else.
pub open spec fn spec_hashed(hash: Seq<char>) -> BeatmapView {
    BeatmapView {
        ty: BeatmapType::Hash,
        date: None,
        difficulties: Seq::empty(),
        key: None,
        hash: Some(hash),
        level_id: None,
        custom_data: Map::empty(),
    }
}

/// A playlist whose title is empty or holds a line break fails validation,
/// whatever else it holds, and the title is what is reported.
pub proof fn lemma_title_must_be_single_line(p: PlaylistView, validate_cover: bool)
    requires
        p.title.len() == 0 || p.title.contains('\n') || p.title.contains('\r'),
    ensures
        spec_validate(p, validate_cover) == Err::<(), PlaylistErrorView>(
            PlaylistErrorView::InvalidField { field: "title"@, value: p.title },
        ),
{
    if p.title.len() > 0 {
        if p.title.contains('\n') {
            let i = choose|i: int| 0 <= i < p.title.len() && p.title[i] == '\n';
            assert(is_newline(p.title[i]));
        } else {
            let i = choose|i: int| 0 <= i < p.title.len() && p.title[i] == '\r';
            assert(is_newline(p.title[i]));
        }
    }
}

/// A playlist whose author is empty or holds a line break fails validation,
/// whatever else it holds.
pub proof fn lemma_author_must_be_single_line(
    p: PlaylistView,
    author: Seq<char>,
    validate_cover: bool,
)
    requires
        p.author == Some(author),
        author.len() == 0 || author.contains('\n') || author.contains('\r'),
    ensures
        spec_validate(p, validate_cover) is Err,
{
    if author.len() > 0 {
        if author.contains('\n') {
            let i = choose|i: int| 0 <= i < author.len() && author[i] == '\n';
            assert(is_newline(author[i]));
        } else {
            let i = choose|i: int| 0 <= i < author.len() && author[i] == '\r';
            assert(is_newline(author[i]));
        }
    }
}

/// A title that is a single line and not empty passes: the playlist that
/// holds nothing else is valid.
pub proof fn lemma_single_line_title_passes(title: Seq<char>)
    requires
        title.len() > 0,
        !title.contains('\n'),
        !title.contains('\r'),
    ensures
        spec_validate(spec_titled(title), true) is Ok,
{
    assert(!spec_is_empty_or_has_newlines(title)) by {
        if spec_is_empty_or_has_newlines(title) {
            let i = choose|i: int| 0 <= i < title.len() && is_newline(title[i]);
            assert(title.contains(title[i]));
        }
    }
}

/// A track whose hash is not exactly forty hexadecimal digits fails
/// validation, whatever else it holds.
pub proof fn lemma_hash_must_be_forty_hex_digits(b: BeatmapView, hash: Seq<char>)
    requires
        b.hash == Some(hash),
        hash.len() != HASH_LEN || !spec_is_hex(hash),
    ensures
        spec_validate_beatmap(b) is Err,
{
}

/// A track that holds a hash and nothing else is valid exactly when the
/// hash is forty hexadecimal digits.
pub proof fn lemma_hash_rule_is_exact(hash: Seq<char>)
    ensures
        spec_validate_beatmap(spec_hashed(hash)) is Ok <==> (hash.len() == HASH_LEN
            && spec_is_hex(hash)),
{
}

/// The name `cover.png` is a bare file name with the extension `png`.
pub proof fn lemma_cover_png_is_a_png_path()
    ensures
        !spec_path_is_invalid("cover.png"@),
        spec_extension("cover.png"@) == Some("png"@),
{
    reveal_strlit("cover.png");
    reveal_strlit("png");
    let p = "cover.png"@;
    lemma_last_dot_found(p, 5);
    assert(p.subrange(6, 9) =~= "png"@);
    assert(!(p =~= seq!['.', '.']));
    assert(!spec_has_separator(p)) by {
        if spec_has_separator(p) {
            let i = choose|i: int| 0 <= i < p.len() && is_separator(p[i]);
            assert(0 <= i < 9);
        }
    }
}

/// Bytes that open with the PNG signature make a valid cover under the name
/// `cover.png` as a PNG image; the same bytes declared a JPEG image fail; and
/// fewer bytes than the signature has fail as a PNG image.
pub proof fn lemma_png_cover_signature(data: Seq<u8>)
    ensures
        spec_has_signature(data, png_signature()) ==> spec_validate_cover(
            CoverView { path: "cover.png"@, data, ty: PlaylistCoverType::Png },
        ) is Ok,
        spec_validate_cover(
            CoverView { path: "cover.png"@, data, ty: PlaylistCoverType::Jpg },
        ) is Err,
        data.len() < PNG_MAGIC_NUMBER_LEN ==> spec_validate_cover(
            CoverView { path: "cover.png"@, data, ty: PlaylistCoverType::Png },
        ) == Err::<(), PlaylistCoverErrorView>(
            PlaylistCoverErrorView::InvalidCoverData { ty: "png"@ },
        ),
{
    lemma_cover_png_is_a_png_path();
    reveal_strlit("png");
    reveal_strlit("jpg");
    reveal_strlit("jpeg");
    assert("png"@ != "jpg"@) by {
        assert("png"@[0] != "jpg"@[0]);
    }
    assert("png"@.len() != "jpeg"@.len());
}

/// A cover whose path names a directory fails validation, whatever its
/// bytes and its kind.
pub proof fn lemma_nested_cover_path_fails(c: CoverView)
    requires
        spec_has_separator(c.path),
    ensures
        spec_validate_cover(c) is Err,
{
}

/// A playlist whose cover path names a directory fails validation.
pub proof fn lemma_nested_cover_path_fails_playlist(p: PlaylistView, c: CoverView)
    requires
        p.cover == Some(c),
        spec_has_separator(c.path),
    ensures
        spec_validate(p, true) is Err,
{
}

/// An image field that opens with the PNG data URI prefix makes a PNG cover
/// of whatever its base64 decodes to: the bytes are not looked at.
pub proof fn lemma_data_uri_says_the_kind(image: Seq<u8>, data: Seq<u8>)
    requires
        spec_has_signature(image, PNG_B64_PREFIX.spec_bytes()),
        spec_payload(image, PNG_B64_PREFIX.spec_bytes()) == Some(data),
    ensures
        spec_image_cover(image) == Ok::<Option<CoverView>, ConvertErrorView>(
            Some(spec_png_cover(data)),
        ),
{
}

/// An image field without a known data URI prefix that is no base64 makes
/// no cover, and no error.
pub proof fn lemma_other_text_makes_no_cover(image: Seq<u8>)
    requires
        !spec_has_signature(image, PNG_B64_PREFIX.spec_bytes()),
        !spec_has_signature(image, JPG_B64_PREFIX.spec_bytes()),
        !spec_has_signature(image, JPEG_B64_PREFIX.spec_bytes()),
        base64_decoded(image) is None,
    ensures
        spec_image_cover(image) == Ok::<Option<CoverView>, ConvertErrorView>(None),
{
}

/// An image field without a data URI prefix is decoded and its signature
/// decides: PNG bytes make a PNG cover, JPEG bytes a JPEG cover, and other
/// bytes no cover at all, without an error.
pub proof fn lemma_bare_base64_is_sniffed(image: Seq<u8>, data: Seq<u8>)
    requires
        !spec_has_signature(image, PNG_B64_PREFIX.spec_bytes()),
        !spec_has_signature(image, JPG_B64_PREFIX.spec_bytes()),
        !spec_has_signature(image, JPEG_B64_PREFIX.spec_bytes()),
        base64_decoded(image) == Some(data),
    ensures
        spec_has_signature(data, png_signature()) ==> spec_image_cover(image) == Ok::<
            Option<CoverView>,
            ConvertErrorView,
        >(Some(spec_png_cover(data))),
        !spec_has_signature(data, png_signature()) && spec_has_signature(data, jpg_signature())
            ==> spec_image_cover(image) == Ok::<Option<CoverView>, ConvertErrorView>(
            Some(spec_jpg_cover(data)),
        ),
        !spec_has_signature(data, png_signature()) && !spec_has_signature(data, jpg_signature())
            ==> spec_image_cover(image) == Ok::<Option<CoverView>, ConvertErrorView>(None),
{
}

/// Converting a legacy playlist with and without its custom data succeeds
/// or fails alike. Where it succeeds, the playlist that kept its custom data
/// holds that of the legacy playlist, the other holds none, and the two
/// agree in everything else: title, author, description, cover, and each
/// track apart from its own custom data.
pub proof fn lemma_custom_data_toggle(l: LegacyPlaylistView)
    ensures
        spec_into_playlist(l, true) is Ok <==> spec_into_playlist(l, false) is Ok,
        spec_into_playlist(l, true) matches Ok(kept) ==> {
            let dropped = spec_into_playlist(l, false)->Ok_0;
            &&& kept.custom_data == l.custom_data
            &&& spec_is_empty(dropped.custom_data)
            &&& dropped.schema == kept.schema
            &&& dropped.title == kept.title
            &&& dropped.author == kept.author
            &&& dropped.description == kept.description
            &&& dropped.cover == kept.cover
            &&& dropped.maps.len() == kept.maps.len()
            &&& forall|i: int|
                0 <= i < kept.maps.len() ==> #[trigger] dropped.maps[i] == (BeatmapView {
                    custom_data: Map::empty(),
                    ..kept.maps[i]
                })
        },
{
}

/// Where the legacy playlist holds custom data, the playlist converted with
/// its custom data holds some, and the one converted without holds none.
pub proof fn lemma_custom_data_kept_or_dropped(l: LegacyPlaylistView)
    requires
        !spec_is_empty(l.custom_data),
        spec_into_playlist(l, true) is Ok,
    ensures
        !spec_is_empty(spec_into_playlist(l, true)->Ok_0.custom_data),
        spec_is_empty(spec_into_playlist(l, false)->Ok_0.custom_data),
{
}

/// The kind of a track that comes from a legacy entry: by hash where only a
/// hash is there, by key where a key is there, and by level identifier, with
/// no level identifier, where neither is there.
pub proof fn lemma_legacy_kind(l: LegacyBeatmapView, preserve: bool)
    ensures
        l.key is None && l.hash is Some ==> spec_into_beatmap(l, preserve).ty
            == BeatmapType::Hash,
        l.key is Some ==> spec_into_beatmap(l, preserve).ty == BeatmapType::Key,
        l.key is None && l.hash is None ==> spec_into_beatmap(l, preserve).ty
            == BeatmapType::LevelId,
        spec_into_beatmap(l, preserve).level_id is None,
        spec_into_beatmap(l, preserve).key == l.key,
        spec_into_beatmap(l, preserve).hash == l.hash,
{
}

} // verus!
