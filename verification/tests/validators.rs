use blist::playlist::schema;
use blist::utils::{
    bytes_eq, bytes_start_with, chars_of, has_signature, jpg_magic_number, path_has_extension,
    path_is_invalid, png_magic_number, str_char_count, str_eq, str_is_empty_or_has_newlines,
    str_is_hex, JPG_MAGIC_NUMBER_LEN, PNG_MAGIC_NUMBER_LEN,
};

#[test]
fn single_line_strings() {
    assert!(str_is_empty_or_has_newlines(""));
    assert!(str_is_empty_or_has_newlines("newline\n"));
    assert!(str_is_empty_or_has_newlines("carriage\rreturn"));
    assert!(str_is_empty_or_has_newlines("\n"));
    assert!(!str_is_empty_or_has_newlines("string"));
    assert!(!str_is_empty_or_has_newlines("tab\tand space"));
    assert!(!str_is_empty_or_has_newlines("ünïcödé"));
}

#[test]
fn hex_strings() {
    assert!(str_is_hex("16af"));
    assert!(str_is_hex("0123456789abcdefABCDEF"));
    assert!(str_is_hex(""));
    assert!(!str_is_hex("string"));
    assert!(!str_is_hex("12 34"));
    assert!(!str_is_hex("0x12"));
    assert!(!str_is_hex("１２"));
}

#[test]
fn cover_paths() {
    assert!(!path_is_invalid("cover.png"));
    assert!(!path_is_invalid("cover.tar.gz"));
    assert!(!path_is_invalid("cover."));
    assert!(!path_is_invalid("..png"));
    assert!(path_is_invalid("subdirectory/cover.jpg"));
    assert!(path_is_invalid("subdirectory\\cover.jpg"));
    assert!(path_is_invalid("/cover.jpg"));
    assert!(path_is_invalid("../cover.jpg"));
    assert!(path_is_invalid("cover"));
    assert!(path_is_invalid(".cover"));
    assert!(path_is_invalid("."));
    assert!(path_is_invalid(".."));
    assert!(path_is_invalid(""));
}

#[test]
fn extensions() {
    assert!(path_has_extension("cover.png", "png"));
    assert!(path_has_extension("cover.tar.gz", "gz"));
    assert!(path_has_extension("cover.", ""));
    assert!(!path_has_extension("cover.png", "jpg"));
    assert!(!path_has_extension("cover.png", "PNG"));
    assert!(!path_has_extension("cover.png", "ng"));
    assert!(!path_has_extension("cover.png", ".png"));
    assert!(!path_has_extension("png", "png"));
    assert!(!path_has_extension(".png", "png"));
    assert!(!path_has_extension("..", ""));
}

#[test]
fn signatures() {
    let png = png_magic_number();
    let jpg = jpg_magic_number();
    assert_eq!(png, vec![0x89, 0x50, 0x4E, 0x47, 0x0D, 0x0A, 0x1A, 0x0A]);
    assert_eq!(jpg, vec![0xFF, 0xD8, 0xFF]);
    assert_eq!(png.len(), PNG_MAGIC_NUMBER_LEN);
    assert_eq!(jpg.len(), JPG_MAGIC_NUMBER_LEN);

    assert!(has_signature(&[0xFF, 0xD8, 0xFF, 0xE0], &jpg));
    assert!(has_signature(&jpg, &jpg));
    assert!(has_signature(&jpg, &[]));
    assert!(!has_signature(&[0xFF, 0xD8], &jpg));
    assert!(!has_signature(&[0xFF, 0xD8, 0xFE, 0xFF], &jpg));
    assert!(!has_signature(&[], &jpg));
    assert!(!has_signature(&png, &jpg));
}

#[test]
fn bytes_and_strings() {
    assert!(bytes_eq(b"abc", b"abc"));
    assert!(bytes_eq(b"", b""));
    assert!(!bytes_eq(b"abc", b"abd"));
    assert!(!bytes_eq(b"abc", b"ab"));
    assert!(bytes_start_with(b"data:image", b"data:"));
    assert!(!bytes_start_with(b"data", b"data:"));
    assert!(!bytes_start_with(b"dita:image", b"data:"));
    assert!(str_eq("levelID", "levelID"));
    assert!(!str_eq("levelID", "levelId"));
    assert!(!str_eq("a", ""));
    assert_eq!(chars_of("añb"), vec!['a', 'ñ', 'b']);
    assert_eq!(str_char_count("añb"), 3);
    assert_eq!(str_char_count(""), 0);
}

#[test]
fn schema_address() {
    assert_eq!(
        schema(),
        "https://raw.githubusercontent.com/raftario/blist/master/playlist.schema.json"
    );
}
