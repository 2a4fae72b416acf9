//! The archive that a playlist travels in: entries by name, read from and
//! packed into bytes in memory by the zip crate.

use vstd::prelude::*;

verus! {

#[verifier::external_type_specification]
#[verifier::external_body]
#[verifier::reject_recursive_types(T)]
pub struct ExCursor<T>(std::io::Cursor<T>);

#[verifier::external_type_specification]
#[verifier::external_body]
#[verifier::reject_recursive_types(R)]
pub struct ExZipArchive<R>(zip::ZipArchive<R>);

/// An archive that is being packed in memory: a `zip::ZipWriter` over a
/// cursor.
#[verifier::external_body]
pub struct ArchiveWriter {
    inner: zip::ZipWriter<std::io::Cursor<Vec<u8>>>,
}

/// What an open archive holds: each entry that `ZipArchive::by_name_decrypt`
/// finds with an empty password and that can be read to its end, by name,
/// with its bytes.
pub uninterp spec fn archive_entries(
    archive: zip::ZipArchive<std::io::Cursor<Vec<u8>>>,
) -> Map<Seq<char>, Seq<u8>>;

/// What `ZipArchive::new` makes of a container: the entries of the archive
/// it opens, or nothing where it opens none.
pub uninterp spec fn container_entries(container: Seq<u8>) -> Option<Map<Seq<char>, Seq<u8>>>;

/// The entries that were handed to a writer so far, in order, each by name
/// with its bytes.
pub uninterp spec fn writer_entries(writer: ArchiveWriter) -> Seq<(Seq<char>, Seq<u8>)>;

/// Whether a writer that was handed the entries `before` takes one more:
/// whether `ZipWriter::start_file` and `Write::write_all` both succeed on it.
pub uninterp spec fn entry_added(
    before: Seq<(Seq<char>, Seq<u8>)>,
    name: Seq<char>,
    data: Seq<u8>,
) -> bool;

/// What `ZipWriter::finish` returns for a writer that was handed these
/// entries: the bytes of the container, or nothing where it fails.
pub uninterp spec fn packed(entries: Seq<(Seq<char>, Seq<u8>)>) -> Option<Seq<u8>>;

/// Calls `ZipArchive::new` on a cursor over the container. The contract
/// gives the outcome its name, [`container_entries`]: the same container
/// always opens to the same entries, or always fails.
#[verifier::external_body]
pub(crate) fn open_archive(container: Vec<u8>) -> (r: Result<
    zip::ZipArchive<std::io::Cursor<Vec<u8>>>,
    zip::result::ZipError,
>)
    ensures
        r matches Ok(archive) ==> container_entries(container@) == Some(archive_entries(archive)),
        r is Err ==> container_entries(container@) is None,
{
    zip::ZipArchive::new(std::io::Cursor::new(container))
}

/// Calls `ZipArchive::by_name_decrypt` with an empty password, which hands
/// out every refusal as a value, and reads the entry to its end. The entry
/// comes back where [`archive_entries`] holds it, and only there. An entry
/// that wants a password is reported as zip reports one without a password,
/// a failure to read as zip reports its own, as `ZipError::Io`. The archive
/// holds afterwards what it held before.
#[verifier::external_body]
pub(crate) fn read_entry(
    archive: &mut zip::ZipArchive<std::io::Cursor<Vec<u8>>>,
    name: &str,
) -> (r: Result<Vec<u8>, zip::result::ZipError>)
    ensures
        archive_entries(*final(archive)) == archive_entries(*old(archive)),
        r matches Ok(data) ==> archive_entries(*old(archive)).contains_key(name@)
            && archive_entries(*old(archive))[name@] == data@,
        r is Err ==> !archive_entries(*old(archive)).contains_key(name@),
{
    let mut file = match archive.by_name_decrypt(name, &[])? {
        Ok(file) => file,
        Err(_) => return Err(
            zip::result::ZipError::UnsupportedArchive(zip::result::ZipError::PASSWORD_REQUIRED),
        ),
    };
    let mut data = Vec::new();
    std::io::Read::read_to_end(&mut file, &mut data)?;
    Ok(data)
}

/// Calls `ZipWriter::new` on an empty cursor. Nothing was handed to the
/// writer yet.
#[verifier::external_body]
pub(crate) fn new_writer() -> (writer: ArchiveWriter)
    ensures
        writer_entries(writer) == Seq::<(Seq<char>, Seq<u8>)>::empty(),
{
    ArchiveWriter { inner: zip::ZipWriter::new(std::io::Cursor::new(Vec::new())) }
}

/// Calls `ZipWriter::start_file` with the default options, the date set to
/// zip's own default so that no clock is read, and writes the bytes with
/// `Write::write_all`. The writer packs into memory, so whether both succeed
/// depends on what it holds and on the entry alone: the contract gives that
/// its name, [`entry_added`]. Where both succeed the writer holds one entry
/// more.
#[verifier::external_body]
pub(crate) fn add_entry(writer: &mut ArchiveWriter, name: &str, data: &[u8]) -> (r: Result<
    (),
    zip::result::ZipError,
>)
    ensures
        r is Ok <==> entry_added(writer_entries(*old(writer)), name@, data@),
        r is Ok ==> writer_entries(*final(writer)) == writer_entries(*old(writer)).push(
            (name@, data@),
        ),
{
    let options = zip::write::FileOptions::default().last_modified_time(zip::DateTime::default());
    writer.inner.start_file(name, options)?;
    std::io::Write::write_all(&mut writer.inner, data)?;
    Ok(())
}

/// Calls `ZipWriter::finish` and takes the bytes out of the cursor. The
/// contract gives the outcome its name, [`packed`]: every entry was started
/// with the same options and the same date, so the same entries always pack
/// to the same bytes.
#[verifier::external_body]
pub(crate) fn finish(writer: ArchiveWriter) -> (r: Result<Vec<u8>, zip::result::ZipError>)
    ensures
        r matches Ok(container) ==> packed(writer_entries(writer)) == Some(container@),
        r is Err ==> packed(writer_entries(writer)) is None,
{
    let mut writer = writer;
    Ok(writer.inner.finish()?.into_inner())
}

} // verus!
