use vstd::prelude::*;
use crate::discovery::spec_lists_name;
use std::io::Cursor;
use zip::result::ZipError;
use zip::ZipWriter;

verus! {

#[verifier::external_type_specification]
#[verifier::external_body]
pub struct ExZipError(ZipError);

/// A zip archive being written into memory, one entry after the other.
#[verifier::external_body]
pub struct ArchiveWriter {
    inner: ZipWriter<Cursor<Vec<u8>>>,
}

/// The names of the entries of the zip archive held in `archive`.
pub uninterp spec fn zip_entry_names(archive: Seq<u8>) -> Set<Seq<char>>;

/// The bytes `archive` open as a zip archive: `ZipArchive::new` accepts them.
pub uninterp spec fn zip_opens(archive: Seq<u8>) -> bool;

/// The entry called `name` of the zip archive held in `archive` reads to
/// its end: its contents decompress and pass their checksum.
pub uninterp spec fn zip_entry_reads(archive: Seq<u8>, name: Seq<char>) -> bool;

/// The decompressed contents of the entry called `name` of the zip archive
/// held in `archive`.
pub uninterp spec fn zip_entry_data(archive: Seq<u8>, name: Seq<char>) -> Seq<u8>;

/// The entries handed to a zip writer so far, each a name and its contents,
/// in the order they were started.
pub uninterp spec fn zip_written(w: ArchiveWriter) -> Seq<(Seq<char>, Seq<u8>)>;

/// The writer is not closed and, once an entry is started, is writing to the
/// entry started last. A write that takes an entry past `0xFFFFFFFF` bytes
/// closes the writer, so no entry of an open writer is longer than that.
pub uninterp spec fn zip_writer_open(w: ArchiveWriter) -> bool;

/// The zip archive, stored uncompressed with default timestamps, that holds
/// `entries` in order, each a name and its contents.
pub uninterp spec fn zip_archive_of(entries: Seq<(Seq<char>, Seq<u8>)>) -> Seq<u8>;

/// Relies on `zip::ZipArchive::new` and `ZipArchive::file_names`: the names
/// of the entries of the archive, in no particular order (they are the keys
/// of a hash map).
#[verifier::external_body]
pub(crate) fn archive_entry_names(archive: &[u8]) -> (r: Result<Vec<String>, ZipError>)
    ensures
        r is Ok <==> zip_opens(archive@),
        r matches Ok(names) ==> forall|name: Seq<char>|
            #[trigger] spec_lists_name(names@, name) <==> zip_entry_names(archive@).contains(name),
{
    let archive = zip::ZipArchive::new(Cursor::new(archive))?;
    Ok(archive.file_names().map(String::from).collect())
}

/// Relies on `zip::ZipArchive::new`, `ZipArchive::by_name` and reading the
/// entry to its end: the decompressed contents of the entry called `name`.
/// `by_name` fails for a name that is not one of the archive's entries.
#[verifier::external_body]
pub(crate) fn archive_entry(archive: &[u8], name: &str) -> (r: Result<Vec<u8>, ZipError>)
    ensures
        r is Ok <==> (zip_opens(archive@) && zip_entry_names(archive@).contains(name@)
            && zip_entry_reads(archive@, name@)),
        r matches Ok(data) ==> data@ == zip_entry_data(archive@, name@),
{
    let mut archive = zip::ZipArchive::new(Cursor::new(archive))?;
    let mut entry = archive.by_name(name)?;
    let mut data = Vec::new();
    std::io::Read::read_to_end(&mut entry, &mut data)?;
    Ok(data)
}

/// Relies on `zip::ZipWriter::new`: a writer over an empty in-memory buffer,
/// with no entries.
#[verifier::external_body]
pub(crate) fn new_archive_writer() -> (r: ArchiveWriter)
    ensures
        zip_writer_open(r),
        zip_written(r) == Seq::<(Seq<char>, Seq<u8>)>::empty(),
{
    ArchiveWriter { inner: ZipWriter::new(Cursor::new(Vec::new())) }
}

/// Relies on `zip::ZipWriter::start_file`, with entries stored uncompressed:
/// finishes the entry started last and starts a new entry called `name`,
/// empty so far. Into an in-memory buffer this fails only on a closed writer.
#[verifier::external_body]
pub(crate) fn start_entry(w: &mut ArchiveWriter, name: &str) -> (r: Result<(), ZipError>)
    ensures
        zip_writer_open(*old(w)) ==> r is Ok,
        r is Ok ==> zip_writer_open(*final(w)),
        r is Ok ==> zip_written(*final(w)) == zip_written(*old(w)).push((name@, Seq::<u8>::empty())),
{
    let options = zip::write::FileOptions::default().compression_method(zip::CompressionMethod::Stored);
    w.inner.start_file(name, options)
}

/// Relies on the `std::io::Write` implementation of `zip::ZipWriter`
/// (`write_all`): appends `data` to the entry started last. Into an
/// in-memory buffer this fails only on a closed writer, or where the entry
/// would pass `0xFFFFFFFF` bytes.
#[verifier::external_body]
pub(crate) fn write_entry_data(w: &mut ArchiveWriter, data: &[u8]) -> (r: Result<(), ZipError>)
    requires
        zip_written(*old(w)).len() > 0,
    ensures
        zip_writer_open(*old(w)) && zip_written(*old(w)).last().1.len() + data@.len() <= 0xFFFFFFFF
            ==> r is Ok,
        r is Ok ==> zip_writer_open(*final(w)),
        r is Ok ==> zip_written(*final(w)) == zip_written(*old(w)).update(
            zip_written(*old(w)).len() - 1,
            (
                zip_written(*old(w)).last().0,
                zip_written(*old(w)).last().1 + data@,
            ),
        ),
{
    std::io::Write::write_all(&mut w.inner, data)?;
    Ok(())
}

/// Relies on `zip::ZipWriter::finish`: finishes the entry started last,
/// writes the central directory and hands back the buffer that holds the
/// archive of the entries written. Into an in-memory buffer this fails only
/// on a closed writer.
#[verifier::external_body]
pub(crate) fn finish_archive(w: ArchiveWriter) -> (r: Result<Vec<u8>, ZipError>)
    ensures
        zip_writer_open(w) ==> r is Ok,
        r matches Ok(bytes) ==> bytes@ == zip_archive_of(zip_written(w)),
{
    let mut inner = w.inner;
    Ok(inner.finish()?.into_inner())
}

} // verus!
