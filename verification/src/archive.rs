use vstd::prelude::*;
use std::io::Cursor;

verus! {

#[verifier::external_type_specification]
#[verifier::external_body]
#[verifier::reject_recursive_types(R)]
pub struct ExZipArchive<R>(zip::ZipArchive<R>);

/// An archive writer over an in-memory buffer.  The zip library's writer
/// type cannot be declared to the verifier (its bounds name I/O traits), so
/// it is held opaquely here; `writer_entries` names what it has accumulated.
#[verifier::external_body]
pub struct ArchiveWriter {
    inner: zip::ZipWriter<Cursor<Vec<u8>>>,
}

#[verifier::external_type_specification]
#[verifier::external_body]
#[verifier::reject_recursive_types(T)]
pub struct ExCursor<T>(Cursor<T>);

#[verifier::external_type_specification]
#[verifier::external_body]
pub struct ExZipError(zip::result::ZipError);

/// What an open archive holds: one pair per entry, in directory order.  The
/// first component is the entry's stored name, byte for byte; the second
/// stands for the projection of the entry that a raw copy carries over
/// (compressed payload, checksum, sizes, compression method, and the
/// timestamp and permissions as the copy normalizes them).
pub uninterp spec fn arch_entries(a: zip::ZipArchive<Cursor<Vec<u8>>>) -> Seq<(Seq<u8>, Seq<u8>)>;

/// The bytes an open archive reads from: the in-memory buffer it was opened
/// over, which its later operations never change.
pub uninterp spec fn arch_source(a: zip::ZipArchive<Cursor<Vec<u8>>>) -> Seq<u8>;

/// What a writer has accumulated so far: one pair per written entry, in
/// order, a UTF-8 name together with the copied record.
pub uninterp spec fn writer_entries(w: ArchiveWriter) -> Seq<(Seq<char>, Seq<u8>)>;

/// What reading an archive from `bytes` yields: its entries when the bytes
/// form a readable archive, `None` otherwise.  Determined by the bytes
/// alone.
pub uninterp spec fn parse_zip(bytes: Seq<u8>) -> Option<Seq<(Seq<u8>, Seq<u8>)>>;

/// The bytes a finished writer produces from the entries it accumulated.
/// Determined by those entries alone.
pub uninterp spec fn emit_zip(entries: Seq<(Seq<char>, Seq<u8>)>) -> Seq<u8>;

/// Whether entry `i` of the archive parsed from `bytes` can be opened for
/// raw reading (its local header found and read from the buffer).
/// Determined by the bytes alone.
pub uninterp spec fn readable_zip(bytes: Seq<u8>, i: int) -> bool;

/// Whether a writer holding `entries` accepts a copied record appended
/// under `name` — the writer rejects, among others, a duplicate or
/// over-long name.  Determined by its arguments alone.
pub uninterp spec fn writer_accepts(
    entries: Seq<(Seq<char>, Seq<u8>)>,
    name: Seq<char>,
    record: Seq<u8>,
) -> bool;

/// Whether finishing a writer that holds `entries` succeeds.  Determined by
/// the entries alone.
pub uninterp spec fn finish_accepts(entries: Seq<(Seq<char>, Seq<u8>)>) -> bool;

/// Relies on zip::ZipArchive::new over an in-memory cursor: the central
/// directory is parsed from the bytes alone, and reading succeeds exactly
/// when they form a readable archive.
#[verifier::external_body]
pub(crate) fn open_archive(bytes: Vec<u8>) -> (r: Result<
    zip::ZipArchive<Cursor<Vec<u8>>>,
    zip::result::ZipError,
>)
    ensures
        r is Ok <==> parse_zip(bytes@) is Some,
        r is Ok ==> arch_entries(r->Ok_0) == parse_zip(bytes@)->Some_0,
        r is Ok ==> arch_source(r->Ok_0) == bytes@,
{
    zip::ZipArchive::new(Cursor::new(bytes))
}

/// Relies on zip::ZipArchive::len: the number of entries the directory
/// holds.
#[verifier::external_body]
pub(crate) fn archive_len(a: &zip::ZipArchive<Cursor<Vec<u8>>>) -> (r: usize)
    ensures
        r == arch_entries(*a).len(),
{
    a.len()
}

/// Relies on zip::ZipArchive::by_index_raw and zip::read::ZipFile::name_raw:
/// the stored name bytes of entry `i`, read without decompressing and
/// without touching the directory; it succeeds exactly when the entry can
/// be opened raw, which the buffer alone decides.
#[verifier::external_body]
pub(crate) fn entry_name(a: &mut zip::ZipArchive<Cursor<Vec<u8>>>, i: usize) -> (r: Result<
    Vec<u8>,
    zip::result::ZipError,
>)
    requires
        i < arch_entries(*old(a)).len(),
    ensures
        arch_entries(*final(a)) == arch_entries(*old(a)),
        arch_source(*final(a)) == arch_source(*old(a)),
        r is Ok <==> readable_zip(arch_source(*old(a)), i as int),
        r is Ok ==> r->Ok_0@ == arch_entries(*old(a))[i as int].0,
{
    let f = a.by_index_raw(i)?;
    Ok(f.name_raw().to_vec())
}

/// Relies on zip::ZipWriter::new over a fresh in-memory cursor: a new
/// writer holds no entries.
#[verifier::external_body]
pub(crate) fn new_writer() -> (r: ArchiveWriter)
    ensures
        writer_entries(r) == Seq::<(Seq<char>, Seq<u8>)>::empty(),
{
    ArchiveWriter { inner: zip::ZipWriter::new(Cursor::new(Vec::new())) }
}

/// Relies on zip::ZipArchive::by_index_raw and
/// zip::ZipWriter::raw_copy_file_rename: appends to the writer a copy of
/// entry `i` of `a` — its record as the raw copy carries it — under the
/// name `name`, leaving the source archive's directory as it was.  It
/// succeeds exactly when the entry can be opened raw and the writer accepts
/// the appended pair; both are decided by the values alone.
#[verifier::external_body]
pub(crate) fn copy_entry(
    a: &mut zip::ZipArchive<Cursor<Vec<u8>>>,
    i: usize,
    w: &mut ArchiveWriter,
    name: &str,
) -> (r: Result<(), zip::result::ZipError>)
    requires
        i < arch_entries(*old(a)).len(),
    ensures
        arch_entries(*final(a)) == arch_entries(*old(a)),
        arch_source(*final(a)) == arch_source(*old(a)),
        r is Ok <==> readable_zip(arch_source(*old(a)), i as int) && writer_accepts(
            writer_entries(*old(w)),
            name@,
            arch_entries(*old(a))[i as int].1,
        ),
        r is Ok ==> writer_entries(*final(w)) == writer_entries(*old(w)).push(
            (name@, arch_entries(*old(a))[i as int].1),
        ),
{
    let f = a.by_index_raw(i)?;
    w.inner.raw_copy_file_rename(f, name)
}

/// Relies on zip::ZipWriter::finish: writes the central directory and hands
/// back the bytes of the archive; whether it succeeds, and the bytes it
/// yields, are functions of the accumulated entries alone.
#[verifier::external_body]
pub(crate) fn finish_writer(w: ArchiveWriter) -> (r: Result<
    Vec<u8>,
    zip::result::ZipError,
>)
    ensures
        r is Ok <==> finish_accepts(writer_entries(w)),
        r is Ok ==> r->Ok_0@ == emit_zip(writer_entries(w)),
{
    Ok(w.inner.finish()?.into_inner())
}

/// Relies on the zip library's error rendering for a human-readable
/// description.
#[verifier::external_body]
pub(crate) fn zip_error_text(e: &zip::result::ZipError) -> (r: String) {
    e.to_string()
}

} // verus!
