//! The zip archive that `whisphub push` uploads, built with the `zip` crate.

use vstd::prelude::*;
use vstd::utf8::{encode_scalar, encode_utf8};
use crate::push::{forward_slashes, zip_entry_name};

verus! {

#[verifier::external_type_specification]
#[verifier::external_body]
pub struct ExZipError(zip::result::ZipError);

#[verifier::external_type_specification]
#[verifier::external_body]
pub struct ExIoError(std::io::Error);

/// How an entry's data is stored in the archive.
#[derive(Debug, PartialEq, Eq, Structural, Clone, Copy)]
pub enum Compression {
    Stored,
    Deflated,
}

/// One entry of an archive as written: its name, its compression, its Unix
/// permission bits and its data.
pub type EntryRecord = (Seq<char>, Compression, u32, Seq<u8>);

/// A `zip::ZipWriter` writing into an in-memory buffer. The writer's type
/// cannot stand in a verified signature as it is (its bounds name `std::io`
/// traits), so it is held here and described by `archive_entries` and
/// `entry_open`.
#[verifier::external_body]
pub struct ArchiveWriter {
    inner: zip::ZipWriter<std::io::Cursor<Vec<u8>>>,
}

/// The entries a zip writer has been given so far, in order.
pub uninterp spec fn archive_entries(w: ArchiveWriter) -> Seq<EntryRecord>;

/// Whether the writer has an entry open for data (the entry started last).
pub uninterp spec fn entry_open(w: ArchiveWriter) -> bool;

/// Whether `bytes` is a zip archive holding exactly `entries`, in order. The
/// archive also records modification times taken from the clock when the
/// `zip` crate's `time` feature is on, which is why the bytes themselves are
/// not named.
pub uninterp spec fn is_zip_archive_of(entries: Seq<EntryRecord>, bytes: Seq<u8>) -> bool;

/// The longest entry name the archive format takes, in UTF-8 bytes.
pub open spec fn entry_name_fits(name: Seq<char>) -> bool {
    encode_utf8(name).len() <= 65535
}

/// The length of `data` once compressed by the zip crate's deflate encoder at
/// its default level.
pub uninterp spec fn deflated_len(data: Seq<u8>) -> nat;

/// An entry that fits without the large-file option: its data and its data as
/// stored (deflated, for a deflated entry) are each at most `0xFFFF_FFFF`
/// bytes.
pub open spec fn entry_fits(e: EntryRecord) -> bool {
    &&& e.3.len() <= 0xFFFF_FFFF
    &&& (e.1 == Compression::Deflated ==> deflated_len(e.3) <= 0xFFFF_FFFF)
}

/// The names of `entries`, in order.
pub open spec fn entry_names(entries: Seq<EntryRecord>) -> Seq<Seq<char>> {
    entries.map_values(|e: EntryRecord| e.0)
}

/// Whether the entry open in `w`, if any, is small enough to be closed.
pub open spec fn open_entry_fits(w: ArchiveWriter) -> bool {
    entry_open(w) ==> archive_entries(w).len() > 0 && entry_fits(archive_entries(w).last())
}

/// Calls `ZipWriter::new` over an empty in-memory buffer: a writer with no
/// entries and none open.
#[verifier::external_body]
fn new_archive_writer() -> (w: ArchiveWriter)
    ensures
        archive_entries(w) == Seq::<EntryRecord>::empty(),
        !entry_open(w),
{
    ArchiveWriter { inner: zip::ZipWriter::new(std::io::Cursor::new(Vec::new())) }
}

/// Calls `ZipWriter::start_file` with options built by
/// `SimpleFileOptions::default().compression_method(..).unix_permissions(..)`.
/// The name must fit the format's 16-bit length field (the crate unwraps that
/// conversion). On success the previous entry is closed and the writer holds
/// one more entry, open, with this name, compression and the low nine bits of
/// `unix_mode`, and no data yet. It succeeds whenever the name is new and the
/// entry being closed fits (`entry_fits`): the crate refuses only a duplicate
/// name, or an entry whose data or compressed data passes `0xFFFF_FFFF` bytes
/// without the large-file option; the buffer is in memory. Nothing is stated
/// after a failure.
#[verifier::external_body]
fn start_archive_entry(
    w: &mut ArchiveWriter,
    name: &str,
    compression: Compression,
    unix_mode: u32,
) -> (r: Result<(), zip::result::ZipError>)
    requires
        entry_name_fits(name@),
    ensures
        r is Ok ==> archive_entries(*final(w)) == archive_entries(*old(w)).push(
            (name@, compression, unix_mode & 0o777u32, Seq::<u8>::empty()),
        ) && entry_open(*final(w)),
        !entry_names(archive_entries(*old(w))).contains(name@) && open_entry_fits(*old(w)) ==> r is Ok,
{
    let method = match compression {
        Compression::Stored => zip::CompressionMethod::Stored,
        Compression::Deflated => zip::CompressionMethod::Deflated,
    };
    let options = zip::write::SimpleFileOptions::default().compression_method(method).unix_permissions(
        unix_mode,
    );
    w.inner.start_file(name, options)
}

/// Calls `Write::write_all` on the writer: on success the data is appended to
/// the open entry (with no entry open, only empty data succeeds, and changes
/// nothing). It succeeds whenever an entry is open and its data stays within
/// 4 GiB - 1 bytes. Nothing is stated after a failure.
#[verifier::external_body]
fn write_archive_data(w: &mut ArchiveWriter, data: &[u8]) -> (r: Result<(), std::io::Error>)
    ensures
        r is Ok && entry_open(*old(w)) ==> archive_entries(*old(w)).len() > 0 && entry_open(*final(w))
            && archive_entries(*final(w)) == archive_entries(*old(w)).update(
                archive_entries(*old(w)).len() - 1,
                (
                    archive_entries(*old(w)).last().0,
                    archive_entries(*old(w)).last().1,
                    archive_entries(*old(w)).last().2,
                    archive_entries(*old(w)).last().3 + data@,
                ),
            ),
        r is Ok && !entry_open(*old(w)) ==> data@.len() == 0 && !entry_open(*final(w))
            && archive_entries(*final(w)) == archive_entries(*old(w)),
        entry_open(*old(w)) && archive_entries(*old(w)).len() > 0 && archive_entries(*old(w)).last().3.len()
            + data@.len() <= 0xFFFF_FFFF ==> r is Ok,
{
    std::io::Write::write_all(&mut w.inner, data)
}

/// Calls `ZipWriter::finish` and takes the buffer out of the cursor: on
/// success the bytes are a zip archive of the entries the writer held. It
/// succeeds whenever the open entry, if any, fits (`entry_fits`).
#[verifier::external_body]
fn finish_archive(w: ArchiveWriter) -> (r: Result<Vec<u8>, zip::result::ZipError>)
    ensures
        r matches Ok(b) ==> is_zip_archive_of(archive_entries(w), b@),
        !entry_open(w) ==> r is Ok,
        entry_open(w) && archive_entries(w).len() > 0 && archive_entries(w).last().3.len() <= 0xFFFF_FFFF && (
        archive_entries(w).last().1 == Compression::Deflated ==> deflated_len(archive_entries(w).last().3)
            <= 0xFFFF_FFFF) ==> r is Ok,
{
    match w.inner.finish() {
        Ok(cursor) => Ok(cursor.into_inner()),
        Err(e) => Err(e),
    }
}

/// Why the archive could not be built.
#[derive(Debug)]
pub enum ArchiveError {
    /// The zip writer refused an entry or could not finish.
    Zip(zip::result::ZipError),
    /// Data could not be written into an entry.
    Write(std::io::Error),
}

/// A file to put in the archive: its path relative to the project root and its
/// contents.
pub struct ArchiveFile {
    pub path: String,
    pub contents: Vec<u8>,
}

/// The permission bits every archived file gets: `rw-r--r--`.
pub const ARCHIVED_FILE_MODE: u32 = 0o644;

/// The entry a file becomes: named by its path with `/` separators, deflated,
/// with mode `0o644`, holding the file's contents.
pub open spec fn entry_of(f: ArchiveFile) -> EntryRecord {
    (forward_slashes(f.path@), Compression::Deflated, ARCHIVED_FILE_MODE, f.contents@)
}

/// The entries for a list of files, in the same order.
pub open spec fn entries_of(files: Seq<ArchiveFile>) -> Seq<EntryRecord> {
    files.map_values(|f: ArchiveFile| entry_of(f))
}

/// Every file's path, and so its entry name, fits the format's name length:
/// what `str::len` of each path tells.
pub open spec fn entry_names_fit(files: Seq<ArchiveFile>) -> bool {
    forall|i: int| 0 <= i < files.len() ==> entry_name_fits(#[trigger] files[i].path@)
}

/// Turning `\` into `/` keeps the UTF-8 length of a name: both are one byte.
pub proof fn lemma_forward_slashes_utf8_len(s: Seq<char>)
    ensures
        encode_utf8(forward_slashes(s)).len() == encode_utf8(s).len(),
    decreases s.len(),
{
    if s.len() > 0 {
        lemma_forward_slashes_utf8_len(s.drop_first());
        assert(forward_slashes(s).drop_first() =~= forward_slashes(s.drop_first()));
        let c = s[0];
        assert(forward_slashes(s)[0] == (if c == '\\' { '/' } else { c }));
        if c == '\\' {
            assert(encode_scalar('\\' as u32).len() == 1);
            assert(encode_scalar('/' as u32).len() == 1);
        }
    }
}

/// A name of at most 16383 characters fits, whatever they are: no character
/// takes more than four bytes.
pub proof fn lemma_short_name_fits(name: Seq<char>)
    requires
        name.len() <= 16383,
    ensures
        entry_name_fits(name),
{
    lemma_utf8_len_bound(name);
}

proof fn lemma_utf8_len_bound(s: Seq<char>)
    ensures
        encode_utf8(s).len() <= 4 * s.len(),
    decreases s.len(),
{
    if s.len() > 0 {
        lemma_utf8_len_bound(s.drop_first());
        assert(encode_scalar(s[0] as u32).len() <= 4);
    }
}

/// No two files get the same entry name, and every file's contents and their
/// deflated form are each at most `0xFFFF_FFFF` bytes.
pub open spec fn archivable(files: Seq<ArchiveFile>) -> bool {
    &&& forall|i: int, j: int|
        0 <= i < j < files.len() ==> #[trigger] forward_slashes(files[i].path@) != #[trigger] forward_slashes(
            files[j].path@,
        )
    &&& forall|i: int|
        0 <= i < files.len() ==> (#[trigger] files[i].contents@).len() <= 0xFFFF_FFFF && deflated_len(
            files[i].contents@,
        ) <= 0xFFFF_FFFF
}

/// Builds the zip archive of `files`: one deflated entry per file, in order,
/// named by its path with `/` separators and holding its contents. It
/// succeeds whenever the entry names are distinct and no file, raw or
/// deflated, passes `0xFFFF_FFFF` bytes. Every path must fit the format's name length (`str::len` at most
/// 65535).
pub fn build_zip(files: &Vec<ArchiveFile>) -> (r: Result<Vec<u8>, ArchiveError>)
    requires
        entry_names_fit(files@),
    ensures
        r matches Ok(b) ==> is_zip_archive_of(entries_of(files@), b@),
        archivable(files@) ==> r is Ok,
{
    let mut w = new_archive_writer();
    let mut i: usize = 0;
    assert(ARCHIVED_FILE_MODE & 0o777u32 == ARCHIVED_FILE_MODE) by (bit_vector);
    while i < files.len()
        invariant
            i <= files@.len(),
            entry_names_fit(files@),
            archive_entries(w) == entries_of(files@.take(i as int)),
            entry_open(w) == (i > 0),
            ARCHIVED_FILE_MODE & 0o777u32 == ARCHIVED_FILE_MODE,
        decreases files.len() - i,
    {
        let name = zip_entry_name(files[i].path.as_str());
        proof {
            assert(entry_name_fits(files@[i as int].path@));
            lemma_forward_slashes_utf8_len(files@[i as int].path@);
            if archivable(files@) {
                let es = entries_of(files@.take(i as int));
                assert forall|k: int| 0 <= k < es.len() implies entry_names(es)[k] != name@ by {
                    assert(entry_names(es)[k] == forward_slashes(files@[k].path@));
                }
                if i > 0 {
                    assert(es.last().3 == files@[i - 1].contents@);
                }
            }
        }
        match start_archive_entry(&mut w, name.as_str(), Compression::Deflated, ARCHIVED_FILE_MODE) {
            Ok(()) => {},
            Err(e) => {
                return Err(ArchiveError::Zip(e));
            },
        }
        match write_archive_data(&mut w, files[i].contents.as_slice()) {
            Ok(()) => {},
            Err(e) => {
                return Err(ArchiveError::Write(e));
            },
        }
        proof {
            assert(entries_of(files@.take(i + 1)) =~= entries_of(files@.take(i as int)).push(
                entry_of(files@[i as int]),
            ));
        }
        i = i + 1;
    }
    assert(files@.take(files@.len() as int) =~= files@);
    proof {
        if archivable(files@) && i > 0 {
            assert(archive_entries(w).last().3 == files@[i - 1].contents@);
        }
    }
    match finish_archive(w) {
        Ok(b) => Ok(b),
        Err(e) => Err(ArchiveError::Zip(e)),
    }
}

} // verus!
