//! Reading an archive held in memory through the `zip` crate. Only the
//! functions of this file build or touch an `OpenArchive`, so the bytes it
//! records are always the bytes its archive was opened from.

use vstd::prelude::*;

verus! {

#[verifier::external_type_specification]
#[verifier::external_body]
#[verifier::reject_recursive_types(R)]
pub struct ExZipArchive<R>(zip::ZipArchive<R>);

#[verifier::external_type_specification]
#[verifier::external_body]
#[verifier::reject_recursive_types(T)]
pub struct ExCursor<T>(std::io::Cursor<T>);

/// Why an archive cannot be opened, `None` when it opens.
pub uninterp spec fn zip_open_error(bytes: Seq<u8>) -> Option<Seq<char>>;

/// The number of entries in an archive's central directory.
pub uninterp spec fn zip_entry_count(bytes: Seq<u8>) -> nat;

/// The name of entry `i`, or why that entry cannot be opened.
pub uninterp spec fn zip_entry_at(bytes: Seq<u8>, i: int) -> Result<Seq<char>, Seq<char>>;

/// An opened archive together with the bytes it was opened from.
pub struct OpenArchive {
    archive: zip::ZipArchive<std::io::Cursor<Vec<u8>>>,
    bytes: Ghost<Seq<u8>>,
}

impl OpenArchive {
    /// The bytes this archive was opened from.
    pub closed spec fn source(&self) -> Seq<u8> {
        self.bytes@
    }
}

/// `zip::ZipArchive::new` over the bytes: the opened archive, which records
/// those bytes, or the error's text. Whether it opens, and the error, are
/// named by `zip_open_error`; the ZIP format is not restated.
#[verifier::external_body]
pub(crate) fn open_archive(bytes: Vec<u8>) -> (r: Result<OpenArchive, String>)
    ensures
        match r {
            Ok(a) => zip_open_error(bytes@) is None && a.source() == bytes@,
            Err(reason) => zip_open_error(bytes@) == Some(reason@),
        },
{
    let ghost b = bytes@;
    match zip::ZipArchive::new(std::io::Cursor::new(bytes)) {
        Ok(archive) => Ok(OpenArchive { archive, bytes: Ghost(b) }),
        Err(e) => Err(e.to_string()),
    }
}

/// `ZipArchive::len`: the number of entries, named by `zip_entry_count`.
#[verifier::external_body]
pub(crate) fn archive_len(a: &OpenArchive) -> (r: usize)
    ensures
        r == zip_entry_count(a.source()),
{
    a.archive.len()
}

/// `ZipArchive::by_index_decrypt` with an empty password, then
/// `ZipFile::name`: the name of entry `i`, or the error's text, named by
/// `zip_entry_at`. For an entry that is not encrypted the password is
/// discarded and the entry is opened exactly as `by_index` opens it, so an
/// unsupported compression method is an error; where `by_index` would
/// panic on an AES record whose encryption flag is clear, this gives the
/// invalid-password error instead. An encrypted entry is tried with the
/// empty password and is an error unless the format's password check
/// happens to accept it. The archive keeps its source.
#[verifier::external_body]
pub(crate) fn archive_entry_name(a: &mut OpenArchive, i: usize) -> (r: Result<String, String>)
    ensures
        final(a).source() == old(a).source(),
        match r {
            Ok(name) => zip_entry_at(old(a).source(), i as int) == Ok::<Seq<char>, Seq<char>>(
                name@,
            ),
            Err(reason) => zip_entry_at(old(a).source(), i as int) == Err::<Seq<char>, Seq<char>>(
                reason@,
            ),
        },
{
    match a.archive.by_index_decrypt(i, b"") {
        Ok(Ok(entry)) => Ok(entry.name().to_string()),
        Ok(Err(e)) => Err(e.to_string()),
        Err(e) => Err(e.to_string()),
    }
}

} // verus!
