//! Reading the embedded payload archive.
//!
//! The payload is a ZIP archive held in an in-memory buffer. The `zip`
//! crate parses and decompresses it; everything it yields — including
//! whether parsing and each entry's decompression succeed — is a function
//! of the buffer's bytes alone, which is what lets a payload deployed
//! twice come out the same both times. The trusted items here name that
//! entry list and those success conditions; `read_payload` walks the
//! entries into plain `PayloadEntry` values.

use vstd::prelude::*;
use std::io::Cursor;
use zip::read::ZipArchive;
use crate::payload::{PayloadEntry, entry_model};

verus! {

#[verifier::external_type_specification]
#[verifier::external_body]
#[verifier::reject_recursive_types(R)]
pub struct ExZipArchive<R>(ZipArchive<R>);

#[verifier::external_type_specification]
#[verifier::external_body]
#[verifier::reject_recursive_types(T)]
pub struct ExCursor<T>(Cursor<T>);

/// What an open archive reader holds: for each entry in archive order, its
/// stored relative path, whether it is a directory, and its decompressed
/// bytes (empty for a directory).
pub uninterp spec fn archive_entries(a: ZipArchive<Cursor<Vec<u8>>>) -> Seq<
    (Seq<char>, bool, Seq<u8>),
>;

/// Whether an open archive reader can serve entry `i` and decompress it
/// cleanly; `open_archive` ties this to `zip_entry_readable` of the
/// buffer's bytes.
pub uninterp spec fn archive_readable(a: ZipArchive<Cursor<Vec<u8>>>, i: int) -> bool;

/// The entry list that parsing `bytes` as a ZIP archive yields; parsing
/// and decompression depend on the bytes alone.
pub uninterp spec fn zip_entries_of(bytes: Seq<u8>) -> Seq<(Seq<char>, bool, Seq<u8>)>;

/// Whether `bytes` parse as a ZIP archive — whether a central directory
/// can be collected from them; a function of the bytes alone.
pub uninterp spec fn zip_parses(bytes: Seq<u8>) -> bool;

/// Whether entry `i` of the archive held in `bytes` can be served and
/// decompressed cleanly; a function of the bytes alone.
pub uninterp spec fn zip_entry_readable(bytes: Seq<u8>, i: int) -> bool;

/// Relies on zip::read::ZipArchive::new: collects the archive's central
/// directory from the in-memory buffer, succeeding exactly when the bytes
/// parse; the entries an open reader then serves, and which of them read
/// cleanly, are functions of the buffer's bytes alone.
#[verifier::external_body]
pub(crate) fn open_archive(bytes: Vec<u8>) -> (r: Result<ZipArchive<Cursor<Vec<u8>>>, String>)
    ensures
        r is Ok <==> zip_parses(bytes@),
        r matches Ok(a) ==> archive_entries(a) == zip_entries_of(bytes@),
        r matches Ok(a) ==> forall|i: int|
            #[trigger] archive_readable(a, i) == zip_entry_readable(bytes@, i),
{
    match ZipArchive::new(Cursor::new(bytes)) {
        Ok(a) => Ok(a),
        Err(e) => Err(e.to_string()),
    }
}

/// Relies on zip::read::ZipArchive::len: the number of entries in the
/// archive.
#[verifier::external_body]
pub(crate) fn archive_len(a: &ZipArchive<Cursor<Vec<u8>>>) -> (n: usize)
    ensures
        n == archive_entries(*a).len(),
{
    a.len()
}

/// Relies on zip::read::ZipArchive::by_index, ZipFile::name, ZipFile::is_dir
/// and ZipFile's Read impl: reading entry `i` succeeds exactly when that
/// entry is readable, yields its stored name, its directory flag and its
/// decompressed bytes, and leaves the archive's entry list and
/// readability as they were.
#[verifier::external_body]
pub(crate) fn read_entry(a: &mut ZipArchive<Cursor<Vec<u8>>>, i: usize) -> (r: Result<
    PayloadEntry,
    String,
>)
    requires
        i < archive_entries(*old(a)).len(),
    ensures
        archive_entries(*final(a)) == archive_entries(*old(a)),
        forall|j: int|
            #[trigger] archive_readable(*final(a), j) == archive_readable(*old(a), j),
        r is Ok <==> archive_readable(*old(a), i as int),
        r matches Ok(e) ==> entry_model(e) == archive_entries(*old(a))[i as int],
{
    match a.by_index(i) {
        Ok(mut f) => {
            let name = f.name().to_string();
            let is_dir = f.is_dir();
            let mut data: Vec<u8> = Vec::new();
            if !is_dir {
                if let Err(e) = std::io::Read::read_to_end(&mut f, &mut data) {
                    return Err(e.to_string());
                }
            }
            Ok(PayloadEntry { name, is_dir, data })
        },
        Err(e) => Err(e.to_string()),
    }
}

/// Reads every entry of the archive in archive order, succeeding exactly
/// when every entry is readable. On success the payload is exactly the
/// archive's entry list; an unreadable entry surfaces the reader's
/// diagnostic instead.
pub fn read_payload(a: &mut ZipArchive<Cursor<Vec<u8>>>) -> (r: Result<Vec<PayloadEntry>, String>)
    ensures
        archive_entries(*final(a)) == archive_entries(*old(a)),
        forall|j: int|
            #[trigger] archive_readable(*final(a), j) == archive_readable(*old(a), j),
        r is Ok <==> (forall|i: int|
            0 <= i < archive_entries(*old(a)).len() ==> #[trigger] archive_readable(
                *old(a),
                i,
            )),
        r matches Ok(v) ==> v@.len() == archive_entries(*old(a)).len() && forall|i: int|
            0 <= i < v@.len() ==> entry_model(#[trigger] v@[i]) == archive_entries(*old(a))[i],
{
    let n = archive_len(a);
    let mut v: Vec<PayloadEntry> = Vec::new();
    let mut i: usize = 0;
    while i < n
        invariant
            archive_entries(*a) == archive_entries(*old(a)),
            forall|j: int|
                #[trigger] archive_readable(*a, j) == archive_readable(*old(a), j),
            n == archive_entries(*a).len(),
            i <= n,
            v@.len() == i,
            forall|j: int| 0 <= j < i ==> #[trigger] archive_readable(*old(a), j),
            forall|j: int|
                0 <= j < i ==> entry_model(#[trigger] v@[j]) == archive_entries(*a)[j],
        decreases n - i,
    {
        match read_entry(a, i) {
            Ok(e) => v.push(e),
            Err(msg) => {
                proof {
                    assert(!archive_readable(*old(a), i as int));
                }
                return Err(msg);
            },
        }
        i = i + 1;
    }
    Ok(v)
}

/// Opens the payload archive held in `bytes` and reads every entry,
/// succeeding exactly when the bytes parse as an archive and every entry
/// is readable; the payload is then exactly what parsing those bytes
/// yields.
pub fn prepare_payload(bytes: Vec<u8>) -> (r: Result<Vec<PayloadEntry>, String>)
    ensures
        r is Ok <==> (zip_parses(bytes@) && (forall|i: int|
            0 <= i < zip_entries_of(bytes@).len() ==> #[trigger] zip_entry_readable(
                bytes@,
                i,
            ))),
        r matches Ok(v) ==> v@.len() == zip_entries_of(bytes@).len() && forall|i: int|
            0 <= i < v@.len() ==> entry_model(#[trigger] v@[i]) == zip_entries_of(bytes@)[i],
{
    let ghost b = bytes@;
    let mut a = match open_archive(bytes) {
        Ok(a) => a,
        Err(msg) => {
            return Err(msg);
        },
    };
    let ghost a0 = a;
    let r = read_payload(&mut a);
    proof {
        assert(archive_entries(a0) == zip_entries_of(b));
        if r is Ok {
            assert forall|i: int| 0 <= i < zip_entries_of(b).len() implies #[trigger] zip_entry_readable(
                b,
                i,
            ) by {
                assert(archive_readable(a0, i));
            }
        } else {
            let w = choose|i: int|
                !(0 <= i < archive_entries(a0).len() ==> archive_readable(a0, i));
            assert(!(0 <= w < archive_entries(a0).len() ==> archive_readable(a0, w)));
            assert(!zip_entry_readable(b, w));
        }
    }
    r
}

} // verus!
