//! Reading the members of a zip archive that is held in memory.
//!
//! The decoding is done by the `zip` crate; what it returns is taken on trust
//! and given a name in the model. A 7z archive is unpacked by the host, which
//! hands its members over.

use std::io::Read;
use vstd::prelude::*;

verus! {

/// `std::io::Cursor`, the reader over bytes in memory that an open zip
/// archive holds. Nothing is known of what is inside.
#[verifier::external_type_specification]
#[verifier::external_body]
#[verifier::reject_recursive_types(T)]
pub struct ExCursor<T>(std::io::Cursor<T>);

/// `zip::ZipArchive`, an open zip archive. Nothing is known of what is
/// inside; `zip_entries` names its members.
#[verifier::external_type_specification]
#[verifier::external_body]
#[verifier::reject_recursive_types(R)]
pub struct ExZipArchive<R>(zip::ZipArchive<R>);

/// A member of an archive as it was unpacked: its name as the archive has
/// it, with its directories, and what it holds.
#[derive(Debug)]
pub struct ArchiveMember {
    pub name: String,
    pub data: Vec<u8>,
}

/// A member of an archive as a value of the model: its name, or why it
/// cannot be opened; and what it holds, or why it cannot be read. A member
/// whose name leads out of the directory that an archive is unpacked into
/// has no name to go by.
pub ghost struct Entry {
    pub name: Result<Option<Seq<char>>, Seq<char>>,
    pub data: Result<Seq<u8>, Seq<char>>,
}

/// The entry that stands for an unpacked member.
pub open spec fn unpacked(member: ArchiveMember) -> Entry {
    Entry { name: Ok(Some(member.name@)), data: Ok(member.data@) }
}

/// The entries that stand for unpacked members.
pub open spec fn unpacked_all(members: Seq<ArchiveMember>) -> Seq<Entry> {
    Seq::new(members.len(), |i: int| unpacked(members[i]))
}

/// The members of an open zip archive, in the order of its directory.
pub uninterp spec fn zip_entries(archive: zip::ZipArchive<std::io::Cursor<Vec<u8>>>) -> Seq<Entry>;

/// What opening the bytes `bytes` as a zip archive gives: the members of the
/// archive, or why it cannot be read.
pub uninterp spec fn zip_parse(bytes: Seq<u8>) -> Result<Seq<Entry>, Seq<char>>;

/// Opens `bytes` as a zip archive.
///
/// Stands for `zip::ZipArchive::new` on a cursor over the bytes: it reads the
/// directory of the archive. The contract claims that the outcome depends on
/// the bytes alone, and names it.
#[verifier::external_body]
pub(crate) fn zip_open(bytes: Vec<u8>) -> (r: Result<
    zip::ZipArchive<std::io::Cursor<Vec<u8>>>,
    String,
>)
    ensures
        match r {
            Ok(archive) => zip_parse(bytes@) == Ok::<Seq<Entry>, Seq<char>>(zip_entries(archive)),
            Err(why) => zip_parse(bytes@) == Err::<Seq<Entry>, Seq<char>>(why@),
        },
{
    zip::ZipArchive::new(std::io::Cursor::new(bytes)).map_err(|e| e.to_string())
}

/// The number of members of an open zip archive.
///
/// Stands for `zip::ZipArchive::len`, which returns the number of files in
/// the directory of the archive.
#[verifier::external_body]
pub(crate) fn zip_len(archive: &zip::ZipArchive<std::io::Cursor<Vec<u8>>>) -> (n: usize)
    ensures
        n == zip_entries(*archive).len(),
{
    archive.len()
}

/// The name under which the member `index` of an open zip archive may be
/// unpacked, or why the member cannot be opened.
///
/// Stands for `zip::ZipArchive::by_index` followed by
/// `ZipFile::enclosed_name`, which gives no name where the member's name
/// holds a NUL, is absolute or leads out of the directory. The contract
/// claims that the archive holds the same members afterwards and that the
/// outcome is the one the model names for this member.
#[verifier::external_body]
pub(crate) fn zip_name(archive: &mut zip::ZipArchive<std::io::Cursor<Vec<u8>>>, index: usize) -> (r:
    Result<Option<String>, String>)
    ensures
        zip_entries(*final(archive)) == zip_entries(*old(archive)),
        index < zip_entries(*old(archive)).len() ==> match r {
            Ok(Some(name)) => zip_entries(*old(archive))[index as int].name == Ok::<
                Option<Seq<char>>,
                Seq<char>,
            >(Some(name@)),
            Ok(None) => zip_entries(*old(archive))[index as int].name == Ok::<
                Option<Seq<char>>,
                Seq<char>,
            >(None),
            Err(why) => zip_entries(*old(archive))[index as int].name == Err::<
                Option<Seq<char>>,
                Seq<char>,
            >(why@),
        },
{
    archive.by_index(index).map(
        |file| file.enclosed_name().map(|path| path.to_string_lossy().into_owned()),
    ).map_err(|e| e.to_string())
}

/// What the member `index` of an open zip archive holds, or why it cannot be
/// read.
///
/// Stands for `zip::ZipArchive::by_index` followed by reading the member to
/// its end, which inflates it and checks its checksum. The contract claims
/// that the archive holds the same members afterwards and that the outcome is
/// the one the model names for this member.
#[verifier::external_body]
pub(crate) fn zip_data(archive: &mut zip::ZipArchive<std::io::Cursor<Vec<u8>>>, index: usize) -> (r:
    Result<Vec<u8>, String>)
    ensures
        zip_entries(*final(archive)) == zip_entries(*old(archive)),
        index < zip_entries(*old(archive)).len() ==> match r {
            Ok(data) => zip_entries(*old(archive))[index as int].data == Ok::<Seq<u8>, Seq<char>>(
                data@,
            ),
            Err(why) => zip_entries(*old(archive))[index as int].data == Err::<
                Seq<u8>,
                Seq<char>,
            >(why@),
        },
{
    let mut file = archive.by_index(index).map_err(|e| e.to_string())?;
    let mut data = Vec::new();
    file.read_to_end(&mut data).map_err(|e| e.to_string())?;
    Ok(data)
}

} // verus!
