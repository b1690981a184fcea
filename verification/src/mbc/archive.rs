use vstd::prelude::*;
use vstd::string::*;
use std::io::Cursor;
use std::io::Read;
use zip::ZipArchive;
use zip::result::ZipError;
use crate::mbc::LoadError;

verus! {

/// `ZipArchive` of the zip crate: an opened archive. Nothing inside it is
/// visible here.
#[verifier::external_type_specification]
#[verifier::external_body]
#[verifier::reject_recursive_types(R)]
pub struct ExZipArchive<R>(ZipArchive<R>);

/// `Cursor` of std: a reader over bytes in memory.
#[verifier::external_type_specification]
#[verifier::external_body]
#[verifier::reject_recursive_types(T)]
pub struct ExCursor<T>(Cursor<T>);

/// `ZipError` of the zip crate: why an archive could not be read.
#[verifier::external_type_specification]
#[verifier::external_body]
pub struct ExZipError(ZipError);

/// The files of an opened archive in the order of its directory, as they
/// are read with the empty password. A file that cannot be opened stands
/// as `None`; one that can, as its name and its content, or `None` for a
/// content that cannot be unpacked.
pub uninterp spec fn archive_entries(archive: ZipArchive<Cursor<Vec<u8>>>) -> Seq<
    Option<(Seq<char>, Option<Seq<u8>>)>,
>;

/// The files that a sequence of bytes holds when read as a ZIP archive, or
/// `None` where it is no archive.
pub uninterp spec fn parsed_archive(bytes: Seq<u8>) -> Option<
    Seq<Option<(Seq<char>, Option<Seq<u8>>)>>,
>;

/// `ZipArchive::new` of the zip crate on the bytes in memory: it reads the
/// directory of the archive, and fails where the bytes are no archive.
#[verifier::external_body]
fn open_archive(buffer: Vec<u8>) -> (result: Result<ZipArchive<Cursor<Vec<u8>>>, ZipError>)
    ensures
        match result {
            Ok(archive) => parsed_archive(buffer@) == Some(archive_entries(archive)),
            Err(_) => parsed_archive(buffer@) is None,
        },
{
    ZipArchive::new(Cursor::new(buffer))
}

/// `ZipArchive::len` of the zip crate: the number of files in the directory.
#[verifier::external_body]
fn archive_len(archive: &ZipArchive<Cursor<Vec<u8>>>) -> (count: usize)
    ensures
        count == archive_entries(*archive).len(),
{
    archive.len()
}

/// The content of a file as a plain value.
pub open spec fn content_view(data: Option<Vec<u8>>) -> Option<Seq<u8>> {
    match data {
        Some(bytes) => Some(bytes@),
        None => None,
    }
}

/// `ZipArchive::by_index_decrypt` of the zip crate with the empty password,
/// and `ZipFile::name` and `read_to_end` on the file it gives: the name and
/// the unpacked content of the file at `index`. The result is `None` where
/// the file cannot be opened, be it for an error of the archive or for a
/// password that the file asks for, and the content is `None` where it
/// cannot be unpacked. The archive holds afterwards what it held before.
#[verifier::external_body]
fn read_entry(archive: &mut ZipArchive<Cursor<Vec<u8>>>, index: usize) -> (entry: Option<
    (String, Option<Vec<u8>>),
>)
    requires
        index < archive_entries(*old(archive)).len(),
    ensures
        archive_entries(*final(archive)) == archive_entries(*old(archive)),
        match entry {
            Some((name, data)) => archive_entries(*old(archive))[index as int] == Some(
                (name@, content_view(data)),
            ),
            None => archive_entries(*old(archive))[index as int] is None,
        },
{
    match archive.by_index_decrypt(index, &[]) {
        Ok(Ok(mut file)) => {
            let name = file.name().to_string();
            let mut bytes = Vec::new();
            match file.read_to_end(&mut bytes) {
                Ok(_) => Some((name, Some(bytes))),
                Err(_) => Some((name, None)),
            }
        },
        Ok(Err(_)) => None,
        Err(_) => None,
    }
}

/// Whether `text` ends with `suffix`.
pub open spec fn has_suffix(text: Seq<char>, suffix: Seq<char>) -> bool {
    suffix.len() <= text.len() && text.subrange(text.len() - suffix.len(), text.len() as int)
        == suffix
}

/// Whether `text` ends with `suffix`.
pub fn ends_with(text: &str, suffix: &str) -> (b: bool)
    ensures
        b == has_suffix(text@, suffix@),
{
    let n: usize = text.unicode_len();
    let k: usize = suffix.unicode_len();
    if k > n {
        return false;
    }
    let ghost tail = text@.subrange(n - k, n as int);
    let mut i: usize = 0;
    while i < k
        invariant
            i <= k <= n,
            n == text@.len(),
            k == suffix@.len(),
            tail == text@.subrange(n - k, n as int),
            forall|j: int| 0 <= j < i ==> tail[j] == suffix@[j],
        decreases k - i,
    {
        if text.get_char(n - k + i) != suffix.get_char(i) {
            assert(tail[i as int] != suffix@[i as int]);
            return false;
        }
        i = i + 1;
    }
    assert(tail =~= suffix@);
    true
}

/// The name of a ROM image: one that ends with ".gb".
pub open spec fn is_rom_name(name: Seq<char>) -> bool {
    has_suffix(name, seq!['.', 'g', 'b'])
}

/// The first ROM image among the files of an archive from `from` on. A
/// file that cannot be opened ends the search, and so does a ROM image
/// that cannot be unpacked.
pub open spec fn rom_in(entries: Seq<Option<(Seq<char>, Option<Seq<u8>>)>>, from: int) -> Result<
    Seq<u8>,
    LoadError,
>
    decreases entries.len() - from,
{
    if from < 0 || from >= entries.len() {
        Err(LoadError::NoRomInArchive)
    } else {
        match entries[from] {
            None => Err(LoadError::UnreadableEntry),
            Some((name, data)) => {
                if is_rom_name(name) {
                    match data {
                        Some(bytes) => Ok(bytes),
                        None => Err(LoadError::UnreadableEntry),
                    }
                } else {
                    rom_in(entries, from + 1)
                }
            },
        }
    }
}

/// What unpacking the ROM image from the bytes of an archive gives.
pub open spec fn rom_in_archive(bytes: Seq<u8>) -> Result<Seq<u8>, LoadError> {
    match parsed_archive(bytes) {
        None => Err(LoadError::InvalidArchive),
        Some(entries) => rom_in(entries, 0),
    }
}

/// Whether an unpacked image is the one that the model names.
pub open spec fn same_image(result: Result<Vec<u8>, LoadError>, model: Result<Seq<u8>, LoadError>) -> bool {
    match result {
        Ok(bytes) => model == Ok::<Seq<u8>, LoadError>(bytes@),
        Err(error) => model == Err::<Seq<u8>, LoadError>(error),
    }
}

/// Unpacks the first file of an opened archive whose name ends with ".gb".
pub fn find_rom(archive: &mut ZipArchive<Cursor<Vec<u8>>>) -> (result: Result<Vec<u8>, LoadError>)
    ensures
        archive_entries(*final(archive)) == archive_entries(*old(archive)),
        same_image(result, rom_in(archive_entries(*old(archive)), 0)),
{
    let count: usize = archive_len(archive);
    let ghost entries = archive_entries(*archive);
    let mut i: usize = 0;
    while i < count
        invariant
            i <= count,
            count == entries.len(),
            entries == archive_entries(*archive),
            entries == archive_entries(*old(archive)),
            rom_in(entries, i as int) == rom_in(entries, 0),
        decreases count - i,
    {
        match read_entry(archive, i) {
            None => {
                return Err(LoadError::UnreadableEntry);
            },
            Some((name, data)) => {
                proof {
                    reveal_strlit(".gb");
                    assert(".gb"@ =~= seq!['.', 'g', 'b']);
                }
                if ends_with(name.as_str(), ".gb") {
                    return match data {
                        Some(bytes) => Ok(bytes),
                        None => Err(LoadError::UnreadableEntry),
                    };
                }
            },
        }
        i = i + 1;
    }
    Err(LoadError::NoRomInArchive)
}

/// Unpacks the ROM image from the bytes of a ZIP archive: the first file
/// whose name ends with ".gb".
pub fn extract_rom_from_zip(buffer: Vec<u8>) -> (result: Result<Vec<u8>, LoadError>)
    ensures
        same_image(result, rom_in_archive(buffer@)),
{
    match open_archive(buffer) {
        Ok(mut archive) => find_rom(&mut archive),
        Err(_) => Err(LoadError::InvalidArchive),
    }
}

} // verus!
