//! The steps of an import that decide and compute: naming the source, giving
//! the copy its identity and place, and drawing up the record.

use vstd::prelude::*;
use vstd::string::*;

use crate::clock::fits_timestamp;
use crate::clock::system_time_to_millis;
use crate::clock::now_millis;
use crate::digest::is_fingerprint;
use crate::digest::sha256_hex;
use crate::digest::FileHasher;
use crate::format::default_format;
use crate::format::format_of_component;
use crate::format::format_tag;
use crate::format::infer_format;
use crate::layout::book_dir;
use crate::layout::book_dir_path;
use crate::layout::is_identity;
use crate::layout::stored_file_path;
use crate::layout::stored_path;
use crate::payload::DecodedPayload;
use crate::records::BookImportResult;
use crate::records::BookImportView;
use crate::records::FileHashResult;
use crate::records::FileHashView;
use crate::records::FilePayload;
use crate::records::ImportError;

verus! {

/// Where one import goes: its identity, its format, its directory and the
/// path of its stored file.
#[derive(Clone, Debug, PartialEq, Eq)]
pub struct ImportTarget {
    pub id: String,
    pub format: String,
    pub book_dir: String,
    pub file_path: String,
}

impl ImportTarget {
    /// Whether this target is the place of identity `id` and format `format`
    /// under `root`.
    pub open spec fn is_place_of(self, root: Seq<char>, id: Seq<char>, format: Seq<char>) -> bool {
        &&& self.id@ == id
        &&& self.format@ == format
        &&& self.book_dir@ == book_dir(root, id)
        &&& self.file_path@ == stored_path(root, id, format)
    }
}

/// The record that joins a place and what is known of the content, for a
/// stored copy of `stored_size` bytes that was added at `added_at`.
pub open spec fn record_of(
    target: ImportTarget,
    hash: FileHashView,
    stored_size: u64,
    added_at: i64,
) -> BookImportView {
    BookImportView {
        id: target.id@,
        file_name: hash.file_name,
        file_path: target.file_path@,
        file_hash: hash.file_hash,
        file_size: stored_size,
        mtime: hash.mtime,
        format: hash.format,
        added_at,
    }
}

/// `uuid::Uuid::new_v4` and its `to_string`: a fresh random identity in the
/// hyphenated lowercase form. Which one is not known. The call does not
/// return where the operating system gives no random bytes.
#[verifier::external_body]
fn new_identity() -> (id: String)
    ensures
        is_identity(id@),
{
    uuid::Uuid::new_v4().to_string()
}

/// The file name of a source, given the last component of its path: a path
/// without one is refused.
pub fn require_file_name(component: Option<String>) -> (r: Result<String, ImportError>)
    ensures
        match component {
            Some(name) => r == Ok::<String, ImportError>(name),
            None => r == Err::<String, ImportError>(ImportError::InvalidFileName),
        },
{
    match component {
        Some(name) => Ok(name),
        None => Err(ImportError::InvalidFileName),
    }
}

/// The place of the import with identity `id` and format `format` under
/// `root`.
pub fn target_for(root: &str, id: String, format: String) -> (t: ImportTarget)
    ensures
        t.is_place_of(root@, id@, format@),
{
    let book_dir = book_dir_path(root, id.as_str());
    let file_path = stored_file_path(root, id.as_str(), format.as_str());
    ImportTarget { id, format, book_dir, file_path }
}

/// A place under `root` for a new import of format `format`, under a fresh
/// identity.
pub fn allocate_target(root: &str, format: String) -> (t: ImportTarget)
    ensures
        is_identity(t.id@),
        t.is_place_of(root@, t.id@, format@),
{
    target_for(root, new_identity(), format)
}

/// A place under `root` for a payload, whose format is that of the last
/// component of its name, or the default where the name has none.
pub fn allocate_payload_target(root: &str, component: Option<String>) -> (t: ImportTarget)
    ensures
        is_identity(t.id@),
        t.is_place_of(
            root@,
            t.id@,
            match component {
                Some(name) => format_tag(name@),
                None => default_format(),
            },
        ),
{
    allocate_target(root, format_of_component(component))
}

/// What is known of a source named `file_name` once it is hashed and probed:
/// the tag of its name joins the values given.
pub fn hash_result_at(file_name: String, file_hash: String, file_size: u64, mtime: i64) -> (r:
    FileHashResult)
    ensures
        r@ == (FileHashView {
            file_name: file_name@,
            file_hash: file_hash@,
            file_size,
            mtime,
            format: format_tag(file_name@),
        }),
{
    let format = infer_format(file_name.as_str());
    FileHashResult { file_name, file_hash, file_size, mtime, format }
}

/// Closes the hashing of a source file: the fingerprint is that of all the
/// bytes `hasher` took in. `modified` is the file's modification time in
/// whole milliseconds since the epoch; where the platform gave none, or one
/// before the epoch, the current time takes its place.
pub fn hash_file_and_meta(
    file_name: String,
    hasher: FileHasher,
    file_size: u64,
    modified: Option<u128>,
) -> (r: FileHashResult)
    ensures
        r@ == (FileHashView {
            file_name: file_name@,
            file_hash: sha256_hex(hasher@),
            file_size,
            mtime: r.mtime,
            format: format_tag(file_name@),
        }),
        is_fingerprint(r.file_hash@),
        r.mtime >= 0,
        modified matches Some(e) ==> (fits_timestamp(e) ==> r.mtime == e),
{
    let mtime = system_time_to_millis(modified);
    let file_hash = hasher.finish();
    hash_result_at(file_name, file_hash, file_size, mtime)
}

/// What is known of a payload once it is decoded, stored and probed. The
/// payload's name is kept as given; the format is that of the payload's place;
/// `modified` is read as for a source file.
pub fn payload_hash_result(
    file: FilePayload,
    target: &ImportTarget,
    content: DecodedPayload,
    file_size: u64,
    modified: Option<u128>,
) -> (r: FileHashResult)
    ensures
        r@ == (FileHashView {
            file_name: file.name@,
            file_hash: content.file_hash@,
            file_size,
            mtime: r.mtime,
            format: target.format@,
        }),
        r.mtime >= 0,
        modified matches Some(e) ==> (fits_timestamp(e) ==> r.mtime == e),
{
    let mtime = system_time_to_millis(modified);
    FileHashResult {
        file_name: file.name,
        file_hash: content.file_hash,
        file_size,
        mtime,
        format: target.format.clone(),
    }
}

/// The record of an import whose stored copy holds `stored_size` bytes and
/// was added at `added_at`. The size of the record is that of the stored
/// copy, whatever was measured at the source.
pub fn record_at(
    target: ImportTarget,
    hash: FileHashResult,
    stored_size: u64,
    added_at: i64,
) -> (r: BookImportResult)
    ensures
        r@ == record_of(target, hash@, stored_size, added_at),
{
    BookImportResult {
        id: target.id,
        file_name: hash.file_name,
        file_path: target.file_path,
        file_hash: hash.file_hash,
        file_size: stored_size,
        mtime: hash.mtime,
        format: hash.format,
        added_at,
    }
}

/// The record of an import that has just been stored in `stored_size`
/// bytes: it is added now.
pub fn import_record(target: ImportTarget, hash: FileHashResult, stored_size: u64) -> (r:
    BookImportResult)
    ensures
        r@ == record_of(target, hash@, stored_size, r.added_at),
        r.added_at >= 0,
{
    record_at(target, hash, stored_size, now_millis())
}

/// A record drawn up for a place of its own format names the stored file of
/// its identity: the file lies in the directory of that identity under the
/// root and is called `original.` and the format.
pub proof fn lemma_record_names_its_stored_file(
    root: Seq<char>,
    target: ImportTarget,
    hash: FileHashView,
    stored_size: u64,
    added_at: i64,
)
    requires
        target.is_place_of(root, target.id@, hash.format),
    ensures
        record_of(target, hash, stored_size, added_at).file_path == stored_path(
            root,
            record_of(target, hash, stored_size, added_at).id,
            record_of(target, hash, stored_size, added_at).format,
        ),
        book_dir(root, record_of(target, hash, stored_size, added_at).id).is_prefix_of(
            record_of(target, hash, stored_size, added_at).file_path,
        ),
{
}

/// Two imports of the same bytes under different identities: their records
/// agree on fingerprint and size and differ in identity and path. That two
/// identities drawn at random differ is not proved here.
pub proof fn lemma_same_content_distinct_records(
    root: Seq<char>,
    first: ImportTarget,
    second: ImportTarget,
    first_hash: FileHashView,
    second_hash: FileHashView,
    content: Seq<u8>,
    first_added: i64,
    second_added: i64,
)
    requires
        is_identity(first.id@),
        is_identity(second.id@),
        first.id@ != second.id@,
        first.is_place_of(root, first.id@, first_hash.format),
        second.is_place_of(root, second.id@, second_hash.format),
        first_hash.file_hash == sha256_hex(content),
        second_hash.file_hash == sha256_hex(content),
        content.len() <= u64::MAX,
    ensures
        ({
            let a = record_of(first, first_hash, content.len() as u64, first_added);
            let b = record_of(second, second_hash, content.len() as u64, second_added);
            &&& a.id != b.id
            &&& a.file_path != b.file_path
            &&& a.file_hash == b.file_hash
            &&& a.file_size == b.file_size
        }),
{
    crate::layout::lemma_distinct_identities_distinct_paths(
        root,
        first.id@,
        first_hash.format,
        second.id@,
        second_hash.format,
    );
}

} // verus!
