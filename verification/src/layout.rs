//! Where the library keeps its files: one directory per identity under the
//! library root, holding one file named after its format.

use vstd::prelude::*;
use vstd::string::*;

use crate::digest::is_lower_hex;

verus! {

/// Whether `i` is one of the four places where an identity holds a hyphen.
pub open spec fn is_hyphen_place(i: int) -> bool {
    i == 8 || i == 13 || i == 18 || i == 23
}

/// Whether `c` may stand at place `i` of an identity: a hyphen at a hyphen
/// place, a lowercase hexadecimal digit anywhere else.
pub open spec fn fits_identity_place(i: int, c: char) -> bool {
    if is_hyphen_place(i) {
        c == '-'
    } else {
        is_lower_hex(c)
    }
}

/// Whether `id` has the shape of an identity: 36 characters, hyphens at the
/// four hyphen places and lowercase hexadecimal digits everywhere else.
pub open spec fn is_identity(id: Seq<char>) -> bool {
    &&& id.len() == 36
    &&& forall|i: int| 0 <= i < 36 ==> #[trigger] fits_identity_place(i, id[i])
}

/// The library root under the application's data directory.
pub open spec fn library_root(app_data_dir: Seq<char>) -> Seq<char> {
    app_data_dir + "/library"@
}

/// The directory of the book with identity `id`.
pub open spec fn book_dir(root: Seq<char>, id: Seq<char>) -> Seq<char> {
    root + "/"@ + id
}

/// The name of a stored file of the given format.
pub open spec fn stored_name(format: Seq<char>) -> Seq<char> {
    "original."@ + format
}

/// The path of the stored file of the book with identity `id`.
pub open spec fn stored_path(root: Seq<char>, id: Seq<char>, format: Seq<char>) -> Seq<char> {
    book_dir(root, id) + "/"@ + stored_name(format)
}

/// The library root under the application's data directory `app_data_dir`.
pub fn library_dir_path(app_data_dir: &str) -> (root: String)
    ensures
        root@ == library_root(app_data_dir@),
{
    String::from_str(app_data_dir).concat("/library")
}

/// The directory that holds the book with identity `id`.
pub fn book_dir_path(root: &str, id: &str) -> (dir: String)
    ensures
        dir@ == book_dir(root@, id@),
{
    let mut dir = String::from_str(root);
    dir.append("/");
    dir.append(id);
    dir
}

/// The name under which a file of the given format is stored.
pub fn stored_file_name(format: &str) -> (name: String)
    ensures
        name@ == stored_name(format@),
{
    String::from_str("original.").concat(format)
}

/// The path at which the file of the book with identity `id` is stored.
pub fn stored_file_path(root: &str, id: &str, format: &str) -> (path: String)
    ensures
        path@ == stored_path(root@, id@, format@),
{
    let mut path = book_dir_path(root, id);
    path.append("/");
    let name = stored_file_name(format);
    path.append(name.as_str());
    path
}

/// Two different identities never share a directory, whatever the root.
pub proof fn lemma_distinct_identities_distinct_dirs(
    root: Seq<char>,
    first: Seq<char>,
    second: Seq<char>,
)
    requires
        is_identity(first),
        is_identity(second),
        first != second,
    ensures
        book_dir(root, first) != book_dir(root, second),
{
    reveal_strlit("/");
    if book_dir(root, first) == book_dir(root, second) {
        let base = root.len() + 1;
        assert forall|i: int| 0 <= i < 36 implies first[i] == second[i] by {
            assert(book_dir(root, first)[base + i] == first[i]);
            assert(book_dir(root, second)[base + i] == second[i]);
        }
        assert(first =~= second);
    }
}

/// Two different identities never share a stored file, whatever the root
/// and the formats.
pub proof fn lemma_distinct_identities_distinct_paths(
    root: Seq<char>,
    first: Seq<char>,
    first_format: Seq<char>,
    second: Seq<char>,
    second_format: Seq<char>,
)
    requires
        is_identity(first),
        is_identity(second),
        first != second,
    ensures
        stored_path(root, first, first_format) != stored_path(root, second, second_format),
{
    reveal_strlit("/");
    let a = stored_path(root, first, first_format);
    let b = stored_path(root, second, second_format);
    if a == b {
        let base = root.len() + 1;
        assert forall|i: int| 0 <= i < 36 implies first[i] == second[i] by {
            assert(a[base + i] == first[i]);
            assert(b[base + i] == second[i]);
        }
        assert(first =~= second);
    }
}

/// A stored file lies below the directory of its book.
pub proof fn lemma_stored_path_in_book_dir(root: Seq<char>, id: Seq<char>, format: Seq<char>)
    ensures
        book_dir(root, id).is_prefix_of(stored_path(root, id, format)),
{
}

} // verus!
