//! Format tags: the lowercase extension of a file name, or a fixed default.

use vstd::prelude::*;
use vstd::string::*;

verus! {

/// The tag of a file whose name carries no extension.
pub open spec fn default_format() -> Seq<char> {
    seq!['p', 'd', 'f']
}

/// The lowercase of a text, as Unicode defines it for every letter.
pub uninterp spec fn lowercased(text: Seq<char>) -> Seq<char>;

/// `i` is the place of the last `.` in `name`.
pub open spec fn is_last_dot(name: Seq<char>, i: int) -> bool {
    &&& 0 <= i < name.len()
    &&& name[i] == '.'
    &&& forall|j: int| i < j < name.len() ==> name[j] != '.'
}

/// The extension of a file name: what follows its last `.`. A name without
/// a `.` has none.
pub open spec fn extension(name: Seq<char>) -> Option<Seq<char>> {
    if exists|i: int| is_last_dot(name, i) {
        let i = choose|i: int| is_last_dot(name, i);
        Some(name.skip(i + 1))
    } else {
        None
    }
}

/// The format tag of a file name: its extension in lowercase, or the default
/// where it has none.
pub open spec fn format_tag(name: Seq<char>) -> Seq<char> {
    format_of_extension(extension(name))
}

/// The format tag that goes with an extension, or with the lack of one.
pub open spec fn format_of_extension(ext: Option<Seq<char>>) -> Seq<char> {
    match ext {
        Some(e) => lowercased(e),
        None => default_format(),
    }
}

/// `str::to_lowercase`: the lowercase equivalent of `s`, by the Unicode
/// rules and without regard to any locale.
#[verifier::external_body]
fn lowercase(s: &str) -> (lower: String)
    ensures
        lower@ == lowercased(s@),
{
    s.to_lowercase()
}

/// A name has at most one last `.`.
pub proof fn lemma_last_dot_unique(name: Seq<char>, i: int, k: int)
    requires
        is_last_dot(name, i),
        is_last_dot(name, k),
    ensures
        i == k,
{
    if i < k {
        assert(name[k] == '.');
    } else if k < i {
        assert(name[i] == '.');
    }
}

/// The extension of a name, given the place of its last `.`.
pub proof fn lemma_extension_at(name: Seq<char>, i: int)
    requires
        is_last_dot(name, i),
    ensures
        extension(name) == Some(name.skip(i + 1)),
{
    let k = choose|k: int| is_last_dot(name, k);
    lemma_last_dot_unique(name, i, k);
}

/// The extension of a file name: the text after its last `.`, or nothing
/// where the name holds no `.`.
pub fn extension_of(name: &str) -> (ext: Option<&str>)
    ensures
        match extension(name@) {
            Some(e) => ext.is_some() && ext.unwrap()@ == e,
            None => ext.is_none(),
        },
{
    let n: usize = name.unicode_len();
    let mut last: Option<usize> = None;
    let mut i: usize = 0;
    while i < n
        invariant
            i <= n,
            n == name@.len(),
            match last {
                Some(k) => k < i && is_last_dot(name@.take(i as int), k as int),
                None => forall|j: int| 0 <= j < i ==> name@[j] != '.',
            },
        decreases n - i,
    {
        let c = name.get_char(i);
        proof {
            let before = name@.take(i as int);
            let after = name@.take(i + 1);
            if c != '.' {
                if let Some(k) = last {
                    assert(before[k as int] == after[k as int]);
                    assert forall|j: int| k < j < after.len() implies after[j] != '.' by {
                        if j < i {
                            assert(before[j] != '.');
                        }
                    }
                }
            }
        }
        if c == '.' {
            last = Some(i);
        }
        i = i + 1;
    }
    proof {
        assert(name@.take(n as int) =~= name@);
    }
    match last {
        Some(k) => {
            let ext = name.substring_char(k + 1, n);
            proof {
                lemma_extension_at(name@, k as int);
                assert(name@.subrange(k + 1, n as int) =~= name@.skip(k + 1));
            }
            Some(ext)
        },
        None => None,
    }
}

/// The format tag that goes with an extension: its lowercase, or `pdf` where
/// there is none.
pub fn tag_of_extension(ext: Option<&str>) -> (tag: String)
    ensures
        tag@ == format_of_extension(
            match ext {
                Some(e) => Some(e@),
                None => None,
            },
        ),
{
    match ext {
        Some(e) => lowercase(e),
        None => default_tag(),
    }
}

/// The format tag of a file name: what follows its last `.`, in lowercase,
/// or `pdf` where the name holds no `.`. `name` is a file name, the last
/// component of a path.
pub fn infer_format(name: &str) -> (tag: String)
    ensures
        tag@ == format_tag(name@),
{
    tag_of_extension(extension_of(name))
}

/// The default tag, `pdf`.
pub fn default_tag() -> (tag: String)
    ensures
        tag@ == default_format(),
{
    proof {
        reveal_strlit("pdf");
        assert("pdf"@ =~= default_format());
    }
    String::from_str("pdf")
}

/// The format tag of what a path's last component turned out to be: the tag
/// of that name, or the default where the path has no such component.
pub fn format_of_component(component: Option<String>) -> (tag: String)
    ensures
        tag@ == match component {
            Some(name) => format_tag(name@),
            None => default_format(),
        },
{
    match component {
        Some(name) => infer_format(name.as_str()),
        None => default_tag(),
    }
}

/// A name without a `.` gets the default tag.
pub proof fn lemma_format_without_dot(name: Seq<char>)
    requires
        !name.contains('.'),
    ensures
        format_tag(name) == default_format(),
{
    if exists|i: int| is_last_dot(name, i) {
        let i = choose|i: int| is_last_dot(name, i);
        assert(name.contains('.'));
    }
}

/// A name made of a stem, a `.` and an extension without a `.` gets that
/// extension in lowercase, whatever the stem, the empty one too.
pub proof fn lemma_format_with_extension(stem: Seq<char>, ext: Seq<char>)
    requires
        !ext.contains('.'),
    ensures
        extension(stem + seq!['.'] + ext) == Some(ext),
        format_tag(stem + seq!['.'] + ext) == lowercased(ext),
{
    let name = stem + seq!['.'] + ext;
    let i = stem.len() as int;
    assert(name[i] == '.');
    assert forall|j: int| i < j < name.len() implies name[j] != '.' by {
        assert(name[j] == ext[j - i - 1]);
        if ext[j - i - 1] == '.' {
            assert(ext.contains('.'));
        }
    }
    lemma_extension_at(name, i);
    assert(name.skip(i + 1) =~= ext);
}

/// Whenever a name holds a `.`, its tag is the lowercase of what follows the
/// last one.
pub proof fn lemma_format_with_dot(name: Seq<char>)
    requires
        name.contains('.'),
    ensures
        exists|i: int| is_last_dot(name, i) && format_tag(name) == lowercased(name.skip(i + 1)),
    decreases name.len(),
{
    if name.last() == '.' {
        let i = name.len() - 1;
        assert(is_last_dot(name, i));
        lemma_extension_at(name, i);
    } else {
        let front = name.drop_last();
        let k = choose|k: int| 0 <= k < name.len() && name[k] == '.';
        assert(front[k] == '.');
        lemma_format_with_dot(front);
        let i = choose|i: int| is_last_dot(front, i);
        assert(name[i] == front[i]);
        assert forall|j: int| i < j < name.len() implies name[j] != '.' by {
            if j < front.len() {
                assert(front[j] == name[j]);
            }
        }
        assert(is_last_dot(name, i));
        lemma_extension_at(name, i);
    }
}

} // verus!
