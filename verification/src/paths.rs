//! File paths as text.
//!
//! Paths are held as strings with `/` between components. What the file
//! system and the environment know is asked through [`path_exists`],
//! [`home_dir`] and [`is_command_available`]; everything else is computed.

use crate::text::from_chars;
use crate::text::lower;
use crate::text::push_chars;
use crate::text::slice_chars;
use crate::text::to_chars;
use vstd::prelude::*;

verus! {

/// Whether `i` is the last index at which `s` holds `c`.
pub open spec fn is_last_at(s: Seq<char>, c: char, i: int) -> bool {
    &&& 0 <= i < s.len()
    &&& s[i] == c
    &&& forall|j: int| i < j < s.len() ==> s[j] != c
}

/// The last index at which `s` holds `c`.
pub open spec fn last_index(s: Seq<char>, c: char) -> Option<int> {
    if exists|i: int| is_last_at(s, c, i) {
        Some(choose|i: int| is_last_at(s, c, i))
    } else {
        None
    }
}

/// The last index at which `s` holds `c`.
pub fn rfind_char(s: &[char], c: char) -> (r: Option<usize>)
    ensures
        match r {
            Some(i) => last_index(s@, c) == Some(i as int) && is_last_at(s@, c, i as int) && i
                < usize::MAX,
            None => last_index(s@, c) is None && forall|j: int| 0 <= j < s@.len() ==> s@[j] != c,
        },
{
    let mut i: usize = s.len();
    while i > 0
        invariant
            i <= s.len(),
            forall|j: int| i <= j < s@.len() ==> s@[j] != c,
        decreases i,
    {
        i -= 1;
        if s[i] == c {
            proof {
                assert(is_last_at(s@, c, i as int));
                let k = choose|k: int| is_last_at(s@, c, k);
                assert(is_last_at(s@, c, k));
                assert(k == i);
            }
            return Some(i);
        }
    }
    assert forall|k: int| !is_last_at(s@, c, k) by {}
    None
}

/// The last component of a path: what follows its last `/`.
pub open spec fn file_name(path: Seq<char>) -> Seq<char> {
    match last_index(path, '/') {
        Some(i) => path.skip(i + 1),
        None => path,
    }
}

/// The extension of a path: what follows the last `.` of its file name,
/// unless that `.` is the file name's first character.
pub open spec fn extension(path: Seq<char>) -> Option<Seq<char>> {
    let name = file_name(path);
    match last_index(name, '.') {
        Some(i) => if i == 0 {
            None
        } else {
            Some(name.skip(i + 1))
        },
        None => None,
    }
}

/// The last component of a path.
pub fn path_file_name(path: &[char]) -> (r: Vec<char>)
    ensures
        r@ == file_name(path@),
{
    let len = path.len();
    match rfind_char(path, '/') {
        Some(i) => {
            let r = slice_chars(path, i + 1, len);
            assert(r@ =~= path@.skip(i + 1));
            r
        },
        None => {
            let r = slice_chars(path, 0, len);
            assert(r@ =~= path@);
            r
        },
    }
}

/// The extension of a path.
pub fn path_extension(path: &[char]) -> (r: Option<Vec<char>>)
    ensures
        match r {
            Some(e) => extension(path@) == Some(e@),
            None => extension(path@) is None,
        },
{
    let name = path_file_name(path);
    match rfind_char(name.as_slice(), '.') {
        Some(i) => if i == 0 {
            None
        } else {
            let e = slice_chars(name.as_slice(), i + 1, name.len());
            assert(e@ =~= name@.skip(i + 1));
            Some(e)
        },
        None => None,
    }
}

/// The extension of a path is no longer than the path.
pub proof fn lemma_extension_is_suffix(path: Seq<char>)
    ensures
        extension(path) matches Some(e) ==> e.len() <= path.len(),
{
}

/// Whether the extension of `path`, in lower case, is one of `formats`.
pub open spec fn has_extension_in(path: Seq<char>, formats: Seq<Seq<char>>) -> bool {
    match extension(path) {
        Some(e) => formats.contains(lower(e)),
        None => false,
    }
}

/// Whether `path` joined to `base` needs a `/` between them.
pub open spec fn needs_separator(base: Seq<char>) -> bool {
    base.len() > 0 && base.last() != '/'
}

/// `name` appended to the directory `base`. An absolute `name` replaces
/// `base`.
pub open spec fn joined(base: Seq<char>, name: Seq<char>) -> Seq<char> {
    if name.len() > 0 && name[0] == '/' {
        name
    } else if needs_separator(base) {
        base.push('/') + name
    } else {
        base + name
    }
}

/// `name` appended to the directory `base`.
pub fn join(base: &str, name: &str) -> (r: String)
    ensures
        r@ == joined(base@, name@),
{
    let b = to_chars(base);
    let n = to_chars(name);
    if n.len() > 0 && n[0] == '/' {
        return from_chars(n.as_slice());
    }
    let mut out: Vec<char> = Vec::new();
    push_chars(&mut out, b.as_slice());
    if b.len() > 0 && b[b.len() - 1] != '/' {
        out.push('/');
    }
    push_chars(&mut out, n.as_slice());
    assert(out@ =~= joined(base@, name@));
    from_chars(out.as_slice())
}

/// `path` with a leading `~` replaced by the home directory, where one is
/// known.
pub open spec fn expanded(path: Seq<char>, home: Option<Seq<char>>) -> Seq<char> {
    if path.len() > 0 && path[0] == '~' && home is Some {
        home.unwrap() + path.skip(1)
    } else {
        path
    }
}

/// Replaces a leading `~` by `home`.
pub fn expand_with(path: &[char], home: Option<&str>) -> (r: Vec<char>)
    ensures
        r@ == expanded(
            path@,
            match home {
                Some(h) => Some(h@),
                None => None,
            },
        ),
{
    let mut out: Vec<char> = Vec::new();
    if path.len() > 0 && path[0] == '~' {
        if let Some(h) = home {
            let hc = to_chars(h);
            push_chars(&mut out, hc.as_slice());
            let rest = slice_chars(path, 1, path.len());
            push_chars(&mut out, rest.as_slice());
            assert(out@ =~= h@ + path@.skip(1));
            return out;
        }
    }
    push_chars(&mut out, path);
    assert(out@ =~= path@);
    out
}

/// Asks `std::path::Path::exists` whether something is at `path` now.
/// Nothing is promised of the answer: it is the file system's.
#[verifier::external_body]
pub(crate) fn path_exists(path: &str) -> (r: bool) {
    std::path::Path::new(path).exists()
}

/// Asks `dirs::home_dir` for the current user's home directory, as text.
/// Nothing is promised of the answer: it is the environment's.
#[verifier::external_body]
pub(crate) fn home_dir() -> (r: Option<String>) {
    dirs::home_dir().map(|p| p.to_string_lossy().into_owned())
}

/// Asks `dirs::data_dir` for the user's data directory, as text. Nothing is
/// promised of the answer: it is the environment's.
#[verifier::external_body]
pub(crate) fn data_dir() -> (r: Option<String>) {
    dirs::data_dir().map(|p| p.to_string_lossy().into_owned())
}

/// Asks `dirs::config_dir` for the user's configuration directory, as text.
/// Nothing is promised of the answer: it is the environment's.
#[verifier::external_body]
pub(crate) fn config_dir() -> (r: Option<String>) {
    dirs::config_dir().map(|p| p.to_string_lossy().into_owned())
}

/// Asks `dirs::desktop_dir` for the user's desktop directory, as text.
/// Nothing is promised of the answer: it is the environment's.
#[verifier::external_body]
pub(crate) fn desktop_dir() -> (r: Option<String>) {
    dirs::desktop_dir().map(|p| p.to_string_lossy().into_owned())
}

/// Asks `dirs::download_dir` for the user's download directory, as text.
/// Nothing is promised of the answer: it is the environment's.
#[verifier::external_body]
pub(crate) fn download_dir() -> (r: Option<String>) {
    dirs::download_dir().map(|p| p.to_string_lossy().into_owned())
}

/// Asks `dirs::picture_dir` for the user's picture directory, as text.
/// Nothing is promised of the answer: it is the environment's.
#[verifier::external_body]
pub(crate) fn picture_dir() -> (r: Option<String>) {
    dirs::picture_dir().map(|p| p.to_string_lossy().into_owned())
}

/// Asks `which::which` whether `command` names an executable that can be
/// found. Nothing is promised of the answer: it depends on `PATH` and on
/// the files there.
#[verifier::external_body]
pub fn is_command_available(command: &str) -> (r: bool) {
    which::which(command).is_ok()
}

} // verus!
