//! Music library roots and path classification.

use vstd::prelude::*;
use vstd::string::*;
use crate::text::{lower_of, lowercase, str_eq};

verus! {

/// Errors that can occur during library operations.
#[derive(Debug, Clone, PartialEq, Eq)]
pub enum LibraryError {
    /// Reading the file system failed; holds the system's message.
    Io(String),
    NotFound(String),
    AccessDenied(String),
}

/// File extensions of the supported audio formats (lower case).
pub open spec fn is_supported_extension(e: Seq<char>) -> bool {
    e == "mp3"@ || e == "flac"@ || e == "ogg"@ || e == "wav"@ || e == "m4a"@ || e == "aac"@
        || e == "opus"@ || e == "wma"@ || e == "aiff"@ || e == "alac"@
}

/// Whether a file extension names a supported audio format, in any case.
pub fn is_audio_extension(ext: &str) -> (r: bool)
    ensures
        r == is_supported_extension(lower_of(ext@)),
{
    let l = lowercase(ext);
    let e = l.as_str();
    str_eq(e, "mp3") || str_eq(e, "flac") || str_eq(e, "ogg") || str_eq(e, "wav") || str_eq(
        e,
        "m4a",
    ) || str_eq(e, "aac") || str_eq(e, "opus") || str_eq(e, "wma") || str_eq(e, "aiff")
        || str_eq(e, "alac")
}

/// `s` begins with the two characters `a`, `b`.
pub open spec fn starts_with2(s: Seq<char>, a: char, b: char) -> bool {
    s.len() >= 2 && s[0] == a && s[1] == b
}

/// A network path: UNC (`\\server\share`) or `//server/share`.
pub open spec fn is_network(s: Seq<char>) -> bool {
    starts_with2(s, '\\', '\\') || starts_with2(s, '/', '/')
}

/// Checks if a path is a network/SMB path.
pub fn is_network_path(path: &str) -> (r: bool)
    ensures
        r == is_network(path@),
{
    if path.unicode_len() < 2 {
        return false;
    }
    let a = path.get_char(0);
    let b = path.get_char(1);
    (a == '\\' && b == '\\') || (a == '/' && b == '/')
}

/// Read-ahead buffer size for opening a source: larger for UNC network paths.
pub fn read_ahead_len(path: &str) -> (r: usize)
    ensures
        r == if starts_with2(path@, '\\', '\\') {
            256 * 1024
        } else {
            64 * 1024
        },
{
    if path.unicode_len() >= 2 && path.get_char(0) == '\\' && path.get_char(1) == '\\' {
        256 * 1024
    } else {
        64 * 1024
    }
}

/// Library scanner state: the root directories to scan, without duplicates.
pub struct LibraryScanner {
    roots: Vec<String>,
}

impl View for LibraryScanner {
    type V = Seq<String>;

    closed spec fn view(&self) -> Seq<String> {
        self.roots@
    }
}

/// Some element of `s` has the path `p`.
pub open spec fn has_root(s: Seq<String>, p: Seq<char>) -> bool {
    exists|k: int| 0 <= k < s.len() && (#[trigger] s[k])@ == p
}

/// Position of the root with path `p` in `roots`, if any.
fn position_of(roots: &Vec<String>, p: &str) -> (r: Option<usize>)
    ensures
        match r {
            Some(i) => i < roots@.len() && roots@[i as int]@ == p@ && forall|j: int|
                0 <= j < i ==> (#[trigger] roots@[j])@ != p@,
            None => !has_root(roots@, p@),
        },
{
    let mut i: usize = 0;
    while i < roots.len()
        invariant
            i <= roots@.len(),
            forall|j: int| 0 <= j < i ==> (#[trigger] roots@[j])@ != p@,
        decreases roots@.len() - i,
    {
        if str_eq(roots[i].as_str(), p) {
            return Some(i);
        }
        i += 1;
    }
    None
}

impl LibraryScanner {
    /// Creates a new scanner with no root directories.
    pub fn new() -> (r: Self)
        ensures
            r@.len() == 0,
    {
        LibraryScanner { roots: Vec::new() }
    }

    /// Adds a root directory to scan, unless it is there already.
    pub fn add_root(&mut self, path: String)
        ensures
            has_root(old(self)@, path@) ==> final(self)@ == old(self)@,
            !has_root(old(self)@, path@) ==> final(self)@ == old(self)@.push(path),
    {
        match position_of(&self.roots, path.as_str()) {
            Some(_) => {},
            None => {
                self.roots.push(path);
            },
        }
    }

    /// Removes a root directory; returns whether it was there.
    pub fn remove_root(&mut self, path: &str) -> (r: bool)
        ensures
            r == has_root(old(self)@, path@),
            !r ==> final(self)@ == old(self)@,
            r ==> exists|i: int|
                0 <= i < old(self)@.len() && (#[trigger] old(self)@[i])@ == path@
                    && final(self)@ == old(self)@.remove(i) && forall|j: int|
                    0 <= j < i ==> (#[trigger] old(self)@[j])@ != path@,
    {
        match position_of(&self.roots, path) {
            Some(i) => {
                self.roots.remove(i);
                assert(old(self)@[i as int]@ == path@);
                true
            },
            None => false,
        }
    }

    /// Gets all root directories.
    pub fn roots(&self) -> (r: &[String])
        ensures
            r@ == self@,
    {
        self.roots.as_slice()
    }
}

} // verus!
