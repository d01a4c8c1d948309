//! Absolute paths, as the text that requests and environments carry.

use vstd::prelude::*;
use vstd::string::*;

verus! {

/// An absolute path. Two paths are the same directory to this library exactly
/// when their texts are the same.
#[derive(Debug, PartialEq, Eq)]
pub struct AbsolutePathBuf {
    path: String,
}

/// The text that was offered as an absolute path and is none.
#[derive(Debug, PartialEq, Eq)]
pub struct NotAbsolute {
    pub path: String,
}

/// Either kind of slash separates the parts of a Windows path.
pub open spec fn is_separator(c: char) -> bool {
    c == '/' || c == '\\'
}

/// The letter of a drive.
pub open spec fn is_drive_letter(c: char) -> bool {
    ('a' <= c && c <= 'z') || ('A' <= c && c <= 'Z')
}

/// An absolute path starts at the root (`/work`), at the root of a drive
/// (`C:\work`) or at a server's share (`\\server\share`). The environments of a
/// thread can be on machines of either family, so both forms are taken
/// everywhere.
pub open spec fn is_absolute(path: Seq<char>) -> bool {
    ||| path.len() >= 1 && path[0] == '/'
    ||| path.len() >= 3 && is_drive_letter(path[0]) && path[1] == ':' && is_separator(path[2])
    ||| path.len() >= 2 && path[0] == '\\' && path[1] == '\\'
}

/// Whether `path` is absolute.
fn check_absolute(path: &str) -> (absolute: bool)
    ensures
        absolute == is_absolute(path@),
{
    let len: usize = path.unicode_len();
    if len == 0 {
        return false;
    }
    let first = path.get_char(0);
    if first == '/' {
        return true;
    }
    if len < 2 {
        return false;
    }
    let second = path.get_char(1);
    if first == '\\' && second == '\\' {
        return true;
    }
    if len < 3 {
        return false;
    }
    let third = path.get_char(2);
    let letter = ('a' <= first && first <= 'z') || ('A' <= first && first <= 'Z');
    letter && second == ':' && (third == '/' || third == '\\')
}

impl View for AbsolutePathBuf {
    type V = Seq<char>;

    closed spec fn view(&self) -> Seq<char> {
        self.path@
    }
}

impl Clone for AbsolutePathBuf {
    fn clone(&self) -> (path: Self)
        ensures
            path == *self,
    {
        proof {
            use_type_invariant(self);
        }
        AbsolutePathBuf { path: self.path.clone() }
    }
}

impl AbsolutePathBuf {
    #[verifier::type_invariant]
    spec fn is_rooted(self) -> bool {
        is_absolute(self.path@)
    }

    /// Takes `path` as it stands if it is absolute, and hands it back if not.
    pub fn from_absolute_path(path: &str) -> (result: Result<AbsolutePathBuf, NotAbsolute>)
        ensures
            result is Ok <==> is_absolute(path@),
            result matches Ok(absolute) ==> absolute@ == path@,
            result matches Err(rejected) ==> rejected.path@ == path@,
    {
        if check_absolute(path) {
            Ok(AbsolutePathBuf { path: path.to_string() })
        } else {
            Err(NotAbsolute { path: path.to_string() })
        }
    }

    /// The text of the path.
    pub fn as_str(&self) -> (path: &str)
        ensures
            path@ == self@,
            is_absolute(path@),
    {
        proof {
            use_type_invariant(self);
        }
        self.path.as_str()
    }

    /// Whether both are the same path.
    pub fn same_path(&self, other: &AbsolutePathBuf) -> (same: bool)
        ensures
            same == (self@ == other@),
    {
        self.path == other.path
    }
}

} // verus!
