//! Validation of caller-supplied file names and paths for the rename
//! command.  The checks mirror `str::trim`: a name is empty when every one
//! of its characters has the Unicode `White_Space` property.

use vstd::prelude::*;

use crate::errors::RenameError;

verus! {

/// True for exactly the characters with the Unicode `White_Space` property,
/// the set that `str::trim` strips.
pub open spec fn is_space_char(c: char) -> bool {
    let u = c as u32;
    ||| u == 0x09
    ||| u == 0x0A
    ||| u == 0x0B
    ||| u == 0x0C
    ||| u == 0x0D
    ||| u == 0x20
    ||| u == 0x85
    ||| u == 0xA0
    ||| u == 0x1680
    ||| (0x2000 <= u && u <= 0x200A)
    ||| u == 0x2028
    ||| u == 0x2029
    ||| u == 0x202F
    ||| u == 0x205F
    ||| u == 0x3000
}

/// True when the name trims away to nothing: every character is whitespace.
/// The empty name is blank.
pub open spec fn is_blank(s: Seq<char>) -> bool {
    forall|i: int| 0 <= i < s.len() ==> is_space_char(s[i])
}

/// True when the name holds a path separator, forward or backward slash.
pub open spec fn has_separator(s: Seq<char>) -> bool {
    exists|i: int| 0 <= i < s.len() && (s[i] == '/' || s[i] == '\\')
}

/// Whether one character has the Unicode `White_Space` property.
pub fn check_space_char(c: char) -> (b: bool)
    ensures
        b == is_space_char(c),
{
    let u = c as u32;
    u == 0x09 || u == 0x0A || u == 0x0B || u == 0x0C || u == 0x0D || u == 0x20 || u == 0x85
        || u == 0xA0 || u == 0x1680 || (0x2000 <= u && u <= 0x200A) || u == 0x2028 || u == 0x2029
        || u == 0x202F || u == 0x205F || u == 0x3000
}

/// Whether the text trims away to nothing: every character whitespace, or
/// no characters at all.
pub fn check_blank(s: &str) -> (b: bool)
    ensures
        b == is_blank(s@),
{
    let n = s.unicode_len();
    let mut i: usize = 0;
    while i < n
        invariant
            0 <= i <= n,
            n == s@.len(),
            forall|j: int| 0 <= j < i ==> is_space_char(s@[j]),
        decreases n - i,
    {
        if !check_space_char(s.get_char(i)) {
            return false;
        }
        i = i + 1;
    }
    true
}

/// Checks a proposed file name: a name that trims to nothing is refused as
/// empty, and a name holding a path separator is refused as invalid.  Any
/// other name is accepted.
pub fn validate_new_name(name: &str) -> (r: Result<(), RenameError>)
    ensures
        r == Err::<(), RenameError>(RenameError::EmptyName) <==> is_blank(name@),
        r == Err::<(), RenameError>(RenameError::InvalidCharacters) <==> !is_blank(name@)
            && has_separator(name@),
        r is Ok <==> !is_blank(name@) && !has_separator(name@),
{
    let n = name.unicode_len();
    let mut blank = true;
    let mut separator = false;
    let mut i: usize = 0;
    while i < n
        invariant
            0 <= i <= n,
            n == name@.len(),
            blank == (forall|j: int| 0 <= j < i ==> is_space_char(name@[j])),
            separator == (exists|j: int|
                0 <= j < i && (name@[j] == '/' || name@[j] == '\\')),
        decreases n - i,
    {
        let c = name.get_char(i);
        if !check_space_char(c) {
            blank = false;
        }
        if c == '/' || c == '\\' {
            separator = true;
        }
        i = i + 1;
    }
    if blank {
        Err(RenameError::EmptyName)
    } else if separator {
        Err(RenameError::InvalidCharacters)
    } else {
        Ok(())
    }
}

/// Checks that the path to rename is present in the file system.  The
/// caller reports whether the path exists; the file system is not touched
/// here.
pub fn validate_exists(path_exists: bool) -> (r: Result<(), RenameError>)
    ensures
        r is Ok <==> path_exists,
        !path_exists ==> r == Err::<(), RenameError>(RenameError::NotFound),
{
    if !path_exists {
        return Err(RenameError::NotFound);
    }
    Ok(())
}

} // verus!
