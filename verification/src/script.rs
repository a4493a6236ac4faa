//! Scripts: the marker that opens them and the interpreter that their first
//! line names.

use crate::c_str::find_nul;
use crate::c_str::has_nul;
use crate::error::ExecError;
use vstd::prelude::*;
use vstd::slice::slice_subrange;
use vstd::slice::slice_to_vec;

verus! {

/// The bytes that open a file mark it as a script: `#` and `!`.
pub open spec fn spec_is_shebang(head: Seq<u8>) -> bool {
    head.len() >= 2 && head[0] == 0x23 && head[1] == 0x21
}

/// Whether a file that begins with `head` is a script.
pub fn is_shebang(head: &[u8]) -> (marked: bool)
    ensures
        marked == spec_is_shebang(head@),
{
    head.len() >= 2 && head[0] == 0x23 && head[1] == 0x21
}

/// `line` without the one newline that may end it.
pub open spec fn strip_newline(line: Seq<u8>) -> Seq<u8> {
    if line.len() > 0 && line.last() == 0x0a {
        line.drop_last()
    } else {
        line
    }
}

/// What the rest of a script's first line names: the line without its newline,
/// unless a NUL stands in it.
pub open spec fn spec_interpreter_path(line: Seq<u8>) -> Result<Seq<u8>, ExecError> {
    if has_nul(strip_newline(line)) {
        Err(ExecError::FormatError)
    } else {
        Ok(strip_newline(line))
    }
}

/// The interpreter that a script names. `line` is what follows the marker, up
/// to and including the first newline, or up to the end of the file.
pub fn interpreter_path(line: &[u8]) -> (r: Result<Vec<u8>, ExecError>)
    ensures
        match r {
            Ok(path) => spec_interpreter_path(line@) == Ok::<Seq<u8>, ExecError>(path@),
            Err(e) => spec_interpreter_path(line@) == Err::<Seq<u8>, ExecError>(e),
        },
{
    let n: usize = line.len();
    let end: usize = if n > 0 && line[n - 1] == 0x0a {
        n - 1
    } else {
        n
    };
    let body = slice_subrange(line, 0, end);
    assert(body@ =~= strip_newline(line@));
    match find_nul(body) {
        Some(_) => Err(ExecError::FormatError),
        None => Ok(slice_to_vec(body)),
    }
}

} // verus!
