//! What the C library asks of the system.

use vstd::prelude::*;

verus! {

/// The error number for a file that does not exist.
pub const ENOENT: i32 = 2;

/// Whether writes to the file descriptor `file` go to the debug output:
/// those to the standard output and to the standard error do.
pub fn goes_to_debug_output(file: i32) -> (r: bool)
    ensures
        r == (file == 1 || file == 2),
{
    file == 1 || file == 2
}

/// What a write of `len` bytes to the file descriptor `file` returns: the
/// length, if the bytes go to the debug output, and the negated error
/// number for a missing file otherwise.
pub fn write_result(file: i32, len: i32) -> (r: i32)
    ensures
        r == if file == 1 || file == 2 {
            len as int
        } else {
            -ENOENT
        },
{
    if goes_to_debug_output(file) {
        len
    } else {
        -ENOENT
    }
}

} // verus!
