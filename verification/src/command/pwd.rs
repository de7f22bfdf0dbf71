//! The `pwd` built-in: reports the current working directory.  The
//! directory itself is read by the host program; this module only formats
//! the report.

use vstd::prelude::*;

verus! {

/// The `pwd` built-in.
#[derive(Debug, Clone, Copy, PartialEq, Eq, Structural)]
pub struct Pwd;

/// What `pwd` writes: the current directory followed by a newline.
pub open spec fn pwd_line_spec(cwd: Seq<char>) -> Seq<char> {
    cwd + "\n"@
}

/// Formats the output line of a `pwd` invocation.
pub fn pwd_line(cwd: &String) -> (r: String)
    ensures
        r@ == pwd_line_spec(cwd@),
{
    let mut r = cwd.clone();
    r.append("\n");
    r
}

} // verus!
