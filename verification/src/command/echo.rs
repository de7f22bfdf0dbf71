//! The `echo` built-in: prints its arguments joined with single spaces,
//! followed by a newline.

use vstd::prelude::*;

use crate::text::{join_spec, join_with_spaces_from};

verus! {

/// The `echo` built-in.
#[derive(Debug, Clone, Copy, PartialEq, Eq, Structural)]
pub struct Echo;

/// What `echo` writes: the arguments after the command name, joined with
/// single spaces, with a newline at the end.
pub open spec fn echo_line_spec(argv: Seq<Seq<char>>) -> Seq<char>
    recommends
        argv.len() >= 1,
{
    join_spec(argv.subrange(1, argv.len() as int)) + "\n"@
}

/// Formats the output line of an `echo` invocation.
pub fn echo_line(argv: &Vec<String>) -> (r: String)
    requires
        argv@.len() >= 1,
    ensures
        r@ == echo_line_spec(argv.deep_view()),
{
    let mut r = join_with_spaces_from(argv, 1);
    r.append("\n");
    r
}

} // verus!
