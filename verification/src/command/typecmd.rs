//! The `type` built-in: reports how a name would be interpreted — as a
//! shell built-in, as an external executable found on the search path, or
//! not at all.  The path search itself is the host program's work.

use vstd::prelude::*;

use crate::command::builtin_of_spec;
use crate::command::Builtin;

verus! {

/// The `type` built-in.
#[derive(Debug, Clone, Copy, PartialEq, Eq, Structural)]
pub struct Type;

/// What `type` reports for `target`, given the search-path result
/// `found`: a built-in name is a built-in whatever the path holds; an
/// executable is reported with its resolved path; anything else is not
/// found.
pub open spec fn type_message_spec(target: Seq<char>, found: Option<Seq<char>>) -> Seq<char> {
    if builtin_of_spec(target) is Some {
        target + " is a shell builtin\n"@
    } else {
        match found {
            Some(p) => target + " is "@ + p + "\n"@,
            None => target + ": not found\n"@,
        }
    }
}

/// Formats the report of a `type` invocation.
pub fn type_message(target: &String, found: &Option<String>) -> (r: String)
    ensures
        r@ == type_message_spec(
            target@,
            match found {
                Some(p) => Some(p@),
                None => None,
            },
        ),
{
    if Builtin::from_name(target).is_some() {
        let mut r = target.clone();
        r.append(" is a shell builtin\n");
        assert(r@ =~= target@ + " is a shell builtin\n"@);
        r
    } else {
        match found {
            Some(p) => {
                let mut r = target.clone();
                r.append(" is ");
                r.append(p.as_str());
                r.append("\n");
                assert(r@ =~= target@ + " is "@ + p@ + "\n"@);
                r
            },
            None => {
                let mut r = target.clone();
                r.append(": not found\n");
                assert(r@ =~= target@ + ": not found\n"@);
                r
            },
        }
    }
}

} // verus!
