//! The `cd` built-in: decides which directory to enter.  The change of
//! directory itself, and the check that the target exists, are the host
//! program's work; this module computes the target and the failure
//! message.

use vstd::prelude::*;

use crate::text::str_eq;

verus! {

/// The `cd` built-in.
#[derive(Debug, Clone, Copy, PartialEq, Eq, Structural)]
pub struct Cd;

/// Where `cd` goes: its first argument, with `~` or a missing argument
/// standing for the home directory.
pub open spec fn cd_target_spec(argv: Seq<Seq<char>>, home: Seq<char>) -> Seq<char>
    recommends
        argv.len() >= 1,
{
    if argv.len() >= 2 {
        if argv[1] == "~"@ {
            home
        } else {
            argv[1]
        }
    } else {
        home
    }
}

/// The message reported when the target cannot be entered.
pub open spec fn cd_error_spec(path: Seq<char>) -> Seq<char> {
    "cd: "@ + path + ": No such file or directory\n"@
}

/// Computes the directory a `cd` invocation asks for.
pub fn cd_target(argv: &Vec<String>, home: &String) -> (r: String)
    requires
        argv@.len() >= 1,
    ensures
        r@ == cd_target_spec(argv.deep_view(), home@),
{
    proof {
        if argv@.len() >= 2 {
            assert(argv.deep_view()[1] == argv@[1]@);
        }
    }
    if argv.len() >= 2 {
        if str_eq(&argv[1], "~") {
            home.clone()
        } else {
            argv[1].clone()
        }
    } else {
        home.clone()
    }
}

/// Formats the failure message for a directory that cannot be entered.
pub fn cd_error_message(path: &String) -> (r: String)
    ensures
        r@ == cd_error_spec(path@),
{
    let mut r = String::new();
    r.append("cd: ");
    r.append(path.as_str());
    r.append(": No such file or directory\n");
    assert(r@ =~= cd_error_spec(path@));
    r
}

} // verus!
