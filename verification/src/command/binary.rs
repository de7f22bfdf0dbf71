//! An external executable resolved on the search path, and the
//! classification of invocations that must inherit the terminal's own
//! streams instead of having their output captured.

use vstd::prelude::*;

use crate::text::{str_eq, to_chars};

verus! {

/// An external command, carrying the resolved path of its executable.
#[derive(Debug)]
pub struct Binary(String);

impl View for Binary {
    type V = Seq<char>;

    closed spec fn view(&self) -> Seq<char> {
        self.0@
    }
}

/// The final component of a path: the characters after the last `/`, the
/// whole path if there is none, and nothing for a path ending in `/`.
pub open spec fn basename_spec(s: Seq<char>) -> Seq<char>
    decreases s.len(),
{
    if s.len() == 0 {
        s
    } else if s.last() == '/' {
        Seq::empty()
    } else {
        basename_spec(s.drop_last()).push(s.last())
    }
}

/// The executables that keep running and interacting rather than printing
/// a bounded result: pagers, editors and watchers.
pub open spec fn is_long_running_name(n: Seq<char>) -> bool {
    ||| n == "tail"@
    ||| n == "watch"@
    ||| n == "top"@
    ||| n == "htop"@
    ||| n == "less"@
    ||| n == "more"@
    ||| n == "vi"@
    ||| n == "vim"@
    ||| n == "nano"@
}

/// Whether some argument equals `w`.
pub open spec fn contains_str(args: Seq<Seq<char>>, w: Seq<char>) -> bool {
    exists|i: int| 0 <= i < args.len() && args[i] == w
}

/// An invocation is long-running when its executable is a known pager,
/// editor or watcher, or when any argument is a follow-style flag.
pub open spec fn is_long_running_spec(path: Seq<char>, args: Seq<Seq<char>>) -> bool {
    ||| is_long_running_name(basename_spec(path))
    ||| contains_str(args, "-f"@)
    ||| contains_str(args, "--follow"@)
}

/// A suffix of `s` that starts right after a `/` (or at the start) and
/// holds no `/` is exactly the final path component.
proof fn lemma_basename_suffix(s: Seq<char>, cut: int)
    requires
        0 <= cut <= s.len(),
        forall|j: int| cut <= j < s.len() ==> s[j] != '/',
        cut == 0 || s[cut - 1] == '/',
    ensures
        basename_spec(s) == s.subrange(cut, s.len() as int),
    decreases s.len(),
{
    if s.len() == cut {
        if cut == 0 {
            assert(s =~= s.subrange(0, 0));
        } else {
            assert(s.last() == s[cut - 1]);
        }
    } else {
        assert(s.last() != '/');
        lemma_basename_suffix(s.drop_last(), cut);
        assert(basename_spec(s) =~= s.subrange(cut, s.len() as int)) by {
            assert(s.drop_last().subrange(cut, s.len() - 1) =~= s.subrange(cut, s.len() - 1));
        }
    }
}

/// The final component of `path`.
pub fn basename(path: &String) -> (r: String)
    ensures
        r@ == basename_spec(path@),
{
    let cs = to_chars(path.as_str());
    let mut cut: usize = cs.len();
    while cut > 0 && cs[cut - 1] != '/'
        invariant
            cut <= cs@.len(),
            cs@ == path@,
            forall|j: int| cut <= j < cs@.len() ==> cs@[j] != '/',
        decreases cut,
    {
        cut = cut - 1;
    }
    proof {
        lemma_basename_suffix(cs@, cut as int);
    }
    let mut r = String::new();
    let mut i: usize = cut;
    while i < cs.len()
        invariant
            cut <= i <= cs@.len(),
            cs@ == path@,
            r@ == cs@.subrange(cut as int, i as int),
        decreases cs@.len() - i,
    {
        crate::text::push_char(&mut r, cs[i]);
        i = i + 1;
        assert(r@ =~= cs@.subrange(cut as int, i as int));
    }
    r
}

impl Binary {
    /// Wraps the resolved path of an external executable.
    pub fn new(command: String) -> (b: Binary)
        ensures
            b@ == command@,
    {
        Binary(command)
    }

    /// The resolved path.
    pub fn get_path(&self) -> (r: &String)
        ensures
            r@ == self@,
    {
        &self.0
    }

    /// Decides whether this invocation must inherit the terminal's
    /// streams, per [`is_long_running_spec`].
    pub fn is_long_running_command(&self, args: &Vec<String>) -> (r: bool)
        ensures
            r == is_long_running_spec(self@, args.deep_view()),
    {
        let name = basename(&self.0);
        if str_eq(&name, "tail") || str_eq(&name, "watch") || str_eq(&name, "top") || str_eq(
            &name,
            "htop",
        ) || str_eq(&name, "less") || str_eq(&name, "more") || str_eq(&name, "vi") || str_eq(
            &name,
            "vim",
        ) || str_eq(&name, "nano") {
            return true;
        }
        let ghost dv = args.deep_view();
        let mut i: usize = 0;
        while i < args.len()
            invariant
                i <= args@.len(),
                dv == args.deep_view(),
                dv.len() == args@.len(),
                forall|k: int| 0 <= k < i ==> dv[k] != "-f"@ && dv[k] != "--follow"@,
            decreases args@.len() - i,
        {
            proof {
                assert(dv[i as int] == args@[i as int]@);
            }
            if str_eq(&args[i], "-f") || str_eq(&args[i], "--follow") {
                return true;
            }
            i = i + 1;
        }
        false
    }
}

} // verus!
