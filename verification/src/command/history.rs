//! The `history` built-in: lists the session's recorded command lines.
//!
//! The log is an append-only sequence of strings; entries are shown with
//! stable 1-based indices.  `history N` lists only the last `N` entries,
//! still under their original indices.  The line that invokes `history`
//! itself enters the log like any other line, but after the listing is
//! taken, so a listing shows only the lines before it.

use vstd::prelude::*;

use crate::text::{
    all_digits, dec_str, digits_value_capped, num_val, to_chars, usize_to_string,
};

verus! {

/// The `history` built-in.
#[derive(Debug, Clone, Copy, PartialEq, Eq, Structural)]
pub struct History;

/// One listing line: the 1-based index, two spaces, the recorded line.
pub open spec fn history_entry_spec(idx: nat, line: Seq<char>) -> Seq<char> {
    dec_str(idx) + "  "@ + line + "\n"@
}

/// The listing of the entries of `h` from position `i` (0-based) on, each
/// under its stable 1-based index.
pub open spec fn history_tail_spec(h: Seq<Seq<char>>, i: int) -> Seq<char>
    decreases h.len() - i,
    when 0 <= i <= h.len()
{
    if i == h.len() {
        Seq::empty()
    } else {
        history_entry_spec((i + 1) as nat, h[i]) + history_tail_spec(h, i + 1)
    }
}

/// Where a listing starts: at the first entry with no limit, and at the
/// last `k` entries with limit `k`.
pub open spec fn history_start_spec(len: nat, limit: Option<int>) -> int {
    match limit {
        Some(k) => if k >= len {
            0
        } else {
            len - k
        },
        None => 0,
    }
}

/// The full listing of `h` under an optional limit.  The indices carried
/// by the listed entries are their original positions in the log, not a
/// renumbering.
pub open spec fn history_listing_spec(h: Seq<Seq<char>>, limit: Option<int>) -> Seq<char> {
    history_tail_spec(h, history_start_spec(h.len(), limit))
}

/// The limit argument: its value when it is a non-empty digit string.
pub open spec fn parse_limit_spec(s: Seq<char>) -> Option<int> {
    if s.len() > 0 && all_digits(s) {
        Some(num_val(s))
    } else {
        None
    }
}

/// What a `history` invocation writes to stdout and to stderr: with no
/// argument the whole listing; with a digit-string argument the limited
/// listing; with any other argument an error and no listing.
pub open spec fn history_output_spec(argv: Seq<Seq<char>>, h: Seq<Seq<char>>) -> (
    Seq<char>,
    Seq<char>,
)
    recommends
        argv.len() >= 1,
{
    if argv.len() < 2 {
        (history_listing_spec(h, None), Seq::empty())
    } else {
        match parse_limit_spec(argv[1]) {
            Some(k) => (history_listing_spec(h, Some(k)), Seq::empty()),
            None => (
                Seq::empty(),
                "history: "@ + argv[1] + ": numeric argument required\n"@,
            ),
        }
    }
}

/// Formats the listing of `h` from position `start` on.
fn listing_from(h: &Vec<String>, start: usize) -> (r: String)
    requires
        start <= h@.len(),
    ensures
        r@ == history_tail_spec(h.deep_view(), start as int),
{
    let ghost hv = h.deep_view();
    let mut r = String::new();
    let mut i: usize = start;
    while i < h.len()
        invariant
            start <= i <= h@.len(),
            hv == h.deep_view(),
            hv.len() == h@.len(),
            r@ + history_tail_spec(hv, i as int) == history_tail_spec(hv, start as int),
        decreases h@.len() - i,
    {
        proof {
            assert(hv[i as int] == h@[i as int]@);
        }
        let ghost r0 = r@;
        let idx = usize_to_string(i + 1);
        r.append(idx.as_str());
        r.append("  ");
        r.append(h[i].as_str());
        r.append("\n");
        proof {
            let entry = history_entry_spec((i + 1) as nat, hv[i as int]);
            let rest = history_tail_spec(hv, i + 1);
            assert(history_tail_spec(hv, i as int) == entry + rest);
            assert(r@ =~= r0 + entry);
            assert((r0 + entry) + rest =~= r0 + (entry + rest));
        }
        i = i + 1;
    }
    proof {
        assert(history_tail_spec(hv, i as int) == Seq::<char>::empty());
        assert(r@ + Seq::<char>::empty() =~= r@);
    }
    r
}

/// Computes what a `history` invocation writes: the listing on stdout, or
/// an error on stderr, per [`history_output_spec`].
pub fn run_history(argv: &Vec<String>, h: &Vec<String>) -> (r: (String, String))
    requires
        argv@.len() >= 1,
    ensures
        r.0@ == history_output_spec(argv.deep_view(), h.deep_view()).0,
        r.1@ == history_output_spec(argv.deep_view(), h.deep_view()).1,
{
    if argv.len() < 2 {
        let out = listing_from(h, 0);
        return (out, String::new());
    }
    proof {
        assert(argv.deep_view()[1] == argv@[1]@);
    }
    let cs = to_chars(argv[1].as_str());
    match digits_value_capped(&cs, 0, u64::MAX) {
        Some(k) => {
            proof {
                assert(cs@.subrange(0, cs@.len() as int) =~= cs@);
            }
            let len = h.len();
            let start: usize = if k >= len as u64 {
                0
            } else {
                len - (k as usize)
            };
            let out = listing_from(h, start);
            (out, String::new())
        },
        None => {
            proof {
                assert(cs@.subrange(0, cs@.len() as int) =~= cs@);
            }
            let mut err = String::new();
            err.append("history: ");
            err.append(argv[1].as_str());
            err.append(": numeric argument required\n");
            assert(err@ =~= "history: "@ + argv.deep_view()[1]
                + ": numeric argument required\n"@);
            (String::new(), err)
        },
    }
}

} // verus!
