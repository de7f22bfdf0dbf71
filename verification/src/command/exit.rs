//! The `exit` built-in: ends the whole session.  The process termination
//! is performed by the host program's top-level loop; this module decides
//! the status code.

use vstd::prelude::*;

use crate::text::{all_digits, digits_value_capped, num_val, to_chars};

verus! {

/// The `exit` built-in.
#[derive(Debug, Clone, Copy, PartialEq, Eq, Structural)]
pub struct Exit;

/// The value of `s` read as a signed 32-bit decimal numeral: an optional
/// sign, then digits; anything else, or a value out of range, is `None`.
pub open spec fn parse_i32_spec(s: Seq<char>) -> Option<int> {
    let neg = s.len() > 0 && s[0] == '-';
    let ds = if s.len() > 0 && (s[0] == '-' || s[0] == '+') {
        s.drop_first()
    } else {
        s
    };
    if ds.len() == 0 || !all_digits(ds) {
        None
    } else {
        let v = if neg {
            -num_val(ds)
        } else {
            num_val(ds)
        };
        if i32::MIN <= v <= i32::MAX {
            Some(v)
        } else {
            None
        }
    }
}

/// The status code of an `exit` invocation: 0 with no argument, the first
/// argument where it reads as an `i32`, and 1 where it does not.
pub open spec fn exit_code_spec(argv: Seq<Seq<char>>) -> int
    recommends
        argv.len() >= 1,
{
    if argv.len() < 2 {
        0
    } else {
        match parse_i32_spec(argv[1]) {
            Some(v) => v,
            None => 1,
        }
    }
}

/// Computes the status code an `exit` invocation asks for.
pub fn exit_code(argv: &Vec<String>) -> (r: i32)
    requires
        argv@.len() >= 1,
    ensures
        r as int == exit_code_spec(argv.deep_view()),
{
    if argv.len() < 2 {
        return 0;
    }
    proof {
        assert(argv.deep_view()[1] == argv@[1]@);
    }
    let cs = to_chars(argv[1].as_str());
    let ghost s = cs@;
    let neg = cs.len() > 0 && cs[0] == '-';
    let from: usize = if cs.len() > 0 && (cs[0] == '-' || cs[0] == '+') {
        1
    } else {
        0
    };
    proof {
        let ds = if s.len() > 0 && (s[0] == '-' || s[0] == '+') {
            s.drop_first()
        } else {
            s
        };
        assert(ds =~= s.subrange(from as int, s.len() as int));
    }
    match digits_value_capped(&cs, from, 3_000_000_000) {
        None => 1,
        Some(v) => {
            let ghost ds = s.subrange(from as int, s.len() as int);
            if neg {
                if v <= 2_147_483_648 {
                    assert(v == num_val(ds));
                    let w: i64 = -(v as i64);
                    w as i32
                } else {
                    assert(num_val(ds) >= v);
                    1
                }
            } else {
                if v <= 2_147_483_647 {
                    assert(v == num_val(ds));
                    v as i32
                } else {
                    assert(num_val(ds) >= v);
                    1
                }
            }
        },
    }
}

} // verus!
