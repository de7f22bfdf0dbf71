//! Character and string helpers shared by the lexer and the built-in
//! commands: white-space classification, trimming, joining, and decimal
//! formatting, each tied to a spec-level model over `Seq<char>`.

use vstd::prelude::*;

verus! {

/// The Unicode `White_Space` code points, the characters that separate
/// tokens on a command line.
pub open spec fn is_space_char(c: char) -> bool {
    let u = c as u32;
    ||| u == 0x20
    ||| (0x09 <= u && u <= 0x0d)
    ||| u == 0x85
    ||| u == 0xa0
    ||| u == 0x1680
    ||| (0x2000 <= u && u <= 0x200a)
    ||| u == 0x2028
    ||| u == 0x2029
    ||| u == 0x202f
    ||| u == 0x205f
    ||| u == 0x3000
}

/// Runtime check for [`is_space_char`].
pub fn is_space(c: char) -> (r: bool)
    ensures
        r == is_space_char(c),
{
    let u = c as u32;
    u == 0x20 || (0x09 <= u && u <= 0x0d) || u == 0x85 || u == 0xa0 || u == 0x1680 || (0x2000 <= u
        && u <= 0x200a) || u == 0x2028 || u == 0x2029 || u == 0x202f || u == 0x205f || u == 0x3000
}

/// Relies on `String::push`: appends one character to the string.
#[verifier::external_body]
pub fn push_char(s: &mut String, c: char)
    ensures
        final(s)@ == old(s)@.push(c),
{
    s.push(c);
}

/// Compares a string against a literal by contents.
pub fn str_eq(a: &String, b: &str) -> (r: bool)
    ensures
        r == (a@ == b@),
{
    *a == b.to_owned()
}

/// Copies a vector of strings, element by element.
pub fn clone_strings(v: &Vec<String>) -> (r: Vec<String>)
    ensures
        r@ == v@,
{
    let mut r: Vec<String> = Vec::new();
    let mut i: usize = 0;
    while i < v.len()
        invariant
            i <= v@.len(),
            r@ == v@.subrange(0, i as int),
        decreases v@.len() - i,
    {
        r.push(v[i].clone());
        i = i + 1;
        assert(r@ =~= v@.subrange(0, i as int));
    }
    assert(r@ =~= v@);
    r
}

/// Copies the characters of a string slice into a vector.
pub fn to_chars(s: &str) -> (v: Vec<char>)
    ensures
        v@ == s@,
{
    let n = s.unicode_len();
    let mut v: Vec<char> = Vec::new();
    let mut i: usize = 0;
    while i < n
        invariant
            n == s@.len(),
            i <= n,
            v@ == s@.subrange(0, i as int),
        decreases n - i,
    {
        let c = s.get_char(i);
        v.push(c);
        i = i + 1;
        assert(v@ =~= s@.subrange(0, i as int));
    }
    assert(v@ =~= s@);
    v
}

/// The input without its leading white space.
pub open spec fn trim_left_spec(s: Seq<char>) -> Seq<char>
    decreases s.len(),
{
    if s.len() > 0 && is_space_char(s[0]) {
        trim_left_spec(s.drop_first())
    } else {
        s
    }
}

/// The input without its trailing white space.
pub open spec fn trim_right_spec(s: Seq<char>) -> Seq<char>
    decreases s.len(),
{
    if s.len() > 0 && is_space_char(s.last()) {
        trim_right_spec(s.drop_last())
    } else {
        s
    }
}

/// The input without leading and trailing white space.
pub open spec fn trim_spec(s: Seq<char>) -> Seq<char> {
    trim_right_spec(trim_left_spec(s))
}

/// A line of nothing but white space trims to the empty sequence.
pub proof fn lemma_trim_all_space(s: Seq<char>)
    requires
        forall|i: int| 0 <= i < s.len() ==> is_space_char(s[i]),
    ensures
        trim_spec(s) == Seq::<char>::empty(),
    decreases s.len(),
{
    if s.len() > 0 {
        lemma_trim_all_space(s.drop_first());
    } else {
        assert(trim_left_spec(s) == s);
        assert(s =~= Seq::<char>::empty());
    }
}

/// Copies the slice of `v` between the leading and trailing white space.
pub fn trim_chars(v: &Vec<char>) -> (r: Vec<char>)
    ensures
        r@ == trim_spec(v@),
{
    let ghost s = v@;
    proof {
        assert(s.subrange(0, s.len() as int) =~= s);
    }
    let mut lo: usize = 0;
    while lo < v.len() && is_space(v[lo])
        invariant
            lo <= s.len(),
            s == v@,
            trim_left_spec(s) == trim_left_spec(s.subrange(lo as int, s.len() as int)),
        decreases s.len() - lo,
    {
        proof {
            let tail = s.subrange(lo as int, s.len() as int);
            assert(tail[0] == s[lo as int]);
            assert(tail.drop_first() =~= s.subrange(lo as int + 1, s.len() as int));
        }
        lo = lo + 1;
    }
    proof {
        let tail = s.subrange(lo as int, s.len() as int);
        if lo < s.len() {
            assert(tail[0] == s[lo as int]);
        }
        assert(trim_left_spec(tail) == tail);
    }
    let mut hi: usize = v.len();
    while hi > lo && is_space(v[hi - 1])
        invariant
            lo <= hi <= s.len(),
            s == v@,
            trim_left_spec(s) == s.subrange(lo as int, s.len() as int),
            trim_spec(s) == trim_right_spec(s.subrange(lo as int, hi as int)),
        decreases hi,
    {
        proof {
            let mid = s.subrange(lo as int, hi as int);
            assert(mid.last() == s[hi - 1]);
            assert(mid.drop_last() =~= s.subrange(lo as int, hi as int - 1));
        }
        hi = hi - 1;
    }
    proof {
        let mid = s.subrange(lo as int, hi as int);
        if hi > lo {
            assert(mid.last() == s[hi - 1]);
        }
        assert(trim_right_spec(mid) == mid);
    }
    let mut r: Vec<char> = Vec::new();
    let mut i: usize = lo;
    while i < hi
        invariant
            lo <= i <= hi <= s.len(),
            s == v@,
            r@ == s.subrange(lo as int, i as int),
        decreases hi - i,
    {
        let c = v[i];
        r.push(c);
        i = i + 1;
        assert(r@ =~= s.subrange(lo as int, i as int));
    }
    r
}

/// The parts joined with single spaces, the canonical form of a command
/// line that the session history records.
pub open spec fn join_spec(parts: Seq<Seq<char>>) -> Seq<char>
    decreases parts.len(),
{
    if parts.len() == 0 {
        Seq::empty()
    } else if parts.len() == 1 {
        parts[0]
    } else {
        join_spec(parts.drop_last()) + " "@ + parts.last()
    }
}

/// Joins the strings from index `from` on with single spaces.
pub fn join_with_spaces_from(parts: &Vec<String>, from: usize) -> (r: String)
    requires
        from <= parts@.len(),
    ensures
        r@ == join_spec(parts.deep_view().subrange(from as int, parts@.len() as int)),
{
    let ghost dv = parts.deep_view();
    let mut r = String::new();
    let mut i: usize = from;
    while i < parts.len()
        invariant
            from <= i <= parts@.len(),
            dv == parts.deep_view(),
            dv.len() == parts@.len(),
            r@ == join_spec(dv.subrange(from as int, i as int)),
        decreases parts@.len() - i,
    {
        if i > from {
            r.append(" ");
        }
        r.append(parts[i].as_str());
        proof {
            let pre = dv.subrange(from as int, i as int);
            let post = dv.subrange(from as int, i + 1);
            assert(post.drop_last() =~= pre);
            assert(post.last() == dv[i as int]);
            assert(dv[i as int] == parts@[i as int]@);
            if i == from {
                assert(join_spec(post) == dv[from as int]);
            }
        }
        i = i + 1;
    }
    r
}

/// Joins the strings with single spaces: the form in which a command line
/// enters the history.
pub fn join_with_spaces(parts: &Vec<String>) -> (r: String)
    ensures
        r@ == join_spec(parts.deep_view()),
{
    let r = join_with_spaces_from(parts, 0);
    proof {
        assert(parts.deep_view().subrange(0, parts@.len() as int) =~= parts.deep_view());
    }
    r
}

/// The character for a single decimal digit.
pub open spec fn dec_digit(d: int) -> char {
    ((0x30 + d) as u8) as char
}

/// The decimal numeral of `n`, most significant digit first.
pub open spec fn dec_str(n: nat) -> Seq<char>
    decreases n,
{
    if n < 10 {
        seq![dec_digit(n as int)]
    } else {
        dec_str(n / 10).push(dec_digit((n % 10) as int))
    }
}

/// Formats `n` as its decimal numeral.
pub fn usize_to_string(n: usize) -> (r: String)
    ensures
        r@ == dec_str(n as nat),
    decreases n,
{
    if n < 10 {
        let mut s = String::new();
        push_char(&mut s, (0x30u8 + (n as u8)) as char);
        assert(s@ =~= dec_str(n as nat));
        s
    } else {
        let mut s = usize_to_string(n / 10);
        push_char(&mut s, (0x30u8 + ((n % 10) as u8)) as char);
        s
    }
}

/// Whether `c` is a decimal digit.
pub open spec fn is_digit_char(c: char) -> bool {
    0x30 <= c as u32 <= 0x39
}

/// The value of a decimal digit character.
pub open spec fn digit_val(c: char) -> int {
    c as u32 - 0x30
}

/// Whether every character of `s` is a decimal digit.
pub open spec fn all_digits(s: Seq<char>) -> bool {
    forall|i: int| 0 <= i < s.len() ==> is_digit_char(s[i])
}

/// The value of the decimal numeral `s`.
pub open spec fn num_val(s: Seq<char>) -> int
    decreases s.len(),
{
    if s.len() == 0 {
        0
    } else {
        num_val(s.drop_last()) * 10 + digit_val(s.last())
    }
}

/// Reads the decimal numeral in `v[from..]`, clamped at `cap`: the result
/// is `None` unless that range is non-empty and all digits.  Clamping
/// matters only to numerals whose value exceeds `cap`.
pub fn digits_value_capped(v: &Vec<char>, from: usize, cap: u64) -> (r: Option<u64>)
    requires
        from <= v@.len(),
        cap >= 9,
    ensures
        ({
            let s = v@.subrange(from as int, v@.len() as int);
            match r {
                Some(x) => s.len() > 0 && all_digits(s) && x as int == if num_val(s) <= cap {
                    num_val(s)
                } else {
                    cap as int
                },
                None => s.len() == 0 || !all_digits(s),
            }
        }),
{
    let ghost s = v@.subrange(from as int, v@.len() as int);
    if from == v.len() {
        return Option::None;
    }
    let mut acc: u64 = 0;
    let mut i: usize = from;
    while i < v.len()
        invariant
            from <= i <= v@.len(),
            s == v@.subrange(from as int, v@.len() as int),
            cap >= 9,
            all_digits(v@.subrange(from as int, i as int)),
            acc as int == ({
                let pre = v@.subrange(from as int, i as int);
                if num_val(pre) <= cap {
                    num_val(pre)
                } else {
                    cap as int
                }
            }),
        decreases v@.len() - i,
    {
        let ghost pre = v@.subrange(from as int, i as int);
        let c = v[i];
        let u = c as u32;
        if !(0x30 <= u && u <= 0x39) {
            proof {
                assert(s[i - from] == v@[i as int]);
                assert(!is_digit_char(s[i - from]));
            }
            return Option::None;
        }
        let d: u64 = (u - 0x30) as u64;
        let next: u64 = if acc <= (cap - d) / 10 {
            acc * 10 + d
        } else {
            cap
        };
        proof {
            let post = v@.subrange(from as int, i + 1);
            assert(post.drop_last() =~= pre);
            assert(post.last() == v@[i as int]);
            let nv = num_val(pre);
            let nv2 = num_val(post);
            assert(nv2 == nv * 10 + d);
            assert(0 <= nv) by {
                lemma_num_val_nonneg(pre);
            }
            if acc <= (cap - d) / 10 {
                // acc is exact here: acc <= (cap - d) / 10 <= cap / 10 < cap
                assert(acc * 10 + d <= cap) by (nonlinear_arith)
                    requires
                        acc <= (cap - d) / 10,
                        d <= 9,
                        (cap - d) / 10 * 10 <= cap - d,
                        acc >= 0,
                {}
                if nv > cap {
                    assert(acc == cap as int);
                    assert(cap * 10 + d > cap) by (nonlinear_arith)
                        requires
                            cap >= 9,
                            d >= 0,
                    {}
                    assert(false);
                }
                assert(nv2 <= cap);
            } else {
                if nv <= cap {
                    assert(acc == nv);
                    assert(nv > (cap - d) / 10);
                    assert(nv * 10 + d > cap) by (nonlinear_arith)
                        requires
                            nv > (cap - d) / 10,
                            0 <= d <= 9,
                            d <= cap,
                            nv >= 0,
                    {}
                } else {
                    assert(nv * 10 + d > cap) by (nonlinear_arith)
                        requires
                            nv > cap,
                            cap >= 0,
                            d >= 0,
                    {}
                }
                assert(nv2 > cap);
            }
        }
        acc = next;
        i = i + 1;
    }
    proof {
        assert(v@.subrange(from as int, i as int) =~= s);
    }
    Option::Some(acc)
}

/// The value of a numeral is never negative.
pub proof fn lemma_num_val_nonneg(s: Seq<char>)
    requires
        all_digits(s),
    ensures
        num_val(s) >= 0,
    decreases s.len(),
{
    if s.len() > 0 {
        assert(all_digits(s.drop_last())) by {
            assert(forall|i: int|
                0 <= i < s.len() - 1 ==> s.drop_last()[i] == s[i] && is_digit_char(s[i]));
        }
        lemma_num_val_nonneg(s.drop_last());
    }
}

} // verus!
