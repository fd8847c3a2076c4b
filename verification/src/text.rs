//! Character-sequence algorithms shared by the version and command modules:
//! decimal rendering and parsing, first-occurrence search, and literal
//! substring replacement.

use vstd::prelude::*;
use vstd::string::*;

verus! {

/// The decimal digit character for a value in `0..10`.
pub open spec fn digit_char(d: int) -> char
    recommends
        0 <= d < 10,
{
    ((48 + d) as u8) as char
}

pub open spec fn is_digit(c: char) -> bool {
    48 <= c as u32 && c as u32 <= 57
}

/// The numeric value of a digit character; zero for anything else.
pub open spec fn digit_val(c: char) -> int {
    if is_digit(c) {
        c as u32 - 48
    } else {
        0
    }
}

/// The decimal representation of `n`, most significant digit first.
pub open spec fn dec_rep(n: nat) -> Seq<char>
    decreases n,
{
    if n < 10 {
        seq![digit_char(n as int)]
    } else {
        dec_rep(n / 10).push(digit_char((n % 10) as int))
    }
}

pub open spec fn all_digits(s: Seq<char>) -> bool {
    forall|i: int| 0 <= i < s.len() ==> is_digit(s[i])
}

/// The value of a digit string read in base ten.
pub open spec fn dec_val(s: Seq<char>) -> nat
    decreases s.len(),
{
    if s.len() == 0 {
        0
    } else {
        (dec_val(s.drop_last()) * 10 + digit_val(s.last())) as nat
    }
}

/// Reading a string of digits never loses value as more digits arrive.
proof fn lemma_dec_val_mono(s: Seq<char>, j: int)
    requires
        0 <= j <= s.len(),
    ensures
        dec_val(s.take(j)) <= dec_val(s),
    decreases s.len() - j,
{
    if j < s.len() {
        assert(s.take(j + 1).drop_last() =~= s.take(j));
        assert(s.take(j + 1).last() == s[j]);
        assert(dec_val(s.take(j)) <= dec_val(s.take(j + 1)));
        lemma_dec_val_mono(s, j + 1);
    } else {
        assert(s.take(j) =~= s);
    }
}

/// A digit string either parses within `u64` or is reported unparseable:
/// `Some` exactly when it is non-empty, all digits, and in range.
pub open spec fn dec_parsed(s: Seq<char>) -> Option<u64> {
    if s.len() > 0 && all_digits(s) && dec_val(s) <= u64::MAX {
        Some(dec_val(s) as u64)
    } else {
        None
    }
}

/// Parse a whole character vector as a base-ten `u64`.
pub fn parse_decimal(v: &Vec<char>) -> (r: Option<u64>)
    ensures
        r == dec_parsed(v@),
{
    if v.len() == 0 {
        return None;
    }
    let mut acc: u64 = 0;
    let mut i: usize = 0;
    while i < v.len()
        invariant
            0 < v@.len(),
            i <= v@.len(),
            all_digits(v@.take(i as int)),
            acc == dec_val(v@.take(i as int)),
        decreases v@.len() - i,
    {
        let c = v[i];
        let u: u32 = c as u32;
        if u < 48 || u > 57 {
            assert(!is_digit(v@[i as int]));
            return None;
        }
        let d: u64 = (u - 48) as u64;
        proof {
            assert(v@.take(i + 1).drop_last() =~= v@.take(i as int));
            assert(v@.take(i + 1).last() == v@[i as int]);
            assert(digit_val(v@[i as int]) == d);
            assert(dec_val(v@.take(i + 1)) == dec_val(v@.take(i as int)) * 10 + d);
            assert forall|j: int| 0 <= j < i + 1 implies is_digit(#[trigger] v@.take(i + 1)[j]) by {
                if j < i {
                    assert(v@.take(i + 1)[j] == v@.take(i as int)[j]);
                }
            }
        }
        if acc > (u64::MAX - d) / 10 {
            proof {
                assert(acc * 10 + d > u64::MAX) by (nonlinear_arith)
                    requires
                        acc > (u64::MAX - d) / 10,
                        d <= 9,
                        u64::MAX - d <= ((u64::MAX - d) / 10) * 10 + 9,
                {}
                assert(dec_val(v@.take(i + 1)) == acc * 10 + d);
                lemma_dec_val_mono(v@, i + 1);
            }
            return None;
        }
        acc = acc * 10 + d;
        i += 1;
    }
    proof {
        assert(v@.take(i as int) =~= v@);
    }
    Some(acc)
}

/// Append the decimal digits of `n` to `out`.
pub fn push_u64(out: &mut Vec<char>, n: u64)
    ensures
        final(out)@ == old(out)@ + dec_rep(n as nat),
    decreases n,
{
    if n >= 10 {
        push_u64(out, n / 10);
    }
    let d: u8 = (48 + (n % 10) as u8) as u8;
    out.push(d as char);
    proof {
        if n < 10 {
            assert(final(out)@ =~= old(out)@ + dec_rep(n as nat));
        } else {
            assert(final(out)@ =~= old(out)@ + dec_rep(n as nat));
        }
    }
}

/// The decimal representation of a signed value.
pub open spec fn int_rep(n: int) -> Seq<char> {
    if n < 0 {
        seq!['-'] + dec_rep((-n) as nat)
    } else {
        dec_rep(n as nat)
    }
}

/// Append the decimal digits of `n`, with a sign when negative.
pub fn push_i64(out: &mut Vec<char>, n: i64)
    ensures
        final(out)@ == old(out)@ + int_rep(n as int),
{
    if n < 0 {
        out.push('-');
        let wide: i128 = -(n as i128);
        assert(0 < wide <= u64::MAX);
        let m: u64 = wide as u64;
        push_u64(out, m);
        proof {
            assert(out@ =~= old(out)@ + int_rep(n as int));
        }
    } else {
        push_u64(out, n as u64);
    }
}

/// Index of the first occurrence of `c` in `s`, or `-1` when absent.
pub open spec fn find_idx(s: Seq<char>, c: char) -> int
    decreases s.len(),
{
    if s.len() == 0 {
        -1
    } else if s[0] == c {
        0
    } else if find_idx(s.drop_first(), c) == -1 {
        -1
    } else {
        find_idx(s.drop_first(), c) + 1
    }
}

pub proof fn lemma_find_idx(s: Seq<char>, c: char)
    ensures
        find_idx(s, c) == -1 ==> forall|j: int| 0 <= j < s.len() ==> s[j] != c,
        find_idx(s, c) != -1 ==> {
            &&& 0 <= find_idx(s, c) < s.len()
            &&& s[find_idx(s, c)] == c
            &&& forall|j: int| 0 <= j < find_idx(s, c) ==> s[j] != c
        },
    decreases s.len(),
{
    if s.len() > 0 && s[0] != c {
        lemma_find_idx(s.drop_first(), c);
        assert(forall|j: int| 1 <= j < s.len() ==> s[j] == s.drop_first()[j - 1]);
    }
}

/// First occurrence of `c` in `v`, with the searched prefix clean of `c`.
pub fn find_char(v: &Vec<char>, c: char) -> (r: Option<usize>)
    ensures
        match r {
            Some(i) => find_idx(v@, c) == i,
            None => find_idx(v@, c) == -1,
        },
{
    let mut i: usize = 0;
    while i < v.len()
        invariant
            i <= v@.len(),
            forall|j: int| 0 <= j < i ==> v@[j] != c,
        decreases v@.len() - i,
    {
        if v[i] == c {
            proof {
                lemma_find_idx(v@, c);
            }
            return Some(i);
        }
        i += 1;
    }
    proof {
        lemma_find_idx(v@, c);
    }
    None
}

/// `s` with every non-overlapping occurrence of `pat` replaced by `val`,
/// scanning left to right; replaced text is not scanned again, and an empty
/// pattern leaves `s` unchanged.
pub open spec fn replaced(s: Seq<char>, pat: Seq<char>, val: Seq<char>) -> Seq<char>
    decreases s.len(),
{
    if pat.len() == 0 || s.len() < pat.len() {
        s
    } else if s.take(pat.len() as int) == pat {
        val + replaced(s.skip(pat.len() as int), pat, val)
    } else {
        seq![s[0]] + replaced(s.drop_first(), pat, val)
    }
}

/// Does `pat` occur in `v` starting at `i`?
fn matches_at(v: &Vec<char>, i: usize, pat: &Vec<char>) -> (b: bool)
    requires
        i + pat@.len() <= v@.len(),
    ensures
        b == (v@.subrange(i as int, i + pat@.len()) == pat@),
{
    let n = v.len();
    let mut j: usize = 0;
    while j < pat.len()
        invariant
            i + pat@.len() <= v@.len(),
            v@.len() == n,
            j <= pat@.len(),
            forall|k: int| 0 <= k < j ==> v@[i + k] == pat@[k],
        decreases pat@.len() - j,
    {
        assert(i + j < v@.len());
        if v[i + j] != pat[j] {
            assert(v@.subrange(i as int, i + pat@.len())[j as int] != pat@[j as int]);
            return false;
        }
        j += 1;
    }
    assert(v@.subrange(i as int, i + pat@.len()) =~= pat@);
    true
}

/// Append a copy of `v` to `out`.
pub fn push_all(out: &mut Vec<char>, v: &Vec<char>)
    ensures
        final(out)@ == old(out)@ + v@,
{
    let mut j: usize = 0;
    while j < v.len()
        invariant
            j <= v@.len(),
            out@ == old(out)@ + v@.take(j as int),
        decreases v@.len() - j,
    {
        out.push(v[j]);
        j += 1;
        proof {
            assert(out@ =~= old(out)@ + v@.take(j as int));
        }
    }
    proof {
        assert(out@ =~= old(out)@ + v@);
    }
}

/// Copy of `v[from..to]`.
pub fn sub_vec(v: &Vec<char>, from: usize, to: usize) -> (r: Vec<char>)
    requires
        from <= to <= v@.len(),
    ensures
        r@ == v@.subrange(from as int, to as int),
{
    let mut r: Vec<char> = Vec::new();
    let mut j: usize = from;
    while j < to
        invariant
            from <= j <= to <= v@.len(),
            r@ == v@.subrange(from as int, j as int),
        decreases to - j,
    {
        r.push(v[j]);
        j += 1;
        proof {
            assert(r@ =~= v@.subrange(from as int, j as int));
        }
    }
    r
}

/// Replace every occurrence of `pat` in `s` by `val`, left to right.
pub fn replace_all(s: &Vec<char>, pat: &Vec<char>, val: &Vec<char>) -> (r: Vec<char>)
    ensures
        r@ == replaced(s@, pat@, val@),
{
    if pat.len() == 0 {
        return sub_vec(s, 0, s.len());
    }
    let mut out: Vec<char> = Vec::new();
    let mut i: usize = 0;
    proof {
        assert(s@.skip(0) =~= s@);
    }
    while i < s.len()
        invariant
            pat@.len() >= 1,
            i <= s@.len(),
            replaced(s@, pat@, val@) == out@ + replaced(s@.skip(i as int), pat@, val@),
        decreases s@.len() - i,
    {
        let ghost rest = s@.skip(i as int);
        if pat.len() <= s.len() - i && matches_at(s, i, pat) {
            proof {
                assert(rest.take(pat@.len() as int) =~= s@.subrange(i as int, i + pat@.len()));
                assert(rest.skip(pat@.len() as int) =~= s@.skip(i + pat@.len()));
                assert(replaced(rest, pat@, val@) == val@ + replaced(
                    s@.skip(i + pat@.len()),
                    pat@,
                    val@,
                ));
            }
            push_all(&mut out, val);
            i += pat.len();
            proof {
                assert(replaced(s@, pat@, val@) == out@ + replaced(
                    s@.skip(i as int),
                    pat@,
                    val@,
                ));
            }
        } else {
            proof {
                if i + pat@.len() <= s@.len() {
                    assert(rest.take(pat@.len() as int) =~= s@.subrange(
                        i as int,
                        i + pat@.len(),
                    ));
                    assert(rest.take(pat@.len() as int) != pat@);
                }
                assert(rest.drop_first() =~= s@.skip(i + 1));
                assert(seq![rest[0]] =~= s@.subrange(i as int, i + 1));
                if rest.len() < pat@.len() {
                    assert(replaced(rest, pat@, val@) == rest);
                    assert(rest =~= seq![s@[i as int]] + s@.skip(i + 1));
                } else {
                    assert(replaced(rest, pat@, val@) == seq![rest[0]] + replaced(
                        s@.skip(i + 1),
                        pat@,
                        val@,
                    ));
                }
            }
            let c = s[i];
            out.push(c);
            i += 1;
            proof {
                if s@.skip(i - 1).len() < pat@.len() {
                    assert(replaced(s@.skip(i as int), pat@, val@) == s@.skip(i as int));
                }
                assert(replaced(s@, pat@, val@) == out@ + replaced(
                    s@.skip(i as int),
                    pat@,
                    val@,
                ));
            }
        }
    }
    proof {
        assert(s@.skip(i as int) =~= Seq::<char>::empty());
        assert(replaced(s@.skip(i as int), pat@, val@) =~= Seq::<char>::empty());
        assert(out@ =~= replaced(s@, pat@, val@));
    }
    out
}

/// The characters of `s`, in order.
pub fn chars_vec(s: &str) -> (r: Vec<char>)
    ensures
        r@ == s@,
{
    let n = s.unicode_len();
    let mut r: Vec<char> = Vec::new();
    let mut i: usize = 0;
    while i < n
        invariant
            n == s@.len(),
            i <= n,
            r@ == s@.take(i as int),
        decreases n - i,
    {
        r.push(s.get_char(i));
        i += 1;
        proof {
            assert(r@ =~= s@.take(i as int));
        }
    }
    proof {
        assert(r@ =~= s@);
    }
    r
}

/// Relies on std's `FromIterator<char>` for `String`: collecting an iterator
/// of characters yields the string of exactly those characters, in order.
#[verifier::external_body]
pub fn string_from_chars(v: &Vec<char>) -> (r: String)
    ensures
        r@ == v@,
{
    v.iter().collect()
}

} // verus!
