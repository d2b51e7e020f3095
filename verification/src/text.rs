//! Character-level text helpers shared by the filter and the display
//! helpers: walking a string's characters, equality, substring search,
//! decimal rendering and placeholder replacement.
//!
//! Unicode case folding and the Unicode whitespace property are taken from
//! the standard library behind named, trusted wrappers; everything else is
//! verified.

use vstd::prelude::*;
use vstd::string::StrSliceExecFns;
use vstd::string::StringExecFns;

verus! {

/// The lower-cased form of a character sequence, as `str::to_lowercase`
/// produces it. The result depends on the characters alone.
pub uninterp spec fn lower_of(s: Seq<char>) -> Seq<char>;

/// Whether a character has the Unicode white-space property, as
/// `char::is_whitespace` reports it.
pub uninterp spec fn is_space_char(c: char) -> bool;

/// Relies on `str::to_lowercase`: the lower-cased form depends on the
/// characters of the input alone.
#[verifier::external_body]
pub(crate) fn to_lowercase(s: &str) -> (r: String)
    ensures
        r@ == lower_of(s@),
{
    s.to_lowercase()
}

/// Relies on `char::is_whitespace`: whether the character has the Unicode
/// white-space property, a function of the character alone.
#[verifier::external_body]
pub(crate) fn is_space(c: char) -> (r: bool)
    ensures
        r == is_space_char(c),
{
    c.is_whitespace()
}

/// The characters of a string as a vector.
pub fn chars_of(s: &str) -> (v: Vec<char>)
    ensures
        v@ == s@,
{
    let n = s.unicode_len();
    let mut v: Vec<char> = Vec::new();
    let mut i: usize = 0;
    while i < n
        invariant
            i <= n,
            n == s@.len(),
            v@ == s@.take(i as int),
        decreases n - i,
    {
        v.push(s.get_char(i));
        i = i + 1;
        proof {
            assert(v@ =~= s@.take(i as int));
        }
    }
    proof {
        assert(s@.take(n as int) =~= s@);
    }
    v
}

/// Character-by-character string equality.
pub fn str_eq(a: &str, b: &str) -> (r: bool)
    ensures
        r == (a@ == b@),
{
    let na = a.unicode_len();
    let nb = b.unicode_len();
    if na != nb {
        return false;
    }
    let mut i: usize = 0;
    while i < na
        invariant
            i <= na,
            na == a@.len(),
            na == b@.len(),
            forall|j: int| 0 <= j < i ==> a@[j] == b@[j],
        decreases na - i,
    {
        if a.get_char(i) != b.get_char(i) {
            return false;
        }
        i = i + 1;
    }
    proof {
        assert(a@ =~= b@);
    }
    true
}

/// Whether `pat` occurs at position `k` of `hay`.
fn matches_at(hay: &Vec<char>, pat: &Vec<char>, k: usize) -> (r: bool)
    requires
        pat@.len() <= hay@.len() - k,
        k <= hay@.len(),
    ensures
        r == (hay@.subrange(k as int, k + pat@.len()) == pat@),
{
    let n = pat.len();
    let hn = hay.len();
    let mut j: usize = 0;
    while j < n
        invariant
            j <= n,
            n == pat@.len(),
            hn == hay@.len(),
            k <= hay@.len(),
            n <= hay@.len() - k,
            forall|j2: int| 0 <= j2 < j ==> hay@[k + j2] == pat@[j2],
        decreases n - j,
    {
        if hay[k + j] != pat[j] {
            proof {
                assert(hay@.subrange(k as int, k + pat@.len())[j as int] != pat@[j as int]);
            }
            return false;
        }
        j = j + 1;
    }
    proof {
        assert(hay@.subrange(k as int, k + pat@.len()) =~= pat@);
    }
    true
}

/// `needle` occurs somewhere in `hay` as a contiguous run.
pub open spec fn is_substring_of(needle: Seq<char>, hay: Seq<char>) -> bool {
    exists|k: int|
        0 <= k && k + needle.len() <= hay.len() && #[trigger] hay.subrange(k, k + needle.len())
            == needle
}

/// Naive substring search.
pub fn contains_sub(hay: &Vec<char>, needle: &Vec<char>) -> (r: bool)
    ensures
        r == is_substring_of(needle@, hay@),
{
    let hlen = hay.len();
    let nlen = needle.len();
    if nlen > hlen {
        return false;
    }
    let mut k: usize = 0;
    loop
        invariant
            nlen <= hlen,
            hlen == hay@.len(),
            nlen == needle@.len(),
            k <= hlen - nlen,
            forall|k2: int|
                0 <= k2 < k ==> #[trigger] hay@.subrange(k2, k2 + needle@.len()) != needle@,
        decreases hlen - nlen - k,
    {
        if matches_at(hay, needle, k) {
            return true;
        }
        if k == hlen - nlen {
            return false;
        }
        k = k + 1;
    }
}

/// The character of one decimal digit.
pub open spec fn dec_digit(d: nat) -> char {
    if d == 0 {
        '0'
    } else if d == 1 {
        '1'
    } else if d == 2 {
        '2'
    } else if d == 3 {
        '3'
    } else if d == 4 {
        '4'
    } else if d == 5 {
        '5'
    } else if d == 6 {
        '6'
    } else if d == 7 {
        '7'
    } else if d == 8 {
        '8'
    } else {
        '9'
    }
}

/// The decimal representation of a number, most significant digit first, with
/// no leading zeros (a single `'0'` for zero).
pub open spec fn dec_rep(n: nat) -> Seq<char>
    decreases n,
{
    if n < 10 {
        seq![dec_digit(n)]
    } else {
        dec_rep(n / 10) + seq![dec_digit(n % 10)]
    }
}

/// One decimal digit as a string.
fn digit_str(d: u64) -> (r: &'static str)
    requires
        d < 10,
    ensures
        r@ == seq![dec_digit(d as nat)],
{
    if d == 0 {
        proof {
            reveal_strlit("0");
            assert("0"@ =~= seq![dec_digit(0)]);
        }
        "0"
    } else if d == 1 {
        proof {
            reveal_strlit("1");
            assert("1"@ =~= seq![dec_digit(1)]);
        }
        "1"
    } else if d == 2 {
        proof {
            reveal_strlit("2");
            assert("2"@ =~= seq![dec_digit(2)]);
        }
        "2"
    } else if d == 3 {
        proof {
            reveal_strlit("3");
            assert("3"@ =~= seq![dec_digit(3)]);
        }
        "3"
    } else if d == 4 {
        proof {
            reveal_strlit("4");
            assert("4"@ =~= seq![dec_digit(4)]);
        }
        "4"
    } else if d == 5 {
        proof {
            reveal_strlit("5");
            assert("5"@ =~= seq![dec_digit(5)]);
        }
        "5"
    } else if d == 6 {
        proof {
            reveal_strlit("6");
            assert("6"@ =~= seq![dec_digit(6)]);
        }
        "6"
    } else if d == 7 {
        proof {
            reveal_strlit("7");
            assert("7"@ =~= seq![dec_digit(7)]);
        }
        "7"
    } else if d == 8 {
        proof {
            reveal_strlit("8");
            assert("8"@ =~= seq![dec_digit(8)]);
        }
        "8"
    } else {
        proof {
            reveal_strlit("9");
            assert("9"@ =~= seq![dec_digit(9)]);
        }
        "9"
    }
}

/// Renders a number in decimal.
pub fn u64_to_string(n: u64) -> (r: String)
    ensures
        r@ == dec_rep(n as nat),
    decreases n,
{
    if n < 10 {
        String::from_str(digit_str(n))
    } else {
        let mut s = u64_to_string(n / 10);
        s.append(digit_str(n % 10));
        s
    }
}

/// The string with every non-overlapping occurrence of `pat`, leftmost
/// first, replaced by `rep`, as `str::replace` produces it.
pub open spec fn replace_seq(s: Seq<char>, pat: Seq<char>, rep: Seq<char>) -> Seq<char>
    decreases s.len(),
    when pat.len() > 0
{
    if s.len() < pat.len() {
        s
    } else if s.take(pat.len() as int) == pat {
        rep + replace_seq(s.skip(pat.len() as int), pat, rep)
    } else {
        seq![s[0]] + replace_seq(s.skip(1), pat, rep)
    }
}

/// Replaces every occurrence of `pat` in `value` by `rep`.
pub fn replace(value: &str, pat: &str, rep: &str) -> (r: String)
    requires
        pat@.len() > 0,
    ensures
        r@ == replace_seq(value@, pat@, rep@),
{
    let vc = chars_of(value);
    let pc = chars_of(pat);
    let n = vc.len();
    let plen = pc.len();
    let mut out = String::new();
    let mut i: usize = 0;
    proof {
        assert(value@.skip(0) =~= value@);
        assert(out@ + replace_seq(value@, pat@, rep@) =~= replace_seq(value@, pat@, rep@));
    }
    while i < n
        invariant
            i <= n,
            n == value@.len(),
            plen == pat@.len(),
            plen > 0,
            vc@ == value@,
            pc@ == pat@,
            out@ + replace_seq(value@.skip(i as int), pat@, rep@) == replace_seq(
                value@,
                pat@,
                rep@,
            ),
        decreases n - i,
    {
        let ghost tail = value@.skip(i as int);
        if plen <= n - i && matches_at(&vc, &pc, i) {
            proof {
                assert(tail.take(plen as int) =~= value@.subrange(i as int, i + plen));
                assert(tail.skip(plen as int) =~= value@.skip(i + plen));
            }
            out.append(rep);
            i = i + plen;
        } else if plen <= n - i {
            proof {
                assert(tail.take(plen as int) =~= value@.subrange(i as int, i + plen));
                assert(tail.skip(1) =~= value@.skip(i + 1));
                assert(value@.subrange(i as int, i + 1) =~= seq![tail[0]]);
            }
            let piece = value.substring_char(i, i + 1);
            out.append(piece);
            i = i + 1;
        } else {
            proof {
                assert(value@.subrange(i as int, n as int) =~= tail);
                assert(value@.skip(n as int) =~= Seq::<char>::empty());
            }
            let piece = value.substring_char(i, n);
            out.append(piece);
            i = n;
        }
    }
    proof {
        assert(value@.skip(n as int) =~= Seq::<char>::empty());
        assert(out@ + Seq::<char>::empty() =~= out@);
    }
    out
}

} // verus!
