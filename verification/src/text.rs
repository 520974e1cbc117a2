//! Character- and string-level helpers shared by the whole crate: ASCII case
//! folding, case-insensitive token matching, and decimal rendering of
//! integers for request paths and diagnostic messages.
use vstd::prelude::*;

verus! {

/// ASCII upper-casing of one character; characters outside `'a'..='z'` are
/// left unchanged.
pub open spec fn upper_char(c: char) -> char {
    if 97 <= c as u32 && c as u32 <= 122 {
        (((c as u32) - 32) as u8) as char
    } else {
        c
    }
}

/// ASCII upper-casing of a character sequence.
pub open spec fn upper_seq(s: Seq<char>) -> Seq<char> {
    s.map_values(|c: char| upper_char(c))
}

/// ASCII upper-casing of one character, executable form.
pub fn to_upper_char(c: char) -> (r: char)
    ensures
        r == upper_char(c),
{
    let u: u32 = c as u32;
    if 97 <= u && u <= 122 {
        ((u - 32) as u8) as char
    } else {
        c
    }
}

/// True exactly when the ASCII upper-casing of `s` equals `t`; used to match
/// input text case-insensitively against an upper-case vocabulary token.
pub fn token_matches(s: &str, t: &str) -> (b: bool)
    ensures
        b == (upper_seq(s@) == t@),
{
    let n = s.unicode_len();
    if n != t.unicode_len() {
        return false;
    }
    let mut i: usize = 0;
    while i < n
        invariant
            n == s@.len(),
            n == t@.len(),
            0 <= i <= n,
            forall|j: int| 0 <= j < i ==> upper_char(s@[j]) == t@[j],
        decreases n - i,
    {
        let c = to_upper_char(s.get_char(i));
        let d = t.get_char(i);
        if c != d {
            assert(upper_seq(s@)[i as int] != t@[i as int]);
            return false;
        }
        i = i + 1;
    }
    assert(upper_seq(s@) =~= t@);
    true
}

/// Character-exact string equality.
pub fn str_eq(s: &str, t: &str) -> (b: bool)
    ensures
        b == (s@ == t@),
{
    let n = s.unicode_len();
    if n != t.unicode_len() {
        return false;
    }
    let mut i: usize = 0;
    while i < n
        invariant
            n == s@.len(),
            n == t@.len(),
            0 <= i <= n,
            forall|j: int| 0 <= j < i ==> s@[j] == t@[j],
        decreases n - i,
    {
        let c = s.get_char(i);
        let d = t.get_char(i);
        if c != d {
            return false;
        }
        i = i + 1;
    }
    assert(s@ =~= t@);
    true
}

/// The character for one decimal digit.
pub open spec fn digit_char(d: nat) -> char {
    ((48 + d) as u8) as char
}

/// The decimal digit sequence of a non-negative integer, most significant
/// digit first, with no leading zeros (a lone `'0'` for zero).
pub open spec fn spec_udec(n: nat) -> Seq<char>
    decreases n,
{
    if n < 10 {
        seq![digit_char(n)]
    } else {
        spec_udec(n / 10) + seq![digit_char(n % 10)]
    }
}

/// The decimal rendering of an integer: the digit sequence of its magnitude,
/// preceded by `'-'` when negative.
pub open spec fn spec_idec(n: int) -> Seq<char> {
    if n < 0 {
        seq!['-'] + spec_udec((-n) as nat)
    } else {
        spec_udec(n as nat)
    }
}

/// The one-character string for a decimal digit.
fn digit_str(d: u64) -> (s: &'static str)
    requires
        d < 10,
    ensures
        s@ == seq![digit_char(d as nat)],
{
    proof {
        reveal_strlit("0");
        reveal_strlit("1");
        reveal_strlit("2");
        reveal_strlit("3");
        reveal_strlit("4");
        reveal_strlit("5");
        reveal_strlit("6");
        reveal_strlit("7");
        reveal_strlit("8");
        reveal_strlit("9");
    }
    if d == 0 {
        assert("0"@ =~= seq![digit_char(0)]);
        "0"
    } else if d == 1 {
        assert("1"@ =~= seq![digit_char(1)]);
        "1"
    } else if d == 2 {
        assert("2"@ =~= seq![digit_char(2)]);
        "2"
    } else if d == 3 {
        assert("3"@ =~= seq![digit_char(3)]);
        "3"
    } else if d == 4 {
        assert("4"@ =~= seq![digit_char(4)]);
        "4"
    } else if d == 5 {
        assert("5"@ =~= seq![digit_char(5)]);
        "5"
    } else if d == 6 {
        assert("6"@ =~= seq![digit_char(6)]);
        "6"
    } else if d == 7 {
        assert("7"@ =~= seq![digit_char(7)]);
        "7"
    } else if d == 8 {
        assert("8"@ =~= seq![digit_char(8)]);
        "8"
    } else {
        assert("9"@ =~= seq![digit_char(9)]);
        "9"
    }
}

/// Decimal rendering of an unsigned integer.
pub fn u64_to_dec(n: u64) -> (s: String)
    ensures
        s@ == spec_udec(n as nat),
{
    let mut s = String::from_str(digit_str(n % 10));
    let mut m: u64 = n / 10;
    while m > 0
        invariant
            m > 0 ==> spec_udec(n as nat) == spec_udec(m as nat) + s@,
            m == 0 ==> spec_udec(n as nat) == s@,
        decreases m,
    {
        let ghost s_old = s@;
        let ghost m_old = m as nat;
        let d = digit_str(m % 10);
        s = String::from_str(d).concat(s.as_str());
        m = m / 10;
        proof {
            if m > 0 {
                assert(spec_udec(m_old) == spec_udec(m_old / 10) + seq![
                    digit_char(m_old % 10),
                ]);
                assert(spec_udec(m as nat) + s@ =~= spec_udec(m_old) + s_old);
            } else {
                assert(m_old < 10);
                assert(m_old % 10 == m_old);
                assert(spec_udec(m_old) == seq![digit_char(m_old)]);
                assert(s@ =~= spec_udec(m_old) + s_old);
            }
        }
    }
    s
}

/// Decimal rendering of a signed integer.
pub fn i64_to_dec(n: i64) -> (s: String)
    ensures
        s@ == spec_idec(n as int),
{
    if n >= 0 {
        u64_to_dec(n as u64)
    } else if n == i64::MIN {
        let mag: u64 = 9223372036854775808u64;
        let digits = u64_to_dec(mag);
        let s = String::from_str("-").concat(digits.as_str());
        proof {
            reveal_strlit("-");
            assert(s@ =~= spec_idec(n as int));
        }
        s
    } else {
        let mag: u64 = (-n) as u64;
        let digits = u64_to_dec(mag);
        let s = String::from_str("-").concat(digits.as_str());
        proof {
            reveal_strlit("-");
            assert(s@ =~= spec_idec(n as int));
        }
        s
    }
}

} // verus!
