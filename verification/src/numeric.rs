//! Decimal numerals: rendering unsigned integers as decimal strings, and the
//! grammar of the numeral strings that std's float parser accepts.

use vstd::prelude::*;
use vstd::arithmetic::div_mod::lemma_fundamental_div_mod;
use vstd::string::StrSliceExecFns;
use vstd::string::StringExecFns;

verus! {

/// A decimal digit character, `'0'` through `'9'`.
pub open spec fn is_dec_digit(c: char) -> bool {
    '0' <= c && c <= '9'
}

/// Every character of `s` is a decimal digit.
pub open spec fn all_dec_digits(s: Seq<char>) -> bool {
    forall|i: int| 0 <= i < s.len() ==> is_dec_digit(#[trigger] s[i])
}

/// The digit character for `d`, for `d < 10`.
pub open spec fn dec_digit_char(d: nat) -> char {
    if d == 0 {
        '0'
    } else if d == 1 {
        '1'
    } else if d == 2 {
        '2'
    } else if d == 3 {
        '3'
    } else if d == 4 {
        '4'
    } else if d == 5 {
        '5'
    } else if d == 6 {
        '6'
    } else if d == 7 {
        '7'
    } else if d == 8 {
        '8'
    } else {
        '9'
    }
}

/// The decimal numeral of `n`, most significant digit first, without sign
/// or leading zeros (`0` itself is rendered as `"0"`).
pub open spec fn dec_str_of(n: nat) -> Seq<char>
    decreases n,
{
    if n < 10 {
        seq![dec_digit_char(n)]
    } else {
        dec_str_of(n / 10) + seq![dec_digit_char(n % 10)]
    }
}

pub proof fn lemma_dec_str_len(n: nat)
    ensures
        dec_str_of(n).len() >= 1,
        n >= 10 ==> dec_str_of(n).len() >= 2,
    decreases n,
{
    if n >= 10 {
        lemma_dec_str_len(n / 10);
    }
}

pub proof fn lemma_dec_str_all_digits(n: nat)
    ensures
        all_dec_digits(dec_str_of(n)),
    decreases n,
{
    if n < 10 {
        assert(is_dec_digit(dec_digit_char(n)));
    } else {
        lemma_dec_str_all_digits(n / 10);
        assert(is_dec_digit(dec_digit_char(n % 10)));
        assert forall|i: int| 0 <= i < dec_str_of(n).len() implies is_dec_digit(
            #[trigger] dec_str_of(n)[i],
        ) by {
            let p = dec_str_of(n / 10);
            if i < p.len() {
                assert(dec_str_of(n)[i] == p[i]);
            } else {
                assert(dec_str_of(n)[i] == dec_digit_char(n % 10));
            }
        }
    }
}

proof fn lemma_digit_char_injective(d1: nat, d2: nat)
    requires
        d1 < 10,
        d2 < 10,
        dec_digit_char(d1) == dec_digit_char(d2),
    ensures
        d1 == d2,
{
}

/// Distinct numbers have distinct decimal numerals.
pub proof fn lemma_dec_str_injective(m: nat, n: nat)
    requires
        dec_str_of(m) == dec_str_of(n),
    ensures
        m == n,
    decreases m,
{
    lemma_dec_str_len(m);
    lemma_dec_str_len(n);
    if m < 10 && n < 10 {
        assert(dec_str_of(m)[0] == dec_digit_char(m));
        assert(dec_str_of(n)[0] == dec_digit_char(n));
        lemma_digit_char_injective(m, n);
    } else if m < 10 {
        assert(dec_str_of(m).len() == 1);
    } else if n < 10 {
        assert(dec_str_of(n).len() == 1);
    } else {
        let a = dec_str_of(m / 10);
        let b = dec_str_of(n / 10);
        assert(a.len() == b.len());
        assert(dec_str_of(m)[a.len() as int] == dec_digit_char(m % 10));
        assert(dec_str_of(n)[b.len() as int] == dec_digit_char(n % 10));
        lemma_digit_char_injective(m % 10, n % 10);
        assert(a =~= b) by {
            assert forall|i: int| 0 <= i < a.len() implies a[i] == b[i] by {
                assert(dec_str_of(m)[i] == a[i]);
                assert(dec_str_of(n)[i] == b[i]);
            }
        }
        lemma_dec_str_injective(m / 10, n / 10);
        lemma_fundamental_div_mod(m as int, 10);
        lemma_fundamental_div_mod(n as int, 10);
    }
}

fn dec_digit_str(d: u64) -> (r: &'static str)
    requires
        d < 10,
    ensures
        r@ == seq![dec_digit_char(d as nat)],
{
    if d == 0 {
        proof {
            reveal_strlit("0");
            assert("0"@ =~= seq![dec_digit_char(0)]);
        }
        "0"
    } else if d == 1 {
        proof {
            reveal_strlit("1");
            assert("1"@ =~= seq![dec_digit_char(1)]);
        }
        "1"
    } else if d == 2 {
        proof {
            reveal_strlit("2");
            assert("2"@ =~= seq![dec_digit_char(2)]);
        }
        "2"
    } else if d == 3 {
        proof {
            reveal_strlit("3");
            assert("3"@ =~= seq![dec_digit_char(3)]);
        }
        "3"
    } else if d == 4 {
        proof {
            reveal_strlit("4");
            assert("4"@ =~= seq![dec_digit_char(4)]);
        }
        "4"
    } else if d == 5 {
        proof {
            reveal_strlit("5");
            assert("5"@ =~= seq![dec_digit_char(5)]);
        }
        "5"
    } else if d == 6 {
        proof {
            reveal_strlit("6");
            assert("6"@ =~= seq![dec_digit_char(6)]);
        }
        "6"
    } else if d == 7 {
        proof {
            reveal_strlit("7");
            assert("7"@ =~= seq![dec_digit_char(7)]);
        }
        "7"
    } else if d == 8 {
        proof {
            reveal_strlit("8");
            assert("8"@ =~= seq![dec_digit_char(8)]);
        }
        "8"
    } else {
        proof {
            reveal_strlit("9");
            assert("9"@ =~= seq![dec_digit_char(9)]);
        }
        "9"
    }
}

/// Renders `n` as its decimal numeral.
pub fn u64_to_dec_string(n: u64) -> (r: String)
    ensures
        r@ == dec_str_of(n as nat),
    decreases n,
{
    if n < 10 {
        String::from_str(dec_digit_str(n))
    } else {
        let prefix = u64_to_dec_string(n / 10);
        prefix.concat(dec_digit_str(n % 10))
    }
}

/// A sign character of a numeral.
pub open spec fn is_sign(c: char) -> bool {
    c == '+' || c == '-'
}

/// The first index at or after `from` that does not hold a decimal digit
/// (the end of the maximal digit run starting at `from`), or `s.len()`.
pub open spec fn digits_end(s: Seq<char>, from: int) -> int
    decreases s.len() - from,
{
    if 0 <= from && from < s.len() && is_dec_digit(s[from]) {
        digits_end(s, from + 1)
    } else {
        from
    }
}

/// An exponent part starting at `from`: `e` or `E`, an optional sign, then
/// one or more digits reaching the end of `s`.
pub open spec fn is_exp_from(s: Seq<char>, from: int) -> bool {
    &&& 0 <= from < s.len()
    &&& (s[from] == 'e' || s[from] == 'E')
    &&& {
        let d0 = if from + 1 < s.len() && is_sign(s[from + 1]) {
            from + 2
        } else {
            from + 1
        };
        d0 < s.len() && digits_end(s, d0) == s.len()
    }
}

/// A number starting at `from` and reaching the end of `s`:
/// `Digit+ | Digit+ '.' Digit* | Digit* '.' Digit+`, then an optional
/// exponent part.
pub open spec fn is_number_from(s: Seq<char>, from: int) -> bool {
    0 <= from <= s.len() && {
        let d = digits_end(s, from);
        if d == s.len() {
            d > from
        } else if s[d] == '.' {
            let f = digits_end(s, d + 1);
            (d > from || f > d + 1) && (f == s.len() || is_exp_from(s, f))
        } else {
            d > from && is_exp_from(s, d)
        }
    }
}

/// `inf`, in any letter case, filling `s` from `from` on.
pub open spec fn is_inf_at(s: Seq<char>, from: int) -> bool {
    &&& s.len() - from == 3
    &&& (s[from] == 'i' || s[from] == 'I')
    &&& (s[from + 1] == 'n' || s[from + 1] == 'N')
    &&& (s[from + 2] == 'f' || s[from + 2] == 'F')
}

/// `nan`, in any letter case, filling `s` from `from` on.
pub open spec fn is_nan_at(s: Seq<char>, from: int) -> bool {
    &&& s.len() - from == 3
    &&& (s[from] == 'n' || s[from] == 'N')
    &&& (s[from + 1] == 'a' || s[from + 1] == 'A')
    &&& (s[from + 2] == 'n' || s[from + 2] == 'N')
}

/// `infinity`, in any letter case, filling `s` from `from` on.
pub open spec fn is_infinity_at(s: Seq<char>, from: int) -> bool {
    &&& s.len() - from == 8
    &&& (s[from] == 'i' || s[from] == 'I')
    &&& (s[from + 1] == 'n' || s[from + 1] == 'N')
    &&& (s[from + 2] == 'f' || s[from + 2] == 'F')
    &&& (s[from + 3] == 'i' || s[from + 3] == 'I')
    &&& (s[from + 4] == 'n' || s[from + 4] == 'N')
    &&& (s[from + 5] == 'i' || s[from + 5] == 'I')
    &&& (s[from + 6] == 't' || s[from + 6] == 'T')
    &&& (s[from + 7] == 'y' || s[from + 7] == 'Y')
}

pub open spec fn is_keyword_from(s: Seq<char>, from: int) -> bool {
    is_inf_at(s, from) || is_infinity_at(s, from) || is_nan_at(s, from)
}

/// The numeral strings that std's float parser accepts: an optional sign,
/// then a number or one of the keywords `inf`, `infinity`, `nan` in any
/// letter case.
pub open spec fn is_float_literal(s: Seq<char>) -> bool {
    if s.len() > 0 && is_sign(s[0]) {
        is_number_from(s, 1) || is_keyword_from(s, 1)
    } else {
        is_number_from(s, 0) || is_keyword_from(s, 0)
    }
}

fn digits_end_x(s: &str, from: usize) -> (r: usize)
    requires
        from <= s@.len(),
    ensures
        r as int == digits_end(s@, from as int),
        from <= r <= s@.len(),
{
    let n = s.unicode_len();
    let mut i: usize = from;
    loop
        invariant
            from <= i <= n,
            n == s@.len(),
            digits_end(s@, from as int) == digits_end(s@, i as int),
        decreases n - i,
    {
        if i >= n {
            return i;
        }
        let c = s.get_char(i);
        if !(c >= '0' && c <= '9') {
            assert(digits_end(s@, i as int) == i as int);
            return i;
        }
        assert(digits_end(s@, i as int) == digits_end(s@, i + 1));
        i = i + 1;
    }
}

fn check_exp_from(s: &str, from: usize) -> (r: bool)
    requires
        from <= s@.len(),
    ensures
        r == is_exp_from(s@, from as int),
{
    let n = s.unicode_len();
    if from >= n {
        return false;
    }
    let c = s.get_char(from);
    if !(c == 'e' || c == 'E') {
        return false;
    }
    let d0: usize = if from + 1 < n {
        let c1 = s.get_char(from + 1);
        if c1 == '+' || c1 == '-' {
            from + 2
        } else {
            from + 1
        }
    } else {
        from + 1
    };
    if d0 >= n {
        return false;
    }
    let e = digits_end_x(s, d0);
    e == n
}

fn check_number_from(s: &str, from: usize) -> (r: bool)
    requires
        from <= s@.len(),
    ensures
        r == is_number_from(s@, from as int),
{
    let n = s.unicode_len();
    let d = digits_end_x(s, from);
    if d == n {
        d > from
    } else if s.get_char(d) == '.' {
        let f = digits_end_x(s, d + 1);
        if d > from || f > d + 1 {
            if f == n {
                true
            } else {
                check_exp_from(s, f)
            }
        } else {
            false
        }
    } else {
        if d > from {
            check_exp_from(s, d)
        } else {
            false
        }
    }
}

fn check_keyword_from(s: &str, from: usize) -> (r: bool)
    requires
        from <= s@.len(),
    ensures
        r == is_keyword_from(s@, from as int),
{
    let n = s.unicode_len();
    if n - from == 3 {
        let a = s.get_char(from);
        let b = s.get_char(from + 1);
        let c = s.get_char(from + 2);
        ((a == 'i' || a == 'I') && (b == 'n' || b == 'N') && (c == 'f' || c == 'F')) || ((a == 'n'
            || a == 'N') && (b == 'a' || b == 'A') && (c == 'n' || c == 'N'))
    } else if n - from == 8 {
        let c0 = s.get_char(from);
        let c1 = s.get_char(from + 1);
        let c2 = s.get_char(from + 2);
        let c3 = s.get_char(from + 3);
        let c4 = s.get_char(from + 4);
        let c5 = s.get_char(from + 5);
        let c6 = s.get_char(from + 6);
        let c7 = s.get_char(from + 7);
        (c0 == 'i' || c0 == 'I') && (c1 == 'n' || c1 == 'N') && (c2 == 'f' || c2 == 'F') && (c3
            == 'i' || c3 == 'I') && (c4 == 'n' || c4 == 'N') && (c5 == 'i' || c5 == 'I') && (c6
            == 't' || c6 == 'T') && (c7 == 'y' || c7 == 'Y')
    } else {
        false
    }
}

/// Whether `s` is a numeral that std's float parser accepts.
pub fn check_float_literal(s: &str) -> (r: bool)
    ensures
        r == is_float_literal(s@),
{
    let n = s.unicode_len();
    if n == 0 {
        return false;
    }
    let c0 = s.get_char(0);
    let start: usize = if c0 == '+' || c0 == '-' {
        1
    } else {
        0
    };
    if check_number_from(s, start) {
        return true;
    }
    check_keyword_from(s, start)
}

} // verus!
