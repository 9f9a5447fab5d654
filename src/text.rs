//! Numbers as text.
use vstd::prelude::*;

verus! {

/// The decimal digit for `d`.
pub open spec fn digit_char(d: nat) -> char {
    if d == 0 { '0' }
    else if d == 1 { '1' }
    else if d == 2 { '2' }
    else if d == 3 { '3' }
    else if d == 4 { '4' }
    else if d == 5 { '5' }
    else if d == 6 { '6' }
    else if d == 7 { '7' }
    else if d == 8 { '8' }
    else { '9' }
}

/// The decimal notation of `n`, without sign or leading zeros.
pub open spec fn decimal(n: nat) -> Seq<char>
    decreases n,
{
    if n < 10 {
        seq![digit_char(n)]
    } else {
        decimal(n / 10).push(digit_char(n % 10))
    }
}

fn digit_str(d: u32) -> (r: &'static str)
    requires
        d < 10,
    ensures
        r@ == seq![digit_char(d as nat)],
{
    proof {
        reveal_strlit("0");
        reveal_strlit("1");
        reveal_strlit("2");
        reveal_strlit("3");
        reveal_strlit("4");
        reveal_strlit("5");
        reveal_strlit("6");
        reveal_strlit("7");
        reveal_strlit("8");
        reveal_strlit("9");
    }
    if d == 0 { "0" }
    else if d == 1 { "1" }
    else if d == 2 { "2" }
    else if d == 3 { "3" }
    else if d == 4 { "4" }
    else if d == 5 { "5" }
    else if d == 6 { "6" }
    else if d == 7 { "7" }
    else if d == 8 { "8" }
    else { "9" }
}

/// Writes `n` in decimal.
pub fn decimal_text(n: u32) -> (r: String)
    ensures
        r@ == decimal(n as nat),
    decreases n,
{
    if n < 10 {
        String::from_str(digit_str(n))
    } else {
        let mut s = decimal_text(n / 10);
        s.append(digit_str(n % 10));
        proof {
            assert(seq![digit_char((n % 10) as nat)] =~= Seq::<char>::empty().push(digit_char((n % 10) as nat)));
        }
        s
    }
}

/// The decimal notation of `n`, with a minus sign where it is negative.
pub open spec fn signed_decimal(n: int) -> Seq<char> {
    if n < 0 {
        seq!['-'] + decimal((-n) as nat)
    } else {
        decimal(n as nat)
    }
}

/// Writes `n` in decimal, with a minus sign where it is negative.
pub fn integer_text(n: i32) -> (r: String)
    ensures
        r@ == signed_decimal(n as int),
{
    if n < 0 {
        let magnitude: i64 = 0 - (n as i64);
        let digits = decimal_text(magnitude as u32);
        let mut s = String::from_str("-");
        s.append(digits.as_str());
        proof {
            reveal_strlit("-");
        }
        s
    } else {
        decimal_text(n as u32)
    }
}

/// Whether the characters of `s` before index `i` hold no exponent mark.
pub open spec fn before_exponent(s: Seq<char>, i: int) -> bool {
    forall|j: int| 0 <= j < i ==> s[j] != 'e' && s[j] != 'E'
}

/// Whether the JSON number written as `s` is greater than zero: its
/// mantissa (what stands before an exponent mark) has no minus sign and at
/// least one non-zero digit.
pub open spec fn positive_number_text(s: Seq<char>) -> bool {
    &&& forall|i: int| 0 <= i < s.len() && before_exponent(s, i) ==> s[i] != '-'
    &&& exists|i: int| 0 <= i < s.len() && before_exponent(s, i) && '1' <= s[i] && s[i] <= '9'
}

/// Tells whether the number text `s` denotes a positive value.
pub fn is_positive_number_text(s: &str) -> (r: bool)
    ensures
        r == positive_number_text(s@),
{
    let n = s.unicode_len();
    let mut i: usize = 0;
    let mut negative = false;
    let mut nonzero = false;
    while i < n
        invariant
            n == s@.len(),
            i <= n,
            before_exponent(s@, i as int),
            negative == exists|k: int| 0 <= k < i && s@[k] == '-',
            nonzero == exists|k: int| 0 <= k < i && '1' <= s@[k] && s@[k] <= '9',
        ensures
            i == n || (i < n && (s@[i as int] == 'e' || s@[i as int] == 'E')),
        decreases n - i,
    {
        let c = s.get_char(i);
        if c == 'e' || c == 'E' {
            break;
        }
        if c == '-' {
            negative = true;
        }
        if '1' <= c && c <= '9' {
            nonzero = true;
        }
        i = i + 1;
    }
    proof {
        if !negative {
            assert forall|k: int| 0 <= k < s@.len() && before_exponent(s@, k) implies s@[k] != '-' by {
                if k >= i {
                    assert(s@[i as int] == 'e' || s@[i as int] == 'E');
                }
            }
        }
        if nonzero {
            let k = choose|k: int| 0 <= k < i && '1' <= s@[k] && s@[k] <= '9';
            assert(before_exponent(s@, k));
        } else {
            assert forall|k: int| 0 <= k < s@.len() && before_exponent(s@, k) implies !('1' <= s@[k] && s@[k] <= '9') by {
                if k >= i {
                    assert(s@[i as int] == 'e' || s@[i as int] == 'E');
                }
            }
        }
        if negative {
            let k = choose|k: int| 0 <= k < i && s@[k] == '-';
            assert(before_exponent(s@, k));
        }
    }
    !negative && nonzero
}

} // verus!
