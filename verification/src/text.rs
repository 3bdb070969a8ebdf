//! Verified text helpers: string equality, decimal rendering of integers,
//! and decimal parsing of header timestamps.

use vstd::prelude::*;

verus! {

/// The character for one decimal digit.
pub open spec fn digit_char(d: int) -> char {
    if d == 0 {
        '0'
    } else if d == 1 {
        '1'
    } else if d == 2 {
        '2'
    } else if d == 3 {
        '3'
    } else if d == 4 {
        '4'
    } else if d == 5 {
        '5'
    } else if d == 6 {
        '6'
    } else if d == 7 {
        '7'
    } else if d == 8 {
        '8'
    } else {
        '9'
    }
}

pub open spec fn is_digit_char(c: char) -> bool {
    c == '0' || c == '1' || c == '2' || c == '3' || c == '4' || c == '5' || c == '6' || c == '7'
        || c == '8' || c == '9'
}

/// The value of one decimal digit character.
pub open spec fn digit_val(c: char) -> nat {
    if c == '0' {
        0
    } else if c == '1' {
        1
    } else if c == '2' {
        2
    } else if c == '3' {
        3
    } else if c == '4' {
        4
    } else if c == '5' {
        5
    } else if c == '6' {
        6
    } else if c == '7' {
        7
    } else if c == '8' {
        8
    } else {
        9
    }
}

/// The decimal representation of `n`, most significant digit first,
/// without leading zeros (a single `'0'` for zero).
pub open spec fn dec_chars(n: nat) -> Seq<char>
    decreases n,
{
    if n <= 9 {
        seq![digit_char(n as int)]
    } else {
        dec_chars(n / 10).push(digit_char((n % 10) as int))
    }
}

pub open spec fn all_digits(s: Seq<char>) -> bool {
    forall|i: int| 0 <= i < s.len() ==> is_digit_char(#[trigger] s[i])
}

/// The number denoted by a sequence of decimal digit characters.
pub open spec fn dec_val(s: Seq<char>) -> nat
    decreases s.len(),
{
    if s.len() == 0 {
        0
    } else {
        dec_val(s.drop_last()) * 10 + digit_val(s.last())
    }
}

/// A one-character string slice for the digit `d`.
fn digit_str(d: u64) -> (r: &'static str)
    requires
        d < 10,
    ensures
        r@ == seq![digit_char(d as int)],
{
    proof {
        reveal_strlit("0");
        reveal_strlit("1");
        reveal_strlit("2");
        reveal_strlit("3");
        reveal_strlit("4");
        reveal_strlit("5");
        reveal_strlit("6");
        reveal_strlit("7");
        reveal_strlit("8");
        reveal_strlit("9");
    }
    let r: &'static str = match d {
        0 => "0",
        1 => "1",
        2 => "2",
        3 => "3",
        4 => "4",
        5 => "5",
        6 => "6",
        7 => "7",
        8 => "8",
        _ => "9",
    };
    proof {
        assert(r@ =~= seq![digit_char(d as int)]);
    }
    r
}

/// Renders `n` in decimal, exactly as the wire format for timestamps asks.
pub fn u64_to_string(n: u64) -> (r: String)
    ensures
        r@ == dec_chars(n as nat),
    decreases n,
{
    if n <= 9 {
        String::from_str(digit_str(n))
    } else {
        let mut s = u64_to_string(n / 10);
        s.append(digit_str(n % 10));
        proof {
            assert(s@ =~= dec_chars((n / 10) as nat).push(digit_char((n % 10) as int)));
        }
        s
    }
}

/// Character-for-character string equality.
pub fn str_eq(a: &str, b: &str) -> (r: bool)
    ensures
        r == (a@ == b@),
{
    let a_len = a.unicode_len();
    let b_len = b.unicode_len();
    if a_len != b_len {
        return false;
    }
    let mut i: usize = 0;
    while i < a_len
        invariant
            0 <= i <= a_len,
            a_len == a@.len(),
            a_len == b@.len(),
            forall|j: int| 0 <= j < i ==> a@[j] == b@[j],
        decreases a_len - i,
    {
        if a.get_char(i) != b.get_char(i) {
            return false;
        }
        i += 1;
    }
    proof {
        assert(a@ =~= b@);
    }
    true
}

proof fn lemma_dec_val_nondecreasing(s: Seq<char>, i: int, j: int)
    requires
        0 <= i <= j <= s.len(),
    ensures
        dec_val(s.take(i)) <= dec_val(s.take(j)),
    decreases j - i,
{
    if i < j {
        lemma_dec_val_nondecreasing(s, i, j - 1);
        assert(s.take(j).drop_last() =~= s.take(j - 1));
        assert(dec_val(s.take(j)) == dec_val(s.take(j - 1)) * 10 + digit_val(s.take(j).last()));
    }
}

/// Parses a string of decimal digits as a `u64`: `Some` exactly on a
/// non-empty, all-digit string whose value fits, and then the value is
/// the one the digits denote.
pub fn parse_dec_u64(s: &str) -> (r: Option<u64>)
    ensures
        r is Some <==> (s@.len() > 0 && all_digits(s@) && dec_val(s@) <= u64::MAX),
        r matches Some(v) ==> v as nat == dec_val(s@),
{
    let len = s.unicode_len();
    if len == 0 {
        return None;
    }
    let mut acc: u64 = 0;
    let mut i: usize = 0;
    while i < len
        invariant
            0 <= i <= len,
            len == s@.len(),
            all_digits(s@.take(i as int)),
            acc as nat == dec_val(s@.take(i as int)),
        decreases len - i,
    {
        let c = s.get_char(i);
        let d: u64 = match c {
            '0' => 0,
            '1' => 1,
            '2' => 2,
            '3' => 3,
            '4' => 4,
            '5' => 5,
            '6' => 6,
            '7' => 7,
            '8' => 8,
            '9' => 9,
            _ => {
                proof {
                    assert(!is_digit_char(s@[i as int]));
                }
                return None;
            },
        };
        proof {
            assert(s@.take(i + 1).drop_last() =~= s@.take(i as int));
            assert(s@.take(i + 1).last() == s@[i as int]);
        }
        let next = match acc.checked_mul(10) {
            Some(m) => m.checked_add(d),
            None => None,
        };
        match next {
            Some(v) => {
                acc = v;
            },
            None => {
                proof {
                    assert(dec_val(s@.take(i + 1)) > u64::MAX);
                    lemma_dec_val_nondecreasing(s@, i + 1, len as int);
                    assert(s@.take(len as int) =~= s@);
                }
                return None;
            },
        }
        i += 1;
        proof {
            assert(all_digits(s@.take(i as int)));
        }
    }
    proof {
        assert(s@.take(len as int) =~= s@);
    }
    Some(acc)
}

} // verus!
