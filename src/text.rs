//! Decimal and hexadecimal text for integers and bytes.
use vstd::prelude::*;

verus! {

/// The decimal digit characters, by value.
pub open spec fn decimal_digits() -> Seq<char> {
    seq!['0', '1', '2', '3', '4', '5', '6', '7', '8', '9']
}

/// The lower-case hexadecimal digit characters, by value.
pub open spec fn hex_digits() -> Seq<char> {
    seq!['0', '1', '2', '3', '4', '5', '6', '7', '8', '9', 'a', 'b', 'c', 'd', 'e', 'f']
}

pub open spec fn is_digit(c: char) -> bool {
    '0' <= c && c <= '9'
}

pub open spec fn digit_value(c: char) -> int {
    c as u32 as int - '0' as u32 as int
}

/// The decimal digits of `n`, most significant first, without leading zeros.
pub open spec fn digits_of(n: nat) -> Seq<char>
    decreases n,
{
    if n < 10 {
        seq![decimal_digits()[n as int]]
    } else {
        digits_of(n / 10).push(decimal_digits()[(n % 10) as int])
    }
}

/// `n` written in decimal, with a leading `-` when it is negative.
pub open spec fn decimal(n: int) -> Seq<char> {
    if n < 0 {
        seq!['-'] + digits_of((-n) as nat)
    } else {
        digits_of(n as nat)
    }
}

/// Two lower-case hexadecimal digits for each byte, high nibble first.
pub open spec fn hex_of(bytes: Seq<u8>) -> Seq<char>
    decreases bytes.len(),
{
    if bytes.len() == 0 {
        Seq::empty()
    } else {
        let b = bytes.last();
        hex_of(bytes.drop_last()) + seq![hex_digits()[(b / 16) as int], hex_digits()[(b % 16) as int]]
    }
}

pub open spec fn all_digits(s: Seq<char>) -> bool {
    forall|i: int| 0 <= i < s.len() ==> is_digit(#[trigger] s[i])
}

/// The value of a string of decimal digits.
pub open spec fn digits_value(s: Seq<char>) -> int
    decreases s.len(),
{
    if s.len() == 0 {
        0
    } else {
        digits_value(s.drop_last()) * 10 + digit_value(s.last())
    }
}

/// The value of a non-empty string of decimal digits, or `None`.
pub open spec fn unsigned_of(s: Seq<char>) -> Option<int> {
    if s.len() > 0 && all_digits(s) {
        Some(digits_value(s))
    } else {
        None
    }
}

/// The integer that `s` writes in decimal: digits after an optional `+`, or
/// after a `-` where `signed` holds.
pub open spec fn integer_of(s: Seq<char>, signed: bool) -> Option<int> {
    if s.len() > 0 && s[0] == '+' {
        unsigned_of(s.drop_first())
    } else if signed && s.len() > 0 && s[0] == '-' {
        match unsigned_of(s.drop_first()) {
            Some(v) => Some(-v),
            None => None,
        }
    } else {
        unsigned_of(s)
    }
}

/// What `s` parses to as an `i64`: its integer where that fits.
pub open spec fn i64_of(s: Seq<char>) -> Option<i64> {
    match integer_of(s, true) {
        Some(v) => if i64::MIN <= v <= i64::MAX {
            Some(v as i64)
        } else {
            None
        },
        None => None,
    }
}

/// What `s` parses to as a `u16`: its integer where that fits.
pub open spec fn u16_of(s: Seq<char>) -> Option<u16> {
    match integer_of(s, false) {
        Some(v) => if 0 <= v <= u16::MAX {
            Some(v as u16)
        } else {
            None
        },
        None => None,
    }
}

fn digit_text(d: u8) -> (r: &'static str)
    requires
        d < 10,
    ensures
        r@ == seq![decimal_digits()[d as int]],
{
    if d == 0 {
        proof { reveal_strlit("0"); }
        "0"
    } else if d == 1 {
        proof { reveal_strlit("1"); }
        "1"
    } else if d == 2 {
        proof { reveal_strlit("2"); }
        "2"
    } else if d == 3 {
        proof { reveal_strlit("3"); }
        "3"
    } else if d == 4 {
        proof { reveal_strlit("4"); }
        "4"
    } else if d == 5 {
        proof { reveal_strlit("5"); }
        "5"
    } else if d == 6 {
        proof { reveal_strlit("6"); }
        "6"
    } else if d == 7 {
        proof { reveal_strlit("7"); }
        "7"
    } else if d == 8 {
        proof { reveal_strlit("8"); }
        "8"
    } else {
        proof { reveal_strlit("9"); }
        "9"
    }
}

fn hex_text(d: u8) -> (r: &'static str)
    requires
        d < 16,
    ensures
        r@ == seq![hex_digits()[d as int]],
{
    if d < 10 {
        digit_text(d)
    } else if d == 10 {
        proof { reveal_strlit("a"); }
        "a"
    } else if d == 11 {
        proof { reveal_strlit("b"); }
        "b"
    } else if d == 12 {
        proof { reveal_strlit("c"); }
        "c"
    } else if d == 13 {
        proof { reveal_strlit("d"); }
        "d"
    } else if d == 14 {
        proof { reveal_strlit("e"); }
        "e"
    } else {
        proof { reveal_strlit("f"); }
        "f"
    }
}

fn digits_u64(n: u64) -> (r: String)
    ensures
        r@ == digits_of(n as nat),
    decreases n,
{
    if n < 10 {
        String::from_str(digit_text(n as u8))
    } else {
        let mut s = digits_u64(n / 10);
        s.append(digit_text((n % 10) as u8));
        s
    }
}

/// `n` in decimal, as `i64::to_string` writes it.
pub fn decimal_i64(n: i64) -> (r: String)
    ensures
        r@ == decimal(n as int),
{
    if n < 0 {
        let mag: u64 = (-(n as i128)) as u64;
        let s = String::from_str("-");
        proof { reveal_strlit("-"); }
        let digits = digits_u64(mag);
        let r = s.concat(digits.as_str());
        r
    } else {
        digits_u64(n as u64)
    }
}

/// Lower-case hexadecimal text of `bytes`, two digits a byte.
pub fn to_hex(bytes: &[u8]) -> (r: String)
    ensures
        r@ == hex_of(bytes@),
{
    let mut s = String::new();
    let mut i: usize = 0;
    while i < bytes.len()
        invariant
            i <= bytes@.len(),
            s@ == hex_of(bytes@.subrange(0, i as int)),
        decreases bytes@.len() - i,
    {
        let b = bytes[i];
        s.append(hex_text(b / 16));
        s.append(hex_text(b % 16));
        proof {
            assert(bytes@.subrange(0, i + 1).drop_last() =~= bytes@.subrange(0, i as int));
        }
        i = i + 1;
    }
    proof {
        assert(bytes@.subrange(0, i as int) =~= bytes@);
    }
    s
}


/// The value of the digits of `s` from `start` on, capped at `cap`, or `None`
/// unless they are one or more decimal digits.
fn digits_capped(s: &str, start: usize, cap: u128) -> (r: Option<u128>)
    requires
        start <= s@.len(),
        cap <= u64::MAX,
    ensures
        r == (match unsigned_of(s@.subrange(start as int, s@.len() as int)) {
            Some(v) => Some((if v < cap { v } else { cap as int }) as u128),
            None => None::<u128>,
        }),
        r matches Some(x) ==> x <= cap,
        unsigned_of(s@.subrange(start as int, s@.len() as int)) matches Some(v) ==> v >= 0,
{
    let len = s.unicode_len();
    if start >= len {
        return None;
    }
    let ghost tail = s@.subrange(start as int, s@.len() as int);
    let mut acc: u128 = 0;
    let mut i: usize = start;
    while i < len
        invariant
            len == s@.len(),
            start < len,
            start <= i <= len,
            cap <= u64::MAX,
            tail == s@.subrange(start as int, s@.len() as int),
            all_digits(tail.subrange(0, i - start)),
            acc as int == (if digits_value(tail.subrange(0, i - start)) < cap {
                digits_value(tail.subrange(0, i - start))
            } else {
                cap as int
            }),
        decreases len - i,
    {
        let c = s.get_char(i);
        if !('0' <= c && c <= '9') {
            proof {
                assert(tail[i - start] == c);
            }
            return None;
        }
        let d = (c as u32 - '0' as u32) as u128;
        let ghost before = tail.subrange(0, i - start);
        let ghost after = tail.subrange(0, i + 1 - start);
        proof {
            assert(after.drop_last() =~= before);
            assert(after.last() == c);
            lemma_digits_value_nonneg(before);
        }
        let next = acc * 10 + d;
        acc = if next < cap { next } else { cap };
        proof {
            assert forall|k: int| 0 <= k < after.len() implies is_digit(#[trigger] after[k]) by {
                if k < before.len() {
                    assert(after[k] == before[k]);
                }
            }
        }
        i = i + 1;
    }
    proof {
        assert(tail.subrange(0, len - start) =~= tail);
        lemma_digits_value_nonneg(tail);
    }
    Some(acc)
}

proof fn lemma_digits_value_nonneg(s: Seq<char>)
    requires
        all_digits(s),
    ensures
        digits_value(s) >= 0,
    decreases s.len(),
{
    if s.len() > 0 {
        assert(all_digits(s.drop_last())) by {
            assert forall|k: int| 0 <= k < s.drop_last().len() implies is_digit(
                #[trigger] s.drop_last()[k],
            ) by {
                assert(s.drop_last()[k] == s[k]);
            }
        }
        lemma_digits_value_nonneg(s.drop_last());
        assert(is_digit(s[s.len() - 1]));
    }
}

/// Parses `s` as `str::parse::<i64>` does: an optional sign, then decimal
/// digits, within the range of `i64`.
pub fn parse_i64(s: &str) -> (r: Option<i64>)
    ensures
        r == i64_of(s@),
{
    let len = s.unicode_len();
    let first: char = if len > 0 { s.get_char(0) } else { '0' };
    let neg = len > 0 && first == '-';
    let start: usize = if neg || (len > 0 && first == '+') { 1 } else { 0 };
    let cap: u128 = 0x8000_0000_0000_0001;
    proof {
        if start == 1 {
            assert(s@.subrange(1, s@.len() as int) =~= s@.drop_first());
        } else {
            assert(s@.subrange(0, s@.len() as int) =~= s@);
        }
    }
    match digits_capped(s, start, cap) {
        None => None,
        Some(v) => {
            if v >= cap {
                None
            } else if neg {
                Some((-(v as i128)) as i64)
            } else if v < cap - 1 {
                Some(v as i64)
            } else {
                None
            }
        },
    }
}

/// Parses `s` as `str::parse::<u16>` does: an optional `+`, then decimal
/// digits, within the range of `u16`.
pub fn parse_u16(s: &str) -> (r: Option<u16>)
    ensures
        r == u16_of(s@),
{
    let len = s.unicode_len();
    let start: usize = if len > 0 && s.get_char(0) == '+' { 1 } else { 0 };
    let cap: u128 = 0x1_0000;
    proof {
        if start == 1 {
            assert(s@.subrange(1, s@.len() as int) =~= s@.drop_first());
        } else {
            assert(s@.subrange(0, s@.len() as int) =~= s@);
        }
    }
    match digits_capped(s, start, cap) {
        None => None,
        Some(v) => {
            if v < cap {
                Some(v as u16)
            } else {
                None
            }
        },
    }
}


proof fn lemma_digit_char(d: int)
    requires
        0 <= d < 10,
    ensures
        is_digit(decimal_digits()[d]),
        digit_value(decimal_digits()[d]) == d,
{
    assert(decimal_digits()[0] == '0');
    assert(decimal_digits()[1] == '1');
    assert(decimal_digits()[2] == '2');
    assert(decimal_digits()[3] == '3');
    assert(decimal_digits()[4] == '4');
    assert(decimal_digits()[5] == '5');
    assert(decimal_digits()[6] == '6');
    assert(decimal_digits()[7] == '7');
    assert(decimal_digits()[8] == '8');
    assert(decimal_digits()[9] == '9');
}

proof fn lemma_digits_of(m: nat)
    ensures
        digits_of(m).len() > 0,
        all_digits(digits_of(m)),
        digits_value(digits_of(m)) == m,
    decreases m,
{
    let s = digits_of(m);
    if m < 10 {
        lemma_digit_char(m as int);
        assert(s.drop_last() =~= Seq::<char>::empty());
        assert(digits_value(s.drop_last()) == 0);
        assert(s.last() == decimal_digits()[m as int]);
        assert(digits_value(s) == digits_value(s.drop_last()) * 10 + digit_value(s.last()));
    } else {
        lemma_digits_of(m / 10);
        lemma_digit_char((m % 10) as int);
        assert(s.drop_last() =~= digits_of(m / 10));
        assert(s.last() == decimal_digits()[(m % 10) as int]);
        assert(digits_value(s) == digits_value(s.drop_last()) * 10 + digit_value(s.last()));
        assert((m / 10) * 10 + m % 10 == m);
        assert forall|k: int| 0 <= k < s.len() implies is_digit(#[trigger] s[k]) by {
            if k < s.len() - 1 {
                assert(s[k] == digits_of(m / 10)[k]);
            }
        }
    }
}

/// Reading back the decimal text of an `i64` gives the same integer.
pub proof fn lemma_parse_decimal_i64(n: i64)
    ensures
        i64_of(decimal(n as int)) == Some(n),
{
    let s = decimal(n as int);
    if n < 0 {
        let m = (-n) as nat;
        lemma_digits_of(m);
        assert(s.drop_first() =~= digits_of(m));
        assert(s[0] == '-');
    } else {
        lemma_digits_of(n as nat);
        assert(is_digit(s[0]));
    }
}

/// Distinct integers have distinct decimal text.
pub proof fn lemma_decimal_injective(a: i64, b: i64)
    ensures
        decimal(a as int) == decimal(b as int) ==> a == b,
{
    lemma_parse_decimal_i64(a);
    lemma_parse_decimal_i64(b);
}

} // verus!
