//! Decimal formatting of numbers for the HUD and notifications.
use vstd::prelude::*;

verus! {

/// The character of a decimal digit.
pub open spec fn digit_char(d: nat) -> char {
    (48 + d) as char
}

/// Decimal digits of `n`, most significant first, without leading zeros
/// (`0` is written `"0"`): what `Display` prints for an unsigned integer.
pub open spec fn dec_digits(n: nat) -> Seq<char>
    decreases n,
{
    if n < 10 {
        seq![digit_char(n)]
    } else {
        dec_digits(n / 10) + seq![digit_char(n % 10)]
    }
}

/// The number a string of decimal digits stands for.
pub open spec fn digits_value(s: Seq<char>) -> int
    decreases s.len(),
{
    if s.len() == 0 {
        0
    } else {
        digits_value(s.drop_last()) * 10 + (s.last() as int - 48)
    }
}

/// Law: the decimal text of `n` reads back as `n`: it is made of digits
/// only, is never empty, and starts with a zero only for `0` itself.
pub proof fn decimal_reads_back(n: nat)
    ensures
        digits_value(dec_digits(n)) == n,
        dec_digits(n).len() >= 1,
        forall|i: int| 0 <= i < dec_digits(n).len() ==> '0' <= #[trigger] dec_digits(n)[i] <= '9',
        n >= 10 ==> dec_digits(n)[0] != '0',
    decreases n,
{
    if n < 10 {
        assert(digit_char(n) as int == 48 + n);
        assert(dec_digits(n).drop_last() =~= Seq::<char>::empty());
        assert(digits_value(Seq::<char>::empty()) == 0);
        assert(dec_digits(n).last() == digit_char(n));
        assert(digits_value(dec_digits(n)) == n);
    } else {
        decimal_reads_back(n / 10);
        assert(digit_char(n % 10) as int == 48 + n % 10);
        assert((n / 10) * 10 + n % 10 == n);
        let s = dec_digits(n);
        assert(s.drop_last() =~= dec_digits(n / 10));
        assert(s.last() == digit_char(n % 10));
        assert(digits_value(s) == digits_value(dec_digits(n / 10)) * 10 + (n % 10));
        assert(digits_value(s) == n);
        assert(s[0] == dec_digits(n / 10)[0]);
        assert forall|i: int| 0 <= i < s.len() implies '0' <= #[trigger] s[i] <= '9' by {
            if i < s.len() - 1 {
                assert(s[i] == dec_digits(n / 10)[i]);
            }
        }
    }
}

/// What `Display` prints for a signed integer.
pub open spec fn signed_dec(i: int) -> Seq<char> {
    if i < 0 {
        seq!['-'] + dec_digits((-i) as nat)
    } else {
        dec_digits(i as nat)
    }
}

/// What `{:02}` prints for an unsigned integer: at least two digits.
pub open spec fn pad2(n: nat) -> Seq<char> {
    if n < 10 {
        seq!['0'] + dec_digits(n)
    } else {
        dec_digits(n)
    }
}

/// Law: a signed number's text is a minus sign exactly for negatives,
/// followed by the digits of its magnitude; `{:02}` text has at least two
/// digits and reads back as the number.
pub proof fn signed_and_padded_read_back(i: int, n: nat)
    ensures
        i < 0 ==> signed_dec(i)[0] == '-' && signed_dec(i).drop_first() == dec_digits((-i) as nat),
        i >= 0 ==> signed_dec(i) == dec_digits(i as nat) && signed_dec(i)[0] != '-',
        pad2(n).len() >= 2,
        digits_value(pad2(n)) == n,
{
    decimal_reads_back(n);
    if i >= 0 {
        decimal_reads_back(i as nat);
    } else {
        assert((seq!['-'] + dec_digits((-i) as nat)).drop_first() =~= dec_digits((-i) as nat));
    }
    if n < 10 {
        let p = pad2(n);
        assert(p.drop_last() =~= seq!['0']);
        let z = seq!['0'];
        assert(z.drop_last() =~= Seq::<char>::empty());
        assert(digits_value(z.drop_last()) == 0);
        assert(z.last() == '0');
        assert('0' as int == 48);
        assert(digits_value(z) == 0);
        assert(p.last() == digit_char(n));
        assert(digit_char(n) as int == 48 + n);
    } else {
        assert(dec_digits(n) == dec_digits(n / 10) + seq![digit_char(n % 10)]);
    }
}

fn digit_str(d: u64) -> (s: &'static str)
    requires
        d < 10,
    ensures
        s@ == seq![digit_char(d as nat)],
{
    if d == 0 {
        proof { reveal_strlit("0"); }
        "0"
    } else if d == 1 {
        proof { reveal_strlit("1"); }
        "1"
    } else if d == 2 {
        proof { reveal_strlit("2"); }
        "2"
    } else if d == 3 {
        proof { reveal_strlit("3"); }
        "3"
    } else if d == 4 {
        proof { reveal_strlit("4"); }
        "4"
    } else if d == 5 {
        proof { reveal_strlit("5"); }
        "5"
    } else if d == 6 {
        proof { reveal_strlit("6"); }
        "6"
    } else if d == 7 {
        proof { reveal_strlit("7"); }
        "7"
    } else if d == 8 {
        proof { reveal_strlit("8"); }
        "8"
    } else {
        proof { reveal_strlit("9"); }
        "9"
    }
}

/// Writes `n` in decimal.
pub fn decimal(n: u64) -> (s: String)
    ensures
        s@ == dec_digits(n as nat),
    decreases n,
{
    if n < 10 {
        String::from_str(digit_str(n))
    } else {
        let mut s = decimal(n / 10);
        s.append(digit_str(n % 10));
        s
    }
}

/// Writes a signed integer in decimal, with a leading `-` when negative.
pub fn signed_decimal(i: i64) -> (s: String)
    ensures
        s@ == signed_dec(i as int),
{
    if i < 0 {
        let m: u64 = ((-(i + 1)) as u64) + 1;
        let mut s = String::from_str("-");
        proof { reveal_strlit("-"); }
        let d = decimal(m);
        s.append(d.as_str());
        s
    } else {
        decimal(i as u64)
    }
}

/// Writes `n` with at least two digits, as `{:02}` does.
pub fn two_digits(n: u64) -> (s: String)
    ensures
        s@ == pad2(n as nat),
{
    if n < 10 {
        let mut s = String::from_str("0");
        proof { reveal_strlit("0"); }
        s.append(digit_str(n));
        s
    } else {
        decimal(n)
    }
}

} // verus!
