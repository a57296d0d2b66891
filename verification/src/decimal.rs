//! Decimal rendering of small unsigned integers, used for advertisement
//! instance names, the legacy `port` metadata entry, and IPv4 address text.

use vstd::prelude::*;
use vstd::string::StringExecFns;

verus! {

/// The character for one decimal digit.
pub open spec fn digit_char(d: nat) -> char {
    if d == 0 {
        '0'
    } else if d == 1 {
        '1'
    } else if d == 2 {
        '2'
    } else if d == 3 {
        '3'
    } else if d == 4 {
        '4'
    } else if d == 5 {
        '5'
    } else if d == 6 {
        '6'
    } else if d == 7 {
        '7'
    } else if d == 8 {
        '8'
    } else {
        '9'
    }
}

/// The decimal text of `n`, most significant digit first, with no leading
/// zeros (a single `'0'` for zero itself).
pub open spec fn dec_seq(n: nat) -> Seq<char>
    decreases n,
{
    if n < 10 {
        seq![digit_char(n)]
    } else {
        dec_seq(n / 10) + seq![digit_char(n % 10)]
    }
}

fn digit_str(d: u16) -> (s: &'static str)
    requires
        d < 10,
    ensures
        s@ == seq![digit_char(d as nat)],
{
    proof {
        reveal_strlit("0");
        reveal_strlit("1");
        reveal_strlit("2");
        reveal_strlit("3");
        reveal_strlit("4");
        reveal_strlit("5");
        reveal_strlit("6");
        reveal_strlit("7");
        reveal_strlit("8");
        reveal_strlit("9");
    }
    match d {
        0 => "0",
        1 => "1",
        2 => "2",
        3 => "3",
        4 => "4",
        5 => "5",
        6 => "6",
        7 => "7",
        8 => "8",
        _ => "9",
    }
}

/// The decimal text of a number below ten is a single digit; longer
/// numbers render to at least two characters.
pub proof fn lemma_dec_seq_len(n: nat)
    ensures
        dec_seq(n).len() >= 1,
        n >= 10 ==> dec_seq(n).len() >= 2,
    decreases n,
{
    if n >= 10 {
        lemma_dec_seq_len(n / 10);
    }
}

/// Decimal rendering is injective: distinct numbers have distinct text.
pub proof fn lemma_dec_seq_injective(m: nat, n: nat)
    requires
        dec_seq(m) == dec_seq(n),
    ensures
        m == n,
    decreases m,
{
    lemma_dec_seq_len(m);
    lemma_dec_seq_len(n);
    if m < 10 && n < 10 {
        assert(dec_seq(m)[0] == digit_char(m));
        assert(dec_seq(n)[0] == digit_char(n));
    } else if m >= 10 && n >= 10 {
        let a = dec_seq(m / 10);
        let b = dec_seq(n / 10);
        assert(dec_seq(m).last() == digit_char(m % 10));
        assert(dec_seq(n).last() == digit_char(n % 10));
        assert(m % 10 == n % 10);
        assert(dec_seq(m).drop_last() =~= a);
        assert(dec_seq(n).drop_last() =~= b);
        lemma_dec_seq_injective(m / 10, n / 10);
    } else {
        assert(false);
    }
}

/// Renders `n` in decimal.
pub fn u16_to_dec(n: u16) -> (s: String)
    ensures
        s@ == dec_seq(n as nat),
    decreases n,
{
    if n < 10 {
        String::from_str(digit_str(n))
    } else {
        let mut s = u16_to_dec(n / 10);
        s.append(digit_str(n % 10));
        proof {
            assert(s@ =~= dec_seq((n / 10) as nat) + seq![digit_char((n % 10) as nat)]);
        }
        s
    }
}

} // verus!
