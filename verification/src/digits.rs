//! Decimal rendering of unsigned numbers, used for payload sizes, status
//! codes, exit codes and the fixed-width parts of timestamps.

use vstd::prelude::*;
use vstd::string::StringExecFns;

verus! {

/// The character for a single decimal digit value.
pub open spec fn digit_char(d: nat) -> char {
    if d == 0 {
        '0'
    } else if d == 1 {
        '1'
    } else if d == 2 {
        '2'
    } else if d == 3 {
        '3'
    } else if d == 4 {
        '4'
    } else if d == 5 {
        '5'
    } else if d == 6 {
        '6'
    } else if d == 7 {
        '7'
    } else if d == 8 {
        '8'
    } else {
        '9'
    }
}

/// Plain decimal rendering of `n`: most significant digit first, no sign, no
/// separators, no leading zeros; zero itself renders as the single digit `0`.
pub open spec fn dec_digits(n: nat) -> Seq<char>
    decreases n,
{
    if n < 10 {
        seq![digit_char(n)]
    } else {
        dec_digits(n / 10) + seq![digit_char(n % 10)]
    }
}

/// Two-digit zero-padded rendering of `n % 100`.
pub open spec fn two_digits(n: nat) -> Seq<char> {
    seq![digit_char((n / 10) % 10), digit_char(n % 10)]
}

/// Four-digit zero-padded rendering of `n % 10000`.
pub open spec fn four_digits(n: nat) -> Seq<char> {
    seq![
        digit_char((n / 1000) % 10),
        digit_char((n / 100) % 10),
        digit_char((n / 10) % 10),
        digit_char(n % 10),
    ]
}

/// Whether `c` is a decimal digit character.
pub open spec fn is_dec_digit(c: char) -> bool {
    c == '0' || c == '1' || c == '2' || c == '3' || c == '4' || c == '5' || c == '6' || c == '7'
        || c == '8' || c == '9'
}

/// The string for a single decimal digit value.
fn digit_str(d: u8) -> (s: &'static str)
    requires
        d < 10,
    ensures
        s@ == seq![digit_char(d as nat)],
{
    proof {
        reveal_strlit("0");
        reveal_strlit("1");
        reveal_strlit("2");
        reveal_strlit("3");
        reveal_strlit("4");
        reveal_strlit("5");
        reveal_strlit("6");
        reveal_strlit("7");
        reveal_strlit("8");
        reveal_strlit("9");
        assert("0"@ =~= seq![digit_char(0)]);
        assert("1"@ =~= seq![digit_char(1)]);
        assert("2"@ =~= seq![digit_char(2)]);
        assert("3"@ =~= seq![digit_char(3)]);
        assert("4"@ =~= seq![digit_char(4)]);
        assert("5"@ =~= seq![digit_char(5)]);
        assert("6"@ =~= seq![digit_char(6)]);
        assert("7"@ =~= seq![digit_char(7)]);
        assert("8"@ =~= seq![digit_char(8)]);
        assert("9"@ =~= seq![digit_char(9)]);
    }
    match d {
        0 => "0",
        1 => "1",
        2 => "2",
        3 => "3",
        4 => "4",
        5 => "5",
        6 => "6",
        7 => "7",
        8 => "8",
        _ => "9",
    }
}

/// Renders `n` in plain decimal.
pub fn u64_to_dec_string(n: u64) -> (s: String)
    ensures
        s@ == dec_digits(n as nat),
    decreases n,
{
    if n < 10 {
        let mut s = String::new();
        s.append(digit_str(n as u8));
        proof {
            assert(s@ =~= dec_digits(n as nat));
        }
        s
    } else {
        let mut s = u64_to_dec_string(n / 10);
        s.append(digit_str((n % 10) as u8));
        proof {
            assert(s@ =~= dec_digits(n as nat));
        }
        s
    }
}

/// Appends the two-digit zero-padded rendering of `n`.
pub fn append_two_digits(s: &mut String, n: u8)
    requires
        n < 100,
    ensures
        final(s)@ == old(s)@ + two_digits(n as nat),
{
    s.append(digit_str(n / 10));
    s.append(digit_str(n % 10));
    proof {
        assert(s@ =~= old(s)@ + two_digits(n as nat));
    }
}

/// Appends the four-digit zero-padded rendering of `n`.
pub fn append_four_digits(s: &mut String, n: u16)
    requires
        n < 10000,
    ensures
        final(s)@ == old(s)@ + four_digits(n as nat),
{
    s.append(digit_str((n / 1000) as u8));
    s.append(digit_str(((n / 100) % 10) as u8));
    s.append(digit_str(((n / 10) % 10) as u8));
    s.append(digit_str((n % 10) as u8));
    proof {
        assert(s@ =~= old(s)@ + four_digits(n as nat));
    }
}

/// A rendered number is never empty.
pub proof fn lemma_dec_digits_len(n: nat)
    ensures
        dec_digits(n).len() >= 1,
    decreases n,
{
    if n >= 10 {
        lemma_dec_digits_len(n / 10);
    }
}

/// Every character of a rendered number is a decimal digit.
pub proof fn lemma_dec_digits_are_digits(n: nat)
    ensures
        forall|i: int| 0 <= i < dec_digits(n).len() ==> is_dec_digit(dec_digits(n)[i]),
    decreases n,
{
    if n >= 10 {
        lemma_dec_digits_are_digits(n / 10);
        assert forall|i: int| 0 <= i < dec_digits(n).len() implies is_dec_digit(
            dec_digits(n)[i],
        ) by {
            if i < dec_digits(n / 10).len() {
                assert(dec_digits(n)[i] == dec_digits(n / 10)[i]);
            } else {
                assert(dec_digits(n)[i] == digit_char(n % 10));
            }
        }
    }
}

/// Joining two newline-free character sequences stays newline-free.
pub proof fn lemma_add_newline_free(a: Seq<char>, b: Seq<char>)
    requires
        !a.contains('\n'),
        !b.contains('\n'),
    ensures
        !(a + b).contains('\n'),
{
    if (a + b).contains('\n') {
        let i = choose|i: int| 0 <= i < (a + b).len() && (a + b)[i] == '\n';
        if i < a.len() {
            assert(a[i] == '\n');
        } else {
            assert(b[i - a.len()] == '\n');
        }
    }
}

/// A rendered number holds no newline.
pub proof fn lemma_dec_digits_newline_free(n: nat)
    ensures
        !dec_digits(n).contains('\n'),
{
    lemma_dec_digits_are_digits(n);
    if dec_digits(n).contains('\n') {
        let i = choose|i: int| 0 <= i < dec_digits(n).len() && dec_digits(n)[i] == '\n';
        assert(is_dec_digit(dec_digits(n)[i]));
    }
}

/// A two-digit rendering holds no newline.
pub proof fn lemma_two_digits_newline_free(n: nat)
    ensures
        !two_digits(n).contains('\n'),
{
    if two_digits(n).contains('\n') {
        let i = choose|i: int| 0 <= i < two_digits(n).len() && two_digits(n)[i] == '\n';
    }
}

/// A four-digit rendering holds no newline.
pub proof fn lemma_four_digits_newline_free(n: nat)
    ensures
        !four_digits(n).contains('\n'),
{
    if four_digits(n).contains('\n') {
        let i = choose|i: int| 0 <= i < four_digits(n).len() && four_digits(n)[i] == '\n';
    }
}

/// A nonzero number renders with no leading zero.
pub proof fn lemma_dec_digits_no_leading_zero(n: nat)
    requires
        n > 0,
    ensures
        dec_digits(n).first() != '0',
    decreases n,
{
    if n >= 10 {
        lemma_dec_digits_len(n / 10);
        lemma_dec_digits_no_leading_zero(n / 10);
    }
}

} // verus!
