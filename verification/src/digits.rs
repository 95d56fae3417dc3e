//! Decimal digit strings: printing a `u64` and parsing one back, with a
//! spec-level model (`dec_digits`, `seq_to_nat`) that the duration codec
//! and the search-endpoint paths build on.

use vstd::prelude::*;
use vstd::string::StrSliceExecFns;
use vstd::string::StringExecFns;

verus! {

/// The character that prints a single decimal digit.
pub open spec fn digit_char(d: nat) -> char {
    if d == 0 {
        '0'
    } else if d == 1 {
        '1'
    } else if d == 2 {
        '2'
    } else if d == 3 {
        '3'
    } else if d == 4 {
        '4'
    } else if d == 5 {
        '5'
    } else if d == 6 {
        '6'
    } else if d == 7 {
        '7'
    } else if d == 8 {
        '8'
    } else {
        '9'
    }
}

pub open spec fn is_digit(c: char) -> bool {
    c == '0' || c == '1' || c == '2' || c == '3' || c == '4' || c == '5' || c == '6' || c == '7'
        || c == '8' || c == '9'
}

/// The numeric value of a digit character.
pub open spec fn digit_val(c: char) -> nat {
    if c == '0' {
        0
    } else if c == '1' {
        1
    } else if c == '2' {
        2
    } else if c == '3' {
        3
    } else if c == '4' {
        4
    } else if c == '5' {
        5
    } else if c == '6' {
        6
    } else if c == '7' {
        7
    } else if c == '8' {
        8
    } else {
        9
    }
}

/// The decimal digits of `n`, most significant first, without leading zeros.
pub open spec fn dec_digits(n: nat) -> Seq<char>
    decreases n,
{
    if n < 10 {
        seq![digit_char(n)]
    } else {
        dec_digits(n / 10) + seq![digit_char(n % 10)]
    }
}

pub open spec fn all_digits(s: Seq<char>) -> bool {
    forall|i: int| 0 <= i < s.len() ==> is_digit(#[trigger] s[i])
}

/// The number that a digit sequence denotes.
pub open spec fn seq_to_nat(s: Seq<char>) -> nat
    decreases s.len(),
{
    if s.len() == 0 {
        0
    } else {
        seq_to_nat(s.drop_last()) * 10 + digit_val(s.last())
    }
}

/// `dec_digits` prints only digits, never prints nothing, and `seq_to_nat`
/// reads the printed digits back to the number they came from.
pub proof fn lemma_dec_digits(n: nat)
    ensures
        dec_digits(n).len() >= 1,
        all_digits(dec_digits(n)),
        seq_to_nat(dec_digits(n)) == n,
    decreases n,
{
    if n < 10 {
        let s = dec_digits(n);
        assert(s.drop_last() =~= Seq::<char>::empty());
        assert(seq_to_nat(Seq::<char>::empty()) == 0);
        assert(s.last() == digit_char(n));
        assert(seq_to_nat(s) == seq_to_nat(s.drop_last()) * 10 + digit_val(s.last()));
    } else {
        lemma_dec_digits(n / 10);
        let a = dec_digits(n / 10);
        let s = dec_digits(n);
        assert(s.drop_last() =~= a);
        assert(s.last() == digit_char(n % 10));
        assert(seq_to_nat(s) == seq_to_nat(a) * 10 + digit_val(digit_char(n % 10)));
        vstd::arithmetic::div_mod::lemma_fundamental_div_mod(n as int, 10);
        assert forall|i: int| 0 <= i < s.len() implies is_digit(#[trigger] s[i]) by {
            if i < a.len() {
                assert(s[i] == a[i]);
            } else {
                assert(s[i] == digit_char(n % 10));
            }
        }
    }
}

/// Digit sequences denoting the same number under `dec_digits` are the
/// same number: printing is injective.
pub proof fn lemma_dec_digits_injective(m1: nat, m2: nat)
    requires
        dec_digits(m1) == dec_digits(m2),
    ensures
        m1 == m2,
{
    lemma_dec_digits(m1);
    lemma_dec_digits(m2);
}

/// Reading a prefix of a digit sequence never exceeds reading all of it.
pub proof fn lemma_seq_to_nat_take_le(s: Seq<char>, i: int)
    requires
        0 <= i <= s.len(),
    ensures
        seq_to_nat(s.take(i)) <= seq_to_nat(s),
    decreases s.len() - i,
{
    if i == s.len() {
        assert(s.take(i) =~= s);
    } else {
        lemma_seq_to_nat_take_le(s, i + 1);
        let t1 = s.take(i + 1);
        assert(t1.drop_last() =~= s.take(i));
        assert(seq_to_nat(t1) == seq_to_nat(s.take(i)) * 10 + digit_val(t1.last()));
    }
}

/// The one-character string for a digit.
pub fn digit_str(d: u64) -> (r: &'static str)
    requires
        d < 10,
    ensures
        r@ == seq![digit_char(d as nat)],
{
    match d {
        0 => {
            proof {
                reveal_strlit("0");
                assert("0"@ =~= seq![digit_char(0nat)]);
            }
            "0"
        },
        1 => {
            proof {
                reveal_strlit("1");
                assert("1"@ =~= seq![digit_char(1nat)]);
            }
            "1"
        },
        2 => {
            proof {
                reveal_strlit("2");
                assert("2"@ =~= seq![digit_char(2nat)]);
            }
            "2"
        },
        3 => {
            proof {
                reveal_strlit("3");
                assert("3"@ =~= seq![digit_char(3nat)]);
            }
            "3"
        },
        4 => {
            proof {
                reveal_strlit("4");
                assert("4"@ =~= seq![digit_char(4nat)]);
            }
            "4"
        },
        5 => {
            proof {
                reveal_strlit("5");
                assert("5"@ =~= seq![digit_char(5nat)]);
            }
            "5"
        },
        6 => {
            proof {
                reveal_strlit("6");
                assert("6"@ =~= seq![digit_char(6nat)]);
            }
            "6"
        },
        7 => {
            proof {
                reveal_strlit("7");
                assert("7"@ =~= seq![digit_char(7nat)]);
            }
            "7"
        },
        8 => {
            proof {
                reveal_strlit("8");
                assert("8"@ =~= seq![digit_char(8nat)]);
            }
            "8"
        },
        _ => {
            proof {
                reveal_strlit("9");
                assert("9"@ =~= seq![digit_char(9nat)]);
            }
            "9"
        },
    }
}

/// Digit values collected least-significant first, read back as the
/// characters of the number from most-significant down.
pub open spec fn rev_digit_chars(ds: Seq<u64>) -> Seq<char> {
    Seq::new(ds.len(), |i: int| digit_char(ds[ds.len() - 1 - i] as nat))
}

/// Prints `n` in decimal.
pub fn u64_to_dec(n: u64) -> (r: String)
    ensures
        r@ == dec_digits(n as nat),
{
    let mut m: u64 = n;
    let mut ds: Vec<u64> = Vec::new();
    while m >= 10
        invariant
            dec_digits(n as nat) == dec_digits(m as nat) + rev_digit_chars(ds@),
            forall|j: int| 0 <= j < ds@.len() ==> #[trigger] ds@[j] < 10,
        decreases m,
    {
        let ghost prev = ds@;
        let d = m % 10;
        ds.push(d);
        proof {
            assert(ds@.drop_last() =~= prev);
            assert(rev_digit_chars(ds@) =~= seq![digit_char((m % 10) as nat)] + rev_digit_chars(
                prev,
            ));
            assert(dec_digits(m as nat) == dec_digits((m / 10) as nat) + seq![
                digit_char((m % 10) as nat),
            ]);
            assert(dec_digits((m / 10) as nat) + rev_digit_chars(ds@) =~= dec_digits(m as nat)
                + rev_digit_chars(prev));
            vstd::arithmetic::div_mod::lemma_div_decreases(m as int, 10);
        }
        m = m / 10;
    }
    let mut out = String::from_str(digit_str(m));
    proof {
        assert(dec_digits(m as nat) =~= seq![digit_char(m as nat)]);
        assert(out@ =~= seq![digit_char(m as nat)] + rev_digit_chars(ds@).take(
            ds@.len() - ds@.len(),
        ));
    }
    let mut i: usize = ds.len();
    while i > 0
        invariant
            i <= ds.len(),
            m < 10,
            dec_digits(n as nat) == dec_digits(m as nat) + rev_digit_chars(ds@),
            forall|j: int| 0 <= j < ds@.len() ==> #[trigger] ds@[j] < 10,
            out@ == seq![digit_char(m as nat)] + rev_digit_chars(ds@).take(ds@.len() - i),
        decreases i,
    {
        i = i - 1;
        let dstr = digit_str(ds[i]);
        out.append(dstr);
        proof {
            let rev = rev_digit_chars(ds@);
            assert(rev[ds@.len() - 1 - (i as int)] == digit_char(ds@[i as int] as nat));
            assert(rev.take(ds@.len() - i) =~= rev.take(ds@.len() - (i + 1)) + seq![
                digit_char(ds@[i as int] as nat),
            ]);
            assert(out@ =~= seq![digit_char(m as nat)] + rev.take(ds@.len() - i));
        }
    }
    proof {
        assert(rev_digit_chars(ds@).take(ds@.len() - 0) =~= rev_digit_chars(ds@));
        assert(out@ =~= dec_digits(n as nat));
    }
    out
}

/// The numeric value of one digit character.
pub fn digit_value(c: char) -> (r: u64)
    requires
        is_digit(c),
    ensures
        r as nat == digit_val(c),
        r < 10,
{
    match c {
        '0' => 0,
        '1' => 1,
        '2' => 2,
        '3' => 3,
        '4' => 4,
        '5' => 5,
        '6' => 6,
        '7' => 7,
        '8' => 8,
        '9' => 9,
        _ => unreached(),
    }
}

/// Parses a string of decimal digits.
pub fn parse_u64(s: &str) -> (r: u64)
    requires
        all_digits(s@),
        seq_to_nat(s@) <= u64::MAX,
    ensures
        r as nat == seq_to_nat(s@),
{
    let n = s.unicode_len();
    let mut acc: u64 = 0;
    let mut i: usize = 0;
    while i < n
        invariant
            i <= n,
            n == s@.len(),
            all_digits(s@),
            seq_to_nat(s@) <= u64::MAX,
            acc as nat == seq_to_nat(s@.take(i as int)),
        decreases n - i,
    {
        let c = s.get_char(i);
        let d = digit_value(c);
        proof {
            lemma_seq_to_nat_take_le(s@, i + 1);
            assert(s@.take(i + 1).drop_last() =~= s@.take(i as int));
            assert(s@.take(i + 1).last() == s@[i as int]);
            assert(seq_to_nat(s@.take(i + 1)) == seq_to_nat(s@.take(i as int)) * 10 + digit_val(
                s@[i as int],
            ));
        }
        acc = acc * 10 + d;
        i = i + 1;
    }
    proof {
        assert(s@.take(n as int) =~= s@);
    }
    acc
}

} // verus!
