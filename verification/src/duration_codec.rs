//! The duration codec: a total-seconds count shown as a `minutes:seconds`
//! string, and such a string read back to seconds. Pure and stateless.

use vstd::prelude::*;
use vstd::string::StrSliceExecFns;
use vstd::string::StringExecFns;

use crate::digits::all_digits;
use crate::digits::dec_digits;
use crate::digits::is_digit;
use crate::digits::lemma_dec_digits;
use crate::digits::parse_u64;
use crate::digits::seq_to_nat;
use crate::digits::u64_to_dec;

verus! {

/// The display form of a duration: minutes, a colon, then seconds, each in
/// plain decimal.
pub open spec fn spec_duration_str(m: nat, sec: nat) -> Seq<char> {
    dec_digits(m) + seq![':'] + dec_digits(sec)
}

/// A string splits as minutes and seconds at position `i`: a colon there,
/// digits on both sides, and a total that fits in a `u64`.
pub open spec fn split_ok(s: Seq<char>, i: int) -> bool {
    &&& 0 <= i < s.len()
    &&& s[i] == ':'
    &&& all_digits(s.take(i))
    &&& all_digits(s.skip(i + 1))
    &&& 60 * seq_to_nat(s.take(i)) + seq_to_nat(s.skip(i + 1)) <= u64::MAX
}

/// A well-formed duration string splits in exactly one way: digits hold no
/// colon, so the colon position is unique.
pub proof fn lemma_split_unique(s: Seq<char>, i1: int, i2: int)
    requires
        split_ok(s, i1),
        split_ok(s, i2),
    ensures
        i1 == i2,
{
    if i1 < i2 {
        assert(s.skip(i1 + 1)[i2 - i1 - 1] == s[i2]);
        assert(is_digit(s[i2]));
        assert(false);
    }
    if i2 < i1 {
        assert(s.skip(i2 + 1)[i1 - i2 - 1] == s[i1]);
        assert(is_digit(s[i1]));
        assert(false);
    }
}

/// Prints a total-seconds duration as `minutes:seconds`.
pub fn to_string(total_secs: u64) -> (r: String)
    ensures
        r@ == spec_duration_str((total_secs / 60) as nat, (total_secs % 60) as nat),
{
    let mins = total_secs / 60;
    let secs = total_secs % 60;
    let mut out = u64_to_dec(mins);
    out.append(":");
    let tail = u64_to_dec(secs);
    out.append(tail.as_str());
    proof {
        reveal_strlit(":");
        assert(":"@ =~= seq![':']);
        assert(out@ =~= spec_duration_str((total_secs / 60) as nat, (total_secs % 60) as nat));
    }
    out
}

/// Reads a `minutes:seconds` string back to total seconds.
pub fn from_string(s: &str) -> (r: u64)
    requires
        exists|i: int| split_ok(s@, i),
    ensures
        forall|i: int| split_ok(s@, i) ==> r as nat == 60 * seq_to_nat(s@.take(i)) + seq_to_nat(
            s@.skip(i + 1),
        ),
{
    let ghost cp = choose|i: int| split_ok(s@, i);
    let n = s.unicode_len();
    let mut i: usize = 0;
    loop
        invariant
            n == s@.len(),
            split_ok(s@, cp),
            0 <= i <= cp < n,
        ensures
            i == cp,
        decreases cp - i,
    {
        let c = s.get_char(i);
        if c == ':' {
            proof {
                if i < cp {
                    assert(s@.take(cp)[i as int] == s@[i as int]);
                    assert(is_digit(s@[i as int]));
                    assert(false);
                }
            }
            break;
        }
        proof {
            if i == cp {
                assert(s@[cp] == ':');
                assert(false);
            }
        }
        i = i + 1;
    }
    let mins_part = s.substring_char(0, i);
    let secs_part = s.substring_char(i + 1, n);
    proof {
        assert(mins_part@ =~= s@.take(cp));
        assert(secs_part@ =~= s@.skip(cp + 1));
        let a = seq_to_nat(s@.take(cp));
        let b = seq_to_nat(s@.skip(cp + 1));
        assert(60 * a + b <= u64::MAX);
        assert(a <= 60 * a);
        assert(b <= 60 * a + b);
    }
    let m_val = parse_u64(mins_part);
    let s_val = parse_u64(secs_part);
    let r = 60 * m_val + s_val;
    proof {
        assert forall|j: int| split_ok(s@, j) implies r as nat == 60 * seq_to_nat(s@.take(j))
            + seq_to_nat(s@.skip(j + 1)) by {
            lemma_split_unique(s@, cp, j);
        }
    }
    r
}

/// Round trip of the duration codec: every well-formed `minutes:seconds`
/// string (canonical decimal components, seconds below sixty, total within
/// `u64`) is accepted by `from_string`, reads back as `60 * m + sec`, and
/// printing that value with `to_string` gives the original string again.
pub proof fn lemma_duration_round_trip(s: Seq<char>, m: nat, sec: nat)
    requires
        s == spec_duration_str(m, sec),
        sec < 60,
        60 * m + sec <= u64::MAX,
    ensures
        split_ok(s, dec_digits(m).len() as int),
        seq_to_nat(s.take(dec_digits(m).len() as int)) == m,
        seq_to_nat(s.skip(dec_digits(m).len() + 1int)) == sec,
        spec_duration_str((60 * m + sec) / 60, (60 * m + sec) % 60) == s,
{
    lemma_dec_digits(m);
    lemma_dec_digits(sec);
    let cp = dec_digits(m).len() as int;
    assert(s.take(cp) =~= dec_digits(m));
    assert(s.skip(cp + 1) =~= dec_digits(sec));
    assert(s[cp] == ':');
    vstd::arithmetic::div_mod::lemma_fundamental_div_mod_converse(
        (60 * m + sec) as int,
        60,
        m as int,
        sec as int,
    );
    assert(spec_duration_str((60 * m + sec) / 60, (60 * m + sec) % 60) == s);
}

} // verus!
