//! Text helpers: comparing string slices and writing numbers in decimal.

use vstd::prelude::*;
use vstd::string::*;
use vstd::utf8::*;

verus! {

/// Two string slices hold the same characters.
pub fn str_eq(a: &str, b: &str) -> (same: bool)
    ensures
        same == (a@ == b@),
{
    let x = a.as_bytes();
    let y = b.as_bytes();
    proof {
        // The encoding can be undone, so equal bytes come from equal characters.
        encode_utf8_decode_utf8(a@);
        encode_utf8_decode_utf8(b@);
    }
    if x.len() != y.len() {
        return false;
    }
    let mut i: usize = 0;
    while i < x.len()
        invariant
            i <= x.len(),
            x.len() == y.len(),
            x@ == a.spec_bytes(),
            y@ == b.spec_bytes(),
            forall|j: int| 0 <= j < i ==> x@[j] == y@[j],
        decreases x.len() - i,
    {
        if x[i] != y[i] {
            return false;
        }
        i += 1;
    }
    assert(x@ =~= y@);
    true
}

/// The character that stands for one decimal digit.
pub open spec fn digit_char(d: int) -> char {
    if d == 0 {
        '0'
    } else if d == 1 {
        '1'
    } else if d == 2 {
        '2'
    } else if d == 3 {
        '3'
    } else if d == 4 {
        '4'
    } else if d == 5 {
        '5'
    } else if d == 6 {
        '6'
    } else if d == 7 {
        '7'
    } else if d == 8 {
        '8'
    } else {
        '9'
    }
}

/// The decimal digits of `n`, most significant first, without leading zeros.
pub open spec fn decimal_digits(n: nat) -> Seq<char>
    decreases n,
{
    if n < 10 {
        seq![digit_char(n as int)]
    } else {
        decimal_digits(n / 10).push(digit_char((n % 10) as int))
    }
}

/// One decimal digit as a string slice.
pub(crate) fn digit_str(d: u8) -> (s: &'static str)
    requires
        d < 10,
    ensures
        s@ == seq![digit_char(d as int)],
{
    proof {
        reveal_strlit("0");
        reveal_strlit("1");
        reveal_strlit("2");
        reveal_strlit("3");
        reveal_strlit("4");
        reveal_strlit("5");
        reveal_strlit("6");
        reveal_strlit("7");
        reveal_strlit("8");
        reveal_strlit("9");
    }
    let s = match d {
        0 => "0",
        1 => "1",
        2 => "2",
        3 => "3",
        4 => "4",
        5 => "5",
        6 => "6",
        7 => "7",
        8 => "8",
        _ => "9",
    };
    assert(s@ =~= seq![digit_char(d as int)]);
    s
}

/// Appends the decimal digits of `n` to `out`.
pub fn push_decimal(out: &mut String, n: u64)
    ensures
        final(out)@ == old(out)@ + decimal_digits(n as nat),
{
    // Digits come out least significant first; they are written back to front.
    let mut rest: u64 = n;
    let mut low: Vec<u8> = Vec::new();
    while rest >= 10
        invariant
            forall|j: int| 0 <= j < low.len() ==> low@[j] < 10,
            decimal_digits(n as nat) == decimal_digits(rest as nat) + tail_digits(low@),
        decreases rest,
    {
        let d: u8 = (rest % 10) as u8;
        proof {
            assert(decimal_digits(rest as nat) == decimal_digits((rest / 10) as nat).push(
                digit_char(d as int),
            ));
            assert(tail_digits(low@.push(d)) == seq![digit_char(d as int)] + tail_digits(low@)) by {
                assert(low@.push(d).drop_last() == low@);
            }
            assert(decimal_digits((rest / 10) as nat).push(digit_char(d as int)) + tail_digits(low@)
                == decimal_digits((rest / 10) as nat) + (seq![digit_char(d as int)] + tail_digits(
                low@,
            )));
        }
        low.push(d);
        rest = rest / 10;
    }
    let ghost start = out@;
    out.append(digit_str(rest as u8));
    assert(decimal_digits(rest as nat) == seq![digit_char(rest as int)]);
    assert(low@.take(low.len() as int) == low@);
    let mut k: usize = low.len();
    while k > 0
        invariant
            k <= low.len(),
            forall|j: int| 0 <= j < low.len() ==> low@[j] < 10,
            out@ + tail_digits(low@.take(k as int)) == start + decimal_digits(rest as nat)
                + tail_digits(low@),
        decreases k,
    {
        k -= 1;
        let ghost before = out@;
        out.append(digit_str(low[k]));
        proof {
            let t = low@.take(k + 1);
            assert(t.drop_last() == low@.take(k as int));
            assert(t.last() == low@[k as int]);
            assert(tail_digits(t) == seq![digit_char(low@[k as int] as int)] + tail_digits(
                low@.take(k as int),
            ));
            assert(out@ + tail_digits(low@.take(k as int)) == before + tail_digits(t));
        }
    }
    proof {
        assert(low@.take(0) == Seq::<u8>::empty());
        assert(out@ + Seq::<char>::empty() == out@);
        assert(start + decimal_digits(rest as nat) + tail_digits(low@) == start + (decimal_digits(
            rest as nat,
        ) + tail_digits(low@)));
    }
}

/// The digits held least significant first in `low`, written most significant
/// first.
spec fn tail_digits(low: Seq<u8>) -> Seq<char>
    decreases low.len(),
{
    if low.len() == 0 {
        Seq::empty()
    } else {
        seq![digit_char(low.last() as int)] + tail_digits(low.drop_last())
    }
}

/// `n` written in decimal.
pub fn decimal(n: u64) -> (s: String)
    ensures
        s@ == decimal_digits(n as nat),
{
    let mut s = String::new();
    push_decimal(&mut s, n);
    assert(Seq::<char>::empty() + decimal_digits(n as nat) == decimal_digits(n as nat));
    s
}

} // verus!
