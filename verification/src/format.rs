//! Numbers as the user interface shows them.

use crate::text::{decimal_digits, digit_char, digit_str, push_decimal};
use vstd::prelude::*;
use vstd::string::*;

verus! {

/// A run of digits with a comma before every group of three, counted from the
/// right.
pub open spec fn grouped(digits: Seq<char>) -> Seq<char>
    decreases digits.len(),
{
    if digits.len() <= 3 {
        digits
    } else {
        grouped(digits.take(digits.len() - 3)) + seq![','] + digits.skip(digits.len() - 3)
    }
}

/// The three digits of a number below one thousand, zeros included.
pub open spec fn three_digits(n: nat) -> Seq<char> {
    seq![digit_char((n / 100) as int), digit_char((n / 10 % 10) as int), digit_char((n % 10) as int)]
}

/// `n` in decimal, built group by group from the number itself.
pub open spec fn grouped_number(n: nat) -> Seq<char>
    decreases n,
{
    if n < 1000 {
        decimal_digits(n)
    } else {
        grouped_number(n / 1000) + seq![','] + three_digits(n % 1000)
    }
}

/// The groups held least significant first in `low`, written most significant
/// first, each behind a comma.
spec fn tail_groups(low: Seq<u16>) -> Seq<char>
    decreases low.len(),
{
    if low.len() == 0 {
        Seq::empty()
    } else {
        seq![','] + three_digits(low.last() as nat) + tail_groups(low.drop_last())
    }
}

/// The digits of a number of four or more digits are the digits of its
/// thousands followed by its last three digits.
proof fn lemma_digits_split(n: nat)
    requires
        n >= 1000,
    ensures
        decimal_digits(n) == decimal_digits(n / 1000) + three_digits(n % 1000),
{
    let a = n / 10;
    let b = n / 100;
    assert(a >= 100 && b >= 10);
    assert(a / 10 == b);
    assert(b / 10 == n / 1000);
    assert(decimal_digits(n) == decimal_digits(a).push(digit_char((n % 10) as int)));
    assert(decimal_digits(a) == decimal_digits(b).push(digit_char((a % 10) as int)));
    assert(decimal_digits(b) == decimal_digits(n / 1000).push(digit_char((b % 10) as int)));
    let m = n % 1000;
    assert(m / 100 == b % 10);
    assert(m / 10 % 10 == a % 10);
    assert(m % 10 == n % 10);
    assert(decimal_digits(n) =~= decimal_digits(n / 1000) + three_digits(m));
}

/// A number has at most three digits exactly if it is below one thousand.
proof fn lemma_digits_len(n: nat)
    ensures
        decimal_digits(n).len() >= 1,
        n < 10 ==> decimal_digits(n).len() == 1,
        10 <= n < 100 ==> decimal_digits(n).len() == 2,
        100 <= n < 1000 ==> decimal_digits(n).len() == 3,
        n >= 1000 ==> decimal_digits(n).len() > 3,
    decreases n,
{
    if n >= 10 {
        lemma_digits_len(n / 10);
    }
}

/// Grouping the number and grouping its digits come to the same text.
pub proof fn lemma_grouped_number(n: nat)
    ensures
        grouped_number(n) == grouped(decimal_digits(n)),
    decreases n,
{
    lemma_digits_len(n);
    if n >= 1000 {
        lemma_grouped_number(n / 1000);
        lemma_digits_split(n);
        let digits = decimal_digits(n);
        let head = decimal_digits(n / 1000);
        let tail = three_digits(n % 1000);
        assert(digits.take(digits.len() - 3) =~= head);
        assert(digits.skip(digits.len() - 3) =~= tail);
    }
}

/// Appends the three digits of a number below one thousand.
fn push_group(out: &mut String, group: u16)
    requires
        group < 1000,
    ensures
        final(out)@ == old(out)@ + three_digits(group as nat),
{
    out.append(digit_str((group / 100) as u8));
    out.append(digit_str((group / 10 % 10) as u8));
    out.append(digit_str((group % 10) as u8));
    assert(out@ =~= old(out)@ + three_digits(group as nat));
}

/// Writes a number in decimal with a comma between every three digits:
/// `1234567` becomes `1,234,567`.
pub fn format_number(n: u64) -> (text: String)
    ensures
        text@ == grouped(decimal_digits(n as nat)),
{
    let mut rest: u64 = n;
    let mut low: Vec<u16> = Vec::new();
    assert(grouped_number(rest as nat) + tail_groups(low@) == grouped_number(n as nat));
    while rest >= 1000
        invariant
            forall|j: int| 0 <= j < low.len() ==> low@[j] < 1000,
            grouped_number(n as nat) == grouped_number(rest as nat) + tail_groups(low@),
        decreases rest,
    {
        let group: u16 = (rest % 1000) as u16;
        proof {
            let pushed = low@.push(group);
            assert(pushed.drop_last() == low@);
            assert(tail_groups(pushed) == seq![','] + three_digits(group as nat) + tail_groups(
                low@,
            ));
            assert(grouped_number(rest as nat) == grouped_number((rest / 1000) as nat) + seq![',']
                + three_digits(group as nat));
            assert(grouped_number((rest / 1000) as nat) + seq![','] + three_digits(group as nat)
                + tail_groups(low@) =~= grouped_number((rest / 1000) as nat) + tail_groups(pushed));
        }
        low.push(group);
        rest = rest / 1000;
    }
    let mut text = String::new();
    push_decimal(&mut text, rest);
    assert(text@ =~= grouped_number(rest as nat));
    let mut k: usize = low.len();
    assert(low@.take(k as int) == low@);
    while k > 0
        invariant
            k <= low.len(),
            forall|j: int| 0 <= j < low.len() ==> low@[j] < 1000,
            text@ + tail_groups(low@.take(k as int)) == grouped_number(n as nat),
        decreases k,
    {
        k -= 1;
        let ghost before = text@;
        text.append(",");
        push_group(&mut text, low[k]);
        proof {
            reveal_strlit(",");
            assert(","@ =~= seq![',']);
            let t = low@.take(k + 1);
            assert(t.drop_last() == low@.take(k as int));
            assert(t.last() == low@[k as int]);
            assert(text@ + tail_groups(low@.take(k as int)) =~= before + tail_groups(t));
        }
    }
    proof {
        assert(low@.take(0) == Seq::<u16>::empty());
        assert(text@ + Seq::<char>::empty() == text@);
        lemma_grouped_number(n as nat);
    }
    text
}

} // verus!
