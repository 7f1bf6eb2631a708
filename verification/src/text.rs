//! Decimal numbers as text.

use vstd::prelude::*;

verus! {

/// The character of a decimal digit.
pub open spec fn digit(d: nat) -> char {
    if d == 0 {
        '0'
    } else if d == 1 {
        '1'
    } else if d == 2 {
        '2'
    } else if d == 3 {
        '3'
    } else if d == 4 {
        '4'
    } else if d == 5 {
        '5'
    } else if d == 6 {
        '6'
    } else if d == 7 {
        '7'
    } else if d == 8 {
        '8'
    } else {
        '9'
    }
}

/// A number in decimal, without leading zeros.
pub open spec fn decimal(n: nat) -> Seq<char>
    decreases n,
{
    if n < 10 {
        seq![digit(n)]
    } else {
        decimal(n / 10).push(digit(n % 10))
    }
}

/// A signed number in decimal.
pub open spec fn signed_decimal(n: int) -> Seq<char> {
    if n < 0 {
        seq!['-'] + decimal((-n) as nat)
    } else {
        decimal(n as nat)
    }
}

fn push_digit(out: &mut String, d: u64)
    requires
        d < 10,
    ensures
        final(out)@ == old(out)@.push(digit(d as nat)),
{
    proof {
        reveal_strlit("0");
        reveal_strlit("1");
        reveal_strlit("2");
        reveal_strlit("3");
        reveal_strlit("4");
        reveal_strlit("5");
        reveal_strlit("6");
        reveal_strlit("7");
        reveal_strlit("8");
        reveal_strlit("9");
    }
    let text: &str = if d == 0 {
        "0"
    } else if d == 1 {
        "1"
    } else if d == 2 {
        "2"
    } else if d == 3 {
        "3"
    } else if d == 4 {
        "4"
    } else if d == 5 {
        "5"
    } else if d == 6 {
        "6"
    } else if d == 7 {
        "7"
    } else if d == 8 {
        "8"
    } else {
        "9"
    };
    assert(text@ =~= seq![digit(d as nat)]);
    out.append(text);
    assert(out@ =~= old(out)@.push(digit(d as nat)));
}

/// Appends a number in decimal.
pub fn push_decimal(out: &mut String, n: u64)
    ensures
        final(out)@ == old(out)@ + decimal(n as nat),
    decreases n,
{
    if n >= 10 {
        push_decimal(out, n / 10);
    }
    push_digit(out, n % 10);
    assert(out@ =~= old(out)@ + decimal(n as nat));
}

/// Appends a signed number in decimal.
pub fn push_signed(out: &mut String, n: i32)
    ensures
        final(out)@ == old(out)@ + signed_decimal(n as int),
{
    if n < 0 {
        proof {
            reveal_strlit("-");
        }
        out.append("-");
        push_decimal(out, (-(n as i64)) as u64);
        assert("-"@ =~= seq!['-']);
        assert(out@ =~= old(out)@ + signed_decimal(n as int));
    } else {
        push_decimal(out, n as u64);
    }
}

/// The number that a sequence of decimal digits stands for.
pub open spec fn read(text: Seq<char>) -> int
    decreases text.len(),
{
    if text.len() == 0 {
        0
    } else {
        10 * read(text.drop_last()) + (text.last() as int - '0' as int)
    }
}

/// A number in decimal reads back as the number.
pub proof fn lemma_decimal_reads_back(n: nat)
    ensures
        read(decimal(n)) == n,
        decimal(n).len() >= 1,
        n < 10 ==> decimal(n).len() == 1,
        n > 0 ==> decimal(n)[0] != '0',
        forall|i: int| 0 <= i < decimal(n).len() ==> '0' <= #[trigger] decimal(n)[i] <= '9',
    decreases n,
{
    if n < 10 {
        assert(decimal(n).drop_last() =~= Seq::empty());
        assert(read(decimal(n).drop_last()) == 0);
    } else {
        lemma_decimal_reads_back(n / 10);
        assert(decimal(n).drop_last() =~= decimal(n / 10));
    }
}

/// A number is written after what was there, in digits that read back as the number,
/// without leading zeros; a negative one after a sign.
pub proof fn law_written_numbers_read_back(
    out: &mut String,
    n: u64,
    signed: &mut String,
    m: i32,
)
    requires
        call_ensures(push_decimal, (out, n), ()),
        call_ensures(push_signed, (signed, m), ()),
    ensures
        ({
            let digits = final(out)@.skip(old(out)@.len() as int);
            &&& final(out)@.take(old(out)@.len() as int) == old(out)@
            &&& read(digits) == n
            &&& n > 0 ==> digits[0] != '0'
            &&& n == 0 ==> digits.len() == 1
            &&& forall|i: int| 0 <= i < digits.len() ==> '0' <= #[trigger] digits[i] <= '9'
        }),
        ({
            let text = final(signed)@.skip(old(signed)@.len() as int);
            &&& final(signed)@.take(old(signed)@.len() as int) == old(signed)@
            &&& m >= 0 ==> read(text) == m
            &&& m < 0 ==> text[0] == '-' && read(text.skip(1)) == -m
        }),
{
    lemma_decimal_reads_back(n as nat);
    assert(final(out)@.skip(old(out)@.len() as int) =~= decimal(n as nat));
    assert(final(out)@.take(old(out)@.len() as int) =~= old(out)@);
    let text = final(signed)@.skip(old(signed)@.len() as int);
    assert(text =~= signed_decimal(m as int));
    assert(final(signed)@.take(old(signed)@.len() as int) =~= old(signed)@);
    if m < 0 {
        lemma_decimal_reads_back((-m) as nat);
        assert(text.skip(1) =~= decimal((-m) as nat));
    } else {
        lemma_decimal_reads_back(m as nat);
    }
}

} // verus!
