//! Numbers as text.

use vstd::prelude::*;
use vstd::string::StringExecFns;

verus! {

/// The character of a digit.
pub open spec fn digit(d: int) -> char {
    seq!['0', '1', '2', '3', '4', '5', '6', '7', '8', '9', 'a', 'b', 'c', 'd', 'e', 'f'][d]
}

/// A number in decimal, without leading zeros.
pub open spec fn decimal(n: nat) -> Seq<char>
    decreases n,
{
    if n < 10 {
        seq![digit(n as int)]
    } else {
        decimal(n / 10).push(digit((n % 10) as int))
    }
}

/// A number in lower-case hexadecimal, without leading zeros.
pub open spec fn hexadecimal(n: nat) -> Seq<char>
    decreases n,
{
    if n < 16 {
        seq![digit(n as int)]
    } else {
        hexadecimal(n / 16).push(digit((n % 16) as int))
    }
}

/// A 16-bit number in lower-case hexadecimal, with four digits.
pub open spec fn hexadecimal4(n: u16) -> Seq<char> {
    seq![
        digit(n as int / 0x1000),
        digit(n as int / 0x100 % 16),
        digit(n as int / 0x10 % 16),
        digit(n as int % 16),
    ]
}

/// Append a digit.
fn push_digit(out: &mut String, d: u8)
    requires
        d < 16,
    ensures
        final(out)@ == old(out)@.push(digit(d as int)),
{
    proof {
        reveal_strlit("0");
        reveal_strlit("1");
        reveal_strlit("2");
        reveal_strlit("3");
        reveal_strlit("4");
        reveal_strlit("5");
        reveal_strlit("6");
        reveal_strlit("7");
        reveal_strlit("8");
        reveal_strlit("9");
        reveal_strlit("a");
        reveal_strlit("b");
        reveal_strlit("c");
        reveal_strlit("d");
        reveal_strlit("e");
        reveal_strlit("f");
    }
    let text = match d {
        0 => "0",
        1 => "1",
        2 => "2",
        3 => "3",
        4 => "4",
        5 => "5",
        6 => "6",
        7 => "7",
        8 => "8",
        9 => "9",
        10 => "a",
        11 => "b",
        12 => "c",
        13 => "d",
        14 => "e",
        _ => "f",
    };
    out.append(text);
}

/// Append a number in decimal.
pub fn push_decimal(out: &mut String, n: u64)
    ensures
        final(out)@ == old(out)@ + decimal(n as nat),
    decreases n,
{
    if n >= 10 {
        push_decimal(out, n / 10);
    }
    push_digit(out, (n % 10) as u8);
}

/// Append a number in lower-case hexadecimal.
pub fn push_hexadecimal(out: &mut String, n: u64)
    ensures
        final(out)@ == old(out)@ + hexadecimal(n as nat),
    decreases n,
{
    if n >= 16 {
        push_hexadecimal(out, n / 16);
    }
    push_digit(out, (n % 16) as u8);
}

/// Append a 16-bit number in lower-case hexadecimal, with four digits.
pub fn push_hexadecimal4(out: &mut String, n: u16)
    ensures
        final(out)@ == old(out)@ + hexadecimal4(n),
{
    push_digit(out, (n / 0x1000) as u8);
    push_digit(out, (n / 0x100 % 16) as u8);
    push_digit(out, (n / 0x10 % 16) as u8);
    push_digit(out, (n % 16) as u8);
}

/// The number that digits stand for.
pub open spec fn number_of(text: Seq<char>, base: int) -> int
    decreases text.len(),
{
    if text.len() == 0 {
        0
    } else {
        let code = text.last() as int;
        number_of(text.drop_last(), base) * base + (if code <= '9' as int {
            code - '0' as int
        } else {
            code - 'a' as int + 10
        })
    }
}

/// A decimal number reads back as itself: it has decimal digits only, and no zero in front.
pub proof fn law_decimal_reads_back(n: nat)
    ensures
        number_of(decimal(n), 10) == n,
        decimal(n).len() > 0,
        forall|i: int|
            0 <= i < decimal(n).len() ==> '0' as int <= (#[trigger] decimal(n)[i]) as int
                <= '9' as int,
        decimal(n).len() > 1 ==> decimal(n)[0] != '0',
    decreases n,
{
    reveal_with_fuel(number_of, 2);
    if n >= 10 {
        law_decimal_reads_back(n / 10);
        assert(decimal(n).drop_last() =~= decimal(n / 10));
        assert(decimal(n)[0] == decimal(n / 10)[0]);
        if decimal(n / 10).len() == 1 {
            assert(number_of(decimal(n / 10), 10) == n / 10);
            assert(decimal(n / 10).drop_last().len() == 0);
        }
    } else {
        assert(decimal(n).drop_last().len() == 0);
    }
}

/// A hexadecimal number reads back as itself: it has lower-case digits only, and no zero in
/// front.
pub proof fn law_hexadecimal_reads_back(n: nat)
    ensures
        number_of(hexadecimal(n), 16) == n,
        hexadecimal(n).len() > 0,
        forall|i: int|
            0 <= i < hexadecimal(n).len() ==> {
                let code = (#[trigger] hexadecimal(n)[i]) as int;
                '0' as int <= code <= '9' as int || 'a' as int <= code <= 'f' as int
            },
        hexadecimal(n).len() > 1 ==> hexadecimal(n)[0] != '0',
    decreases n,
{
    reveal_with_fuel(number_of, 2);
    if n >= 16 {
        law_hexadecimal_reads_back(n / 16);
        assert(hexadecimal(n).drop_last() =~= hexadecimal(n / 16));
        assert(hexadecimal(n)[0] == hexadecimal(n / 16)[0]);
        if hexadecimal(n / 16).len() == 1 {
            assert(number_of(hexadecimal(n / 16), 16) == n / 16);
            assert(hexadecimal(n / 16).drop_last().len() == 0);
        }
    } else {
        assert(hexadecimal(n).drop_last().len() == 0);
    }
}

/// A digit behind others has the lowest weight.
proof fn lemma_digit_follows(text: Seq<char>, d: int)
    requires
        0 <= d < 16,
    ensures
        number_of(text.push(digit(d)), 16) == number_of(text, 16) * 16 + d,
        '0' as int <= digit(d) as int <= '9' as int || 'a' as int <= digit(d) as int <= 'f' as int,
{
    assert(text.push(digit(d)).drop_last() =~= text);
}

/// Four hexadecimal digits read back as the 16-bit number, zeros in front included.
pub proof fn law_hexadecimal4_reads_back(n: u16)
    ensures
        number_of(hexadecimal4(n), 16) == n,
        hexadecimal4(n).len() == 4,
        forall|i: int|
            0 <= i < 4 ==> {
                let code = (#[trigger] hexadecimal4(n)[i]) as int;
                '0' as int <= code <= '9' as int || 'a' as int <= code <= 'f' as int
            },
{
    let empty = Seq::<char>::empty();
    let d3 = n as int / 0x1000;
    let d2 = n as int / 0x100 % 16;
    let d1 = n as int / 0x10 % 16;
    let d0 = n as int % 16;
    lemma_digit_follows(empty, d3);
    lemma_digit_follows(empty.push(digit(d3)), d2);
    lemma_digit_follows(empty.push(digit(d3)).push(digit(d2)), d1);
    lemma_digit_follows(empty.push(digit(d3)).push(digit(d2)).push(digit(d1)), d0);
    assert(hexadecimal4(n) =~= empty.push(digit(d3)).push(digit(d2)).push(digit(d1)).push(
        digit(d0),
    ));
    assert(n == 16 * (16 * (16 * d3 + d2) + d1) + d0);
}

} // verus!
