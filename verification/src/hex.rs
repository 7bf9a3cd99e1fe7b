//! Fixed-width lowercase hexadecimal text.

use vstd::prelude::*;
use vstd::string::StringExecFns;

verus! {

/// The lowercase hexadecimal digit of `n`, for `n` below sixteen.
pub open spec fn hex_digit(n: int) -> char {
    seq!['0', '1', '2', '3', '4', '5', '6', '7', '8', '9', 'a', 'b', 'c', 'd', 'e', 'f'][n]
}

/// The last `digits` hexadecimal digits of `value`, most significant first,
/// padded with zeros on the left.
pub open spec fn hex(value: nat, digits: nat) -> Seq<char>
    decreases digits,
{
    if digits == 0 {
        Seq::empty()
    } else {
        hex(value / 16, (digits - 1) as nat).push(hex_digit((value % 16) as int))
    }
}

/// `hex` always has the width that was asked for.
pub proof fn hex_has_width(value: nat, digits: nat)
    ensures
        hex(value, digits).len() == digits,
    decreases digits,
{
    if digits > 0 {
        hex_has_width(value / 16, (digits - 1) as nat);
    }
}

/// Sixteen to the power of `digits`: the number of values that `digits`
/// hexadecimal digits tell apart.
pub open spec fn sixteen_to(digits: nat) -> nat
    decreases digits,
{
    if digits == 0 {
        1
    } else {
        16 * sixteen_to((digits - 1) as nat)
    }
}

/// Values that `digits` digits can hold and that read alike are the same.
pub proof fn hex_tells_values_apart(a: nat, b: nat, digits: nat)
    requires
        a < sixteen_to(digits),
        b < sixteen_to(digits),
        hex(a, digits) == hex(b, digits),
    ensures
        a == b,
    decreases digits,
{
    if digits > 0 {
        let shorter = (digits - 1) as nat;
        let left = hex(a / 16, shorter);
        let right = hex(b / 16, shorter);
        assert(left.push(hex_digit((a % 16) as int)) == right.push(hex_digit((b % 16) as int)));
        hex_has_width(a / 16, shorter);
        hex_has_width(b / 16, shorter);
        assert(left == right) by {
            assert(left =~= left.push(hex_digit((a % 16) as int)).drop_last());
            assert(right =~= right.push(hex_digit((b % 16) as int)).drop_last());
        }
        assert(hex_digit((a % 16) as int) == hex_digit((b % 16) as int)) by {
            assert(left.push(hex_digit((a % 16) as int)).last() == hex_digit((a % 16) as int));
            assert(right.push(hex_digit((b % 16) as int)).last() == hex_digit((b % 16) as int));
        }
        assert(a % 16 == b % 16);
        hex_tells_values_apart(a / 16, b / 16, shorter);
    }
}

/// The one-character text of a hexadecimal digit.
fn digit_text(n: u8) -> (text: &'static str)
    requires
        n < 16,
    ensures
        text@ == seq![hex_digit(n as int)],
{
    proof {
        reveal_strlit("0");
        reveal_strlit("1");
        reveal_strlit("2");
        reveal_strlit("3");
        reveal_strlit("4");
        reveal_strlit("5");
        reveal_strlit("6");
        reveal_strlit("7");
        reveal_strlit("8");
        reveal_strlit("9");
        reveal_strlit("a");
        reveal_strlit("b");
        reveal_strlit("c");
        reveal_strlit("d");
        reveal_strlit("e");
        reveal_strlit("f");
    }
    let text = match n {
        0 => "0",
        1 => "1",
        2 => "2",
        3 => "3",
        4 => "4",
        5 => "5",
        6 => "6",
        7 => "7",
        8 => "8",
        9 => "9",
        10 => "a",
        11 => "b",
        12 => "c",
        13 => "d",
        14 => "e",
        _ => "f",
    };
    assert(text@ =~= seq![hex_digit(n as int)]);
    text
}

/// Appends the last `digits` hexadecimal digits of `value` to `out`.
pub fn push_hex(out: &mut String, value: u128, digits: usize)
    ensures
        final(out)@ == old(out)@ + hex(value as nat, digits as nat),
    decreases digits,
{
    if digits > 0 {
        push_hex(out, value / 16, digits - 1);
        let digit: u8 = (value % 16) as u8;
        out.append(digit_text(digit));
        assert(out@ =~= old(out)@ + hex(value as nat, digits as nat));
    } else {
        assert(out@ =~= old(out)@ + hex(value as nat, digits as nat));
    }
}

} // verus!
