//! Lower-case hexadecimal text.

use vstd::prelude::*;
use vstd::string::*;

verus! {

/// The lower-case hexadecimal digit for a value below sixteen.
pub open spec fn hex_digit(n: int) -> char {
    if n == 0 {
        '0'
    } else if n == 1 {
        '1'
    } else if n == 2 {
        '2'
    } else if n == 3 {
        '3'
    } else if n == 4 {
        '4'
    } else if n == 5 {
        '5'
    } else if n == 6 {
        '6'
    } else if n == 7 {
        '7'
    } else if n == 8 {
        '8'
    } else if n == 9 {
        '9'
    } else if n == 10 {
        'a'
    } else if n == 11 {
        'b'
    } else if n == 12 {
        'c'
    } else if n == 13 {
        'd'
    } else if n == 14 {
        'e'
    } else {
        'f'
    }
}

/// The digit at position `i` of the hexadecimal text of `bytes`: the high
/// half of byte `i / 2` at even positions, its low half at odd ones.
pub open spec fn hex_char_at(bytes: Seq<u8>, i: int) -> char {
    if i % 2 == 0 {
        hex_digit(bytes[i / 2] as int / 16)
    } else {
        hex_digit(bytes[i / 2] as int % 16)
    }
}

/// The hexadecimal text of `bytes`: two lower-case digits per byte, high half
/// first, in the order of the bytes.
pub open spec fn hex_string(bytes: Seq<u8>) -> Seq<char> {
    Seq::new(2 * bytes.len(), |i: int| hex_char_at(bytes, i))
}

/// Whether `c` is one of the sixteen lower-case hexadecimal digits.
pub open spec fn is_hex_digit(c: char) -> bool {
    exists|n: int| 0 <= n < 16 && c == hex_digit(n)
}

/// Every character of a hexadecimal text is a hexadecimal digit.
pub proof fn lemma_hex_string_digits(bytes: Seq<u8>)
    ensures
        forall|i: int|
            0 <= i < hex_string(bytes).len() ==> is_hex_digit(#[trigger] hex_string(bytes)[i]),
{
    assert forall|i: int| 0 <= i < hex_string(bytes).len() implies is_hex_digit(
        #[trigger] hex_string(bytes)[i],
    ) by {
        let b = bytes[i / 2] as int;
        if i % 2 == 0 {
            assert(0 <= b / 16 < 16);
            assert(hex_string(bytes)[i] == hex_digit(b / 16));
        } else {
            assert(0 <= b % 16 < 16);
            assert(hex_string(bytes)[i] == hex_digit(b % 16));
        }
    }
}

/// The one-character text of the hexadecimal digit for `n`.
pub(crate) fn hex_digit_str(n: u8) -> (digit: &'static str)
    requires
        n < 16,
    ensures
        digit@ == seq![hex_digit(n as int)],
{
    proof {
        reveal_strlit("0");
        reveal_strlit("1");
        reveal_strlit("2");
        reveal_strlit("3");
        reveal_strlit("4");
        reveal_strlit("5");
        reveal_strlit("6");
        reveal_strlit("7");
        reveal_strlit("8");
        reveal_strlit("9");
        reveal_strlit("a");
        reveal_strlit("b");
        reveal_strlit("c");
        reveal_strlit("d");
        reveal_strlit("e");
        reveal_strlit("f");
    }
    let digit = match n {
        0 => "0",
        1 => "1",
        2 => "2",
        3 => "3",
        4 => "4",
        5 => "5",
        6 => "6",
        7 => "7",
        8 => "8",
        9 => "9",
        10 => "a",
        11 => "b",
        12 => "c",
        13 => "d",
        14 => "e",
        _ => "f",
    };
    assert(digit@ =~= seq![hex_digit(n as int)]);
    digit
}

/// Returns the hexadecimal text of `b`: two lower-case digits for each
/// byte.
pub fn bytes_to_hex_str(b: &[u8]) -> (text: String)
    ensures
        text@ == hex_string(b@),
        text@.len() == 2 * b@.len(),
        forall|i: int| 0 <= i < text@.len() ==> is_hex_digit(#[trigger] text@[i]),
{
    let mut text = String::new();
    let mut i: usize = 0;
    while i < b.len()
        invariant
            i <= b@.len(),
            text@ == hex_string(b@.take(i as int)),
        decreases b@.len() - i,
    {
        let byte = b[i];
        text.append(hex_digit_str(byte / 16));
        text.append(hex_digit_str(byte % 16));
        proof {
            let done = b@.take(i as int);
            let next = b@.take(i as int + 1);
            assert(next[i as int] == byte);
            assert(text@ =~= hex_string(next)) by {
                assert forall|k: int| 0 <= k < 2 * i implies hex_string(done)[k] == hex_string(
                    next,
                )[k] by {
                    assert(done[k / 2] == next[k / 2]);
                }
            }
        }
        i += 1;
    }
    assert(b@.take(i as int) =~= b@);
    proof {
        lemma_hex_string_digits(b@);
    }
    text
}

} // verus!
