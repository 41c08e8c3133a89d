//! Rendering of bytes as upper-case hexadecimal text.

use vstd::prelude::*;

verus! {

/// The sixteen hexadecimal digits, upper case.
pub open spec fn hex_digits() -> Seq<char> {
    seq!['0', '1', '2', '3', '4', '5', '6', '7', '8', '9', 'A', 'B', 'C', 'D', 'E', 'F']
}

/// The two digits of one byte, high nibble first.
pub open spec fn hex_pair(byte: u8) -> Seq<char> {
    seq![hex_digits()[byte as int / 16], hex_digits()[byte as int % 16]]
}

/// The bytes as two-digit upper-case hexadecimal numbers with one space
/// between neighbours.
pub open spec fn hex_dump(bytes: Seq<u8>) -> Seq<char>
    decreases bytes.len(),
{
    if bytes.len() == 0 {
        Seq::<char>::empty()
    } else if bytes.len() == 1 {
        hex_pair(bytes[0])
    } else {
        hex_dump(bytes.drop_last()) + seq![' '] + hex_pair(bytes.last())
    }
}

/// The text of one hexadecimal digit.
fn hex_digit_str(nibble: u8) -> (s: &'static str)
    requires
        nibble < 16,
    ensures
        s@ == seq![hex_digits()[nibble as int]],
{
    proof {
        reveal_strlit("0");
        reveal_strlit("1");
        reveal_strlit("2");
        reveal_strlit("3");
        reveal_strlit("4");
        reveal_strlit("5");
        reveal_strlit("6");
        reveal_strlit("7");
        reveal_strlit("8");
        reveal_strlit("9");
        reveal_strlit("A");
        reveal_strlit("B");
        reveal_strlit("C");
        reveal_strlit("D");
        reveal_strlit("E");
        reveal_strlit("F");
    }
    let s = match nibble {
        0 => "0",
        1 => "1",
        2 => "2",
        3 => "3",
        4 => "4",
        5 => "5",
        6 => "6",
        7 => "7",
        8 => "8",
        9 => "9",
        10 => "A",
        11 => "B",
        12 => "C",
        13 => "D",
        14 => "E",
        _ => "F",
    };
    assert(s@ =~= seq![hex_digits()[nibble as int]]);
    s
}

/// Renders `bytes` as two-digit upper-case hexadecimal numbers separated by
/// single spaces.
pub fn render_hex(bytes: &[u8]) -> (text: String)
    ensures
        text@ == hex_dump(bytes@),
{
    let mut text = String::new();
    let mut i: usize = 0;
    while i < bytes.len()
        invariant
            i <= bytes@.len(),
            text@ == hex_dump(bytes@.take(i as int)),
        decreases bytes@.len() - i,
    {
        let byte = bytes[i];
        let ghost before = text@;
        if i > 0 {
            proof {
                reveal_strlit(" ");
            }
            text.append(" ");
            assert(text@ =~= before + seq![' ']);
        }
        text.append(hex_digit_str(byte / 16));
        text.append(hex_digit_str(byte % 16));
        proof {
            let now = bytes@.take(i as int + 1);
            assert(now.drop_last() =~= bytes@.take(i as int));
            assert(now.last() == byte);
            if i > 0 {
                assert(text@ =~= before + seq![' '] + hex_pair(byte));
            } else {
                assert(text@ =~= hex_pair(byte));
            }
        }
        i += 1;
    }
    assert(bytes@.take(i as int) =~= bytes@);
    text
}

} // verus!
