//! Key map of a four-by-four matrix keypad that is scanned column by column.

use vstd::prelude::*;

verus! {

/// What a scan reports when no key is held down.
pub const NO_KEY: char = 'e';

/// The keys by column, each column from its first row to its fourth.
pub open spec fn key_map() -> Seq<Seq<char>> {
    seq![
        seq!['7', '4', '1', 'O'],
        seq!['8', '5', '2', '0'],
        seq!['9', '6', '3', '='],
        seq!['/', '*', '-', '+'],
    ]
}

/// The key that a driven column reports for the levels read on the four row
/// lines: that of the last row that reads high, or none.
pub open spec fn key_in_column(col: int, r1: bool, r2: bool, r3: bool, r4: bool) -> Option<char> {
    if r4 {
        Some(key_map()[col][3])
    } else if r3 {
        Some(key_map()[col][2])
    } else if r2 {
        Some(key_map()[col][1])
    } else if r1 {
        Some(key_map()[col][0])
    } else {
        None
    }
}

/// The key at column `col` and row `row`, both counted from zero.
pub fn key_at(col: usize, row: usize) -> (key: char)
    requires
        col < 4,
        row < 4,
    ensures
        key == key_map()[col as int][row as int],
{
    let keys: [[char; 4]; 4] = [
        ['7', '4', '1', 'O'],
        ['8', '5', '2', '0'],
        ['9', '6', '3', '='],
        ['/', '*', '-', '+'],
    ];
    keys[col][row]
}

/// Decides which key the driven column `col` reports, given the levels read
/// on the four row lines while it is driven. Where several rows read high,
/// the last of them wins.
pub fn pressed_key(col: usize, r1: bool, r2: bool, r3: bool, r4: bool) -> (key: Option<char>)
    requires
        col < 4,
    ensures
        key == key_in_column(col as int, r1, r2, r3, r4),
{
    if r4 {
        Some(key_at(col, 3))
    } else if r3 {
        Some(key_at(col, 2))
    } else if r2 {
        Some(key_at(col, 1))
    } else if r1 {
        Some(key_at(col, 0))
    } else {
        None
    }
}

} // verus!
