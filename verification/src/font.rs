//! The renderer's 5x7 bitmap font.

use vstd::prelude::*;

verus! {

/// The rows of the glyph drawn for `ch`, top row first; bit `4 - col` of a row
/// is set when the cell in column `col` (counted from the left) is filled.
/// Characters without a glyph of their own are drawn as a hollow box.
pub open spec fn glyph(ch: char) -> [u8; 7] {
    match ch {
        '0' => [0b01110, 0b10001, 0b10011, 0b10101, 0b11001, 0b10001, 0b01110],
        '1' => [0b00100, 0b01100, 0b00100, 0b00100, 0b00100, 0b00100, 0b01110],
        '2' => [0b01110, 0b10001, 0b00001, 0b00010, 0b00100, 0b01000, 0b11111],
        '3' => [0b11110, 0b00001, 0b00001, 0b01110, 0b00001, 0b00001, 0b11110],
        '4' => [0b00010, 0b00110, 0b01010, 0b10010, 0b11111, 0b00010, 0b00010],
        '5' => [0b11111, 0b10000, 0b11110, 0b00001, 0b00001, 0b10001, 0b01110],
        '6' => [0b00110, 0b01000, 0b10000, 0b11110, 0b10001, 0b10001, 0b01110],
        '7' => [0b11111, 0b00001, 0b00010, 0b00100, 0b01000, 0b01000, 0b01000],
        '8' => [0b01110, 0b10001, 0b10001, 0b01110, 0b10001, 0b10001, 0b01110],
        '9' => [0b01110, 0b10001, 0b10001, 0b01111, 0b00001, 0b00010, 0b01100],
        '.' => [0b00000, 0b00000, 0b00000, 0b00000, 0b00000, 0b01100, 0b01100],
        '-' => [0b00000, 0b00000, 0b00000, 0b11111, 0b00000, 0b00000, 0b00000],
        '+' => [0b00000, 0b00100, 0b00100, 0b11111, 0b00100, 0b00100, 0b00000],
        '\u{b0}' => [0b01100, 0b10010, 0b10010, 0b01100, 0b00000, 0b00000, 0b00000],
        '\u{3bb}' | 'l' => [0b10000, 0b01000, 0b00100, 0b00100, 0b01010, 0b01010, 0b10001],
        'n' | 'N' => [0b10001, 0b11001, 0b10101, 0b10101, 0b10011, 0b10001, 0b10001],
        'k' | 'K' => [0b10001, 0b10010, 0b10100, 0b11000, 0b10100, 0b10010, 0b10001],
        'T' | 't' => [0b11111, 0b00100, 0b00100, 0b00100, 0b00100, 0b00100, 0b00100],
        '%' => [0b11001, 0b11010, 0b00010, 0b00100, 0b01000, 0b01011, 0b10011],
        '(' => [0b00010, 0b00100, 0b01000, 0b01000, 0b01000, 0b00100, 0b00010],
        ')' => [0b01000, 0b00100, 0b00010, 0b00010, 0b00010, 0b00100, 0b01000],
        ':' => [0b00000, 0b01100, 0b01100, 0b00000, 0b01100, 0b01100, 0b00000],
        'A' | 'a' => [0b01110, 0b10001, 0b10001, 0b11111, 0b10001, 0b10001, 0b10001],
        'B' | 'b' => [0b11110, 0b10001, 0b10001, 0b11110, 0b10001, 0b10001, 0b11110],
        'C' | 'c' => [0b01110, 0b10001, 0b10000, 0b10000, 0b10000, 0b10001, 0b01110],
        'D' | 'd' => [0b11110, 0b10001, 0b10001, 0b10001, 0b10001, 0b10001, 0b11110],
        'E' | 'e' => [0b11111, 0b10000, 0b10000, 0b11110, 0b10000, 0b10000, 0b11111],
        'F' | 'f' => [0b11111, 0b10000, 0b10000, 0b11110, 0b10000, 0b10000, 0b10000],
        'G' | 'g' => [0b01110, 0b10001, 0b10000, 0b10011, 0b10001, 0b10001, 0b01110],
        'H' | 'h' => [0b10001, 0b10001, 0b10001, 0b11111, 0b10001, 0b10001, 0b10001],
        'I' | 'i' => [0b01110, 0b00100, 0b00100, 0b00100, 0b00100, 0b00100, 0b01110],
        'L' => [0b10000, 0b10000, 0b10000, 0b10000, 0b10000, 0b10000, 0b11111],
        'M' | 'm' => [0b10001, 0b11011, 0b10101, 0b10001, 0b10001, 0b10001, 0b10001],
        'O' | 'o' => [0b01110, 0b10001, 0b10001, 0b10001, 0b10001, 0b10001, 0b01110],
        'P' | 'p' => [0b11110, 0b10001, 0b10001, 0b11110, 0b10000, 0b10000, 0b10000],
        'R' | 'r' => [0b11110, 0b10001, 0b10001, 0b11110, 0b10100, 0b10010, 0b10001],
        'S' | 's' => [0b01110, 0b10001, 0b10000, 0b01110, 0b00001, 0b10001, 0b01110],
        'U' | 'u' => [0b10001, 0b10001, 0b10001, 0b10001, 0b10001, 0b10001, 0b01110],
        'V' | 'v' => [0b10001, 0b10001, 0b10001, 0b10001, 0b10001, 0b01010, 0b00100],
        'W' | 'w' => [0b10001, 0b10001, 0b10001, 0b10101, 0b10101, 0b11011, 0b10001],
        'X' | 'x' => [0b10001, 0b10001, 0b01010, 0b00100, 0b01010, 0b10001, 0b10001],
        ' ' => [0b00000, 0b00000, 0b00000, 0b00000, 0b00000, 0b00000, 0b00000],
        _ => [0b11111, 0b10001, 0b10001, 0b10001, 0b10001, 0b10001, 0b11111],
    }
}

/// The glyph rows for `ch`.
pub fn glyph_rows(ch: char) -> (rows: [u8; 7])
    ensures
        rows == glyph(ch),
{
    match ch {
        '0' => [0b01110, 0b10001, 0b10011, 0b10101, 0b11001, 0b10001, 0b01110],
        '1' => [0b00100, 0b01100, 0b00100, 0b00100, 0b00100, 0b00100, 0b01110],
        '2' => [0b01110, 0b10001, 0b00001, 0b00010, 0b00100, 0b01000, 0b11111],
        '3' => [0b11110, 0b00001, 0b00001, 0b01110, 0b00001, 0b00001, 0b11110],
        '4' => [0b00010, 0b00110, 0b01010, 0b10010, 0b11111, 0b00010, 0b00010],
        '5' => [0b11111, 0b10000, 0b11110, 0b00001, 0b00001, 0b10001, 0b01110],
        '6' => [0b00110, 0b01000, 0b10000, 0b11110, 0b10001, 0b10001, 0b01110],
        '7' => [0b11111, 0b00001, 0b00010, 0b00100, 0b01000, 0b01000, 0b01000],
        '8' => [0b01110, 0b10001, 0b10001, 0b01110, 0b10001, 0b10001, 0b01110],
        '9' => [0b01110, 0b10001, 0b10001, 0b01111, 0b00001, 0b00010, 0b01100],
        '.' => [0b00000, 0b00000, 0b00000, 0b00000, 0b00000, 0b01100, 0b01100],
        '-' => [0b00000, 0b00000, 0b00000, 0b11111, 0b00000, 0b00000, 0b00000],
        '+' => [0b00000, 0b00100, 0b00100, 0b11111, 0b00100, 0b00100, 0b00000],
        '\u{b0}' => [0b01100, 0b10010, 0b10010, 0b01100, 0b00000, 0b00000, 0b00000],
        '\u{3bb}' | 'l' => [0b10000, 0b01000, 0b00100, 0b00100, 0b01010, 0b01010, 0b10001],
        'n' | 'N' => [0b10001, 0b11001, 0b10101, 0b10101, 0b10011, 0b10001, 0b10001],
        'k' | 'K' => [0b10001, 0b10010, 0b10100, 0b11000, 0b10100, 0b10010, 0b10001],
        'T' | 't' => [0b11111, 0b00100, 0b00100, 0b00100, 0b00100, 0b00100, 0b00100],
        '%' => [0b11001, 0b11010, 0b00010, 0b00100, 0b01000, 0b01011, 0b10011],
        '(' => [0b00010, 0b00100, 0b01000, 0b01000, 0b01000, 0b00100, 0b00010],
        ')' => [0b01000, 0b00100, 0b00010, 0b00010, 0b00010, 0b00100, 0b01000],
        ':' => [0b00000, 0b01100, 0b01100, 0b00000, 0b01100, 0b01100, 0b00000],
        'A' | 'a' => [0b01110, 0b10001, 0b10001, 0b11111, 0b10001, 0b10001, 0b10001],
        'B' | 'b' => [0b11110, 0b10001, 0b10001, 0b11110, 0b10001, 0b10001, 0b11110],
        'C' | 'c' => [0b01110, 0b10001, 0b10000, 0b10000, 0b10000, 0b10001, 0b01110],
        'D' | 'd' => [0b11110, 0b10001, 0b10001, 0b10001, 0b10001, 0b10001, 0b11110],
        'E' | 'e' => [0b11111, 0b10000, 0b10000, 0b11110, 0b10000, 0b10000, 0b11111],
        'F' | 'f' => [0b11111, 0b10000, 0b10000, 0b11110, 0b10000, 0b10000, 0b10000],
        'G' | 'g' => [0b01110, 0b10001, 0b10000, 0b10011, 0b10001, 0b10001, 0b01110],
        'H' | 'h' => [0b10001, 0b10001, 0b10001, 0b11111, 0b10001, 0b10001, 0b10001],
        'I' | 'i' => [0b01110, 0b00100, 0b00100, 0b00100, 0b00100, 0b00100, 0b01110],
        'L' => [0b10000, 0b10000, 0b10000, 0b10000, 0b10000, 0b10000, 0b11111],
        'M' | 'm' => [0b10001, 0b11011, 0b10101, 0b10001, 0b10001, 0b10001, 0b10001],
        'O' | 'o' => [0b01110, 0b10001, 0b10001, 0b10001, 0b10001, 0b10001, 0b01110],
        'P' | 'p' => [0b11110, 0b10001, 0b10001, 0b11110, 0b10000, 0b10000, 0b10000],
        'R' | 'r' => [0b11110, 0b10001, 0b10001, 0b11110, 0b10100, 0b10010, 0b10001],
        'S' | 's' => [0b01110, 0b10001, 0b10000, 0b01110, 0b00001, 0b10001, 0b01110],
        'U' | 'u' => [0b10001, 0b10001, 0b10001, 0b10001, 0b10001, 0b10001, 0b01110],
        'V' | 'v' => [0b10001, 0b10001, 0b10001, 0b10001, 0b10001, 0b01010, 0b00100],
        'W' | 'w' => [0b10001, 0b10001, 0b10001, 0b10101, 0b10101, 0b11011, 0b10001],
        'X' | 'x' => [0b10001, 0b10001, 0b01010, 0b00100, 0b01010, 0b10001, 0b10001],
        ' ' => [0b00000, 0b00000, 0b00000, 0b00000, 0b00000, 0b00000, 0b00000],
        _ => [0b11111, 0b10001, 0b10001, 0b10001, 0b10001, 0b10001, 0b11111],
    }
}

/// Whether the cell in row `row`, column `col` of `rows` is filled.
pub open spec fn glyph_bit(rows: [u8; 7], row: int, col: int) -> bool {
    (rows[row] >> ((4 - col) as u8)) & 1u8 == 1u8
}

/// The filled cells `(row, col)` among the first `k` cells of the 7x5 grid,
/// taken row by row, each row from left to right.
pub open spec fn filled_cells(rows: [u8; 7], k: nat) -> Seq<(u8, u8)>
    decreases k,
{
    if k == 0 {
        seq![]
    } else {
        let prev = filled_cells(rows, (k - 1) as nat);
        let row = (k - 1) / 5;
        let col = (k - 1) % 5;
        if glyph_bit(rows, row, col) {
            prev.push((row as u8, col as u8))
        } else {
            prev
        }
    }
}

/// The filled cells of the glyph for `ch`, row by row from the top, each row
/// from left to right; the renderer paints one small square for each.
pub fn glyph_cells(ch: char) -> (cells: Vec<(u8, u8)>)
    ensures
        cells@ == filled_cells(glyph(ch), 35),
{
    let rows = glyph_rows(ch);
    let mut cells: Vec<(u8, u8)> = Vec::new();
    let mut row: u8 = 0;
    while row < 7
        invariant
            row <= 7,
            rows == glyph(ch),
            cells@ == filled_cells(rows, (5 * row) as nat),
        decreases 7 - row,
    {
        let bits = rows[row as usize];
        let mut col: u8 = 0;
        while col < 5
            invariant
                row < 7,
                col <= 5,
                rows == glyph(ch),
                bits == rows[row as int],
                cells@ == filled_cells(rows, (5 * row + col) as nat),
            decreases 5 - col,
        {
            let k: u8 = 5 * row + col;
            assert(k / 5 == row && k % 5 == col);
            if (bits >> (4 - col)) & 1 == 1 {
                cells.push((row, col));
            }
            col = col + 1;
        }
        row = row + 1;
    }
    cells
}

proof fn lemma_filled_cells_upto(rows: [u8; 7], k: nat)
    requires
        k <= 35,
    ensures
        ({
            let cells = filled_cells(rows, k);
            &&& forall|i: int|
                0 <= i < cells.len() ==> {
                    &&& (#[trigger] cells[i]).0 < 7
                    &&& cells[i].1 < 5
                    &&& 5 * cells[i].0 + cells[i].1 < k
                    &&& glyph_bit(rows, cells[i].0 as int, cells[i].1 as int)
                }
            &&& forall|row: int, col: int|
                0 <= row < 7 && 0 <= col < 5 && 5 * row + col < k && glyph_bit(rows, row, col)
                    ==> #[trigger] cells.contains((row as u8, col as u8))
            &&& forall|i: int, j: int|
                0 <= i < j < cells.len() ==> 5 * (#[trigger] cells[i]).0 + cells[i].1 < 5
                    * (#[trigger] cells[j]).0 + cells[j].1
        }),
    decreases k,
{
    if k > 0 {
        let km = (k - 1) as nat;
        lemma_filled_cells_upto(rows, km);
        let prev = filled_cells(rows, km);
        let cells = filled_cells(rows, k);
        let row: int = km as int / 5;
        let col: int = km as int % 5;
        assert(5 * row + col == km);
        if glyph_bit(rows, row, col) {
            assert(cells == prev.push((row as u8, col as u8)));
            assert(cells[cells.len() - 1] == (row as u8, col as u8));
            assert forall|r: int, c: int|
                0 <= r < 7 && 0 <= c < 5 && 5 * r + c < k && glyph_bit(rows, r, c) implies #[trigger] cells.contains(
                (r as u8, c as u8),
            ) by {
                if 5 * r + c < km {
                    assert(prev.contains((r as u8, c as u8)));
                    let t = choose|t: int| 0 <= t < prev.len() && prev[t] == (r as u8, c as u8);
                    assert(cells[t] == (r as u8, c as u8));
                } else {
                    assert(r == row && c == col);
                    assert(cells[cells.len() - 1] == (r as u8, c as u8));
                }
            }
        } else {
            assert forall|r: int, c: int|
                0 <= r < 7 && 0 <= c < 5 && 5 * r + c < k && glyph_bit(rows, r, c) implies #[trigger] cells.contains(
                (r as u8, c as u8),
            ) by {
                if 5 * r + c == km {
                    assert(r == row && c == col);
                }
            }
        }
    }
}

/// The listed cells of a glyph are exactly its filled cells, each inside the
/// 7x5 grid, listed once, in row-major order.
pub proof fn lemma_glyph_cells(ch: char)
    ensures
        ({
            let cells = filled_cells(glyph(ch), 35);
            &&& forall|i: int|
                0 <= i < cells.len() ==> {
                    &&& (#[trigger] cells[i]).0 < 7
                    &&& cells[i].1 < 5
                    &&& glyph_bit(glyph(ch), cells[i].0 as int, cells[i].1 as int)
                }
            &&& forall|row: int, col: int|
                0 <= row < 7 && 0 <= col < 5 && glyph_bit(glyph(ch), row, col)
                    ==> #[trigger] cells.contains((row as u8, col as u8))
            &&& forall|i: int, j: int|
                0 <= i < j < cells.len() ==> 5 * (#[trigger] cells[i]).0 + cells[i].1 < 5
                    * (#[trigger] cells[j]).0 + cells[j].1
        }),
{
    lemma_filled_cells_upto(glyph(ch), 35);
}


/// The font table: the rows of every character the font draws, and the hollow
/// box for every other character.
pub proof fn lemma_font_table(ch: char)
    ensures
        glyph('0') == [0b01110u8, 0b10001, 0b10011, 0b10101, 0b11001, 0b10001, 0b01110],
        glyph('1') == [0b00100u8, 0b01100, 0b00100, 0b00100, 0b00100, 0b00100, 0b01110],
        glyph('2') == [0b01110u8, 0b10001, 0b00001, 0b00010, 0b00100, 0b01000, 0b11111],
        glyph('3') == [0b11110u8, 0b00001, 0b00001, 0b01110, 0b00001, 0b00001, 0b11110],
        glyph('4') == [0b00010u8, 0b00110, 0b01010, 0b10010, 0b11111, 0b00010, 0b00010],
        glyph('5') == [0b11111u8, 0b10000, 0b11110, 0b00001, 0b00001, 0b10001, 0b01110],
        glyph('6') == [0b00110u8, 0b01000, 0b10000, 0b11110, 0b10001, 0b10001, 0b01110],
        glyph('7') == [0b11111u8, 0b00001, 0b00010, 0b00100, 0b01000, 0b01000, 0b01000],
        glyph('8') == [0b01110u8, 0b10001, 0b10001, 0b01110, 0b10001, 0b10001, 0b01110],
        glyph('9') == [0b01110u8, 0b10001, 0b10001, 0b01111, 0b00001, 0b00010, 0b01100],
        glyph('.') == [0b00000u8, 0b00000, 0b00000, 0b00000, 0b00000, 0b01100, 0b01100],
        glyph('-') == [0b00000u8, 0b00000, 0b00000, 0b11111, 0b00000, 0b00000, 0b00000],
        glyph('+') == [0b00000u8, 0b00100, 0b00100, 0b11111, 0b00100, 0b00100, 0b00000],
        glyph('\u{b0}') == [0b01100u8, 0b10010, 0b10010, 0b01100, 0b00000, 0b00000, 0b00000],
        glyph('\u{3bb}') == [0b10000u8, 0b01000, 0b00100, 0b00100, 0b01010, 0b01010, 0b10001],
        glyph('l') == [0b10000u8, 0b01000, 0b00100, 0b00100, 0b01010, 0b01010, 0b10001],
        glyph('n') == [0b10001u8, 0b11001, 0b10101, 0b10101, 0b10011, 0b10001, 0b10001],
        glyph('N') == [0b10001u8, 0b11001, 0b10101, 0b10101, 0b10011, 0b10001, 0b10001],
        glyph('k') == [0b10001u8, 0b10010, 0b10100, 0b11000, 0b10100, 0b10010, 0b10001],
        glyph('K') == [0b10001u8, 0b10010, 0b10100, 0b11000, 0b10100, 0b10010, 0b10001],
        glyph('T') == [0b11111u8, 0b00100, 0b00100, 0b00100, 0b00100, 0b00100, 0b00100],
        glyph('t') == [0b11111u8, 0b00100, 0b00100, 0b00100, 0b00100, 0b00100, 0b00100],
        glyph('%') == [0b11001u8, 0b11010, 0b00010, 0b00100, 0b01000, 0b01011, 0b10011],
        glyph('(') == [0b00010u8, 0b00100, 0b01000, 0b01000, 0b01000, 0b00100, 0b00010],
        glyph(')') == [0b01000u8, 0b00100, 0b00010, 0b00010, 0b00010, 0b00100, 0b01000],
        glyph(':') == [0b00000u8, 0b01100, 0b01100, 0b00000, 0b01100, 0b01100, 0b00000],
        glyph('A') == [0b01110u8, 0b10001, 0b10001, 0b11111, 0b10001, 0b10001, 0b10001],
        glyph('a') == [0b01110u8, 0b10001, 0b10001, 0b11111, 0b10001, 0b10001, 0b10001],
        glyph('B') == [0b11110u8, 0b10001, 0b10001, 0b11110, 0b10001, 0b10001, 0b11110],
        glyph('b') == [0b11110u8, 0b10001, 0b10001, 0b11110, 0b10001, 0b10001, 0b11110],
        glyph('C') == [0b01110u8, 0b10001, 0b10000, 0b10000, 0b10000, 0b10001, 0b01110],
        glyph('c') == [0b01110u8, 0b10001, 0b10000, 0b10000, 0b10000, 0b10001, 0b01110],
        glyph('D') == [0b11110u8, 0b10001, 0b10001, 0b10001, 0b10001, 0b10001, 0b11110],
        glyph('d') == [0b11110u8, 0b10001, 0b10001, 0b10001, 0b10001, 0b10001, 0b11110],
        glyph('E') == [0b11111u8, 0b10000, 0b10000, 0b11110, 0b10000, 0b10000, 0b11111],
        glyph('e') == [0b11111u8, 0b10000, 0b10000, 0b11110, 0b10000, 0b10000, 0b11111],
        glyph('F') == [0b11111u8, 0b10000, 0b10000, 0b11110, 0b10000, 0b10000, 0b10000],
        glyph('f') == [0b11111u8, 0b10000, 0b10000, 0b11110, 0b10000, 0b10000, 0b10000],
        glyph('G') == [0b01110u8, 0b10001, 0b10000, 0b10011, 0b10001, 0b10001, 0b01110],
        glyph('g') == [0b01110u8, 0b10001, 0b10000, 0b10011, 0b10001, 0b10001, 0b01110],
        glyph('H') == [0b10001u8, 0b10001, 0b10001, 0b11111, 0b10001, 0b10001, 0b10001],
        glyph('h') == [0b10001u8, 0b10001, 0b10001, 0b11111, 0b10001, 0b10001, 0b10001],
        glyph('I') == [0b01110u8, 0b00100, 0b00100, 0b00100, 0b00100, 0b00100, 0b01110],
        glyph('i') == [0b01110u8, 0b00100, 0b00100, 0b00100, 0b00100, 0b00100, 0b01110],
        glyph('L') == [0b10000u8, 0b10000, 0b10000, 0b10000, 0b10000, 0b10000, 0b11111],
        glyph('M') == [0b10001u8, 0b11011, 0b10101, 0b10001, 0b10001, 0b10001, 0b10001],
        glyph('m') == [0b10001u8, 0b11011, 0b10101, 0b10001, 0b10001, 0b10001, 0b10001],
        glyph('O') == [0b01110u8, 0b10001, 0b10001, 0b10001, 0b10001, 0b10001, 0b01110],
        glyph('o') == [0b01110u8, 0b10001, 0b10001, 0b10001, 0b10001, 0b10001, 0b01110],
        glyph('P') == [0b11110u8, 0b10001, 0b10001, 0b11110, 0b10000, 0b10000, 0b10000],
        glyph('p') == [0b11110u8, 0b10001, 0b10001, 0b11110, 0b10000, 0b10000, 0b10000],
        glyph('R') == [0b11110u8, 0b10001, 0b10001, 0b11110, 0b10100, 0b10010, 0b10001],
        glyph('r') == [0b11110u8, 0b10001, 0b10001, 0b11110, 0b10100, 0b10010, 0b10001],
        glyph('S') == [0b01110u8, 0b10001, 0b10000, 0b01110, 0b00001, 0b10001, 0b01110],
        glyph('s') == [0b01110u8, 0b10001, 0b10000, 0b01110, 0b00001, 0b10001, 0b01110],
        glyph('U') == [0b10001u8, 0b10001, 0b10001, 0b10001, 0b10001, 0b10001, 0b01110],
        glyph('u') == [0b10001u8, 0b10001, 0b10001, 0b10001, 0b10001, 0b10001, 0b01110],
        glyph('V') == [0b10001u8, 0b10001, 0b10001, 0b10001, 0b10001, 0b01010, 0b00100],
        glyph('v') == [0b10001u8, 0b10001, 0b10001, 0b10001, 0b10001, 0b01010, 0b00100],
        glyph('W') == [0b10001u8, 0b10001, 0b10001, 0b10101, 0b10101, 0b11011, 0b10001],
        glyph('w') == [0b10001u8, 0b10001, 0b10001, 0b10101, 0b10101, 0b11011, 0b10001],
        glyph('X') == [0b10001u8, 0b10001, 0b01010, 0b00100, 0b01010, 0b10001, 0b10001],
        glyph('x') == [0b10001u8, 0b10001, 0b01010, 0b00100, 0b01010, 0b10001, 0b10001],
        glyph(' ') == [0b00000u8, 0b00000, 0b00000, 0b00000, 0b00000, 0b00000, 0b00000],
        ch != '0' && ch != '1' && ch != '2' && ch != '3' && ch != '4' && ch != '5' && ch != '6' && ch != '7' && ch != '8' && ch != '9' && ch != '.' && ch != '-' && ch != '+' && ch != '\u{b0}' && ch != '\u{3bb}' && ch != 'l' && ch != 'n' && ch != 'N' && ch != 'k' && ch != 'K' && ch != 'T' && ch != 't' && ch != '%' && ch != '(' && ch != ')' && ch != ':' && ch != 'A' && ch != 'a' && ch != 'B' && ch != 'b' && ch != 'C' && ch != 'c' && ch != 'D' && ch != 'd' && ch != 'E' && ch != 'e' && ch != 'F' && ch != 'f' && ch != 'G' && ch != 'g' && ch != 'H' && ch != 'h' && ch != 'I' && ch != 'i' && ch != 'L' && ch != 'M' && ch != 'm' && ch != 'O' && ch != 'o' && ch != 'P' && ch != 'p' && ch != 'R' && ch != 'r' && ch != 'S' && ch != 's' && ch != 'U' && ch != 'u' && ch != 'V' && ch != 'v' && ch != 'W' && ch != 'w' && ch != 'X' && ch != 'x' && ch != ' ' ==> glyph(ch) == [0b11111u8, 0b10001, 0b10001, 0b10001, 0b10001, 0b10001, 0b11111],
{
}

/// The ten digits are drawn with ten different glyphs.
pub proof fn lemma_digit_glyphs_distinct(a: char, b: char)
    requires
        '0' <= a <= '9',
        '0' <= b <= '9',
        a != b,
    ensures
        glyph(a) != glyph(b),
{
    lemma_font_table(a);
    if glyph(a) == glyph(b) {
        assert(glyph(a)[0] == glyph(b)[0] && glyph(a)[1] == glyph(b)[1] && glyph(a)[2]
            == glyph(b)[2] && glyph(a)[3] == glyph(b)[3] && glyph(a)[4] == glyph(b)[4]
            && glyph(a)[5] == glyph(b)[5] && glyph(a)[6] == glyph(b)[6]);
    }
}

} // verus!
