//! Level layouts: where the blocks of a grid stand, and the text format in
//! which a level lists its blocks.
//!
//! Gaps and the dimensions of a block are counted in hundredths of a world
//! unit, positions in halves of a hundredth: a row of an even number of
//! blocks starts half a gap off the centre line, and half of any gap is a
//! whole number of halves of a hundredth.
//!
//! A layout text holds one row per line and one cell per word. A cell has two
//! to four characters: the block's class, its behaviour, and optionally its
//! part in a trigger group and the group's digit. A class or a behaviour of
//! `.` leaves the slot empty. Words of fewer than two characters are not
//! cells and take no slot.

use vstd::prelude::*;
use crate::block::{Block, BlockBehaviour, BlockType};
use crate::geometry::Position;
use crate::config::{
    BLOCK_DEPTH,
    BLOCK_WIDTH,
    BLOCK_WIDTH_H,
    EVADER_SPEED,
    GRID_LEAD_ROWS,
    GRID_ORIGIN_Y,
    POSITION_UNITS,
};
use crate::text::{
    chars_of,
    lemma_split_len,
    lemma_split_total,
    piece_views,
    split,
    split_chars,
    total_len,
};
use crate::trigger::{TriggerGroup, TriggerType};

verus! {

/// Distance between the centres of neighbouring columns: the width of a
/// block and the gap, in position units.
pub open spec fn x_step(gap: int) -> int {
    POSITION_UNITS * (BLOCK_WIDTH + gap)
}

/// Distance between the centres of neighbouring rows: the depth of a block
/// and the gap, in position units.
pub open spec fn y_step(gap: int) -> int {
    POSITION_UNITS * (BLOCK_DEPTH + gap)
}

/// The x coordinate of the first column of a grid of `cols` columns. With an
/// odd number of columns the middle column stands at zero. With an even
/// number the two middle columns stand to either side of zero, each half a
/// gap and half a block away from it.
pub open spec fn first_x(cols: int, gap: int) -> int {
    if cols % 2 == 1 {
        -((cols / 2) * x_step(gap))
    } else {
        -((cols / 2) * x_step(gap)) + gap + POSITION_UNITS * BLOCK_WIDTH_H
    }
}

/// The x coordinate of column `col` of a grid of `cols` columns.
pub open spec fn cell_x(cols: int, col: int, gap: int) -> int {
    first_x(cols, gap) + col * x_step(gap)
}

/// The y coordinate of row `row` of a grid.
pub open spec fn row_y(row: int, gap: int) -> int {
    POSITION_UNITS * GRID_ORIGIN_Y - GRID_LEAD_ROWS * y_step(gap) + row * y_step(gap)
}

/// Every row is centred: a column and its mirror image stand at the same
/// distance to either side of zero, whatever the number of columns and
/// whatever the gap.
pub proof fn law_rows_are_centred(cols: int, col: int, gap: int)
    requires
        0 <= col < cols,
    ensures
        cell_x(cols, col, gap) + cell_x(cols, cols - 1 - col, gap) == 0,
{
    let step = x_step(gap);
    let half = cols / 2;
    assert(col * step + (cols - 1 - col) * step == (cols - 1) * step) by (nonlinear_arith);
    if cols % 2 == 1 {
        assert((cols - 1) * step == 2 * (half * step)) by (nonlinear_arith)
            requires
                cols - 1 == 2 * half,
        ;
    } else {
        assert((cols - 1) * step == 2 * (half * step) - step) by (nonlinear_arith)
            requires
                cols == 2 * half,
        ;
    }
}

/// Neighbouring columns stand a block's width and a gap apart, and
/// neighbouring rows a block's depth and a gap.
pub proof fn law_grid_pitch(cols: int, row: int, col: int, gap: int)
    ensures
        cell_x(cols, col + 1, gap) - cell_x(cols, col, gap) == POSITION_UNITS * (BLOCK_WIDTH
            + gap),
        row_y(row + 1, gap) - row_y(row, gap) == POSITION_UNITS * (BLOCK_DEPTH + gap),
        row_y(0, gap) == POSITION_UNITS * (GRID_ORIGIN_Y - GRID_LEAD_ROWS * (BLOCK_DEPTH + gap)),
{
    assert((col + 1) * x_step(gap) == col * x_step(gap) + x_step(gap)) by (nonlinear_arith);
    assert((row + 1) * y_step(gap) == row * y_step(gap) + y_step(gap)) by (nonlinear_arith);
}

/// The block class that a cell's first character stands for, or `None`
/// where it leaves the slot empty. A character that names no class stands
/// for a simple block.
pub open spec fn block_type_of(code: char) -> Option<BlockType> {
    if code == 'A' {
        Some(BlockType::Simple)
    } else if code == 'B' {
        Some(BlockType::Hardling)
    } else if code == 'C' {
        Some(BlockType::Concrete)
    } else if code == 'D' {
        Some(BlockType::SimpleTop)
    } else if code == 'Z' {
        Some(BlockType::Obstacle)
    } else if code == '.' {
        None
    } else {
        Some(BlockType::Simple)
    }
}

/// The behaviour that a cell's second character stands for, or `None`
/// where it leaves the slot empty. A character that names no behaviour
/// stands for a sitting duck.
pub open spec fn behaviour_of(code: char) -> Option<BlockBehaviour> {
    if code == 'A' {
        Some(BlockBehaviour::SittingDuck)
    } else if code == 'B' {
        Some(BlockBehaviour::Spinner)
    } else if code == 'C' {
        Some(BlockBehaviour::Vanisher)
    } else if code == 'D' {
        Some(BlockBehaviour::Repuslor)
    } else if code == 'E' {
        Some(BlockBehaviour::EvaderR(EVADER_SPEED))
    } else if code == 'F' {
        Some(BlockBehaviour::EvaderL(EVADER_SPEED))
    } else if code == 'G' {
        Some(BlockBehaviour::EvaderU(EVADER_SPEED))
    } else if code == 'H' {
        Some(BlockBehaviour::EvaderD(EVADER_SPEED))
    } else if code == '.' {
        None
    } else {
        Some(BlockBehaviour::SittingDuck)
    }
}

/// The trigger part that a cell's third character stands for, if it is
/// there and names one.
pub open spec fn trigger_type_of(code: Option<char>) -> Option<TriggerType> {
    match code {
        Some(c) => if c == 'A' {
            Some(TriggerType::Start)
        } else if c == 'B' {
            Some(TriggerType::Stop)
        } else if c == 'C' {
            Some(TriggerType::StartStop)
        } else if c == 'R' {
            Some(TriggerType::ReceiverStartingInactive)
        } else if c == 'S' {
            Some(TriggerType::ReceiverStartingActive)
        } else {
            None
        },
        None => None,
    }
}

/// The trigger group that a cell's fourth character stands for, if it is
/// there and is a digit.
pub open spec fn trigger_group_of(code: Option<char>) -> Option<TriggerGroup> {
    match code {
        Some(c) => if '0' <= c <= '9' {
            Some((c as int - '0' as int) as TriggerGroup)
        } else {
            None
        },
        None => None,
    }
}

/// The block that a cell's characters describe at `pos`, or `None` where
/// they leave the slot empty.
pub open spec fn block_of(
    b_type: char,
    b_beh: char,
    b_trigger: Option<char>,
    b_trigger_group: Option<char>,
    pos: Position,
) -> Option<Block> {
    match (block_type_of(b_type), behaviour_of(b_beh)) {
        (Some(block_type), Some(behaviour)) => Some(
            Block {
                position: pos,
                block_type,
                behaviour,
                trigger_type: trigger_type_of(b_trigger),
                trigger_group: trigger_group_of(b_trigger_group),
            },
        ),
        _ => None,
    }
}

/// Builds the block that a cell's characters describe.
pub fn make_block(
    b_type: char,
    b_beh: char,
    b_trigger: Option<char>,
    b_trigger_group: Option<char>,
    pos: Position,
) -> (block: Option<Block>)
    ensures
        block == block_of(b_type, b_beh, b_trigger, b_trigger_group, pos),
{
    let t = match b_type {
        'A' => BlockType::Simple,
        'B' => BlockType::Hardling,
        'C' => BlockType::Concrete,
        'D' => BlockType::SimpleTop,
        'Z' => BlockType::Obstacle,
        '.' => return None,
        _ => BlockType::Simple,
    };

    let b = match b_beh {
        'A' => BlockBehaviour::SittingDuck,
        'B' => BlockBehaviour::Spinner,
        'C' => BlockBehaviour::Vanisher,
        'D' => BlockBehaviour::Repuslor,
        'E' => BlockBehaviour::EvaderR(EVADER_SPEED),
        'F' => BlockBehaviour::EvaderL(EVADER_SPEED),
        'G' => BlockBehaviour::EvaderU(EVADER_SPEED),
        'H' => BlockBehaviour::EvaderD(EVADER_SPEED),
        '.' => return None,
        _ => BlockBehaviour::SittingDuck,
    };

    let tt = if let Some(t) = b_trigger {
        match t {
            'A' => Some(TriggerType::Start),
            'B' => Some(TriggerType::Stop),
            'C' => Some(TriggerType::StartStop),
            'R' => Some(TriggerType::ReceiverStartingInactive),
            'S' => Some(TriggerType::ReceiverStartingActive),
            _ => None,
        }
    } else {
        None
    };

    let tg = if let Some(g) = b_trigger_group {
        match g {
            '0' => Some(0),
            '1' => Some(1),
            '2' => Some(2),
            '3' => Some(3),
            '4' => Some(4),
            '5' => Some(5),
            '6' => Some(6),
            '7' => Some(7),
            '8' => Some(8),
            '9' => Some(9),
            _ => None,
        }
    } else {
        None
    };

    Some(Block { behaviour: b, block_type: t, position: pos, trigger_type: tt, trigger_group: tg })
}

/// Largest number of rows, of columns and of characters of a layout for
/// which every position is sure to fit in an `i64`.
pub const MAX_GRID_SIDE: usize = 0x3fff_fffe;

/// The point at which column `col` of row `row` stands in a grid of `cols`
/// columns.
pub open spec fn grid_position(cols: int, row: int, col: int, gap: int) -> Position {
    Position { x: cell_x(cols, col, gap) as i64, y: row_y(row, gap) as i64 }
}

proof fn lemma_product_bound(a: int, b: int, a_max: int, b_max: int)
    by (nonlinear_arith)
    requires
        0 <= a <= a_max,
        -b_max <= b <= b_max,
    ensures
        -(a_max * b_max) <= a * b <= a_max * b_max,
{
}

/// Positions of a grid whose sides stay within `MAX_GRID_SIDE + 1` fit in
/// an `i64` with room to spare, and lie one step apart.
proof fn lemma_positions_fit(cols: int, index: int, gap: int)
    requires
        0 <= cols <= MAX_GRID_SIDE + 1,
        0 <= index <= MAX_GRID_SIDE + 1,
        i32::MIN <= gap <= i32::MAX,
    ensures
        -0x7000_0000_0000_0000 <= cell_x(cols, index, gap) <= 0x7000_0000_0000_0000,
        -0x7000_0000_0000_0000 <= row_y(index, gap) <= 0x7000_0000_0000_0000,
        -0x7000_0000_0000_0000 <= (cols / 2) * x_step(gap) <= 0x7000_0000_0000_0000,
        cell_x(cols, index + 1, gap) == cell_x(cols, index, gap) + x_step(gap),
        row_y(index + 1, gap) == row_y(index, gap) + y_step(gap),
        cell_x(cols, 0, gap) == first_x(cols, gap),
{
    lemma_product_bound(cols / 2, x_step(gap), 0x2000_0000, 0x1_0000_0000int + 3000);
    lemma_product_bound(index, x_step(gap), 0x3fff_ffff, 0x1_0000_0000int + 3000);
    lemma_product_bound(index, y_step(gap), 0x3fff_ffff, 0x1_0000_0000int + 3000);
    assert((index + 1) * x_step(gap) == index * x_step(gap) + x_step(gap)) by (nonlinear_arith);
    assert((index + 1) * y_step(gap) == index * y_step(gap) + y_step(gap)) by (nonlinear_arith);
}

/// The x coordinate of the first column of a grid of `cols` columns.
fn first_column_x(cols: usize, gap: i32) -> (x: i64)
    requires
        cols <= MAX_GRID_SIDE + 1,
    ensures
        x == first_x(cols as int, gap as int),
{
    proof {
        lemma_positions_fit(cols as int, 0, gap as int);
    }
    let col_pitch: i64 = POSITION_UNITS * (BLOCK_WIDTH + gap as i64);
    let cols_h: i64 = (cols / 2) as i64;
    if cols % 2 == 1 {
        -(cols_h * col_pitch)
    } else {
        -(cols_h * col_pitch) + gap as i64 + POSITION_UNITS * BLOCK_WIDTH_H
    }
}

/// The y coordinate of the first row of a grid.
fn first_row_y(gap: i32) -> (y: i64)
    ensures
        y == row_y(0, gap as int),
{
    POSITION_UNITS * GRID_ORIGIN_Y - GRID_LEAD_ROWS * (POSITION_UNITS * (BLOCK_DEPTH
        + gap as i64))
}

/// The points of the first `upto` columns of row `row`, left to right.
pub open spec fn row_positions(cols: int, row: int, upto: int, gap: int) -> Seq<Position> {
    Seq::new(upto as nat, |col: int| grid_position(cols, row, col, gap))
}

/// The points of a grid of `rows` rows and `cols` columns, row by row.
pub open spec fn grid_positions(rows: int, cols: int, gap: int) -> Seq<Position>
    decreases rows,
{
    if rows <= 0 {
        Seq::empty()
    } else {
        grid_positions(rows - 1, cols, gap) + row_positions(cols, rows - 1, cols, gap)
    }
}

/// The index of column `col` of row `row` lies within a grid of `rows`
/// rows and `cols` columns.
pub proof fn lemma_grid_index(rows: int, cols: int, row: int, col: int)
    by (nonlinear_arith)
    requires
        0 <= row < rows,
        0 <= col < cols,
    ensures
        0 <= row * cols + col < rows * cols,
        row * cols + cols <= rows * cols,
{
}

/// A grid has a point for each row and column, and the point of column
/// `col` of row `row` is the one at index `row * cols + col`.
pub proof fn lemma_grid_positions(rows: int, cols: int, gap: int)
    requires
        0 <= rows,
        0 <= cols,
    ensures
        grid_positions(rows, cols, gap).len() == rows * cols,
        forall|row: int, col: int|
            #![trigger grid_position(cols, row, col, gap)]
            0 <= row < rows && 0 <= col < cols ==> grid_positions(rows, cols, gap)[row * cols
                + col] == grid_position(cols, row, col, gap),
    decreases rows,
{
    if rows > 0 {
        lemma_grid_positions(rows - 1, cols, gap);
        let above = grid_positions(rows - 1, cols, gap);
        let last = row_positions(cols, rows - 1, cols, gap);
        assert(rows * cols == (rows - 1) * cols + cols) by (nonlinear_arith);
        assert forall|row: int, col: int|
            #![trigger grid_position(cols, row, col, gap)]
            0 <= row < rows && 0 <= col < cols implies grid_positions(rows, cols, gap)[row * cols
            + col] == grid_position(cols, row, col, gap) by {
            lemma_grid_index(rows, cols, row, col);
            if row < rows - 1 {
                lemma_grid_index(rows - 1, cols, row, col);
                assert(above[row * cols + col] == grid_position(cols, row, col, gap));
                assert((above + last)[row * cols + col] == above[row * cols + col]);
            } else {
                assert((above + last)[above.len() + col] == last[col]);
            }
        }
    } else {
        assert(rows * cols == 0) by (nonlinear_arith)
            requires
                rows == 0,
        ;
    }
}

/// In a grid as `generate_block_grid` builds it, each row is centred: the
/// point of a column and the point of its mirror image lie in the same row,
/// at the same distance to either side of zero.
pub proof fn law_grid_rows_are_centred(rows: int, cols: int, gap: int, row: int, col: int)
    requires
        0 <= row < rows <= MAX_GRID_SIDE,
        0 <= col < cols <= MAX_GRID_SIDE,
        i32::MIN <= gap <= i32::MAX,
    ensures
        0 <= row * cols + col < grid_positions(rows, cols, gap).len(),
        0 <= row * cols + (cols - 1 - col) < grid_positions(rows, cols, gap).len(),
        grid_positions(rows, cols, gap)[row * cols + col].x + grid_positions(
            rows,
            cols,
            gap,
        )[row * cols + (cols - 1 - col)].x == 0,
        grid_positions(rows, cols, gap)[row * cols + col].y == grid_positions(
            rows,
            cols,
            gap,
        )[row * cols + (cols - 1 - col)].y,
{
    let mirror = cols - 1 - col;
    lemma_grid_positions(rows, cols, gap);
    lemma_grid_index(rows, cols, row, col);
    lemma_grid_index(rows, cols, row, mirror);
    lemma_positions_fit(cols, col, gap);
    lemma_positions_fit(cols, mirror, gap);
    lemma_positions_fit(cols, row, gap);
    law_rows_are_centred(cols, col, gap);
    assert(grid_positions(rows, cols, gap)[row * cols + col] == grid_position(
        cols,
        row,
        col,
        gap,
    ));
    assert(grid_positions(rows, cols, gap)[row * cols + mirror] == grid_position(
        cols,
        row,
        mirror,
        gap,
    ));
}

/// The centres of a grid of `rows` rows and `cols` columns, row by row.
pub fn generate_block_grid(rows: usize, cols: usize, gap: i32) -> (positions: Vec<Position>)
    requires
        rows <= MAX_GRID_SIDE,
        cols <= MAX_GRID_SIDE,
    ensures
        positions@ == grid_positions(rows as int, cols as int, gap as int),
        positions@.len() == rows * cols,
{
    let mut y: i64 = first_row_y(gap);
    let row_pitch: i64 = POSITION_UNITS * (BLOCK_DEPTH + gap as i64);
    let col_pitch: i64 = POSITION_UNITS * (BLOCK_WIDTH + gap as i64);
    let left: i64 = first_column_x(cols, gap);

    let mut res: Vec<Position> = Vec::new();

    let mut row: usize = 0;
    while row < rows
        invariant
            row <= rows <= MAX_GRID_SIDE,
            cols <= MAX_GRID_SIDE,
            y == row_y(row as int, gap as int),
            row_pitch == y_step(gap as int),
            col_pitch == x_step(gap as int),
            left == first_x(cols as int, gap as int),
            res@ == grid_positions(row as int, cols as int, gap as int),
        decreases rows - row,
    {
        let mut x: i64 = left;
        let mut col: usize = 0;
        let ghost above = res@;
        proof {
            lemma_positions_fit(cols as int, 0, gap as int);
            assert(above + row_positions(cols as int, row as int, 0, gap as int) =~= above);
        }
        while col < cols
            invariant
                row < rows <= MAX_GRID_SIDE,
                col <= cols <= MAX_GRID_SIDE,
                y == row_y(row as int, gap as int),
                x == cell_x(cols as int, col as int, gap as int),
                col_pitch == x_step(gap as int),
                res@ == above + row_positions(cols as int, row as int, col as int, gap as int),
            decreases cols - col,
        {
            proof {
                lemma_positions_fit(cols as int, col as int, gap as int);
                lemma_positions_fit(cols as int, row as int, gap as int);
            }
            res.push(Position { x, y });
            x += col_pitch;
            col += 1;
            assert(res@ =~= above + row_positions(
                cols as int,
                row as int,
                col as int,
                gap as int,
            ));
        }
        proof {
            lemma_positions_fit(cols as int, row as int, gap as int);
        }
        y += row_pitch;
        row += 1;
    }
    proof {
        lemma_grid_positions(rows as int, cols as int, gap as int);
    }

    res
}

/// Whether a word of a row is a cell: it has at least two characters.
pub open spec fn is_cell(word: Seq<char>) -> bool {
    word.len() >= 2
}

/// Whether a cell holds a block: neither its class nor its behaviour is
/// `.`.
pub open spec fn is_occupied(cell: Seq<char>) -> bool {
    is_cell(cell) && cell[0] != '.' && cell[1] != '.'
}

/// The block that a cell describes at the point `(x, y)`, if it holds one.
pub open spec fn cell_block(cell: Seq<char>, x: int, y: int) -> Option<Block> {
    block_of(
        cell[0],
        cell[1],
        if cell.len() > 2 {
            Some(cell[2])
        } else {
            None
        },
        if cell.len() > 3 {
            Some(cell[3])
        } else {
            None
        },
        Position { x: x as i64, y: y as i64 },
    )
}

/// Number of cells among the words of a row.
pub open spec fn cell_count(words: Seq<Seq<char>>) -> nat
    decreases words.len(),
{
    if words.len() == 0 {
        0
    } else {
        cell_count(words.drop_last()) + if is_cell(words.last()) {
            1nat
        } else {
            0nat
        }
    }
}

/// Number of cells among the words of a row that hold a block.
pub open spec fn occupied_count(words: Seq<Seq<char>>) -> nat
    decreases words.len(),
{
    if words.len() == 0 {
        0
    } else {
        occupied_count(words.drop_last()) + if is_occupied(words.last()) {
            1nat
        } else {
            0nat
        }
    }
}

/// The blocks of row number `row`, given as its words, in a grid of `cols`
/// columns: each cell takes the next column, whether it holds a block or
/// not.
pub open spec fn row_blocks(words: Seq<Seq<char>>, cols: int, row: int, gap: int) -> Seq<Block>
    decreases words.len(),
{
    if words.len() == 0 {
        Seq::empty()
    } else {
        let before = row_blocks(words.drop_last(), cols, row, gap);
        let word = words.last();
        if is_cell(word) {
            match cell_block(
                word,
                cell_x(cols, cell_count(words.drop_last()) as int, gap),
                row_y(row, gap),
            ) {
                Some(block) => before.push(block),
                None => before,
            }
        } else {
            before
        }
    }
}

/// The blocks of the given rows, top to bottom.
pub open spec fn rows_blocks(rows: Seq<Seq<char>>, cols: int, gap: int) -> Seq<Block>
    decreases rows.len(),
{
    if rows.len() == 0 {
        Seq::empty()
    } else {
        rows_blocks(rows.drop_last(), cols, gap) + row_blocks(
            split(rows.last(), ' '),
            cols,
            rows.len() - 1,
            gap,
        )
    }
}

/// Number of cells in the given rows.
pub open spec fn rows_cell_count(rows: Seq<Seq<char>>) -> nat
    decreases rows.len(),
{
    if rows.len() == 0 {
        0
    } else {
        rows_cell_count(rows.drop_last()) + cell_count(split(rows.last(), ' '))
    }
}

/// Number of cells in the given rows that hold a block.
pub open spec fn rows_occupied_count(rows: Seq<Seq<char>>) -> nat
    decreases rows.len(),
{
    if rows.len() == 0 {
        0
    } else {
        rows_occupied_count(rows.drop_last()) + occupied_count(split(rows.last(), ' '))
    }
}

/// The rows of a layout text.
pub open spec fn grid_rows(text: Seq<char>) -> Seq<Seq<char>> {
    split(text, '\n')
}

/// Number of columns of a layout text: the number of words of its first
/// row, cells or not.
pub open spec fn grid_columns(text: Seq<char>) -> int {
    split(grid_rows(text)[0], ' ').len() as int
}

/// The blocks that a layout text describes.
pub open spec fn grid_blocks(text: Seq<char>, gap: int) -> Seq<Block> {
    rows_blocks(grid_rows(text), grid_columns(text), gap)
}

/// Reads a layout text. Returns `None` for a text without a single cell,
/// and otherwise the blocks of its occupied cells, row by row.
pub fn interpret_grid(layout: &String, gap: i32) -> (res: Option<Vec<Block>>)
    requires
        layout@.len() <= MAX_GRID_SIDE,
    ensures
        res is None <==> rows_cell_count(grid_rows(layout@)) == 0,
        res matches Some(blocks) ==> blocks@ == grid_blocks(layout@, gap as int),
        res matches Some(blocks) ==> blocks@.len() == rows_occupied_count(grid_rows(layout@)),
{
    let mut res: Vec<Block> = Vec::new();
    proof {
        law_one_block_per_occupied_cell(layout@, gap as int);
    }

    let chars = chars_of(layout.as_str());
    let lines = split_chars(&chars, '\n');
    let ghost rows = grid_rows(layout@);
    proof {
        lemma_split_len(layout@, '\n');
        assert(piece_views(lines@)[0] == lines@[0]@);
        lemma_split_len(rows[0], ' ');
    }
    let first = split_chars(&lines[0], ' ');
    let cols: usize = first.len();

    let col_pitch: i64 = POSITION_UNITS * (BLOCK_WIDTH + gap as i64);
    let left: i64 = first_column_x(cols, gap);

    let mut y: i64 = first_row_y(gap);
    let row_pitch: i64 = POSITION_UNITS * (BLOCK_DEPTH + gap as i64);
    let mut any_cell = false;

    let mut row: usize = 0;
    while row < lines.len()
        invariant
            row <= lines.len() <= MAX_GRID_SIDE + 1,
            cols <= MAX_GRID_SIDE + 1,
            rows == piece_views(lines@),
            rows == grid_rows(layout@),
            layout@.len() <= MAX_GRID_SIDE,
            y == row_y(row as int, gap as int),
            row_pitch == y_step(gap as int),
            col_pitch == x_step(gap as int),
            left == first_x(cols as int, gap as int),
            res@ == rows_blocks(rows.take(row as int), cols as int, gap as int),
            any_cell == (rows_cell_count(rows.take(row as int)) > 0),
        decreases lines.len() - row,
    {
        let mut x: i64 = left;
        let slots = split_chars(&lines[row], ' ');
        let ghost words = split(rows[row as int], ' ');
        let ghost above = res@;
        let ghost cells_above = rows_cell_count(rows.take(row as int));
        let ghost mut col: int = 0;
        proof {
            assert(rows[row as int] == lines@[row as int]@);
            lemma_split_len(layout@, '\n');
            lemma_split_len(rows[row as int], ' ');
            lemma_positions_fit(cols as int, 0, gap as int);
            assert(words.take(0) =~= Seq::<Seq<char>>::empty());
            let none = row_blocks(words.take(0), cols as int, row as int, gap as int);
            assert(above + none =~= above);
        }

        let mut at: usize = 0;
        while at < slots.len()
            invariant
                at <= slots.len() <= MAX_GRID_SIDE + 1,
                cols <= MAX_GRID_SIDE + 1,
                row <= MAX_GRID_SIDE,
                words == piece_views(slots@),
                col == cell_count(words.take(at as int)),
                0 <= col <= at,
                x == cell_x(cols as int, col, gap as int),
                y == row_y(row as int, gap as int),
                col_pitch == x_step(gap as int),
                res@ == above + row_blocks(
                    words.take(at as int),
                    cols as int,
                    row as int,
                    gap as int,
                ),
                any_cell == (cells_above + col > 0),
            decreases slots.len() - at,
        {
            let slot = &slots[at];
            proof {
                assert(words.take(at + 1).drop_last() =~= words.take(at as int));
                assert(words.take(at + 1).last() == slot@);
                lemma_positions_fit(cols as int, col, gap as int);
                lemma_positions_fit(cols as int, row as int, gap as int);
            }
            if slot.len() >= 2 {
                let pos_x: i64 = x;
                x += col_pitch;

                let b_type: char = slot[0];
                let b_beh: char = slot[1];
                let b_trigger_type: Option<char> = if slot.len() > 2 {
                    Some(slot[2])
                } else {
                    None
                };
                let b_trigger_group: Option<char> = if slot.len() > 3 {
                    Some(slot[3])
                } else {
                    None
                };

                match make_block(
                    b_type,
                    b_beh,
                    b_trigger_type,
                    b_trigger_group,
                    Position { x: pos_x, y },
                ) {
                    None => {},
                    Some(block) => {
                        res.push(block);
                        assert(res@ =~= above + row_blocks(
                            words.take(at as int),
                            cols as int,
                            row as int,
                            gap as int,
                        ).push(block));
                    },
                }
                any_cell = true;
                proof {
                    col = col + 1;
                }
            }
            at += 1;
        }
        proof {
            assert(words.take(slots.len() as int) =~= words);
            assert(rows.take(row + 1).drop_last() =~= rows.take(row as int));
            assert(rows.take(row + 1).last() == rows[row as int]);
            lemma_positions_fit(cols as int, row as int, gap as int);
        }
        y += row_pitch;
        row += 1;
    }
    proof {
        assert(rows.take(lines.len() as int) =~= rows);
    }

    if any_cell {
        Some(res)
    } else {
        None
    }
}

/// A text yields one block for each occupied cell.
pub proof fn law_one_block_per_occupied_cell(text: Seq<char>, gap: int)
    ensures
        grid_blocks(text, gap).len() == rows_occupied_count(grid_rows(text)),
        rows_occupied_count(grid_rows(text)) <= rows_cell_count(grid_rows(text)),
{
    lemma_rows_block_count(grid_rows(text), grid_columns(text), gap);
}

/// A grid whose rows each hold `per_row` cells, all of them occupied,
/// yields as many blocks as it has rows times `per_row`. If a row holds a
/// cell at all, the text has cells, so that `interpret_grid` reads it.
pub proof fn law_full_grid_yields_all_cells(text: Seq<char>, gap: int, per_row: nat)
    requires
        forall|row: int|
            #![trigger grid_rows(text)[row]]
            0 <= row < grid_rows(text).len() ==> cell_count(split(grid_rows(text)[row], ' '))
                == per_row && occupied_count(split(grid_rows(text)[row], ' ')) == per_row,
    ensures
        grid_blocks(text, gap).len() == grid_rows(text).len() * per_row,
        per_row > 0 ==> rows_cell_count(grid_rows(text)) > 0,
{
    lemma_rows_block_count(grid_rows(text), grid_columns(text), gap);
    lemma_uniform_rows(grid_rows(text), per_row);
    lemma_split_len(text, '\n');
    assert(per_row > 0 ==> grid_rows(text).len() * per_row > 0) by (nonlinear_arith)
        requires
            grid_rows(text).len() >= 1,
    ;
}

/// A text yields no more blocks than it has characters.
pub proof fn lemma_block_count_bound(text: Seq<char>, gap: int)
    ensures
        grid_blocks(text, gap).len() <= text.len(),
{
    lemma_rows_block_count(grid_rows(text), grid_columns(text), gap);
    lemma_rows_cells_bound(text);
}

/// Each cell has two characters at least.
proof fn lemma_cells_take_room(words: Seq<Seq<char>>)
    ensures
        2 * cell_count(words) <= total_len(words),
    decreases words.len(),
{
    if words.len() > 0 {
        lemma_cells_take_room(words.drop_last());
    }
}

/// Rows hold no more cells than characters.
proof fn lemma_rows_take_room(rows: Seq<Seq<char>>)
    ensures
        rows_cell_count(rows) <= total_len(rows),
    decreases rows.len(),
{
    if rows.len() > 0 {
        lemma_rows_take_room(rows.drop_last());
        lemma_cells_take_room(split(rows.last(), ' '));
        lemma_split_total(rows.last(), ' ');
    }
}

/// A text holds no more cells than characters.
proof fn lemma_rows_cells_bound(text: Seq<char>)
    ensures
        rows_cell_count(grid_rows(text)) <= text.len(),
{
    lemma_rows_take_room(grid_rows(text));
    lemma_split_total(text, '\n');
}

proof fn lemma_row_block_count(words: Seq<Seq<char>>, cols: int, row: int, gap: int)
    ensures
        row_blocks(words, cols, row, gap).len() == occupied_count(words),
        occupied_count(words) <= cell_count(words),
    decreases words.len(),
{
    if words.len() > 0 {
        lemma_row_block_count(words.drop_last(), cols, row, gap);
    }
}

proof fn lemma_rows_block_count(rows: Seq<Seq<char>>, cols: int, gap: int)
    ensures
        rows_blocks(rows, cols, gap).len() == rows_occupied_count(rows),
        rows_occupied_count(rows) <= rows_cell_count(rows),
    decreases rows.len(),
{
    if rows.len() > 0 {
        lemma_rows_block_count(rows.drop_last(), cols, gap);
        lemma_row_block_count(split(rows.last(), ' '), cols, rows.len() - 1, gap);
    }
}

proof fn lemma_uniform_rows(rows: Seq<Seq<char>>, per_row: nat)
    requires
        forall|row: int|
            #![trigger rows[row]]
            0 <= row < rows.len() ==> occupied_count(split(rows[row], ' ')) == per_row,
    ensures
        rows_occupied_count(rows) == rows.len() * per_row,
    decreases rows.len(),
{
    if rows.len() > 0 {
        let front = rows.drop_last();
        assert forall|row: int| 0 <= row < front.len() implies occupied_count(
            split(#[trigger] front[row], ' '),
        ) == per_row by {
            assert(front[row] == rows[row]);
        }
        lemma_uniform_rows(front, per_row);
        assert(rows.last() == rows[rows.len() - 1]);
        assert(rows.len() * per_row == front.len() * per_row + per_row) by (nonlinear_arith)
            requires
                rows.len() == front.len() + 1,
        ;
    }
}

} // verus!
