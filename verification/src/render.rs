//! From a grid to one frame of terminal output.
//!
//! A frame is a list of drawing operations. The caller performs them in
//! order on its terminal; nothing here touches one.

use crate::grid::{Grid, GridView};
use crate::note::Cell;
use crate::text::{cell_text, format_cell, EmptyGlyph};
use vstd::prelude::*;

verus! {

/// A terminal colour.
#[derive(Clone, Copy, Debug, PartialEq, Eq, Structural)]
pub enum Color {
    Black,
    White,
}

/// One drawing operation.
#[derive(Debug, PartialEq, Eq)]
pub enum DrawOp {
    /// Clear the whole screen.
    ClearScreen,
    /// Put the cursor at a column and row, counted from zero.
    MoveTo(u16, u16),
    /// Write in this foreground colour on this background colour.
    SetColors(Color, Color),
    /// Write this text at the cursor.
    Text(String),
    /// Write in the terminal's own colours again.
    ResetColors,
    /// Put the cursor at the start of the next line.
    NextLine,
    /// Send everything queued so far to the terminal.
    Flush,
}

/// A drawing operation as plain values.
pub enum DrawOpView {
    ClearScreen,
    MoveTo(u16, u16),
    SetColors(Color, Color),
    Text(Seq<char>),
    ResetColors,
    NextLine,
    Flush,
}

impl View for DrawOp {
    type V = DrawOpView;

    open spec fn view(&self) -> DrawOpView {
        match self {
            DrawOp::ClearScreen => DrawOpView::ClearScreen,
            DrawOp::MoveTo(column, row) => DrawOpView::MoveTo(*column, *row),
            DrawOp::SetColors(foreground, background) => DrawOpView::SetColors(
                *foreground,
                *background,
            ),
            DrawOp::Text(text) => DrawOpView::Text(text@),
            DrawOp::ResetColors => DrawOpView::ResetColors,
            DrawOp::NextLine => DrawOpView::NextLine,
            DrawOp::Flush => DrawOpView::Flush,
        }
    }
}

impl DeepView for DrawOp {
    type V = DrawOpView;

    open spec fn deep_view(&self) -> DrawOpView {
        self@
    }
}

/// The operation that sets the colours of the row under the cursor: white
/// on black.
pub open spec fn highlight() -> DrawOpView {
    DrawOpView::SetColors(Color::White, Color::Black)
}

/// The operations that draw one row: the colours first if the cursor is on
/// it, then its text, then back to the terminal's colours and on to the next
/// line.
pub open spec fn row(cell: Cell, selected: bool, glyph: EmptyGlyph) -> Seq<DrawOpView> {
    let plain = seq![
        DrawOpView::Text(cell_text(cell, glyph)),
        DrawOpView::ResetColors,
        DrawOpView::NextLine,
    ];
    if selected {
        seq![highlight()] + plain
    } else {
        plain
    }
}

/// The operations that draw the first `count` rows of a grid, top to bottom.
pub open spec fn rows(grid: GridView, glyph: EmptyGlyph, count: nat) -> Seq<DrawOpView>
    decreases count,
{
    if count == 0 {
        Seq::empty()
    } else {
        rows(grid, glyph, (count - 1) as nat) + row(
            grid.cells[count - 1],
            grid.selection == count - 1,
            glyph,
        )
    }
}

/// The operations that open a frame: clear the screen and go to its top
/// left corner.
pub open spec fn frame_start() -> Seq<DrawOpView> {
    seq![DrawOpView::ClearScreen, DrawOpView::MoveTo(0, 0)]
}

/// One whole frame: the opening, every row of the grid, and one flush.
pub open spec fn frame(grid: GridView, glyph: EmptyGlyph) -> Seq<DrawOpView> {
    frame_start() + rows(grid, glyph, grid.cells.len()) + seq![DrawOpView::Flush]
}

/// Where in `rows` the text of a step stands: three operations for each row
/// above it, and one more from the row under the cursor on.
pub open spec fn text_offset(grid: GridView, step: int) -> int {
    3 * step + if step >= grid.selection {
        1int
    } else {
        0int
    }
}

/// Where in `rows` the highlight stands: directly before the text of the
/// step under the cursor.
pub open spec fn highlight_offset(grid: GridView) -> int {
    3 * (grid.selection as int)
}

/// How many operations draw the first `count` rows.
pub open spec fn rows_len(grid: GridView, count: nat) -> int {
    3 * count + if count > grid.selection {
        1int
    } else {
        0int
    }
}

/// What stands where in the first `count` rows: each row's text at its
/// offset, with the colour reset and the line break behind it; the
/// highlight directly before the text of the row under the cursor, and
/// nowhere else; and nothing that opens or closes a frame.
pub proof fn lemma_rows_shape(grid: GridView, glyph: EmptyGlyph, count: nat)
    requires
        count <= grid.cells.len(),
    ensures
        rows(grid, glyph, count).len() == rows_len(grid, count),
        forall|step: int|
            #![trigger text_offset(grid, step)]
            0 <= step < count ==> {
                let at = text_offset(grid, step);
                &&& rows(grid, glyph, count)[at] == DrawOpView::Text(
                    cell_text(grid.cells[step], glyph),
                )
                &&& rows(grid, glyph, count)[at + 1] == DrawOpView::ResetColors
                &&& rows(grid, glyph, count)[at + 2] == DrawOpView::NextLine
            },
        grid.selection < count ==> rows(grid, glyph, count)[highlight_offset(grid)] == highlight(),
        forall|at: int|
            0 <= at < rows(grid, glyph, count).len() ==> {
                let op = #[trigger] rows(grid, glyph, count)[at];
                &&& op is SetColors ==> at == highlight_offset(grid)
                &&& !(op is Flush)
                &&& !(op is ClearScreen)
                &&& !(op is MoveTo)
            },
    decreases count,
{
    if count > 0 {
        let before = (count - 1) as nat;
        lemma_rows_shape(grid, glyph, before);
        let head = rows(grid, glyph, before);
        let tail = row(grid.cells[count - 1], grid.selection == count - 1, glyph);
        let all = rows(grid, glyph, count);
        assert(all == head + tail);
        assert forall|step: int| #![trigger text_offset(grid, step)] 0 <= step < count implies {
            let at = text_offset(grid, step);
            &&& all[at] == DrawOpView::Text(cell_text(grid.cells[step], glyph))
            &&& all[at + 1] == DrawOpView::ResetColors
            &&& all[at + 2] == DrawOpView::NextLine
        } by {
            let at = text_offset(grid, step);
            if step < before {
                assert(head[at] == all[at]);
                assert(head[at + 1] == all[at + 1]);
                assert(head[at + 2] == all[at + 2]);
            } else {
                assert(all[at] == tail[at - head.len()]);
                assert(all[at + 1] == tail[at + 1 - head.len()]);
                assert(all[at + 2] == tail[at + 2 - head.len()]);
            }
        }
        if grid.selection < count {
            let at = highlight_offset(grid);
            if grid.selection < before {
                assert(all[at] == head[at]);
            } else {
                assert(all[at] == tail[at - head.len()]);
            }
        }
        assert forall|at: int| 0 <= at < all.len() implies {
            let op = #[trigger] all[at];
            &&& op is SetColors ==> at == highlight_offset(grid)
            &&& !(op is Flush)
            &&& !(op is ClearScreen)
            &&& !(op is MoveTo)
        } by {
            if at < head.len() {
                assert(all[at] == head[at]);
            } else {
                assert(all[at] == tail[at - head.len()]);
            }
        }
    }
}

/// A frame begins by clearing the screen and moving to its top left corner,
/// before anything is drawn.
pub proof fn lemma_frame_opens_clean(grid: GridView, glyph: EmptyGlyph)
    ensures
        frame(grid, glyph)[0] == DrawOpView::ClearScreen,
        frame(grid, glyph)[1] == DrawOpView::MoveTo(0, 0),
{
}

/// A frame has three operations for each row, one for the highlight, two
/// that open it and one that closes it.
pub proof fn lemma_frame_len(grid: GridView, glyph: EmptyGlyph)
    requires
        grid.valid(),
    ensures
        frame(grid, glyph).len() == 3 * grid.cells.len() + 4,
{
    lemma_rows_shape(grid, glyph, grid.cells.len());
}

/// A frame flushes exactly once, as its last operation.
pub proof fn lemma_frame_flushes_once(grid: GridView, glyph: EmptyGlyph)
    requires
        grid.valid(),
    ensures
        frame(grid, glyph).last() == DrawOpView::Flush,
        forall|at: int|
            0 <= at < frame(grid, glyph).len() - 1 ==> !(#[trigger] frame(grid, glyph)[at]
                is Flush),
{
    let body = rows(grid, glyph, grid.cells.len());
    lemma_rows_shape(grid, glyph, grid.cells.len());
    assert forall|at: int| 0 <= at < frame(grid, glyph).len() - 1 implies !(#[trigger] frame(
        grid,
        glyph,
    )[at] is Flush) by {
        if at >= 2 {
            assert(frame(grid, glyph)[at] == body[at - 2]);
        }
    }
}

/// A frame shows every step on a row of its own, top to bottom: the text of
/// step `step` stands at a place that grows with `step`, and the colour
/// reset and the line break follow it directly.
pub proof fn lemma_frame_draws_each_step(grid: GridView, glyph: EmptyGlyph, step: int)
    requires
        grid.valid(),
        0 <= step < grid.cells.len(),
    ensures
        frame(grid, glyph)[2 + text_offset(grid, step)] == DrawOpView::Text(
            cell_text(grid.cells[step], glyph),
        ),
        frame(grid, glyph)[3 + text_offset(grid, step)] == DrawOpView::ResetColors,
        frame(grid, glyph)[4 + text_offset(grid, step)] == DrawOpView::NextLine,
        step + 1 < grid.cells.len() ==> text_offset(grid, step) + 3 <= text_offset(
            grid,
            step + 1,
        ),
{
    let body = rows(grid, glyph, grid.cells.len());
    lemma_rows_shape(grid, glyph, grid.cells.len());
    let at = text_offset(grid, step);
    assert(frame(grid, glyph)[2 + at] == body[at]);
    assert(frame(grid, glyph)[3 + at] == body[at + 1]);
    assert(frame(grid, glyph)[4 + at] == body[at + 2]);
}

/// A frame sets the highlight colours exactly once, directly before the
/// text of the step under the cursor, and resets them directly after it.
pub proof fn lemma_frame_highlights_selection(grid: GridView, glyph: EmptyGlyph)
    requires
        grid.valid(),
    ensures
        frame(grid, glyph)[2 + highlight_offset(grid)] == highlight(),
        frame(grid, glyph)[3 + highlight_offset(grid)] == DrawOpView::Text(
            cell_text(grid.cells[grid.selection as int], glyph),
        ),
        frame(grid, glyph)[4 + highlight_offset(grid)] == DrawOpView::ResetColors,
        forall|at: int|
            0 <= at < frame(grid, glyph).len() && (#[trigger] frame(grid, glyph)[at])
                is SetColors ==> at == 2 + highlight_offset(grid),
{
    let body = rows(grid, glyph, grid.cells.len());
    lemma_rows_shape(grid, glyph, grid.cells.len());
    lemma_frame_draws_each_step(grid, glyph, grid.selection as int);
    assert(frame(grid, glyph)[2 + highlight_offset(grid)] == body[highlight_offset(grid)]);
    assert forall|at: int|
        0 <= at < frame(grid, glyph).len() && (#[trigger] frame(grid, glyph)[at])
            is SetColors implies at == 2 + highlight_offset(grid) by {
        if 2 <= at < frame(grid, glyph).len() - 1 {
            assert(frame(grid, glyph)[at] == body[at - 2]);
        }
    }
}

/// Draws one frame of the grid. The grid is only read.
pub fn render(grid: &Grid, glyph: EmptyGlyph) -> (ops: Vec<DrawOp>)
    ensures
        ops.deep_view() == frame(grid@, glyph),
{
    let cells = grid.cells();
    let length = cells.len();
    let selection = grid.selection();
    let mut ops: Vec<DrawOp> = Vec::new();
    ops.push(DrawOp::ClearScreen);
    ops.push(DrawOp::MoveTo(0, 0));
    assert(ops.deep_view() =~= frame_start() + rows(grid@, glyph, 0));
    let mut step: usize = 0;
    while step < length
        invariant
            step <= length,
            cells@ == grid@.cells,
            length == cells.len(),
            selection == grid@.selection,
            ops.deep_view() == frame_start() + rows(grid@, glyph, step as nat),
        decreases length - step,
    {
        let ghost before = ops.deep_view();
        let cell = cells[step];
        if step == selection {
            ops.push(DrawOp::SetColors(Color::White, Color::Black));
        }
        ops.push(DrawOp::Text(format_cell(cell, glyph)));
        ops.push(DrawOp::ResetColors);
        ops.push(DrawOp::NextLine);
        assert(ops.deep_view() =~= before + row(cell, step == selection, glyph));
        step = step + 1;
        assert(ops.deep_view() =~= frame_start() + rows(grid@, glyph, step as nat));
    }
    ops.push(DrawOp::Flush);
    assert(ops.deep_view() =~= frame(grid@, glyph));
    ops
}

} // verus!
