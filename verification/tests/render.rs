use tracker::grid::Grid;
use tracker::note::{Cell, Note};
use tracker::render::{render, Color, DrawOp};
use tracker::text::EmptyGlyph;

fn occupied(key: u8, instrument: u8) -> Cell {
    Cell::Occupied(Note::new(key, instrument).expect("a key within range"))
}

fn text(s: &str) -> DrawOp {
    DrawOp::Text(String::from(s))
}

#[test]
fn frame_of_a_small_grid() {
    let mut g = Grid::create(3).expect("a grid with steps");
    assert_eq!(g.set_cell(1, occupied(60, 1)), Ok(()));
    g.move_selection_down();
    let ops = render(&g, EmptyGlyph::Dot);
    let expected = vec![
        DrawOp::ClearScreen,
        DrawOp::MoveTo(0, 0),
        text("......."),
        DrawOp::ResetColors,
        DrawOp::NextLine,
        DrawOp::SetColors(Color::White, Color::Black),
        text("C 4 001"),
        DrawOp::ResetColors,
        DrawOp::NextLine,
        text("......."),
        DrawOp::ResetColors,
        DrawOp::NextLine,
        DrawOp::Flush,
    ];
    assert_eq!(ops, expected);
}

#[test]
fn frame_of_a_single_step() {
    let g = Grid::create(1).expect("a grid with steps");
    let ops = render(&g, EmptyGlyph::Space);
    let expected = vec![
        DrawOp::ClearScreen,
        DrawOp::MoveTo(0, 0),
        DrawOp::SetColors(Color::White, Color::Black),
        text("       "),
        DrawOp::ResetColors,
        DrawOp::NextLine,
        DrawOp::Flush,
    ];
    assert_eq!(ops, expected);
}

#[test]
fn frame_clears_first_and_flushes_once_at_the_end() {
    let mut g = Grid::create(32).expect("a grid with steps");
    g.seed_demo();
    for _ in 0..5 {
        g.move_selection_down();
    }
    let ops = render(&g, EmptyGlyph::Dot);
    assert_eq!(ops.len(), 3 * 32 + 4);
    assert_eq!(ops[0], DrawOp::ClearScreen);
    assert_eq!(ops[1], DrawOp::MoveTo(0, 0));
    assert_eq!(ops[ops.len() - 1], DrawOp::Flush);
    assert_eq!(ops.iter().filter(|op| **op == DrawOp::Flush).count(), 1);
    assert_eq!(ops.iter().filter(|op| **op == DrawOp::ClearScreen).count(), 1);
}

#[test]
fn frame_highlights_only_the_selected_row() {
    let mut g = Grid::create(8).expect("a grid with steps");
    g.seed_demo();
    for selection in 0..8usize {
        let ops = render(&g, EmptyGlyph::Dot);
        let highlights: Vec<usize> = ops
            .iter()
            .enumerate()
            .filter(|(_, op)| matches!(op, DrawOp::SetColors(_, _)))
            .map(|(i, _)| i)
            .collect();
        assert_eq!(highlights, vec![2 + 3 * selection]);
        assert_eq!(ops[2 + 3 * selection], DrawOp::SetColors(Color::White, Color::Black));
        let expected = if selection % 2 == 0 {
            tracker::text::format_note(Note::new(12 + selection as u8, 1).expect("in range"))
        } else {
            String::from(".......")
        };
        assert_eq!(ops[3 + 3 * selection], DrawOp::Text(expected));
        assert_eq!(ops[4 + 3 * selection], DrawOp::ResetColors);
        g.move_selection_down();
    }
}

#[test]
fn frame_draws_the_rows_top_to_bottom() {
    let mut g = Grid::create(4).expect("a grid with steps");
    assert_eq!(g.set_cell(0, occupied(9, 5)), Ok(()));
    assert_eq!(g.set_cell(3, occupied(127, 255)), Ok(()));
    let ops = render(&g, EmptyGlyph::Space);
    let texts: Vec<&String> = ops
        .iter()
        .filter_map(|op| match op {
            DrawOp::Text(t) => Some(t),
            _ => None,
        })
        .collect();
    assert_eq!(texts, vec!["A -1 005", "       ", "       ", "G 9 255"]);
    let breaks = ops.iter().filter(|op| **op == DrawOp::NextLine).count();
    assert_eq!(breaks, 4);
}

#[test]
fn render_leaves_the_grid_alone() {
    let mut g = Grid::create(3).expect("a grid with steps");
    g.seed_demo();
    g.move_selection_down();
    let first = render(&g, EmptyGlyph::Dot);
    let second = render(&g, EmptyGlyph::Dot);
    assert_eq!(first, second);
    assert_eq!(g.selection(), 1);
    assert!(g.is_running());
    assert_eq!(g.cell(0), Some(occupied(12, 1)));
}
