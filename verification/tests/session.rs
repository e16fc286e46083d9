use tracker::grid::Grid;
use tracker::input::{InputEvent, NamedKey};
use tracker::note::{Cell, Note};
use tracker::render::{render, Color, DrawOp};
use tracker::session::{
    acquire_ops, release_ops, unwind_ops, Action, ExitStatus, Phase, Report, Session, TerminalOp,
};
use tracker::text::EmptyGlyph;

fn grid(length: usize) -> Grid {
    Grid::create(length).expect("a grid with steps")
}

fn down() -> Report {
    Report::Event(InputEvent::Named(NamedKey::Down))
}

fn quit() -> Report {
    Report::Event(InputEvent::Char('q'))
}

/// Drives a session with the given reports and returns every action it
/// handed out, the first pending one included.
fn drive(session: &mut Session, reports: &[Report]) -> Vec<Action> {
    let mut actions = vec![session.pending()];
    for report in reports {
        actions.push(session.advance(*report));
    }
    actions
}

fn count_releases(actions: &[Action]) -> usize {
    actions.iter().filter(|a| **a == Action::Release).count()
}

#[test]
fn terminal_is_taken_in_order() {
    assert_eq!(
        acquire_ops(),
        vec![
            TerminalOp::EnableRawMode,
            TerminalOp::EnterAlternateScreen,
            TerminalOp::HideCursor
        ]
    );
}

#[test]
fn terminal_is_given_back_in_reverse_order() {
    assert_eq!(
        release_ops(),
        vec![
            TerminalOp::ShowCursor,
            TerminalOp::LeaveAlternateScreen,
            TerminalOp::DisableRawMode
        ]
    );
}

#[test]
fn unwinding_reverses_and_inverts() {
    assert_eq!(unwind_ops(&vec![]), vec![]);
    assert_eq!(
        unwind_ops(&vec![TerminalOp::HideCursor, TerminalOp::EnableRawMode]),
        vec![TerminalOp::DisableRawMode, TerminalOp::ShowCursor]
    );
    let taken = acquire_ops();
    assert_eq!(unwind_ops(&unwind_ops(&taken)), taken);
    for op in [
        TerminalOp::EnableRawMode,
        TerminalOp::EnterAlternateScreen,
        TerminalOp::HideCursor,
        TerminalOp::ShowCursor,
        TerminalOp::LeaveAlternateScreen,
        TerminalOp::DisableRawMode,
    ] {
        assert_ne!(op.inverse(), op);
        assert_eq!(op.inverse().inverse(), op);
    }
}

#[test]
fn exit_codes() {
    assert_eq!(ExitStatus::Clean.code(), 0);
    assert_eq!(ExitStatus::Failed.code(), 1);
}

#[test]
fn session_starts_by_taking_the_terminal() {
    let s = Session::open(grid(4), EmptyGlyph::Dot);
    assert_eq!(s.phase(), Phase::Acquiring);
    assert_eq!(s.pending(), Action::Acquire);
    assert_eq!(s.pending(), Action::Acquire);
    assert_eq!(s.grid().len(), 4);
}

#[test]
fn session_draws_then_reads_in_turn() {
    let mut s = Session::open(grid(2), EmptyGlyph::Dot);
    let frame0 = render(s.grid(), EmptyGlyph::Dot);
    assert_eq!(s.advance(Report::Done), Action::Draw(frame0));
    assert_eq!(s.phase(), Phase::Drawing);
    assert_eq!(s.advance(Report::Done), Action::ReadEvent);
    assert_eq!(s.phase(), Phase::Reading);
    let action = s.advance(down());
    assert_eq!(s.grid().selection(), 1);
    assert_eq!(action, Action::Draw(render(s.grid(), EmptyGlyph::Dot)));
    assert_eq!(s.advance(Report::Done), Action::ReadEvent);
    let action = s.advance(Report::Event(InputEvent::Resize(100, 40)));
    assert_eq!(s.grid().selection(), 1);
    assert_eq!(action, Action::Draw(render(s.grid(), EmptyGlyph::Dot)));
}

#[test]
fn clean_quit_releases_once_and_exits_with_zero() {
    let mut s = Session::open(grid(2), EmptyGlyph::Dot);
    let actions = drive(
        &mut s,
        &[Report::Done, Report::Done, down(), Report::Done, quit(), Report::Done, Report::Done],
    );
    assert_eq!(actions.len(), 8);
    assert_eq!(actions[0], Action::Acquire);
    assert!(matches!(actions[1], Action::Draw(_)));
    assert_eq!(actions[2], Action::ReadEvent);
    assert!(matches!(actions[3], Action::Draw(_)));
    assert_eq!(actions[4], Action::ReadEvent);
    assert_eq!(actions[5], Action::Release);
    assert_eq!(actions[6], Action::Exit(ExitStatus::Clean));
    assert_eq!(actions[7], Action::Exit(ExitStatus::Clean));
    assert_eq!(count_releases(&actions), 1);
    assert_eq!(s.phase(), Phase::Closed);
    assert!(!s.grid().is_running());
}

#[test]
fn fault_while_reading_releases_exactly_once() {
    let mut s = Session::open(grid(2), EmptyGlyph::Dot);
    let actions = drive(
        &mut s,
        &[Report::Done, Report::Done, Report::Fault, Report::Done, Report::Done, Report::Fault],
    );
    assert_eq!(actions[2], Action::ReadEvent);
    assert_eq!(actions[3], Action::Release);
    assert_eq!(actions[4], Action::Exit(ExitStatus::Failed));
    assert_eq!(actions[5], Action::Exit(ExitStatus::Failed));
    assert_eq!(actions[6], Action::Exit(ExitStatus::Failed));
    assert_eq!(count_releases(&actions), 1);
    assert_eq!(ExitStatus::Failed.code(), 1);
}

#[test]
fn fault_while_drawing_releases_exactly_once() {
    let mut s = Session::open(grid(2), EmptyGlyph::Dot);
    let actions = drive(&mut s, &[Report::Done, Report::Fault, Report::Done, Report::Done]);
    assert!(matches!(actions[1], Action::Draw(_)));
    assert_eq!(actions[2], Action::Release);
    assert_eq!(actions[3], Action::Exit(ExitStatus::Failed));
    assert_eq!(count_releases(&actions), 1);
}

#[test]
fn fault_while_acquiring_still_releases() {
    let mut s = Session::open(grid(2), EmptyGlyph::Dot);
    let actions = drive(&mut s, &[Report::Fault, Report::Done]);
    assert_eq!(actions[0], Action::Acquire);
    assert_eq!(actions[1], Action::Release);
    assert_eq!(actions[2], Action::Exit(ExitStatus::Failed));
    assert_eq!(count_releases(&actions), 1);
}

#[test]
fn fault_while_releasing_fails_the_session_without_a_second_release() {
    let mut s = Session::open(grid(2), EmptyGlyph::Dot);
    let actions =
        drive(&mut s, &[Report::Done, Report::Done, quit(), Report::Fault, Report::Done]);
    assert_eq!(actions[3], Action::Release);
    assert_eq!(actions[4], Action::Exit(ExitStatus::Failed));
    assert_eq!(actions[5], Action::Exit(ExitStatus::Failed));
    assert_eq!(count_releases(&actions), 1);
}

#[test]
fn report_out_of_turn_counts_as_a_fault() {
    let mut s = Session::open(grid(2), EmptyGlyph::Dot);
    let actions = drive(&mut s, &[down(), Report::Done]);
    assert_eq!(actions[1], Action::Release);
    assert_eq!(actions[2], Action::Exit(ExitStatus::Failed));
    assert_eq!(s.grid().selection(), 0);

    let mut s = Session::open(grid(2), EmptyGlyph::Dot);
    let actions = drive(&mut s, &[Report::Done, Report::Done, Report::Done, Report::Done]);
    assert_eq!(actions[2], Action::ReadEvent);
    assert_eq!(actions[3], Action::Release);
    assert_eq!(actions[4], Action::Exit(ExitStatus::Failed));
}

#[test]
fn a_stopped_grid_is_never_drawn() {
    let mut g = grid(2);
    g.request_quit();
    let mut s = Session::open(g, EmptyGlyph::Dot);
    let actions = drive(&mut s, &[Report::Done, Report::Done, Report::Done]);
    assert_eq!(
        actions,
        vec![
            Action::Acquire,
            Action::Release,
            Action::Exit(ExitStatus::Clean),
            Action::Exit(ExitStatus::Clean)
        ]
    );
}

#[test]
fn releases_never_exceed_one_under_any_reports() {
    let choices = [Report::Done, Report::Fault, down(), quit(), Report::Event(InputEvent::Other)];
    let mut seed: u32 = 2024;
    for _ in 0..300 {
        let mut s = Session::open(grid(3), EmptyGlyph::Dot);
        let mut reports = Vec::new();
        for _ in 0..12 {
            seed = seed.wrapping_mul(1664525).wrapping_add(1013904223);
            reports.push(choices[((seed >> 16) % 5) as usize]);
        }
        let actions = drive(&mut s, &reports);
        let releases = count_releases(&actions);
        assert!(releases <= 1);
        let held = matches!(s.phase(), Phase::Acquiring | Phase::Drawing | Phase::Reading);
        assert_eq!(releases, if held { 0 } else { 1 });
        if s.phase() == Phase::Closed {
            assert_eq!(releases, 1);
        }
        let first_release = actions.iter().position(|a| *a == Action::Release);
        if let Some(at) = first_release {
            for later in &actions[at + 1..] {
                assert!(matches!(later, Action::Exit(_)));
            }
        }
    }
}

#[test]
fn end_to_end_session() {
    let mut g = grid(32);
    let mut key: u8 = 12;
    let mut index: usize = 12;
    while index < 32 {
        let note = Note::new(key, 1).expect("a key within range");
        assert_eq!(g.set_cell(index, Cell::Occupied(note)), Ok(()));
        key += 2;
        index += 2;
    }
    let mut s = Session::open(g, EmptyGlyph::Dot);
    assert_eq!(s.pending(), Action::Acquire);

    let first = match s.advance(Report::Done) {
        Action::Draw(ops) => ops,
        other => panic!("expected a frame, got {other:?}"),
    };
    assert_eq!(first.len(), 3 * 32 + 4);
    assert_eq!(first[0], DrawOp::ClearScreen);
    assert_eq!(first[1], DrawOp::MoveTo(0, 0));
    assert_eq!(first[2], DrawOp::SetColors(Color::White, Color::Black));
    assert_eq!(first[3], DrawOp::Text(String::from(".......")));
    assert_eq!(first[4], DrawOp::ResetColors);
    assert_eq!(first[5], DrawOp::NextLine);
    assert_eq!(first[3 + 3 * 12], DrawOp::Text(String::from("C 0 001")));
    assert_eq!(first[3 + 3 * 13], DrawOp::Text(String::from(".......")));
    assert_eq!(first[3 + 3 * 14], DrawOp::Text(String::from("D 0 001")));
    assert_eq!(first[3 + 3 * 30], DrawOp::Text(String::from("F#1 001")));
    assert_eq!(first[first.len() - 1], DrawOp::Flush);

    let mut frames = 1;
    for press in 1..=31usize {
        assert_eq!(s.advance(Report::Done), Action::ReadEvent);
        assert!(matches!(s.advance(down()), Action::Draw(_)));
        frames += 1;
        assert_eq!(s.grid().selection(), press);
    }
    assert_eq!(s.grid().selection(), 31);
    assert_eq!(s.advance(Report::Done), Action::ReadEvent);
    let last = match s.advance(down()) {
        Action::Draw(ops) => ops,
        other => panic!("expected a frame, got {other:?}"),
    };
    frames += 1;
    assert_eq!(s.grid().selection(), 31);
    assert_eq!(last[2 + 3 * 31], DrawOp::SetColors(Color::White, Color::Black));
    assert_eq!(last[3 + 3 * 31], DrawOp::Text(String::from(".......")));
    assert_eq!(frames, 33);

    assert_eq!(s.advance(Report::Done), Action::ReadEvent);
    assert_eq!(s.advance(quit()), Action::Release);
    assert!(!s.grid().is_running());
    assert_eq!(s.advance(Report::Done), Action::Exit(ExitStatus::Clean));
    for _ in 0..3 {
        assert_eq!(s.advance(Report::Done), Action::Exit(ExitStatus::Clean));
        assert_eq!(s.phase(), Phase::Closed);
    }
}
