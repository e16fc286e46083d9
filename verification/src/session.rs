//! The session: what to do next on the terminal, and when to let go of it.
//!
//! A session takes the terminal, then draws a frame and reads an event in
//! turn until the grid stops running, then gives the terminal back and
//! ends. The caller does the work on the terminal: it performs the action
//! that the session hands out and reports how that went. Whatever goes
//! wrong on the way, the session asks for the terminal to be given back
//! before it ends, and asks once.

use crate::grid::{Grid, GridView};
use crate::input::{InputEvent, QUIT_KEY};
use crate::render::{frame, render, DrawOp, DrawOpView};
use crate::text::EmptyGlyph;
use vstd::prelude::*;

verus! {

/// One change of the terminal's mode.
#[derive(Clone, Copy, Debug, PartialEq, Eq, Structural)]
pub enum TerminalOp {
    /// Deliver keys at once, unbuffered and without echo.
    EnableRawMode,
    /// Switch to the separate full-screen buffer.
    EnterAlternateScreen,
    HideCursor,
    ShowCursor,
    /// Switch back to the buffer that was shown before.
    LeaveAlternateScreen,
    /// Deliver input by lines again.
    DisableRawMode,
}

impl TerminalOp {
    /// The operation that puts back what this one changed.
    pub open spec fn undone_by(self) -> TerminalOp {
        match self {
            TerminalOp::EnableRawMode => TerminalOp::DisableRawMode,
            TerminalOp::EnterAlternateScreen => TerminalOp::LeaveAlternateScreen,
            TerminalOp::HideCursor => TerminalOp::ShowCursor,
            TerminalOp::ShowCursor => TerminalOp::HideCursor,
            TerminalOp::LeaveAlternateScreen => TerminalOp::EnterAlternateScreen,
            TerminalOp::DisableRawMode => TerminalOp::EnableRawMode,
        }
    }

    /// The operation that puts back what this one changed.
    pub fn inverse(self) -> (op: TerminalOp)
        ensures
            op == self.undone_by(),
    {
        match self {
            TerminalOp::EnableRawMode => TerminalOp::DisableRawMode,
            TerminalOp::EnterAlternateScreen => TerminalOp::LeaveAlternateScreen,
            TerminalOp::HideCursor => TerminalOp::ShowCursor,
            TerminalOp::ShowCursor => TerminalOp::HideCursor,
            TerminalOp::LeaveAlternateScreen => TerminalOp::EnterAlternateScreen,
            TerminalOp::DisableRawMode => TerminalOp::EnableRawMode,
        }
    }
}

/// What a session does to the terminal when it starts: raw mode, the
/// alternate screen, and no cursor.
pub open spec fn acquisition() -> Seq<TerminalOp> {
    seq![TerminalOp::EnableRawMode, TerminalOp::EnterAlternateScreen, TerminalOp::HideCursor]
}

/// What undoes a list of mode changes: the inverse of each, last first.
pub open spec fn unwinding(ops: Seq<TerminalOp>) -> Seq<TerminalOp> {
    Seq::new(ops.len(), |i: int| ops[ops.len() - 1 - i].undone_by())
}

/// What a session does to the terminal when it ends.
pub open spec fn restoration() -> Seq<TerminalOp> {
    unwinding(acquisition())
}

/// Giving the terminal back shows the cursor, leaves the alternate screen
/// and disables raw mode, in that order: the reverse of how it was taken.
pub proof fn lemma_restoration_order()
    ensures
        restoration() == seq![
            TerminalOp::ShowCursor,
            TerminalOp::LeaveAlternateScreen,
            TerminalOp::DisableRawMode,
        ],
{
    assert(restoration() =~= seq![
        TerminalOp::ShowCursor,
        TerminalOp::LeaveAlternateScreen,
        TerminalOp::DisableRawMode,
    ]);
}

/// Undoing twice gives the list that one started from.
pub proof fn lemma_unwinding_twice(ops: Seq<TerminalOp>)
    ensures
        unwinding(unwinding(ops)) == ops,
{
    assert(unwinding(unwinding(ops)) =~= ops);
}

/// The mode changes that take the terminal, in the order to perform them.
pub fn acquire_ops() -> (ops: Vec<TerminalOp>)
    ensures
        ops@ == acquisition(),
{
    let mut ops: Vec<TerminalOp> = Vec::new();
    ops.push(TerminalOp::EnableRawMode);
    ops.push(TerminalOp::EnterAlternateScreen);
    ops.push(TerminalOp::HideCursor);
    assert(ops@ =~= acquisition());
    ops
}

/// The mode changes that undo `ops`, in the order to perform them.
pub fn unwind_ops(ops: &Vec<TerminalOp>) -> (undo: Vec<TerminalOp>)
    ensures
        undo@ == unwinding(ops@),
{
    let mut undo: Vec<TerminalOp> = Vec::new();
    let mut left: usize = ops.len();
    while left > 0
        invariant
            left <= ops.len(),
            undo.len() == ops.len() - left,
            forall|i: int| 0 <= i < undo.len() ==> undo[i] == ops[ops.len() - 1 - i].undone_by(),
        decreases left,
    {
        left = left - 1;
        undo.push(ops[left].inverse());
    }
    assert(undo@ =~= unwinding(ops@));
    undo
}

/// The mode changes that give the terminal back, in the order to perform
/// them.
pub fn release_ops() -> (ops: Vec<TerminalOp>)
    ensures
        ops@ == restoration(),
{
    let taken = acquire_ops();
    unwind_ops(&taken)
}

/// Where a session stands. In each phase one action is owed to the caller.
#[derive(Clone, Copy, Debug, PartialEq, Eq, Structural)]
pub enum Phase {
    /// The terminal is being taken.
    Acquiring,
    /// A frame is being drawn.
    Drawing,
    /// An event is awaited.
    Reading,
    /// The terminal is being given back.
    Releasing,
    /// The session is over.
    Closed,
}

/// How an action went.
#[derive(Clone, Copy, Debug, PartialEq, Eq, Structural)]
pub enum Report {
    /// The action was carried out.
    Done,
    /// The event that was read.
    Event(InputEvent),
    /// The terminal failed.
    Fault,
}

/// How a session ended.
#[derive(Clone, Copy, Debug, PartialEq, Eq, Structural)]
pub enum ExitStatus {
    /// The user quit and the terminal never failed.
    Clean,
    /// The terminal failed at some point.
    Failed,
}

impl ExitStatus {
    /// The exit code of the process: 0 after a clean session, 1 otherwise.
    pub open spec fn spec_code(&self) -> u8 {
        match self {
            ExitStatus::Clean => 0,
            ExitStatus::Failed => 1,
        }
    }

    /// The exit code of the process: 0 after a clean session, 1 otherwise.
    #[verifier::when_used_as_spec(spec_code)]
    pub fn code(&self) -> (code: u8)
        ensures
            code == self.spec_code(),
    {
        match self {
            ExitStatus::Clean => 0,
            ExitStatus::Failed => 1,
        }
    }
}

/// What the caller is to do next.
#[derive(Debug, PartialEq, Eq)]
pub enum Action {
    /// Perform `acquire_ops()`.
    Acquire,
    /// Perform these drawing operations.
    Draw(Vec<DrawOp>),
    /// Wait for one event and report it.
    ReadEvent,
    /// Perform `release_ops()`.
    Release,
    /// Leave with this status. Nothing is left to report.
    Exit(ExitStatus),
}

/// An action as plain values.
pub enum ActionView {
    Acquire,
    Draw(Seq<DrawOpView>),
    ReadEvent,
    Release,
    Exit(ExitStatus),
}

impl View for Action {
    type V = ActionView;

    open spec fn view(&self) -> ActionView {
        match self {
            Action::Acquire => ActionView::Acquire,
            Action::Draw(ops) => ActionView::Draw(ops.deep_view()),
            Action::ReadEvent => ActionView::ReadEvent,
            Action::Release => ActionView::Release,
            Action::Exit(status) => ActionView::Exit(*status),
        }
    }
}

/// What a session is, as plain values.
pub struct SessionView {
    pub grid: GridView,
    pub glyph: EmptyGlyph,
    pub phase: Phase,
    /// Whether the terminal has failed since the session was opened.
    pub faulted: bool,
}

impl SessionView {
    /// A session that has just been opened.
    pub open spec fn opened(grid: GridView, glyph: EmptyGlyph) -> SessionView {
        SessionView { grid, glyph, phase: Phase::Acquiring, faulted: false }
    }

    /// The grid is valid, and a frame is drawn or an event read only while
    /// the grid is running.
    pub open spec fn valid(self) -> bool {
        &&& self.grid.valid()
        &&& (self.phase == Phase::Drawing || self.phase == Phase::Reading) ==> self.grid.running
    }

    /// Whether the session has taken the terminal and not yet asked to give
    /// it back.
    pub open spec fn holds_terminal(self) -> bool {
        self.phase == Phase::Acquiring || self.phase == Phase::Drawing || self.phase
            == Phase::Reading
    }

    /// How the session ends if it ends now.
    pub open spec fn status(self) -> ExitStatus {
        if self.faulted {
            ExitStatus::Failed
        } else {
            ExitStatus::Clean
        }
    }

    /// The action that is owed to the caller in this phase.
    pub open spec fn pending(self) -> ActionView {
        match self.phase {
            Phase::Acquiring => ActionView::Acquire,
            Phase::Drawing => ActionView::Draw(frame(self.grid, self.glyph)),
            Phase::Reading => ActionView::ReadEvent,
            Phase::Releasing => ActionView::Release,
            Phase::Closed => ActionView::Exit(self.status()),
        }
    }

    /// Whether a report is the one that the phase waits for: an event while
    /// reading, and `Done` otherwise. A closed session waits for nothing.
    pub open spec fn expects(self, report: Report) -> bool {
        match self.phase {
            Phase::Reading => report is Event,
            Phase::Closed => true,
            _ => report is Done,
        }
    }

    /// The session at the top of its loop: it draws if the grid is running
    /// and gives the terminal back if not.
    pub open spec fn resumed(self) -> SessionView {
        SessionView {
            phase: if self.grid.running {
                Phase::Drawing
            } else {
                Phase::Releasing
            },
            ..self
        }
    }

    /// The session after a failure: it gives the terminal back.
    pub open spec fn failed(self) -> SessionView {
        SessionView { phase: Phase::Releasing, faulted: true, ..self }
    }

    /// The session after a report on its pending action.
    pub open spec fn next_state(self, report: Report) -> SessionView {
        match self.phase {
            Phase::Closed => self,
            Phase::Releasing => SessionView {
                phase: Phase::Closed,
                faulted: self.faulted || !(report is Done),
                ..self
            },
            Phase::Acquiring => if report is Done {
                self.resumed()
            } else {
                self.failed()
            },
            Phase::Drawing => if report is Done {
                SessionView { phase: Phase::Reading, ..self }
            } else {
                self.failed()
            },
            Phase::Reading => match report {
                Report::Event(event) => SessionView {
                    grid: self.grid.apply(event),
                    ..self
                }.resumed(),
                _ => self.failed(),
            },
        }
    }

    /// The action that answers a report.
    pub open spec fn next_action(self, report: Report) -> ActionView {
        self.next_state(report).pending()
    }

    /// The session after a sequence of reports, first to last.
    pub open spec fn run(self, reports: Seq<Report>) -> SessionView
        decreases reports.len(),
    {
        if reports.len() == 0 {
            self
        } else {
            self.run(reports.drop_last()).next_state(reports.last())
        }
    }

    /// How many of the actions that answered these reports were `Release`.
    pub open spec fn releases(self, reports: Seq<Report>) -> nat
        decreases reports.len(),
    {
        if reports.len() == 0 {
            0
        } else {
            self.releases(reports.drop_last()) + if self.run(reports).pending()
                == ActionView::Release {
                1nat
            } else {
                0nat
            }
        }
    }

    /// One if the session still has to give the terminal back, zero if it
    /// has asked for that or never will.
    pub open spec fn releases_owed(self) -> nat {
        if self.holds_terminal() {
            1
        } else {
            0
        }
    }

    /// A report leaves a valid session valid, changes no step of the grid
    /// and never clears the mark of a failure.
    pub proof fn lemma_next_state_is_tame(self, report: Report)
        requires
            self.valid(),
        ensures
            self.next_state(report).valid(),
            self.next_state(report).grid.cells == self.grid.cells,
            self.next_state(report).glyph == self.glyph,
            self.faulted ==> self.next_state(report).faulted,
            !self.grid.running ==> !self.next_state(report).grid.running,
    {
        match report {
            Report::Event(event) => {
                self.grid.lemma_apply_is_tame(event);
            },
            _ => {},
        }
    }

    /// While the session holds the terminal, a fault is never what its phase
    /// waits for, and any report that the phase does not wait for is
    /// answered by `Release` and marks the session as failed.
    pub proof fn lemma_fault_releases(self, report: Report)
        requires
            self.holds_terminal(),
            report == Report::Fault || !self.expects(report),
        ensures
            !self.expects(report),
            self.next_action(report) == ActionView::Release,
            self.next_state(report).faulted,
            self.next_state(report).grid == self.grid,
    {
    }

    /// Whatever is reported on the release, the session then ends, with a
    /// failure if one was ever reported, and stays ended: it hands out the
    /// same `Exit` from then on.
    pub proof fn lemma_release_then_exit(self, report: Report, later: Report)
        requires
            self.phase == Phase::Releasing,
        ensures
            self.next_action(report) == ActionView::Exit(
                if self.faulted || !(report is Done) {
                    ExitStatus::Failed
                } else {
                    ExitStatus::Clean
                },
            ),
            self.next_state(report).next_state(later) == self.next_state(report),
            self.next_state(report).next_action(later) == self.next_action(report),
    {
    }

    /// The quit key ends the loop at once: the answer to it is `Release`,
    /// not another frame.
    pub proof fn lemma_quit_ends_loop(self)
        requires
            self.phase == Phase::Reading,
        ensures
            self.next_action(Report::Event(InputEvent::Char(QUIT_KEY))) == ActionView::Release,
            !self.next_state(Report::Event(InputEvent::Char(QUIT_KEY))).grid.running,
            self.next_state(Report::Event(InputEvent::Char(QUIT_KEY))).faulted == self.faulted,
    {
    }

    /// Once the grid has stopped, no frame is drawn and no event read.
    pub proof fn lemma_stopped_grid_never_draws(self, reports: Seq<Report>)
        requires
            self.valid(),
            !self.grid.running,
        ensures
            self.run(reports).valid(),
            !self.run(reports).grid.running,
            self.run(reports).phase != Phase::Drawing,
            self.run(reports).phase != Phase::Reading,
        decreases reports.len(),
    {
        if reports.len() > 0 {
            self.lemma_stopped_grid_never_draws(reports.drop_last());
            self.run(reports.drop_last()).lemma_next_state_is_tame(reports.last());
        }
    }

    /// Every report either leaves the session holding the terminal, or is
    /// answered by the one `Release`, or finds the terminal given back
    /// already.
    pub proof fn lemma_release_paid_once(self, reports: Seq<Report>)
        ensures
            self.releases(reports) + self.run(reports).releases_owed() == self.releases_owed(),
        decreases reports.len(),
    {
        if reports.len() > 0 {
            self.lemma_release_paid_once(reports.drop_last());
        }
    }

    /// A session asks for the terminal to be given back exactly once before
    /// it ends, whatever was reported to it on the way, faults included, and
    /// never while it still draws or reads.
    pub proof fn lemma_exactly_one_release(
        grid: GridView,
        glyph: EmptyGlyph,
        reports: Seq<Report>,
    )
        ensures
            Self::opened(grid, glyph).releases(reports) == if Self::opened(grid, glyph).run(
                reports,
            ).holds_terminal() {
                0nat
            } else {
                1nat
            },
            Self::opened(grid, glyph).run(reports).phase == Phase::Closed ==> Self::opened(
                grid,
                glyph,
            ).releases(reports) == 1,
    {
        Self::opened(grid, glyph).lemma_release_paid_once(reports);
    }

    /// A session is marked as failed exactly if it was so before, or some
    /// report since was not the one that its phase waited for. So it ends
    /// cleanly exactly if nothing ever went wrong.
    pub proof fn lemma_faulted_iff_unexpected(self, reports: Seq<Report>)
        ensures
            self.run(reports).faulted <==> self.faulted || exists|k: int|
                0 <= k < reports.len() && !(#[trigger] self.run(reports.take(k))).expects(
                    reports[k],
                ),
        decreases reports.len(),
    {
        if reports.len() > 0 {
            let front = reports.drop_last();
            let last = reports.len() - 1;
            self.lemma_faulted_iff_unexpected(front);
            assert(reports.take(last) =~= front);
            assert forall|k: int| 0 <= k < last implies reports.take(k) == front.take(k) by {
                assert(reports.take(k) =~= front.take(k));
            }
            if self.run(reports).faulted && !self.faulted {
                if self.run(front).faulted {
                    let k = choose|k: int|
                        0 <= k < front.len() && !(#[trigger] self.run(front.take(k))).expects(
                            front[k],
                        );
                    assert(reports.take(k) == front.take(k));
                    assert(!self.run(reports.take(k)).expects(reports[k]));
                } else {
                    assert(!self.run(reports.take(last)).expects(reports[last]));
                }
            }
            if exists|k: int|
                0 <= k < reports.len() && !(#[trigger] self.run(reports.take(k))).expects(
                    reports[k],
                ) {
                let k = choose|k: int|
                    0 <= k < reports.len() && !(#[trigger] self.run(reports.take(k))).expects(
                        reports[k],
                    );
                if k < last {
                    assert(reports.take(k) == front.take(k));
                    assert(!self.run(front.take(k)).expects(front[k]));
                    assert(self.run(front).faulted);
                }
            }
        }
    }
}

/// A running session: the grid, how silent steps are shown, and the phase.
pub struct Session {
    grid: Grid,
    glyph: EmptyGlyph,
    phase: Phase,
    faulted: bool,
}

impl View for Session {
    type V = SessionView;

    closed spec fn view(&self) -> SessionView {
        SessionView {
            grid: self.grid@,
            glyph: self.glyph,
            phase: self.phase,
            faulted: self.faulted,
        }
    }
}

impl Session {
    /// Opens a session on a grid. The first action it owes is `Acquire`.
    pub fn open(grid: Grid, glyph: EmptyGlyph) -> (session: Session)
        ensures
            session@ == SessionView::opened(grid@, glyph),
            session@.valid(),
    {
        proof {
            use_type_invariant(&grid);
        }
        Session { grid, glyph, phase: Phase::Acquiring, faulted: false }
    }

    /// The grid of the session.
    pub fn grid(&self) -> (grid: &Grid)
        ensures
            grid@ == self@.grid,
    {
        &self.grid
    }

    /// The phase the session is in.
    pub fn phase(&self) -> (phase: Phase)
        ensures
            phase == self@.phase,
    {
        self.phase
    }

    /// The action that the session owes in its phase. Asking again gives the
    /// same action; only a report moves the session on.
    pub fn pending(&self) -> (action: Action)
        ensures
            action@ == self@.pending(),
    {
        match self.phase {
            Phase::Acquiring => Action::Acquire,
            Phase::Drawing => Action::Draw(render(&self.grid, self.glyph)),
            Phase::Reading => Action::ReadEvent,
            Phase::Releasing => Action::Release,
            Phase::Closed => Action::Exit(
                if self.faulted {
                    ExitStatus::Failed
                } else {
                    ExitStatus::Clean
                },
            ),
        }
    }

    /// Takes the report on the pending action and hands out the next one.
    pub fn advance(&mut self, report: Report) -> (action: Action)
        ensures
            final(self)@ == old(self)@.next_state(report),
            action@ == old(self)@.next_action(report),
            old(self)@.valid() ==> final(self)@.valid(),
    {
        proof {
            if self@.valid() {
                self@.lemma_next_state_is_tame(report);
            }
        }
        match self.phase {
            Phase::Closed => {},
            Phase::Releasing => {
                match report {
                    Report::Done => {},
                    _ => {
                        self.faulted = true;
                    },
                }
                self.phase = Phase::Closed;
            },
            Phase::Acquiring => {
                match report {
                    Report::Done => self.resume(),
                    _ => self.fail(),
                }
            },
            Phase::Drawing => {
                match report {
                    Report::Done => {
                        self.phase = Phase::Reading;
                    },
                    _ => self.fail(),
                }
            },
            Phase::Reading => {
                match report {
                    Report::Event(event) => {
                        self.grid.apply(event);
                        self.resume();
                    },
                    _ => self.fail(),
                }
            },
        }
        self.pending()
    }

    /// Goes back to the top of the loop.
    fn resume(&mut self)
        ensures
            final(self)@ == old(self)@.resumed(),
    {
        if self.grid.is_running() {
            self.phase = Phase::Drawing;
        } else {
            self.phase = Phase::Releasing;
        }
    }

    /// Marks the failure and turns to giving the terminal back.
    fn fail(&mut self)
        ensures
            final(self)@ == old(self)@.failed(),
    {
        self.faulted = true;
        self.phase = Phase::Releasing;
    }
}

} // verus!
