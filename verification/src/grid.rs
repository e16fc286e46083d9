//! The grid: a fixed column of steps, a cursor on one of them, and the flag
//! that keeps the session going.

use crate::note::{Cell, Note, MAX_KEY};
use vstd::prelude::*;

verus! {

/// The pitch that the demo pattern puts on the first step.
pub const DEMO_FIRST_KEY: u8 = 12;

/// The instrument of every note in the demo pattern.
pub const DEMO_INSTRUMENT: u8 = 1;

/// Why a grid operation was turned down.
#[derive(Clone, Copy, Debug, PartialEq, Eq, Structural)]
pub enum GridError {
    /// A grid needs at least one step for its cursor to stand on.
    ZeroLength,
    /// The grid has no step with that index.
    OutOfRange,
}

/// What a grid is, as plain values.
pub struct GridView {
    pub cells: Seq<Cell>,
    pub selection: nat,
    pub running: bool,
}

/// One change to a grid.
pub enum Operation {
    MoveUp,
    MoveDown,
    RequestQuit,
    SetCell(int, Cell),
}

/// The same operation `times` times over.
pub open spec fn repeated(op: Operation, times: nat) -> Seq<Operation> {
    Seq::new(times, |i: int| op)
}

impl GridView {
    /// The cursor stands on a step of the grid, so the grid has one.
    pub open spec fn valid(self) -> bool {
        self.selection < self.cells.len()
    }

    /// A fresh grid: every step silent, the cursor on the first, running.
    pub open spec fn initial(length: nat) -> GridView {
        GridView { cells: Seq::new(length, |i: int| Cell::Empty), selection: 0, running: true }
    }

    /// The cursor one step up, or where it was if it stood on the first.
    pub open spec fn move_up(self) -> GridView {
        if self.selection > 0 {
            GridView { selection: (self.selection - 1) as nat, ..self }
        } else {
            self
        }
    }

    /// The cursor one step down, or where it was if it stood on the last.
    pub open spec fn move_down(self) -> GridView {
        if self.selection + 1 < self.cells.len() {
            GridView { selection: self.selection + 1, ..self }
        } else {
            self
        }
    }

    /// The grid after a request to quit.
    pub open spec fn quit(self) -> GridView {
        GridView { running: false, ..self }
    }

    /// Whether the grid has a step with this index.
    pub open spec fn has_step(self, index: int) -> bool {
        0 <= index < self.cells.len()
    }

    /// The grid with one step replaced, or as it was if it has no such step.
    pub open spec fn with_cell(self, index: int, cell: Cell) -> GridView {
        if self.has_step(index) {
            GridView { cells: self.cells.update(index, cell), ..self }
        } else {
            self
        }
    }

    /// Whether the demo pattern puts a note on this step: the step is an
    /// even one, and the pitch that falls to it is not above `MAX_KEY`.
    pub open spec fn demo_fills(index: int) -> bool {
        index % 2 == 0 && DEMO_FIRST_KEY + index <= MAX_KEY
    }

    /// The note that the demo pattern puts on a step: pitches ascend by one
    /// per step from `DEMO_FIRST_KEY`.
    pub open spec fn demo_note(index: int) -> Note {
        Note::with((DEMO_FIRST_KEY + index) as u8, DEMO_INSTRUMENT)
    }

    /// The grid with the demo pattern laid over it. Steps that the pattern
    /// does not fill keep what they hold.
    pub open spec fn seeded(self) -> GridView {
        GridView {
            cells: Seq::new(
                self.cells.len(),
                |i: int|
                    if Self::demo_fills(i) {
                        Cell::Occupied(Self::demo_note(i))
                    } else {
                        self.cells[i]
                    },
            ),
            ..self
        }
    }

    /// The grid after one operation.
    pub open spec fn after(self, op: Operation) -> GridView {
        match op {
            Operation::MoveUp => self.move_up(),
            Operation::MoveDown => self.move_down(),
            Operation::RequestQuit => self.quit(),
            Operation::SetCell(index, cell) => self.with_cell(index, cell),
        }
    }

    /// The grid after a sequence of operations, first to last.
    pub open spec fn after_all(self, ops: Seq<Operation>) -> GridView
        decreases ops.len(),
    {
        if ops.len() == 0 {
            self
        } else {
            self.after_all(ops.drop_last()).after(ops.last())
        }
    }

    /// No operation moves the cursor off the grid or changes the number of
    /// steps.
    pub proof fn lemma_after_keeps_valid(self, op: Operation)
        requires
            self.valid(),
        ensures
            self.after(op).valid(),
            self.after(op).cells.len() == self.cells.len(),
    {
    }

    /// However many operations are performed, the cursor stays on a step of
    /// the grid and the grid keeps its length.
    pub proof fn lemma_after_all_keeps_valid(self, ops: Seq<Operation>)
        requires
            self.valid(),
        ensures
            self.after_all(ops).valid(),
            self.after_all(ops).cells.len() == self.cells.len(),
        decreases ops.len(),
    {
        if ops.len() > 0 {
            self.lemma_after_all_keeps_valid(ops.drop_last());
            self.after_all(ops.drop_last()).lemma_after_keeps_valid(ops.last());
        }
    }

    /// Moving up from the first step changes nothing, and so does moving
    /// down from the last.
    pub proof fn lemma_moves_stop_at_the_ends(self)
        requires
            self.valid(),
        ensures
            self.selection == 0 ==> self.move_up() == self,
            self.selection == self.cells.len() - 1 ==> self.move_down() == self,
            self.selection > 0 ==> self.move_up().selection == self.selection - 1,
            self.selection < self.cells.len() - 1 ==> self.move_down().selection
                == self.selection + 1,
    {
    }

    /// Moving down `times` times in a row takes the cursor that many steps
    /// down, but no further than the last step. Nothing else changes.
    pub proof fn lemma_moving_down_clamps(self, times: nat)
        requires
            self.valid(),
        ensures
            self.after_all(repeated(Operation::MoveDown, times)) == (GridView {
                selection: if self.selection + times < self.cells.len() {
                    self.selection + times
                } else {
                    (self.cells.len() - 1) as nat
                },
                ..self
            }),
        decreases times,
    {
        let ops = repeated(Operation::MoveDown, times);
        if times > 0 {
            assert(ops.drop_last() =~= repeated(Operation::MoveDown, (times - 1) as nat));
            self.lemma_moving_down_clamps((times - 1) as nat);
        }
    }

    /// Moving up `times` times in a row takes the cursor that many steps up,
    /// but no further than the first step. Nothing else changes.
    pub proof fn lemma_moving_up_clamps(self, times: nat)
        requires
            self.valid(),
        ensures
            self.after_all(repeated(Operation::MoveUp, times)) == (GridView {
                selection: if self.selection >= times {
                    (self.selection - times) as nat
                } else {
                    0
                },
                ..self
            }),
        decreases times,
    {
        let ops = repeated(Operation::MoveUp, times);
        if times > 0 {
            assert(ops.drop_last() =~= repeated(Operation::MoveUp, (times - 1) as nat));
            self.lemma_moving_up_clamps((times - 1) as nat);
        }
    }

    /// A second request to quit changes nothing.
    pub proof fn lemma_quit_twice(self)
        ensures
            self.quit().quit() == self.quit(),
            !self.quit().running,
    {
    }

    /// No operation starts a stopped grid again.
    pub proof fn lemma_after_keeps_stopped(self, op: Operation)
        requires
            !self.running,
        ensures
            !self.after(op).running,
    {
    }

    /// Once stopped, a grid stays stopped whatever is done to it.
    pub proof fn lemma_after_all_keeps_stopped(self, ops: Seq<Operation>)
        requires
            !self.running,
        ensures
            !self.after_all(ops).running,
        decreases ops.len(),
    {
        if ops.len() > 0 {
            self.lemma_after_all_keeps_stopped(ops.drop_last());
            self.after_all(ops.drop_last()).lemma_after_keeps_stopped(ops.last());
        }
    }

    /// A request to quit anywhere in a sequence of operations leaves the
    /// grid stopped at its end.
    pub proof fn lemma_quit_lasts(self, before: Seq<Operation>, later: Seq<Operation>)
        ensures
            !self.after_all(before.push(Operation::RequestQuit) + later).running,
        decreases later.len(),
    {
        let all = before.push(Operation::RequestQuit) + later;
        if later.len() == 0 {
            assert(all =~= before.push(Operation::RequestQuit));
            assert(all.drop_last() =~= before);
        } else {
            assert(all.drop_last() =~= before.push(Operation::RequestQuit) + later.drop_last());
            assert(all.last() == later.last());
            self.lemma_quit_lasts(before, later.drop_last());
            self.after_all(all.drop_last()).lemma_after_keeps_stopped(all.last());
        }
    }
}

/// The tracker's state: the steps, the cursor and the run flag.
///
/// The number of steps is fixed when the grid is made. The cursor always
/// stands on one of them.
pub struct Grid {
    cells: Vec<Cell>,
    selection: usize,
    running: bool,
}

impl View for Grid {
    type V = GridView;

    closed spec fn view(&self) -> GridView {
        GridView { cells: self.cells@, selection: self.selection as nat, running: self.running }
    }
}

impl Grid {
    /// What holds of every grid: the cursor stands on one of its steps.
    #[verifier::type_invariant]
    pub open spec fn well_formed(self) -> bool {
        self@.valid()
    }

    /// Makes a grid of `length` silent steps, with the cursor on the first
    /// and the run flag set. A grid of no steps is refused.
    pub fn create(length: usize) -> (made: Result<Grid, GridError>)
        ensures
            length == 0 ==> made == Err::<Grid, GridError>(GridError::ZeroLength),
            length > 0 ==> made is Ok && made->Ok_0@ == GridView::initial(length as nat),
            made is Ok ==> made->Ok_0@.valid(),
    {
        if length == 0 {
            return Err(GridError::ZeroLength);
        }
        let mut cells: Vec<Cell> = Vec::new();
        while cells.len() < length
            invariant
                cells.len() <= length,
                forall|i: int| 0 <= i < cells.len() ==> cells[i] == Cell::Empty,
            decreases length - cells.len(),
        {
            cells.push(Cell::Empty);
        }
        let made = Grid { cells, selection: 0, running: true };
        assert(made@.cells =~= GridView::initial(length as nat).cells);
        Ok(made)
    }

    /// The number of steps, which is never zero.
    pub fn len(&self) -> (length: usize)
        ensures
            length == self@.cells.len(),
            length >= 1,
    {
        proof {
            use_type_invariant(self);
        }
        self.cells.len()
    }

    /// The index of the step under the cursor.
    pub fn selection(&self) -> (index: usize)
        ensures
            index == self@.selection,
            index < self@.cells.len(),
    {
        proof {
            use_type_invariant(self);
        }
        self.selection
    }

    /// Whether the session should go on.
    pub fn is_running(&self) -> (running: bool)
        ensures
            running == self@.running,
    {
        self.running
    }

    /// The steps, first to last.
    pub fn cells(&self) -> (cells: &Vec<Cell>)
        ensures
            cells@ == self@.cells,
    {
        &self.cells
    }

    /// The cell of a step, if the grid has that step.
    pub fn cell(&self, index: usize) -> (cell: Option<Cell>)
        ensures
            cell == if self@.has_step(index as int) {
                Some(self@.cells[index as int])
            } else {
                None
            },
    {
        if index < self.cells.len() {
            Some(self.cells[index])
        } else {
            None
        }
    }

    /// Moves the cursor one step up. On the first step it stays.
    pub fn move_selection_up(&mut self)
        ensures
            final(self)@ == old(self)@.move_up(),
            final(self)@.valid(),
    {
        proof {
            use_type_invariant(&*self);
        }
        if self.selection > 0 {
            self.selection = self.selection - 1;
        }
    }

    /// Moves the cursor one step down. On the last step it stays.
    pub fn move_selection_down(&mut self)
        ensures
            final(self)@ == old(self)@.move_down(),
            final(self)@.valid(),
    {
        proof {
            use_type_invariant(&*self);
        }
        if self.selection < self.cells.len() - 1 {
            self.selection = self.selection + 1;
        }
    }

    /// Clears the run flag. Nothing sets it again.
    pub fn request_quit(&mut self)
        ensures
            final(self)@ == old(self)@.quit(),
            final(self)@.valid(),
    {
        proof {
            use_type_invariant(&*self);
        }
        self.running = false;
    }

    /// Replaces the cell of one step. A grid without that step is left as
    /// it was.
    pub fn set_cell(&mut self, index: usize, cell: Cell) -> (done: Result<(), GridError>)
        ensures
            final(self)@ == old(self)@.with_cell(index as int, cell),
            final(self)@.valid(),
            done == if old(self)@.has_step(index as int) {
                Ok::<(), GridError>(())
            } else {
                Err::<(), GridError>(GridError::OutOfRange)
            },
    {
        proof {
            use_type_invariant(&*self);
        }
        if index < self.cells.len() {
            self.cells[index] = cell;
            Ok(())
        } else {
            Err(GridError::OutOfRange)
        }
    }

    /// Lays the demo pattern over the grid: every even step gets a note of
    /// instrument `DEMO_INSTRUMENT`, the pitches ascending by one per step
    /// from `DEMO_FIRST_KEY`, as far as pitches go.
    pub fn seed_demo(&mut self)
        ensures
            final(self)@ == old(self)@.seeded(),
            final(self)@.valid(),
    {
        proof {
            use_type_invariant(&*self);
        }
        let length = self.cells.len();
        let mut index: usize = 0;
        while index < length
            invariant
                index <= length,
                self@.cells.len() == length,
                old(self)@.cells.len() == length,
                self@.selection == old(self)@.selection,
                self@.running == old(self)@.running,
                self@.valid(),
                forall|i: int| 0 <= i < index ==> self@.cells[i] == old(self)@.seeded().cells[i],
                forall|i: int| index <= i < length ==> self@.cells[i] == old(self)@.cells[i],
            decreases length - index,
        {
            if index % 2 == 0 && index <= (MAX_KEY - DEMO_FIRST_KEY) as usize {
                let key: u8 = DEMO_FIRST_KEY + index as u8;
                if let Some(note) = Note::new(key, DEMO_INSTRUMENT) {
                    let _ = self.set_cell(index, Cell::Occupied(note));
                }
            }
            index = index + 1;
        }
        assert(self@.cells =~= old(self)@.seeded().cells);
    }
}

} // verus!
