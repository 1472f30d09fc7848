//! A two-dimensional cellular automaton on a fixed-size toroidal grid.
//!
//! The grid is a dense row-major buffer of cells. Each generation every
//! cell looks at its eight neighbors (Moore neighborhood, with wraparound
//! at the edges) and lives or dies by the survival/birth rule.

use vstd::prelude::*;
use vstd::string::StringExecFns;

verus! {

/// One cell of the automaton: alive or dead.
#[derive(Clone, Copy, Debug, PartialEq, Eq, Structural)]
pub enum Cell {
    Dead,
    Alive,
}

/// The numeric weight of a cell when summing live neighbors.
pub open spec fn cell_score(c: Cell) -> nat {
    match c {
        Cell::Dead => 0,
        Cell::Alive => 1,
    }
}

/// Toroidal wraparound of one coordinate. The caller passes the home
/// coordinate plus a delta in {0, 1, 2}, which stands for an offset in
/// {-1, 0, +1}; the normalized coordinate is therefore (value - 1)
/// modulo the bound, with value 0 wrapping to bound - 1.
pub open spec fn wrap_coordinate(value: int, bound: int) -> int {
    (value - 1) % bound
}

/// Why a grid could not be constructed.
#[derive(Clone, Copy, Debug, PartialEq, Eq, Structural)]
pub enum GridError {
    /// A dimension of zero leaves no cell to simulate and would break
    /// wraparound, which divides by the dimension.
    InvalidDimensions,
}

/// The deterministic initial pattern: the cell at linear index i starts
/// alive exactly when i is a multiple of 2 or a multiple of 7.
pub open spec fn initial_cell(i: int) -> Cell {
    if i % 2 == 0 || i % 7 == 0 {
        Cell::Alive
    } else {
        Cell::Dead
    }
}

/// The survival/birth rule of the automaton. An alive cell dies of
/// underpopulation below two live neighbors, survives on two or three,
/// and dies of overpopulation above three; a dead cell is born on
/// exactly three live neighbors and otherwise stays dead.
pub open spec fn next_cell(current: Cell, live_neighbors: nat) -> Cell {
    match current {
        Cell::Alive => if live_neighbors < 2 {
            Cell::Dead
        } else if live_neighbors <= 3 {
            Cell::Alive
        } else {
            Cell::Dead
        },
        Cell::Dead => if live_neighbors == 3 {
            Cell::Alive
        } else {
            Cell::Dead
        },
    }
}

/// The glyph that stands for one cell in the textual snapshot.
pub open spec fn glyph(c: Cell) -> char {
    match c {
        Cell::Dead => '◻',
        Cell::Alive => '◼',
    }
}

/// A fixed-size toroidal grid of cells, mutated in place one
/// generation at a time.
pub struct Universe {
    width: u32,
    height: u32,
    cells: Vec<Cell>,
}

impl Universe {
    /// Number of columns.
    pub closed spec fn spec_width(self) -> u32 {
        self.width
    }

    /// Number of rows.
    pub closed spec fn spec_height(self) -> u32 {
        self.height
    }

    /// The cell buffer, row-major: the cell at (row, column) sits at
    /// linear index row * width + column.
    pub closed spec fn spec_cells(self) -> Seq<Cell> {
        self.cells@
    }

    /// Well-formedness: both dimensions are positive, small enough that
    /// a coordinate plus a delta of two still fits in u32, and the
    /// buffer holds exactly width * height cells.
    pub open spec fn wf(self) -> bool {
        &&& 1 <= self.spec_width() < u32::MAX
        &&& 1 <= self.spec_height() < u32::MAX
        &&& self.spec_cells().len() == self.spec_width() * self.spec_height()
    }

    /// The cell at (row, column), for in-range coordinates.
    pub open spec fn cell_at(self, row: int, column: int) -> Cell {
        self.spec_cells()[row * self.spec_width() + column]
    }

    /// The weight that the neighbor at relative offset (dr - 1, dc - 1)
    /// from (row, column) contributes, after wraparound.
    pub open spec fn neighbor_score(self, row: int, column: int, dr: int, dc: int) -> nat {
        cell_score(self.cell_at(
            wrap_coordinate(row + dr, self.spec_height() as int),
            wrap_coordinate(column + dc, self.spec_width() as int),
        ))
    }

    /// How many of the eight Moore neighbors of (row, column) are alive:
    /// the sum over the 3x3 block of shifted deltas, the center (1, 1)
    /// left out.
    pub open spec fn neighbor_count(self, row: int, column: int) -> nat {
        self.neighbor_score(row, column, 0, 0) + self.neighbor_score(row, column, 0, 1)
            + self.neighbor_score(row, column, 0, 2) + self.neighbor_score(row, column, 1, 0)
            + self.neighbor_score(row, column, 1, 2) + self.neighbor_score(row, column, 2, 0)
            + self.neighbor_score(row, column, 2, 1) + self.neighbor_score(row, column, 2, 2)
    }

    /// The weight contributed by the k-th delta pair, the pairs (dr, dc)
    /// with dr, dc in {0, 1, 2} enumerated row-major as k = 3 * dr + dc.
    /// The center pair k == 4 is the cell itself and contributes nothing.
    pub open spec fn delta_pair_score(self, row: int, column: int, k: int) -> nat {
        if k == 4 {
            0
        } else {
            self.neighbor_score(row, column, k / 3, k % 3)
        }
    }

    /// Sum of the weights of the first k of the nine delta pairs.
    pub open spec fn neighbor_count_upto(self, row: int, column: int, k: int) -> nat
        decreases k,
    {
        if k <= 0 {
            0
        } else {
            self.neighbor_count_upto(row, column, k - 1) + self.delta_pair_score(
                row,
                column,
                k - 1,
            )
        }
    }

    /// Each delta pair weighs at most one, so the partial sums grow at
    /// most by one per pair.
    proof fn lemma_neighbor_count_upto_bound(self, row: int, column: int, k: int)
        requires
            k >= 0,
        ensures
            self.neighbor_count_upto(row, column, k) <= k,
        decreases k,
    {
        if k > 0 {
            self.lemma_neighbor_count_upto_bound(row, column, k - 1);
        }
    }

    /// All nine delta pairs together give exactly the Moore neighbor count.
    proof fn lemma_neighbor_count_upto_full(self, row: int, column: int)
        ensures
            self.neighbor_count_upto(row, column, 9) == self.neighbor_count(row, column),
    {
        reveal_with_fuel(Universe::neighbor_count_upto, 10);
    }

    /// Row-major linear index of (row, column).
    fn get_index(&self, row: u32, column: u32) -> (idx: usize)
        requires
            self.wf(),
            row < self.spec_height(),
            column < self.spec_width(),
        ensures
            idx == row * self.spec_width() + column,
            idx < self.spec_cells().len(),
    {
        proof {
            assert(self.cells.len() == self.spec_cells().len());
            assert(row * self.spec_width() + column < self.spec_height() * self.spec_width())
                by (nonlinear_arith)
                requires
                    row < self.spec_height(),
                    column < self.spec_width(),
            ;
        }
        (row as usize) * (self.width as usize) + (column as usize)
    }

    /// Wrap a shifted coordinate back onto the torus: 0 becomes
    /// coord_max - 1, every other value becomes (value - 1) % coord_max.
    pub fn normalize_coordinate(&self, value: u32, coord_max: u32) -> (r: u32)
        requires
            coord_max >= 1,
        ensures
            r == wrap_coordinate(value as int, coord_max as int),
            r < coord_max,
    {
        if value == 0 {
            proof {
                vstd::arithmetic::div_mod::lemma_mod_add_multiples_vanish(-1, coord_max as int);
                vstd::arithmetic::div_mod::lemma_small_mod((coord_max - 1) as nat, coord_max as nat);
            }
            (coord_max - 1) % coord_max
        } else {
            (value - 1) % coord_max
        }
    }

    /// How many of the eight Moore neighbors of (row, column) are alive,
    /// summed over the 3x3 block of delta pairs with the center skipped.
    pub fn get_live_neighbor_count(&self, row: u32, column: u32) -> (count: u8)
        requires
            self.wf(),
            row < self.spec_height(),
            column < self.spec_width(),
        ensures
            count == self.neighbor_count(row as int, column as int),
            count <= 8,
    {
        let mut counter: u8 = 0;
        let mut delta_row: u32 = 0;

        while delta_row < 3
            invariant
                self.wf(),
                row < self.spec_height(),
                column < self.spec_width(),
                delta_row <= 3,
                counter == self.neighbor_count_upto(row as int, column as int, 3 * delta_row),
                counter <= 3 * delta_row,
            decreases 3 - delta_row,
        {
            let mut delta_column: u32 = 0;
            while delta_column < 3
                invariant
                    self.wf(),
                    row < self.spec_height(),
                    column < self.spec_width(),
                    delta_row < 3,
                    delta_column <= 3,
                    counter == self.neighbor_count_upto(
                        row as int,
                        column as int,
                        3 * delta_row + delta_column,
                    ),
                    counter <= 3 * delta_row + delta_column,
                decreases 3 - delta_column,
            {
                let ghost k: int = 3 * delta_row + delta_column;
                proof {
                    self.lemma_neighbor_count_upto_bound(row as int, column as int, k);
                    assert(k / 3 == delta_row && k % 3 == delta_column) by (nonlinear_arith)
                        requires
                            k == 3 * delta_row + delta_column,
                            delta_row < 3,
                            delta_column < 3,
                    ;
                }
                if !(delta_row == 1 && delta_column == 1) {
                    let curr_row = self.normalize_coordinate(row + delta_row, self.height);
                    let curr_column = self.normalize_coordinate(column + delta_column, self.width);
                    let idx = self.get_index(curr_row, curr_column);
                    let score: u8 = match self.cells[idx] {
                        Cell::Dead => 0,
                        Cell::Alive => 1,
                    };
                    counter = counter + score;
                }
                delta_column = delta_column + 1;
            }
            delta_row = delta_row + 1;
        }

        proof {
            self.lemma_neighbor_count_upto_full(row as int, column as int);
        }
        counter
    }

    /// The entire next generation: cell i of the result is the rule
    /// applied to cell i of the current buffer and the live-neighbor
    /// count of its (row, column) position.
    pub open spec fn next_generation(self) -> Seq<Cell> {
        Seq::new(
            self.spec_cells().len(),
            |i: int|
                next_cell(
                    self.spec_cells()[i],
                    self.neighbor_count(
                        i / self.spec_width() as int,
                        i % self.spec_width() as int,
                    ),
                ),
        )
    }

    /// How one generation relates to the next: the dimensions are kept
    /// and the buffer becomes exactly the next generation.
    pub open spec fn advances_to(self, post: Universe) -> bool {
        &&& post.spec_width() == self.spec_width()
        &&& post.spec_height() == self.spec_height()
        &&& post.spec_cells() == self.next_generation()
    }

    /// Whether two grids hold the same observable state: equal
    /// dimensions and equal cell buffers.
    pub open spec fn same_state(self, other: Universe) -> bool {
        &&& self.spec_width() == other.spec_width()
        &&& self.spec_height() == other.spec_height()
        &&& self.spec_cells() == other.spec_cells()
    }

    /// Compute the next generation into a fresh buffer, row by row.
    /// The column loop deliberately runs to the width, not the height,
    /// so every cell is recomputed even on a non-square grid.
    fn compute_next_cells(&self) -> (next_cells: Vec<Cell>)
        requires
            self.wf(),
        ensures
            next_cells@ == self.next_generation(),
    {
        let mut next_cells: Vec<Cell> = Vec::new();
        let mut row: u32 = 0;

        while row < self.height
            invariant
                self.wf(),
                row <= self.spec_height(),
                next_cells@.len() == row * self.spec_width(),
                forall|i: int|
                    0 <= i < next_cells@.len() ==> next_cells@[i] == self.next_generation()[i],
            decreases self.spec_height() - row,
        {
            let mut col: u32 = 0;
            while col < self.width
                invariant
                    self.wf(),
                    row < self.spec_height(),
                    col <= self.spec_width(),
                    next_cells@.len() == row * self.spec_width() + col,
                    forall|i: int|
                        0 <= i < next_cells@.len() ==> next_cells@[i]
                            == self.next_generation()[i],
                decreases self.spec_width() - col,
            {
                let idx = self.get_index(row, col);
                let cell = self.cells[idx];
                let live_neighbors = self.get_live_neighbor_count(row, col);

                let next_state: Cell = match cell {
                    Cell::Alive => if live_neighbors < 2 {
                        Cell::Dead
                    } else if live_neighbors <= 3 {
                        Cell::Alive
                    } else {
                        Cell::Dead
                    },
                    Cell::Dead => if live_neighbors == 3 {
                        Cell::Alive
                    } else {
                        Cell::Dead
                    },
                };

                proof {
                    vstd::arithmetic::div_mod::lemma_fundamental_div_mod_converse(
                        idx as int,
                        self.spec_width() as int,
                        row as int,
                        col as int,
                    );
                }
                next_cells.push(next_state);
                col = col + 1;
            }
            proof {
                assert((row + 1) * self.spec_width() == row * self.spec_width()
                    + self.spec_width()) by (nonlinear_arith);
            }
            row = row + 1;
        }

        proof {
            assert(self.spec_height() * self.spec_width() == self.spec_width()
                * self.spec_height()) by (nonlinear_arith);
            assert(next_cells@ =~= self.next_generation());
        }
        next_cells
    }

    /// Advance the grid by exactly one generation, in place. The new
    /// buffer is computed from the old one as a whole, so no partially
    /// advanced state is ever visible.
    pub fn tick(&mut self)
        requires
            old(self).wf(),
        ensures
            final(self).wf(),
            old(self).advances_to(*final(self)),
    {
        let next_cells = self.compute_next_cells();
        self.cells = next_cells;
    }

    /// Build a grid of the given dimensions filled with the initial
    /// pattern. Rejects a zero dimension, and only a zero dimension.
    pub fn new_with_dimensions(width: u32, height: u32) -> (result: Result<Universe, GridError>)
        requires
            width < u32::MAX,
            height < u32::MAX,
            width * height <= usize::MAX,
        ensures
            result is Ok <==> width >= 1 && height >= 1,
            match result {
                Ok(universe) => {
                    &&& universe.wf()
                    &&& universe.spec_width() == width
                    &&& universe.spec_height() == height
                    &&& forall|i: int|
                        0 <= i < universe.spec_cells().len() ==> #[trigger] universe.spec_cells()[i]
                            == initial_cell(i)
                },
                Err(e) => e == GridError::InvalidDimensions,
            },
    {
        if width == 0 || height == 0 {
            return Err(GridError::InvalidDimensions);
        }

        let total: usize = (width as usize) * (height as usize);
        let mut cells: Vec<Cell> = Vec::new();
        let mut i: usize = 0;
        while i < total
            invariant
                i <= total,
                cells@.len() == i,
                forall|j: int| 0 <= j < i ==> cells@[j] == initial_cell(j),
            decreases total - i,
        {
            if i % 2 == 0 || i % 7 == 0 {
                cells.push(Cell::Alive);
            } else {
                cells.push(Cell::Dead);
            }
            i = i + 1;
        }

        Ok(Universe { width, height, cells })
    }

    /// Build the default 64 x 64 grid filled with the initial pattern.
    pub fn new() -> (universe: Universe)
        ensures
            universe.wf(),
            universe.spec_width() == 64,
            universe.spec_height() == 64,
            forall|i: int|
                0 <= i < universe.spec_cells().len() ==> #[trigger] universe.spec_cells()[i]
                    == initial_cell(i),
    {
        match Universe::new_with_dimensions(64, 64) {
            Ok(universe) => universe,
            Err(_) => vstd::pervasive::unreached(),
        }
    }

    /// Read the cell at (row, column).
    pub fn get_cell(&self, row: u32, column: u32) -> (cell: Cell)
        requires
            self.wf(),
            row < self.spec_height(),
            column < self.spec_width(),
        ensures
            cell == self.cell_at(row as int, column as int),
    {
        let idx = self.get_index(row, column);
        self.cells[idx]
    }

    /// Overwrite the cell at (row, column), leaving every other cell
    /// and the dimensions as they were.
    pub fn set_cell(&mut self, row: u32, column: u32, cell: Cell)
        requires
            old(self).wf(),
            row < old(self).spec_height(),
            column < old(self).spec_width(),
        ensures
            final(self).wf(),
            final(self).spec_width() == old(self).spec_width(),
            final(self).spec_height() == old(self).spec_height(),
            final(self).spec_cells() == old(self).spec_cells().update(
                row * old(self).spec_width() + column,
                cell,
            ),
    {
        let idx = self.get_index(row, column);
        self.cells[idx] = cell;
    }

    /// One rendered row: a glyph for each of the width cells of the
    /// row, followed by a newline.
    pub open spec fn rendered_row(self, row: int) -> Seq<char> {
        Seq::new(
            (self.spec_width() + 1) as nat,
            |j: int|
                if j == self.spec_width() {
                    '\n'
                } else {
                    glyph(self.cell_at(row, j))
                },
        )
    }

    /// The first n rendered rows, concatenated top to bottom.
    pub open spec fn rendered_rows_upto(self, n: int) -> Seq<char>
        decreases n,
    {
        if n <= 0 {
            Seq::empty()
        } else {
            self.rendered_rows_upto(n - 1) + self.rendered_row(n - 1)
        }
    }

    /// The full textual snapshot: every row rendered in order.
    pub open spec fn rendered(self) -> Seq<char> {
        self.rendered_rows_upto(self.spec_height() as int)
    }

    /// Produce the textual snapshot: one line per row, one glyph per
    /// cell, each line closed by a newline. Read-only.
    pub fn render(&self) -> (text: String)
        requires
            self.wf(),
        ensures
            text@ == self.rendered(),
    {
        let mut text = String::new();
        let mut row: u32 = 0;

        while row < self.height
            invariant
                self.wf(),
                row <= self.spec_height(),
                text@ == self.rendered_rows_upto(row as int),
            decreases self.spec_height() - row,
        {
            proof {
                assert(text@ =~= self.rendered_rows_upto(row as int) + self.rendered_row(
                    row as int,
                ).subrange(0, 0));
            }
            let mut col: u32 = 0;
            while col < self.width
                invariant
                    self.wf(),
                    row < self.spec_height(),
                    col <= self.spec_width(),
                    text@ == self.rendered_rows_upto(row as int) + self.rendered_row(
                        row as int,
                    ).subrange(0, col as int),
                decreases self.spec_width() - col,
            {
                let idx = self.get_index(row, col);
                match self.cells[idx] {
                    Cell::Dead => text.append("◻"),
                    Cell::Alive => text.append("◼"),
                }
                proof {
                    reveal_strlit("◻");
                    reveal_strlit("◼");
                    assert(text@ =~= self.rendered_rows_upto(row as int) + self.rendered_row(
                        row as int,
                    ).subrange(0, col as int + 1));
                }
                col = col + 1;
            }
            text.append("\n");
            proof {
                reveal_strlit("\n");
                assert(text@ =~= self.rendered_rows_upto(row as int + 1));
            }
            row = row + 1;
        }
        text
    }
}

} // verus!
