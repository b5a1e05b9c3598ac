//! Board engine for a connect-four game: the grid of cells, the
//! column-drop placement rule, and the four-in-a-row detector.
use std::ops::RangeInclusive;
use vstd::prelude::*;

verus! {

const GRID_NB_COLUMNS: usize = 7;

const GRID_NB_ROWS: usize = 6;

/// The occupancy state of one board position.
#[derive(Debug, Copy, Clone, PartialEq, Eq, Structural)]
pub enum Case {
    RED,
    YELLOW,
    EMPTY,
}

/// One of the two competing sides.
#[derive(Debug, Copy, Clone, PartialEq, Eq, Structural)]
pub enum Player {
    RED,
    YELLOW,
}

/// Everything that can go wrong in the board engine.
#[derive(Debug, Copy, Clone, PartialEq, Eq, Structural)]
pub enum GridError {
    /// A placement was attempted in a column with no remaining capacity.
    ColumnFull,
    /// An empty cell was asked to name the side occupying it.
    InvalidSideConversion,
}

impl Player {
    /// The cell value a piece of this side leaves on the board.
    pub open spec fn case_spec(self) -> Case {
        match self {
            Player::RED => Case::RED,
            Player::YELLOW => Case::YELLOW,
        }
    }

    /// The side a player's pieces mark is never the empty cell.
    pub proof fn lemma_case_not_empty(self)
        ensures
            self.case_spec() != Case::EMPTY,
    {
    }

    pub open spec fn opponent_spec(self) -> Player {
        match self {
            Player::RED => Player::YELLOW,
            Player::YELLOW => Player::RED,
        }
    }

    pub fn opponent(self) -> (p: Player)
        ensures
            p == self.opponent_spec(),
    {
        match self {
            Player::RED => Player::YELLOW,
            Player::YELLOW => Player::RED,
        }
    }

    /// Convert this side to the cell value it occupies; total.
    pub fn case(self) -> (c: Case)
        ensures
            c == self.case_spec(),
    {
        match self {
            Player::RED => Case::RED,
            Player::YELLOW => Case::YELLOW,
        }
    }
}

impl Case {
    /// Convert a cell back to the side occupying it; fails on an empty cell.
    pub fn player(self) -> (r: Result<Player, GridError>)
        ensures
            match r {
                Ok(p) => self == p.case_spec(),
                Err(e) => self == Case::EMPTY && e == GridError::InvalidSideConversion,
            },
    {
        match self {
            Case::RED => Ok(Player::RED),
            Case::YELLOW => Ok(Player::YELLOW),
            Case::EMPTY => Err(GridError::InvalidSideConversion),
        }
    }
}

/// The fixed dimensions of a board: a positive number of rows and columns.
#[derive(Debug, Copy, Clone, PartialEq, Eq, Structural)]
pub struct Size {
    pub rows: usize,
    pub columns: usize,
}

impl Size {
    /// Both dimensions are positive, and small enough that probing three
    /// cells past either edge cannot overflow a coordinate.
    pub open spec fn wf(self) -> bool {
        &&& 1 <= self.rows <= usize::MAX - 3
        &&& 1 <= self.columns <= usize::MAX - 3
    }
}

/// One column of the board: its cells from bottom to top, and the cursor
/// naming the next row (1-based) that a placement in this column will fill.
#[derive(Debug)]
struct GridColumn {
    cases: Vec<Case>,
    current_case: usize,
}

/// A column is well formed when it holds exactly `rows` cells, its cursor
/// stays within `1 ..= rows + 1`, and the cells below the cursor are exactly
/// the occupied ones: placements fill a column bottom-up with no gaps.
spec fn col_wf(col: GridColumn, rows: int) -> bool {
    &&& col.cases@.len() == rows
    &&& 1 <= col.current_case <= rows + 1
    &&& forall|r: int|
        0 <= r < rows ==> ((#[trigger] col.cases@[r]) != Case::EMPTY <==> r < col.current_case - 1)
}

/// The four forward-leaning direction vectors `(dc, dr)` a line scan tests
/// from each cell: vertical, horizontal, ascending diagonal, and the
/// opposite diagonal. Every four-in-a-row line is found from one of its end
/// cells along one of these, so the backward-leaning vectors are redundant.
pub open spec fn dir_ok(dc: int, dr: int) -> bool {
    ||| (dc == 0 && dr == 1)
    ||| (dc == 1 && dr == 0)
    ||| (dc == 1 && dr == 1)
    ||| (dc == -1 && dr == 1)
}

/// Any of the eight unit direction vectors.
pub open spec fn dir_any(dc: int, dr: int) -> bool {
    &&& !(dc == 0 && dr == 0)
    &&& -1 <= dc <= 1
    &&& -1 <= dr <= 1
}

/// The board: one `GridColumn` per column, plus its dimensions.
#[derive(Debug)]
pub struct Grid {
    grid: Vec<GridColumn>,
    size: Size,
}

impl Grid {
    /// The dimensions this board was created with.
    pub closed spec fn size_spec(self) -> Size {
        self.size
    }

    /// The cell at a 1-based coordinate; any coordinate outside the board
    /// reads as `EMPTY`, so line scans may probe past the edges safely.
    pub closed spec fn cell_spec(self, column: int, row: int) -> Case {
        if 1 <= column <= self.size.columns && 1 <= row <= self.size.rows {
            self.grid@[column - 1].cases@[row - 1]
        } else {
            Case::EMPTY
        }
    }

    /// The cursor of a column: the 1-based row its next placement fills.
    pub closed spec fn cursor_spec(self, column: int) -> int {
        self.grid@[column - 1].current_case as int
    }

    /// The board invariant: dimensions are well formed, there is one column
    /// per column index, and every column is well formed.
    pub closed spec fn wf(self) -> bool {
        &&& self.size.wf()
        &&& self.grid@.len() == self.size.columns
        &&& forall|k: int| 0 <= k < self.grid@.len() ==> col_wf(#[trigger] self.grid@[k], self.size.rows as int)
    }

    /// Whether a 1-based coordinate lies on the board.
    pub open spec fn in_range(self, column: int, row: int) -> bool {
        1 <= column <= self.size_spec().columns && 1 <= row <= self.size_spec().rows
    }

    /// Whether a column has no remaining capacity.
    pub open spec fn col_full_spec(self, column: int) -> bool {
        self.cursor_spec(column) > self.size_spec().rows
    }

    /// Whether every column of the board is full.
    pub open spec fn full_spec(self) -> bool {
        forall|c: int| 1 <= c <= self.size_spec().columns ==> self.col_full_spec(c)
    }

    /// A coordinate off the board always reads as the empty cell.
    pub proof fn lemma_cell_out_of_range(self, column: int, row: int)
        requires
            !self.in_range(column, row),
        ensures
            self.cell_spec(column, row) == Case::EMPTY,
    {
    }

    /// On a well-formed board the cursor of every column stays within
    /// `1 ..= rows + 1`.
    pub proof fn lemma_cursor_in_bounds(self, column: int)
        requires
            self.wf(),
            1 <= column <= self.size_spec().columns,
        ensures
            1 <= self.cursor_spec(column) <= self.size_spec().rows + 1,
    {
    }

    /// Placements fill a column bottom-up with no gaps: on a well-formed
    /// board a cell is occupied exactly when it lies below its column's
    /// cursor, so the cursor is always 1 plus the number of occupied cells.
    pub proof fn lemma_bottom_up_fill(self, column: int, row: int)
        requires
            self.wf(),
            self.in_range(column, row),
        ensures
            self.cell_spec(column, row) != Case::EMPTY <==> row < self.cursor_spec(column),
    {
    }

    /// A fresh board of the given dimensions: all cells empty, all cursors 1.
    pub fn new(size: Size) -> (g: Grid)
        requires
            size.wf(),
        ensures
            g.wf(),
            g.size_spec() == size,
            forall|c: int, r: int| g.cell_spec(c, r) == Case::EMPTY,
            forall|c: int| 1 <= c <= size.columns ==> g.cursor_spec(c) == 1,
    {
        let mut columns: Vec<GridColumn> = Vec::new();
        let mut i: usize = 0;
        while i < size.columns
            invariant
                i <= size.columns,
                columns@.len() == i,
                forall|k: int| 0 <= k < i ==> (#[trigger] columns@[k]).current_case == 1,
                forall|k: int| 0 <= k < i ==> (#[trigger] columns@[k]).cases@.len() == size.rows,
                forall|k: int, r: int|
                    0 <= k < i && 0 <= r < size.rows ==> (#[trigger] columns@[k].cases@[r])
                        == Case::EMPTY,
            decreases size.columns - i,
        {
            let mut cases: Vec<Case> = Vec::new();
            let mut j: usize = 0;
            while j < size.rows
                invariant
                    j <= size.rows,
                    cases@.len() == j,
                    forall|r: int| 0 <= r < j ==> (#[trigger] cases@[r]) == Case::EMPTY,
                decreases size.rows - j,
            {
                cases.push(Case::EMPTY);
                j += 1;
            }
            columns.push(GridColumn { cases, current_case: 1 });
            i += 1;
        }
        Grid { grid: columns, size }
    }

    /// A fresh board of the default dimensions, 6 rows by 7 columns.
    pub fn new_default() -> (g: Grid)
        ensures
            g.wf(),
            g.size_spec() == (Size { rows: 6, columns: 7 }),
            forall|c: int, r: int| g.cell_spec(c, r) == Case::EMPTY,
            forall|c: int| 1 <= c <= 7 ==> g.cursor_spec(c) == 1,
    {
        Grid::new(Size { rows: GRID_NB_ROWS, columns: GRID_NB_COLUMNS })
    }

    /// Read one cell; a coordinate outside `[1, columns] x [1, rows]`
    /// returns `EMPTY` rather than raising an error.
    pub fn get_case(&self, column: usize, row: usize) -> (c: Case)
        requires
            self.wf(),
        ensures
            c == self.cell_spec(column as int, row as int),
            !self.in_range(column as int, row as int) ==> c == Case::EMPTY,
    {
        if column > self.get_size().columns || row > self.get_size().rows || column < 1 || row < 1 {
            return Case::EMPTY;
        }
        self.grid[column - 1].cases[row - 1]
    }

    /// The dimensions of the board.
    pub fn get_size(&self) -> (s: Size)
        ensures
            s == self.size_spec(),
    {
        self.size
    }

    /// The cursor of a column: the 1-based row its next placement fills.
    pub fn get_current_case(&self, column: usize) -> (r: usize)
        requires
            self.wf(),
            1 <= column <= self.size_spec().columns,
        ensures
            r == self.cursor_spec(column as int),
    {
        self.grid[column - 1].current_case
    }

    /// The ordered range of valid column indices, `1 ..= columns`.
    pub fn columns_i(&self) -> (r: RangeInclusive<usize>)
        ensures
            r@.start == 1usize,
            r@.end == self.size_spec().columns,
            !r@.exhausted,
    {
        RangeInclusive::new(1, self.size.columns)
    }

    /// The ordered range of valid row indices, `1 ..= rows`.
    pub fn rows_j(&self) -> (r: RangeInclusive<usize>)
        ensures
            r@.start == 1usize,
            r@.end == self.size_spec().rows,
            !r@.exhausted,
    {
        RangeInclusive::new(1, self.size.rows)
    }

    /// Whether a column has no remaining capacity: its cursor has moved
    /// past the highest row.
    pub fn is_column_full(&self, column: usize) -> (r: bool)
        requires
            self.wf(),
            1 <= column <= self.size_spec().columns,
        ensures
            r == self.col_full_spec(column as int),
    {
        self.get_current_case(column) > self.get_size().rows
    }

    /// Whether every column of the board is full.
    pub fn is_full(&self) -> (r: bool)
        requires
            self.wf(),
        ensures
            r == self.full_spec(),
    {
        let size = self.get_size();
        let mut column: usize = 1;
        while column <= size.columns
            invariant
                self.wf(),
                size == self.size_spec(),
                1 <= column <= size.columns + 1,
                forall|c: int| 1 <= c < column ==> self.col_full_spec(c),
            decreases size.columns + 1 - column,
        {
            if !self.is_column_full(column) {
                return false;
            }
            column += 1;
        }
        true
    }

    /// How a successful placement relates the new board to the old one:
    /// the dimensions are kept, the target column's cell at the old cursor
    /// row now holds the mover's piece, that cursor advanced by exactly 1,
    /// and every other cell and cursor is unchanged.
    pub open spec fn place_transition(pre: Grid, post: Grid, column: int, p: Player) -> bool {
        &&& post.size_spec() == pre.size_spec()
        &&& post.cell_spec(column, pre.cursor_spec(column)) == p.case_spec()
        &&& post.cursor_spec(column) == pre.cursor_spec(column) + 1
        &&& forall|c: int, r: int|
            !(c == column && r == pre.cursor_spec(column)) ==> #[trigger] post.cell_spec(c, r)
                == pre.cell_spec(c, r)
        &&& forall|c: int|
            1 <= c <= pre.size_spec().columns && c != column ==> #[trigger] post.cursor_spec(c)
                == pre.cursor_spec(c)
    }

    /// Drop a piece of `choix`'s side into a column. The board itself is
    /// never mutated: a full column is rejected with `ColumnFull` and the
    /// old board stays as it was, and otherwise a new board is returned
    /// whose only change is the placed piece and the advanced cursor.
    pub fn play(&self, column: usize, choix: Player) -> (res: Result<Grid, GridError>)
        requires
            self.wf(),
            1 <= column <= self.size_spec().columns,
        ensures
            match res {
                Ok(g) => !self.col_full_spec(column as int) && g.wf() && Grid::place_transition(
                    *self,
                    g,
                    column as int,
                    choix,
                ),
                Err(e) => self.col_full_spec(column as int) && e == GridError::ColumnFull,
            },
    {
        if self.is_column_full(column) {
            return Err(GridError::ColumnFull);
        }
        let cursor = self.get_current_case(column);
        let mut columns: Vec<GridColumn> = Vec::new();
        let mut i: usize = 0;
        while i < self.grid.len()
            invariant
                self.wf(),
                1 <= column <= self.grid@.len(),
                i <= self.grid@.len(),
                columns@.len() == i,
                forall|k: int|
                    0 <= k < i ==> (#[trigger] columns@[k]).cases@ == self.grid@[k].cases@
                        && columns@[k].current_case == self.grid@[k].current_case,
            decreases self.grid@.len() - i,
        {
            columns.push(self.copy_column(i));
            i += 1;
        }
        let mut grid = Grid { grid: columns, size: self.size };
        grid.set_case(column, cursor, choix.case());
        grid.grid[column - 1].current_case = cursor + 1;
        proof {
            assert forall|k: int| 0 <= k < grid.grid@.len() implies col_wf(
                #[trigger] grid.grid@[k],
                grid.size.rows as int,
            ) by {
                if k == column - 1 {
                    assert(forall|r: int|
                        0 <= r < grid.size.rows ==> ((#[trigger] grid.grid@[k].cases@[r])
                            != Case::EMPTY <==> r < grid.grid@[k].current_case - 1));
                }
            }
            assert forall|c: int, r: int|
                !(c == column && r == self.cursor_spec(column as int)) implies #[trigger] grid
                .cell_spec(c, r) == self.cell_spec(c, r) by {}
        }
        Ok(grid)
    }

    /// A copy of one column, cell for cell, cursor included.
    fn copy_column(&self, k: usize) -> (col: GridColumn)
        requires
            k < self.grid@.len(),
        ensures
            col.cases@ == self.grid@[k as int].cases@,
            col.current_case == self.grid@[k as int].current_case,
    {
        let src = &self.grid[k];
        let mut cases: Vec<Case> = Vec::new();
        let mut j: usize = 0;
        while j < src.cases.len()
            invariant
                j <= src.cases@.len(),
                cases@.len() == j,
                forall|r: int| 0 <= r < j ==> (#[trigger] cases@[r]) == src.cases@[r],
            decreases src.cases@.len() - j,
        {
            cases.push(src.cases[j]);
            j += 1;
        }
        proof {
            assert(cases@ =~= src.cases@);
        }
        GridColumn { cases, current_case: src.current_case }
    }

    /// Overwrite one in-range cell; the only caller is `play`, which uses
    /// it to set the target column's cell at the cursor row.
    fn set_case(&mut self, column: usize, row: usize, case: Case)
        requires
            1 <= column <= old(self).grid@.len(),
            1 <= row <= old(self).grid@[column - 1].cases@.len(),
        ensures
            final(self).grid@.len() == old(self).grid@.len(),
            final(self).grid@[column - 1].cases@ == old(self).grid@[column - 1].cases@.update(
                row - 1,
                case,
            ),
            final(self).grid@[column - 1].current_case == old(self).grid@[column
                - 1].current_case,
            forall|k: int|
                0 <= k < old(self).grid@.len() && k != column - 1
                    ==> #[trigger] final(self).grid@[k] == old(self).grid@[k],
            final(self).size == old(self).size,
    {
        self.grid[column - 1].cases[row - 1] = case;
    }

    /// Whether the cell at `(column, row)` starts a run of four equal
    /// non-empty cells along the vector `(dc, dr)`. A run that leaves the
    /// board fails the equality test against `EMPTY`, so no bound check is
    /// needed here.
    pub open spec fn four_from(self, column: int, row: int, dc: int, dr: int) -> bool {
        &&& self.cell_spec(column, row) != Case::EMPTY
        &&& self.cell_spec(column + dc, row + dr) == self.cell_spec(column, row)
        &&& self.cell_spec(column + 2 * dc, row + 2 * dr) == self.cell_spec(column, row)
        &&& self.cell_spec(column + 3 * dc, row + 3 * dr) == self.cell_spec(column, row)
    }

    /// Whether side `p` owns four aligned cells anywhere on the board.
    pub open spec fn has_four(self, p: Player) -> bool {
        exists|column: int, row: int, dc: int, dr: int|
            dir_ok(dc, dr) && #[trigger] self.four_from(column, row, dc, dr) && self.cell_spec(
                column,
                row,
            ) == p.case_spec()
    }

    /// Whether no run of four starts at `(column, row)` in any direction.
    pub open spec fn no_four_from(self, column: int, row: int) -> bool {
        forall|dc: int, dr: int|
            dir_ok(dc, dr) ==> !(#[trigger] self.four_from(column, row, dc, dr))
    }

    /// Scanning only the four forward-leaning vectors from every cell
    /// misses no line: a run of four equal non-empty cells along any unit
    /// direction is seen from its far end along a forward-leaning vector.
    pub proof fn lemma_forward_directions_suffice(
        self,
        p: Player,
        column: int,
        row: int,
        dc: int,
        dr: int,
    )
        requires
            dir_any(dc, dr),
            self.four_from(column, row, dc, dr),
            self.cell_spec(column, row) == p.case_spec(),
        ensures
            self.has_four(p),
    {
        if dir_ok(dc, dr) {
            assert(self.has_four(p));
        } else {
            // The same four cells, read from the other end.
            assert(self.four_from(column + 3 * dc, row + 3 * dr, -dc, -dr));
            assert(dir_ok(-dc, -dr));
            assert(self.has_four(p));
        }
    }

    /// A placement on a board without a four in a row can only complete a
    /// line for the side that moved: a line new to the board must run
    /// through the one cell the placement changed, and every cell of a
    /// line holds the same side's piece.
    pub proof fn lemma_new_four_belongs_to_mover(
        pre: Grid,
        post: Grid,
        column: int,
        p: Player,
        w: Player,
    )
        requires
            Grid::place_transition(pre, post, column, p),
            forall|q: Player| !pre.has_four(q),
            post.has_four(w),
        ensures
            w == p,
    {
        let (c, r, dc, dr): (int, int, int, int) = choose|c: int, r: int, dc: int, dr: int|
            dir_ok(dc, dr) && #[trigger] post.four_from(c, r, dc, dr) && post.cell_spec(c, r)
                == w.case_spec();
        let cur = pre.cursor_spec(column);
        if post.cell_spec(c, r) == pre.cell_spec(c, r) && post.cell_spec(c + dc, r + dr)
            == pre.cell_spec(c + dc, r + dr) && post.cell_spec(c + 2 * dc, r + 2 * dr)
            == pre.cell_spec(c + 2 * dc, r + 2 * dr) && post.cell_spec(c + 3 * dc, r + 3 * dr)
            == pre.cell_spec(c + 3 * dc, r + 3 * dr) {
            // The line already stood before the move.
            assert(pre.four_from(c, r, dc, dr));
            assert(pre.has_four(w));
            assert(false);
        } else {
            // The line runs through the changed cell, which holds the
            // mover's piece and the winner's piece at once.
            assert(post.cell_spec(column, cur) == w.case_spec());
            assert(post.cell_spec(column, cur) == p.case_spec());
            assert(w == p);
        }
    }

    /// An all-empty board holds no four in a row for either side.
    pub proof fn lemma_empty_board_has_no_four(self, p: Player)
        requires
            forall|c: int, r: int| self.cell_spec(c, r) == Case::EMPTY,
        ensures
            !self.has_four(p),
    {
        if self.has_four(p) {
            let (c, r, dc, dr): (int, int, int, int) = choose|c: int, r: int, dc: int, dr: int|
                dir_ok(dc, dr) && #[trigger] self.four_from(c, r, dc, dr) && self.cell_spec(c, r)
                    == p.case_spec();
            assert(self.cell_spec(c, r) == Case::EMPTY);
            assert(false);
        }
    }

    /// The board is full exactly when every one of its columns is full.
    pub proof fn lemma_full_iff_all_columns_full(self)
        ensures
            self.full_spec() <==> (forall|c: int|
                1 <= c <= self.size_spec().columns ==> self.col_full_spec(c)),
    {
    }

    /// Reading a cell never changes it: two reads of the same coordinate
    /// with no placement in between return the same value.
    pub fn cell_read_twice(&self, column: usize, row: usize) -> (pair: (Case, Case))
        requires
            self.wf(),
        ensures
            pair.0 == pair.1,
            pair.0 == self.cell_spec(column as int, row as int),
    {
        (self.get_case(column, row), self.get_case(column, row))
    }

    /// Scan every cell of the board for four same-colored cells in a line,
    /// in any of the four forward-leaning directions. Returns the owner of
    /// a line if one exists, and `None` exactly when no side owns four
    /// aligned cells.
    pub fn find_4_aligned(&self) -> (res: Option<Player>)
        requires
            self.wf(),
        ensures
            match res {
                Some(p) => self.has_four(p),
                None => forall|p: Player| !self.has_four(p),
            },
    {
        let size = self.get_size();
        let mut column: usize = 1;
        while column <= size.columns
            invariant
                self.wf(),
                size == self.size_spec(),
                1 <= column <= size.columns + 1,
                forall|c2: int, r2: int|
                    1 <= c2 < column && 1 <= r2 <= size.rows ==> #[trigger] self.no_four_from(
                        c2,
                        r2,
                    ),
            decreases size.columns + 1 - column,
        {
            let mut row: usize = 1;
            while row <= size.rows
                invariant
                    self.wf(),
                    size == self.size_spec(),
                    1 <= column <= size.columns,
                    1 <= row <= size.rows + 1,
                    forall|c2: int, r2: int|
                        1 <= c2 < column && 1 <= r2 <= size.rows ==> #[trigger] self.no_four_from(
                            c2,
                            r2,
                        ),
                    forall|r2: int|
                        1 <= r2 < row ==> #[trigger] self.no_four_from(column as int, r2),
                decreases size.rows + 1 - row,
            {
                let case = self.get_case(column, row);
                if case != Case::EMPTY {
                    let up = case == self.get_case(column, row + 1) && case == self.get_case(
                        column,
                        row + 2,
                    ) && case == self.get_case(column, row + 3);
                    let right = case == self.get_case(column + 1, row) && case == self.get_case(
                        column + 2,
                        row,
                    ) && case == self.get_case(column + 3, row);
                    let diag_up = case == self.get_case(column + 1, row + 1) && case
                        == self.get_case(column + 2, row + 2) && case == self.get_case(
                        column + 3,
                        row + 3,
                    );
                    let diag_left = column >= 4 && case == self.get_case(column - 1, row + 1)
                        && case == self.get_case(column - 2, row + 2) && case == self.get_case(
                        column - 3,
                        row + 3,
                    );
                    if up || right || diag_up || diag_left {
                        proof {
                            if up {
                                assert(self.four_from(column as int, row as int, 0, 1));
                            } else if right {
                                assert(self.four_from(column as int, row as int, 1, 0));
                            } else if diag_up {
                                assert(self.four_from(column as int, row as int, 1, 1));
                            } else {
                                assert(self.four_from(column as int, row as int, -1, 1));
                            }
                        }
                        match case.player() {
                            Ok(p) => {
                                proof {
                                    assert(self.cell_spec(column as int, row as int)
                                        == p.case_spec());
                                    assert(self.has_four(p));
                                }
                                return Some(p);
                            },
                            Err(_) => {
                                proof {
                                    assert(false);
                                }
                                return None;
                            },
                        }
                    }
                    proof {
                        assert forall|dc: int, dr: int| dir_ok(dc, dr) implies !(
                        #[trigger] self.four_from(column as int, row as int, dc, dr)) by {
                            if dc == -1 && dr == 1 && column < 4 {
                                assert(self.cell_spec(column as int - 3, row as int + 3)
                                    == Case::EMPTY);
                            }
                        }
                    }
                }
                proof {
                    assert(self.no_four_from(column as int, row as int));
                }
                row += 1;
            }
            column += 1;
        }
        proof {
            assert forall|p: Player| !self.has_four(p) by {
                if self.has_four(p) {
                    let (c, r, dc, dr): (int, int, int, int) = choose|
                        c: int,
                        r: int,
                        dc: int,
                        dr: int,
                    |
                        dir_ok(dc, dr) && #[trigger] self.four_from(c, r, dc, dr)
                            && self.cell_spec(c, r) == p.case_spec();
                    p.lemma_case_not_empty();
                    assert(1 <= c <= size.columns && 1 <= r <= size.rows);
                    assert(self.no_four_from(c, r));
                    assert(false);
                }
            }
        }
        None
    }
}

} // verus!
