//! Turn controller: alternates the active side, applies each chosen column
//! to the board, and asks the win detector after every accepted move. The
//! choice of a column itself comes from a move source (a human at a prompt,
//! or a computer strategy) that the caller runs outside this crate.
use crate::grid::{Case, Grid, GridError, Player, Size};
use vstd::prelude::*;

verus! {

/// Which move sources are bound to the two sides for a game.
#[derive(Debug, Copy, Clone, PartialEq, Eq, Structural)]
pub enum GameMode {
    HumanVsHuman,
    HumanVsAI,
}

/// A finished game's result.
#[derive(Debug, Copy, Clone, PartialEq, Eq, Structural)]
pub enum Outcome {
    Winner(Player),
    Draw,
}

/// The controller state a turn ends in. A rejected move reports its reason
/// and leaves the same side to retry; otherwise the game either finishes or
/// passes to the opponent.
#[derive(Debug, Copy, Clone, PartialEq, Eq, Structural)]
pub enum ControlState {
    AwaitingMove(Player),
    MoveRejected(Player, GridError),
    Finished(Outcome),
}

/// The live game: the board, the configured game mode, and the side to move.
pub struct Game {
    grid: Grid,
    gamemode: GameMode,
    current_player: Player,
}

impl Game {
    pub closed spec fn grid_spec(self) -> Grid {
        self.grid
    }

    pub closed spec fn player_spec(self) -> Player {
        self.current_player
    }

    pub closed spec fn mode_spec(self) -> GameMode {
        self.gamemode
    }

    /// A game is well formed when its board is.
    pub open spec fn wf(self) -> bool {
        self.grid_spec().wf()
    }

    /// A fresh game on the default board, with the fixed starting side to
    /// move first and the given binding of move sources to sides.
    pub fn new(gamemode: GameMode) -> (g: Game)
        ensures
            g.wf(),
            g.mode_spec() == gamemode,
            g.player_spec() == Player::RED,
            g.grid_spec().size_spec() == (Size { rows: 6, columns: 7 }),
            forall|c: int, r: int| g.grid_spec().cell_spec(c, r) == Case::EMPTY,
    {
        Game { grid: Grid::new_default(), gamemode, current_player: Player::RED }
    }

    /// The current board, for rendering and for move sources.
    pub fn get_grid(&self) -> (g: &Grid)
        ensures
            *g == self.grid_spec(),
    {
        &self.grid
    }

    /// The side whose move is awaited.
    pub fn get_current_player(&self) -> (p: Player)
        ensures
            p == self.player_spec(),
    {
        self.current_player
    }

    /// The configured binding of move sources to sides.
    pub fn get_gamemode(&self) -> (m: GameMode)
        ensures
            m == self.mode_spec(),
    {
        self.gamemode
    }

    /// Play one turn: attempt to place the current side's piece in the
    /// chosen column. A full column is rejected, changes nothing, and
    /// leaves the same side to retry. An accepted placement updates the
    /// board; the game then finishes with a winner if a side owns four
    /// aligned cells, finishes in a draw if the board is full with no
    /// winner, and otherwise awaits the opponent's move.
    pub fn step(&mut self, column: usize) -> (res: ControlState)
        requires
            old(self).wf(),
            1 <= column <= old(self).grid_spec().size_spec().columns,
        ensures
            final(self).wf(),
            final(self).mode_spec() == old(self).mode_spec(),
            final(self).grid_spec().size_spec() == old(self).grid_spec().size_spec(),
            match res {
                ControlState::MoveRejected(p, e) => {
                    &&& p == old(self).player_spec()
                    &&& e == GridError::ColumnFull
                    &&& old(self).grid_spec().col_full_spec(column as int)
                    &&& final(self).grid_spec() == old(self).grid_spec()
                    &&& final(self).player_spec() == old(self).player_spec()
                },
                ControlState::Finished(outcome) => {
                    &&& !old(self).grid_spec().col_full_spec(column as int)
                    &&& Grid::place_transition(
                        old(self).grid_spec(),
                        final(self).grid_spec(),
                        column as int,
                        old(self).player_spec(),
                    )
                    &&& final(self).player_spec() == old(self).player_spec()
                    &&& match outcome {
                        Outcome::Winner(w) => {
                            &&& final(self).grid_spec().has_four(w)
                            &&& (forall|q: Player| !old(self).grid_spec().has_four(q))
                                ==> w == old(self).player_spec()
                        },
                        Outcome::Draw => final(self).grid_spec().full_spec() && forall|p: Player|
                            !final(self).grid_spec().has_four(p),
                    }
                },
                ControlState::AwaitingMove(p) => {
                    &&& !old(self).grid_spec().col_full_spec(column as int)
                    &&& Grid::place_transition(
                        old(self).grid_spec(),
                        final(self).grid_spec(),
                        column as int,
                        old(self).player_spec(),
                    )
                    &&& p == old(self).player_spec().opponent_spec()
                    &&& final(self).player_spec() == p
                    &&& !final(self).grid_spec().full_spec()
                    &&& forall|q: Player| !final(self).grid_spec().has_four(q)
                },
            },
    {
        let player = self.current_player;
        match self.grid.play(column, player) {
            Err(e) => ControlState::MoveRejected(player, e),
            Ok(g) => {
                self.grid = g;
                match self.grid.find_4_aligned() {
                    Some(w) => {
                        proof {
                            if forall|q: Player| !old(self).grid_spec().has_four(q) {
                                Grid::lemma_new_four_belongs_to_mover(
                                    old(self).grid_spec(),
                                    self.grid,
                                    column as int,
                                    player,
                                    w,
                                );
                            }
                        }
                        ControlState::Finished(Outcome::Winner(w))
                    },
                    None => {
                        if self.grid.is_full() {
                            ControlState::Finished(Outcome::Draw)
                        } else {
                            self.current_player = player.opponent();
                            ControlState::AwaitingMove(self.current_player)
                        }
                    },
                }
            },
        }
    }
}

} // verus!
