//! One game: its lifecycle, its turn rule, and the detection of a win or a draw.
use vstd::prelude::*;
use crate::board::{AccountAddress, Board, Cell, Player};

verus! {

broadcast use vstd::array::group_array_axioms;

/// Where a game stands.
#[derive(Clone, Copy, Debug, PartialEq, Eq)]
pub enum GameState {
    AwaitingOpponent,
    /// The player whose turn it is.
    InProgress(Player),
    /// `None` for a draw, else the winner.
    Finished(Option<Player>),
}

/// The failures of the engine; each leaves all state as it was.
#[derive(Clone, Copy, Debug, PartialEq, Eq, Structural)]
pub enum CustomContractError {
    ParseParams,
    InvalidGameId,
    InvalidJoin,
    NotMyTurn,
    InvalidMove,
    NotAHuman,
    InvalidGameState,
}

pub type ContractResult<A> = Result<A, CustomContractError>;

/// The index of the cell that a move marks.
#[derive(Clone, Copy, Debug, PartialEq, Eq, Structural)]
pub struct PutMove(pub usize);

impl PutMove {
    pub fn new(idx: usize) -> (r: PutMove)
        ensures
            r.0 == idx,
    {
        PutMove(idx)
    }
}

/// Cell `i` of `b` holds the mark of `p`.
pub open spec fn holds(b: Board, i: int, p: Player) -> bool {
    b.cell(i) == Cell::Occupied(p)
}

pub open spec fn line(b: Board, p: Player, x: int, y: int, z: int) -> bool {
    holds(b, x, p) && holds(b, y, p) && holds(b, z, p)
}

/// `p` holds one of the eight lines: three rows, three columns, two diagonals.
pub open spec fn has_line(b: Board, p: Player) -> bool {
    ||| line(b, p, 0, 1, 2)
    ||| line(b, p, 3, 4, 5)
    ||| line(b, p, 6, 7, 8)
    ||| line(b, p, 0, 3, 6)
    ||| line(b, p, 1, 4, 7)
    ||| line(b, p, 2, 5, 8)
    ||| line(b, p, 0, 4, 8)
    ||| line(b, p, 2, 4, 6)
}

/// No cell is empty.
pub open spec fn is_full(b: Board) -> bool {
    forall|i: int| 0 <= i < 9 ==> #[trigger] b.cell(i) is Occupied
}

/// `p` holds the row through cell `m`.
pub open spec fn row_won(b: Board, p: Player, m: int) -> bool {
    let r = (m / 3) * 3;
    line(b, p, r, r + 1, r + 2)
}

/// `p` holds the column through cell `m`.
pub open spec fn column_won(b: Board, p: Player, m: int) -> bool {
    let c = m % 3;
    line(b, p, c, c + 3, c + 6)
}

/// `p` holds two opposite corners.
pub open spec fn corners_held(b: Board, p: Player) -> bool {
    (holds(b, 0, p) && holds(b, 8, p)) || (holds(b, 2, p) && holds(b, 6, p))
}

/// `p` holds the centre and a diagonal through it.
pub open spec fn diagonal_won(b: Board, p: Player) -> bool {
    holds(b, 4, p) && corners_held(b, p)
}

/// The lines that a move at `m` can complete: its row, its column, and the
/// diagonals when the mover holds the centre.
pub open spec fn wins_through(b: Board, p: Player, m: int) -> bool {
    row_won(b, p, m) || column_won(b, p, m) || diagonal_won(b, p)
}

/// How a game ends once `p` has marked cell `m` of `b`: `Some(Some(p))` for a
/// win, `Some(None)` for a draw, `None` when play goes on.
pub open spec fn outcome(b: Board, p: Player, m: int) -> Option<Option<Player>> {
    if wins_through(b, p, m) {
        Some(Some(p))
    } else if is_full(b) {
        Some(None)
    } else {
        None
    }
}

/// `b` with cell `m` marked by `p`.
pub open spec fn place(b: Board, m: int, p: Player) -> Board {
    Board(vstd::array::spec_array_update(b.0, m, Cell::Occupied(p)))
}

/// A game of noughts and crosses.
#[derive(Clone, Copy, Debug, PartialEq, Eq)]
pub struct Game {
    pub game_state: GameState,
    pub board: Board,
    pub cross: Player,
    pub circle: Option<Player>,
}

pub open spec fn new_game(initiator: AccountAddress) -> Game {
    Game {
        game_state: GameState::AwaitingOpponent,
        board: Board::empty(),
        cross: Player::Cross(initiator),
        circle: None,
    }
}

impl Game {
    /// The initiator plays cross; the opponent, once joined, has another
    /// identity; the turn belongs to one of the two.
    pub open spec fn wf(self) -> bool {
        &&& self.cross is Cross
        &&& match self.circle {
            None => self.game_state is AwaitingOpponent,
            Some(c) => c.address_of() != self.cross.address_of() && !(self.game_state is AwaitingOpponent),
        }
        &&& match self.game_state {
            GameState::InProgress(p) => p == self.cross || self.circle == Some(p),
            _ => true,
        }
    }

    /// The seat that is not `p`.
    pub open spec fn other(self, p: Player) -> Player {
        if p == self.cross {
            self.circle.unwrap()
        } else {
            self.cross
        }
    }

    /// What `join` makes of this game.
    pub open spec fn joined(self, p: Player) -> ContractResult<Game> {
        if !(self.game_state is AwaitingOpponent) || p.address_of() == self.cross.address_of() {
            Err(CustomContractError::InvalidJoin)
        } else {
            Ok(Game { circle: Some(p), game_state: GameState::InProgress(self.cross), ..self })
        }
    }

    /// What `make_move` makes of this game.
    pub open spec fn moved(self, p: Player, m: int) -> ContractResult<Game> {
        if self.game_state != GameState::InProgress(p) {
            Err(CustomContractError::NotMyTurn)
        } else if !(0 <= m < 9 && self.board.cell(m) is Empty) {
            Err(CustomContractError::InvalidMove)
        } else {
            let b = place(self.board, m, p);
            match outcome(b, p, m) {
                Some(o) => Ok(Game { game_state: GameState::Finished(o), board: b, ..self }),
                None => Ok(Game { game_state: GameState::InProgress(self.other(p)), board: b, ..self }),
            }
        }
    }

    /// A game opened by `initiator`, who plays cross and moves first.
    pub fn new(initiator: AccountAddress) -> (r: Game)
        ensures
            r == new_game(initiator),
            r.wf(),
    {
        let r = Game {
            game_state: GameState::AwaitingOpponent,
            board: Board::new(),
            cross: Player::Cross(initiator),
            circle: None,
        };
        r
    }

    pub fn join(&mut self, new_player: Player) -> (r: ContractResult<()>)
        requires
            old(self).wf(),
        ensures
            final(self).wf(),
            match old(self).joined(new_player) {
                Ok(g) => r is Ok && *final(self) == g,
                Err(e) => r == Err::<(), _>(e) && *final(self) == *old(self),
            },
    {
        match self.game_state {
            GameState::AwaitingOpponent => {},
            _ => return Err(CustomContractError::InvalidJoin),
        }
        if self.cross.address() == new_player.address() {
            return Err(CustomContractError::InvalidJoin);
        }
        self.circle = Some(new_player);
        self.game_state = GameState::InProgress(self.cross);
        Ok(())
    }

    /// Whether it is `player`'s turn in `state`.
    pub fn is_it_me(state: GameState, player: &Player) -> (r: bool)
        ensures
            r == (state == GameState::InProgress(*player)),
    {
        match state {
            GameState::InProgress(p) => p == *player,
            _ => false,
        }
    }

    /// Whether `the_move` names a cell of the board that is still empty.
    pub fn is_valid_move(the_game: &Game, the_move: &PutMove) -> (r: bool)
        ensures
            r == (the_move.0 < 9 && the_game.board.cell(the_move.0 as int) is Empty),
    {
        the_move.0 < 9 && the_game.board.0[the_move.0].is_empty()
    }

    /// Whether `player` holds the row through `the_move`.
    pub fn horizontal_check(&self, player: &Player, the_move: &PutMove) -> (r: bool)
        requires
            the_move.0 < 9,
        ensures
            r == row_won(self.board, *player, the_move.0 as int),
    {
        let row_offset: usize = (the_move.0 / 3) * 3;
        let mut i: usize = row_offset;
        while i < row_offset + 3
            invariant
                row_offset == (the_move.0 / 3) * 3,
                row_offset <= i <= row_offset + 3,
                row_offset + 3 <= 9,
                forall|j: int| row_offset <= j < i ==> holds(self.board, j, *player),
            decreases row_offset + 3 - i,
        {
            if !self.board.0[i].is_held_by(player) {
                return false;
            }
            i = i + 1;
        }
        true
    }

    /// Whether `player` holds the column through `the_move`.
    pub fn vertical_check(&self, player: &Player, the_move: &PutMove) -> (r: bool)
        requires
            the_move.0 < 9,
        ensures
            r == column_won(self.board, *player, the_move.0 as int),
    {
        let first: usize = the_move.0 % 3;
        let mut column_offset: usize = first;
        let mut k: usize = 0;
        while k < 3
            invariant
                first == the_move.0 % 3,
                k <= 3,
                column_offset == first + 3 * k,
                k >= 1 ==> holds(self.board, first as int, *player),
                k >= 2 ==> holds(self.board, first + 3, *player),
                k >= 3 ==> holds(self.board, first + 6, *player),
            decreases 3 - k,
        {
            if !self.board.0[column_offset].is_held_by(player) {
                return false;
            }
            column_offset = column_offset + 3;
            k = k + 1;
        }
        true
    }

    /// Whether `player` holds two opposite corners; with the centre that is a
    /// diagonal, since both diagonals pass through it.
    pub fn diagonal_check(&self, player: &Player) -> (r: bool)
        ensures
            r == corners_held(self.board, *player),
    {
        let ul = self.board.0[0].is_held_by(player);
        let ur = self.board.0[2].is_held_by(player);
        let ll = self.board.0[6].is_held_by(player);
        let lr = self.board.0[8].is_held_by(player);
        ul && lr || ur && ll
    }

    /// Whether every cell is marked.
    pub fn is_draw(&self) -> (r: bool)
        ensures
            r == is_full(self.board),
    {
        let mut i: usize = 0;
        while i < 9
            invariant
                i <= 9,
                forall|j: int| 0 <= j < i ==> #[trigger] self.board.cell(j) is Occupied,
            decreases 9 - i,
        {
            if self.board.0[i].is_empty() {
                assert(!(self.board.cell(i as int) is Occupied));
                return false;
            }
            i = i + 1;
        }
        true
    }

    /// Whether the game ends with `player`'s mark at `the_move`, and with
    /// which result: the row, the column and the diagonals are tried in turn,
    /// and a win goes before a draw.
    pub fn is_game_finished(&self, player: &Player, the_move: &PutMove) -> (r: (bool, Option<Player>))
        requires
            the_move.0 < 9,
        ensures
            r == match outcome(self.board, *player, the_move.0 as int) {
                Some(o) => (true, o),
                None => (false, None::<Player>),
            },
    {
        if self.horizontal_check(player, the_move) {
            (true, Some(*player))
        } else if self.vertical_check(player, the_move) {
            (true, Some(*player))
        } else if self.board.0[4].is_held_by(player) && self.diagonal_check(player) {
            (true, Some(*player))
        } else if self.is_draw() {
            (true, None)
        } else {
            (false, None)
        }
    }

    /// Marks `the_move` for `player`, whose turn it must be, then ends the
    /// game or hands the turn to the other seat.
    pub fn make_move(&mut self, player: &Player, the_move: PutMove) -> (r: ContractResult<()>)
        requires
            old(self).wf(),
        ensures
            final(self).wf(),
            match old(self).moved(*player, the_move.0 as int) {
                Ok(g) => r is Ok && *final(self) == g,
                Err(e) => r == Err::<(), _>(e) && *final(self) == *old(self),
            },
    {
        if !Self::is_it_me(self.game_state, player) {
            return Err(CustomContractError::NotMyTurn);
        }
        if !Self::is_valid_move(self, &the_move) {
            return Err(CustomContractError::InvalidMove);
        }
        let ghost before = *self;
        self.board.set(the_move.0, player.to_cell());
        assert(self.board.0 =~= place(before.board, the_move.0 as int, *player).0);
        let (finished, result) = self.is_game_finished(player, &the_move);
        if finished {
            self.game_state = GameState::Finished(result);
        } else {
            let next = if *player == self.cross {
                self.circle.unwrap()
            } else {
                self.cross
            };
            self.game_state = GameState::InProgress(next);
        }
        Ok(())
    }
}

} // verus!
