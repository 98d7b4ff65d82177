//! Facts about whole games and the registry, proved from the rules.
use vstd::prelude::*;
use crate::board::{AccountAddress, Board, Player};
use crate::game::{
    has_line, is_full, outcome, place, wins_through, CustomContractError, Game, GameState,
};
use crate::registry::{turn_taken, State};

verus! {

broadcast use vstd::array::group_array_axioms;

/// How a game ends, judged by scanning all eight lines of `b` after `p` moved.
pub open spec fn scanned_outcome(b: Board, p: Player) -> Option<Option<Player>> {
    if has_line(b, p) {
        Some(Some(p))
    } else if is_full(b) {
        Some(None)
    } else {
        None
    }
}

/// A move that leaves the game under way hands the turn to the other seat,
/// which has another identity; the mover's identity then cannot move again,
/// whatever cell it names.
pub proof fn lemma_turns_alternate(g: Game, p: Player, m: int, next_move: int)
    requires
        g.wf(),
        g.moved(p, m) is Ok,
        g.moved(p, m)->Ok_0.game_state is InProgress,
    ensures
        ({
            let after = g.moved(p, m)->Ok_0;
            let q = after.game_state->InProgress_0;
            &&& p == g.cross ==> g.circle == Some(q)
            &&& p != g.cross ==> q == g.cross && g.circle == Some(p)
            &&& q.address_of() != p.address_of()
            &&& after.wf()
            &&& after.moved(p, next_move) == Err::<Game, _>(CustomContractError::NotMyTurn)
            &&& turn_taken(after, p.address_of(), next_move) == Err::<Game, _>(
                CustomContractError::NotMyTurn,
            )
        }),
{
}

/// The initiator of a game can never join it as the opponent, under
/// whatever mark.
pub proof fn lemma_no_self_join(g: Game, p: Player)
    requires
        p.address_of() == g.cross.address_of(),
    ensures
        g.joined(p) == Err::<Game, _>(CustomContractError::InvalidJoin),
{
}

/// In the registry, the account that opened a game cannot join it.
pub proof fn lemma_no_self_join_in_registry(s: State, id: u64, a: AccountAddress)
    requires
        id < s.games@.len(),
        s.games@[id as int].cross.address_of() == a,
    ensures
        s.joined(id, Player::Circle(a)) == Err::<Seq<Game>, _>(CustomContractError::InvalidJoin),
{
}

/// A move by the player whose turn it is, at a cell off the board or already
/// marked, is refused as an invalid move.
pub proof fn lemma_bad_cell_refused(g: Game, p: Player, m: int)
    requires
        g.game_state == GameState::InProgress(p),
        !(0 <= m < 9 && g.board.cell(m) is Empty),
    ensures
        g.moved(p, m) == Err::<Game, _>(CustomContractError::InvalidMove),
        turn_taken(g, p.address_of(), m) == Err::<Game, _>(CustomContractError::InvalidMove),
{
}

/// Looking only at the row and column of the move and at the diagonals when
/// the mover holds the centre finds a win exactly when a scan of all eight
/// lines does, on every board where the mover had no line before; the other
/// players' lines are untouched by the move.
pub proof fn lemma_incremental_check_is_full_scan(before: Board, p: Player, m: int)
    requires
        0 <= m < 9,
        before.cell(m) is Empty,
        !has_line(before, p),
    ensures
        wins_through(place(before, m, p), p, m) == has_line(place(before, m, p), p),
        outcome(place(before, m, p), p, m) == scanned_outcome(place(before, m, p), p),
        forall|q: Player| q != p ==> has_line(place(before, m, p), q) == has_line(before, q),
{
    let after = place(before, m, p);
    assert(after.cell(m) == crate::board::Cell::Occupied(p));
    assert(forall|i: int| 0 <= i < 9 && i != m ==> after.cell(i) == before.cell(i));
}

/// A move that fills the board without giving the mover a line ends the
/// game in a draw.
pub proof fn lemma_full_board_is_draw(g: Game, p: Player, m: int)
    requires
        g.game_state == GameState::InProgress(p),
        0 <= m < 9,
        g.board.cell(m) is Empty,
        is_full(place(g.board, m, p)),
        !has_line(place(g.board, m, p), p),
    ensures
        g.moved(p, m) == Ok::<_, CustomContractError>(
            (Game { game_state: GameState::Finished(None), board: place(g.board, m, p), ..g }),
        ),
{
    let after = place(g.board, m, p);
    assert(after.cell(m) == crate::board::Cell::Occupied(p));
}

/// A finished game in the registry refuses every further move, by anyone,
/// at any cell.
pub proof fn lemma_finished_is_final(s: State, id: u64, who: AccountAddress, m: int)
    requires
        id < s.games@.len(),
        s.games@[id as int].game_state is Finished,
    ensures
        s.moved(id, who, m) == Err::<Seq<Game>, _>(CustomContractError::InvalidGameState),
{
}

} // verus!
