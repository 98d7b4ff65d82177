//! Read-only views of the registry: every game, one game packed into 32 bits,
//! and the identities seated at one game.
use vstd::prelude::*;
use std::collections::BTreeMap;
use crate::board::{Board, Cell, Player};
use crate::game::{ContractResult, CustomContractError, Game, GameState};
use crate::registry::State;

verus! {

broadcast use vstd::laws_cmp::group_laws_cmp;

/// Every game, by identifier.
pub struct ViewState {
    pub games: BTreeMap<u64, Game>,
}

/// The games of `s` as a map from identifier to game.
pub open spec fn all_games(s: State) -> Map<u64, Game> {
    Map::new(|k: u64| k < s.games@.len(), |k: u64| s.games@[k as int])
}

/// A full copy of the registry's games, ordered by identifier.
pub fn tictactoe_view(state: &State) -> (r: ViewState)
    requires
        state.wf(),
    ensures
        r.games@ == all_games(*state),
{
    let mut games: BTreeMap<u64, Game> = BTreeMap::new();
    let mut i: usize = 0;
    while i < state.games.len()
        invariant
            i <= state.games@.len(),
            games@ == Map::new(|k: u64| k < i, |k: u64| state.games@[k as int]),
        decreases state.games@.len() - i,
    {
        let g = state.games[i];
        games.insert(i as u64, g);
        i = i + 1;
        assert(games@ =~= Map::new(|k: u64| k < i, |k: u64| state.games@[k as int]));
    }
    assert(games@ =~= all_games(*state));
    ViewState { games }
}

/// The four low bits of the packed view.
pub open spec fn state_tag(s: GameState) -> nat {
    match s {
        GameState::AwaitingOpponent => 0,
        GameState::InProgress(Player::Cross(_)) => 1,
        GameState::InProgress(Player::Circle(_)) => 2,
        GameState::Finished(None) => 3,
        GameState::Finished(Some(Player::Cross(_))) => 4,
        GameState::Finished(Some(Player::Circle(_))) => 5,
    }
}

/// The two bits of one cell in the packed view.
pub open spec fn cell_code(c: Cell) -> nat {
    match c {
        Cell::Empty => 0,
        Cell::Occupied(Player::Cross(_)) => 1,
        Cell::Occupied(Player::Circle(_)) => 2,
    }
}

/// The weight of cell `i` in the packed view: two to the power `4 + 2 * i`.
pub open spec fn cell_weight(i: nat) -> nat
    decreases i,
{
    if i == 0 {
        16
    } else {
        4 * cell_weight((i - 1) as nat)
    }
}

/// Cells `0 .. n` of `b`, each at its weight.
pub open spec fn cells_packed(b: Board, n: nat) -> nat
    decreases n,
{
    if n == 0 {
        0
    } else {
        cells_packed(b, (n - 1) as nat) + cell_code(b.cell(n - 1)) * cell_weight((n - 1) as nat)
    }
}

/// The packed view of `g`: the state tag in bits 0 to 3, then two bits for
/// each cell, cell `i` at bit `4 + 2 * i`.
pub open spec fn packed(g: Game) -> nat {
    state_tag(g.game_state) + cells_packed(g.board, 9)
}

proof fn lemma_cell_weight_bound(i: nat)
    requires
        i <= 9,
    ensures
        cell_weight(i) <= 0x400000,
    decreases 9 - i,
{
    if i < 9 {
        lemma_cell_weight_bound(i + 1);
        assert(cell_weight(i + 1) == 4 * cell_weight(i));
    } else {
        reveal_with_fuel(cell_weight, 10);
    }
}

impl From<Game> for u32 {
    fn from(g: Game) -> (r: u32) {
        let mut state_bits: u32 = match g.game_state {
            GameState::AwaitingOpponent => 0,
            GameState::InProgress(Player::Cross(_)) => 1,
            GameState::InProgress(Player::Circle(_)) => 2,
            GameState::Finished(None) => 3,
            GameState::Finished(Some(Player::Cross(_))) => 4,
            GameState::Finished(Some(Player::Circle(_))) => 5,
        };
        let mut weight: u32 = 16;
        let mut index: usize = 0;
        while index < 9
            invariant
                index <= 9,
                weight == cell_weight(index as nat),
                state_bits == state_tag(g.game_state) + cells_packed(g.board, index as nat),
                state_bits < weight,
            decreases 9 - index,
        {
            proof {
                lemma_cell_weight_bound(index as nat);
            }
            let cell_bits: u32 = match g.board.0[index] {
                Cell::Empty => 0,
                Cell::Occupied(Player::Cross(_)) => 1,
                Cell::Occupied(Player::Circle(_)) => 2,
            };
            state_bits = state_bits + cell_bits * weight;
            weight = weight * 4;
            index = index + 1;
        }
        state_bits
    }
}

impl vstd::std_specs::convert::FromSpecImpl<Game> for u32 {
    open spec fn obeys_from_spec() -> bool {
        true
    }

    open spec fn from_spec(g: Game) -> u32 {
        packed(g) as u32
    }
}

} // verus!
