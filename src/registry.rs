//! The registry of all games, keyed by an identifier handed out in order.
use vstd::prelude::*;
use crate::board::{AccountAddress, Player};
use crate::game::{new_game, ContractResult, CustomContractError, Game, GameState, PutMove};

verus! {

/// Identifies a game: its position in the order of creation.
pub type GameId = u64;

/// What a move by identity `who` at cell `m` makes of `g`, before the
/// board is looked at: the game must be under way and `who` must hold the turn.
pub open spec fn turn_taken(g: Game, who: AccountAddress, m: int) -> ContractResult<Game> {
    match g.game_state {
        GameState::InProgress(p) => if p.address_of() != who {
            Err(CustomContractError::NotMyTurn)
        } else {
            g.moved(p, m)
        },
        _ => Err(CustomContractError::InvalidGameState),
    }
}

/// All games, stored in order of creation so that a game's identifier is
/// its index; `ctr` is the identifier that the next game receives.
pub struct State {
    pub ctr: u64,
    pub games: Vec<Game>,
}

impl State {
    /// Identifiers `0 .. ctr` are exactly the games there are, each well formed.
    pub open spec fn wf(self) -> bool {
        &&& self.games@.len() == self.ctr
        &&& forall|i: int| 0 <= i < self.games@.len() ==> (#[trigger] self.games@[i]).wf()
    }

    /// The registry after `join` on game `id`, or the error.
    pub open spec fn joined(self, id: u64, p: Player) -> ContractResult<Seq<Game>> {
        if id >= self.games@.len() {
            Err(CustomContractError::InvalidGameId)
        } else {
            match self.games@[id as int].joined(p) {
                Ok(g) => Ok(self.games@.update(id as int, g)),
                Err(e) => Err(e),
            }
        }
    }

    /// The registry after `make_move` on game `id`, or the error.
    pub open spec fn moved(self, id: u64, who: AccountAddress, m: int) -> ContractResult<Seq<Game>> {
        if id >= self.games@.len() {
            Err(CustomContractError::InvalidGameId)
        } else {
            match turn_taken(self.games@[id as int], who, m) {
                Ok(g) => Ok(self.games@.update(id as int, g)),
                Err(e) => Err(e),
            }
        }
    }

    /// A registry without games.
    pub fn empty() -> (r: State)
        ensures
            r.wf(),
            r.ctr == 0,
            r.games@ == Seq::<Game>::empty(),
    {
        State { ctr: 0, games: Vec::new() }
    }

    /// Opens a game with `address` as cross, under the next identifier, and
    /// returns that identifier.
    pub fn create_game(&mut self, address: AccountAddress) -> (id: GameId)
        requires
            old(self).wf(),
            old(self).ctr < u64::MAX,
        ensures
            final(self).wf(),
            id == old(self).ctr,
            final(self).ctr == old(self).ctr + 1,
            final(self).games@ == old(self).games@.push(new_game(address)),
    {
        let id = self.ctr;
        self.games.push(Game::new(address));
        self.ctr = self.ctr + 1;
        id
    }

    /// Seats `new_player` as the opponent in game `game_id`.
    pub fn join(&mut self, game_id: u64, new_player: Player) -> (r: ContractResult<()>)
        requires
            old(self).wf(),
        ensures
            final(self).wf(),
            final(self).ctr == old(self).ctr,
            match old(self).joined(game_id, new_player) {
                Ok(s) => r is Ok && final(self).games@ == s,
                Err(e) => r == Err::<(), _>(e) && final(self).games@ == old(self).games@,
            },
    {
        if game_id >= self.ctr {
            return Err(CustomContractError::InvalidGameId);
        }
        assert(game_id < self.games.len());
        let idx = game_id as usize;
        let mut the_game = self.games[idx];
        let res = the_game.join(new_player);
        if res.is_ok() {
            self.games.set(idx, the_game);
        }
        res
    }

    /// A move by identity `player` at `the_move` in game `game_id`.
    pub fn make_move(&mut self, game_id: u64, player: &AccountAddress, the_move: PutMove) -> (r: ContractResult<()>)
        requires
            old(self).wf(),
        ensures
            final(self).wf(),
            final(self).ctr == old(self).ctr,
            match old(self).moved(game_id, *player, the_move.0 as int) {
                Ok(s) => r is Ok && final(self).games@ == s,
                Err(e) => r == Err::<(), _>(e) && final(self).games@ == old(self).games@,
            },
    {
        if game_id >= self.ctr {
            return Err(CustomContractError::InvalidGameId);
        }
        assert(game_id < self.games.len());
        let idx = game_id as usize;
        let mut the_game = self.games[idx];
        let res = match the_game.game_state {
            GameState::AwaitingOpponent => Err(CustomContractError::InvalidGameState),
            GameState::InProgress(allowed_player) => {
                if allowed_player.address() != *player {
                    Err(CustomContractError::NotMyTurn)
                } else {
                    the_game.make_move(&allowed_player, the_move)
                }
            },
            GameState::Finished(_) => Err(CustomContractError::InvalidGameState),
        };
        if res.is_ok() {
            self.games.set(idx, the_game);
        }
        res
    }
}

} // verus!
