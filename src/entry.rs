//! The operations that callers invoke: each decodes its parameter bytes,
//! checks who is calling, and hands over to the registry.
use vstd::prelude::*;
use crate::board::{AccountAddress, Player};
use crate::game::{new_game, ContractResult, CustomContractError, Game, PutMove};
use crate::registry::{GameId, State};
use crate::view::{packed, tictactoe_view, all_games, ViewState};

verus! {

/// The address of a deployed program instance.
#[derive(Clone, Copy, Debug, PartialEq, Eq, Structural)]
pub struct ContractAddress {
    pub index: u64,
    pub subindex: u64,
}

/// Who sent an invocation: an end-user account or another program.
#[derive(Clone, Copy, Debug, PartialEq, Eq)]
pub enum Address {
    Account(AccountAddress),
    Contract(ContractAddress),
}

/// Parameter of `join_game`, `game_view` and `game_view_players`.
#[derive(Clone, Copy, Debug, PartialEq, Eq, Structural)]
pub struct JoinParams {
    pub game_id: u64,
}

/// Parameter of `make_move`.
#[derive(Clone, Copy, Debug, PartialEq, Eq, Structural)]
pub struct MakeMoveParams {
    pub game_id: u64,
    pub the_move: u64,
}

/// The number whose little-endian bytes are `s`.
pub open spec fn le_value(s: Seq<u8>) -> nat
    decreases s.len(),
{
    if s.len() == 0 {
        0
    } else {
        s[0] as nat + 256 * le_value(s.drop_first())
    }
}

/// `256` to the power `n`.
pub open spec fn radix(n: nat) -> nat
    decreases n,
{
    if n == 0 {
        1
    } else {
        256 * radix((n - 1) as nat)
    }
}

proof fn lemma_le_value_bound(s: Seq<u8>)
    ensures
        le_value(s) < radix(s.len()),
    decreases s.len(),
{
    if s.len() > 0 {
        lemma_le_value_bound(s.drop_first());
    }
}

proof fn lemma_radix_grows(n: nat, m: nat)
    requires
        n <= m,
    ensures
        radix(n) <= radix(m),
    decreases m - n,
{
    if n < m {
        lemma_radix_grows(n, (m - 1) as nat);
    }
}

/// The `u64` stored little-endian in the eight bytes of `s` from `at`.
pub open spec fn u64_at(s: Seq<u8>, at: int) -> u64 {
    le_value(s.subrange(at, at + 8)) as u64
}

/// Reads the `u64` stored little-endian at `at`.
fn read_u64(bytes: &[u8], at: usize) -> (r: u64)
    requires
        at + 8 <= bytes@.len(),
    ensures
        r as nat == le_value(bytes@.subrange(at as int, at + 8)),
{
    let n = bytes.len();
    let mut v: u64 = 0;
    let mut i: usize = 8;
    while i > 0
        invariant
            i <= 8,
            n == bytes@.len(),
            at + 8 <= n,
            v as nat == le_value(bytes@.subrange(at + i, at + 8)),
        decreases i,
    {
        let ghost tail = bytes@.subrange(at + i, at + 8);
        let ghost s = bytes@.subrange(at + i - 1, at + 8);
        proof {
            assert(s.drop_first() =~= tail);
            lemma_le_value_bound(tail);
            lemma_radix_grows(s.len(), 8);
            reveal_with_fuel(radix, 9);
            assert(radix(s.len()) == 256 * radix(tail.len()));
            assert(radix(8) == 0x1_0000_0000_0000_0000);
        }
        v = v * 256 + bytes[at + i - 1] as u64;
        i = i - 1;
    }
    v
}

/// Decodes a game identifier; trailing bytes are ignored.
pub fn parse_join_params(param: &[u8]) -> (r: ContractResult<JoinParams>)
    ensures
        param@.len() < 8 ==> r == Err::<JoinParams, _>(CustomContractError::ParseParams),
        param@.len() >= 8 ==> r == Ok::<_, CustomContractError>(JoinParams { game_id: u64_at(param@, 0) }),
{
    if param.len() < 8 {
        return Err(CustomContractError::ParseParams);
    }
    Ok(JoinParams { game_id: read_u64(param, 0) })
}

/// Decodes a game identifier followed by a cell index; trailing bytes are ignored.
pub fn parse_make_move_params(param: &[u8]) -> (r: ContractResult<MakeMoveParams>)
    ensures
        param@.len() < 16 ==> r == Err::<MakeMoveParams, _>(CustomContractError::ParseParams),
        param@.len() >= 16 ==> r == Ok::<_, CustomContractError>(
            (MakeMoveParams { game_id: u64_at(param@, 0), the_move: u64_at(param@, 8) }),
        ),
{
    if param.len() < 16 {
        return Err(CustomContractError::ParseParams);
    }
    Ok(MakeMoveParams { game_id: read_u64(param, 0), the_move: read_u64(param, 8) })
}

/// The games after `create_game` from `sender`, or the error.
pub open spec fn create_request(s: State, sender: Address) -> ContractResult<Seq<Game>> {
    match sender {
        Address::Account(a) => Ok(s.games@.push(new_game(a))),
        Address::Contract(_) => Err(CustomContractError::NotAHuman),
    }
}

/// The games after `join_game` from `sender` with `param`, or the error.
pub open spec fn join_request(s: State, sender: Address, param: Seq<u8>) -> ContractResult<Seq<Game>> {
    if param.len() < 8 {
        Err(CustomContractError::ParseParams)
    } else {
        match sender {
            Address::Account(a) => s.joined(u64_at(param, 0), Player::Circle(a)),
            Address::Contract(_) => Err(CustomContractError::NotAHuman),
        }
    }
}

/// The games after `make_move` from `sender` with `param`, or the error.
pub open spec fn move_request(s: State, sender: Address, param: Seq<u8>) -> ContractResult<Seq<Game>> {
    match sender {
        Address::Account(a) => if param.len() < 16 {
            Err(CustomContractError::ParseParams)
        } else {
            s.moved(u64_at(param, 0), a, (u64_at(param, 8) as usize) as int)
        },
        Address::Contract(_) => Err(CustomContractError::NotAHuman),
    }
}

/// What `game_view` returns for `param`.
pub open spec fn game_view_request(s: State, param: Seq<u8>) -> ContractResult<u32> {
    if param.len() < 8 {
        Err(CustomContractError::ParseParams)
    } else if u64_at(param, 0) >= s.games@.len() {
        Err(CustomContractError::InvalidGameId)
    } else {
        Ok(packed(s.games@[u64_at(param, 0) as int]) as u32)
    }
}

/// The identities seated at `g`: cross, then circle once it has joined.
pub open spec fn seated(g: Game) -> Seq<u8> {
    match g.circle {
        Some(c) => g.cross.address_of().0@ + c.address_of().0@,
        None => g.cross.address_of().0@,
    }
}

/// What `game_view_players` returns for `param`.
pub open spec fn players_request(s: State, param: Seq<u8>) -> ContractResult<Seq<u8>> {
    if param.len() < 8 {
        Err(CustomContractError::ParseParams)
    } else if u64_at(param, 0) >= s.games@.len() {
        Err(CustomContractError::InvalidGameId)
    } else {
        Ok(seated(s.games@[u64_at(param, 0) as int]))
    }
}

/// The registry that a fresh instance starts with.
pub fn contract_init() -> (r: State)
    ensures
        r.wf(),
        r.ctr == 0,
        r.games@ == Seq::<Game>::empty(),
{
    State::empty()
}

/// Opens a game with the sending account as cross.
pub fn contract_create(state: &mut State, sender: Address) -> (r: ContractResult<()>)
    requires
        old(state).wf(),
        old(state).ctr < u64::MAX,
    ensures
        final(state).wf(),
        match create_request(*old(state), sender) {
            Ok(s) => r is Ok && final(state).games@ == s && final(state).ctr == old(state).ctr + 1,
            Err(e) => r == Err::<(), _>(e) && final(state).games@ == old(state).games@
                && final(state).ctr == old(state).ctr,
        },
{
    match sender {
        Address::Account(addr) => {
            let _id: GameId = state.create_game(addr);
            Ok(())
        },
        Address::Contract(_) => Err(CustomContractError::NotAHuman),
    }
}

/// Seats the sending account as circle in the game that `param` names.
pub fn contract_join(state: &mut State, sender: Address, param: &[u8]) -> (r: ContractResult<()>)
    requires
        old(state).wf(),
    ensures
        final(state).wf(),
        final(state).ctr == old(state).ctr,
        match join_request(*old(state), sender, param@) {
            Ok(s) => r is Ok && final(state).games@ == s,
            Err(e) => r == Err::<(), _>(e) && final(state).games@ == old(state).games@,
        },
{
    let params = parse_join_params(param)?;
    match sender {
        Address::Account(addr) => state.join(params.game_id, Player::Circle(addr)),
        Address::Contract(_) => Err(CustomContractError::NotAHuman),
    }
}

/// A move by the sending account, at the game and cell that `param` names.
pub fn contract_make_move(state: &mut State, sender: Address, param: &[u8]) -> (r: ContractResult<()>)
    requires
        old(state).wf(),
    ensures
        final(state).wf(),
        final(state).ctr == old(state).ctr,
        match move_request(*old(state), sender, param@) {
            Ok(s) => r is Ok && final(state).games@ == s,
            Err(e) => r == Err::<(), _>(e) && final(state).games@ == old(state).games@,
        },
{
    match sender {
        Address::Account(addr) => {
            let params = parse_make_move_params(param)?;
            let the_move = PutMove::new(params.the_move as usize);
            state.make_move(params.game_id, &addr, the_move)
        },
        Address::Contract(_) => Err(CustomContractError::NotAHuman),
    }
}

/// The packed view of the game that `param` names.
pub fn tictactoe_game_view(state: &State, param: &[u8]) -> (r: ContractResult<u32>)
    requires
        state.wf(),
    ensures
        r == game_view_request(*state, param@),
{
    let params = parse_join_params(param)?;
    if params.game_id >= state.ctr {
        return Err(CustomContractError::InvalidGameId);
    }
    assert(params.game_id < state.games.len());
    let the_game = state.games[params.game_id as usize];
    Ok(u32::from(the_game))
}

/// Appends the 32 bytes of `a` to `out`.
fn push_address(out: &mut Vec<u8>, a: &AccountAddress)
    ensures
        final(out)@ == old(out)@ + a.0@,
{
    let mut i: usize = 0;
    while i < 32
        invariant
            i <= 32,
            out@ == old(out)@ + a.0@.subrange(0, i as int),
        decreases 32 - i,
    {
        out.push(a.0[i]);
        i = i + 1;
        assert(out@ =~= old(out)@ + a.0@.subrange(0, i as int));
    }
    assert(a.0@.subrange(0, 32) =~= a.0@);
}

/// The identities seated at the game that `param` names: 32 bytes for
/// cross, and 32 more for circle once it has joined.
pub fn tictactoe_game_view_players(state: &State, param: &[u8]) -> (r: ContractResult<Vec<u8>>)
    requires
        state.wf(),
    ensures
        match players_request(*state, param@) {
            Ok(b) => r is Ok && r->Ok_0@ == b,
            Err(e) => r is Err && r->Err_0 == e,
        },
{
    let params = parse_join_params(param)?;
    if params.game_id >= state.ctr {
        return Err(CustomContractError::InvalidGameId);
    }
    assert(params.game_id < state.games.len());
    let the_game = state.games[params.game_id as usize];
    let mut out: Vec<u8> = Vec::new();
    push_address(&mut out, &the_game.cross.address());
    match the_game.circle {
        Some(p) => push_address(&mut out, &p.address()),
        None => {},
    }
    assert(out@ =~= seated(the_game));
    Ok(out)
}


/// The operations of a running instance.
#[derive(Clone, Copy, Debug, PartialEq, Eq, Structural)]
pub enum Operation {
    CreateGame,
    JoinGame,
    MakeMove,
    View,
    GameView,
    GameViewPlayers,
}

/// What an operation hands back.
pub enum Response {
    /// A mutating operation succeeded.
    Done,
    Games(ViewState),
    Packed(u32),
    Players(Vec<u8>),
}

/// The games after `op`, or its error; reading operations keep them as they are.
pub open spec fn after_operation(s: State, op: Operation, sender: Address, param: Seq<u8>) -> ContractResult<Seq<Game>> {
    match op {
        Operation::CreateGame => create_request(s, sender),
        Operation::JoinGame => join_request(s, sender, param),
        Operation::MakeMove => move_request(s, sender, param),
        Operation::View => Ok(s.games@),
        Operation::GameView => match game_view_request(s, param) {
            Ok(_) => Ok(s.games@),
            Err(e) => Err(e),
        },
        Operation::GameViewPlayers => match players_request(s, param) {
            Ok(_) => Ok(s.games@),
            Err(e) => Err(e),
        },
    }
}

/// Runs one operation to completion: on failure nothing changes.
pub fn invoke(state: &mut State, op: Operation, sender: Address, param: &[u8]) -> (r: ContractResult<Response>)
    requires
        old(state).wf(),
        op == Operation::CreateGame ==> old(state).ctr < u64::MAX,
    ensures
        final(state).wf(),
        match after_operation(*old(state), op, sender, param@) {
            Ok(s) => r is Ok && final(state).games@ == s,
            Err(e) => r == Err::<Response, _>(e) && final(state).games@ == old(state).games@,
        },
        r is Ok ==> match op {
            Operation::View => r->Ok_0 matches Response::Games(v) && v.games@ == all_games(*old(state)),
            Operation::GameView => game_view_request(*old(state), param@) matches Ok(v)
                && r->Ok_0 == Response::Packed(v),
            Operation::GameViewPlayers => players_request(*old(state), param@) matches Ok(b)
                && r->Ok_0 matches Response::Players(out) && out@ == b,
            _ => r->Ok_0 is Done,
        },
{
    match op {
        Operation::CreateGame => {
            contract_create(state, sender)?;
            Ok(Response::Done)
        },
        Operation::JoinGame => {
            contract_join(state, sender, param)?;
            Ok(Response::Done)
        },
        Operation::MakeMove => {
            contract_make_move(state, sender, param)?;
            Ok(Response::Done)
        },
        Operation::View => Ok(Response::Games(tictactoe_view(state))),
        Operation::GameView => Ok(Response::Packed(tictactoe_game_view(state, param)?)),
        Operation::GameViewPlayers => Ok(Response::Players(tictactoe_game_view_players(state, param)?)),
    }
}

} // verus!
