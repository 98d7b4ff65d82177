use tictactoe::board::{AccountAddress, Player};
use tictactoe::entry::{
    contract_create, contract_init, contract_join, contract_make_move, invoke,
    parse_join_params, parse_make_move_params, tictactoe_game_view, tictactoe_game_view_players,
    Address, ContractAddress, JoinParams, MakeMoveParams, Operation, Response,
};
use tictactoe::game::{CustomContractError, Game, GameState, PutMove};
use tictactoe::registry::State;
use tictactoe::view::tictactoe_view;

const ALICE: AccountAddress = AccountAddress([7u8; 32]);
const BOB: AccountAddress = AccountAddress([9u8; 32]);
const A: Address = Address::Account(ALICE);
const B: Address = Address::Account(BOB);
const PROGRAM: Address = Address::Contract(ContractAddress { index: 3, subindex: 0 });

fn join_param(id: u64) -> Vec<u8> {
    id.to_le_bytes().to_vec()
}

fn move_param(id: u64, m: u64) -> Vec<u8> {
    let mut v = id.to_le_bytes().to_vec();
    v.extend_from_slice(&m.to_le_bytes());
    v
}

fn registry_with_started_game() -> State {
    let mut s = contract_init();
    assert_eq!(contract_create(&mut s, A), Ok(()));
    assert_eq!(contract_join(&mut s, B, &join_param(0)), Ok(()));
    s
}

#[test]
fn init_is_empty() {
    let s = contract_init();
    assert_eq!(s.ctr, 0);
    assert!(s.games.is_empty());
    assert!(tictactoe_view(&s).games.is_empty());
}

#[test]
fn create_assigns_increasing_ids() {
    let mut s = State::empty();
    assert_eq!(s.create_game(ALICE), 0);
    assert_eq!(s.create_game(BOB), 1);
    assert_eq!(s.ctr, 2);
    assert_eq!(s.games[1], Game::new(BOB));
}

#[test]
fn create_from_program_is_not_a_human() {
    let mut s = contract_init();
    assert_eq!(contract_create(&mut s, PROGRAM), Err(CustomContractError::NotAHuman));
    assert_eq!(s.ctr, 0);
}

#[test]
fn join_unknown_game_is_invalid_id() {
    let mut s = contract_init();
    assert_eq!(contract_join(&mut s, B, &join_param(0)), Err(CustomContractError::InvalidGameId));
    assert_eq!(s.join(5, Player::Circle(BOB)), Err(CustomContractError::InvalidGameId));
}

#[test]
fn join_own_game_is_invalid_join() {
    let mut s = contract_init();
    contract_create(&mut s, A).unwrap();
    assert_eq!(contract_join(&mut s, A, &join_param(0)), Err(CustomContractError::InvalidJoin));
    assert_eq!(s.games[0].game_state, GameState::AwaitingOpponent);
}

#[test]
fn join_checks_params_before_sender() {
    let mut s = contract_init();
    contract_create(&mut s, A).unwrap();
    assert_eq!(contract_join(&mut s, PROGRAM, &[0u8; 7]), Err(CustomContractError::ParseParams));
    assert_eq!(contract_join(&mut s, PROGRAM, &join_param(0)), Err(CustomContractError::NotAHuman));
}

#[test]
fn join_seats_circle() {
    let s = registry_with_started_game();
    assert_eq!(s.games[0].circle, Some(Player::Circle(BOB)));
    assert_eq!(s.games[0].game_state, GameState::InProgress(Player::Cross(ALICE)));
}

#[test]
fn move_checks_sender_before_params() {
    let mut s = registry_with_started_game();
    assert_eq!(contract_make_move(&mut s, PROGRAM, &[0u8; 3]), Err(CustomContractError::NotAHuman));
    assert_eq!(contract_make_move(&mut s, A, &[0u8; 15]), Err(CustomContractError::ParseParams));
}

#[test]
fn move_errors_in_order() {
    let mut s = contract_init();
    contract_create(&mut s, A).unwrap();
    assert_eq!(contract_make_move(&mut s, A, &move_param(1, 0)), Err(CustomContractError::InvalidGameId));
    assert_eq!(contract_make_move(&mut s, A, &move_param(0, 0)), Err(CustomContractError::InvalidGameState));
    contract_join(&mut s, B, &join_param(0)).unwrap();
    assert_eq!(contract_make_move(&mut s, B, &move_param(0, 0)), Err(CustomContractError::NotMyTurn));
    assert_eq!(contract_make_move(&mut s, A, &move_param(0, 9)), Err(CustomContractError::InvalidMove));
    assert_eq!(contract_make_move(&mut s, A, &move_param(0, u64::MAX)), Err(CustomContractError::InvalidMove));
    assert_eq!(contract_make_move(&mut s, A, &move_param(0, 4)), Ok(()));
    assert_eq!(contract_make_move(&mut s, B, &move_param(0, 4)), Err(CustomContractError::InvalidMove));
    assert_eq!(contract_make_move(&mut s, A, &move_param(0, 0)), Err(CustomContractError::NotMyTurn));
}

#[test]
fn finished_game_refuses_every_move() {
    let mut s = registry_with_started_game();
    for (who, m) in [(ALICE, 0u64), (BOB, 3), (ALICE, 1), (BOB, 4), (ALICE, 2)] {
        assert_eq!(s.make_move(0, &who, PutMove::new(m as usize)), Ok(()));
    }
    assert_eq!(s.games[0].game_state, GameState::Finished(Some(Player::Cross(ALICE))));
    for who in [ALICE, BOB, AccountAddress([5u8; 32])] {
        for m in [0usize, 5, 8, 9, 100] {
            assert_eq!(s.make_move(0, &who, PutMove::new(m)), Err(CustomContractError::InvalidGameState));
        }
    }
}

#[test]
fn games_are_independent() {
    let mut s = registry_with_started_game();
    contract_create(&mut s, B).unwrap();
    contract_join(&mut s, A, &join_param(1)).unwrap();
    assert_eq!(contract_make_move(&mut s, B, &move_param(1, 4)), Ok(()));
    assert_eq!(contract_make_move(&mut s, A, &move_param(0, 4)), Ok(()));
    assert_eq!(s.games[0].game_state, GameState::InProgress(Player::Circle(BOB)));
    assert_eq!(s.games[1].game_state, GameState::InProgress(Player::Circle(ALICE)));
}

#[test]
fn params_decode_little_endian() {
    assert_eq!(parse_join_params(&[1, 2, 0, 0, 0, 0, 0, 0, 99]), Ok(JoinParams { game_id: 0x0201 }));
    assert_eq!(parse_join_params(&[]), Err(CustomContractError::ParseParams));
    assert_eq!(
        parse_make_move_params(&move_param(0x0102030405060708, 7)),
        Ok(MakeMoveParams { game_id: 0x0102030405060708, the_move: 7 })
    );
    assert_eq!(parse_make_move_params(&[0u8; 8]), Err(CustomContractError::ParseParams));
    assert_eq!(parse_join_params(&u64::MAX.to_le_bytes()), Ok(JoinParams { game_id: u64::MAX }));
}

#[test]
fn game_view_packs_state_and_cells() {
    let mut s = registry_with_started_game();
    assert_eq!(tictactoe_game_view(&s, &join_param(0)), Ok(1));
    contract_make_move(&mut s, A, &move_param(0, 0)).unwrap();
    contract_make_move(&mut s, B, &move_param(0, 4)).unwrap();
    assert_eq!(tictactoe_game_view(&s, &join_param(0)), Ok(8209));
    assert_eq!(tictactoe_game_view(&s, &join_param(1)), Err(CustomContractError::InvalidGameId));
    assert_eq!(tictactoe_game_view(&s, &[0u8; 2]), Err(CustomContractError::ParseParams));
}

#[test]
fn packed_view_of_finished_games() {
    let mut s = registry_with_started_game();
    for (who, m) in [(ALICE, 0u64), (BOB, 1), (ALICE, 2), (BOB, 4), (ALICE, 3), (BOB, 5), (ALICE, 7), (BOB, 6), (ALICE, 8)] {
        contract_make_move(&mut s, Address::Account(who), &move_param(0, m)).unwrap();
    }
    assert_eq!(u32::from(s.games[0]), 1484179);
    let mut d = registry_with_started_game();
    for (who, m) in [(ALICE, 0u64), (BOB, 1), (ALICE, 4), (BOB, 7), (ALICE, 8)] {
        contract_make_move(&mut d, Address::Account(who), &move_param(0, m)).unwrap();
    }
    assert_eq!(tictactoe_game_view(&d, &join_param(0)), Ok(1577108));
    let mut fresh = contract_init();
    contract_create(&mut fresh, A).unwrap();
    assert_eq!(tictactoe_game_view(&fresh, &join_param(0)), Ok(0));
}

#[test]
fn players_view_lists_seated_identities() {
    let mut s = contract_init();
    contract_create(&mut s, A).unwrap();
    assert_eq!(tictactoe_game_view_players(&s, &join_param(0)), Ok(vec![7u8; 32]));
    contract_join(&mut s, B, &join_param(0)).unwrap();
    let mut both = vec![7u8; 32];
    both.extend_from_slice(&[9u8; 32]);
    assert_eq!(tictactoe_game_view_players(&s, &join_param(0)), Ok(both));
    assert_eq!(tictactoe_game_view_players(&s, &join_param(1)), Err(CustomContractError::InvalidGameId));
    assert_eq!(tictactoe_game_view_players(&s, &[1u8]), Err(CustomContractError::ParseParams));
}

#[test]
fn full_view_is_ordered_by_id() {
    let mut s = registry_with_started_game();
    contract_create(&mut s, B).unwrap();
    let v = tictactoe_view(&s);
    let keys: Vec<u64> = v.games.keys().copied().collect();
    assert_eq!(keys, vec![0, 1]);
    assert_eq!(v.games[&0], s.games[0]);
    assert_eq!(v.games[&1], Game::new(BOB));
}

#[test]
fn invoke_dispatches_each_operation() {
    let mut s = contract_init();
    assert!(matches!(invoke(&mut s, Operation::CreateGame, A, &[]), Ok(Response::Done)));
    assert!(matches!(invoke(&mut s, Operation::JoinGame, B, &join_param(0)), Ok(Response::Done)));
    assert!(matches!(invoke(&mut s, Operation::MakeMove, A, &move_param(0, 0)), Ok(Response::Done)));
    assert!(matches!(invoke(&mut s, Operation::GameView, PROGRAM, &join_param(0)), Ok(Response::Packed(18))));
    match invoke(&mut s, Operation::GameViewPlayers, A, &join_param(0)) {
        Ok(Response::Players(p)) => assert_eq!(p.len(), 64),
        _ => panic!("expected the seated identities"),
    }
    match invoke(&mut s, Operation::View, A, &[]) {
        Ok(Response::Games(v)) => assert_eq!(v.games.len(), 1),
        _ => panic!("expected every game"),
    }
    assert!(matches!(invoke(&mut s, Operation::MakeMove, A, &move_param(0, 1)), Err(CustomContractError::NotMyTurn)));
    assert!(matches!(invoke(&mut s, Operation::CreateGame, PROGRAM, &[]), Err(CustomContractError::NotAHuman)));
    assert_eq!(s.ctr, 1);
}
