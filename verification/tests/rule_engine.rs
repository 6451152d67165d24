use cards_game_server::error::{ErrorKind, GameError};
use cards_game_server::games::tictactoe::{
    MoveOutcome, NodeState, Outcome, Phase, RejectReason, Seats, TicTacToe, MAX_PLAYERS,
    MIN_PLAYERS,
};
use cards_game_server::games::GameType;
use cards_game_server::types::{
    IncomingMessage, JsonTicTacToeMove, JsonTicTacToeMoveSuccess, JsonTicTacToePlayer, PlayerId,
    PlayerLike,
};

const ALICE: PlayerId = 0xa11ce;
const BOB: PlayerId = 0xb0b;
const CAROL: PlayerId = 0xca401;

fn at(x: usize, y: usize) -> JsonTicTacToeMove {
    JsonTicTacToeMove { x, y }
}

fn marked(x: usize, y: usize, player: JsonTicTacToePlayer) -> JsonTicTacToeMoveSuccess {
    JsonTicTacToeMoveSuccess { x, y, player }
}

/// A game in which ALICE holds seat X and BOB seat O.
fn started() -> TicTacToe {
    let mut game = TicTacToe::default();
    assert_eq!(
        game.init_with(&vec![ALICE, BOB], 0),
        Ok(Seats { player_x: ALICE, player_o: BOB })
    );
    game
}

/// Plays `moves` in turn, X first, and expects each but the last to be
/// accepted; returns what the last one came to.
fn play(game: &mut TicTacToe, moves: &[(usize, usize)]) -> MoveOutcome {
    let mut last = MoveOutcome::Rejected { reason: RejectReason::GameNotInProgress };
    for (n, (x, y)) in moves.iter().enumerate() {
        let (player, seat) = if n % 2 == 0 {
            (ALICE, JsonTicTacToePlayer::X)
        } else {
            (BOB, JsonTicTacToePlayer::O)
        };
        last = game.apply_move(player, at(*x, *y));
        if n + 1 < moves.len() {
            assert_eq!(last, MoveOutcome::Accepted { effect: marked(*x, *y, seat) });
        }
    }
    last
}

fn marked_squares(game: &TicTacToe) -> usize {
    let mut n = 0;
    for x in 0..3 {
        for y in 0..3 {
            if game.cell(x, y) != Some(NodeState::Empty) {
                n += 1;
            }
        }
    }
    n
}

#[test]
fn a_new_session_waits_for_players() {
    let game = TicTacToe::default();
    assert_eq!(game.phase(), Phase::Waiting);
    assert_eq!(game.turn_index(), 0);
    assert_eq!(game.seats(), None);
    assert_eq!(game.holder(JsonTicTacToePlayer::X), None);
    assert_eq!(marked_squares(&game), 0);
    assert_eq!(game.min_players(), 2);
    assert_eq!(game.max_players(), 2);
    assert_eq!(MIN_PLAYERS, 2);
    assert_eq!(MAX_PLAYERS, 2);
}

#[test]
fn the_picked_player_takes_seat_x() {
    let mut game = TicTacToe::default();
    assert_eq!(
        game.init_with(&vec![ALICE, BOB], 1),
        Ok(Seats { player_x: BOB, player_o: ALICE })
    );
    assert_eq!(game.phase(), Phase::InProgress);
    assert_eq!(game.seats(), Some(Seats { player_x: BOB, player_o: ALICE }));
    assert_eq!(game.holder(JsonTicTacToePlayer::X), Some(BOB));
    assert_eq!(game.holder(JsonTicTacToePlayer::O), Some(ALICE));
    assert_eq!(game.to_move(), JsonTicTacToePlayer::X);
    assert_eq!(game.turn_index(), 0);

    let mut game = TicTacToe::default();
    assert_eq!(
        game.init_with(&vec![ALICE, BOB], 0),
        Ok(Seats { player_x: ALICE, player_o: BOB })
    );
}

#[test]
fn seating_needs_exactly_two_different_players() {
    let mut game = TicTacToe::default();
    assert_eq!(game.init_with(&vec![], 0), Err(GameError::NotEnoughPlayers));
    assert_eq!(game.init_with(&vec![ALICE], 0), Err(GameError::NotEnoughPlayers));
    assert_eq!(game.init_with(&vec![ALICE, BOB, CAROL], 0), Err(GameError::TooManyPlayers));
    assert_eq!(game.init_with(&vec![ALICE, ALICE], 0), Err(GameError::DuplicatePlayer));
    assert_eq!(game.init_with(&vec![ALICE, BOB], 2), Err(GameError::SeatOutOfRange));
    assert_eq!(game.init_with(&vec![ALICE, BOB], usize::MAX), Err(GameError::SeatOutOfRange));
    assert_eq!(game.phase(), Phase::Waiting);
    assert_eq!(game.seats(), None);
    assert_eq!(game.init(&vec![]), Err(GameError::NotEnoughPlayers));
    assert_eq!(game.init(&vec![ALICE]), Err(GameError::NotEnoughPlayers));
    assert_eq!(game.init(&vec![ALICE, ALICE]), Err(GameError::DuplicatePlayer));
    assert_eq!(game.phase(), Phase::Waiting);
}

#[test]
fn seats_are_assigned_only_once() {
    let mut game = started();
    assert_eq!(game.init_with(&vec![BOB, ALICE], 0), Err(GameError::AlreadyStarted));
    assert_eq!(game.init(&vec![BOB, CAROL]), Err(GameError::AlreadyStarted));
    assert_eq!(game.seats(), Some(Seats { player_x: ALICE, player_o: BOB }));
}

#[test]
fn a_random_seating_seats_both_players() {
    let one = Seats { player_x: ALICE, player_o: BOB };
    let other = Seats { player_x: BOB, player_o: ALICE };
    for _ in 0..64 {
        let mut game = TicTacToe::default();
        let seats = game.init(&vec![ALICE, BOB]).expect("two different players can be seated");
        assert!(seats == one || seats == other);
        assert_eq!(game.seats(), Some(seats));
        assert_eq!(game.phase(), Phase::InProgress);
    }
}

#[test]
fn an_accepted_move_marks_the_square_and_passes_the_turn() {
    let mut game = started();
    assert_eq!(
        game.apply_move(ALICE, at(0, 0)),
        MoveOutcome::Accepted { effect: marked(0, 0, JsonTicTacToePlayer::X) }
    );
    assert_eq!(game.turn_index(), 1);
    assert_eq!(game.to_move(), JsonTicTacToePlayer::O);
    assert_eq!(game.cell(0, 0), Some(NodeState::X));
    assert_eq!(
        game.apply_move(BOB, at(2, 1)),
        MoveOutcome::Accepted { effect: marked(2, 1, JsonTicTacToePlayer::O) }
    );
    assert_eq!(game.turn_index(), 2);
    assert_eq!(game.to_move(), JsonTicTacToePlayer::X);
    assert_eq!(game.cell(2, 1), Some(NodeState::O));
    assert_eq!(game.cell(1, 2), Some(NodeState::Empty));
    assert_eq!(game.phase(), Phase::InProgress);
}

#[test]
fn a_move_out_of_turn_is_rejected_and_changes_nothing() {
    let mut game = started();
    let out_of_turn = MoveOutcome::Rejected { reason: RejectReason::OutOfTurn };
    assert_eq!(game.apply_move(BOB, at(1, 1)), out_of_turn);
    assert_eq!(game.apply_move(BOB, at(1, 1)), out_of_turn);
    assert_eq!(game.apply_move(CAROL, at(1, 1)), out_of_turn);
    // The turn is tested before the square is.
    assert_eq!(game.apply_move(BOB, at(7, 7)), out_of_turn);
    assert_eq!(game.turn_index(), 0);
    assert_eq!(marked_squares(&game), 0);
    assert_eq!(game.phase(), Phase::InProgress);

    play(&mut game, &[(1, 1)]);
    assert_eq!(game.apply_move(ALICE, at(0, 0)), out_of_turn);
    assert_eq!(game.apply_move(ALICE, at(1, 1)), out_of_turn);
    assert_eq!(game.turn_index(), 1);
    assert_eq!(marked_squares(&game), 1);
}

#[test]
fn a_move_off_the_board_is_rejected() {
    let mut game = started();
    let out_of_bounds = MoveOutcome::Rejected { reason: RejectReason::OutOfBounds };
    assert_eq!(game.apply_move(ALICE, at(3, 0)), out_of_bounds);
    assert_eq!(game.apply_move(ALICE, at(0, 3)), out_of_bounds);
    assert_eq!(game.apply_move(ALICE, at(3, 3)), out_of_bounds);
    assert_eq!(game.apply_move(ALICE, at(usize::MAX, 1)), out_of_bounds);
    assert_eq!(game.apply_move(ALICE, at(1, usize::MAX)), out_of_bounds);
    assert_eq!(game.turn_index(), 0);
    assert_eq!(marked_squares(&game), 0);
    assert_eq!(game.cell(3, 0), None);
    assert_eq!(game.cell(0, 3), None);
    // The corner of the board is on it.
    assert_eq!(
        game.apply_move(ALICE, at(2, 2)),
        MoveOutcome::Accepted { effect: marked(2, 2, JsonTicTacToePlayer::X) }
    );
}

#[test]
fn a_marked_square_is_never_overwritten() {
    let mut game = started();
    play(&mut game, &[(1, 1)]);
    let occupied = MoveOutcome::Rejected { reason: RejectReason::CellOccupied };
    assert_eq!(game.apply_move(BOB, at(1, 1)), occupied);
    assert_eq!(game.cell(1, 1), Some(NodeState::X));
    assert_eq!(game.turn_index(), 1);
    play_one(&mut game, BOB, (0, 0));
    assert_eq!(game.apply_move(ALICE, at(0, 0)), occupied);
    assert_eq!(game.apply_move(ALICE, at(1, 1)), occupied);
    assert_eq!(game.cell(0, 0), Some(NodeState::O));
    assert_eq!(game.cell(1, 1), Some(NodeState::X));
    assert_eq!(game.turn_index(), 2);
}

#[test]
fn as_many_squares_are_marked_as_moves_were_accepted() {
    let mut game = started();
    let moves = [(0, 0), (1, 1), (0, 1), (0, 2), (2, 0), (1, 0), (1, 2)];
    for n in 0..moves.len() {
        assert_eq!(marked_squares(&game), n);
        assert_eq!(game.turn_index() as usize, n);
        let player = if n % 2 == 0 { ALICE } else { BOB };
        // A refused move in between counts for nothing.
        assert_eq!(
            game.apply_move(player, at(9, 9)),
            MoveOutcome::Rejected { reason: RejectReason::OutOfBounds }
        );
        play_one(&mut game, player, moves[n]);
    }
    assert_eq!(marked_squares(&game), 7);
    assert_eq!(game.turn_index(), 7);
}

fn play_one(game: &mut TicTacToe, player: PlayerId, square: (usize, usize)) {
    match game.apply_move(player, at(square.0, square.1)) {
        MoveOutcome::Accepted { effect } => {
            assert_eq!((effect.x, effect.y), square);
        }
        other => panic!("move to {:?} was not accepted: {:?}", square, other),
    }
}

#[test]
fn no_move_is_accepted_before_the_game_starts() {
    let mut game = TicTacToe::default();
    let not_in_progress = MoveOutcome::Rejected { reason: RejectReason::GameNotInProgress };
    assert_eq!(game.apply_move(ALICE, at(0, 0)), not_in_progress);
    assert_eq!(game.apply_move(ALICE, at(5, 5)), not_in_progress);
    assert_eq!(game.phase(), Phase::Waiting);
    assert_eq!(game.turn_index(), 0);
}

#[test]
fn completing_the_top_row_wins_the_game() {
    // [[X, X, X], [O, _, _], [_, O, _]]
    let mut game = started();
    let last = play(&mut game, &[(0, 0), (1, 0), (0, 1), (2, 1), (0, 2)]);
    assert_eq!(
        last,
        MoveOutcome::GameOver {
            effect: marked(0, 2, JsonTicTacToePlayer::X),
            outcome: Outcome::Winner(JsonTicTacToePlayer::X),
        }
    );
    assert_eq!(game.phase(), Phase::Finished(Outcome::Winner(JsonTicTacToePlayer::X)));
    assert_eq!(game.cell(0, 0), Some(NodeState::X));
    assert_eq!(game.cell(0, 1), Some(NodeState::X));
    assert_eq!(game.cell(0, 2), Some(NodeState::X));
    assert_eq!(game.cell(1, 0), Some(NodeState::O));
    assert_eq!(game.cell(1, 1), Some(NodeState::Empty));
    assert_eq!(game.cell(1, 2), Some(NodeState::Empty));
    assert_eq!(game.cell(2, 0), Some(NodeState::Empty));
    assert_eq!(game.cell(2, 1), Some(NodeState::O));
    assert_eq!(game.cell(2, 2), Some(NodeState::Empty));
    assert_eq!(game.turn_index(), 5);
}

#[test]
fn every_line_wins() {
    let x = JsonTicTacToePlayer::X;
    let o = JsonTicTacToePlayer::O;
    // Each game: the moves, and who completes a line with the last of them.
    let games: Vec<(Vec<(usize, usize)>, JsonTicTacToePlayer)> = vec![
        (vec![(1, 0), (0, 0), (1, 1), (0, 1), (1, 2)], x),
        (vec![(2, 0), (0, 0), (2, 1), (0, 1), (2, 2)], x),
        (vec![(0, 0), (0, 1), (1, 0), (1, 1), (2, 0)], x),
        (vec![(0, 1), (0, 0), (1, 1), (1, 0), (2, 1)], x),
        (vec![(0, 2), (0, 0), (1, 2), (1, 0), (2, 2)], x),
        (vec![(0, 0), (0, 1), (1, 1), (0, 2), (2, 2)], x),
        (vec![(0, 2), (0, 1), (1, 1), (0, 0), (2, 0)], x),
        (vec![(0, 0), (1, 0), (0, 1), (1, 1), (2, 2), (1, 2)], o),
        (vec![(0, 1), (0, 0), (0, 2), (1, 1), (1, 0), (2, 2)], o),
    ];
    for (moves, winner) in games {
        let mut game = started();
        let (x, y) = moves[moves.len() - 1];
        assert_eq!(
            play(&mut game, &moves),
            MoveOutcome::GameOver {
                effect: marked(x, y, winner),
                outcome: Outcome::Winner(winner),
            }
        );
        assert_eq!(game.phase(), Phase::Finished(Outcome::Winner(winner)));
    }
}

#[test]
fn a_full_board_without_a_line_is_a_draw() {
    // [[X, O, X], [X, O, O], [O, X, X]]
    let mut game = started();
    let last = play(
        &mut game,
        &[(0, 0), (0, 1), (0, 2), (1, 1), (1, 0), (1, 2), (2, 1), (2, 0), (2, 2)],
    );
    assert_eq!(
        last,
        MoveOutcome::GameOver {
            effect: marked(2, 2, JsonTicTacToePlayer::X),
            outcome: Outcome::Draw,
        }
    );
    assert_eq!(game.phase(), Phase::Finished(Outcome::Draw));
    assert_eq!(game.turn_index(), 9);
    assert_eq!(marked_squares(&game), 9);
}

#[test]
fn the_last_square_can_still_win() {
    // [[X, O, O], [O, X, X], [X, O, X]], with (2, 2) marked last.
    let mut game = started();
    let last = play(
        &mut game,
        &[(0, 0), (0, 1), (1, 1), (0, 2), (1, 2), (1, 0), (2, 0), (2, 1), (2, 2)],
    );
    assert_eq!(
        last,
        MoveOutcome::GameOver {
            effect: marked(2, 2, JsonTicTacToePlayer::X),
            outcome: Outcome::Winner(JsonTicTacToePlayer::X),
        }
    );
}

#[test]
fn no_move_is_accepted_after_the_game_is_over() {
    let mut game = started();
    play(&mut game, &[(0, 0), (1, 0), (0, 1), (2, 1), (0, 2)]);
    let not_in_progress = MoveOutcome::Rejected { reason: RejectReason::GameNotInProgress };
    assert_eq!(game.apply_move(BOB, at(2, 2)), not_in_progress);
    assert_eq!(game.apply_move(ALICE, at(2, 2)), not_in_progress);
    assert_eq!(game.apply_move(BOB, at(0, 0)), not_in_progress);
    assert_eq!(game.apply_move(BOB, at(4, 4)), not_in_progress);
    assert_eq!(game.cell(2, 2), Some(NodeState::Empty));
    assert_eq!(game.turn_index(), 5);
    assert_eq!(game.phase(), Phase::Finished(Outcome::Winner(JsonTicTacToePlayer::X)));
}

#[test]
fn a_message_without_a_move_is_an_error() {
    let mut game = started();
    let unreadable = IncomingMessage { player_like: PlayerLike { client_uuid: ALICE }, payload: None };
    assert_eq!(game.handle(&unreadable), Err(GameError::MessageSerialization));
    assert_eq!(game.turn_index(), 0);
    let readable = IncomingMessage {
        player_like: PlayerLike { client_uuid: ALICE },
        payload: Some(at(1, 2)),
    };
    assert_eq!(
        game.handle(&readable),
        Ok(MoveOutcome::Accepted { effect: marked(1, 2, JsonTicTacToePlayer::X) })
    );
    assert_eq!(
        game.handle(&readable),
        Ok(MoveOutcome::Rejected { reason: RejectReason::OutOfTurn })
    );
}

#[test]
fn a_game_type_hands_everything_to_its_game() {
    let mut game = GameType::TicTacToe(TicTacToe::default());
    assert_eq!(game.min_players(), 2);
    assert_eq!(game.max_players(), 2);
    assert_eq!(game.phase(), Phase::Waiting);
    assert_eq!(game.init_with(&vec![ALICE], 0), Err(GameError::NotEnoughPlayers));
    assert_eq!(
        game.init_with(&vec![ALICE, BOB], 1),
        Ok(Seats { player_x: BOB, player_o: ALICE })
    );
    assert_eq!(game.phase(), Phase::InProgress);
    assert_eq!(game.init(&vec![ALICE, BOB]), Err(GameError::AlreadyStarted));
    let msg = IncomingMessage { player_like: PlayerLike { client_uuid: BOB }, payload: Some(at(0, 0)) };
    assert_eq!(
        game.handle(&msg),
        Ok(MoveOutcome::Accepted { effect: marked(0, 0, JsonTicTacToePlayer::X) })
    );
    assert_eq!(
        game.apply_move(ALICE, at(0, 0)),
        MoveOutcome::Rejected { reason: RejectReason::CellOccupied }
    );
    assert_eq!(
        game.apply_move(ALICE, at(2, 0)),
        MoveOutcome::Accepted { effect: marked(2, 0, JsonTicTacToePlayer::O) }
    );
    let GameType::TicTacToe(inner) = game;
    assert_eq!(inner.cell(0, 0), Some(NodeState::X));
    assert_eq!(inner.cell(2, 0), Some(NodeState::O));
}

#[test]
fn the_other_seat() {
    assert_eq!(JsonTicTacToePlayer::X.other(), JsonTicTacToePlayer::O);
    assert_eq!(JsonTicTacToePlayer::O.other(), JsonTicTacToePlayer::X);
}

#[test]
fn every_error_has_its_kind() {
    assert_eq!(GameError::MessageSerialization.kind(), ErrorKind::ProtocolError);
    assert_eq!(GameError::AlreadyConnected.kind(), ErrorKind::ProtocolError);
    assert_eq!(GameError::NotFound.kind(), ErrorKind::DeliveryFailure);
    assert_eq!(GameError::NotEnoughPlayers.kind(), ErrorKind::InvariantViolation);
    assert_eq!(GameError::TooManyPlayers.kind(), ErrorKind::InvariantViolation);
    assert_eq!(GameError::DuplicatePlayer.kind(), ErrorKind::InvariantViolation);
    assert_eq!(GameError::SeatOutOfRange.kind(), ErrorKind::InvariantViolation);
    assert_eq!(GameError::AlreadyStarted.kind(), ErrorKind::InvariantViolation);
}
