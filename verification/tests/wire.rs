use cards_game_server::games::tictactoe::{Outcome, RejectReason};
use cards_game_server::types::{
    Data, Envelope, JsonMessage, JsonPlayer, JsonPlayerLike, JsonTicTacToeMoveIllegal,
    JsonTicTacToeMoveSuccess, JsonTicTacToePlayer, JsonTicTacToeStarted, Player, PlayerId,
    PlayerLike, Type,
};

const ALICE: PlayerId = 0x0123_4567_89ab_cdef_0123_4567_89ab_cdef;
const ALICE_TEXT: &str = "01234567-89ab-cdef-0123-456789abcdef";
const BOB: PlayerId = 0xa1a2_a3a4_b1b2_c1c2_d1d2_d3d4_d5d6_d7d8;
const BOB_TEXT: &str = "a1a2a3a4-b1b2-c1c2-d1d2-d3d4d5d6d7d8";

fn alice() -> Player {
    Player { client_uuid: ALICE, name: "Alice".to_string() }
}

#[test]
fn an_identity_travels_as_the_text_of_its_uuid() {
    let json = Envelope::ClientDisconnected { player_like: PlayerLike { client_uuid: 0 } }.to_json();
    assert_eq!(
        json.data,
        Data::PlayerLike(JsonPlayerLike {
            client_uuid: "00000000-0000-0000-0000-000000000000".to_string()
        })
    );
    let json =
        Envelope::ClientDisconnected { player_like: PlayerLike { client_uuid: u128::MAX } }.to_json();
    assert_eq!(
        json.data,
        Data::PlayerLike(JsonPlayerLike {
            client_uuid: "ffffffff-ffff-ffff-ffff-ffffffffffff".to_string()
        })
    );
    let json =
        Envelope::ClientDisconnected { player_like: PlayerLike { client_uuid: ALICE } }.to_json();
    assert_eq!(
        json,
        JsonMessage {
            kind: Type::ClientDisconnected,
            data: Data::PlayerLike(JsonPlayerLike { client_uuid: ALICE_TEXT.to_string() }),
        }
    );
    assert_eq!(ALICE_TEXT, uuid::Uuid::from_u128(ALICE).to_string());
}

#[test]
fn a_connection_travels_with_identity_and_name() {
    let data = || {
        Data::Player(JsonPlayer { client_uuid: ALICE_TEXT.to_string(), name: "Alice".to_string() })
    };
    assert_eq!(
        Envelope::ConnectionSuccess { player: alice() }.to_json(),
        JsonMessage { kind: Type::ConnectionSuccess, data: data() }
    );
    assert_eq!(
        Envelope::ClientConnected { player: alice() }.to_json(),
        JsonMessage { kind: Type::ClientConnected, data: data() }
    );
}

#[test]
fn the_start_of_a_game_travels_with_both_seats() {
    assert_eq!(
        Envelope::GameStarted { player_x: ALICE, player_o: BOB }.to_json(),
        JsonMessage {
            kind: Type::TicTacToeStarted,
            data: Data::TicTacToeStarted(JsonTicTacToeStarted {
                player_o: BOB_TEXT.to_string(),
                player_x: ALICE_TEXT.to_string(),
            }),
        }
    );
}

#[test]
fn moves_travel_with_their_square() {
    assert_eq!(
        Envelope::MoveAccepted { x: 2, y: 1, seat: JsonTicTacToePlayer::O }.to_json(),
        JsonMessage {
            kind: Type::TicTacToeMove,
            data: Data::TicTacToeMoveSuccess(JsonTicTacToeMoveSuccess {
                x: 2,
                y: 1,
                player: JsonTicTacToePlayer::O,
            }),
        }
    );
    assert_eq!(
        Envelope::MoveRejected { reason: RejectReason::CellOccupied, x: 1, y: 7 }.to_json(),
        JsonMessage {
            kind: Type::TicTacToeMoveIllegal,
            data: Data::TicTacToeMoveIllegal(JsonTicTacToeMoveIllegal {
                x: 1,
                y: 7,
                reason: RejectReason::CellOccupied,
            }),
        }
    );
}

#[test]
fn the_end_of_a_game_travels_as_winner_or_draw() {
    assert_eq!(
        Envelope::GameOver { outcome: Outcome::Winner(JsonTicTacToePlayer::X) }.to_json(),
        JsonMessage {
            kind: Type::TicTacToeWinner,
            data: Data::TicTacToeWinner(JsonTicTacToePlayer::X),
        }
    );
    assert_eq!(
        Envelope::GameOver { outcome: Outcome::Draw }.to_json(),
        JsonMessage { kind: Type::TicTacToeDraw, data: Data::Empty }
    );
    assert_eq!(
        Envelope::MessageMalformed.to_json(),
        JsonMessage { kind: Type::MessageMalformed, data: Data::Empty }
    );
}

#[test]
fn a_copy_of_an_envelope_is_the_same_envelope() {
    let envelopes = vec![
        Envelope::ConnectionSuccess { player: alice() },
        Envelope::ClientConnected { player: alice() },
        Envelope::ClientDisconnected { player_like: PlayerLike { client_uuid: BOB } },
        Envelope::GameStarted { player_x: ALICE, player_o: BOB },
        Envelope::MoveAccepted { x: 0, y: 2, seat: JsonTicTacToePlayer::X },
        Envelope::MoveRejected { reason: RejectReason::OutOfTurn, x: 0, y: 2 },
        Envelope::GameOver { outcome: Outcome::Draw },
        Envelope::MessageMalformed,
    ];
    for envelope in envelopes {
        assert_eq!(envelope.clone(), envelope);
    }
    assert_eq!(alice().clone(), alice());
}

#[test]
fn messages_are_built_from_what_they_hold() {
    assert_eq!(
        JsonMessage::connection_success("id".to_string(), "name".to_string()),
        JsonMessage {
            kind: Type::ConnectionSuccess,
            data: Data::Player(JsonPlayer {
                client_uuid: "id".to_string(),
                name: "name".to_string()
            }),
        }
    );
    assert_eq!(
        JsonMessage::client_connected("id".to_string(), "name".to_string()),
        JsonMessage {
            kind: Type::ClientConnected,
            data: Data::Player(JsonPlayer {
                client_uuid: "id".to_string(),
                name: "name".to_string()
            }),
        }
    );
    assert_eq!(
        JsonMessage::client_disconnected("id".to_string()),
        JsonMessage {
            kind: Type::ClientDisconnected,
            data: Data::PlayerLike(JsonPlayerLike { client_uuid: "id".to_string() }),
        }
    );
    assert_eq!(
        JsonMessage::started("x".to_string(), "o".to_string()),
        JsonMessage {
            kind: Type::TicTacToeStarted,
            data: Data::TicTacToeStarted(JsonTicTacToeStarted {
                player_o: "o".to_string(),
                player_x: "x".to_string(),
            }),
        }
    );
    assert_eq!(
        JsonMessage::move_accepted(1, 2, JsonTicTacToePlayer::X),
        JsonMessage {
            kind: Type::TicTacToeMove,
            data: Data::TicTacToeMoveSuccess(JsonTicTacToeMoveSuccess {
                x: 1,
                y: 2,
                player: JsonTicTacToePlayer::X,
            }),
        }
    );
    assert_eq!(
        JsonMessage::move_rejected(RejectReason::GameNotInProgress, 4, 0),
        JsonMessage {
            kind: Type::TicTacToeMoveIllegal,
            data: Data::TicTacToeMoveIllegal(JsonTicTacToeMoveIllegal {
                x: 4,
                y: 0,
                reason: RejectReason::GameNotInProgress,
            }),
        }
    );
    assert_eq!(
        JsonMessage::game_over(Outcome::Winner(JsonTicTacToePlayer::O)),
        JsonMessage {
            kind: Type::TicTacToeWinner,
            data: Data::TicTacToeWinner(JsonTicTacToePlayer::O),
        }
    );
    assert_eq!(
        JsonMessage::game_over(Outcome::Draw),
        JsonMessage { kind: Type::TicTacToeDraw, data: Data::Empty }
    );
    assert_eq!(
        JsonMessage::malformed(),
        JsonMessage { kind: Type::MessageMalformed, data: Data::Empty }
    );
}
