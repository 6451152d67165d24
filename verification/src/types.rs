use crate::games::tictactoe::{Outcome, RejectReason};
use crate::utils::{uuid_text, uuid_to_string};
use vstd::prelude::*;

verus! {

/// Identity of a connected player: the 128 bits of its UUID.
pub type PlayerId = u128;

//
// ------------------ Events ------------------
//
// What the transport hands to the coordinator.
//

/// A player as the transport knows it.
#[derive(Debug, PartialEq, Eq)]
pub struct Player {
    pub client_uuid: PlayerId,
    pub name: String,
}

impl Clone for Player {
    fn clone(&self) -> (copy: Player)
        ensures
            copy == *self,
    {
        Player { client_uuid: self.client_uuid, name: self.name.clone() }
    }
}

/// A player of whom only the identity matters.
#[derive(Clone, Copy, Debug, PartialEq, Eq, Structural)]
pub struct PlayerLike {
    pub client_uuid: PlayerId,
}

/// A client has connected; `client_addr` is where its messages go.
pub struct ConnectMessage<S> {
    pub client_addr: S,
    pub player: Player,
}

/// A client has gone.
#[derive(Clone, Copy, Debug, PartialEq, Eq, Structural)]
pub struct DisconnectMessage {
    pub player_like: PlayerLike,
}

/// A client has sent something. `payload` is the move it decoded to, or
/// `None` if it did not decode.
#[derive(Clone, Copy, Debug, PartialEq, Eq, Structural)]
pub struct IncomingMessage {
    pub player_like: PlayerLike,
    pub payload: Option<JsonTicTacToeMove>,
}

//
// ------------------ Envelopes ------------------
//
// What the coordinator tells its clients.
//

/// A message from the coordinator to a client.
#[derive(Debug, PartialEq, Eq)]
pub enum Envelope {
    /// Sent to a client once it is registered.
    ConnectionSuccess { player: Player },
    /// Sent to everybody else when a client has been registered.
    ClientConnected { player: Player },
    /// Sent to those who remain when a client has gone.
    ClientDisconnected { player_like: PlayerLike },
    /// The seats are taken and `player_x` is to move.
    GameStarted { player_x: PlayerId, player_o: PlayerId },
    /// `seat` has marked the square at (`x`, `y`).
    MoveAccepted { x: usize, y: usize, seat: JsonTicTacToePlayer },
    /// The sender's move to (`x`, `y`) was refused.
    MoveRejected { reason: RejectReason, x: usize, y: usize },
    /// The game has ended.
    GameOver { outcome: Outcome },
    /// What the sender sent was no move at all.
    MessageMalformed,
}

impl Clone for Envelope {
    fn clone(&self) -> (copy: Envelope)
        ensures
            copy == *self,
    {
        match self {
            Envelope::ConnectionSuccess { player } => Envelope::ConnectionSuccess {
                player: player.clone(),
            },
            Envelope::ClientConnected { player } => Envelope::ClientConnected {
                player: player.clone(),
            },
            Envelope::ClientDisconnected { player_like } => Envelope::ClientDisconnected {
                player_like: *player_like,
            },
            Envelope::GameStarted { player_x, player_o } => Envelope::GameStarted {
                player_x: *player_x,
                player_o: *player_o,
            },
            Envelope::MoveAccepted { x, y, seat } => Envelope::MoveAccepted {
                x: *x,
                y: *y,
                seat: *seat,
            },
            Envelope::MoveRejected { reason, x, y } => Envelope::MoveRejected {
                reason: *reason,
                x: *x,
                y: *y,
            },
            Envelope::GameOver { outcome } => Envelope::GameOver { outcome: *outcome },
            Envelope::MessageMalformed => Envelope::MessageMalformed,
        }
    }
}

/// An envelope together with the player it is meant for.
#[derive(Debug, PartialEq, Eq)]
pub struct Outbound {
    pub recipient: PlayerId,
    pub envelope: Envelope,
}

//
// ------------------ JSON Messages ------------------
//
// The shape in which envelopes travel: a type tag and the data that goes
// with it. Identities are written out as text.
//

/// The type tag of a message: it says what the message is about, and with
/// that which shape its data has.
#[derive(Clone, Copy, Debug, PartialEq, Eq, Structural)]
pub enum Type {
    // Will be sent to one client when it has connected.
    ConnectionSuccess,
    // Will be sent to all clients when a new client has connected to the game.
    ClientConnected,
    // Will be sent to all clients when a client has disconnected from the game.
    ClientDisconnected,
    // Will be sent to a client whose message could not be read.
    MessageMalformed,
    // Will be sent to all clients when the seats are taken.
    TicTacToeStarted,
    // Will be sent to all clients when a square has been marked.
    TicTacToeMove,
    // Will be sent to one client when its move has been refused.
    TicTacToeMoveIllegal,
    // Will be sent to all clients when a seat has won.
    TicTacToeWinner,
    // Will be sent to all clients when the board is full and nobody has won.
    TicTacToeDraw,
}

/// The data of a message, in one of the shapes that a type tag can ask for.
#[derive(Debug, PartialEq, Eq)]
pub enum Data {
    Player(JsonPlayer),
    PlayerLike(JsonPlayerLike),
    TicTacToeStarted(JsonTicTacToeStarted),
    TicTacToeMoveSuccess(JsonTicTacToeMoveSuccess),
    TicTacToeMoveIllegal(JsonTicTacToeMoveIllegal),
    TicTacToeWinner(JsonTicTacToePlayer),
    Empty,
}

/// A message in the shape in which it travels.
#[derive(Debug, PartialEq, Eq)]
pub struct JsonMessage {
    pub kind: Type,
    pub data: Data,
}

/// A player, with identity and name.
#[derive(Debug, PartialEq, Eq)]
pub struct JsonPlayer {
    pub client_uuid: String,
    pub name: String,
}

/// A player of whom only the identity is communicated.
#[derive(Debug, PartialEq, Eq)]
pub struct JsonPlayerLike {
    pub client_uuid: String,
}

/// Who sits where.
#[derive(Debug, PartialEq, Eq)]
pub struct JsonTicTacToeStarted {
    pub player_o: String,
    pub player_x: String,
}

/// The only payload a client may send: the square it wants to mark.
#[derive(Clone, Copy, Debug, PartialEq, Eq, Structural)]
pub struct JsonTicTacToeMove {
    pub x: usize,
    pub y: usize,
}

/// The two seats of the game. `X` moves first.
#[derive(Clone, Copy, Debug, PartialEq, Eq, Structural)]
pub enum JsonTicTacToePlayer {
    X,
    O,
}

/// A square that has just been marked, and by which seat.
#[derive(Clone, Copy, Debug, PartialEq, Eq, Structural)]
pub struct JsonTicTacToeMoveSuccess {
    pub x: usize,
    pub y: usize,
    pub player: JsonTicTacToePlayer,
}

/// A move that was refused, and why.
#[derive(Clone, Copy, Debug, PartialEq, Eq, Structural)]
pub struct JsonTicTacToeMoveIllegal {
    pub x: usize,
    pub y: usize,
    pub reason: RejectReason,
}

impl JsonTicTacToePlayer {
    /// The seat on the other side of the board.
    pub open spec fn spec_other(self) -> JsonTicTacToePlayer {
        match self {
            JsonTicTacToePlayer::X => JsonTicTacToePlayer::O,
            JsonTicTacToePlayer::O => JsonTicTacToePlayer::X,
        }
    }

    /// The seat on the other side of the board.
    #[verifier::when_used_as_spec(spec_other)]
    pub fn other(self) -> (seat: JsonTicTacToePlayer)
        ensures
            seat == self.spec_other(),
    {
        match self {
            JsonTicTacToePlayer::X => JsonTicTacToePlayer::O,
            JsonTicTacToePlayer::O => JsonTicTacToePlayer::X,
        }
    }
}

impl JsonMessage {
    /// Whether the data has the shape that the type tag announces.
    pub open spec fn well_formed(self) -> bool {
        match self.kind {
            Type::ConnectionSuccess | Type::ClientConnected => self.data is Player,
            Type::ClientDisconnected => self.data is PlayerLike,
            Type::MessageMalformed | Type::TicTacToeDraw => self.data is Empty,
            Type::TicTacToeStarted => self.data is TicTacToeStarted,
            Type::TicTacToeMove => self.data is TicTacToeMoveSuccess,
            Type::TicTacToeMoveIllegal => self.data is TicTacToeMoveIllegal,
            Type::TicTacToeWinner => self.data is TicTacToeWinner,
        }
    }

    /// Whether this message is `envelope` in its travelling shape: the type
    /// tag names the envelope's kind, and the data repeats its fields, with
    /// every identity written out as the text of its UUID.
    pub open spec fn encodes(self, envelope: Envelope) -> bool {
        match envelope {
            Envelope::ConnectionSuccess { player } => {
                &&& self.kind == Type::ConnectionSuccess
                &&& self.data matches Data::Player(data)
                &&& data.client_uuid@ == uuid_text(player.client_uuid)
                &&& data.name@ == player.name@
            },
            Envelope::ClientConnected { player } => {
                &&& self.kind == Type::ClientConnected
                &&& self.data matches Data::Player(data)
                &&& data.client_uuid@ == uuid_text(player.client_uuid)
                &&& data.name@ == player.name@
            },
            Envelope::ClientDisconnected { player_like } => {
                &&& self.kind == Type::ClientDisconnected
                &&& self.data matches Data::PlayerLike(data)
                &&& data.client_uuid@ == uuid_text(player_like.client_uuid)
            },
            Envelope::GameStarted { player_x, player_o } => {
                &&& self.kind == Type::TicTacToeStarted
                &&& self.data matches Data::TicTacToeStarted(data)
                &&& data.player_x@ == uuid_text(player_x)
                &&& data.player_o@ == uuid_text(player_o)
            },
            Envelope::MoveAccepted { x, y, seat } => {
                &&& self.kind == Type::TicTacToeMove
                &&& self.data == Data::TicTacToeMoveSuccess(
                    JsonTicTacToeMoveSuccess { x, y, player: seat },
                )
            },
            Envelope::MoveRejected { reason, x, y } => {
                &&& self.kind == Type::TicTacToeMoveIllegal
                &&& self.data == Data::TicTacToeMoveIllegal(
                    JsonTicTacToeMoveIllegal { x, y, reason },
                )
            },
            Envelope::GameOver { outcome: Outcome::Winner(seat) } => {
                &&& self.kind == Type::TicTacToeWinner
                &&& self.data == Data::TicTacToeWinner(seat)
            },
            Envelope::GameOver { outcome: Outcome::Draw } => {
                &&& self.kind == Type::TicTacToeDraw
                &&& self.data == Data::Empty
            },
            Envelope::MessageMalformed => {
                &&& self.kind == Type::MessageMalformed
                &&& self.data == Data::Empty
            },
        }
    }
}

impl JsonMessage {
    /// The message that tells a client that it is connected.
    pub fn connection_success(client_uuid: String, name: String) -> (json: JsonMessage)
        ensures
            json == (JsonMessage {
                kind: Type::ConnectionSuccess,
                data: Data::Player(JsonPlayer { client_uuid, name }),
            }),
    {
        JsonMessage {
            kind: Type::ConnectionSuccess,
            data: Data::Player(JsonPlayer { client_uuid, name }),
        }
    }

    /// The message that tells the others that a client has connected.
    pub fn client_connected(client_uuid: String, name: String) -> (json: JsonMessage)
        ensures
            json == (JsonMessage {
                kind: Type::ClientConnected,
                data: Data::Player(JsonPlayer { client_uuid, name }),
            }),
    {
        JsonMessage {
            kind: Type::ClientConnected,
            data: Data::Player(JsonPlayer { client_uuid, name }),
        }
    }

    /// The message that tells those who remain that a client has gone.
    pub fn client_disconnected(client_uuid: String) -> (json: JsonMessage)
        ensures
            json == (JsonMessage {
                kind: Type::ClientDisconnected,
                data: Data::PlayerLike(JsonPlayerLike { client_uuid }),
            }),
    {
        JsonMessage {
            kind: Type::ClientDisconnected,
            data: Data::PlayerLike(JsonPlayerLike { client_uuid }),
        }
    }

    /// The message that tells who sits where.
    pub fn started(player_x: String, player_o: String) -> (json: JsonMessage)
        ensures
            json == (JsonMessage {
                kind: Type::TicTacToeStarted,
                data: Data::TicTacToeStarted(JsonTicTacToeStarted { player_o, player_x }),
            }),
    {
        JsonMessage {
            kind: Type::TicTacToeStarted,
            data: Data::TicTacToeStarted(JsonTicTacToeStarted { player_o, player_x }),
        }
    }

    /// The message that tells that `player` has marked (`x`, `y`).
    pub fn move_accepted(x: usize, y: usize, player: JsonTicTacToePlayer) -> (json: JsonMessage)
        ensures
            json == (JsonMessage {
                kind: Type::TicTacToeMove,
                data: Data::TicTacToeMoveSuccess(JsonTicTacToeMoveSuccess { x, y, player }),
            }),
    {
        JsonMessage {
            kind: Type::TicTacToeMove,
            data: Data::TicTacToeMoveSuccess(JsonTicTacToeMoveSuccess { x, y, player }),
        }
    }

    /// The message that tells a client why its move to (`x`, `y`) was
    /// refused.
    pub fn move_rejected(reason: RejectReason, x: usize, y: usize) -> (json: JsonMessage)
        ensures
            json == (JsonMessage {
                kind: Type::TicTacToeMoveIllegal,
                data: Data::TicTacToeMoveIllegal(JsonTicTacToeMoveIllegal { x, y, reason }),
            }),
    {
        JsonMessage {
            kind: Type::TicTacToeMoveIllegal,
            data: Data::TicTacToeMoveIllegal(JsonTicTacToeMoveIllegal { x, y, reason }),
        }
    }

    /// The message that tells how the game has ended.
    pub fn game_over(outcome: Outcome) -> (json: JsonMessage)
        ensures
            json == match outcome {
                Outcome::Winner(seat) => JsonMessage {
                    kind: Type::TicTacToeWinner,
                    data: Data::TicTacToeWinner(seat),
                },
                Outcome::Draw => JsonMessage { kind: Type::TicTacToeDraw, data: Data::Empty },
            },
    {
        match outcome {
            Outcome::Winner(seat) => JsonMessage {
                kind: Type::TicTacToeWinner,
                data: Data::TicTacToeWinner(seat),
            },
            Outcome::Draw => JsonMessage { kind: Type::TicTacToeDraw, data: Data::Empty },
        }
    }

    /// The message that tells a client that what it sent was no move.
    pub fn malformed() -> (json: JsonMessage)
        ensures
            json == (JsonMessage { kind: Type::MessageMalformed, data: Data::Empty }),
    {
        JsonMessage { kind: Type::MessageMalformed, data: Data::Empty }
    }
}

impl Envelope {
    /// Puts the envelope into its travelling shape: every identity in it is
    /// written out as the text of its UUID, all else is repeated as it is.
    pub fn to_json(&self) -> (json: JsonMessage)
        ensures
            json.encodes(*self),
            json.well_formed(),
    {
        match self {
            Envelope::ConnectionSuccess { player } => JsonMessage::connection_success(
                uuid_to_string(player.client_uuid),
                player.name.clone(),
            ),
            Envelope::ClientConnected { player } => JsonMessage::client_connected(
                uuid_to_string(player.client_uuid),
                player.name.clone(),
            ),
            Envelope::ClientDisconnected { player_like } => JsonMessage::client_disconnected(
                uuid_to_string(player_like.client_uuid),
            ),
            Envelope::GameStarted { player_x, player_o } => JsonMessage::started(
                uuid_to_string(*player_x),
                uuid_to_string(*player_o),
            ),
            Envelope::MoveAccepted { x, y, seat } => JsonMessage::move_accepted(*x, *y, *seat),
            Envelope::MoveRejected { reason, x, y } => JsonMessage::move_rejected(*reason, *x, *y),
            Envelope::GameOver { outcome } => JsonMessage::game_over(*outcome),
            Envelope::MessageMalformed => JsonMessage::malformed(),
        }
    }
}

} // verus!
