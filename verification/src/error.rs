use vstd::prelude::*;

verus! {

/// Everything that can go wrong while an event is processed.
///
/// None of these is fatal: the caller reports the error to whoever caused it
/// and goes on with the next event.
#[derive(Clone, Copy, Debug, PartialEq, Eq, Structural)]
pub enum GameError {
    /// The inbound payload could not be decoded into a move.
    MessageSerialization,
    /// A player that is already registered tried to connect again.
    AlreadyConnected,
    /// The addressed player is not (or no longer) registered.
    NotFound,
    /// Seats were requested for fewer players than the game needs.
    NotEnoughPlayers,
    /// Seats were requested for more players than the game has seats.
    TooManyPlayers,
    /// The same player was offered for both seats.
    DuplicatePlayer,
    /// The index chosen for the first seat does not name one of the players.
    SeatOutOfRange,
    /// Seats have been assigned before; they are never assigned twice.
    AlreadyStarted,
}

/// The four families that errors fall into.
#[derive(Clone, Copy, Debug, PartialEq, Eq, Structural)]
pub enum ErrorKind {
    /// A client sent something the protocol does not allow.
    ProtocolError,
    /// A message could not be handed to its recipient.
    DeliveryFailure,
    /// The coordinator broke one of its own rules.
    InvariantViolation,
}

impl GameError {
    /// The family of this error.
    pub open spec fn spec_kind(self) -> ErrorKind {
        match self {
            GameError::MessageSerialization | GameError::AlreadyConnected => ErrorKind::ProtocolError,
            GameError::NotFound => ErrorKind::DeliveryFailure,
            _ => ErrorKind::InvariantViolation,
        }
    }

    /// The family of this error.
    #[verifier::when_used_as_spec(spec_kind)]
    pub fn kind(self) -> (kind: ErrorKind)
        ensures
            kind == self.spec_kind(),
    {
        match self {
            GameError::MessageSerialization | GameError::AlreadyConnected => ErrorKind::ProtocolError,
            GameError::NotFound => ErrorKind::DeliveryFailure,
            _ => ErrorKind::InvariantViolation,
        }
    }
}

} // verus!
