use crate::error::GameError;
use crate::games::tictactoe::{MoveOutcome, Phase, Seats, SessionState, TicTacToe, MIN_PLAYERS};
use crate::games::GameType;
use crate::registry::{addressed, lemma_unregistered_wf, Registry, Roster};
use crate::types::{
    ConnectMessage, DisconnectMessage, Envelope, IncomingMessage, Outbound, Player, PlayerId,
    PlayerLike,
};
use crate::utils::{random_index, send_json_message};
use vstd::prelude::*;

verus! {

/// What the coordinator knows: who is connected, and how the game stands.
pub struct GameModel<S> {
    pub roster: Roster<S>,
    pub session: SessionState,
}

impl<S> GameModel<S> {
    /// What every reachable state satisfies. In particular the game does
    /// not wait once enough players are connected.
    pub open spec fn wf(self) -> bool {
        &&& self.roster.wf()
        &&& self.session.wf()
        &&& self.session.phase is Waiting ==> self.roster.players.len() < MIN_PLAYERS
    }

    /// The state in which nobody is connected and no game has started.
    pub open spec fn fresh() -> GameModel<S> {
        GameModel { roster: Roster::empty(), session: SessionState::fresh() }
    }

    /// The seats that are due when `players` are connected: none unless the
    /// game has been waiting and `players` are enough, else those that
    /// seating them gives, with the player at index `pick` in seat `X`.
    pub open spec fn seats_due(session: SessionState, players: Seq<PlayerId>, pick: int) -> Option<
        Seats,
    > {
        if session.phase is Waiting && players.len() >= MIN_PLAYERS {
            match session.seating(players, pick) {
                Ok(seats) => Some(seats),
                Err(_) => None,
            }
        } else {
            None
        }
    }

    /// The session once the seats that are due have been assigned.
    pub open spec fn seated(session: SessionState, players: Seq<PlayerId>, pick: int)
        -> SessionState {
        match Self::seats_due(session, players, pick) {
            Some(seats) => session.started(seats),
            None => session,
        }
    }

    /// What is sent once the seats that are due have been assigned: if any
    /// were, all of `players` are told which.
    pub open spec fn seated_effects(session: SessionState, players: Seq<PlayerId>, pick: int) -> Seq<
        Outbound,
    > {
        match Self::seats_due(session, players, pick) {
            Some(seats) => addressed(
                players,
                Envelope::GameStarted { player_x: seats.player_x, player_o: seats.player_o },
            ),
            None => Seq::empty(),
        }
    }

    /// Whether the game starts when the newcomer `id` connects: it has been
    /// waiting, and with `id` enough players are connected.
    pub open spec fn starts_with(self, id: PlayerId) -> bool {
        self.session.phase is Waiting && self.roster.players.push(id).len() >= MIN_PLAYERS
    }

    /// Why a connection of `id` is refused, or `None` if it is accepted.
    /// `pick` is the index, among the players then connected, of the one who
    /// is to take seat `X` if the game starts.
    pub open spec fn connect_refusal(self, id: PlayerId, pick: int) -> Option<GameError> {
        if self.roster.contains(id) {
            Some(GameError::AlreadyConnected)
        } else if self.starts_with(id) && !(0 <= pick < self.roster.players.push(id).len()) {
            Some(GameError::SeatOutOfRange)
        } else {
            None
        }
    }

    /// The state after the newcomer `id` has connected with `sink`.
    pub open spec fn connected(self, id: PlayerId, sink: S, pick: int) -> GameModel<S> {
        GameModel {
            roster: self.roster.registered(id, sink),
            session: Self::seated(self.session, self.roster.players.push(id), pick),
        }
    }

    /// What is sent when the newcomer `player` connects: the newcomer is
    /// told that it is connected, those who were there before are told of
    /// the newcomer, and if the game starts, everybody is told the seats.
    pub open spec fn connect_effects(self, player: Player, pick: int) -> Seq<Outbound> {
        let id = player.client_uuid;
        seq![Outbound { recipient: id, envelope: Envelope::ConnectionSuccess { player } }]
            + self.roster.broadcast(Envelope::ClientConnected { player }) + Self::seated_effects(
            self.session,
            self.roster.players.push(id),
            pick,
        )
    }

    /// The state after `id` has disconnected. The game is left as it is.
    pub open spec fn disconnected(self, id: PlayerId) -> GameModel<S> {
        GameModel { roster: self.roster.unregistered(id), session: self.session }
    }

    /// What is sent when `id` disconnects: those who remain are told.
    pub open spec fn disconnect_effects(self, id: PlayerId) -> Seq<Outbound> {
        self.roster.unregistered(id).broadcast(
            Envelope::ClientDisconnected { player_like: PlayerLike { client_uuid: id } },
        )
    }

    /// The state after `msg` has been handled.
    pub open spec fn received(self, msg: IncomingMessage) -> GameModel<S> {
        GameModel { roster: self.roster, session: self.session.after_message(msg) }
    }

    /// `envelope` for `id` alone; nothing if `id` is not connected.
    pub open spec fn reply(self, id: PlayerId, envelope: Envelope) -> Seq<Outbound> {
        match self.roster.send(id, envelope) {
            Ok(outbound) => seq![outbound],
            Err(_) => Seq::empty(),
        }
    }

    /// What is sent when `msg` has been handled. What cannot be read and
    /// what the rules refuse is answered to the sender alone. An accepted
    /// move is announced to everybody, and after it the end of the game, if
    /// the move ended it.
    pub open spec fn message_effects(self, msg: IncomingMessage) -> Seq<Outbound> {
        let id = msg.player_like.client_uuid;
        match msg.payload {
            None => self.reply(id, Envelope::MessageMalformed),
            Some(mv) => match self.session.outcome_of(id, mv.x, mv.y) {
                MoveOutcome::Rejected { reason } => self.reply(
                    id,
                    Envelope::MoveRejected { reason, x: mv.x, y: mv.y },
                ),
                MoveOutcome::Accepted { effect } => self.roster.broadcast(
                    Envelope::MoveAccepted { x: effect.x, y: effect.y, seat: effect.player },
                ),
                MoveOutcome::GameOver { effect, outcome } => self.roster.broadcast(
                    Envelope::MoveAccepted { x: effect.x, y: effect.y, seat: effect.player },
                ) + self.roster.broadcast(Envelope::GameOver { outcome }),
            },
        }
    }
}

/// The game coordinator: it owns the connection registry and the game, takes
/// one event at a time, and answers each with the messages to send.
pub struct Game<S> {
    connections: Registry<S>,
    game_type: GameType,
}

impl<S> View for Game<S> {
    type V = GameModel<S>;

    closed spec fn view(&self) -> GameModel<S> {
        GameModel { roster: self.connections@, session: self.game_type@ }
    }
}

impl<S> Default for Game<S> {
    /// A coordinator for a game of tic-tac-toe that nobody has joined yet.
    fn default() -> (game: Game<S>)
        ensures
            game.wf(),
            game@ == GameModel::<S>::fresh(),
    {
        Game::new(GameType::TicTacToe(TicTacToe::default()))
    }
}

impl<S> Game<S> {
    /// Whether the coordinator is in a state that its own operations can
    /// reach.
    pub open spec fn wf(&self) -> bool {
        self@.wf()
    }

    /// A coordinator for `game_type` to which nobody is connected.
    pub fn new(game_type: GameType) -> (game: Game<S>)
        requires
            game_type.wf(),
        ensures
            game.wf(),
            game@ == (GameModel { roster: Roster::<S>::empty(), session: game_type@ }),
    {
        Game { connections: Registry::new(), game_type }
    }

    /// The connection registry, to look at.
    pub fn connections(&self) -> (connections: &Registry<S>)
        ensures
            connections@ == self@.roster,
    {
        &self.connections
    }

    /// The game, to look at.
    pub fn game_type(&self) -> (game_type: &GameType)
        ensures
            game_type@ == self@.session,
    {
        &self.game_type
    }

    /// Where the game stands in its life.
    pub fn phase(&self) -> (phase: Phase)
        ensures
            phase == self@.session.phase,
    {
        self.game_type.phase()
    }

    /// Addresses `message` to `recipient_id` alone. Fails with `NotFound` if
    /// that player is not connected.
    pub fn send_message(&self, message: &Envelope, recipient_id: PlayerId) -> (sent: Result<
        Outbound,
        GameError,
    >)
        requires
            self.wf(),
        ensures
            sent == self@.roster.send(recipient_id, *message),
    {
        self.connections.send(recipient_id, message)
    }

    /// Addresses `message` to everybody who is connected.
    pub fn broadcast_message(&self, message: &Envelope) -> (sent: Vec<Outbound>)
        ensures
            sent@ == self@.roster.broadcast(*message),
    {
        self.connections.broadcast(message)
    }

    /// Starts the game if it has been waiting and enough players are
    /// connected: seats them, the one at index `pick` in seat `X`, and tells
    /// everybody.
    fn check_notify(&mut self, pick: usize) -> (sent: Vec<Outbound>)
        requires
            old(self)@.roster.wf(),
            old(self)@.session.wf(),
            old(self)@.session.phase is Waiting ==> old(self)@.roster.players.len() <= MIN_PLAYERS,
            old(self)@.session.phase is Waiting && old(self)@.roster.players.len() >= MIN_PLAYERS
                ==> pick < old(self)@.roster.players.len(),
        ensures
            final(self).wf(),
            final(self)@.roster == old(self)@.roster,
            final(self)@.session == GameModel::<S>::seated(
                old(self)@.session,
                old(self)@.roster.players,
                pick as int,
            ),
            sent@ == GameModel::<S>::seated_effects(
                old(self)@.session,
                old(self)@.roster.players,
                pick as int,
            ),
    {
        let waiting = match self.game_type.phase() {
            Phase::Waiting => true,
            _ => false,
        };
        if waiting && self.connections.len() >= self.game_type.min_players() {
            let players = self.connections.players();
            proof {
                assert(players@[0] != players@[1]);
            }
            match self.game_type.init_with(&players, pick) {
                Ok(seats) => {
                    let started = Envelope::GameStarted {
                        player_x: seats.player_x,
                        player_o: seats.player_o,
                    };
                    self.connections.broadcast(&started)
                },
                Err(_) => Vec::new(),
            }
        } else {
            Vec::new()
        }
    }

    /// Handles a connection, with `pick` as the index of the player who is
    /// to move first if this connection starts the game.
    ///
    /// A player that is already connected is refused, and so is a `pick`
    /// that names nobody when the game is about to start; a refusal changes
    /// nothing. Otherwise the newcomer is registered and the messages of
    /// `connect_effects` are returned.
    pub fn on_connect_with(&mut self, msg: ConnectMessage<S>, pick: usize) -> (sent: Result<
        Vec<Outbound>,
        GameError,
    >)
        requires
            old(self).wf(),
        ensures
            final(self).wf(),
            match old(self)@.connect_refusal(msg.player.client_uuid, pick as int) {
                Some(error) => sent == Err::<Vec<Outbound>, GameError>(error) && final(self)@
                    == old(self)@,
                None => sent matches Ok(sent) && sent@ == old(self)@.connect_effects(
                    msg.player,
                    pick as int,
                ) && final(self)@ == old(self)@.connected(
                    msg.player.client_uuid,
                    msg.client_addr,
                    pick as int,
                ),
            },
    {
        let ConnectMessage { client_addr, player } = msg;
        let id = player.client_uuid;
        if self.connections.contains(id) {
            return Err(GameError::AlreadyConnected);
        }
        let waiting = match self.game_type.phase() {
            Phase::Waiting => true,
            _ => false,
        };
        if waiting && self.connections.len() >= self.game_type.min_players() - 1 && pick
            > self.connections.len() {
            return Err(GameError::SeatOutOfRange);
        }
        let mut sent: Vec<Outbound> = Vec::new();
        let mut others = self.connections.broadcast(
            &Envelope::ClientConnected { player: player.clone() },
        );
        self.connections.register(id, client_addr);
        sent.push(Outbound { recipient: id, envelope: Envelope::ConnectionSuccess { player } });
        sent.append(&mut others);
        let mut started = self.check_notify(pick);
        sent.append(&mut started);
        Ok(sent)
    }

    /// Handles a connection. If it starts the game, who moves first is
    /// picked at random among the seated players; all else is as in
    /// `on_connect_with`.
    pub fn on_connect(&mut self, msg: ConnectMessage<S>) -> (sent: Result<Vec<Outbound>, GameError>)
        requires
            old(self).wf(),
        ensures
            final(self).wf(),
            sent is Err <==> old(self)@.roster.contains(msg.player.client_uuid),
            sent is Err ==> sent == Err::<Vec<Outbound>, GameError>(GameError::AlreadyConnected)
                && final(self)@ == old(self)@,
            sent matches Ok(sent) ==> exists|pick: int|
                0 <= pick < MIN_PLAYERS && sent@ == #[trigger] old(self)@.connect_effects(
                    msg.player,
                    pick,
                ) && final(self)@ == old(self)@.connected(
                    msg.player.client_uuid,
                    msg.client_addr,
                    pick,
                ),
    {
        let pick = random_index(self.game_type.min_players());
        self.on_connect_with(msg, pick)
    }

    /// Handles a disconnection: the player is removed from the registry,
    /// whether it was there or not, and those who remain are told. The game
    /// itself is left as it is.
    pub fn on_disconnect(&mut self, msg: DisconnectMessage) -> (sent: Vec<Outbound>)
        requires
            old(self).wf(),
        ensures
            final(self).wf(),
            final(self)@ == old(self)@.disconnected(msg.player_like.client_uuid),
            sent@ == old(self)@.disconnect_effects(msg.player_like.client_uuid),
    {
        let id = msg.player_like.client_uuid;
        proof {
            lemma_unregistered_wf(self@.roster, id);
        }
        self.connections.unregister(id);
        self.broadcast_message(&Envelope::ClientDisconnected { player_like: msg.player_like })
    }

    /// `envelope` for `id` alone; nothing if `id` is not connected.
    fn reply(&self, id: PlayerId, envelope: Envelope) -> (sent: Vec<Outbound>)
        requires
            self.wf(),
        ensures
            sent@ == self@.reply(id, envelope),
    {
        match send_json_message(self, &envelope, Some(id)) {
            Ok(sent) => sent,
            Err(_) => Vec::new(),
        }
    }

    /// Handles what a client has sent and returns the messages of
    /// `message_effects`. Only an accepted move changes anything.
    pub fn on_message(&mut self, msg: IncomingMessage) -> (sent: Vec<Outbound>)
        requires
            old(self).wf(),
        ensures
            final(self).wf(),
            final(self)@ == old(self)@.received(msg),
            sent@ == old(self)@.message_effects(msg),
    {
        let id = msg.player_like.client_uuid;
        match (self.game_type.handle(&msg), msg.payload) {
            (Ok(MoveOutcome::Rejected { reason }), Some(mv)) => self.reply(
                id,
                Envelope::MoveRejected { reason, x: mv.x, y: mv.y },
            ),
            (Ok(MoveOutcome::Accepted { effect }), _) => self.broadcast_message(
                &Envelope::MoveAccepted { x: effect.x, y: effect.y, seat: effect.player },
            ),
            (Ok(MoveOutcome::GameOver { effect, outcome }), _) => {
                let mut sent = self.broadcast_message(
                    &Envelope::MoveAccepted { x: effect.x, y: effect.y, seat: effect.player },
                );
                let mut over = self.broadcast_message(&Envelope::GameOver { outcome });
                sent.append(&mut over);
                sent
            },
            _ => self.reply(id, Envelope::MessageMalformed),
        }
    }
}

} // verus!
