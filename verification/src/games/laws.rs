//! What holds of the rules and of the coordinator whatever the players do.
//!
//! Everything here is stated over the models that the contracts of the
//! executable functions speak of, so each law is a law of those functions.

use crate::games::game::GameModel;
use crate::games::tictactoe::{
    count_of, empty_board, has_line, lemma_few_marks_make_no_line, lemma_marked_wf,
    lemma_with_mark, mark_of, occupied, MoveOutcome, NodeState, Outcome, Phase, RejectReason,
    SessionState, MIN_PLAYERS,
};
use crate::registry::{lemma_registered_wf, lemma_unregistered_wf};
use crate::types::{
    Envelope, IncomingMessage, JsonTicTacToeMoveSuccess, Outbound, Player, PlayerId,
};
use vstd::prelude::*;

verus! {

/// A session that nobody has joined is well-formed.
pub proof fn lemma_fresh_session_wf()
    ensures
        SessionState::fresh().wf(),
{
    reveal(count_of);
    lemma_few_marks_make_no_line(empty_board());
}

/// On the board of a well-formed session exactly as many squares are marked
/// as moves have been accepted, and the two seats have marked them in turn.
pub proof fn lemma_turns_count_marks(state: SessionState)
    requires
        state.wf(),
    ensures
        occupied(state.board) == state.turn_index,
        state.turn_index <= 9,
        count_of(state.board, NodeState::X) - count_of(state.board, NodeState::O)
            == state.turn_index % 2,
{
}

/// Whatever is tried, a well-formed session stays well-formed.
pub proof fn lemma_after_move_wf(state: SessionState, player: PlayerId, x: int, y: int)
    requires
        state.wf(),
    ensures
        state.after_move(player, x, y).wf(),
{
    if state.refusal(player, x, y) is None {
        lemma_marked_wf(state, player, x, y);
    }
}

/// An accepted move was made by the player in the seat whose turn it was,
/// leaves that seat's mark on the square, raises the turn counter by exactly
/// one and passes the turn to the other seat.
pub proof fn lemma_accepted_move_passes_turn(state: SessionState, player: PlayerId, x: int, y: int)
    requires
        state.wf(),
        state.refusal(player, x, y) is None,
    ensures
        state.holder(state.to_move()) == Some(player),
        state.after_move(player, x, y).board[x][y] == mark_of(state.to_move()),
        state.after_move(player, x, y).turn_index == state.turn_index + 1,
        state.after_move(player, x, y).to_move() == state.to_move().other(),
        state.after_move(player, x, y).seats == state.seats,
{
    lemma_with_mark(state.board, x, y, mark_of(state.to_move()));
}

/// While a game is running, a move by anybody but the player whose turn it
/// is is rejected as out of turn, wherever it goes. Nothing changes, so
/// rejecting it again leaves the same state once more.
pub proof fn lemma_out_of_turn_is_rejected(state: SessionState, player: PlayerId, x: usize, y: usize)
    requires
        state.phase is InProgress,
        state.holder(state.to_move()) != Some(player),
    ensures
        state.outcome_of(player, x, y) == (MoveOutcome::Rejected {
            reason: RejectReason::OutOfTurn,
        }),
        state.after_move(player, x as int, y as int) == state,
        state.after_move(player, x as int, y as int).after_move(player, x as int, y as int)
            == state,
{
}

/// While a game is running, a move of the player whose turn it is to a
/// square off the board is rejected as out of bounds, and nothing changes.
pub proof fn lemma_out_of_bounds_is_rejected(
    state: SessionState,
    player: PlayerId,
    x: usize,
    y: usize,
)
    requires
        state.phase is InProgress,
        state.holder(state.to_move()) == Some(player),
        x > 2 || y > 2,
    ensures
        state.outcome_of(player, x, y) == (MoveOutcome::Rejected {
            reason: RejectReason::OutOfBounds,
        }),
        state.after_move(player, x as int, y as int) == state,
{
}

/// While a game is running, a move of the player whose turn it is to a
/// square that is already marked is rejected, and nothing changes.
pub proof fn lemma_occupied_is_rejected(state: SessionState, player: PlayerId, x: usize, y: usize)
    requires
        state.phase is InProgress,
        state.holder(state.to_move()) == Some(player),
        x <= 2,
        y <= 2,
        state.board[x as int][y as int] != NodeState::Empty,
    ensures
        state.outcome_of(player, x, y) == (MoveOutcome::Rejected {
            reason: RejectReason::CellOccupied,
        }),
        state.after_move(player, x as int, y as int) == state,
{
}

/// No move is accepted unless a game is running.
pub proof fn lemma_no_move_outside_a_game(state: SessionState, player: PlayerId, x: usize, y: usize)
    requires
        !(state.phase is InProgress),
    ensures
        state.outcome_of(player, x, y) == (MoveOutcome::Rejected {
            reason: RejectReason::GameNotInProgress,
        }),
        state.after_move(player, x as int, y as int) == state,
{
}

/// A square that is marked keeps its mark, whatever move is tried.
pub proof fn lemma_marks_stay(
    state: SessionState,
    player: PlayerId,
    x: int,
    y: int,
    i: int,
    j: int,
)
    requires
        state.wf(),
        0 <= i < 3,
        0 <= j < 3,
        state.board[i][j] != NodeState::Empty,
    ensures
        state.after_move(player, x, y).board[i][j] == state.board[i][j],
{
    if state.refusal(player, x, y) is None {
        lemma_with_mark(state.board, x, y, mark_of(state.to_move()));
    }
}

/// How an accepted move ends: the mover wins if the move completes a line
/// of the mover's marks; else the game is drawn if the move fills the
/// board; else the game goes on.
pub proof fn lemma_how_a_move_ends(state: SessionState, player: PlayerId, x: usize, y: usize)
    requires
        state.wf(),
        state.refusal(player, x as int, y as int) is None,
    ensures
        ({
            let seat = state.to_move();
            let after = state.after_move(player, x as int, y as int);
            let effect = JsonTicTacToeMoveSuccess { x, y, player: seat };
            let outcome = state.outcome_of(player, x, y);
            if has_line(after.board, mark_of(seat)) {
                &&& outcome == (MoveOutcome::GameOver { effect, outcome: Outcome::Winner(seat) })
                &&& after.phase == Phase::Finished(Outcome::Winner(seat))
            } else if count_of(after.board, NodeState::Empty) == 0 {
                &&& outcome == (MoveOutcome::GameOver { effect, outcome: Outcome::Draw })
                &&& after.phase == Phase::Finished(Outcome::Draw)
            } else {
                &&& outcome == (MoveOutcome::Accepted { effect })
                &&& after.phase == Phase::InProgress
            }
        }),
{
    lemma_marked_wf(state, player, x as int, y as int);
}

impl SessionState {
    /// The state after `msgs` have been handled one after the other.
    pub open spec fn after_messages(self, msgs: Seq<IncomingMessage>) -> SessionState
        decreases msgs.len(),
    {
        if msgs.len() == 0 {
            self
        } else {
            self.after_messages(msgs.drop_last()).after_message(msgs.last())
        }
    }

    /// Whether `msg` holds a move that is accepted.
    pub open spec fn accepts(self, msg: IncomingMessage) -> bool {
        msg.payload matches Some(mv) && self.refusal(
            msg.player_like.client_uuid,
            mv.x as int,
            mv.y as int,
        ) is None
    }

    /// How many of `msgs`, handled one after the other, hold a move that is
    /// accepted.
    pub open spec fn accepted_among(self, msgs: Seq<IncomingMessage>) -> nat
        decreases msgs.len(),
    {
        if msgs.len() == 0 {
            0
        } else {
            self.accepted_among(msgs.drop_last()) + if self.after_messages(
                msgs.drop_last(),
            ).accepts(msgs.last()) {
                1nat
            } else {
                0nat
            }
        }
    }
}

/// After any messages the session is well-formed, the turn counter has gone
/// up by the number of accepted moves, and so has the number of marked
/// squares: after N accepted moves on an empty board exactly N squares are
/// marked.
pub proof fn lemma_marks_count_accepted_moves(state: SessionState, msgs: Seq<IncomingMessage>)
    requires
        state.wf(),
    ensures
        state.after_messages(msgs).wf(),
        state.after_messages(msgs).seats == state.seats,
        state.after_messages(msgs).turn_index == state.turn_index + state.accepted_among(msgs),
        occupied(state.after_messages(msgs).board) == occupied(state.board)
            + state.accepted_among(msgs),
    decreases msgs.len(),
{
    if msgs.len() > 0 {
        lemma_marks_count_accepted_moves(state, msgs.drop_last());
        let before = state.after_messages(msgs.drop_last());
        let msg = msgs.last();
        match msg.payload {
            Some(mv) => {
                lemma_after_move_wf(before, msg.player_like.client_uuid, mv.x as int, mv.y as int);
            },
            None => {},
        }
    }
}

/// A connection: who connects, where its messages go, and which of the
/// players would move first if the game started now.
pub struct Arrival<S> {
    pub id: PlayerId,
    pub sink: S,
    pub pick: int,
}

impl<S> GameModel<S> {
    /// The state after the connection `arrival` has been handled: as
    /// `connected` says if it is accepted, unchanged if it is refused.
    pub open spec fn arrived(self, arrival: Arrival<S>) -> GameModel<S> {
        if self.connect_refusal(arrival.id, arrival.pick) is None {
            self.connected(arrival.id, arrival.sink, arrival.pick)
        } else {
            self
        }
    }

    /// The state after `arrivals` have been handled one after the other.
    pub open spec fn after_arrivals(self, arrivals: Seq<Arrival<S>>) -> GameModel<S>
        decreases arrivals.len(),
    {
        if arrivals.len() == 0 {
            self
        } else {
            self.after_arrivals(arrivals.drop_last()).arrived(arrivals.last())
        }
    }

    /// How many of `arrivals`, handled one after the other, changed who
    /// sits where.
    pub open spec fn seatings_among(self, arrivals: Seq<Arrival<S>>) -> nat
        decreases arrivals.len(),
    {
        if arrivals.len() == 0 {
            0
        } else {
            let before = self.after_arrivals(arrivals.drop_last());
            self.seatings_among(arrivals.drop_last()) + if before.arrived(
                arrivals.last(),
            ).session.seats != before.session.seats {
                1nat
            } else {
                0nat
            }
        }
    }
}

/// The state in which nobody is connected and no game has started is
/// well-formed.
pub proof fn lemma_fresh_wf<S>()
    ensures
        GameModel::<S>::fresh().wf(),
{
    lemma_fresh_session_wf();
    assert(GameModel::<S>::fresh().roster.sinks.dom() =~= GameModel::<S>::fresh().roster.players.to_set());
}

/// Whatever connections arrive at a new coordinator, seats are assigned
/// exactly once, at the moment when enough players are connected, and never
/// before: from then on two different connected players hold the two seats.
pub proof fn lemma_seats_assigned_once<S>(arrivals: Seq<Arrival<S>>)
    ensures
        ({
            let end = GameModel::<S>::fresh().after_arrivals(arrivals);
            let times = GameModel::<S>::fresh().seatings_among(arrivals);
            &&& end.wf()
            &&& if end.roster.players.len() >= MIN_PLAYERS {
                &&& times == 1
                &&& end.session.seats matches Some(seats)
                &&& seats.player_x != seats.player_o
                &&& end.roster.contains(seats.player_x)
                &&& end.roster.contains(seats.player_o)
            } else {
                &&& times == 0
                &&& end.session.seats is None
            }
        }),
    decreases arrivals.len(),
{
    if arrivals.len() == 0 {
        lemma_fresh_wf::<S>();
    } else {
        lemma_seats_assigned_once(arrivals.drop_last());
        let before = GameModel::<S>::fresh().after_arrivals(arrivals.drop_last());
        let arrival = arrivals.last();
        if before.connect_refusal(arrival.id, arrival.pick) is None {
            lemma_connected_wf(before, arrival.id, arrival.sink, arrival.pick);
            lemma_registered_wf(before.roster, arrival.id, arrival.sink);
            let after = before.connected(arrival.id, arrival.sink, arrival.pick);
            let players = before.roster.players.push(arrival.id);
            assert(after.roster.players == players);
            if before.starts_with(arrival.id) {
                assert(players.len() == 2);
                assert(players[0] != players[1]);
                assert(after.roster.contains(players[0]));
                assert(after.roster.contains(players[1]));
            }
        }
    }
}

/// An accepted connection leads from a well-formed state to a well-formed
/// state. If the game had been waiting and the newcomer is the last player
/// that was missing, the game starts; else the game is left as it is.
pub proof fn lemma_connected_wf<S>(state: GameModel<S>, id: PlayerId, sink: S, pick: int)
    requires
        state.wf(),
        state.connect_refusal(id, pick) is None,
    ensures
        state.connected(id, sink, pick).wf(),
        state.starts_with(id) ==> state.connected(id, sink, pick).session.phase is InProgress,
        !state.starts_with(id) ==> state.connected(id, sink, pick).session == state.session,
{
    lemma_registered_wf(state.roster, id, sink);
    let players = state.roster.players.push(id);
    assert(state.connected(id, sink, pick).roster.players == players);
    if state.starts_with(id) {
        assert(players.len() == 2);
        assert(players[0] != players[1]);
        lemma_few_marks_make_no_line(state.session.board);
    }
}

/// Once seats are assigned they stay as they are: no connection, no
/// disconnection and no message changes them.
pub proof fn lemma_seats_are_kept<S>(
    state: GameModel<S>,
    id: PlayerId,
    sink: S,
    pick: int,
    msg: IncomingMessage,
)
    requires
        state.wf(),
        state.session.seats is Some,
    ensures
        state.connected(id, sink, pick).session.seats == state.session.seats,
        state.disconnected(id).session.seats == state.session.seats,
        state.received(msg).session.seats == state.session.seats,
{
}

/// A disconnection removes the player from the registry and leaves the game
/// as it is: in particular a game that is waiting goes on waiting.
pub proof fn lemma_disconnect_keeps_game<S>(state: GameModel<S>, id: PlayerId)
    requires
        state.wf(),
    ensures
        state.disconnected(id).wf(),
        !state.disconnected(id).roster.contains(id),
        state.disconnected(id).session == state.session,
        forall|other: PlayerId|
            other != id ==> (#[trigger] state.disconnected(id).roster.contains(other)
                <==> state.roster.contains(other)),
{
    lemma_unregistered_wf(state.roster, id);
}

/// The newcomer is told that it is connected, and everybody who was there
/// before is told of the newcomer, once and in the order of registration.
/// The newcomer is not among them: it does not hear of its own arrival.
pub proof fn lemma_newcomer_hears_no_echo<S>(state: GameModel<S>, player: Player, pick: int)
    requires
        state.wf(),
        state.connect_refusal(player.client_uuid, pick) is None,
    ensures
        ({
            let sent = state.connect_effects(player, pick);
            let before = state.roster.players;
            &&& sent.len() >= 1 + before.len()
            &&& sent[0] == Outbound {
                recipient: player.client_uuid,
                envelope: Envelope::ConnectionSuccess { player },
            }
            &&& forall|i: int|
                0 <= i < before.len() ==> #[trigger] sent[1 + i] == (Outbound {
                    recipient: before[i],
                    envelope: Envelope::ClientConnected { player },
                }) && before[i] != player.client_uuid
            &&& forall|i: int|
                0 <= i < sent.len() && #[trigger] sent[i].envelope is ClientConnected ==> sent[i].recipient
                    != player.client_uuid
        }),
{
    let sent = state.connect_effects(player, pick);
    let before = state.roster.players;
    let started = GameModel::<S>::seated_effects(
        state.session,
        before.push(player.client_uuid),
        pick,
    );
    assert forall|i: int| 0 <= i < sent.len() && #[trigger] sent[i].envelope is ClientConnected implies sent[i].recipient
        != player.client_uuid by {
        if 1 <= i < 1 + before.len() {
            assert(sent[i].recipient == before[i - 1]);
        } else if i >= 1 + before.len() {
            assert(sent[i] == started[i - 1 - before.len()]);
        }
    }
}

/// What is not accepted changes nothing and is answered to the sender
/// alone, if to anybody: a refusal is never broadcast.
pub proof fn lemma_refusals_go_to_the_sender_alone<S>(state: GameModel<S>, msg: IncomingMessage)
    requires
        !state.session.accepts(msg),
    ensures
        state.received(msg) == state,
        state.message_effects(msg).len() == if state.roster.contains(msg.player_like.client_uuid) {
            1nat
        } else {
            0nat
        },
        forall|i: int|
            0 <= i < state.message_effects(msg).len() ==> {
                &&& (#[trigger] state.message_effects(msg)[i]).recipient
                    == msg.player_like.client_uuid
                &&& state.message_effects(msg)[i].envelope is MoveRejected
                    || state.message_effects(msg)[i].envelope is MessageMalformed
            },
{
}

/// An accepted move is told to everybody who is connected, and if it ends
/// the game, so is the end of the game, after the move.
pub proof fn lemma_accepted_moves_go_to_everybody<S>(state: GameModel<S>, msg: IncomingMessage)
    requires
        state.wf(),
        state.session.accepts(msg),
    ensures
        ({
            let sent = state.message_effects(msg);
            let players = state.roster.players;
            let mv = msg.payload->0;
            let told = Envelope::MoveAccepted { x: mv.x, y: mv.y, seat: state.session.to_move() };
            &&& sent.len() == if state.received(msg).session.phase is Finished {
                2 * players.len()
            } else {
                players.len()
            }
            &&& forall|i: int|
                0 <= i < players.len() ==> #[trigger] sent[i] == (Outbound {
                    recipient: players[i],
                    envelope: told,
                })
            &&& forall|i: int|
                players.len() <= i < sent.len() ==> #[trigger] sent[i].recipient == players[i
                    - players.len()] && state.received(msg).session.phase == Phase::Finished(
                    sent[i].envelope->outcome,
                ) && sent[i].envelope is GameOver
        }),
{
}

/// A message changes nothing but the game: nobody is connected or
/// disconnected by it, and the state stays well-formed.
pub proof fn lemma_received_wf<S>(state: GameModel<S>, msg: IncomingMessage)
    requires
        state.wf(),
    ensures
        state.received(msg).wf(),
        state.received(msg).roster == state.roster,
{
    match msg.payload {
        Some(mv) => {
            lemma_after_move_wf(
                state.session,
                msg.player_like.client_uuid,
                mv.x as int,
                mv.y as int,
            );
        },
        None => {},
    }
}

} // verus!
