use crate::error::GameError;
use crate::types::{
    IncomingMessage, JsonTicTacToeMove, JsonTicTacToeMoveSuccess, JsonTicTacToePlayer, PlayerId,
};
use crate::utils::random_index;
use vstd::prelude::*;

verus! {

/// How many players must be connected before a game starts.
pub const MIN_PLAYERS: usize = 2;

/// How many seats a game has.
pub const MAX_PLAYERS: usize = 2;

/// How many squares the board has.
pub const BOARD_SQUARES: u8 = 9;

/// What a square of the board holds.
#[derive(Clone, Copy, Debug, PartialEq, Eq, Structural)]
pub enum NodeState {
    Empty,
    O,
    X,
}

/// How a finished game ended.
#[derive(Clone, Copy, Debug, PartialEq, Eq, Structural)]
pub enum Outcome {
    /// The seat that completed three in a row.
    Winner(JsonTicTacToePlayer),
    /// The board filled up without three in a row.
    Draw,
}

/// Where a session stands in its life.
#[derive(Clone, Copy, Debug, PartialEq, Eq, Structural)]
pub enum Phase {
    /// Too few players have connected; nobody is seated.
    Waiting,
    /// Both seats are taken and moves are accepted.
    InProgress,
    /// The game is over; no further move is accepted.
    Finished(Outcome),
}

/// Why a move was refused.
#[derive(Clone, Copy, Debug, PartialEq, Eq, Structural)]
pub enum RejectReason {
    /// The mover does not hold the seat whose turn it is.
    OutOfTurn,
    /// The square lies outside the board.
    OutOfBounds,
    /// The square is already marked.
    CellOccupied,
    /// No game is running: it has not started yet, or it is over.
    GameNotInProgress,
}

/// Which player holds which seat.
#[derive(Clone, Copy, Debug, PartialEq, Eq, Structural)]
pub struct Seats {
    pub player_x: PlayerId,
    pub player_o: PlayerId,
}

/// What the rule engine made of a move.
#[derive(Clone, Copy, Debug, PartialEq, Eq, Structural)]
pub enum MoveOutcome {
    /// The move was legal and the game goes on.
    Accepted { effect: JsonTicTacToeMoveSuccess },
    /// The move was illegal; nothing changed.
    Rejected { reason: RejectReason },
    /// The move was legal and ended the game.
    GameOver { effect: JsonTicTacToeMoveSuccess, outcome: Outcome },
}

/// The mark that a seat leaves on the board.
pub open spec fn mark_of(seat: JsonTicTacToePlayer) -> NodeState {
    match seat {
        JsonTicTacToePlayer::X => NodeState::X,
        JsonTicTacToePlayer::O => NodeState::O,
    }
}

/// A board with nothing on it.
pub open spec fn empty_board() -> Seq<Seq<NodeState>> {
    Seq::new(3, |x: int| Seq::new(3, |y: int| NodeState::Empty))
}

/// Whether `board` has three rows of three squares.
pub open spec fn is_board(board: Seq<Seq<NodeState>>) -> bool {
    &&& board.len() == 3
    &&& board[0].len() == 3
    &&& board[1].len() == 3
    &&& board[2].len() == 3
}

/// Whether the three squares with first coordinate `x` all hold `mark`.
pub open spec fn line_at_x(board: Seq<Seq<NodeState>>, x: int, mark: NodeState) -> bool {
    board[x][0] == mark && board[x][1] == mark && board[x][2] == mark
}

/// Whether the three squares with second coordinate `y` all hold `mark`.
pub open spec fn line_at_y(board: Seq<Seq<NodeState>>, y: int, mark: NodeState) -> bool {
    board[0][y] == mark && board[1][y] == mark && board[2][y] == mark
}

/// Whether one of the eight lines of the board (three with fixed `x`, three
/// with fixed `y`, two diagonals) holds `mark` on all three squares.
#[verifier::opaque]
pub open spec fn has_line(board: Seq<Seq<NodeState>>, mark: NodeState) -> bool {
    ||| line_at_x(board, 0, mark)
    ||| line_at_x(board, 1, mark)
    ||| line_at_x(board, 2, mark)
    ||| line_at_y(board, 0, mark)
    ||| line_at_y(board, 1, mark)
    ||| line_at_y(board, 2, mark)
    ||| (board[0][0] == mark && board[1][1] == mark && board[2][2] == mark)
    ||| (board[0][2] == mark && board[1][1] == mark && board[2][0] == mark)
}

/// 1 if the square at (`x`, `y`) holds `mark`, else 0.
pub open spec fn holds(board: Seq<Seq<NodeState>>, x: int, y: int, mark: NodeState) -> nat {
    if board[x][y] == mark {
        1
    } else {
        0
    }
}

/// How many squares of the board hold `mark`.
#[verifier::opaque]
pub open spec fn count_of(board: Seq<Seq<NodeState>>, mark: NodeState) -> nat {
    holds(board, 0, 0, mark) + holds(board, 0, 1, mark) + holds(board, 0, 2, mark) + holds(
        board,
        1,
        0,
        mark,
    ) + holds(board, 1, 1, mark) + holds(board, 1, 2, mark) + holds(board, 2, 0, mark) + holds(
        board,
        2,
        1,
        mark,
    ) + holds(board, 2, 2, mark)
}

/// How many squares of the board are marked.
pub open spec fn occupied(board: Seq<Seq<NodeState>>) -> nat {
    count_of(board, NodeState::X) + count_of(board, NodeState::O)
}

/// `board` with the square at (`x`, `y`) set to `mark`.
pub open spec fn with_mark(board: Seq<Seq<NodeState>>, x: int, y: int, mark: NodeState) -> Seq<
    Seq<NodeState>,
> {
    board.update(x, board[x].update(y, mark))
}

/// Marking a square changes that square and no other.
pub proof fn lemma_with_mark(board: Seq<Seq<NodeState>>, x: int, y: int, mark: NodeState)
    requires
        is_board(board),
        0 <= x < 3,
        0 <= y < 3,
    ensures
        is_board(with_mark(board, x, y, mark)),
        with_mark(board, x, y, mark)[x][y] == mark,
        forall|i: int, j: int|
            0 <= i < 3 && 0 <= j < 3 && (i != x || j != y) ==> #[trigger] with_mark(
                board,
                x,
                y,
                mark,
            )[i][j] == board[i][j],
{
}

/// What a square holds after another (or the same) square was marked.
proof fn lemma_holds_after_mark(
    board: Seq<Seq<NodeState>>,
    x: int,
    y: int,
    mark: NodeState,
    counted: NodeState,
    i: int,
    j: int,
)
    requires
        is_board(board),
        0 <= x < 3,
        0 <= y < 3,
        0 <= i < 3,
        0 <= j < 3,
    ensures
        holds(with_mark(board, x, y, mark), i, j, counted) == if i == x && j == y {
            if mark == counted {
                1nat
            } else {
                0nat
            }
        } else {
            holds(board, i, j, counted)
        },
{
}

/// Marking a square moves one square from the count of what it held to the
/// count of the new mark.
pub proof fn lemma_count_after_mark(
    board: Seq<Seq<NodeState>>,
    x: int,
    y: int,
    mark: NodeState,
    counted: NodeState,
)
    requires
        is_board(board),
        0 <= x < 3,
        0 <= y < 3,
    ensures
        count_of(with_mark(board, x, y, mark), counted) == count_of(board, counted) - holds(
            board,
            x,
            y,
            counted,
        ) + (if mark == counted {
            1int
        } else {
            0int
        }),
{
    reveal(count_of);
    lemma_holds_after_mark(board, x, y, mark, counted, 0, 0);
    lemma_holds_after_mark(board, x, y, mark, counted, 0, 1);
    lemma_holds_after_mark(board, x, y, mark, counted, 0, 2);
    lemma_holds_after_mark(board, x, y, mark, counted, 1, 0);
    lemma_holds_after_mark(board, x, y, mark, counted, 1, 1);
    lemma_holds_after_mark(board, x, y, mark, counted, 1, 2);
    lemma_holds_after_mark(board, x, y, mark, counted, 2, 0);
    lemma_holds_after_mark(board, x, y, mark, counted, 2, 1);
    lemma_holds_after_mark(board, x, y, mark, counted, 2, 2);
}

/// Marking a square completes no line for any other mark.
pub proof fn lemma_lines_after_mark(
    board: Seq<Seq<NodeState>>,
    x: int,
    y: int,
    mark: NodeState,
    other: NodeState,
)
    requires
        is_board(board),
        0 <= x < 3,
        0 <= y < 3,
        other != mark,
    ensures
        has_line(with_mark(board, x, y, mark), other) ==> has_line(board, other),
{
    reveal(has_line);
    let after = with_mark(board, x, y, mark);
    lemma_with_mark(board, x, y, mark);
    assert forall|i: int, j: int| 0 <= i < 3 && 0 <= j < 3 && after[i][j] == other implies board[i][j]
        == other by {
        assert(i != x || j != y);
        assert(after[i][j] == board[i][j]);
    }
}

/// A board on which `mark` fills a line holds `mark` at least three times.
pub proof fn lemma_line_needs_three(board: Seq<Seq<NodeState>>, mark: NodeState)
    requires
        is_board(board),
        has_line(board, mark),
    ensures
        count_of(board, mark) >= 3,
{
    reveal(has_line);
    reveal(count_of);
}

/// A board on which a mark occurs fewer than three times has no line of it.
pub proof fn lemma_few_marks_make_no_line(board: Seq<Seq<NodeState>>)
    requires
        is_board(board),
    ensures
        count_of(board, NodeState::X) < 3 ==> !has_line(board, NodeState::X),
        count_of(board, NodeState::O) < 3 ==> !has_line(board, NodeState::O),
{
    if has_line(board, NodeState::X) {
        lemma_line_needs_three(board, NodeState::X);
    }
    if has_line(board, NodeState::O) {
        lemma_line_needs_three(board, NodeState::O);
    }
}

/// The state of one session, as the rules see it.
pub struct SessionState {
    /// `board[x][y]` is the square at (`x`, `y`).
    pub board: Seq<Seq<NodeState>>,
    /// How many moves have been accepted.
    pub turn_index: nat,
    /// Who sits where; `None` until the game starts.
    pub seats: Option<Seats>,
    pub phase: Phase,
}

impl SessionState {
    /// The state of a session that nobody has joined yet.
    pub open spec fn fresh() -> SessionState {
        SessionState { board: empty_board(), turn_index: 0, seats: None, phase: Phase::Waiting }
    }

    /// What every reachable state satisfies.
    pub open spec fn wf(self) -> bool {
        &&& is_board(self.board)
        &&& count_of(self.board, NodeState::Empty) == 9 - self.turn_index
        &&& count_of(self.board, NodeState::X) == (self.turn_index + 1) / 2
        &&& count_of(self.board, NodeState::O) == self.turn_index / 2
        &&& self.phase is Waiting <==> self.seats is None
        &&& self.phase is Waiting ==> self.turn_index == 0
        &&& self.seats matches Some(seats) ==> seats.player_x != seats.player_o
        &&& self.phase is InProgress ==> {
            &&& self.turn_index < 9
            &&& !has_line(self.board, NodeState::X)
            &&& !has_line(self.board, NodeState::O)
        }
        &&& self.phase matches Phase::Finished(Outcome::Winner(seat)) ==> has_line(
            self.board,
            mark_of(seat),
        )
        &&& self.phase matches Phase::Finished(Outcome::Draw) ==> {
            &&& self.turn_index == 9
            &&& !has_line(self.board, NodeState::X)
            &&& !has_line(self.board, NodeState::O)
        }
    }

    /// The seat whose turn it is: `X` on even turns, `O` on odd ones.
    pub open spec fn to_move(self) -> JsonTicTacToePlayer {
        if self.turn_index % 2 == 0 {
            JsonTicTacToePlayer::X
        } else {
            JsonTicTacToePlayer::O
        }
    }

    /// The player in `seat`, if the seats are taken.
    pub open spec fn holder(self, seat: JsonTicTacToePlayer) -> Option<PlayerId> {
        match self.seats {
            Some(seats) => Some(
                match seat {
                    JsonTicTacToePlayer::X => seats.player_x,
                    JsonTicTacToePlayer::O => seats.player_o,
                },
            ),
            None => None,
        }
    }

    /// What seating `players`, with the one at index `pick` in seat `X`,
    /// comes to: the seats, or the reason why nobody is seated.
    pub open spec fn seating(self, players: Seq<PlayerId>, pick: int) -> Result<Seats, GameError> {
        if !(self.phase is Waiting) {
            Err(GameError::AlreadyStarted)
        } else if players.len() < MIN_PLAYERS {
            Err(GameError::NotEnoughPlayers)
        } else if players.len() > MAX_PLAYERS {
            Err(GameError::TooManyPlayers)
        } else if players[0] == players[1] {
            Err(GameError::DuplicatePlayer)
        } else if pick < 0 || pick >= players.len() {
            Err(GameError::SeatOutOfRange)
        } else {
            Ok(Seats { player_x: players[pick], player_o: players[1 - pick] })
        }
    }

    /// Whether `seated` is what seating `players` can come to, whichever of
    /// them is picked for seat `X`.
    pub open spec fn may_seat(self, players: Seq<PlayerId>, seated: Result<Seats, GameError>)
        -> bool {
        exists|pick: int|
            0 <= pick && (pick < players.len() || players.len() == 0) && seated
                == #[trigger] self.seating(players, pick)
    }

    /// The state after the game has started with `seats`.
    pub open spec fn started(self, seats: Seats) -> SessionState {
        SessionState { seats: Some(seats), phase: Phase::InProgress, ..self }
    }

    /// Why a move of `player` to (`x`, `y`) is refused, or `None` if it is
    /// legal. The tests are made in this order: is a game running, is it the
    /// mover's turn, is the square on the board, is it free.
    pub open spec fn refusal(self, player: PlayerId, x: int, y: int) -> Option<RejectReason> {
        if !(self.phase is InProgress) {
            Some(RejectReason::GameNotInProgress)
        } else if self.holder(self.to_move()) != Some(player) {
            Some(RejectReason::OutOfTurn)
        } else if !(0 <= x <= 2 && 0 <= y <= 2) {
            Some(RejectReason::OutOfBounds)
        } else if self.board[x][y] != NodeState::Empty {
            Some(RejectReason::CellOccupied)
        } else {
            None
        }
    }

    /// How the game stands once `seat` has marked a square and the board has
    /// become `board`, on which `turns` squares are marked.
    pub open spec fn judged(board: Seq<Seq<NodeState>>, seat: JsonTicTacToePlayer, turns: nat)
        -> Phase {
        if has_line(board, mark_of(seat)) {
            Phase::Finished(Outcome::Winner(seat))
        } else if turns == 9 {
            Phase::Finished(Outcome::Draw)
        } else {
            Phase::InProgress
        }
    }

    /// The state after the seat whose turn it is has marked (`x`, `y`).
    pub open spec fn marked(self, x: int, y: int) -> SessionState {
        let board = with_mark(self.board, x, y, mark_of(self.to_move()));
        SessionState {
            board,
            turn_index: self.turn_index + 1,
            seats: self.seats,
            phase: Self::judged(board, self.to_move(), self.turn_index + 1),
        }
    }

    /// The state after `player` has tried to move to (`x`, `y`).
    pub open spec fn after_move(self, player: PlayerId, x: int, y: int) -> SessionState {
        if self.refusal(player, x, y) is None {
            self.marked(x, y)
        } else {
            self
        }
    }

    /// The state after `msg` has been handled.
    pub open spec fn after_message(self, msg: IncomingMessage) -> SessionState {
        match msg.payload {
            Some(mv) => self.after_move(msg.player_like.client_uuid, mv.x as int, mv.y as int),
            None => self,
        }
    }

    /// What handling `msg` comes to: a message that holds no move is an
    /// error, any other is a move of its sender.
    pub open spec fn reaction_to(self, msg: IncomingMessage) -> Result<MoveOutcome, GameError> {
        match msg.payload {
            Some(mv) => Ok(self.outcome_of(msg.player_like.client_uuid, mv.x, mv.y)),
            None => Err(GameError::MessageSerialization),
        }
    }

    /// What the mover is told about a move to (`x`, `y`).
    pub open spec fn outcome_of(self, player: PlayerId, x: usize, y: usize) -> MoveOutcome {
        match self.refusal(player, x as int, y as int) {
            Some(reason) => MoveOutcome::Rejected { reason },
            None => {
                let effect = JsonTicTacToeMoveSuccess { x, y, player: self.to_move() };
                match self.marked(x as int, y as int).phase {
                    Phase::Finished(outcome) => MoveOutcome::GameOver { effect, outcome },
                    _ => MoveOutcome::Accepted { effect },
                }
            },
        }
    }
}

/// A legal move leads from a well-formed state to a well-formed state.
pub proof fn lemma_marked_wf(state: SessionState, player: PlayerId, x: int, y: int)
    requires
        state.wf(),
        state.refusal(player, x, y) is None,
    ensures
        state.marked(x, y).wf(),
{
    let mark = mark_of(state.to_move());
    lemma_with_mark(state.board, x, y, mark);
    lemma_count_after_mark(state.board, x, y, mark, NodeState::Empty);
    lemma_count_after_mark(state.board, x, y, mark, NodeState::X);
    lemma_count_after_mark(state.board, x, y, mark, NodeState::O);
    lemma_lines_after_mark(state.board, x, y, mark, mark_of(state.to_move().other()));
}

/// The rule engine of one game of tic-tac-toe.
#[derive(Clone, Copy, Debug)]
pub struct TicTacToe {
    board: [[NodeState; 3]; 3],
    // A game has at most nine moves.
    nth_move: u8,
    seats: Option<Seats>,
    phase: Phase,
}

impl View for TicTacToe {
    type V = SessionState;

    closed spec fn view(&self) -> SessionState {
        SessionState {
            board: Seq::new(3, |x: int| self.board@[x]@),
            turn_index: self.nth_move as nat,
            seats: self.seats,
            phase: self.phase,
        }
    }
}

impl Default for TicTacToe {
    /// A session that nobody has joined yet.
    fn default() -> (game: TicTacToe)
        ensures
            game@ == SessionState::fresh(),
            game.wf(),
    {
        let row = [NodeState::Empty, NodeState::Empty, NodeState::Empty];
        let game = TicTacToe {
            board: [row, row, row],
            nth_move: 0,
            seats: None,
            phase: Phase::Waiting,
        };
        proof {
            assert(row@ =~= Seq::new(3, |y: int| NodeState::Empty));
            assert(game@.board =~~= empty_board());
            reveal(count_of);
            lemma_few_marks_make_no_line(game@.board);
        }
        game
    }
}

impl TicTacToe {
    /// Whether the engine is in a state that its own operations can reach.
    pub open spec fn wf(&self) -> bool {
        self@.wf()
    }

    /// How many players must be connected before the game starts.
    pub fn min_players(&self) -> (n: usize)
        ensures
            n == MIN_PLAYERS,
    {
        MIN_PLAYERS
    }

    /// How many seats the game has.
    pub fn max_players(&self) -> (n: usize)
        ensures
            n == MAX_PLAYERS,
    {
        MAX_PLAYERS
    }

    /// Where the session stands in its life.
    pub fn phase(&self) -> (phase: Phase)
        ensures
            phase == self@.phase,
    {
        self.phase
    }

    /// How many moves have been accepted so far.
    pub fn turn_index(&self) -> (turns: u8)
        ensures
            turns == self@.turn_index,
    {
        self.nth_move
    }

    /// Who sits where, once the game has started.
    pub fn seats(&self) -> (seats: Option<Seats>)
        ensures
            seats == self@.seats,
    {
        self.seats
    }

    /// What the square at (`x`, `y`) holds; `None` if it is not on the board.
    pub fn cell(&self, x: usize, y: usize) -> (cell: Option<NodeState>)
        ensures
            cell == if x < 3 && y < 3 {
                Some(self@.board[x as int][y as int])
            } else {
                None
            },
    {
        if x < 3 && y < 3 {
            Some(self.board[x][y])
        } else {
            None
        }
    }

    /// The seat whose turn it is.
    pub fn to_move(&self) -> (seat: JsonTicTacToePlayer)
        ensures
            seat == self@.to_move(),
    {
        if self.nth_move % 2 == 0 {
            JsonTicTacToePlayer::X
        } else {
            JsonTicTacToePlayer::O
        }
    }

    /// The player in `seat`, if the seats are taken.
    pub fn holder(&self, seat: JsonTicTacToePlayer) -> (player: Option<PlayerId>)
        ensures
            player == self@.holder(seat),
    {
        match self.seats {
            Some(seats) => Some(
                match seat {
                    JsonTicTacToePlayer::X => seats.player_x,
                    JsonTicTacToePlayer::O => seats.player_o,
                },
            ),
            None => None,
        }
    }

    /// Whether `mark` fills one of the eight lines of the board.
    fn wins(&self, mark: NodeState) -> (won: bool)
        ensures
            won == has_line(self@.board, mark),
    {
        proof {
            reveal(has_line);
        }
        let b = &self.board;
        (b[0][0] == mark && b[0][1] == mark && b[0][2] == mark) || (b[1][0] == mark && b[1][1]
            == mark && b[1][2] == mark) || (b[2][0] == mark && b[2][1] == mark && b[2][2] == mark)
            || (b[0][0] == mark && b[1][0] == mark && b[2][0] == mark) || (b[0][1] == mark
            && b[1][1] == mark && b[2][1] == mark) || (b[0][2] == mark && b[1][2] == mark
            && b[2][2] == mark) || (b[0][0] == mark && b[1][1] == mark && b[2][2] == mark) || (
        b[0][2] == mark && b[1][1] == mark && b[2][0] == mark)
    }

    /// Seats the two `players`, the one at index `pick` as `X` and the other
    /// as `O`, and starts the game.
    ///
    /// Seats are assigned at most once, to exactly two different players;
    /// every other request is refused and changes nothing.
    pub fn init_with(&mut self, players: &Vec<PlayerId>, pick: usize) -> (seated: Result<
        Seats,
        GameError,
    >)
        requires
            old(self).wf(),
        ensures
            final(self).wf(),
            seated == old(self)@.seating(players@, pick as int),
            final(self)@ == match seated {
                Ok(seats) => old(self)@.started(seats),
                Err(_) => old(self)@,
            },
    {
        match self.phase {
            Phase::Waiting => {},
            _ => {
                return Err(GameError::AlreadyStarted);
            },
        }
        if players.len() < MIN_PLAYERS {
            return Err(GameError::NotEnoughPlayers);
        }
        if players.len() > MAX_PLAYERS {
            return Err(GameError::TooManyPlayers);
        }
        if players[0] == players[1] {
            return Err(GameError::DuplicatePlayer);
        }
        if pick >= players.len() {
            return Err(GameError::SeatOutOfRange);
        }
        let seats = Seats { player_x: players[pick], player_o: players[1 - pick] };
        self.seats = Some(seats);
        self.phase = Phase::InProgress;
        proof {
            assert(final(self)@.board =~~= old(self)@.board);
            lemma_few_marks_make_no_line(old(self)@.board);
        }
        Ok(seats)
    }

    /// Seats the two `players`, one of them picked at random for seat `X`,
    /// and starts the game. Which of them is picked cannot be foretold; all
    /// else is as in `init_with`.
    pub fn init(&mut self, players: &Vec<PlayerId>) -> (seated: Result<Seats, GameError>)
        requires
            old(self).wf(),
        ensures
            final(self).wf(),
            old(self)@.may_seat(players@, seated),
            final(self)@ == match seated {
                Ok(seats) => old(self)@.started(seats),
                Err(_) => old(self)@,
            },
    {
        let pick = if players.len() > 0 {
            random_index(players.len())
        } else {
            0
        };
        self.init_with(players, pick)
    }

    /// Handles what a client has sent: a move is applied as in `apply_move`,
    /// anything else is refused and changes nothing.
    pub fn handle(&mut self, msg: &IncomingMessage) -> (reaction: Result<MoveOutcome, GameError>)
        requires
            old(self).wf(),
        ensures
            final(self).wf(),
            final(self)@ == old(self)@.after_message(*msg),
            reaction == old(self)@.reaction_to(*msg),
    {
        match msg.payload {
            Some(mv) => Ok(self.apply_move(msg.player_like.client_uuid, mv)),
            None => Err(GameError::MessageSerialization),
        }
    }

    /// Lets `player` mark the square that `mv` names, if the rules allow it.
    ///
    /// A refused move changes nothing. An accepted one marks the square for
    /// the seat whose turn it was, passes the turn on, and ends the game if
    /// it completed a line or filled the board.
    pub fn apply_move(&mut self, player: PlayerId, mv: JsonTicTacToeMove) -> (outcome: MoveOutcome)
        requires
            old(self).wf(),
        ensures
            final(self).wf(),
            final(self)@ == old(self)@.after_move(player, mv.x as int, mv.y as int),
            outcome == old(self)@.outcome_of(player, mv.x, mv.y),
    {
        match self.phase {
            Phase::InProgress => {},
            _ => {
                return MoveOutcome::Rejected { reason: RejectReason::GameNotInProgress };
            },
        }
        let seat = self.to_move();
        if self.holder(seat) != Some(player) {
            return MoveOutcome::Rejected { reason: RejectReason::OutOfTurn };
        }
        if mv.x > 2 || mv.y > 2 {
            return MoveOutcome::Rejected { reason: RejectReason::OutOfBounds };
        }
        if self.board[mv.x][mv.y] != NodeState::Empty {
            return MoveOutcome::Rejected { reason: RejectReason::CellOccupied };
        }
        let mark = match seat {
            JsonTicTacToePlayer::X => NodeState::X,
            JsonTicTacToePlayer::O => NodeState::O,
        };
        self.board[mv.x][mv.y] = mark;
        self.nth_move = self.nth_move + 1;
        let effect = JsonTicTacToeMoveSuccess { x: mv.x, y: mv.y, player: seat };
        proof {
            let (x, y) = (mv.x as int, mv.y as int);
            assert(self@.board =~~= with_mark(old(self)@.board, x, y, mark));
            lemma_marked_wf(old(self)@, player, x, y);
        }
        if self.wins(mark) {
            let outcome = Outcome::Winner(seat);
            self.phase = Phase::Finished(outcome);
            MoveOutcome::GameOver { effect, outcome }
        } else if self.nth_move == BOARD_SQUARES {
            self.phase = Phase::Finished(Outcome::Draw);
            MoveOutcome::GameOver { effect, outcome: Outcome::Draw }
        } else {
            MoveOutcome::Accepted { effect }
        }
    }
}

} // verus!
