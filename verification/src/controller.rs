//! The controller of one engine process. It holds the state of the protocol
//! and decides; whoever owns the process performs each action and reports
//! what happened.

use crate::board::{contains_move, legal_moves_of, Move, Position};
use crate::protocol::{
    acknowledges_isready, acknowledges_uci, bestmove_of, ends_search, go_command, go_line,
    info_score, is_bestmove_line, isready_command, isready_line, position_command,
    position_line, read_bestmove, read_score, readyok_token, uci_command, uci_line,
    uciok_token,
};
use crate::text::contains;
use vstd::prelude::*;

verus! {

/// How many places the engine binary is looked for in.
pub const CANDIDATES: usize = 4;

/// How long an acknowledgement may take, in milliseconds.
pub const HANDSHAKE_TIMEOUT_MS: u64 = 5000;

/// What can go wrong with the engine.
#[derive(Clone, Copy, Debug, PartialEq, Eq)]
pub enum EngineError {
    /// No candidate binary could be launched.
    Spawn,
    /// No acknowledgement came within the bound.
    HandshakeTimeout,
    /// A line of the engine could not be read as what was expected.
    Protocol,
    /// The engine's stream ended, or reading or writing it failed.
    StreamClosed,
    /// The engine is shared and could not be had.
    LockUnavailable,
}

/// Where the controller stands.
#[derive(Clone, Copy, Debug, PartialEq, Eq)]
pub enum Phase {
    Launching,
    SendingUci,
    AwaitingUciOk,
    SendingIsReady,
    AwaitingReadyOk,
    Ready,
    SendingPosition,
    SendingGo,
    Searching,
    Failed,
}

/// The two queries.
#[derive(Clone, Copy, Debug, PartialEq, Eq)]
pub enum QueryKind {
    BestMove,
    Evaluation,
}

/// What a query found.
#[derive(Clone, Copy, Debug, PartialEq, Eq)]
pub enum Answer {
    /// The move the engine prefers.
    BestMove(Move),
    /// The evaluation in centipawns, from White's side.
    Evaluation(i32),
}

/// What happened to the action that the controller asked for.
#[derive(Debug, PartialEq, Eq)]
pub enum Event {
    /// The candidate binary runs, and its input and output are captured.
    Launched,
    /// The candidate binary could not be started.
    LaunchFailed,
    /// The command was written.
    Sent,
    /// The command could not be written.
    SendFailed,
    /// A line was read.
    Line(Vec<u8>),
    /// The output of the engine has ended.
    Closed,
    /// Reading failed.
    ReadFailed,
    /// No line came by the time that the read was given.
    TimedOut,
}

/// What the owner of the process has to do next.
#[derive(Debug, PartialEq, Eq)]
pub enum Action {
    /// Start the candidate binary of this index, without a console window,
    /// and capture its input, output and error stream.
    Launch(usize),
    /// Write these bytes to the engine.
    Send(Vec<u8>),
    /// Read one line from the engine: by this time, in milliseconds on the
    /// clock of `handle`, where one is given, and without a bound where none
    /// is. A read that ends without a line is reported as `Event::TimedOut`.
    ReadLine(Option<u64>),
    /// Nothing: the engine is ready and waits for a query.
    Idle,
    /// Nothing: no candidate could be brought up.
    GiveUp(EngineError),
}

/// An action, with the bytes to send as a sequence.
pub enum ActionView {
    Launch(nat),
    Send(Seq<u8>),
    ReadLine(Option<u64>),
    Idle,
    GiveUp(EngineError),
}

impl View for Action {
    type V = ActionView;

    open spec fn view(&self) -> ActionView {
        match *self {
            Action::Launch(i) => ActionView::Launch(i as nat),
            Action::Send(bytes) => ActionView::Send(bytes@),
            Action::ReadLine(by) => ActionView::ReadLine(by),
            Action::Idle => ActionView::Idle,
            Action::GiveUp(e) => ActionView::GiveUp(e),
        }
    }
}

/// The state of a controller.
pub struct ControllerState {
    pub phase: Phase,
    /// The candidate that is being brought up.
    pub candidate: nat,
    /// The last failure seen while bringing candidates up.
    pub last_error: EngineError,
    /// When the wait for the current acknowledgement began.
    pub wait_started: u64,
    /// The query that is or was last in flight.
    pub kind: QueryKind,
    pub depth: u8,
    /// The FEN text of the position of that query, and its legal moves.
    pub fen: Seq<u8>,
    pub legal: Seq<Move>,
    /// The last centipawn score that a progress line of that query gave.
    pub score: i32,
    /// The result of the last query, until it is taken.
    pub outcome: Option<Result<Answer, EngineError>>,
}

/// A controller before anything has happened: it is about to launch the
/// first candidate.
pub open spec fn initial_state() -> ControllerState {
    ControllerState {
        phase: Phase::Launching,
        candidate: 0,
        last_error: EngineError::Spawn,
        wait_started: 0,
        kind: QueryKind::BestMove,
        depth: 0,
        fen: Seq::empty(),
        legal: Seq::empty(),
        score: 0,
        outcome: None,
    }
}

/// A query is in flight.
pub open spec fn in_flight(phase: Phase) -> bool {
    phase == Phase::SendingPosition || phase == Phase::SendingGo || phase == Phase::Searching
}

/// What holds of every state that a controller reaches.
pub open spec fn well_formed(s: ControllerState) -> bool {
    &&& s.candidate < CANDIDATES
    &&& in_flight(s.phase) ==> s.legal == legal_moves_of(s.fen) && s.outcome is None
    &&& s.outcome is Some ==> s.phase == Phase::Ready
    &&& s.outcome matches Some(Ok(Answer::BestMove(mv))) ==> s.kind == QueryKind::BestMove
        && legal_moves_of(s.fen).contains(mv)
    &&& s.outcome matches Some(Ok(Answer::Evaluation(_))) ==> s.kind == QueryKind::Evaluation
    &&& s.outcome matches Some(Err(e)) ==> e == EngineError::Protocol || e
        == EngineError::StreamClosed
}

/// The candidate at hand has failed with `error`: the next one is launched,
/// or, after the last, the start-up has failed with that error.
pub open spec fn next_candidate(s: ControllerState, error: EngineError) -> ControllerState {
    if s.candidate + 1 < CANDIDATES {
        ControllerState {
            phase: Phase::Launching,
            candidate: s.candidate + 1,
            last_error: error,
            ..s
        }
    } else {
        ControllerState { phase: Phase::Failed, last_error: error, ..s }
    }
}

/// The wait for an acknowledgement is over the bound at time `now`.
pub open spec fn timed_out(s: ControllerState, now: u64) -> bool {
    now - s.wait_started > HANDSHAKE_TIMEOUT_MS
}

/// The time by which an acknowledgement has to come: the bound after the
/// wait began, or the end of the clock where that lies beyond it.
pub open spec fn deadline(s: ControllerState) -> u64 {
    if s.wait_started + HANDSHAKE_TIMEOUT_MS <= u64::MAX {
        (s.wait_started + HANDSHAKE_TIMEOUT_MS) as u64
    } else {
        u64::MAX
    }
}

/// What an event does while an acknowledgement is awaited. A line that comes
/// after the bound gives the candidate up, whatever it holds, and so does a
/// read that ended without a line; a line in time moves on to `next` where it
/// holds the token and is passed over where it does not; the end of the
/// stream or a failed read gives the candidate up.
pub open spec fn await_step(
    s: ControllerState,
    event: Event,
    now: u64,
    token: Seq<u8>,
    next: Phase,
) -> ControllerState {
    match event {
        Event::Line(line) => if timed_out(s, now) {
            next_candidate(s, EngineError::HandshakeTimeout)
        } else if contains(line@, token) {
            ControllerState { phase: next, ..s }
        } else {
            s
        },
        Event::TimedOut => next_candidate(s, EngineError::HandshakeTimeout),
        Event::Closed => next_candidate(s, EngineError::StreamClosed),
        Event::ReadFailed => next_candidate(s, EngineError::StreamClosed),
        _ => s,
    }
}

/// The query ends with `outcome`, and the engine is ready again.
pub open spec fn finished(
    s: ControllerState,
    outcome: Result<Answer, EngineError>,
) -> ControllerState {
    ControllerState { phase: Phase::Ready, outcome: Some(outcome), ..s }
}

/// What the line that ends a best-move search gives: the move that it
/// names, where that move is legal in the position searched, else a protocol
/// error.
pub open spec fn bestmove_outcome(s: ControllerState, line: Seq<u8>) -> Result<
    Answer,
    EngineError,
> {
    match bestmove_of(line) {
        Some(mv) => if s.legal.contains(mv) {
            Ok(Answer::BestMove(mv))
        } else {
            Err(EngineError::Protocol)
        },
        None => Err(EngineError::Protocol),
    }
}

/// What a line does during a search. The line that begins with the best-move
/// marker ends the search. Before it, an evaluation query keeps the last
/// score that a progress line reported, 0 if there was none.
pub open spec fn search_step(s: ControllerState, line: Seq<u8>) -> ControllerState {
    match s.kind {
        QueryKind::BestMove => if is_bestmove_line(line) {
            finished(s, bestmove_outcome(s, line))
        } else {
            s
        },
        QueryKind::Evaluation => if is_bestmove_line(line) {
            finished(s, Ok(Answer::Evaluation(s.score)))
        } else {
            match info_score(line) {
                Some(cp) => ControllerState { score: cp, ..s },
                None => s,
            }
        },
    }
}

/// The state after `event`, reported at time `now` (milliseconds of a
/// clock that does not run backwards). An event that the phase does not wait
/// for changes nothing.
pub open spec fn step(s: ControllerState, event: Event, now: u64) -> ControllerState {
    match s.phase {
        Phase::Launching => match event {
            Event::Launched => ControllerState { phase: Phase::SendingUci, ..s },
            Event::LaunchFailed => next_candidate(s, EngineError::Spawn),
            _ => s,
        },
        Phase::SendingUci => match event {
            Event::Sent => ControllerState { phase: Phase::AwaitingUciOk, wait_started: now, ..s },
            Event::SendFailed => next_candidate(s, EngineError::StreamClosed),
            _ => s,
        },
        Phase::AwaitingUciOk => await_step(s, event, now, uciok_token(), Phase::SendingIsReady),
        Phase::SendingIsReady => match event {
            Event::Sent => ControllerState {
                phase: Phase::AwaitingReadyOk,
                wait_started: now,
                ..s
            },
            Event::SendFailed => next_candidate(s, EngineError::StreamClosed),
            _ => s,
        },
        Phase::AwaitingReadyOk => await_step(s, event, now, readyok_token(), Phase::Ready),
        Phase::Ready => s,
        Phase::SendingPosition => match event {
            Event::Sent => ControllerState { phase: Phase::SendingGo, ..s },
            Event::SendFailed => finished(s, Err(EngineError::StreamClosed)),
            _ => s,
        },
        Phase::SendingGo => match event {
            Event::Sent => ControllerState { phase: Phase::Searching, ..s },
            Event::SendFailed => finished(s, Err(EngineError::StreamClosed)),
            _ => s,
        },
        Phase::Searching => match event {
            Event::Line(line) => search_step(s, line@),
            Event::Closed => finished(s, Err(EngineError::StreamClosed)),
            Event::ReadFailed => finished(s, Err(EngineError::StreamClosed)),
            _ => s,
        },
        Phase::Failed => s,
    }
}

/// What a state asks its owner to do.
pub open spec fn pending(s: ControllerState) -> ActionView {
    match s.phase {
        Phase::Launching => ActionView::Launch(s.candidate),
        Phase::SendingUci => ActionView::Send(uci_line()),
        Phase::AwaitingUciOk => ActionView::ReadLine(Some(deadline(s))),
        Phase::SendingIsReady => ActionView::Send(isready_line()),
        Phase::AwaitingReadyOk => ActionView::ReadLine(Some(deadline(s))),
        Phase::Ready => ActionView::Idle,
        Phase::SendingPosition => ActionView::Send(position_line(s.fen)),
        Phase::SendingGo => ActionView::Send(go_line(s.depth)),
        Phase::Searching => ActionView::ReadLine(None),
        Phase::Failed => ActionView::GiveUp(s.last_error),
    }
}

/// The state in which a query for `fen` to `depth` has just been accepted.
pub open spec fn begun(s: ControllerState, kind: QueryKind, fen: Seq<u8>, depth: u8) -> ControllerState {
    ControllerState {
        phase: Phase::SendingPosition,
        kind,
        depth,
        fen,
        legal: legal_moves_of(fen),
        score: 0,
        outcome: None,
        ..s
    }
}

/// The places in which the engine binary is looked for, in order.
pub open spec fn candidate_paths() -> Seq<Seq<char>> {
    seq![
        "stockfish.exe"@,
        "stockfish"@,
        ".\\stockfish.exe"@,
        "C:\\stockfish\\stockfish.exe"@,
    ]
}

/// The place of a candidate.
pub fn candidate_path(index: usize) -> (path: Option<&'static str>)
    ensures
        path is Some == (index < CANDIDATES),
        path matches Some(p) ==> p@ == candidate_paths()[index as int],
{
    if index == 0 {
        Some("stockfish.exe")
    } else if index == 1 {
        Some("stockfish")
    } else if index == 2 {
        Some(".\\stockfish.exe")
    } else if index == 3 {
        Some("C:\\stockfish\\stockfish.exe")
    } else {
        None
    }
}

/// The controller of one engine process.
pub struct StockfishController {
    phase: Phase,
    candidate: usize,
    last_error: EngineError,
    wait_started: u64,
    kind: QueryKind,
    depth: u8,
    fen: Vec<u8>,
    legal: Vec<Move>,
    score: i32,
    outcome: Option<Result<Answer, EngineError>>,
}

impl View for StockfishController {
    type V = ControllerState;

    closed spec fn view(&self) -> ControllerState {
        ControllerState {
            phase: self.phase,
            candidate: self.candidate as nat,
            last_error: self.last_error,
            wait_started: self.wait_started,
            kind: self.kind,
            depth: self.depth,
            fen: self.fen@,
            legal: self.legal@,
            score: self.score,
            outcome: self.outcome,
        }
    }
}

impl StockfishController {
    /// The invariant of the controller.
    pub open spec fn well_formed(&self) -> bool {
        well_formed(self@)
    }

    /// A controller that is about to launch the first candidate.
    pub fn new() -> (controller: Self)
        ensures
            controller@ == initial_state(),
            controller.well_formed(),
    {
        StockfishController {
            phase: Phase::Launching,
            candidate: 0,
            last_error: EngineError::Spawn,
            wait_started: 0,
            kind: QueryKind::BestMove,
            depth: 0,
            fen: Vec::new(),
            legal: Vec::new(),
            score: 0,
            outcome: None,
        }
    }

    /// Where the controller stands.
    pub fn phase(&self) -> (phase: Phase)
        ensures
            phase == self@.phase,
    {
        self.phase
    }

    /// The time by which an acknowledgement has to come.
    pub fn deadline(&self) -> (by: u64)
        ensures
            by == deadline(self@),
    {
        if self.wait_started <= u64::MAX - HANDSHAKE_TIMEOUT_MS {
            self.wait_started + HANDSHAKE_TIMEOUT_MS
        } else {
            u64::MAX
        }
    }

    /// What the owner of the process has to do next.
    pub fn action(&self) -> (action: Action)
        ensures
            action@ == pending(self@),
    {
        match self.phase {
            Phase::Launching => Action::Launch(self.candidate),
            Phase::SendingUci => Action::Send(uci_command()),
            Phase::AwaitingUciOk => Action::ReadLine(Some(self.deadline())),
            Phase::SendingIsReady => Action::Send(isready_command()),
            Phase::AwaitingReadyOk => Action::ReadLine(Some(self.deadline())),
            Phase::Ready => Action::Idle,
            Phase::SendingPosition => Action::Send(position_command(self.fen.as_slice())),
            Phase::SendingGo => Action::Send(go_command(self.depth)),
            Phase::Searching => Action::ReadLine(None),
            Phase::Failed => Action::GiveUp(self.last_error),
        }
    }

    /// Gives the candidate at hand up.
    fn give_up_candidate(&mut self, error: EngineError)
        requires
            old(self).well_formed(),
            !in_flight(old(self)@.phase),
            old(self)@.outcome is None,
        ensures
            final(self)@ == next_candidate(old(self)@, error),
            final(self).well_formed(),
    {
        self.last_error = error;
        if self.candidate + 1 < CANDIDATES {
            self.candidate = self.candidate + 1;
            self.phase = Phase::Launching;
        } else {
            self.phase = Phase::Failed;
        }
    }

    /// Takes an event in while an acknowledgement is awaited.
    fn awaited(&mut self, event: Event, now_ms: u64)
        requires
            old(self).well_formed(),
            old(self)@.phase == Phase::AwaitingUciOk || old(self)@.phase
                == Phase::AwaitingReadyOk,
            old(self)@.outcome is None,
        ensures
            final(self)@ == step(old(self)@, event, now_ms),
            final(self).well_formed(),
    {
        match event {
            Event::Line(line) => {
                let first: bool = match self.phase {
                    Phase::AwaitingUciOk => true,
                    _ => false,
                };
                if now_ms > self.wait_started && now_ms - self.wait_started
                    > HANDSHAKE_TIMEOUT_MS {
                    self.give_up_candidate(EngineError::HandshakeTimeout);
                } else if first {
                    if acknowledges_uci(line.as_slice()) {
                        self.phase = Phase::SendingIsReady;
                    }
                } else {
                    if acknowledges_isready(line.as_slice()) {
                        self.phase = Phase::Ready;
                    }
                }
            },
            Event::TimedOut => {
                self.give_up_candidate(EngineError::HandshakeTimeout);
            },
            Event::Closed => {
                self.give_up_candidate(EngineError::StreamClosed);
            },
            Event::ReadFailed => {
                self.give_up_candidate(EngineError::StreamClosed);
            },
            _ => {},
        }
    }

    /// Ends the query in flight.
    fn finish(&mut self, outcome: Result<Answer, EngineError>)
        requires
            old(self)@.candidate < CANDIDATES,
            outcome matches Ok(Answer::BestMove(mv)) ==> old(self)@.kind == QueryKind::BestMove
                && legal_moves_of(old(self)@.fen).contains(mv),
            outcome matches Ok(Answer::Evaluation(_)) ==> old(self)@.kind
                == QueryKind::Evaluation,
            outcome matches Err(e) ==> e == EngineError::Protocol || e
                == EngineError::StreamClosed,
        ensures
            final(self)@ == finished(old(self)@, outcome),
            final(self).well_formed(),
    {
        self.outcome = Some(outcome);
        self.phase = Phase::Ready;
    }

    /// Takes a line in during a search.
    fn searched(&mut self, line: &[u8])
        requires
            old(self).well_formed(),
            old(self)@.phase == Phase::Searching,
        ensures
            final(self)@ == search_step(old(self)@, line@),
            final(self).well_formed(),
    {
        let last: bool = ends_search(line);
        match self.kind {
            QueryKind::BestMove => {
                if last {
                    match read_bestmove(line) {
                        Some(mv) => {
                            if contains_move(&self.legal, mv) {
                                self.finish(Ok(Answer::BestMove(mv)));
                            } else {
                                self.finish(Err(EngineError::Protocol));
                            }
                        },
                        None => {
                            self.finish(Err(EngineError::Protocol));
                        },
                    }
                }
            },
            QueryKind::Evaluation => {
                if last {
                    self.finish(Ok(Answer::Evaluation(self.score)));
                } else {
                    match read_score(line) {
                        Some(cp) => {
                            self.score = cp;
                        },
                        None => {},
                    }
                }
            },
        }
    }

    /// Takes in what happened to the action that `action` asked for, at time
    /// `now_ms` of a clock that counts milliseconds.
    pub fn handle(&mut self, event: Event, now_ms: u64)
        requires
            old(self).well_formed(),
        ensures
            final(self)@ == step(old(self)@, event, now_ms),
            final(self).well_formed(),
    {
        match self.phase {
            Phase::Launching => match event {
                Event::Launched => {
                    self.phase = Phase::SendingUci;
                },
                Event::LaunchFailed => {
                    self.give_up_candidate(EngineError::Spawn);
                },
                _ => {},
            },
            Phase::SendingUci => match event {
                Event::Sent => {
                    self.wait_started = now_ms;
                    self.phase = Phase::AwaitingUciOk;
                },
                Event::SendFailed => {
                    self.give_up_candidate(EngineError::StreamClosed);
                },
                _ => {},
            },
            Phase::AwaitingUciOk => {
                self.awaited(event, now_ms);
            },
            Phase::SendingIsReady => match event {
                Event::Sent => {
                    self.wait_started = now_ms;
                    self.phase = Phase::AwaitingReadyOk;
                },
                Event::SendFailed => {
                    self.give_up_candidate(EngineError::StreamClosed);
                },
                _ => {},
            },
            Phase::AwaitingReadyOk => {
                self.awaited(event, now_ms);
            },
            Phase::Ready => {},
            Phase::SendingPosition => match event {
                Event::Sent => {
                    self.phase = Phase::SendingGo;
                },
                Event::SendFailed => {
                    self.finish(Err(EngineError::StreamClosed));
                },
                _ => {},
            },
            Phase::SendingGo => match event {
                Event::Sent => {
                    self.phase = Phase::Searching;
                },
                Event::SendFailed => {
                    self.finish(Err(EngineError::StreamClosed));
                },
                _ => {},
            },
            Phase::Searching => match event {
                Event::Line(line) => {
                    self.searched(line.as_slice());
                },
                Event::Closed => {
                    self.finish(Err(EngineError::StreamClosed));
                },
                Event::ReadFailed => {
                    self.finish(Err(EngineError::StreamClosed));
                },
                _ => {},
            },
            Phase::Failed => {},
        }
    }

    /// Begins a query where the engine is ready.
    fn begin(&mut self, kind: QueryKind, position: &Position, depth: u8) -> (accepted: bool)
        requires
            old(self).well_formed(),
        ensures
            accepted == (old(self)@.phase == Phase::Ready),
            accepted ==> final(self)@ == begun(old(self)@, kind, position@, depth),
            !accepted ==> final(self)@ == old(self)@,
            final(self).well_formed(),
    {
        match self.phase {
            Phase::Ready => {
                self.outcome = None;
                self.kind = kind;
                self.depth = depth;
                self.fen = position.fen();
                self.legal = position.legal_moves();
                self.score = 0;
                self.phase = Phase::SendingPosition;
                true
            },
            _ => false,
        }
    }

    /// Asks for the move that the engine prefers in `position`, searching to
    /// `depth`. The query is accepted where the engine is ready, which means
    /// that no other query is in flight; a result not yet taken is dropped.
    /// The answer, once `take_outcome` hands it out, is a move that is legal
    /// in `position`, or an error.
    pub fn get_best_move(&mut self, position: &Position, depth: u8) -> (accepted: bool)
        requires
            old(self).well_formed(),
        ensures
            accepted == (old(self)@.phase == Phase::Ready),
            accepted ==> final(self)@ == begun(
                old(self)@,
                QueryKind::BestMove,
                position@,
                depth,
            ),
            !accepted ==> final(self)@ == old(self)@,
            final(self).well_formed(),
    {
        self.begin(QueryKind::BestMove, position, depth)
    }

    /// Asks for the evaluation of `position` in centipawns, searching to
    /// `depth`. Accepted as `get_best_move` is.
    pub fn get_evaluation(&mut self, position: &Position, depth: u8) -> (accepted: bool)
        requires
            old(self).well_formed(),
        ensures
            accepted == (old(self)@.phase == Phase::Ready),
            accepted ==> final(self)@ == begun(
                old(self)@,
                QueryKind::Evaluation,
                position@,
                depth,
            ),
            !accepted ==> final(self)@ == old(self)@,
            final(self).well_formed(),
    {
        self.begin(QueryKind::Evaluation, position, depth)
    }

    /// Hands out the result of the last query, once.
    pub fn take_outcome(&mut self) -> (outcome: Option<Result<Answer, EngineError>>)
        requires
            old(self).well_formed(),
        ensures
            outcome == old(self)@.outcome,
            final(self)@ == (ControllerState { outcome: None, ..old(self)@ }),
            final(self).well_formed(),
            outcome matches Some(Ok(Answer::BestMove(mv))) ==> legal_moves_of(
                old(self)@.fen,
            ).contains(mv),
            outcome matches Some(Err(e)) ==> e == EngineError::Protocol || e
                == EngineError::StreamClosed,
    {
        let outcome = self.outcome;
        self.outcome = None;
        outcome
    }
}

/// Every step keeps the invariant: whatever the engine sends, a best move
/// that is handed out is legal in the position that was searched, and a
/// failed query fails with a protocol error or a closed stream.
pub proof fn lemma_step_well_formed(s: ControllerState, event: Event, now: u64)
    requires
        well_formed(s),
    ensures
        well_formed(step(s, event, now)),
{
}

/// Whether an acknowledgement is awaited in a phase.
pub open spec fn awaiting(phase: Phase) -> bool {
    phase == Phase::AwaitingUciOk || phase == Phase::AwaitingReadyOk
}

/// The wait for an acknowledgement is bounded: a line that comes after the
/// bound gives the candidate up with a timeout, whether or not it holds the
/// acknowledgement, and so does a read that ended without a line; the read
/// that is asked for during the wait ends at the bound.
pub proof fn lemma_bounded_wait(s: ControllerState, line: Vec<u8>, now: u64)
    requires
        awaiting(s.phase),
    ensures
        timed_out(s, now) ==> step(s, Event::Line(line), now) == next_candidate(
            s,
            EngineError::HandshakeTimeout,
        ),
        step(s, Event::TimedOut, now) == next_candidate(s, EngineError::HandshakeTimeout),
        pending(s) == ActionView::ReadLine(Some(deadline(s))),
        timed_out(s, now) <==> now > deadline(s),
        !awaiting(next_candidate(s, EngineError::HandshakeTimeout).phase),
{
}

/// A query is accepted only while none is in flight, and an accepted query
/// is in flight until its outcome is there.
pub proof fn lemma_one_query_in_flight(s: ControllerState, event: Event, now: u64)
    requires
        well_formed(s),
        in_flight(s.phase),
    ensures
        in_flight(step(s, event, now).phase) || (step(s, event, now).phase == Phase::Ready
            && step(s, event, now).outcome is Some),
{
}

} // verus!
