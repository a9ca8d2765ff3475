//! The analysis of a finished game, move by move. The analyzer replays the
//! recorded moves and says what to ask the engine; whoever holds the engine
//! asks, and hands the reply back.

use crate::analysis::{all_well_formed, analysed, GameAnalysis, MoveAnalysis};
use crate::board::{
    fen_after, lemma_material_bounds, material, playable, resolved_move, Move, Position,
};
use crate::text::views;
use vstd::prelude::*;

verus! {

/// The depth to which the engine searches for an analysis.
pub const ANALYSIS_DEPTH: u8 = 15;

/// Where the analysis of the current move stands.
#[derive(Clone, Copy, Debug, PartialEq, Eq)]
pub enum Stage {
    /// The position before the move is to be evaluated.
    EvaluateBefore,
    /// The engine's preferred move in that position is to be asked for.
    AskBestMove,
    /// The position after the move is to be evaluated.
    EvaluateAfter,
    /// Nothing is left to do.
    Finished,
}

/// What to ask the engine about the analyzer's position, to `ANALYSIS_DEPTH`.
#[derive(Clone, Copy, Debug, PartialEq, Eq)]
pub enum Request {
    Evaluation,
    BestMove,
    Nothing,
}

/// What the engine said.
#[derive(Clone, Copy, Debug, PartialEq, Eq)]
pub enum Reply {
    /// An evaluation in centipawns, from White's side.
    Evaluation(i32),
    /// The move it prefers.
    BestMove(Move),
    /// The query failed, or the engine could not be had.
    Failed,
}

/// The state of an analyzer.
pub struct AnalyzerState {
    /// The records of the moves that were played.
    pub history: Seq<Seq<u8>>,
    /// The FEN text of the position that the next request is about.
    pub fen: Seq<u8>,
    /// The index of the move under analysis.
    pub ply: nat,
    pub stage: Stage,
    /// The evaluation before the move under analysis.
    pub evaluation_before: i32,
    /// The move under analysis, once its record is resolved.
    pub played: Move,
    /// The engine's preferred move in the position before the move.
    pub best_move: Option<Move>,
    /// The moves analysed so far.
    pub moves: Seq<MoveAnalysis>,
}

/// The evaluation that stands in for the engine's: the material balance, in
/// centipawns.
pub open spec fn fallback(fen: Seq<u8>) -> i32 {
    (100 * material(fen)) as i32
}

/// The evaluation that a reply gives of a position: the engine's, or the
/// material count where the reply holds none.
pub open spec fn evaluation_from(reply: Reply, fen: Seq<u8>) -> i32 {
    match reply {
        Reply::Evaluation(cp) => cp,
        _ => fallback(fen),
    }
}

/// The preferred move that a reply gives: none where the reply holds none.
pub open spec fn best_move_from(reply: Reply) -> Option<Move> {
    match reply {
        Reply::BestMove(mv) => Some(mv),
        _ => None,
    }
}

/// The state in which the analysis of `history` begins, from the position
/// with FEN text `fen`. With no move to analysis it is finished at once.
pub open spec fn started(history: Seq<Seq<u8>>, fen: Seq<u8>) -> AnalyzerState {
    AnalyzerState {
        history,
        fen,
        ply: 0,
        stage: if history.len() == 0 {
            Stage::Finished
        } else {
            Stage::EvaluateBefore
        },
        evaluation_before: 0,
        played: Move { from: 0, to: 0, promotion: None },
        best_move: None,
        moves: Seq::empty(),
    }
}

/// The state after a reply.
///
/// Before the move: the reply gives the evaluation before it; then the
/// record of the move is resolved in the position, and where it names no move
/// that can be played there the analysis ends with the moves analysed so far.
/// Then the reply gives the engine's preferred move, and the move is played.
/// After the move: the reply gives the evaluation after it, the move is
/// analysed and the analysis goes on to the next move, or ends after the last.
/// A reply of another kind than the one asked for counts as a failed query.
pub open spec fn advance(s: AnalyzerState, reply: Reply) -> AnalyzerState {
    match s.stage {
        Stage::EvaluateBefore => match resolved_move(s.fen, s.history[s.ply as int]) {
            Some(mv) => AnalyzerState {
                stage: Stage::AskBestMove,
                evaluation_before: evaluation_from(reply, s.fen),
                played: mv,
                ..s
            },
            None => AnalyzerState { stage: Stage::Finished, ..s },
        },
        Stage::AskBestMove => AnalyzerState {
            stage: Stage::EvaluateAfter,
            best_move: best_move_from(reply),
            fen: fen_after(s.fen, s.played),
            ..s
        },
        Stage::EvaluateAfter => AnalyzerState {
            stage: if s.ply + 1 < s.history.len() {
                Stage::EvaluateBefore
            } else {
                Stage::Finished
            },
            ply: s.ply + 1,
            moves: s.moves.push(
                analysed(
                    s.played,
                    s.ply as int,
                    s.evaluation_before,
                    evaluation_from(reply, s.fen),
                    s.best_move,
                ),
            ),
            ..s
        },
        Stage::Finished => s,
    }
}

/// What a state asks of the engine.
pub open spec fn wanted(stage: Stage) -> Request {
    match stage {
        Stage::EvaluateBefore => Request::Evaluation,
        Stage::AskBestMove => Request::BestMove,
        Stage::EvaluateAfter => Request::Evaluation,
        Stage::Finished => Request::Nothing,
    }
}

/// What holds of every state that an analyzer reaches.
pub open spec fn well_formed(s: AnalyzerState) -> bool {
    &&& s.moves.len() == s.ply
    &&& s.ply <= s.history.len()
    &&& s.stage != Stage::Finished ==> s.ply < s.history.len()
    &&& s.stage == Stage::AskBestMove ==> playable(s.fen, s.played)
    &&& all_well_formed(s.moves)
}

/// How many replies a state can still take before it is finished, at most.
pub open spec fn replies_left(s: AnalyzerState) -> nat {
    let moves_left: nat = if s.ply < s.history.len() {
        (s.history.len() - s.ply) as nat
    } else {
        0
    };
    match s.stage {
        Stage::EvaluateBefore => 3 * moves_left + 3,
        Stage::AskBestMove => 3 * moves_left + 2,
        Stage::EvaluateAfter => 3 * moves_left + 1,
        Stage::Finished => 0,
    }
}

/// The analysis of a finished game.
pub struct GameAnalyzer {
    history: Vec<Vec<u8>>,
    position: Position,
    ply: usize,
    stage: Stage,
    evaluation_before: i32,
    played: Move,
    best_move: Option<Move>,
    moves: Vec<MoveAnalysis>,
}

impl View for GameAnalyzer {
    type V = AnalyzerState;

    closed spec fn view(&self) -> AnalyzerState {
        AnalyzerState {
            history: views(self.history@),
            fen: self.position@,
            ply: self.ply as nat,
            stage: self.stage,
            evaluation_before: self.evaluation_before,
            played: self.played,
            best_move: self.best_move,
            moves: self.moves@,
        }
    }
}

impl GameAnalyzer {
    /// The invariant of the analyzer.
    pub open spec fn well_formed(&self) -> bool {
        well_formed(self@)
    }

    /// Begins the analysis of the recorded moves `history`, played from
    /// `initial` on.
    pub fn new(history: Vec<Vec<u8>>, initial: Position) -> (analyzer: Self)
        ensures
            analyzer@ == started(views(history@), initial@),
            analyzer.well_formed(),
    {
        let stage = if history.len() == 0 {
            Stage::Finished
        } else {
            Stage::EvaluateBefore
        };
        GameAnalyzer {
            history,
            position: initial,
            ply: 0,
            stage,
            evaluation_before: 0,
            played: Move { from: 0, to: 0, promotion: None },
            best_move: None,
            moves: Vec::new(),
        }
    }

    /// What is to be asked of the engine next, about `position`.
    pub fn request(&self) -> (request: Request)
        ensures
            request == wanted(self@.stage),
    {
        match self.stage {
            Stage::EvaluateBefore => Request::Evaluation,
            Stage::AskBestMove => Request::BestMove,
            Stage::EvaluateAfter => Request::Evaluation,
            Stage::Finished => Request::Nothing,
        }
    }

    /// The position that the request is about.
    pub fn position(&self) -> (position: &Position)
        ensures
            position@ == self@.fen,
    {
        &self.position
    }

    /// The evaluation of the analyzer's position that a reply gives.
    fn evaluation(&self, reply: Reply) -> (cp: i32)
        ensures
            cp == evaluation_from(reply, self@.fen),
    {
        match reply {
            Reply::Evaluation(cp) => cp,
            _ => 100 * self.position.material(),
        }
    }

    /// Takes the engine's reply to the last request in.
    pub fn handle(&mut self, reply: Reply)
        requires
            old(self).well_formed(),
        ensures
            final(self)@ == advance(old(self)@, reply),
            final(self).well_formed(),
    {
        match self.stage {
            Stage::EvaluateBefore => {
                let evaluation = self.evaluation(reply);
                assert(views(self.history@)[self.ply as int] == self.history@[self.ply as int]@);
                match self.position.find_move(self.history[self.ply].as_slice()) {
                    Some(mv) => {
                        self.evaluation_before = evaluation;
                        self.played = mv;
                        self.stage = Stage::AskBestMove;
                    },
                    None => {
                        self.stage = Stage::Finished;
                    },
                }
            },
            Stage::AskBestMove => {
                let next = self.position.play(self.played).unwrap();
                self.best_move =
                match reply {
                    Reply::BestMove(mv) => Some(mv),
                    _ => None,
                };
                self.position = next;
                self.stage = Stage::EvaluateAfter;
            },
            Stage::EvaluateAfter => {
                assert(self.ply < self.history.len()) by {
                    assert(views(self.history@).len() == self.history@.len());
                }
                let evaluation = self.evaluation(reply);
                let done = MoveAnalysis::new(
                    self.played,
                    self.ply,
                    self.evaluation_before,
                    evaluation,
                    self.best_move,
                );
                self.moves.push(done);
                self.ply = self.ply + 1;
                self.stage =
                if self.ply < self.history.len() {
                    Stage::EvaluateBefore
                } else {
                    Stage::Finished
                };
            },
            Stage::Finished => {},
        }
    }

    /// Sums the moves analysed so far up.
    pub fn finish(self) -> (analysis: GameAnalysis)
        requires
            self.well_formed(),
        ensures
            analysis.moves@ == self@.moves,
            views(analysis.move_notations@) == self@.history.take(self@.moves.len() as int),
            analysis.well_formed(),
    {
        let mut notations = self.history;
        assert(views(notations@).len() == notations@.len());
        notations.truncate(self.moves.len());
        assert(views(notations@) =~= self@.history.take(self@.moves.len() as int));
        GameAnalysis::summarize(self.moves, notations)
    }
}

/// Every reply keeps the invariant, so every move that an analysis holds has a
/// loss that is not negative and the marks of its loss.
pub proof fn lemma_advance_well_formed(s: AnalyzerState, reply: Reply)
    requires
        well_formed(s),
    ensures
        well_formed(advance(s, reply)),
{
}

/// Every reply, a failed one too, brings the analysis nearer to its end: the
/// replay never stalls.
pub proof fn lemma_advance_progress(s: AnalyzerState, reply: Reply)
    requires
        s.stage != Stage::Finished,
    ensures
        replies_left(advance(s, reply)) < replies_left(s),
{
}

/// The reply that stands first in a script, or a failed query where the
/// script has run out.
pub open spec fn next_reply(replies: Seq<Reply>) -> Reply {
    if replies.len() > 0 {
        replies[0]
    } else {
        Reply::Failed
    }
}

/// What is left of a script after its first reply.
pub open spec fn later_replies(replies: Seq<Reply>) -> Seq<Reply> {
    if replies.len() > 0 {
        replies.skip(1)
    } else {
        replies
    }
}

/// The state in which an analysis ends that starts in `s` and is given the
/// replies of a script one after the other, and failed queries after them.
pub open spec fn completed(s: AnalyzerState, replies: Seq<Reply>) -> AnalyzerState
    decreases replies_left(s),
{
    if s.stage == Stage::Finished {
        s
    } else {
        proof {
            lemma_advance_progress(s, next_reply(replies));
        }
        completed(advance(s, next_reply(replies)), later_replies(replies))
    }
}

/// The position after the first `plies` recorded moves of a game that began
/// in the position with FEN text `fen`; a record that names no move that can
/// be played leaves the position as it is.
pub open spec fn replayed(fen: Seq<u8>, history: Seq<Seq<u8>>, plies: nat) -> Seq<u8>
    decreases plies,
{
    if plies == 0 {
        fen
    } else {
        let before = replayed(fen, history, (plies - 1) as nat);
        match resolved_move(before, history[plies - 1]) {
            Some(mv) => fen_after(before, mv),
            None => before,
        }
    }
}

/// The first ply from `from` on whose record names no move that can be played
/// in the position reached by then, or the number of records.
pub open spec fn first_unplayable(fen: Seq<u8>, history: Seq<Seq<u8>>, from: nat) -> nat
    decreases history.len() - from,
{
    if from >= history.len() {
        history.len()
    } else if resolved_move(replayed(fen, history, from), history[from as int]) is None {
        from
    } else {
        first_unplayable(fen, history, from + 1)
    }
}

/// How many of a game's records can be replayed: those before the first one
/// that names no move that can be played.
pub open spec fn replayable(fen: Seq<u8>, history: Seq<Seq<u8>>) -> nat {
    first_unplayable(fen, history, 0)
}

/// What an analysis without an engine says of the move of a ply: both
/// evaluations are material counts, and no preferred move is given.
pub open spec fn unaided_move(fen: Seq<u8>, history: Seq<Seq<u8>>, ply: int) -> MoveAnalysis {
    let before = replayed(fen, history, ply as nat);
    analysed(
        resolved_move(before, history[ply])->0,
        ply,
        fallback(before),
        fallback(replayed(fen, history, (ply + 1) as nat)),
        None,
    )
}

/// What an analysis without an engine says of a game: the analysis of every
/// move that can be replayed.
pub open spec fn unaided_moves(fen: Seq<u8>, history: Seq<Seq<u8>>) -> Seq<MoveAnalysis> {
    Seq::new(replayable(fen, history), |ply: int| unaided_move(fen, history, ply))
}

/// Every reply is a failed query.
pub open spec fn all_failed(replies: Seq<Reply>) -> bool {
    forall|i: int| 0 <= i < replies.len() ==> replies[i] == Reply::Failed
}

/// What holds of every state of an analysis, begun in `fen`, that has had
/// failed queries only.
spec fn unaided(s: AnalyzerState, fen: Seq<u8>) -> bool {
    let before = replayed(fen, s.history, s.ply);
    &&& well_formed(s)
    &&& first_unplayable(fen, s.history, s.ply) == replayable(fen, s.history)
    &&& s.moves == Seq::new(s.ply, |ply: int| unaided_move(fen, s.history, ply))
    &&& match s.stage {
        Stage::EvaluateBefore => s.fen == before,
        Stage::AskBestMove => s.fen == before && resolved_move(before, s.history[s.ply as int])
            == Some(s.played) && s.evaluation_before == fallback(before),
        Stage::EvaluateAfter => s.fen == replayed(fen, s.history, s.ply + 1) && resolved_move(
            before,
            s.history[s.ply as int],
        ) == Some(s.played) && s.evaluation_before == fallback(before) && s.best_move is None,
        Stage::Finished => s.ply == replayable(fen, s.history),
    }
}

/// A failed query keeps `unaided`.
proof fn lemma_unaided_step(s: AnalyzerState, fen: Seq<u8>)
    requires
        unaided(s, fen),
        s.stage != Stage::Finished,
    ensures
        unaided(advance(s, Reply::Failed), fen),
{
    let t = advance(s, Reply::Failed);
    match s.stage {
        Stage::EvaluateAfter => {
            let done = unaided_move(fen, s.history, s.ply as int);
            assert(t.moves =~= Seq::new(t.ply, |ply: int| unaided_move(fen, s.history, ply)));
            assert(first_unplayable(fen, s.history, s.ply) == first_unplayable(
                fen,
                s.history,
                s.ply + 1,
            ));
        },
        _ => {},
    }
}

/// An analysis that has failed queries only ends with `unaided`.
proof fn lemma_unaided_end(s: AnalyzerState, fen: Seq<u8>, replies: Seq<Reply>)
    requires
        unaided(s, fen),
        all_failed(replies),
    ensures
        unaided(completed(s, replies), fen),
        completed(s, replies).stage == Stage::Finished,
        completed(s, replies).history == s.history,
    decreases replies_left(s),
{
    if s.stage != Stage::Finished {
        lemma_advance_progress(s, next_reply(replies));
        lemma_unaided_step(s, fen);
        lemma_unaided_end(advance(s, Reply::Failed), fen, later_replies(replies));
    }
}

/// Where every query fails, the analysis is still made and runs to its end:
/// it holds every move that can be replayed, with both evaluations taken
/// from the material count and without a preferred move.
pub proof fn lemma_analysis_without_engine(
    fen: Seq<u8>,
    history: Seq<Seq<u8>>,
    replies: Seq<Reply>,
)
    requires
        all_failed(replies),
    ensures
        completed(started(history, fen), replies).stage == Stage::Finished,
        completed(started(history, fen), replies).moves == unaided_moves(fen, history),
        forall|ply: int|
            0 <= ply < replayable(fen, history) ==> {
                let done = #[trigger] unaided_moves(fen, history)[ply];
                &&& done.evaluation_before == fallback(replayed(fen, history, ply as nat))
                &&& done.evaluation_after == fallback(replayed(fen, history, (ply + 1) as nat))
                &&& done.best_move is None
                &&& done.centipawn_loss >= 0
            },
{
    let s = started(history, fen);
    assert(s.moves =~= Seq::new(s.ply, |ply: int| unaided_move(fen, history, ply)));
    lemma_unaided_end(s, fen, replies);
}

/// Every record of a game names a move that can be played in the position
/// reached by then.
pub open spec fn all_playable(fen: Seq<u8>, history: Seq<Seq<u8>>) -> bool {
    forall|ply: int|
        0 <= ply < history.len() ==> resolved_move(
            replayed(fen, history, ply as nat),
            #[trigger] history[ply],
        ) is Some
}

/// Where every record from `from` on can be played, none is the first that
/// cannot.
proof fn lemma_none_unplayable(fen: Seq<u8>, history: Seq<Seq<u8>>, from: nat)
    requires
        all_playable(fen, history),
        from <= history.len(),
    ensures
        first_unplayable(fen, history, from) == history.len(),
    decreases history.len() - from,
{
    if from < history.len() {
        assert(resolved_move(replayed(fen, history, from), history[from as int]) is Some);
        lemma_none_unplayable(fen, history, from + 1);
    }
}

/// Where every query fails and every record can be played in its turn, the
/// analysis holds one entry for each record, and the evaluations of each are
/// a hundred times the material balance of the position before the move and
/// of the position after it.
pub proof fn lemma_whole_game_without_engine(
    fen: Seq<u8>,
    history: Seq<Seq<u8>>,
    replies: Seq<Reply>,
)
    requires
        all_failed(replies),
        all_playable(fen, history),
    ensures
        completed(started(history, fen), replies).moves.len() == history.len(),
        forall|ply: int|
            0 <= ply < history.len() ==> {
                let done = #[trigger] completed(started(history, fen), replies).moves[ply];
                &&& done.evaluation_before == 100 * material(replayed(fen, history, ply as nat))
                &&& done.evaluation_after == 100 * material(
                    replayed(fen, history, (ply + 1) as nat),
                )
                &&& done.best_move is None
            },
{
    lemma_analysis_without_engine(fen, history, replies);
    lemma_none_unplayable(fen, history, 0);
    let moves = completed(started(history, fen), replies).moves;
    assert forall|ply: int| 0 <= ply < history.len() implies {
        let done = #[trigger] moves[ply];
        &&& done.evaluation_before == 100 * material(replayed(fen, history, ply as nat))
        &&& done.evaluation_after == 100 * material(replayed(fen, history, (ply + 1) as nat))
        &&& done.best_move is None
    } by {
        lemma_material_bounds(replayed(fen, history, ply as nat), 64);
        lemma_material_bounds(replayed(fen, history, (ply + 1) as nat), 64);
        assert(moves[ply] == unaided_moves(fen, history)[ply]);
    }
}

/// Analyses a game from the replies that the engine gave, in the order of the
/// requests: for each move the evaluation before it, the preferred move and
/// the evaluation after it. Queries for which no reply is left count as
/// failed, so that without any reply the analysis rests on material alone.
pub fn analyze_full_game(move_history: Vec<Vec<u8>>, board: Position, replies: &[Reply]) -> (analysis:
    GameAnalysis)
    ensures
        analysis.moves@ == completed(started(views(move_history@), board@), replies@).moves,
        views(analysis.move_notations@) == views(move_history@).take(
            analysis.moves@.len() as int,
        ),
        analysis.well_formed(),
{
    let ghost start = started(views(move_history@), board@);
    let mut analyzer = GameAnalyzer::new(move_history, board);
    let mut used: usize = 0;
    assert(replies@.skip(0) =~= replies@);
    loop
        invariant
            analyzer.well_formed(),
            used <= replies.len(),
            analyzer@.history == start.history,
            completed(analyzer@, replies@.skip(used as int)) == completed(start, replies@),
        ensures
            analyzer.well_formed(),
            analyzer@.history == start.history,
            analyzer@ == completed(start, replies@),
        decreases replies_left(analyzer@),
    {
        match analyzer.request() {
            Request::Nothing => {
                break ;
            },
            _ => {},
        }
        let ghost script = replies@.skip(used as int);
        let reply = if used < replies.len() {
            let reply = replies[used];
            assert(script.skip(1) =~= replies@.skip(used + 1));
            used += 1;
            reply
        } else {
            Reply::Failed
        };
        proof {
            lemma_advance_progress(analyzer@, reply);
        }
        analyzer.handle(reply);
    }
    analyzer.finish()
}

} // verus!
