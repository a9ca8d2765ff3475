//! What an analysis says of a game: the loss of each move in centipawns, its
//! severity, and the accuracy of each side. Evaluations are whole centipawns,
//! seen from White's side.

use crate::board::{move_record, Color, Move};
use vstd::prelude::*;

verus! {

/// The loss from which a move is a blunder.
pub const BLUNDER_LOSS: i32 = 300;

/// The loss from which a move is a mistake.
pub const MISTAKE_LOSS: i32 = 100;

/// The loss from which a move is an inaccuracy.
pub const INACCURACY_LOSS: i32 = 50;

/// The centipawns that the side that moved lost: how far the evaluation
/// fell for White, or rose for Black. A move that improved the evaluation
/// lost nothing, and a loss beyond the range of `i32` is held at its end.
pub open spec fn loss_of(before: int, after: int, side: Color) -> int {
    let lost = match side {
        Color::White => before - after,
        Color::Black => after - before,
    };
    if lost < 0 {
        0
    } else if lost > i32::MAX {
        i32::MAX as int
    } else {
        lost
    }
}

/// A loss of 300 centipawns or more.
pub open spec fn blunder(loss: int) -> bool {
    loss >= BLUNDER_LOSS
}

/// A loss of 100 centipawns or more that is no blunder.
pub open spec fn mistake(loss: int) -> bool {
    MISTAKE_LOSS <= loss < BLUNDER_LOSS
}

/// A loss of 50 centipawns or more that is no mistake and no blunder.
pub open spec fn inaccuracy(loss: int) -> bool {
    INACCURACY_LOSS <= loss < MISTAKE_LOSS
}

/// A loss below 50 centipawns: nothing to remark.
pub open spec fn unremarkable(loss: int) -> bool {
    loss < INACCURACY_LOSS
}

/// The side that makes the move of a ply: White the even ones, Black the odd.
pub open spec fn side_of_ply(ply: int) -> Color {
    if ply % 2 == 0 {
        Color::White
    } else {
        Color::Black
    }
}

/// The side that makes the move of a ply.
pub fn mover(ply: usize) -> (side: Color)
    ensures
        side == side_of_ply(ply as int),
{
    if ply % 2 == 0 {
        Color::White
    } else {
        Color::Black
    }
}

/// The centipawns that a move lost for the side that made it.
pub fn calculate_centipawn_loss(eval_before: i32, eval_after: i32, side_that_moved: Color) -> (loss:
    i32)
    ensures
        loss == loss_of(eval_before as int, eval_after as int, side_that_moved),
        loss >= 0,
{
    let lost: i64 = match side_that_moved {
        Color::White => eval_before as i64 - eval_after as i64,
        Color::Black => eval_after as i64 - eval_before as i64,
    };
    if lost < 0 {
        0
    } else if lost > 0x7fff_ffff {
        0x7fff_ffff
    } else {
        lost as i32
    }
}

/// The three marks of a loss: blunder, mistake, inaccuracy. At most one is set.
pub fn classify_move(centipawn_loss: i32) -> (marks: (bool, bool, bool))
    ensures
        marks.0 == blunder(centipawn_loss as int),
        marks.1 == mistake(centipawn_loss as int),
        marks.2 == inaccuracy(centipawn_loss as int),
{
    let is_blunder: bool = centipawn_loss >= BLUNDER_LOSS;
    let is_mistake: bool = centipawn_loss >= MISTAKE_LOSS;
    let is_inaccuracy: bool = centipawn_loss >= INACCURACY_LOSS;
    (is_blunder, is_mistake && !is_blunder, is_inaccuracy && !is_mistake && !is_blunder)
}

/// Every loss is of exactly one of the four classes, and the bounds are
/// sharp: 299 is a mistake and 300 a blunder, 99 an inaccuracy and 100 a
/// mistake, 49 unremarkable and 50 an inaccuracy.
pub proof fn lemma_severity_partition(loss: int)
    ensures
        blunder(loss) || mistake(loss) || inaccuracy(loss) || unremarkable(loss),
        !(blunder(loss) && mistake(loss)),
        !(blunder(loss) && inaccuracy(loss)),
        !(blunder(loss) && unremarkable(loss)),
        !(mistake(loss) && inaccuracy(loss)),
        !(mistake(loss) && unremarkable(loss)),
        !(inaccuracy(loss) && unremarkable(loss)),
        blunder(loss) <==> loss >= 300,
        mistake(loss) <==> 100 <= loss <= 299,
        inaccuracy(loss) <==> 50 <= loss <= 99,
        unremarkable(loss) <==> loss <= 49,
{
}

/// What the analysis says of one move.
#[derive(Clone, Copy, Debug, PartialEq, Eq)]
pub struct MoveAnalysis {
    /// The move that was played.
    pub chess_move: Move,
    /// The evaluation before the move, in centipawns.
    pub evaluation_before: i32,
    /// The evaluation after the move, in centipawns.
    pub evaluation_after: i32,
    pub centipawn_loss: i32,
    pub is_blunder: bool,
    pub is_mistake: bool,
    pub is_inaccuracy: bool,
    /// The move that the engine preferred, where it could be asked.
    pub best_move: Option<Move>,
}

/// The analysis of the move of a ply, from the two evaluations round it.
pub open spec fn analysed(
    chess_move: Move,
    ply: int,
    before: i32,
    after: i32,
    best_move: Option<Move>,
) -> MoveAnalysis {
    let loss = loss_of(before as int, after as int, side_of_ply(ply));
    MoveAnalysis {
        chess_move,
        evaluation_before: before,
        evaluation_after: after,
        centipawn_loss: loss as i32,
        is_blunder: blunder(loss),
        is_mistake: mistake(loss),
        is_inaccuracy: inaccuracy(loss),
        best_move,
    }
}

impl MoveAnalysis {
    /// The loss is not negative, and the marks are those of the loss.
    pub open spec fn well_formed(self) -> bool {
        &&& self.centipawn_loss >= 0
        &&& self.is_blunder == blunder(self.centipawn_loss as int)
        &&& self.is_mistake == mistake(self.centipawn_loss as int)
        &&& self.is_inaccuracy == inaccuracy(self.centipawn_loss as int)
    }

    /// The record of the move that the engine preferred, such as `e2-e4`,
    /// where it gave one.
    pub fn best_move_notation(&self) -> (text: Option<Vec<u8>>)
        ensures
            match text {
                Some(t) => self.best_move matches Some(m) && t@ == move_record(m),
                None => self.best_move is None,
            },
    {
        match self.best_move {
            Some(m) => Some(m.record()),
            None => None,
        }
    }

    /// Analyses the move of a ply from the evaluations before and after it.
    pub fn new(
        chess_move: Move,
        ply: usize,
        evaluation_before: i32,
        evaluation_after: i32,
        best_move: Option<Move>,
    ) -> (analysis: MoveAnalysis)
        ensures
            analysis == analysed(
                chess_move,
                ply as int,
                evaluation_before,
                evaluation_after,
                best_move,
            ),
            analysis.well_formed(),
    {
        let centipawn_loss = calculate_centipawn_loss(
            evaluation_before,
            evaluation_after,
            mover(ply),
        );
        let marks = classify_move(centipawn_loss);
        MoveAnalysis {
            chess_move,
            evaluation_before,
            evaluation_after,
            centipawn_loss,
            is_blunder: marks.0,
            is_mistake: marks.1,
            is_inaccuracy: marks.2,
            best_move,
        }
    }
}

/// A percentage as an exact fraction: `numerator / denominator` percent.
#[derive(Clone, Copy, Debug, PartialEq, Eq)]
pub struct Accuracy {
    pub numerator: u128,
    pub denominator: u128,
}

impl Accuracy {
    /// A fraction between 0 and 100.
    pub open spec fn well_formed(self) -> bool {
        self.denominator > 0 && self.numerator <= 100 * self.denominator
    }

    /// Exactly one hundred percent.
    pub open spec fn is_full(self) -> bool {
        self.numerator == 100 * self.denominator && self.denominator > 0
    }
}

/// The losses of a list of moves added up, a negative loss counting as none.
pub open spec fn total_loss(moves: Seq<MoveAnalysis>) -> nat
    decreases moves.len(),
{
    if moves.len() == 0 {
        0
    } else {
        let last = moves.last().centipawn_loss;
        total_loss(moves.drop_last()) + if last > 0 {
            last as nat
        } else {
            0
        }
    }
}

/// The accuracy of a side that lost `total` centipawns in `moves` moves: 100
/// less a tenth of the average loss, and not below 0; 100 where it made no
/// move. As a fraction, `(1000 * moves - total) / (10 * moves)`.
pub open spec fn accuracy_of(total: nat, moves: nat) -> Accuracy {
    if moves == 0 {
        Accuracy { numerator: 100, denominator: 1 }
    } else if total >= 1000 * moves {
        Accuracy { numerator: 0, denominator: (10 * moves) as u128 }
    } else {
        Accuracy { numerator: (1000 * moves - total) as u128, denominator: (10 * moves) as u128 }
    }
}

/// The accuracy of the side that made `moves`.
pub open spec fn player_accuracy(moves: Seq<MoveAnalysis>) -> Accuracy {
    accuracy_of(total_loss(moves), moves.len())
}

/// The moves of one side: of a game's moves, every other one, from the
/// first for White (`first` 0) and from the second for Black (`first` 1).
pub open spec fn side_moves(moves: Seq<MoveAnalysis>, first: int) -> Seq<MoveAnalysis> {
    Seq::new(((moves.len() + 1 - first) / 2) as nat, |k: int| moves[2 * k + first])
}

/// The accuracy of the side that made `moves`.
pub fn calculate_player_accuracy(moves: &[MoveAnalysis]) -> (accuracy: Accuracy)
    ensures
        accuracy == player_accuracy(moves@),
        accuracy.well_formed(),
        moves@.len() == 0 ==> accuracy.is_full(),
{
    let n: usize = moves.len();
    if n == 0 {
        return Accuracy { numerator: 100, denominator: 1 };
    }
    let mut total: u128 = 0;
    let mut i: usize = 0;
    assert(moves@.take(0) =~= Seq::<MoveAnalysis>::empty());
    while i < n
        invariant
            i <= n == moves.len(),
            total == total_loss(moves@.take(i as int)),
            total <= i * 0x7fff_ffff,
        decreases n - i,
    {
        let loss: i32 = moves[i].centipawn_loss;
        assert(moves@.take(i + 1).drop_last() =~= moves@.take(i as int));
        assert(moves@.take(i + 1).last() == moves@[i as int]);
        if loss > 0 {
            total = total + loss as u128;
        }
        i += 1;
    }
    assert(moves@.take(n as int) =~= moves@);
    let full: u128 = 1000 * (n as u128);
    if total >= full {
        Accuracy { numerator: 0, denominator: 10 * (n as u128) }
    } else {
        Accuracy { numerator: full - total, denominator: 10 * (n as u128) }
    }
}

/// The accuracy of White and of Black: White made the moves of the even
/// plies, Black those of the odd ones.
pub fn calculate_accuracy(moves: &[MoveAnalysis]) -> (accuracy: (Accuracy, Accuracy))
    ensures
        accuracy.0 == player_accuracy(side_moves(moves@, 0)),
        accuracy.1 == player_accuracy(side_moves(moves@, 1)),
        accuracy.0.well_formed(),
        accuracy.1.well_formed(),
        moves@.len() == 0 ==> accuracy.0.is_full(),
        moves@.len() <= 1 ==> accuracy.1.is_full(),
{
    let mut white_moves: Vec<MoveAnalysis> = Vec::new();
    let mut black_moves: Vec<MoveAnalysis> = Vec::new();
    let mut i: usize = 0;
    while i < moves.len()
        invariant
            i <= moves.len(),
            white_moves@ =~= side_moves(moves@.take(i as int), 0),
            black_moves@ =~= side_moves(moves@.take(i as int), 1),
        decreases moves.len() - i,
    {
        if i % 2 == 0 {
            white_moves.push(moves[i]);
        } else {
            black_moves.push(moves[i]);
        }
        i += 1;
    }
    assert(moves@.take(moves.len() as int) =~= moves@);
    let white_accuracy = calculate_player_accuracy(white_moves.as_slice());
    let black_accuracy = calculate_player_accuracy(black_moves.as_slice());
    (white_accuracy, black_accuracy)
}

/// How many moves of a list carry a mark.
pub open spec fn tally(moves: Seq<MoveAnalysis>, mark: spec_fn(MoveAnalysis) -> bool) -> nat
    decreases moves.len(),
{
    if moves.len() == 0 {
        0
    } else {
        tally(moves.drop_last(), mark) + if mark(moves.last()) {
            1nat
        } else {
            0nat
        }
    }
}

/// The blunders of a list of moves.
pub open spec fn blunders(moves: Seq<MoveAnalysis>) -> nat {
    tally(moves, |m: MoveAnalysis| m.is_blunder)
}

/// The mistakes of a list of moves.
pub open spec fn mistakes(moves: Seq<MoveAnalysis>) -> nat {
    tally(moves, |m: MoveAnalysis| m.is_mistake)
}

/// The inaccuracies of a list of moves.
pub open spec fn inaccuracies(moves: Seq<MoveAnalysis>) -> nat {
    tally(moves, |m: MoveAnalysis| m.is_inaccuracy)
}

/// The analysis of a game.
#[derive(Debug, PartialEq, Eq)]
pub struct GameAnalysis {
    /// The moves, in the order in which they were played.
    pub moves: Vec<MoveAnalysis>,
    /// The record of each move, as the game wrote it, in the same order.
    pub move_notations: Vec<Vec<u8>>,
    pub white_accuracy: Accuracy,
    pub black_accuracy: Accuracy,
    pub total_blunders: usize,
    pub total_mistakes: usize,
    pub total_inaccuracies: usize,
}

/// Every move of a list has a loss that is not negative, and the marks of
/// its loss.
pub open spec fn all_well_formed(moves: Seq<MoveAnalysis>) -> bool {
    forall|i: int| 0 <= i < moves.len() ==> (#[trigger] moves[i]).well_formed()
}

impl GameAnalysis {
    /// The summary is that of the moves.
    pub open spec fn summed_up(&self) -> bool {
        &&& self.white_accuracy == player_accuracy(side_moves(self.moves@, 0))
        &&& self.black_accuracy == player_accuracy(side_moves(self.moves@, 1))
        &&& self.total_blunders == blunders(self.moves@)
        &&& self.total_mistakes == mistakes(self.moves@)
        &&& self.total_inaccuracies == inaccuracies(self.moves@)
    }

    /// Every move is well formed and has its record, and the summary is
    /// that of the moves.
    pub open spec fn well_formed(&self) -> bool {
        &&& all_well_formed(self.moves@)
        &&& self.move_notations@.len() == self.moves@.len()
        &&& self.summed_up()
    }

    /// Sums a list of analysed moves up: the accuracy of each side, and how
    /// many moves carry each mark. The records of the moves are kept as they
    /// are given.
    pub fn summarize(moves: Vec<MoveAnalysis>, move_notations: Vec<Vec<u8>>) -> (analysis:
        GameAnalysis)
        ensures
            analysis.moves@ == moves@,
            analysis.move_notations@ == move_notations@,
            analysis.summed_up(),
            analysis.white_accuracy.well_formed(),
            analysis.black_accuracy.well_formed(),
            moves@.len() == 0 ==> analysis.white_accuracy.is_full(),
            moves@.len() <= 1 ==> analysis.black_accuracy.is_full(),
    {
        let accuracy = calculate_accuracy(moves.as_slice());
        let mut total_blunders: usize = 0;
        let mut total_mistakes: usize = 0;
        let mut total_inaccuracies: usize = 0;
        let mut i: usize = 0;
        assert(moves@.take(0) =~= Seq::<MoveAnalysis>::empty());
        while i < moves.len()
            invariant
                i <= moves.len(),
                total_blunders == blunders(moves@.take(i as int)) <= i,
                total_mistakes == mistakes(moves@.take(i as int)) <= i,
                total_inaccuracies == inaccuracies(moves@.take(i as int)) <= i,
            decreases moves.len() - i,
        {
            assert(moves@.take(i + 1).drop_last() =~= moves@.take(i as int));
            assert(moves@.take(i + 1).last() == moves@[i as int]);
            if moves[i].is_blunder {
                total_blunders += 1;
            }
            if moves[i].is_mistake {
                total_mistakes += 1;
            }
            if moves[i].is_inaccuracy {
                total_inaccuracies += 1;
            }
            i += 1;
        }
        assert(moves@.take(moves.len() as int) =~= moves@);
        GameAnalysis {
            moves,
            move_notations,
            white_accuracy: accuracy.0,
            black_accuracy: accuracy.1,
            total_blunders,
            total_mistakes,
            total_inaccuracies,
        }
    }
}

} // verus!
