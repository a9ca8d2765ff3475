//! One analysis at a time. The session says whether an analysis may be started
//! and hands its result out once; the analysis itself runs wherever the caller
//! lets it run.

use crate::analysis::GameAnalysis;
use crate::analyzer::{started, GameAnalyzer};
use crate::board::Position;
use crate::text::views;
use vstd::prelude::*;

verus! {

/// Whether a start is taken up: no analysis is running, and there is a move to
/// analysis.
pub open spec fn starts(running: bool, moves: nat) -> bool {
    !running && moves > 0
}

/// Whether a poll hands a result out: an analysis is running, and its result
/// has arrived.
pub open spec fn delivers(running: bool, arrived: bool) -> bool {
    running && arrived
}

/// Whether an analysis is running after a start.
pub open spec fn after_start(running: bool, moves: nat) -> bool {
    running || moves > 0
}

/// Whether an analysis is running after a poll.
pub open spec fn after_poll(running: bool, arrived: bool) -> bool {
    running && !arrived
}

/// The session of analyses. Its view says whether one is running.
pub struct AnalysisSession {
    running: bool,
}

impl View for AnalysisSession {
    type V = bool;

    closed spec fn view(&self) -> bool {
        self.running
    }
}

impl AnalysisSession {
    /// A session in which no analysis is running.
    pub fn new() -> (session: Self)
        ensures
            !session@,
    {
        AnalysisSession { running: false }
    }

    /// Whether an analysis is running.
    pub fn is_running(&self) -> (running: bool)
        ensures
            running == self@,
    {
        self.running
    }

    /// Starts the analysis of the recorded moves `move_history`, played from
    /// `initial` on, and hands out the analyzer that is to make it. Nothing
    /// happens where an analysis is running already or no move is recorded.
    pub fn start(&mut self, move_history: Vec<Vec<u8>>, initial: Position) -> (analyzer: Option<
        GameAnalyzer,
    >)
        ensures
            analyzer is Some == starts(old(self)@, move_history@.len()),
            analyzer matches Some(a) ==> a@ == started(views(move_history@), initial@)
                && a.well_formed(),
            final(self)@ == after_start(old(self)@, move_history@.len()),
    {
        if self.running || move_history.len() == 0 {
            None
        } else {
            self.running = true;
            Some(GameAnalyzer::new(move_history, initial))
        }
    }

    /// Takes in what the running analysis has delivered by now, if anything,
    /// and hands the finished analysis out. After that no analysis is running,
    /// and the session can be started again.
    pub fn poll(&mut self, arrived: Option<GameAnalysis>) -> (analysis: Option<GameAnalysis>)
        ensures
            analysis is Some == delivers(old(self)@, arrived is Some),
            analysis is Some ==> analysis == arrived,
            final(self)@ == after_poll(old(self)@, arrived is Some),
    {
        if !self.running {
            return None;
        }
        match arrived {
            Some(analysis) => {
                self.running = false;
                Some(analysis)
            },
            None => None,
        }
    }
}

/// An analysis is handed out at most once: right after a poll has handed one
/// out, no poll hands anything out, whatever arrives, and a start is taken
/// up again.
pub proof fn lemma_delivered_once(running: bool, arrived: bool, again: bool, moves: nat)
    requires
        delivers(running, arrived),
    ensures
        !delivers(after_poll(running, arrived), again),
        starts(after_poll(running, arrived), moves) == (moves > 0),
{
}

/// While an analysis is running, a start changes nothing, and the analysis keeps
/// running until its result has arrived.
pub proof fn lemma_one_analysis(running: bool, arrived: bool, moves: nat)
    requires
        running,
    ensures
        !starts(running, moves),
        after_start(running, moves),
        after_poll(running, arrived) == !arrived,
{
}

} // verus!
