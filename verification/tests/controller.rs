use chess_analysis::board::{Move, Piece, Position};
use chess_analysis::controller::{
    candidate_path, Action, Answer, EngineError, Event, Phase, StockfishController, CANDIDATES,
    HANDSHAKE_TIMEOUT_MS,
};
use std::str::FromStr;

fn line(text: &str) -> Event {
    Event::Line(text.as_bytes().to_vec())
}

fn ready() -> StockfishController {
    let mut c = StockfishController::new();
    c.handle(Event::Launched, 0);
    c.handle(Event::Sent, 0);
    c.handle(line("uciok\n"), 1);
    c.handle(Event::Sent, 2);
    c.handle(line("readyok\n"), 3);
    assert_eq!(c.phase(), Phase::Ready);
    c
}

fn searching(c: &mut StockfishController, best: bool, position: &Position, depth: u8) {
    let accepted =
        if best { c.get_best_move(position, depth) } else { c.get_evaluation(position, depth) };
    assert!(accepted);
    c.handle(Event::Sent, 0);
    c.handle(Event::Sent, 0);
    assert_eq!(c.phase(), Phase::Searching);
}

const START: &str = "rnbqkbnr/pppppppp/8/8/8/8/PPPPPPPP/RNBQKBNR w KQkq - 0 1";

#[test]
fn the_candidates_are_four_places() {
    assert_eq!(CANDIDATES, 4);
    assert_eq!(candidate_path(0), Some("stockfish.exe"));
    assert_eq!(candidate_path(1), Some("stockfish"));
    assert_eq!(candidate_path(2), Some(".\\stockfish.exe"));
    assert_eq!(candidate_path(3), Some("C:\\stockfish\\stockfish.exe"));
    assert_eq!(candidate_path(4), None);
    assert_eq!(candidate_path(usize::MAX), None);
}

#[test]
fn a_new_controller_launches_the_first_candidate() {
    let c = StockfishController::new();
    assert_eq!(c.phase(), Phase::Launching);
    assert_eq!(c.action(), Action::Launch(0));
}

#[test]
fn the_handshake_is_uci_then_isready() {
    let mut c = StockfishController::new();
    c.handle(Event::Launched, 100);
    assert_eq!(c.action(), Action::Send(b"uci\n".to_vec()));
    c.handle(Event::Sent, 100);
    assert_eq!(c.phase(), Phase::AwaitingUciOk);
    assert_eq!(c.action(), Action::ReadLine(Some(100 + HANDSHAKE_TIMEOUT_MS)));
    c.handle(line("id name Stockfish 17.1\n"), 101);
    assert_eq!(c.phase(), Phase::AwaitingUciOk);
    c.handle(line("option name Hash type spin\n"), 102);
    assert_eq!(c.action(), Action::ReadLine(Some(100 + HANDSHAKE_TIMEOUT_MS)));
    c.handle(line("uciok\n"), 103);
    assert_eq!(c.action(), Action::Send(b"isready\n".to_vec()));
    c.handle(Event::Sent, 104);
    assert_eq!(c.phase(), Phase::AwaitingReadyOk);
    assert_eq!(c.action(), Action::ReadLine(Some(104 + HANDSHAKE_TIMEOUT_MS)));
    c.handle(line("uciok\n"), 105);
    assert_eq!(c.phase(), Phase::AwaitingReadyOk);
    c.handle(line("readyok\n"), 106);
    assert_eq!(c.phase(), Phase::Ready);
    assert_eq!(c.action(), Action::Idle);
    assert_eq!(c.take_outcome(), None);
}

#[test]
fn a_candidate_that_does_not_start_gives_way_to_the_next() {
    let mut c = StockfishController::new();
    c.handle(Event::LaunchFailed, 0);
    assert_eq!(c.action(), Action::Launch(1));
    c.handle(Event::LaunchFailed, 0);
    assert_eq!(c.action(), Action::Launch(2));
    c.handle(Event::Launched, 0);
    assert_eq!(c.phase(), Phase::SendingUci);
}

#[test]
fn start_up_fails_with_a_spawn_error_where_nothing_starts() {
    let mut c = StockfishController::new();
    for _ in 0..4 {
        assert_eq!(c.phase(), Phase::Launching);
        c.handle(Event::LaunchFailed, 0);
    }
    assert_eq!(c.phase(), Phase::Failed);
    assert_eq!(c.action(), Action::GiveUp(EngineError::Spawn));
    c.handle(Event::Launched, 0);
    assert_eq!(c.action(), Action::GiveUp(EngineError::Spawn));
}

#[test]
fn start_up_fails_with_the_last_error_seen() {
    let mut c = StockfishController::new();
    c.handle(Event::LaunchFailed, 0);
    c.handle(Event::LaunchFailed, 0);
    c.handle(Event::LaunchFailed, 0);
    c.handle(Event::Launched, 0);
    c.handle(Event::Sent, 1000);
    c.handle(line("hello\n"), 1000 + HANDSHAKE_TIMEOUT_MS + 1);
    assert_eq!(c.action(), Action::GiveUp(EngineError::HandshakeTimeout));

    let mut c = StockfishController::new();
    for _ in 0..3 {
        c.handle(Event::Launched, 0);
        c.handle(Event::SendFailed, 0);
    }
    c.handle(Event::LaunchFailed, 0);
    assert_eq!(c.action(), Action::GiveUp(EngineError::Spawn));

    let mut c = StockfishController::new();
    for _ in 0..4 {
        c.handle(Event::Launched, 0);
        c.handle(Event::Sent, 0);
        c.handle(Event::Closed, 0);
    }
    assert_eq!(c.action(), Action::GiveUp(EngineError::StreamClosed));
}

#[test]
fn a_line_over_the_bound_that_does_not_acknowledge_times_out() {
    let mut c = StockfishController::new();
    c.handle(Event::Launched, 0);
    c.handle(Event::Sent, 7000);
    c.handle(line("id name x\n"), 7000 + HANDSHAKE_TIMEOUT_MS);
    assert_eq!(c.phase(), Phase::AwaitingUciOk);
    c.handle(line("id author y\n"), 7000 + HANDSHAKE_TIMEOUT_MS + 1);
    assert_eq!(c.action(), Action::Launch(1));
}

#[test]
fn the_bound_starts_anew_for_isready() {
    let mut c = StockfishController::new();
    c.handle(Event::Launched, 0);
    c.handle(Event::Sent, 0);
    c.handle(line("uciok\n"), 4000);
    c.handle(Event::Sent, 4000);
    c.handle(line("still loading\n"), 8999);
    assert_eq!(c.phase(), Phase::AwaitingReadyOk);
    c.handle(line("still loading\n"), 9001);
    assert_eq!(c.action(), Action::Launch(1));
}

#[test]
fn an_acknowledgement_counts_whenever_it_comes() {
    let mut c = StockfishController::new();
    c.handle(Event::Launched, 0);
    c.handle(Event::Sent, 1000);
    c.handle(line("uciok\n"), 1000 + HANDSHAKE_TIMEOUT_MS);
    assert_eq!(c.phase(), Phase::SendingIsReady);
    c.handle(Event::Sent, 6000);
    c.handle(line("readyok\n"), 6000 + HANDSHAKE_TIMEOUT_MS);
    assert_eq!(c.phase(), Phase::Ready);
}

#[test]
fn an_acknowledgement_after_the_bound_times_out() {
    let mut c = StockfishController::new();
    c.handle(Event::Launched, 0);
    c.handle(Event::Sent, 0);
    c.handle(line("uciok\n"), 60_000);
    assert_eq!(c.phase(), Phase::Launching);
    assert_eq!(c.action(), Action::Launch(1));
    c.handle(Event::Launched, 60_000);
    c.handle(Event::Sent, 60_000);
    c.handle(line("uciok\n"), 60_001);
    c.handle(Event::Sent, 60_002);
    c.handle(line("readyok\n"), 60_003 + HANDSHAKE_TIMEOUT_MS);
    assert_eq!(c.action(), Action::Launch(2));
    for _ in 0..2 {
        c.handle(Event::Launched, 0);
        c.handle(Event::Sent, 0);
        c.handle(line("uciok\n"), HANDSHAKE_TIMEOUT_MS + 1);
    }
    assert_eq!(c.action(), Action::GiveUp(EngineError::HandshakeTimeout));
}

#[test]
fn a_silent_engine_times_out() {
    let mut c = StockfishController::new();
    c.handle(Event::Launched, 0);
    c.handle(Event::Sent, 250);
    assert_eq!(c.action(), Action::ReadLine(Some(250 + HANDSHAKE_TIMEOUT_MS)));
    assert_eq!(c.deadline(), 5250);
    c.handle(Event::TimedOut, 5251);
    assert_eq!(c.action(), Action::Launch(1));
    c.handle(Event::Launched, 6000);
    c.handle(Event::Sent, 6000);
    c.handle(line("uciok\n"), 6100);
    c.handle(Event::Sent, 6200);
    assert_eq!(c.action(), Action::ReadLine(Some(11_200)));
    c.handle(Event::TimedOut, 11_201);
    assert_eq!(c.action(), Action::Launch(2));
    for _ in 0..2 {
        c.handle(Event::Launched, 0);
        c.handle(Event::Sent, 0);
        c.handle(Event::TimedOut, 5001);
    }
    assert_eq!(c.phase(), Phase::Failed);
    assert_eq!(c.action(), Action::GiveUp(EngineError::HandshakeTimeout));
}

#[test]
fn a_deadline_stops_at_the_end_of_the_clock() {
    let mut c = StockfishController::new();
    c.handle(Event::Launched, 0);
    c.handle(Event::Sent, u64::MAX - 10);
    assert_eq!(c.action(), Action::ReadLine(Some(u64::MAX)));
    c.handle(line("uciok\n"), u64::MAX);
    assert_eq!(c.phase(), Phase::SendingIsReady);
}

#[test]
fn a_search_is_read_without_a_deadline() {
    let mut c = ready();
    searching(&mut c, true, &Position::initial(), 12);
    assert_eq!(c.action(), Action::ReadLine(None));
    c.handle(Event::TimedOut, u64::MAX);
    assert_eq!(c.phase(), Phase::Searching);
    c.handle(line("info depth 1 score cp 20\n"), u64::MAX);
    assert_eq!(c.phase(), Phase::Searching);
}

#[test]
fn a_clock_that_runs_backwards_times_nothing_out() {
    let mut c = StockfishController::new();
    c.handle(Event::Launched, 0);
    c.handle(Event::Sent, 10_000);
    c.handle(line("x\n"), 3);
    assert_eq!(c.phase(), Phase::AwaitingUciOk);
}

#[test]
fn a_closed_stream_or_a_failed_read_gives_the_candidate_up() {
    let mut c = StockfishController::new();
    c.handle(Event::Launched, 0);
    c.handle(Event::Sent, 0);
    c.handle(Event::ReadFailed, 0);
    assert_eq!(c.action(), Action::Launch(1));
    c.handle(Event::Launched, 0);
    c.handle(Event::Sent, 0);
    c.handle(line("uciok\n"), 0);
    c.handle(Event::SendFailed, 0);
    assert_eq!(c.action(), Action::Launch(2));
    c.handle(Event::Launched, 0);
    c.handle(Event::Sent, 0);
    c.handle(line("uciok\n"), 0);
    c.handle(Event::Sent, 0);
    c.handle(Event::Closed, 0);
    assert_eq!(c.action(), Action::Launch(3));
}

#[test]
fn events_that_are_not_awaited_change_nothing() {
    let mut c = StockfishController::new();
    c.handle(Event::Sent, 0);
    c.handle(line("uciok\n"), 0);
    c.handle(Event::Closed, 0);
    assert_eq!(c.action(), Action::Launch(0));
    c.handle(Event::Launched, 0);
    c.handle(Event::Launched, 0);
    c.handle(line("uciok\n"), 0);
    assert_eq!(c.phase(), Phase::SendingUci);
    let mut c = ready();
    c.handle(line("bestmove e2e4\n"), 0);
    c.handle(Event::Closed, 0);
    c.handle(Event::SendFailed, 0);
    assert_eq!(c.phase(), Phase::Ready);
    assert_eq!(c.take_outcome(), None);
}

#[test]
fn a_query_is_refused_until_the_engine_is_ready() {
    let position = Position::initial();
    let mut c = StockfishController::new();
    assert!(!c.get_best_move(&position, 10));
    assert!(!c.get_evaluation(&position, 10));
    assert_eq!(c.action(), Action::Launch(0));
    for _ in 0..4 {
        c.handle(Event::LaunchFailed, 0);
    }
    assert!(!c.get_best_move(&position, 10));
    assert_eq!(c.phase(), Phase::Failed);
}

#[test]
fn a_query_sends_the_position_and_the_depth() {
    let position = Position::initial();
    let mut c = ready();
    assert!(c.get_best_move(&position, 12));
    assert_eq!(c.phase(), Phase::SendingPosition);
    assert_eq!(c.action(), Action::Send(format!("position fen {}\n", START).into_bytes()));
    c.handle(Event::Sent, 0);
    assert_eq!(c.action(), Action::Send(b"go depth 12\n".to_vec()));
    c.handle(Event::Sent, 0);
    assert_eq!(c.action(), Action::ReadLine(None));
}

#[test]
fn one_query_is_in_flight_at_a_time() {
    let position = Position::initial();
    let mut c = ready();
    assert!(c.get_best_move(&position, 12));
    assert!(!c.get_best_move(&position, 12));
    assert!(!c.get_evaluation(&position, 12));
    c.handle(Event::Sent, 0);
    assert!(!c.get_evaluation(&position, 12));
    c.handle(Event::Sent, 0);
    assert!(!c.get_best_move(&position, 12));
    assert_eq!(c.action(), Action::ReadLine(None));
    c.handle(line("bestmove e2e4\n"), 0);
    assert!(c.get_evaluation(&position, 3));
    assert_eq!(c.take_outcome(), None);
}

#[test]
fn the_best_move_is_handed_out_once() {
    let position = Position::initial();
    let mut c = ready();
    searching(&mut c, true, &position, 10);
    c.handle(line("info depth 1 score cp 30 pv e2e4\n"), 0);
    assert_eq!(c.phase(), Phase::Searching);
    assert_eq!(c.take_outcome(), None);
    c.handle(line("bestmove e2e4 ponder e7e5\n"), 0);
    assert_eq!(c.phase(), Phase::Ready);
    assert_eq!(c.action(), Action::Idle);
    assert_eq!(
        c.take_outcome(),
        Some(Ok(Answer::BestMove(Move { from: 12, to: 28, promotion: None })))
    );
    assert_eq!(c.take_outcome(), None);
}

#[test]
fn a_search_waits_as_long_as_it_takes() {
    let position = Position::initial();
    let mut c = ready();
    searching(&mut c, true, &position, 30);
    c.handle(line("info depth 29\n"), u64::MAX);
    assert_eq!(c.phase(), Phase::Searching);
    c.handle(line("bestmove g1f3\n"), u64::MAX);
    assert_eq!(
        c.take_outcome(),
        Some(Ok(Answer::BestMove(Move { from: 6, to: 21, promotion: None })))
    );
}

#[test]
fn a_move_that_is_not_legal_is_a_protocol_error() {
    let position = Position::initial();
    for answer in ["bestmove e2e5\n", "bestmove e7e5\n", "bestmove e1g1\n", "bestmove a7a8q\n"] {
        let mut c = ready();
        searching(&mut c, true, &position, 10);
        c.handle(line(answer), 0);
        assert_eq!(c.take_outcome(), Some(Err(EngineError::Protocol)));
        assert_eq!(c.phase(), Phase::Ready);
    }
}

#[test]
fn a_move_that_cannot_be_read_is_a_protocol_error() {
    let position = Position::initial();
    for answer in ["bestmove\n", "bestmove (none)\n", "bestmove 0000\n", "bestmove e2\n"] {
        let mut c = ready();
        searching(&mut c, true, &position, 10);
        c.handle(line(answer), 0);
        assert_eq!(c.take_outcome(), Some(Err(EngineError::Protocol)));
    }
}

#[test]
fn a_promotion_is_a_best_move() {
    let board = chess::Board::from_str("8/4P3/8/8/8/8/k7/7K w - - 0 1").unwrap();
    let position = Position::from_board(board).unwrap();
    let mut c = ready();
    searching(&mut c, true, &position, 10);
    c.handle(line("bestmove e7e8q\n"), 0);
    assert_eq!(
        c.take_outcome(),
        Some(Ok(Answer::BestMove(Move { from: 52, to: 60, promotion: Some(Piece::Queen) })))
    );
    searching(&mut c, true, &position, 10);
    c.handle(line("bestmove e7e8\n"), 0);
    assert_eq!(c.take_outcome(), Some(Err(EngineError::Protocol)));
}

#[test]
fn a_stream_that_ends_during_a_query_fails_it() {
    let position = Position::initial();
    let mut c = ready();
    searching(&mut c, true, &position, 10);
    c.handle(Event::Closed, 0);
    assert_eq!(c.take_outcome(), Some(Err(EngineError::StreamClosed)));
    searching(&mut c, false, &position, 10);
    c.handle(Event::ReadFailed, 0);
    assert_eq!(c.take_outcome(), Some(Err(EngineError::StreamClosed)));
    assert!(c.get_best_move(&position, 10));
    c.handle(Event::SendFailed, 0);
    assert_eq!(c.phase(), Phase::Ready);
    assert_eq!(c.take_outcome(), Some(Err(EngineError::StreamClosed)));
    assert!(c.get_evaluation(&position, 10));
    c.handle(Event::Sent, 0);
    c.handle(Event::SendFailed, 0);
    assert_eq!(c.take_outcome(), Some(Err(EngineError::StreamClosed)));
}

#[test]
fn the_evaluation_is_the_last_score_seen() {
    let position = Position::initial();
    let mut c = ready();
    searching(&mut c, false, &position, 15);
    c.handle(line("info depth 1 seldepth 1 score cp 12 nodes 20 pv e2e4\n"), 0);
    c.handle(line("info depth 2 seldepth 2 score cp -45 nodes 60 pv d2d4\n"), 0);
    c.handle(line("info string something\n"), 0);
    c.handle(line("info depth 3 seldepth 4 score cp 31 nodes 200 pv e2e4\n"), 0);
    c.handle(line("info depth 4 currmove e2e4 currmovenumber 1\n"), 0);
    assert_eq!(c.take_outcome(), None);
    c.handle(line("bestmove e2e4 ponder e7e5\n"), 0);
    assert_eq!(c.take_outcome(), Some(Ok(Answer::Evaluation(31))));
    assert_eq!(c.take_outcome(), None);
}

#[test]
fn the_evaluation_is_zero_where_no_score_was_seen() {
    let position = Position::initial();
    let mut c = ready();
    searching(&mut c, false, &position, 15);
    c.handle(line("info depth 5 score mate 2 pv e2e4\n"), 0);
    c.handle(line("bestmove e2e4\n"), 0);
    assert_eq!(c.take_outcome(), Some(Ok(Answer::Evaluation(0))));
}

#[test]
fn the_score_of_one_query_is_not_carried_into_the_next() {
    let position = Position::initial();
    let mut c = ready();
    searching(&mut c, false, &position, 15);
    c.handle(line("info depth 1 score cp 77 nodes 1\n"), 0);
    c.handle(line("bestmove e2e4\n"), 0);
    assert_eq!(c.take_outcome(), Some(Ok(Answer::Evaluation(77))));
    searching(&mut c, false, &position, 15);
    c.handle(line("bestmove e2e4\n"), 0);
    assert_eq!(c.take_outcome(), Some(Ok(Answer::Evaluation(0))));
}

#[test]
fn an_evaluation_query_ends_on_any_best_move_line() {
    let position = Position::initial();
    let mut c = ready();
    searching(&mut c, false, &position, 15);
    c.handle(line("info depth 1 score cp -8 nodes 1\n"), 0);
    c.handle(line("bestmove (none)\n"), 0);
    assert_eq!(c.take_outcome(), Some(Ok(Answer::Evaluation(-8))));
}

#[test]
fn the_same_position_twice_gives_two_results() {
    let position = Position::initial();
    let mut c = ready();
    searching(&mut c, false, &position, 15);
    c.handle(line("info depth 1 score cp 20 nodes 1\n"), 0);
    c.handle(line("bestmove e2e4\n"), 0);
    let first = c.take_outcome();
    searching(&mut c, false, &position, 15);
    c.handle(line("info depth 1 score cp 25 nodes 1\n"), 0);
    c.handle(line("bestmove e2e4\n"), 0);
    let second = c.take_outcome();
    assert_eq!(first, Some(Ok(Answer::Evaluation(20))));
    assert_eq!(second, Some(Ok(Answer::Evaluation(25))));
}

#[test]
fn a_result_that_was_not_taken_is_dropped_by_the_next_query() {
    let position = Position::initial();
    let mut c = ready();
    searching(&mut c, true, &position, 10);
    c.handle(line("bestmove e2e4\n"), 0);
    searching(&mut c, true, &position, 10);
    assert_eq!(c.take_outcome(), None);
    c.handle(line("bestmove d2d4\n"), 0);
    assert_eq!(
        c.take_outcome(),
        Some(Ok(Answer::BestMove(Move { from: 11, to: 27, promotion: None })))
    );
}
