use chess_analysis::board::{Move, Piece};
use chess_analysis::protocol::{
    acknowledges_isready, acknowledges_uci, ends_search, go_command, isready_command,
    position_command, quit_command, read_bestmove, read_score, uci_command,
};

#[test]
fn commands_are_lines() {
    assert_eq!(uci_command(), b"uci\n".to_vec());
    assert_eq!(isready_command(), b"isready\n".to_vec());
    assert_eq!(quit_command(), b"quit\n".to_vec());
}

#[test]
fn the_position_command_carries_the_fen() {
    assert_eq!(
        position_command(b"rnbqkbnr/pppppppp/8/8/8/8/PPPPPPPP/RNBQKBNR w KQkq - 0 1"),
        b"position fen rnbqkbnr/pppppppp/8/8/8/8/PPPPPPPP/RNBQKBNR w KQkq - 0 1\n".to_vec()
    );
    assert_eq!(position_command(b""), b"position fen \n".to_vec());
}

#[test]
fn the_go_command_carries_the_depth() {
    assert_eq!(go_command(1), b"go depth 1\n".to_vec());
    assert_eq!(go_command(10), b"go depth 10\n".to_vec());
    assert_eq!(go_command(15), b"go depth 15\n".to_vec());
    assert_eq!(go_command(30), b"go depth 30\n".to_vec());
    assert_eq!(go_command(0), b"go depth 0\n".to_vec());
    assert_eq!(go_command(255), b"go depth 255\n".to_vec());
}

#[test]
fn acknowledgements_are_found_in_a_line() {
    assert!(acknowledges_uci(b"uciok\n"));
    assert!(acknowledges_uci(b"uciok"));
    assert!(acknowledges_uci(b"  uciok\r\n"));
    assert!(!acknowledges_uci(b"id name Stockfish 17.1\n"));
    assert!(!acknowledges_uci(b"readyok\n"));
    assert!(!acknowledges_uci(b""));
    assert!(acknowledges_isready(b"readyok\n"));
    assert!(!acknowledges_isready(b"uciok\n"));
    assert!(!acknowledges_isready(b"ready ok\n"));
}

#[test]
fn the_line_that_ends_a_search_begins_with_bestmove() {
    assert!(ends_search(b"bestmove e2e4 ponder e7e5\n"));
    assert!(ends_search(b"bestmove"));
    assert!(!ends_search(b" bestmove e2e4"));
    assert!(!ends_search(b"info depth 1 pv bestmove"));
    assert!(!ends_search(b"best"));
    assert!(!ends_search(b""));
}

#[test]
fn the_best_move_is_the_second_token() {
    let e2e4 = Move { from: 12, to: 28, promotion: None };
    assert_eq!(read_bestmove(b"bestmove e2e4 ponder e7e5\n"), Some(e2e4));
    assert_eq!(read_bestmove(b"bestmove e2e4\n"), Some(e2e4));
    assert_eq!(read_bestmove(b"bestmove   e2e4"), Some(e2e4));
    assert_eq!(
        read_bestmove(b"bestmove a7a8q ponder h7h8\r\n"),
        Some(Move { from: 48, to: 56, promotion: Some(Piece::Queen) })
    );
}

#[test]
fn a_line_without_a_readable_move_gives_none() {
    assert_eq!(read_bestmove(b"bestmove\n"), None);
    assert_eq!(read_bestmove(b"bestmove (none)\n"), None);
    assert_eq!(read_bestmove(b"bestmove 0000\n"), None);
    assert_eq!(read_bestmove(b"bestmove e2\n"), None);
    assert_eq!(read_bestmove(b"bestmove e7e8Q\n"), None);
    assert_eq!(read_bestmove(b"bestmovee2e4\n"), None);
    assert_eq!(read_bestmove(b""), None);
}

#[test]
fn the_score_is_the_token_behind_score_cp() {
    assert_eq!(
        read_score(b"info depth 12 seldepth 18 multipv 1 score cp 35 nodes 4021 pv e2e4\n"),
        Some(35)
    );
    assert_eq!(read_score(b"info depth 3 score cp -120 nodes 5\n"), Some(-120));
    assert_eq!(read_score(b"info score cp 0 upperbound\n"), Some(0));
    assert_eq!(read_score(b"info score cp 12\n"), Some(12));
    assert_eq!(read_score(b"info score cp 12"), Some(12));
    assert_eq!(read_score(b"info score cp +7 x"), Some(7));
}

#[test]
fn the_first_score_field_counts() {
    assert_eq!(read_score(b"info score cp 1 score cp 2\n"), Some(1));
    assert_eq!(read_score(b"info score cp x score cp 2\n"), None);
    assert_eq!(read_score(b"info score score cp 5 z\n"), Some(5));
    assert_eq!(read_score(b"info cp 9 score cp 5 z\n"), Some(5));
}

#[test]
fn lines_without_a_score_give_none() {
    assert_eq!(read_score(b"info depth 5 score mate 3 nodes 100\n"), None);
    assert_eq!(read_score(b"info string NNUE evaluation enabled\n"), None);
    assert_eq!(read_score(b"info depth 5 score cp\n"), None);
    assert_eq!(read_score(b"info depth 5 score\n"), None);
    assert_eq!(read_score(b"info depth 5 cp 35 nodes 3\n"), None);
    assert_eq!(read_score(b"info depth 5 score cp 3.5 nodes 3\n"), None);
    assert_eq!(read_score(b"info depth 5 score cp 99999999999 nodes 3\n"), None);
    assert_eq!(read_score(b"info\n"), None);
    assert_eq!(read_score(b""), None);
}

#[test]
fn only_progress_lines_carry_a_score() {
    assert_eq!(read_score(b"bestmove e2e4 score cp 35 x\n"), None);
    assert_eq!(read_score(b" info score cp 35 x\n"), None);
    assert_eq!(read_score(b"score cp 35 x\n"), None);
}
