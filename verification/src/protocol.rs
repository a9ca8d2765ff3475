//! The lines of the engine protocol: the commands that go out, and what the
//! lines that come back say.

use crate::board::{coordinate_move, Move};
use crate::text::{
    ascii, contains, decimal_digits, format_u8, has_infix, has_prefix, literal, parse_i32,
    parsed_i32, same_bytes, split_tokens, starts_with, tokens, views,
};
use vstd::prelude::*;

verus! {

/// The line feed that ends a command.
pub open spec fn line_end() -> Seq<u8> {
    seq![10u8]
}

/// The command that opens the protocol.
pub open spec fn uci_line() -> Seq<u8> {
    ascii("uci"@) + line_end()
}

/// The command that asks whether the engine is ready.
pub open spec fn isready_line() -> Seq<u8> {
    ascii("isready"@) + line_end()
}

/// The command that ends the engine.
pub open spec fn quit_line() -> Seq<u8> {
    ascii("quit"@) + line_end()
}

/// The command that sets the position to search, given as FEN text.
pub open spec fn position_line(fen: Seq<u8>) -> Seq<u8> {
    ascii("position fen "@) + fen + line_end()
}

/// The command that starts a search to a depth.
pub open spec fn go_line(depth: u8) -> Seq<u8> {
    ascii("go depth "@) + decimal_digits(depth as nat) + line_end()
}

/// The token by which the engine acknowledges `uci`.
pub open spec fn uciok_token() -> Seq<u8> {
    ascii("uciok"@)
}

/// The token by which the engine acknowledges `isready`.
pub open spec fn readyok_token() -> Seq<u8> {
    ascii("readyok"@)
}

/// The marker that begins the line that ends a search.
pub open spec fn bestmove_marker() -> Seq<u8> {
    ascii("bestmove"@)
}

/// The marker that begins a progress line.
pub open spec fn info_marker() -> Seq<u8> {
    ascii("info"@)
}

/// Whether a line ends a search.
pub open spec fn is_bestmove_line(line: Seq<u8>) -> bool {
    starts_with(line, bestmove_marker())
}

/// The move that a line gives as its second token, read in compact coordinate
/// notation; a ponder move that follows is ignored.
pub open spec fn bestmove_of(line: Seq<u8>) -> Option<Move> {
    if tokens(line).len() >= 2 {
        coordinate_move(tokens(line)[1])
    } else {
        None
    }
}

/// The first index from `from` on at which the tokens `score`, `cp` and one
/// more token follow each other, or the number of tokens.
pub open spec fn score_field(tokens: Seq<Seq<u8>>, from: int) -> int
    decreases tokens.len() - from,
{
    if 0 <= from && from + 2 < tokens.len() {
        if tokens[from] == ascii("score"@) && tokens[from + 1] == ascii("cp"@) {
            from
        } else {
            score_field(tokens, from + 1)
        }
    } else {
        tokens.len() as int
    }
}

/// The centipawn score that a progress line reports: the line begins with the
/// info marker, and the token behind its first `score cp` reads as an `i32`.
pub open spec fn info_score(line: Seq<u8>) -> Option<i32> {
    let field = score_field(tokens(line), 0);
    if starts_with(line, info_marker()) && field < tokens(line).len() {
        parsed_i32(tokens(line)[field + 2])
    } else {
        None
    }
}

/// Copies `part` to the end of `line`.
fn append(line: &mut Vec<u8>, part: &[u8])
    ensures
        final(line)@ == old(line)@ + part@,
{
    let ghost before: Seq<u8> = line@;
    let mut i: usize = 0;
    while i < part.len()
        invariant
            i <= part.len(),
            line@ == before + part@.take(i as int),
        decreases part.len() - i,
    {
        line.push(part[i]);
        assert(part@.take(i + 1) =~= part@.take(i as int).push(part@[i as int]));
        i += 1;
    }
    assert(part@.take(part.len() as int) =~= part@);
}

/// Writes the command that opens the protocol.
pub fn uci_command() -> (line: Vec<u8>)
    ensures
        line@ == uci_line(),
{
    proof {
        reveal_strlit("uci");
    }
    let mut line: Vec<u8> = Vec::new();
    append(&mut line, literal("uci"));
    line.push(10);
    line
}

/// Writes the command that asks whether the engine is ready.
pub fn isready_command() -> (line: Vec<u8>)
    ensures
        line@ == isready_line(),
{
    proof {
        reveal_strlit("isready");
    }
    let mut line: Vec<u8> = Vec::new();
    append(&mut line, literal("isready"));
    line.push(10);
    line
}

/// Writes the command that ends the engine.
pub fn quit_command() -> (line: Vec<u8>)
    ensures
        line@ == quit_line(),
{
    proof {
        reveal_strlit("quit");
    }
    let mut line: Vec<u8> = Vec::new();
    append(&mut line, literal("quit"));
    line.push(10);
    line
}

/// Writes the command that sets the position to search.
pub fn position_command(fen: &[u8]) -> (line: Vec<u8>)
    ensures
        line@ == position_line(fen@),
{
    proof {
        reveal_strlit("position fen ");
    }
    let mut line: Vec<u8> = Vec::new();
    append(&mut line, literal("position fen "));
    append(&mut line, fen);
    line.push(10);
    line
}

/// Writes the command that starts a search to a depth.
pub fn go_command(depth: u8) -> (line: Vec<u8>)
    ensures
        line@ == go_line(depth),
{
    proof {
        reveal_strlit("go depth ");
    }
    let mut line: Vec<u8> = Vec::new();
    append(&mut line, literal("go depth "));
    let digits = format_u8(depth);
    append(&mut line, digits.as_slice());
    line.push(10);
    line
}

/// Whether a line holds the token that acknowledges `uci`.
pub fn acknowledges_uci(line: &[u8]) -> (r: bool)
    ensures
        r == contains(line@, uciok_token()),
{
    proof {
        reveal_strlit("uciok");
    }
    has_infix(line, literal("uciok"))
}

/// Whether a line holds the token that acknowledges `isready`.
pub fn acknowledges_isready(line: &[u8]) -> (r: bool)
    ensures
        r == contains(line@, readyok_token()),
{
    proof {
        reveal_strlit("readyok");
    }
    has_infix(line, literal("readyok"))
}

/// Whether a line begins with the best-move marker.
pub fn ends_search(line: &[u8]) -> (r: bool)
    ensures
        r == is_bestmove_line(line@),
{
    proof {
        reveal_strlit("bestmove");
    }
    has_prefix(line, literal("bestmove"))
}

/// Reads the move of a best-move line.
pub fn read_bestmove(line: &[u8]) -> (mv: Option<Move>)
    ensures
        mv == bestmove_of(line@),
        mv matches Some(m) ==> m.on_board(),
{
    let parts = split_tokens(line);
    if parts.len() >= 2 {
        assert(views(parts@)[1] == parts@[1]@);
        Move::from_coordinates(parts[1].as_slice())
    } else {
        None
    }
}

/// Reads the centipawn score of a progress line.
pub fn read_score(line: &[u8]) -> (score: Option<i32>)
    ensures
        score == info_score(line@),
{
    proof {
        reveal_strlit("info");
        reveal_strlit("score");
        reveal_strlit("cp");
    }
    if !has_prefix(line, literal("info")) {
        return None;
    }
    let score_token = literal("score");
    let cp_token = literal("cp");
    let parts = split_tokens(line);
    let n: usize = parts.len();
    let mut at: usize = 0;
    while at < n && n - at > 2
        invariant
            at <= n == parts.len(),
            score_token@ == ascii("score"@),
            cp_token@ == ascii("cp"@),
            starts_with(line@, info_marker()),
            views(parts@) == tokens(line@),
            score_field(tokens(line@), at as int) == score_field(tokens(line@), 0),
        decreases n - at,
    {
        assert(views(parts@)[at as int] == parts@[at as int]@);
        assert(views(parts@)[at + 1] == parts@[at + 1]@);
        assert(views(parts@)[at + 2] == parts@[at + 2]@);
        if same_bytes(parts[at].as_slice(), score_token) && same_bytes(
            parts[at + 1].as_slice(),
            cp_token,
        ) {
            return parse_i32(parts[at + 2].as_slice());
        }
        at += 1;
    }
    None
}

} // verus!
