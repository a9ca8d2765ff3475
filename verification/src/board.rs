//! Positions and moves. The rules of chess come from the `chess` crate: a
//! `Position` carries a board that the crate read from FEN text, and what the
//! crate computes of such a board is stated over that text.

use crate::fen::{complete, is_well_placed, laid, well_placed};
use crate::text::{find_byte, index_of, same_bytes};
use vstd::prelude::*;
use vstd::slice::slice_subrange;

verus! {

/// The six kinds of chess piece.
#[derive(Clone, Copy, Debug, PartialEq, Eq)]
pub enum Piece {
    Pawn,
    Knight,
    Bishop,
    Rook,
    Queen,
    King,
}

/// The two sides.
#[derive(Clone, Copy, Debug, PartialEq, Eq)]
pub enum Color {
    White,
    Black,
}

/// A move: the squares it leaves and reaches, numbered 0 (a1), 1 (b1), .. 63
/// (h8), and the piece a pawn becomes on the last rank.
#[derive(Clone, Copy, Debug, PartialEq, Eq)]
pub struct Move {
    pub from: u8,
    pub to: u8,
    pub promotion: Option<Piece>,
}

/// `'a'` to `'h'`.
pub open spec fn is_file(b: u8) -> bool {
    97 <= b && b <= 104
}

/// `'1'` to `'8'`.
pub open spec fn is_rank(b: u8) -> bool {
    49 <= b && b <= 56
}

/// The square that `text` begins with: a file letter, then a rank digit.
/// What follows the two bytes is not looked at.
pub open spec fn square_of(text: Seq<u8>) -> Option<u8> {
    if text.len() >= 2 && is_file(text[0]) && is_rank(text[1]) {
        Some(((text[1] - 49) * 8 + (text[0] - 97)) as u8)
    } else {
        None
    }
}

/// The piece that a promotion letter of coordinate notation names.
pub open spec fn promotion_of(b: u8) -> Option<Piece> {
    if b == 113 {
        Some(Piece::Queen)
    } else if b == 114 {
        Some(Piece::Rook)
    } else if b == 110 {
        Some(Piece::Knight)
    } else if b == 98 {
        Some(Piece::Bishop)
    } else {
        None
    }
}

/// The move that `text` writes in compact coordinate notation: two squares,
/// and where the text is five bytes long, one of the letters `q r n b`. A
/// text of six bytes or more is read as its first four.
pub open spec fn coordinate_move(text: Seq<u8>) -> Option<Move> {
    match (square_of(text), square_of(text.skip(2))) {
        (Some(from), Some(to)) => if text.len() == 5 {
            match promotion_of(text[4]) {
                Some(piece) => Some(Move { from, to, promotion: Some(piece) }),
                None => None,
            }
        } else {
            Some(Move { from, to, promotion: None })
        },
        _ => None,
    }
}

/// The move that a record of the form `e2-e4` writes: the square before the
/// first dash and the square after it, without promotion.
pub open spec fn recorded_move(text: Seq<u8>) -> Option<Move> {
    let dash = index_of(text, 45, 0);
    if dash < text.len() {
        match (square_of(text.take(dash)), square_of(text.skip(dash + 1))) {
            (Some(from), Some(to)) => Some(Move { from, to, promotion: None }),
            _ => None,
        }
    } else {
        None
    }
}

/// The two bytes that name a square.
pub open spec fn square_name(square: u8) -> Seq<u8> {
    seq![(97 + square % 8) as u8, (49 + square / 8) as u8]
}

/// The record of a move: its squares with a dash between them.
pub open spec fn move_record(mv: Move) -> Seq<u8> {
    square_name(mv.from) + seq![45u8] + square_name(mv.to)
}

/// Reads a square from the first two bytes of `text`.
pub fn parse_square(text: &[u8]) -> (square: Option<u8>)
    ensures
        square == square_of(text@),
        square matches Some(s) ==> s < 64,
{
    if text.len() < 2 {
        return None;
    }
    let file: u8 = text[0];
    let rank: u8 = text[1];
    if 97 <= file && file <= 104 && 49 <= rank && rank <= 56 {
        Some((rank - 49) * 8 + (file - 97))
    } else {
        None
    }
}

impl Piece {
    /// The piece of a promotion letter.
    pub fn from_promotion_letter(b: u8) -> (piece: Option<Piece>)
        ensures
            piece == promotion_of(b),
    {
        if b == 113 {
            Some(Piece::Queen)
        } else if b == 114 {
            Some(Piece::Rook)
        } else if b == 110 {
            Some(Piece::Knight)
        } else if b == 98 {
            Some(Piece::Bishop)
        } else {
            None
        }
    }

    /// The worth of a piece in pawns.
    pub open spec fn value(self) -> int {
        match self {
            Piece::Pawn => 1,
            Piece::Knight => 3,
            Piece::Bishop => 3,
            Piece::Rook => 5,
            Piece::Queen => 9,
            Piece::King => 0,
        }
    }

    /// The worth of a piece in pawns.
    pub fn pawns(self) -> (v: i32)
        ensures
            v == self.value(),
    {
        match self {
            Piece::Pawn => 1,
            Piece::Knight => 3,
            Piece::Bishop => 3,
            Piece::Rook => 5,
            Piece::Queen => 9,
            Piece::King => 0,
        }
    }

    /// Whether two pieces are of one kind.
    pub fn same(self, other: Piece) -> (r: bool)
        ensures
            r == (self == other),
    {
        match (self, other) {
            (Piece::Pawn, Piece::Pawn) => true,
            (Piece::Knight, Piece::Knight) => true,
            (Piece::Bishop, Piece::Bishop) => true,
            (Piece::Rook, Piece::Rook) => true,
            (Piece::Queen, Piece::Queen) => true,
            (Piece::King, Piece::King) => true,
            _ => false,
        }
    }
}

impl Move {
    /// Both squares are on the board.
    pub open spec fn on_board(self) -> bool {
        self.from < 64 && self.to < 64
    }

    /// Reads a move in compact coordinate notation, as the engine writes it.
    pub fn from_coordinates(text: &[u8]) -> (mv: Option<Move>)
        ensures
            mv == coordinate_move(text@),
            mv matches Some(m) ==> m.on_board(),
    {
        if text.len() < 4 {
            assert(square_of(text@) is None || square_of(text@.skip(2)) is None);
            return None;
        }
        let from = parse_square(text);
        let to = parse_square(slice_subrange(text, 2, text.len()));
        assert(text@.subrange(2, text@.len() as int) == text@.skip(2));
        match (from, to) {
            (Some(from), Some(to)) => {
                if text.len() == 5 {
                    match Piece::from_promotion_letter(text[4]) {
                        Some(piece) => Some(Move { from, to, promotion: Some(piece) }),
                        None => None,
                    }
                } else {
                    Some(Move { from, to, promotion: None })
                }
            },
            _ => None,
        }
    }

    /// Reads a move from a record of the form `e2-e4`.
    pub fn from_record(text: &[u8]) -> (mv: Option<Move>)
        ensures
            mv == recorded_move(text@),
            mv matches Some(m) ==> m.on_board(),
    {
        let dash: usize = find_byte(text, 45);
        if dash >= text.len() {
            return None;
        }
        let from = parse_square(slice_subrange(text, 0, dash));
        let to = parse_square(slice_subrange(text, dash + 1, text.len()));
        assert(text@.subrange(0, dash as int) == text@.take(dash as int));
        assert(text@.subrange(dash + 1, text@.len() as int) == text@.skip(dash + 1));
        match (from, to) {
            (Some(from), Some(to)) => Some(Move { from, to, promotion: None }),
            _ => None,
        }
    }

    /// Writes the record of the move, such as `e2-e4`.
    pub fn record(&self) -> (text: Vec<u8>)
        ensures
            text@ == move_record(*self),
            self.on_board() && self.promotion is None ==> recorded_move(text@) == Some(*self),
    {
        proof {
            if self.on_board() && self.promotion is None {
                lemma_record_round_trip(*self);
            }
        }
        let mut text: Vec<u8> = Vec::new();
        text.push(97 + self.from % 8);
        text.push(49 + self.from / 8);
        text.push(45);
        text.push(97 + self.to % 8);
        text.push(49 + self.to / 8);
        assert(text@ =~= move_record(*self));
        text
    }

    /// Whether two moves are the same.
    pub fn same(&self, other: &Move) -> (r: bool)
        ensures
            r == (*self == *other),
    {
        self.from == other.from && self.to == other.to && match (self.promotion, other.promotion) {
            (None, None) => true,
            (Some(a), Some(b)) => a.same(b),
            _ => false,
        }
    }
}

/// A record that `Move::record` wrote reads back as the move, where the move
/// is on the board and promotes nothing.
pub proof fn lemma_record_round_trip(mv: Move)
    requires
        mv.on_board(),
        mv.promotion is None,
    ensures
        recorded_move(move_record(mv)) == Some(mv),
{
    let text = move_record(mv);
    assert(text.len() == 5);
    assert(text[0] == 97 + mv.from % 8);
    assert(text[1] == 49 + mv.from / 8);
    assert(text[2] == 45);
    assert(text[3] == 97 + mv.to % 8);
    assert(text[4] == 49 + mv.to / 8);
    reveal_with_fuel(index_of, 4);
    assert(index_of(text, 45, 0) == 2);
    assert(text.take(2) =~= square_name(mv.from));
    assert(text.skip(3) =~= square_name(mv.to));
}

/// The board of the `chess` crate, carried as an opaque value.
#[verifier::external_type_specification]
#[verifier::external_body]
pub struct ExBoard(chess::Board);

/// What a board holds, written as FEN: piece placement, side to move,
/// castling rights and en-passant square, in the text that `chess::Board`
/// prints of itself.
pub uninterp spec fn board_fen(board: chess::Board) -> Seq<u8>;

/// The FEN text of the board that `chess::Board::from_str` reads from a text,
/// where it reads one.
pub uninterp spec fn read_fen(text: Seq<u8>) -> Option<Seq<u8>>;

/// The legal moves of the board read from FEN text `fen`, in the order in
/// which `chess::MoveGen::new_legal` yields them.
pub uninterp spec fn legal_moves_of(fen: Seq<u8>) -> Seq<Move>;

/// The FEN text of the board that `chess::Board::make_move_new` gives for the
/// board read from FEN text `fen` and the move `mv`.
pub uninterp spec fn fen_after(fen: Seq<u8>, mv: Move) -> Seq<u8>;

/// The piece that `chess::Board::piece_on` finds on a square of the board read
/// from FEN text `fen`.
pub uninterp spec fn piece_at(fen: Seq<u8>, square: int) -> Option<Piece>;

/// The side that `chess::Board::color_on` finds on a square of the board read
/// from FEN text `fen`.
pub uninterp spec fn color_at(fen: Seq<u8>, square: int) -> Option<Color>;

/// The FEN text of the position from which a game starts.
pub open spec fn initial_fen() -> Seq<u8> {
    crate::text::ascii("rnbqkbnr/pppppppp/8/8/8/8/PPPPPPPP/RNBQKBNR w KQkq - 0 1"@)
}

/// A board that `chess::Board::from_str` built. Only `read_board` and
/// `start_board` make one, so that everything the board holds, what it keeps
/// of pins and checks included, is what the crate derives from the text it
/// prints. Its view is that text.
struct ReadBoard {
    board: chess::Board,
}

impl View for ReadBoard {
    type V = Seq<u8>;

    closed spec fn view(&self) -> Seq<u8> {
        board_fen(self.board)
    }
}

/// Calls `to_string` of `chess::Board`, its `Display`: the FEN text. The
/// result is that text, byte for byte.
#[verifier::external_body]
fn fen_bytes(board: &chess::Board) -> (text: Vec<u8>)
    ensures
        text@ == board_fen(*board),
{
    board.to_string().into_bytes()
}

/// Calls `chess::Board::from_str` through `parse`, on the text with bytes
/// that are no UTF-8 replaced. The crate looks up the king of the side to
/// move before it tests the board, without a bound: the placement field has
/// to put both kings on the board, each piece on a square of its own. The
/// result, where there is one, passed `chess::Board::is_sane`.
#[verifier::external_body]
fn read_board(text: &[u8]) -> (board: Option<ReadBoard>)
    requires
        well_placed(text@),
    ensures
        match board {
            Some(b) => read_fen(text@) == Some(b@),
            None => read_fen(text@) is None,
        },
{
    String::from_utf8_lossy(text).parse::<chess::Board>().ok().map(|board| ReadBoard { board })
}

/// Calls `chess::Board::default`, which reads the board from the FEN text of
/// the starting position; the board prints that text again.
#[verifier::external_body]
fn start_board() -> (board: ReadBoard)
    ensures
        board@ == initial_fen(),
{
    ReadBoard { board: chess::Board::default() }
}

/// Walks `chess::MoveGen::new_legal` and hands out each move with its squares
/// as numbers (`Square::to_int`, always below 64). The generator keeps one
/// entry for each piece that can move and two for en-passant captures, in a
/// list of eighteen that it fills without a bound: the side to move has at
/// most sixteen pieces.
#[verifier::external_body]
fn legal_moves(board: &ReadBoard) -> (moves: Vec<Move>)
    requires
        well_placed(board@),
    ensures
        moves@ == legal_moves_of(board@),
        forall|i: int| 0 <= i < moves.len() ==> (#[trigger] moves[i]).on_board(),
{
    chess::MoveGen::new_legal(&board.board).map(|m| Move {
        from: m.get_source().to_int(),
        to: m.get_dest().to_int(),
        promotion: m.get_promotion().map(|p| match p {
            chess::Piece::Pawn => Piece::Pawn,
            chess::Piece::Knight => Piece::Knight,
            chess::Piece::Bishop => Piece::Bishop,
            chess::Piece::Rook => Piece::Rook,
            chess::Piece::Queen => Piece::Queen,
            chess::Piece::King => Piece::King,
        }),
    }).collect()
}

/// Calls `chess::Board::make_move_new` and prints the board that it gives.
/// The crate panics where the square the move leaves is empty, which a legal
/// move excludes; the squares index `chess::ALL_SQUARES`, whose entry `i` is
/// square `i`.
#[verifier::external_body]
fn text_after(board: &ReadBoard, mv: Move) -> (text: Vec<u8>)
    requires
        well_placed(board@),
        mv.on_board(),
        legal_moves_of(board@).contains(mv),
    ensures
        text@ == fen_after(board@, mv),
{
    let promotion = mv.promotion.map(|p| match p {
        Piece::Pawn => chess::Piece::Pawn,
        Piece::Knight => chess::Piece::Knight,
        Piece::Bishop => chess::Piece::Bishop,
        Piece::Rook => chess::Piece::Rook,
        Piece::Queen => chess::Piece::Queen,
        Piece::King => chess::Piece::King,
    });
    let (from, to) = (chess::ALL_SQUARES[mv.from as usize], chess::ALL_SQUARES[mv.to as usize]);
    board.board.make_move_new(chess::ChessMove::new(from, to, promotion)).to_string().into_bytes()
}

/// Calls `chess::Board::piece_on` for square `square` of `chess::ALL_SQUARES`.
#[verifier::external_body]
fn piece_on(board: &ReadBoard, square: u8) -> (piece: Option<Piece>)
    requires
        square < 64,
    ensures
        piece == piece_at(board@, square as int),
{
    board.board.piece_on(chess::ALL_SQUARES[square as usize]).map(|p| match p {
        chess::Piece::Pawn => Piece::Pawn,
        chess::Piece::Knight => Piece::Knight,
        chess::Piece::Bishop => Piece::Bishop,
        chess::Piece::Rook => Piece::Rook,
        chess::Piece::Queen => Piece::Queen,
        chess::Piece::King => Piece::King,
    })
}

/// Calls `chess::Board::color_on` for square `square` of `chess::ALL_SQUARES`.
#[verifier::external_body]
fn color_on(board: &ReadBoard, square: u8) -> (color: Option<Color>)
    requires
        square < 64,
    ensures
        color == color_at(board@, square as int),
{
    board.board.color_on(chess::ALL_SQUARES[square as usize]).map(|c| match c {
        chess::Color::White => Color::White,
        chess::Color::Black => Color::Black,
    })
}

/// What a square with a piece of a side adds to the material balance, in
/// pawns: the worth of a white piece, minus the worth of a black one, and
/// nothing for a square without a piece or without a side.
pub open spec fn worth(piece: Option<Piece>, color: Option<Color>) -> int {
    match (piece, color) {
        (Some(piece), Some(Color::White)) => piece.value(),
        (Some(piece), Some(Color::Black)) => -piece.value(),
        _ => 0,
    }
}

/// What a square adds to the material balance.
pub fn square_worth(piece: Option<Piece>, color: Option<Color>) -> (pawns: i32)
    ensures
        pawns == worth(piece, color),
        -9 <= pawns <= 9,
{
    match (piece, color) {
        (Some(p), Some(Color::White)) => p.pawns(),
        (Some(p), Some(Color::Black)) => -p.pawns(),
        _ => 0,
    }
}

/// What a square of a position adds to the material balance.
pub open spec fn square_material(fen: Seq<u8>, square: int) -> int {
    worth(piece_at(fen, square), color_at(fen, square))
}

/// The material balance of the squares below `squares`.
pub open spec fn material_below(fen: Seq<u8>, squares: int) -> int
    decreases squares,
{
    if squares <= 0 {
        0
    } else {
        material_below(fen, squares - 1) + square_material(fen, squares - 1)
    }
}

/// The material balance of a position in pawns, White minus Black: pawn 1,
/// knight and bishop 3, rook 5, queen 9, king 0.
pub open spec fn material(fen: Seq<u8>) -> int {
    material_below(fen, 64)
}

/// The material balance lies within what sixty-four queens could give.
pub proof fn lemma_material_bounds(fen: Seq<u8>, squares: int)
    requires
        0 <= squares <= 64,
    ensures
        -9 * squares <= material_below(fen, squares) <= 9 * squares,
    decreases squares,
{
    if squares > 0 {
        lemma_material_bounds(fen, squares - 1);
    }
}

/// The text of the position that a text is read as: the text fills the
/// board, a board is read from it, and what that board prints fills the board
/// too.
pub open spec fn position_of(text: Seq<u8>) -> Option<Seq<u8>> {
    if well_placed(text) {
        match read_fen(text) {
            Some(fen) => if well_placed(fen) {
                Some(fen)
            } else {
                None
            },
            None => None,
        }
    } else {
        None
    }
}

/// A text is the text of a position: it is read as itself.
pub open spec fn held(fen: Seq<u8>) -> bool {
    position_of(fen) == Some(fen)
}

/// A move can be played in a position: it is legal there, and the text of
/// the board that it leads to is the text of a position.
pub open spec fn playable(fen: Seq<u8>, mv: Move) -> bool {
    legal_moves_of(fen).contains(mv) && held(fen_after(fen, mv))
}

/// The move that a record names in a position, if that move can be played
/// there.
pub open spec fn resolved_move(fen: Seq<u8>, record: Seq<u8>) -> Option<Move> {
    match recorded_move(record) {
        Some(mv) => if playable(fen, mv) {
            Some(mv)
        } else {
            None
        },
        None => None,
    }
}

/// The text of the starting position fills the board.
pub proof fn lemma_initial_well_placed()
    ensures
        well_placed(initial_fen()),
{
    reveal_strlit("rnbqkbnr/pppppppp/8/8/8/8/PPPPPPPP/RNBQKBNR w KQkq - 0 1");
    let text = initial_fen();
    assert(text.len() == 56);
    reveal_with_fuel(index_of, 44);
    assert(index_of(text, 32, 0) == 43);
    reveal_with_fuel(laid, 44);
    assert(laid(text, 43) matches Some(l) && complete(l));
}

/// A position of a game: a board that was read from FEN text, with both kings
/// and at most sixteen pieces a side. Its view is its FEN text.
pub struct Position {
    board: ReadBoard,
}

impl View for Position {
    type V = Seq<u8>;

    closed spec fn view(&self) -> Seq<u8> {
        self.board@
    }
}

impl Position {
    #[verifier::type_invariant]
    spec fn placed(self) -> bool {
        well_placed(self.board@)
    }

    /// Keeps a board that was read where its text fills the board.
    fn admitted(board: ReadBoard) -> (position: Option<Position>)
        ensures
            position is Some == well_placed(board@),
            position matches Some(p) ==> p@ == board@,
    {
        let text = fen_bytes(&board.board);
        if is_well_placed(text.as_slice()) {
            Some(Position { board })
        } else {
            None
        }
    }

    /// The position from which a game starts.
    pub fn initial() -> (position: Position)
        ensures
            position@ == initial_fen(),
            well_placed(position@),
    {
        proof {
            lemma_initial_well_placed();
        }
        Position { board: start_board() }
    }

    /// Reads a position from FEN text.
    pub fn from_fen(text: &[u8]) -> (position: Option<Position>)
        ensures
            match position {
                Some(p) => position_of(text@) == Some(p@),
                None => position_of(text@) is None,
            },
    {
        if !is_well_placed(text) {
            return None;
        }
        match read_board(text) {
            Some(board) => Position::admitted(board),
            None => None,
        }
    }

    /// Reads the position whose text is `text`: there is one where the text
    /// is read as itself.
    pub fn from_own_fen(text: &[u8]) -> (position: Option<Position>)
        ensures
            position is Some == held(text@),
            position matches Some(p) ==> p@ == text@,
    {
        match Position::from_fen(text) {
            Some(p) => {
                let own = p.fen();
                if same_bytes(own.as_slice(), text) {
                    assert(own@ =~= text@);
                    Some(p)
                } else {
                    None
                }
            },
            None => None,
        }
    }

    /// The position of a board: the board is read again from the text that it
    /// prints, and kept where it then prints the same text.
    pub fn from_board(board: chess::Board) -> (position: Option<Position>)
        ensures
            position is Some == held(board_fen(board)),
            position matches Some(p) ==> p@ == board_fen(board),
    {
        let text = fen_bytes(&board);
        Position::from_own_fen(text.as_slice())
    }

    /// The board of the position.
    pub fn board(&self) -> (board: &chess::Board)
        ensures
            board_fen(*board) == self@,
    {
        &self.board.board
    }

    /// The FEN text of the position.
    pub fn fen(&self) -> (text: Vec<u8>)
        ensures
            text@ == self@,
            well_placed(self@),
    {
        proof {
            use_type_invariant(self);
        }
        fen_bytes(&self.board.board)
    }

    /// The legal moves of the position.
    pub fn legal_moves(&self) -> (moves: Vec<Move>)
        ensures
            moves@ == legal_moves_of(self@),
            forall|i: int| 0 <= i < moves.len() ==> (#[trigger] moves[i]).on_board(),
    {
        proof {
            use_type_invariant(self);
        }
        legal_moves(&self.board)
    }

    /// Whether a move is legal in the position.
    pub fn is_legal(&self, mv: Move) -> (r: bool)
        ensures
            r == legal_moves_of(self@).contains(mv),
            r ==> mv.on_board(),
    {
        let moves = self.legal_moves();
        contains_move(&moves, mv)
    }

    /// Plays a move: the position that follows, or nothing where the move
    /// cannot be played here.
    pub fn play(&self, mv: Move) -> (next: Option<Position>)
        ensures
            next is Some == playable(self@, mv),
            next matches Some(p) ==> p@ == fen_after(self@, mv),
            next is Some ==> mv.on_board(),
    {
        proof {
            use_type_invariant(self);
        }
        if self.is_legal(mv) {
            let text = text_after(&self.board, mv);
            Position::from_own_fen(text.as_slice())
        } else {
            None
        }
    }

    /// Finds the move that a record of the form `e2-e4` names: the move is
    /// returned where the record reads as two squares and the move between
    /// them, without promotion, can be played here.
    pub fn find_move(&self, record: &[u8]) -> (mv: Option<Move>)
        ensures
            mv == resolved_move(self@, record@),
            mv matches Some(m) ==> m.on_board(),
    {
        match Move::from_record(record) {
            Some(m) => match self.play(m) {
                Some(_) => Some(m),
                None => None,
            },
            None => None,
        }
    }

    /// Counts the material on the board, in pawns, White minus Black.
    pub fn material(&self) -> (balance: i32)
        ensures
            balance == material(self@),
            -576 <= balance <= 576,
    {
        let mut balance: i32 = 0;
        let mut square: u8 = 0;
        while square < 64
            invariant
                square <= 64,
                balance == material_below(self@, square as int),
                -9 * square <= balance <= 9 * square,
            decreases 64 - square,
        {
            let piece = piece_on(&self.board, square);
            let color = color_on(&self.board, square);
            balance = balance + square_worth(piece, color);
            square += 1;
        }
        balance
    }
}

/// Whether `mv` stands in `moves`.
pub fn contains_move(moves: &Vec<Move>, mv: Move) -> (r: bool)
    ensures
        r == moves@.contains(mv),
{
    let mut i: usize = 0;
    while i < moves.len()
        invariant
            i <= moves.len(),
            forall|j: int| 0 <= j < i ==> moves@[j] != mv,
        decreases moves.len() - i,
    {
        if moves[i].same(&mv) {
            return true;
        }
        i += 1;
    }
    false
}

} // verus!
