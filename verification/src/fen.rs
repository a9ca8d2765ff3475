//! The piece-placement field of FEN text: eight ranks of eight squares, a
//! king for each side, and no more pieces a side than a game can have.

use crate::text::{find_byte, index_of};
use vstd::prelude::*;

verus! {

/// The most pieces that a side can have on the board.
pub const SIDE_LIMIT: u8 = 16;

/// How far a placement field has been read.
#[derive(Clone, Copy, Debug, PartialEq, Eq)]
pub struct Layout {
    /// The squares filled in the rank that is being read.
    pub file: u8,
    /// The ranks that have been closed by `/`.
    pub rank: u8,
    /// The white pieces met.
    pub white: u8,
    /// The black pieces met.
    pub black: u8,
    /// Whether a white king was met.
    pub white_king: bool,
    /// Whether a black king was met.
    pub black_king: bool,
}

/// Whether a byte is the letter of a white piece: one of `PNBRQK`.
pub open spec fn is_white_piece(b: u8) -> bool {
    b == 80 || b == 78 || b == 66 || b == 82 || b == 81 || b == 75
}

/// Whether a byte is the letter of a black piece: one of `pnbrqk`.
pub open spec fn is_black_piece(b: u8) -> bool {
    b == 112 || b == 110 || b == 98 || b == 114 || b == 113 || b == 107
}

/// The layout before anything is read.
pub open spec fn empty_layout() -> Layout {
    Layout { file: 0, rank: 0, white: 0, black: 0, white_king: false, black_king: false }
}

/// The layout after one more byte: `/` closes a full rank, a digit from 1 to 8
/// skips that many squares, a piece letter fills one. Nothing else is
/// accepted, nor a ninth square in a rank, a ninth rank, or a seventeenth
/// piece of a side.
pub open spec fn placed(l: Layout, b: u8) -> Option<Layout> {
    if b == 47 {
        if l.file == 8 && l.rank < 7 {
            Some(Layout { file: 0, rank: (l.rank + 1) as u8, ..l })
        } else {
            None
        }
    } else if 49 <= b <= 56 {
        if l.file + (b - 48) <= 8 {
            Some(Layout { file: (l.file + (b - 48)) as u8, ..l })
        } else {
            None
        }
    } else if is_white_piece(b) {
        if l.file < 8 && l.white < SIDE_LIMIT {
            Some(
                Layout {
                    file: (l.file + 1) as u8,
                    white: (l.white + 1) as u8,
                    white_king: l.white_king || b == 75,
                    ..l
                },
            )
        } else {
            None
        }
    } else if is_black_piece(b) {
        if l.file < 8 && l.black < SIDE_LIMIT {
            Some(
                Layout {
                    file: (l.file + 1) as u8,
                    black: (l.black + 1) as u8,
                    black_king: l.black_king || b == 107,
                    ..l
                },
            )
        } else {
            None
        }
    } else {
        None
    }
}

/// The layout after the first `upto` bytes of a text.
pub open spec fn laid(text: Seq<u8>, upto: int) -> Option<Layout>
    decreases upto,
{
    if upto <= 0 {
        Some(empty_layout())
    } else {
        match laid(text, upto - 1) {
            Some(l) => placed(l, text[upto - 1]),
            None => None,
        }
    }
}

/// Whether a layout fills the board and has both kings.
pub open spec fn complete(l: Layout) -> bool {
    l.file == 8 && l.rank == 7 && l.white_king && l.black_king
}

/// Whether a text begins with a placement field that fills the board: the
/// bytes up to the first space, which has to be there, lay out eight full
/// ranks with a king and at most sixteen pieces for each side.
pub open spec fn well_placed(text: Seq<u8>) -> bool {
    let end = index_of(text, 32, 0);
    end < text.len() && match laid(text, end) {
        Some(l) => complete(l),
        None => false,
    }
}

impl Layout {
    /// The counts are within their limits.
    pub open spec fn within(self) -> bool {
        self.file <= 8 && self.rank <= 7 && self.white <= SIDE_LIMIT && self.black <= SIDE_LIMIT
    }

    /// Reads one more byte.
    pub fn place(self, b: u8) -> (next: Option<Layout>)
        requires
            self.within(),
        ensures
            next == placed(self, b),
            next matches Some(l) ==> l.within(),
    {
        if b == 47 {
            if self.file == 8 && self.rank < 7 {
                Some(Layout { file: 0, rank: self.rank + 1, ..self })
            } else {
                None
            }
        } else if 49 <= b && b <= 56 {
            if self.file + (b - 48) <= 8 {
                Some(Layout { file: self.file + (b - 48), ..self })
            } else {
                None
            }
        } else if b == 80 || b == 78 || b == 66 || b == 82 || b == 81 || b == 75 {
            if self.file < 8 && self.white < SIDE_LIMIT {
                Some(
                    Layout {
                        file: self.file + 1,
                        white: self.white + 1,
                        white_king: self.white_king || b == 75,
                        ..self
                    },
                )
            } else {
                None
            }
        } else if b == 112 || b == 110 || b == 98 || b == 114 || b == 113 || b == 107 {
            if self.file < 8 && self.black < SIDE_LIMIT {
                Some(
                    Layout {
                        file: self.file + 1,
                        black: self.black + 1,
                        black_king: self.black_king || b == 107,
                        ..self
                    },
                )
            } else {
                None
            }
        } else {
            None
        }
    }
}

/// Whether a text begins with a placement field that fills the board.
pub fn is_well_placed(text: &[u8]) -> (r: bool)
    ensures
        r == well_placed(text@),
{
    let end: usize = find_byte(text, 32);
    if end >= text.len() {
        return false;
    }
    let mut layout = Layout {
        file: 0,
        rank: 0,
        white: 0,
        black: 0,
        white_king: false,
        black_king: false,
    };
    let mut at: usize = 0;
    while at < end
        invariant
            at <= end < text.len(),
            end == index_of(text@, 32, 0),
            layout.within(),
            laid(text@, at as int) == Some(layout),
        decreases end - at,
    {
        match layout.place(text[at]) {
            Some(next) => {
                layout = next;
            },
            None => {
                proof {
                    lemma_laid_stays_none(text@, at + 1, end as int);
                }
                return false;
            },
        }
        at += 1;
    }
    layout.file == 8 && layout.rank == 7 && layout.white_king && layout.black_king
}

/// Once a byte is refused, the rest of the text cannot mend it.
pub proof fn lemma_laid_stays_none(text: Seq<u8>, from: int, upto: int)
    requires
        0 <= from <= upto,
        laid(text, from) is None,
    ensures
        laid(text, upto) is None,
    decreases upto - from,
{
    if from < upto {
        lemma_laid_stays_none(text, from, upto - 1);
    }
}

} // verus!
