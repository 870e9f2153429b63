//! Move requests, squares, and the choice of the worker that executes a move.

use vstd::prelude::*;

use crate::error::{self, refuse, OrchestratorError};

verus! {

/// The worker contract that executes a move.
#[derive(Clone, Copy, Debug, PartialEq, Eq, Structural)]
pub enum WorkerKind {
    Pawn,
    Knight,
    Vert,
    Horiz,
    Diag,
    King,
    Castle,
    CastleChallenge,
}

/// A move from one square to another, with the piece asked for on promotion (0 for none).
#[derive(Clone, Copy, Debug, PartialEq, Eq, Structural)]
pub struct MoveSpec {
    pub from_x: i64,
    pub from_y: i64,
    pub to_x: i64,
    pub to_y: i64,
    pub promo_piece: i64,
}

/// The number of the square at file `x` and rank `y`, both counted from zero.
pub open spec fn square(x: int, y: int) -> int {
    y * 8 + x
}

/// Whether all four coordinates lie on the board.
pub open spec fn on_board(mv: MoveSpec) -> bool {
    &&& 0 <= mv.from_x < 8
    &&& 0 <= mv.from_y < 8
    &&& 0 <= mv.to_x < 8
    &&& 0 <= mv.to_y < 8
}

/// The letter of a file: the low byte of `x`, counted from `a`.
pub open spec fn file_letter(x: int) -> char {
    (97 + x % 256) as char
}

/// The digit of a rank: the low byte of `y`, counted from `1`.
pub open spec fn rank_digit(y: int) -> char {
    (49 + y % 256) as char
}

/// Whether a file has a letter: the sum of letter and offset fits in a byte.
pub open spec fn has_file_letter(x: int) -> bool {
    97 + x % 256 <= 255
}

/// Whether a rank has a digit: the sum of digit and offset fits in a byte.
pub open spec fn has_rank_digit(y: int) -> bool {
    49 + y % 256 <= 255
}

/// Whether a move has a label.
pub open spec fn has_label(mv: MoveSpec) -> bool {
    &&& has_file_letter(mv.from_x as int)
    &&& has_rank_digit(mv.from_y as int)
    &&& has_file_letter(mv.to_x as int)
    &&& has_rank_digit(mv.to_y as int)
}

/// The label of a move: file and rank of the source, then of the destination.
pub open spec fn move_label(mv: MoveSpec) -> Seq<char> {
    seq![
        file_letter(mv.from_x as int),
        rank_digit(mv.from_y as int),
        file_letter(mv.to_x as int),
        rank_digit(mv.to_y as int),
    ]
}

/// The letter of a file.
pub fn file_char(x: i64) -> (c: char)
    requires
        has_file_letter(x as int),
    ensures
        c == file_letter(x as int),
{
    let low: u8 = low_byte(x);
    (97 + low) as char
}

/// The digit of a rank.
pub fn rank_char(y: i64) -> (c: char)
    requires
        has_rank_digit(y as int),
    ensures
        c == rank_digit(y as int),
{
    let low: u8 = low_byte(y);
    (49 + low) as char
}

fn low_byte(x: i64) -> (low: u8)
    ensures
        low == (x as int) % 256,
{
    let low: u8 = #[verifier::truncate] (x as u8);
    assert(x as u8 == x % 256) by (bit_vector);
    low
}

impl MoveSpec {
    /// A move without promotion.
    pub fn new(from_x: i64, from_y: i64, to_x: i64, to_y: i64) -> (mv: Self)
        ensures
            mv == (MoveSpec { from_x, from_y, to_x, to_y, promo_piece: 0 }),
    {
        MoveSpec { from_x, from_y, to_x, to_y, promo_piece: 0 }
    }

    /// A move that asks for a promotion piece.
    pub fn with_promotion(
        from_x: i64,
        from_y: i64,
        to_x: i64,
        to_y: i64,
        promo_piece: i64,
    ) -> (mv: Self)
        ensures
            mv == (MoveSpec { from_x, from_y, to_x, to_y, promo_piece }),
    {
        MoveSpec { from_x, from_y, to_x, to_y, promo_piece }
    }

    /// Whether the move has a label.
    pub fn has_letters(self) -> (has: bool)
        ensures
            has == has_label(self),
    {
        low_byte(self.from_x) <= 158 && low_byte(self.from_y) <= 206 && low_byte(self.to_x) <= 158
            && low_byte(self.to_y) <= 206
    }

    /// The label of the move, such as `e2e4`.
    pub fn label(self) -> (text: String)
        requires
            has_label(self),
        ensures
            text@ == move_label(self),
    {
        let mut text = String::new();
        text.push(file_char(self.from_x));
        text.push(rank_char(self.from_y));
        text.push(file_char(self.to_x));
        text.push(rank_char(self.to_y));
        assert(text@ =~= move_label(self));
        text
    }
}

/// The number of the square at file `x` and rank `y`.
pub fn square_idx(x: i64, y: i64) -> (idx: i64)
    requires
        i64::MIN <= y * 8 <= i64::MAX,
        i64::MIN <= square(x as int, y as int) <= i64::MAX,
    ensures
        idx == square(x as int, y as int),
{
    y * 8 + x
}

/// The contract name of a worker.
pub open spec fn worker_name(worker: WorkerKind) -> &'static str {
    match worker {
        WorkerKind::Pawn => "Pawn",
        WorkerKind::Knight => "Knight",
        WorkerKind::Vert => "Vert",
        WorkerKind::Horiz => "Horiz",
        WorkerKind::Diag => "Diag",
        WorkerKind::King => "King",
        WorkerKind::Castle => "Castle",
        WorkerKind::CastleChallenge => "CastleChallengePrep",
    }
}

/// The contract name of a worker.
pub fn worker_actor(worker: WorkerKind) -> (name: &'static str)
    ensures
        name == worker_name(worker),
{
    match worker {
        WorkerKind::Pawn => "Pawn",
        WorkerKind::Knight => "Knight",
        WorkerKind::Vert => "Vert",
        WorkerKind::Horiz => "Horiz",
        WorkerKind::Diag => "Diag",
        WorkerKind::King => "King",
        WorkerKind::Castle => "Castle",
        WorkerKind::CastleChallenge => "CastleChallengePrep",
    }
}

/// The kind of a piece without its colour: black pieces are numbered 8 above white ones.
pub open spec fn piece_kind(piece: u8) -> int {
    if piece > 8 {
        piece - 8
    } else {
        piece as int
    }
}

/// The worker for a move of a piece by `dx` files and `dy` ranks.
pub open spec fn worker_for_piece(kind: int, dx: int, dy: int) -> Result<WorkerKind, Seq<char>> {
    let straight = if dx == 0 {
        Some(WorkerKind::Vert)
    } else if dy == 0 {
        Some(WorkerKind::Horiz)
    } else {
        None
    };
    if kind == 1 {
        Ok(WorkerKind::Pawn)
    } else if kind == 2 {
        Ok(WorkerKind::Knight)
    } else if kind == 3 {
        Ok(WorkerKind::Diag)
    } else if kind == 4 {
        match straight {
            Some(worker) => Ok(worker),
            None => Err("rook move must stay on file or rank"@),
        }
    } else if kind == 5 {
        match straight {
            Some(worker) => Ok(worker),
            None => if dx == dy || dx == -dy {
                Ok(WorkerKind::Diag)
            } else {
                Err("queen move must be straight or diagonal"@)
            },
        }
    } else if kind == 6 {
        if dy == 0 && (dx == 2 || dx == -2) {
            Ok(WorkerKind::Castle)
        } else {
            Ok(WorkerKind::King)
        }
    } else {
        Err("unknown piece kind"@)
    }
}

/// The worker for a move on a board, or why there is none.
pub open spec fn worker_choice(board: Seq<u8>, mv: MoveSpec) -> Result<WorkerKind, Seq<char>> {
    if !on_board(mv) {
        Err("move coordinates must stay on board"@)
    } else {
        let piece = board[square(mv.from_x as int, mv.from_y as int)];
        if piece == 0 {
            Err("no piece on source square"@)
        } else {
            worker_for_piece(piece_kind(piece), mv.to_x - mv.from_x, mv.to_y - mv.from_y)
        }
    }
}

/// Whether the source square of an on-board move exists on the board.
pub open spec fn source_exists(board: Seq<u8>, mv: MoveSpec) -> bool {
    on_board(mv) ==> square(mv.from_x as int, mv.from_y as int) < board.len()
}

/// Chooses the worker for a move.
pub fn determine_worker(
    board: &Vec<u8>,
    mv: MoveSpec,
) -> (worker: Result<WorkerKind, OrchestratorError>)
    requires
        source_exists(board@, mv),
    ensures
        error::verdict(worker) == worker_choice(board@, mv),
{
    if !(0 <= mv.from_x && mv.from_x < 8) || !(0 <= mv.from_y && mv.from_y < 8) || !(0 <= mv.to_x
        && mv.to_x < 8) || !(0 <= mv.to_y && mv.to_y < 8) {
        return Err(refuse("move coordinates must stay on board"));
    }
    let piece: u8 = board[square_idx(mv.from_x, mv.from_y) as usize];
    if piece == 0 {
        return Err(refuse("no piece on source square"));
    }
    let base: u8 = if piece > 8 {
        piece - 8
    } else {
        piece
    };
    let dx: i64 = mv.to_x - mv.from_x;
    let dy: i64 = mv.to_y - mv.from_y;
    match base {
        1 => Ok(WorkerKind::Pawn),
        2 => Ok(WorkerKind::Knight),
        3 => Ok(WorkerKind::Diag),
        4 => {
            if dx == 0 {
                Ok(WorkerKind::Vert)
            } else if dy == 0 {
                Ok(WorkerKind::Horiz)
            } else {
                Err(refuse("rook move must stay on file or rank"))
            }
        },
        5 => {
            if dx == 0 {
                Ok(WorkerKind::Vert)
            } else if dy == 0 {
                Ok(WorkerKind::Horiz)
            } else if dx == dy || dx == -dy {
                Ok(WorkerKind::Diag)
            } else {
                Err(refuse("queen move must be straight or diagonal"))
            }
        },
        6 => {
            if dy == 0 && (dx == 2 || dx == -2) {
                Ok(WorkerKind::Castle)
            } else {
                Ok(WorkerKind::King)
            }
        },
        _ => Err(refuse("unknown piece kind")),
    }
}

/// The worker for the move that proves a castle illegal: a castling king moves as a king.
pub open spec fn challenge_worker_choice(
    board: Seq<u8>,
    mv: MoveSpec,
) -> Result<WorkerKind, Seq<char>> {
    match worker_choice(board, mv) {
        Ok(WorkerKind::Castle) => Ok(WorkerKind::King),
        other => other,
    }
}

/// Chooses the worker for the move that proves a castle illegal.
pub fn determine_challenge_worker(
    board: &Vec<u8>,
    mv: MoveSpec,
) -> (worker: Result<WorkerKind, OrchestratorError>)
    requires
        source_exists(board@, mv),
    ensures
        error::verdict(worker) == challenge_worker_choice(board@, mv),
{
    match determine_worker(board, mv)? {
        WorkerKind::Castle => Ok(WorkerKind::King),
        worker => Ok(worker),
    }
}

/// The back rank of the opening position, as white piece numbers.
pub open spec fn back_rank() -> Seq<u8> {
    seq![4u8, 2, 3, 5, 6, 3, 2, 4]
}

/// The opening position: white's pieces on the first two ranks, black's (numbered 8 above) on the
/// last two, and empty squares between.
pub open spec fn opening_board() -> Seq<u8> {
    Seq::new(
        64,
        |i: int|
            if i < 8 {
                back_rank()[i]
            } else if i < 16 {
                1u8
            } else if i < 48 {
                0u8
            } else if i < 56 {
                9u8
            } else {
                (back_rank()[i - 56] + 8) as u8
            },
    )
}

/// The board on which a game opens.
pub fn standard_board() -> (board: Vec<u8>)
    ensures
        board@ == opening_board(),
{
    let board: Vec<u8> = vec![
        0x04, 0x02, 0x03, 0x05, 0x06, 0x03, 0x02, 0x04, 0x01, 0x01, 0x01, 0x01, 0x01, 0x01, 0x01, 0x01,
        0x00, 0x00, 0x00, 0x00, 0x00, 0x00, 0x00, 0x00, 0x00, 0x00, 0x00, 0x00, 0x00, 0x00, 0x00, 0x00,
        0x00, 0x00, 0x00, 0x00, 0x00, 0x00, 0x00, 0x00, 0x00, 0x00, 0x00, 0x00, 0x00, 0x00, 0x00, 0x00,
        0x09, 0x09, 0x09, 0x09, 0x09, 0x09, 0x09, 0x09, 0x0c, 0x0a, 0x0b, 0x0d, 0x0e, 0x0b, 0x0a, 0x0c,
    ];
    assert(board@ =~= opening_board());
    board
}

} // verus!
