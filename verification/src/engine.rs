//! The rules-engine adapter: a thin, trusted interface to the external
//! chess rules engine.
//!
//! The engine owns move legality, check, checkmate and stalemate detection;
//! this crate treats it as a collaborator. Each call into it goes through a
//! small trusted wrapper. The squares an engine board holds, its side to
//! move, whether it is plain (no en-passant target, full castling rights),
//! and the outcome of playing a move are given names ([`board_squares`],
//! [`board_white_to_move`], [`board_plain`], [`engine_outcome`]) that the
//! wrappers' contracts share; the verified code around them converts
//! between the engine's board and this crate's [`crate::codec::BoardModel`].

use vstd::prelude::*;

use crate::codec::{Color, Piece, PieceKind};

verus! {

/// Declares the engine's board type so it can stand in signatures and
/// fields; its contents are opaque to the verifier and are spoken of only
/// through the named spec functions below.
#[verifier::external_type_specification]
#[verifier::external_body]
pub struct ExBoard(chess_engine::Board);

/// Declares the engine's board-builder type; opaque, as the board is.
#[verifier::external_type_specification]
#[verifier::external_body]
pub struct ExBoardBuilder(chess_engine::BoardBuilder);

/// The 64 squares an engine board holds, indexed by `row * 8 + col`, each
/// square read as this crate's piece model.
pub uninterp spec fn board_squares(b: chess_engine::Board) -> Seq<Option<Piece>>;

/// Whether white is the side to move on an engine board.
pub uninterp spec fn board_white_to_move(b: chess_engine::Board) -> bool;

/// The 64 squares an engine board builder has been given so far, indexed by
/// `row * 8 + col`.
pub uninterp spec fn builder_squares(b: chess_engine::BoardBuilder) -> Seq<Option<Piece>>;

/// Whether an engine board is plain: no en-passant target and full castling
/// rights for both sides. A board rebuilt from persisted squares is plain;
/// the persisted form keeps neither en-passant nor castling state, a known
/// limitation of the board codec's wire format.
pub uninterp spec fn board_plain(b: chess_engine::Board) -> bool;

/// Whether a builder's board is plain in the sense of [`board_plain`].
pub uninterp spec fn builder_plain(b: chess_engine::BoardBuilder) -> bool;

/// What playing one move does: the engine classifies the move played on
/// the given squares by the given side. On the plain boards this crate
/// plays on (see [`board_plain`]) the classification is deterministic and
/// depends on these arguments alone.
pub uninterp spec fn engine_outcome(
    squares: Seq<Option<Piece>>,
    white_to_move: bool,
    from_row: u8,
    from_col: u8,
    to_row: u8,
    to_col: u8,
) -> MoveOutcome;

/// The classification of one played move, over plain values.
pub enum MoveOutcome {
    /// The move is legal and the game goes on: the board after the move and
    /// the side to move on it.
    Continuing { squares: Seq<Option<Piece>>, white_to_move: bool },
    /// The move is legal and checkmates: the mover wins.
    Victory { winner_white: bool },
    /// The move is legal and the game is drawn.
    Stalemate,
    /// The engine rejects the move.
    Illegal,
}

/// The classification of one played move, carrying the engine's board for a
/// continuing game.
pub enum EngineResult {
    Continuing(chess_engine::Board),
    Victory(Color),
    Stalemate,
    Illegal,
}

impl EngineResult {
    /// The outcome an engine result denotes, with a continuing board read
    /// through its named contents.
    pub open spec fn outcome(self) -> MoveOutcome {
        match self {
            EngineResult::Continuing(b) => MoveOutcome::Continuing {
                squares: board_squares(b),
                white_to_move: board_white_to_move(b),
            },
            EngineResult::Victory(c) => MoveOutcome::Victory { winner_white: c is White },
            EngineResult::Stalemate => MoveOutcome::Stalemate,
            EngineResult::Illegal => MoveOutcome::Illegal,
        }
    }
}

/// The standard chess starting position: white's back rank on row 0, white
/// pawns on row 1, black pawns on row 6, black's back rank on row 7.
pub open spec fn back_rank_kind(col: int) -> PieceKind {
    if col == 0 || col == 7 {
        PieceKind::Rook
    } else if col == 1 || col == 6 {
        PieceKind::Knight
    } else if col == 2 || col == 5 {
        PieceKind::Bishop
    } else if col == 3 {
        PieceKind::Queen
    } else {
        PieceKind::King
    }
}

/// The square at index `i` of the starting position.
pub open spec fn start_square(i: int) -> Option<Piece> {
    let row = i / 8;
    let col = i % 8;
    if row == 0 {
        Some(Piece { color: Color::White, kind: back_rank_kind(col) })
    } else if row == 1 {
        Some(Piece { color: Color::White, kind: PieceKind::Pawn })
    } else if row == 6 {
        Some(Piece { color: Color::Black, kind: PieceKind::Pawn })
    } else if row == 7 {
        Some(Piece { color: Color::Black, kind: back_rank_kind(col) })
    } else {
        None
    }
}

/// The 64 squares of the starting position.
pub open spec fn start_squares() -> Seq<Option<Piece>> {
    Seq::new(64, |i: int| start_square(i))
}

/// Relies on chess_engine::BoardBuilder::default and enable_castling: an
/// empty board, no en-passant target, full castling rights granted.
#[verifier::external_body]
fn builder_plain_empty() -> (bb: chess_engine::BoardBuilder)
    ensures
        builder_squares(bb) == crate::codec::empty_squares(),
        builder_plain(bb),
{
    chess_engine::BoardBuilder::default().enable_castling()
}

/// Relies on chess_engine::BoardBuilder::piece: it places the piece on the
/// square the piece names and leaves the other squares as they are.
#[verifier::external_body]
fn builder_place(bb: chess_engine::BoardBuilder, p: Piece, row: u8, col: u8) -> (r:
    chess_engine::BoardBuilder)
    requires
        row < 8,
        col < 8,
    ensures
        builder_squares(r) == builder_squares(bb).update(row as int * 8 + col as int, Some(p)),
        builder_plain(r) == builder_plain(bb),
{
    let pos = chess_engine::Position::new(row as i32, col as i32);
    let c = if p.color == Color::White { chess_engine::Color::White } else { chess_engine::Color::Black };
    bb.piece(match p.kind {
        PieceKind::Pawn => chess_engine::Piece::Pawn(c, pos),
        PieceKind::Knight => chess_engine::Piece::Knight(c, pos),
        PieceKind::Bishop => chess_engine::Piece::Bishop(c, pos),
        PieceKind::Rook => chess_engine::Piece::Rook(c, pos),
        PieceKind::Queen => chess_engine::Piece::Queen(c, pos),
        PieceKind::King => chess_engine::Piece::King(c, pos),
    })
}

/// Relies on chess_engine::BoardBuilder::build: it returns the board the
/// builder holds, squares unchanged.
#[verifier::external_body]
fn builder_build(bb: chess_engine::BoardBuilder) -> (b: chess_engine::Board)
    ensures
        board_squares(b) == builder_squares(bb),
        builder_plain(bb) ==> board_plain(b),
{
    bb.build()
}

/// Relies on chess_engine::Board::set_turn: it sets the side to move and
/// leaves every square as it is.
#[verifier::external_body]
fn board_set_turn(b: chess_engine::Board, white: bool) -> (r: chess_engine::Board)
    ensures
        board_squares(r) == board_squares(b),
        board_white_to_move(r) == white,
        board_plain(r) == board_plain(b),
{
    b.set_turn(if white { chess_engine::Color::White } else { chess_engine::Color::Black })
}

/// Relies on chess_engine::Board::get_piece: it returns the piece on the
/// given on-board square, or nothing for an empty square.
#[verifier::external_body]
fn board_get_square(b: &chess_engine::Board, row: u8, col: u8) -> (s: Option<Piece>)
    requires
        row < 8,
        col < 8,
    ensures
        s == board_squares(*b)[row as int * 8 + col as int],
{
    let pos = chess_engine::Position::new(row as i32, col as i32);
    b.get_piece(pos).map(|p: chess_engine::Piece| {
        let color = if p.get_color() == chess_engine::Color::White { Color::White } else { Color::Black };
        let kind = match p {
            chess_engine::Piece::Pawn(..) => PieceKind::Pawn,
            chess_engine::Piece::Knight(..) => PieceKind::Knight,
            chess_engine::Piece::Bishop(..) => PieceKind::Bishop,
            chess_engine::Piece::Rook(..) => PieceKind::Rook,
            chess_engine::Piece::Queen(..) => PieceKind::Queen,
            chess_engine::Piece::King(..) => PieceKind::King,
        };
        Piece { color, kind }
    })
}

/// Relies on chess_engine::Board::get_turn_color: it returns the side to
/// move.
#[verifier::external_body]
pub(crate) fn board_turn_white(b: &chess_engine::Board) -> (r: bool)
    ensures
        r == board_white_to_move(*b),
{
    match b.get_turn_color() {
        chess_engine::Color::White => true,
        chess_engine::Color::Black => false,
    }
}

/// Relies on chess_engine::Board::default: the standard starting position
/// with white to move.
#[verifier::external_body]
pub(crate) fn engine_default_board() -> (b: chess_engine::Board)
    ensures
        board_squares(b) == start_squares(),
        board_white_to_move(b),
{
    chess_engine::Board::default()
}

/// Relies on chess_engine::Board::play_move with a piece move between the
/// two given squares: on a plain board the engine classifies the move
/// deterministically from the squares and the side to move alone; a
/// continuing board has 64 squares and the other side to move (it need not
/// be plain: it may carry a fresh en-passant target).
#[verifier::external_body]
pub(crate) fn engine_play_move(
    b: &chess_engine::Board,
    from_row: u8,
    from_col: u8,
    to_row: u8,
    to_col: u8,
) -> (r: EngineResult)
    requires
        board_plain(*b),
    ensures
        r.outcome() == engine_outcome(
            board_squares(*b),
            board_white_to_move(*b),
            from_row,
            from_col,
            to_row,
            to_col,
        ),
        r matches EngineResult::Continuing(nb) ==> board_white_to_move(nb) == !board_white_to_move(
            *b,
        ) && board_squares(nb).len() == 64,
{
    let from = chess_engine::Position::new(from_row as i32, from_col as i32);
    let to = chess_engine::Position::new(to_row as i32, to_col as i32);
    match b.play_move(chess_engine::Move::Piece(from, to)) {
        chess_engine::GameResult::Continuing(nb) => EngineResult::Continuing(nb),
        chess_engine::GameResult::Victory(c) => EngineResult::Victory(
            if c == chess_engine::Color::White { Color::White } else { Color::Black },
        ),
        chess_engine::GameResult::Stalemate => EngineResult::Stalemate,
        chess_engine::GameResult::IllegalMove(_) => EngineResult::Illegal,
    }
}

/// Rebuild an engine board from this crate's board model and a side to move,
/// placing each occupied square on an empty builder.
pub fn engine_board_of(b: &crate::codec::BoardModel, white_to_move: bool) -> (eb: chess_engine::Board)
    requires
        b.wf(),
    ensures
        board_squares(eb) == b@,
        board_white_to_move(eb) == white_to_move,
        board_plain(eb),
{
    let mut bb = builder_plain_empty();
    assert(builder_squares(bb) =~= Seq::new(64, |j: int| if j < 0 { b@[j] } else { None }));
    let mut i: usize = 0;
    while i < 64
        invariant
            b.wf(),
            i <= 64,
            builder_squares(bb) == Seq::new(64, |j: int| if j < i { b@[j] } else { None }),
            builder_plain(bb),
        decreases 64 - i,
    {
        let row = (i / 8) as u8;
        let col = (i % 8) as u8;
        assert(row < 8 && col < 8 && row as int * 8 + col as int == i);
        match b.squares[i] {
            Some(p) => {
                bb = builder_place(bb, p, row, col);
            },
            None => {},
        }
        assert(builder_squares(bb) =~= Seq::new(64, |j: int| if j < i + 1 { b@[j] } else { None }));
        i = i + 1;
    }
    assert(builder_squares(bb) =~= b@);
    board_set_turn(builder_build(bb), white_to_move)
}

/// Read an engine board back into this crate's board model, square by
/// square.
pub fn board_to_model(eb: &chess_engine::Board) -> (b: crate::codec::BoardModel)
    requires
        board_squares(*eb).len() == 64,
    ensures
        b.wf(),
        b@ == board_squares(*eb),
{
    let mut squares: Vec<Option<Piece>> = Vec::new();
    let mut i: usize = 0;
    while i < 64
        invariant
            board_squares(*eb).len() == 64,
            i <= 64,
            squares@.len() == i,
            forall|j: int| 0 <= j < i ==> squares@[j] == board_squares(*eb)[j],
        decreases 64 - i,
    {
        let row = (i / 8) as u8;
        let col = (i % 8) as u8;
        assert(row < 8 && col < 8 && row as int * 8 + col as int == i);
        let s = board_get_square(eb, row, col);
        squares.push(s);
        i = i + 1;
    }
    let b = crate::codec::BoardModel { squares };
    assert(b@ =~= board_squares(*eb));
    b
}

} // verus!
