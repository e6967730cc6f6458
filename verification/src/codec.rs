//! The board codec: a logical 8x8 board packed into a 256-bit value.
//!
//! Squares are indexed by `index = row * 8 + col` with `row, col` in `[0, 8)`.
//! Each square occupies a 4-bit field at bit offset `index * 4` of the packed
//! value: bits 0-2 hold a piece-type code (1 = pawn, 2 = knight, 3 = bishop,
//! 4 = rook, 5 = queen, 6 = king; 0 = empty), bit 3 holds the color
//! (0 = white, 1 = black), meaningful only when the type code is non-zero.
//! The packed value is the stable wire format for off-system viewers.

use vstd::prelude::*;

verus! {

/// The side a piece belongs to.
#[derive(Clone, Copy, Debug, PartialEq, Eq, Structural)]
pub enum Color {
    White,
    Black,
}

/// The type of a chess piece.
#[derive(Clone, Copy, Debug, PartialEq, Eq, Structural)]
pub enum PieceKind {
    Pawn,
    Knight,
    Bishop,
    Rook,
    Queen,
    King,
}

/// One piece: its color and its type. The square it stands on is given by
/// its index in a [`BoardModel`].
#[derive(Clone, Copy, Debug, PartialEq, Eq, Structural)]
pub struct Piece {
    pub color: Color,
    pub kind: PieceKind,
}

/// A logical 8x8 board: 64 squares, each empty or holding one piece,
/// indexed by `row * 8 + col`.
#[derive(Clone, Debug)]
pub struct BoardModel {
    pub squares: Vec<Option<Piece>>,
}

impl View for BoardModel {
    type V = Seq<Option<Piece>>;

    open spec fn view(&self) -> Seq<Option<Piece>> {
        self.squares@
    }
}

impl BoardModel {
    /// A board is well formed when it has exactly 64 squares.
    pub open spec fn wf(&self) -> bool {
        self.squares@.len() == 64
    }

    /// A board with all 64 squares empty.
    pub fn empty() -> (b: BoardModel)
        ensures
            b.wf(),
            b@ =~= empty_squares(),
    {
        let mut squares: Vec<Option<Piece>> = Vec::new();
        let mut i: usize = 0;
        while i < 64
            invariant
                i <= 64,
                squares@.len() == i,
                forall|j: int| 0 <= j < i ==> squares@[j] is None,
            decreases 64 - i,
        {
            squares.push(None);
            i = i + 1;
        }
        BoardModel { squares }
    }

    /// Read the square at `row * 8 + col`.
    pub fn square_at(&self, row: u8, col: u8) -> (s: Option<Piece>)
        requires
            self.wf(),
            row < 8,
            col < 8,
        ensures
            s == self@[row as int * 8 + col as int],
    {
        self.squares[row as usize * 8 + col as usize]
    }

    /// Replace the square at `row * 8 + col`.
    pub fn set_square(&mut self, row: u8, col: u8, s: Option<Piece>)
        requires
            old(self).wf(),
            row < 8,
            col < 8,
        ensures
            final(self).wf(),
            final(self)@ == old(self)@.update(row as int * 8 + col as int, s),
    {
        self.squares.set(row as usize * 8 + col as usize, s);
    }
}

/// The 64 empty squares.
pub open spec fn empty_squares() -> Seq<Option<Piece>> {
    Seq::new(64, |i: int| None)
}

/// A 256-bit packed board value, held as four 64-bit words.
/// Square `i` lives in word `i / 16`, at bit offset `4 * (i % 16)`.
#[derive(Clone, Copy, Debug, PartialEq, Eq, Structural)]
pub struct PackedBoard {
    pub w0: u64,
    pub w1: u64,
    pub w2: u64,
    pub w3: u64,
}

/// The 3-bit type code of a piece kind.
pub open spec fn piece_code(k: PieceKind) -> u8 {
    match k {
        PieceKind::Pawn => 1,
        PieceKind::Knight => 2,
        PieceKind::Bishop => 3,
        PieceKind::Rook => 4,
        PieceKind::Queen => 5,
        PieceKind::King => 6,
    }
}

/// The color bit of a piece, already shifted to bit 3 of the square field.
pub open spec fn color_bit(c: Color) -> u8 {
    match c {
        Color::White => 0,
        Color::Black => 8,
    }
}

/// The 4-bit field of one square: 0 for an empty square, else the type code
/// with the color bit above it.
pub open spec fn square_nibble(s: Option<Piece>) -> u8 {
    match s {
        None => 0,
        Some(p) => (piece_code(p.kind) + color_bit(p.color)) as u8,
    }
}

/// The piece kind denoted by a non-zero 3-bit type code. Codes outside the
/// six named kinds read back as a pawn, as a faithful bit transcription of
/// how stray values decode; the encoder never emits them.
pub open spec fn kind_of_code(code: u8) -> PieceKind {
    if code == 2 {
        PieceKind::Knight
    } else if code == 3 {
        PieceKind::Bishop
    } else if code == 4 {
        PieceKind::Rook
    } else if code == 5 {
        PieceKind::Queen
    } else if code == 6 {
        PieceKind::King
    } else {
        PieceKind::Pawn
    }
}

/// The square denoted by one 4-bit field: empty when the type bits are zero
/// (a stray color bit on an empty square is ignored), else a piece of that
/// type and color.
pub open spec fn square_of_nibble(n: u8) -> Option<Piece> {
    if n & 7 == 0 {
        None
    } else {
        Some(
            Piece {
                color: if n & 8 == 0 {
                    Color::White
                } else {
                    Color::Black
                },
                kind: kind_of_code(n & 7),
            },
        )
    }
}

/// The word of the packed value a square index falls in.
pub open spec fn word_of(p: PackedBoard, w: int) -> u64 {
    if w == 0 {
        p.w0
    } else if w == 1 {
        p.w1
    } else if w == 2 {
        p.w2
    } else {
        p.w3
    }
}

/// The 4-bit field of square `i` within the packed value.
pub open spec fn nibble_of(p: PackedBoard, i: int) -> u8 {
    ((word_of(p, i / 16) >> ((4 * (i % 16)) as u64)) & 0xf) as u8
}

/// The board a packed value decodes to.
pub open spec fn decode_spec(p: PackedBoard) -> Seq<Option<Piece>> {
    Seq::new(64, |i: int| square_of_nibble(nibble_of(p, i)))
}

/// One 64-bit word built from the first `k` of the 16 squares starting at
/// `base`, each contributing its 4-bit field.
pub open spec fn word_from_squares(s: Seq<Option<Piece>>, base: int, k: nat) -> u64
    decreases k,
{
    if k == 0 {
        0u64
    } else {
        word_from_squares(s, base, (k - 1) as nat) | ((square_nibble(
            s[base + k - 1],
        ) as u64) << ((4 * (k - 1)) as u64))
    }
}

/// The packed value a board encodes to.
pub open spec fn encode_spec(s: Seq<Option<Piece>>) -> PackedBoard {
    PackedBoard {
        w0: word_from_squares(s, 0, 16),
        w1: word_from_squares(s, 16, 16),
        w2: word_from_squares(s, 32, 16),
        w3: word_from_squares(s, 48, 16),
    }
}

/// Every square field is a 4-bit value.
proof fn lemma_square_nibble_bound(s: Option<Piece>)
    ensures
        square_nibble(s) < 16,
{
}

/// The 4-bit field of a square reads back as the square itself.
proof fn lemma_nibble_round_trip(s: Option<Piece>)
    ensures
        square_of_nibble(square_nibble(s)) == s,
{
    match s {
        None => {
            assert(0u8 & 7 == 0) by (bit_vector);
        },
        Some(p) => {
            let c = piece_code(p.kind);
            let b = color_bit(p.color);
            let n = (c + b) as u8;
            assert(n & 7 == c && n & 8 == b) by (bit_vector)
                requires
                    1 <= c <= 6,
                    b == 0 || b == 8,
                    n == (c + b) as u8,
            ;
        },
    }
}

/// Building a word leaves all bits at and above offset `4 * k` clear.
proof fn lemma_word_low(s: Seq<Option<Piece>>, base: int, k: nat)
    requires
        k < 16,
    ensures
        word_from_squares(s, base, k) >> ((4 * k) as u64) == 0,
    decreases k,
{
    if k == 0 {
        assert(0u64 >> 0 == 0) by (bit_vector);
    } else {
        lemma_word_low(s, base, (k - 1) as nat);
        let w = word_from_squares(s, base, (k - 1) as nat);
        let n = square_nibble(s[base + k - 1]) as u64;
        let kk = (k - 1) as u64;
        lemma_square_nibble_bound(s[base + k - 1]);
        assert((w | (n << (4 * kk))) >> (4 * (kk + 1)) == 0) by (bit_vector)
            requires
                kk < 15,
                n < 16,
                w >> (4 * kk) == 0,
        ;
    }
}

/// Each of the first `k` square fields of a word reads back unchanged.
proof fn lemma_word_extract(s: Seq<Option<Piece>>, base: int, k: nat, j: int)
    requires
        0 <= j < k,
        k <= 16,
    ensures
        (word_from_squares(s, base, k) >> ((4 * j) as u64)) & 0xf == square_nibble(
            s[base + j],
        ) as u64,
    decreases k,
{
    let w = word_from_squares(s, base, (k - 1) as nat);
    let n = square_nibble(s[base + k - 1]) as u64;
    let kk = (k - 1) as u64;
    lemma_square_nibble_bound(s[base + k - 1]);
    lemma_word_low(s, base, (k - 1) as nat);
    if j == k - 1 {
        assert(((w | (n << (4 * kk))) >> (4 * kk)) & 0xf == n) by (bit_vector)
            requires
                kk < 16,
                n < 16,
                w >> (4 * kk) == 0,
        ;
    } else {
        lemma_word_extract(s, base, (k - 1) as nat, j);
        let jj = j as u64;
        assert(((w | (n << (4 * kk))) >> (4 * jj)) & 0xf == (w >> (4 * jj)) & 0xf) by (bit_vector)
            requires
                jj < kk < 16,
                n < 16,
        ;
    }
}

/// Each square field of an encoded board reads back as the square's field.
proof fn lemma_encode_nibble(s: Seq<Option<Piece>>, i: int)
    requires
        s.len() == 64,
        0 <= i < 64,
    ensures
        nibble_of(encode_spec(s), i) == square_nibble(s[i]),
{
    let p = encode_spec(s);
    let w = i / 16;
    let j = i % 16;
    assert(word_of(p, w) == word_from_squares(s, 16 * w, 16));
    lemma_word_extract(s, 16 * w, 16, j);
    lemma_square_nibble_bound(s[i]);
    assert(16 * w + j == i);
}

/// Round-trip law of the codec: decoding an encoded board gives the board
/// back, for every 64-square board expressible in the 4-bit-per-square
/// scheme.
pub proof fn lemma_codec_round_trip(s: Seq<Option<Piece>>)
    requires
        s.len() == 64,
    ensures
        decode_spec(encode_spec(s)) == s,
{
    let p = encode_spec(s);
    assert forall|i: int| 0 <= i < 64 implies square_of_nibble(nibble_of(p, i)) == s[i] by {
        lemma_encode_nibble(s, i);
        lemma_nibble_round_trip(s[i]);
    }
    assert(decode_spec(p) =~= s);
}

/// The 4-bit field of one square, as executable code.
fn nibble_for_square(s: &Option<Piece>) -> (n: u8)
    ensures
        n == square_nibble(*s),
{
    match s {
        None => 0,
        Some(p) => {
            let code: u8 = match p.kind {
                PieceKind::Pawn => 1,
                PieceKind::Knight => 2,
                PieceKind::Bishop => 3,
                PieceKind::Rook => 4,
                PieceKind::Queen => 5,
                PieceKind::King => 6,
            };
            let cb: u8 = match p.color {
                Color::White => 0,
                Color::Black => 8,
            };
            code + cb
        },
    }
}

/// The square one 4-bit field denotes, as executable code.
fn square_from_nibble(n: u8) -> (s: Option<Piece>)
    ensures
        s == square_of_nibble(n),
{
    let code = n & 7;
    if code == 0 {
        None
    } else {
        let color = if n & 8 == 0 {
            Color::White
        } else {
            Color::Black
        };
        let kind = if code == 2 {
            PieceKind::Knight
        } else if code == 3 {
            PieceKind::Bishop
        } else if code == 4 {
            PieceKind::Rook
        } else if code == 5 {
            PieceKind::Queen
        } else if code == 6 {
            PieceKind::King
        } else {
            PieceKind::Pawn
        };
        Some(Piece { color, kind })
    }
}

/// Pack the 16 squares starting at `base` into one 64-bit word.
fn pack_word(squares: &Vec<Option<Piece>>, base: usize) -> (w: u64)
    requires
        squares@.len() == 64,
        base + 16 <= 64,
    ensures
        w == word_from_squares(squares@, base as int, 16),
{
    let mut w: u64 = 0;
    let mut k: usize = 0;
    while k < 16
        invariant
            squares@.len() == 64,
            base + 16 <= 64,
            k <= 16,
            w == word_from_squares(squares@, base as int, k as nat),
        decreases 16 - k,
    {
        let n = nibble_for_square(&squares[base + k]);
        w = w | ((n as u64) << (4 * (k as u64)));
        k = k + 1;
    }
    w
}

/// Encode a board into its packed 256-bit value: for each of the 64 squares,
/// set the 4-bit field at offset `index * 4` per the square's piece, leaving
/// empty squares zero.
pub fn serialize_board(b: &BoardModel) -> (p: PackedBoard)
    requires
        b.wf(),
    ensures
        p == encode_spec(b@),
{
    let w0 = pack_word(&b.squares, 0);
    let w1 = pack_word(&b.squares, 16);
    let w2 = pack_word(&b.squares, 32);
    let w3 = pack_word(&b.squares, 48);
    PackedBoard { w0, w1, w2, w3 }
}

/// Decode a packed 256-bit value into a board: for each square, read the
/// 4-bit field; a zero type code gives an empty square, any other gives a
/// piece of that type and color.
pub fn deserialize_board(p: &PackedBoard) -> (b: BoardModel)
    ensures
        b.wf(),
        b@ == decode_spec(*p),
{
    let mut squares: Vec<Option<Piece>> = Vec::new();
    let mut i: usize = 0;
    while i < 64
        invariant
            i <= 64,
            squares@.len() == i,
            forall|j: int| 0 <= j < i ==> squares@[j] == square_of_nibble(nibble_of(*p, j)),
        decreases 64 - i,
    {
        let w: u64 = if i < 16 {
            p.w0
        } else if i < 32 {
            p.w1
        } else if i < 48 {
            p.w2
        } else {
            p.w3
        };
        let n: u8 = ((w >> (4 * ((i as u64) % 16))) & 0xf) as u8;
        assert(n == nibble_of(*p, i as int));
        squares.push(square_from_nibble(n));
        i = i + 1;
    }
    let b = BoardModel { squares };
    assert(b@ =~= decode_spec(*p));
    b
}

} // verus!
