use stylus_chess::codec::{
    deserialize_board, serialize_board, BoardModel, Color, PackedBoard, Piece, PieceKind,
};

fn piece(color: Color, kind: PieceKind) -> Option<Piece> {
    Some(Piece { color, kind })
}

fn start_board() -> BoardModel {
    let back = [
        PieceKind::Rook,
        PieceKind::Knight,
        PieceKind::Bishop,
        PieceKind::Queen,
        PieceKind::King,
        PieceKind::Bishop,
        PieceKind::Knight,
        PieceKind::Rook,
    ];
    let mut b = BoardModel::empty();
    for col in 0..8u8 {
        b.set_square(0, col, piece(Color::White, back[col as usize]));
        b.set_square(1, col, piece(Color::White, PieceKind::Pawn));
        b.set_square(6, col, piece(Color::Black, PieceKind::Pawn));
        b.set_square(7, col, piece(Color::Black, back[col as usize]));
    }
    b
}

#[test]
fn empty_board_packs_to_zero() {
    let b = BoardModel::empty();
    let p = serialize_board(&b);
    assert_eq!(p, PackedBoard { w0: 0, w1: 0, w2: 0, w3: 0 });
}

#[test]
fn start_position_exact_packed_value() {
    let p = serialize_board(&start_board());
    assert_eq!(
        p,
        PackedBoard {
            w0: 0x1111111142365324,
            w1: 0,
            w2: 0,
            w3: 0xcabedbac99999999,
        }
    );
}

#[test]
fn single_piece_fields() {
    // A white pawn on square 0 occupies the lowest 4-bit field.
    let mut b = BoardModel::empty();
    b.set_square(0, 0, piece(Color::White, PieceKind::Pawn));
    assert_eq!(serialize_board(&b).w0, 0x1);

    // A black king on square 63 occupies the highest field: 6 | 8 = 0xe.
    let mut b = BoardModel::empty();
    b.set_square(7, 7, piece(Color::Black, PieceKind::King));
    let p = serialize_board(&b);
    assert_eq!(p.w0, 0);
    assert_eq!(p.w3, 0xe << 60);
}

#[test]
fn round_trip_start_position() {
    let b = start_board();
    let back = deserialize_board(&serialize_board(&b));
    for row in 0..8u8 {
        for col in 0..8u8 {
            assert_eq!(back.square_at(row, col), b.square_at(row, col));
        }
    }
}

#[test]
fn round_trip_every_piece_both_colors() {
    let kinds = [
        PieceKind::Pawn,
        PieceKind::Knight,
        PieceKind::Bishop,
        PieceKind::Rook,
        PieceKind::Queen,
        PieceKind::King,
    ];
    let mut b = BoardModel::empty();
    for (i, kind) in kinds.iter().enumerate() {
        b.set_square(2, i as u8, piece(Color::White, *kind));
        b.set_square(5, i as u8, piece(Color::Black, *kind));
    }
    let back = deserialize_board(&serialize_board(&b));
    for row in 0..8u8 {
        for col in 0..8u8 {
            assert_eq!(back.square_at(row, col), b.square_at(row, col));
        }
    }
}

#[test]
fn stray_color_bit_on_empty_square_reads_empty() {
    // Type bits zero, color bit set: the square is empty.
    let p = PackedBoard { w0: 0x8, w1: 0, w2: 0, w3: 0 };
    let b = deserialize_board(&p);
    assert_eq!(b.square_at(0, 0), None);
}

#[test]
fn type_code_seven_reads_as_pawn() {
    // The codec is a faithful bit transcription: the unnamed type code 7
    // decodes to a pawn, as any unrecognized non-zero code does.
    let p = PackedBoard { w0: 0x7, w1: 0, w2: 0, w3: 0xf << 60 };
    let b = deserialize_board(&p);
    assert_eq!(b.square_at(0, 0), piece(Color::White, PieceKind::Pawn));
    assert_eq!(b.square_at(7, 7), piece(Color::Black, PieceKind::Pawn));
}
