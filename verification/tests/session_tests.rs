use stylus_chess::codec::{deserialize_board, Color, PackedBoard, Piece, PieceKind};
use stylus_chess::session::{
    Address, StylusChess, BLACK, CONTINUING, ILLEGAL_MOVE, PENDING, STALEMATE, VICTORY, WHITE,
};

fn addr(n: u64) -> Address {
    Address { w0: n, w1: 0, w2: 0 }
}

const START_PACKED: PackedBoard = PackedBoard {
    w0: 0x1111111142365324,
    w1: 0,
    w2: 0,
    w3: 0xcabedbac99999999,
};

#[test]
fn fresh_state_has_no_games() {
    let s = StylusChess::new();
    assert_eq!(s.total_games(), 0);
}

#[test]
fn nonexistent_id_reads_default_record() {
    let s = StylusChess::new();
    let (p1, p2, status, victor) = s.game_by_number(7);
    assert_eq!(p1, Address::zero());
    assert_eq!(p2, Address::zero());
    assert_eq!(status, PENDING);
    assert_eq!(victor, 0);
    assert_eq!(
        s.board_state_by_game_number(7),
        PackedBoard { w0: 0, w1: 0, w2: 0, w3: 0 }
    );
    assert_eq!(s.get_turn_color(7), WHITE);
    assert_eq!(s.get_current_player(7), Address::zero());
}

#[test]
fn registry_pairing() {
    let a = addr(1);
    let b = addr(2);
    let c = addr(3);
    let mut s = StylusChess::new();

    let n = s.create_or_join(a);
    assert_eq!(n, 1);
    assert_eq!(s.total_games(), 1);
    let (p1, p2, status, _) = s.game_by_number(1);
    assert_eq!(p1, a);
    assert_eq!(p2, Address::zero());
    assert_eq!(status, PENDING);
    assert_eq!(s.board_state_by_game_number(1), START_PACKED);
    assert_eq!(s.get_turn_color(1), WHITE);

    let n2 = s.create_or_join(b);
    assert_eq!(n2, 1);
    assert_eq!(s.total_games(), 1);
    let (p1, p2, status, _) = s.game_by_number(1);
    assert_eq!(p1, a);
    assert_eq!(p2, b);
    assert_eq!(status, CONTINUING);

    let n3 = s.create_or_join(c);
    assert_eq!(n3, 2);
    assert_eq!(s.total_games(), 2);
    let (p1, p2, status, _) = s.game_by_number(2);
    assert_eq!(p1, c);
    assert_eq!(p2, Address::zero());
    assert_eq!(status, PENDING);
}

#[test]
fn current_player_follows_turn_color() {
    let a = addr(10);
    let b = addr(20);
    let mut s = StylusChess::new();
    s.create_or_join(a);
    s.create_or_join(b);
    assert_eq!(s.get_current_player(1), a);
    assert_eq!(s.get_current_player_address(1, true), a);
    assert_eq!(s.get_current_player_address(1, false), b);
    // After white's pawn advance, black (player two) is to move.
    let status = s.play_move(1, 1, 4, 3, 4, a);
    assert_eq!(status, CONTINUING);
    assert_eq!(s.get_turn_color(1), BLACK);
    assert_eq!(s.get_current_player(1), b);
}

#[test]
fn unauthorized_caller_changes_nothing() {
    let a = addr(1);
    let b = addr(2);
    let mut s = StylusChess::new();
    s.create_or_join(a);
    s.create_or_join(b);
    let before = s.board_state_by_game_number(1);
    // White is to move; player two may not move.
    let status = s.play_move(1, 1, 4, 3, 4, b);
    assert_eq!(status, ILLEGAL_MOVE);
    assert_eq!(s.board_state_by_game_number(1), before);
    assert_eq!(s.get_turn_color(1), WHITE);
    let (_, _, game_status, _) = s.game_by_number(1);
    assert_eq!(game_status, CONTINUING);
}

#[test]
fn move_on_pending_game_is_illegal() {
    let a = addr(1);
    let mut s = StylusChess::new();
    s.create_or_join(a);
    let status = s.play_move(1, 1, 4, 3, 4, a);
    assert_eq!(status, ILLEGAL_MOVE);
    let (_, _, game_status, _) = s.game_by_number(1);
    assert_eq!(game_status, PENDING);
    assert_eq!(s.board_state_by_game_number(1), START_PACKED);
}

#[test]
fn rules_rejected_move_changes_nothing() {
    let a = addr(1);
    let b = addr(2);
    let mut s = StylusChess::new();
    s.create_or_join(a);
    s.create_or_join(b);
    let before = s.board_state_by_game_number(1);
    // A rook cannot jump over its own pawn.
    let status = s.play_move(1, 0, 0, 5, 0, a);
    assert_eq!(status, ILLEGAL_MOVE);
    assert_eq!(s.board_state_by_game_number(1), before);
    assert_eq!(s.get_turn_color(1), WHITE);
}

#[test]
fn scenario_pawn_advance_then_fools_mate() {
    let a = addr(111);
    let b = addr(222);
    let mut s = StylusChess::new();

    let id = s.create_or_join(a);
    assert_eq!(id, 1);
    let (_, _, status, _) = s.game_by_number(1);
    assert_eq!(status, PENDING);

    let id = s.create_or_join(b);
    assert_eq!(id, 1);
    let (_, p2, status, _) = s.game_by_number(1);
    assert_eq!(p2, b);
    assert_eq!(status, CONTINUING);
    assert_eq!(s.get_turn_color(1), WHITE);

    // White: f-pawn one step forward.
    let status = s.play_move(1, 1, 5, 2, 5, a);
    assert_eq!(status, CONTINUING);
    assert_eq!(s.get_turn_color(1), BLACK);
    let board = deserialize_board(&s.board_state_by_game_number(1));
    assert_eq!(board.square_at(1, 5), None);
    assert_eq!(
        board.square_at(2, 5),
        Some(Piece { color: Color::White, kind: PieceKind::Pawn })
    );

    // Black: e-pawn two steps forward.
    let status = s.play_move(1, 6, 4, 4, 4, b);
    assert_eq!(status, CONTINUING);
    assert_eq!(s.get_turn_color(1), WHITE);

    // White: g-pawn two steps forward.
    let status = s.play_move(1, 1, 6, 3, 6, a);
    assert_eq!(status, CONTINUING);
    assert_eq!(s.get_turn_color(1), BLACK);

    // Black: queen to h4, checkmate. The mover's color wins.
    let status = s.play_move(1, 7, 3, 3, 7, b);
    assert_eq!(status, VICTORY);
    let (_, _, game_status, victor) = s.game_by_number(1);
    assert_eq!(game_status, VICTORY);
    assert_eq!(victor, BLACK);
}

#[test]
fn terminal_game_locks_out_further_moves() {
    let a = addr(111);
    let b = addr(222);
    let mut s = StylusChess::new();
    s.create_or_join(a);
    s.create_or_join(b);
    assert_eq!(s.play_move(1, 1, 5, 2, 5, a), CONTINUING);
    assert_eq!(s.play_move(1, 6, 4, 4, 4, b), CONTINUING);
    assert_eq!(s.play_move(1, 1, 6, 3, 6, a), CONTINUING);
    assert_eq!(s.play_move(1, 7, 3, 3, 7, b), VICTORY);

    let board_before = s.board_state_by_game_number(1);
    let turn_before = s.get_turn_color(1);
    // Neither player can move any further; nothing mutates.
    assert_eq!(s.play_move(1, 1, 4, 3, 4, a), ILLEGAL_MOVE);
    assert_eq!(s.play_move(1, 6, 0, 5, 0, b), ILLEGAL_MOVE);
    assert_eq!(s.board_state_by_game_number(1), board_before);
    assert_eq!(s.get_turn_color(1), turn_before);
    let (_, _, game_status, victor) = s.game_by_number(1);
    assert_eq!(game_status, VICTORY);
    assert_eq!(victor, BLACK);
}

#[test]
fn games_are_independent() {
    let a = addr(1);
    let b = addr(2);
    let c = addr(3);
    let d = addr(4);
    let mut s = StylusChess::new();
    assert_eq!(s.create_or_join(a), 1);
    assert_eq!(s.create_or_join(b), 1);
    assert_eq!(s.create_or_join(c), 2);
    assert_eq!(s.create_or_join(d), 2);
    assert_eq!(s.play_move(1, 1, 4, 3, 4, a), CONTINUING);
    // Game 2 still has white to move and its starting board.
    assert_eq!(s.get_turn_color(2), WHITE);
    assert_eq!(s.board_state_by_game_number(2), START_PACKED);
    assert_eq!(s.play_move(2, 1, 3, 3, 3, c), CONTINUING);
    assert_eq!(s.get_turn_color(2), BLACK);
}

#[test]
fn stalemate_code_is_distinct() {
    // The status codes are a fixed enumeration; STALEMATE is persisted as 3
    // and never confused with VICTORY or ILLEGAL_MOVE.
    assert_eq!(PENDING, 0);
    assert_eq!(CONTINUING, 1);
    assert_eq!(ILLEGAL_MOVE, 2);
    assert_eq!(STALEMATE, 3);
    assert_eq!(VICTORY, 4);
    assert_eq!(WHITE, 0);
    assert_eq!(BLACK, 1);
}

#[test]
fn a_player_may_join_their_own_pending_game() {
    // No distinct-caller check is made on joining: current behavior keeps
    // the creator free to fill their own slot.
    let a = addr(5);
    let mut s = StylusChess::new();
    assert_eq!(s.create_or_join(a), 1);
    assert_eq!(s.create_or_join(a), 1);
    let (p1, p2, status, _) = s.game_by_number(1);
    assert_eq!(p1, a);
    assert_eq!(p2, a);
    assert_eq!(status, CONTINUING);
}

#[test]
fn quickest_stalemate_is_recorded_as_such() {
    // The ten-move stalemate: after white's last queen move black is not in
    // check and has no legal move.
    let a = addr(1);
    let b = addr(2);
    let mut s = StylusChess::new();
    s.create_or_join(a);
    s.create_or_join(b);
    let moves: [(u8, u8, u8, u8); 19] = [
        (1, 4, 2, 4), // e3
        (6, 0, 4, 0), // a5
        (0, 3, 4, 7), // Qh5
        (7, 0, 5, 0), // Ra6
        (4, 7, 4, 0), // Qxa5
        (6, 7, 4, 7), // h5
        (4, 0, 6, 2), // Qxc7
        (5, 0, 5, 7), // Rh6
        (1, 7, 3, 7), // h4
        (6, 5, 5, 5), // f6
        (6, 2, 6, 3), // Qxd7
        (7, 4, 6, 5), // Kf7
        (6, 3, 6, 1), // Qxb7
        (7, 3, 2, 3), // Qd3
        (6, 1, 7, 1), // Qxb8
        (2, 3, 6, 7), // Qh7
        (7, 1, 7, 2), // Qxc8
        (6, 5, 5, 6), // Kg6
        (7, 2, 5, 4), // Qe6, stalemate
    ];
    for (i, &(fr, fc, tr, tc)) in moves.iter().enumerate() {
        let caller = if i % 2 == 0 { a } else { b };
        let status = s.play_move(1, fr, fc, tr, tc, caller);
        if i + 1 < moves.len() {
            assert_eq!(status, CONTINUING, "move {} should continue", i + 1);
        } else {
            assert_eq!(status, STALEMATE);
        }
    }
    let (_, _, game_status, _) = s.game_by_number(1);
    assert_eq!(game_status, STALEMATE);
    // A drawn game is terminal.
    assert_eq!(s.play_move(1, 6, 7, 5, 7, b), ILLEGAL_MOVE);
}
