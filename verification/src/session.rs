//! The game registry and the session state machine.
//!
//! State is a persistent key-value shape: a monotonically increasing game
//! counter, a single pending-game slot (0 = none pending), and a dense map
//! from game id to session record. Ids are assigned sequentially from 1 and
//! never reused. Reading a nonexistent id yields the default, zero-valued
//! record, as the underlying storage model does, not a distinct error.
//!
//! Status codes: 0 = PENDING, 1 = CONTINUING, 3 = STALEMATE, 4 = VICTORY;
//! 2 = ILLEGAL_MOVE is only ever returned from [`StylusChess::play_move`],
//! never persisted.

use vstd::prelude::*;

use crate::codec::{decode_spec, deserialize_board, encode_spec, serialize_board, PackedBoard};
use crate::engine::{
    board_plain, board_squares, board_to_model, board_turn_white, board_white_to_move,
    engine_board_of, engine_default_board, engine_outcome, engine_play_move, start_squares,
    EngineResult, MoveOutcome,
};

verus! {

/// Session awaiting a second player.
pub const PENDING: u8 = 0;

/// Game in progress.
pub const CONTINUING: u8 = 1;

/// Transient result of a rejected move; never persisted as a status.
pub const ILLEGAL_MOVE: u8 = 2;

/// Game ended with no winner.
pub const STALEMATE: u8 = 3;

/// Game ended; the record's victor holds the winning color.
pub const VICTORY: u8 = 4;

/// Color code of the white side, which player one plays.
pub const WHITE: u8 = 0;

/// Color code of the black side, which player two plays.
pub const BLACK: u8 = 1;

/// An opaque 160-bit caller identity, held as plain words. The all-zero
/// value is the storage default and stands for "unset".
#[derive(Clone, Copy, Debug, PartialEq, Eq, Structural)]
pub struct Address {
    pub w0: u64,
    pub w1: u64,
    pub w2: u32,
}

/// The all-zero identity.
pub open spec fn zero_address() -> Address {
    Address { w0: 0, w1: 0, w2: 0 }
}

impl Address {
    /// The all-zero identity.
    pub fn zero() -> (a: Address)
        ensures
            a == zero_address(),
    {
        Address { w0: 0, w1: 0, w2: 0 }
    }
}

/// One chess session record, as persisted.
#[derive(Clone, Copy, Debug, PartialEq, Eq, Structural)]
pub struct GameRecord {
    /// The creator; plays white.
    pub player_one: Address,
    /// The joiner; plays black. Zero until a second party joins.
    pub player_two: Address,
    /// PENDING, CONTINUING, STALEMATE or VICTORY.
    pub game_status: u8,
    /// The side to move next: WHITE or BLACK.
    pub turn_color: u8,
    /// The winning color; meaningful only when `game_status` is VICTORY.
    pub victor: u8,
    /// The packed board (see [`crate::codec`]).
    pub board_state: PackedBoard,
}

/// The zero-valued record a read of a nonexistent id yields.
pub open spec fn default_record() -> GameRecord {
    GameRecord {
        player_one: zero_address(),
        player_two: zero_address(),
        game_status: PENDING,
        turn_color: WHITE,
        victor: 0,
        board_state: PackedBoard { w0: 0, w1: 0, w2: 0, w3: 0 },
    }
}

/// The mathematical model of the persisted state: the game counter, the
/// pending slot, and the session records for ids 1 through `total_games`.
#[verifier::ext_equal]
pub struct StateModel {
    pub total_games: u64,
    pub pending_game: u64,
    pub games: Seq<GameRecord>,
}

/// A record holds a status that is ever persisted and a two-valued turn
/// color.
pub open spec fn record_valid(r: GameRecord) -> bool {
    &&& r.game_status == PENDING || r.game_status == CONTINUING || r.game_status == STALEMATE
        || r.game_status == VICTORY
    &&& r.turn_color == WHITE || r.turn_color == BLACK
}

impl StateModel {
    /// Well-formedness: ids are dense from 1, every persisted record is
    /// valid, and exactly the session the pending slot points at (if any)
    /// is PENDING.
    pub open spec fn wf(self) -> bool {
        &&& self.games.len() == self.total_games
        &&& self.pending_game != 0 ==> self.pending_game <= self.total_games && self.games[
            self.pending_game - 1
        ].game_status == PENDING
        &&& forall|i: int| 0 <= i < self.games.len() ==> record_valid(#[trigger] self.games[i])
        &&& forall|i: int|
            0 <= i < self.games.len() && (#[trigger] self.games[i]).game_status == PENDING
                ==> self.pending_game == i + 1
    }

    /// The record for a game id: the stored record for an assigned id, the
    /// default record otherwise.
    pub open spec fn record(self, game_number: u64) -> GameRecord {
        if 1 <= game_number && game_number <= self.games.len() {
            self.games[game_number - 1]
        } else {
            default_record()
        }
    }

    /// This state with the record of one assigned id replaced.
    pub open spec fn with_record(self, game_number: u64, r: GameRecord) -> StateModel {
        StateModel { games: self.games.update(game_number - 1, r), ..self }
    }
}

/// The player whose turn it is: player one moves for WHITE, player two for
/// BLACK.
pub open spec fn current_player(r: GameRecord) -> Address {
    if r.turn_color == WHITE {
        r.player_one
    } else {
        r.player_two
    }
}

/// The record a freshly created session holds: the caller as player one,
/// the starting position encoded, white to move, awaiting a second player.
pub open spec fn new_game_record(caller: Address) -> GameRecord {
    GameRecord {
        player_one: caller,
        player_two: zero_address(),
        game_status: PENDING,
        turn_color: WHITE,
        victor: 0,
        board_state: encode_spec(start_squares()),
    }
}

/// What `create_or_join` does to the state, and the id it returns: with the
/// pending slot empty, allocate the next id and create a fresh PENDING
/// session owned by the caller; otherwise join the pending session as player
/// two, set it CONTINUING and clear the slot.
pub open spec fn create_or_join_spec(pre: StateModel, caller: Address) -> (StateModel, u64) {
    if pre.pending_game == 0 {
        let id = (pre.total_games + 1) as u64;
        (
            StateModel {
                total_games: id,
                pending_game: id,
                games: pre.games.push(new_game_record(caller)),
            },
            id,
        )
    } else {
        let id = pre.pending_game;
        let r = pre.record(id);
        let joined = GameRecord { player_two: caller, game_status: CONTINUING, ..r };
        (StateModel { pending_game: 0, ..pre }.with_record(id, joined), id)
    }
}

/// What `play_move` does to the state, and the status it returns: a caller
/// that is not the side to move, a session not in CONTINUING status, or a
/// move the engine rejects leave the state unchanged and yield ILLEGAL_MOVE;
/// otherwise the engine's outcome decides the transition.
pub open spec fn play_move_spec(
    pre: StateModel,
    game_number: u64,
    from_row: u8,
    from_col: u8,
    to_row: u8,
    to_col: u8,
    caller: Address,
) -> (StateModel, u8) {
    let r = pre.record(game_number);
    if caller != current_player(r) {
        (pre, ILLEGAL_MOVE)
    } else if r.game_status != CONTINUING {
        (pre, ILLEGAL_MOVE)
    } else {
        match engine_outcome(
            decode_spec(r.board_state),
            r.turn_color == WHITE,
            from_row,
            from_col,
            to_row,
            to_col,
        ) {
            MoveOutcome::Continuing { squares, white_to_move } => (
                pre.with_record(
                    game_number,
                    GameRecord {
                        board_state: encode_spec(squares),
                        turn_color: if white_to_move {
                            WHITE
                        } else {
                            BLACK
                        },
                        ..r
                    },
                ),
                CONTINUING,
            ),
            MoveOutcome::Victory { .. } => (
                pre.with_record(
                    game_number,
                    GameRecord { victor: r.turn_color, game_status: VICTORY, ..r },
                ),
                VICTORY,
            ),
            MoveOutcome::Stalemate => (
                pre.with_record(game_number, GameRecord { game_status: STALEMATE, ..r }),
                STALEMATE,
            ),
            MoveOutcome::Illegal => (pre, ILLEGAL_MOVE),
        }
    }
}

/// The chess ledger: all persisted session state, serialized behind
/// one-call-at-a-time mutating operations.
pub struct StylusChess {
    total_games: u64,
    pending_game: u64,
    games: Vec<GameRecord>,
}

impl View for StylusChess {
    type V = StateModel;

    closed spec fn view(&self) -> StateModel {
        StateModel {
            total_games: self.total_games,
            pending_game: self.pending_game,
            games: self.games@,
        }
    }
}

impl StylusChess {
    /// Fresh state: no games, nothing pending.
    pub fn new() -> (s: StylusChess)
        ensures
            s@.wf(),
            s@.total_games == 0,
            s@.pending_game == 0,
            s@.games == Seq::<GameRecord>::empty(),
    {
        let s = StylusChess { total_games: 0, pending_game: 0, games: Vec::new() };
        assert(s@.games =~= Seq::<GameRecord>::empty());
        s
    }

    /// The stored record for an id, or the default record for an id that
    /// was never assigned.
    fn record_for(&self, game_number: u64) -> (r: GameRecord)
        ensures
            r == self@.record(game_number),
    {
        if 1 <= game_number && game_number <= self.games.len() as u64 {
            self.games[(game_number - 1) as usize]
        } else {
            GameRecord {
                player_one: Address::zero(),
                player_two: Address::zero(),
                game_status: PENDING,
                turn_color: WHITE,
                victor: 0,
                board_state: PackedBoard { w0: 0, w1: 0, w2: 0, w3: 0 },
            }
        }
    }

    /// How many games have been started.
    pub fn total_games(&self) -> (n: u64)
        ensures
            n == self@.total_games,
    {
        self.total_games
    }

    /// The color of the side to move in a game.
    pub fn get_turn_color(&self, game_number: u64) -> (c: u8)
        ensures
            c == self@.record(game_number).turn_color,
    {
        self.record_for(game_number).turn_color
    }

    /// The address of the player whose turn it is.
    pub fn get_current_player(&self, game_number: u64) -> (a: Address)
        ensures
            a == current_player(self@.record(game_number)),
    {
        let r = self.record_for(game_number);
        if r.turn_color == WHITE {
            r.player_one
        } else {
            r.player_two
        }
    }

    /// The player a given side-to-move flag selects in a game: player one
    /// for white, player two for black.
    pub fn get_current_player_address(&self, game_number: u64, white_to_move: bool) -> (a: Address)
        ensures
            a == if white_to_move {
                self@.record(game_number).player_one
            } else {
                self@.record(game_number).player_two
            },
    {
        let r = self.record_for(game_number);
        if white_to_move {
            r.player_one
        } else {
            r.player_two
        }
    }

    /// The packed board of a game.
    pub fn board_state_by_game_number(&self, game_number: u64) -> (p: PackedBoard)
        ensures
            p == self@.record(game_number).board_state,
    {
        self.record_for(game_number).board_state
    }

    /// The players, status and victor of a game.
    pub fn game_by_number(&self, game_number: u64) -> (g: (Address, Address, u8, u8))
        ensures
            g == (
                self@.record(game_number).player_one,
                self@.record(game_number).player_two,
                self@.record(game_number).game_status,
                self@.record(game_number).victor,
            ),
    {
        let r = self.record_for(game_number);
        (r.player_one, r.player_two, r.game_status, r.victor)
    }

    /// Either creates a new game or joins the pending game if one exists;
    /// returns the game number. Repeated calls alternate strictly between
    /// creating and filling the single outstanding slot.
    pub fn create_or_join(&mut self, caller: Address) -> (id: u64)
        requires
            old(self)@.wf(),
            old(self)@.total_games < u64::MAX,
        ensures
            final(self)@.wf(),
            (final(self)@, id) == create_or_join_spec(old(self)@, caller),
    {
        if self.pending_game == 0 {
            let game_number = self.get_next_game_number();
            self.pending_game = game_number;
            self.create_game(caller);
            proof {
                assert(self@ =~= create_or_join_spec(old(self)@, caller).0);
            }
            game_number
        } else {
            let game_number = self.pending_game;
            self.join_game(game_number, caller);
            proof {
                assert(self@ =~= create_or_join_spec(old(self)@, caller).0);
            }
            game_number
        }
    }

    /// Allocate the next game number by advancing the counter.
    fn get_next_game_number(&mut self) -> (n: u64)
        requires
            old(self)@.total_games < u64::MAX,
        ensures
            n == old(self)@.total_games + 1,
            final(self)@.total_games == n,
            final(self)@.pending_game == old(self)@.pending_game,
            final(self)@.games == old(self)@.games,
    {
        let game_number = self.total_games + 1;
        self.total_games = game_number;
        game_number
    }

    /// Append a fresh session owned by the caller: the starting position
    /// encoded, white to move, awaiting a second player.
    fn create_game(&mut self, caller: Address)
        ensures
            final(self)@.games == old(self)@.games.push(new_game_record(caller)),
            final(self)@.total_games == old(self)@.total_games,
            final(self)@.pending_game == old(self)@.pending_game,
    {
        let eb = engine_default_board();
        let model = board_to_model(&eb);
        let packed = serialize_board(&model);
        let rec = GameRecord {
            player_one: caller,
            player_two: Address::zero(),
            game_status: PENDING,
            turn_color: WHITE,
            victor: 0,
            board_state: packed,
        };
        self.games.push(rec);
        proof {
            assert(rec == new_game_record(caller));
        }
    }

    /// Rebuild the engine's board for a game from its persisted record: the
    /// decoded squares, tagged with the stored turn color. The rebuilt
    /// board is plain; en-passant and castling state are not persisted.
    fn get_board_from_game_number(&self, game_number: u64) -> (eb: chess_engine::Board)
        ensures
            board_squares(eb) == decode_spec(self@.record(game_number).board_state),
            board_white_to_move(eb) == (self@.record(game_number).turn_color == WHITE),
            board_plain(eb),
    {
        let r = self.record_for(game_number);
        let model = deserialize_board(&r.board_state);
        engine_board_of(&model, r.turn_color == WHITE)
    }

    /// Fill an assigned session's second seat, set it CONTINUING and empty
    /// the pending slot.
    fn join_game(&mut self, game_number: u64, caller: Address)
        requires
            1 <= game_number,
            game_number <= old(self)@.games.len(),
        ensures
            final(self)@.games == old(self)@.games.update(
                game_number - 1,
                GameRecord {
                    player_two: caller,
                    game_status: CONTINUING,
                    ..old(self)@.games[game_number - 1]
                },
            ),
            final(self)@.total_games == old(self)@.total_games,
            final(self)@.pending_game == 0,
    {
        let len = self.games.len();
        assert(game_number <= len as u64);
        let idx = (game_number as usize) - 1;
        let mut rec = self.games[idx];
        rec.player_two = caller;
        rec.game_status = CONTINUING;
        self.games.set(idx, rec);
        self.pending_game = 0;
    }

    /// Play one move of a game. The caller must be the player whose turn it
    /// is and the game must be in progress; the rules engine then classifies
    /// the move. Returns CONTINUING, VICTORY or STALEMATE when the move is
    /// applied, ILLEGAL_MOVE (with nothing mutated) otherwise. A legal move
    /// flips the side to move to the engine's reported side.
    pub fn play_move(
        &mut self,
        game_number: u64,
        from_row: u8,
        from_col: u8,
        to_row: u8,
        to_col: u8,
        caller: Address,
    ) -> (status: u8)
        requires
            old(self)@.wf(),
        ensures
            final(self)@.wf(),
            (final(self)@, status) == play_move_spec(
                old(self)@,
                game_number,
                from_row,
                from_col,
                to_row,
                to_col,
                caller,
            ),
            status == CONTINUING ==> final(self)@.record(game_number).turn_color == (
            if old(self)@.record(game_number).turn_color == WHITE {
                BLACK
            } else {
                WHITE
            }),
    {
        let r = self.record_for(game_number);
        let current = if r.turn_color == WHITE {
            r.player_one
        } else {
            r.player_two
        };
        if !(caller == current) {
            return ILLEGAL_MOVE;
        }
        if r.game_status != CONTINUING {
            return ILLEGAL_MOVE;
        }
        let len = self.games.len();
        assert(1 <= game_number && game_number <= len as u64);
        let idx = (game_number as usize) - 1;
        let eb = self.get_board_from_game_number(game_number);
        let result = engine_play_move(&eb, from_row, from_col, to_row, to_col);
        match result {
            EngineResult::Continuing(nb) => {
                let white = board_turn_white(&nb);
                let new_model = board_to_model(&nb);
                let packed = serialize_board(&new_model);
                let mut rec = r;
                rec.board_state = packed;
                rec.turn_color = if white {
                    WHITE
                } else {
                    BLACK
                };
                self.games.set(idx, rec);
                proof {
                    assert(self@ =~= play_move_spec(
                        old(self)@,
                        game_number,
                        from_row,
                        from_col,
                        to_row,
                        to_col,
                        caller,
                    ).0);
                }
                CONTINUING
            },
            EngineResult::Victory(_) => {
                let mut rec = r;
                rec.victor = r.turn_color;
                rec.game_status = VICTORY;
                self.games.set(idx, rec);
                proof {
                    assert(self@ =~= play_move_spec(
                        old(self)@,
                        game_number,
                        from_row,
                        from_col,
                        to_row,
                        to_col,
                        caller,
                    ).0);
                }
                VICTORY
            },
            EngineResult::Stalemate => {
                let mut rec = r;
                rec.game_status = STALEMATE;
                self.games.set(idx, rec);
                proof {
                    assert(self@ =~= play_move_spec(
                        old(self)@,
                        game_number,
                        from_row,
                        from_col,
                        to_row,
                        to_col,
                        caller,
                    ).0);
                }
                STALEMATE
            },
            EngineResult::Illegal => ILLEGAL_MOVE,
        }
    }
}

/// Registry pairing law: a first call with the slot empty opens session N
/// owned by the caller and leaves it pending; a second call returns the same
/// N, fills player two, sets it CONTINUING and clears the slot; a third call
/// opens a fresh pending session N + 1.
pub proof fn lemma_registry_pairing(s0: StateModel, a: Address, b: Address, c: Address)
    requires
        s0.wf(),
        s0.pending_game == 0,
        s0.total_games + 2 <= u64::MAX,
    ensures
        ({
            let (s1, n1) = create_or_join_spec(s0, a);
            let (s2, n2) = create_or_join_spec(s1, b);
            let (s3, n3) = create_or_join_spec(s2, c);
            &&& n1 == s0.total_games + 1
            &&& s1.pending_game == n1
            &&& s1.record(n1).player_one == a
            &&& s1.record(n1).game_status == PENDING
            &&& n2 == n1
            &&& s2.pending_game == 0
            &&& s2.record(n1).player_one == a
            &&& s2.record(n1).player_two == b
            &&& s2.record(n1).game_status == CONTINUING
            &&& n3 == n1 + 1
            &&& s3.pending_game == n3
            &&& s3.record(n3).player_one == c
            &&& s3.record(n3).game_status == PENDING
        }),
{
}

/// Authorization law: a move by a caller that is not the player whose turn
/// it is returns ILLEGAL_MOVE and mutates nothing.
pub proof fn lemma_authorization(
    s: StateModel,
    game_number: u64,
    from_row: u8,
    from_col: u8,
    to_row: u8,
    to_col: u8,
    caller: Address,
)
    requires
        caller != current_player(s.record(game_number)),
    ensures
        play_move_spec(s, game_number, from_row, from_col, to_row, to_col, caller) == (
            s,
            ILLEGAL_MOVE,
        ),
{
}

/// Terminal lock law: once a session's status is VICTORY or STALEMATE, any
/// further move returns ILLEGAL_MOVE and mutates nothing.
pub proof fn lemma_terminal_lock(
    s: StateModel,
    game_number: u64,
    from_row: u8,
    from_col: u8,
    to_row: u8,
    to_col: u8,
    caller: Address,
)
    requires
        s.record(game_number).game_status == VICTORY || s.record(game_number).game_status
            == STALEMATE,
    ensures
        play_move_spec(s, game_number, from_row, from_col, to_row, to_col, caller) == (
            s,
            ILLEGAL_MOVE,
        ),
{
}

} // verus!

