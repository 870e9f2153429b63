//! The state of a game and what a move does to it.

use vstd::prelude::*;

use crate::chain::{copy_bytes, Outpoint};
use crate::dialogue::{MovedPosition, Request, RequestView};
use crate::error::{self, refuse, OrchestratorError};
use crate::hash::Hash32;
use crate::moves::{self, square_idx, MoveSpec, WorkerKind};
use crate::plan::{FieldValue, FieldView, SourceState, StateView};
use crate::signing::SigningPlayer;
use crate::status::{
    Side, BLACK, BOFFER, BWIN, CLAIMED, CLEAR, DEFENSE, DRAW, LIVE, NORMAL, OFFER, WHITE, WOFFER, WWIN,
};
use crate::text::{self, decimal_text, join2};

verus! {

/// A player's entry in the league: identity, stake and record.
#[derive(Clone, Copy)]
pub struct PlayerStateData {
    pub owner_hash: Hash32,
    pub player_id: Hash32,
    pub outpoint: Outpoint,
    pub value: u64,
    pub open_games: i64,
    pub rating: i64,
    pub games: i64,
    pub wins: i64,
    pub draws: i64,
    pub losses: i64,
}

impl PlayerStateData {
    /// The record adds up: every finished game is a win, a draw or a loss.
    pub open spec fn wf(self) -> bool {
        &&& 0 <= self.open_games
        &&& 0 <= self.wins
        &&& 0 <= self.draws
        &&& 0 <= self.losses
        &&& self.games == self.wins + self.draws + self.losses
    }
}

/// The state of a game.
pub struct GameStateData {
    pub white_player: Hash32,
    pub black_player: Hash32,
    pub board: Vec<u8>,
    pub turn: i64,
    pub status: i64,
    pub move_timeout: i64,
    pub castle_rights: [u8; 4],
    pub en_passant_idx: i64,
    pub pending_src_idx: i64,
    pub pending_dst_idx: i64,
    pub pending_promo: i64,
    pub recent_castle: i64,
    pub draw_state: i64,
    pub move_log: Vec<String>,
}

/// The content of a game state.
#[verifier::ext_equal]
pub ghost struct GameView {
    pub white_player: Hash32,
    pub black_player: Hash32,
    pub board: Seq<u8>,
    pub turn: i64,
    pub status: i64,
    pub move_timeout: i64,
    pub castle_rights: Seq<u8>,
    pub en_passant_idx: i64,
    pub pending_src_idx: i64,
    pub pending_dst_idx: i64,
    pub pending_promo: i64,
    pub recent_castle: i64,
    pub draw_state: i64,
    pub move_log: Seq<Seq<char>>,
}

/// The texts of strings.
pub open spec fn texts(strings: Seq<String>) -> Seq<Seq<char>> {
    strings.map_values(|s: String| s@)
}

/// Copies strings.
pub fn copy_strings(strings: &Vec<String>) -> (copy: Vec<String>)
    ensures
        texts(copy@) == texts(strings@),
{
    let mut copy: Vec<String> = Vec::new();
    let mut i: usize = 0;
    while i < strings.len()
        invariant
            i <= strings@.len(),
            copy@.len() == i,
            forall|j: int| 0 <= j < i ==> (#[trigger] copy@[j])@ == strings@[j]@,
        decreases strings@.len() - i,
    {
        copy.push(strings[i].clone());
        i += 1;
    }
    assert(texts(copy@) =~= texts(strings@));
    copy
}

impl View for GameStateData {
    type V = GameView;

    open spec fn view(&self) -> GameView {
        GameView {
            white_player: self.white_player,
            black_player: self.black_player,
            board: self.board@,
            turn: self.turn,
            status: self.status,
            move_timeout: self.move_timeout,
            castle_rights: self.castle_rights@,
            en_passant_idx: self.en_passant_idx,
            pending_src_idx: self.pending_src_idx,
            pending_dst_idx: self.pending_dst_idx,
            pending_promo: self.pending_promo,
            recent_castle: self.recent_castle,
            draw_state: self.draw_state,
            move_log: texts(self.move_log@),
        }
    }
}

impl Clone for GameStateData {
    fn clone(&self) -> (copy: GameStateData)
        ensures
            copy@ == self@,
    {
        GameStateData {
            white_player: self.white_player,
            black_player: self.black_player,
            board: copy_bytes(&self.board),
            turn: self.turn,
            status: self.status,
            move_timeout: self.move_timeout,
            castle_rights: self.castle_rights,
            en_passant_idx: self.en_passant_idx,
            pending_src_idx: self.pending_src_idx,
            pending_dst_idx: self.pending_dst_idx,
            pending_promo: self.pending_promo,
            recent_castle: self.recent_castle,
            draw_state: self.draw_state,
            move_log: copy_strings(&self.move_log),
        }
    }
}

/// Whether a number fits in a byte.
pub open spec fn is_byte(n: int) -> bool {
    0 <= n <= 255
}

impl GameView {
    /// Whether every field that the chain stores in a byte fits in one.
    pub open spec fn fits(self) -> bool {
        &&& is_byte(self.turn as int)
        &&& is_byte(self.status as int)
        &&& is_byte(self.en_passant_idx as int)
        &&& is_byte(self.pending_src_idx as int)
        &&& is_byte(self.pending_dst_idx as int)
        &&& is_byte(self.pending_promo as int)
        &&& is_byte(self.recent_castle as int)
        &&& is_byte(self.draw_state as int)
    }

    /// A state that a game can be in: 64 squares, a side to move, a known status and draw state,
    /// and every byte field in range.
    pub open spec fn wf(self) -> bool {
        &&& self.board.len() == 64
        &&& self.castle_rights.len() == 4
        &&& WHITE <= self.turn <= BLACK
        &&& LIVE <= self.status <= DRAW
        &&& CLAIMED <= self.draw_state <= BOFFER
        &&& self.fits()
    }
}

/// Whether a number fits in a byte.
pub fn fits_byte(n: i64) -> (fits: bool)
    ensures
        fits == is_byte(n as int),
{
    0 <= n && n <= 255
}

impl GameStateData {
    /// Whether a game can be in this state.
    pub fn is_proper(&self) -> (proper: bool)
        ensures
            proper == self@.wf(),
    {
        self.board.len() == 64 && WHITE <= self.turn && self.turn <= BLACK && LIVE <= self.status
            && self.status <= DRAW && CLAIMED <= self.draw_state && self.draw_state <= BOFFER && fits_byte(
            self.en_passant_idx,
        ) && fits_byte(self.pending_src_idx) && fits_byte(self.pending_dst_idx) && fits_byte(
            self.pending_promo,
        ) && fits_byte(self.recent_castle)
    }
}

/// A state value as a byte.
pub fn state_byte(value: i64) -> (byte: u8)
    requires
        is_byte(value as int),
    ensures
        byte == value,
{
    value as u8
}

/// The fields of the league's state.
pub open spec fn league_fields(base_rating: i64, admin: Hash32) -> StateView {
    Seq::<(Seq<char>, FieldView)>::empty().push(("base_rating"@, FieldView::Int(base_rating))).push(
        ("admin"@, FieldView::Hash(admin)),
    )
}

/// The state of the league.
pub fn league_source_state(base_rating: i64, admin: Hash32) -> (state: SourceState)
    ensures
        state@ == league_fields(base_rating, admin),
{
    SourceState::new().with("base_rating", FieldValue::Int(base_rating)).with(
        "admin",
        FieldValue::Hash(admin),
    )
}

/// The fields of a player's state.
pub open spec fn player_fields(p: PlayerStateData) -> StateView {
    Seq::<(Seq<char>, FieldView)>::empty().push(("owner"@, FieldView::Hash(p.owner_hash))).push(
        ("player_id"@, FieldView::Hash(p.player_id)),
    ).push(("open_games"@, FieldView::Int(p.open_games))).push(
        ("rating"@, FieldView::Int(p.rating)),
    ).push(("games"@, FieldView::Int(p.games))).push(("wins"@, FieldView::Int(p.wins))).push(
        ("draws"@, FieldView::Int(p.draws)),
    ).push(("losses"@, FieldView::Int(p.losses)))
}

/// The state of a player.
pub fn player_source_state(p: &PlayerStateData) -> (state: SourceState)
    ensures
        state@ == player_fields(*p),
{
    SourceState::new().with("owner", FieldValue::Hash(p.owner_hash)).with(
        "player_id",
        FieldValue::Hash(p.player_id),
    ).with("open_games", FieldValue::Int(p.open_games)).with("rating", FieldValue::Int(p.rating)).with(
        "games",
        FieldValue::Int(p.games),
    ).with("wins", FieldValue::Int(p.wins)).with("draws", FieldValue::Int(p.draws)).with(
        "losses",
        FieldValue::Int(p.losses),
    )
}

/// The fields of a game's state.
pub open spec fn game_fields(g: GameView) -> StateView {
    Seq::<(Seq<char>, FieldView)>::empty().push(
        ("white_player"@, FieldView::Hash(g.white_player)),
    ).push(("black_player"@, FieldView::Hash(g.black_player))).push(
        ("board"@, FieldView::Bytes(g.board)),
    ).push(("turn"@, FieldView::Byte(g.turn as u8))).push(
        ("status"@, FieldView::Byte(g.status as u8)),
    ).push(("move_timeout"@, FieldView::Int(g.move_timeout))).push(
        ("castle_rights"@, FieldView::Quad(g.castle_rights)),
    ).push(("en_passant_idx"@, FieldView::Byte(g.en_passant_idx as u8))).push(
        ("pending_src_idx"@, FieldView::Byte(g.pending_src_idx as u8)),
    ).push(("pending_dst_idx"@, FieldView::Byte(g.pending_dst_idx as u8))).push(
        ("pending_promo"@, FieldView::Byte(g.pending_promo as u8)),
    ).push(("recent_castle"@, FieldView::Byte(g.recent_castle as u8))).push(
        ("draw_state"@, FieldView::Byte(g.draw_state as u8)),
    )
}

/// The state of a game.
pub fn game_source_state(g: &GameStateData) -> (state: SourceState)
    requires
        g@.fits(),
    ensures
        state@ == game_fields(g@),
{
    SourceState::new().with("white_player", FieldValue::Hash(g.white_player)).with(
        "black_player",
        FieldValue::Hash(g.black_player),
    ).with("board", FieldValue::Bytes(copy_bytes(&g.board))).with(
        "turn",
        FieldValue::Byte(state_byte(g.turn)),
    ).with("status", FieldValue::Byte(state_byte(g.status))).with(
        "move_timeout",
        FieldValue::Int(g.move_timeout),
    ).with("castle_rights", FieldValue::Quad(g.castle_rights)).with(
        "en_passant_idx",
        FieldValue::Byte(state_byte(g.en_passant_idx)),
    ).with("pending_src_idx", FieldValue::Byte(state_byte(g.pending_src_idx))).with(
        "pending_dst_idx",
        FieldValue::Byte(state_byte(g.pending_dst_idx)),
    ).with("pending_promo", FieldValue::Byte(state_byte(g.pending_promo))).with(
        "recent_castle",
        FieldValue::Byte(state_byte(g.recent_castle)),
    ).with("draw_state", FieldValue::Byte(state_byte(g.draw_state)))
}

/// The fields of a settlement's state.
pub open spec fn settle_fields(
    white_player: Hash32,
    black_player: Hash32,
    status: i64,
) -> StateView {
    Seq::<(Seq<char>, FieldView)>::empty().push(("white_player"@, FieldView::Hash(white_player))).push(
        ("black_player"@, FieldView::Hash(black_player)),
    ).push(("status"@, FieldView::Byte(status as u8)))
}

/// The state of a settlement.
pub fn settle_source_state(
    white_player: Hash32,
    black_player: Hash32,
    status: i64,
) -> (state: SourceState)
    requires
        is_byte(status as int),
    ensures
        state@ == settle_fields(white_player, black_player, status),
{
    SourceState::new().with("white_player", FieldValue::Hash(white_player)).with(
        "black_player",
        FieldValue::Hash(black_player),
    ).with("status", FieldValue::Byte(state_byte(status)))
}

/// The side that a player reference plays, or why it plays none.
pub open spec fn side_of(
    name: Seq<char>,
    player_ref: Option<Hash32>,
    white_player: Hash32,
    black_player: Hash32,
) -> Result<Side, Seq<char>> {
    match player_ref {
        None => Err(name + " missing player ref"@),
        Some(r) => if r == white_player {
            Ok(Side::White)
        } else if r == black_player {
            Ok(Side::Black)
        } else {
            Err(name + " is not part of the active game"@)
        },
    }
}

/// The side that a player plays in a game.
pub fn player_side(
    player: &SigningPlayer,
    game: &GameStateData,
) -> (side: Result<Side, OrchestratorError>)
    ensures
        error::verdict(side) == side_of(
            player@.name,
            player@.player_ref,
            game.white_player,
            game.black_player,
        ),
{
    match player.player_ref {
        None => Err(OrchestratorError(join2(player.name.as_str(), " missing player ref"))),
        Some(player_ref) => if player_ref == game.white_player {
            Ok(Side::White)
        } else if player_ref == game.black_player {
            Ok(Side::Black)
        } else {
            Err(OrchestratorError(join2(player.name.as_str(), " is not part of the active game")))
        },
    }
}

/// Whether the number of a square can be computed without leaving the machine range.
pub open spec fn square_fits(x: int, y: int) -> bool {
    &&& i64::MIN <= y * 8 <= i64::MAX
    &&& i64::MIN <= moves::square(x, y) <= i64::MAX
}

/// Whether both squares of a move have numbers in the machine range.
pub open spec fn squares_fit(mv: MoveSpec) -> bool {
    square_fits(mv.from_x as int, mv.from_y as int) && square_fits(mv.to_x as int, mv.to_y as int)
}

/// The draw state while a move is pending: a standing offer lapses, and an offering move makes the
/// mover's offer.
pub open spec fn pending_draw_state(draw_state: i64, turn: i64, termination_action: i64) -> i64 {
    if termination_action == OFFER {
        (WOFFER + turn) as i64
    } else if draw_state > NORMAL {
        NORMAL
    } else {
        draw_state
    }
}

/// The state that a move routes to its worker.
pub open spec fn pending_state(g: GameView, mv: MoveSpec, termination_action: i64) -> GameView {
    GameView {
        pending_src_idx: moves::square(mv.from_x as int, mv.from_y as int) as i64,
        pending_dst_idx: moves::square(mv.to_x as int, mv.to_y as int) as i64,
        pending_promo: mv.promo_piece,
        recent_castle: 0,
        draw_state: pending_draw_state(g.draw_state, g.turn, termination_action),
        ..g
    }
}

/// The state that a move routes to its worker.
pub fn pending_state_for_move(
    game: &GameStateData,
    mv: MoveSpec,
    termination_action: i64,
) -> (pending: GameStateData)
    requires
        squares_fit(mv),
        termination_action == OFFER ==> game.turn <= i64::MAX - WOFFER,
    ensures
        pending@ == pending_state(game@, mv, termination_action),
{
    let mut draw_state: i64 = game.draw_state;
    if draw_state > NORMAL {
        draw_state = NORMAL;
    }
    if termination_action == OFFER {
        draw_state = WOFFER + game.turn;
    }
    GameStateData {
        white_player: game.white_player,
        black_player: game.black_player,
        board: copy_bytes(&game.board),
        turn: game.turn,
        status: game.status,
        move_timeout: game.move_timeout,
        castle_rights: game.castle_rights,
        en_passant_idx: game.en_passant_idx,
        pending_src_idx: square_idx(mv.from_x, mv.from_y),
        pending_dst_idx: square_idx(mv.to_x, mv.to_y),
        pending_promo: mv.promo_piece,
        recent_castle: 0,
        draw_state,
        move_log: copy_strings(&game.move_log),
    }
}

/// Whether a castle marker is one of white's: 1 for the king side, 2 for the queen side.
pub open spec fn is_white_castle(marker: int) -> bool {
    marker == 1 || marker == 2
}

/// Whether a castle marker is on the king side: 1 for white, 3 for black.
pub open spec fn is_king_side(marker: int) -> bool {
    marker == 1 || marker == 3
}

/// The first square of the castling side's home rank.
pub open spec fn castle_row(marker: int) -> int {
    if is_white_castle(marker) {
        0
    } else {
        56
    }
}

/// The square from which the king castled.
pub open spec fn castle_start(marker: int) -> int {
    castle_row(marker) + 4
}

/// The square that the king crossed.
pub open spec fn castle_transit(marker: int) -> int {
    castle_row(marker) + (if is_king_side(marker) {
        5int
    } else {
        3int
    })
}

/// The square on which the king landed.
pub open spec fn castle_destination(marker: int) -> int {
    castle_row(marker) + (if is_king_side(marker) {
        6int
    } else {
        2int
    })
}

/// The square on which the rook stood before the castle.
pub open spec fn castle_corner(marker: int) -> int {
    castle_row(marker) + (if is_king_side(marker) {
        7int
    } else {
        0int
    })
}

/// Whether a castle moved a piece to or from the square, or the king crossed it.
pub open spec fn on_castle_lane(marker: int, i: int) -> bool {
    i == castle_start(marker) || i == castle_transit(marker) || i == castle_destination(marker) || i
        == castle_corner(marker)
}

/// Why a state cannot be turned into the proof of an illegal castle.
pub open spec fn proof_refusal(g: GameView) -> Option<Seq<char>> {
    if g.board.len() != 64 {
        Some("board must contain exactly 64 squares, got "@ + text::decimal(g.board.len()))
    } else if g.draw_state != NORMAL {
        Some("a castle challenge requires the normal draw state"@)
    } else if !(1 <= g.recent_castle <= 4) {
        Some("castle challenge marker must be between 1 and 4"@)
    } else if g.pending_src_idx == g.pending_dst_idx {
        Some("castle challenge source and destination must differ"@)
    } else if g.pending_dst_idx != castle_start(g.recent_castle as int) && g.pending_dst_idx
        != castle_transit(g.recent_castle as int) && g.pending_dst_idx != castle_destination(
        g.recent_castle as int,
    ) {
        Some("castle challenge destination is not on the castle lane"@)
    } else {
        None
    }
}

/// The board with the castling king put back on the attacked square: the rook stands beside it if
/// that is the king's destination, and in its corner otherwise.
pub open spec fn proof_board(board: Seq<u8>, marker: int, attacked: int) -> Seq<u8> {
    let king: u8 = if is_white_castle(marker) {
        6
    } else {
        14
    };
    let rook: u8 = if is_white_castle(marker) {
        4
    } else {
        12
    };
    let rook_square = if attacked == castle_destination(marker) {
        castle_transit(marker)
    } else {
        castle_corner(marker)
    };
    Seq::new(
        board.len(),
        |i: int|
            if !on_castle_lane(marker, i) {
                board[i]
            } else if i == attacked {
                king
            } else if i == rook_square {
                rook
            } else {
                0u8
            },
    )
}

/// The state in which a challenger proves a castle illegal.
pub open spec fn proof_state(g: GameView, offboard: i64) -> GameView {
    GameView {
        board: proof_board(g.board, g.recent_castle as int, g.pending_dst_idx as int),
        en_passant_idx: offboard,
        pending_promo: CLEAR,
        ..g
    }
}

/// The state in which a challenger proves a castle illegal. `offboard` is the number that stands
/// for no square.
pub fn castle_challenge_proof_state(
    game: &GameStateData,
    offboard: i64,
) -> (proof_of: Result<GameStateData, OrchestratorError>)
    ensures
        proof_of is Ok <==> proof_refusal(game@) is None,
        proof_of matches Ok(p) ==> p@ == proof_state(game@, offboard),
        proof_of matches Err(e) ==> proof_refusal(game@) == Some(e.0@),
{
    if game.board.len() != 64 {
        return Err(
            OrchestratorError(
                join2(
                    "board must contain exactly 64 squares, got ",
                    decimal_text(game.board.len() as u64).as_str(),
                ),
            ),
        );
    }
    if game.draw_state != NORMAL {
        return Err(refuse("a castle challenge requires the normal draw state"));
    }
    if !(1 <= game.recent_castle && game.recent_castle <= 4) {
        return Err(refuse("castle challenge marker must be between 1 and 4"));
    }
    if game.pending_src_idx == game.pending_dst_idx {
        return Err(refuse("castle challenge source and destination must differ"));
    }
    let white_castle: bool = game.recent_castle == 1 || game.recent_castle == 2;
    let king_side: bool = game.recent_castle == 1 || game.recent_castle == 3;
    let row_base: i64 = if white_castle {
        0
    } else {
        56
    };
    let king_piece: u8 = if white_castle {
        0x06
    } else {
        0x0e
    };
    let rook_piece: u8 = if white_castle {
        0x04
    } else {
        0x0c
    };
    let start_idx: i64 = row_base + 4;
    let transit_idx: i64 = if king_side {
        row_base + 5
    } else {
        row_base + 3
    };
    let destination_idx: i64 = if king_side {
        row_base + 6
    } else {
        row_base + 2
    };
    let phase: u8 = if game.pending_dst_idx == start_idx {
        1
    } else if game.pending_dst_idx == transit_idx {
        2
    } else if game.pending_dst_idx == destination_idx {
        3
    } else {
        return Err(refuse("castle challenge destination is not on the castle lane"));
    };

    let mut proof_game: GameStateData = game.clone();
    let row: usize = row_base as usize;
    if king_side {
        let (a, b, c, d): (u8, u8, u8, u8) = if phase == 1 {
            (king_piece, 0, 0, rook_piece)
        } else if phase == 2 {
            (0, king_piece, 0, rook_piece)
        } else {
            (0, rook_piece, king_piece, 0)
        };
        proof_game.board[row + 4] = a;
        proof_game.board[row + 5] = b;
        proof_game.board[row + 6] = c;
        proof_game.board[row + 7] = d;
    } else {
        let (a, b, c, d): (u8, u8, u8, u8) = if phase == 1 {
            (rook_piece, 0, 0, king_piece)
        } else if phase == 2 {
            (rook_piece, 0, king_piece, 0)
        } else {
            (0, king_piece, rook_piece, 0)
        };
        proof_game.board[row] = a;
        proof_game.board[row + 2] = b;
        proof_game.board[row + 3] = c;
        proof_game.board[row + 4] = d;
    }
    proof_game.en_passant_idx = offboard;
    proof_game.pending_promo = CLEAR;
    assert(proof_game.board@ =~= proof_board(
        game.board@,
        game.recent_castle as int,
        game.pending_dst_idx as int,
    ));
    Ok(proof_game)
}

/// Whether the number of the next turn stays in the machine range.
pub open spec fn turn_can_pass(g: GameView) -> bool {
    1 - g.turn <= i64::MAX
}

/// The side whose pieces the mover moves: in a draw claim the players move each other's pieces.
pub open spec fn effective_turn(g: GameView) -> i64 {
    if g.draw_state < NORMAL {
        (1 - g.turn) as i64
    } else {
        g.turn
    }
}

/// The request to apply a move to a game.
pub open spec fn move_request(
    g: GameView,
    mv: MoveSpec,
    allow_protocol_nonstandard: bool,
) -> RequestView {
    RequestView::ApplyMove {
        board: g.board,
        turn: effective_turn(g),
        castle_rights: g.castle_rights,
        en_passant_idx: g.en_passant_idx,
        mv,
        standard: !allow_protocol_nonstandard,
    }
}

/// Asks to apply a move to a game, under the rules of chess or under the broader protocol rules.
pub fn request_move(
    game: &GameStateData,
    mv: MoveSpec,
    allow_protocol_nonstandard: bool,
) -> (request: Request)
    requires
        game.draw_state < NORMAL ==> turn_can_pass(game@),
    ensures
        request@ == move_request(game@, mv, allow_protocol_nonstandard),
{
    let turn: i64 = if game.draw_state < NORMAL {
        1 - game.turn
    } else {
        game.turn
    };
    Request::ApplyMove {
        board: copy_bytes(&game.board),
        turn,
        castle_rights: game.castle_rights,
        en_passant_idx: game.en_passant_idx,
        mv,
        standard: !allow_protocol_nonstandard,
    }
}

/// What follows the reason when a move is refused: a hint to force it, unless it was forced.
pub open spec fn refused_move_hint(allow_protocol_nonstandard: bool) -> &'static str {
    if allow_protocol_nonstandard {
        ""
    } else {
        ". Use Force Move to follow the broader protocol path."
    }
}

/// What follows the reason when a move is refused.
pub fn move_hint(allow_protocol_nonstandard: bool) -> (hint: &'static str)
    ensures
        hint == refused_move_hint(allow_protocol_nonstandard),
{
    if allow_protocol_nonstandard {
        ""
    } else {
        ". Use Force Move to follow the broader protocol path."
    }
}

/// The game after a move that led to the given position, before the worker's own rules.
pub open spec fn moved_state(
    g: GameView,
    mv: MoveSpec,
    moved: MovedPosition,
    offboard: i64,
) -> GameView {
    GameView {
        board: moved.board@,
        turn: (1 - g.turn) as i64,
        castle_rights: moved.castle_rights@,
        en_passant_idx: moved.en_passant_idx as i64,
        pending_src_idx: offboard,
        pending_dst_idx: offboard,
        pending_promo: 0,
        recent_castle: moved.recent_castle as i64,
        move_log: g.move_log.push(moves::move_label(mv)),
        ..g
    }
}

/// The game after a move that led to the given position.
pub fn apply_move_to_state(
    game: &GameStateData,
    mv: MoveSpec,
    moved: &MovedPosition,
    offboard: i64,
) -> (next: GameStateData)
    requires
        turn_can_pass(game@),
        moves::has_label(mv),
    ensures
        next@ == moved_state(game@, mv, *moved, offboard),
{
    let mut move_log: Vec<String> = copy_strings(&game.move_log);
    let ghost earlier = move_log@;
    move_log.push(mv.label());
    assert(texts(move_log@) =~= texts(earlier).push(moves::move_label(mv)));
    let mut board: Vec<u8> = Vec::new();
    board.extend_from_slice(moved.board.as_slice());
    assert(board@ =~= moved.board@);
    GameStateData {
        white_player: game.white_player,
        black_player: game.black_player,
        board,
        turn: 1 - game.turn,
        status: game.status,
        move_timeout: game.move_timeout,
        castle_rights: moved.castle_rights,
        en_passant_idx: moved.en_passant_idx as i64,
        pending_src_idx: offboard,
        pending_dst_idx: offboard,
        pending_promo: 0,
        recent_castle: moved.recent_castle as i64,
        draw_state: game.draw_state,
        move_log,
    }
}

/// Whether a move starts or ends on the square.
pub open spec fn touches(mv: MoveSpec, idx: int) -> bool {
    moves::square(mv.from_x as int, mv.from_y as int) == idx || moves::square(
        mv.to_x as int,
        mv.to_y as int,
    ) == idx
}

/// The piece on a square.
pub open spec fn piece_at(g: GameView, x: i64, y: i64) -> u8 {
    g.board[moves::square(x as int, y as int)]
}

/// Whether a move that a worker executes takes castling right `j` away. The rights are white's
/// king and queen side, then black's.
pub open spec fn loses_right(worker: WorkerKind, g: GameView, mv: MoveSpec, j: int) -> bool {
    match worker {
        WorkerKind::Vert | WorkerKind::Horiz => {
            ||| j == 0 && touches(mv, 7)
            ||| j == 1 && touches(mv, 0)
            ||| j == 2 && touches(mv, 63)
            ||| j == 3 && touches(mv, 56)
        },
        WorkerKind::King | WorkerKind::Castle => if piece_at(g, mv.from_x, mv.from_y) > 8 {
            j == 2 || j == 3
        } else {
            j == 0 || j == 1
        },
        _ => false,
    }
}

/// The castling rights after a move.
pub open spec fn rights_after(worker: WorkerKind, g: GameView, mv: MoveSpec) -> Seq<u8> {
    Seq::new(
        4,
        |j: int|
            if loses_right(worker, g, mv, j) {
                0u8
            } else {
                g.castle_rights[j]
            },
    )
}

/// The status with which the side to move wins.
pub open spec fn mover_wins(turn: i64) -> i64 {
    if turn == WHITE {
        WWIN
    } else {
        BWIN
    }
}

/// The status with which the side to move loses.
pub open spec fn mover_loses(turn: i64) -> i64 {
    if turn == WHITE {
        BWIN
    } else {
        WWIN
    }
}

/// The status right after a move, before a failed draw defense is counted. A move in answer to a
/// castle is a proof that the castle was illegal, and wins. In a draw claim the mover wins by
/// capturing the king opposite to the pieces moved. Otherwise the capture of a king wins for the
/// colour of the capturing piece.
pub open spec fn capture_status(g: GameView, mv: MoveSpec) -> i64 {
    let target = piece_at(g, mv.to_x, mv.to_y);
    if g.recent_castle != CLEAR {
        mover_wins(g.turn)
    } else if g.draw_state < NORMAL {
        if (effective_turn(g) == WHITE && target == 14) || (effective_turn(g) == BLACK && target == 6) {
            mover_wins(g.turn)
        } else {
            g.status
        }
    } else {
        let moving_is_black = piece_at(g, mv.from_x, mv.from_y) > 8;
        if !moving_is_black && target == 14 {
            WWIN
        } else if moving_is_black && target == 6 {
            BWIN
        } else {
            g.status
        }
    }
}

/// The status after a move: a claimant who defends a draw claim without capturing the king loses.
pub open spec fn status_after(g: GameView, mv: MoveSpec) -> i64 {
    let captured = capture_status(g, mv);
    if g.draw_state == DEFENSE && captured == LIVE {
        mover_loses(g.turn)
    } else {
        captured
    }
}

/// The draw state after a move: the answer to a draw claim hands the defense to the claimant.
pub open spec fn draw_state_after(draw_state: i64) -> i64 {
    if draw_state == CLAIMED {
        DEFENSE
    } else {
        draw_state
    }
}

/// The game after a worker executed a move. A castle changes neither status nor draw state.
pub open spec fn worked_state(
    worker: WorkerKind,
    g: GameView,
    mv: MoveSpec,
    moved: MovedPosition,
    offboard: i64,
) -> GameView {
    let next = GameView {
        castle_rights: rights_after(worker, g, mv),
        ..moved_state(g, mv, moved, offboard)
    };
    if worker == WorkerKind::Castle {
        next
    } else {
        GameView { status: status_after(g, mv), draw_state: draw_state_after(g.draw_state), ..next }
    }
}

/// Whether a square is on a board of `len` squares.
pub open spec fn square_exists(len: nat, x: i64, y: i64) -> bool {
    square_fits(x as int, y as int) && 0 <= moves::square(x as int, y as int) < len
}

/// Whether a worker moves along a file or a rank.
pub open spec fn moves_straight(worker: WorkerKind) -> bool {
    worker == WorkerKind::Vert || worker == WorkerKind::Horiz
}

/// Whether a worker moves a king.
pub open spec fn moves_king(worker: WorkerKind) -> bool {
    worker == WorkerKind::King || worker == WorkerKind::Castle
}

/// Whether the squares that a worker looks at are there: the source where the moving piece decides,
/// and the destination unless it castles.
pub open spec fn worker_squares_exist(worker: WorkerKind, g: GameView, mv: MoveSpec) -> bool {
    let source = square_exists(g.board.len(), mv.from_x, mv.from_y);
    match worker {
        WorkerKind::CastleChallenge => true,
        WorkerKind::Castle => source,
        _ => {
            &&& square_exists(g.board.len(), mv.to_x, mv.to_y)
            &&& moves_straight(worker) ==> square_fits(mv.from_x as int, mv.from_y as int)
            &&& moves_king(worker) || (g.recent_castle == CLEAR && g.draw_state >= NORMAL) ==> source
        },
    }
}

/// The piece on a square.
fn piece_on(game: &GameStateData, x: i64, y: i64) -> (piece: u8)
    requires
        square_exists(game.board@.len(), x, y),
    ensures
        piece == piece_at(game@, x, y),
{
    let idx: i64 = square_idx(x, y);
    let size: usize = game.board.len();
    assert(idx < size);
    game.board[idx as usize]
}

/// A castling right, gone if `lost`.
fn right_unless(lost: bool, right: u8) -> (kept: u8)
    ensures
        kept == if lost {
            0u8
        } else {
            right
        },
{
    if lost {
        0
    } else {
        right
    }
}

/// The castling rights after a worker executed a move.
pub fn worker_castle_rights(
    worker: WorkerKind,
    game: &GameStateData,
    mv: MoveSpec,
) -> (rights: [u8; 4])
    requires
        moves_straight(worker) ==> squares_fit(mv),
        moves_king(worker) ==> square_exists(game.board@.len(), mv.from_x, mv.from_y),
    ensures
        rights@ == rights_after(worker, game@, mv),
{
    let old_rights: [u8; 4] = game.castle_rights;
    let rights: [u8; 4] = match worker {
        WorkerKind::Vert | WorkerKind::Horiz => {
            let from_idx: i64 = square_idx(mv.from_x, mv.from_y);
            let to_idx: i64 = square_idx(mv.to_x, mv.to_y);
            [
                right_unless(from_idx == 7 || to_idx == 7, old_rights[0]),
                right_unless(from_idx == 0 || to_idx == 0, old_rights[1]),
                right_unless(from_idx == 63 || to_idx == 63, old_rights[2]),
                right_unless(from_idx == 56 || to_idx == 56, old_rights[3]),
            ]
        },
        WorkerKind::King | WorkerKind::Castle => {
            let black: bool = piece_on(game, mv.from_x, mv.from_y) > 8;
            [
                right_unless(!black, old_rights[0]),
                right_unless(!black, old_rights[1]),
                right_unless(black, old_rights[2]),
                right_unless(black, old_rights[3]),
            ]
        },
        _ => old_rights,
    };
    assert(rights@ =~= rights_after(worker, game@, mv));
    rights
}

/// The game after a worker executed a move that led to the given position. The preparation of a
/// castle challenge executes no move.
pub fn apply_worker_state(
    worker: WorkerKind,
    game: &GameStateData,
    mv: MoveSpec,
    moved: &MovedPosition,
    offboard: i64,
) -> (next: Result<GameStateData, OrchestratorError>)
    requires
        turn_can_pass(game@),
        moves::has_label(mv),
        worker_squares_exist(worker, game@, mv),
    ensures
        next matches Ok(n) ==> n@ == worked_state(worker, game@, mv, *moved, offboard),
        next is Ok <==> worker != WorkerKind::CastleChallenge,
        next matches Err(e) ==> e.0@
            == "castle challenge apply is not modeled as a direct player move"@,
{
    let mut next: GameStateData = apply_move_to_state(game, mv, moved, offboard);
    if worker == WorkerKind::CastleChallenge {
        return Err(refuse("castle challenge apply is not modeled as a direct player move"));
    }
    next.castle_rights = worker_castle_rights(worker, game, mv);
    if worker == WorkerKind::Castle {
        return Ok(next);
    }
    let target_piece: u8 = piece_on(game, mv.to_x, mv.to_y);
    let is_draw_claim_mode: bool = game.draw_state < NORMAL;
    let acting_turn: i64 = if is_draw_claim_mode {
        1 - game.turn
    } else {
        game.turn
    };
    let win: i64 = if game.turn == WHITE {
        WWIN
    } else {
        BWIN
    };

    let mut next_status: i64 = game.status;
    if game.recent_castle != CLEAR {
        next_status = win;
    } else if is_draw_claim_mode {
        if acting_turn == WHITE && target_piece == 14 {
            next_status = win;
        }
        if acting_turn == BLACK && target_piece == 6 {
            next_status = win;
        }
    } else {
        let moving_piece: u8 = piece_on(game, mv.from_x, mv.from_y);
        let moving_is_black: bool = moving_piece > 8;
        if !moving_is_black && target_piece == 14 {
            next_status = WWIN;
        }
        if moving_is_black && target_piece == 6 {
            next_status = BWIN;
        }
    }

    let mut next_draw_state: i64 = game.draw_state;
    if game.draw_state == CLAIMED {
        next_draw_state = DEFENSE;
    } else if game.draw_state == DEFENSE && next_status == LIVE {
        next_status = if game.turn == WHITE {
            BWIN
        } else {
            WWIN
        };
    }

    next.status = next_status;
    next.draw_state = next_draw_state;
    Ok(next)
}

} // verus!
