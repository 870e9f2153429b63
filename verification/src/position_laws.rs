//! What a move does to a position, in the numbers that the contracts store.

use vstd::prelude::*;

use crate::dialogue::{MovedPosition, RequestView};
use crate::game::{self, GameView};
use crate::hash::Hash32;
use crate::league;
use crate::moves::{self, MoveSpec, WorkerKind};
use crate::rating;
use crate::signing;
use crate::status::{self, GameResult, Side};
use crate::text;

verus! {

/// The numbers by which the contracts know turns, statuses, termination actions and draw states, and
/// the numbers that the league starts from.
pub proof fn codes_of_the_contracts()
    ensures
        status::WHITE == 0 && status::BLACK == 1,
        status::LIVE == 0 && status::WWIN == 1 && status::BWIN == 2 && status::DRAW == 3,
        status::CLEAR == 0 && status::OFFER == 1 && status::CLAIM == 2 && status::SURRENDER == 3,
        status::ACCEPT == 4,
        status::CLAIMED == 1 && status::DEFENSE == 2 && status::NORMAL == 3,
        status::WOFFER == 4 && status::BOFFER == 5,
        status::DEFAULT_MOVE_TIMEOUT == 600,
        signing::SIG_HASH_ALL_BYTE == 1,
        league::BASE_RATING == 1200 && league::ADMIN_SEED == 0x33,
{
}

/// The opening is the standard position: rook, knight, bishop, queen, king, bishop, knight and rook on
/// the first rank, pawns before them, the same pieces of black on the last two ranks file by file, and
/// nothing between.
pub proof fn opening_is_the_standard_position(x: int)
    requires
        0 <= x < 8,
    ensures
        ({
            let board = moves::opening_board();
            &&& board.len() == 64
            &&& board[0] == 4 && board[1] == 2 && board[2] == 3 && board[3] == 5
            &&& board[4] == 6 && board[5] == 3 && board[6] == 2 && board[7] == 4
            &&& board[8 + x] == 1
            &&& board[16 + x] == 0 && board[24 + x] == 0 && board[32 + x] == 0 && board[40 + x] == 0
            &&& board[48 + x] == 9
            &&& board[56 + x] == board[x] + 8
            &&& board[59] == 13 && board[60] == 14
        }),
{
}

/// Whether the source and the destination lie on the board.
pub open spec fn stays_on_board(mv: MoveSpec) -> bool {
    0 <= mv.from_x < 8 && 0 <= mv.from_y < 8 && 0 <= mv.to_x < 8 && 0 <= mv.to_y < 8
}

/// The piece that a move picks up.
pub open spec fn source_piece(board: Seq<u8>, mv: MoveSpec) -> u8 {
    board[mv.from_y * 8 + mv.from_x]
}

/// The piece on the square where a move ends.
pub open spec fn target_piece(board: Seq<u8>, mv: MoveSpec) -> u8 {
    board[mv.to_y * 8 + mv.to_x]
}

/// The worker of a move follows the piece that it picks up, the same for either colour: pawns,
/// knights and bishops by kind, rooks and queens by direction, and a king castles when it goes two
/// files along its rank.
pub proof fn worker_follows_the_piece(board: Seq<u8>, mv: MoveSpec)
    ensures
        ({
            let choice = moves::worker_choice(board, mv);
            let p = source_piece(board, mv);
            let dx = mv.to_x - mv.from_x;
            let dy = mv.to_y - mv.from_y;
            let straight = if dx == 0 {
                WorkerKind::Vert
            } else {
                WorkerKind::Horiz
            };
            &&& !stays_on_board(mv) ==> choice == Err::<WorkerKind, Seq<char>>(
                "move coordinates must stay on board"@,
            )
            &&& stays_on_board(mv) ==> {
                &&& p == 0 ==> choice == Err::<WorkerKind, Seq<char>>("no piece on source square"@)
                &&& p == 1 || p == 9 ==> choice == Ok::<WorkerKind, Seq<char>>(WorkerKind::Pawn)
                &&& p == 2 || p == 10 ==> choice == Ok::<WorkerKind, Seq<char>>(WorkerKind::Knight)
                &&& p == 3 || p == 11 ==> choice == Ok::<WorkerKind, Seq<char>>(WorkerKind::Diag)
                &&& (p == 4 || p == 12) && (dx == 0 || dy == 0) ==> choice == Ok::<
                    WorkerKind,
                    Seq<char>,
                >(straight)
                &&& (p == 4 || p == 12) && dx != 0 && dy != 0 ==> choice == Err::<WorkerKind, Seq<char>>(
                    "rook move must stay on file or rank"@,
                )
                &&& (p == 5 || p == 13) && (dx == 0 || dy == 0) ==> choice == Ok::<
                    WorkerKind,
                    Seq<char>,
                >(straight)
                &&& (p == 5 || p == 13) && dx != 0 && (dx == dy || dx + dy == 0) ==> choice == Ok::<
                    WorkerKind,
                    Seq<char>,
                >(WorkerKind::Diag)
                &&& (p == 5 || p == 13) && dx != 0 && dy != 0 && dx != dy && dx + dy != 0 ==> choice
                    == Err::<WorkerKind, Seq<char>>("queen move must be straight or diagonal"@)
                &&& (p == 6 || p == 14) && dy == 0 && (dx == 2 || dx == -2) ==> choice == Ok::<
                    WorkerKind,
                    Seq<char>,
                >(WorkerKind::Castle)
                &&& (p == 6 || p == 14) && !(dy == 0 && (dx == 2 || dx == -2)) ==> choice == Ok::<
                    WorkerKind,
                    Seq<char>,
                >(WorkerKind::King)
                &&& p == 7 || p == 8 || p > 14 ==> choice == Err::<WorkerKind, Seq<char>>(
                    "unknown piece kind"@,
                )
            }
        }),
{
}

/// A challenge is proved by the worker of the move that proves it, and a king that would castle is
/// moved as a king.
pub proof fn challenge_worker_never_castles(board: Seq<u8>, mv: MoveSpec)
    ensures
        moves::challenge_worker_choice(board, mv) != Ok::<WorkerKind, Seq<char>>(WorkerKind::Castle),
        moves::worker_choice(board, mv) == Ok::<WorkerKind, Seq<char>>(WorkerKind::Castle)
            ==> moves::challenge_worker_choice(board, mv) == Ok::<WorkerKind, Seq<char>>(WorkerKind::King),
        moves::worker_choice(board, mv) != Ok::<WorkerKind, Seq<char>>(WorkerKind::Castle)
            ==> moves::challenge_worker_choice(board, mv) == moves::worker_choice(board, mv),
{
}

/// A worker is known by the name of its contract.
pub proof fn workers_have_contracts(worker: WorkerKind)
    ensures
        moves::worker_name(worker)@ == match worker {
            WorkerKind::Pawn => "Pawn"@,
            WorkerKind::Knight => "Knight"@,
            WorkerKind::Vert => "Vert"@,
            WorkerKind::Horiz => "Horiz"@,
            WorkerKind::Diag => "Diag"@,
            WorkerKind::King => "King"@,
            WorkerKind::Castle => "Castle"@,
            WorkerKind::CastleChallenge => "CastleChallengePrep"@,
        },
{
}

/// The label of a move on the board names its squares, the files from `a` and the ranks from `1`, and
/// tells any two moves apart that differ in a square.
pub proof fn labels_name_the_squares(mv: MoveSpec, other: MoveSpec)
    requires
        stays_on_board(mv),
        stays_on_board(other),
    ensures
        ({
            let label = moves::move_label(mv);
            &&& moves::has_label(mv)
            &&& label.len() == 4
            &&& label[0] as int == 'a' as int + mv.from_x
            &&& label[1] as int == '1' as int + mv.from_y
            &&& label[2] as int == 'a' as int + mv.to_x
            &&& label[3] as int == '1' as int + mv.to_y
            &&& label == moves::move_label(other) ==> mv.from_x == other.from_x && mv.from_y == other.from_y
                && mv.to_x == other.to_x && mv.to_y == other.to_y
        }),
{
    let label = moves::move_label(mv);
    let second = moves::move_label(other);
    if label == second {
        assert(label[0] == second[0] && label[1] == second[1] && label[2] == second[2] && label[3]
            == second[3]);
    }
}

/// A move has a label where the low bytes of its numbers, counted from `a` and `1`, stay in a byte; the
/// label then holds those characters.
pub proof fn labels_count_low_bytes(mv: MoveSpec)
    ensures
        moves::has_label(mv) <==> {
            &&& mv.from_x % 256 <= 158 && mv.to_x % 256 <= 158
            &&& mv.from_y % 256 <= 206 && mv.to_y % 256 <= 206
        },
        moves::has_label(mv) ==> {
            let label = moves::move_label(mv);
            &&& label.len() == 4
            &&& label[0] as int == 97 + mv.from_x % 256 && label[1] as int == 49 + mv.from_y % 256
            &&& label[2] as int == 97 + mv.to_x % 256 && label[3] as int == 49 + mv.to_y % 256
        },
{
}

/// Moves on the board look only at squares that are there.
pub proof fn moves_on_the_board_find_their_squares(worker: WorkerKind, g: GameView, mv: MoveSpec)
    requires
        g.board.len() == 64,
        stays_on_board(mv),
    ensures
        game::squares_fit(mv),
        game::worker_squares_exist(worker, g, mv),
        moves::source_exists(g.board, mv),
        0 <= g.turn <= 1 ==> game::turn_can_pass(g),
{
}

/// The position before a worker's own rules is that of the rules in every part, castling rights too,
/// and status and draw state stay.
pub proof fn positions_come_whole(g: GameView, mv: MoveSpec, moved: MovedPosition, offboard: i64)
    requires
        0 <= g.turn <= 1,
    ensures
        ({
            let next = game::moved_state(g, mv, moved, offboard);
            &&& next.board == moved.board@ && next.castle_rights == moved.castle_rights@
            &&& next.en_passant_idx == moved.en_passant_idx && next.recent_castle == moved.recent_castle
            &&& next.turn + g.turn == 1
            &&& next.status == g.status && next.draw_state == g.draw_state
            &&& next.pending_src_idx == offboard && next.pending_dst_idx == offboard && next.pending_promo == 0
            &&& next.white_player == g.white_player && next.black_player == g.black_player
            &&& next.move_timeout == g.move_timeout
            &&& next.move_log == g.move_log.push(moves::move_label(mv))
        }),
{
}

/// A move is put to the rules with the position as it stands and the side whose pieces move.
pub proof fn rules_are_asked_about_the_position(g: GameView, mv: MoveSpec, forced: bool)
    requires
        0 <= g.turn <= 1,
    ensures
        game::move_request(g, mv, forced) == (RequestView::ApplyMove {
            board: g.board,
            turn: if g.draw_state < 3 {
                (1 - g.turn) as i64
            } else {
                g.turn
            },
            castle_rights: g.castle_rights,
            en_passant_idx: g.en_passant_idx,
            mv,
            standard: !forced,
        }),
        forced ==> game::refused_move_hint(forced)@ == ""@,
        !forced ==> game::refused_move_hint(forced)@
            == ". Use Force Move to follow the broader protocol path."@,
{
}

/// Expected scores step with the rating distance: they rise above 500, 600, 700, 820, 910 and 970
/// when the opponent is weaker by 75, 150, 250, 400, 600 and 800 points, never reach more than 990,
/// and what one player may expect the other may not.
pub proof fn expected_scores_step(diff: int)
    ensures
        ({
            let score = rating::expected_score(diff);
            &&& score > 500 <==> diff <= -75
            &&& score > 600 <==> diff <= -150
            &&& score > 700 <==> diff <= -250
            &&& score > 820 <==> diff <= -400
            &&& score > 910 <==> diff <= -600
            &&& score > 970 <==> diff <= -800
            &&& diff <= 0 ==> score == 500 || score == 600 || score == 700 || score == 820 || score == 910
                || score == 970 || score == 990
            &&& score + rating::expected_score(-diff) == 1000
        }),
{
}

/// A rating moves by 32 thousandths of the score above expectation, with the fraction dropped.
pub proof fn ratings_move_with_the_surplus(own: int, opponent: int, score: int)
    ensures
        ({
            let surplus = 32 * (score - rating::expected_score(opponent - own));
            let change = rating::updated_rating(own, opponent, score) - own;
            &&& surplus >= 0 ==> 1000 * change <= surplus < 1000 * change + 1000
            &&& surplus <= 0 ==> 1000 * change - 1000 < surplus <= 1000 * change
        }),
{
}

/// Between equals a win is worth 16 points, a loss costs 16, and a draw moves nothing.
pub proof fn equals_play_for_sixteen_points(own: int)
    ensures
        rating::updated_rating(own, own, 1000) == own + 16,
        rating::updated_rating(own, own, 500) == own,
        rating::updated_rating(own, own, 0) == own - 16,
{
}

/// Results and statuses name each other: 1 for white's win, 2 for black's, 3 for a draw, and no other
/// status is a result.
pub proof fn results_have_statuses(result: GameResult, code: int)
    ensures
        result == GameResult::WhiteWin <==> status::status_of(result) == 1,
        result == GameResult::BlackWin <==> status::status_of(result) == 2,
        result == GameResult::Draw <==> status::status_of(result) == 3,
        status::result_of(code) == Ok::<GameResult, Seq<char>>(result) <==> code == status::status_of(
            result,
        ),
        status::result_of(code) is Ok <==> code == 1 || code == 2 || code == 3,
{
}

/// White moves on turn 0, black on any other. A side that runs out of time loses, except that a draw
/// claim without an answer is a draw.
pub proof fn turns_and_timeouts(turn: int, draw_state: int)
    ensures
        turn == 0 <==> status::side_to_move(turn) == Side::White,
        turn != 0 <==> status::side_to_move(turn) == Side::Black,
        draw_state == 1 <==> status::timed_out_status(turn, draw_state) == 3,
        draw_state != 1 && turn == 0 <==> status::timed_out_status(turn, draw_state) == 2,
        draw_state != 1 && turn != 0 <==> status::timed_out_status(turn, draw_state) == 1,
{
}

/// A player has the side whose reference the player carries, white's first.
pub proof fn players_have_the_side_of_their_reference(
    name: Seq<char>,
    player_ref: Option<Hash32>,
    white: Hash32,
    black: Hash32,
)
    ensures
        ({
            let side = game::side_of(name, player_ref, white, black);
            &&& side == Ok::<Side, Seq<char>>(Side::White) <==> player_ref == Some(white)
            &&& side == Ok::<Side, Seq<char>>(Side::Black) <==> player_ref == Some(black) && white != black
            &&& player_ref is None ==> side == Err::<Side, Seq<char>>(name + " missing player ref"@)
            &&& player_ref is Some && player_ref != Some(white) && player_ref != Some(black) ==> side
                == Err::<Side, Seq<char>>(name + " is not part of the active game"@)
        }),
{
}

/// A pending move is written into the state: its squares, its promotion piece, and its offer if it
/// makes one. A castle is no longer open to challenge, an earlier offer is gone, and everything else
/// stays.
pub proof fn pending_moves_are_written_down(g: GameView, mv: MoveSpec, action: i64)
    requires
        0 <= g.turn <= 1,
        game::squares_fit(mv),
    ensures
        ({
            let p = game::pending_state(g, mv, action);
            &&& p.pending_src_idx == mv.from_y * 8 + mv.from_x
            &&& p.pending_dst_idx == mv.to_y * 8 + mv.to_x
            &&& p.pending_promo == mv.promo_piece
            &&& p.recent_castle == 0
            &&& action == 1 && g.turn == 0 ==> p.draw_state == 4
            &&& action == 1 && g.turn == 1 ==> p.draw_state == 5
            &&& action != 1 && g.draw_state <= 3 ==> p.draw_state == g.draw_state
            &&& action != 1 && g.draw_state > 3 ==> p.draw_state == 3
            &&& p.white_player == g.white_player && p.black_player == g.black_player
            &&& p.board == g.board && p.castle_rights == g.castle_rights
            &&& p.turn == g.turn && p.status == g.status && p.move_timeout == g.move_timeout
            &&& p.en_passant_idx == g.en_passant_idx && p.move_log == g.move_log
        }),
{
}

/// The position after a move is the one that the rules gave: board, en passant square and castle
/// marker. The turn passes, nothing is pending, the label joins the log, and players and time stay.
pub proof fn moves_take_the_position_of_the_rules(
    worker: WorkerKind,
    g: GameView,
    mv: MoveSpec,
    moved: MovedPosition,
    offboard: i64,
)
    requires
        0 <= g.turn <= 1,
    ensures
        ({
            let next = game::worked_state(worker, g, mv, moved, offboard);
            &&& next.board == moved.board@
            &&& next.en_passant_idx == moved.en_passant_idx
            &&& next.recent_castle == moved.recent_castle
            &&& next.turn + g.turn == 1
            &&& next.pending_src_idx == offboard && next.pending_dst_idx == offboard
            &&& next.pending_promo == 0
            &&& next.white_player == g.white_player && next.black_player == g.black_player
            &&& next.move_timeout == g.move_timeout
            &&& next.move_log.len() == g.move_log.len() + 1
            &&& next.move_log.last() == moves::move_label(mv)
            &&& next.move_log.drop_last() == g.move_log
        }),
{
    let next = game::worked_state(worker, g, mv, moved, offboard);
    assert(next.move_log.drop_last() =~= g.move_log);
}

/// Whether a move starts or ends on a square.
pub open spec fn starts_or_ends_on(mv: MoveSpec, square: int) -> bool {
    mv.from_y * 8 + mv.from_x == square || mv.to_y * 8 + mv.to_x == square
}

/// Castling rights are lost by the king, both of its colour's at once, and by straight moves from or
/// to a rook's corner, that corner's; no other move takes one, and none comes back.
pub proof fn rights_are_lost_by_kings_and_corners(
    worker: WorkerKind,
    g: GameView,
    mv: MoveSpec,
    moved: MovedPosition,
    offboard: i64,
)
    requires
        g.castle_rights.len() == 4,
    ensures
        ({
            let before = g.castle_rights;
            let after = game::worked_state(worker, g, mv, moved, offboard).castle_rights;
            let black = source_piece(g.board, mv) > 8;
            let king = worker == WorkerKind::King || worker == WorkerKind::Castle;
            let line = worker == WorkerKind::Vert || worker == WorkerKind::Horiz;
            &&& after.len() == 4
            &&& after[0] == if (king && !black) || (line && starts_or_ends_on(mv, 7)) {
                0
            } else {
                before[0]
            }
            &&& after[1] == if (king && !black) || (line && starts_or_ends_on(mv, 0)) {
                0
            } else {
                before[1]
            }
            &&& after[2] == if (king && black) || (line && starts_or_ends_on(mv, 63)) {
                0
            } else {
                before[2]
            }
            &&& after[3] == if (king && black) || (line && starts_or_ends_on(mv, 56)) {
                0
            } else {
                before[3]
            }
        }),
{
}

/// A castle decides nothing: status and draw state stay.
pub proof fn castling_decides_nothing(g: GameView, mv: MoveSpec, moved: MovedPosition, offboard: i64)
    ensures
        game::worked_state(WorkerKind::Castle, g, mv, moved, offboard).status == g.status,
        game::worked_state(WorkerKind::Castle, g, mv, moved, offboard).draw_state == g.draw_state,
{
}

/// In normal play a move that takes the enemy king wins for the colour that takes it, whoever is on
/// turn, and any other move leaves the status as it was. The draw state stays.
pub proof fn normal_moves_decide_by_the_king(
    worker: WorkerKind,
    g: GameView,
    mv: MoveSpec,
    moved: MovedPosition,
    offboard: i64,
)
    requires
        worker != WorkerKind::Castle,
        g.recent_castle == 0,
        g.draw_state >= 3,
    ensures
        ({
            let next = game::worked_state(worker, g, mv, moved, offboard);
            let black = source_piece(g.board, mv) > 8;
            let target = target_piece(g.board, mv);
            &&& !black && target == 14 ==> next.status == 1
            &&& black && target == 6 ==> next.status == 2
            &&& !(!black && target == 14) && !(black && target == 6) ==> next.status == g.status
            &&& next.draw_state == g.draw_state
        }),
{
}

/// A move that proves a castle illegal wins for the side on turn.
pub proof fn proofs_win_for_the_side_on_turn(
    worker: WorkerKind,
    g: GameView,
    mv: MoveSpec,
    moved: MovedPosition,
    offboard: i64,
)
    requires
        worker != WorkerKind::Castle,
        g.recent_castle != 0,
    ensures
        g.turn == 0 ==> game::worked_state(worker, g, mv, moved, offboard).status == 1,
        g.turn != 0 ==> game::worked_state(worker, g, mv, moved, offboard).status == 2,
        g.draw_state == 1 ==> game::worked_state(worker, g, mv, moved, offboard).draw_state == 2,
        g.draw_state != 1 ==> game::worked_state(worker, g, mv, moved, offboard).draw_state == g.draw_state,
{
}

/// While a draw is claimed, the side on turn moves the other's pieces and wins by taking its own king
/// with them. The answer to a claim hands the defense over and else decides nothing; a defense that
/// does not take the king loses a game that was still open.
pub proof fn draw_claims_are_played_with_the_other_pieces(
    worker: WorkerKind,
    g: GameView,
    mv: MoveSpec,
    moved: MovedPosition,
    offboard: i64,
)
    requires
        worker != WorkerKind::Castle,
        g.recent_castle == 0,
        0 <= g.turn <= 1,
        g.draw_state == 1 || g.draw_state == 2,
    ensures
        ({
            let next = game::worked_state(worker, g, mv, moved, offboard);
            let target = target_piece(g.board, mv);
            let own_king = if g.turn == 0 {
                6u8
            } else {
                14u8
            };
            &&& game::effective_turn(g) + g.turn == 1
            &&& next.draw_state == 2
            &&& target == own_king && g.turn == 0 ==> next.status == 1
            &&& target == own_king && g.turn == 1 ==> next.status == 2
            &&& target != own_king && g.draw_state == 1 ==> next.status == g.status
            &&& target != own_king && g.draw_state == 2 && g.status != 0 ==> next.status == g.status
            &&& target != own_king && g.draw_state == 2 && g.status == 0 && g.turn == 0 ==> next.status == 2
            &&& target != own_king && g.draw_state == 2 && g.status == 0 && g.turn == 1 ==> next.status == 1
        }),
{
}

/// Outside a draw claim the side on turn moves its own pieces.
pub proof fn sides_move_their_own_pieces(g: GameView)
    requires
        g.draw_state >= 3,
    ensures
        game::effective_turn(g) == g.turn,
{
}

/// The three squares on which the king of a castle stood: where it started, what it crossed, and where
/// it landed. White castles to the king side with marker 1 and to the queen side with 2, black with 3
/// and 4.
pub open spec fn king_path(marker: int) -> (int, int, int) {
    if marker == 1 {
        (4, 5, 6)
    } else if marker == 2 {
        (4, 3, 2)
    } else if marker == 3 {
        (60, 61, 62)
    } else {
        (60, 59, 58)
    }
}

/// The corner from which the rook of a castle came.
pub open spec fn rook_corner(marker: int) -> int {
    if marker == 1 {
        7
    } else if marker == 2 {
        0
    } else if marker == 3 {
        63
    } else {
        56
    }
}

/// A castle of any of the four kinds can be challenged on each square on which the king stood, from
/// any other square, in a normal draw state, and in no other case.
pub proof fn every_square_of_the_king_can_be_challenged(g: GameView)
    requires
        g.board.len() == 64,
    ensures
        ({
            let (start, crossed, landed) = king_path(g.recent_castle as int);
            let attacked = g.pending_dst_idx;
            game::proof_refusal(g) is None <==> {
                &&& g.draw_state == 3
                &&& 1 <= g.recent_castle <= 4
                &&& g.pending_src_idx != attacked
                &&& attacked == start || attacked == crossed || attacked == landed
            }
        }),
{
}

/// A challenge that cannot be proved is refused with its first fault.
pub proof fn challenges_are_refused_by_their_first_fault(g: GameView)
    ensures
        ({
            let (start, crossed, landed) = king_path(g.recent_castle as int);
            let attacked = g.pending_dst_idx;
            let refusal = game::proof_refusal(g);
            &&& g.board.len() != 64 ==> refusal == Some(
                "board must contain exactly 64 squares, got "@ + text::decimal(g.board.len()),
            )
            &&& g.board.len() == 64 && g.draw_state != 3 ==> refusal == Some(
                "a castle challenge requires the normal draw state"@,
            )
            &&& g.board.len() == 64 && g.draw_state == 3 && !(1 <= g.recent_castle <= 4) ==> refusal == Some(
                "castle challenge marker must be between 1 and 4"@,
            )
            &&& g.board.len() == 64 && g.draw_state == 3 && 1 <= g.recent_castle <= 4 && g.pending_src_idx
                == attacked ==> refusal == Some("castle challenge source and destination must differ"@)
            &&& g.board.len() == 64 && g.draw_state == 3 && 1 <= g.recent_castle <= 4 && g.pending_src_idx
                != attacked && attacked != start && attacked != crossed && attacked != landed ==> refusal
                == Some("castle challenge destination is not on the castle lane"@)
        }),
{
}

/// The proof of a challenge puts the castling king on the attacked square. The rook stands where it
/// stood then: on the crossed square once the king has landed, in its corner before. The other squares
/// of king and rook are empty, and no other square changes.
pub proof fn proofs_show_the_king_on_the_attacked_square(g: GameView, offboard: i64, square: int)
    requires
        g.board.len() == 64,
        game::proof_refusal(g) is None,
        0 <= square < 64,
    ensures
        ({
            let marker = g.recent_castle as int;
            let (start, crossed, landed) = king_path(marker);
            let corner = rook_corner(marker);
            let attacked = g.pending_dst_idx as int;
            let shown = game::proof_state(g, offboard);
            let white = marker == 1 || marker == 2;
            let king = if white {
                6u8
            } else {
                14u8
            };
            let rook = if white {
                4u8
            } else {
                12u8
            };
            let rook_square = if attacked == landed {
                crossed
            } else {
                corner
            };
            let moved_square = square == start || square == crossed || square == landed || square == corner;
            &&& shown.board.len() == 64
            &&& shown.board[attacked] == king
            &&& shown.board[rook_square] == rook
            &&& moved_square && square != attacked && square != rook_square ==> shown.board[square] == 0
            &&& !moved_square ==> shown.board[square] == g.board[square]
        }),
{
}

/// The proof of a challenge keeps all of the game but the board, the en passant square and the
/// promotion piece, which are cleared.
pub proof fn proofs_keep_the_rest_of_the_game(g: GameView, offboard: i64)
    ensures
        ({
            let shown = game::proof_state(g, offboard);
            &&& shown.en_passant_idx == offboard && shown.pending_promo == 0
            &&& shown.white_player == g.white_player && shown.black_player == g.black_player
            &&& shown.turn == g.turn && shown.status == g.status && shown.draw_state == g.draw_state
            &&& shown.move_timeout == g.move_timeout && shown.castle_rights == g.castle_rights
            &&& shown.pending_src_idx == g.pending_src_idx && shown.pending_dst_idx == g.pending_dst_idx
            &&& shown.recent_castle == g.recent_castle && shown.move_log == g.move_log
        }),
{
}

} // verus!
