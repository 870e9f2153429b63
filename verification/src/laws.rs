//! What holds across operations.

use vstd::prelude::*;

use crate::arena::{self, ArenaView};
use crate::chain;
use crate::dialogue::{HaltView, MovedPosition, Progress, ReplyView};
use crate::endgame;
use crate::game::{self, GameView, PlayerStateData};
use crate::hash::{self, Hash32};
use crate::league::{self, BASE_RATING};
use crate::moves::{self, MoveSpec, WorkerKind};
use crate::names;
use crate::play;
use crate::rating;
use crate::settlement;
use crate::signing::SignerView;
use crate::status::{
    self, GameResult, ACCEPT, BWIN, CLAIM, CLAIMED, CLEAR, DEFENSE, DRAW, LIVE, NORMAL, OFFER,
    SURRENDER, WHITE, WWIN,
};

verus! {

/// Whether the second arena keeps every transaction and record of the first, in place.
pub open spec fn extends(before: ArenaView, after: ArenaView) -> bool {
    &&& before.transactions.is_prefix_of(after.transactions)
    &&& before.history.is_prefix_of(after.history)
}

/// Every record is that of an executed transaction: it carries its id, the outputs that it spends and
/// the outputs that it makes.
pub proof fn records_are_of_executed_transactions(a: ArenaView, j: int)
    requires
        a.wf(),
        0 <= j < a.history.len(),
    ensures
        exists|i: int|
            {
                let tx = #[trigger] a.transactions[i];
                &&& 0 <= i < a.transactions.len()
                &&& a.history[j].transaction_id == hash::hash_of(chain::transaction_id(tx))
                &&& a.history[j].input_outpoints == Seq::new(
                    tx.inputs.len(),
                    |n: int| tx.inputs[n].previous_outpoint,
                )
                &&& a.history[j].output_outpoints == Seq::new(
                    tx.outputs.len(),
                    |n: int| chain::output_of(tx, n as u32),
                )
            },
{
    assert(arena::is_executed(a.history[j], a.transactions));
}

/// Every finished game of a player is a win, a draw or a loss, and moved the rating by 31 points at
/// most.
pub proof fn records_add_up(a: ArenaView, name: Seq<char>)
    requires
        a.wf(),
        a.players.contains_key(name),
    ensures
        ({
            let p = a.players[name];
            &&& p.games == p.wins + p.draws + p.losses
            &&& p.open_games >= 0
            &&& -31 * p.games <= p.rating - BASE_RATING <= 31 * p.games
        }),
{
}

/// An unforced move that does not go through changes nothing, so long as the player who waits is
/// still in the league: the game goes on where it was.
pub proof fn halted_move_changes_nothing(
    a: ArenaView,
    actor: SignerView,
    mv: MoveSpec,
    termination_action: i64,
    replies: Seq<ReplyView>,
)
    requires
        play::move_progress(a, actor, mv, termination_action, false, replies) is Finished
            ==> arena::owner_of(a.players, play::opponent_ref(a.game->Some_0)) is Some,
    ensures
        play::move_outcome(a, actor, mv, termination_action, false, replies).halt is Some
            ==> play::move_outcome(a, actor, mv, termination_action, false, replies).after == a,
{
}

/// Whether an outcome waits for outside work.
pub open spec fn waits(outcome: play::Outcome) -> bool {
    outcome.halt matches Some(h) && h is Need
}

/// A move or a castle challenge that waits for outside work changes nothing, forced or not.
pub proof fn waiting_move_changes_nothing(
    a: ArenaView,
    actor: SignerView,
    mv: MoveSpec,
    termination_action: i64,
    forced: bool,
    replies: Seq<ReplyView>,
)
    ensures
        waits(play::move_outcome(a, actor, mv, termination_action, forced, replies))
            ==> play::move_outcome(a, actor, mv, termination_action, forced, replies).after == a,
        waits(play::challenge_outcome(a, actor, mv, forced, replies)) ==> play::challenge_outcome(
            a,
            actor,
            mv,
            forced,
            replies,
        ).after == a,
{
}

/// An ending or a settlement that waits for outside work changes nothing.
pub proof fn waiting_ending_changes_nothing(
    a: ArenaView,
    actor: SignerView,
    other: SignerView,
    action: i64,
    label: Seq<char>,
    result: GameResult,
    replies: Seq<ReplyView>,
)
    ensures
        waits(endgame::claim_outcome(a, actor, replies)) ==> endgame::claim_outcome(
            a,
            actor,
            replies,
        ).after == a,
        waits(endgame::termination_outcome(a, actor, action, label, replies))
            ==> endgame::termination_outcome(a, actor, action, label, replies).after == a,
        settlement::settle_progress(a, actor, other, result, replies) is Need
            ==> settlement::settle_after(a, actor, other, result, replies) == a,
{
}

/// Work on the league, and the start of a game, that does not go through changes nothing.
pub proof fn halted_league_work_changes_nothing(
    a: ArenaView,
    player: SignerView,
    other: SignerView,
    lane_index: int,
    value: u64,
    right_value: u64,
    replies: Seq<ReplyView>,
)
    ensures
        !(league::rebalance_progress(a, lane_index, value, replies) is Finished)
            ==> league::rebalance_after(a, lane_index, value, replies) == a,
        !(league::fork_progress(a, lane_index, value, right_value, replies) is Finished)
            ==> league::fork_after(a, lane_index, value, right_value, replies) == a,
        !(league::register_progress(a, player, lane_index, replies) is Finished)
            ==> league::register_after(a, player, lane_index, replies) == a && league::registrant(
            a,
            player,
            lane_index,
            replies,
        ) == player,
        !(league::retire_progress(a, player, replies) is Finished) ==> league::retire_after(
            a,
            player,
            replies,
        ) == a,
        !(league::stake_progress(a, player, value, replies) is Finished) ==> league::stake_after(
            a,
            player,
            value,
            replies,
        ) == a,
        !(play::start_progress(a, player, other, replies) is Finished) ==> play::start_after(
            a,
            player,
            other,
            replies,
        ) == a,
{
}

/// A move that goes through passes the turn, keeps the players, adds its label to the log, and puts
/// two transactions and two records on the books.
pub proof fn move_passes_the_turn(
    a: ArenaView,
    actor: SignerView,
    mv: MoveSpec,
    termination_action: i64,
    forced: bool,
    replies: Seq<ReplyView>,
)
    requires
        a.wf(),
        play::move_progress(a, actor, mv, termination_action, forced, replies) is Finished,
        arena::owner_of(a.players, play::opponent_ref(a.game->Some_0)) is Some,
    ensures
        ({
            let after = play::move_outcome(a, actor, mv, termination_action, forced, replies).after;
            let g = a.game->Some_0;
            let next = after.game->Some_0;
            &&& after.game is Some
            &&& next.turn == 1 - g.turn
            &&& status::side_to_move(next.turn as int) != status::side_to_move(g.turn as int)
            &&& next.white_player == g.white_player
            &&& next.black_player == g.black_player
            &&& next.move_log == g.move_log.push(moves::move_label(mv))
            &&& after.transactions.len() == a.transactions.len() + 2
            &&& after.history.len() == a.history.len() + 2
            &&& extends(a, after)
        }),
{
}

/// Nobody can move twice in a row: after a move that goes through, the mover is refused.
pub proof fn nobody_moves_twice(
    a: ArenaView,
    actor: SignerView,
    mv: MoveSpec,
    again: MoveSpec,
    termination_action: i64,
    forced: bool,
    replies: Seq<ReplyView>,
)
    requires
        a.wf(),
        play::move_progress(a, actor, mv, termination_action, forced, replies) is Finished,
        arena::owner_of(a.players, play::opponent_ref(a.game->Some_0)) is Some,
    ensures
        play::move_refusal(
            play::move_outcome(a, actor, mv, termination_action, forced, replies).after,
            actor,
            again,
        ) == Some("it is not "@ + actor.name + "'s turn"@),
{
}

/// The status that the timeout of the side to move brings: a draw if a draw claim waits for its
/// answer, else the mover's loss.
pub open spec fn timeout_ending(g: GameView) -> i64 {
    if g.draw_state == CLAIMED {
        DRAW
    } else {
        game::mover_loses(g.turn)
    }
}

/// A forced move that its worker fails to apply leaves the game in the worker. Its timeout then
/// brings the mover's loss, or a draw if the move answered a draw claim, to whoever claims it.
pub proof fn failed_forced_move_loses_by_timeout(
    a: ArenaView,
    actor: SignerView,
    claimer: SignerView,
    mv: MoveSpec,
    replies: Seq<ReplyView>,
    claim_replies: Seq<ReplyView>,
)
    requires
        a.wf(),
        play::move_progress(a, actor, mv, CLEAR, true, replies) is Stuck,
    ensures
        ({
            let ending = timeout_ending(a.game->Some_0);
            let parked = play::move_outcome(a, actor, mv, CLEAR, true, replies).after;
            let claimed = endgame::claim_outcome(parked, claimer, claim_replies).after;
            &&& parked.game is None
            &&& parked.active_worker matches Some(w) && endgame::expired(w.state) == ending && (
            endgame::worker_claim_progress(parked, claimer, w, claim_replies) is Finished
                ==> claimed.active_worker is None && (claimed.active_settle matches Some(s) && s.status
                == ending))
        }),
{
}

/// A player who ran out of time between moves cannot claim the timeout.
pub proof fn mover_cannot_claim_own_timeout(
    a: ArenaView,
    claimer: SignerView,
    replies: Seq<ReplyView>,
)
    requires
        a.active_worker is None,
        a.game is Some,
        play::turn_refusal(a, claimer) is None,
    ensures
        endgame::claim_outcome(a, claimer, replies) == (play::Outcome {
            after: a,
            halt: Some(
                HaltView::Refused(claimer.name + " is not entitled to claim this timeout"@),
            ),
            submissions: Seq::empty(),
        }),
{
}

/// The timeout of a game between moves makes the waiting side win, or a draw if a draw claim waits
/// for its answer; either way the game is no longer in progress.
pub proof fn timeout_rewards_the_waiting_side(
    a: ArenaView,
    claimer: SignerView,
    replies: Seq<ReplyView>,
)
    requires
        a.wf(),
        a.active_worker is None,
        a.game is Some,
        endgame::mux_claim_progress(a, claimer, a.game->Some_0, replies) is Finished,
    ensures
        ({
            let g = a.game->Some_0;
            let after = endgame::claim_outcome(a, claimer, replies).after;
            &&& after.game is None
            &&& after.game_outpoint is None
            &&& after.active_settle matches Some(s) && s.status == timeout_ending(g)
        }),
{
}

/// A draw offered with a move that goes through can be accepted by the opponent, and makes a draw.
pub proof fn offered_draw_can_be_accepted(
    a: ArenaView,
    actor: SignerView,
    opponent: SignerView,
    mv: MoveSpec,
    forced: bool,
    replies: Seq<ReplyView>,
)
    requires
        a.wf(),
        play::move_progress(a, actor, mv, OFFER, forced, replies) is Finished,
        arena::owner_of(a.players, play::opponent_ref(a.game->Some_0)) is Some,
        opponent.player_ref == Some(play::opponent_ref(a.game->Some_0)),
        a.game->Some_0.white_player != a.game->Some_0.black_player,
    ensures
        ({
            let after = play::move_outcome(a, actor, mv, OFFER, forced, replies).after;
            let accepted = endgame::terminated(after.game->Some_0, ACCEPT, a.offboard);
            &&& endgame::termination_refusal(after, opponent, ACCEPT) is None
            &&& accepted.status == DRAW
            &&& accepted.draw_state == NORMAL
        }),
{
}

/// Without an offer by the opponent there is nothing to accept: a move without offer lets any
/// earlier offer lapse.
pub proof fn offers_lapse_with_the_next_move(
    a: ArenaView,
    actor: SignerView,
    mv: MoveSpec,
    termination_action: i64,
    forced: bool,
    replies: Seq<ReplyView>,
)
    requires
        a.wf(),
        termination_action != OFFER,
        play::move_progress(a, actor, mv, termination_action, forced, replies) is Finished,
        arena::owner_of(a.players, play::opponent_ref(a.game->Some_0)) is Some,
    ensures
        endgame::termination(
            play::move_outcome(a, actor, mv, termination_action, forced, replies).after.game->Some_0,
            ACCEPT,
        ) == Err::<(i64, i64, i64), Seq<char>>("no draw offer is available to accept"@),
{
}

/// A draw claim hands the turn to the opponent, whose time running out makes the draw stand.
pub proof fn unanswered_draw_claim_is_a_draw(g: GameView, offboard: i64)
    requires
        g.wf(),
        endgame::termination(g, CLAIM) is Ok,
    ensures
        ({
            let claimed = endgame::terminated(g, CLAIM, offboard);
            &&& claimed.turn == 1 - g.turn
            &&& claimed.draw_state == CLAIMED
            &&& claimed.status == g.status
            &&& endgame::expired(claimed) == DRAW
        }),
{
}

/// The answer to a draw claim hands the turn back for the defense, in which the claimant moves the
/// opponent's pieces.
pub proof fn answered_draw_claim_is_defended(
    worker: WorkerKind,
    g: GameView,
    mv: MoveSpec,
    termination_action: i64,
    moved: MovedPosition,
    offboard: i64,
)
    requires
        g.wf(),
        termination_action != OFFER,
        g.draw_state == CLAIMED,
        worker != WorkerKind::Castle,
    ensures
        ({
            let pending = game::pending_state(g, mv, termination_action);
            let next = game::worked_state(worker, pending, mv, moved, offboard);
            &&& next.draw_state == DEFENSE
            &&& next.turn == 1 - g.turn
            &&& game::effective_turn(pending) == 1 - g.turn
            &&& game::effective_turn(next) == g.turn
        }),
{
}

/// A claimant who defends without capturing the king that the moved pieces are after loses.
pub proof fn failed_defense_loses(
    worker: WorkerKind,
    g: GameView,
    mv: MoveSpec,
    termination_action: i64,
    moved: MovedPosition,
    offboard: i64,
)
    requires
        g.wf(),
        termination_action != OFFER,
        g.status == LIVE,
        g.draw_state == DEFENSE,
        worker != WorkerKind::Castle,
        game::piece_at(g, mv.to_x, mv.to_y) != (if game::effective_turn(g) == WHITE {
            14u8
        } else {
            6u8
        }),
    ensures
        game::worked_state(
            worker,
            game::pending_state(g, mv, termination_action),
            mv,
            moved,
            offboard,
        ).status == game::mover_loses(g.turn),
{
}

/// In a game without draw claim, the capture of a king wins for the colour that captures it, and
/// any other move leaves the status as it is.
pub proof fn capturing_the_king_wins(
    worker: WorkerKind,
    g: GameView,
    mv: MoveSpec,
    termination_action: i64,
    moved: MovedPosition,
    offboard: i64,
)
    requires
        g.wf(),
        g.draw_state >= NORMAL,
        worker != WorkerKind::Castle,
    ensures
        ({
            let black_moves = game::piece_at(g, mv.from_x, mv.from_y) > 8;
            let target = game::piece_at(g, mv.to_x, mv.to_y);
            let next = game::worked_state(
                worker,
                game::pending_state(g, mv, termination_action),
                mv,
                moved,
                offboard,
            );
            next.status == if !black_moves && target == 14 {
                WWIN
            } else if black_moves && target == 6 {
                BWIN
            } else {
                g.status
            }
        }),
{
}

/// Castling rights only ever get lost.
pub proof fn castling_rights_only_shrink(
    worker: WorkerKind,
    g: GameView,
    mv: MoveSpec,
    moved: MovedPosition,
    offboard: i64,
    j: int,
)
    requires
        0 <= j < 4,
    ensures
        ({
            let right = game::worked_state(worker, g, mv, moved, offboard).castle_rights[j];
            right == g.castle_rights[j] || right == 0
        }),
{
}

/// A castle challenge that goes through wins for the challenger.
pub proof fn proved_challenge_wins(
    a: ArenaView,
    actor: SignerView,
    mv: MoveSpec,
    forced: bool,
    replies: Seq<ReplyView>,
)
    requires
        a.wf(),
        play::challenge_progress(a, actor, mv, replies) is Finished,
    ensures
        ({
            let g = a.game->Some_0;
            let after = play::challenge_outcome(a, actor, mv, forced, replies).after;
            &&& after.game matches Some(next) && next.status == game::mover_wins(g.turn) && next.turn == 1
                - g.turn
            &&& after.transactions.len() == a.transactions.len() + 3
        }),
{
}

/// An unforced challenge that does not go through changes nothing, so long as the player who waits
/// is still in the league.
pub proof fn halted_challenge_changes_nothing(
    a: ArenaView,
    actor: SignerView,
    mv: MoveSpec,
    replies: Seq<ReplyView>,
)
    requires
        play::challenge_progress(a, actor, mv, replies) is Finished ==> arena::owner_of(
            a.players,
            play::opponent_ref(a.game->Some_0),
        ) is Some,
    ensures
        play::challenge_outcome(a, actor, mv, false, replies).halt is Some ==> play::challenge_outcome(
            a,
            actor,
            mv,
            false,
            replies,
        ).after == a,
{
}

/// A forced challenge that fails after it was routed leaves the game in a worker. Its timeout then
/// brings the challenger's loss, or a draw if a draw claim waits for its answer, to whoever claims
/// it.
pub proof fn failed_forced_challenge_loses_by_timeout(
    a: ArenaView,
    actor: SignerView,
    claimer: SignerView,
    mv: MoveSpec,
    replies: Seq<ReplyView>,
    claim_replies: Seq<ReplyView>,
)
    requires
        a.wf(),
        play::challenge_progress(a, actor, mv, replies) is Stuck,
    ensures
        ({
            let ending = timeout_ending(a.game->Some_0);
            let parked = play::challenge_outcome(a, actor, mv, true, replies).after;
            let claimed = endgame::claim_outcome(parked, claimer, claim_replies).after;
            &&& parked.game is None
            &&& parked.active_worker matches Some(w) && endgame::expired(w.state) == ending && (
            endgame::worker_claim_progress(parked, claimer, w, claim_replies) is Finished
                ==> claimed.active_worker is None && (claimed.active_settle matches Some(s) && s.status
                == ending))
        }),
{
}

/// On their turn, players can always surrender; the opponent then has won.
pub proof fn surrender_loses(g: GameView, offboard: i64)
    ensures
        endgame::termination(g, SURRENDER) is Ok,
        endgame::terminated(g, SURRENDER, offboard).status == game::mover_loses(g.turn),
        endgame::terminated(g, SURRENDER, offboard).turn == g.turn,
{
}

/// A game that ended can be settled with its result by two players of the league.
pub proof fn ended_game_can_be_settled(a: ArenaView, white: SignerView, black: SignerView)
    requires
        a.wf(),
        a.active_settle is None,
        a.game matches Some(g) && g.status != LIVE,
        a.players.contains_key(white.name),
        a.players.contains_key(black.name),
        white.player_ref is Some,
        black.player_ref is Some,
    ensures
        settlement::settle_refusal(
            a,
            white,
            black,
            status::result_of(a.game->Some_0.status as int)->Ok_0,
        ) is None,
{
    status::terminal_statuses(a.game->Some_0.status as int);
}

/// A game whose timeout was claimed can be settled with the result of the timeout by its players.
pub proof fn timed_out_game_can_be_settled(
    a: ArenaView,
    claimer: SignerView,
    white: SignerView,
    black: SignerView,
    replies: Seq<ReplyView>,
)
    requires
        a.wf(),
        match (a.active_worker, a.game) {
            (Some(w), _) => endgame::worker_claim_progress(a, claimer, w, replies) is Finished,
            (None, Some(g)) => endgame::mux_claim_progress(a, claimer, g, replies) is Finished,
            (None, None) => false,
        },
        ({
            let g = match a.active_worker {
                Some(w) => w.state,
                None => a.game->Some_0,
            };
            &&& white.player_ref == Some(g.white_player)
            &&& black.player_ref == Some(g.black_player)
        }),
        a.players.contains_key(white.name),
        a.players.contains_key(black.name),
    ensures
        ({
            let after = endgame::claim_outcome(a, claimer, replies).after;
            &&& after.active_settle is Some
            &&& settlement::settle_refusal(
                after,
                white,
                black,
                status::result_of(after.active_settle->Some_0.status as int)->Ok_0,
            ) is None
        }),
{
    let after = endgame::claim_outcome(a, claimer, replies).after;
    status::terminal_statuses(after.active_settle->Some_0.status as int);
}

/// The players share the whole stake, no more and no less.
pub proof fn stake_is_paid_out_whole(result: GameResult, stake: u64)
    ensures
        settlement::white_share(result, stake) + settlement::black_share(result, stake) == stake,
        result == GameResult::Draw ==> 0 <= settlement::black_share(result, stake)
            - settlement::white_share(result, stake) <= 1,
{
}

/// A settlement between two players adds exactly the stake to what they hold, conserves their rating
/// points, and counts one finished game for each.
pub proof fn settlement_conserves(
    a: ArenaView,
    white: SignerView,
    black: SignerView,
    result: GameResult,
    replies: Seq<ReplyView>,
)
    requires
        a.wf(),
        white.name != black.name,
        settlement::settlement_fits(a, white, black, result, replies),
        settlement::settle_progress(a, white, black, result, replies) is Finished,
    ensures
        ({
            let after = settlement::settle_after(a, white, black, result, replies);
            let white_before = a.players[white.name];
            let black_before = a.players[black.name];
            let white_after = after.players[white.name];
            let black_after = after.players[black.name];
            &&& white_after.value + black_after.value == white_before.value + black_before.value
                + settlement::stake_utxo(a, replies).amount
            &&& white_after.rating + black_after.rating == white_before.rating + black_before.rating
            &&& white_after.games == white_before.games + 1
            &&& black_after.games == black_before.games + 1
            &&& white_after.open_games == white_before.open_games - 1
            &&& black_after.open_games == black_before.open_games - 1
            &&& white_after.wins - white_before.wins == black_after.losses - black_before.losses
            &&& white_after.losses - white_before.losses == black_after.wins - black_before.wins
            &&& white_after.draws - white_before.draws == black_after.draws - black_before.draws
        }),
{
    let white_before = a.players[white.name];
    let black_before = a.players[black.name];
    rating::rating_points_are_conserved(
        white_before.rating as int,
        black_before.rating as int,
        settlement::white_score(result) as int,
    );
}

/// A settlement that goes through leaves no game behind, so the same game cannot be settled again.
pub proof fn game_is_settled_once(
    a: ArenaView,
    white: SignerView,
    black: SignerView,
    result: GameResult,
    replies: Seq<ReplyView>,
    again: GameResult,
)
    requires
        settlement::settle_progress(a, white, black, result, replies) is Finished,
    ensures
        ({
            let after = settlement::settle_after(a, white, black, result, replies);
            &&& after.game is None
            &&& after.game_outpoint is None
            &&& after.active_worker is None
            &&& after.active_settle is None
            &&& settlement::settle_refusal(after, white, black, again) == Some("missing game"@)
        }),
{
}

/// A settlement touches no player but the two who settle.
pub proof fn settlement_touches_its_players_only(
    a: ArenaView,
    white: SignerView,
    black: SignerView,
    result: GameResult,
    replies: Seq<ReplyView>,
    other: Seq<char>,
)
    requires
        other != white.name,
        other != black.name,
    ensures
        ({
            let after = settlement::settle_after(a, white, black, result, replies);
            &&& after.players.contains_key(other) == a.players.contains_key(other)
            &&& after.players[other] == a.players[other]
        }),
{
}

/// Only a game that ended can be settled, and only with its own result.
pub proof fn settlement_follows_the_status(
    a: ArenaView,
    white: SignerView,
    black: SignerView,
    result: GameResult,
)
    requires
        a.wf(),
        settlement::settle_refusal(a, white, black, result) is None,
    ensures
        a.active_settle matches Some(s) ==> status::result_of(s.status as int) == Ok::<
            GameResult,
            Seq<char>,
        >(result),
        a.active_settle is None ==> (a.game matches Some(g) && status::result_of(g.status as int) == Ok::<
            GameResult,
            Seq<char>,
        >(result)),
{
    status::result_survives_its_status(result);
}

/// A fork adds one lane, with the two values in place of the old one; the other lanes stay.
pub proof fn fork_adds_a_lane(
    a: ArenaView,
    lane_index: int,
    left_value: u64,
    right_value: u64,
    replies: Seq<ReplyView>,
)
    requires
        0 <= lane_index,
        league::fork_progress(a, lane_index, left_value, right_value, replies) is Finished,
    ensures
        ({
            let lanes = league::fork_after(a, lane_index, left_value, right_value, replies).league_lanes;
            &&& lanes.len() == a.league_lanes.len() + 1
            &&& lanes[lane_index].value == left_value
            &&& lanes[lane_index + 1].value == right_value
            &&& forall|i: int| 0 <= i < lane_index ==> lanes[i] == a.league_lanes[i]
            &&& forall|i: int|
                lane_index + 1 < i < lanes.len() ==> lanes[i] == a.league_lanes[i - 1]
        }),
{
}

/// A new value for a lane keeps the number of lanes and every other lane.
pub proof fn rebalance_keeps_the_other_lanes(
    a: ArenaView,
    lane_index: int,
    value: u64,
    replies: Seq<ReplyView>,
)
    requires
        0 <= lane_index,
        league::rebalance_progress(a, lane_index, value, replies) is Finished,
    ensures
        ({
            let lanes = league::rebalance_after(a, lane_index, value, replies).league_lanes;
            &&& lanes.len() == a.league_lanes.len()
            &&& lanes[lane_index].value == value
            &&& forall|i: int|
                0 <= i < lanes.len() && i != lane_index ==> lanes[i] == a.league_lanes[i]
        }),
{
}

/// Whether no player other than the named one carries the reference.
pub open spec fn nobody_else_holds(a: ArenaView, name: Seq<char>, player_ref: Hash32) -> bool {
    forall|other: Seq<char>| #[trigger]
        a.players.contains_key(other) && other != name ==> !arena::holds_ref(a.players[other], player_ref)
}

/// Whoever registers, whenever it is, enters the league with the base rating of 1200.
pub proof fn newcomers_enter_at_the_base_rating(
    a: ArenaView,
    player: SignerView,
    lane_index: int,
    replies: Seq<ReplyView>,
)
    requires
        a.wf(),
        league::register_progress(a, player, lane_index, replies) is Finished,
    ensures
        league::register_after(a, player, lane_index, replies).players[player.name].rating == 1200,
{
}

/// A player who registers is found by the new reference, with the base rating, a stake of 1000 and
/// an empty record; the lane keeps its value.
pub proof fn registered_player_is_found(
    a: ArenaView,
    player: SignerView,
    lane_index: int,
    replies: Seq<ReplyView>,
    player_ref: Hash32,
)
    requires
        a.wf(),
        0 <= lane_index,
        league::register_progress(a, player, lane_index, replies) is Finished,
        player_ref@ == hash::player_ref_bytes(player.owner_hash, league::uid_at(replies)),
        nobody_else_holds(a, player.name, player_ref),
    ensures
        ({
            let after = league::register_after(a, player, lane_index, replies);
            let known = league::registrant(a, player, lane_index, replies);
            let state = after.players[player.name];
            &&& arena::registered(known)
            &&& known.player_ref == Some(player_ref)
            &&& arena::owner_of(after.players, player_ref) == Some(player.name)
            &&& state.rating == BASE_RATING
            &&& state.value == 1000
            &&& state.open_games == 0 && state.games == 0 && state.wins == 0 && state.draws == 0
                && state.losses == 0
            &&& after.league_lanes[lane_index].value == a.league_lanes[lane_index].value
        }),
{
    let after = league::register_after(a, player, lane_index, replies);
    let r = player_ref;
    hash::lemma_hash_of(r);
    assert(arena::holds_ref(after.players[player.name], r));
    assert forall|other: Seq<char>| #[trigger]
        after.players.contains_key(other) && arena::holds_ref(after.players[other], r) implies !names::name_lt(
        other,
        player.name,
    ) by {
        names::lemma_name_order(other, player.name, other);
        if other != player.name {
            assert(a.players.contains_key(other));
        }
    }
    assert(arena::is_owner(after.players, r, player.name));
    arena::owner_is_unique(after.players, r, player.name);
}

/// A player who retires is no longer found, and nobody else leaves.
pub proof fn retired_player_is_gone(a: ArenaView, player: SignerView, replies: Seq<ReplyView>)
    requires
        league::retire_progress(a, player, replies) is Finished,
        player.player_ref is Some,
        nobody_else_holds(a, player.name, player.player_ref->Some_0),
    ensures
        ({
            let after = league::retire_after(a, player, replies);
            &&& arena::owner_of(after.players, player.player_ref->Some_0) is None
            &&& forall|other: Seq<char>|
                other != player.name ==> (after.players.contains_key(other) == a.players.contains_key(other)
                    && after.players[other] == a.players[other])
        }),
{
    let after = league::retire_after(a, player, replies);
    let r = player.player_ref->Some_0;
    assert forall|name: Seq<char>| !arena::is_owner(after.players, r, name) by {
        if after.players.contains_key(name) {
            assert(a.players.contains_key(name));
        }
    }
}

/// A new value for a player changes the value and nothing else of the player's entry but the output
/// that holds it.
pub proof fn rebalanced_player_keeps_the_record(
    a: ArenaView,
    player: SignerView,
    value: u64,
    replies: Seq<ReplyView>,
)
    requires
        league::stake_progress(a, player, value, replies) is Finished,
    ensures
        ({
            let after = league::stake_after(a, player, value, replies).players[player.name];
            &&& after.value == value
            &&& after == PlayerStateData { value, outpoint: after.outpoint, ..a.players[player.name] }
        }),
{
}

/// Starting a game opens one game for each of its players, and white is to move.
pub proof fn started_game_is_open(
    a: ArenaView,
    white: SignerView,
    black: SignerView,
    replies: Seq<ReplyView>,
)
    requires
        play::start_fits(a, white, black),
        play::start_progress(a, white, black, replies) is Finished,
    ensures
        ({
            let after = play::start_after(a, white, black, replies);
            &&& after.players[white.name].open_games == a.players[white.name].open_games + 1
            &&& after.players[black.name].open_games == a.players[black.name].open_games + 1
            &&& after.game matches Some(g) && g.turn == WHITE && g.status == LIVE
            &&& play::turn_refusal(after, white) is None
        }),
{
}

/// The player who has black waits when a game starts.
pub proof fn black_waits_for_white(
    a: ArenaView,
    white: SignerView,
    black: SignerView,
    replies: Seq<ReplyView>,
)
    requires
        play::start_progress(a, white, black, replies) is Finished,
        white.player_ref != black.player_ref,
    ensures
        play::turn_refusal(play::start_after(a, white, black, replies), black) == Some(
            "it is not "@ + black.name + "'s turn"@,
        ),
{
}

/// No move takes a transaction or a record off the books.
pub proof fn moves_only_add_to_the_books(
    a: ArenaView,
    actor: SignerView,
    mv: MoveSpec,
    termination_action: i64,
    forced: bool,
    replies: Seq<ReplyView>,
)
    ensures
        extends(a, play::move_outcome(a, actor, mv, termination_action, forced, replies).after),
        extends(a, play::challenge_outcome(a, actor, mv, forced, replies).after),
{
}

/// No ending and no settlement takes a transaction or a record off the books.
pub proof fn endings_only_add_to_the_books(
    a: ArenaView,
    actor: SignerView,
    other: SignerView,
    action: i64,
    label: Seq<char>,
    result: GameResult,
    replies: Seq<ReplyView>,
)
    ensures
        extends(a, endgame::claim_outcome(a, actor, replies).after),
        extends(a, endgame::termination_outcome(a, actor, action, label, replies).after),
        extends(a, settlement::settle_after(a, actor, other, result, replies)),
{
}

/// No work on the league takes a transaction or a record off the books.
pub proof fn league_only_adds_to_the_books(
    a: ArenaView,
    player: SignerView,
    other: SignerView,
    lane_index: int,
    value: u64,
    right_value: u64,
    replies: Seq<ReplyView>,
)
    ensures
        extends(a, league::rebalance_after(a, lane_index, value, replies)),
        extends(a, league::fork_after(a, lane_index, value, right_value, replies)),
        extends(a, league::register_after(a, player, lane_index, replies)),
        extends(a, league::retire_after(a, player, replies)),
        extends(a, league::stake_after(a, player, value, replies)),
        extends(a, play::start_after(a, player, other, replies)),
{
}

/// Replies beyond those that a move or a castle challenge asks for change nothing.
pub proof fn moves_read_only_their_replies(
    a: ArenaView,
    actor: SignerView,
    mv: MoveSpec,
    termination_action: i64,
    forced: bool,
    replies: Seq<ReplyView>,
    more: Seq<ReplyView>,
)
    ensures
        !(play::move_progress(a, actor, mv, termination_action, forced, replies) is Need)
            ==> play::move_outcome(a, actor, mv, termination_action, forced, replies + more)
            == play::move_outcome(a, actor, mv, termination_action, forced, replies),
        !(play::challenge_progress(a, actor, mv, replies) is Need) ==> play::challenge_outcome(
            a,
            actor,
            mv,
            forced,
            replies + more,
        ) == play::challenge_outcome(a, actor, mv, forced, replies),
{
    let short = play::challenge_txs(replies);
    let long = play::challenge_txs(replies + more);
    match play::challenge_progress(a, actor, mv, replies) {
        Progress::Finished => {
            assert(long =~= short);
        },
        Progress::Stuck(sent, _) => {
            assert(play::challenge_progress(a, actor, mv, replies + more) == play::challenge_progress(
                a,
                actor,
                mv,
                replies,
            ));
            assert(sent == 1 || sent == 2);
            assert(long.take(1) =~= short.take(1));
            if sent == 2 {
                assert(long.take(2) =~= short.take(2));
            }
        },
        _ => {},
    }
}

/// Replies beyond those that an ending or a settlement asks for change nothing.
pub proof fn endings_read_only_their_replies(
    a: ArenaView,
    actor: SignerView,
    other: SignerView,
    action: i64,
    label: Seq<char>,
    result: GameResult,
    replies: Seq<ReplyView>,
    more: Seq<ReplyView>,
)
    ensures
        !waits(endgame::claim_outcome(a, actor, replies)) ==> endgame::claim_outcome(
            a,
            actor,
            replies + more,
        ) == endgame::claim_outcome(a, actor, replies),
        !(endgame::termination_progress(a, actor, action, replies) is Need)
            ==> endgame::termination_outcome(a, actor, action, label, replies + more)
            == endgame::termination_outcome(a, actor, action, label, replies),
        !(settlement::settle_progress(a, actor, other, result, replies) is Need)
            ==> settlement::settle_progress(a, actor, other, result, replies + more)
            == settlement::settle_progress(a, actor, other, result, replies)
            && settlement::settle_after(a, actor, other, result, replies + more)
            == settlement::settle_after(a, actor, other, result, replies),
{
}

/// Replies beyond those that work on the league asks for change nothing.
pub proof fn league_reads_only_its_replies(
    a: ArenaView,
    player: SignerView,
    other: SignerView,
    lane_index: int,
    value: u64,
    right_value: u64,
    replies: Seq<ReplyView>,
    more: Seq<ReplyView>,
)
    ensures
        !(league::rebalance_progress(a, lane_index, value, replies) is Need)
            ==> league::rebalance_after(a, lane_index, value, replies + more)
            == league::rebalance_after(a, lane_index, value, replies),
        !(league::fork_progress(a, lane_index, value, right_value, replies) is Need)
            ==> league::fork_after(a, lane_index, value, right_value, replies + more)
            == league::fork_after(a, lane_index, value, right_value, replies),
        !(league::register_progress(a, player, lane_index, replies) is Need)
            ==> league::register_after(a, player, lane_index, replies + more)
            == league::register_after(a, player, lane_index, replies),
        !(league::retire_progress(a, player, replies) is Need) ==> league::retire_after(
            a,
            player,
            replies + more,
        ) == league::retire_after(a, player, replies),
        !(league::stake_progress(a, player, value, replies) is Need) ==> league::stake_after(
            a,
            player,
            value,
            replies + more,
        ) == league::stake_after(a, player, value, replies),
        !(play::start_progress(a, player, other, replies) is Need) ==> play::start_after(
            a,
            player,
            other,
            replies + more,
        ) == play::start_after(a, player, other, replies),
{
}

} // verus!
