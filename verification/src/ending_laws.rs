//! What endings are for: who may end a game, how, and what then stands.

use vstd::prelude::*;

use crate::arena::{self, ActiveSettleState, ActiveWorkerView, ArenaView};
use crate::chain::{self, ChainTxView, UnspentView};
use crate::dialogue::{ReplyView, RequestView};
use crate::endgame;
use crate::game::{self, GameView};
use crate::messages::{self, MessageKindView, MessageView};
use crate::moves;
use crate::plan::{EntryArgView, TxPlanView};
use crate::play;
use crate::reply_laws::{
    self, asks, empty_text_adds_nothing, holds, on_turn, refuses, says_done, says_failed, says_tx, says_utxo,
    signed_by, unlocks, waiting_player,
};
use crate::signing::SignerView;
use crate::status::GameResult;
use crate::text;

verus! {

/// A draw can be claimed by either side in a normal state without a castle to challenge; an offer can
/// be accepted by the side it was made to, white's by black and black's by white; surrender is always
/// possible; nothing else ends a game.
pub proof fn games_end_by_claim_acceptance_or_surrender(g: GameView, action: i64)
    requires
        0 <= g.turn <= 1,
        1 <= g.draw_state <= 5,
    ensures
        ({
            let ending = endgame::termination(g, action);
            &&& ending is Ok <==> {
                ||| action == 2 && g.draw_state == 3 && g.recent_castle == 0
                ||| action == 3
                ||| action == 4 && g.draw_state == 4 && g.turn == 1
                ||| action == 4 && g.draw_state == 5 && g.turn == 0
            }
            &&& action == 2 && ending is Err ==> ending->Err_0
                == "a draw claim requires a normal Mux state without a pending castle"@
            &&& action == 4 && ending is Err ==> ending->Err_0 == "no draw offer is available to accept"@
            &&& action != 2 && action != 3 && action != 4 ==> ending->Err_0
                == "unsupported termination action "@ + text::signed_decimal(action as int)
        }),
{
}

/// A claim passes the turn and leaves the status open, surrender loses for the side on turn, and an
/// accepted offer is a draw. What was pending is cleared, and the position, the players, the rights,
/// the time and the log stay.
pub proof fn endings_change_what_they_decide(g: GameView, action: i64, offboard: i64)
    requires
        0 <= g.turn <= 1,
        endgame::termination(g, action) is Ok,
    ensures
        ({
            let next = endgame::terminated(g, action, offboard);
            &&& action == 2 ==> next.turn + g.turn == 1 && next.status == g.status && next.draw_state == 1
            &&& action == 3 ==> next.turn == g.turn && next.draw_state == 3
            &&& action == 3 && g.turn == 0 ==> next.status == 2
            &&& action == 3 && g.turn == 1 ==> next.status == 1
            &&& action == 4 ==> next.turn == g.turn && next.status == 3 && next.draw_state == 3
            &&& next.en_passant_idx == offboard && next.pending_src_idx == offboard
            &&& next.pending_dst_idx == offboard && next.pending_promo == 0 && next.recent_castle == 0
            &&& next.board == g.board && next.castle_rights == g.castle_rights
            &&& next.white_player == g.white_player && next.black_player == g.black_player
            &&& next.move_timeout == g.move_timeout && next.move_log == g.move_log
        }),
{
}

/// An ending is refused out of turn and where the game does not allow it, and changes nothing then.
pub proof fn endings_are_refused_out_of_turn(
    a: ArenaView,
    actor: SignerView,
    action: i64,
    label: Seq<char>,
    replies: Seq<ReplyView>,
)
    ensures
        ({
            let outcome = endgame::termination_outcome(a, actor, action, label, replies);
            &&& play::turn_refusal(a, actor) matches Some(text) ==> outcome.halt == refuses(text)
                && outcome.after == a
            &&& on_turn(a, actor) ==> (endgame::termination(a.game->Some_0, action) matches Err(text)
                ==> outcome.halt == refuses(text) && outcome.after == a)
        }),
{
    reply_laws::players_act_on_their_turn(a, actor);
}

/// An ending that is allowed starts a builder, asks for the output of the game, and asks for one
/// transaction that spends the game with the action, signed by the player, and keeps it in its new
/// state. A failure on the way is refused with its reason and changes nothing.
pub proof fn endings_ask_for_one_transaction(
    a: ArenaView,
    actor: SignerView,
    action: i64,
    label: Seq<char>,
    replies: Seq<ReplyView>,
    utxo: UnspentView,
    failure: Seq<char>,
)
    requires
        on_turn(a, actor),
        endgame::termination(a.game->Some_0, action) is Ok,
        a.game_outpoint is Some,
    ensures
        ({
            let g = a.game->Some_0;
            let outcome = endgame::termination_outcome(a, actor, action, label, replies);
            let next = endgame::terminated(g, action, a.offboard);
            &&& replies.len() == 0 ==> outcome.halt == asks(RequestView::StartBuilder)
            &&& says_failed(replies, 0, failure) ==> outcome.halt == refuses(
                "initialize Argent builder: "@ + failure,
            ) && outcome.after == a
            &&& says_done(replies, 0) && replies.len() == 1 ==> outcome.halt == asks(
                RequestView::ActorUtxo {
                    actor: "Mux"@,
                    state: game::game_fields(g),
                    value: 1000,
                    covenant_id: a.covenant_id,
                },
            )
            &&& says_done(replies, 0) && says_failed(replies, 1, failure) ==> outcome.halt == refuses(
                "build active Mux UTXO: "@ + failure,
            ) && outcome.after == a
            &&& says_done(replies, 0) && says_utxo(replies, 1, utxo) && actor.player_id is None ==> outcome.halt
                == refuses("missing player id"@) && outcome.after == a
            &&& says_done(replies, 0) && says_utxo(replies, 1, utxo) && actor.player_id is Some
                && replies.len() == 2 ==> outcome.halt == asks(
                RequestView::Build {
                    plan: TxPlanView {
                        inputs: seq![
                            unlocks(
                                "Mux"@,
                                game::game_fields(g),
                                "terminate"@,
                                seq![
                                    EntryArgView::Byte(action as u8),
                                    EntryArgView::Signature(actor.secret),
                                    EntryArgView::Bytes(actor.public_key),
                                    EntryArgView::Hash(actor.player_id->Some_0),
                                ],
                                a.game_outpoint->Some_0,
                                utxo,
                                0,
                            ),
                        ],
                        outputs: seq![holds("Mux"@, game::game_fields(next), a.covenant_id, 1000)],
                    },
                },
            )
            &&& says_done(replies, 0) && says_utxo(replies, 1, utxo) && actor.player_id is Some
                && says_failed(replies, 2, failure) ==> outcome.halt == refuses(
                "terminate game: "@ + failure,
            ) && outcome.after == a
        }),
{
    empty_text_adds_nothing();
    reply_laws::players_act_on_their_turn(a, actor);
    let g = a.game->Some_0;
    if says_utxo(replies, 1, utxo) {
        let call = crate::plan::owner_args(
            crate::plan::entry("terminate"@).with(EntryArgView::Byte(action as u8)),
            actor.secret,
            actor.public_key,
        ).with(EntryArgView::Hash(actor.player_id->Some_0));
        assert(call.args =~= seq![
            EntryArgView::Byte(action as u8),
            EntryArgView::Signature(actor.secret),
            EntryArgView::Bytes(actor.public_key),
            EntryArgView::Hash(actor.player_id->Some_0),
        ]);
        let next = endgame::terminated(g, action, a.offboard);
        let p = crate::plan::plan().spend(
            "Mux"@,
            game::game_fields(g),
            call,
            a.game_outpoint->Some_0,
            utxo,
            0,
        ).keep("Mux"@, game::game_fields(next), a.covenant_id, 1000);
        assert(p.inputs =~= seq![
            unlocks("Mux"@, game::game_fields(g), "terminate"@, call.args, a.game_outpoint->Some_0, utxo, 0),
        ]);
        assert(p.outputs =~= seq![holds("Mux"@, game::game_fields(next), a.covenant_id, 1000)]);
    }
}

/// What a player is told of an ending by the other: of a claim and of an acceptance, not of a
/// surrender.
pub open spec fn notice(action: i64, actor: Seq<char>) -> Option<MessageKindView> {
    if action == 2 {
        Some(MessageKindView::DrawClaimed { actor })
    } else if action == 4 {
        Some(MessageKindView::DrawAccepted { actor })
    } else {
        None
    }
}

/// Once its transaction is out, an ending is done: the game goes on in its new state in the first
/// output, the waiting player is told, and the record names the player who acted. Without an owner to
/// tell, the game and the transaction stand, and the rest is missing.
pub proof fn endings_that_went_out_stand(
    a: ArenaView,
    actor: SignerView,
    action: i64,
    label: Seq<char>,
    replies: Seq<ReplyView>,
    utxo: UnspentView,
    tx: ChainTxView,
)
    requires
        on_turn(a, actor),
        endgame::termination(a.game->Some_0, action) is Ok,
        a.game_outpoint is Some,
        actor.player_id is Some,
        says_done(replies, 0),
        says_utxo(replies, 1, utxo),
        says_tx(replies, 2, tx),
    ensures
        ({
            let g = a.game->Some_0;
            let outcome = endgame::termination_outcome(a, actor, action, label, replies);
            let stands = ArenaView {
                transactions: a.transactions.push(tx),
                game: Some(endgame::terminated(g, action, a.offboard)),
                game_outpoint: Some(chain::output_of(tx, 0)),
                ..a
            };
            match arena::owner_of(a.players, waiting_player(g)) {
                None => outcome.halt == refuses("missing player owner"@) && outcome.after == stands,
                Some(owner) => {
                    &&& outcome.halt is None
                    &&& outcome.after == ArenaView {
                        messages: match notice(action, actor.name) {
                            Some(kind) => messages::delivered(
                                a.messages,
                                MessageView { from: actor.name, to: owner, kind },
                            ),
                            None => a.messages,
                        },
                        history: a.history.push(arena::submission_of(label, tx, seq![actor.name])),
                        ..stands
                    }
                },
            }
        }),
{
    reply_laws::players_act_on_their_turn(a, actor);
}

/// The three endings that a player can call for, each recorded under its own name: a claim leaves the
/// game claimed with the turn passed, an acceptance makes it a draw, and a surrender loses it.
pub proof fn endings_are_recorded_under_their_name(
    a: ArenaView,
    actor: SignerView,
    replies: Seq<ReplyView>,
)
    requires
        a.wf(),
    ensures
        ({
            let claim = endgame::draw_claim_outcome(a, actor, replies);
            let acceptance = endgame::draw_acceptance_outcome(a, actor, replies);
            let surrender = endgame::surrender_outcome(a, actor, replies);
            let g = a.game->Some_0;
            &&& claim.halt is None ==> {
                let next = claim.after.game->Some_0;
                &&& claim.after.history.last().action == "draw_claim"@
                &&& claim.after.history.last().signer_names == seq![actor.name]
                &&& next.draw_state == 1 && next.turn + g.turn == 1 && next.status == g.status
            }
            &&& acceptance.halt is None ==> {
                let next = acceptance.after.game->Some_0;
                &&& acceptance.after.history.last().action == "draw_accept"@
                &&& acceptance.after.history.last().signer_names == seq![actor.name]
                &&& next.status == 3 && next.draw_state == 3
            }
            &&& surrender.halt is None ==> {
                let next = surrender.after.game->Some_0;
                &&& surrender.after.history.last().action == "surrender"@
                &&& surrender.after.history.last().signer_names == seq![actor.name]
                &&& next.draw_state == 3 && next.status + g.turn == 2
            }
        }),
{
}

/// What a player may call for follows from the state of the game: a claim, an acceptance or a surrender
/// that is allowed asks for its builder, and one that is not is refused.
pub proof fn endings_are_open_when_the_game_allows_them(a: ArenaView, actor: SignerView)
    requires
        a.wf(),
        on_turn(a, actor),
    ensures
        ({
            let none = Seq::<ReplyView>::empty();
            let g = a.game->Some_0;
            let builder = asks(RequestView::StartBuilder);
            &&& endgame::draw_claim_outcome(a, actor, none).halt == builder <==> g.draw_state == 3
                && g.recent_castle == 0
            &&& endgame::draw_acceptance_outcome(a, actor, none).halt == builder <==> (g.draw_state == 4
                && g.turn == 1) || (g.draw_state == 5 && g.turn == 0)
            &&& endgame::surrender_outcome(a, actor, none).halt == builder
        }),
{
    reply_laws::players_act_on_their_turn(a, actor);
}

/// The game whose timeout is claimed: one in a worker before one between moves.
pub open spec fn late_game(a: ArenaView) -> Option<GameView> {
    match a.active_worker {
        Some(w) => Some(w.state),
        None => a.game,
    }
}

/// A timeout between moves can be claimed by the player who waits, and one in a worker by either
/// player; nobody else can, and a refused claim changes nothing.
pub proof fn timeouts_are_claimed_by_players_of_the_game(
    a: ArenaView,
    claimer: SignerView,
    replies: Seq<ReplyView>,
)
    ensures
        ({
            let outcome = endgame::claim_outcome(a, claimer, replies);
            &&& late_game(a) is None ==> outcome.halt == refuses("missing active game or worker"@)
                && outcome.after == a
            &&& late_game(a) matches Some(g) ==> {
                let white = claimer.player_ref == Some(g.white_player);
                let black = claimer.player_ref == Some(g.black_player);
                &&& claimer.player_ref is None ==> outcome.halt == refuses(
                    claimer.name + " missing player ref"@,
                ) && outcome.after == a
                &&& claimer.player_ref is Some && !white && !black ==> outcome.halt == refuses(
                    claimer.name + " is not part of the active game"@,
                ) && outcome.after == a
                &&& a.active_worker is None && on_turn(a, claimer) ==> outcome.halt == refuses(
                    claimer.name + " is not entitled to claim this timeout"@,
                ) && outcome.after == a
                &&& (white || black) && (a.active_worker is Some || (!on_turn(a, claimer)
                    && a.game_outpoint is Some)) && replies.len() == 0 ==> outcome.halt == asks(
                    RequestView::StartBuilder,
                )
            }
        }),
{
    reply_laws::players_act_on_their_turn(a, claimer);
}

/// The status with which a late game ends: a draw for a draw claim without an answer, else the loss of
/// the side on turn.
pub open spec fn late_status(g: GameView) -> i64 {
    if g.draw_state == 1 {
        3
    } else if g.turn == 0 {
        2
    } else {
        1
    }
}

/// The claim of a game in a worker asks for the worker's output and then for one transaction that
/// waits out the move time and turns the game into its settlement; nobody signs it.
pub proof fn worker_claims_ask_for_one_transaction(
    a: ArenaView,
    claimer: SignerView,
    w: ActiveWorkerView,
    replies: Seq<ReplyView>,
    utxo: UnspentView,
    failure: Seq<char>,
)
    requires
        a.active_worker == Some(w),
        claimer.player_ref == Some(w.state.white_player) || claimer.player_ref == Some(w.state.black_player),
    ensures
        ({
            let g = w.state;
            let actor = moves::worker_name(w.kind)@;
            let outcome = endgame::claim_outcome(a, claimer, replies);
            &&& says_failed(replies, 0, failure) ==> outcome.halt == refuses(
                "initialize Argent builder: "@ + failure,
            ) && outcome.after == a
            &&& says_done(replies, 0) && replies.len() == 1 ==> outcome.halt == asks(
                RequestView::ActorUtxo {
                    actor,
                    state: game::game_fields(g),
                    value: 1000,
                    covenant_id: a.covenant_id,
                },
            )
            &&& says_done(replies, 0) && says_failed(replies, 1, failure) ==> outcome.halt == refuses(
                "build timed-out worker UTXO: "@ + failure,
            ) && outcome.after == a
            &&& says_done(replies, 0) && says_utxo(replies, 1, utxo) && g.move_timeout < 0 ==> outcome.halt
                == refuses("move timeout cannot be negative"@) && outcome.after == a
            &&& says_done(replies, 0) && says_utxo(replies, 1, utxo) && g.move_timeout >= 0
                && replies.len() == 2 ==> outcome.halt == asks(
                RequestView::Build {
                    plan: TxPlanView {
                        inputs: seq![
                            unlocks(
                                actor,
                                game::game_fields(g),
                                "timeout"@,
                                Seq::empty(),
                                w.outpoint,
                                utxo,
                                g.move_timeout as u64,
                            ),
                        ],
                        outputs: seq![
                            holds(
                                "Settle"@,
                                game::settle_fields(g.white_player, g.black_player, late_status(g)),
                                a.covenant_id,
                                1000,
                            ),
                        ],
                    },
                },
            )
            &&& says_done(replies, 0) && says_utxo(replies, 1, utxo) && g.move_timeout >= 0 && says_failed(
                replies,
                2,
                failure,
            ) ==> outcome.halt == refuses("claim worker timeout: "@ + failure) && outcome.after == a
        }),
{
    empty_text_adds_nothing();
    let g = w.state;
    let actor = moves::worker_name(w.kind)@;
    let p = crate::plan::plan().spend(
        actor,
        game::game_fields(g),
        crate::plan::entry("timeout"@),
        w.outpoint,
        utxo,
        g.move_timeout as u64,
    ).keep(
        "Settle"@,
        game::settle_fields(g.white_player, g.black_player, late_status(g)),
        a.covenant_id,
        1000,
    );
    assert(p.inputs =~= seq![
        unlocks(
            actor,
            game::game_fields(g),
            "timeout"@,
            Seq::empty(),
            w.outpoint,
            utxo,
            g.move_timeout as u64,
        ),
    ]);
    assert(p.outputs =~= seq![
        holds(
            "Settle"@,
            game::settle_fields(g.white_player, g.black_player, late_status(g)),
            a.covenant_id,
            1000,
        ),
    ]);
}

/// The claim of a game between moves asks for the game's output and then for one transaction that
/// waits out the move time, signed by the claimer, and turns the game into its settlement.
pub proof fn mux_claims_ask_for_one_transaction(
    a: ArenaView,
    claimer: SignerView,
    replies: Seq<ReplyView>,
    utxo: UnspentView,
    failure: Seq<char>,
)
    requires
        a.active_worker is None,
        a.game is Some,
        a.game_outpoint is Some,
        claimer.player_ref == Some(a.game->Some_0.white_player) || claimer.player_ref == Some(
            a.game->Some_0.black_player,
        ),
        !on_turn(a, claimer),
    ensures
        ({
            let g = a.game->Some_0;
            let outcome = endgame::claim_outcome(a, claimer, replies);
            &&& says_failed(replies, 0, failure) ==> outcome.halt == refuses(
                "initialize Argent builder: "@ + failure,
            ) && outcome.after == a
            &&& says_done(replies, 0) && replies.len() == 1 ==> outcome.halt == asks(
                RequestView::ActorUtxo {
                    actor: "Mux"@,
                    state: game::game_fields(g),
                    value: 1000,
                    covenant_id: a.covenant_id,
                },
            )
            &&& says_done(replies, 0) && says_failed(replies, 1, failure) ==> outcome.halt == refuses(
                "build timed-out Mux UTXO: "@ + failure,
            ) && outcome.after == a
            &&& says_done(replies, 0) && says_utxo(replies, 1, utxo) && claimer.player_id is None
                ==> outcome.halt == refuses("missing player id"@) && outcome.after == a
            &&& says_done(replies, 0) && says_utxo(replies, 1, utxo) && claimer.player_id is Some
                && g.move_timeout < 0 ==> outcome.halt == refuses("move timeout cannot be negative"@)
                && outcome.after == a
            &&& says_done(replies, 0) && says_utxo(replies, 1, utxo) && claimer.player_id is Some
                && g.move_timeout >= 0 && replies.len() == 2 ==> outcome.halt == asks(
                RequestView::Build {
                    plan: TxPlanView {
                        inputs: seq![
                            unlocks(
                                "Mux"@,
                                game::game_fields(g),
                                "timeout"@,
                                signed_by(claimer).push(EntryArgView::Hash(claimer.player_id->Some_0)),
                                a.game_outpoint->Some_0,
                                utxo,
                                g.move_timeout as u64,
                            ),
                        ],
                        outputs: seq![
                            holds(
                                "Settle"@,
                                game::settle_fields(g.white_player, g.black_player, late_status(g)),
                                a.covenant_id,
                                1000,
                            ),
                        ],
                    },
                },
            )
            &&& says_done(replies, 0) && says_utxo(replies, 1, utxo) && claimer.player_id is Some
                && g.move_timeout >= 0 && says_failed(replies, 2, failure) ==> outcome.halt == refuses(
                "claim Mux timeout: "@ + failure,
            ) && outcome.after == a
        }),
{
    empty_text_adds_nothing();
    reply_laws::players_act_on_their_turn(a, claimer);
    let g = a.game->Some_0;
    let call = crate::plan::owner_args(
        crate::plan::entry("timeout"@),
        claimer.secret,
        claimer.public_key,
    ).with(EntryArgView::Hash(claimer.player_id->Some_0));
    assert(call.args =~= signed_by(claimer).push(EntryArgView::Hash(claimer.player_id->Some_0)));
    let p = crate::plan::plan().spend(
        "Mux"@,
        game::game_fields(g),
        call,
        a.game_outpoint->Some_0,
        utxo,
        g.move_timeout as u64,
    ).keep(
        "Settle"@,
        game::settle_fields(g.white_player, g.black_player, late_status(g)),
        a.covenant_id,
        1000,
    );
    assert(p.inputs =~= seq![
        unlocks(
            "Mux"@,
            game::game_fields(g),
            "timeout"@,
            call.args,
            a.game_outpoint->Some_0,
            utxo,
            g.move_timeout as u64,
        ),
    ]);
    assert(p.outputs =~= seq![
        holds(
            "Settle"@,
            game::settle_fields(g.white_player, g.black_player, late_status(g)),
            a.covenant_id,
            1000,
        ),
    ]);
}

/// Once its transaction is out, a timeout is done: the game leaves the worker or the table and waits
/// for its settlement in the first output, with the result of the timeout; both players are asked to
/// settle, white first; and the record names the claimer of a game between moves, nobody for a worker.
/// If either player has no owner, nobody is asked and nothing is recorded.
pub proof fn timeouts_that_went_out_await_settlement(
    a: ArenaView,
    claimer: SignerView,
    replies: Seq<ReplyView>,
    utxo: UnspentView,
    tx: ChainTxView,
)
    requires
        late_game(a) is Some,
        ({
            let g = late_game(a)->Some_0;
            &&& claimer.player_ref == Some(g.white_player) || claimer.player_ref == Some(g.black_player)
            &&& g.move_timeout >= 0
        }),
        a.active_worker is None ==> !on_turn(a, claimer) && a.game_outpoint is Some && claimer.player_id is Some,
        says_done(replies, 0),
        says_utxo(replies, 1, utxo),
        says_tx(replies, 2, tx),
    ensures
        ({
            let g = late_game(a)->Some_0;
            let worker = a.active_worker is Some;
            let outcome = endgame::claim_outcome(a, claimer, replies);
            let result = if late_status(g) == 1 {
                GameResult::WhiteWin
            } else if late_status(g) == 2 {
                GameResult::BlackWin
            } else {
                GameResult::Draw
            };
            let kind = MessageKindView::SettlementRequest { result };
            let waits = ArenaView {
                transactions: a.transactions.push(tx),
                active_settle: Some(
                    ActiveSettleState {
                        white_player: g.white_player,
                        black_player: g.black_player,
                        status: late_status(g),
                        outpoint: chain::output_of(tx, 0),
                    },
                ),
                active_worker: None,
                game: if worker {
                    a.game
                } else {
                    None
                },
                game_outpoint: if worker {
                    a.game_outpoint
                } else {
                    None
                },
                ..a
            };
            match (arena::owner_of(a.players, g.white_player), arena::owner_of(a.players, g.black_player)) {
                (Some(white), Some(black)) => {
                    &&& outcome.halt is None
                    &&& outcome.after == ArenaView {
                        messages: messages::delivered(
                            messages::delivered(
                                a.messages,
                                MessageView { from: "arena"@, to: white, kind },
                            ),
                            MessageView { from: "arena"@, to: black, kind },
                        ),
                        history: a.history.push(
                            if worker {
                                arena::submission_of("worker_timeout"@, tx, Seq::empty())
                            } else {
                                arena::submission_of("mux_timeout"@, tx, seq![claimer.name])
                            },
                        ),
                        ..waits
                    }
                },
                _ => outcome.halt == refuses("missing player owner"@) && outcome.after == waits,
            }
        }),
{
    reply_laws::players_act_on_their_turn(a, claimer);
}

} // verus!
