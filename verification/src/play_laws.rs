//! What play is for: how a game starts, what a move does to it, and what a castle challenge proves.

use vstd::prelude::*;

use crate::arena::{self, ActiveWorkerView, ArenaView, SubmissionView};
use crate::chain::{self, ChainTxView, Outpoint, UnspentView};
use crate::dialogue::{CovenantOutputView, MovedPosition, ReplyView, RequestView};
use crate::game::{self, GameView, PlayerStateData};
use crate::messages::{self, MessageKindView, MessageView};
use crate::moves::{self, MoveSpec, WorkerKind};
use crate::plan::{EntryArgView, TxPlanView};
use crate::play::{self, Outcome};
use crate::position_laws::{self, stays_on_board};
use crate::reply_laws::{
    self, asks, empty_text_adds_nothing, holds, on_turn, refuses, says_done, says_failed, says_moved, says_output,
    says_tx, says_utxo, signed_by, unlocks, waiting_player,
};
use crate::signing::SignerView;
use crate::status::GameResult;

verus! {

/// Whether both players are in the league and carry references.
pub open spec fn both_can_play(a: ArenaView, white: SignerView, black: SignerView) -> bool {
    &&& a.players.contains_key(white.name)
    &&& a.players.contains_key(black.name)
    &&& white.player_ref is Some
    &&& black.player_ref is Some
}

/// A game can start between any two players of the league who carry references; else the first thing
/// missing is named.
pub proof fn games_start_between_players_of_the_league(a: ArenaView, white: SignerView, black: SignerView)
    ensures
        ({
            let refusal = play::start_refusal(a, white, black);
            let white_in = a.players.contains_key(white.name);
            let black_in = a.players.contains_key(black.name);
            &&& refusal is None <==> both_can_play(a, white, black)
            &&& !white_in ==> refusal == Some("missing white"@)
            &&& white_in && !black_in ==> refusal == Some("missing black"@)
            &&& white_in && black_in && white.player_ref is None ==> refusal == Some(
                "white missing player ref"@,
            )
            &&& white_in && black_in && white.player_ref is Some && black.player_ref is None ==> refusal
                == Some("black missing player ref"@)
        }),
{
}

/// A refused start changes nothing.
pub proof fn refused_starts_change_nothing(
    a: ArenaView,
    white: SignerView,
    black: SignerView,
    replies: Seq<ReplyView>,
)
    requires
        !both_can_play(a, white, black),
    ensures
        play::start_after(a, white, black, replies) == a,
        crate::dialogue::halted(play::start_progress(a, white, black, replies)) == refuses(
            play::start_refusal(a, white, black)->Some_0,
        ),
{
}

/// The state in which a game opens: the standard position, white to move, all castling rights, nothing
/// pending, offered or logged.
pub proof fn games_open_with_white_to_move(
    white: crate::hash::Hash32,
    black: crate::hash::Hash32,
    offboard: i64,
    x: int,
)
    requires
        0 <= x < 8,
    ensures
        ({
            let g = play::opening(white, black, offboard);
            &&& g.white_player == white && g.black_player == black
            &&& g.turn == 0 && g.status == 0 && g.move_timeout == 600
            &&& g.castle_rights == seq![1u8, 1, 1, 1]
            &&& g.en_passant_idx == offboard && g.pending_src_idx == offboard && g.pending_dst_idx == offboard
            &&& g.pending_promo == 0 && g.recent_castle == 0 && g.draw_state == 3
            &&& g.move_log.len() == 0
            &&& g.board.len() == 64
            &&& g.board[8 + x] == 1 && g.board[48 + x] == 9
            &&& g.board[16 + x] == 0 && g.board[24 + x] == 0 && g.board[32 + x] == 0 && g.board[40 + x] == 0
            &&& g.board[56 + x] == g.board[x] + 8
            &&& g.board[0] == 4 && g.board[1] == 2 && g.board[2] == 3 && g.board[3] == 5
            &&& g.board[4] == 6 && g.board[5] == 3 && g.board[6] == 2 && g.board[7] == 4
            &&& g.board[59] == 13 && g.board[60] == 14
        }),
{
    position_laws::opening_is_the_standard_position(x);
}

/// A start asks for a builder, for the two players' outputs, white's first, and for one transaction
/// that spends both, each signed by its owner, keeps both with one more open game, and makes the game
/// with a stake of 1000. A failure on the way is refused with its reason.
pub proof fn starts_ask_for_one_transaction(
    a: ArenaView,
    white: SignerView,
    black: SignerView,
    replies: Seq<ReplyView>,
    white_utxo: UnspentView,
    black_utxo: UnspentView,
    failure: Seq<char>,
)
    requires
        both_can_play(a, white, black),
        a.players[white.name].open_games < i64::MAX,
        a.players[black.name].open_games < i64::MAX,
    ensures
        ({
            let halt = crate::dialogue::halted(play::start_progress(a, white, black, replies));
            let (w, b) = (a.players[white.name], a.players[black.name]);
            let known = says_done(replies, 0) && says_utxo(replies, 1, white_utxo) && says_utxo(
                replies,
                2,
                black_utxo,
            );
            &&& replies.len() == 0 ==> halt == asks(RequestView::StartBuilder)
            &&& says_failed(replies, 0, failure) ==> halt == refuses(
                "initialize Argent builder: "@ + failure,
            )
            &&& says_done(replies, 0) && replies.len() == 1 ==> halt == asks(
                RequestView::ActorUtxo {
                    actor: "Player"@,
                    state: game::player_fields(w),
                    value: w.value,
                    covenant_id: a.covenant_id,
                },
            )
            &&& says_done(replies, 0) && says_failed(replies, 1, failure) ==> halt == refuses(
                "build white Player UTXO: "@ + failure,
            )
            &&& says_done(replies, 0) && says_utxo(replies, 1, white_utxo) && replies.len() == 2 ==> halt
                == asks(
                RequestView::ActorUtxo {
                    actor: "Player"@,
                    state: game::player_fields(b),
                    value: b.value,
                    covenant_id: a.covenant_id,
                },
            )
            &&& says_done(replies, 0) && says_utxo(replies, 1, white_utxo) && says_failed(
                replies,
                2,
                failure,
            ) ==> halt == refuses("build black Player UTXO: "@ + failure)
            &&& known && replies.len() == 3 ==> halt == asks(
                RequestView::Build { plan: start_plan_in_full(a, white, black, white_utxo, black_utxo) },
            )
            &&& known && says_failed(replies, 3, failure) ==> halt == refuses("start game: "@ + failure)
            &&& known && replies.len() > 3 && replies[3] is Tx ==> halt is None
        }),
{
    empty_text_adds_nothing();
    if says_utxo(replies, 1, white_utxo) && says_utxo(replies, 2, black_utxo) {
        let p = play::start_plan(a, white, black, replies);
        let full = start_plan_in_full(a, white, black, white_utxo, black_utxo);
        let (w, b) = (a.players[white.name], a.players[black.name]);
        assert(p.inputs[0]->Actor_call.args =~= full.inputs[0]->Actor_call.args);
        assert(p.inputs[1]->Actor_call.args =~= full.inputs[1]->Actor_call.args);
        assert(play::with_open_game(w) == PlayerStateData { open_games: (w.open_games + 1) as i64, ..w });
        assert(play::with_open_game(b) == PlayerStateData { open_games: (b.open_games + 1) as i64, ..b });
        assert(p.inputs =~= full.inputs);
        assert(p.outputs =~= full.outputs);
    }
}

/// The transaction that starts a game, in full.
pub open spec fn start_plan_in_full(
    a: ArenaView,
    white: SignerView,
    black: SignerView,
    white_utxo: UnspentView,
    black_utxo: UnspentView,
) -> TxPlanView {
    let (w, b) = (a.players[white.name], a.players[black.name]);
    let opened = play::opening(white.player_ref->Some_0, black.player_ref->Some_0, a.offboard);
    TxPlanView {
        inputs: seq![
            unlocks(
                "Player"@,
                game::player_fields(w),
                "start_game"@,
                signed_by(white).push(EntryArgView::Byte(0)).push(EntryArgView::Int(600)),
                w.outpoint,
                white_utxo,
                0,
            ),
            unlocks(
                "Player"@,
                game::player_fields(b),
                "delegate_start_game"@,
                signed_by(black).push(EntryArgView::Int(600)),
                b.outpoint,
                black_utxo,
                0,
            ),
        ],
        outputs: seq![
            holds(
                "Player"@,
                game::player_fields(PlayerStateData { open_games: (w.open_games + 1) as i64, ..w }),
                a.covenant_id,
                w.value,
            ),
            holds(
                "Player"@,
                game::player_fields(PlayerStateData { open_games: (b.open_games + 1) as i64, ..b }),
                a.covenant_id,
                b.value,
            ),
            holds("Mux"@, game::game_fields(opened), a.covenant_id, 1000),
        ],
    }
}

/// Once its transaction is out, the game is on: each player has one more open game and sits in an
/// output of the transaction, white in the first and black in the second; the game sits in the third;
/// both are told by the arena; and the record names both.
pub proof fn started_games_are_on(
    a: ArenaView,
    white: SignerView,
    black: SignerView,
    replies: Seq<ReplyView>,
    tx: ChainTxView,
)
    requires
        both_can_play(a, white, black),
        a.players[white.name].open_games < i64::MAX,
        a.players[black.name].open_games < i64::MAX,
        says_done(replies, 0),
        replies.len() > 3,
        replies[1] is Utxo,
        replies[2] is Utxo,
        says_tx(replies, 3, tx),
    ensures
        ({
            let (w, b) = (a.players[white.name], a.players[black.name]);
            let kind = MessageKindView::GameStarted { white: white.name, black: black.name };
            play::start_after(a, white, black, replies) == ArenaView {
                transactions: a.transactions.push(tx),
                players: a.players.insert(
                    white.name,
                    PlayerStateData {
                        open_games: (w.open_games + 1) as i64,
                        outpoint: chain::output_of(tx, 0),
                        ..w
                    },
                ).insert(
                    black.name,
                    PlayerStateData {
                        open_games: (b.open_games + 1) as i64,
                        outpoint: chain::output_of(tx, 1),
                        ..b
                    },
                ),
                game: Some(play::opening(white.player_ref->Some_0, black.player_ref->Some_0, a.offboard)),
                game_outpoint: Some(chain::output_of(tx, 2)),
                messages: messages::delivered(
                    messages::delivered(
                        a.messages,
                        MessageView { from: "arena"@, to: white.name, kind },
                    ),
                    MessageView { from: "arena"@, to: black.name, kind },
                ),
                history: a.history.push(
                    arena::submission_of("start_game"@, tx, seq![white.name, black.name]),
                ),
                ..a
            }
        }),
{
}

/// Whether a move can be tried: it is the player's turn, and a worker moves the piece.
pub open spec fn can_try(a: ArenaView, actor: SignerView, mv: MoveSpec) -> bool {
    on_turn(a, actor) && moves::worker_choice(a.game->Some_0.board, mv) is Ok
}

/// A move is refused at once out of turn, and where no worker moves the piece; nothing changes then.
pub proof fn moves_are_refused_out_of_turn(
    a: ArenaView,
    actor: SignerView,
    mv: MoveSpec,
    action: i64,
    forced: bool,
    replies: Seq<ReplyView>,
)
    ensures
        ({
            let outcome = play::move_outcome(a, actor, mv, action, forced, replies);
            &&& play::move_refusal(a, actor, mv) is None <==> can_try(a, actor, mv)
            &&& play::turn_refusal(a, actor) matches Some(text) ==> outcome.halt == refuses(text)
                && outcome.after == a
            &&& on_turn(a, actor) ==> (moves::worker_choice(a.game->Some_0.board, mv) matches Err(text)
                ==> outcome.halt == refuses(text) && outcome.after == a)
        }),
{
    reply_laws::players_act_on_their_turn(a, actor);
}

/// The arguments with which a game is routed: the target, the move, its promotion piece, the
/// termination action, and the player's signature, key and id.
pub open spec fn route_args(actor: SignerView, target: Seq<char>, mv: MoveSpec, action: i64) -> Seq<EntryArgView> {
    seq![
        EntryArgView::Actor(target),
        EntryArgView::Int(mv.from_x),
        EntryArgView::Int(mv.from_y),
        EntryArgView::Int(mv.to_x),
        EntryArgView::Int(mv.to_y),
        EntryArgView::Byte(mv.promo_piece as u8),
        EntryArgView::Byte(action as u8),
        EntryArgView::Signature(actor.secret),
        EntryArgView::Bytes(actor.public_key),
        EntryArgView::Hash(actor.player_id->Some_0),
    ]
}

/// The transaction that routes a game, in full.
pub open spec fn route_in_full(
    a: ArenaView,
    actor: SignerView,
    target: Seq<char>,
    pending: GameView,
    mv: MoveSpec,
    action: i64,
    utxo: UnspentView,
) -> TxPlanView {
    TxPlanView {
        inputs: seq![
            unlocks(
                "Mux"@,
                game::game_fields(a.game->Some_0),
                "route"@,
                route_args(actor, target, mv, action),
                a.game_outpoint->Some_0,
                utxo,
                0,
            ),
        ],
        outputs: seq![holds(target, game::game_fields(pending), a.covenant_id, 1000)],
    }
}

proof fn lemma_route(
    a: ArenaView,
    actor: SignerView,
    target: Seq<char>,
    pending: GameView,
    mv: MoveSpec,
    action: i64,
    replies: Seq<ReplyView>,
    utxo: UnspentView,
)
    requires
        says_utxo(replies, 1, utxo),
    ensures
        play::route_plan(a, actor, target, pending, mv, action, replies) == route_in_full(
            a,
            actor,
            target,
            pending,
            mv,
            action,
            utxo,
        ),
{
    let p = play::route_plan(a, actor, target, pending, mv, action, replies);
    let full = route_in_full(a, actor, target, pending, mv, action, utxo);
    assert(p.inputs[0]->Actor_call.args =~= route_args(actor, target, mv, action));
    assert(p.inputs =~= full.inputs);
    assert(p.outputs =~= full.outputs);
}

/// The transaction in which a worker applies a move, in full: the worker's output goes back to the
/// game in its new state.
pub open spec fn application_in_full(
    a: ArenaView,
    worker: WorkerKind,
    from: GameView,
    output: CovenantOutputView,
    next: GameView,
) -> TxPlanView {
    TxPlanView {
        inputs: seq![
            unlocks(
                moves::worker_name(worker)@,
                game::game_fields(from),
                "apply"@,
                Seq::empty(),
                output.outpoint,
                output.utxo,
                0,
            ),
        ],
        outputs: seq![holds("Mux"@, game::game_fields(next), a.covenant_id, 1000)],
    }
}

proof fn lemma_application(
    a: ArenaView,
    worker: WorkerKind,
    from: GameView,
    output: CovenantOutputView,
    next: GameView,
)
    ensures
        play::apply_plan(worker, from, output, next, a.covenant_id) == application_in_full(
            a,
            worker,
            from,
            output,
            next,
        ),
{
    let p = play::apply_plan(worker, from, output, next, a.covenant_id);
    let full = application_in_full(a, worker, from, output, next);
    assert(p.inputs =~= full.inputs);
    assert(p.outputs =~= full.outputs);
}

/// A move that can be tried is routed to the worker of its piece: a builder, the output of the game,
/// one transaction with the move, signed by the player, and a look at what it made. A failure on the
/// way is refused with its reason and changes nothing, forced or not.
pub proof fn moves_are_routed_to_their_worker(
    a: ArenaView,
    actor: SignerView,
    mv: MoveSpec,
    action: i64,
    forced: bool,
    replies: Seq<ReplyView>,
    utxo: UnspentView,
    route: ChainTxView,
    failure: Seq<char>,
)
    requires
        can_try(a, actor, mv),
        a.game_outpoint is Some,
    ensures
        ({
            let g = a.game->Some_0;
            let outcome = play::move_outcome(a, actor, mv, action, forced, replies);
            let target = moves::worker_name(moves::worker_choice(g.board, mv)->Ok_0)@;
            let pending = game::pending_state(g, mv, action);
            let found = says_done(replies, 0) && says_utxo(replies, 1, utxo);
            let routed = found && actor.player_id is Some && says_tx(replies, 2, route);
            &&& replies.len() == 0 ==> outcome.halt == asks(RequestView::StartBuilder)
            &&& says_failed(replies, 0, failure) ==> outcome.halt == refuses(
                "initialize Argent builder: "@ + failure,
            ) && outcome.after == a
            &&& says_done(replies, 0) && replies.len() == 1 ==> outcome.halt == asks(
                RequestView::ActorUtxo {
                    actor: "Mux"@,
                    state: game::game_fields(g),
                    value: 1000,
                    covenant_id: a.covenant_id,
                },
            )
            &&& says_done(replies, 0) && says_failed(replies, 1, failure) ==> outcome.halt == refuses(
                "build active Mux UTXO: "@ + failure,
            ) && outcome.after == a
            &&& found && actor.player_id is None ==> outcome.halt == refuses("missing player id"@)
                && outcome.after == a
            &&& found && actor.player_id is Some && replies.len() == 2 ==> outcome.halt == asks(
                RequestView::Build { plan: route_in_full(a, actor, target, pending, mv, action, utxo) },
            )
            &&& found && actor.player_id is Some && says_failed(replies, 2, failure) ==> outcome.halt
                == refuses("route Mux to move actor: "@ + failure) && outcome.after == a
            &&& routed && replies.len() == 3 ==> outcome.halt == asks(
                RequestView::ReadOutput { tx: route, index: 0 },
            )
            &&& routed && says_failed(replies, 3, failure) ==> outcome.halt == refuses(
                "read routed move output: "@ + failure,
            ) && outcome.after == a
        }),
{
    empty_text_adds_nothing();
    reply_laws::players_act_on_their_turn(a, actor);
    let g = a.game->Some_0;
    let target = moves::worker_name(moves::worker_choice(g.board, mv)->Ok_0)@;
    let pending = game::pending_state(g, mv, action);
    if says_utxo(replies, 1, utxo) {
        lemma_route(a, actor, target, pending, mv, action, replies, utxo);
    }
}

/// Whether a move was routed: the game's output was found, the route went out, and its output is
/// known.
pub open spec fn was_routed(
    actor: SignerView,
    replies: Seq<ReplyView>,
    utxo: UnspentView,
    route: ChainTxView,
    output: CovenantOutputView,
) -> bool {
    &&& actor.player_id is Some
    &&& says_done(replies, 0)
    &&& says_utxo(replies, 1, utxo)
    &&& says_tx(replies, 2, route)
    &&& says_output(replies, 3, output)
}

/// A routed move is put to the rules, of chess or, forced, of the protocol, on the position as it
/// stands, and then applied by its worker. What the rules refuse is refused, with a hint at forcing
/// unless it was forced. Only a failed application of a forced move leaves anything behind.
pub proof fn routed_moves_are_put_to_the_rules(
    a: ArenaView,
    actor: SignerView,
    mv: MoveSpec,
    action: i64,
    forced: bool,
    replies: Seq<ReplyView>,
    utxo: UnspentView,
    route: ChainTxView,
    output: CovenantOutputView,
    moved: MovedPosition,
    failure: Seq<char>,
)
    requires
        can_try(a, actor, mv),
        a.game_outpoint is Some,
        was_routed(actor, replies, utxo, route, output),
    ensures
        ({
            let g = a.game->Some_0;
            let worker = moves::worker_choice(g.board, mv)->Ok_0;
            let pending = game::pending_state(g, mv, action);
            let next = game::worked_state(worker, pending, mv, moved, a.offboard);
            let outcome = play::move_outcome(a, actor, mv, action, forced, replies);
            &&& replies.len() == 4 ==> outcome.halt == asks(
                RequestView::ApplyMove {
                    board: g.board,
                    turn: game::effective_turn(pending),
                    castle_rights: g.castle_rights,
                    en_passant_idx: g.en_passant_idx,
                    mv,
                    standard: !forced,
                },
            )
            &&& says_failed(replies, 4, failure) && forced ==> outcome.halt == refuses(failure)
                && outcome.after == a
            &&& says_failed(replies, 4, failure) && !forced ==> outcome.halt == refuses(
                failure + ". Use Force Move to follow the broader protocol path."@,
            ) && outcome.after == a
            &&& says_moved(replies, 4, moved) && replies.len() == 5 ==> outcome.halt == asks(
                RequestView::Build { plan: application_in_full(a, worker, pending, output, next) },
            )
            &&& says_moved(replies, 4, moved) && says_failed(replies, 5, failure) && !forced ==> outcome.halt
                == refuses("apply failed: "@ + failure) && outcome.after == a
        }),
{
    empty_text_adds_nothing();
    reply_laws::players_act_on_their_turn(a, actor);
    let g = a.game->Some_0;
    let worker = moves::worker_choice(g.board, mv)->Ok_0;
    let pending = game::pending_state(g, mv, action);
    let next = game::worked_state(worker, pending, mv, moved, a.offboard);
    lemma_application(a, worker, pending, output, next);
}

/// An applied move stands: two transactions, the signed route and the application; the game in its new
/// state in the first output of the application; the waiting player told of the move, and of the
/// offer if there is one; two records. Without an owner to tell, only the transactions stand.
pub proof fn applied_moves_stand(
    a: ArenaView,
    actor: SignerView,
    mv: MoveSpec,
    action: i64,
    forced: bool,
    replies: Seq<ReplyView>,
    utxo: UnspentView,
    route: ChainTxView,
    output: CovenantOutputView,
    moved: MovedPosition,
    apply: ChainTxView,
)
    requires
        can_try(a, actor, mv),
        a.game_outpoint is Some,
        was_routed(actor, replies, utxo, route, output),
        says_moved(replies, 4, moved),
        says_tx(replies, 5, apply),
    ensures
        ({
            let g = a.game->Some_0;
            let worker = moves::worker_choice(g.board, mv)->Ok_0;
            let next = game::worked_state(worker, game::pending_state(g, mv, action), mv, moved, a.offboard);
            let outcome = play::move_outcome(a, actor, mv, action, forced, replies);
            let sent = ArenaView { transactions: a.transactions.push(route).push(apply), ..a };
            match arena::owner_of(a.players, waiting_player(g)) {
                None => {
                    &&& outcome.halt == if g.turn == 0 {
                        refuses("missing black owner"@)
                    } else {
                        refuses("missing white owner"@)
                    }
                    &&& outcome.after == sent
                },
                Some(owner) => {
                    let noticed = messages::delivered(
                        a.messages,
                        MessageView {
                            from: actor.name,
                            to: owner,
                            kind: MessageKindView::MoveNotice {
                                actor: actor.name,
                                worker,
                                move_label: moves::move_label(mv),
                                mv,
                            },
                        },
                    );
                    let records = seq![
                        arena::submission_of("route"@, route, seq![actor.name]),
                        arena::submission_of("worker_apply"@, apply, Seq::empty()),
                    ];
                    &&& outcome.halt is None
                    &&& outcome.submissions == records
                    &&& outcome.after == ArenaView {
                        game: Some(next),
                        game_outpoint: Some(chain::output_of(apply, 0)),
                        messages: if action == 1 {
                            messages::delivered(
                                noticed,
                                MessageView {
                                    from: actor.name,
                                    to: owner,
                                    kind: MessageKindView::DrawOffered { actor: actor.name },
                                },
                            )
                        } else {
                            noticed
                        },
                        history: a.history + records,
                        ..sent
                    }
                },
            }
        }),
{
    reply_laws::players_act_on_their_turn(a, actor);
}

/// After a move that goes through, the game goes on from exactly the position that the rules replied
/// with: its board, its en passant square and its castle marker. The other side is on turn, and the
/// same players play on with the same time.
pub proof fn games_go_on_from_the_position_of_the_rules(
    a: ArenaView,
    actor: SignerView,
    mv: MoveSpec,
    action: i64,
    forced: bool,
    replies: Seq<ReplyView>,
)
    requires
        a.wf(),
        play::move_outcome(a, actor, mv, action, forced, replies).halt is None,
        play::move_outcome(a, actor, mv, action, forced, replies).after.game is Some,
    ensures
        ({
            let g = a.game->Some_0;
            let next = play::move_outcome(a, actor, mv, action, forced, replies).after.game->Some_0;
            &&& replies.len() > 5
            &&& replies[4] matches ReplyView::Moved(reply) && {
                &&& next.board == reply.board@
                &&& next.en_passant_idx == reply.en_passant_idx
                &&& next.recent_castle == reply.recent_castle
            }
            &&& next.turn + g.turn == 1
            &&& next.white_player == g.white_player && next.black_player == g.black_player
            &&& next.move_timeout == g.move_timeout
            &&& next.pending_src_idx == a.offboard && next.pending_dst_idx == a.offboard
            &&& next.pending_promo == 0
        }),
{
}

/// A plain move offers nothing and follows the rules of chess; an offering move differs in its offer,
/// white's written 4 and black's 5; a forced move differs in the rules that it follows.
pub proof fn moves_differ_in_offer_and_rules(
    a: ArenaView,
    actor: SignerView,
    mv: MoveSpec,
    replies: Seq<ReplyView>,
)
    requires
        a.wf(),
    ensures
        ({
            let plain = play::plain_move_outcome(a, actor, mv, replies);
            let offering = play::offering_move_outcome(a, actor, mv, replies);
            let forced = play::forced_move_outcome(a, actor, mv, replies);
            let g = a.game->Some_0;
            &&& plain.halt is None ==> {
                &&& plain.after.game is Some
                &&& plain.after.game->Some_0.draw_state <= 3
                &&& plain.submissions.len() == 2
            }
            &&& offering.halt is None ==> {
                &&& offering.after.game is Some
                &&& offering.after.game->Some_0.draw_state == 4 + g.turn
                &&& offering.submissions.len() == 2
            }
            &&& forced.halt is None ==> {
                &&& forced.after.game is Some ==> forced.after.game->Some_0.draw_state <= 3
                &&& forced.after.game is Some ==> forced.submissions.len() == 2
                &&& forced.after.game is None ==> forced.after.active_worker is Some
                    && forced.submissions.len() == 1
            }
            &&& plain.halt matches Some(crate::dialogue::HaltView::Need(RequestView::ApplyMove {
                standard,
                ..
            })) ==> standard
            &&& offering.halt matches Some(crate::dialogue::HaltView::Need(RequestView::ApplyMove {
                standard,
                ..
            })) ==> standard
            &&& forced.halt matches Some(crate::dialogue::HaltView::Need(RequestView::ApplyMove {
                standard,
                ..
            })) ==> !standard
        }),
{
}

/// Whom the timeout of a game in a worker profits, and as what: both players for a draw, white first,
/// else the winner alone.
pub open spec fn told_of_timeout(g: GameView) -> (GameResult, Seq<crate::hash::Hash32>) {
    if g.draw_state == 1 {
        (GameResult::Draw, seq![g.white_player, g.black_player])
    } else if g.turn == 0 {
        (GameResult::BlackWin, seq![g.black_player])
    } else {
        (GameResult::WhiteWin, seq![g.white_player])
    }
}

/// A game that is left in a worker: it is no longer between moves, its transactions stand, whoever
/// profits from a timeout is told by the player who acted, and the records come with it. Where someone
/// to be told has no owner, the records are missing, and so is the notice to whoever comes after.
pub proof fn games_are_left_in_workers(
    a: ArenaView,
    actor: Seq<char>,
    worker: WorkerKind,
    g: GameView,
    outpoint: Outpoint,
    mv: MoveSpec,
    txs: Seq<ChainTxView>,
    records: Seq<SubmissionView>,
)
    ensures
        ({
            let outcome = play::park_outcome(a, actor, worker, g, outpoint, mv, txs, records);
            let (result, told) = told_of_timeout(g);
            let kind = MessageKindView::TimeoutClaimAvailable {
                result,
                worker,
                move_label: moves::move_label(mv),
            };
            let left = ArenaView {
                transactions: a.transactions + txs,
                game: None,
                game_outpoint: None,
                active_worker: Some(ActiveWorkerView { kind: worker, state: g, outpoint }),
                ..a
            };
            let first = arena::owner_of(a.players, told[0]);
            let one = messages::delivered(
                a.messages,
                MessageView { from: actor, to: first->Some_0, kind },
            );
            let second = arena::owner_of(a.players, told[1]);
            let two = messages::delivered(one, MessageView { from: actor, to: second->Some_0, kind });
            &&& first is None ==> outcome.halt == refuses("missing player owner"@) && outcome.after == left
            &&& first is Some && told.len() == 1 ==> outcome.halt is None && outcome.submissions == records
                && outcome.after == (ArenaView { messages: one, history: a.history + records, ..left })
            &&& first is Some && told.len() == 2 && second is None ==> outcome.halt == refuses(
                "missing player owner"@,
            ) && outcome.after == (ArenaView { messages: one, ..left })
            &&& first is Some && told.len() == 2 && second is Some ==> outcome.halt is None
                && outcome.submissions == records && outcome.after == (ArenaView {
                messages: two,
                history: a.history + records,
                ..left
            })
        }),
{
}

/// A forced move that its worker fails to apply leaves the game, with the move pending, in the
/// worker's output, with the route on the books.
pub proof fn stalled_moves_stay_in_their_worker(
    a: ArenaView,
    actor: SignerView,
    mv: MoveSpec,
    action: i64,
    replies: Seq<ReplyView>,
    utxo: UnspentView,
    route: ChainTxView,
    output: CovenantOutputView,
    moved: MovedPosition,
    failure: Seq<char>,
)
    requires
        can_try(a, actor, mv),
        a.game_outpoint is Some,
        was_routed(actor, replies, utxo, route, output),
        says_moved(replies, 4, moved),
        says_failed(replies, 5, failure),
    ensures
        ({
            let g = a.game->Some_0;
            play::move_outcome(a, actor, mv, action, true, replies) == play::park_outcome(
                a,
                actor.name,
                moves::worker_choice(g.board, mv)->Ok_0,
                game::pending_state(g, mv, action),
                output.outpoint,
                mv,
                seq![route],
                seq![arena::submission_of("route"@, route, seq![actor.name])],
            )
        }),
{
    reply_laws::players_act_on_their_turn(a, actor);
}

/// Whether a challenge can be tried: it is the player's turn, and the move before was a castle.
pub open spec fn can_challenge(a: ArenaView, actor: SignerView) -> bool {
    on_turn(a, actor) && a.game->Some_0.recent_castle != 0
}

/// The state in which a challenge is prepared: the challenging move pending, and the castle still
/// marked.
pub proof fn challenges_keep_the_castle_marked(g: GameView, mv: MoveSpec)
    requires
        game::squares_fit(mv),
    ensures
        ({
            let prep = play::challenge_prep(g, mv);
            &&& prep.recent_castle == g.recent_castle
            &&& prep.pending_src_idx == mv.from_y * 8 + mv.from_x
            &&& prep.pending_dst_idx == mv.to_y * 8 + mv.to_x
            &&& prep.pending_promo == mv.promo_piece
            &&& g.draw_state <= 3 ==> prep.draw_state == g.draw_state
            &&& g.draw_state > 3 ==> prep.draw_state == 3
            &&& prep.white_player == g.white_player && prep.black_player == g.black_player
            &&& prep.board == g.board && prep.castle_rights == g.castle_rights && prep.turn == g.turn
            &&& prep.status == g.status && prep.move_timeout == g.move_timeout
            &&& prep.en_passant_idx == g.en_passant_idx && prep.move_log == g.move_log
        }),
{
}

/// A challenge is refused at once out of turn and where the move before was no castle; nothing changes
/// then.
pub proof fn challenges_answer_a_castle(
    a: ArenaView,
    actor: SignerView,
    mv: MoveSpec,
    forced: bool,
    replies: Seq<ReplyView>,
)
    ensures
        ({
            let outcome = play::challenge_outcome(a, actor, mv, forced, replies);
            &&& play::challenge_refusal(a, actor) is None <==> can_challenge(a, actor)
            &&& play::turn_refusal(a, actor) matches Some(text) ==> outcome.halt == refuses(text)
                && outcome.after == a
            &&& on_turn(a, actor) && a.game->Some_0.recent_castle == 0 ==> outcome.halt == refuses(
                "the previous move was not a castle"@,
            ) && outcome.after == a
        }),
{
    reply_laws::players_act_on_their_turn(a, actor);
}

/// A challenge that can be tried is routed to its preparation as a move is to its worker.
pub proof fn challenges_are_routed_to_their_preparation(
    a: ArenaView,
    actor: SignerView,
    mv: MoveSpec,
    forced: bool,
    replies: Seq<ReplyView>,
    utxo: UnspentView,
    route: ChainTxView,
    failure: Seq<char>,
)
    requires
        can_challenge(a, actor),
        a.game_outpoint is Some,
    ensures
        ({
            let g = a.game->Some_0;
            let outcome = play::challenge_outcome(a, actor, mv, forced, replies);
            let prep = play::challenge_prep(g, mv);
            let found = says_done(replies, 0) && says_utxo(replies, 1, utxo);
            let routed = found && actor.player_id is Some && says_tx(replies, 2, route);
            &&& replies.len() == 0 ==> outcome.halt == asks(RequestView::StartBuilder)
            &&& says_failed(replies, 0, failure) ==> outcome.halt == refuses(
                "initialize Argent builder: "@ + failure,
            ) && outcome.after == a
            &&& says_done(replies, 0) && replies.len() == 1 ==> outcome.halt == asks(
                RequestView::ActorUtxo {
                    actor: "Mux"@,
                    state: game::game_fields(g),
                    value: 1000,
                    covenant_id: a.covenant_id,
                },
            )
            &&& says_done(replies, 0) && says_failed(replies, 1, failure) ==> outcome.halt == refuses(
                "build active Mux UTXO: "@ + failure,
            ) && outcome.after == a
            &&& found && actor.player_id is None ==> outcome.halt == refuses("missing player id"@)
                && outcome.after == a
            &&& found && actor.player_id is Some && replies.len() == 2 ==> outcome.halt == asks(
                RequestView::Build {
                    plan: route_in_full(a, actor, "CastleChallengePrep"@, prep, mv, 0, utxo),
                },
            )
            &&& found && actor.player_id is Some && says_failed(replies, 2, failure) ==> outcome.halt
                == refuses("route Mux to move actor: "@ + failure) && outcome.after == a
            &&& routed && replies.len() == 3 ==> outcome.halt == asks(
                RequestView::ReadOutput { tx: route, index: 0 },
            )
            &&& routed && says_failed(replies, 3, failure) ==> outcome.halt == refuses(
                "read routed move output: "@ + failure,
            ) && outcome.after == a
        }),
{
    empty_text_adds_nothing();
    reply_laws::players_act_on_their_turn(a, actor);
    if says_utxo(replies, 1, utxo) {
        lemma_route(
            a,
            actor,
            "CastleChallengePrep"@,
            play::challenge_prep(a.game->Some_0, mv),
            mv,
            0,
            replies,
            utxo,
        );
    }
}

/// What a challenge comes to that failed with a reason after one transaction: nothing if it was not
/// forced, else the game stays in the preparation.
pub open spec fn stalled_in_preparation(
    a: ArenaView,
    actor: SignerView,
    mv: MoveSpec,
    forced: bool,
    outpoint: Outpoint,
    route: ChainTxView,
    reason: Seq<char>,
) -> Outcome {
    if forced {
        play::park_outcome(
            a,
            actor.name,
            WorkerKind::CastleChallenge,
            play::challenge_prep(a.game->Some_0, mv),
            outpoint,
            mv,
            seq![route],
            seq![arena::submission_of("castle_challenge_route"@, route, seq![actor.name])],
        )
    } else {
        Outcome { after: a, halt: refuses(reason), submissions: Seq::empty() }
    }
}

/// What a challenge comes to that failed with a reason after two transactions: nothing if it was not
/// forced, else the game stays in the worker that proves it.
pub open spec fn stalled_in_proof(
    a: ArenaView,
    actor: SignerView,
    mv: MoveSpec,
    forced: bool,
    worker: WorkerKind,
    outpoint: Outpoint,
    route: ChainTxView,
    prep: ChainTxView,
    reason: Seq<char>,
) -> Outcome {
    if forced {
        play::park_outcome(
            a,
            actor.name,
            worker,
            game::proof_state(play::challenge_prep(a.game->Some_0, mv), a.offboard),
            outpoint,
            mv,
            seq![route, prep],
            seq![
                arena::submission_of("castle_challenge_route"@, route, seq![actor.name]),
                arena::submission_of("castle_challenge_prepare"@, prep, Seq::empty()),
            ],
        )
    } else {
        Outcome { after: a, halt: refuses(reason), submissions: Seq::empty() }
    }
}

/// A routed challenge needs a proof and a worker for it; else it stalls in preparation.
pub proof fn challenges_need_proof_and_worker(
    a: ArenaView,
    actor: SignerView,
    mv: MoveSpec,
    forced: bool,
    replies: Seq<ReplyView>,
    utxo: UnspentView,
    route: ChainTxView,
    output: CovenantOutputView,
)
    requires
        can_challenge(a, actor),
        a.game_outpoint is Some,
        was_routed(actor, replies, utxo, route, output),
    ensures
        ({
            let prep = play::challenge_prep(a.game->Some_0, mv);
            let shown = game::proof_state(prep, a.offboard);
            let outcome = play::challenge_outcome(a, actor, mv, forced, replies);
            &&& game::proof_refusal(prep) matches Some(reason) ==> outcome == stalled_in_preparation(
                a,
                actor,
                mv,
                forced,
                output.outpoint,
                route,
                reason,
            )
            &&& game::proof_refusal(prep) is None ==> (moves::challenge_worker_choice(
                shown.board,
                mv,
            ) matches Err(reason) ==> outcome == stalled_in_preparation(
                a,
                actor,
                mv,
                forced,
                output.outpoint,
                route,
                reason,
            ))
        }),
{
    reply_laws::players_act_on_their_turn(a, actor);
    let txs = play::challenge_txs(replies).take(1);
    assert(txs =~= seq![route]);
    assert(play::challenge_records(actor.name, txs) =~= seq![
        arena::submission_of("castle_challenge_route"@, route, seq![actor.name]),
    ]);
}

/// The transaction that hands a prepared challenge to its worker, in full.
pub open spec fn preparation_in_full(
    a: ArenaView,
    prep: GameView,
    shown: GameView,
    worker: WorkerKind,
    output: CovenantOutputView,
) -> TxPlanView {
    TxPlanView {
        inputs: seq![
            unlocks(
                "CastleChallengePrep"@,
                game::game_fields(prep),
                "apply"@,
                seq![EntryArgView::Actor(moves::worker_name(worker)@)],
                output.outpoint,
                output.utxo,
                0,
            ),
        ],
        outputs: seq![holds(moves::worker_name(worker)@, game::game_fields(shown), a.covenant_id, 1000)],
    }
}

/// A challenge with proof and worker hands the proof to the worker, looks at what that made, puts the
/// move to the rules of the protocol on the shown position, and lets the worker apply it. A failure on
/// the way stalls it where it is, except that an output that cannot be read is refused.
pub proof fn challenges_are_proved_by_their_worker(
    a: ArenaView,
    actor: SignerView,
    mv: MoveSpec,
    forced: bool,
    replies: Seq<ReplyView>,
    utxo: UnspentView,
    route: ChainTxView,
    output: CovenantOutputView,
    prep_tx: ChainTxView,
    proof_output: CovenantOutputView,
    moved: MovedPosition,
    failure: Seq<char>,
)
    requires
        can_challenge(a, actor),
        a.game_outpoint is Some,
        was_routed(actor, replies, utxo, route, output),
        game::proof_refusal(play::challenge_prep(a.game->Some_0, mv)) is None,
        moves::challenge_worker_choice(
            game::proof_state(play::challenge_prep(a.game->Some_0, mv), a.offboard).board,
            mv,
        ) is Ok,
    ensures
        ({
            let prep = play::challenge_prep(a.game->Some_0, mv);
            let shown = game::proof_state(prep, a.offboard);
            let worker = moves::challenge_worker_choice(shown.board, mv)->Ok_0;
            let next = game::worked_state(worker, shown, mv, moved, a.offboard);
            let outcome = play::challenge_outcome(a, actor, mv, forced, replies);
            let prepared = says_tx(replies, 4, prep_tx);
            let held = prepared && says_output(replies, 5, proof_output);
            &&& replies.len() == 4 ==> outcome.halt == asks(
                RequestView::Build { plan: preparation_in_full(a, prep, shown, worker, output) },
            )
            &&& says_failed(replies, 4, failure) ==> outcome == stalled_in_preparation(
                a,
                actor,
                mv,
                forced,
                output.outpoint,
                route,
                "castle challenge preparation failed: "@ + failure,
            )
            &&& prepared && replies.len() == 5 ==> outcome.halt == asks(
                RequestView::ReadOutput { tx: prep_tx, index: 0 },
            )
            &&& prepared && says_failed(replies, 5, failure) ==> outcome.halt == refuses(
                "read prepared challenge worker output: "@ + failure,
            ) && outcome.after == a
            &&& held && replies.len() == 6 ==> outcome.halt == asks(
                RequestView::ApplyMove {
                    board: shown.board,
                    turn: a.game->Some_0.turn,
                    castle_rights: a.game->Some_0.castle_rights,
                    en_passant_idx: a.offboard,
                    mv,
                    standard: false,
                },
            )
            &&& held && says_failed(replies, 6, failure) ==> outcome == stalled_in_proof(
                a,
                actor,
                mv,
                forced,
                worker,
                proof_output.outpoint,
                route,
                prep_tx,
                failure,
            )
            &&& held && says_moved(replies, 6, moved) && replies.len() == 7 ==> outcome.halt == asks(
                RequestView::Build { plan: application_in_full(a, worker, shown, proof_output, next) },
            )
            &&& held && says_moved(replies, 6, moved) && says_failed(replies, 7, failure) ==> outcome
                == stalled_in_proof(
                a,
                actor,
                mv,
                forced,
                worker,
                proof_output.outpoint,
                route,
                prep_tx,
                "castle challenge apply failed: "@ + failure,
            )
        }),
{
    empty_text_adds_nothing();
    reply_laws::players_act_on_their_turn(a, actor);
    let prep = play::challenge_prep(a.game->Some_0, mv);
    let shown = game::proof_state(prep, a.offboard);
    let worker = moves::challenge_worker_choice(shown.board, mv)->Ok_0;
    let next = game::worked_state(worker, shown, mv, moved, a.offboard);
    let p = play::prep_plan(a, mv, output);
    let full = preparation_in_full(a, prep, shown, worker, output);
    assert(p.inputs[0]->Actor_call.args =~= seq![EntryArgView::Actor(moves::worker_name(worker)@)]);
    assert(p.inputs =~= full.inputs);
    assert(p.outputs =~= full.outputs);
    lemma_application(a, worker, shown, proof_output, next);
    let one = play::challenge_txs(replies).take(1);
    assert(one =~= seq![route]);
    assert(play::challenge_records(actor.name, one) =~= seq![
        arena::submission_of("castle_challenge_route"@, route, seq![actor.name]),
    ]);
    if says_tx(replies, 4, prep_tx) {
        let two = play::challenge_txs(replies).take(2);
        assert(two =~= seq![route, prep_tx]);
        assert(play::challenge_records(actor.name, two) =~= seq![
            arena::submission_of("castle_challenge_route"@, route, seq![actor.name]),
            arena::submission_of("castle_challenge_prepare"@, prep_tx, Seq::empty()),
        ]);
    }
}

/// A proved challenge stands: three transactions; the game in its new state, won by the challenger, in
/// the first output of the last; the waiting player told; three records. Without an owner to tell, the
/// game and the transactions stand.
pub proof fn proved_challenges_stand(
    a: ArenaView,
    actor: SignerView,
    mv: MoveSpec,
    forced: bool,
    replies: Seq<ReplyView>,
    utxo: UnspentView,
    route: ChainTxView,
    output: CovenantOutputView,
    prep_tx: ChainTxView,
    proof_output: CovenantOutputView,
    moved: MovedPosition,
    apply: ChainTxView,
)
    requires
        can_challenge(a, actor),
        a.game_outpoint is Some,
        was_routed(actor, replies, utxo, route, output),
        game::proof_refusal(play::challenge_prep(a.game->Some_0, mv)) is None,
        moves::challenge_worker_choice(
            game::proof_state(play::challenge_prep(a.game->Some_0, mv), a.offboard).board,
            mv,
        ) is Ok,
        says_tx(replies, 4, prep_tx),
        says_output(replies, 5, proof_output),
        says_moved(replies, 6, moved),
        says_tx(replies, 7, apply),
    ensures
        ({
            let g = a.game->Some_0;
            let shown = game::proof_state(play::challenge_prep(g, mv), a.offboard);
            let worker = moves::challenge_worker_choice(shown.board, mv)->Ok_0;
            let outcome = play::challenge_outcome(a, actor, mv, forced, replies);
            let next = outcome.after.game->Some_0;
            let records = seq![
                arena::submission_of("castle_challenge_route"@, route, seq![actor.name]),
                arena::submission_of("castle_challenge_prepare"@, prep_tx, Seq::empty()),
                arena::submission_of("castle_challenge_apply"@, apply, Seq::empty()),
            ];
            let stands = ArenaView {
                transactions: a.transactions + seq![route, prep_tx, apply],
                game: Some(game::worked_state(worker, shown, mv, moved, a.offboard)),
                game_outpoint: Some(chain::output_of(apply, 0)),
                ..a
            };
            &&& outcome.after.game is Some
            &&& next.status == if g.turn == 0 {
                1int
            } else {
                2int
            }
            &&& next.board == moved.board@
            &&& match arena::owner_of(a.players, waiting_player(g)) {
                None => outcome.halt == refuses("missing player owner"@) && outcome.after == stands,
                Some(owner) => {
                    &&& outcome.halt is None
                    &&& outcome.submissions == records
                    &&& outcome.after == ArenaView {
                        messages: messages::delivered(
                            a.messages,
                            MessageView {
                                from: actor.name,
                                to: owner,
                                kind: MessageKindView::MoveNotice {
                                    actor: actor.name,
                                    worker,
                                    move_label: moves::move_label(mv),
                                    mv,
                                },
                            },
                        ),
                        history: a.history + records,
                        ..stands
                    }
                },
            }
        }),
{
    reply_laws::players_act_on_their_turn(a, actor);
    let txs = play::challenge_txs(replies);
    assert(txs =~= seq![route, prep_tx, apply]);
    assert(play::challenge_records(actor.name, txs) =~= seq![
        arena::submission_of("castle_challenge_route"@, route, seq![actor.name]),
        arena::submission_of("castle_challenge_prepare"@, prep_tx, Seq::empty()),
        arena::submission_of("castle_challenge_apply"@, apply, Seq::empty()),
    ]);
}

/// A challenge on any square on which the castling king stood, by a move on the board from another
/// square, is never refused for want of a proof: in a normal draw state with any of the four castle
/// markers the proof exists and shows the king under attack.
pub proof fn challenges_on_the_king_path_have_a_proof(g: GameView, mv: MoveSpec, offboard: i64)
    requires
        g.board.len() == 64,
        g.draw_state >= 3,
        1 <= g.recent_castle <= 4,
        stays_on_board(mv),
        mv.from_x != mv.to_x || mv.from_y != mv.to_y,
        ({
            let (start, crossed, landed) = position_laws::king_path(g.recent_castle as int);
            let attacked = mv.to_y * 8 + mv.to_x;
            attacked == start || attacked == crossed || attacked == landed
        }),
    ensures
        game::proof_refusal(play::challenge_prep(g, mv)) is None,
        game::proof_state(play::challenge_prep(g, mv), offboard).board[mv.to_y * 8 + mv.to_x]
            == if g.recent_castle <= 2 {
            6int
        } else {
            14int
        },
{
    challenges_keep_the_castle_marked(g, mv);
    let prep = play::challenge_prep(g, mv);
    position_laws::every_square_of_the_king_can_be_challenged(prep);
    position_laws::proofs_show_the_king_on_the_attacked_square(prep, offboard, 0);
}

/// Numbers in the ordinary range always fit: open games below the machine limit, promotion pieces that
/// are bytes, and challenges on the board.
pub proof fn ordinary_numbers_fit(
    a: ArenaView,
    white: SignerView,
    black: SignerView,
    mv: MoveSpec,
    forced: bool,
    replies: Seq<ReplyView>,
)
    ensures
        a.players[white.name].open_games < i64::MAX && a.players[black.name].open_games < i64::MAX
            ==> play::start_fits(a, white, black),
        0 <= mv.promo_piece <= 255 ==> play::move_fits(a, white, mv, replies),
        0 <= mv.promo_piece <= 255 && stays_on_board(mv) ==> play::challenge_fits(
            a,
            white,
            mv,
            forced,
            replies,
        ),
{
}

} // verus!
