//! Endings: timeouts, draw claims, accepted draws and surrender.

use vstd::prelude::*;

use crate::arena::{
    self, no_signers, one_signer, submitted_tx, ActiveSettleState, ActiveWorkerState, ActiveWorkerView,
    ArenaView, TxArena,
};
use crate::chain::{self, copy_bytes, ChainTx, ChainTxView, Outpoint, Unspent};
use crate::dialogue::{
    self, hear_builder, hear_tx, hear_utxo, stop, Halt, HaltView, Progress, Reply, ReplyView, Request,
    RequestView,
};
use crate::error::{refuse, OrchestratorError};
use crate::game::{
    self, copy_strings, game_source_state, player_side, settle_source_state, state_byte, GameStateData, GameView,
};
use crate::hash::Hash32;
use crate::messages::{MessageKindView, OffchainMessageKind};
use crate::moves::{self, worker_actor};
use crate::plan::{self, with_owner_args, EntryArg, EntryArgView, EntryCall, TxPlan};
use crate::play::{self, Outcome};
use crate::signing::{SignerView, SigningPlayer};
use crate::status::{
    self, result_from_status, side_from_turn, timeout_sequence, timeout_status, GameResult, Side, ACCEPT, BOFFER,
    BWIN, CLAIM, CLAIMED, CLEAR, DRAW, NORMAL, SURRENDER, WHITE, WWIN,
};
use crate::text::{self, join2, signed_decimal_text};

verus! {

/// The arena after both players were asked to settle, and whether both have owners.
pub open spec fn settlement_told(
    a: ArenaView,
    white_player: Hash32,
    black_player: Hash32,
    result: GameResult,
) -> (ArenaView, bool) {
    let kind = MessageKindView::SettlementRequest { result };
    match (arena::owner_of(a.players, white_player), arena::owner_of(a.players, black_player)) {
        (Some(white), Some(black)) => (
            a.with_message("arena"@, white, kind).with_message("arena"@, black, kind),
            true,
        ),
        _ => (a, false),
    }
}

/// The status of a game whose side to move ran out of time.
pub open spec fn expired(g: GameView) -> i64 {
    status::timed_out_status(g.turn as int, g.draw_state as int) as i64
}

/// The outcome of a timeout whose transaction went out: the game waits for its settlement, and both
/// players are asked to settle.
pub open spec fn timeout_outcome(
    a: ArenaView,
    g: GameView,
    tx: ChainTxView,
    action: Seq<char>,
    signers: Seq<Seq<char>>,
) -> Outcome {
    let waiting = ArenaView {
        active_settle: Some(
            ActiveSettleState {
                white_player: g.white_player,
                black_player: g.black_player,
                status: expired(g),
                outpoint: chain::output_of(tx, 0),
            },
        ),
        ..a
    }.with_tx(tx);
    let (told, reached) = settlement_told(
        waiting,
        g.white_player,
        g.black_player,
        status::result_of(expired(g) as int)->Ok_0,
    );
    if reached {
        Outcome { after: told.with_record(action, tx, signers), halt: None, submissions: Seq::empty() }
    } else {
        Outcome {
            after: told,
            halt: Some(HaltView::Refused("missing player owner"@)),
            submissions: Seq::empty(),
        }
    }
}

/// Why the timeout of a game in a worker cannot be claimed at once.
pub open spec fn worker_claim_refusal(claimer: SignerView, g: GameView) -> Option<Seq<char>> {
    match game::side_of(claimer.name, claimer.player_ref, g.white_player, g.black_player) {
        Err(text) => Some(text),
        Ok(_) => None,
    }
}

/// The refusal of a negative move timeout.
pub open spec fn timeout_refusal(g: GameView) -> Option<Seq<char>> {
    if g.move_timeout < 0 {
        Some("move timeout cannot be negative"@)
    } else {
        None
    }
}

/// How far a claim of a worker's timeout gets.
pub open spec fn worker_claim_progress(
    a: ArenaView,
    claimer: SignerView,
    w: ActiveWorkerView,
    replies: Seq<ReplyView>,
) -> Progress {
    let g = w.state;
    let actor = moves::worker_name(w.kind)@;
    dialogue::check(
        worker_claim_refusal(claimer, g),
        dialogue::ask_builder(
            replies,
            0,
            dialogue::ask(
                replies,
                1,
                dialogue::utxo_request(actor, game::game_fields(g), 1000, a.covenant_id),
                "build timed-out worker UTXO: "@,
                ""@,
                dialogue::check(
                    timeout_refusal(g),
                    dialogue::ask(
                        replies,
                        2,
                        RequestView::Build {
                            plan: plan::plan().spend(
                                actor,
                                game::game_fields(g),
                                plan::entry("timeout"@),
                                w.outpoint,
                                dialogue::utxo_at(replies, 1),
                                g.move_timeout as u64,
                            ).keep(
                                "Settle"@,
                                game::settle_fields(g.white_player, g.black_player, expired(g)),
                                a.covenant_id,
                                1000,
                            ),
                        },
                        "claim worker timeout: "@,
                        ""@,
                        Progress::Finished,
                    ),
                ),
            ),
        ),
    )
}

/// Why the timeout of a game between moves cannot be claimed at once: the claimer is not in the
/// game, or is the one to move.
pub open spec fn mux_claim_refusal(
    a: ArenaView,
    claimer: SignerView,
    g: GameView,
) -> Option<Seq<char>> {
    match game::side_of(claimer.name, claimer.player_ref, g.white_player, g.black_player) {
        Err(text) => Some(text),
        Ok(side) => if side == status::side_to_move(g.turn as int) {
            Some(claimer.name + " is not entitled to claim this timeout"@)
        } else if a.game_outpoint is None {
            Some("missing game outpoint"@)
        } else {
            None
        },
    }
}

/// How far a claim of a timeout between moves gets.
pub open spec fn mux_claim_progress(
    a: ArenaView,
    claimer: SignerView,
    g: GameView,
    replies: Seq<ReplyView>,
) -> Progress {
    dialogue::check(
        mux_claim_refusal(a, claimer, g),
        dialogue::ask_builder(
            replies,
            0,
            dialogue::ask(
                replies,
                1,
                dialogue::utxo_request("Mux"@, game::game_fields(g), 1000, a.covenant_id),
                "build timed-out Mux UTXO: "@,
                ""@,
                dialogue::check(
                    if claimer.player_id is None {
                        Some("missing player id"@)
                    } else {
                        timeout_refusal(g)
                    },
                    dialogue::ask(
                        replies,
                        2,
                        RequestView::Build {
                            plan: plan::plan().spend(
                                "Mux"@,
                                game::game_fields(g),
                                plan::owner_args(
                                    plan::entry("timeout"@),
                                    claimer.secret,
                                    claimer.public_key,
                                ).with(EntryArgView::Hash(claimer.player_id->Some_0)),
                                a.game_outpoint->Some_0,
                                dialogue::utxo_at(replies, 1),
                                g.move_timeout as u64,
                            ).keep(
                                "Settle"@,
                                game::settle_fields(g.white_player, g.black_player, expired(g)),
                                a.covenant_id,
                                1000,
                            ),
                        },
                        "claim Mux timeout: "@,
                        ""@,
                        Progress::Finished,
                    ),
                ),
            ),
        ),
    )
}

/// What a timeout claim comes to. A game in a worker is claimed before one between moves.
pub open spec fn claim_outcome(
    a: ArenaView,
    claimer: SignerView,
    replies: Seq<ReplyView>,
) -> Outcome {
    let tx = dialogue::tx_at(replies, 2);
    match (a.active_worker, a.game) {
        (Some(w), _) => {
            let progress = worker_claim_progress(a, claimer, w, replies);
            if progress is Finished {
                timeout_outcome(
                    ArenaView { active_worker: None, ..a },
                    w.state,
                    tx,
                    "worker_timeout"@,
                    Seq::empty(),
                )
            } else {
                play::unchanged(a, progress)
            }
        },
        (None, Some(g)) => {
            let progress = mux_claim_progress(a, claimer, g, replies);
            if progress is Finished {
                timeout_outcome(a.without_game(), g, tx, "mux_timeout"@, seq![claimer.name])
            } else {
                play::unchanged(a, progress)
            }
        },
        (None, None) => play::unchanged(
            a,
            Progress::Refused("missing active game or worker"@),
        ),
    }
}

impl TxArena {
    fn notify_settlement(
        &mut self,
        white_player: Hash32,
        black_player: Hash32,
        result: GameResult,
    ) -> (outcome: Result<(), OrchestratorError>)
        requires
            old(self).maps_wf(),
        ensures
            final(self).maps_wf(),
            (final(self)@, outcome is Ok) == settlement_told(old(self)@, white_player, black_player, result),
            outcome matches Err(e) ==> e.0@ == "missing player owner"@,
    {
        match (self.find_owner(white_player), self.find_owner(black_player)) {
            (Some(white), Some(black)) => {
                self.push_message("arena", &white, OffchainMessageKind::SettlementRequest { result });
                self.push_message("arena", &black, OffchainMessageKind::SettlementRequest { result });
                Ok(())
            },
            _ => Err(refuse("missing player owner")),
        }
    }

    /// Lets a game wait for its settlement after a timeout.
    fn commit_timeout(
        &mut self,
        white_player: Hash32,
        black_player: Hash32,
        status: i64,
        tx: &ChainTx,
        action: &'static str,
        signers: Vec<String>,
        Ghost(g): Ghost<GameView>,
    ) -> (done: Result<(), Halt>)
        requires
            old(self).wf(),
            white_player == g.white_player,
            black_player == g.black_player,
            status == expired(g),
        ensures
            final(self).wf(),
            final(self)@ == timeout_outcome(old(self)@, g, tx@, action@, game::texts(signers@)).after,
            dialogue::halt_of(done) == timeout_outcome(
                old(self)@,
                g,
                tx@,
                action@,
                game::texts(signers@),
            ).halt,
    {
        let ghost first = self@;
        let result: GameResult = match result_from_status(status) {
            Ok(result) => result,
            Err(refusal) => return Err(Halt::Refused(refusal)),
        };
        self.active_settle =
        Some(ActiveSettleState { white_player, black_player, status, outpoint: tx.outpoint(0) });
        self.push_tx(tx);
        proof {
            arena::lemma_record_tx(
                first.history,
                first.transactions,
                action@,
                tx@,
                game::texts(signers@),
            );
        }
        match self.notify_settlement(white_player, black_player, result) {
            Err(refusal) => Err(Halt::Refused(refusal)),
            Ok(_) => {
                self.push_record(submitted_tx(action, tx, signers));
                Ok(())
            },
        }
    }

    fn worker_timeout_tx<'a>(
        &self,
        claimer: &SigningPlayer,
        worker: &ActiveWorkerState,
        replies: &'a Vec<Reply>,
    ) -> (tx: Result<&'a ChainTx, Halt>)
        requires
            worker.state@.wf(),
        ensures
            dialogue::halt_of(tx) == dialogue::halted(
                worker_claim_progress(self@, claimer@, worker@, dialogue::reply_views(replies@)),
            ),
            tx matches Ok(t) ==> t@ == dialogue::tx_at(dialogue::reply_views(replies@), 2),
    {
        let state: &GameStateData = &worker.state;
        if let Err(refusal) = player_side(claimer, state) {
            return Err(Halt::Refused(refusal));
        }
        let status: i64 = timeout_status(state.turn, state.draw_state);
        hear_builder(replies, 0)?;
        let worker_utxo: &Unspent = hear_utxo(
            replies,
            1,
            Request::ActorUtxo {
                actor: worker_actor(worker.kind),
                state: game_source_state(state),
                value: 1000,
                covenant_id: self.covenant_id,
            },
            "build timed-out worker UTXO: ",
            "",
        )?;
        let sequence: u64 = match timeout_sequence(state.move_timeout) {
            Ok(sequence) => sequence,
            Err(refusal) => return Err(Halt::Refused(refusal)),
        };
        let plan: TxPlan = TxPlan::new().spend(
            worker_actor(worker.kind),
            game_source_state(state),
            EntryCall::new("timeout"),
            worker.outpoint,
            worker_utxo.clone(),
            sequence,
        ).keep(
            "Settle",
            settle_source_state(state.white_player, state.black_player, status),
            self.covenant_id,
            1000,
        );
        hear_tx(replies, 2, Request::Build { plan }, "claim worker timeout: ", "")
    }

    fn mux_timeout_tx<'a>(
        &self,
        claimer: &SigningPlayer,
        game: &GameStateData,
        replies: &'a Vec<Reply>,
    ) -> (tx: Result<&'a ChainTx, Halt>)
        requires
            game@.wf(),
        ensures
            dialogue::halt_of(tx) == dialogue::halted(
                mux_claim_progress(self@, claimer@, game@, dialogue::reply_views(replies@)),
            ),
            tx matches Ok(t) ==> t@ == dialogue::tx_at(dialogue::reply_views(replies@), 2),
    {
        let side: Side = match player_side(claimer, game) {
            Ok(side) => side,
            Err(refusal) => return Err(Halt::Refused(refusal)),
        };
        if side == side_from_turn(game.turn) {
            return Err(
                stop(join2(claimer.name.as_str(), " is not entitled to claim this timeout").as_str()),
            );
        }
        let status: i64 = timeout_status(game.turn, game.draw_state);
        let game_outpoint: Outpoint = match self.game_outpoint {
            Some(outpoint) => outpoint,
            None => return Err(stop("missing game outpoint")),
        };
        hear_builder(replies, 0)?;
        let game_utxo: &Unspent = hear_utxo(
            replies,
            1,
            Request::ActorUtxo {
                actor: "Mux",
                state: game_source_state(game),
                value: 1000,
                covenant_id: self.covenant_id,
            },
            "build timed-out Mux UTXO: ",
            "",
        )?;
        let player_id: Hash32 = match claimer.player_id {
            Some(id) => id,
            None => return Err(stop("missing player id")),
        };
        let sequence: u64 = match timeout_sequence(game.move_timeout) {
            Ok(sequence) => sequence,
            Err(refusal) => return Err(Halt::Refused(refusal)),
        };
        let plan: TxPlan = TxPlan::new().spend(
            "Mux",
            game_source_state(game),
            with_owner_args(EntryCall::new("timeout"), claimer.keypair, &claimer.pubkey_bytes).with(
                EntryArg::Hash(player_id),
            ),
            game_outpoint,
            game_utxo.clone(),
            sequence,
        ).keep(
            "Settle",
            settle_source_state(game.white_player, game.black_player, status),
            self.covenant_id,
            1000,
        );
        hear_tx(replies, 2, Request::Build { plan }, "claim Mux timeout: ", "")
    }

    /// Claims a game whose side to move ran out of time.
    pub fn claim_timeout(
        &mut self,
        claimer: &SigningPlayer,
        replies: &Vec<Reply>,
    ) -> (done: Result<(), Halt>)
        requires
            old(self).wf(),
        ensures
            final(self).wf(),
            final(self)@ == claim_outcome(old(self)@, claimer@, dialogue::reply_views(replies@)).after,
            dialogue::halt_of(done) == claim_outcome(
                old(self)@,
                claimer@,
                dialogue::reply_views(replies@),
            ).halt,
    {
        if let Some(worker) = &self.active_worker {
            let tx: &ChainTx = self.worker_timeout_tx(claimer, worker, replies)?;
            let (white, black): (Hash32, Hash32) = (worker.state.white_player, worker.state.black_player);
            let status: i64 = timeout_status(worker.state.turn, worker.state.draw_state);
            let ghost g = worker.state@;
            self.active_worker = None;
            self.commit_timeout(white, black, status, tx, "worker_timeout", no_signers(), Ghost(g))
        } else if let Some(game) = &self.game {
            let tx: &ChainTx = self.mux_timeout_tx(claimer, game, replies)?;
            let (white, black): (Hash32, Hash32) = (game.white_player, game.black_player);
            let status: i64 = timeout_status(game.turn, game.draw_state);
            let ghost g = game@;
            self.clear_game();
            self.commit_timeout(white, black, status, tx, "mux_timeout", one_signer(&claimer.name), Ghost(g))
        } else {
            Err(stop("missing active game or worker"))
        }
    }
}

/// Turn, status and draw state after a termination, or why it is refused. A claim hands the turn to
/// the opponent; surrender loses; an offer can be accepted by the side that it was made to.
pub open spec fn termination(g: GameView, action: i64) -> Result<(i64, i64, i64), Seq<char>> {
    if action == CLAIM {
        if g.draw_state != NORMAL || g.recent_castle != CLEAR {
            Err("a draw claim requires a normal Mux state without a pending castle"@)
        } else {
            Ok(((1 - g.turn) as i64, g.status, CLAIMED))
        }
    } else if action == SURRENDER {
        Ok((g.turn, game::mover_loses(g.turn), NORMAL))
    } else if action == ACCEPT {
        if g.draw_state + g.turn != BOFFER {
            Err("no draw offer is available to accept"@)
        } else {
            Ok((g.turn, DRAW, NORMAL))
        }
    } else {
        Err("unsupported termination action "@ + text::signed_decimal(action as int))
    }
}

/// The game after a termination.
pub open spec fn terminated(g: GameView, action: i64, offboard: i64) -> GameView {
    let (turn, status, draw_state) = termination(g, action)->Ok_0;
    GameView {
        turn,
        status,
        en_passant_idx: offboard,
        pending_src_idx: offboard,
        pending_dst_idx: offboard,
        pending_promo: 0,
        recent_castle: 0,
        draw_state,
        ..g
    }
}

/// Why a termination is refused at once.
pub open spec fn termination_refusal(
    a: ArenaView,
    actor: SignerView,
    action: i64,
) -> Option<Seq<char>> {
    match play::turn_refusal(a, actor) {
        Some(text) => Some(text),
        None => match termination(a.game->Some_0, action) {
            Err(text) => Some(text),
            Ok(_) => if a.game_outpoint is None {
                Some("missing game outpoint"@)
            } else {
                None
            },
        },
    }
}

/// How far a termination gets.
pub open spec fn termination_progress(
    a: ArenaView,
    actor: SignerView,
    action: i64,
    replies: Seq<ReplyView>,
) -> Progress {
    let g = a.game->Some_0;
    dialogue::check(
        termination_refusal(a, actor, action),
        dialogue::ask_builder(
            replies,
            0,
            dialogue::ask(
                replies,
                1,
                dialogue::utxo_request("Mux"@, game::game_fields(g), 1000, a.covenant_id),
                "build active Mux UTXO: "@,
                ""@,
                dialogue::check(
                    if actor.player_id is None {
                        Some("missing player id"@)
                    } else {
                        None
                    },
                    dialogue::ask(
                        replies,
                        2,
                        RequestView::Build {
                            plan: plan::plan().spend(
                                "Mux"@,
                                game::game_fields(g),
                                plan::owner_args(
                                    plan::entry("terminate"@).with(EntryArgView::Byte(action as u8)),
                                    actor.secret,
                                    actor.public_key,
                                ).with(EntryArgView::Hash(actor.player_id->Some_0)),
                                a.game_outpoint->Some_0,
                                dialogue::utxo_at(replies, 1),
                                0,
                            ).keep(
                                "Mux"@,
                                game::game_fields(terminated(g, action, a.offboard)),
                                a.covenant_id,
                                1000,
                            ),
                        },
                        "terminate game: "@,
                        ""@,
                        Progress::Finished,
                    ),
                ),
            ),
        ),
    )
}

/// What the opponent is told of a termination: nothing of a surrender.
pub open spec fn termination_message(action: i64, actor: Seq<char>) -> Option<MessageKindView> {
    if action == CLAIM {
        Some(MessageKindView::DrawClaimed { actor })
    } else if action == ACCEPT {
        Some(MessageKindView::DrawAccepted { actor })
    } else {
        None
    }
}

/// The outcome of a termination whose transaction went out: the game stands in its new state, and
/// the opponent is told.
pub open spec fn terminated_outcome(
    a: ArenaView,
    actor: Seq<char>,
    action: i64,
    label: Seq<char>,
    tx: ChainTxView,
) -> Outcome {
    let g = a.game->Some_0;
    let sent = a.with_tx(tx).with_game(terminated(g, action, a.offboard), chain::output_of(tx, 0));
    match arena::owner_of(a.players, play::opponent_ref(g)) {
        None => Outcome {
            after: sent,
            halt: Some(HaltView::Refused("missing player owner"@)),
            submissions: Seq::empty(),
        },
        Some(recipient) => {
            let told = match termination_message(action, actor) {
                Some(kind) => sent.with_message(actor, recipient, kind),
                None => sent,
            };
            Outcome {
                after: told.with_record(label, tx, seq![actor]),
                halt: None,
                submissions: Seq::empty(),
            }
        },
    }
}

/// What a termination comes to.
pub open spec fn termination_outcome(
    a: ArenaView,
    actor: SignerView,
    action: i64,
    label: Seq<char>,
    replies: Seq<ReplyView>,
) -> Outcome {
    let progress = termination_progress(a, actor, action, replies);
    if progress is Finished {
        terminated_outcome(a, actor.name, action, label, dialogue::tx_at(replies, 2))
    } else {
        play::unchanged(a, progress)
    }
}

/// What a draw claim comes to.
pub open spec fn draw_claim_outcome(a: ArenaView, actor: SignerView, replies: Seq<ReplyView>) -> Outcome {
    termination_outcome(a, actor, CLAIM, "draw_claim"@, replies)
}

/// What the acceptance of an offered draw comes to.
pub open spec fn draw_acceptance_outcome(a: ArenaView, actor: SignerView, replies: Seq<ReplyView>) -> Outcome {
    termination_outcome(a, actor, ACCEPT, "draw_accept"@, replies)
}

/// What a surrender comes to.
pub open spec fn surrender_outcome(a: ArenaView, actor: SignerView, replies: Seq<ReplyView>) -> Outcome {
    termination_outcome(a, actor, SURRENDER, "surrender"@, replies)
}

fn terminated_state(
    game: &GameStateData,
    action: i64,
    offboard: i64,
) -> (next: Result<GameStateData, OrchestratorError>)
    requires
        game@.wf(),
        game::is_byte(offboard as int),
    ensures
        next is Ok <==> termination(game@, action) is Ok,
        next matches Ok(n) ==> n@ == terminated(game@, action, offboard) && n@.wf(),
        next matches Err(e) ==> termination(game@, action) == Err::<(i64, i64, i64), Seq<char>>(e.0@),
{
    let (turn, status, draw_state): (i64, i64, i64) = if action == CLAIM {
        if game.draw_state != NORMAL || game.recent_castle != CLEAR {
            return Err(refuse("a draw claim requires a normal Mux state without a pending castle"));
        }
        (1 - game.turn, game.status, CLAIMED)
    } else if action == SURRENDER {
        let lost: i64 = if game.turn == WHITE {
            BWIN
        } else {
            WWIN
        };
        (game.turn, lost, NORMAL)
    } else if action == ACCEPT {
        if game.draw_state + game.turn != BOFFER {
            return Err(refuse("no draw offer is available to accept"));
        }
        (game.turn, DRAW, NORMAL)
    } else {
        return Err(
            OrchestratorError(
                join2("unsupported termination action ", signed_decimal_text(action).as_str()),
            ),
        );
    };
    Ok(
        GameStateData {
            white_player: game.white_player,
            black_player: game.black_player,
            board: copy_bytes(&game.board),
            turn,
            status,
            move_timeout: game.move_timeout,
            castle_rights: game.castle_rights,
            en_passant_idx: offboard,
            pending_src_idx: offboard,
            pending_dst_idx: offboard,
            pending_promo: 0,
            recent_castle: 0,
            draw_state,
            move_log: copy_strings(&game.move_log),
        },
    )
}

impl TxArena {
    fn termination_tx<'a>(
        &self,
        actor: &SigningPlayer,
        action: i64,
        replies: &'a Vec<Reply>,
    ) -> (built: Result<(GameStateData, &'a ChainTx), Halt>)
        requires
            self.wf(),
        ensures
            dialogue::halt_of(built) == dialogue::halted(
                termination_progress(self@, actor@, action, dialogue::reply_views(replies@)),
            ),
            built matches Ok((next, tx)) ==> {
                &&& self@.game is Some
                &&& next@ == terminated(self@.game->Some_0, action, self.offboard)
                &&& next@.wf()
                &&& tx@ == dialogue::tx_at(dialogue::reply_views(replies@), 2)
            },
    {
        let game: &GameStateData = self.check_turn(actor)?;
        let next: GameStateData = match terminated_state(game, action, self.offboard) {
            Ok(next) => next,
            Err(refusal) => return Err(Halt::Refused(refusal)),
        };
        let game_outpoint: Outpoint = match self.game_outpoint {
            Some(outpoint) => outpoint,
            None => return Err(stop("missing game outpoint")),
        };
        hear_builder(replies, 0)?;
        let game_utxo: &Unspent = hear_utxo(
            replies,
            1,
            Request::ActorUtxo {
                actor: "Mux",
                state: game_source_state(game),
                value: 1000,
                covenant_id: self.covenant_id,
            },
            "build active Mux UTXO: ",
            "",
        )?;
        let player_id: Hash32 = match actor.player_id {
            Some(id) => id,
            None => return Err(stop("missing player id")),
        };
        let plan: TxPlan = TxPlan::new().spend(
            "Mux",
            game_source_state(game),
            with_owner_args(
                EntryCall::new("terminate").with(EntryArg::Byte(state_byte(action))),
                actor.keypair,
                &actor.pubkey_bytes,
            ).with(EntryArg::Hash(player_id)),
            game_outpoint,
            game_utxo.clone(),
            0,
        ).keep("Mux", game_source_state(&next), self.covenant_id, 1000);
        let tx: &ChainTx = hear_tx(replies, 2, Request::Build { plan }, "terminate game: ", "")?;
        Ok((next, tx))
    }

    /// Ends a game, or claims a draw, on the turn of the player who acts.
    pub fn terminate_game(
        &mut self,
        actor: &SigningPlayer,
        termination_action: i64,
        action: &'static str,
        replies: &Vec<Reply>,
    ) -> (done: Result<(), Halt>)
        requires
            old(self).wf(),
        ensures
            final(self).wf(),
            final(self)@ == termination_outcome(
                old(self)@,
                actor@,
                termination_action,
                action@,
                dialogue::reply_views(replies@),
            ).after,
            dialogue::halt_of(done) == termination_outcome(
                old(self)@,
                actor@,
                termination_action,
                action@,
                dialogue::reply_views(replies@),
            ).halt,
    {
        let ghost first = self@;
        let (next, tx): (GameStateData, &ChainTx) = self.termination_tx(
            actor,
            termination_action,
            replies,
        )?;
        let opponent: Hash32 = match &self.game {
            Some(game) => if side_from_turn(game.turn) == Side::White {
                game.black_player
            } else {
                game.white_player
            },
            None => return Err(stop("missing game")),
        };
        proof {
            arena::lemma_record_tx(
                first.history,
                first.transactions,
                action@,
                tx@,
                seq![actor.name@],
            );
        }
        self.push_tx(tx);
        self.set_game(next, tx.outpoint(0));
        let recipient: String = match self.find_owner(opponent) {
            Some(owner) => owner,
            None => return Err(stop("missing player owner")),
        };
        if termination_action == CLAIM {
            self.push_message(
                actor.name.as_str(),
                &recipient,
                OffchainMessageKind::DrawClaimed { actor: actor.name.clone() },
            );
        } else if termination_action == ACCEPT {
            self.push_message(
                actor.name.as_str(),
                &recipient,
                OffchainMessageKind::DrawAccepted { actor: actor.name.clone() },
            );
        }
        self.push_record(submitted_tx(action, tx, one_signer(&actor.name)));
        Ok(())
    }

    /// Claims a draw: the opponent has to answer.
    pub fn claim_draw(
        &mut self,
        actor: &SigningPlayer,
        replies: &Vec<Reply>,
    ) -> (done: Result<(), Halt>)
        requires
            old(self).wf(),
        ensures
            final(self).wf(),
            final(self)@ == draw_claim_outcome(old(self)@, actor@, dialogue::reply_views(replies@)).after,
            dialogue::halt_of(done) == draw_claim_outcome(old(self)@, actor@, dialogue::reply_views(replies@)).halt,
    {
        self.terminate_game(actor, CLAIM, "draw_claim", replies)
    }

    /// Accepts the draw that the opponent offered.
    pub fn accept_draw(
        &mut self,
        actor: &SigningPlayer,
        replies: &Vec<Reply>,
    ) -> (done: Result<(), Halt>)
        requires
            old(self).wf(),
        ensures
            final(self).wf(),
            final(self)@ == draw_acceptance_outcome(old(self)@, actor@, dialogue::reply_views(replies@)).after,
            dialogue::halt_of(done) == draw_acceptance_outcome(old(self)@, actor@, dialogue::reply_views(replies@)).halt,
    {
        self.terminate_game(actor, ACCEPT, "draw_accept", replies)
    }

    /// Gives the game up.
    pub fn surrender(
        &mut self,
        actor: &SigningPlayer,
        replies: &Vec<Reply>,
    ) -> (done: Result<(), Halt>)
        requires
            old(self).wf(),
        ensures
            final(self).wf(),
            final(self)@ == surrender_outcome(old(self)@, actor@, dialogue::reply_views(replies@)).after,
            dialogue::halt_of(done) == surrender_outcome(old(self)@, actor@, dialogue::reply_views(replies@)).halt,
    {
        self.terminate_game(actor, SURRENDER, "surrender", replies)
    }
}

} // verus!
