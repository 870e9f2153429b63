//! Play: starting a game, moving, and challenging a castle.

use vstd::prelude::*;

use crate::arena::{
    self, no_signers, one_signer, submitted_tx, ActiveWorkerState, ActiveWorkerView, ArenaView,
    SubmissionView, SubmittedTx, TxArena,
};
use crate::chain::{self, ChainTx, ChainTxView, Outpoint, Unspent};
use crate::dialogue::{
    self, hear_builder, hear_move, hear_output, hear_tx, hear_utxo, stop, CovenantOutput,
    CovenantOutputView, Halt, HaltView, MovedPosition, Progress, Reply, ReplyView, Request, RequestView,
};
use crate::error::{refuse, OrchestratorError};
use crate::game::{
    self, apply_worker_state, castle_challenge_proof_state, fits_byte, game_source_state, move_hint,
    pending_state_for_move, player_side, player_source_state, request_move, state_byte, GameStateData,
    GameView, PlayerStateData,
};
use crate::hash::Hash32;
use crate::messages::{MessageKindView, OffchainMessageKind};
use crate::moves::{
    self, determine_challenge_worker, determine_worker, standard_board, worker_actor, MoveSpec, WorkerKind,
};
use crate::plan::{self, with_owner_args, EntryArg, EntryArgView, EntryCall, TxPlan, TxPlanView};
use crate::signing::{SignerView, SigningPlayer};
use crate::status::{
    self, result_from_status, side_from_turn, timeout_status, GameResult, Side, CLEAR, DEFAULT_MOVE_TIMEOUT,
    DRAW, LIVE, NORMAL, OFFER, WHITE, WWIN,
};
use crate::text::join3;

verus! {

/// Why a game cannot start.
pub open spec fn start_refusal(
    a: ArenaView,
    white: SignerView,
    black: SignerView,
) -> Option<Seq<char>> {
    if !a.players.contains_key(white.name) {
        Some("missing white"@)
    } else if !a.players.contains_key(black.name) {
        Some("missing black"@)
    } else if white.player_ref is None {
        Some("white missing player ref"@)
    } else if black.player_ref is None {
        Some("black missing player ref"@)
    } else {
        None
    }
}

/// The state in which a game opens: white moves first on the opening board, with all castling
/// rights and no draw offer.
pub open spec fn opening(white_player: Hash32, black_player: Hash32, offboard: i64) -> GameView {
    GameView {
        white_player,
        black_player,
        board: moves::opening_board(),
        turn: WHITE,
        status: LIVE,
        move_timeout: DEFAULT_MOVE_TIMEOUT,
        castle_rights: seq![1u8, 1, 1, 1],
        en_passant_idx: offboard,
        pending_src_idx: offboard,
        pending_dst_idx: offboard,
        pending_promo: 0,
        recent_castle: CLEAR,
        draw_state: NORMAL,
        move_log: Seq::empty(),
    }
}

fn opening_state(
    white_player: Hash32,
    black_player: Hash32,
    offboard: i64,
) -> (state: GameStateData)
    ensures
        state@ == opening(white_player, black_player, offboard),
{
    let state = GameStateData {
        white_player,
        black_player,
        board: standard_board(),
        turn: 0,
        status: 0,
        move_timeout: DEFAULT_MOVE_TIMEOUT,
        castle_rights: [1, 1, 1, 1],
        en_passant_idx: offboard,
        pending_src_idx: offboard,
        pending_dst_idx: offboard,
        pending_promo: 0,
        recent_castle: 0,
        draw_state: 3,
        move_log: Vec::new(),
    };
    assert(state@ =~= opening(white_player, black_player, offboard));
    state
}

/// A player's entry with one more open game.
pub open spec fn with_open_game(p: PlayerStateData) -> PlayerStateData {
    PlayerStateData { open_games: (p.open_games + 1) as i64, ..p }
}

/// Whether the counts of open games stay in the machine range if both players are in the league.
pub open spec fn start_fits(a: ArenaView, white: SignerView, black: SignerView) -> bool {
    a.players.contains_key(white.name) && a.players.contains_key(black.name) ==> a.players[white.name].open_games
        < i64::MAX && a.players[black.name].open_games < i64::MAX
}

/// The transaction that starts a game.
pub open spec fn start_plan(
    a: ArenaView,
    white: SignerView,
    black: SignerView,
    replies: Seq<ReplyView>,
) -> TxPlanView {
    let white_state = a.players[white.name];
    let black_state = a.players[black.name];
    plan::plan().spend(
        "Player"@,
        game::player_fields(white_state),
        plan::owner_args(plan::entry("start_game"@), white.secret, white.public_key).with(
            EntryArgView::Byte(WHITE as u8),
        ).with(EntryArgView::Int(DEFAULT_MOVE_TIMEOUT)),
        white_state.outpoint,
        dialogue::utxo_at(replies, 1),
        0,
    ).spend(
        "Player"@,
        game::player_fields(black_state),
        plan::owner_args(plan::entry("delegate_start_game"@), black.secret, black.public_key).with(
            EntryArgView::Int(DEFAULT_MOVE_TIMEOUT),
        ),
        black_state.outpoint,
        dialogue::utxo_at(replies, 2),
        0,
    ).keep("Player"@, game::player_fields(with_open_game(white_state)), a.covenant_id, white_state.value).keep(
        "Player"@,
        game::player_fields(with_open_game(black_state)),
        a.covenant_id,
        black_state.value,
    ).keep(
        "Mux"@,
        game::game_fields(opening(white.player_ref->Some_0, black.player_ref->Some_0, a.offboard)),
        a.covenant_id,
        1000,
    )
}

/// How far the start of a game gets.
pub open spec fn start_progress(
    a: ArenaView,
    white: SignerView,
    black: SignerView,
    replies: Seq<ReplyView>,
) -> Progress {
    let white_state = a.players[white.name];
    let black_state = a.players[black.name];
    dialogue::check(
        start_refusal(a, white, black),
        dialogue::ask_builder(
            replies,
            0,
            dialogue::ask(
                replies,
                1,
                dialogue::utxo_request(
                    "Player"@,
                    game::player_fields(white_state),
                    white_state.value,
                    a.covenant_id,
                ),
                "build white Player UTXO: "@,
                ""@,
                dialogue::ask(
                    replies,
                    2,
                    dialogue::utxo_request(
                        "Player"@,
                        game::player_fields(black_state),
                        black_state.value,
                        a.covenant_id,
                    ),
                    "build black Player UTXO: "@,
                    ""@,
                    dialogue::ask(
                        replies,
                        3,
                        RequestView::Build { plan: start_plan(a, white, black, replies) },
                        "start game: "@,
                        ""@,
                        Progress::Finished,
                    ),
                ),
            ),
        ),
    )
}

/// The arena after `tx` started a game.
pub open spec fn started(
    a: ArenaView,
    white: SignerView,
    black: SignerView,
    tx: ChainTxView,
) -> ArenaView {
    let kind = MessageKindView::GameStarted { white: white.name, black: black.name };
    a.with_tx(tx).with_player(
        white.name,
        PlayerStateData { outpoint: chain::output_of(tx, 0), ..with_open_game(a.players[white.name]) },
    ).with_player(
        black.name,
        PlayerStateData { outpoint: chain::output_of(tx, 1), ..with_open_game(a.players[black.name]) },
    ).with_game(
        opening(white.player_ref->Some_0, black.player_ref->Some_0, a.offboard),
        chain::output_of(tx, 2),
    ).with_message("arena"@, white.name, kind).with_message("arena"@, black.name, kind).with_record(
        "start_game"@,
        tx,
        seq![white.name, black.name],
    )
}

/// The arena after the start of a game was tried.
pub open spec fn start_after(
    a: ArenaView,
    white: SignerView,
    black: SignerView,
    replies: Seq<ReplyView>,
) -> ArenaView {
    if start_progress(a, white, black, replies) is Finished {
        started(a, white, black, dialogue::tx_at(replies, 3))
    } else {
        a
    }
}

impl TxArena {
    /// Whether the counts of open games stay in the machine range if a game starts.
    pub fn start_in_range(&self, white: &SigningPlayer, black: &SigningPlayer) -> (fits: bool)
        requires
            self.wf(),
        ensures
            fits == start_fits(self@, white@, black@),
    {
        match (self.players.get(&white.name), self.players.get(&black.name)) {
            (Some(white_state), Some(black_state)) => white_state.open_games < i64::MAX
                && black_state.open_games < i64::MAX,
            _ => true,
        }
    }

    /// Starts a game between two players of the league.
    pub fn start_game(
        &mut self,
        white: &SigningPlayer,
        black: &SigningPlayer,
        replies: &Vec<Reply>,
    ) -> (done: Result<(), Halt>)
        requires
            old(self).wf(),
            start_fits(old(self)@, white@, black@),
        ensures
            final(self).wf(),
            dialogue::halt_of(done) == dialogue::halted(
                start_progress(old(self)@, white@, black@, dialogue::reply_views(replies@)),
            ),
            final(self)@ == start_after(old(self)@, white@, black@, dialogue::reply_views(replies@)),
    {
        let white_state: PlayerStateData = match self.players.get(&white.name) {
            Some(state) => *state,
            None => return Err(stop("missing white")),
        };
        let black_state: PlayerStateData = match self.players.get(&black.name) {
            Some(state) => *state,
            None => return Err(stop("missing black")),
        };
        let next_white: PlayerStateData = PlayerStateData {
            open_games: white_state.open_games + 1,
            ..white_state
        };
        let next_black: PlayerStateData = PlayerStateData {
            open_games: black_state.open_games + 1,
            ..black_state
        };
        let white_ref: Hash32 = match white.player_ref {
            Some(player_ref) => player_ref,
            None => return Err(stop("white missing player ref")),
        };
        let black_ref: Hash32 = match black.player_ref {
            Some(player_ref) => player_ref,
            None => return Err(stop("black missing player ref")),
        };
        let opened: GameStateData = opening_state(white_ref, black_ref, self.offboard);
        hear_builder(replies, 0)?;
        let white_utxo: &Unspent = hear_utxo(
            replies,
            1,
            Request::ActorUtxo {
                actor: "Player",
                state: player_source_state(&white_state),
                value: white_state.value,
                covenant_id: self.covenant_id,
            },
            "build white Player UTXO: ",
            "",
        )?;
        let black_utxo: &Unspent = hear_utxo(
            replies,
            2,
            Request::ActorUtxo {
                actor: "Player",
                state: player_source_state(&black_state),
                value: black_state.value,
                covenant_id: self.covenant_id,
            },
            "build black Player UTXO: ",
            "",
        )?;
        let plan: TxPlan = TxPlan::new().spend(
            "Player",
            player_source_state(&white_state),
            with_owner_args(EntryCall::new("start_game"), white.keypair, &white.pubkey_bytes).with(
                EntryArg::Byte(state_byte(WHITE)),
            ).with(EntryArg::Int(DEFAULT_MOVE_TIMEOUT)),
            white_state.outpoint,
            white_utxo.clone(),
            0,
        ).spend(
            "Player",
            player_source_state(&black_state),
            with_owner_args(
                EntryCall::new("delegate_start_game"),
                black.keypair,
                &black.pubkey_bytes,
            ).with(EntryArg::Int(DEFAULT_MOVE_TIMEOUT)),
            black_state.outpoint,
            black_utxo.clone(),
            0,
        ).keep("Player", player_source_state(&next_white), self.covenant_id, next_white.value).keep(
            "Player",
            player_source_state(&next_black),
            self.covenant_id,
            next_black.value,
        ).keep("Mux", game_source_state(&opened), self.covenant_id, 1000);
        let tx: &ChainTx = hear_tx(replies, 3, Request::Build { plan }, "start game: ", "")?;
        self.commit_start(white, black, next_white, next_black, opened, tx);
        Ok(())
    }

    fn commit_start(
        &mut self,
        white: &SigningPlayer,
        black: &SigningPlayer,
        next_white: PlayerStateData,
        next_black: PlayerStateData,
        opened: GameStateData,
        tx: &ChainTx,
    )
        requires
            old(self).wf(),
            start_refusal(old(self)@, white@, black@) is None,
            next_white == with_open_game(old(self)@.players[white@.name]),
            next_black == with_open_game(old(self)@.players[black@.name]),
            old(self)@.players[white@.name].open_games < i64::MAX,
            old(self)@.players[black@.name].open_games < i64::MAX,
            opened@ == opening(
                white@.player_ref->Some_0,
                black@.player_ref->Some_0,
                old(self).offboard,
            ),
        ensures
            final(self).wf(),
            final(self)@ == started(old(self)@, white@, black@, tx@),
    {
        let ghost first = self@;
        self.push_tx(tx);
        self.set_player(&white.name, PlayerStateData { outpoint: tx.outpoint(0), ..next_white });
        self.set_player(&black.name, PlayerStateData { outpoint: tx.outpoint(1), ..next_black });
        self.set_game(opened, tx.outpoint(2));
        self.push_message(
            "arena",
            &white.name,
            OffchainMessageKind::GameStarted { white: white.name.clone(), black: black.name.clone() },
        );
        self.push_message(
            "arena",
            &black.name,
            OffchainMessageKind::GameStarted { white: white.name.clone(), black: black.name.clone() },
        );
        let mut signers: Vec<String> = Vec::new();
        signers.push(white.name.clone());
        signers.push(black.name.clone());
        assert(game::texts(signers@) =~= seq![white.name@, black.name@]);
        self.push_record(submitted_tx("start_game", tx, signers));
        proof {
            arena::lemma_record_tx(
                first.history,
                first.transactions,
                "start_game"@,
                tx@,
                seq![white.name@, black.name@],
            );
        }
    }
}

/// Why a player may not act: there is no game, the player is not in it, or it is the other's turn.
pub open spec fn turn_refusal(a: ArenaView, actor: SignerView) -> Option<Seq<char>> {
    match a.game {
        None => Some("missing game"@),
        Some(g) => match game::side_of(actor.name, actor.player_ref, g.white_player, g.black_player) {
            Err(text) => Some(text),
            Ok(side) => if side != status::side_to_move(g.turn as int) {
                Some("it is not "@ + actor.name + "'s turn"@)
            } else {
                None
            },
        },
    }
}

/// The transaction that routes a game to an actor with a move pending.
pub open spec fn route_plan(
    a: ArenaView,
    actor: SignerView,
    target: Seq<char>,
    pending: GameView,
    mv: MoveSpec,
    termination_action: i64,
    replies: Seq<ReplyView>,
) -> TxPlanView {
    let call = plan::owner_args(
        plan::entry("route"@).with(EntryArgView::Actor(target)).with(EntryArgView::Int(mv.from_x)).with(
            EntryArgView::Int(mv.from_y),
        ).with(EntryArgView::Int(mv.to_x)).with(EntryArgView::Int(mv.to_y)).with(
            EntryArgView::Byte(mv.promo_piece as u8),
        ).with(EntryArgView::Byte(termination_action as u8)),
        actor.secret,
        actor.public_key,
    ).with(EntryArgView::Hash(actor.player_id->Some_0));
    plan::plan().spend(
        "Mux"@,
        game::game_fields(a.game->Some_0),
        call,
        a.game_outpoint->Some_0,
        dialogue::utxo_at(replies, 1),
        0,
    ).keep(target, game::game_fields(pending), a.covenant_id, 1000)
}

/// How far the routing of a move gets: from the second reply to the fourth.
pub open spec fn route_progress(
    a: ArenaView,
    actor: SignerView,
    target: Seq<char>,
    pending: GameView,
    mv: MoveSpec,
    termination_action: i64,
    replies: Seq<ReplyView>,
) -> Progress {
    dialogue::check(
        if a.game_outpoint is None {
            Some("missing game outpoint"@)
        } else {
            None
        },
        dialogue::ask(
            replies,
            1,
            dialogue::utxo_request("Mux"@, game::game_fields(a.game->Some_0), 1000, a.covenant_id),
            "build active Mux UTXO: "@,
            ""@,
            dialogue::check(
                if actor.player_id is None {
                    Some("missing player id"@)
                } else {
                    None
                },
                dialogue::ask(
                    replies,
                    2,
                    RequestView::Build {
                        plan: route_plan(a, actor, target, pending, mv, termination_action, replies),
                    },
                    "route Mux to move actor: "@,
                    ""@,
                    dialogue::ask(
                        replies,
                        3,
                        RequestView::ReadOutput { tx: dialogue::tx_at(replies, 2), index: 0 },
                        "read routed move output: "@,
                        ""@,
                        Progress::Finished,
                    ),
                ),
            ),
        ),
    )
}

/// Whether a move gets as far as the plan of its route, in which its numbers are written as bytes:
/// the builder is started, the game's output is known, and the player has an id.
pub open spec fn route_planned(a: ArenaView, actor: SignerView, replies: Seq<ReplyView>) -> bool {
    &&& dialogue::heard(replies, 0, RequestView::StartBuilder) is Ok
    &&& a.game_outpoint is Some
    &&& dialogue::heard(
        replies,
        1,
        dialogue::utxo_request("Mux"@, game::game_fields(a.game->Some_0), 1000, a.covenant_id),
    ) is Ok
    &&& actor.player_id is Some
}

/// What an operation comes to: the arena after it, the halt if there is one, and the records that
/// it returns.
pub ghost struct Outcome {
    pub after: ArenaView,
    pub halt: Option<HaltView>,
    pub submissions: Seq<SubmissionView>,
}

/// Whether a call's result and the arena that it left are this outcome.
pub open spec fn comes_to(
    outcome: Outcome,
    after: ArenaView,
    done: Result<Vec<SubmittedTx>, Halt>,
) -> bool {
    &&& after == outcome.after
    &&& dialogue::halt_of(done) == outcome.halt
    &&& done matches Ok(submissions) ==> arena::submission_views(submissions@) == outcome.submissions
}

/// The outcome of an operation that changed nothing.
pub open spec fn unchanged(a: ArenaView, progress: Progress) -> Outcome {
    Outcome { after: a, halt: dialogue::halted(progress), submissions: Seq::empty() }
}

/// The arena after a message to the owner of a reference, and whether there is one.
pub open spec fn told(
    a: ArenaView,
    from: Seq<char>,
    player_ref: Hash32,
    kind: MessageKindView,
) -> (ArenaView, bool) {
    match arena::owner_of(a.players, player_ref) {
        Some(owner) => (a.with_message(from, owner, kind), true),
        None => (a, false),
    }
}

/// The reference of the player who is the first to be told of a timeout.
pub open spec fn first_told(g: GameView) -> Hash32 {
    let ending = status::timed_out_status(g.turn as int, g.draw_state as int);
    if ending == DRAW || ending == WWIN {
        g.white_player
    } else {
        g.black_player
    }
}

/// The reference of the player who is the first to be told of a timeout.
fn first_to_tell(state: &GameStateData) -> (player_ref: Hash32)
    ensures
        player_ref == first_told(state@),
{
    let status: i64 = timeout_status(state.turn, state.draw_state);
    if status == DRAW || status == WWIN {
        state.white_player
    } else {
        state.black_player
    }
}

/// The arena after the players who profit from a timeout were told of it, and whether all of them
/// have owners: both on a draw, else the winner.
pub open spec fn timeout_told(
    a: ArenaView,
    from: Seq<char>,
    g: GameView,
    worker: WorkerKind,
    mv: MoveSpec,
) -> (ArenaView, bool) {
    let ending = status::timed_out_status(g.turn as int, g.draw_state as int);
    let kind = MessageKindView::TimeoutClaimAvailable {
        result: status::result_of(ending)->Ok_0,
        worker,
        move_label: moves::move_label(mv),
    };
    if ending == DRAW {
        let (after_white, reached) = told(a, from, g.white_player, kind);
        if reached {
            told(after_white, from, g.black_player, kind)
        } else {
            (after_white, false)
        }
    } else if ending == WWIN {
        told(a, from, g.white_player, kind)
    } else {
        told(a, from, g.black_player, kind)
    }
}

/// The arena after a game was left waiting in a worker.
pub open spec fn parked(
    a: ArenaView,
    worker: WorkerKind,
    g: GameView,
    outpoint: Outpoint,
    txs: Seq<ChainTxView>,
) -> ArenaView {
    ArenaView {
        transactions: a.transactions + txs,
        game: None,
        game_outpoint: None,
        active_worker: Some(ActiveWorkerView { kind: worker, state: g, outpoint }),
        ..a
    }
}

/// The outcome of leaving a game in a worker: the transactions so far stand, and whoever profits
/// from a timeout is told.
pub open spec fn park_outcome(
    a: ArenaView,
    actor: Seq<char>,
    worker: WorkerKind,
    g: GameView,
    outpoint: Outpoint,
    mv: MoveSpec,
    txs: Seq<ChainTxView>,
    records: Seq<SubmissionView>,
) -> Outcome {
    let (after, reached) = timeout_told(parked(a, worker, g, outpoint, txs), actor, g, worker, mv);
    if reached {
        Outcome {
            after: ArenaView { history: after.history + records, ..after },
            halt: None,
            submissions: records,
        }
    } else {
        Outcome {
            after,
            halt: Some(HaltView::Refused("missing player owner"@)),
            submissions: Seq::empty(),
        }
    }
}

/// A game to leave in a worker.
struct PartialWorkerCommit {
    worker: WorkerKind,
    state: GameStateData,
    outpoint: Outpoint,
    mv: MoveSpec,
    transactions: Vec<ChainTx>,
    submissions: Vec<SubmittedTx>,
}

impl TxArena {
    /// The transaction that routes a game to an actor, and the output that holds it there.
    fn build_mux_route<'a>(
        &self,
        actor: &SigningPlayer,
        game: &GameStateData,
        target: &'static str,
        pending: &GameStateData,
        mv: MoveSpec,
        termination_action: i64,
        replies: &'a Vec<Reply>,
    ) -> (routed: Result<(&'a ChainTx, &'a CovenantOutput), Halt>)
        requires
            self@.game == Some(game@),
            game@.fits(),
            dialogue::heard(dialogue::reply_views(replies@), 0, RequestView::StartBuilder) is Ok,
            route_planned(self@, actor@, dialogue::reply_views(replies@)) ==> pending@.fits()
                && game::is_byte(mv.promo_piece as int) && game::is_byte(termination_action as int),
        ensures
            dialogue::halt_of(routed) == dialogue::halted(
                route_progress(
                    self@,
                    actor@,
                    target@,
                    pending@,
                    mv,
                    termination_action,
                    dialogue::reply_views(replies@),
                ),
            ),
            routed matches Ok((tx, output)) ==> tx@ == dialogue::tx_at(dialogue::reply_views(replies@), 2)
                && output@ == dialogue::output_at(dialogue::reply_views(replies@), 3),
    {
        let game_outpoint: Outpoint = match self.game_outpoint {
            Some(outpoint) => outpoint,
            None => return Err(stop("missing game outpoint")),
        };
        let game_utxo: &Unspent = hear_utxo(
            replies,
            1,
            Request::ActorUtxo {
                actor: "Mux",
                state: game_source_state(game),
                value: 1000,
                covenant_id: self.covenant_id,
            },
            "build active Mux UTXO: ",
            "",
        )?;
        let player_id: Hash32 = match actor.player_id {
            Some(id) => id,
            None => return Err(stop("missing player id")),
        };
        let call: EntryCall = with_owner_args(
            EntryCall::new("route").with(EntryArg::Actor(target)).with(EntryArg::Int(mv.from_x)).with(
                EntryArg::Int(mv.from_y),
            ).with(EntryArg::Int(mv.to_x)).with(EntryArg::Int(mv.to_y)).with(
                EntryArg::Byte(state_byte(mv.promo_piece)),
            ).with(EntryArg::Byte(state_byte(termination_action))),
            actor.keypair,
            &actor.pubkey_bytes,
        ).with(EntryArg::Hash(player_id));
        let plan: TxPlan = TxPlan::new().spend(
            "Mux",
            game_source_state(game),
            call,
            game_outpoint,
            game_utxo.clone(),
            0,
        ).keep(target, game_source_state(pending), self.covenant_id, 1000);
        let tx: &ChainTx = hear_tx(
            replies,
            2,
            Request::Build { plan },
            "route Mux to move actor: ",
            "",
        )?;
        let output: &CovenantOutput = hear_output(
            replies,
            3,
            Request::ReadOutput { tx: tx.clone(), index: 0 },
            "read routed move output: ",
            "",
        )?;
        Ok((tx, output))
    }

    /// Tells the owner of a reference.
    fn tell(
        &mut self,
        from: &String,
        player_ref: Hash32,
        kind: OffchainMessageKind,
    ) -> (outcome: Result<(), OrchestratorError>)
        requires
            old(self).maps_wf(),
        ensures
            final(self).maps_wf(),
            (final(self)@, outcome is Ok) == told(old(self)@, from@, player_ref, kind@),
            outcome matches Err(e) ==> e.0@ == "missing player owner"@,
    {
        match self.find_owner(player_ref) {
            Some(owner) => {
                self.push_message(from.as_str(), &owner, kind);
                Ok(())
            },
            None => Err(refuse("missing player owner")),
        }
    }

    fn notify_timeout_available(
        &mut self,
        actor: &SigningPlayer,
        state: &GameStateData,
        worker: WorkerKind,
        mv: MoveSpec,
    ) -> (outcome: Result<(), OrchestratorError>)
        requires
            old(self).maps_wf(),
            arena::owner_of(old(self)@.players, first_told(state@)) is Some ==> moves::has_label(mv),
        ensures
            final(self).maps_wf(),
            (final(self)@, outcome is Ok) == timeout_told(old(self)@, actor@.name, state@, worker, mv),
            outcome matches Err(e) ==> e.0@ == "missing player owner"@,
    {
        let status: i64 = timeout_status(state.turn, state.draw_state);
        let result: GameResult = result_from_status(status)?;
        if self.find_owner(first_to_tell(state)).is_none() {
            return Err(refuse("missing player owner"));
        }
        let kind = OffchainMessageKind::TimeoutClaimAvailable { result, worker, move_label: mv.label() };
        if status == DRAW {
            let again = OffchainMessageKind::TimeoutClaimAvailable {
                result,
                worker,
                move_label: mv.label(),
            };
            self.tell(&actor.name, state.white_player, kind)?;
            self.tell(&actor.name, state.black_player, again)
        } else if status == WWIN {
            self.tell(&actor.name, state.white_player, kind)
        } else {
            self.tell(&actor.name, state.black_player, kind)
        }
    }

    /// Leaves a game in a worker.
    fn commit_partial_worker(
        &mut self,
        actor: &SigningPlayer,
        partial: PartialWorkerCommit,
    ) -> (done: Result<Vec<SubmittedTx>, Halt>)
        requires
            old(self).wf(),
            partial.state@.wf(),
            arena::owner_of(old(self)@.players, first_told(partial.state@)) is Some ==> moves::has_label(
                partial.mv,
            ),
            arena::all_executed(
                arena::submission_views(partial.submissions@),
                arena::tx_views(partial.transactions@),
            ),
        ensures
            final(self).wf(),
            comes_to(
                park_outcome(
                    old(self)@,
                    actor@.name,
                    partial.worker,
                    partial.state@,
                    partial.outpoint,
                    partial.mv,
                    arena::tx_views(partial.transactions@),
                    arena::submission_views(partial.submissions@),
                ),
                final(self)@,
                done,
            ),
    {
        let ghost first = self@;
        proof {
            arena::lemma_extended(
                first.history,
                first.transactions,
                arena::submission_views(partial.submissions@),
                arena::tx_views(partial.transactions@),
            );
        }
        self.push_txs(partial.transactions);
        self.clear_game();
        self.active_worker =
        Some(
            ActiveWorkerState {
                kind: partial.worker,
                state: partial.state.clone(),
                outpoint: partial.outpoint,
            },
        );
        match self.notify_timeout_available(actor, &partial.state, partial.worker, partial.mv) {
            Err(refusal) => Err(Halt::Refused(refusal)),
            Ok(_) => {
                self.push_records(&partial.submissions);
                Ok(partial.submissions)
            },
        }
    }
}

/// The transaction in which a worker applies a move and hands the game back.
pub open spec fn apply_plan(
    worker: WorkerKind,
    from: GameView,
    output: CovenantOutputView,
    next: GameView,
    covenant_id: Hash32,
) -> TxPlanView {
    plan::plan().spend(
        moves::worker_name(worker)@,
        game::game_fields(from),
        plan::entry("apply"@),
        output.outpoint,
        output.utxo,
        0,
    ).keep("Mux"@, game::game_fields(next), covenant_id, 1000)
}

fn plan_apply(
    worker: WorkerKind,
    from: &GameStateData,
    output: &CovenantOutput,
    next: &GameStateData,
    covenant_id: Hash32,
) -> (planned: TxPlan)
    requires
        from@.fits(),
        next@.fits(),
    ensures
        planned@ == apply_plan(worker, from@, output@, next@, covenant_id),
{
    TxPlan::new().spend(
        worker_actor(worker),
        game_source_state(from),
        EntryCall::new("apply"),
        output.outpoint,
        output.utxo.clone(),
        0,
    ).keep("Mux", game_source_state(next), covenant_id, 1000)
}

/// Why a move is refused at once.
pub open spec fn move_refusal(a: ArenaView, actor: SignerView, mv: MoveSpec) -> Option<Seq<char>> {
    match turn_refusal(a, actor) {
        Some(text) => Some(text),
        None => match moves::worker_choice(a.game->Some_0.board, mv) {
            Err(text) => Some(text),
            Ok(_) => None,
        },
    }
}

/// The worker of a move that is not refused at once.
pub open spec fn move_worker(a: ArenaView, mv: MoveSpec) -> WorkerKind {
    moves::worker_choice(a.game->Some_0.board, mv)->Ok_0
}

/// The game after a move was applied, with the position of the fifth reply.
pub open spec fn move_result(
    a: ArenaView,
    mv: MoveSpec,
    termination_action: i64,
    replies: Seq<ReplyView>,
) -> GameView {
    game::worked_state(
        move_worker(a, mv),
        game::pending_state(a.game->Some_0, mv, termination_action),
        mv,
        replies[4]->Moved_0,
        a.offboard,
    )
}

/// How far a move gets. Once it is routed, the position is asked for, and the worker applies it; a
/// worker that fails to apply it leaves one transaction out.
pub open spec fn move_progress(
    a: ArenaView,
    actor: SignerView,
    mv: MoveSpec,
    termination_action: i64,
    forced: bool,
    replies: Seq<ReplyView>,
) -> Progress {
    let worker = move_worker(a, mv);
    let pending = game::pending_state(a.game->Some_0, mv, termination_action);
    dialogue::check(
        move_refusal(a, actor, mv),
        dialogue::ask_builder(
            replies,
            0,
            dialogue::followed_by(
                route_progress(
                    a,
                    actor,
                    moves::worker_name(worker)@,
                    pending,
                    mv,
                    termination_action,
                    replies,
                ),
                dialogue::ask(
                    replies,
                    4,
                    game::move_request(pending, mv, forced),
                    ""@,
                    game::refused_move_hint(forced)@,
                    dialogue::ask_sent(
                        1,
                        replies,
                        5,
                        RequestView::Build {
                            plan: apply_plan(
                                worker,
                                pending,
                                dialogue::output_at(replies, 3),
                                move_result(a, mv, termination_action, replies),
                                a.covenant_id,
                            ),
                        },
                        "apply failed: "@,
                        ""@,
                        Progress::Finished,
                    ),
                ),
            ),
        ),
    )
}

/// The reference of the player who waits.
pub open spec fn opponent_ref(g: GameView) -> Hash32 {
    if status::side_to_move(g.turn as int) == Side::White {
        g.black_player
    } else {
        g.white_player
    }
}

/// The refusal when the player who waits has no owner.
pub open spec fn missing_opponent(g: GameView) -> Seq<char> {
    if status::side_to_move(g.turn as int) == Side::White {
        "missing black owner"@
    } else {
        "missing white owner"@
    }
}

/// The records of a move: the signed route, and its application.
pub open spec fn move_records(
    actor: Seq<char>,
    route: ChainTxView,
    apply: ChainTxView,
) -> Seq<SubmissionView> {
    seq![
        arena::submission_of("route"@, route, seq![actor]),
        arena::submission_of("worker_apply"@, apply, Seq::empty()),
    ]
}

/// The outcome of a move that was applied: the opponent is told, and the game goes on in the new
/// state.
pub open spec fn moved_outcome(
    a: ArenaView,
    actor: Seq<char>,
    mv: MoveSpec,
    worker: WorkerKind,
    termination_action: i64,
    next: GameView,
    route: ChainTxView,
    apply: ChainTxView,
) -> Outcome {
    let g = a.game->Some_0;
    let sent = a.with_tx(route).with_tx(apply);
    match arena::owner_of(a.players, opponent_ref(g)) {
        None => Outcome {
            after: sent,
            halt: Some(HaltView::Refused(missing_opponent(g))),
            submissions: Seq::empty(),
        },
        Some(recipient) => {
            let noticed = sent.with_message(
                actor,
                recipient,
                MessageKindView::MoveNotice { actor, worker, move_label: moves::move_label(mv), mv },
            );
            let told = if termination_action == OFFER {
                noticed.with_message(actor, recipient, MessageKindView::DrawOffered { actor })
            } else {
                noticed
            };
            let records = move_records(actor, route, apply);
            let after = told.with_game(next, chain::output_of(apply, 0));
            Outcome {
                after: ArenaView { history: after.history + records, ..after },
                halt: None,
                submissions: records,
            }
        },
    }
}

/// What a move comes to. A forced move that its worker fails to apply leaves the game in the worker.
pub open spec fn move_outcome(
    a: ArenaView,
    actor: SignerView,
    mv: MoveSpec,
    termination_action: i64,
    forced: bool,
    replies: Seq<ReplyView>,
) -> Outcome {
    let progress = move_progress(a, actor, mv, termination_action, forced, replies);
    let route = dialogue::tx_at(replies, 2);
    match progress {
        Progress::Finished => moved_outcome(
            a,
            actor.name,
            mv,
            move_worker(a, mv),
            termination_action,
            move_result(a, mv, termination_action, replies),
            route,
            dialogue::tx_at(replies, 5),
        ),
        Progress::Stuck(..) if forced => park_outcome(
            a,
            actor.name,
            move_worker(a, mv),
            game::pending_state(a.game->Some_0, mv, termination_action),
            dialogue::output_at(replies, 3).outpoint,
            mv,
            seq![route],
            seq![arena::submission_of("route"@, route, seq![actor.name])],
        ),
        _ => unchanged(a, progress),
    }
}

/// What a move under the rules of chess comes to.
pub open spec fn plain_move_outcome(
    a: ArenaView,
    actor: SignerView,
    mv: MoveSpec,
    replies: Seq<ReplyView>,
) -> Outcome {
    move_outcome(a, actor, mv, CLEAR, false, replies)
}

/// What a move that offers a draw comes to.
pub open spec fn offering_move_outcome(
    a: ArenaView,
    actor: SignerView,
    mv: MoveSpec,
    replies: Seq<ReplyView>,
) -> Outcome {
    move_outcome(a, actor, mv, OFFER, false, replies)
}

/// What a forced move comes to.
pub open spec fn forced_move_outcome(
    a: ArenaView,
    actor: SignerView,
    mv: MoveSpec,
    replies: Seq<ReplyView>,
) -> Outcome {
    move_outcome(a, actor, mv, CLEAR, true, replies)
}

/// Whether the promotion piece of a move fits in a byte, where the move gets as far as the plan of
/// its route.
pub open spec fn move_fits(
    a: ArenaView,
    actor: SignerView,
    mv: MoveSpec,
    replies: Seq<ReplyView>,
) -> bool {
    move_refusal(a, actor, mv) is None && route_planned(a, actor, replies) ==> game::is_byte(
        mv.promo_piece as int,
    )
}

impl TxArena {
    /// Refuses a player whose turn it is not.
    pub(crate) fn check_turn(&self, actor: &SigningPlayer) -> (game: Result<&GameStateData, Halt>)
        ensures
            game is Ok <==> turn_refusal(self@, actor@) is None,
            game matches Ok(g) ==> self@.game == Some(g@) && self.game == Some(*g),
            game matches Err(halt) ==> turn_refusal(self@, actor@) is Some && halt@ == HaltView::Refused(
                turn_refusal(self@, actor@)->Some_0,
            ),
    {
        let game: &GameStateData = match &self.game {
            Some(game) => game,
            None => return Err(stop("missing game")),
        };
        let side: Side = match player_side(actor, game) {
            Ok(side) => side,
            Err(refusal) => return Err(Halt::Refused(refusal)),
        };
        if side != side_from_turn(game.turn) {
            return Err(stop(join3("it is not ", actor.name.as_str(), "'s turn").as_str()));
        }
        Ok(game)
    }

    fn commit_move(
        &mut self,
        actor: &String,
        mv: MoveSpec,
        worker: WorkerKind,
        termination_action: i64,
        next: GameStateData,
        route: &ChainTx,
        apply: &ChainTx,
    ) -> (done: Result<Vec<SubmittedTx>, Halt>)
        requires
            old(self).wf(),
            old(self).game is Some,
            next@.wf(),
            moves::has_label(mv),
        ensures
            final(self).wf(),
            comes_to(
                moved_outcome(
                    old(self)@,
                    actor@,
                    mv,
                    worker,
                    termination_action,
                    next@,
                    route@,
                    apply@,
                ),
                final(self)@,
                done,
            ),
    {
        let ghost first = self@;
        let (opponent, missing): (Hash32, &'static str) = match &self.game {
            Some(game) => if side_from_turn(game.turn) == Side::White {
                (game.black_player, "missing black owner")
            } else {
                (game.white_player, "missing white owner")
            },
            None => return Err(stop("missing game")),
        };
        let mut submissions: Vec<SubmittedTx> = Vec::new();
        submissions.push(submitted_tx("route", route, one_signer(actor)));
        submissions.push(submitted_tx("worker_apply", apply, no_signers()));
        proof {
            let records = arena::submission_views(submissions@);
            let txs = seq![route@, apply@];
            assert(records =~= move_records(actor@, route@, apply@));
            assert(txs[0] == route@);
            assert(txs[1] == apply@);
            assert(arena::is_executed(records[0], txs));
            assert(arena::is_executed(records[1], txs));
            arena::lemma_extended(first.history, first.transactions, records, txs);
            assert(first.transactions + txs =~= first.transactions.push(route@).push(apply@));
        }
        self.push_tx(route);
        self.push_tx(apply);
        let recipient: String = match self.find_owner(opponent) {
            Some(owner) => owner,
            None => return Err(stop(missing)),
        };
        self.push_message(
            actor.as_str(),
            &recipient,
            OffchainMessageKind::MoveNotice { actor: actor.clone(), worker, move_label: mv.label(), mv },
        );
        if termination_action == OFFER {
            self.push_message(
                actor.as_str(),
                &recipient,
                OffchainMessageKind::DrawOffered { actor: actor.clone() },
            );
        }
        self.set_game(next, apply.outpoint(0));
        self.push_records(&submissions);
        Ok(submissions)
    }

    /// Whether a move gets as far as the plan of its route.
    fn plans_route(
        &self,
        actor: &SigningPlayer,
        game: &GameStateData,
        replies: &Vec<Reply>,
    ) -> (planned: bool)
        requires
            self@.game == Some(game@),
            game@.fits(),
        ensures
            planned == route_planned(self@, actor@, dialogue::reply_views(replies@)),
    {
        if hear_builder(replies, 0).is_err() || self.game_outpoint.is_none() || actor.player_id.is_none() {
            return false;
        }
        let request: Request = Request::ActorUtxo {
            actor: "Mux",
            state: game_source_state(game),
            value: 1000,
            covenant_id: self.covenant_id,
        };
        hear_utxo(replies, 1, request, "", "").is_ok()
    }

    /// Whether the promotion piece of a move fits in a byte, where the move gets as far as the plan of
    /// its route on the replies at hand.
    pub fn move_in_range(
        &self,
        actor: &SigningPlayer,
        mv: MoveSpec,
        replies: &Vec<Reply>,
    ) -> (fits: bool)
        requires
            self.wf(),
        ensures
            fits == move_fits(self@, actor@, mv, dialogue::reply_views(replies@)),
    {
        let game: &GameStateData = match self.check_turn(actor) {
            Ok(game) => game,
            Err(_) => return true,
        };
        if determine_worker(&game.board, mv).is_err() || !self.plans_route(actor, game, replies) {
            return true;
        }
        fits_byte(mv.promo_piece)
    }

    /// Makes a move. A termination action of `OFFER` offers a draw with it. A forced move follows
    /// the broader protocol rules, and may leave the game in a worker.
    pub fn submit_move_internal(
        &mut self,
        actor: &SigningPlayer,
        mv: MoveSpec,
        termination_action: i64,
        allow_partial_commit: bool,
        replies: &Vec<Reply>,
    ) -> (done: Result<Vec<SubmittedTx>, Halt>)
        requires
            old(self).wf(),
            move_fits(old(self)@, actor@, mv, dialogue::reply_views(replies@)),
            move_refusal(old(self)@, actor@, mv) is None && route_planned(
                old(self)@,
                actor@,
                dialogue::reply_views(replies@),
            ) ==> game::is_byte(termination_action as int),
        ensures
            final(self).wf(),
            comes_to(
                move_outcome(
                    old(self)@,
                    actor@,
                    mv,
                    termination_action,
                    allow_partial_commit,
                    dialogue::reply_views(replies@),
                ),
                final(self)@,
                done,
            ),
    {
        let game: &GameStateData = self.check_turn(actor)?;
        let worker: WorkerKind = match determine_worker(&game.board, mv) {
            Ok(worker) => worker,
            Err(refusal) => return Err(Halt::Refused(refusal)),
        };
        let pending: GameStateData = pending_state_for_move(game, mv, termination_action);
        hear_builder(replies, 0)?;
        let (route_tx, worker_output): (&ChainTx, &CovenantOutput) = self.build_mux_route(
            actor,
            game,
            worker_actor(worker),
            &pending,
            mv,
            termination_action,
            replies,
        )?;
        let moved: &MovedPosition = hear_move(
            replies,
            4,
            request_move(&pending, mv, allow_partial_commit),
            "",
            move_hint(allow_partial_commit),
        )?;
        let next: GameStateData = match apply_worker_state(worker, &pending, mv, moved, self.offboard) {
            Ok(next) => next,
            Err(refusal) => return Err(Halt::Refused(refusal)),
        };
        let plan: TxPlan = plan_apply(worker, &pending, worker_output, &next, self.covenant_id);
        match hear_tx(replies, 5, Request::Build { plan }, "apply failed: ", "") {
            Ok(apply_tx) => self.commit_move(
                &actor.name,
                mv,
                worker,
                termination_action,
                next,
                route_tx,
                apply_tx,
            ),
            Err(Halt::Need(request)) => Err(Halt::Need(request)),
            Err(Halt::Refused(refusal)) => {
                if !allow_partial_commit {
                    return Err(Halt::Refused(refusal));
                }
                let submissions: Vec<SubmittedTx> = vec![
                    submitted_tx("route", route_tx, one_signer(&actor.name)),
                ];
                let transactions: Vec<ChainTx> = vec![route_tx.clone()];
                proof {
                    let records = arena::submission_views(submissions@);
                    let txs = arena::tx_views(transactions@);
                    assert(txs =~= seq![route_tx@]);
                    assert(records =~= seq![
                        arena::submission_of("route"@, route_tx@, seq![actor.name@]),
                    ]);
                    assert(txs[0] == route_tx@);
                    assert(arena::is_executed(records[0], txs));
                }
                self.commit_partial_worker(
                    actor,
                    PartialWorkerCommit {
                        worker,
                        state: pending,
                        outpoint: worker_output.outpoint,
                        mv,
                        transactions,
                        submissions,
                    },
                )
            },
        }
    }
}

impl TxArena {
    /// Makes a move under the rules of chess.
    pub fn submit_move(
        &mut self,
        actor: &SigningPlayer,
        mv: MoveSpec,
        replies: &Vec<Reply>,
    ) -> (done: Result<Vec<SubmittedTx>, Halt>)
        requires
            old(self).wf(),
            move_fits(old(self)@, actor@, mv, dialogue::reply_views(replies@)),
        ensures
            final(self).wf(),
            comes_to(
                plain_move_outcome(old(self)@, actor@, mv, dialogue::reply_views(replies@)),
                final(self)@,
                done,
            ),
    {
        self.submit_move_internal(actor, mv, CLEAR, false, replies)
    }

    /// Makes a move under the rules of chess, and offers a draw with it.
    pub fn offer_draw(
        &mut self,
        actor: &SigningPlayer,
        mv: MoveSpec,
        replies: &Vec<Reply>,
    ) -> (done: Result<Vec<SubmittedTx>, Halt>)
        requires
            old(self).wf(),
            move_fits(old(self)@, actor@, mv, dialogue::reply_views(replies@)),
        ensures
            final(self).wf(),
            comes_to(
                offering_move_outcome(old(self)@, actor@, mv, dialogue::reply_views(replies@)),
                final(self)@,
                done,
            ),
    {
        self.submit_move_internal(actor, mv, OFFER, false, replies)
    }

    /// Makes a move under the broader protocol rules. If its worker fails to apply it, the game stays in
    /// the worker.
    pub fn force_move(
        &mut self,
        actor: &SigningPlayer,
        mv: MoveSpec,
        replies: &Vec<Reply>,
    ) -> (done: Result<Vec<SubmittedTx>, Halt>)
        requires
            old(self).wf(),
            move_fits(old(self)@, actor@, mv, dialogue::reply_views(replies@)),
        ensures
            final(self).wf(),
            comes_to(
                forced_move_outcome(old(self)@, actor@, mv, dialogue::reply_views(replies@)),
                final(self)@,
                done,
            ),
    {
        self.submit_move_internal(actor, mv, CLEAR, true, replies)
    }
}

/// Why a castle challenge is refused at once.
pub open spec fn challenge_refusal(a: ArenaView, actor: SignerView) -> Option<Seq<char>> {
    match turn_refusal(a, actor) {
        Some(text) => Some(text),
        None => if a.game->Some_0.recent_castle == CLEAR {
            Some("the previous move was not a castle"@)
        } else {
            None
        },
    }
}

/// The state in which a challenge is prepared.
pub open spec fn challenge_prep(g: GameView, mv: MoveSpec) -> GameView {
    GameView { recent_castle: g.recent_castle, ..game::pending_state(g, mv, CLEAR) }
}

/// The state in which the challenger's worker proves the castle illegal.
pub open spec fn challenge_proof(a: ArenaView, mv: MoveSpec) -> GameView {
    game::proof_state(challenge_prep(a.game->Some_0, mv), a.offboard)
}

/// The worker that proves the castle illegal.
pub open spec fn challenge_worker(a: ArenaView, mv: MoveSpec) -> WorkerKind {
    moves::challenge_worker_choice(challenge_proof(a, mv).board, mv)->Ok_0
}

/// The transaction that hands a prepared challenge to its worker.
pub open spec fn prep_plan(a: ArenaView, mv: MoveSpec, output: CovenantOutputView) -> TxPlanView {
    let worker = moves::worker_name(challenge_worker(a, mv))@;
    plan::plan().spend(
        "CastleChallengePrep"@,
        game::game_fields(challenge_prep(a.game->Some_0, mv)),
        plan::entry("apply"@).with(EntryArgView::Actor(worker)),
        output.outpoint,
        output.utxo,
        0,
    ).keep(worker, game::game_fields(challenge_proof(a, mv)), a.covenant_id, 1000)
}

/// The game after a challenge went through, with the position of the seventh reply.
pub open spec fn challenge_result(a: ArenaView, mv: MoveSpec, replies: Seq<ReplyView>) -> GameView {
    game::worked_state(
        challenge_worker(a, mv),
        challenge_proof(a, mv),
        mv,
        replies[6]->Moved_0,
        a.offboard,
    )
}

/// How far a challenge gets once it is routed. A failure leaves the transactions so far out: one
/// until the worker holds the proof, then two.
pub open spec fn proof_progress(a: ArenaView, mv: MoveSpec, replies: Seq<ReplyView>) -> Progress {
    let proof_of = challenge_proof(a, mv);
    let worker = challenge_worker(a, mv);
    dialogue::check_sent(
        1,
        game::proof_refusal(challenge_prep(a.game->Some_0, mv)),
        dialogue::check_sent(
            1,
            match moves::challenge_worker_choice(proof_of.board, mv) {
                Err(text) => Some(text),
                Ok(_) => None,
            },
            dialogue::ask_sent(
                1,
                replies,
                4,
                RequestView::Build { plan: prep_plan(a, mv, dialogue::output_at(replies, 3)) },
                "castle challenge preparation failed: "@,
                ""@,
                dialogue::ask(
                    replies,
                    5,
                    RequestView::ReadOutput { tx: dialogue::tx_at(replies, 4), index: 0 },
                    "read prepared challenge worker output: "@,
                    ""@,
                    dialogue::ask_sent(
                        2,
                        replies,
                        6,
                        game::move_request(proof_of, mv, true),
                        ""@,
                        game::refused_move_hint(true)@,
                        dialogue::ask_sent(
                            2,
                            replies,
                            7,
                            RequestView::Build {
                                plan: apply_plan(
                                    worker,
                                    proof_of,
                                    dialogue::output_at(replies, 5),
                                    challenge_result(a, mv, replies),
                                    a.covenant_id,
                                ),
                            },
                            "castle challenge apply failed: "@,
                            ""@,
                            Progress::Finished,
                        ),
                    ),
                ),
            ),
        ),
    )
}

/// How far a castle challenge gets.
pub open spec fn challenge_progress(
    a: ArenaView,
    actor: SignerView,
    mv: MoveSpec,
    replies: Seq<ReplyView>,
) -> Progress {
    dialogue::check(
        challenge_refusal(a, actor),
        dialogue::ask_builder(
            replies,
            0,
            dialogue::followed_by(
                route_progress(
                    a,
                    actor,
                    "CastleChallengePrep"@,
                    challenge_prep(a.game->Some_0, mv),
                    mv,
                    CLEAR,
                    replies,
                ),
                proof_progress(a, mv, replies),
            ),
        ),
    )
}

/// The records of the first transactions of a challenge: the signed route, and the preparation.
pub open spec fn challenge_records(actor: Seq<char>, txs: Seq<ChainTxView>) -> Seq<SubmissionView> {
    Seq::new(
        txs.len(),
        |i: int|
            if i == 0 {
                arena::submission_of("castle_challenge_route"@, txs[i], seq![actor])
            } else if i == 1 {
                arena::submission_of("castle_challenge_prepare"@, txs[i], Seq::empty())
            } else {
                arena::submission_of("castle_challenge_apply"@, txs[i], Seq::empty())
            },
    )
}

/// The transactions of a challenge: the route, the preparation and the proof.
pub open spec fn challenge_txs(replies: Seq<ReplyView>) -> Seq<ChainTxView> {
    seq![dialogue::tx_at(replies, 2), dialogue::tx_at(replies, 4), dialogue::tx_at(replies, 7)]
}

/// The outcome of a challenge that went through: the game goes on in the new state, and the
/// opponent is told.
pub open spec fn challenged_outcome(
    a: ArenaView,
    actor: Seq<char>,
    mv: MoveSpec,
    worker: WorkerKind,
    next: GameView,
    txs: Seq<ChainTxView>,
) -> Outcome {
    let sent = ArenaView { transactions: a.transactions + txs, ..a }.with_game(
        next,
        chain::output_of(txs[2], 0),
    );
    let kind = MessageKindView::MoveNotice { actor, worker, move_label: moves::move_label(mv), mv };
    let (after, reached) = told(sent, actor, opponent_ref(a.game->Some_0), kind);
    if reached {
        let records = challenge_records(actor, txs);
        Outcome {
            after: ArenaView { history: after.history + records, ..after },
            halt: None,
            submissions: records,
        }
    } else {
        Outcome {
            after,
            halt: Some(HaltView::Refused("missing player owner"@)),
            submissions: Seq::empty(),
        }
    }
}

/// What a castle challenge comes to. A forced challenge that fails after it was routed leaves the
/// game in the worker that holds it.
pub open spec fn challenge_outcome(
    a: ArenaView,
    actor: SignerView,
    mv: MoveSpec,
    forced: bool,
    replies: Seq<ReplyView>,
) -> Outcome {
    let progress = challenge_progress(a, actor, mv, replies);
    let txs = challenge_txs(replies);
    match progress {
        Progress::Finished => challenged_outcome(
            a,
            actor.name,
            mv,
            challenge_worker(a, mv),
            challenge_result(a, mv, replies),
            txs,
        ),
        Progress::Stuck(sent, _) if forced => if sent == 1 {
            park_outcome(
                a,
                actor.name,
                WorkerKind::CastleChallenge,
                challenge_prep(a.game->Some_0, mv),
                dialogue::output_at(replies, 3).outpoint,
                mv,
                txs.take(1),
                challenge_records(actor.name, txs.take(1)),
            )
        } else {
            park_outcome(
                a,
                actor.name,
                challenge_worker(a, mv),
                challenge_proof(a, mv),
                dialogue::output_at(replies, 5).outpoint,
                mv,
                txs.take(2),
                challenge_records(actor.name, txs.take(2)),
            )
        },
        _ => unchanged(a, progress),
    }
}

/// Whether the numbers of a challenge that is not refused at once can be written: its squares can be
/// computed, they and the promotion piece fit in bytes where the challenge gets as far as the plan
/// of its route, and its move has a label where it is left in a worker and somebody is told.
pub open spec fn challenge_fits(
    a: ArenaView,
    actor: SignerView,
    mv: MoveSpec,
    forced: bool,
    replies: Seq<ReplyView>,
) -> bool {
    challenge_refusal(a, actor) is None ==> {
        &&& game::squares_fit(mv)
        &&& route_planned(a, actor, replies) ==> {
            &&& game::is_byte(moves::square(mv.from_x as int, mv.from_y as int))
            &&& game::is_byte(moves::square(mv.to_x as int, mv.to_y as int))
            &&& game::is_byte(mv.promo_piece as int)
        }
        &&& forced && challenge_progress(a, actor, mv, replies) is Stuck && arena::owner_of(
            a.players,
            first_told(challenge_prep(a.game->Some_0, mv)),
        ) is Some ==> moves::has_label(mv)
    }
}

/// Whether the number of a square can be computed.
fn square_computes(x: i64, y: i64) -> (fits: bool)
    ensures
        fits == game::square_fits(x as int, y as int),
{
    let row: i128 = y as i128 * 8;
    let square: i128 = row + x as i128;
    i64::MIN as i128 <= row && row <= i64::MAX as i128 && i64::MIN as i128 <= square && square
        <= i64::MAX as i128
}

/// How a routed challenge ends: halted, failed with the game prepared or with the game in the
/// worker that proves it, or won.
enum ChallengeEnd<'a> {
    Halted(Halt),
    Prepared(OrchestratorError),
    Proving(OrchestratorError, WorkerKind, GameStateData, Outpoint, &'a ChainTx),
    Won(WorkerKind, GameStateData, &'a ChainTx, &'a ChainTx),
}

impl TxArena {
    fn prove_challenge<'a>(
        &self,
        prep: &GameStateData,
        prep_output: &CovenantOutput,
        mv: MoveSpec,
        replies: &'a Vec<Reply>,
    ) -> (end: ChallengeEnd<'a>)
        requires
            self.wf(),
            self@.game is Some,
            prep@ == challenge_prep(self@.game->Some_0, mv),
            prep@.wf(),
            prep_output@ == dialogue::output_at(dialogue::reply_views(replies@), 3),
        ensures
            ({
                let views = dialogue::reply_views(replies@);
                let progress = proof_progress(self@, mv, views);
                match end {
                    ChallengeEnd::Halted(halt) => {
                        &&& progress is Need || progress is Refused
                        &&& dialogue::halted(progress) == Some(halt@)
                    },
                    ChallengeEnd::Prepared(refusal) => progress == Progress::Stuck(1, refusal.0@),
                    ChallengeEnd::Proving(refusal, worker, proof_of, outpoint, prep_tx) => {
                        &&& progress == Progress::Stuck(2, refusal.0@)
                        &&& worker == challenge_worker(self@, mv)
                        &&& proof_of@ == challenge_proof(self@, mv)
                        &&& proof_of@.wf()
                        &&& moves::has_label(mv)
                        &&& outpoint == dialogue::output_at(views, 5).outpoint
                        &&& prep_tx@ == dialogue::tx_at(views, 4)
                    },
                    ChallengeEnd::Won(worker, next, prep_tx, apply_tx) => {
                        &&& progress is Finished
                        &&& worker == challenge_worker(self@, mv)
                        &&& next@ == challenge_result(self@, mv, views)
                        &&& next@.wf()
                        &&& moves::has_label(mv)
                        &&& prep_tx@ == dialogue::tx_at(views, 4)
                        &&& apply_tx@ == dialogue::tx_at(views, 7)
                    },
                }
            }),
    {
        let proof_of: GameStateData = match castle_challenge_proof_state(prep, self.offboard) {
            Ok(proof_of) => proof_of,
            Err(refusal) => return ChallengeEnd::Prepared(refusal),
        };
        let worker: WorkerKind = match determine_challenge_worker(&proof_of.board, mv) {
            Ok(worker) => worker,
            Err(refusal) => return ChallengeEnd::Prepared(refusal),
        };
        let plan: TxPlan = TxPlan::new().spend(
            "CastleChallengePrep",
            game_source_state(prep),
            EntryCall::new("apply").with(EntryArg::Actor(worker_actor(worker))),
            prep_output.outpoint,
            prep_output.utxo.clone(),
            0,
        ).keep(worker_actor(worker), game_source_state(&proof_of), self.covenant_id, 1000);
        let prep_tx: &ChainTx = match hear_tx(
            replies,
            4,
            Request::Build { plan },
            "castle challenge preparation failed: ",
            "",
        ) {
            Ok(tx) => tx,
            Err(Halt::Refused(refusal)) => return ChallengeEnd::Prepared(refusal),
            Err(halt) => return ChallengeEnd::Halted(halt),
        };
        let output: &CovenantOutput = match hear_output(
            replies,
            5,
            Request::ReadOutput { tx: prep_tx.clone(), index: 0 },
            "read prepared challenge worker output: ",
            "",
        ) {
            Ok(output) => output,
            Err(halt) => return ChallengeEnd::Halted(halt),
        };
        let moved: &MovedPosition = match hear_move(
            replies,
            6,
            request_move(&proof_of, mv, true),
            "",
            move_hint(true),
        ) {
            Ok(moved) => moved,
            Err(Halt::Refused(refusal)) => return ChallengeEnd::Proving(
                refusal,
                worker,
                proof_of,
                output.outpoint,
                prep_tx,
            ),
            Err(halt) => return ChallengeEnd::Halted(halt),
        };
        let next: GameStateData = match apply_worker_state(worker, &proof_of, mv, moved, self.offboard) {
            Ok(next) => next,
            Err(refusal) => return ChallengeEnd::Proving(
                refusal,
                worker,
                proof_of,
                output.outpoint,
                prep_tx,
            ),
        };
        let plan: TxPlan = plan_apply(worker, &proof_of, output, &next, self.covenant_id);
        match hear_tx(replies, 7, Request::Build { plan }, "castle challenge apply failed: ", "") {
            Ok(apply_tx) => ChallengeEnd::Won(worker, next, prep_tx, apply_tx),
            Err(Halt::Refused(refusal)) => ChallengeEnd::Proving(
                refusal,
                worker,
                proof_of,
                output.outpoint,
                prep_tx,
            ),
            Err(halt) => ChallengeEnd::Halted(halt),
        }
    }

    fn commit_challenge(
        &mut self,
        actor: &String,
        mv: MoveSpec,
        worker: WorkerKind,
        next: GameStateData,
        route_tx: &ChainTx,
        prep_tx: &ChainTx,
        apply_tx: &ChainTx,
    ) -> (done: Result<Vec<SubmittedTx>, Halt>)
        requires
            old(self).wf(),
            old(self).game is Some,
            next@.wf(),
            moves::has_label(mv),
        ensures
            final(self).wf(),
            comes_to(
                challenged_outcome(
                    old(self)@,
                    actor@,
                    mv,
                    worker,
                    next@,
                    seq![route_tx@, prep_tx@, apply_tx@],
                ),
                final(self)@,
                done,
            ),
    {
        let ghost first = self@;
        let ghost views = seq![route_tx@, prep_tx@, apply_tx@];
        let opponent: Hash32 = match &self.game {
            Some(game) => if side_from_turn(game.turn) == Side::White {
                game.black_player
            } else {
                game.white_player
            },
            None => return Err(stop("missing game")),
        };
        let submissions: Vec<SubmittedTx> = vec![
            submitted_tx("castle_challenge_route", route_tx, one_signer(actor)),
            submitted_tx("castle_challenge_prepare", prep_tx, no_signers()),
            submitted_tx("castle_challenge_apply", apply_tx, no_signers()),
        ];
        let transactions: Vec<ChainTx> = vec![route_tx.clone(), prep_tx.clone(), apply_tx.clone()];
        proof {
            assert(arena::tx_views(transactions@) =~= views);
            assert(arena::submission_views(submissions@) =~= challenge_records(actor@, views));
            lemma_challenge_records(actor@, views);
            arena::lemma_extended(
                first.history,
                first.transactions,
                challenge_records(actor@, views),
                views,
            );
        }
        self.push_txs(transactions);
        self.set_game(next, apply_tx.outpoint(0));
        let kind = OffchainMessageKind::MoveNotice {
            actor: actor.clone(),
            worker,
            move_label: mv.label(),
            mv,
        };
        match self.tell(actor, opponent, kind) {
            Err(refusal) => Err(Halt::Refused(refusal)),
            Ok(_) => {
                self.push_records(&submissions);
                Ok(submissions)
            },
        }
    }

    /// Whether the numbers of a challenge can be written, as far as it gets on the replies at hand.
    pub fn challenge_in_range(
        &self,
        actor: &SigningPlayer,
        mv: MoveSpec,
        allow_partial_commit: bool,
        replies: &Vec<Reply>,
    ) -> (fits: bool)
        requires
            self.wf(),
        ensures
            fits == challenge_fits(
                self@,
                actor@,
                mv,
                allow_partial_commit,
                dialogue::reply_views(replies@),
            ),
    {
        let game: &GameStateData = match self.check_turn(actor) {
            Ok(game) => game,
            Err(_) => return true,
        };
        if game.recent_castle == CLEAR {
            return true;
        }
        if !square_computes(mv.from_x, mv.from_y) || !square_computes(mv.to_x, mv.to_y) {
            return false;
        }
        if !self.plans_route(actor, game, replies) {
            return true;
        }
        let mut prep: GameStateData = pending_state_for_move(game, mv, CLEAR);
        prep.recent_castle = game.recent_castle;
        if !fits_byte(prep.pending_src_idx) || !fits_byte(prep.pending_dst_idx) || !fits_byte(mv.promo_piece) {
            return false;
        }
        if !allow_partial_commit {
            return true;
        }
        let prep_output: &CovenantOutput = match self.build_mux_route(
            actor,
            game,
            "CastleChallengePrep",
            &prep,
            mv,
            CLEAR,
            replies,
        ) {
            Ok((_, output)) => output,
            Err(_) => return true,
        };
        match self.prove_challenge(&prep, prep_output, mv, replies) {
            ChallengeEnd::Prepared(_) => mv.has_letters() || self.find_owner(first_to_tell(&prep)).is_none(),
            _ => true,
        }
    }

    /// Challenges the castle that the opponent just made, with a move that would capture the king on
    /// its way. A forced challenge that fails after it was routed leaves the game in a worker.
    pub fn challenge_castle(
        &mut self,
        actor: &SigningPlayer,
        mv: MoveSpec,
        allow_partial_commit: bool,
        replies: &Vec<Reply>,
    ) -> (done: Result<Vec<SubmittedTx>, Halt>)
        requires
            old(self).wf(),
            challenge_fits(
                old(self)@,
                actor@,
                mv,
                allow_partial_commit,
                dialogue::reply_views(replies@),
            ),
        ensures
            final(self).wf(),
            comes_to(
                challenge_outcome(
                    old(self)@,
                    actor@,
                    mv,
                    allow_partial_commit,
                    dialogue::reply_views(replies@),
                ),
                final(self)@,
                done,
            ),
    {
        let game: &GameStateData = self.check_turn(actor)?;
        if game.recent_castle == CLEAR {
            return Err(stop("the previous move was not a castle"));
        }
        let mut prep: GameStateData = pending_state_for_move(game, mv, CLEAR);
        prep.recent_castle = game.recent_castle;
        hear_builder(replies, 0)?;
        let (route_tx, prep_output): (&ChainTx, &CovenantOutput) = self.build_mux_route(
            actor,
            game,
            "CastleChallengePrep",
            &prep,
            mv,
            CLEAR,
            replies,
        )?;
        match self.prove_challenge(&prep, prep_output, mv, replies) {
            ChallengeEnd::Halted(halt) => Err(halt),
            ChallengeEnd::Prepared(refusal) => {
                if !allow_partial_commit {
                    return Err(Halt::Refused(refusal));
                }
                let submissions: Vec<SubmittedTx> = vec![
                    submitted_tx("castle_challenge_route", route_tx, one_signer(&actor.name)),
                ];
                let transactions: Vec<ChainTx> = vec![route_tx.clone()];
                proof {
                    let views = challenge_txs(dialogue::reply_views(replies@)).take(1);
                    assert(arena::tx_views(transactions@) =~= views);
                    assert(arena::submission_views(submissions@) =~= challenge_records(
                        actor.name@,
                        views,
                    ));
                    lemma_challenge_records(actor.name@, views);
                }
                self.commit_partial_worker(
                    actor,
                    PartialWorkerCommit {
                        worker: WorkerKind::CastleChallenge,
                        state: prep,
                        outpoint: prep_output.outpoint,
                        mv,
                        transactions,
                        submissions,
                    },
                )
            },
            ChallengeEnd::Proving(refusal, worker, proof_of, outpoint, prep_tx) => {
                if !allow_partial_commit {
                    return Err(Halt::Refused(refusal));
                }
                let submissions: Vec<SubmittedTx> = vec![
                    submitted_tx("castle_challenge_route", route_tx, one_signer(&actor.name)),
                    submitted_tx("castle_challenge_prepare", prep_tx, no_signers()),
                ];
                let transactions: Vec<ChainTx> = vec![route_tx.clone(), prep_tx.clone()];
                proof {
                    let views = challenge_txs(dialogue::reply_views(replies@)).take(2);
                    assert(arena::tx_views(transactions@) =~= views);
                    assert(arena::submission_views(submissions@) =~= challenge_records(
                        actor.name@,
                        views,
                    ));
                    lemma_challenge_records(actor.name@, views);
                }
                self.commit_partial_worker(
                    actor,
                    PartialWorkerCommit {
                        worker,
                        state: proof_of,
                        outpoint,
                        mv,
                        transactions,
                        submissions,
                    },
                )
            },
            ChallengeEnd::Won(worker, next, prep_tx, apply_tx) => {
                assert(challenge_txs(dialogue::reply_views(replies@)) =~= seq![
                    route_tx@,
                    prep_tx@,
                    apply_tx@,
                ]);
                self.commit_challenge(&actor.name, mv, worker, next, route_tx, prep_tx, apply_tx)
            },
        }
    }
}

proof fn lemma_challenge_records(actor: Seq<char>, txs: Seq<ChainTxView>)
    ensures
        arena::all_executed(challenge_records(actor, txs), txs),
{
    let records = challenge_records(actor, txs);
    assert forall|j: int| 0 <= j < records.len() implies arena::is_executed(#[trigger] records[j], txs) by {
        assert(records[j] == arena::submission_of(records[j].action, txs[j], records[j].signer_names));
    }
}

} // verus!
