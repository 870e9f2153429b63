use std::collections::HashSet;

use chess_covenant::arena::{ActualGameSnapshot, SubmittedTx, TxArena};
use chess_covenant::chain::{ChainTx, CovenantBinding, Outpoint, TxInput, TxOutput, Unspent};
use chess_covenant::dialogue::{CovenantOutput, Halt, MovedPosition, Reply, Request};
use chess_covenant::error::OrchestratorError;
use chess_covenant::game::{game_source_state, GameStateData};
use chess_covenant::hash::{blake2b, player_ref_hash};
use chess_covenant::messages::{OffchainMessage, OffchainMessageKind};
use chess_covenant::moves::{standard_board, MoveSpec, WorkerKind};
use chess_covenant::orchestrator::TxOrchestrator;
use chess_covenant::plan::{EntryArg, EntryCall, FieldValue, PlannedInput, PlannedOutput, SourceState, TxPlan};
use chess_covenant::signing::{sign_builder_input, SigningPlayer};
use chess_covenant::status::{
    GameResult, Side, BLACK, BWIN, CLAIMED, CLEAR, DEFENSE, DRAW, LIVE, NORMAL, WHITE, WOFFER, WWIN,
};
use kaspa_consensus_core::tx::ComputeCommit;

const OFFBOARD: u8 = 64;

/// A chain that builds the planned transactions, checks that every input spends an output that
/// exists, and runs the workers' move checks.
struct World {
    outputs: Vec<(Outpoint, Unspent)>,
    /// A request of this kind fails with this text, after this many that do not.
    failures: Vec<(&'static str, usize, &'static str)>,
}

fn encode(actor: &str, state: &SourceState) -> Vec<u8> {
    let mut script = actor.as_bytes().to_vec();
    for (name, value) in &state.fields {
        script.extend_from_slice(name.as_bytes());
        match value {
            FieldValue::Hash(h) => script.extend_from_slice(&h.bytes),
            FieldValue::Bytes(b) => script.extend_from_slice(b),
            FieldValue::Quad(q) => script.extend_from_slice(q),
            FieldValue::Byte(b) => script.push(*b),
            FieldValue::Int(n) => script.extend_from_slice(&n.to_le_bytes()),
        }
    }
    script
}

fn byte_field(state: &SourceState, wanted: &str) -> u8 {
    for (name, value) in &state.fields {
        if *name == wanted {
            match value {
                FieldValue::Byte(b) => return *b,
                _ => panic!("{wanted} is a byte"),
            }
        }
    }
    panic!("{wanted} is a field")
}

fn board_field(state: &SourceState) -> Vec<u8> {
    for (name, value) in &state.fields {
        if *name == "board" {
            match value {
                FieldValue::Bytes(b) => return b.clone(),
                _ => panic!("board is bytes"),
            }
        }
    }
    panic!("board is a field")
}

fn clear_path(board: &[u8], from: (i64, i64), to: (i64, i64)) -> bool {
    let step = ((to.0 - from.0).signum(), (to.1 - from.1).signum());
    let mut at = (from.0 + step.0, from.1 + step.1);
    while at != to {
        if board[(at.1 * 8 + at.0) as usize] != 0 {
            return false;
        }
        at = (at.0 + step.0, at.1 + step.1);
    }
    true
}

/// Whether a piece can get from one square to the other, whoever is in check.
fn reaches(board: &[u8], from: (i64, i64), to: (i64, i64)) -> bool {
    let piece = board[(from.1 * 8 + from.0) as usize];
    let target = board[(to.1 * 8 + to.0) as usize];
    if target != 0 && (target > 8) == (piece > 8) {
        return false;
    }
    let (dx, dy) = (to.0 - from.0, to.1 - from.1);
    let straight = dx == 0 || dy == 0;
    let diagonal = dx.abs() == dy.abs();
    match if piece > 8 { piece - 8 } else { piece } {
        1 => {
            let up = if piece > 8 { -1 } else { 1 };
            let home = if piece > 8 { 6 } else { 1 };
            (dx == 0 && dy == up && target == 0)
                || (dx == 0 && dy == 2 * up && from.1 == home && target == 0 && clear_path(board, from, to))
                || (dx.abs() == 1 && dy == up && target != 0)
        }
        2 => (dx.abs() == 1 && dy.abs() == 2) || (dx.abs() == 2 && dy.abs() == 1),
        3 => diagonal && clear_path(board, from, to),
        4 => straight && clear_path(board, from, to),
        5 => (straight || diagonal) && clear_path(board, from, to),
        6 => (dx.abs() <= 1 && dy.abs() <= 1) || (dy == 0 && dx.abs() == 2 && clear_path(board, from, to)),
        _ => false,
    }
}

impl World {
    fn new() -> World {
        World { outputs: Vec::new(), failures: Vec::new() }
    }

    fn fail_after(&mut self, kind: &'static str, skipped: usize, text: &'static str) {
        self.failures.push((kind, skipped, text));
    }

    fn planned_failure(&mut self, kind: &str) -> Option<Reply> {
        let place = self.failures.iter().position(|(wanted, _, _)| *wanted == kind)?;
        if self.failures[place].1 > 0 {
            self.failures[place].1 -= 1;
            return None;
        }
        Some(Reply::Failed(self.failures.remove(place).2.to_string()))
    }

    fn perform(&mut self, request: Request) -> Reply {
        match request {
            Request::LoadArtifact => self.planned_failure("load").unwrap_or(Reply::Done),
            Request::CheckArtifact => self.planned_failure("check").unwrap_or(Reply::Done),
            Request::StartBuilder => self.planned_failure("builder").unwrap_or(Reply::Done),
            Request::ActorUtxo { actor, state, value, covenant_id } => match self.planned_failure("utxo") {
                Some(failed) => failed,
                None => Reply::Utxo(Unspent {
                    amount: value,
                    script_version: 0,
                    script: encode(actor, &state),
                    block_daa_score: 0,
                    is_coinbase: false,
                    covenant_id: Some(covenant_id),
                }),
            },
            Request::Build { plan } => self.build(plan),
            Request::ReadOutput { tx, index } => match self.planned_failure("read") {
                Some(failed) => failed,
                None => {
                    let output = &tx.outputs[index as usize];
                    let covenant_id = output.covenant.expect("covenant output").covenant_id;
                    Reply::Output(CovenantOutput {
                        covenant_id,
                        outpoint: Outpoint { transaction_id: tx.id(), index },
                        utxo: Unspent {
                            amount: output.value,
                            script_version: output.script_version,
                            script: output.script.clone(),
                            block_daa_score: 0,
                            is_coinbase: false,
                            covenant_id: Some(covenant_id),
                        },
                    })
                }
            },
            Request::InvocationUid { outpoint, tag } => match self.planned_failure("uid") {
                Some(failed) => failed,
                None => {
                    let mut data = outpoint.transaction_id.bytes.to_vec();
                    data.extend_from_slice(&outpoint.index.to_le_bytes());
                    data.extend_from_slice(tag.as_bytes());
                    Reply::Uid(blake2b(&data))
                }
            },
            Request::ApplyMove { board, turn, castle_rights, en_passant_idx: _, mv, standard } => {
                match self.planned_failure("move") {
                    Some(failed) => failed,
                    None => apply_move(&board, turn, castle_rights, mv, standard),
                }
            }
        }
    }

    fn build(&mut self, plan: TxPlan) -> Reply {
        if let Some(failed) = self.planned_failure("build") {
            return failed;
        }
        let mut tx = ChainTx {
            version: 1,
            inputs: Vec::new(),
            outputs: Vec::new(),
            lock_time: 0,
            subnetwork_id: [0; 20],
            gas: 0,
            payload: Vec::new(),
            storage_mass: 0,
        };
        let mut entries: Vec<Unspent> = Vec::new();
        for input in &plan.inputs {
            let (outpoint, utxo, sequence) = match input {
                PlannedInput::Plain { outpoint, utxo, sequence, .. } => (*outpoint, utxo.clone(), *sequence),
                PlannedInput::Actor { actor, state, call, outpoint, utxo, sequence } => {
                    assert_eq!(utxo.script, encode(actor, state), "{actor} is spent in its own state");
                    assert!(
                        self.outputs.iter().any(|(known, held)| known == outpoint
                            && held.amount == utxo.amount
                            && held.script == utxo.script),
                        "{actor} input of {} spends an output that exists",
                        call.name
                    );
                    if call.name == "apply" && *actor != "CastleChallengePrep" {
                        let src = byte_field(state, "pending_src_idx") as i64;
                        let dst = byte_field(state, "pending_dst_idx") as i64;
                        if !reaches(&board_field(state), (src % 8, src / 8), (dst % 8, dst / 8)) {
                            return Reply::Failed(format!("{actor} script rejects the move"));
                        }
                    }
                    (*outpoint, utxo.clone(), *sequence)
                }
            };
            entries.push(utxo);
            tx.inputs.push(TxInput {
                previous_outpoint: outpoint,
                signature_script: Vec::new(),
                sequence,
                compute_commit: ComputeCommit::ComputeBudget(0.into()),
            });
        }
        for output in &plan.outputs {
            let (actor, state, covenant, value) = match output {
                PlannedOutput::Genesis { authorizing_input, label, actor, state, value } => (
                    actor,
                    state,
                    CovenantBinding { authorizing_input: *authorizing_input, covenant_id: blake2b(label.as_bytes()) },
                    *value,
                ),
                PlannedOutput::Actor { actor, state, binding, value } => (actor, state, *binding, *value),
            };
            tx.outputs.push(TxOutput {
                value,
                script_version: 0,
                script: encode(actor, state),
                covenant: Some(covenant),
            });
        }
        for (index, input) in plan.inputs.iter().enumerate() {
            if let PlannedInput::Actor { call, .. } = input {
                let script = arguments(call, &tx, &entries, index);
                tx.inputs[index].signature_script = script;
            }
        }
        let id = tx.id();
        for (index, output) in tx.outputs.iter().enumerate() {
            self.outputs.push((
                Outpoint { transaction_id: id, index: index as u32 },
                Unspent {
                    amount: output.value,
                    script_version: 0,
                    script: output.script.clone(),
                    block_daa_score: 0,
                    is_coinbase: false,
                    covenant_id: output.covenant.map(|c| c.covenant_id),
                },
            ));
        }
        Reply::Tx(tx)
    }
}

fn arguments(call: &EntryCall, tx: &ChainTx, entries: &Vec<Unspent>, index: usize) -> Vec<u8> {
    let mut script = call.name.as_bytes().to_vec();
    for arg in &call.args {
        match arg {
            EntryArg::Signature(keypair) => {
                let encoded = sign_builder_input(tx, entries, index, keypair);
                assert_eq!(encoded.len(), 65);
                script.extend_from_slice(&encoded);
            }
            EntryArg::Bytes(b) => script.extend_from_slice(b),
            EntryArg::Hash(h) => script.extend_from_slice(&h.bytes),
            EntryArg::Actor(name) => script.extend_from_slice(name.as_bytes()),
            EntryArg::Byte(b) => script.push(*b),
            EntryArg::Int(n) => script.extend_from_slice(&n.to_le_bytes()),
        }
    }
    script
}

fn apply_move(board: &[u8], turn: i64, castle_rights: [u8; 4], mv: MoveSpec, standard: bool) -> Reply {
    let from = (mv.from_y * 8 + mv.from_x) as usize;
    let to = (mv.to_y * 8 + mv.to_x) as usize;
    let piece = board[from];
    if (piece > 8) != (turn == BLACK) {
        return Reply::Failed("Illegal move: wrong colour".to_string());
    }
    let takes_king = board[to] == 6 || board[to] == 14;
    if standard && (takes_king || !reaches(board, (mv.from_x, mv.from_y), (mv.to_x, mv.to_y))) {
        return Reply::Failed("Illegal move".to_string());
    }
    let mut next = [0u8; 64];
    next.copy_from_slice(board);
    next[from] = 0;
    next[to] = if mv.promo_piece != 0 { mv.promo_piece as u8 } else { piece };
    let dx = mv.to_x - mv.from_x;
    let mut recent_castle = 0;
    if (piece == 6 || piece == 14) && mv.from_y == mv.to_y && dx.abs() == 2 {
        let row = (mv.from_y * 8) as usize;
        let (corner, beside) = if dx > 0 { (row + 7, row + 5) } else { (row, row + 3) };
        next[beside] = next[corner];
        next[corner] = 0;
        recent_castle = if piece == 6 { 1 } else { 3 } + if dx > 0 { 0 } else { 1 };
    }
    Reply::Moved(MovedPosition { board: next, castle_rights, en_passant_idx: OFFBOARD, recent_castle })
}

/// Runs an operation until it is done or refused.
fn drive<T>(world: &mut World, mut operation: impl FnMut(&Vec<Reply>) -> Result<T, Halt>) -> Result<T, OrchestratorError> {
    let mut replies: Vec<Reply> = Vec::new();
    loop {
        match operation(&replies) {
            Ok(value) => return Ok(value),
            Err(Halt::Refused(refusal)) => return Err(refusal),
            Err(Halt::Need(request)) => {
                let reply = world.perform(request);
                replies.push(reply);
            }
        }
    }
}

/// An arena and the chain that it runs on.
struct Table {
    world: World,
    arena: TxArena,
}

impl Table {
    fn new() -> Result<Table, OrchestratorError> {
        let mut world = World::new();
        let arena = drive(&mut world, |replies| TxArena::new(OFFBOARD, replies))?;
        Ok(Table { world, arena })
    }

    fn register(&mut self, player: &mut TxOrchestrator) -> Result<(), OrchestratorError> {
        let arena = &mut self.arena;
        drive(&mut self.world, |replies| player.register(arena, replies))
    }

    fn start_game(&mut self, white: &TxOrchestrator, black: &TxOrchestrator) -> Result<(), OrchestratorError> {
        let arena = &mut self.arena;
        drive(&mut self.world, |replies| white.start_game(arena, black, replies))
    }

    fn submit_move(&mut self, player: &TxOrchestrator, mv: MoveSpec) -> Result<Vec<SubmittedTx>, OrchestratorError> {
        let arena = &mut self.arena;
        drive(&mut self.world, |replies| player.submit_move(arena, mv, replies))
    }

    fn offer_draw(&mut self, player: &TxOrchestrator, mv: MoveSpec) -> Result<Vec<SubmittedTx>, OrchestratorError> {
        let arena = &mut self.arena;
        drive(&mut self.world, |replies| player.offer_draw(arena, mv, replies))
    }

    fn force_move(&mut self, player: &TxOrchestrator, mv: MoveSpec) -> Result<Vec<SubmittedTx>, OrchestratorError> {
        let arena = &mut self.arena;
        drive(&mut self.world, |replies| player.force_move(arena, mv, replies))
    }

    fn challenge_castle(&mut self, player: &TxOrchestrator, mv: MoveSpec) -> Result<Vec<SubmittedTx>, OrchestratorError> {
        let arena = &mut self.arena;
        drive(&mut self.world, |replies| player.challenge_castle(arena, mv, replies))
    }

    fn force_castle_challenge(&mut self, player: &TxOrchestrator, mv: MoveSpec) -> Result<Vec<SubmittedTx>, OrchestratorError> {
        let arena = &mut self.arena;
        drive(&mut self.world, |replies| player.force_castle_challenge(arena, mv, replies))
    }

    fn claim_draw(&mut self, player: &TxOrchestrator) -> Result<(), OrchestratorError> {
        let arena = &mut self.arena;
        drive(&mut self.world, |replies| player.claim_draw(arena, replies))
    }

    fn accept_draw(&mut self, player: &TxOrchestrator) -> Result<(), OrchestratorError> {
        let arena = &mut self.arena;
        drive(&mut self.world, |replies| player.accept_draw(arena, replies))
    }

    fn surrender(&mut self, player: &TxOrchestrator) -> Result<(), OrchestratorError> {
        let arena = &mut self.arena;
        drive(&mut self.world, |replies| player.surrender(arena, replies))
    }

    fn claim_timeout(&mut self, player: &TxOrchestrator) -> Result<(), OrchestratorError> {
        let arena = &mut self.arena;
        drive(&mut self.world, |replies| player.claim_timeout(arena, replies))
    }

    fn settle(&mut self, white: &TxOrchestrator, black: &TxOrchestrator, result: GameResult) -> Result<(), OrchestratorError> {
        let arena = &mut self.arena;
        drive(&mut self.world, |replies| white.settle(arena, black, result, replies))
    }

    fn retire(&mut self, player: &TxOrchestrator) -> Result<(), OrchestratorError> {
        let arena = &mut self.arena;
        drive(&mut self.world, |replies| player.retire(arena, replies))
    }

    fn rebalance_league(&mut self, lane: usize, value: u64) -> Result<(), OrchestratorError> {
        let arena = &mut self.arena;
        drive(&mut self.world, |replies| arena.rebalance_league(lane, value, replies))
    }

    fn fork_league(&mut self, lane: usize, left: u64, right: u64) -> Result<(), OrchestratorError> {
        let arena = &mut self.arena;
        drive(&mut self.world, |replies| arena.fork_league(lane, left, right, replies))
    }

    fn inbox(&mut self, player: &TxOrchestrator) -> Vec<OffchainMessage> {
        player.inbox(&mut self.arena)
    }

    /// Changes the state of the game in progress.
    fn change_game(&mut self, change: impl Fn(&mut GameStateData)) {
        let mut game = self.arena.game().expect("in progress").clone();
        change(&mut game);
        assert!(self.arena.set_up_position(game));
    }

    /// Lets the chain hold the game as the arena has it.
    fn adopt_game(&mut self) {
        let game = self.arena.game().expect("active game exists");
        let started = self.arena.history().last().expect("the game has just started");
        assert_eq!(started.action, "start_game");
        let at = started.output_outpoints[2];
        for (outpoint, held) in self.world.outputs.iter_mut() {
            if *outpoint == at {
                held.script = encode("Mux", &game_source_state(game));
            }
        }
    }

    /// No output is spent twice.
    fn check_spends(&self) {
        let mut spent: HashSet<([u8; 32], u32)> = HashSet::new();
        for tx in self.arena.transactions() {
            for input in &tx.inputs {
                let at = input.previous_outpoint;
                assert!(spent.insert((at.transaction_id.bytes, at.index)), "an output is spent once");
            }
        }
    }
}

/// A table at which white and black are registered and play.
fn seated(white_seed: u8, black_seed: u8) -> (Table, TxOrchestrator, TxOrchestrator) {
    let mut table = Table::new().expect("actual arena builds");
    let mut white = TxOrchestrator::new("white", white_seed);
    let mut black = TxOrchestrator::new("black", black_seed);
    table.register(&mut white).expect("white register tx passes");
    table.register(&mut black).expect("black register tx passes");
    table.start_game(&white, &black).expect("start game tx passes");
    (table, white, black)
}

#[test]
fn actual_txs_can_play_a_short_game_end_to_end() {
    let mut table = Table::new().expect("actual arena builds");
    let mut white = TxOrchestrator::new("white", 0x31);
    let mut black = TxOrchestrator::new("black", 0x32);

    table.register(&mut white).expect("white register tx passes");
    table.register(&mut black).expect("black register tx passes");

    white.send_game_invite(&mut table.arena, &black).expect("white sends invite");
    let invite_mail = table.inbox(&black);
    assert!(matches!(invite_mail.as_slice(), [OffchainMessage { kind: OffchainMessageKind::GameInvite { .. }, .. }]));

    black.accept_game_invite(&mut table.arena, &white).expect("black accepts invite");
    let accepted_mail = table.inbox(&white);
    assert!(matches!(accepted_mail.as_slice(), [OffchainMessage { kind: OffchainMessageKind::InviteAccepted { .. }, .. }]));

    table.start_game(&white, &black).expect("start game tx passes");
    let started_mail_white = table.inbox(&white);
    let started_mail = table.inbox(&black);
    assert!(matches!(started_mail_white.as_slice(), [OffchainMessage { kind: OffchainMessageKind::GameStarted { .. }, .. }]));
    assert!(matches!(started_mail.as_slice(), [OffchainMessage { kind: OffchainMessageKind::GameStarted { .. }, .. }]));

    table.submit_move(&white, MoveSpec::new(4, 1, 4, 3)).expect("white e2e4 txs pass");
    let move_mail = table.inbox(&black);
    assert!(matches!(
        move_mail.as_slice(),
        [OffchainMessage { kind: OffchainMessageKind::MoveNotice { ref move_label, .. }, .. }] if move_label == "e2e4"
    ));

    table.submit_move(&black, MoveSpec::new(6, 7, 5, 5)).expect("black g8f6 txs pass");
    let reply_mail = table.inbox(&white);
    assert!(matches!(
        reply_mail.as_slice(),
        [OffchainMessage { kind: OffchainMessageKind::MoveNotice { ref move_label, .. }, .. }] if move_label == "g8f6"
    ));

    table.submit_move(&white, MoveSpec::new(5, 0, 2, 3)).expect("white bishop f1c4 txs pass");
    table.inbox(&black);

    table.surrender(&black).expect("black surrender tx passes");
    black.request_settlement(&mut table.arena, &white, GameResult::WhiteWin).expect("black requests settlement");
    let settlement_request = table.inbox(&white);
    assert!(matches!(
        settlement_request.as_slice(),
        [OffchainMessage { kind: OffchainMessageKind::SettlementRequest { result: GameResult::WhiteWin, .. }, .. }]
    ));

    table.settle(&white, &black, GameResult::WhiteWin).expect("settlement txs pass");
    let settlement_notice = table.inbox(&black);
    assert!(settlement_notice
        .iter()
        .any(|message| { matches!(message.kind, OffchainMessageKind::SettlementNotice { result: GameResult::WhiteWin }) }));

    {
        let white_state = table.arena.player_account_snapshot(&white.player).expect("white player remains after settlement");
        let black_state = table.arena.player_account_snapshot(&black.player).expect("black player remains after settlement");
        assert_eq!(white_state.value, 2_000);
        assert_eq!(black_state.value, 1_000);
    }

    table.retire(&white).expect("retire tx passes");

    let arena = &table.arena;
    let game = arena.active_game_snapshot();
    assert!(game.is_none());
    let white_state = arena.player_account_snapshot(&white.player);
    let black_state = arena.player_account_snapshot(&black.player).expect("black player remains");
    assert!(white_state.is_err());
    assert_eq!(black_state.open_games, 0);
    assert_eq!(black_state.losses, 1);
    assert_eq!(arena.history().len(), 13);
    for submitted in arena.history() {
        let tx = arena
            .transactions()
            .iter()
            .find(|tx| tx.id() == submitted.transaction_id)
            .expect("history entry references an executed transaction");
        assert_eq!(submitted.input_outpoints, tx.inputs.iter().map(|input| input.previous_outpoint).collect::<Vec<_>>());
        assert_eq!(
            submitted.output_outpoints,
            tx.outputs
                .iter()
                .enumerate()
                .map(|(index, _)| Outpoint { transaction_id: tx.id(), index: index as u32 })
                .collect::<Vec<_>>()
        );
    }
    table.check_spends();
}

#[test]
fn illegal_move_does_not_leave_the_game_stuck() {
    let mut table = Table::new().expect("actual arena builds");
    let mut white = TxOrchestrator::new("white", 0x51);
    let mut black = TxOrchestrator::new("black", 0x52);

    table.register(&mut white).expect("white register tx passes");
    table.register(&mut black).expect("black register tx passes");
    table.start_game(&white, &black).expect("start game tx passes");

    let (history_before, txs_before, game_before) = (
        table.arena.history().len(),
        table.arena.transactions().len(),
        table.arena.active_game_snapshot().expect("active game exists"),
    );

    let err = table.submit_move(&white, MoveSpec::new(4, 1, 4, 4)).expect_err("illegal e2e5 should fail");
    assert!(err.to_string().contains("Use Force Move"), "unexpected error: {}", err.0);

    {
        let game_after = table.arena.active_game_snapshot().expect("active game still exists");
        assert_eq!(table.arena.history().len(), history_before);
        assert_eq!(table.arena.transactions().len(), txs_before);
        assert_eq!(game_after.turn, game_before.turn);
        assert_eq!(game_after.status, game_before.status);
        assert_eq!(game_after.board, game_before.board);
    }

    table.submit_move(&white, MoveSpec::new(4, 1, 4, 3)).expect("legal e2e4 should still pass");
    {
        let game_after = table.arena.active_game_snapshot().expect("active game exists");
        assert_eq!(game_after.turn, Side::Black);
        assert_eq!(table.arena.history().len(), history_before + 2);
        assert_eq!(table.arena.transactions().len(), txs_before + 2);
    }
    table.check_spends();
}

#[test]
fn forced_illegal_move_can_be_timed_out_and_settled() {
    let (mut table, white, black) = seated(0x61, 0x62);

    let forced = table.force_move(&white, MoveSpec::new(4, 1, 4, 4)).expect("forced illegal move should route");
    assert_eq!(forced.len(), 1);
    assert_eq!(forced[0].action, "route");

    let notice = table.inbox(&black);
    assert!(notice.iter().any(|message| {
        matches!(message.kind, OffchainMessageKind::TimeoutClaimAvailable { result: GameResult::BlackWin, .. })
    }));

    {
        let game = table.arena.active_game_snapshot().expect("worker transit should be visible");
        assert!(game.phase.starts_with("worker:"));
    }

    table.claim_timeout(&black).expect("black claims timeout");
    let settlement_request = table.inbox(&white);
    assert!(settlement_request
        .iter()
        .any(|message| { matches!(message.kind, OffchainMessageKind::SettlementRequest { result: GameResult::BlackWin, .. }) }));

    table.settle(&white, &black, GameResult::BlackWin).expect("timeout win settles");
    {
        let white_state = table.arena.player_account_snapshot(&white.player).expect("white remains");
        let black_state = table.arena.player_account_snapshot(&black.player).expect("black remains");
        assert_eq!(white_state.losses, 1);
        assert_eq!(black_state.wins, 1);
        assert_eq!(white_state.open_games, 0);
        assert_eq!(black_state.open_games, 0);
        assert_eq!(table.arena.active_game_snapshot(), None);
    }
    table.check_spends();
}

#[test]
fn actual_txs_can_offer_accept_and_settle_a_draw() {
    let (mut table, white, black) = seated(0x63, 0x64);
    table.inbox(&black);

    let move_txs = table.offer_draw(&white, MoveSpec::new(4, 1, 4, 3)).expect("draw offer move passes");
    assert_eq!(move_txs.len(), 2);
    let black_notices = table.inbox(&black);
    assert!(black_notices.iter().any(|message| {
        matches!(message.kind, OffchainMessageKind::MoveNotice { ref move_label, .. } if move_label == "e2e4")
    }));
    assert!(black_notices
        .iter()
        .any(|message| matches!(message.kind, OffchainMessageKind::DrawOffered { ref actor } if actor == "white")));

    {
        let game = table.arena.game().expect("Mux remains active after draw offer");
        assert_eq!(game.turn, BLACK);
        assert_eq!(game.draw_state, WOFFER);
    }

    table.accept_draw(&black).expect("black accepts the draw");
    assert!(table
        .inbox(&white)
        .iter()
        .any(|message| matches!(message.kind, OffchainMessageKind::DrawAccepted { ref actor } if actor == "black")));
    {
        let game = table.arena.game().expect("terminal Mux remains until settlement");
        assert_eq!(game.status, DRAW);
        assert_eq!(game.draw_state, NORMAL);
        assert_eq!(table.arena.history().last().expect("accept transaction").action, "draw_accept");
    }

    table.settle(&white, &black, GameResult::Draw).expect("accepted draw settles");
    let white_state = table.arena.player_account_snapshot(&white.player).expect("white remains");
    let black_state = table.arena.player_account_snapshot(&black.player).expect("black remains");
    assert_eq!(white_state.draws, 1);
    assert_eq!(black_state.draws, 1);
    assert_eq!(white_state.value, 1_500);
    assert_eq!(black_state.value, 1_500);
    table.check_spends();
}

#[test]
fn actual_txs_execute_the_draw_claim_defense_game() {
    let (mut table, white, black) = seated(0x65, 0x66);

    table.claim_draw(&white).expect("white claims a draw");
    assert!(table
        .inbox(&black)
        .iter()
        .any(|message| matches!(message.kind, OffchainMessageKind::DrawClaimed { ref actor } if actor == "white")));
    {
        let game = table.arena.game().expect("claimed game remains active");
        assert_eq!(game.turn, BLACK);
        assert_eq!(game.draw_state, CLAIMED);
    }

    table.submit_move(&black, MoveSpec::new(1, 0, 2, 2)).expect("black controls a white proof move");
    {
        let game = table.arena.game().expect("defense game remains active");
        assert_eq!(game.turn, WHITE);
        assert_eq!(game.draw_state, DEFENSE);
        assert_eq!(game.board[1], 0);
        assert_eq!(game.board[18], 0x02);
    }

    table.submit_move(&white, MoveSpec::new(1, 7, 2, 5)).expect("white controls a black defense move");
    {
        let game = table.arena.game().expect("failed claim remains until settlement");
        assert_eq!(game.status, BWIN);
        assert_eq!(game.board[57], 0);
        assert_eq!(game.board[42], 0x0a);
    }

    table.settle(&white, &black, GameResult::BlackWin).expect("failed draw claim settles");
    assert_eq!(table.arena.player_account_snapshot(&white.player).expect("white remains").losses, 1);
    assert_eq!(table.arena.player_account_snapshot(&black.player).expect("black remains").wins, 1);
    table.check_spends();
}

#[test]
fn actual_mux_timeout_requires_and_rewards_the_waiting_opponent() {
    let (mut table, white, black) = seated(0x67, 0x68);

    let err = table.claim_timeout(&white).expect_err("active player cannot claim own Mux timeout");
    assert!(err.0.contains("not entitled"), "unexpected error: {}", err.0);
    table.claim_timeout(&black).expect("waiting black player claims Mux timeout");

    {
        let arena = &table.arena;
        assert!(arena.game().is_none());
        assert_eq!(arena.active_settle().expect("timeout creates Settle").status, BWIN);
        let timeout = arena.history().last().expect("timeout transaction is recorded");
        assert_eq!(timeout.action, "mux_timeout");
        assert_eq!(timeout.signer_names, ["black"]);
    }

    table.settle(&white, &black, GameResult::BlackWin).expect("Mux timeout settles");
    assert_eq!(table.arena.player_account_snapshot(&white.player).expect("white remains").losses, 1);
    assert_eq!(table.arena.player_account_snapshot(&black.player).expect("black remains").wins, 1);
    table.check_spends();
}

#[test]
fn actual_maintenance_txs_rebalance_and_fork_contracts() {
    let mut table = Table::new().expect("actual arena builds");
    table.rebalance_league(0, 1_200).expect("admin rebalances the League lane");
    table.fork_league(0, 500, 700).expect("admin forks the League lane");
    assert_eq!(table.arena.league_lane_count(), 2);
    assert_eq!(table.arena.league_lane_values(), [500, 700]);

    let mut player = SigningPlayer::from_seed("player", 0x69);
    {
        let arena = &mut table.arena;
        let signer = &mut player;
        drive(&mut table.world, |replies| arena.register_player_on_lane(signer, 1, replies))
            .expect("player registers through the selected forked lane");
    }
    {
        let arena = &mut table.arena;
        let signer = &player;
        drive(&mut table.world, |replies| arena.rebalance_player(signer, 2_500, replies))
            .expect("owner rebalances the Player");
    }
    assert_eq!(table.arena.player_account_snapshot(&player).expect("player remains").value, 2_500);
    assert_eq!(
        table.arena.history().iter().map(|submission| submission.action).collect::<Vec<_>>(),
        ["league_rebalance", "league_fork", "register_player", "player_rebalance"]
    );
    table.check_spends();
}

#[test]
fn actual_txs_can_capture_the_enemy_king() {
    let (mut table, white, _black) = seated(0x71, 0x72);

    {
        let mut game = table.arena.game().expect("active game exists").clone();
        let mut board = vec![0u8; 64];
        board[0] = 0x05;
        board[24] = 0x0e;
        game.board = board;
        game.turn = Side::White as i64;
        game.status = LIVE;
        game.castle_rights = [1, 1, 1, 1];
        game.en_passant_idx = OFFBOARD as i64;
        game.pending_src_idx = OFFBOARD as i64;
        game.pending_dst_idx = OFFBOARD as i64;
        game.pending_promo = 0;
        game.recent_castle = CLEAR;
        game.draw_state = NORMAL;
        game.move_log.clear();
        assert!(table.arena.set_up_position(game));
    }
    table.adopt_game();

    let err = table.submit_move(&white, MoveSpec::new(0, 0, 0, 3)).expect_err("standard submit should reject king capture");
    assert!(err.0.contains("Force Move"), "unexpected error: {}", err.0);

    table.force_move(&white, MoveSpec::new(0, 0, 0, 3)).expect("forced king capture txs pass");

    let game = table.arena.active_game_snapshot().expect("active game remains until settlement");
    assert_eq!(game.status, WWIN);
    assert_eq!(game.turn, Side::Black);
    assert_eq!(game.board[24], 0x05);
    assert_eq!(game.board[0], 0x00);
}

#[test]
fn opponent_can_reply_normally_after_castle() {
    let (mut table, white, black) = seated(0x81, 0x82);

    table.submit_move(&white, MoveSpec::new(4, 1, 4, 3)).expect("white e2e4 tx passes");
    table.submit_move(&black, MoveSpec::new(4, 6, 4, 4)).expect("black e7e5 tx passes");
    table.submit_move(&white, MoveSpec::new(6, 0, 5, 2)).expect("white g1f3 tx passes");
    table.submit_move(&black, MoveSpec::new(1, 7, 2, 5)).expect("black b8c6 tx passes");
    table.submit_move(&white, MoveSpec::new(5, 0, 4, 1)).expect("white f1e2 tx passes");
    table.submit_move(&black, MoveSpec::new(6, 7, 5, 5)).expect("black g8f6 tx passes");
    table.submit_move(&white, MoveSpec::new(4, 0, 6, 0)).expect("white castles kingside");

    {
        let game = table.arena.active_game_snapshot().expect("active game exists after castle");
        assert_eq!(game.turn, Side::Black);
        assert_eq!(game.board[4], 0x00);
        assert_eq!(game.board[5], 0x04);
        assert_eq!(game.board[6], 0x06);
        assert_eq!(game.board[7], 0x00);
    }

    table.submit_move(&black, MoveSpec::new(0, 6, 0, 5)).expect("black a7a6 reply should pass after castle");

    let game = table.arena.active_game_snapshot().expect("active game exists after reply");
    assert_eq!(game.turn, Side::White);
    assert_eq!(game.board[48], 0x00);
    assert_eq!(game.board[40], 0x09);
    table.check_spends();
}

#[test]
fn actual_txs_can_prove_that_a_castle_crossed_check() {
    let (mut table, white, black) = seated(0x83, 0x84);

    table.submit_move(&white, MoveSpec::new(4, 1, 4, 2)).expect("white e2e3");
    table.submit_move(&black, MoveSpec::new(4, 6, 4, 4)).expect("black e7e5");
    table.submit_move(&white, MoveSpec::new(6, 0, 5, 2)).expect("white g1f3");
    table.submit_move(&black, MoveSpec::new(0, 6, 0, 5)).expect("black a7a6");
    table.submit_move(&white, MoveSpec::new(5, 0, 4, 1)).expect("white f1e2");
    table.submit_move(&black, MoveSpec::new(0, 5, 0, 4)).expect("black a6a5");
    table.submit_move(&white, MoveSpec::new(3, 1, 3, 3)).expect("white d2d4");
    table.submit_move(&black, MoveSpec::new(5, 7, 1, 3)).expect("black f8b4 check");
    table.force_move(&white, MoveSpec::new(4, 0, 6, 0)).expect("protocol allows white to commit the challenged castle");

    let challenge =
        table.challenge_castle(&black, MoveSpec::new(1, 3, 4, 0)).expect("black proves the start square was attacked");
    assert_eq!(
        challenge.iter().map(|submission| submission.action).collect::<Vec<_>>(),
        ["castle_challenge_route", "castle_challenge_prepare", "castle_challenge_apply"]
    );
    {
        let game = table.arena.game().expect("terminal Mux remains until settlement");
        assert_eq!(game.status, BWIN);
        assert_eq!(game.turn, WHITE);
        assert_eq!(game.recent_castle, CLEAR);
        assert_eq!(game.board[4], 0x0b);
    }

    table.settle(&white, &black, GameResult::BlackWin).expect("successful castle challenge settles");
    assert_eq!(table.arena.player_account_snapshot(&white.player).expect("white remains").losses, 1);
    assert_eq!(table.arena.player_account_snapshot(&black.player).expect("black remains").wins, 1);
    table.check_spends();
}

#[test]
fn invalid_castle_challenge_commits_to_a_timeout_path() {
    let (mut table, white, black) = seated(0x85, 0x86);
    table.submit_move(&white, MoveSpec::new(4, 1, 4, 3)).expect("white e2e4");
    table.submit_move(&black, MoveSpec::new(4, 6, 4, 4)).expect("black e7e5");
    table.submit_move(&white, MoveSpec::new(6, 0, 5, 2)).expect("white g1f3");
    table.submit_move(&black, MoveSpec::new(1, 7, 2, 5)).expect("black b8c6");
    table.submit_move(&white, MoveSpec::new(5, 0, 4, 1)).expect("white f1e2");
    table.submit_move(&black, MoveSpec::new(6, 7, 5, 5)).expect("black g8f6");
    table.submit_move(&white, MoveSpec::new(4, 0, 6, 0)).expect("white castles kingside");

    let err =
        table.challenge_castle(&black, MoveSpec::new(5, 5, 6, 0)).expect_err("invalid knight proof is rejected before commit");
    assert!(err.0.contains("Illegal move") || err.0.contains("apply"), "unexpected error: {}", err.0);
    let forced =
        table.force_castle_challenge(&black, MoveSpec::new(5, 5, 6, 0)).expect("forced invalid challenge commits through prep");
    assert_eq!(
        forced.iter().map(|submission| submission.action).collect::<Vec<_>>(),
        ["castle_challenge_route", "castle_challenge_prepare"]
    );
    {
        let game = table.arena.active_game_snapshot().expect("prepared worker remains active");
        assert_eq!(game.phase, "worker:Knight");
    }
    assert!(table.inbox(&white).iter().any(|message| {
        matches!(
            message.kind,
            OffchainMessageKind::TimeoutClaimAvailable { result: GameResult::WhiteWin, worker: WorkerKind::Knight, .. }
        )
    }));

    table.claim_timeout(&white).expect("white routes the invalid challenge to Settle");
    table.settle(&white, &black, GameResult::WhiteWin).expect("invalid challenge timeout settles");
    assert_eq!(table.arena.player_account_snapshot(&white.player).expect("white remains").wins, 1);
    assert_eq!(table.arena.player_account_snapshot(&black.player).expect("black remains").losses, 1);
    table.check_spends();
}

/// The parts of an arena that an operation which is refused leaves alone.
fn books(table: &Table) -> (usize, usize, Option<ActualGameSnapshot>) {
    (table.arena.history().len(), table.arena.transactions().len(), table.arena.active_game_snapshot())
}

#[test]
fn launch_reports_each_failure() {
    for (kind, text) in [
        ("load", "failed to load pinned Argent artifact: x"),
        ("check", "invalid pinned Argent artifact: x"),
        ("builder", "initialize Argent builder: x"),
        ("build", "launch League: x"),
        ("read", "read League genesis output: x"),
    ] {
        let mut world = World::new();
        world.fail_after(kind, 0, "x");
        match drive(&mut world, |replies| TxArena::new(OFFBOARD, replies)) {
            Err(refusal) => assert_eq!(refusal.0, text),
            Ok(_) => panic!("launch is refused"),
        }
    }
}

#[test]
fn launch_opens_one_lane() {
    let table = Table::new().expect("launches");
    assert_eq!(table.arena.league_lane_values(), [1_000]);
    assert_eq!(table.arena.covenant_id(), blake2b(b"launch::league"));
    assert!(table.arena.history().is_empty());
    assert!(table.arena.transactions().is_empty());
    assert_eq!(table.arena.active_game_snapshot(), None);
}

#[test]
fn lane_work_reports_each_failure() {
    let mut table = Table::new().expect("launches");
    assert_eq!(table.rebalance_league(1, 5).expect_err("no lane").0, "missing League lane 1");
    assert_eq!(table.fork_league(12, 5, 6).expect_err("no lane").0, "missing League lane 12");
    for (kind, text) in [
        ("builder", "initialize Argent builder: x"),
        ("utxo", "build League lane UTXO: x"),
        ("build", "rebalance League lane: x"),
    ] {
        table.world.fail_after(kind, 0, "x");
        assert_eq!(table.rebalance_league(0, 5).expect_err("refused").0, text);
    }
    for (kind, text) in [
        ("builder", "initialize Argent builder: x"),
        ("utxo", "build League lane UTXO: x"),
        ("build", "fork League lane: x"),
    ] {
        table.world.fail_after(kind, 0, "x");
        assert_eq!(table.fork_league(0, 5, 6).expect_err("refused").0, text);
    }
    assert_eq!(table.arena.league_lane_values(), [1_000]);
    assert_eq!(table.arena.history().len(), 0);
}

#[test]
fn fork_puts_two_lanes_in_place_of_one() {
    let mut table = Table::new().expect("launches");
    table.fork_league(0, 1, 2).expect("forks");
    table.fork_league(1, 3, 4).expect("forks");
    table.fork_league(0, 5, 6).expect("forks");
    assert_eq!(table.arena.league_lane_values(), [5, 6, 3, 4]);
    table.rebalance_league(2, 9).expect("rebalances");
    assert_eq!(table.arena.league_lane_values(), [5, 6, 9, 4]);
    assert_eq!(table.arena.history()[3].signer_names, ["admin"]);
    table.check_spends();
}

#[test]
fn registration_reports_each_failure_and_keeps_the_player() {
    let mut table = Table::new().expect("launches");
    let mut white = TxOrchestrator::new("white", 0x21);
    for (kind, text) in [
        ("uid", "derive player ID: x"),
        ("builder", "initialize Argent builder: x"),
        ("utxo", "build League UTXO: x"),
        ("build", "register player: x"),
    ] {
        table.world.fail_after(kind, 0, "x");
        assert_eq!(table.register(&mut white).expect_err("refused").0, text);
        assert_eq!(white.player.player_id, None);
        assert_eq!(white.player.player_ref, None);
    }
    let arena = &mut table.arena;
    let refused = drive(&mut table.world, |replies| white.register_on_lane(arena, 3, replies));
    assert_eq!(refused.expect_err("no lane").0, "missing League lane 3");
    assert_eq!(table.arena.history().len(), 0);
}

#[test]
fn registration_gives_an_account() {
    let mut table = Table::new().expect("launches");
    let mut white = TxOrchestrator::new("white", 0x21);
    let unknown = table.arena.player_account_snapshot(&white.player);
    assert_eq!(unknown.expect_err("not yet").0, "white is not registered");
    table.register(&mut white).expect("registers");
    let account = table.arena.player_account_snapshot(&white.player).expect("registered");
    assert_eq!(account.owner_name, "white");
    assert_eq!(account.owner_hash, white.player.owner_hash);
    assert_eq!(Some(account.player_id), white.player.player_id);
    assert_eq!(Some(account.player_ref), white.player.player_ref);
    assert_eq!(account.player_ref, player_ref_hash(account.owner_hash, account.player_id));
    assert_eq!((account.value, account.rating, account.open_games), (1_000, 1_200, 0));
    assert_eq!((account.games, account.wins, account.draws, account.losses), (0, 0, 0, 0));
    assert_eq!(table.arena.owner_name(account.player_ref).expect("owner"), "white");
    assert_eq!(table.arena.history()[0].signer_names, ["white"]);

    table.retire(&white).expect("retires");
    let gone = table.arena.player_account_snapshot(&white.player);
    assert_eq!(gone.expect_err("gone").0, "missing player account");
    assert_eq!(table.arena.owner_name(account.player_ref).expect_err("gone").0, "missing player owner");
    assert_eq!(table.retire(&white).expect_err("gone").0, "missing player");
}

#[test]
fn retirement_and_rebalance_report_each_failure() {
    let mut table = Table::new().expect("launches");
    let mut white = TxOrchestrator::new("white", 0x21);
    table.register(&mut white).expect("registers");
    for (kind, text) in [
        ("builder", "initialize Argent builder: x"),
        ("utxo", "build retiring Player UTXO: x"),
        ("build", "retire player: x"),
    ] {
        table.world.fail_after(kind, 0, "x");
        assert_eq!(table.retire(&white).expect_err("refused").0, text);
    }
    for (kind, text) in [
        ("builder", "initialize Argent builder: x"),
        ("utxo", "build rebalancing Player UTXO: x"),
        ("build", "rebalance Player: x"),
    ] {
        table.world.fail_after(kind, 0, "x");
        let arena = &mut table.arena;
        let refused = drive(&mut table.world, |replies| white.rebalance(arena, 7, replies));
        assert_eq!(refused.expect_err("refused").0, text);
    }
    let stranger = TxOrchestrator::new("stranger", 0x22);
    let arena = &mut table.arena;
    let refused = drive(&mut table.world, |replies| stranger.rebalance(arena, 7, replies));
    assert_eq!(refused.expect_err("refused").0, "missing player");
    assert_eq!(table.arena.player_account_snapshot(&white.player).expect("stays").value, 1_000);
}

#[test]
fn invitations_need_two_registered_players() {
    let mut table = Table::new().expect("launches");
    let mut white = TxOrchestrator::new("white", 0x21);
    let mut black = TxOrchestrator::new("black", 0x22);
    assert_eq!(white.send_game_invite(&mut table.arena, &black).expect_err("no").0, "white is not registered");
    table.register(&mut white).expect("registers");
    assert_eq!(white.send_game_invite(&mut table.arena, &black).expect_err("no").0, "black is not registered");
    assert_eq!(black.accept_game_invite(&mut table.arena, &white).expect_err("no").0, "black is not registered");
    table.register(&mut black).expect("registers");
    white.send_game_invite(&mut table.arena, &black).expect("invites");
    white.send_game_invite(&mut table.arena, &black).expect("invites again");
    black.accept_game_invite(&mut table.arena, &white).expect("accepts");
    let mail = table.inbox(&black);
    assert_eq!(mail.len(), 2);
    assert_eq!(
        mail[0],
        OffchainMessage {
            from: "white".to_string(),
            to: "black".to_string(),
            kind: OffchainMessageKind::GameInvite {
                proposed_white: "white".to_string(),
                proposed_black: "black".to_string()
            },
        }
    );
    assert!(table.inbox(&black).is_empty());
    assert_eq!(
        table.inbox(&white),
        [OffchainMessage {
            from: "black".to_string(),
            to: "white".to_string(),
            kind: OffchainMessageKind::InviteAccepted { white: "white".to_string(), black: "black".to_string() },
        }]
    );
}

#[test]
fn start_reports_each_failure() {
    let mut table = Table::new().expect("launches");
    let mut white = TxOrchestrator::new("white", 0x21);
    let mut black = TxOrchestrator::new("black", 0x22);
    assert_eq!(table.start_game(&white, &black).expect_err("no").0, "missing white");
    table.register(&mut white).expect("registers");
    assert_eq!(table.start_game(&white, &black).expect_err("no").0, "missing black");
    table.register(&mut black).expect("registers");
    let faceless = TxOrchestrator::new("white", 0x21);
    assert_eq!(table.start_game(&faceless, &black).expect_err("no").0, "white missing player ref");
    let faceless = TxOrchestrator::new("black", 0x22);
    assert_eq!(table.start_game(&white, &faceless).expect_err("no").0, "black missing player ref");
    for (kind, skipped, text) in [
        ("builder", 0, "initialize Argent builder: x"),
        ("utxo", 0, "build white Player UTXO: x"),
        ("utxo", 1, "build black Player UTXO: x"),
        ("build", 0, "start game: x"),
    ] {
        table.world.fail_after(kind, skipped, "x");
        assert_eq!(table.start_game(&white, &black).expect_err("refused").0, text);
    }
    assert_eq!(table.arena.active_game_snapshot(), None);
    table.start_game(&white, &black).expect("starts");
    let game = table.arena.active_game_snapshot().expect("in progress");
    assert_eq!(game.phase, "mux");
    assert_eq!(game.turn, Side::White);
    assert_eq!(game.status, LIVE);
    assert_eq!(game.move_timeout, 600);
    assert_eq!(game.draw_state, NORMAL);
    assert_eq!(game.board, standard_board());
    assert_eq!(Some(game.white_player_ref), white.player.player_ref);
    assert_eq!(Some(game.black_player_ref), black.player.player_ref);
    assert_eq!(table.arena.player_account_snapshot(&black.player).expect("plays").open_games, 1);
    assert_eq!(table.arena.history().last().expect("started").signer_names, ["white", "black"]);
}

#[test]
fn moves_are_refused_out_of_turn_and_off_the_rules() {
    let (mut table, white, black) = seated(0x21, 0x22);
    let before = books(&table);
    let e2e4 = MoveSpec::new(4, 1, 4, 3);
    let stranger = TxOrchestrator::new("stranger", 0x23);
    assert_eq!(table.submit_move(&stranger, e2e4).expect_err("no").0, "stranger missing player ref");
    assert_eq!(table.submit_move(&black, e2e4).expect_err("no").0, "it is not black's turn");
    assert_eq!(
        table.submit_move(&white, MoveSpec::new(4, 1, 4, 8)).expect_err("no").0,
        "move coordinates must stay on board"
    );
    assert_eq!(table.submit_move(&white, MoveSpec::new(4, 3, 4, 4)).expect_err("no").0, "no piece on source square");
    assert_eq!(
        table.submit_move(&white, MoveSpec::new(0, 0, 1, 1)).expect_err("no").0,
        "rook move must stay on file or rank"
    );
    assert_eq!(
        table.submit_move(&white, MoveSpec::new(3, 0, 4, 2)).expect_err("no").0,
        "queen move must be straight or diagonal"
    );
    assert_eq!(
        table.submit_move(&white, MoveSpec::new(4, 1, 4, 4)).expect_err("no").0,
        "Illegal move. Use Force Move to follow the broader protocol path."
    );
    for (kind, skipped, text) in [
        ("builder", 0, "initialize Argent builder: x"),
        ("utxo", 0, "build active Mux UTXO: x"),
        ("build", 0, "route Mux to move actor: x"),
        ("read", 0, "read routed move output: x"),
        ("move", 0, "x. Use Force Move to follow the broader protocol path."),
        ("build", 1, "apply failed: x"),
    ] {
        table.world.fail_after(kind, skipped, "x");
        assert_eq!(table.submit_move(&white, e2e4).expect_err("refused").0, text);
    }
    table.world.fail_after("move", 0, "x");
    assert_eq!(table.force_move(&white, e2e4).expect_err("refused").0, "x");
    let mut nameless = white.clone();
    nameless.player.player_id = None;
    assert_eq!(table.submit_move(&nameless, e2e4).expect_err("refused").0, "missing player id");
    assert_eq!(books(&table), before);
}

#[test]
fn a_player_of_another_game_may_not_move() {
    let (mut table, _white, _black) = seated(0x21, 0x22);
    let mut guest = TxOrchestrator::new("guest", 0x23);
    table.register(&mut guest).expect("registers");
    assert_eq!(
        table.submit_move(&guest, MoveSpec::new(4, 1, 4, 3)).expect_err("no").0,
        "guest is not part of the active game"
    );
    assert_eq!(table.claim_timeout(&guest).expect_err("no").0, "guest is not part of the active game");
}

#[test]
fn nothing_to_play_without_a_game() {
    let mut table = Table::new().expect("launches");
    let mut white = TxOrchestrator::new("white", 0x21);
    let mut black = TxOrchestrator::new("black", 0x22);
    table.register(&mut white).expect("registers");
    table.register(&mut black).expect("registers");
    let e2e4 = MoveSpec::new(4, 1, 4, 3);
    assert_eq!(table.submit_move(&white, e2e4).expect_err("no").0, "missing game");
    assert_eq!(table.challenge_castle(&white, e2e4).expect_err("no").0, "missing game");
    assert_eq!(table.surrender(&white).expect_err("no").0, "missing game");
    assert_eq!(table.claim_timeout(&white).expect_err("no").0, "missing active game or worker");
    assert_eq!(table.settle(&white, &black, GameResult::Draw).expect_err("no").0, "missing game");
    assert_eq!(
        white.request_settlement(&mut table.arena, &black, GameResult::Draw).expect_err("no").0,
        "missing game"
    );
}

#[test]
fn a_move_to_an_opponent_who_left_is_on_the_books_only() {
    let (mut table, white, black) = seated(0x21, 0x22);
    table.retire(&black).expect("black retires");
    let (records, txs, game) = books(&table);
    let refused = table.submit_move(&white, MoveSpec::new(4, 1, 4, 3)).expect_err("nobody to tell");
    assert_eq!(refused.0, "missing black owner");
    assert_eq!(books(&table), (records, txs + 2, game));
}

#[test]
fn draw_claims_and_offers_are_checked() {
    let (mut table, white, black) = seated(0x21, 0x22);
    assert_eq!(table.accept_draw(&white).expect_err("no").0, "no draw offer is available to accept");
    table.offer_draw(&white, MoveSpec::new(4, 1, 4, 3)).expect("offers");
    assert_eq!(
        table.claim_draw(&black).expect_err("no").0,
        "a draw claim requires a normal Mux state without a pending castle"
    );
    table.submit_move(&black, MoveSpec::new(4, 6, 4, 4)).expect("lets the offer lapse");
    assert_eq!(table.accept_draw(&white).expect_err("no").0, "no draw offer is available to accept");
    assert_eq!(table.surrender(&black).expect_err("no").0, "it is not black's turn");
    for (kind, text) in [
        ("builder", "initialize Argent builder: x"),
        ("utxo", "build active Mux UTXO: x"),
        ("build", "terminate game: x"),
    ] {
        table.world.fail_after(kind, 0, "x");
        assert_eq!(table.claim_draw(&white).expect_err("refused").0, text);
    }
    let arena = &mut table.arena;
    let player = &white.player;
    let refused = drive(&mut table.world, |replies| arena.terminate_game(player, 9, "other", replies));
    assert_eq!(refused.expect_err("refused").0, "unsupported termination action 9");
}

#[test]
fn an_unanswered_draw_claim_times_out_to_a_draw() {
    let (mut table, white, black) = seated(0x21, 0x22);
    table.claim_draw(&white).expect("claims");
    table.claim_timeout(&white).expect("times out");
    assert_eq!(table.arena.active_settle().expect("settles").status, DRAW);
    table.settle(&white, &black, GameResult::Draw).expect("draw");
    assert_eq!(table.arena.player_account_snapshot(&white.player).expect("stays").draws, 1);
}

#[test]
fn a_stalled_draw_claim_answer_tells_both_players() {
    let (mut table, white, black) = seated(0x21, 0x22);
    table.claim_draw(&white).expect("claims");
    table.inbox(&white);
    table.inbox(&black);
    let forced = table.force_move(&black, MoveSpec::new(4, 1, 4, 4)).expect("stays in the worker");
    assert_eq!(forced.len(), 1);
    for player in [&white, &black] {
        assert_eq!(
            table.inbox(player),
            [OffchainMessage {
                from: "black".to_string(),
                to: player.player.name.clone(),
                kind: OffchainMessageKind::TimeoutClaimAvailable {
                    result: GameResult::Draw,
                    worker: WorkerKind::Pawn,
                    move_label: "e2e5".to_string(),
                },
            }]
        );
    }
}

#[test]
fn surrender_loses_and_tells_nobody() {
    let (mut table, white, black) = seated(0x21, 0x22);
    table.inbox(&black);
    table.surrender(&white).expect("gives up");
    assert_eq!(table.arena.game().expect("ended").status, BWIN);
    assert!(table.inbox(&black).is_empty());
    assert_eq!(
        table.settle(&white, &black, GameResult::WhiteWin).expect_err("no").0,
        "terminal game status 2 does not match requested result 1"
    );
    white.request_settlement(&mut table.arena, &black, GameResult::BlackWin).expect("asks");
    assert_eq!(table.inbox(&black).len(), 1);
    assert_eq!(table.inbox(&white).len(), 2);
}

#[test]
fn settlement_requests_are_checked() {
    let (mut table, white, black) = seated(0x21, 0x22);
    let mut guest = TxOrchestrator::new("guest", 0x23);
    let draw = GameResult::Draw;
    assert_eq!(guest.request_settlement(&mut table.arena, &white, draw).expect_err("no").0, "guest is not registered");
    assert_eq!(white.request_settlement(&mut table.arena, &guest, draw).expect_err("no").0, "guest is not registered");
    table.register(&mut guest).expect("registers");
    assert_eq!(
        guest.request_settlement(&mut table.arena, &black, draw).expect_err("no").0,
        "missing white player in settlement request"
    );
    assert_eq!(
        guest.request_settlement(&mut table.arena, &white, draw).expect_err("no").0,
        "missing black player in settlement request"
    );
}

#[test]
fn timeouts_report_each_failure() {
    let (mut table, white, black) = seated(0x21, 0x22);
    for (kind, text) in [
        ("builder", "initialize Argent builder: x"),
        ("utxo", "build timed-out Mux UTXO: x"),
        ("build", "claim Mux timeout: x"),
    ] {
        table.world.fail_after(kind, 0, "x");
        assert_eq!(table.claim_timeout(&black).expect_err("refused").0, text);
    }
    table.change_game(|game| game.move_timeout = -1);
    assert_eq!(table.claim_timeout(&black).expect_err("refused").0, "move timeout cannot be negative");
    table.change_game(|game| game.move_timeout = 600);

    table.force_move(&white, MoveSpec::new(4, 1, 4, 4)).expect("stays in the worker");
    for (kind, text) in [
        ("builder", "initialize Argent builder: x"),
        ("utxo", "build timed-out worker UTXO: x"),
        ("build", "claim worker timeout: x"),
    ] {
        table.world.fail_after(kind, 0, "x");
        assert_eq!(table.claim_timeout(&black).expect_err("refused").0, text);
    }
    table.claim_timeout(&black).expect("claims");
    let record = table.arena.history().last().expect("recorded");
    assert_eq!(record.action, "worker_timeout");
    assert!(record.signer_names.is_empty());
    let claim = table.arena.transactions().last().expect("sent");
    assert_eq!(claim.inputs[0].sequence, 600);
}

#[test]
fn settlement_reports_each_failure() {
    let (mut table, white, black) = seated(0x21, 0x22);
    table.surrender(&white).expect("gives up");
    let sent = table.arena.transactions().len();
    let result = GameResult::BlackWin;
    for (kind, skipped, text) in [
        ("builder", 0, "initialize Argent builder: x"),
        ("utxo", 0, "build terminal Mux UTXO: x"),
        ("build", 0, "route terminal game to settlement: x"),
        ("read", 0, "read Settle output: x"),
    ] {
        table.world.fail_after(kind, skipped, "x");
        assert_eq!(table.settle(&white, &black, result).expect_err("refused").0, text);
        assert_eq!(table.arena.transactions().len(), sent);
    }
    for (place, (kind, skipped, text)) in [
        ("builder", 1, "initialize Argent builder: x"),
        ("utxo", 1, "build white settlement Player UTXO: x"),
        ("utxo", 2, "build black settlement Player UTXO: x"),
        ("build", 1, "settle game into players: x"),
    ]
    .into_iter()
    .enumerate()
    {
        table.world.fail_after(kind, skipped, "x");
        assert_eq!(table.settle(&white, &black, result).expect_err("refused").0, text);
        assert_eq!(table.arena.transactions().len(), sent + place + 1);
    }
    let stranger = TxOrchestrator::new("stranger", 0x23);
    assert_eq!(table.settle(&stranger, &black, result).expect_err("no").0, "missing white");
    assert_eq!(table.settle(&white, &stranger, result).expect_err("no").0, "missing black");
    let faceless = TxOrchestrator::new("white", 0x21);
    assert_eq!(table.settle(&faceless, &black, result).expect_err("no").0, "white missing player ref");
    let faceless = TxOrchestrator::new("black", 0x22);
    assert_eq!(table.settle(&white, &faceless, result).expect_err("no").0, "black missing player ref");
    assert!(table.arena.game().is_some());
}

#[test]
fn settlement_after_a_timeout_is_checked() {
    let (mut table, white, black) = seated(0x21, 0x22);
    table.claim_timeout(&black).expect("claims");
    assert_eq!(
        table.settle(&white, &black, GameResult::WhiteWin).expect_err("no").0,
        "active settle status 2 does not match requested result 1"
    );
    assert_eq!(
        table.settle(&black, &white, GameResult::BlackWin).expect_err("no").0,
        "active settle does not match provided players"
    );
    table.world.fail_after("utxo", 0, "x");
    assert_eq!(
        table.settle(&white, &black, GameResult::BlackWin).expect_err("no").0,
        "build active Settle UTXO: x"
    );
    let records = table.arena.history().len();
    table.settle(&white, &black, GameResult::BlackWin).expect("settles");
    assert_eq!(table.arena.history().len(), records + 1);
    let account = table.arena.player_account_snapshot(&black.player).expect("stays");
    assert_eq!((account.value, account.rating, account.wins), (2_000, 1_216, 1));
    let account = table.arena.player_account_snapshot(&white.player).expect("stays");
    assert_eq!((account.value, account.rating, account.losses), (1_000, 1_184, 1));
    assert_eq!(table.settle(&white, &black, GameResult::BlackWin).expect_err("no").0, "missing game");
}

#[test]
fn players_without_open_games_cannot_settle() {
    let (mut table, white, black) = seated(0x21, 0x22);
    table.surrender(&white).expect("gives up");
    let mut twin = TxOrchestrator::new("black", 0x22);
    table.register(&mut twin).expect("black registers anew");
    let refused = table.settle(&white, &black, GameResult::BlackWin).expect_err("no open game");
    assert_eq!(refused.0, "cannot settle players without open games");
}

#[test]
fn an_odd_stake_leaves_the_larger_half_to_black() {
    let (mut table, white, black) = seated(0x21, 0x22);
    table.offer_draw(&white, MoveSpec::new(4, 1, 4, 3)).expect("offers");
    table.accept_draw(&black).expect("accepts");
    let mut replies: Vec<Reply> = Vec::new();
    loop {
        match white.settle(&mut table.arena, &black, GameResult::Draw, &replies) {
            Ok(()) => break,
            Err(Halt::Refused(refusal)) => panic!("{}", refusal.0),
            Err(Halt::Need(Request::Build { plan })) => {
                for input in &plan.inputs {
                    if let PlannedInput::Actor { outpoint, utxo, .. } = input {
                        table.world.outputs.push((*outpoint, utxo.clone()));
                    }
                }
                let reply = table.world.build(plan);
                replies.push(reply);
            }
            Err(Halt::Need(request)) => {
                let mut reply = table.world.perform(request);
                if let Reply::Output(output) = &mut reply {
                    output.utxo.amount = 1_001;
                }
                replies.push(reply);
            }
        }
    }
    assert_eq!(table.arena.player_account_snapshot(&white.player).expect("stays").value, 1_500);
    assert_eq!(table.arena.player_account_snapshot(&black.player).expect("stays").value, 1_501);
}

#[test]
fn an_operation_waits_for_its_replies_and_changes_nothing() {
    let (mut table, white, black) = seated(0x21, 0x22);
    let before = books(&table);
    let replies: Vec<Reply> = Vec::new();
    assert!(matches!(
        white.submit_move(&mut table.arena, MoveSpec::new(4, 1, 4, 3), &replies),
        Err(Halt::Need(Request::StartBuilder))
    ));
    let wrong_kind: Vec<Reply> = vec![Reply::Uid(blake2b(b""))];
    assert!(matches!(
        black.claim_timeout(&mut table.arena, &wrong_kind),
        Err(Halt::Need(Request::StartBuilder))
    ));
    let started: Vec<Reply> = vec![Reply::Done];
    assert!(matches!(
        white.surrender(&mut table.arena, &started),
        Err(Halt::Need(Request::ActorUtxo { actor: "Mux", value: 1_000, .. }))
    ));
    assert_eq!(books(&table), before);
}

/// A table at which white has just castled on the king side.
fn castled(white_seed: u8, black_seed: u8) -> (Table, TxOrchestrator, TxOrchestrator) {
    let (mut table, white, black) = seated(white_seed, black_seed);
    table.submit_move(&white, MoveSpec::new(4, 1, 4, 3)).expect("white e2e4");
    table.submit_move(&black, MoveSpec::new(4, 6, 4, 4)).expect("black e7e5");
    table.submit_move(&white, MoveSpec::new(6, 0, 5, 2)).expect("white g1f3");
    table.submit_move(&black, MoveSpec::new(1, 7, 2, 5)).expect("black b8c6");
    table.submit_move(&white, MoveSpec::new(5, 0, 4, 1)).expect("white f1e2");
    table.submit_move(&black, MoveSpec::new(6, 7, 5, 5)).expect("black g8f6");
    table.submit_move(&white, MoveSpec::new(4, 0, 6, 0)).expect("white castles kingside");
    (table, white, black)
}

#[test]
fn challenges_report_each_failure() {
    let (mut table, _white, black) = castled(0x21, 0x22);
    let before = books(&table);
    let knight = MoveSpec::new(5, 5, 6, 0);
    for (kind, skipped, text) in [
        ("builder", 0, "initialize Argent builder: x"),
        ("utxo", 0, "build active Mux UTXO: x"),
        ("build", 0, "route Mux to move actor: x"),
        ("read", 0, "read routed move output: x"),
        ("build", 1, "castle challenge preparation failed: x"),
        ("read", 1, "read prepared challenge worker output: x"),
        ("move", 0, "x"),
        ("build", 2, "castle challenge apply failed: x"),
    ] {
        table.world.fail_after(kind, skipped, "x");
        assert_eq!(table.challenge_castle(&black, knight).expect_err("refused").0, text);
    }
    assert_eq!(
        table.challenge_castle(&black, MoveSpec::new(5, 5, 0, 0)).expect_err("no").0,
        "castle challenge destination is not on the castle lane"
    );
    assert_eq!(
        table.challenge_castle(&black, MoveSpec::new(4, 0, 4, 0)).expect_err("no").0,
        "castle challenge source and destination must differ"
    );
    assert_eq!(
        table.challenge_castle(&black, MoveSpec::new(0, 4, 6, 0)).expect_err("no").0,
        "no piece on source square"
    );
    assert_eq!(books(&table), before);
    table.submit_move(&black, MoveSpec::new(0, 6, 0, 5)).expect("black plays on");
}

#[test]
fn challenges_need_a_castle() {
    let (mut table, white, _black) = seated(0x21, 0x22);
    assert_eq!(
        table.challenge_castle(&white, MoveSpec::new(4, 1, 4, 3)).expect_err("no").0,
        "the previous move was not a castle"
    );
}

#[test]
fn a_forced_challenge_stays_where_it_failed() {
    for (kind, skipped, records, phase) in [
        ("build", 1, 1, "worker:CastleChallenge"),
        ("move", 0, 2, "worker:Knight"),
        ("build", 2, 2, "worker:Knight"),
    ] {
        let (mut table, white, black) = castled(0x21, 0x22);
        let (history, txs, _) = books(&table);
        table.inbox(&white);
        table.world.fail_after(kind, skipped, "x");
        let forced = table.force_castle_challenge(&black, MoveSpec::new(5, 5, 6, 0)).expect("stays in a worker");
        assert_eq!(forced.len(), records);
        let (history_after, txs_after, game) = books(&table);
        assert_eq!((history_after, txs_after), (history + records, txs + records));
        assert_eq!(game.expect("in a worker").phase, phase);
        assert_eq!(table.inbox(&white).len(), 1);
        table.claim_timeout(&white).expect("challenger ran out of time");
        assert_eq!(table.arena.active_settle().expect("settles").status, WWIN);
    }
    let (mut table, _white, black) = castled(0x21, 0x22);
    let off_lane = table.force_castle_challenge(&black, MoveSpec::new(5, 5, 0, 0)).expect("stays in preparation");
    assert_eq!(off_lane.len(), 1);
    assert_eq!(table.arena.active_game_snapshot().expect("in a worker").phase, "worker:CastleChallenge");
}

#[test]
fn operations_tell_whether_their_numbers_fit() {
    let (mut table, white, black) = seated(0x21, 0x22);
    let promotion = |piece| MoveSpec::with_promotion(4, 1, 4, 3, piece);
    let none: Vec<Reply> = Vec::new();
    let mut two: Vec<Reply> = Vec::new();
    while two.len() < 2 {
        match white.submit_move(&mut table.arena, promotion(0), &two) {
            Err(Halt::Need(request)) => {
                let reply = table.world.perform(request);
                two.push(reply);
            }
            _ => panic!("two replies are needed"),
        }
    }
    assert!(table.arena.move_in_range(&white.player, promotion(255), &two));
    assert!(!table.arena.move_in_range(&white.player, promotion(256), &two));
    assert!(!table.arena.move_in_range(&white.player, promotion(-1), &two));
    assert!(table.arena.move_in_range(&white.player, promotion(256), &none), "nothing is planned yet");
    assert!(table.arena.move_in_range(&black.player, promotion(256), &two), "black is refused anyway");
    let mut nameless = white.clone();
    nameless.player.player_id = None;
    assert!(table.arena.move_in_range(&nameless.player, promotion(256), &two), "there is no player id");
    assert_eq!(table.submit_move(&nameless, promotion(256)).expect_err("refused").0, "missing player id");
    table.world.fail_after("builder", 0, "x");
    assert_eq!(
        table.submit_move(&white, promotion(256)).expect_err("refused").0,
        "initialize Argent builder: x"
    );
    assert!(table.arena.challenge_in_range(&white.player, promotion(256), false, &two), "there is no castle");

    table.change_game(|game| game.recent_castle = 3);
    let fits = |mv, forced, replies| table.arena.challenge_in_range(&white.player, mv, forced, replies);
    assert!(fits(promotion(5), true, &two));
    assert!(!fits(promotion(256), true, &two));
    assert!(fits(promotion(256), true, &none));
    assert!(!fits(MoveSpec::new(0, 32, 0, 0), false, &two));
    assert!(!fits(MoveSpec::new(0, 0, -1, 0), false, &two));
    assert!(!fits(MoveSpec::new(0, i64::MAX, 0, 0), false, &none));
    assert!(fits(MoveSpec::new(-1, 1, 0, 0), true, &two));
    table.change_game(|game| game.recent_castle = CLEAR);

    table.surrender(&white).expect("gives up");
    let mut replies: Vec<Reply> = Vec::new();
    while replies.len() < 4 {
        match white.settle(&mut table.arena, &black, GameResult::BlackWin, &replies) {
            Err(Halt::Need(request)) => {
                let reply = table.world.perform(request);
                replies.push(reply);
            }
            _ => panic!("four replies are needed"),
        }
    }
    assert!(table.arena.settlement_in_range(&white.player, &black.player, GameResult::BlackWin, &replies));
    if let Reply::Output(output) = &mut replies[3] {
        output.utxo.amount = u64::MAX;
    }
    assert!(!table.arena.settlement_in_range(&white.player, &black.player, GameResult::BlackWin, &replies));
    replies.pop();
    assert!(table.arena.settlement_in_range(&white.player, &black.player, GameResult::BlackWin, &replies));
}

#[test]
fn a_forced_challenge_needs_a_label_only_where_it_is_told() {
    let (mut table, white, black) = castled(0x21, 0x22);
    let unlabelled = MoveSpec::new(-1, 1, 6, 0);
    let mut replies: Vec<Reply> = Vec::new();
    while replies.len() < 4 {
        assert!(table.arena.challenge_in_range(&black.player, unlabelled, true, &replies));
        match black.force_castle_challenge(&mut table.arena, unlabelled, &replies) {
            Err(Halt::Need(request)) => {
                let reply = table.world.perform(request);
                replies.push(reply);
            }
            _ => panic!("four replies are needed"),
        }
    }
    assert!(!table.arena.challenge_in_range(&black.player, unlabelled, true, &replies));
    assert!(table.arena.challenge_in_range(&black.player, unlabelled, false, &replies));
    assert_eq!(
        table.challenge_castle(&black, unlabelled).expect_err("off board").0,
        "move coordinates must stay on board"
    );
    table.retire(&white).expect("white leaves");
    assert!(table.arena.challenge_in_range(&black.player, unlabelled, true, &replies));
    let refused = table.force_castle_challenge(&black, unlabelled).expect_err("nobody to tell");
    assert_eq!(refused.0, "missing player owner");
}

#[test]
fn every_newcomer_enters_at_the_base_rating() {
    let (mut table, white, black) = seated(0x21, 0x22);
    table.surrender(&white).expect("gives up");
    table.settle(&white, &black, GameResult::BlackWin).expect("settles");
    let mut late = TxOrchestrator::new("late", 0x23);
    table.register(&mut late).expect("registers");
    assert_eq!(table.arena.player_account_snapshot(&late.player).expect("in the league").rating, 1_200);
}

#[test]
fn only_proper_positions_are_set_up() {
    let (mut table, white, _black) = seated(0x21, 0x22);
    let before = books(&table);
    let mut game = table.arena.game().expect("in progress").clone();
    game.turn = 2;
    assert!(!table.arena.set_up_position(game));
    assert_eq!(books(&table), before);
    assert!(table.arena.start_in_range(&white.player, &white.player));
    let game = table.arena.game().expect("in progress").clone();
    let mut idle = Table::new().expect("launches");
    assert!(!idle.arena.set_up_position(game));
    assert!(idle.arena.game().is_none());
}

#[test]
fn a_forced_challenge_under_a_draw_claim_times_out_to_a_draw() {
    for (draw_state, status) in [(CLAIMED, DRAW), (DEFENSE, WWIN), (NORMAL, WWIN)] {
        let (mut table, white, black) = castled(0x21, 0x22);
        table.change_game(|game| game.draw_state = draw_state);
        let at = table.arena.history().last().expect("castled").output_outpoints[0];
        let script = encode("Mux", &game_source_state(table.arena.game().expect("in progress")));
        for (outpoint, held) in table.world.outputs.iter_mut() {
            if *outpoint == at {
                held.script = script.clone();
            }
        }
        table.world.fail_after("build", 1, "x");
        let forced = table.force_castle_challenge(&black, MoveSpec::new(5, 5, 6, 0)).expect("stays in a worker");
        assert_eq!(forced.len(), 1);
        table.world.failures.clear();
        table.claim_timeout(&white).expect("challenger ran out of time");
        assert_eq!(table.arena.active_settle().expect("settles").status, status);
    }
}
