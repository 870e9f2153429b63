use chess_covenant::chain::{signature_digest, ChainTx, CovenantBinding, Outpoint, TxInput, TxOutput, Unspent};
use chess_covenant::dialogue::{is_answer, MovedPosition, Reply, Request};
use chess_covenant::error::OrchestratorError;
use chess_covenant::game::{
    apply_move_to_state, apply_worker_state, castle_challenge_proof_state, pending_state_for_move, player_side,
    GameStateData,
};
use chess_covenant::hash::{blake2b, hash_pair, player_ref_hash, Hash32};
use chess_covenant::messages::{deliver, drain, OffchainMessage, OffchainMessageKind};
use chess_covenant::moves::{
    determine_challenge_worker, determine_worker, file_char, rank_char, square_idx, standard_board, worker_actor,
    MoveSpec, WorkerKind,
};
use chess_covenant::names::{name_less, NameMap};
use chess_covenant::rating::{approx_expected_score, approx_updated_rating, rating_update_in_range};
use chess_covenant::signing::{sign_builder_input, Keypair, SigningPlayer};
use chess_covenant::status::{
    result_from_status, side_from_turn, status_from_result, timeout_sequence, timeout_status, GameResult, Side, BWIN,
    CLAIMED, CLEAR, DEFENSE, DRAW, LIVE, NORMAL, OFFER, WOFFER, WWIN,
};
use chess_covenant::text::{decimal_text, signed_decimal_text};
use kaspa_consensus_core::hashing::sighash::{calc_schnorr_signature_hash, SigHashReusedValuesUnsync};
use kaspa_consensus_core::hashing::sighash_type::SIG_HASH_ALL;
use kaspa_consensus_core::tx as kaspa;

const OFFBOARD: i64 = 64;

fn hex(bytes: &[u8]) -> String {
    bytes.iter().map(|b| format!("{b:02x}")).collect()
}

#[test]
fn blake2b_gives_known_digests() {
    assert_eq!(hex(&blake2b(b"").bytes), "0e5751c026e543b2e8ab2eb06099daa1d1e5df47778f7787faab45cdf12fe3a8");
    assert_eq!(hex(&blake2b(b"abc").bytes), "bddd813c634239723171ef3fee98579b94964e3bb1cb3e427262c8c068d52319");
}

#[test]
fn pairs_are_hashed_as_one_string() {
    let left = Hash32 { bytes: [1; 32] };
    let right = Hash32 { bytes: [2; 32] };
    let mut joined = vec![1u8; 32];
    joined.extend_from_slice(&[2; 32]);
    assert_eq!(hash_pair(left, right), blake2b(&joined));
    assert_eq!(player_ref_hash(left, right), hash_pair(left, right));
    assert_ne!(hash_pair(left, right), hash_pair(right, left));
}

#[test]
fn seeds_give_known_public_keys() {
    let player = SigningPlayer::from_seed("one", 1);
    assert_eq!(player.name, "one");
    assert_eq!(hex(&player.pubkey_bytes), "1b84c5567b126440995d3ed5aaba0565d71e1834604819ff9c17f5e9d5dd078f");
    assert_eq!(player.owner_hash, blake2b(&player.pubkey_bytes));
    assert_eq!((player.player_id, player.player_ref), (None, None));
}

fn sample_tx() -> ChainTx {
    ChainTx {
        version: 1,
        inputs: vec![
            TxInput {
                previous_outpoint: Outpoint { transaction_id: Hash32 { bytes: [7; 32] }, index: 3 },
                signature_script: vec![1, 2, 3],
                sequence: 600,
                compute_commit: kaspa::ComputeCommit::ComputeBudget(9.into()),
            },
            TxInput {
                previous_outpoint: Outpoint { transaction_id: Hash32 { bytes: [8; 32] }, index: 0 },
                signature_script: Vec::new(),
                sequence: 0,
                compute_commit: kaspa::ComputeCommit::ComputeBudget(0.into()),
            },
        ],
        outputs: vec![
            TxOutput {
                value: 1_000,
                script_version: 0,
                script: vec![0x51],
                covenant: Some(CovenantBinding { authorizing_input: 1, covenant_id: Hash32 { bytes: [9; 32] } }),
            },
            TxOutput { value: 5, script_version: 2, script: vec![0x52, 0x53], covenant: None },
        ],
        lock_time: 11,
        subnetwork_id: [0; 20],
        gas: 0,
        payload: vec![4, 5],
        storage_mass: 12,
    }
}

fn sample_entries() -> Vec<Unspent> {
    vec![
        Unspent {
            amount: 900,
            script_version: 0,
            script: vec![0x54],
            block_daa_score: 1,
            is_coinbase: false,
            covenant_id: Some(Hash32 { bytes: [9; 32] }),
        },
        Unspent {
            amount: 105,
            script_version: 1,
            script: vec![0x55],
            block_daa_score: 2,
            is_coinbase: true,
            covenant_id: None,
        },
    ]
}

fn outside_tx() -> kaspa::Transaction {
    kaspa::Transaction::new_with_mass(
        1,
        vec![
            kaspa::TransactionInput::new_with_mass(
                kaspa::TransactionOutpoint::new([7; 32].into(), 3),
                vec![1, 2, 3],
                600,
                kaspa::ComputeCommit::ComputeBudget(9.into()),
            ),
            kaspa::TransactionInput::new_with_mass(
                kaspa::TransactionOutpoint::new([8; 32].into(), 0),
                vec![],
                0,
                kaspa::ComputeCommit::ComputeBudget(0.into()),
            ),
        ],
        vec![
            kaspa::TransactionOutput::with_covenant(
                1_000,
                kaspa::ScriptPublicKey::from_vec(0, vec![0x51]),
                Some(kaspa::CovenantBinding::new(1, [9; 32].into())),
            ),
            kaspa::TransactionOutput::with_covenant(5, kaspa::ScriptPublicKey::from_vec(2, vec![0x52, 0x53]), None),
        ],
        11,
        [0; 20].into(),
        0,
        vec![4, 5],
        12,
    )
}

#[test]
fn transaction_ids_are_those_of_the_chain() {
    let tx = sample_tx();
    assert_eq!(tx.id().bytes, outside_tx().id().as_bytes());
    assert_eq!(tx.outpoint(7), Outpoint { transaction_id: tx.id(), index: 7 });
    let mut other = tx.clone();
    other.lock_time = 12;
    assert_ne!(other.id(), tx.id());
}

#[test]
fn digests_are_those_of_the_chain() {
    let outside = outside_tx();
    let entries = vec![
        kaspa::UtxoEntry::new(900, kaspa::ScriptPublicKey::from_vec(0, vec![0x54]), 1, false, Some([9; 32].into())),
        kaspa::UtxoEntry::new(105, kaspa::ScriptPublicKey::from_vec(1, vec![0x55]), 2, true, None),
    ];
    let populated = kaspa::PopulatedTransaction::new(&outside, entries);
    for index in [0usize, 1] {
        let expected =
            calc_schnorr_signature_hash(&populated, index, SIG_HASH_ALL, &SigHashReusedValuesUnsync::new()).as_bytes();
        assert_eq!(signature_digest(&sample_tx(), &sample_entries(), index), expected);
    }
}

#[test]
fn signatures_verify_and_carry_the_hash_type() {
    let player = SigningPlayer::from_seed("white", 0x31);
    let (tx, entries) = (sample_tx(), sample_entries());
    let encoded = sign_builder_input(&tx, &entries, 1, &Keypair::from_seed(0x31));
    assert_eq!(encoded.len(), 65);
    assert_eq!(encoded[64], SIG_HASH_ALL.to_u8());
    let digest = signature_digest(&tx, &entries, 1);
    let signature = secp256k1::schnorr::Signature::from_slice(&encoded[..64]).expect("64 bytes");
    let key = secp256k1::XOnlyPublicKey::from_slice(&player.pubkey_bytes).expect("a key");
    let message = secp256k1::Message::from_digest(digest);
    assert!(signature.verify(&message, &key).is_ok());
    let other = secp256k1::Message::from_digest(signature_digest(&tx, &entries, 0));
    assert!(signature.verify(&other, &key).is_err());
}

#[test]
fn expected_scores_step_with_the_distance() {
    for (diff, score) in [
        (0, 500),
        (-1, 500),
        (1, 500),
        (-74, 500),
        (-75, 600),
        (75, 400),
        (-150, 700),
        (150, 300),
        (-250, 820),
        (250, 180),
        (-400, 910),
        (400, 90),
        (-600, 970),
        (600, 30),
        (-800, 990),
        (800, 10),
        (i64::MAX, 10),
        (-i64::MAX, 990),
    ] {
        assert_eq!(approx_expected_score(diff), score, "difference {diff}");
    }
}

#[test]
fn ratings_follow_the_formula() {
    assert_eq!(approx_updated_rating(1200, 1200, 1000), 1216);
    assert_eq!(approx_updated_rating(1200, 1200, 500), 1200);
    assert_eq!(approx_updated_rating(1200, 1200, 0), 1184);
    assert_eq!(approx_updated_rating(1200, 1400, 1000), 1222);
    assert_eq!(approx_updated_rating(1400, 1200, 0), 1378);
    assert_eq!(approx_updated_rating(1400, 1200, 500), 1394);
    assert_eq!(approx_updated_rating(1200, 2100, 1000), 1231);
    assert_eq!(approx_updated_rating(2100, 1200, 0), 2069);
    assert_eq!(
        approx_updated_rating(1300, 1100, 1000) + approx_updated_rating(1100, 1300, 0),
        1300 + 1100
    );
}

#[test]
fn statuses_and_results_match() {
    for (result, status) in [(GameResult::WhiteWin, 1), (GameResult::BlackWin, 2), (GameResult::Draw, 3)] {
        assert_eq!(status_from_result(result), status);
        assert_eq!(result_from_status(status), Ok(result));
    }
    assert_eq!(result_from_status(0), Err(OrchestratorError("status 0 is not terminal".to_string())));
    assert_eq!(result_from_status(-4), Err(OrchestratorError("status -4 is not terminal".to_string())));
    assert_eq!(result_from_status(4).expect_err("no").to_string(), "status 4 is not terminal");
    assert_eq!(side_from_turn(0), Side::White);
    assert_eq!(side_from_turn(1), Side::Black);
    assert_eq!(timeout_status(0, NORMAL), BWIN);
    assert_eq!(timeout_status(1, NORMAL), WWIN);
    assert_eq!(timeout_status(0, CLAIMED), DRAW);
    assert_eq!(timeout_status(1, DEFENSE), WWIN);
    assert_eq!(timeout_sequence(600), Ok(600));
    assert_eq!(timeout_sequence(-1).expect_err("no").0, "move timeout cannot be negative");
}

#[test]
fn numbers_are_written_in_decimal() {
    assert_eq!(decimal_text(0), "0");
    assert_eq!(decimal_text(u64::MAX), "18446744073709551615");
    assert_eq!(signed_decimal_text(-120), "-120");
    assert_eq!(signed_decimal_text(i64::MIN), "-9223372036854775808");
}

#[test]
fn squares_and_labels() {
    assert_eq!(square_idx(0, 0), 0);
    assert_eq!(square_idx(4, 1), 12);
    assert_eq!(square_idx(7, 7), 63);
    assert_eq!((file_char(7), rank_char(7)), ('h', '8'));
    assert_eq!(MoveSpec::new(4, 1, 4, 3).label(), "e2e4");
    assert_eq!(MoveSpec::with_promotion(0, 6, 1, 7, 5).label(), "a7b8");
    assert_eq!(MoveSpec::with_promotion(0, 6, 1, 7, 5).promo_piece, 5);
}

#[test]
fn workers_follow_the_piece() {
    let mut board = vec![0u8; 64];
    board[9] = 1;
    board[10] = 2 + 8;
    board[11] = 3;
    board[12] = 4;
    board[13] = 5 + 8;
    board[14] = 6;
    board[15] = 7;
    let at = |x, tx, ty| determine_worker(&board, MoveSpec::new(x, 1, tx, ty));
    assert_eq!(at(1, 1, 2), Ok(WorkerKind::Pawn));
    assert_eq!(at(2, 3, 3), Ok(WorkerKind::Knight));
    assert_eq!(at(3, 5, 3), Ok(WorkerKind::Diag));
    assert_eq!(at(4, 4, 7), Ok(WorkerKind::Vert));
    assert_eq!(at(4, 7, 1), Ok(WorkerKind::Horiz));
    assert_eq!(at(4, 5, 2).expect_err("no").0, "rook move must stay on file or rank");
    assert_eq!(at(5, 5, 7), Ok(WorkerKind::Vert));
    assert_eq!(at(5, 0, 1), Ok(WorkerKind::Horiz));
    assert_eq!(at(5, 7, 3), Ok(WorkerKind::Diag));
    assert_eq!(at(5, 6, 3).expect_err("no").0, "queen move must be straight or diagonal");
    assert_eq!(at(6, 6, 2), Ok(WorkerKind::King));
    assert_eq!(at(6, 4, 1), Ok(WorkerKind::Castle));
    assert_eq!(at(7, 7, 2).expect_err("no").0, "unknown piece kind");
    assert_eq!(at(0, 0, 2).expect_err("no").0, "no piece on source square");
    assert_eq!(at(8, 0, 2).expect_err("no").0, "move coordinates must stay on board");
    assert_eq!(determine_challenge_worker(&board, MoveSpec::new(6, 1, 4, 1)), Ok(WorkerKind::King));
    assert_eq!(determine_challenge_worker(&board, MoveSpec::new(2, 1, 3, 3)), Ok(WorkerKind::Knight));
    assert_eq!(worker_actor(WorkerKind::Vert), "Vert");
    assert_eq!(worker_actor(WorkerKind::CastleChallenge), "CastleChallengePrep");
}

fn game(board: Vec<u8>) -> GameStateData {
    GameStateData {
        white_player: Hash32 { bytes: [1; 32] },
        black_player: Hash32 { bytes: [2; 32] },
        board,
        turn: 0,
        status: LIVE,
        move_timeout: 600,
        castle_rights: [1, 1, 1, 1],
        en_passant_idx: OFFBOARD,
        pending_src_idx: OFFBOARD,
        pending_dst_idx: OFFBOARD,
        pending_promo: 0,
        recent_castle: CLEAR,
        draw_state: NORMAL,
        move_log: Vec::new(),
    }
}

fn position() -> MovedPosition {
    MovedPosition { board: [3; 64], castle_rights: [9; 4], en_passant_idx: 20, recent_castle: 0 }
}

#[test]
fn sides_follow_the_player_reference() {
    let state = game(standard_board());
    let mut player = SigningPlayer::from_seed("white", 1);
    assert_eq!(player_side(&player, &state).expect_err("no").0, "white missing player ref");
    player.player_ref = Some(state.white_player);
    assert_eq!(player_side(&player, &state), Ok(Side::White));
    player.player_ref = Some(state.black_player);
    assert_eq!(player_side(&player, &state), Ok(Side::Black));
    player.player_ref = Some(Hash32 { bytes: [3; 32] });
    assert_eq!(player_side(&player, &state).expect_err("no").0, "white is not part of the active game");
}

#[test]
fn pending_moves_make_or_drop_offers() {
    let mut state = game(standard_board());
    state.turn = 1;
    state.recent_castle = 2;
    state.draw_state = WOFFER;
    let mv = MoveSpec::with_promotion(4, 6, 4, 4, 13);
    let plain = pending_state_for_move(&state, mv, CLEAR);
    assert_eq!((plain.pending_src_idx, plain.pending_dst_idx, plain.pending_promo), (52, 36, 13));
    assert_eq!((plain.recent_castle, plain.draw_state, plain.turn), (0, NORMAL, 1));
    assert_eq!(pending_state_for_move(&state, mv, OFFER).draw_state, 5);
    state.draw_state = CLAIMED;
    assert_eq!(pending_state_for_move(&state, mv, CLEAR).draw_state, CLAIMED);
}

#[test]
fn moves_pass_the_turn_and_take_the_position() {
    let state = game(standard_board());
    let next = apply_move_to_state(&state, MoveSpec::new(4, 1, 4, 3), &position(), OFFBOARD);
    assert_eq!(next.board, vec![3u8; 64]);
    assert_eq!((next.turn, next.status, next.draw_state), (1, LIVE, NORMAL));
    assert_eq!(next.castle_rights, [9; 4]);
    assert_eq!((next.en_passant_idx, next.pending_src_idx, next.pending_dst_idx), (20, OFFBOARD, OFFBOARD));
    assert_eq!(next.move_log, ["e2e4"]);
}

#[test]
fn workers_take_castling_rights() {
    let mut board = vec![0u8; 64];
    board[4] = 6;
    board[60] = 14;
    board[0] = 4;
    let state = game(board);
    let rights = |worker, mv| apply_worker_state(worker, &state, mv, &position(), OFFBOARD).expect("applies").castle_rights;
    assert_eq!(rights(WorkerKind::King, MoveSpec::new(4, 0, 4, 1)), [0, 0, 1, 1]);
    assert_eq!(rights(WorkerKind::Castle, MoveSpec::new(4, 7, 6, 7)), [1, 1, 0, 0]);
    assert_eq!(rights(WorkerKind::Vert, MoveSpec::new(0, 0, 0, 7)), [1, 0, 1, 0]);
    assert_eq!(rights(WorkerKind::Horiz, MoveSpec::new(6, 0, 7, 0)), [0, 1, 1, 1]);
    assert_eq!(rights(WorkerKind::Vert, MoveSpec::new(7, 5, 7, 7)), [1, 1, 0, 1]);
    assert_eq!(rights(WorkerKind::Diag, MoveSpec::new(0, 0, 7, 7)), [1, 1, 1, 1]);
    let refused = apply_worker_state(
        WorkerKind::CastleChallenge,
        &state,
        MoveSpec::new(4, 0, 4, 1),
        &position(),
        OFFBOARD,
    );
    match refused {
        Err(refusal) => assert_eq!(refusal.0, "castle challenge apply is not modeled as a direct player move"),
        Ok(_) => panic!("a preparation applies no move"),
    }
}

fn status_and_draw(state: &GameStateData, mv: MoveSpec) -> (i64, i64) {
    let next = apply_worker_state(WorkerKind::Knight, state, mv, &position(), OFFBOARD).expect("applies");
    (next.status, next.draw_state)
}

#[test]
fn captured_kings_and_failed_defenses_decide() {
    let mut board = vec![0u8; 64];
    board[0] = 2;
    board[1] = 10;
    board[8] = 6;
    board[9] = 14;
    let mut state = game(board);
    let white_takes_black_king = MoveSpec::new(0, 0, 1, 1);
    let black_takes_white_king = MoveSpec::new(1, 0, 0, 1);
    let quiet = MoveSpec::new(0, 0, 5, 5);
    assert_eq!(status_and_draw(&state, white_takes_black_king), (WWIN, NORMAL));
    assert_eq!(status_and_draw(&state, black_takes_white_king), (BWIN, NORMAL));
    assert_eq!(status_and_draw(&state, quiet), (LIVE, NORMAL));

    state.recent_castle = 1;
    assert_eq!(status_and_draw(&state, quiet), (WWIN, NORMAL));
    state.turn = 1;
    assert_eq!(status_and_draw(&state, quiet), (BWIN, NORMAL));
    state.recent_castle = CLEAR;

    state.draw_state = CLAIMED;
    assert_eq!(status_and_draw(&state, white_takes_black_king), (BWIN, DEFENSE));
    assert_eq!(status_and_draw(&state, black_takes_white_king), (LIVE, DEFENSE));
    assert_eq!(status_and_draw(&state, quiet), (LIVE, DEFENSE));

    state.draw_state = DEFENSE;
    state.turn = 0;
    assert_eq!(status_and_draw(&state, black_takes_white_king), (WWIN, DEFENSE));
    assert_eq!(status_and_draw(&state, quiet), (BWIN, DEFENSE));
}

fn challenged(board: Vec<u8>, marker: i64, src: i64, dst: i64) -> GameStateData {
    let mut state = game(board);
    state.recent_castle = marker;
    state.pending_src_idx = src;
    state.pending_dst_idx = dst;
    state
}

#[test]
fn proofs_put_king_and_rook_back() {
    let mut board = vec![0u8; 64];
    board[5] = 4;
    board[6] = 6;
    board[58] = 14;
    board[59] = 12;
    board[57] = 10;
    let proof = |marker, dst| {
        castle_challenge_proof_state(&challenged(board.clone(), marker, 30, dst), OFFBOARD).expect("on the lane").board
    };
    assert_eq!(proof(1, 4)[4..8], [6, 0, 0, 4]);
    assert_eq!(proof(1, 5)[4..8], [0, 6, 0, 4]);
    assert_eq!(proof(1, 6)[4..8], [0, 4, 6, 0]);
    assert_eq!(proof(2, 4)[0..5], [4, 0, 0, 0, 6]);
    assert_eq!(proof(2, 3)[0..5], [4, 0, 0, 6, 0]);
    assert_eq!(proof(2, 2)[0..5], [0, 0, 6, 4, 0]);
    assert_eq!(proof(3, 60)[60..64], [14, 0, 0, 12]);
    assert_eq!(proof(4, 60)[56..61], [12, 10, 0, 0, 14]);
    assert_eq!(proof(4, 59)[56..61], [12, 10, 0, 14, 0]);
    assert_eq!(proof(4, 58)[56..61], [0, 10, 14, 12, 0]);
    let state = castle_challenge_proof_state(&challenged(board.clone(), 1, 30, 4), OFFBOARD).expect("on the lane");
    assert_eq!((state.en_passant_idx, state.pending_promo, state.recent_castle), (OFFBOARD, CLEAR, 1));
}

#[test]
fn proofs_are_refused_for_a_reason() {
    let refusal = |state: &GameStateData| match castle_challenge_proof_state(state, OFFBOARD) {
        Err(refusal) => refusal.0,
        Ok(_) => panic!("refused"),
    };
    let board = vec![0u8; 64];
    assert_eq!(
        refusal(&challenged(vec![0u8; 63], 1, 30, 4)),
        "board must contain exactly 64 squares, got 63"
    );
    let mut claimed = challenged(board.clone(), 1, 30, 4);
    claimed.draw_state = CLAIMED;
    assert_eq!(refusal(&claimed), "a castle challenge requires the normal draw state");
    assert_eq!(refusal(&challenged(board.clone(), 5, 30, 4)), "castle challenge marker must be between 1 and 4");
    assert_eq!(refusal(&challenged(board.clone(), 0, 30, 4)), "castle challenge marker must be between 1 and 4");
    assert_eq!(refusal(&challenged(board.clone(), 1, 4, 4)), "castle challenge source and destination must differ");
    assert_eq!(
        refusal(&challenged(board, 1, 30, 7)),
        "castle challenge destination is not on the castle lane"
    );
}

#[test]
fn names_are_ordered_by_their_bytes() {
    assert!(name_less("", "a"));
    assert!(name_less("Z", "a"));
    assert!(name_less("ab", "abc"));
    assert!(!name_less("abc", "abc"));
    assert!(name_less("z", "\u{e9}"));
    let mut map: NameMap<u8> = NameMap::new();
    for (name, value) in [("m", 1), ("z", 2), ("a", 3), ("m", 4)] {
        map.insert(name.to_string(), value);
    }
    let entries: Vec<(&str, u8)> = map.entries.iter().map(|(name, value)| (name.as_str(), *value)).collect();
    assert_eq!(entries, [("a", 3), ("m", 4), ("z", 2)]);
    assert_eq!(map.remove(&"m".to_string()), Some(4));
    assert_eq!(map.get(&"m".to_string()), None);
    assert_eq!(map.get(&"z".to_string()), Some(&2));
}

#[test]
fn mailboxes_keep_order_and_apart() {
    let note = |to: &str, actor: &str| OffchainMessage {
        from: "arena".to_string(),
        to: to.to_string(),
        kind: OffchainMessageKind::DrawOffered { actor: actor.to_string() },
    };
    let mut boxes: NameMap<Vec<OffchainMessage>> = NameMap::new();
    deliver(&mut boxes, note("white", "first"));
    deliver(&mut boxes, note("black", "other"));
    deliver(&mut boxes, note("white", "second"));
    assert_eq!(drain(&mut boxes, &"white".to_string()), [note("white", "first"), note("white", "second")]);
    assert!(drain(&mut boxes, &"white".to_string()).is_empty());
    assert_eq!(drain(&mut boxes, &"black".to_string()), [note("black", "other")]);
}

#[test]
fn rating_updates_are_tested_against_the_machine_range() {
    assert!(rating_update_in_range(1200, 1200, 1000));
    assert!(!rating_update_in_range(i64::MIN, i64::MAX, 0));
    assert!(!rating_update_in_range(1, i64::MIN, 1000));
    assert!(!rating_update_in_range(i64::MAX, i64::MAX, 1000));
    assert!(rating_update_in_range(i64::MAX, i64::MAX, 0));
    assert!(!rating_update_in_range(i64::MIN, i64::MIN, 0));
}

#[test]
fn labels_need_letters() {
    assert!(MoveSpec::new(4, 1, 4, 3).has_letters());
    assert!(MoveSpec::new(158, 206, 0, 0).has_letters());
    assert!(!MoveSpec::new(159, 0, 0, 0).has_letters());
    assert!(!MoveSpec::new(0, 0, 0, -1).has_letters());
    assert!(MoveSpec::new(256, 0, 0, 512).has_letters());
}

#[test]
fn proper_states_are_told_apart() {
    let proper = |change: fn(&mut GameStateData)| {
        let mut state = game(standard_board());
        change(&mut state);
        state.is_proper()
    };
    assert!(proper(|_| {}));
    assert!(!proper(|state| state.board = vec![0; 63]));
    assert!(!proper(|state| state.turn = 2));
    assert!(!proper(|state| state.status = 4));
    assert!(!proper(|state| state.draw_state = 0));
    assert!(!proper(|state| state.draw_state = 6));
    assert!(!proper(|state| state.recent_castle = 256));
    assert!(!proper(|state| state.pending_promo = -1));
}

#[test]
fn workers_look_only_at_the_squares_they_need() {
    let mut state = game(standard_board());
    state.turn = 7;
    let off_board = MoveSpec::new(0, 20, 0, 0);
    state.recent_castle = 1;
    let next = apply_worker_state(WorkerKind::Knight, &state, off_board, &position(), OFFBOARD).expect("applies");
    assert_eq!((next.turn, next.status), (-6, BWIN));
    let castle = MoveSpec::new(4, 0, 0, 20);
    let next = apply_worker_state(WorkerKind::Castle, &state, castle, &position(), OFFBOARD).expect("applies");
    assert_eq!(next.castle_rights, [0, 0, 1, 1]);
}

#[test]
fn replies_are_told_apart_by_kind() {
    let uid = Request::InvocationUid {
        outpoint: Outpoint { transaction_id: Hash32 { bytes: [1; 32] }, index: 0 },
        tag: "tag",
    };
    assert!(is_answer(&uid, &Reply::Uid(Hash32 { bytes: [2; 32] })));
    assert!(is_answer(&uid, &Reply::Failed("x".to_string())));
    assert!(!is_answer(&uid, &Reply::Done));
    assert!(is_answer(&Request::StartBuilder, &Reply::Done));
    assert!(!is_answer(&Request::StartBuilder, &Reply::Uid(Hash32 { bytes: [2; 32] })));
    assert!(!is_answer(&Request::LoadArtifact, &Reply::Moved(position())));
}
