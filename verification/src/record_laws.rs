//! What is written down: numerals, states, records, messages, signatures, and the order of names.

use vstd::prelude::*;

use crate::arena::{self, ActualGameSnapshot, ArenaView, PlayerAccount};
use crate::chain::{self, ChainTxView, CovenantBinding, Outpoint, UnspentView};
use crate::game::{self, GameView, PlayerStateData};
use crate::hash::{self, Hash32};
use crate::messages::{self, MessageKindView};
use crate::moves::WorkerKind;
use crate::names;
use crate::plan::{
    self, EntryArgView, EntryCallView, FieldView, PlannedInputView, PlannedOutputView, StateView, TxPlanView,
};
use crate::signing::{self, SignerView};
use crate::status::Side;
use crate::text;

verus! {

/// The number that a string of digits writes.
pub open spec fn reads_as(digits: Seq<char>) -> int
    decreases digits.len(),
{
    if digits.len() == 0 {
        0
    } else {
        reads_as(digits.drop_last()) * 10 + (digits.last() as int - '0' as int)
    }
}

/// Numerals read as their number, are made of the ten digits, and start with zero for zero only.
pub proof fn numerals_read_as_their_number(n: nat)
    ensures
        ({
            let digits = text::decimal(n);
            &&& digits.len() > 0
            &&& reads_as(digits) == n
            &&& forall|i: int| 0 <= i < digits.len() ==> '0' <= #[trigger] digits[i] <= '9'
            &&& digits[0] == '0' <==> n == 0
        }),
    decreases n,
{
    let digits = text::decimal(n);
    if n < 10 {
        assert(digits.drop_last() =~= Seq::<char>::empty());
        assert(reads_as(digits.drop_last()) == 0);
    } else {
        numerals_read_as_their_number(n / 10);
        let head = text::decimal(n / 10);
        assert(digits.drop_last() =~= head);
        assert(digits[0] == head[0]);
    }
}

/// A negative number is written with a minus sign before its amount, any other without.
pub proof fn signs_stand_before_negative_numbers(n: int)
    ensures
        n >= 0 ==> text::signed_decimal(n) == text::decimal(n as nat),
        n < 0 ==> text::signed_decimal(n)[0] == '-' && text::signed_decimal(n).skip(1) == text::decimal(
            (-n) as nat,
        ),
{
    if n < 0 {
        assert(text::signed_decimal(n).skip(1) =~= text::decimal((-n) as nat));
    }
}

/// Whether two byte strings agree up to a place at which the first ends, or has the smaller byte.
pub open spec fn first_is_smaller_at(a: Seq<u8>, b: Seq<u8>, place: int) -> bool {
    &&& 0 <= place <= a.len()
    &&& place < b.len()
    &&& forall|i: int| 0 <= i < place ==> a[i] == b[i]
    &&& place == a.len() || a[place] < b[place]
}

/// Byte strings are ordered by the first byte in which they differ, and a prefix comes first.
pub proof fn byte_strings_are_ordered_by_the_first_difference(a: Seq<u8>, b: Seq<u8>)
    ensures
        names::bytes_lt(a, b) <==> exists|place: int| first_is_smaller_at(a, b, place),
    decreases a.len(),
{
    if a.len() == 0 || b.len() == 0 {
        if b.len() > 0 {
            assert(first_is_smaller_at(a, b, 0));
        }
    } else {
        let (ta, tb) = (a.skip(1), b.skip(1));
        byte_strings_are_ordered_by_the_first_difference(ta, tb);
        if a[0] == b[0] {
            if names::bytes_lt(ta, tb) {
                let place = choose|place: int| first_is_smaller_at(ta, tb, place);
                assert forall|i: int| 0 <= i < place + 1 implies a[i] == b[i] by {
                    if i > 0 {
                        assert(ta[i - 1] == tb[i - 1]);
                    }
                }
                assert(first_is_smaller_at(a, b, place + 1));
            }
            if exists|place: int| first_is_smaller_at(a, b, place) {
                let place = choose|place: int| first_is_smaller_at(a, b, place);
                assert forall|i: int| 0 <= i < place - 1 implies ta[i] == tb[i] by {
                    assert(a[i + 1] == b[i + 1]);
                }
                assert(first_is_smaller_at(ta, tb, place - 1));
            }
        } else {
            if a[0] < b[0] {
                assert(first_is_smaller_at(a, b, 0));
            }
            if exists|place: int| first_is_smaller_at(a, b, place) {
                let place = choose|place: int| first_is_smaller_at(a, b, place);
                if place > 0 {
                    assert(a[0] == b[0]);
                }
            }
        }
    }
}

/// Names are ordered as their UTF-8 bytes are.
pub proof fn names_are_ordered_as_their_bytes(a: Seq<char>, b: Seq<char>)
    ensures
        names::name_lt(a, b) <==> names::bytes_lt(
            vstd::utf8::encode_utf8(a),
            vstd::utf8::encode_utf8(b),
        ),
{
}

/// The state of a game is written field by field, in the order of its contract.
pub proof fn game_states_are_written_in_full(g: GameView)
    ensures
        game::game_fields(g) == seq![
            ("white_player"@, FieldView::Hash(g.white_player)),
            ("black_player"@, FieldView::Hash(g.black_player)),
            ("board"@, FieldView::Bytes(g.board)),
            ("turn"@, FieldView::Byte(g.turn as u8)),
            ("status"@, FieldView::Byte(g.status as u8)),
            ("move_timeout"@, FieldView::Int(g.move_timeout)),
            ("castle_rights"@, FieldView::Quad(g.castle_rights)),
            ("en_passant_idx"@, FieldView::Byte(g.en_passant_idx as u8)),
            ("pending_src_idx"@, FieldView::Byte(g.pending_src_idx as u8)),
            ("pending_dst_idx"@, FieldView::Byte(g.pending_dst_idx as u8)),
            ("pending_promo"@, FieldView::Byte(g.pending_promo as u8)),
            ("recent_castle"@, FieldView::Byte(g.recent_castle as u8)),
            ("draw_state"@, FieldView::Byte(g.draw_state as u8)),
        ],
{
    assert(game::game_fields(g) =~= seq![
        ("white_player"@, FieldView::Hash(g.white_player)),
        ("black_player"@, FieldView::Hash(g.black_player)),
        ("board"@, FieldView::Bytes(g.board)),
        ("turn"@, FieldView::Byte(g.turn as u8)),
        ("status"@, FieldView::Byte(g.status as u8)),
        ("move_timeout"@, FieldView::Int(g.move_timeout)),
        ("castle_rights"@, FieldView::Quad(g.castle_rights)),
        ("en_passant_idx"@, FieldView::Byte(g.en_passant_idx as u8)),
        ("pending_src_idx"@, FieldView::Byte(g.pending_src_idx as u8)),
        ("pending_dst_idx"@, FieldView::Byte(g.pending_dst_idx as u8)),
        ("pending_promo"@, FieldView::Byte(g.pending_promo as u8)),
        ("recent_castle"@, FieldView::Byte(g.recent_castle as u8)),
        ("draw_state"@, FieldView::Byte(g.draw_state as u8)),
    ]);
}

/// Two proper states of a game that are written alike agree in all but the log: nothing of the
/// position is lost.
pub proof fn written_games_can_be_told_apart(g: GameView, h: GameView)
    requires
        g.wf(),
        h.wf(),
        game::game_fields(g) == game::game_fields(h),
    ensures
        h == (GameView { move_log: h.move_log, ..g }),
{
    game_states_are_written_in_full(g);
    game_states_are_written_in_full(h);
    let (x, y) = (game::game_fields(g), game::game_fields(h));
    assert(x[0] == y[0] && x[1] == y[1] && x[2] == y[2] && x[3] == y[3] && x[4] == y[4] && x[5] == y[5]);
    assert(x[6] == y[6] && x[7] == y[7] && x[8] == y[8] && x[9] == y[9] && x[10] == y[10] && x[11] == y[11]);
    assert(x[12] == y[12]);
}

/// The state of a player is written field by field, in the order of its contract.
pub proof fn player_states_are_written_in_full(p: PlayerStateData)
    ensures
        game::player_fields(p) == seq![
            ("owner"@, FieldView::Hash(p.owner_hash)),
            ("player_id"@, FieldView::Hash(p.player_id)),
            ("open_games"@, FieldView::Int(p.open_games)),
            ("rating"@, FieldView::Int(p.rating)),
            ("games"@, FieldView::Int(p.games)),
            ("wins"@, FieldView::Int(p.wins)),
            ("draws"@, FieldView::Int(p.draws)),
            ("losses"@, FieldView::Int(p.losses)),
        ],
{
    assert(game::player_fields(p) =~= seq![
        ("owner"@, FieldView::Hash(p.owner_hash)),
        ("player_id"@, FieldView::Hash(p.player_id)),
        ("open_games"@, FieldView::Int(p.open_games)),
        ("rating"@, FieldView::Int(p.rating)),
        ("games"@, FieldView::Int(p.games)),
        ("wins"@, FieldView::Int(p.wins)),
        ("draws"@, FieldView::Int(p.draws)),
        ("losses"@, FieldView::Int(p.losses)),
    ]);
}

/// The states of the league and of a settlement are written field by field.
pub proof fn league_and_settlement_states_are_written_in_full(
    base_rating: i64,
    admin: Hash32,
    white: Hash32,
    black: Hash32,
    code: i64,
)
    ensures
        game::league_fields(base_rating, admin) == seq![
            ("base_rating"@, FieldView::Int(base_rating)),
            ("admin"@, FieldView::Hash(admin)),
        ],
        game::settle_fields(white, black, code) == seq![
            ("white_player"@, FieldView::Hash(white)),
            ("black_player"@, FieldView::Hash(black)),
            ("status"@, FieldView::Byte(code as u8)),
        ],
{
    assert(game::league_fields(base_rating, admin) =~= seq![
        ("base_rating"@, FieldView::Int(base_rating)),
        ("admin"@, FieldView::Hash(admin)),
    ]);
    assert(game::settle_fields(white, black, code) =~= seq![
        ("white_player"@, FieldView::Hash(white)),
        ("black_player"@, FieldView::Hash(black)),
        ("status"@, FieldView::Byte(code as u8)),
    ]);
}

/// A plan starts empty, and each step adds one input or one output at the end. Outputs of actors are
/// authorized by the first input.
pub proof fn plans_grow_at_the_end(
    p: TxPlanView,
    actor: Seq<char>,
    state: StateView,
    call: EntryCallView,
    outpoint: Outpoint,
    utxo: UnspentView,
    sequence: u64,
    covenant_id: Hash32,
    value: u64,
)
    ensures
        plan::plan().inputs.len() == 0 && plan::plan().outputs.len() == 0,
        ({
            let spent = p.spend(actor, state, call, outpoint, utxo, sequence);
            &&& spent.inputs.len() == p.inputs.len() + 1
            &&& spent.inputs.last() == PlannedInputView::Actor {
                actor,
                state,
                call,
                outpoint,
                utxo,
                sequence,
            }
            &&& spent.inputs.drop_last() == p.inputs
            &&& spent.outputs == p.outputs
        }),
        ({
            let kept = p.keep(actor, state, covenant_id, value);
            &&& kept.outputs.len() == p.outputs.len() + 1
            &&& kept.outputs.last() == PlannedOutputView::Actor {
                actor,
                state,
                binding: CovenantBinding { authorizing_input: 0, covenant_id },
                value,
            }
            &&& kept.outputs.drop_last() == p.outputs
            &&& kept.inputs == p.inputs
        }),
{
    let spent = p.spend(actor, state, call, outpoint, utxo, sequence);
    assert(spent.inputs.drop_last() =~= p.inputs);
    let kept = p.keep(actor, state, covenant_id, value);
    assert(kept.outputs.drop_last() =~= p.outputs);
}

/// An owner unlocks an actor with a signature of the owner's key and the public key, behind the
/// arguments that stand before.
pub proof fn owners_sign_and_show_their_key(
    name: Seq<char>,
    call: EntryCallView,
    secret: Seq<u8>,
    public_key: Seq<u8>,
)
    ensures
        plan::entry(name) == (EntryCallView { name, args: Seq::empty() }),
        plan::owner_args(call, secret, public_key) == (EntryCallView {
            name: call.name,
            args: call.args + seq![EntryArgView::Signature(secret), EntryArgView::Bytes(public_key)],
        }),
{
    assert(plan::owner_args(call, secret, public_key).args =~= call.args + seq![
        EntryArgView::Signature(secret),
        EntryArgView::Bytes(public_key),
    ]);
}

/// A record carries the id of its transaction, what each input spends in order, and one outpoint for
/// each output: the transaction's id with the output's number.
pub proof fn records_list_what_was_spent_and_made(
    action: Seq<char>,
    tx: ChainTxView,
    signers: Seq<Seq<char>>,
    id: Hash32,
    i: int,
)
    requires
        id@ == chain::transaction_id(tx),
    ensures
        ({
            let record = arena::submission_of(action, tx, signers);
            &&& record.action == action
            &&& record.transaction_id == id
            &&& record.signer_names == signers
            &&& record.input_outpoints.len() == tx.inputs.len()
            &&& record.output_outpoints.len() == tx.outputs.len()
            &&& 0 <= i < tx.inputs.len() ==> record.input_outpoints[i] == tx.inputs[i].previous_outpoint
            &&& 0 <= i < tx.outputs.len() && i <= u32::MAX ==> record.output_outpoints[i] == (Outpoint {
                transaction_id: id,
                index: i as u32,
            })
        }),
{
    hash::lemma_hash_of(id);
}

/// The outpoint of an output is the id of its transaction with the output's number.
pub proof fn outpoints_carry_id_and_number(tx: ChainTxView, index: u32, id: Hash32)
    requires
        id@ == chain::transaction_id(tx),
    ensures
        chain::output_of(tx, index) == (Outpoint { transaction_id: id, index }),
{
    hash::lemma_hash_of(id);
}

/// A message goes to the end of its recipient's mailbox, with its sender and what it says. No other
/// mailbox and nothing else of the arena changes.
pub proof fn messages_reach_their_recipient_only(
    a: ArenaView,
    from: Seq<char>,
    to: Seq<char>,
    kind: MessageKindView,
    other: Seq<char>,
)
    ensures
        ({
            let after = a.with_message(from, to, kind);
            let inbox = messages::waiting(after.messages, to);
            &&& inbox.len() == messages::waiting(a.messages, to).len() + 1
            &&& inbox.last().from == from && inbox.last().to == to && inbox.last().kind == kind
            &&& inbox.drop_last() == messages::waiting(a.messages, to)
            &&& other != to ==> messages::waiting(after.messages, other) == messages::waiting(a.messages, other)
            &&& after == ArenaView { messages: after.messages, ..a }
        }),
{
    let inbox = messages::waiting(a.with_message(from, to, kind).messages, to);
    assert(inbox.drop_last() =~= messages::waiting(a.messages, to));
}

/// A transaction, a record, an entry and a game are each set down alone: nothing else of the arena
/// changes.
pub proof fn notes_change_nothing_else(
    a: ArenaView,
    tx: ChainTxView,
    action: Seq<char>,
    signers: Seq<Seq<char>>,
    name: Seq<char>,
    state: PlayerStateData,
    g: GameView,
    outpoint: Outpoint,
)
    ensures
        a.with_tx(tx) == (ArenaView { transactions: a.transactions.push(tx), ..a }),
        a.with_record(action, tx, signers) == (ArenaView {
            history: a.history.push(arena::submission_of(action, tx, signers)),
            ..a
        }),
        a.with_player(name, state) == (ArenaView { players: a.players.insert(name, state), ..a }),
        a.with_game(g, outpoint) == (ArenaView { game: Some(g), game_outpoint: Some(outpoint), ..a }),
        a.without_game() == (ArenaView { game: None, game_outpoint: None, ..a }),
{
}

/// An owner is a player of the league whose entry hashes to the reference, and no other such player
/// comes before in the order of names.
pub proof fn owners_hold_the_reference(
    players: Map<Seq<char>, PlayerStateData>,
    player_ref: Hash32,
    other: Seq<char>,
)
    requires
        arena::owner_of(players, player_ref) is Some,
    ensures
        ({
            let owner = arena::owner_of(players, player_ref)->Some_0;
            &&& players.contains_key(owner)
            &&& hash::blake2b_256(players[owner].owner_hash@ + players[owner].player_id@) == player_ref@
            &&& players.contains_key(other) && hash::blake2b_256(
                players[other].owner_hash@ + players[other].player_id@,
            ) == player_ref@ ==> !names::name_lt(other, owner)
        }),
{
    let owner = choose|name: Seq<char>| arena::is_owner(players, player_ref, name);
    assert(arena::is_owner(players, player_ref, owner));
    if players.contains_key(other) && arena::holds_ref(players[other], player_ref) {
        assert(!names::name_lt(other, owner));
    }
}

/// The only player whose entry hashes to a reference is its owner; a reference that no entry hashes
/// to has none.
pub proof fn sole_holders_are_owners(
    players: Map<Seq<char>, PlayerStateData>,
    player_ref: Hash32,
    name: Seq<char>,
)
    requires
        forall|other: Seq<char>| #[trigger]
            players.contains_key(other) && other != name ==> hash::blake2b_256(
                players[other].owner_hash@ + players[other].player_id@,
            ) != player_ref@,
    ensures
        ({
            let holds = players.contains_key(name) && hash::blake2b_256(
                players[name].owner_hash@ + players[name].player_id@,
            ) == player_ref@;
            &&& holds ==> arena::owner_of(players, player_ref) == Some(name)
            &&& !holds ==> arena::owner_of(players, player_ref) is None
        }),
{
    let holds = players.contains_key(name) && arena::holds_ref(players[name], player_ref);
    if holds {
        assert forall|other: Seq<char>| #[trigger]
            players.contains_key(other) && arena::holds_ref(players[other], player_ref) implies !names::name_lt(
            other,
            name,
        ) by {
            names::lemma_name_order(other, name, other);
        }
        assert(arena::is_owner(players, player_ref, name));
        arena::owner_is_unique(players, player_ref, name);
    } else {
        assert forall|owner: Seq<char>| !arena::is_owner(players, player_ref, owner) by {
            if players.contains_key(owner) && owner != name {
                assert(!arena::holds_ref(players[owner], player_ref));
            }
        }
    }
}

/// A snapshot shows the game as it is.
pub proof fn snapshots_show_the_game(snapshot: ActualGameSnapshot, g: GameView, phase: Seq<char>)
    ensures
        arena::shows(snapshot, g, phase) <==> {
            &&& snapshot.white_player_ref == g.white_player
            &&& snapshot.black_player_ref == g.black_player
            &&& snapshot.phase@ == phase
            &&& snapshot.board@ == g.board
            &&& snapshot.turn == Side::White <==> g.turn == 0
            &&& snapshot.status == g.status
            &&& snapshot.move_timeout == g.move_timeout
            &&& snapshot.recent_castle == g.recent_castle
            &&& snapshot.draw_state == g.draw_state
            &&& game::texts(snapshot.move_log@) == g.move_log
        },
{
}

/// The phase of a game in a worker names the worker.
pub proof fn phases_name_the_worker(worker: WorkerKind)
    ensures
        arena::worker_label(worker)@ == match worker {
            WorkerKind::Pawn => "Pawn"@,
            WorkerKind::Knight => "Knight"@,
            WorkerKind::Vert => "Vert"@,
            WorkerKind::Horiz => "Horiz"@,
            WorkerKind::Diag => "Diag"@,
            WorkerKind::King => "King"@,
            WorkerKind::Castle => "Castle"@,
            WorkerKind::CastleChallenge => "CastleChallenge"@,
        },
{
}

/// An account shows the player's entry as it is.
pub proof fn accounts_show_the_entry(account: PlayerAccount, p: PlayerStateData)
    ensures
        arena::is_account_of(account, p) <==> {
            &&& account.owner_hash == p.owner_hash && account.player_id == p.player_id
            &&& account.value == p.value && account.open_games == p.open_games
            &&& account.rating == p.rating && account.games == p.games
            &&& account.wins == p.wins && account.draws == p.draws && account.losses == p.losses
        },
{
}

/// A player is registered who has both an id and a reference.
pub proof fn registered_players_have_id_and_reference(player: SignerView)
    ensures
        arena::registered(player) <==> player.player_id is Some && player.player_ref is Some,
{
}

/// A signed input carries a signature of the signer's key over the digest of that input, followed by
/// the byte for all inputs and outputs.
pub proof fn signed_inputs_carry_signature_and_type(
    tx: ChainTxView,
    entries: Seq<UnspentView>,
    input_index: int,
    secret: Seq<u8>,
    encoded: Seq<u8>,
)
    ensures
        signing::is_signed_input(tx, entries, input_index, secret, encoded) <==> {
            &&& encoded.len() == 65
            &&& encoded[64] == 1
            &&& exists|aux: [u8; 32]|
                encoded.take(64) == #[trigger] signing::schnorr_signature(
                    secret,
                    chain::schnorr_digest(tx, entries, input_index),
                    aux@,
                )
        },
{
}

/// A reference is the hash of the owner's hash followed by the player id.
pub proof fn references_hash_owner_and_id(owner_hash: Hash32, player_id: Hash32)
    ensures
        hash::player_ref_bytes(owner_hash, player_id) == hash::blake2b_256(owner_hash@ + player_id@),
{
}

} // verus!
