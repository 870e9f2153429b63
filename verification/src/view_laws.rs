//! What the contents of values are: field by field, nothing left out and nothing moved.

use vstd::prelude::*;

use crate::arena::{self, ActiveWorkerState, SubmittedTx, TxArena};
use crate::chain::{self, ChainTx, TxInput, TxOutput, Unspent};
use crate::dialogue::{self, CovenantOutput, Halt, HaltView, Reply, ReplyView, Request, RequestView};
use crate::error::{self, OrchestratorError};
use crate::game::{self, GameStateData, GameView, PlayerStateData};
use crate::hash::Hash32;
use crate::league;
use crate::messages::{self, MessageKindView, OffchainMessage, OffchainMessageKind};
use crate::plan::{
    EntryArg, EntryArgView, EntryCall, FieldValue, FieldView, PlannedInput, PlannedInputView, PlannedOutput,
    PlannedOutputView, SourceState, TxPlan,
};
use crate::play::{self, Outcome};
use crate::signing::{self, SignerView, SigningPlayer};

verus! {

/// The content of a hash is its 32 bytes, in order.
pub proof fn hashes_are_their_bytes(h: Hash32, i: int)
    requires
        0 <= i < 32,
    ensures
        h@.len() == 32,
        h@[i] == h.bytes[i],
{
}

/// The content of a game state is its fields.
pub proof fn game_states_are_their_fields(g: GameStateData, i: int)
    ensures
        g@.white_player == g.white_player && g@.black_player == g.black_player,
        g@.board == g.board@ && g@.castle_rights == g.castle_rights@,
        g@.turn == g.turn && g@.status == g.status && g@.draw_state == g.draw_state,
        g@.move_timeout == g.move_timeout && g@.en_passant_idx == g.en_passant_idx,
        g@.pending_src_idx == g.pending_src_idx && g@.pending_dst_idx == g.pending_dst_idx,
        g@.pending_promo == g.pending_promo && g@.recent_castle == g.recent_castle,
        g@.move_log.len() == g.move_log@.len(),
        0 <= i < g.move_log@.len() ==> g@.move_log[i] == g.move_log@[i]@,
{
}

/// The content of a player is the player's fields and secret key.
pub(crate) proof fn players_are_their_fields(p: SigningPlayer)
    ensures
        p@.name == p.name@ && p@.secret == p.keypair.secret_key() && p@.public_key == p.pubkey_bytes@,
        p@.owner_hash == p.owner_hash && p@.player_id == p.player_id && p@.player_ref == p.player_ref,
{
}

/// The content of the arena is its fields.
pub(crate) proof fn arenas_are_their_fields(a: TxArena, i: int)
    ensures
        a@.admin == a.admin@ && a@.league_lanes == a.league_lanes@ && a@.base_rating == a.base_rating,
        a@.covenant_id == a.covenant_id && a@.players == a.players@ && a@.offboard == a.offboard,
        a@.game is Some <==> a.game is Some,
        a.game matches Some(g) ==> a@.game == Some(g@),
        a@.game_outpoint == a.game_outpoint,
        a@.active_worker is Some <==> a.active_worker is Some,
        a.active_worker matches Some(w) ==> a@.active_worker == Some(w@),
        a@.active_settle == a.active_settle,
        a@.history.len() == a.history@.len() && a@.transactions.len() == a.transactions@.len(),
        0 <= i < a.history@.len() ==> a@.history[i] == a.history@[i]@,
        0 <= i < a.transactions@.len() ==> a@.transactions[i] == a.transactions@[i]@,
{
}

/// The mailboxes of the arena hold their messages in order.
pub(crate) proof fn mailboxes_hold_their_messages(a: TxArena, name: Seq<char>, i: int)
    ensures
        a@.messages.contains_key(name) <==> a.messages@.contains_key(name),
        a.messages@.contains_key(name) ==> a@.messages[name].len() == a.messages@[name]@.len(),
        a.messages@.contains_key(name) && 0 <= i < a.messages@[name]@.len() ==> a@.messages[name][i]
            == a.messages@[name]@[i]@,
{
}

/// The contents of lists are those of their elements, in order.
pub proof fn lists_keep_their_order(
    strings: Seq<String>,
    txs: Seq<ChainTx>,
    records: Seq<SubmittedTx>,
    letters: Seq<OffchainMessage>,
    entries: Seq<Unspent>,
    replies: Seq<Reply>,
    i: int,
)
    ensures
        game::texts(strings).len() == strings.len(),
        0 <= i < strings.len() ==> game::texts(strings)[i] == strings[i]@,
        arena::tx_views(txs).len() == txs.len(),
        0 <= i < txs.len() ==> arena::tx_views(txs)[i] == txs[i]@,
        arena::submission_views(records).len() == records.len(),
        0 <= i < records.len() ==> arena::submission_views(records)[i] == records[i]@,
        messages::message_views(letters).len() == letters.len(),
        0 <= i < letters.len() ==> messages::message_views(letters)[i] == letters[i]@,
        chain::unspent_views(entries).len() == entries.len(),
        0 <= i < entries.len() ==> chain::unspent_views(entries)[i] == entries[i]@,
        dialogue::reply_views(replies).len() == replies.len(),
        0 <= i < replies.len() ==> dialogue::reply_views(replies)[i] == replies[i]@,
{
}

/// The contents of a record and of a game in a worker are their fields.
pub proof fn records_are_their_fields(s: SubmittedTx, w: ActiveWorkerState, i: int)
    ensures
        s@.action == s.action@ && s@.transaction_id == s.transaction_id,
        s@.input_outpoints == s.input_outpoints@ && s@.output_outpoints == s.output_outpoints@,
        s@.signer_names.len() == s.signer_names@.len(),
        0 <= i < s.signer_names@.len() ==> s@.signer_names[i] == s.signer_names@[i]@,
        w@.kind == w.kind && w@.state == w.state@ && w@.outpoint == w.outpoint,
{
}

/// The content of a transaction is its fields, inputs and outputs in order.
pub proof fn transactions_are_their_fields(tx: ChainTx, i: int)
    ensures
        tx@.version == tx.version && tx@.lock_time == tx.lock_time && tx@.gas == tx.gas,
        tx@.subnetwork_id == tx.subnetwork_id@ && tx@.payload == tx.payload@,
        tx@.storage_mass == tx.storage_mass,
        tx@.inputs.len() == tx.inputs@.len() && tx@.outputs.len() == tx.outputs@.len(),
        0 <= i < tx.inputs@.len() ==> tx@.inputs[i] == tx.inputs@[i]@,
        0 <= i < tx.outputs@.len() ==> tx@.outputs[i] == tx.outputs@[i]@,
{
}

/// The contents of inputs, outputs and unspent outputs are their fields.
pub proof fn inputs_and_outputs_are_their_fields(
    input: TxInput,
    output: TxOutput,
    utxo: Unspent,
    covenant: CovenantOutput,
)
    ensures
        input@.previous_outpoint == input.previous_outpoint && input@.sequence == input.sequence,
        input@.signature_script == input.signature_script@,
        input@.compute_commit == input.compute_commit,
        output@.value == output.value && output@.script_version == output.script_version,
        output@.script == output.script@ && output@.covenant == output.covenant,
        utxo@.amount == utxo.amount && utxo@.script_version == utxo.script_version,
        utxo@.script == utxo.script@ && utxo@.block_daa_score == utxo.block_daa_score,
        utxo@.is_coinbase == utxo.is_coinbase && utxo@.covenant_id == utxo.covenant_id,
        covenant@.covenant_id == covenant.covenant_id && covenant@.outpoint == covenant.outpoint,
        covenant@.utxo == covenant.utxo@,
{
}

/// A message says what its fields say.
pub proof fn messages_say_what_their_fields_say(m: OffchainMessage)
    ensures
        m@.from == m.from@ && m@.to == m.to@ && m@.kind == m.kind@,
        match m.kind {
            OffchainMessageKind::GameInvite { proposed_white: w, proposed_black: b } => m.kind@ matches
                MessageKindView::GameInvite { proposed_white, proposed_black } && proposed_white == w@
                && proposed_black == b@,
            OffchainMessageKind::InviteAccepted { white: w, black: b } => m.kind@ matches
                MessageKindView::InviteAccepted { white, black } && white == w@ && black == b@,
            OffchainMessageKind::GameStarted { white: w, black: b } => m.kind@ matches
                MessageKindView::GameStarted { white, black } && white == w@ && black == b@,
            OffchainMessageKind::MoveNotice { actor: a, worker: k, move_label: l, mv: v } => m.kind@ matches
                MessageKindView::MoveNotice { actor, worker, move_label, mv } && actor == a@ && worker == k
                && move_label == l@ && mv == v,
            OffchainMessageKind::DrawOffered { actor: a } => m.kind@ matches MessageKindView::DrawOffered {
                actor,
            } && actor == a@,
            OffchainMessageKind::DrawClaimed { actor: a } => m.kind@ matches MessageKindView::DrawClaimed {
                actor,
            } && actor == a@,
            OffchainMessageKind::DrawAccepted { actor: a } => m.kind@ matches MessageKindView::DrawAccepted {
                actor,
            } && actor == a@,
            OffchainMessageKind::TimeoutClaimAvailable { result: r, worker: k, move_label: l } => m.kind@ matches
                MessageKindView::TimeoutClaimAvailable { result, worker, move_label } && result == r && worker
                == k && move_label == l@,
            OffchainMessageKind::SettlementRequest { result: r } => m.kind@ matches
                MessageKindView::SettlementRequest { result } && result == r,
            OffchainMessageKind::SettlementNotice { result: r } => m.kind@ matches
                MessageKindView::SettlementNotice { result } && result == r,
        },
{
}

/// A request asks for what its fields say.
pub proof fn requests_ask_what_their_fields_say(request: Request)
    ensures
        match request {
            Request::LoadArtifact => request@ is LoadArtifact,
            Request::CheckArtifact => request@ is CheckArtifact,
            Request::StartBuilder => request@ is StartBuilder,
            Request::ActorUtxo { actor: n, state: s, value: v, covenant_id: c } => request@ matches
                RequestView::ActorUtxo { actor, state, value, covenant_id } && actor == n@ && state == s@
                && value == v && covenant_id == c,
            Request::Build { plan: p } => request@ matches RequestView::Build { plan } && plan == p@,
            Request::ReadOutput { tx: t, index: i } => request@ matches RequestView::ReadOutput {
                tx,
                index,
            } && tx == t@ && index == i,
            Request::InvocationUid { outpoint: o, tag: t } => request@ matches RequestView::InvocationUid {
                outpoint,
                tag,
            } && outpoint == o && tag == t@,
            Request::ApplyMove {
                board: b,
                turn: t,
                castle_rights: c,
                en_passant_idx: e,
                mv: m,
                standard: s,
            } => request@ matches RequestView::ApplyMove {
                board,
                turn,
                castle_rights,
                en_passant_idx,
                mv,
                standard,
            } && board == b@ && turn == t && castle_rights == c@ && en_passant_idx == e && mv == m && standard
                == s,
        },
{
}

/// A reply says what it holds, and a halt what it asks or refuses.
pub proof fn replies_and_halts_say_what_they_hold(reply: Reply, halt: Halt)
    ensures
        match reply {
            Reply::Done => reply@ == ReplyView::Done,
            Reply::Utxo(u) => reply@ == ReplyView::Utxo(u@),
            Reply::Tx(t) => reply@ == ReplyView::Tx(t@),
            Reply::Output(o) => reply@ == ReplyView::Output(o@),
            Reply::Uid(h) => reply@ == ReplyView::Uid(h),
            Reply::Moved(m) => reply@ == ReplyView::Moved(m),
            Reply::Failed(t) => reply@ == ReplyView::Failed(t@),
        },
        match halt {
            Halt::Need(r) => halt@ == HaltView::Need(r@),
            Halt::Refused(e) => halt@ == HaltView::Refused(e.0@),
        },
{
}

/// A field and an argument say what they hold.
pub proof fn fields_and_arguments_say_what_they_hold(field: FieldValue, arg: EntryArg)
    ensures
        match field {
            FieldValue::Hash(h) => field@ == FieldView::Hash(h),
            FieldValue::Bytes(b) => field@ == FieldView::Bytes(b@),
            FieldValue::Quad(q) => field@ == FieldView::Quad(q@),
            FieldValue::Byte(b) => field@ == FieldView::Byte(b),
            FieldValue::Int(n) => field@ == FieldView::Int(n),
        },
        match arg {
            EntryArg::Signature(k) => arg@ == EntryArgView::Signature(k.secret_key()),
            EntryArg::Bytes(b) => arg@ == EntryArgView::Bytes(b@),
            EntryArg::Hash(h) => arg@ == EntryArgView::Hash(h),
            EntryArg::Actor(a) => arg@ == EntryArgView::Actor(a@),
            EntryArg::Byte(b) => arg@ == EntryArgView::Byte(b),
            EntryArg::Int(n) => arg@ == EntryArgView::Int(n),
        },
{
}

/// States, calls and plans hold their parts in order.
pub proof fn plans_hold_their_parts_in_order(state: SourceState, call: EntryCall, plan: TxPlan, i: int)
    ensures
        state@.len() == state.fields@.len(),
        0 <= i < state.fields@.len() ==> state@[i] == (state.fields@[i].0@, state.fields@[i].1@),
        call@.name == call.name@ && call@.args.len() == call.args@.len(),
        0 <= i < call.args@.len() ==> call@.args[i] == call.args@[i]@,
        plan@.inputs.len() == plan.inputs@.len() && plan@.outputs.len() == plan.outputs@.len(),
        0 <= i < plan.inputs@.len() ==> plan@.inputs[i] == plan.inputs@[i]@,
        0 <= i < plan.outputs@.len() ==> plan@.outputs[i] == plan.outputs@[i]@,
{
}

/// Planned inputs and outputs say what their fields say.
pub proof fn planned_parts_say_what_their_fields_say(input: PlannedInput, output: PlannedOutput)
    ensures
        match input {
            PlannedInput::Plain { outpoint: o, utxo: u, signature_script: s, sequence: n } => input@ matches
                PlannedInputView::Plain { outpoint, utxo, signature_script, sequence } && outpoint == o && utxo
                == u@ && signature_script == s@ && sequence == n,
            PlannedInput::Actor { actor: a, state: s, call: c, outpoint: o, utxo: u, sequence: n } => input@ matches
                PlannedInputView::Actor { actor, state, call, outpoint, utxo, sequence } && actor == a@ && state
                == s@ && call == c@ && outpoint == o && utxo == u@ && sequence == n,
        },
        match output {
            PlannedOutput::Genesis { authorizing_input: i, label: l, actor: a, state: s, value: v } => output@ matches
                PlannedOutputView::Genesis { authorizing_input, label, actor, state, value }
                && authorizing_input == i && label == l@ && actor == a@ && state == s@ && value == v,
            PlannedOutput::Actor { actor: a, state: s, binding: b, value: v } => output@ matches
                PlannedOutputView::Actor { actor, state, binding, value } && actor == a@ && state == s@
                && binding == b && value == v,
        },
{
}

/// A result halts with its error, and a refusal says its text; a success does neither.
pub proof fn results_halt_with_their_error(done: Result<(), Halt>, refused: Result<(), OrchestratorError>)
    ensures
        done is Ok <==> dialogue::halt_of(done) is None,
        done matches Err(h) ==> dialogue::halt_of(done) == Some(h@),
        refused is Ok <==> league::refusal_of(refused) is None,
        refused matches Err(e) ==> league::refusal_of(refused) == Some(e.0@),
        refused matches Err(e) ==> error::verdict(refused) == Err::<(), Seq<char>>(e.0@),
        refused is Ok ==> error::verdict(refused) == Ok::<(), Seq<char>>(()),
{
}

/// A call comes to an outcome exactly when it leaves that arena, halts as the outcome does, and else
/// returns its records.
pub proof fn calls_come_to_their_outcome(
    outcome: Outcome,
    after: arena::ArenaView,
    done: Result<Vec<SubmittedTx>, Halt>,
)
    ensures
        play::comes_to(outcome, after, done) <==> {
            &&& after == outcome.after
            &&& done is Ok <==> outcome.halt is None
            &&& done matches Err(h) ==> outcome.halt == Some(h@)
            &&& done matches Ok(records) ==> arena::submission_views(records@) == outcome.submissions
        },
{
}

/// A game is in order with 64 squares, four castling rights, a side on turn, one of the four statuses,
/// one of the five draw states, and every other number in a byte.
pub proof fn games_are_in_order(g: GameView)
    ensures
        g.wf() <==> {
            &&& g.board.len() == 64 && g.castle_rights.len() == 4
            &&& 0 <= g.turn <= 1 && 0 <= g.status <= 3 && 1 <= g.draw_state <= 5
            &&& 0 <= g.en_passant_idx <= 255 && 0 <= g.pending_src_idx <= 255
            &&& 0 <= g.pending_dst_idx <= 255 && 0 <= g.pending_promo <= 255 && 0 <= g.recent_castle <= 255
        },
{
}

/// A player's record is in order when no count is negative and the finished games add up.
pub proof fn entries_are_in_order(p: PlayerStateData)
    ensures
        p.wf() <==> {
            &&& p.open_games >= 0 && p.wins >= 0 && p.draws >= 0 && p.losses >= 0
            &&& p.games == p.wins + p.draws + p.losses
        },
{
}

/// The arena is in order with its administrator and base rating, a lane, entries in order whose rating
/// their games account for, games in order, a game between moves in an output, a result for a
/// settlement, and executed records.
pub proof fn arenas_are_in_order(a: arena::ArenaView)
    ensures
        a.wf() <==> {
            &&& 0 <= a.offboard <= 255 && a.admin == league::admin() && a.base_rating == 1200
            &&& a.league_lanes.len() >= 1
            &&& forall|name: Seq<char>| #[trigger]
                a.players.contains_key(name) ==> a.players[name].wf() && a.players[name].rating - 1200 <= 31
                    * a.players[name].games && 1200 - a.players[name].rating <= 31 * a.players[name].games
            &&& a.game is Some <==> a.game_outpoint is Some
            &&& a.game matches Some(g) ==> g.wf()
            &&& a.active_worker matches Some(w) ==> w.state.wf()
            &&& a.active_settle matches Some(s) ==> 1 <= s.status <= 3
            &&& forall|j: int|
                0 <= j < a.history.len() ==> arena::is_executed(#[trigger] a.history[j], a.transactions)
        },
{
}

/// A fresh player has the name, the key of the repeated seed, and no identity yet.
pub proof fn fresh_players_have_the_key_of_their_seed(player: SignerView, name: Seq<char>, seed: u8)
    ensures
        league::fresh_signer(player, name, seed) <==> {
            &&& player.name == name
            &&& player.secret == Seq::new(32, |i: int| seed)
            &&& player.public_key == signing::x_only_public_key(player.secret)
            &&& player.owner_hash@ == crate::hash::blake2b_256(player.public_key)
            &&& player.player_id is None && player.player_ref is None
        },
{
}

/// Secret keys are the numbers between zero and the order of the group, which lies
/// 0x14551231950b75fc4402da1732fc9bebf below the 256th power of two.
pub proof fn secret_keys_lie_below_the_group_order(bytes: Seq<u8>, last: u8)
    ensures
        signing::group_order() + 0x1_45512319_50b75fc4_402da173_2fc9bebfint
            == 0x1_00000000_00000000_00000000_00000000_00000000_00000000_00000000_00000000int,
        signing::is_secret_key(bytes) <==> 0 < signing::big_endian(bytes) < signing::group_order(),
        signing::big_endian(Seq::<u8>::empty()) == 0,
        signing::big_endian(bytes.push(last)) == signing::big_endian(bytes) * 256 + last,
{
    assert(bytes.push(last).drop_last() =~= bytes);
}

} // verus!
