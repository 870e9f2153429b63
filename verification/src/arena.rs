//! The arena: the league, its players, the game in progress, and the record of transactions.

use vstd::prelude::*;

use crate::chain::{self, ChainTx, ChainTxView, Outpoint};
use crate::error::{self, refuse, OrchestratorError};
use crate::game::{self, copy_strings, GameStateData, GameView, PlayerStateData};
use crate::hash::{self, player_ref_hash, Hash32};
use crate::league::{self, BASE_RATING};
use crate::messages::{self, MessageKindView, MessageView, OffchainMessage, OffchainMessageKind};
use crate::moves::WorkerKind;
use crate::names::{self, NameMap};
use crate::signing::{SignerView, SigningPlayer};
use crate::status::{self, side_from_turn, Side, DRAW, WWIN};
use crate::text::join2;

verus! {

/// The account of a player as others see it.
#[derive(Clone, Debug, PartialEq, Eq)]
pub struct PlayerAccount {
    pub owner_name: String,
    pub owner_hash: Hash32,
    pub player_id: Hash32,
    pub player_ref: Hash32,
    pub value: u64,
    pub open_games: i64,
    pub rating: i64,
    pub games: i64,
    pub wins: i64,
    pub draws: i64,
    pub losses: i64,
}

/// A transaction on record: what it did, what it spent and made, and who signed.
#[derive(Debug, PartialEq, Eq)]
pub struct SubmittedTx {
    pub action: &'static str,
    pub transaction_id: Hash32,
    pub input_outpoints: Vec<Outpoint>,
    pub output_outpoints: Vec<Outpoint>,
    pub signer_names: Vec<String>,
}

/// The content of a record.
#[verifier::ext_equal]
pub ghost struct SubmissionView {
    pub action: Seq<char>,
    pub transaction_id: Hash32,
    pub input_outpoints: Seq<Outpoint>,
    pub output_outpoints: Seq<Outpoint>,
    pub signer_names: Seq<Seq<char>>,
}

impl View for SubmittedTx {
    type V = SubmissionView;

    open spec fn view(&self) -> SubmissionView {
        SubmissionView {
            action: self.action@,
            transaction_id: self.transaction_id,
            input_outpoints: self.input_outpoints@,
            output_outpoints: self.output_outpoints@,
            signer_names: game::texts(self.signer_names@),
        }
    }
}

/// The contents of records.
pub open spec fn submission_views(submissions: Seq<SubmittedTx>) -> Seq<SubmissionView> {
    submissions.map_values(|s: SubmittedTx| s@)
}

/// Copies outpoints.
fn copy_outpoints(outpoints: &Vec<Outpoint>) -> (copy: Vec<Outpoint>)
    ensures
        copy@ == outpoints@,
{
    let mut copy: Vec<Outpoint> = Vec::new();
    let mut i: usize = 0;
    while i < outpoints.len()
        invariant
            i <= outpoints@.len(),
            copy@ =~= outpoints@.take(i as int),
        decreases outpoints@.len() - i,
    {
        copy.push(outpoints[i]);
        i += 1;
    }
    copy
}

impl Clone for SubmittedTx {
    fn clone(&self) -> (copy: SubmittedTx)
        ensures
            copy@ == self@,
    {
        SubmittedTx {
            action: self.action,
            transaction_id: self.transaction_id,
            input_outpoints: copy_outpoints(&self.input_outpoints),
            output_outpoints: copy_outpoints(&self.output_outpoints),
            signer_names: copy_strings(&self.signer_names),
        }
    }
}

/// The record of a transaction.
pub open spec fn submission_of(
    action: Seq<char>,
    tx: ChainTxView,
    signer_names: Seq<Seq<char>>,
) -> SubmissionView {
    SubmissionView {
        action,
        transaction_id: hash::hash_of(chain::transaction_id(tx)),
        input_outpoints: Seq::new(tx.inputs.len(), |i: int| tx.inputs[i].previous_outpoint),
        output_outpoints: Seq::new(tx.outputs.len(), |i: int| chain::output_of(tx, i as u32)),
        signer_names,
    }
}

/// The record of a transaction.
pub fn submitted_tx(
    action: &'static str,
    tx: &ChainTx,
    signer_names: Vec<String>,
) -> (submission: SubmittedTx)
    ensures
        submission@ == submission_of(action@, tx@, game::texts(signer_names@)),
{
    let transaction_id: Hash32 = tx.id();
    proof {
        hash::lemma_hash_of(transaction_id);
    }
    let mut input_outpoints: Vec<Outpoint> = Vec::new();
    let mut i: usize = 0;
    while i < tx.inputs.len()
        invariant
            i <= tx.inputs@.len(),
            input_outpoints@.len() == i,
            forall|j: int|
                0 <= j < i ==> #[trigger] input_outpoints@[j] == tx@.inputs[j].previous_outpoint,
        decreases tx.inputs@.len() - i,
    {
        input_outpoints.push(tx.inputs[i].previous_outpoint);
        i += 1;
    }
    let mut output_outpoints: Vec<Outpoint> = Vec::new();
    let mut k: usize = 0;
    while k < tx.outputs.len()
        invariant
            transaction_id == hash::hash_of(chain::transaction_id(tx@)),
            k <= tx.outputs@.len(),
            output_outpoints@.len() == k,
            forall|j: int|
                0 <= j < k ==> #[trigger] output_outpoints@[j] == chain::output_of(tx@, j as u32),
        decreases tx.outputs@.len() - k,
    {
        let index: u32 = #[verifier::truncate] (k as u32);
        output_outpoints.push(Outpoint { transaction_id, index });
        k += 1;
    }
    let submission = SubmittedTx { action, transaction_id, input_outpoints, output_outpoints, signer_names };
    assert(submission@ =~= submission_of(action@, tx@, game::texts(signer_names@)));
    submission
}

/// The game in progress as others see it. `phase` is `mux` between moves, or names the worker that
/// holds the game.
#[derive(Clone, Debug, PartialEq, Eq)]
pub struct ActualGameSnapshot {
    pub white_player_ref: Hash32,
    pub black_player_ref: Hash32,
    pub phase: String,
    pub board: Vec<u8>,
    pub turn: Side,
    pub status: i64,
    pub move_timeout: i64,
    pub recent_castle: i64,
    pub draw_state: i64,
    pub move_log: Vec<String>,
}

/// Whether a snapshot shows this game in this phase.
pub open spec fn shows(snapshot: ActualGameSnapshot, g: GameView, phase: Seq<char>) -> bool {
    &&& snapshot.white_player_ref == g.white_player
    &&& snapshot.black_player_ref == g.black_player
    &&& snapshot.phase@ == phase
    &&& snapshot.board@ == g.board
    &&& snapshot.turn == status::side_to_move(g.turn as int)
    &&& snapshot.status == g.status
    &&& snapshot.move_timeout == g.move_timeout
    &&& snapshot.recent_castle == g.recent_castle
    &&& snapshot.draw_state == g.draw_state
    &&& game::texts(snapshot.move_log@) == g.move_log
}

fn snapshot_of(state: &GameStateData, phase: String) -> (snapshot: ActualGameSnapshot)
    ensures
        shows(snapshot, state@, phase@),
{
    ActualGameSnapshot {
        white_player_ref: state.white_player,
        black_player_ref: state.black_player,
        phase,
        board: chain::copy_bytes(&state.board),
        turn: side_from_turn(state.turn),
        status: state.status,
        move_timeout: state.move_timeout,
        recent_castle: state.recent_castle,
        draw_state: state.draw_state,
        move_log: copy_strings(&state.move_log),
    }
}

/// The name of a worker in a snapshot's phase.
pub open spec fn worker_label(worker: WorkerKind) -> &'static str {
    match worker {
        WorkerKind::Pawn => "Pawn",
        WorkerKind::Knight => "Knight",
        WorkerKind::Vert => "Vert",
        WorkerKind::Horiz => "Horiz",
        WorkerKind::Diag => "Diag",
        WorkerKind::King => "King",
        WorkerKind::Castle => "Castle",
        WorkerKind::CastleChallenge => "CastleChallenge",
    }
}

fn worker_label_text(worker: WorkerKind) -> (label: &'static str)
    ensures
        label == worker_label(worker),
{
    match worker {
        WorkerKind::Pawn => "Pawn",
        WorkerKind::Knight => "Knight",
        WorkerKind::Vert => "Vert",
        WorkerKind::Horiz => "Horiz",
        WorkerKind::Diag => "Diag",
        WorkerKind::King => "King",
        WorkerKind::Castle => "Castle",
        WorkerKind::CastleChallenge => "CastleChallenge",
    }
}

/// A game that waits in a worker.
pub struct ActiveWorkerState {
    pub kind: WorkerKind,
    pub state: GameStateData,
    pub outpoint: Outpoint,
}

/// The content of a game that waits in a worker.
pub ghost struct ActiveWorkerView {
    pub kind: WorkerKind,
    pub state: GameView,
    pub outpoint: Outpoint,
}

impl View for ActiveWorkerState {
    type V = ActiveWorkerView;

    open spec fn view(&self) -> ActiveWorkerView {
        ActiveWorkerView { kind: self.kind, state: self.state@, outpoint: self.outpoint }
    }
}

/// A game that waits for its settlement.
#[derive(Clone, Copy)]
pub struct ActiveSettleState {
    pub white_player: Hash32,
    pub black_player: Hash32,
    pub status: i64,
    pub outpoint: Outpoint,
}

/// One of the league's lanes, through which players register.
#[derive(Clone, Copy)]
pub struct LeagueLane {
    pub outpoint: Outpoint,
    pub value: u64,
}

/// The league, its players, the game in progress, and the record of transactions.
pub struct TxArena {
    pub(crate) admin: SigningPlayer,
    pub(crate) league_lanes: Vec<LeagueLane>,
    pub(crate) base_rating: i64,
    pub(crate) covenant_id: Hash32,
    pub(crate) players: NameMap<PlayerStateData>,
    pub(crate) game: Option<GameStateData>,
    pub(crate) game_outpoint: Option<Outpoint>,
    pub(crate) active_worker: Option<ActiveWorkerState>,
    pub(crate) active_settle: Option<ActiveSettleState>,
    pub(crate) messages: NameMap<Vec<OffchainMessage>>,
    pub(crate) history: Vec<SubmittedTx>,
    pub(crate) transactions: Vec<ChainTx>,
    /// The number that stands for no square.
    pub(crate) offboard: i64,
}

/// The content of the arena.
pub ghost struct ArenaView {
    pub admin: SignerView,
    pub league_lanes: Seq<LeagueLane>,
    pub base_rating: i64,
    pub covenant_id: Hash32,
    pub players: Map<Seq<char>, PlayerStateData>,
    pub game: Option<GameView>,
    pub game_outpoint: Option<Outpoint>,
    pub active_worker: Option<ActiveWorkerView>,
    pub active_settle: Option<ActiveSettleState>,
    pub messages: messages::Mailboxes,
    pub history: Seq<SubmissionView>,
    pub transactions: Seq<ChainTxView>,
    pub offboard: i64,
}

/// The contents of transactions.
pub open spec fn tx_views(transactions: Seq<ChainTx>) -> Seq<ChainTxView> {
    transactions.map_values(|t: ChainTx| t@)
}

impl View for TxArena {
    type V = ArenaView;

    open(crate) spec fn view(&self) -> ArenaView {
        ArenaView {
            admin: self.admin@,
            league_lanes: self.league_lanes@,
            base_rating: self.base_rating,
            covenant_id: self.covenant_id,
            players: self.players@,
            game: match self.game {
                Some(g) => Some(g@),
                None => None,
            },
            game_outpoint: self.game_outpoint,
            active_worker: match self.active_worker {
                Some(w) => Some(w@),
                None => None,
            },
            active_settle: self.active_settle,
            messages: messages::mailbox_views(self.messages),
            history: submission_views(self.history@),
            transactions: tx_views(self.transactions@),
            offboard: self.offboard,
        }
    }
}

/// Whether a record is that of one of the transactions.
pub open spec fn is_executed(submission: SubmissionView, transactions: Seq<ChainTxView>) -> bool {
    exists|i: int|
        0 <= i < transactions.len() && submission == submission_of(
            submission.action,
            #[trigger] transactions[i],
            submission.signer_names,
        )
}

/// Whether every record is that of one of the transactions.
pub open spec fn all_executed(
    history: Seq<SubmissionView>,
    transactions: Seq<ChainTxView>,
) -> bool {
    forall|j: int| 0 <= j < history.len() ==> is_executed(#[trigger] history[j], transactions)
}

/// Whether a rating is one that the games played can lead to: 31 points up or down for each.
pub open spec fn rating_in_reach(p: PlayerStateData, base_rating: i64) -> bool {
    -31 * p.games <= p.rating - base_rating <= 31 * p.games
}

impl ArenaView {
    /// What every operation keeps: the league has its administrator, its base rating and a lane,
    /// every player's record adds up and accounts for the rating, a game in progress is in a proper
    /// state and sits in an output, a settlement has a result, and every record is that of an
    /// executed transaction.
    pub open spec fn wf(self) -> bool {
        &&& game::is_byte(self.offboard as int)
        &&& self.admin == league::admin()
        &&& self.base_rating == BASE_RATING
        &&& self.league_lanes.len() > 0
        &&& forall|name: Seq<char>| #[trigger]
            self.players.contains_key(name) ==> self.players[name].wf() && rating_in_reach(
                self.players[name],
                self.base_rating,
            )
        &&& self.game is Some <==> self.game_outpoint is Some
        &&& self.game matches Some(g) ==> g.wf()
        &&& self.active_worker matches Some(w) ==> w.state.wf()
        &&& self.active_settle matches Some(s) ==> WWIN <= s.status <= DRAW
        &&& all_executed(self.history, self.transactions)
    }

    /// The arena after one more transaction.
    pub open spec fn with_tx(self, tx: ChainTxView) -> ArenaView {
        ArenaView { transactions: self.transactions.push(tx), ..self }
    }

    /// The arena after one more record.
    pub open spec fn with_record(
        self,
        action: Seq<char>,
        tx: ChainTxView,
        signer_names: Seq<Seq<char>>,
    ) -> ArenaView {
        ArenaView { history: self.history.push(submission_of(action, tx, signer_names)), ..self }
    }

    /// The arena after one more message.
    pub open spec fn with_message(
        self,
        from: Seq<char>,
        to: Seq<char>,
        kind: MessageKindView,
    ) -> ArenaView {
        ArenaView { messages: messages::delivered(self.messages, MessageView { from, to, kind }), ..self }
    }

    /// The arena with a player's entry set.
    pub open spec fn with_player(self, name: Seq<char>, state: PlayerStateData) -> ArenaView {
        ArenaView { players: self.players.insert(name, state), ..self }
    }

    /// The arena with a game in progress.
    pub open spec fn with_game(self, g: GameView, outpoint: Outpoint) -> ArenaView {
        ArenaView { game: Some(g), game_outpoint: Some(outpoint), ..self }
    }

    /// The arena without a game in progress.
    pub open spec fn without_game(self) -> ArenaView {
        ArenaView { game: None, game_outpoint: None, ..self }
    }
}

/// One more transaction keeps every record executed.
pub proof fn lemma_more_transactions(
    history: Seq<SubmissionView>,
    transactions: Seq<ChainTxView>,
    tx: ChainTxView,
)
    requires
        all_executed(history, transactions),
    ensures
        all_executed(history, transactions.push(tx)),
{
    let more = transactions.push(tx);
    assert forall|j: int| 0 <= j < history.len() implies is_executed(#[trigger] history[j], more) by {
        let s = history[j];
        assert(is_executed(s, transactions));
        let i = choose|i: int|
            0 <= i < transactions.len() && s == submission_of(s.action, #[trigger] transactions[i], s.signer_names);
        assert(more[i] == transactions[i]);
    }
}

/// The record of an executed transaction keeps every record executed.
pub proof fn lemma_more_records(
    history: Seq<SubmissionView>,
    transactions: Seq<ChainTxView>,
    action: Seq<char>,
    place: int,
    signer_names: Seq<Seq<char>>,
)
    requires
        all_executed(history, transactions),
        0 <= place < transactions.len(),
    ensures
        all_executed(
            history.push(submission_of(action, transactions[place], signer_names)),
            transactions,
        ),
{
    let s = submission_of(action, transactions[place], signer_names);
    let more = history.push(s);
    assert(is_executed(s, transactions));
    assert forall|j: int| 0 <= j < more.len() implies is_executed(#[trigger] more[j], transactions) by {
        if j < history.len() {
            assert(more[j] == history[j]);
        }
    }
}

/// Records of further transactions keep every record executed.
pub proof fn lemma_extended(
    history: Seq<SubmissionView>,
    transactions: Seq<ChainTxView>,
    records: Seq<SubmissionView>,
    txs: Seq<ChainTxView>,
)
    requires
        all_executed(history, transactions),
        all_executed(records, txs),
    ensures
        all_executed(history, transactions + txs),
        all_executed(history + records, transactions + txs),
{
    let all = transactions + txs;
    assert forall|j: int| 0 <= j < history.len() implies is_executed(#[trigger] history[j], all) by {
        let s = history[j];
        assert(is_executed(s, transactions));
        let i = choose|i: int|
            0 <= i < transactions.len() && s == submission_of(s.action, #[trigger] transactions[i], s.signer_names);
        assert(all[i] == transactions[i]);
    }
    let more = history + records;
    assert forall|j: int| 0 <= j < more.len() implies is_executed(#[trigger] more[j], all) by {
        if j < history.len() {
            assert(more[j] == history[j]);
        } else {
            let s = records[j - history.len()];
            assert(is_executed(s, txs));
            let i = choose|i: int|
                0 <= i < txs.len() && s == submission_of(s.action, #[trigger] txs[i], s.signer_names);
            assert(all[transactions.len() + i] == txs[i]);
        }
    }
}

/// The record of a transaction that joins the executed ones keeps every record executed.
pub proof fn lemma_record_tx(
    history: Seq<SubmissionView>,
    transactions: Seq<ChainTxView>,
    action: Seq<char>,
    tx: ChainTxView,
    signer_names: Seq<Seq<char>>,
)
    requires
        all_executed(history, transactions),
    ensures
        all_executed(history, transactions.push(tx)),
        all_executed(history.push(submission_of(action, tx, signer_names)), transactions.push(tx)),
{
    lemma_more_transactions(history, transactions, tx);
    lemma_more_records(
        history,
        transactions.push(tx),
        action,
        transactions.len() as int,
        signer_names,
    );
}

/// The signers of a transaction that one player signs.
pub fn one_signer(name: &String) -> (names: Vec<String>)
    ensures
        game::texts(names@) == seq![name@],
{
    let mut names: Vec<String> = Vec::new();
    names.push(name.clone());
    assert(game::texts(names@) =~= seq![name@]);
    names
}

/// The signers of a transaction that nobody signs.
pub fn no_signers() -> (names: Vec<String>)
    ensures
        game::texts(names@) == Seq::<Seq<char>>::empty(),
{
    let names: Vec<String> = Vec::new();
    assert(game::texts(names@) =~= Seq::<Seq<char>>::empty());
    names
}

/// Copies records.
pub fn copy_submissions(submissions: &Vec<SubmittedTx>) -> (copy: Vec<SubmittedTx>)
    ensures
        submission_views(copy@) == submission_views(submissions@),
{
    let mut copy: Vec<SubmittedTx> = Vec::new();
    let mut i: usize = 0;
    while i < submissions.len()
        invariant
            i <= submissions@.len(),
            copy@.len() == i,
            forall|j: int| 0 <= j < i ==> (#[trigger] copy@[j])@ == submissions@[j]@,
        decreases submissions@.len() - i,
    {
        copy.push(submissions[i].clone());
        i += 1;
    }
    assert(submission_views(copy@) =~= submission_views(submissions@));
    copy
}

/// Whether a player's entry carries the reference.
pub open spec fn holds_ref(state: PlayerStateData, player_ref: Hash32) -> bool {
    hash::player_ref_bytes(state.owner_hash, state.player_id) == player_ref@
}

/// Whether a name is the first, in the order of names, whose entry carries the reference.
pub open spec fn is_owner(
    players: Map<Seq<char>, PlayerStateData>,
    player_ref: Hash32,
    name: Seq<char>,
) -> bool {
    &&& players.contains_key(name)
    &&& holds_ref(players[name], player_ref)
    &&& forall|other: Seq<char>| #[trigger]
        players.contains_key(other) && holds_ref(players[other], player_ref) ==> !names::name_lt(other, name)
}

/// The owner of a reference.
pub open spec fn owner_of(
    players: Map<Seq<char>, PlayerStateData>,
    player_ref: Hash32,
) -> Option<Seq<char>> {
    if exists|name: Seq<char>| is_owner(players, player_ref, name) {
        Some(choose|name: Seq<char>| is_owner(players, player_ref, name))
    } else {
        None
    }
}

/// A reference has at most one owner.
pub proof fn owner_is_unique(
    players: Map<Seq<char>, PlayerStateData>,
    player_ref: Hash32,
    name: Seq<char>,
)
    requires
        is_owner(players, player_ref, name),
    ensures
        owner_of(players, player_ref) == Some(name),
{
    let chosen = choose|name: Seq<char>| is_owner(players, player_ref, name);
    assert(is_owner(players, player_ref, chosen));
    names::lemma_name_order(chosen, name, name);
}

impl TxArena {
    /// The arena is in order: names increase in its maps, and what every operation keeps holds.
    pub open(crate) spec fn wf(self) -> bool {
        &&& self.maps_wf()
        &&& self@.wf()
    }

    /// Names increase in the maps.
    pub open(crate) spec fn maps_wf(self) -> bool {
        &&& self.players.wf()
        &&& self.messages.wf()
    }

    /// Takes the messages that wait for a name.
    pub fn drain_messages(&mut self, name: &str) -> (letters: Vec<OffchainMessage>)
        requires
            old(self).wf(),
        ensures
            final(self).wf(),
            messages::message_views(letters@) == messages::waiting(old(self)@.messages, name@),
            final(self)@ == (ArenaView { messages: old(self)@.messages.remove(name@), ..old(self)@ }),
    {
        messages::drain(&mut self.messages, &name.to_owned())
    }

    /// The record of transactions.
    pub fn history(&self) -> (history: &[SubmittedTx])
        ensures
            submission_views(history@) == self@.history,
    {
        self.history.as_slice()
    }

    /// The transactions.
    pub fn transactions(&self) -> (transactions: &[ChainTx])
        ensures
            tx_views(transactions@) == self@.transactions,
    {
        self.transactions.as_slice()
    }

    /// The covenant of the league.
    pub fn covenant_id(&self) -> (id: Hash32)
        ensures
            id == self@.covenant_id,
    {
        self.covenant_id
    }

    /// The number of lanes.
    pub fn league_lane_count(&self) -> (count: usize)
        ensures
            count == self@.league_lanes.len(),
    {
        self.league_lanes.len()
    }

    /// The values of the lanes, in order.
    pub fn league_lane_values(&self) -> (values: Vec<u64>)
        ensures
            values@ == Seq::new(self@.league_lanes.len(), |i: int| self@.league_lanes[i].value),
    {
        let mut values: Vec<u64> = Vec::new();
        let mut i: usize = 0;
        while i < self.league_lanes.len()
            invariant
                i <= self.league_lanes@.len(),
                values@.len() == i,
                forall|j: int| 0 <= j < i ==> #[trigger] values@[j] == self.league_lanes@[j].value,
            decreases self.league_lanes@.len() - i,
        {
            values.push(self.league_lanes[i].value);
            i += 1;
        }
        assert(values@ =~= Seq::new(self@.league_lanes.len(), |i: int| self@.league_lanes[i].value));
        values
    }

    /// The place of the owner of a reference.
    fn owner_place(&self, player_ref: Hash32) -> (place: Option<usize>)
        requires
            self.players.wf(),
        ensures
            place matches Some(i) ==> i < self.players.entries@.len() && owner_of(self@.players, player_ref)
                == Some(self.players.entries@[i as int].0@) && holds_ref(
                self.players.entries@[i as int].1,
                player_ref,
            ),
            place is None ==> owner_of(self@.players, player_ref) is None,
    {
        let mut i: usize = 0;
        while i < self.players.entries.len()
            invariant
                self.players.wf(),
                i <= self.players.entries@.len(),
                forall|j: int|
                    0 <= j < i ==> !holds_ref((#[trigger] self.players.entries@[j]).1, player_ref),
            decreases self.players.entries@.len() - i,
        {
            let state: PlayerStateData = self.players.entries[i].1;
            let found: Hash32 = player_ref_hash(state.owner_hash, state.player_id);
            proof {
                if found@ == player_ref@ {
                    hash::lemma_hash_ext(found, player_ref);
                }
            }
            if found == player_ref {
                proof {
                    let name = self.players.entries@[i as int].0@;
                    self.players.lemma_entry(i as int);
                    assert forall|other: Seq<char>| #[trigger]
                        self@.players.contains_key(other) && holds_ref(
                            self@.players[other],
                            player_ref,
                        ) implies !names::name_lt(other, name) by {
                        let k = names::name_place(self.players.entries@, other);
                        self.players.lemma_entry(k);
                        names::lemma_name_order(name, other, name);
                        if k > i {
                            assert(names::name_lt(
                                self.players.entries@[i as int].0@,
                                self.players.entries@[k].0@,
                            ));
                        }
                    }
                    assert(is_owner(self@.players, player_ref, name));
                    owner_is_unique(self@.players, player_ref, name);
                }
                return Some(i);
            }
            i += 1;
        }
        proof {
            assert forall|name: Seq<char>| !is_owner(self@.players, player_ref, name) by {
                if self@.players.contains_key(name) {
                    let k = names::name_place(self.players.entries@, name);
                    self.players.lemma_entry(k);
                }
            }
        }
        None
    }

    /// The name of the owner of a reference, where there is one.
    pub(crate) fn find_owner(&self, player_ref: Hash32) -> (owner: Option<String>)
        requires
            self.players.wf(),
        ensures
            owner is Some <==> owner_of(self@.players, player_ref) is Some,
            owner matches Some(name) ==> owner_of(self@.players, player_ref) == Some(name@),
    {
        match self.owner_place(player_ref) {
            Some(i) => Some(self.players.entries[i].0.clone()),
            None => None,
        }
    }

    /// The name of the owner of a reference.
    pub fn owner_name(&self, player_ref: Hash32) -> (owner: Result<String, OrchestratorError>)
        requires
            self.wf(),
        ensures
            owner is Ok <==> owner_of(self@.players, player_ref) is Some,
            owner matches Ok(name) ==> owner_of(self@.players, player_ref) == Some(name@),
            owner matches Err(e) ==> e.0@ == "missing player owner"@,
    {
        match self.find_owner(player_ref) {
            Some(name) => Ok(name),
            None => Err(refuse("missing player owner")),
        }
    }

    /// The account that a reference stands for.
    pub fn player_account(
        &self,
        player_ref: Hash32,
    ) -> (account: Result<PlayerAccount, OrchestratorError>)
        requires
            self.wf(),
        ensures
            account is Ok <==> owner_of(self@.players, player_ref) is Some,
            account matches Ok(a) ==> owner_of(self@.players, player_ref) == Some(a.owner_name@)
                && a.player_ref == player_ref && is_account_of(a, self@.players[a.owner_name@]),
            account matches Err(e) ==> e.0@ == "missing player account"@,
    {
        match self.owner_place(player_ref) {
            Some(i) => {
                proof {
                    self.players.lemma_entry(i as int);
                }
                let state: PlayerStateData = self.players.entries[i].1;
                Ok(
                    PlayerAccount {
                        owner_name: self.players.entries[i].0.clone(),
                        owner_hash: state.owner_hash,
                        player_id: state.player_id,
                        player_ref,
                        value: state.value,
                        open_games: state.open_games,
                        rating: state.rating,
                        games: state.games,
                        wins: state.wins,
                        draws: state.draws,
                        losses: state.losses,
                    },
                )
            },
            None => Err(refuse("missing player account")),
        }
    }

    /// The account of a registered player.
    pub fn player_account_snapshot(
        &self,
        player: &SigningPlayer,
    ) -> (account: Result<PlayerAccount, OrchestratorError>)
        requires
            self.wf(),
        ensures
            account is Ok <==> (player@.player_ref matches Some(r) && owner_of(self@.players, r) is Some),
            account matches Ok(a) ==> player@.player_ref == Some(a.player_ref) && owner_of(
                self@.players,
                a.player_ref,
            ) == Some(a.owner_name@) && is_account_of(a, self@.players[a.owner_name@]),
            account matches Err(e) ==> e.0@ == (if player@.player_ref is None {
                player@.name + " is not registered"@
            } else {
                "missing player account"@
            }),
    {
        match player.player_ref {
            Some(player_ref) => self.player_account(player_ref),
            None => Err(OrchestratorError(join2(player.name.as_str(), " is not registered"))),
        }
    }

    /// The game in progress: between moves, or in a worker.
    pub fn active_game_snapshot(&self) -> (snapshot: Option<ActualGameSnapshot>)
        ensures
            snapshot is Some <==> self@.game is Some || self@.active_worker is Some,
            self@.game matches Some(g) ==> snapshot matches Some(s) && shows(s, g, "mux"@),
            self@.game is None ==> (self@.active_worker matches Some(w) ==> snapshot matches Some(s) && shows(
                s,
                w.state,
                "worker:"@ + worker_label(w.kind)@,
            )),
    {
        match &self.game {
            Some(state) => Some(snapshot_of(state, "mux".to_owned())),
            None => match &self.active_worker {
                Some(worker) => Some(
                    snapshot_of(&worker.state, join2("worker:", worker_label_text(worker.kind))),
                ),
                None => None,
            },
        }
    }

    /// The game in progress between moves.
    pub fn game(&self) -> (state: Option<&GameStateData>)
        ensures
            state is Some <==> self@.game is Some,
            state matches Some(g) ==> self@.game == Some(g@),
    {
        match &self.game {
            Some(state) => Some(state),
            None => None,
        }
    }

    /// The game that waits for its settlement.
    pub fn active_settle(&self) -> (settle: Option<ActiveSettleState>)
        ensures
            settle == self@.active_settle,
    {
        self.active_settle
    }

    /// Puts the game in progress into another proper state, away from the chain. Tells whether there
    /// was a game and the state is proper; if not, nothing changes.
    pub fn set_up_position(&mut self, state: GameStateData) -> (done: bool)
        requires
            old(self).wf(),
        ensures
            final(self).wf(),
            done == (old(self)@.game is Some && state@.wf()),
            final(self)@ == if done {
                ArenaView { game: Some(state@), ..old(self)@ }
            } else {
                old(self)@
            },
    {
        if self.game.is_none() || !state.is_proper() {
            return false;
        }
        self.game = Some(state);
        true
    }

    /// Adds a transaction.
    pub(crate) fn push_tx(&mut self, tx: &ChainTx)
        ensures
            final(self)@ == old(self)@.with_tx(tx@),
            old(self).maps_wf() ==> final(self).maps_wf(),
    {
        self.transactions.push(tx.clone());
        assert(self@.transactions =~= old(self)@.transactions.push(tx@));
    }

    /// Adds a record.
    pub(crate) fn push_record(&mut self, submission: SubmittedTx)
        ensures
            final(self)@ == (ArenaView { history: old(self)@.history.push(submission@), ..old(self)@ }),
            old(self).maps_wf() ==> final(self).maps_wf(),
    {
        self.history.push(submission);
        assert(self@.history =~= old(self)@.history.push(submission@));
    }

    /// Adds transactions.
    pub(crate) fn push_txs(&mut self, txs: Vec<ChainTx>)
        ensures
            final(self)@ == (ArenaView {
                transactions: old(self)@.transactions + tx_views(txs@),
                ..old(self)@
            }),
            old(self).maps_wf() ==> final(self).maps_wf(),
    {
        let mut txs = txs;
        let ghost added = txs@;
        self.transactions.append(&mut txs);
        assert(self@.transactions =~= old(self)@.transactions + tx_views(added));
    }

    /// Adds records.
    pub(crate) fn push_records(&mut self, submissions: &Vec<SubmittedTx>)
        ensures
            final(self)@ == (ArenaView {
                history: old(self)@.history + submission_views(submissions@),
                ..old(self)@
            }),
            old(self).maps_wf() ==> final(self).maps_wf(),
    {
        let mut copies: Vec<SubmittedTx> = copy_submissions(submissions);
        let ghost added = copies@;
        self.history.append(&mut copies);
        assert(self@.history =~= old(self)@.history + submission_views(added));
    }

    /// Delivers a message.
    pub(crate) fn push_message(&mut self, from: &str, to: &String, kind: OffchainMessageKind)
        requires
            old(self).maps_wf(),
        ensures
            final(self)@ == old(self)@.with_message(from@, to@, kind@),
            final(self).maps_wf(),
    {
        messages::deliver(
            &mut self.messages,
            OffchainMessage { from: from.to_owned(), to: to.clone(), kind },
        );
    }

    /// Sets a player's entry.
    pub(crate) fn set_player(&mut self, name: &String, state: PlayerStateData)
        requires
            old(self).maps_wf(),
        ensures
            final(self)@ == old(self)@.with_player(name@, state),
            final(self).maps_wf(),
    {
        self.players.insert(name.clone(), state);
    }

    /// Puts a game in progress.
    pub(crate) fn set_game(&mut self, state: GameStateData, outpoint: Outpoint)
        ensures
            final(self)@ == old(self)@.with_game(state@, outpoint),
            old(self).maps_wf() ==> final(self).maps_wf(),
    {
        self.game = Some(state);
        self.game_outpoint = Some(outpoint);
    }

    /// Takes the game in progress away.
    pub(crate) fn clear_game(&mut self)
        ensures
            final(self)@ == old(self)@.without_game(),
            old(self).maps_wf() ==> final(self).maps_wf(),
    {
        self.game = None;
        self.game_outpoint = None;
    }
}

/// Whether an account shows a player's entry.
pub open spec fn is_account_of(account: PlayerAccount, state: PlayerStateData) -> bool {
    &&& account.owner_hash == state.owner_hash
    &&& account.player_id == state.player_id
    &&& account.value == state.value
    &&& account.open_games == state.open_games
    &&& account.rating == state.rating
    &&& account.games == state.games
    &&& account.wins == state.wins
    &&& account.draws == state.draws
    &&& account.losses == state.losses
}

/// Whether a player is registered.
pub open spec fn registered(player: SignerView) -> bool {
    player.player_ref is Some && player.player_id is Some
}

/// Refuses a player who is not registered.
pub fn require_registered(player: &SigningPlayer) -> (outcome: Result<(), OrchestratorError>)
    ensures
        error::verdict(outcome) == (if registered(player@) {
            Ok::<(), Seq<char>>(())
        } else {
            Err(player@.name + " is not registered"@)
        }),
{
    if player.player_ref.is_none() || player.player_id.is_none() {
        return Err(OrchestratorError(join2(player.name.as_str(), " is not registered")));
    }
    Ok(())
}

} // verus!
