//! The league: its launch, its lanes, and the players who register, change their stake and leave.

use vstd::prelude::*;

use crate::arena::{self, one_signer, require_registered, submitted_tx, ArenaView, LeagueLane, TxArena};
use crate::chain::{self, ChainTx, Outpoint, Unspent, UnspentView};
use crate::dialogue::{
    self, hear_builder, hear_done, hear_output, hear_tx, hear_uid, hear_utxo, stop, CovenantOutput, Halt,
    HaltView, Progress, Reply, ReplyView, Request, RequestView,
};
use crate::error::OrchestratorError;
use crate::game::{self, league_source_state, player_source_state, PlayerStateData};
use crate::hash::{self, player_ref_hash, Hash32};
use crate::messages::{MessageKindView, OffchainMessageKind};
use crate::names::NameMap;
use crate::plan::{
    self, with_owner_args, EntryCall, PlannedInput, PlannedInputView, PlannedOutput,
    PlannedOutputView, StateView, TxPlan, TxPlanView,
};
use crate::signing::{self, SignerView, SigningPlayer};
use crate::text::{self, decimal_text, join2};

verus! {

/// The rating with which a player enters the league.
pub const BASE_RATING: i64 = 1200;

/// The seed of the league's administrator.
pub const ADMIN_SEED: u8 = 0x33;

/// Whether a player is the one that a name and a seed give, not yet registered.
pub open spec fn fresh_signer(player: SignerView, name: Seq<char>, seed: u8) -> bool {
    &&& player.name == name
    &&& player.secret == Seq::new(32, |i: int| seed)
    &&& player.public_key == signing::x_only_public_key(player.secret)
    &&& player.owner_hash@ == hash::blake2b_256(player.public_key)
    &&& player.player_id is None
    &&& player.player_ref is None
}

/// The administrator of the league.
pub open spec fn admin() -> SignerView {
    choose|player: SignerView| fresh_signer(player, "admin"@, ADMIN_SEED)
}

/// A name and a seed give one player only.
pub proof fn signer_is_unique(a: SignerView, b: SignerView, name: Seq<char>, seed: u8)
    requires
        fresh_signer(a, name, seed),
        fresh_signer(b, name, seed),
    ensures
        a == b,
{
    hash::lemma_hash_ext(a.owner_hash, b.owner_hash);
}

/// The output that funds the launch.
pub open spec fn funding_outpoint() -> Outpoint {
    Outpoint { transaction_id: hash::hash_of(Seq::new(32, |i: int| 0x77u8)), index: 0 }
}

/// The content of the output that funds the launch.
pub open spec fn funding_utxo() -> UnspentView {
    UnspentView {
        amount: 1000,
        script_version: 0,
        script: seq![0x51u8],
        block_daa_score: 0,
        is_coinbase: false,
        covenant_id: None,
    }
}

/// The transaction that launches the league.
pub open spec fn launch_plan() -> TxPlanView {
    plan::plan().input(
        PlannedInputView::Plain {
            outpoint: funding_outpoint(),
            utxo: funding_utxo(),
            signature_script: Seq::empty(),
            sequence: 0,
        },
    ).output(
        PlannedOutputView::Genesis {
            authorizing_input: 0,
            label: "launch::league"@,
            actor: "League"@,
            state: game::league_fields(BASE_RATING, admin().owner_hash),
            value: 1000,
        },
    )
}

/// How far the launch gets.
pub open spec fn launch_progress(replies: Seq<ReplyView>) -> Progress {
    dialogue::ask(
        replies,
        0,
        RequestView::LoadArtifact,
        "failed to load pinned Argent artifact: "@,
        ""@,
        dialogue::ask(
            replies,
            1,
            RequestView::CheckArtifact,
            "invalid pinned Argent artifact: "@,
            ""@,
            dialogue::ask_builder(
                replies,
                2,
                dialogue::ask(
                    replies,
                    3,
                    RequestView::Build { plan: launch_plan() },
                    "launch League: "@,
                    ""@,
                    dialogue::ask(
                        replies,
                        4,
                        RequestView::ReadOutput { tx: dialogue::tx_at(replies, 3), index: 0 },
                        "read League genesis output: "@,
                        ""@,
                        Progress::Finished,
                    ),
                ),
            ),
        ),
    )
}

/// The arena after the launch: one lane, no players, no game, nothing on record.
pub open spec fn launched(offboard: u8, replies: Seq<ReplyView>) -> ArenaView {
    let output = dialogue::output_at(replies, 4);
    ArenaView {
        admin: admin(),
        league_lanes: seq![LeagueLane { outpoint: output.outpoint, value: output.utxo.amount }],
        base_rating: BASE_RATING,
        covenant_id: output.covenant_id,
        players: Map::empty(),
        game: None,
        game_outpoint: None,
        active_worker: None,
        active_settle: None,
        messages: Map::empty(),
        history: Seq::empty(),
        transactions: Seq::empty(),
        offboard: offboard as i64,
    }
}

/// The fields of the league's state.
pub open spec fn league_state(a: ArenaView) -> StateView {
    game::league_fields(a.base_rating, a.admin.owner_hash)
}

/// The refusal of a lane that is not there.
pub open spec fn lane_refusal(a: ArenaView, lane_index: int) -> Option<Seq<char>> {
    if lane_index < a.league_lanes.len() {
        None
    } else {
        Some("missing League lane "@ + text::decimal(lane_index as nat))
    }
}

/// The transaction in which a signer acts on a lane, up to its outputs.
pub open spec fn lane_plan(
    a: ArenaView,
    lane: LeagueLane,
    call: Seq<char>,
    signer: SignerView,
    utxo: UnspentView,
) -> TxPlanView {
    plan::plan().spend(
        "League"@,
        league_state(a),
        plan::owner_args(plan::entry(call), signer.secret, signer.public_key),
        lane.outpoint,
        utxo,
        0,
    )
}

/// How far the administrator's work on a lane gets.
pub open spec fn lane_progress(
    a: ArenaView,
    lane_index: int,
    plan: TxPlanView,
    context: Seq<char>,
    replies: Seq<ReplyView>,
) -> Progress {
    dialogue::check(
        lane_refusal(a, lane_index),
        dialogue::ask_builder(
            replies,
            0,
            dialogue::ask(
                replies,
                1,
                dialogue::utxo_request(
                    "League"@,
                    league_state(a),
                    a.league_lanes[lane_index].value,
                    a.covenant_id,
                ),
                "build League lane UTXO: "@,
                ""@,
                dialogue::ask(
                    replies,
                    2,
                    RequestView::Build { plan },
                    context,
                    ""@,
                    Progress::Finished,
                ),
            ),
        ),
    )
}

/// How far giving a lane a new value gets.
pub open spec fn rebalance_progress(
    a: ArenaView,
    lane_index: int,
    value: u64,
    replies: Seq<ReplyView>,
) -> Progress {
    lane_progress(
        a,
        lane_index,
        lane_plan(a, a.league_lanes[lane_index], "rebalance"@, a.admin, dialogue::utxo_at(replies, 1)).keep(
            "League"@,
            league_state(a),
            a.covenant_id,
            value,
        ),
        "rebalance League lane: "@,
        replies,
    )
}

/// The arena after giving a lane a new value was tried.
pub open spec fn rebalance_after(
    a: ArenaView,
    lane_index: int,
    value: u64,
    replies: Seq<ReplyView>,
) -> ArenaView {
    if rebalance_progress(a, lane_index, value, replies) is Finished {
        let tx = dialogue::tx_at(replies, 2);
        ArenaView {
            league_lanes: a.league_lanes.update(
                lane_index,
                LeagueLane { outpoint: chain::output_of(tx, 0), value },
            ),
            ..a
        }.with_tx(tx).with_record("league_rebalance"@, tx, seq![a.admin.name])
    } else {
        a
    }
}

/// How far splitting a lane gets.
pub open spec fn fork_progress(
    a: ArenaView,
    lane_index: int,
    left_value: u64,
    right_value: u64,
    replies: Seq<ReplyView>,
) -> Progress {
    lane_progress(
        a,
        lane_index,
        lane_plan(a, a.league_lanes[lane_index], "fork"@, a.admin, dialogue::utxo_at(replies, 1)).keep(
            "League"@,
            league_state(a),
            a.covenant_id,
            left_value,
        ).keep("League"@, league_state(a), a.covenant_id, right_value),
        "fork League lane: "@,
        replies,
    )
}

/// The arena after splitting a lane was tried: two lanes stand in its place.
pub open spec fn fork_after(
    a: ArenaView,
    lane_index: int,
    left_value: u64,
    right_value: u64,
    replies: Seq<ReplyView>,
) -> ArenaView {
    if fork_progress(a, lane_index, left_value, right_value, replies) is Finished {
        let tx = dialogue::tx_at(replies, 2);
        ArenaView {
            league_lanes: a.league_lanes.take(lane_index) + seq![
                LeagueLane { outpoint: chain::output_of(tx, 0), value: left_value },
                LeagueLane { outpoint: chain::output_of(tx, 1), value: right_value },
            ] + a.league_lanes.skip(lane_index + 1),
            ..a
        }.with_tx(tx).with_record("league_fork"@, tx, seq![a.admin.name])
    } else {
        a
    }
}

/// The entry of a player who just registered.
pub open spec fn newcomer(
    a: ArenaView,
    player: SignerView,
    player_id: Hash32,
    outpoint: Outpoint,
) -> PlayerStateData {
    PlayerStateData {
        owner_hash: player.owner_hash,
        player_id,
        outpoint,
        value: 1000,
        open_games: 0,
        rating: a.base_rating,
        games: 0,
        wins: 0,
        draws: 0,
        losses: 0,
    }
}

/// The identifier in the first reply.
pub open spec fn uid_at(replies: Seq<ReplyView>) -> Hash32 {
    replies[0]->Uid_0
}

/// How far a registration gets.
pub open spec fn register_progress(
    a: ArenaView,
    player: SignerView,
    lane_index: int,
    replies: Seq<ReplyView>,
) -> Progress {
    let lane = a.league_lanes[lane_index];
    dialogue::check(
        lane_refusal(a, lane_index),
        dialogue::ask(
            replies,
            0,
            RequestView::InvocationUid { outpoint: lane.outpoint, tag: "LeaguePlayerId"@ },
            "derive player ID: "@,
            ""@,
            dialogue::ask_builder(
                replies,
                1,
                dialogue::ask(
                    replies,
                    2,
                    dialogue::utxo_request("League"@, league_state(a), lane.value, a.covenant_id),
                    "build League UTXO: "@,
                    ""@,
                    dialogue::ask(
                        replies,
                        3,
                        RequestView::Build {
                            plan: lane_plan(
                                a,
                                lane,
                                "register_player"@,
                                player,
                                dialogue::utxo_at(replies, 2),
                            ).keep("League"@, league_state(a), a.covenant_id, lane.value).keep(
                                "Player"@,
                                game::player_fields(newcomer(a, player, uid_at(replies), lane.outpoint)),
                                a.covenant_id,
                                1000,
                            ),
                        },
                        "register player: "@,
                        ""@,
                        Progress::Finished,
                    ),
                ),
            ),
        ),
    )
}

/// The arena after a registration was tried.
pub open spec fn register_after(
    a: ArenaView,
    player: SignerView,
    lane_index: int,
    replies: Seq<ReplyView>,
) -> ArenaView {
    if register_progress(a, player, lane_index, replies) is Finished {
        let tx = dialogue::tx_at(replies, 3);
        ArenaView {
            league_lanes: a.league_lanes.update(
                lane_index,
                LeagueLane { outpoint: chain::output_of(tx, 0), ..a.league_lanes[lane_index] },
            ),
            ..a
        }.with_tx(tx).with_player(
            player.name,
            newcomer(a, player, uid_at(replies), chain::output_of(tx, 1)),
        ).with_record("register_player"@, tx, seq![player.name])
    } else {
        a
    }
}

/// The player after a registration was tried.
pub open spec fn registrant(
    a: ArenaView,
    player: SignerView,
    lane_index: int,
    replies: Seq<ReplyView>,
) -> SignerView {
    if register_progress(a, player, lane_index, replies) is Finished {
        let id = uid_at(replies);
        SignerView {
            player_id: Some(id),
            player_ref: Some(hash::hash_of(hash::player_ref_bytes(player.owner_hash, id))),
            ..player
        }
    } else {
        player
    }
}

impl TxArena {
    /// Launches the league. `offboard` is the number that stands for no square.
    pub fn new(offboard: u8, replies: &Vec<Reply>) -> (launched_arena: Result<TxArena, Halt>)
        ensures
            dialogue::halt_of(launched_arena) == dialogue::halted(
                launch_progress(dialogue::reply_views(replies@)),
            ),
            launched_arena matches Ok(a) ==> a.wf() && a@ == launched(
                offboard,
                dialogue::reply_views(replies@),
            ),
    {
        hear_done(
            replies,
            0,
            Request::LoadArtifact,
            "failed to load pinned Argent artifact: ",
            "",
        )?;
        hear_done(
            replies,
            1,
            Request::CheckArtifact,
            "invalid pinned Argent artifact: ",
            "",
        )?;
        let admin_player: SigningPlayer = SigningPlayer::from_seed("admin", ADMIN_SEED);
        proof {
            assert(fresh_signer(admin_player@, "admin"@, ADMIN_SEED));
            signer_is_unique(admin_player@, admin(), "admin"@, ADMIN_SEED);
        }
        hear_builder(replies, 2)?;
        let funding_id: Hash32 = Hash32 { bytes: [0x77; 32] };
        proof {
            assert(funding_id@ =~= Seq::new(32, |i: int| 0x77u8));
            hash::lemma_hash_of(funding_id);
        }
        let utxo: Unspent = Unspent {
            amount: 1000,
            script_version: 0,
            script: vec![0x51],
            block_daa_score: 0,
            is_coinbase: false,
            covenant_id: None,
        };
        assert(utxo.script@ =~= seq![0x51u8]);
        let signature_script: Vec<u8> = Vec::new();
        let plan: TxPlan = TxPlan::new().input(
            PlannedInput::Plain {
                outpoint: Outpoint { transaction_id: funding_id, index: 0 },
                utxo,
                signature_script,
                sequence: 0,
            },
        ).output(
            PlannedOutput::Genesis {
                authorizing_input: 0,
                label: "launch::league",
                actor: "League",
                state: league_source_state(BASE_RATING, admin_player.owner_hash),
                value: 1000,
            },
        );
        let tx: &ChainTx = hear_tx(replies, 3, Request::Build { plan }, "launch League: ", "")?;
        let output: &CovenantOutput = hear_output(
            replies,
            4,
            Request::ReadOutput { tx: tx.clone(), index: 0 },
            "read League genesis output: ",
            "",
        )?;
        let league_lanes: Vec<LeagueLane> = vec![
            LeagueLane { outpoint: output.outpoint, value: output.utxo.amount },
        ];
        let fresh: TxArena = TxArena {
            admin: admin_player,
            league_lanes,
            base_rating: BASE_RATING,
            covenant_id: output.covenant_id,
            players: NameMap::new(),
            game: None,
            game_outpoint: None,
            active_worker: None,
            active_settle: None,
            messages: NameMap::new(),
            history: Vec::new(),
            transactions: Vec::new(),
            offboard: offboard as i64,
        };
        proof {
            let expected = launched(offboard, dialogue::reply_views(replies@));
            assert(fresh@.league_lanes =~= expected.league_lanes);
            assert(fresh@.messages =~= expected.messages);
            assert(fresh@.history =~= expected.history);
            assert(fresh@.transactions =~= expected.transactions);
        }
        Ok(fresh)
    }

    fn lane(&self, lane_index: usize) -> (lane: Result<LeagueLane, Halt>)
        ensures
            lane is Ok <==> lane_refusal(self@, lane_index as int) is None,
            lane matches Ok(l) ==> l == self@.league_lanes[lane_index as int],
            lane matches Err(halt) ==> halt@ == HaltView::Refused(
                lane_refusal(self@, lane_index as int)->Some_0,
            ),
    {
        if lane_index < self.league_lanes.len() {
            Ok(self.league_lanes[lane_index])
        } else {
            Err(stop(join2("missing League lane ", decimal_text(lane_index as u64).as_str()).as_str()))
        }
    }

    fn start_lane_plan(
        &self,
        lane: LeagueLane,
        call: &'static str,
        signer: &SigningPlayer,
        utxo: &Unspent,
    ) -> (planned: TxPlan)
        ensures
            planned@ == lane_plan(self@, lane, call@, signer@, utxo@),
    {
        TxPlan::new().spend(
            "League",
            league_source_state(self.base_rating, self.admin.owner_hash),
            with_owner_args(EntryCall::new(call), signer.keypair, &signer.pubkey_bytes),
            lane.outpoint,
            utxo.clone(),
            0,
        )
    }

    fn lane_utxo<'a>(
        &self,
        lane: LeagueLane,
        replies: &'a Vec<Reply>,
    ) -> (utxo: Result<&'a Unspent, Halt>)
        ensures
            ({
                let request = dialogue::utxo_request(
                    "League"@,
                    league_state(self@),
                    lane.value,
                    self@.covenant_id,
                );
                let views = dialogue::reply_views(replies@);
                &&& utxo is Ok <==> dialogue::heard(views, 1, request) is Ok
                &&& utxo matches Ok(u) ==> views[1] == ReplyView::Utxo(u@)
                &&& utxo matches Err(halt) ==> halt@ == dialogue::unanswered(
                    views,
                    1,
                    request,
                    "build League lane UTXO: "@,
                    ""@,
                )
            }),
    {
        hear_utxo(
            replies,
            1,
            Request::ActorUtxo {
                actor: "League",
                state: league_source_state(self.base_rating, self.admin.owner_hash),
                value: lane.value,
                covenant_id: self.covenant_id,
            },
            "build League lane UTXO: ",
            "",
        )
    }

    /// Gives a lane a new value.
    pub fn rebalance_league(
        &mut self,
        lane_index: usize,
        value: u64,
        replies: &Vec<Reply>,
    ) -> (done: Result<(), Halt>)
        requires
            old(self).wf(),
        ensures
            final(self).wf(),
            dialogue::halt_of(done) == dialogue::halted(
                rebalance_progress(
                    old(self)@,
                    lane_index as int,
                    value,
                    dialogue::reply_views(replies@),
                ),
            ),
            final(self)@ == rebalance_after(
                old(self)@,
                lane_index as int,
                value,
                dialogue::reply_views(replies@),
            ),
    {
        let ghost first = self@;
        let lane: LeagueLane = self.lane(lane_index)?;
        hear_builder(replies, 0)?;
        let lane_utxo: &Unspent = self.lane_utxo(lane, replies)?;
        let plan: TxPlan = self.start_lane_plan(lane, "rebalance", &self.admin, lane_utxo).keep(
            "League",
            league_source_state(self.base_rating, self.admin.owner_hash),
            self.covenant_id,
            value,
        );
        let tx: &ChainTx = hear_tx(replies, 2, Request::Build { plan }, "rebalance League lane: ", "")?;
        self.league_lanes[lane_index] = LeagueLane { outpoint: tx.outpoint(0), value };
        self.push_tx(tx);
        let signers: Vec<String> = one_signer(&self.admin.name);
        self.push_record(submitted_tx("league_rebalance", tx, signers));
        proof {
            arena::lemma_record_tx(
                first.history,
                first.transactions,
                "league_rebalance"@,
                tx@,
                seq![first.admin.name],
            );
        }
        Ok(())
    }

    /// Splits a lane in two.
    pub fn fork_league(
        &mut self,
        lane_index: usize,
        left_value: u64,
        right_value: u64,
        replies: &Vec<Reply>,
    ) -> (done: Result<(), Halt>)
        requires
            old(self).wf(),
        ensures
            final(self).wf(),
            dialogue::halt_of(done) == dialogue::halted(
                fork_progress(
                    old(self)@,
                    lane_index as int,
                    left_value,
                    right_value,
                    dialogue::reply_views(replies@),
                ),
            ),
            final(self)@ == fork_after(
                old(self)@,
                lane_index as int,
                left_value,
                right_value,
                dialogue::reply_views(replies@),
            ),
    {
        let ghost first = self@;
        let lane: LeagueLane = self.lane(lane_index)?;
        hear_builder(replies, 0)?;
        let lane_utxo: &Unspent = self.lane_utxo(lane, replies)?;
        let plan: TxPlan = self.start_lane_plan(lane, "fork", &self.admin, lane_utxo).keep(
            "League",
            league_source_state(self.base_rating, self.admin.owner_hash),
            self.covenant_id,
            left_value,
        ).keep(
            "League",
            league_source_state(self.base_rating, self.admin.owner_hash),
            self.covenant_id,
            right_value,
        );
        let tx: &ChainTx = hear_tx(replies, 2, Request::Build { plan }, "fork League lane: ", "")?;
        let count: usize = self.league_lanes.len();
        assert(lane_index < count);
        self.league_lanes[lane_index] = LeagueLane { outpoint: tx.outpoint(0), value: left_value };
        self.league_lanes.insert(
            lane_index + 1,
            LeagueLane { outpoint: tx.outpoint(1), value: right_value },
        );
        proof {
            assert(self.league_lanes@ =~= first.league_lanes.take(lane_index as int) + seq![
                LeagueLane { outpoint: chain::output_of(tx@, 0), value: left_value },
                LeagueLane { outpoint: chain::output_of(tx@, 1), value: right_value },
            ] + first.league_lanes.skip(lane_index + 1));
        }
        self.push_tx(tx);
        let signers: Vec<String> = one_signer(&self.admin.name);
        self.push_record(submitted_tx("league_fork", tx, signers));
        proof {
            arena::lemma_record_tx(
                first.history,
                first.transactions,
                "league_fork"@,
                tx@,
                seq![first.admin.name],
            );
        }
        Ok(())
    }

    /// Registers a player on the first lane.
    pub fn register_player(
        &mut self,
        player: &mut SigningPlayer,
        replies: &Vec<Reply>,
    ) -> (done: Result<(), Halt>)
        requires
            old(self).wf(),
        ensures
            final(self).wf(),
            dialogue::halt_of(done) == dialogue::halted(
                register_progress(old(self)@, old(player)@, 0, dialogue::reply_views(replies@)),
            ),
            final(self)@ == register_after(
                old(self)@,
                old(player)@,
                0,
                dialogue::reply_views(replies@),
            ),
            final(player)@ == registrant(old(self)@, old(player)@, 0, dialogue::reply_views(replies@)),
    {
        self.register_player_on_lane(player, 0, replies)
    }

    /// Registers a player on a lane: the player gets an identity, an entry with the base rating and
    /// an empty record.
    pub fn register_player_on_lane(
        &mut self,
        player: &mut SigningPlayer,
        lane_index: usize,
        replies: &Vec<Reply>,
    ) -> (done: Result<(), Halt>)
        requires
            old(self).wf(),
        ensures
            final(self).wf(),
            dialogue::halt_of(done) == dialogue::halted(
                register_progress(
                    old(self)@,
                    old(player)@,
                    lane_index as int,
                    dialogue::reply_views(replies@),
                ),
            ),
            final(self)@ == register_after(
                old(self)@,
                old(player)@,
                lane_index as int,
                dialogue::reply_views(replies@),
            ),
            final(player)@ == registrant(
                old(self)@,
                old(player)@,
                lane_index as int,
                dialogue::reply_views(replies@),
            ),
    {
        let ghost first = self@;
        let lane: LeagueLane = self.lane(lane_index)?;
        let player_id: Hash32 = hear_uid(
            replies,
            0,
            Request::InvocationUid { outpoint: lane.outpoint, tag: "LeaguePlayerId" },
            "derive player ID: ",
            "",
        )?;
        let player_ref: Hash32 = player_ref_hash(player.owner_hash, player_id);
        proof {
            hash::lemma_hash_of(player_ref);
        }
        let registered: PlayerStateData = PlayerStateData {
            owner_hash: player.owner_hash,
            player_id,
            outpoint: lane.outpoint,
            value: 1000,
            open_games: 0,
            rating: self.base_rating,
            games: 0,
            wins: 0,
            draws: 0,
            losses: 0,
        };
        hear_builder(replies, 1)?;
        let league_utxo: &Unspent = hear_utxo(
            replies,
            2,
            Request::ActorUtxo {
                actor: "League",
                state: league_source_state(self.base_rating, self.admin.owner_hash),
                value: lane.value,
                covenant_id: self.covenant_id,
            },
            "build League UTXO: ",
            "",
        )?;
        let plan: TxPlan = self.start_lane_plan(lane, "register_player", player, league_utxo).keep(
            "League",
            league_source_state(self.base_rating, self.admin.owner_hash),
            self.covenant_id,
            lane.value,
        ).keep("Player", player_source_state(&registered), self.covenant_id, registered.value);
        let tx: &ChainTx = hear_tx(replies, 3, Request::Build { plan }, "register player: ", "")?;
        self.league_lanes[lane_index] = LeagueLane { outpoint: tx.outpoint(0), value: lane.value };
        self.push_tx(tx);
        player.player_id = Some(player_id);
        player.player_ref = Some(player_ref);
        self.set_player(&player.name, PlayerStateData { outpoint: tx.outpoint(1), ..registered });
        self.push_record(submitted_tx("register_player", tx, one_signer(&player.name)));
        proof {
            arena::lemma_record_tx(
                first.history,
                first.transactions,
                "register_player"@,
                tx@,
                seq![player.name@],
            );
        }
        Ok(())
    }
}

/// How far a player's retirement gets.
pub open spec fn retire_progress(
    a: ArenaView,
    player: SignerView,
    replies: Seq<ReplyView>,
) -> Progress {
    let state = a.players[player.name];
    dialogue::check(
        if a.players.contains_key(player.name) {
            None
        } else {
            Some("missing player"@)
        },
        dialogue::ask_builder(
            replies,
            0,
            dialogue::ask(
                replies,
                1,
                dialogue::utxo_request("Player"@, game::player_fields(state), state.value, a.covenant_id),
                "build retiring Player UTXO: "@,
                ""@,
                dialogue::ask(
                    replies,
                    2,
                    RequestView::Build {
                        plan: plan::plan().spend(
                            "Player"@,
                            game::player_fields(state),
                            plan::owner_args(plan::entry("retire"@), player.secret, player.public_key),
                            state.outpoint,
                            dialogue::utxo_at(replies, 1),
                            0,
                        ),
                    },
                    "retire player: "@,
                    ""@,
                    Progress::Finished,
                ),
            ),
        ),
    )
}

/// The arena after a retirement was tried.
pub open spec fn retire_after(
    a: ArenaView,
    player: SignerView,
    replies: Seq<ReplyView>,
) -> ArenaView {
    if retire_progress(a, player, replies) is Finished {
        let tx = dialogue::tx_at(replies, 2);
        ArenaView { players: a.players.remove(player.name), ..a }.with_tx(tx).with_record(
            "retire"@,
            tx,
            seq![player.name],
        )
    } else {
        a
    }
}

/// How far giving a player a new value gets.
pub open spec fn stake_progress(
    a: ArenaView,
    player: SignerView,
    value: u64,
    replies: Seq<ReplyView>,
) -> Progress {
    let state = a.players[player.name];
    dialogue::check(
        if a.players.contains_key(player.name) {
            None
        } else {
            Some("missing player"@)
        },
        dialogue::ask_builder(
            replies,
            0,
            dialogue::ask(
                replies,
                1,
                dialogue::utxo_request("Player"@, game::player_fields(state), state.value, a.covenant_id),
                "build rebalancing Player UTXO: "@,
                ""@,
                dialogue::ask(
                    replies,
                    2,
                    RequestView::Build {
                        plan: plan::plan().spend(
                            "Player"@,
                            game::player_fields(state),
                            plan::owner_args(plan::entry("rebalance"@), player.secret, player.public_key),
                            state.outpoint,
                            dialogue::utxo_at(replies, 1),
                            0,
                        ).keep("Player"@, game::player_fields(state), a.covenant_id, value),
                    },
                    "rebalance Player: "@,
                    ""@,
                    Progress::Finished,
                ),
            ),
        ),
    )
}

/// The arena after giving a player a new value was tried.
pub open spec fn stake_after(
    a: ArenaView,
    player: SignerView,
    value: u64,
    replies: Seq<ReplyView>,
) -> ArenaView {
    if stake_progress(a, player, value, replies) is Finished {
        let tx = dialogue::tx_at(replies, 2);
        a.with_tx(tx).with_player(
            player.name,
            PlayerStateData { outpoint: chain::output_of(tx, 0), value, ..a.players[player.name] },
        ).with_record("player_rebalance"@, tx, seq![player.name])
    } else {
        a
    }
}

/// Why an invitation between two players is refused.
pub open spec fn invite_refusal(white: SignerView, black: SignerView) -> Option<Seq<char>> {
    if !arena::registered(white) {
        Some(white.name + " is not registered"@)
    } else if !arena::registered(black) {
        Some(black.name + " is not registered"@)
    } else {
        None
    }
}

/// The arena after white invited black.
pub open spec fn invited(a: ArenaView, white: SignerView, black: SignerView) -> ArenaView {
    a.with_message(
        white.name,
        black.name,
        MessageKindView::GameInvite { proposed_white: white.name, proposed_black: black.name },
    )
}

/// The arena after black accepted white's invitation.
pub open spec fn invitation_accepted(a: ArenaView, black: SignerView, white: SignerView) -> ArenaView {
    a.with_message(
        black.name,
        white.name,
        MessageKindView::InviteAccepted { white: white.name, black: black.name },
    )
}

/// The refusal of an operation that needs no outside work.
pub open spec fn refusal_of(done: Result<(), OrchestratorError>) -> Option<Seq<char>> {
    match done {
        Ok(_) => None,
        Err(e) => Some(e.0@),
    }
}

impl TxArena {
    /// Removes a player from the league.
    pub fn retire_player(
        &mut self,
        player: &SigningPlayer,
        replies: &Vec<Reply>,
    ) -> (done: Result<(), Halt>)
        requires
            old(self).wf(),
        ensures
            final(self).wf(),
            dialogue::halt_of(done) == dialogue::halted(
                retire_progress(old(self)@, player@, dialogue::reply_views(replies@)),
            ),
            final(self)@ == retire_after(old(self)@, player@, dialogue::reply_views(replies@)),
    {
        let ghost first = self@;
        let state: PlayerStateData = match self.players.get(&player.name) {
            Some(state) => *state,
            None => return Err(stop("missing player")),
        };
        hear_builder(replies, 0)?;
        let player_utxo: &Unspent = hear_utxo(
            replies,
            1,
            Request::ActorUtxo {
                actor: "Player",
                state: player_source_state(&state),
                value: state.value,
                covenant_id: self.covenant_id,
            },
            "build retiring Player UTXO: ",
            "",
        )?;
        let plan: TxPlan = TxPlan::new().spend(
            "Player",
            player_source_state(&state),
            with_owner_args(EntryCall::new("retire"), player.keypair, &player.pubkey_bytes),
            state.outpoint,
            player_utxo.clone(),
            0,
        );
        let tx: &ChainTx = hear_tx(replies, 2, Request::Build { plan }, "retire player: ", "")?;
        self.push_tx(tx);
        self.players.remove(&player.name);
        self.push_record(submitted_tx("retire", tx, one_signer(&player.name)));
        proof {
            arena::lemma_record_tx(
                first.history,
                first.transactions,
                "retire"@,
                tx@,
                seq![player.name@],
            );
        }
        Ok(())
    }

    /// Gives a player a new value.
    pub fn rebalance_player(
        &mut self,
        player: &SigningPlayer,
        value: u64,
        replies: &Vec<Reply>,
    ) -> (done: Result<(), Halt>)
        requires
            old(self).wf(),
        ensures
            final(self).wf(),
            dialogue::halt_of(done) == dialogue::halted(
                stake_progress(old(self)@, player@, value, dialogue::reply_views(replies@)),
            ),
            final(self)@ == stake_after(old(self)@, player@, value, dialogue::reply_views(replies@)),
    {
        let ghost first = self@;
        let state: PlayerStateData = match self.players.get(&player.name) {
            Some(state) => *state,
            None => return Err(stop("missing player")),
        };
        hear_builder(replies, 0)?;
        let player_utxo: &Unspent = hear_utxo(
            replies,
            1,
            Request::ActorUtxo {
                actor: "Player",
                state: player_source_state(&state),
                value: state.value,
                covenant_id: self.covenant_id,
            },
            "build rebalancing Player UTXO: ",
            "",
        )?;
        let plan: TxPlan = TxPlan::new().spend(
            "Player",
            player_source_state(&state),
            with_owner_args(EntryCall::new("rebalance"), player.keypair, &player.pubkey_bytes),
            state.outpoint,
            player_utxo.clone(),
            0,
        ).keep("Player", player_source_state(&state), self.covenant_id, value);
        let tx: &ChainTx = hear_tx(replies, 2, Request::Build { plan }, "rebalance Player: ", "")?;
        self.push_tx(tx);
        self.set_player(&player.name, PlayerStateData { outpoint: tx.outpoint(0), value, ..state });
        self.push_record(submitted_tx("player_rebalance", tx, one_signer(&player.name)));
        proof {
            arena::lemma_record_tx(
                first.history,
                first.transactions,
                "player_rebalance"@,
                tx@,
                seq![player.name@],
            );
        }
        Ok(())
    }

    /// Invites a player to a game in which the inviting player has white.
    pub fn send_game_invite(
        &mut self,
        white: &SigningPlayer,
        black: &SigningPlayer,
    ) -> (done: Result<(), OrchestratorError>)
        requires
            old(self).wf(),
        ensures
            final(self).wf(),
            refusal_of(done) == invite_refusal(white@, black@),
            final(self)@ == if done is Ok {
                invited(old(self)@, white@, black@)
            } else {
                old(self)@
            },
    {
        require_registered(white)?;
        require_registered(black)?;
        self.push_message(
            white.name.as_str(),
            &black.name,
            OffchainMessageKind::GameInvite {
                proposed_white: white.name.clone(),
                proposed_black: black.name.clone(),
            },
        );
        Ok(())
    }

    /// Accepts an invitation to a game.
    pub fn accept_game_invite(
        &mut self,
        black: &SigningPlayer,
        white: &SigningPlayer,
    ) -> (done: Result<(), OrchestratorError>)
        requires
            old(self).wf(),
        ensures
            final(self).wf(),
            refusal_of(done) == invite_refusal(white@, black@),
            final(self)@ == if done is Ok {
                invitation_accepted(old(self)@, black@, white@)
            } else {
                old(self)@
            },
    {
        require_registered(white)?;
        require_registered(black)?;
        self.push_message(
            black.name.as_str(),
            &white.name,
            OffchainMessageKind::InviteAccepted { white: white.name.clone(), black: black.name.clone() },
        );
        Ok(())
    }
}

} // verus!
