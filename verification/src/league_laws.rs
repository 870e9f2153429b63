//! What the league is for: its launch, its lanes, its players, and what a settlement gives them.

use vstd::prelude::*;

use crate::arena::{self, ArenaView, LeagueLane};
use crate::chain::{self, ChainTxView, Outpoint, UnspentView};
use crate::dialogue::{self, CovenantOutputView, ReplyView, RequestView};
use crate::game::{self, PlayerStateData};
use crate::hash::{self, Hash32};
use crate::league;
use crate::messages::{self, MessageKindView, MessageView};
use crate::plan::{PlannedInputView, PlannedOutputView, TxPlanView};
use crate::rating;
use crate::reply_laws::{
    asks, empty_text_adds_nothing, holds, refuses, says_done, says_failed, says_output, says_tx, says_uid, says_utxo,
    signed_by, unlocks,
};
use crate::settlement;
use crate::signing::{self, SignerView};
use crate::status::GameResult;
use crate::text;

verus! {

/// Whether a player is the league's administrator: the key of 32 bytes 0x33, not registered.
pub open spec fn administers(player: SignerView) -> bool {
    &&& player.name == "admin"@
    &&& player.secret == Seq::new(32, |i: int| 0x33u8)
    &&& player.public_key == signing::x_only_public_key(player.secret)
    &&& player.owner_hash@ == hash::blake2b_256(player.public_key)
    &&& player.player_id is None && player.player_ref is None
}

/// A launch loads and checks the artifact, starts a builder, asks for one transaction that spends the
/// funding output and makes the league, and looks at what it made. A failure is refused with its
/// reason.
pub proof fn launches_make_the_league(
    replies: Seq<ReplyView>,
    admin: SignerView,
    funding: Hash32,
    tx: ChainTxView,
    failure: Seq<char>,
)
    requires
        administers(admin),
        funding@ == Seq::new(32, |i: int| 0x77u8),
    ensures
        ({
            let halt = dialogue::halted(league::launch_progress(replies));
            let ready = says_done(replies, 0) && says_done(replies, 1) && says_done(replies, 2);
            &&& replies.len() == 0 ==> halt == asks(RequestView::LoadArtifact)
            &&& says_failed(replies, 0, failure) ==> halt == refuses(
                "failed to load pinned Argent artifact: "@ + failure,
            )
            &&& says_done(replies, 0) && replies.len() == 1 ==> halt == asks(RequestView::CheckArtifact)
            &&& says_done(replies, 0) && says_failed(replies, 1, failure) ==> halt == refuses(
                "invalid pinned Argent artifact: "@ + failure,
            )
            &&& says_done(replies, 0) && says_done(replies, 1) && replies.len() == 2 ==> halt == asks(
                RequestView::StartBuilder,
            )
            &&& says_done(replies, 0) && says_done(replies, 1) && says_failed(replies, 2, failure) ==> halt
                == refuses("initialize Argent builder: "@ + failure)
            &&& ready && replies.len() == 3 ==> halt == asks(
                RequestView::Build {
                    plan: TxPlanView {
                        inputs: seq![
                            PlannedInputView::Plain {
                                outpoint: Outpoint { transaction_id: funding, index: 0 },
                                utxo: UnspentView {
                                    amount: 1000,
                                    script_version: 0,
                                    script: seq![0x51u8],
                                    block_daa_score: 0,
                                    is_coinbase: false,
                                    covenant_id: None,
                                },
                                signature_script: Seq::empty(),
                                sequence: 0,
                            },
                        ],
                        outputs: seq![
                            PlannedOutputView::Genesis {
                                authorizing_input: 0,
                                label: "launch::league"@,
                                actor: "League"@,
                                state: game::league_fields(1200, admin.owner_hash),
                                value: 1000,
                            },
                        ],
                    },
                },
            )
            &&& ready && says_failed(replies, 3, failure) ==> halt == refuses("launch League: "@ + failure)
            &&& ready && says_tx(replies, 3, tx) && replies.len() == 4 ==> halt == asks(
                RequestView::ReadOutput { tx, index: 0 },
            )
            &&& ready && says_tx(replies, 3, tx) && says_failed(replies, 4, failure) ==> halt == refuses(
                "read League genesis output: "@ + failure,
            )
            &&& ready && says_tx(replies, 3, tx) && replies.len() > 4 && replies[4] is Output ==> halt is None
        }),
{
    empty_text_adds_nothing();
    assert(league::fresh_signer(admin, "admin"@, 0x33));
    league::signer_is_unique(admin, league::admin(), "admin"@, 0x33);
    hash::lemma_hash_of(funding);
    let p = league::launch_plan();
    assert(p.inputs =~= seq![
        PlannedInputView::Plain {
            outpoint: Outpoint { transaction_id: funding, index: 0 },
            utxo: UnspentView {
                amount: 1000,
                script_version: 0,
                script: seq![0x51u8],
                block_daa_score: 0,
                is_coinbase: false,
                covenant_id: None,
            },
            signature_script: Seq::empty(),
            sequence: 0,
        },
    ]);
    assert(p.outputs =~= seq![
        PlannedOutputView::Genesis {
            authorizing_input: 0,
            label: "launch::league"@,
            actor: "League"@,
            state: game::league_fields(1200, admin.owner_hash),
            value: 1000,
        },
    ]);
}

/// A launched arena has the administrator, one lane in the output that was read, with its value and
/// covenant, a base rating of 1200, and nothing else.
pub proof fn launched_arenas_are_empty(
    offboard: u8,
    replies: Seq<ReplyView>,
    admin: SignerView,
    output: CovenantOutputView,
)
    requires
        administers(admin),
        says_output(replies, 4, output),
    ensures
        ({
            let a = league::launched(offboard, replies);
            &&& a.admin == admin
            &&& a.league_lanes == seq![LeagueLane { outpoint: output.outpoint, value: output.utxo.amount }]
            &&& a.base_rating == 1200
            &&& a.covenant_id == output.covenant_id
            &&& a.offboard == offboard
            &&& a.players == Map::<Seq<char>, PlayerStateData>::empty()
            &&& a.messages == Map::<Seq<char>, Seq<MessageView>>::empty()
            &&& a.game is None && a.game_outpoint is None
            &&& a.active_worker is None && a.active_settle is None
            &&& a.history.len() == 0 && a.transactions.len() == 0
        }),
{
    assert(league::fresh_signer(admin, "admin"@, 0x33));
    league::signer_is_unique(admin, league::admin(), "admin"@, 0x33);
}

/// The state of the league is its base rating and its administrator.
pub proof fn leagues_state_rating_and_administrator(a: ArenaView)
    ensures
        league::league_state(a) == game::league_fields(a.base_rating, a.admin.owner_hash),
{
}

/// A lane is missing exactly beyond the last one.
pub proof fn lanes_are_counted_from_zero(a: ArenaView, lane_index: nat)
    ensures
        lane_index < a.league_lanes.len() ==> league::lane_refusal(a, lane_index as int) is None,
        lane_index >= a.league_lanes.len() ==> league::lane_refusal(a, lane_index as int) == Some(
            "missing League lane "@ + text::decimal(lane_index),
        ),
{
}

/// The request for the output of a lane.
pub open spec fn lane_request(a: ArenaView, lane: LeagueLane) -> RequestView {
    RequestView::ActorUtxo {
        actor: "League"@,
        state: game::league_fields(a.base_rating, a.admin.owner_hash),
        value: lane.value,
        covenant_id: a.covenant_id,
    }
}

/// A transaction that spends a lane, signed, and makes the given outputs.
pub open spec fn lane_tx(
    a: ArenaView,
    lane: LeagueLane,
    name: Seq<char>,
    signer: SignerView,
    utxo: UnspentView,
    outputs: Seq<PlannedOutputView>,
) -> RequestView {
    RequestView::Build {
        plan: TxPlanView {
            inputs: seq![
                unlocks(
                    "League"@,
                    game::league_fields(a.base_rating, a.admin.owner_hash),
                    name,
                    signed_by(signer),
                    lane.outpoint,
                    utxo,
                    0,
                ),
            ],
            outputs,
        },
    }
}

/// An output that holds the league with a value.
pub open spec fn lane_out(a: ArenaView, value: u64) -> PlannedOutputView {
    holds("League"@, game::league_fields(a.base_rating, a.admin.owner_hash), a.covenant_id, value)
}

/// Giving a lane a new value asks for the lane's output and for one transaction, signed by the
/// administrator, that keeps the lane with the value. Once that is out, the lane sits in its first
/// output with the value, and the record names the administrator.
pub proof fn lanes_are_rebalanced_by_the_administrator(
    a: ArenaView,
    lane_index: int,
    value: u64,
    replies: Seq<ReplyView>,
    utxo: UnspentView,
    tx: ChainTxView,
    failure: Seq<char>,
)
    requires
        0 <= lane_index,
    ensures
        ({
            let halt = dialogue::halted(league::rebalance_progress(a, lane_index, value, replies));
            let after = league::rebalance_after(a, lane_index, value, replies);
            let lane = a.league_lanes[lane_index];
            let known = says_done(replies, 0) && says_utxo(replies, 1, utxo);
            &&& halt is Some ==> after == a
            &&& lane_index >= a.league_lanes.len() ==> halt == refuses(
                "missing League lane "@ + text::decimal(lane_index as nat),
            )
            &&& lane_index < a.league_lanes.len() ==> {
                &&& replies.len() == 0 ==> halt == asks(RequestView::StartBuilder)
                &&& says_failed(replies, 0, failure) ==> halt == refuses(
                    "initialize Argent builder: "@ + failure,
                )
                &&& says_done(replies, 0) && replies.len() == 1 ==> halt == asks(lane_request(a, lane))
                &&& says_done(replies, 0) && says_failed(replies, 1, failure) ==> halt == refuses(
                    "build League lane UTXO: "@ + failure,
                )
                &&& known && replies.len() == 2 ==> halt == asks(
                    lane_tx(a, lane, "rebalance"@, a.admin, utxo, seq![lane_out(a, value)]),
                )
                &&& known && says_failed(replies, 2, failure) ==> halt == refuses(
                    "rebalance League lane: "@ + failure,
                )
                &&& known && says_tx(replies, 2, tx) ==> halt is None && after == (ArenaView {
                    transactions: a.transactions.push(tx),
                    league_lanes: a.league_lanes.update(
                        lane_index,
                        LeagueLane { outpoint: chain::output_of(tx, 0), value },
                    ),
                    history: a.history.push(
                        arena::submission_of("league_rebalance"@, tx, seq![a.admin.name]),
                    ),
                    ..a
                })
            }
        }),
{
    empty_text_adds_nothing();
    let p = league::lane_plan(a, a.league_lanes[lane_index], "rebalance"@, a.admin, utxo).keep(
        "League"@,
        league::league_state(a),
        a.covenant_id,
        value,
    );
    let full = lane_tx(
        a,
        a.league_lanes[lane_index],
        "rebalance"@,
        a.admin,
        utxo,
        seq![lane_out(a, value)],
    )->Build_plan;
    assert(p.inputs[0]->Actor_call.args =~= signed_by(a.admin));
    assert(p.inputs =~= full.inputs);
    assert(p.outputs =~= full.outputs);
}

/// Splitting a lane asks for the lane's output and for one transaction, signed by the administrator,
/// that makes two lanes with the two values. Once that is out, they stand in the place of the old one,
/// the left in its first output and the right in its second, and the record names the administrator.
pub proof fn lanes_are_forked_by_the_administrator(
    a: ArenaView,
    lane_index: int,
    left: u64,
    right: u64,
    replies: Seq<ReplyView>,
    utxo: UnspentView,
    tx: ChainTxView,
    failure: Seq<char>,
)
    requires
        0 <= lane_index,
    ensures
        ({
            let halt = dialogue::halted(league::fork_progress(a, lane_index, left, right, replies));
            let after = league::fork_after(a, lane_index, left, right, replies);
            let lane = a.league_lanes[lane_index];
            let known = says_done(replies, 0) && says_utxo(replies, 1, utxo);
            &&& halt is Some ==> after == a
            &&& lane_index >= a.league_lanes.len() ==> halt == refuses(
                "missing League lane "@ + text::decimal(lane_index as nat),
            )
            &&& lane_index < a.league_lanes.len() ==> {
                &&& replies.len() == 0 ==> halt == asks(RequestView::StartBuilder)
                &&& says_failed(replies, 0, failure) ==> halt == refuses(
                    "initialize Argent builder: "@ + failure,
                )
                &&& says_done(replies, 0) && replies.len() == 1 ==> halt == asks(lane_request(a, lane))
                &&& says_done(replies, 0) && says_failed(replies, 1, failure) ==> halt == refuses(
                    "build League lane UTXO: "@ + failure,
                )
                &&& known && replies.len() == 2 ==> halt == asks(
                    lane_tx(
                        a,
                        lane,
                        "fork"@,
                        a.admin,
                        utxo,
                        seq![lane_out(a, left), lane_out(a, right)],
                    ),
                )
                &&& known && says_failed(replies, 2, failure) ==> halt == refuses(
                    "fork League lane: "@ + failure,
                )
                &&& known && says_tx(replies, 2, tx) ==> halt is None && after == (ArenaView {
                    transactions: a.transactions.push(tx),
                    league_lanes: a.league_lanes.update(
                        lane_index,
                        LeagueLane { outpoint: chain::output_of(tx, 0), value: left },
                    ).insert(
                        lane_index + 1,
                        LeagueLane { outpoint: chain::output_of(tx, 1), value: right },
                    ),
                    history: a.history.push(
                        arena::submission_of("league_fork"@, tx, seq![a.admin.name]),
                    ),
                    ..a
                })
            }
        }),
{
    empty_text_adds_nothing();
    let p = league::lane_plan(a, a.league_lanes[lane_index], "fork"@, a.admin, utxo).keep(
        "League"@,
        league::league_state(a),
        a.covenant_id,
        left,
    ).keep("League"@, league::league_state(a), a.covenant_id, right);
    let full = lane_tx(
        a,
        a.league_lanes[lane_index],
        "fork"@,
        a.admin,
        utxo,
        seq![lane_out(a, left), lane_out(a, right)],
    )->Build_plan;
    assert(p.inputs[0]->Actor_call.args =~= signed_by(a.admin));
    assert(p.inputs =~= full.inputs);
    assert(p.outputs =~= full.outputs);
    if lane_index < a.league_lanes.len() && says_tx(replies, 2, tx) {
        let (first, second) = (
            LeagueLane { outpoint: chain::output_of(tx, 0), value: left },
            LeagueLane { outpoint: chain::output_of(tx, 1), value: right },
        );
        assert(a.league_lanes.take(lane_index) + seq![first, second] + a.league_lanes.skip(lane_index + 1)
            =~= a.league_lanes.update(lane_index, first).insert(lane_index + 1, second));
    }
}

/// The entry with which a player enters the league.
pub open spec fn first_entry(a: ArenaView, player: SignerView, id: Hash32, outpoint: Outpoint) -> PlayerStateData {
    PlayerStateData {
        owner_hash: player.owner_hash,
        player_id: id,
        outpoint,
        value: 1000,
        open_games: 0,
        rating: a.base_rating,
        games: 0,
        wins: 0,
        draws: 0,
        losses: 0,
    }
}

/// A registration asks for the identifier that spending the lane derives, for a builder, for the
/// lane's output, and for one transaction, signed by the player, that keeps the lane as it is and makes
/// the player's entry. A failure is refused with its reason, and neither arena nor player changes.
pub proof fn registrations_ask_for_one_transaction(
    a: ArenaView,
    player: SignerView,
    lane_index: int,
    replies: Seq<ReplyView>,
    id: Hash32,
    utxo: UnspentView,
    failure: Seq<char>,
)
    requires
        0 <= lane_index,
    ensures
        ({
            let halt = dialogue::halted(league::register_progress(a, player, lane_index, replies));
            let lane = a.league_lanes[lane_index];
            let started = says_uid(replies, 0, id) && says_done(replies, 1);
            let known = started && says_utxo(replies, 2, utxo);
            &&& halt is Some ==> league::register_after(a, player, lane_index, replies) == a
                && league::registrant(a, player, lane_index, replies) == player
            &&& lane_index >= a.league_lanes.len() ==> halt == refuses(
                "missing League lane "@ + text::decimal(lane_index as nat),
            )
            &&& lane_index < a.league_lanes.len() ==> {
                &&& replies.len() == 0 ==> halt == asks(
                    RequestView::InvocationUid { outpoint: lane.outpoint, tag: "LeaguePlayerId"@ },
                )
                &&& says_failed(replies, 0, failure) ==> halt == refuses("derive player ID: "@ + failure)
                &&& says_uid(replies, 0, id) && replies.len() == 1 ==> halt == asks(
                    RequestView::StartBuilder,
                )
                &&& says_uid(replies, 0, id) && says_failed(replies, 1, failure) ==> halt == refuses(
                    "initialize Argent builder: "@ + failure,
                )
                &&& started && replies.len() == 2 ==> halt == asks(lane_request(a, lane))
                &&& started && says_failed(replies, 2, failure) ==> halt == refuses(
                    "build League UTXO: "@ + failure,
                )
                &&& known && replies.len() == 3 ==> halt == asks(
                    lane_tx(
                        a,
                        lane,
                        "register_player"@,
                        player,
                        utxo,
                        seq![
                            lane_out(a, lane.value),
                            holds(
                                "Player"@,
                                game::player_fields(first_entry(a, player, id, lane.outpoint)),
                                a.covenant_id,
                                1000,
                            ),
                        ],
                    ),
                )
                &&& known && says_failed(replies, 3, failure) ==> halt == refuses(
                    "register player: "@ + failure,
                )
                &&& known && replies.len() > 3 && replies[3] is Tx ==> halt is None
            }
        }),
{
    empty_text_adds_nothing();
    let lane = a.league_lanes[lane_index];
    let entry = first_entry(a, player, id, lane.outpoint);
    let p = league::lane_plan(a, lane, "register_player"@, player, utxo).keep(
        "League"@,
        league::league_state(a),
        a.covenant_id,
        lane.value,
    ).keep("Player"@, game::player_fields(entry), a.covenant_id, 1000);
    let full = lane_tx(
        a,
        lane,
        "register_player"@,
        player,
        utxo,
        seq![
            lane_out(a, lane.value),
            holds("Player"@, game::player_fields(entry), a.covenant_id, 1000),
        ],
    )->Build_plan;
    assert(p.inputs[0]->Actor_call.args =~= signed_by(player));
    assert(p.inputs =~= full.inputs);
    assert(p.outputs =~= full.outputs);
}

/// Once its transaction is out, a registration is done: the player carries the derived id and the
/// reference that it gives, and has an entry in the second output; the lane sits in the first with its
/// value; and the record names the player.
pub proof fn registered_players_are_in_the_league(
    a: ArenaView,
    player: SignerView,
    lane_index: int,
    replies: Seq<ReplyView>,
    id: Hash32,
    player_ref: Hash32,
    tx: ChainTxView,
)
    requires
        0 <= lane_index < a.league_lanes.len(),
        says_uid(replies, 0, id),
        player_ref@ == hash::blake2b_256(player.owner_hash@ + id@),
        says_done(replies, 1),
        replies.len() > 2,
        replies[2] is Utxo,
        says_tx(replies, 3, tx),
    ensures
        league::registrant(a, player, lane_index, replies) == (SignerView {
            player_id: Some(id),
            player_ref: Some(player_ref),
            ..player
        }),
        league::register_after(a, player, lane_index, replies) == (ArenaView {
            transactions: a.transactions.push(tx),
            league_lanes: a.league_lanes.update(
                lane_index,
                LeagueLane { outpoint: chain::output_of(tx, 0), value: a.league_lanes[lane_index].value },
            ),
            players: a.players.insert(
                player.name,
                first_entry(a, player, id, chain::output_of(tx, 1)),
            ),
            history: a.history.push(arena::submission_of("register_player"@, tx, seq![player.name])),
            ..a
        }),
{
    hash::lemma_hash_of(player_ref);
}

/// A player's own transaction, signed by the player.
pub open spec fn player_tx(
    player: SignerView,
    p: PlayerStateData,
    name: Seq<char>,
    utxo: UnspentView,
    outputs: Seq<PlannedOutputView>,
) -> RequestView {
    RequestView::Build {
        plan: TxPlanView {
            inputs: seq![
                unlocks("Player"@, game::player_fields(p), name, signed_by(player), p.outpoint, utxo, 0),
            ],
            outputs,
        },
    }
}

/// A retirement asks for the player's output and for one transaction, signed by the player, that
/// spends it for good. Once that is out, the player is gone, nobody else is touched, and the record
/// names the player.
pub proof fn players_retire_by_their_own_hand(
    a: ArenaView,
    player: SignerView,
    replies: Seq<ReplyView>,
    utxo: UnspentView,
    tx: ChainTxView,
    failure: Seq<char>,
)
    ensures
        ({
            let halt = dialogue::halted(league::retire_progress(a, player, replies));
            let after = league::retire_after(a, player, replies);
            let p = a.players[player.name];
            let known = says_done(replies, 0) && says_utxo(replies, 1, utxo);
            &&& halt is Some ==> after == a
            &&& !a.players.contains_key(player.name) ==> halt == refuses("missing player"@)
            &&& a.players.contains_key(player.name) ==> {
                &&& replies.len() == 0 ==> halt == asks(RequestView::StartBuilder)
                &&& says_failed(replies, 0, failure) ==> halt == refuses(
                    "initialize Argent builder: "@ + failure,
                )
                &&& says_done(replies, 0) && replies.len() == 1 ==> halt == asks(
                    RequestView::ActorUtxo {
                        actor: "Player"@,
                        state: game::player_fields(p),
                        value: p.value,
                        covenant_id: a.covenant_id,
                    },
                )
                &&& says_done(replies, 0) && says_failed(replies, 1, failure) ==> halt == refuses(
                    "build retiring Player UTXO: "@ + failure,
                )
                &&& known && replies.len() == 2 ==> halt == asks(
                    player_tx(player, p, "retire"@, utxo, Seq::empty()),
                )
                &&& known && says_failed(replies, 2, failure) ==> halt == refuses(
                    "retire player: "@ + failure,
                )
                &&& known && says_tx(replies, 2, tx) ==> halt is None && after == (ArenaView {
                    transactions: a.transactions.push(tx),
                    players: a.players.remove(player.name),
                    history: a.history.push(arena::submission_of("retire"@, tx, seq![player.name])),
                    ..a
                })
            }
        }),
{
    empty_text_adds_nothing();
    let p = a.players[player.name];
    let planned = crate::plan::plan().spend(
        "Player"@,
        game::player_fields(p),
        crate::plan::owner_args(crate::plan::entry("retire"@), player.secret, player.public_key),
        p.outpoint,
        utxo,
        0,
    );
    let full = player_tx(player, p, "retire"@, utxo, Seq::empty())->Build_plan;
    assert(planned.inputs[0]->Actor_call.args =~= signed_by(player));
    assert(planned.inputs =~= full.inputs);
    assert(planned.outputs =~= full.outputs);
}

/// Giving a player a new value asks for the player's output and for one transaction, signed by the
/// player, that keeps the player with the value. Once that is out, the entry has the value and sits in
/// the first output, with the record as it was, and the player is named.
pub proof fn players_are_rebalanced_by_their_own_hand(
    a: ArenaView,
    player: SignerView,
    value: u64,
    replies: Seq<ReplyView>,
    utxo: UnspentView,
    tx: ChainTxView,
    failure: Seq<char>,
)
    ensures
        ({
            let halt = dialogue::halted(league::stake_progress(a, player, value, replies));
            let after = league::stake_after(a, player, value, replies);
            let p = a.players[player.name];
            let known = says_done(replies, 0) && says_utxo(replies, 1, utxo);
            &&& halt is Some ==> after == a
            &&& !a.players.contains_key(player.name) ==> halt == refuses("missing player"@)
            &&& a.players.contains_key(player.name) ==> {
                &&& replies.len() == 0 ==> halt == asks(RequestView::StartBuilder)
                &&& says_failed(replies, 0, failure) ==> halt == refuses(
                    "initialize Argent builder: "@ + failure,
                )
                &&& says_done(replies, 0) && replies.len() == 1 ==> halt == asks(
                    RequestView::ActorUtxo {
                        actor: "Player"@,
                        state: game::player_fields(p),
                        value: p.value,
                        covenant_id: a.covenant_id,
                    },
                )
                &&& says_done(replies, 0) && says_failed(replies, 1, failure) ==> halt == refuses(
                    "build rebalancing Player UTXO: "@ + failure,
                )
                &&& known && replies.len() == 2 ==> halt == asks(
                    player_tx(
                        player,
                        p,
                        "rebalance"@,
                        utxo,
                        seq![holds("Player"@, game::player_fields(p), a.covenant_id, value)],
                    ),
                )
                &&& known && says_failed(replies, 2, failure) ==> halt == refuses(
                    "rebalance Player: "@ + failure,
                )
                &&& known && says_tx(replies, 2, tx) ==> halt is None && after == (ArenaView {
                    transactions: a.transactions.push(tx),
                    players: a.players.insert(
                        player.name,
                        PlayerStateData { value, outpoint: chain::output_of(tx, 0), ..p },
                    ),
                    history: a.history.push(
                        arena::submission_of("player_rebalance"@, tx, seq![player.name]),
                    ),
                    ..a
                })
            }
        }),
{
    empty_text_adds_nothing();
    let p = a.players[player.name];
    let planned = crate::plan::plan().spend(
        "Player"@,
        game::player_fields(p),
        crate::plan::owner_args(crate::plan::entry("rebalance"@), player.secret, player.public_key),
        p.outpoint,
        utxo,
        0,
    ).keep("Player"@, game::player_fields(p), a.covenant_id, value);
    let full = player_tx(
        player,
        p,
        "rebalance"@,
        utxo,
        seq![holds("Player"@, game::player_fields(p), a.covenant_id, value)],
    )->Build_plan;
    assert(planned.inputs[0]->Actor_call.args =~= signed_by(player));
    assert(planned.inputs =~= full.inputs);
    assert(planned.outputs =~= full.outputs);
}

/// Invitations pass between registered players only; whoever is not registered is named, white first.
pub proof fn invitations_pass_between_registered_players(white: SignerView, black: SignerView)
    ensures
        ({
            let refusal = league::invite_refusal(white, black);
            let white_in = white.player_id is Some && white.player_ref is Some;
            let black_in = black.player_id is Some && black.player_ref is Some;
            &&& refusal is None <==> white_in && black_in
            &&& !white_in ==> refusal == Some(white.name + " is not registered"@)
            &&& white_in && !black_in ==> refusal == Some(black.name + " is not registered"@)
        }),
{
}

/// An invitation goes from white to black, its acceptance from black to white, and each says who is to
/// have which side.
pub proof fn invitations_say_who_has_which_side(a: ArenaView, white: SignerView, black: SignerView)
    ensures
        league::invited(a, white, black) == (ArenaView {
            messages: messages::delivered(
                a.messages,
                MessageView {
                    from: white.name,
                    to: black.name,
                    kind: MessageKindView::GameInvite {
                        proposed_white: white.name,
                        proposed_black: black.name,
                    },
                },
            ),
            ..a
        }),
        league::invitation_accepted(a, black, white) == (ArenaView {
            messages: messages::delivered(
                a.messages,
                MessageView {
                    from: black.name,
                    to: white.name,
                    kind: MessageKindView::InviteAccepted { white: white.name, black: black.name },
                },
            ),
            ..a
        }),
{
}

/// A request to settle needs two registered players who are the two players of the game in progress.
pub proof fn settlement_requests_pass_between_the_players(
    a: ArenaView,
    requester: SignerView,
    opponent: SignerView,
)
    ensures
        ({
            let refusal = settlement::request_refusal(a, requester, opponent);
            let first_in = requester.player_id is Some && requester.player_ref is Some;
            let second_in = opponent.player_id is Some && opponent.player_ref is Some;
            &&& !first_in ==> refusal == Some(requester.name + " is not registered"@)
            &&& first_in && !second_in ==> refusal == Some(opponent.name + " is not registered"@)
            &&& first_in && second_in && a.game is None ==> refusal == Some("missing game"@)
            &&& first_in && second_in ==> (a.game matches Some(g) ==> {
                let white = requester.player_ref == Some(g.white_player) || opponent.player_ref == Some(
                    g.white_player,
                );
                let black = requester.player_ref == Some(g.black_player) || opponent.player_ref == Some(
                    g.black_player,
                );
                &&& refusal is None <==> white && black
                &&& !white ==> refusal == Some("missing white player in settlement request"@)
                &&& white && !black ==> refusal == Some("missing black player in settlement request"@)
            })
        }),
{
}

/// A request to settle goes to both players, white first, from whoever asks, and changes nothing else.
pub proof fn settlement_requests_reach_both_players(
    a: ArenaView,
    requester: SignerView,
    opponent: SignerView,
    result: GameResult,
)
    requires
        settlement::request_refusal(a, requester, opponent) is None,
    ensures
        ({
            let g = a.game->Some_0;
            let white = if requester.player_ref == Some(g.white_player) {
                requester.name
            } else {
                opponent.name
            };
            let black = if requester.player_ref == Some(g.black_player) {
                requester.name
            } else {
                opponent.name
            };
            let kind = MessageKindView::SettlementRequest { result };
            settlement::requested(a, requester, opponent, result) == ArenaView {
                messages: messages::delivered(
                    messages::delivered(
                        a.messages,
                        MessageView { from: requester.name, to: white, kind },
                    ),
                    MessageView { from: requester.name, to: black, kind },
                ),
                ..a
            }
        }),
{
}

/// The code of a result.
pub open spec fn code(result: GameResult) -> i64 {
    match result {
        GameResult::WhiteWin => 1,
        GameResult::BlackWin => 2,
        GameResult::Draw => 3,
    }
}

/// A settlement needs both players in the league with their references, and a game that ended with the
/// claimed result: one that waits for settlement between these two players, or else the one in
/// progress.
pub proof fn settlements_need_an_ended_game(
    a: ArenaView,
    white: SignerView,
    black: SignerView,
    result: GameResult,
)
    ensures
        ({
            let refusal = settlement::settle_refusal(a, white, black, result);
            let white_in = a.players.contains_key(white.name);
            let black_in = a.players.contains_key(black.name);
            let ready = white_in && black_in && white.player_ref is Some && black.player_ref is Some;
            &&& !white_in ==> refusal == Some("missing white"@)
            &&& white_in && !black_in ==> refusal == Some("missing black"@)
            &&& white_in && black_in && white.player_ref is None ==> refusal == Some(
                "white missing player ref"@,
            )
            &&& white_in && black_in && white.player_ref is Some && black.player_ref is None ==> refusal
                == Some("black missing player ref"@)
            &&& ready ==> (a.active_settle matches Some(s) ==> {
                let same = white.player_ref == Some(s.white_player) && black.player_ref == Some(s.black_player);
                &&& refusal is None <==> s.status == code(result) && same
                &&& s.status != code(result) ==> refusal == Some(
                    "active settle status "@ + text::signed_decimal(s.status as int)
                        + " does not match requested result "@ + text::signed_decimal(code(result) as int),
                )
                &&& s.status == code(result) && !same ==> refusal == Some(
                    "active settle does not match provided players"@,
                )
            })
            &&& ready && a.active_settle is None && a.game is None ==> refusal == Some("missing game"@)
            &&& ready && a.active_settle is None ==> (a.game matches Some(g) ==> {
                &&& refusal is None <==> g.status == code(result) && a.game_outpoint is Some
                &&& g.status != code(result) ==> refusal == Some(
                    "terminal game status "@ + text::signed_decimal(g.status as int)
                        + " does not match requested result "@ + text::signed_decimal(code(result) as int),
                )
            })
        }),
{
}

/// The fields of the settlement that a result between two players asks for.
pub open spec fn settle_state(white: SignerView, black: SignerView, result: GameResult) -> crate::plan::StateView {
    game::settle_fields(white.player_ref->Some_0, black.player_ref->Some_0, code(result))
}

/// A settlement of a game that already waits for it asks for a builder and the output that holds the
/// stake.
pub proof fn waiting_settlements_find_their_stake(
    a: ArenaView,
    white: SignerView,
    black: SignerView,
    result: GameResult,
    replies: Seq<ReplyView>,
    utxo: UnspentView,
    failure: Seq<char>,
)
    requires
        settlement::settle_refusal(a, white, black, result) is None,
        a.active_settle is Some,
    ensures
        ({
            let halt = dialogue::halted(settlement::settle_progress(a, white, black, result, replies));
            let after = settlement::settle_after(a, white, black, result, replies);
            &&& replies.len() == 0 ==> halt == asks(RequestView::StartBuilder)
            &&& says_failed(replies, 0, failure) ==> halt == refuses(
                "initialize Argent builder: "@ + failure,
            ) && after == a
            &&& says_done(replies, 0) && replies.len() == 1 ==> halt == asks(
                RequestView::ActorUtxo {
                    actor: "Settle"@,
                    state: settle_state(white, black, result),
                    value: 1000,
                    covenant_id: a.covenant_id,
                },
            )
            &&& says_done(replies, 0) && says_failed(replies, 1, failure) ==> halt == refuses(
                "build active Settle UTXO: "@ + failure,
            ) && after == a
            &&& says_utxo(replies, 1, utxo) ==> settlement::stake_utxo(a, replies) == utxo
            &&& settlement::stake_outpoint(a, replies) == a.active_settle->Some_0.outpoint
            &&& settlement::payout_start(a) == 2
        }),
{
    empty_text_adds_nothing();
}

/// A settlement of a game in progress first turns the game into its settlement: a builder, the output
/// of the game, one transaction that nobody signs, and a look at what it made, which holds the stake.
pub proof fn ended_games_are_turned_into_settlements(
    a: ArenaView,
    white: SignerView,
    black: SignerView,
    result: GameResult,
    replies: Seq<ReplyView>,
    utxo: UnspentView,
    tx: ChainTxView,
    output: CovenantOutputView,
    failure: Seq<char>,
)
    requires
        settlement::settle_refusal(a, white, black, result) is None,
        a.active_settle is None,
    ensures
        ({
            let halt = dialogue::halted(settlement::settle_progress(a, white, black, result, replies));
            let after = settlement::settle_after(a, white, black, result, replies);
            let g = a.game->Some_0;
            let found = says_done(replies, 0) && says_utxo(replies, 1, utxo);
            &&& replies.len() == 0 ==> halt == asks(RequestView::StartBuilder)
            &&& says_failed(replies, 0, failure) ==> halt == refuses(
                "initialize Argent builder: "@ + failure,
            ) && after == a
            &&& says_done(replies, 0) && replies.len() == 1 ==> halt == asks(
                RequestView::ActorUtxo {
                    actor: "Mux"@,
                    state: game::game_fields(g),
                    value: 1000,
                    covenant_id: a.covenant_id,
                },
            )
            &&& says_done(replies, 0) && says_failed(replies, 1, failure) ==> halt == refuses(
                "build terminal Mux UTXO: "@ + failure,
            ) && after == a
            &&& found && replies.len() == 2 ==> halt == asks(
                RequestView::Build {
                    plan: TxPlanView {
                        inputs: seq![
                            unlocks(
                                "Mux"@,
                                game::game_fields(g),
                                "settle"@,
                                Seq::empty(),
                                a.game_outpoint->Some_0,
                                utxo,
                                0,
                            ),
                        ],
                        outputs: seq![
                            holds("Settle"@, settle_state(white, black, result), a.covenant_id, 1000),
                        ],
                    },
                },
            )
            &&& found && says_failed(replies, 2, failure) ==> halt == refuses(
                "route terminal game to settlement: "@ + failure,
            ) && after == a
            &&& found && says_tx(replies, 2, tx) && replies.len() == 3 ==> halt == asks(
                RequestView::ReadOutput { tx, index: 0 },
            )
            &&& found && says_tx(replies, 2, tx) && says_failed(replies, 3, failure) ==> halt == refuses(
                "read Settle output: "@ + failure,
            ) && after == a
            &&& says_output(replies, 3, output) ==> settlement::stake_utxo(a, replies) == output.utxo
                && settlement::stake_outpoint(a, replies) == output.outpoint
            &&& settlement::payout_start(a) == 4
        }),
{
    empty_text_adds_nothing();
    let g = a.game->Some_0;
    if says_utxo(replies, 1, utxo) {
        let p = settlement::mux_settle_plan(a, white, black, result, replies);
        assert(p.inputs =~= seq![
            unlocks(
                "Mux"@,
                game::game_fields(g),
                "settle"@,
                Seq::empty(),
                a.game_outpoint->Some_0,
                utxo,
                0,
            ),
        ]);
        assert(p.outputs =~= seq![
            holds("Settle"@, settle_state(white, black, result), a.covenant_id, 1000),
        ]);
    }
}

/// The number of replies that a settlement hears before the stake is known.
pub open spec fn heard_before_payout(a: ArenaView) -> int {
    if a.active_settle is Some {
        2
    } else {
        4
    }
}

/// Whether the stake of a settlement is known.
pub open spec fn stake_is_known(a: ArenaView, replies: Seq<ReplyView>) -> bool {
    &&& says_done(replies, 0)
    &&& replies.len() >= heard_before_payout(a)
    &&& replies[1] is Utxo
    &&& a.active_settle is None ==> replies[2] is Tx && replies[3] is Output
}

/// The stake of a settlement, and where it lies.
pub open spec fn stake_of(a: ArenaView, replies: Seq<ReplyView>) -> (UnspentView, Outpoint) {
    if a.active_settle is Some {
        (replies[1]->Utxo_0, a.active_settle->Some_0.outpoint)
    } else {
        (replies[3]->Output_0.utxo, replies[3]->Output_0.outpoint)
    }
}

/// A player's score for a result, in thousandths: 1000 for the winner, 0 for the loser, 500 for a
/// draw.
pub open spec fn score_of(result: GameResult, plays_white: bool) -> int {
    if result == GameResult::Draw {
        500
    } else if (result == GameResult::WhiteWin) == plays_white {
        1000
    } else {
        0
    }
}

/// What a settlement makes of a player's entry: one open game less and one finished game more, counted
/// as what it was; the rating updated against the opponent's by the score; and the value grown by what
/// the player gets.
pub proof fn settled_entries_count_the_game(
    a: ArenaView,
    white: SignerView,
    black: SignerView,
    result: GameResult,
    replies: Seq<ReplyView>,
)
    requires
        a.wf(),
        settlement::settle_refusal(a, white, black, result) is None,
        stake_is_known(a, replies),
        settlement::settlement_fits(a, white, black, result, replies),
        a.players[white.name].open_games > 0,
        a.players[black.name].open_games > 0,
    ensures
        ({
            let (w, b) = (a.players[white.name], a.players[black.name]);
            let next_w = settlement::settled_white(a, white, black, result, replies);
            let next_b = settlement::settled_black(a, white, black, result, replies);
            let stake = stake_of(a, replies).0.amount;
            &&& next_w.open_games == w.open_games - 1 && next_b.open_games == b.open_games - 1
            &&& next_w.games == w.games + 1 && next_b.games == b.games + 1
            &&& next_w.wins == w.wins + if result == GameResult::WhiteWin {
                1int
            } else {
                0int
            }
            &&& next_b.wins == b.wins + if result == GameResult::BlackWin {
                1int
            } else {
                0int
            }
            &&& next_w.losses == w.losses + if result == GameResult::BlackWin {
                1int
            } else {
                0int
            }
            &&& next_b.losses == b.losses + if result == GameResult::WhiteWin {
                1int
            } else {
                0int
            }
            &&& next_w.draws == w.draws + if result == GameResult::Draw {
                1int
            } else {
                0int
            }
            &&& next_b.draws == b.draws + if result == GameResult::Draw {
                1int
            } else {
                0int
            }
            &&& next_w.rating == rating::updated_rating(
                w.rating as int,
                b.rating as int,
                score_of(result, true),
            )
            &&& next_b.rating == rating::updated_rating(
                b.rating as int,
                w.rating as int,
                score_of(result, false),
            )
            &&& result == GameResult::WhiteWin ==> next_w.value == w.value + stake && next_b.value == b.value
            &&& result == GameResult::BlackWin ==> next_b.value == b.value + stake && next_w.value == w.value
            &&& result == GameResult::Draw ==> next_w.value == w.value + stake / 2 && next_b.value == b.value
                + (stake - stake / 2)
            &&& next_w.owner_hash == w.owner_hash && next_w.player_id == w.player_id
            &&& next_b.owner_hash == b.owner_hash && next_b.player_id == b.player_id
        }),
{
}

/// After a settlement between two different players each rating is the update of the old one against
/// the opponent's old one by the player's score, for every result; between equals the winner gains 16
/// points, the loser loses 16, and a draw moves nothing.
pub proof fn settlements_move_both_ratings(
    a: ArenaView,
    white: SignerView,
    black: SignerView,
    result: GameResult,
    replies: Seq<ReplyView>,
)
    requires
        a.wf(),
        white.name != black.name,
        settlement::settlement_fits(a, white, black, result, replies),
        settlement::settle_progress(a, white, black, result, replies) is Finished,
    ensures
        ({
            let after = settlement::settle_after(a, white, black, result, replies);
            let (w, b) = (a.players[white.name].rating as int, a.players[black.name].rating as int);
            let next_w = after.players[white.name].rating as int;
            let next_b = after.players[black.name].rating as int;
            let surplus_w = 32 * (score_of(result, true) - rating::expected_score(b - w));
            let surplus_b = 32 * (score_of(result, false) - rating::expected_score(w - b));
            &&& surplus_w >= 0 ==> 1000 * (next_w - w) <= surplus_w < 1000 * (next_w - w) + 1000
            &&& surplus_w <= 0 ==> 1000 * (next_w - w) - 1000 < surplus_w <= 1000 * (next_w - w)
            &&& surplus_b >= 0 ==> 1000 * (next_b - b) <= surplus_b < 1000 * (next_b - b) + 1000
            &&& surplus_b <= 0 ==> 1000 * (next_b - b) - 1000 < surplus_b <= 1000 * (next_b - b)
            &&& w == b && result == GameResult::WhiteWin ==> next_w == w + 16 && next_b == b - 16
            &&& w == b && result == GameResult::BlackWin ==> next_w == w - 16 && next_b == b + 16
            &&& w == b && result == GameResult::Draw ==> next_w == w && next_b == b
        }),
{
}

/// Once the stake is known, a settlement needs open games, asks for a builder and both players'
/// outputs, white's first, and asks for one transaction that nobody signs: it spends the stake and
/// both players and keeps the players with their new entries. A failure is refused with its reason,
/// and the transaction that turned the game into its settlement, if there was one, stands.
pub proof fn settlements_pay_in_one_transaction(
    a: ArenaView,
    white: SignerView,
    black: SignerView,
    result: GameResult,
    replies: Seq<ReplyView>,
    white_utxo: UnspentView,
    black_utxo: UnspentView,
    failure: Seq<char>,
)
    requires
        settlement::settle_refusal(a, white, black, result) is None,
        stake_is_known(a, replies),
    ensures
        ({
            let halt = dialogue::halted(settlement::settle_progress(a, white, black, result, replies));
            let after = settlement::settle_after(a, white, black, result, replies);
            let k = heard_before_payout(a);
            let (w, b) = (a.players[white.name], a.players[black.name]);
            let turned = if a.active_settle is Some {
                a
            } else {
                ArenaView { transactions: a.transactions.push(replies[2]->Tx_0), ..a }
            };
            let open = w.open_games > 0 && b.open_games > 0;
            let white_known = says_done(replies, k) && says_utxo(replies, k + 1, white_utxo);
            let both_known = white_known && says_utxo(replies, k + 2, black_utxo);
            &&& !open ==> halt == refuses("cannot settle players without open games"@) && after == turned
            &&& open ==> {
                &&& replies.len() == k ==> halt == asks(RequestView::StartBuilder) && after == a
                &&& says_failed(replies, k, failure) ==> halt == refuses(
                    "initialize Argent builder: "@ + failure,
                ) && after == turned
                &&& says_done(replies, k) && replies.len() == k + 1 ==> halt == asks(
                    RequestView::ActorUtxo {
                        actor: "Player"@,
                        state: game::player_fields(w),
                        value: w.value,
                        covenant_id: a.covenant_id,
                    },
                ) && after == a
                &&& says_done(replies, k) && says_failed(replies, k + 1, failure) ==> halt == refuses(
                    "build white settlement Player UTXO: "@ + failure,
                ) && after == turned
                &&& white_known && replies.len() == k + 2 ==> halt == asks(
                    RequestView::ActorUtxo {
                        actor: "Player"@,
                        state: game::player_fields(b),
                        value: b.value,
                        covenant_id: a.covenant_id,
                    },
                ) && after == a
                &&& white_known && says_failed(replies, k + 2, failure) ==> halt == refuses(
                    "build black settlement Player UTXO: "@ + failure,
                ) && after == turned
                &&& both_known && replies.len() == k + 3 ==> halt == asks(
                    RequestView::Build {
                        plan: payout_in_full(a, white, black, result, replies, white_utxo, black_utxo),
                    },
                ) && after == a
                &&& both_known && says_failed(replies, k + 3, failure) ==> halt == refuses(
                    "settle game into players: "@ + failure,
                ) && after == turned
                &&& both_known && replies.len() > k + 3 && replies[k + 3] is Tx ==> halt is None
            }
        }),
{
    empty_text_adds_nothing();
    let k = heard_before_payout(a);
    if says_utxo(replies, k + 1, white_utxo) && says_utxo(replies, k + 2, black_utxo) {
        let p = settlement::payout_plan(a, white, black, result, replies);
        let full = payout_in_full(a, white, black, result, replies, white_utxo, black_utxo);
        assert(p.inputs =~= full.inputs);
        assert(p.outputs =~= full.outputs);
    }
}

/// The transaction that pays a settlement out, in full.
pub open spec fn payout_in_full(
    a: ArenaView,
    white: SignerView,
    black: SignerView,
    result: GameResult,
    replies: Seq<ReplyView>,
    white_utxo: UnspentView,
    black_utxo: UnspentView,
) -> TxPlanView {
    let (w, b) = (a.players[white.name], a.players[black.name]);
    let next_w = settlement::settled_white(a, white, black, result, replies);
    let next_b = settlement::settled_black(a, white, black, result, replies);
    let (stake, at) = stake_of(a, replies);
    TxPlanView {
        inputs: seq![
            unlocks("Settle"@, settle_state(white, black, result), "settle"@, Seq::empty(), at, stake, 0),
            unlocks(
                "Player"@,
                game::player_fields(w),
                "delegate_settle"@,
                Seq::empty(),
                w.outpoint,
                white_utxo,
                0,
            ),
            unlocks(
                "Player"@,
                game::player_fields(b),
                "delegate_settle"@,
                Seq::empty(),
                b.outpoint,
                black_utxo,
                0,
            ),
        ],
        outputs: seq![
            holds("Player"@, game::player_fields(next_w), a.covenant_id, next_w.value),
            holds("Player"@, game::player_fields(next_b), a.covenant_id, next_b.value),
        ],
    }
}

/// Once its transaction is out, a settlement is done: both entries are the new ones, white's in the
/// first output and black's in the second; no game, worker or settlement is left; the arena tells both
/// players, white first; and the records name nobody.
pub proof fn settlements_that_went_out_stand(
    a: ArenaView,
    white: SignerView,
    black: SignerView,
    result: GameResult,
    replies: Seq<ReplyView>,
    tx: ChainTxView,
)
    requires
        settlement::settle_refusal(a, white, black, result) is None,
        stake_is_known(a, replies),
        a.players[white.name].open_games > 0,
        a.players[black.name].open_games > 0,
        ({
            let k = heard_before_payout(a);
            &&& says_done(replies, k)
            &&& replies.len() > k + 2
            &&& replies[k + 1] is Utxo
            &&& replies[k + 2] is Utxo
            &&& says_tx(replies, k + 3, tx)
        }),
    ensures
        ({
            let turned = a.active_settle is None;
            let made = replies[2]->Tx_0;
            let kind = MessageKindView::SettlementNotice { result };
            settlement::settle_after(a, white, black, result, replies) == ArenaView {
                transactions: if turned {
                    a.transactions.push(made).push(tx)
                } else {
                    a.transactions.push(tx)
                },
                players: a.players.insert(
                    white.name,
                    PlayerStateData {
                        outpoint: chain::output_of(tx, 0),
                        ..settlement::settled_white(a, white, black, result, replies)
                    },
                ).insert(
                    black.name,
                    PlayerStateData {
                        outpoint: chain::output_of(tx, 1),
                        ..settlement::settled_black(a, white, black, result, replies)
                    },
                ),
                game: None,
                game_outpoint: None,
                active_worker: None,
                active_settle: None,
                messages: messages::delivered(
                    messages::delivered(
                        a.messages,
                        MessageView { from: "arena"@, to: white.name, kind },
                    ),
                    MessageView { from: "arena"@, to: black.name, kind },
                ),
                history: if turned {
                    a.history.push(arena::submission_of("mux_settle"@, made, Seq::empty())).push(
                        arena::submission_of("settle"@, tx, Seq::empty()),
                    )
                } else {
                    a.history.push(arena::submission_of("settle"@, tx, Seq::empty()))
                },
                ..a
            }
        }),
{
}

/// A settlement fits as long as both players have finished fewer than a thousand million games and the
/// stake does not overflow what they hold.
pub proof fn ordinary_settlements_fit(
    a: ArenaView,
    white: SignerView,
    black: SignerView,
    result: GameResult,
    replies: Seq<ReplyView>,
)
    requires
        a.wf(),
        a.players.contains_key(white.name) ==> a.players[white.name].games < 1_000_000_000,
        a.players.contains_key(black.name) ==> a.players[black.name].games < 1_000_000_000,
        stake_is_known(a, replies) ==> {
            &&& a.players[white.name].value + stake_of(a, replies).0.amount <= u64::MAX
            &&& a.players[black.name].value + stake_of(a, replies).0.amount <= u64::MAX
        },
    ensures
        settlement::settlement_fits(a, white, black, result, replies),
{
    if settlement::open_progress(a, white, black, result, replies) is Finished {
        let (w, b) = (a.players[white.name].rating as int, a.players[black.name].rating as int);
        rating::rating_change_is_bounded(w, b, settlement::white_score(result) as int);
        rating::rating_change_is_bounded(b, w, 1000 - settlement::white_score(result));
    }
}

} // verus!
