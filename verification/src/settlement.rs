//! Settlement: the stake and the rating points of a finished game go to its players.

use vstd::prelude::*;

use crate::arena::{self, no_signers, require_registered, submitted_tx, ArenaView, SubmittedTx, TxArena};
use crate::chain::{self, ChainTx, ChainTxView, Outpoint, Unspent, UnspentView};
use crate::dialogue::{
    self, hear_builder, hear_output, hear_tx, hear_utxo, stop, CovenantOutput, Halt, Progress,
    Reply, ReplyView, Request, RequestView,
};
use crate::error::{refuse, OrchestratorError};
use crate::game::{
    self, game_source_state, player_source_state, settle_source_state, GameStateData,
    PlayerStateData,
};
use crate::hash::Hash32;
use crate::messages::{MessageKindView, OffchainMessageKind};
use crate::plan::{self, EntryCall, TxPlan, TxPlanView};
use crate::rating::{self, approx_updated_rating, rating_update_in_range};
use crate::signing::{SignerView, SigningPlayer};
use crate::status::{self, status_from_result, GameResult};
use crate::text::{self, join2, join3, signed_decimal_text};

verus! {

/// White's score in thousandths.
pub open spec fn white_score(result: GameResult) -> i64 {
    match result {
        GameResult::WhiteWin => 1000,
        GameResult::BlackWin => 0,
        GameResult::Draw => 500,
    }
}

/// White's share of the stake: all of it, nothing, or the smaller half.
pub open spec fn white_share(result: GameResult, stake: u64) -> u64 {
    match result {
        GameResult::WhiteWin => stake,
        GameResult::BlackWin => 0,
        GameResult::Draw => stake / 2,
    }
}

/// Black's share of the stake: what white does not get.
pub open spec fn black_share(result: GameResult, stake: u64) -> u64 {
    (stake - white_share(result, stake)) as u64
}

/// A player's entry after a settled game with this score and share of the stake.
pub open spec fn settled_player(
    p: PlayerStateData,
    opponent_rating: i64,
    score: int,
    share: u64,
) -> PlayerStateData {
    PlayerStateData {
        open_games: (p.open_games - 1) as i64,
        games: (p.games + 1) as i64,
        wins: if score == 1000 {
            (p.wins + 1) as i64
        } else {
            p.wins
        },
        draws: if score == 500 {
            (p.draws + 1) as i64
        } else {
            p.draws
        },
        losses: if score == 0 {
            (p.losses + 1) as i64
        } else {
            p.losses
        },
        rating: rating::updated_rating(p.rating as int, opponent_rating as int, score) as i64,
        value: (p.value + share) as u64,
        ..p
    }
}

/// Whether a player's entry after the game stays in the machine range.
pub open spec fn settled_player_fits(
    p: PlayerStateData,
    opponent_rating: i64,
    score: int,
    share: u64,
) -> bool {
    &&& p.games < i64::MAX
    &&& rating::rating_update_fits(p.rating as int, opponent_rating as int, score)
    &&& p.value + share <= u64::MAX
}

/// White's score in thousandths, and white's share of the stake.
fn white_part(result: GameResult, stake: u64) -> (part: (i64, u64))
    ensures
        part == (white_score(result), white_share(result, stake)),
{
    match result {
        GameResult::WhiteWin => (1000, stake),
        GameResult::BlackWin => (0, 0),
        GameResult::Draw => (500, stake / 2),
    }
}

fn settled_player_in_range(
    p: PlayerStateData,
    opponent_rating: i64,
    score: i64,
    share: u64,
) -> (fits: bool)
    requires
        0 <= score <= 1000,
    ensures
        fits == settled_player_fits(p, opponent_rating, score as int, share),
{
    p.games < i64::MAX && rating_update_in_range(p.rating, opponent_rating, score) && p.value <= u64::MAX
        - share
}

fn settle_player(
    p: PlayerStateData,
    opponent_rating: i64,
    score: i64,
    share: u64,
) -> (settled: PlayerStateData)
    requires
        p.wf(),
        p.open_games > 0,
        score == 0 || score == 500 || score == 1000,
        settled_player_fits(p, opponent_rating, score as int, share),
    ensures
        settled == settled_player(p, opponent_rating, score as int, share),
        settled.wf(),
{
    let mut settled: PlayerStateData = p;
    settled.open_games = p.open_games - 1;
    settled.games = p.games + 1;
    if score == 1000 {
        settled.wins = p.wins + 1;
    } else if score == 0 {
        settled.losses = p.losses + 1;
    } else {
        settled.draws = p.draws + 1;
    }
    settled.rating = approx_updated_rating(p.rating, opponent_rating, score);
    settled.value = p.value + share;
    settled
}

/// Why a settlement is refused at once.
pub open spec fn settle_refusal(
    a: ArenaView,
    white: SignerView,
    black: SignerView,
    result: GameResult,
) -> Option<Seq<char>> {
    if !a.players.contains_key(white.name) {
        Some("missing white"@)
    } else if !a.players.contains_key(black.name) {
        Some("missing black"@)
    } else if white.player_ref is None {
        Some("white missing player ref"@)
    } else if black.player_ref is None {
        Some("black missing player ref"@)
    } else {
        match a.active_settle {
            Some(s) => if s.status != status::status_of(result) {
                Some(
                    "active settle status "@ + text::signed_decimal(s.status as int)
                        + " does not match requested result "@ + text::signed_decimal(status::status_of(result)),
                )
            } else if Some(s.white_player) != white.player_ref || Some(s.black_player) != black.player_ref {
                Some("active settle does not match provided players"@)
            } else {
                None
            },
            None => match a.game {
                None => Some("missing game"@),
                Some(g) => if g.status != status::status_of(result) {
                    Some(
                        "terminal game status "@ + text::signed_decimal(g.status as int)
                            + " does not match requested result "@ + text::signed_decimal(
                            status::status_of(result),
                        ),
                    )
                } else if a.game_outpoint is None {
                    Some("missing game outpoint"@)
                } else {
                    None
                },
            },
        }
    }
}

/// The fields of the settlement of a result between two players.
pub open spec fn settlement_fields(
    white: SignerView,
    black: SignerView,
    result: GameResult,
) -> plan::StateView {
    game::settle_fields(
        white.player_ref->Some_0,
        black.player_ref->Some_0,
        status::status_of(result) as i64,
    )
}

/// The transaction that turns a finished game into its settlement.
pub open spec fn mux_settle_plan(
    a: ArenaView,
    white: SignerView,
    black: SignerView,
    result: GameResult,
    replies: Seq<ReplyView>,
) -> TxPlanView {
    plan::plan().spend(
        "Mux"@,
        game::game_fields(a.game->Some_0),
        plan::entry("settle"@),
        a.game_outpoint->Some_0,
        dialogue::utxo_at(replies, 1),
        0,
    ).keep("Settle"@, settlement_fields(white, black, result), a.covenant_id, 1000)
}

/// How far the settlement gets in finding, or making, the output that holds the stake.
pub open spec fn open_progress(
    a: ArenaView,
    white: SignerView,
    black: SignerView,
    result: GameResult,
    replies: Seq<ReplyView>,
) -> Progress {
    dialogue::check(
        settle_refusal(a, white, black, result),
        dialogue::ask_builder(
            replies,
            0,
            if a.active_settle is Some {
                dialogue::ask(
                    replies,
                    1,
                    dialogue::utxo_request(
                        "Settle"@,
                        settlement_fields(white, black, result),
                        1000,
                        a.covenant_id,
                    ),
                    "build active Settle UTXO: "@,
                    ""@,
                    Progress::Finished,
                )
            } else {
                dialogue::ask(
                    replies,
                    1,
                    dialogue::utxo_request("Mux"@, game::game_fields(a.game->Some_0), 1000, a.covenant_id),
                    "build terminal Mux UTXO: "@,
                    ""@,
                    dialogue::ask(
                        replies,
                        2,
                        RequestView::Build { plan: mux_settle_plan(a, white, black, result, replies) },
                        "route terminal game to settlement: "@,
                        ""@,
                        dialogue::ask(
                            replies,
                            3,
                            RequestView::ReadOutput { tx: dialogue::tx_at(replies, 2), index: 0 },
                            "read Settle output: "@,
                            ""@,
                            Progress::Finished,
                        ),
                    ),
                )
            },
        ),
    )
}

/// The place of the first reply after the settlement output is known.
pub open spec fn payout_start(a: ArenaView) -> int {
    if a.active_settle is Some {
        2
    } else {
        4
    }
}

/// The outpoint that holds the stake.
pub open spec fn stake_outpoint(a: ArenaView, replies: Seq<ReplyView>) -> Outpoint {
    match a.active_settle {
        Some(s) => s.outpoint,
        None => dialogue::output_at(replies, 3).outpoint,
    }
}

/// The output that holds the stake.
pub open spec fn stake_utxo(a: ArenaView, replies: Seq<ReplyView>) -> UnspentView {
    if a.active_settle is Some {
        dialogue::utxo_at(replies, 1)
    } else {
        dialogue::output_at(replies, 3).utxo
    }
}

/// White's entry after the settlement, before the output that holds it is known.
pub open spec fn settled_white(
    a: ArenaView,
    white: SignerView,
    black: SignerView,
    result: GameResult,
    replies: Seq<ReplyView>,
) -> PlayerStateData {
    settled_player(
        a.players[white.name],
        a.players[black.name].rating,
        white_score(result) as int,
        white_share(result, stake_utxo(a, replies).amount),
    )
}

/// Black's entry after the settlement, before the output that holds it is known.
pub open spec fn settled_black(
    a: ArenaView,
    white: SignerView,
    black: SignerView,
    result: GameResult,
    replies: Seq<ReplyView>,
) -> PlayerStateData {
    settled_player(
        a.players[black.name],
        a.players[white.name].rating,
        1000 - white_score(result),
        black_share(result, stake_utxo(a, replies).amount),
    )
}

/// Whether the entries after a settlement stay in the machine range, once its output is known and
/// both players have open games.
pub open spec fn settlement_fits(
    a: ArenaView,
    white: SignerView,
    black: SignerView,
    result: GameResult,
    replies: Seq<ReplyView>,
) -> bool {
    open_progress(a, white, black, result, replies) is Finished && a.players[white.name].open_games > 0
        && a.players[black.name].open_games > 0 ==> {
        &&& settled_player_fits(
            a.players[white.name],
            a.players[black.name].rating,
            white_score(result) as int,
            white_share(result, stake_utxo(a, replies).amount),
        )
        &&& settled_player_fits(
            a.players[black.name],
            a.players[white.name].rating,
            1000 - white_score(result),
            black_share(result, stake_utxo(a, replies).amount),
        )
    }
}

/// The transaction that pays the stake out to the players.
pub open spec fn payout_plan(
    a: ArenaView,
    white: SignerView,
    black: SignerView,
    result: GameResult,
    replies: Seq<ReplyView>,
) -> TxPlanView {
    let white_state = a.players[white.name];
    let black_state = a.players[black.name];
    let next_white = settled_white(a, white, black, result, replies);
    let next_black = settled_black(a, white, black, result, replies);
    let k = payout_start(a);
    plan::plan().spend(
        "Settle"@,
        settlement_fields(white, black, result),
        plan::entry("settle"@),
        stake_outpoint(a, replies),
        stake_utxo(a, replies),
        0,
    ).spend(
        "Player"@,
        game::player_fields(white_state),
        plan::entry("delegate_settle"@),
        white_state.outpoint,
        dialogue::utxo_at(replies, k + 1),
        0,
    ).spend(
        "Player"@,
        game::player_fields(black_state),
        plan::entry("delegate_settle"@),
        black_state.outpoint,
        dialogue::utxo_at(replies, k + 2),
        0,
    ).keep("Player"@, game::player_fields(next_white), a.covenant_id, next_white.value).keep(
        "Player"@,
        game::player_fields(next_black),
        a.covenant_id,
        next_black.value,
    )
}

/// How far the settlement gets in paying the stake out. The transaction that made the settlement
/// output, if there was one, is already out.
pub open spec fn payout_progress(
    a: ArenaView,
    white: SignerView,
    black: SignerView,
    result: GameResult,
    replies: Seq<ReplyView>,
) -> Progress {
    let sent: nat = if a.active_settle is Some {
        0
    } else {
        1
    };
    let white_state = a.players[white.name];
    let black_state = a.players[black.name];
    let k = payout_start(a);
    dialogue::check_sent(
        sent,
        if white_state.open_games <= 0 || black_state.open_games <= 0 {
            Some("cannot settle players without open games"@)
        } else {
            None
        },
        dialogue::ask_sent(
            sent,
            replies,
            k,
            RequestView::StartBuilder,
            "initialize Argent builder: "@,
            ""@,
            dialogue::ask_sent(
                sent,
                replies,
                k + 1,
                dialogue::utxo_request(
                    "Player"@,
                    game::player_fields(white_state),
                    white_state.value,
                    a.covenant_id,
                ),
                "build white settlement Player UTXO: "@,
                ""@,
                dialogue::ask_sent(
                    sent,
                    replies,
                    k + 2,
                    dialogue::utxo_request(
                        "Player"@,
                        game::player_fields(black_state),
                        black_state.value,
                        a.covenant_id,
                    ),
                    "build black settlement Player UTXO: "@,
                    ""@,
                    dialogue::ask_sent(
                        sent,
                        replies,
                        k + 3,
                        RequestView::Build { plan: payout_plan(a, white, black, result, replies) },
                        "settle game into players: "@,
                        ""@,
                        Progress::Finished,
                    ),
                ),
            ),
        ),
    )
}

/// How far a settlement gets.
pub open spec fn settle_progress(
    a: ArenaView,
    white: SignerView,
    black: SignerView,
    result: GameResult,
    replies: Seq<ReplyView>,
) -> Progress {
    dialogue::followed_by(
        open_progress(a, white, black, result, replies),
        payout_progress(a, white, black, result, replies),
    )
}

/// The arena after the transaction that made the settlement output, if there was one.
pub open spec fn opened(a: ArenaView, replies: Seq<ReplyView>) -> ArenaView {
    match mux_tx(a, replies) {
        Some(mux) => a.with_tx(mux),
        None => a,
    }
}

/// The arena after a settlement was paid out by `tx`, through a settlement output that `mux_tx` made
/// if there was none yet.
pub open spec fn paid_out(
    a: ArenaView,
    white: Seq<char>,
    black: Seq<char>,
    result: GameResult,
    mux_tx: Option<ChainTxView>,
    next_white: PlayerStateData,
    next_black: PlayerStateData,
    tx: ChainTxView,
) -> ArenaView {
    let open = match mux_tx {
        Some(mux) => a.with_tx(mux),
        None => a,
    };
    let paid = open.with_tx(tx).with_player(
        white,
        PlayerStateData { outpoint: chain::output_of(tx, 0), ..next_white },
    ).with_player(
        black,
        PlayerStateData { outpoint: chain::output_of(tx, 1), ..next_black },
    ).without_game();
    let told = ArenaView { active_worker: None, active_settle: None, ..paid }.with_message(
        "arena"@,
        white,
        MessageKindView::SettlementNotice { result },
    ).with_message("arena"@, black, MessageKindView::SettlementNotice { result });
    let noted = match mux_tx {
        Some(mux) => told.with_record("mux_settle"@, mux, Seq::empty()),
        None => told,
    };
    noted.with_record("settle"@, tx, Seq::empty())
}

/// The transaction that made the settlement output, if one had to.
pub open spec fn mux_tx(a: ArenaView, replies: Seq<ReplyView>) -> Option<ChainTxView> {
    if a.active_settle is Some {
        None
    } else {
        Some(dialogue::tx_at(replies, 2))
    }
}

/// The arena after a settlement went through.
pub open spec fn settled(
    a: ArenaView,
    white: SignerView,
    black: SignerView,
    result: GameResult,
    replies: Seq<ReplyView>,
) -> ArenaView {
    paid_out(
        a,
        white.name,
        black.name,
        result,
        mux_tx(a, replies),
        settled_white(a, white, black, result, replies),
        settled_black(a, white, black, result, replies),
        dialogue::tx_at(replies, payout_start(a) + 3),
    )
}

/// The arena after a settlement was tried.
pub open spec fn settle_after(
    a: ArenaView,
    white: SignerView,
    black: SignerView,
    result: GameResult,
    replies: Seq<ReplyView>,
) -> ArenaView {
    match settle_progress(a, white, black, result, replies) {
        Progress::Finished => settled(a, white, black, result, replies),
        Progress::Stuck(..) => opened(a, replies),
        _ => a,
    }
}

/// The content of a transaction, where there is one.
pub open spec fn tx_view(tx: Option<ChainTx>) -> Option<ChainTxView> {
    match tx {
        Some(t) => Some(t@),
        None => None,
    }
}

/// The output that holds the stake, with the transaction that made it, if one had to.
struct Settlement {
    outpoint: Outpoint,
    utxo: Unspent,
    tx: Option<ChainTx>,
}

impl TxArena {
    fn open_settlement(
        &self,
        white: &SigningPlayer,
        black: &SigningPlayer,
        result: GameResult,
        replies: &Vec<Reply>,
    ) -> (settlement: Result<Settlement, Halt>)
        requires
            self.wf(),
        ensures
            dialogue::halt_of(settlement) == dialogue::halted(
                open_progress(self@, white@, black@, result, dialogue::reply_views(replies@)),
            ),
            settlement is Err ==> !(open_progress(
                self@,
                white@,
                black@,
                result,
                dialogue::reply_views(replies@),
            ) is Stuck),
            settlement matches Ok(s) ==> {
                &&& s.outpoint == stake_outpoint(self@, dialogue::reply_views(replies@))
                &&& s.utxo@ == stake_utxo(self@, dialogue::reply_views(replies@))
                &&& tx_view(s.tx) == mux_tx(self@, dialogue::reply_views(replies@))
            },
    {
        let expected_status: i64 = status_from_result(result);
        if self.players.get(&white.name).is_none() {
            return Err(stop("missing white"));
        }
        if self.players.get(&black.name).is_none() {
            return Err(stop("missing black"));
        }
        let white_ref: Hash32 = match white.player_ref {
            Some(player_ref) => player_ref,
            None => return Err(stop("white missing player ref")),
        };
        let black_ref: Hash32 = match black.player_ref {
            Some(player_ref) => player_ref,
            None => return Err(stop("black missing player ref")),
        };
        match &self.active_settle {
            Some(active) => {
                if active.status != expected_status {
                    let head: String = join3(
                        "active settle status ",
                        signed_decimal_text(active.status).as_str(),
                        " does not match requested result ",
                    );
                    return Err(
                        stop(join2(head.as_str(), signed_decimal_text(expected_status).as_str()).as_str()),
                    );
                }
                if active.white_player != white_ref || active.black_player != black_ref {
                    return Err(stop("active settle does not match provided players"));
                }
                hear_builder(replies, 0)?;
                let utxo: &Unspent = hear_utxo(
                    replies,
                    1,
                    Request::ActorUtxo {
                        actor: "Settle",
                        state: settle_source_state(white_ref, black_ref, expected_status),
                        value: 1000,
                        covenant_id: self.covenant_id,
                    },
                    "build active Settle UTXO: ",
                    "",
                )?;
                Ok(Settlement { outpoint: active.outpoint, utxo: utxo.clone(), tx: None })
            },
            None => {
                let game: &GameStateData = match &self.game {
                    Some(game) => game,
                    None => return Err(stop("missing game")),
                };
                if game.status != expected_status {
                    let head: String = join3(
                        "terminal game status ",
                        signed_decimal_text(game.status).as_str(),
                        " does not match requested result ",
                    );
                    return Err(
                        stop(join2(head.as_str(), signed_decimal_text(expected_status).as_str()).as_str()),
                    );
                }
                let game_outpoint: Outpoint = match self.game_outpoint {
                    Some(outpoint) => outpoint,
                    None => return Err(stop("missing game outpoint")),
                };
                hear_builder(replies, 0)?;
                let game_utxo: &Unspent = hear_utxo(
                    replies,
                    1,
                    Request::ActorUtxo {
                        actor: "Mux",
                        state: game_source_state(game),
                        value: 1000,
                        covenant_id: self.covenant_id,
                    },
                    "build terminal Mux UTXO: ",
                    "",
                )?;
                let plan: TxPlan = TxPlan::new().spend(
                    "Mux",
                    game_source_state(game),
                    EntryCall::new("settle"),
                    game_outpoint,
                    game_utxo.clone(),
                    0,
                ).keep(
                    "Settle",
                    settle_source_state(white_ref, black_ref, expected_status),
                    self.covenant_id,
                    1000,
                );
                let tx: &ChainTx = hear_tx(
                    replies,
                    2,
                    Request::Build { plan },
                    "route terminal game to settlement: ",
                    "",
                )?;
                let output: &CovenantOutput = hear_output(
                    replies,
                    3,
                    Request::ReadOutput { tx: tx.clone(), index: 0 },
                    "read Settle output: ",
                    "",
                )?;
                Ok(
                    Settlement {
                        outpoint: output.outpoint,
                        utxo: output.utxo.clone(),
                        tx: Some(tx.clone()),
                    },
                )
            },
        }
    }

    fn payout(
        &self,
        white: &SigningPlayer,
        black: &SigningPlayer,
        result: GameResult,
        settlement: &Settlement,
        replies: &Vec<Reply>,
    ) -> (paid: Result<(PlayerStateData, PlayerStateData, ChainTx), Halt>)
        requires
            self.wf(),
            open_progress(self@, white@, black@, result, dialogue::reply_views(replies@)) is Finished,
            settlement_fits(self@, white@, black@, result, dialogue::reply_views(replies@)),
            settlement.outpoint == stake_outpoint(self@, dialogue::reply_views(replies@)),
            settlement.utxo@ == stake_utxo(self@, dialogue::reply_views(replies@)),
        ensures
            dialogue::halt_of(paid) == dialogue::halted(
                payout_progress(self@, white@, black@, result, dialogue::reply_views(replies@)),
            ),
            !(payout_progress(self@, white@, black@, result, dialogue::reply_views(replies@)) is Refused),
            paid matches Ok((next_white, next_black, tx)) ==> {
                &&& next_white == settled_white(
                    self@,
                    white@,
                    black@,
                    result,
                    dialogue::reply_views(replies@),
                )
                &&& next_black == settled_black(
                    self@,
                    white@,
                    black@,
                    result,
                    dialogue::reply_views(replies@),
                )
                &&& next_white.wf()
                &&& next_black.wf()
                &&& arena::rating_in_reach(next_white, self.base_rating)
                &&& arena::rating_in_reach(next_black, self.base_rating)
                &&& tx@ == dialogue::tx_at(dialogue::reply_views(replies@), payout_start(self@) + 3)
            },
    {
        let white_ref: Hash32 = match white.player_ref {
            Some(player_ref) => player_ref,
            None => return Err(stop("white missing player ref")),
        };
        let black_ref: Hash32 = match black.player_ref {
            Some(player_ref) => player_ref,
            None => return Err(stop("black missing player ref")),
        };
        let white_state: PlayerStateData = match self.players.get(&white.name) {
            Some(state) => *state,
            None => return Err(stop("missing white")),
        };
        let black_state: PlayerStateData = match self.players.get(&black.name) {
            Some(state) => *state,
            None => return Err(stop("missing black")),
        };
        if white_state.open_games <= 0 || black_state.open_games <= 0 {
            return Err(stop("cannot settle players without open games"));
        }
        let stake: u64 = settlement.utxo.amount;
        let (white_actual, white_gain): (i64, u64) = white_part(result, stake);
        let next_white: PlayerStateData = settle_player(
            white_state,
            black_state.rating,
            white_actual,
            white_gain,
        );
        let next_black: PlayerStateData = settle_player(
            black_state,
            white_state.rating,
            1000 - white_actual,
            stake - white_gain,
        );
        proof {
            rating::rating_change_is_bounded(
                white_state.rating as int,
                black_state.rating as int,
                white_actual as int,
            );
            rating::rating_change_is_bounded(
                black_state.rating as int,
                white_state.rating as int,
                1000 - white_actual,
            );
        }

        let k: usize = if self.active_settle.is_some() {
            2
        } else {
            4
        };
        hear_builder(replies, k)?;
        let white_utxo: &Unspent = hear_utxo(
            replies,
            k + 1,
            Request::ActorUtxo {
                actor: "Player",
                state: player_source_state(&white_state),
                value: white_state.value,
                covenant_id: self.covenant_id,
            },
            "build white settlement Player UTXO: ",
            "",
        )?;
        let black_utxo: &Unspent = hear_utxo(
            replies,
            k + 2,
            Request::ActorUtxo {
                actor: "Player",
                state: player_source_state(&black_state),
                value: black_state.value,
                covenant_id: self.covenant_id,
            },
            "build black settlement Player UTXO: ",
            "",
        )?;
        let plan: TxPlan = TxPlan::new().spend(
            "Settle",
            settle_source_state(white_ref, black_ref, status_from_result(result)),
            EntryCall::new("settle"),
            settlement.outpoint,
            settlement.utxo.clone(),
            0,
        ).spend(
            "Player",
            player_source_state(&white_state),
            EntryCall::new("delegate_settle"),
            white_state.outpoint,
            white_utxo.clone(),
            0,
        ).spend(
            "Player",
            player_source_state(&black_state),
            EntryCall::new("delegate_settle"),
            black_state.outpoint,
            black_utxo.clone(),
            0,
        ).keep("Player", player_source_state(&next_white), self.covenant_id, next_white.value).keep(
            "Player",
            player_source_state(&next_black),
            self.covenant_id,
            next_black.value,
        );
        let tx: &ChainTx = hear_tx(
            replies,
            k + 3,
            Request::Build { plan },
            "settle game into players: ",
            "",
        )?;
        Ok((next_white, next_black, tx.clone()))
    }

    fn commit_payout(
        &mut self,
        white: &String,
        black: &String,
        result: GameResult,
        mux_tx: &Option<ChainTx>,
        next_white: PlayerStateData,
        next_black: PlayerStateData,
        tx: &ChainTx,
    )
        requires
            old(self).wf(),
            next_white.wf(),
            next_black.wf(),
            arena::rating_in_reach(next_white, old(self).base_rating),
            arena::rating_in_reach(next_black, old(self).base_rating),
        ensures
            final(self).wf(),
            final(self)@ == paid_out(
                old(self)@,
                white@,
                black@,
                result,
                tx_view(*mux_tx),
                next_white,
                next_black,
                tx@,
            ),
    {
        let ghost first = self@;
        let mux_submission: Option<SubmittedTx> = match mux_tx {
            Some(mux) => {
                self.push_tx(mux);
                Some(submitted_tx("mux_settle", mux, no_signers()))
            },
            None => None,
        };
        let ghost sent = self@.transactions;
        self.push_tx(tx);
        self.set_player(white, PlayerStateData { outpoint: tx.outpoint(0), ..next_white });
        self.set_player(black, PlayerStateData { outpoint: tx.outpoint(1), ..next_black });
        self.clear_game();
        self.active_worker = None;
        self.active_settle = None;
        self.push_message("arena", white, OffchainMessageKind::SettlementNotice { result });
        self.push_message("arena", black, OffchainMessageKind::SettlementNotice { result });
        if let Some(mux_record) = mux_submission {
            self.push_record(mux_record);
        }
        let ghost noted = self@.history;
        self.push_record(submitted_tx("settle", tx, no_signers()));
        proof {
            match mux_tx {
                Some(mux) => {
                    arena::lemma_record_tx(
                        first.history,
                        first.transactions,
                        "mux_settle"@,
                        mux@,
                        Seq::empty(),
                    );
                },
                None => {},
            }
            arena::lemma_record_tx(noted, sent, "settle"@, tx@, Seq::empty());
        }
    }

    /// Whether the entries after the settlement of a game stay in the machine range, on the replies at
    /// hand.
    pub fn settlement_in_range(
        &self,
        white: &SigningPlayer,
        black: &SigningPlayer,
        result: GameResult,
        replies: &Vec<Reply>,
    ) -> (fits: bool)
        requires
            self.wf(),
        ensures
            fits == settlement_fits(self@, white@, black@, result, dialogue::reply_views(replies@)),
    {
        let stake: u64 = match self.open_settlement(white, black, result, replies) {
            Ok(settlement) => settlement.utxo.amount,
            Err(_) => return true,
        };
        match (self.players.get(&white.name), self.players.get(&black.name)) {
            (Some(white_state), Some(black_state)) => {
                if white_state.open_games <= 0 || black_state.open_games <= 0 {
                    return true;
                }
                let (score, share): (i64, u64) = white_part(result, stake);
                settled_player_in_range(*white_state, black_state.rating, score, share)
                    && settled_player_in_range(
                    *black_state,
                    white_state.rating,
                    1000 - score,
                    stake - share,
                )
            },
            _ => true,
        }
    }

    /// Settles the finished game between two players: the stake goes to the winner, or is split on
    /// a draw, the records grow by one game, and the ratings move.
    pub fn settle_game(
        &mut self,
        white: &SigningPlayer,
        black: &SigningPlayer,
        result: GameResult,
        replies: &Vec<Reply>,
    ) -> (done: Result<(), Halt>)
        requires
            old(self).wf(),
            settlement_fits(old(self)@, white@, black@, result, dialogue::reply_views(replies@)),
        ensures
            final(self).wf(),
            dialogue::halt_of(done) == dialogue::halted(
                settle_progress(old(self)@, white@, black@, result, dialogue::reply_views(replies@)),
            ),
            final(self)@ == settle_after(
                old(self)@,
                white@,
                black@,
                result,
                dialogue::reply_views(replies@),
            ),
    {
        let settlement: Settlement = self.open_settlement(white, black, result, replies)?;
        match self.payout(white, black, result, &settlement, replies) {
            Err(Halt::Need(request)) => Err(Halt::Need(request)),
            Err(Halt::Refused(refusal)) => {
                if let Some(mux) = &settlement.tx {
                    self.push_tx(mux);
                    proof {
                        arena::lemma_more_transactions(
                            old(self)@.history,
                            old(self)@.transactions,
                            mux@,
                        );
                    }
                }
                Err(Halt::Refused(refusal))
            },
            Ok((next_white, next_black, tx)) => {
                self.commit_payout(
                    &white.name,
                    &black.name,
                    result,
                    &settlement.tx,
                    next_white,
                    next_black,
                    &tx,
                );
                Ok(())
            },
        }
    }

    /// Asks both players of the game in progress to settle it.
    pub fn request_settlement(
        &mut self,
        requester: &SigningPlayer,
        opponent: &SigningPlayer,
        result: GameResult,
    ) -> (done: Result<(), OrchestratorError>)
        requires
            old(self).wf(),
        ensures
            final(self).wf(),
            done is Ok <==> request_refusal(old(self)@, requester@, opponent@) is None,
            done matches Err(e) ==> request_refusal(old(self)@, requester@, opponent@) == Some(e.0@)
                && final(self)@ == old(self)@,
            done is Ok ==> final(self)@ == requested(old(self)@, requester@, opponent@, result),
    {
        require_registered(requester)?;
        require_registered(opponent)?;
        let (white_player, black_player): (Hash32, Hash32) = match &self.game {
            Some(game) => (game.white_player, game.black_player),
            None => return Err(refuse("missing game")),
        };
        let white_name: String = match seated(requester, opponent, white_player) {
            Some(name) => name,
            None => return Err(refuse("missing white player in settlement request")),
        };
        let black_name: String = match seated(requester, opponent, black_player) {
            Some(name) => name,
            None => return Err(refuse("missing black player in settlement request")),
        };
        self.push_message(
            requester.name.as_str(),
            &white_name,
            OffchainMessageKind::SettlementRequest { result },
        );
        self.push_message(
            requester.name.as_str(),
            &black_name,
            OffchainMessageKind::SettlementRequest { result },
        );
        Ok(())
    }
}

/// Which of two players carries a reference.
pub open spec fn seat(
    requester: SignerView,
    opponent: SignerView,
    player_ref: Hash32,
) -> Option<Seq<char>> {
    if requester.player_ref == Some(player_ref) {
        Some(requester.name)
    } else if opponent.player_ref == Some(player_ref) {
        Some(opponent.name)
    } else {
        None
    }
}

fn carries(player: &SigningPlayer, player_ref: Hash32) -> (yes: bool)
    ensures
        yes == (player@.player_ref == Some(player_ref)),
{
    match player.player_ref {
        Some(own) => own == player_ref,
        None => false,
    }
}

fn seated(
    requester: &SigningPlayer,
    opponent: &SigningPlayer,
    player_ref: Hash32,
) -> (name: Option<String>)
    ensures
        name is Some <==> seat(requester@, opponent@, player_ref) is Some,
        name matches Some(n) ==> seat(requester@, opponent@, player_ref) == Some(n@),
{
    if carries(requester, player_ref) {
        Some(requester.name.clone())
    } else if carries(opponent, player_ref) {
        Some(opponent.name.clone())
    } else {
        None
    }
}

/// Why a request to settle is refused.
pub open spec fn request_refusal(
    a: ArenaView,
    requester: SignerView,
    opponent: SignerView,
) -> Option<Seq<char>> {
    if !arena::registered(requester) {
        Some(requester.name + " is not registered"@)
    } else if !arena::registered(opponent) {
        Some(opponent.name + " is not registered"@)
    } else {
        match a.game {
            None => Some("missing game"@),
            Some(g) => if seat(requester, opponent, g.white_player) is None {
                Some("missing white player in settlement request"@)
            } else if seat(requester, opponent, g.black_player) is None {
                Some("missing black player in settlement request"@)
            } else {
                None
            },
        }
    }
}

/// The arena after both players were asked to settle.
pub open spec fn requested(
    a: ArenaView,
    requester: SignerView,
    opponent: SignerView,
    result: GameResult,
) -> ArenaView {
    let g = a.game->Some_0;
    let kind = MessageKindView::SettlementRequest { result };
    a.with_message(requester.name, seat(requester, opponent, g.white_player)->Some_0, kind).with_message(
        requester.name,
        seat(requester, opponent, g.black_player)->Some_0,
        kind,
    )
}

} // verus!
