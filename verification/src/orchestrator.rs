//! A player's side of the arena.

use vstd::prelude::*;

use crate::arena::{ArenaView, SubmittedTx, TxArena};
use crate::dialogue::{self, Halt, Reply};
use crate::endgame;
use crate::error::OrchestratorError;
use crate::league;
use crate::messages::{self, OffchainMessage};
use crate::moves::MoveSpec;
use crate::play;
use crate::settlement;
use crate::signing::SigningPlayer;
use crate::status::GameResult;

verus! {

/// A player who acts on an arena.
pub struct TxOrchestrator {
    pub player: SigningPlayer,
}

impl Clone for TxOrchestrator {
    fn clone(&self) -> (copy: TxOrchestrator)
        ensures
            copy.player@ == self.player@,
    {
        TxOrchestrator { player: self.player.clone() }
    }
}

impl TxOrchestrator {
    /// The player whose secret key is `seed` repeated 32 times, not yet registered.
    ///
    /// A seed of 0 or 255 gives no secret key.
    pub fn new(name: &str, seed: u8) -> (orchestrator: Self)
        requires
            0 < seed < 255,
        ensures
            league::fresh_signer(orchestrator.player@, name@, seed),
    {
        TxOrchestrator { player: SigningPlayer::from_seed(name, seed) }
    }

    /// Takes the player's messages.
    pub fn inbox(&self, arena: &mut TxArena) -> (letters: Vec<OffchainMessage>)
        requires
            old(arena).wf(),
        ensures
            final(arena).wf(),
            messages::message_views(letters@) == messages::waiting(
                old(arena)@.messages,
                self.player@.name,
            ),
            final(arena)@ == (ArenaView {
                messages: old(arena)@.messages.remove(self.player@.name),
                ..old(arena)@
            }),
    {
        arena.drain_messages(self.player.name.as_str())
    }

    /// Registers the player on the first lane.
    pub fn register(
        &mut self,
        arena: &mut TxArena,
        replies: &Vec<Reply>,
    ) -> (done: Result<(), Halt>)
        requires
            old(arena).wf(),
        ensures
            final(arena).wf(),
            dialogue::halt_of(done) == dialogue::halted(
                league::register_progress(
                    old(arena)@,
                    old(self).player@,
                    0,
                    dialogue::reply_views(replies@),
                ),
            ),
            final(arena)@ == league::register_after(
                old(arena)@,
                old(self).player@,
                0,
                dialogue::reply_views(replies@),
            ),
            final(self).player@ == league::registrant(
                old(arena)@,
                old(self).player@,
                0,
                dialogue::reply_views(replies@),
            ),
    {
        arena.register_player(&mut self.player, replies)
    }

    /// Registers the player on a lane.
    pub fn register_on_lane(
        &mut self,
        arena: &mut TxArena,
        lane_index: usize,
        replies: &Vec<Reply>,
    ) -> (done: Result<(), Halt>)
        requires
            old(arena).wf(),
        ensures
            final(arena).wf(),
            dialogue::halt_of(done) == dialogue::halted(
                league::register_progress(
                    old(arena)@,
                    old(self).player@,
                    lane_index as int,
                    dialogue::reply_views(replies@),
                ),
            ),
            final(arena)@ == league::register_after(
                old(arena)@,
                old(self).player@,
                lane_index as int,
                dialogue::reply_views(replies@),
            ),
            final(self).player@ == league::registrant(
                old(arena)@,
                old(self).player@,
                lane_index as int,
                dialogue::reply_views(replies@),
            ),
    {
        arena.register_player_on_lane(&mut self.player, lane_index, replies)
    }

    /// Invites another player to a game in which this one has white.
    pub fn send_game_invite(
        &self,
        arena: &mut TxArena,
        other: &TxOrchestrator,
    ) -> (done: Result<(), OrchestratorError>)
        requires
            old(arena).wf(),
        ensures
            final(arena).wf(),
            league::refusal_of(done) == league::invite_refusal(self.player@, other.player@),
            final(arena)@ == if done is Ok {
                league::invited(old(arena)@, self.player@, other.player@)
            } else {
                old(arena)@
            },
    {
        arena.send_game_invite(&self.player, &other.player)
    }

    /// Accepts the invitation of another player, who has white.
    pub fn accept_game_invite(
        &self,
        arena: &mut TxArena,
        other: &TxOrchestrator,
    ) -> (done: Result<(), OrchestratorError>)
        requires
            old(arena).wf(),
        ensures
            final(arena).wf(),
            league::refusal_of(done) == league::invite_refusal(other.player@, self.player@),
            final(arena)@ == if done is Ok {
                league::invitation_accepted(old(arena)@, self.player@, other.player@)
            } else {
                old(arena)@
            },
    {
        arena.accept_game_invite(&self.player, &other.player)
    }

    /// Starts a game in which this player has white.
    pub fn start_game(
        &self,
        arena: &mut TxArena,
        other: &TxOrchestrator,
        replies: &Vec<Reply>,
    ) -> (done: Result<(), Halt>)
        requires
            old(arena).wf(),
            play::start_fits(old(arena)@, self.player@, other.player@),
        ensures
            final(arena).wf(),
            dialogue::halt_of(done) == dialogue::halted(
                play::start_progress(
                    old(arena)@,
                    self.player@,
                    other.player@,
                    dialogue::reply_views(replies@),
                ),
            ),
            final(arena)@ == play::start_after(
                old(arena)@,
                self.player@,
                other.player@,
                dialogue::reply_views(replies@),
            ),
    {
        arena.start_game(&self.player, &other.player, replies)
    }

    /// Makes a move under the rules of chess.
    pub fn submit_move(
        &self,
        arena: &mut TxArena,
        mv: MoveSpec,
        replies: &Vec<Reply>,
    ) -> (done: Result<Vec<SubmittedTx>, Halt>)
        requires
            old(arena).wf(),
            play::move_fits(old(arena)@, self.player@, mv, dialogue::reply_views(replies@)),
        ensures
            final(arena).wf(),
            play::comes_to(
                play::plain_move_outcome(
                    old(arena)@,
                    self.player@,
                    mv,
                    dialogue::reply_views(replies@),
                ),
                final(arena)@,
                done,
            ),
    {
        arena.submit_move(&self.player, mv, replies)
    }

    /// Makes a move, and offers a draw with it.
    pub fn offer_draw(
        &self,
        arena: &mut TxArena,
        mv: MoveSpec,
        replies: &Vec<Reply>,
    ) -> (done: Result<Vec<SubmittedTx>, Halt>)
        requires
            old(arena).wf(),
            play::move_fits(old(arena)@, self.player@, mv, dialogue::reply_views(replies@)),
        ensures
            final(arena).wf(),
            play::comes_to(
                play::offering_move_outcome(
                    old(arena)@,
                    self.player@,
                    mv,
                    dialogue::reply_views(replies@),
                ),
                final(arena)@,
                done,
            ),
    {
        arena.offer_draw(&self.player, mv, replies)
    }

    /// Makes a move under the broader protocol rules.
    pub fn force_move(
        &self,
        arena: &mut TxArena,
        mv: MoveSpec,
        replies: &Vec<Reply>,
    ) -> (done: Result<Vec<SubmittedTx>, Halt>)
        requires
            old(arena).wf(),
            play::move_fits(old(arena)@, self.player@, mv, dialogue::reply_views(replies@)),
        ensures
            final(arena).wf(),
            play::comes_to(
                play::forced_move_outcome(
                    old(arena)@,
                    self.player@,
                    mv,
                    dialogue::reply_views(replies@),
                ),
                final(arena)@,
                done,
            ),
    {
        arena.force_move(&self.player, mv, replies)
    }

    /// Challenges the castle that the opponent just made.
    pub fn challenge_castle(
        &self,
        arena: &mut TxArena,
        mv: MoveSpec,
        replies: &Vec<Reply>,
    ) -> (done: Result<Vec<SubmittedTx>, Halt>)
        requires
            old(arena).wf(),
            play::challenge_fits(
                old(arena)@,
                self.player@,
                mv,
                false,
                dialogue::reply_views(replies@),
            ),
        ensures
            final(arena).wf(),
            play::comes_to(
                play::challenge_outcome(
                    old(arena)@,
                    self.player@,
                    mv,
                    false,
                    dialogue::reply_views(replies@),
                ),
                final(arena)@,
                done,
            ),
    {
        arena.challenge_castle(&self.player, mv, false, replies)
    }

    /// Challenges the castle that the opponent just made, and leaves the game in a worker if that fails.
    pub fn force_castle_challenge(
        &self,
        arena: &mut TxArena,
        mv: MoveSpec,
        replies: &Vec<Reply>,
    ) -> (done: Result<Vec<SubmittedTx>, Halt>)
        requires
            old(arena).wf(),
            play::challenge_fits(
                old(arena)@,
                self.player@,
                mv,
                true,
                dialogue::reply_views(replies@),
            ),
        ensures
            final(arena).wf(),
            play::comes_to(
                play::challenge_outcome(
                    old(arena)@,
                    self.player@,
                    mv,
                    true,
                    dialogue::reply_views(replies@),
                ),
                final(arena)@,
                done,
            ),
    {
        arena.challenge_castle(&self.player, mv, true, replies)
    }

    /// Claims a draw.
    pub fn claim_draw(&self, arena: &mut TxArena, replies: &Vec<Reply>) -> (done: Result<(), Halt>)
        requires
            old(arena).wf(),
        ensures
            final(arena).wf(),
            final(arena)@ == endgame::draw_claim_outcome(
                old(arena)@,
                self.player@,
                dialogue::reply_views(replies@),
            ).after,
            dialogue::halt_of(done) == endgame::draw_claim_outcome(
                old(arena)@,
                self.player@,
                dialogue::reply_views(replies@),
            ).halt,
    {
        arena.claim_draw(&self.player, replies)
    }

    /// Accepts the draw that the opponent offered.
    pub fn accept_draw(&self, arena: &mut TxArena, replies: &Vec<Reply>) -> (done: Result<(), Halt>)
        requires
            old(arena).wf(),
        ensures
            final(arena).wf(),
            final(arena)@ == endgame::draw_acceptance_outcome(
                old(arena)@,
                self.player@,
                dialogue::reply_views(replies@),
            ).after,
            dialogue::halt_of(done) == endgame::draw_acceptance_outcome(
                old(arena)@,
                self.player@,
                dialogue::reply_views(replies@),
            ).halt,
    {
        arena.accept_draw(&self.player, replies)
    }

    /// Gives the game up.
    pub fn surrender(&self, arena: &mut TxArena, replies: &Vec<Reply>) -> (done: Result<(), Halt>)
        requires
            old(arena).wf(),
        ensures
            final(arena).wf(),
            final(arena)@ == endgame::surrender_outcome(
                old(arena)@,
                self.player@,
                dialogue::reply_views(replies@),
            ).after,
            dialogue::halt_of(done) == endgame::surrender_outcome(
                old(arena)@,
                self.player@,
                dialogue::reply_views(replies@),
            ).halt,
    {
        arena.surrender(&self.player, replies)
    }

    /// Claims a game whose side to move ran out of time.
    pub fn claim_timeout(
        &self,
        arena: &mut TxArena,
        replies: &Vec<Reply>,
    ) -> (done: Result<(), Halt>)
        requires
            old(arena).wf(),
        ensures
            final(arena).wf(),
            final(arena)@ == endgame::claim_outcome(
                old(arena)@,
                self.player@,
                dialogue::reply_views(replies@),
            ).after,
            dialogue::halt_of(done) == endgame::claim_outcome(
                old(arena)@,
                self.player@,
                dialogue::reply_views(replies@),
            ).halt,
    {
        arena.claim_timeout(&self.player, replies)
    }

    /// Asks both players of the game in progress to settle it.
    pub fn request_settlement(
        &self,
        arena: &mut TxArena,
        other: &TxOrchestrator,
        result: GameResult,
    ) -> (done: Result<(), OrchestratorError>)
        requires
            old(arena).wf(),
        ensures
            final(arena).wf(),
            league::refusal_of(done) == settlement::request_refusal(
                old(arena)@,
                self.player@,
                other.player@,
            ),
            final(arena)@ == if done is Ok {
                settlement::requested(old(arena)@, self.player@, other.player@, result)
            } else {
                old(arena)@
            },
    {
        arena.request_settlement(&self.player, &other.player, result)
    }

    /// Settles the finished game in which this player had white.
    pub fn settle(
        &self,
        arena: &mut TxArena,
        other: &TxOrchestrator,
        result: GameResult,
        replies: &Vec<Reply>,
    ) -> (done: Result<(), Halt>)
        requires
            old(arena).wf(),
            settlement::settlement_fits(
                old(arena)@,
                self.player@,
                other.player@,
                result,
                dialogue::reply_views(replies@),
            ),
        ensures
            final(arena).wf(),
            dialogue::halt_of(done) == dialogue::halted(
                settlement::settle_progress(
                    old(arena)@,
                    self.player@,
                    other.player@,
                    result,
                    dialogue::reply_views(replies@),
                ),
            ),
            final(arena)@ == settlement::settle_after(
                old(arena)@,
                self.player@,
                other.player@,
                result,
                dialogue::reply_views(replies@),
            ),
    {
        arena.settle_game(&self.player, &other.player, result, replies)
    }

    /// Removes the player from the league.
    pub fn retire(&self, arena: &mut TxArena, replies: &Vec<Reply>) -> (done: Result<(), Halt>)
        requires
            old(arena).wf(),
        ensures
            final(arena).wf(),
            dialogue::halt_of(done) == dialogue::halted(
                league::retire_progress(old(arena)@, self.player@, dialogue::reply_views(replies@)),
            ),
            final(arena)@ == league::retire_after(
                old(arena)@,
                self.player@,
                dialogue::reply_views(replies@),
            ),
    {
        arena.retire_player(&self.player, replies)
    }

    /// Gives the player a new value.
    pub fn rebalance(
        &self,
        arena: &mut TxArena,
        value: u64,
        replies: &Vec<Reply>,
    ) -> (done: Result<(), Halt>)
        requires
            old(arena).wf(),
        ensures
            final(arena).wf(),
            dialogue::halt_of(done) == dialogue::halted(
                league::stake_progress(
                    old(arena)@,
                    self.player@,
                    value,
                    dialogue::reply_views(replies@),
                ),
            ),
            final(arena)@ == league::stake_after(
                old(arena)@,
                self.player@,
                value,
                dialogue::reply_views(replies@),
            ),
    {
        arena.rebalance_player(&self.player, value, replies)
    }
}

} // verus!
