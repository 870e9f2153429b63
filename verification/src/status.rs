//! Sides, game status codes and results.

use vstd::prelude::*;

use crate::error::{self, refuse, OrchestratorError};
use crate::text::{self, join3, signed_decimal_text};

verus! {

/// How a game ended.
#[derive(Clone, Copy, Debug, PartialEq, Eq, Structural)]
pub enum GameResult {
    WhiteWin,
    BlackWin,
    Draw,
}

/// The side of a player.
#[derive(Clone, Copy, Debug, PartialEq, Eq, Structural)]
pub enum Side {
    White,
    Black,
}

/// The time a player has for a move.
pub const DEFAULT_MOVE_TIMEOUT: i64 = 600;

/// The turn of white.
pub const WHITE: i64 = 0;

/// The turn of black.
pub const BLACK: i64 = 1;

/// The status of a game that goes on.
pub const LIVE: i64 = 0;

/// The status of a game that white won.
pub const WWIN: i64 = 1;

/// The status of a game that black won.
pub const BWIN: i64 = 2;

/// The status of a drawn game.
pub const DRAW: i64 = 3;

/// No termination action, no castle to challenge.
pub const CLEAR: i64 = 0;

/// The termination action of a move that offers a draw.
pub const OFFER: i64 = 1;

/// The termination action that claims a draw.
pub const CLAIM: i64 = 2;

/// The termination action that gives the game up.
pub const SURRENDER: i64 = 3;

/// The termination action that accepts a draw offer.
pub const ACCEPT: i64 = 4;

/// The draw state after a draw claim.
pub const CLAIMED: i64 = 1;

/// The draw state in which the claimant defends the claim.
pub const DEFENSE: i64 = 2;

/// The draw state without claim or offer.
pub const NORMAL: i64 = 3;

/// The draw state after white's offer.
pub const WOFFER: i64 = 4;

/// The draw state after black's offer.
pub const BOFFER: i64 = 5;

/// The side to move.
pub open spec fn side_to_move(turn: int) -> Side {
    if turn == WHITE {
        Side::White
    } else {
        Side::Black
    }
}

/// The side to move.
pub fn side_from_turn(turn: i64) -> (side: Side)
    ensures
        side == side_to_move(turn as int),
{
    if turn == 0 {
        Side::White
    } else {
        Side::Black
    }
}

/// The status of a game that ended with this result.
pub open spec fn status_of(result: GameResult) -> int {
    match result {
        GameResult::WhiteWin => WWIN as int,
        GameResult::BlackWin => BWIN as int,
        GameResult::Draw => DRAW as int,
    }
}

/// The status of a game that ended with this result.
pub fn status_from_result(result: GameResult) -> (status: i64)
    ensures
        status == status_of(result),
{
    match result {
        GameResult::WhiteWin => 1,
        GameResult::BlackWin => 2,
        GameResult::Draw => 3,
    }
}

/// The result that a status stands for, or why there is none.
pub open spec fn result_of(status: int) -> Result<GameResult, Seq<char>> {
    if status == WWIN {
        Ok(GameResult::WhiteWin)
    } else if status == BWIN {
        Ok(GameResult::BlackWin)
    } else if status == DRAW {
        Ok(GameResult::Draw)
    } else {
        Err("status "@ + text::signed_decimal(status) + " is not terminal"@)
    }
}

/// The result that a status stands for.
pub fn result_from_status(status: i64) -> (result: Result<GameResult, OrchestratorError>)
    ensures
        error::verdict(result) == result_of(status as int),
{
    if status == WWIN {
        Ok(GameResult::WhiteWin)
    } else if status == BWIN {
        Ok(GameResult::BlackWin)
    } else if status == DRAW {
        Ok(GameResult::Draw)
    } else {
        Err(
            OrchestratorError(
                join3("status ", signed_decimal_text(status).as_str(), " is not terminal"),
            ),
        )
    }
}

/// The status of a game whose side to move ran out of time: that side loses, unless a draw claim
/// waits for an answer.
pub open spec fn timed_out_status(turn: int, draw_state: int) -> int {
    if draw_state == CLAIMED {
        DRAW as int
    } else if turn == WHITE {
        BWIN as int
    } else {
        WWIN as int
    }
}

/// The status of a game whose side to move ran out of time.
pub fn timeout_status(turn: i64, draw_state: i64) -> (status: i64)
    ensures
        status == timed_out_status(turn as int, draw_state as int),
{
    if draw_state == CLAIMED {
        DRAW
    } else if turn == WHITE {
        BWIN
    } else {
        WWIN
    }
}

/// The input sequence number that waits out a move timeout.
pub fn timeout_sequence(move_timeout: i64) -> (sequence: Result<u64, OrchestratorError>)
    ensures
        error::verdict(sequence) == (if move_timeout >= 0 {
            Ok::<u64, Seq<char>>(move_timeout as u64)
        } else {
            Err("move timeout cannot be negative"@)
        }),
{
    if move_timeout >= 0 {
        Ok(move_timeout as u64)
    } else {
        Err(refuse("move timeout cannot be negative"))
    }
}

/// A result can be read back from its status.
pub proof fn result_survives_its_status(result: GameResult)
    ensures
        result_of(status_of(result)) == Ok::<GameResult, Seq<char>>(result),
{
}

/// Exactly the three statuses above `LIVE` stand for a result, and each is the status of its
/// result.
pub proof fn terminal_statuses(status: int)
    ensures
        result_of(status) is Ok <==> WWIN <= status <= DRAW,
        result_of(status) matches Ok(result) ==> status_of(result) == status,
{
}

/// A timeout always ends the game with a result.
pub proof fn timeout_is_terminal(turn: int, draw_state: int)
    ensures
        result_of(timed_out_status(turn, draw_state)) is Ok,
{
}

} // verus!
