//! Ratings: a stepwise approximation of the expected score, and the update after a game.
//!
//! Scores are counted in thousandths of a game.

use vstd::prelude::*;

verus! {

/// The expected score of the favoured side at a rating distance.
pub open spec fn favoured_score(distance: int) -> int {
    if distance < 75 {
        500
    } else if distance < 150 {
        600
    } else if distance < 250 {
        700
    } else if distance < 400 {
        820
    } else if distance < 600 {
        910
    } else if distance < 800 {
        970
    } else {
        990
    }
}

/// The expected score of a player whose opponent is rated `diff` points higher.
pub open spec fn expected_score(diff: int) -> int {
    if diff < 0 {
        favoured_score(-diff)
    } else if diff > 0 {
        1000 - favoured_score(diff)
    } else {
        500
    }
}

/// The quotient `n / d` rounded toward zero, for a positive `d`.
pub open spec fn quotient_toward_zero(n: int, d: int) -> int {
    if n >= 0 {
        n / d
    } else {
        -((-n) / d)
    }
}

/// The rating after a game: 32 points times the score above expectation, rounded toward zero.
pub open spec fn updated_rating(self_rating: int, opp_rating: int, actual_score: int) -> int {
    self_rating + quotient_toward_zero(
        32 * (actual_score - expected_score(opp_rating - self_rating)),
        1000,
    )
}

/// Whether every step of the rating update stays in the machine range.
pub open spec fn rating_update_fits(self_rating: int, opp_rating: int, actual_score: int) -> bool {
    let surplus = actual_score - expected_score(opp_rating - self_rating);
    &&& i64::MIN < opp_rating - self_rating <= i64::MAX
    &&& i64::MIN <= surplus <= i64::MAX
    &&& i64::MIN <= 32 * surplus <= i64::MAX
    &&& i64::MIN <= updated_rating(self_rating, opp_rating, actual_score) <= i64::MAX
}

/// The expected score of a player whose opponent is rated `diff` points higher.
pub fn approx_expected_score(diff: i64) -> (score: i64)
    requires
        diff != i64::MIN,
    ensures
        score == expected_score(diff as int),
{
    let abs_diff: i64 = if diff < 0 {
        -diff
    } else {
        diff
    };
    let favored_expected: i64 = if abs_diff < 75 {
        500
    } else if abs_diff < 150 {
        600
    } else if abs_diff < 250 {
        700
    } else if abs_diff < 400 {
        820
    } else if abs_diff < 600 {
        910
    } else if abs_diff < 800 {
        970
    } else {
        990
    };

    if diff < 0 {
        favored_expected
    } else if diff > 0 {
        1000 - favored_expected
    } else {
        500
    }
}

/// The rating of a player after a game against `opp_rating` with the given score.
pub fn approx_updated_rating(self_rating: i64, opp_rating: i64, actual_score: i64) -> (rating: i64)
    requires
        rating_update_fits(self_rating as int, opp_rating as int, actual_score as int),
    ensures
        rating == updated_rating(self_rating as int, opp_rating as int, actual_score as int),
{
    let expected: i64 = approx_expected_score(opp_rating - self_rating);
    self_rating + ((32 * (actual_score - expected)) / 1000)
}

/// Whether the rating after a game stays in the machine range.
pub fn rating_update_in_range(self_rating: i64, opp_rating: i64, actual_score: i64) -> (fits: bool)
    requires
        0 <= actual_score <= 1000,
    ensures
        fits == rating_update_fits(self_rating as int, opp_rating as int, actual_score as int),
{
    proof {
        rating_change_is_bounded(self_rating as int, opp_rating as int, actual_score as int);
    }
    let diff: i128 = opp_rating as i128 - self_rating as i128;
    if diff <= i64::MIN as i128 || diff > i64::MAX as i128 {
        return false;
    }
    let expected: i64 = approx_expected_score(diff as i64);
    let change: i64 = (32 * (actual_score - expected)) / 1000;
    let updated: i128 = self_rating as i128 + change as i128;
    i64::MIN as i128 <= updated && updated <= i64::MAX as i128
}

/// The two players' expected scores add up to one game.
pub proof fn expected_scores_sum_to_one_game(diff: int)
    ensures
        expected_score(diff) + expected_score(-diff) == 1000,
{
}

/// Where the two scores of a game add up to one, what one rating gains the other loses.
pub proof fn rating_points_are_conserved(white: int, black: int, white_score: int)
    ensures
        updated_rating(white, black, white_score) + updated_rating(black, white, 1000 - white_score)
            == white + black,
{
    expected_scores_sum_to_one_game(black - white);
    assert(-(black - white) == white - black);
    let surplus = white_score - expected_score(black - white);
    assert((1000 - white_score) - expected_score(white - black) == -surplus);
    assert(32 * (-surplus) == -(32 * surplus));
}

/// One game moves a rating by at most 31 points.
pub proof fn rating_change_is_bounded(self_rating: int, opp_rating: int, actual_score: int)
    requires
        0 <= actual_score <= 1000,
    ensures
        -31 <= updated_rating(self_rating, opp_rating, actual_score) - self_rating <= 31,
{
    let expected = expected_score(opp_rating - self_rating);
    assert(10 <= expected <= 990);
    assert(-31680 <= 32 * (actual_score - expected) <= 31680);
}

/// A win never costs rating, a loss never gains any.
pub proof fn rating_follows_the_result(self_rating: int, opp_rating: int)
    ensures
        updated_rating(self_rating, opp_rating, 1000) >= self_rating,
        updated_rating(self_rating, opp_rating, 0) <= self_rating,
{
}

} // verus!
