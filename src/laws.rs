//! Properties that relate several operations, or one operation over all its
//! inputs, proved from the operations' contracts.
use vstd::prelude::*;

use crate::instructions::{claim_error, start_predict_error};
use crate::kernel::{reward_weight_of, stake_multiplier, UNITS_PER_WHOLE};
use crate::key::Pubkey;
use crate::state::{Bet, Launch, OodsError, Phase};

verus! {

/// The stake multiplier never grows as more stake is locked: a later bet
/// never gets a larger multiplier than an earlier one.
pub proof fn lemma_multiplier_non_increasing(earlier: u64, later: u64)
    requires
        earlier <= later,
    ensures
        stake_multiplier(later as int) <= stake_multiplier(earlier as int),
{
    vstd::arithmetic::div_mod::lemma_div_is_ordered(
        earlier as int,
        later as int,
        UNITS_PER_WHOLE as int,
    );
}

/// Dividing the reward product by 10000 and then by 100 truncates exactly as
/// one division by 1,000,000 does.
pub proof fn lemma_reward_weight_single_division(amount: u64, accuracy_bp: u16, multiplier_bp: u16)
    ensures
        reward_weight_of(amount as int, accuracy_bp as int, multiplier_bp as int) == (amount as int)
            * (accuracy_bp as int) * (multiplier_bp as int) / 1_000_000,
{
    let x = (amount as int) * (accuracy_bp as int) * (multiplier_bp as int);
    assert(x >= 0) by (nonlinear_arith)
        requires
            x == (amount as int) * (accuracy_bp as int) * (multiplier_bp as int),
    ;
    vstd::arithmetic::div_mod::lemma_div_denominator(x, 10000, 100);
}

/// Once the predict phase has begun, a second request to begin it fails with
/// `WrongPhase`, whatever median and time it brings.
pub proof fn lemma_predict_phase_starts_once(
    authority: Pubkey,
    l: Launch,
    median_mcap: u64,
    now: i64,
    median_again: u64,
    now_again: i64,
)
    requires
        start_predict_error(authority, l, median_mcap, now) is None,
    ensures
        start_predict_error(
            authority,
            Launch { phase: Phase::Predict, median_mcap, ..l },
            median_again,
            now_again,
        ) == Some(OodsError::WrongPhase),
{
}

/// Once a bet's reward has been claimed, every further claim of that bet by
/// its bettor fails with `AlreadyClaimed`.
pub proof fn lemma_claim_only_once(claimer: Pubkey, launch_key: Pubkey, l: Launch, b: Bet)
    requires
        claim_error(claimer, launch_key, l, b) is None,
    ensures
        claim_error(claimer, launch_key, l, Bet { claimed: true, ..b }) == Some(
            OodsError::AlreadyClaimed,
        ),
{
}

/// `may_become` is a preorder: every state may stay as it is, and two steps
/// forward make one step forward.
pub proof fn lemma_may_become_preorder(a: Launch, b: Launch, c: Launch)
    ensures
        a.may_become(a),
        a.may_become(b) && b.may_become(c) ==> a.may_become(c),
{
}

/// Along any history of a launch in which each state follows from the one
/// before by an operation, no later state has fewer votes, less locked stake,
/// or an earlier phase than any earlier state.
pub proof fn lemma_history_never_regresses(h: Seq<Launch>)
    requires
        forall|i: int| 0 <= i < h.len() - 1 ==> (#[trigger] h[i]).may_become(h[i + 1]),
    ensures
        forall|i: int, j: int|
            0 <= i <= j < h.len() ==> (#[trigger] h[i]).may_become(#[trigger] h[j]),
    decreases h.len(),
{
    if h.len() > 0 {
        let front = h.drop_last();
        assert forall|i: int| 0 <= i < front.len() - 1 implies (#[trigger] front[i]).may_become(
            front[i + 1],
        ) by {
            assert(front[i] == h[i] && front[i + 1] == h[i + 1]);
        }
        lemma_history_never_regresses(front);
        assert forall|i: int, j: int| 0 <= i <= j < h.len() implies (#[trigger] h[i]).may_become(
            #[trigger] h[j],
        ) by {
            if j < h.len() - 1 {
                assert(front[i] == h[i] && front[j] == h[j]);
            } else if i < j {
                assert(front[i] == h[i] && front[j - 1] == h[j - 1]);
                lemma_may_become_preorder(h[i], h[j - 1], h[j]);
            } else {
                lemma_may_become_preorder(h[i], h[i], h[i]);
            }
        }
    }
}

} // verus!
