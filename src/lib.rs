//! Decision logic of a phased token-launch market: a discovery phase in which
//! participants vote on a valuation, a predict phase in which they stake on a
//! breakpoint, and a settled phase in which rewards are weighed by accuracy.
use vstd::prelude::*;

pub mod key;
pub mod instructions;
pub mod kernel;
pub mod laws;
pub mod state;

pub use key::Pubkey;
pub use instructions::{
    claim_tokens, initialize_launch, place_bet, settle, start_predict_phase, submit_vote,
    ClaimTokens, InitializeLaunch, PlaceBet, Settle, StartPredictPhase, SubmitVote,
};
pub use kernel::{calculate_accuracy, calculate_multiplier, participant_pool, reward_weight};
pub use state::{
    Bet, BetPlaced, Launch, LaunchCreated, LaunchSettled, OodsError, Phase, PredictPhaseStarted,
    TokensClaimed, Vote, VoteSubmitted,
};

verus! {

} // verus!
