//! The market's operations. Each takes the accounts it works on as plain
//! values, checks the request, and either commits its whole change and returns
//! the notification to emit, or changes nothing and returns the error.
use vstd::prelude::*;

use crate::kernel::{
    accuracy_fits, accuracy_score, calculate_accuracy, calculate_multiplier, participant_pool,
    participant_pool_of, reward_weight, reward_weight_of, stake_multiplier,
};
use crate::key::Pubkey;
use crate::state::{
    byte_len, Bet, BetPlaced, Launch, LaunchCreated, LaunchSettled, OodsError, Phase,
    PredictPhaseStarted, TokensClaimed, Vote, VoteSubmitted, MAX_NAME_LEN, MAX_SYMBOL_LEN,
};

verus! {

/// Longest discovery window, in seconds.
pub const MAX_DISCOVERY_DURATION: i64 = 3600;

/// Longest predict window, in seconds.
pub const MAX_PREDICT_DURATION: i64 = 86400;

/// Accounts for creating a launch.
#[derive(Debug)]
pub struct InitializeLaunch {
    pub authority: Pubkey,
    pub launch_key: Pubkey,
    pub launch: Launch,
    pub launch_bump: u8,
}

/// Accounts for recording a vote.
#[derive(Debug)]
pub struct SubmitVote {
    pub voter: Pubkey,
    pub launch_key: Pubkey,
    pub launch: Launch,
    pub vote: Vote,
    pub vote_bump: u8,
}

/// Accounts for opening the predict phase.
#[derive(Debug)]
pub struct StartPredictPhase {
    pub authority: Pubkey,
    pub launch_key: Pubkey,
    pub launch: Launch,
}

/// Accounts for recording a bet.
#[derive(Debug)]
pub struct PlaceBet {
    pub bettor: Pubkey,
    pub launch_key: Pubkey,
    pub launch: Launch,
    pub bet: Bet,
    pub bet_bump: u8,
}

/// Accounts for settling a launch.
#[derive(Debug)]
pub struct Settle {
    pub authority: Pubkey,
    pub launch_key: Pubkey,
    pub launch: Launch,
}

/// Accounts for claiming a bet's reward.
#[derive(Debug)]
pub struct ClaimTokens {
    pub claimer: Pubkey,
    pub launch_key: Pubkey,
    pub launch: Launch,
    pub bet: Bet,
}

/// Why a launch cannot be created from these parameters, if it cannot.
pub open spec fn initialize_error(
    name: Seq<char>,
    symbol: Seq<char>,
    discovery_duration: i64,
    predict_duration: i64,
    now: i64,
) -> Option<OodsError> {
    if byte_len(name) > MAX_NAME_LEN {
        Some(OodsError::NameTooLong)
    } else if byte_len(symbol) > MAX_SYMBOL_LEN {
        Some(OodsError::SymbolTooLong)
    } else if !(0 < discovery_duration <= MAX_DISCOVERY_DURATION) || !(0 < predict_duration
        <= MAX_PREDICT_DURATION) {
        Some(OodsError::InvalidDuration)
    } else if now + discovery_duration + predict_duration > i64::MAX {
        Some(OodsError::ArithmeticOverflow)
    } else {
        None
    }
}

/// Creates a launch in the discovery phase, with the discovery window ending
/// `discovery_duration` seconds after `now` and the predict window
/// `predict_duration` seconds after that.
pub fn initialize_launch(
    ctx: &mut InitializeLaunch,
    name: String,
    symbol: String,
    total_supply: u64,
    discovery_duration: i64,
    predict_duration: i64,
    now: i64,
) -> (r: Result<LaunchCreated, OodsError>)
    ensures
        match r {
            Ok(ev) => {
                let l = final(ctx).launch;
                &&& initialize_error(name@, symbol@, discovery_duration, predict_duration, now)
                    is None
                &&& final(ctx).authority == old(ctx).authority
                &&& final(ctx).launch_key == old(ctx).launch_key
                &&& final(ctx).launch_bump == old(ctx).launch_bump
                &&& l.authority == old(ctx).authority
                &&& l.name@ == name@
                &&& l.symbol@ == symbol@
                &&& l.total_supply == total_supply
                &&& l.phase == Phase::Discovery
                &&& l.discovery_end == now + discovery_duration
                &&& l.predict_end == now + discovery_duration + predict_duration
                &&& l.total_votes == 0
                &&& l.median_mcap == 0
                &&& l.total_sol_locked == 0
                &&& l.settlement_price == 0
                &&& l.bump == old(ctx).launch_bump
                &&& l.discovery_end < l.predict_end
                &&& l.wf()
                &&& ev.launch == old(ctx).launch_key
                &&& ev.name@ == name@
                &&& ev.symbol@ == symbol@
                &&& ev.discovery_end == l.discovery_end
                &&& ev.predict_end == l.predict_end
            },
            Err(e) => {
                &&& initialize_error(name@, symbol@, discovery_duration, predict_duration, now)
                    == Some(e)
                &&& *final(ctx) == *old(ctx)
            },
        },
{
    if name.as_str().as_bytes().len() > MAX_NAME_LEN {
        return Err(OodsError::NameTooLong);
    }
    if symbol.as_str().as_bytes().len() > MAX_SYMBOL_LEN {
        return Err(OodsError::SymbolTooLong);
    }
    if !(discovery_duration > 0 && discovery_duration <= MAX_DISCOVERY_DURATION) {
        return Err(OodsError::InvalidDuration);
    }
    if !(predict_duration > 0 && predict_duration <= MAX_PREDICT_DURATION) {
        return Err(OodsError::InvalidDuration);
    }
    if now > i64::MAX - discovery_duration - predict_duration {
        return Err(OodsError::ArithmeticOverflow);
    }
    let discovery_end = now + discovery_duration;
    let predict_end = discovery_end + predict_duration;
    let ev = LaunchCreated {
        launch: ctx.launch_key,
        name: name.clone(),
        symbol: symbol.clone(),
        discovery_end,
        predict_end,
    };
    ctx.launch = Launch {
        authority: ctx.authority,
        name,
        symbol,
        total_supply,
        phase: Phase::Discovery,
        discovery_end,
        predict_end,
        total_votes: 0,
        median_mcap: 0,
        total_sol_locked: 0,
        settlement_price: 0,
        bump: ctx.launch_bump,
    };
    Ok(ev)
}

/// Why a vote cannot be recorded, if it cannot.
pub open spec fn vote_error(l: Launch, mcap_vote: u64, now: i64) -> Option<OodsError> {
    if l.phase != Phase::Discovery {
        Some(OodsError::WrongPhase)
    } else if now >= l.discovery_end {
        Some(OodsError::PhaseEnded)
    } else if mcap_vote == 0 {
        Some(OodsError::InvalidVote)
    } else if l.total_votes == u32::MAX {
        Some(OodsError::ArithmeticOverflow)
    } else {
        None
    }
}

/// Records the voter's valuation while the discovery window is open and
/// counts it on the launch.
pub fn submit_vote(ctx: &mut SubmitVote, mcap_vote: u64, now: i64) -> (r: Result<
    VoteSubmitted,
    OodsError,
>)
    ensures
        old(ctx).launch.may_become(final(ctx).launch),
        old(ctx).launch.wf() ==> final(ctx).launch.wf(),
        match r {
            Ok(ev) => {
                &&& vote_error(old(ctx).launch, mcap_vote, now) is None
                &&& final(ctx).launch == (Launch {
                    total_votes: (old(ctx).launch.total_votes + 1) as u32,
                    ..old(ctx).launch
                })
                &&& final(ctx).vote == (Vote {
                    launch: old(ctx).launch_key,
                    voter: old(ctx).voter,
                    mcap_vote,
                    timestamp: now,
                    bump: old(ctx).vote_bump,
                })
                &&& final(ctx).voter == old(ctx).voter
                &&& final(ctx).launch_key == old(ctx).launch_key
                &&& final(ctx).vote_bump == old(ctx).vote_bump
                &&& ev == (VoteSubmitted {
                    launch: old(ctx).launch_key,
                    voter: old(ctx).voter,
                    mcap_vote,
                })
            },
            Err(e) => vote_error(old(ctx).launch, mcap_vote, now) == Some(e) && *final(ctx)
                == *old(ctx),
        },
{
    if ctx.launch.phase != Phase::Discovery {
        return Err(OodsError::WrongPhase);
    }
    if now >= ctx.launch.discovery_end {
        return Err(OodsError::PhaseEnded);
    }
    if mcap_vote == 0 {
        return Err(OodsError::InvalidVote);
    }
    if ctx.launch.total_votes == u32::MAX {
        return Err(OodsError::ArithmeticOverflow);
    }
    ctx.vote = Vote {
        launch: ctx.launch_key,
        voter: ctx.voter,
        mcap_vote,
        timestamp: now,
        bump: ctx.vote_bump,
    };
    ctx.launch.total_votes = ctx.launch.total_votes + 1;
    Ok(VoteSubmitted { launch: ctx.launch_key, voter: ctx.voter, mcap_vote })
}

/// Why the predict phase cannot begin, if it cannot.
pub open spec fn start_predict_error(
    authority: Pubkey,
    l: Launch,
    median_mcap: u64,
    now: i64,
) -> Option<OodsError> {
    if authority != l.authority {
        Some(OodsError::NotAuthority)
    } else if l.phase != Phase::Discovery {
        Some(OodsError::WrongPhase)
    } else if now < l.discovery_end {
        Some(OodsError::PhaseNotEnded)
    } else if median_mcap == 0 {
        Some(OodsError::InvalidMedian)
    } else {
        None
    }
}

/// Closes discovery and opens the predict phase, committing the median
/// valuation computed from the votes.
pub fn start_predict_phase(ctx: &mut StartPredictPhase, median_mcap: u64, now: i64) -> (r: Result<
    PredictPhaseStarted,
    OodsError,
>)
    ensures
        old(ctx).launch.may_become(final(ctx).launch),
        old(ctx).launch.wf() ==> final(ctx).launch.wf(),
        match r {
            Ok(ev) => {
                &&& start_predict_error(old(ctx).authority, old(ctx).launch, median_mcap, now)
                    is None
                &&& final(ctx).launch == (Launch {
                    phase: Phase::Predict,
                    median_mcap,
                    ..old(ctx).launch
                })
                &&& final(ctx).authority == old(ctx).authority
                &&& final(ctx).launch_key == old(ctx).launch_key
                &&& ev == (PredictPhaseStarted { launch: old(ctx).launch_key, median_mcap })
            },
            Err(e) => start_predict_error(old(ctx).authority, old(ctx).launch, median_mcap, now)
                == Some(e) && *final(ctx) == *old(ctx),
        },
{
    if ctx.authority != ctx.launch.authority {
        return Err(OodsError::NotAuthority);
    }
    if ctx.launch.phase != Phase::Discovery {
        return Err(OodsError::WrongPhase);
    }
    if now < ctx.launch.discovery_end {
        return Err(OodsError::PhaseNotEnded);
    }
    if median_mcap == 0 {
        return Err(OodsError::InvalidMedian);
    }
    ctx.launch.phase = Phase::Predict;
    ctx.launch.median_mcap = median_mcap;
    Ok(PredictPhaseStarted { launch: ctx.launch_key, median_mcap })
}

/// Why a bet cannot be recorded, if it cannot.
pub open spec fn bet_error(l: Launch, breakpoint: u64, amount: u64, now: i64) -> Option<
    OodsError,
> {
    if l.phase != Phase::Predict {
        Some(OodsError::WrongPhase)
    } else if now >= l.predict_end {
        Some(OodsError::PhaseEnded)
    } else if amount == 0 {
        Some(OodsError::InvalidAmount)
    } else if breakpoint == 0 {
        Some(OodsError::InvalidBreakpoint)
    } else if l.total_sol_locked + amount > u64::MAX {
        Some(OodsError::ArithmeticOverflow)
    } else {
        None
    }
}

/// Records a stake of `amount` on `breakpoint` while the predict window is
/// open. The bet's multiplier comes from the stake locked in the whole market
/// before it. On success the caller moves `amount` into the market's custody
/// before the records are stored; if that transfer fails, nothing is stored.
pub fn place_bet(ctx: &mut PlaceBet, breakpoint: u64, is_yes: bool, amount: u64, now: i64) -> (r:
    Result<BetPlaced, OodsError>)
    ensures
        old(ctx).launch.may_become(final(ctx).launch),
        old(ctx).launch.wf() ==> final(ctx).launch.wf(),
        match r {
            Ok(ev) => {
                let multiplier = stake_multiplier(old(ctx).launch.total_sol_locked as int) as u16;
                &&& bet_error(old(ctx).launch, breakpoint, amount, now) is None
                &&& final(ctx).launch == (Launch {
                    total_sol_locked: (old(ctx).launch.total_sol_locked + amount) as u64,
                    ..old(ctx).launch
                })
                &&& final(ctx).bet == (Bet {
                    launch: old(ctx).launch_key,
                    bettor: old(ctx).bettor,
                    breakpoint,
                    is_yes,
                    amount,
                    multiplier,
                    timestamp: now,
                    claimed: false,
                    bump: old(ctx).bet_bump,
                })
                &&& final(ctx).bettor == old(ctx).bettor
                &&& final(ctx).launch_key == old(ctx).launch_key
                &&& final(ctx).bet_bump == old(ctx).bet_bump
                &&& ev == (BetPlaced {
                    launch: old(ctx).launch_key,
                    bettor: old(ctx).bettor,
                    breakpoint,
                    is_yes,
                    amount,
                    multiplier,
                })
            },
            Err(e) => bet_error(old(ctx).launch, breakpoint, amount, now) == Some(e)
                && *final(ctx) == *old(ctx),
        },
{
    if ctx.launch.phase != Phase::Predict {
        return Err(OodsError::WrongPhase);
    }
    if now >= ctx.launch.predict_end {
        return Err(OodsError::PhaseEnded);
    }
    if amount == 0 {
        return Err(OodsError::InvalidAmount);
    }
    if breakpoint == 0 {
        return Err(OodsError::InvalidBreakpoint);
    }
    if ctx.launch.total_sol_locked > u64::MAX - amount {
        return Err(OodsError::ArithmeticOverflow);
    }
    let multiplier = calculate_multiplier(ctx.launch.total_sol_locked);
    ctx.bet = Bet {
        launch: ctx.launch_key,
        bettor: ctx.bettor,
        breakpoint,
        is_yes,
        amount,
        multiplier,
        timestamp: now,
        claimed: false,
        bump: ctx.bet_bump,
    };
    ctx.launch.total_sol_locked = ctx.launch.total_sol_locked + amount;
    Ok(BetPlaced { launch: ctx.launch_key, bettor: ctx.bettor, breakpoint, is_yes, amount, multiplier })
}

/// Why the launch cannot be settled, if it cannot.
pub open spec fn settle_error(
    authority: Pubkey,
    l: Launch,
    settlement_price: u64,
    now: i64,
) -> Option<OodsError> {
    if authority != l.authority {
        Some(OodsError::NotAuthority)
    } else if l.phase != Phase::Predict {
        Some(OodsError::WrongPhase)
    } else if now < l.predict_end {
        Some(OodsError::PhaseNotEnded)
    } else if settlement_price == 0 {
        Some(OodsError::InvalidSettlement)
    } else {
        None
    }
}

/// Closes the predict phase and fixes the settlement value that every bet is
/// scored against.
pub fn settle(ctx: &mut Settle, settlement_price: u64, now: i64) -> (r: Result<
    LaunchSettled,
    OodsError,
>)
    ensures
        old(ctx).launch.may_become(final(ctx).launch),
        old(ctx).launch.wf() ==> final(ctx).launch.wf(),
        match r {
            Ok(ev) => {
                &&& settle_error(old(ctx).authority, old(ctx).launch, settlement_price, now)
                    is None
                &&& final(ctx).launch == (Launch {
                    phase: Phase::Settled,
                    settlement_price,
                    ..old(ctx).launch
                })
                &&& final(ctx).authority == old(ctx).authority
                &&& final(ctx).launch_key == old(ctx).launch_key
                &&& ev == (LaunchSettled {
                    launch: old(ctx).launch_key,
                    settlement_price,
                    total_sol: old(ctx).launch.total_sol_locked,
                })
            },
            Err(e) => settle_error(old(ctx).authority, old(ctx).launch, settlement_price, now)
                == Some(e) && *final(ctx) == *old(ctx),
        },
{
    if ctx.authority != ctx.launch.authority {
        return Err(OodsError::NotAuthority);
    }
    if ctx.launch.phase != Phase::Predict {
        return Err(OodsError::WrongPhase);
    }
    if now < ctx.launch.predict_end {
        return Err(OodsError::PhaseNotEnded);
    }
    if settlement_price == 0 {
        return Err(OodsError::InvalidSettlement);
    }
    ctx.launch.phase = Phase::Settled;
    ctx.launch.settlement_price = settlement_price;
    Ok(LaunchSettled {
        launch: ctx.launch_key,
        settlement_price,
        total_sol: ctx.launch.total_sol_locked,
    })
}

/// Why a bet's reward cannot be claimed, if it cannot.
pub open spec fn claim_error(claimer: Pubkey, launch_key: Pubkey, l: Launch, b: Bet) -> Option<
    OodsError,
> {
    if b.launch != launch_key {
        Some(OodsError::LaunchMismatch)
    } else if b.bettor != claimer {
        Some(OodsError::NotBettor)
    } else if l.phase != Phase::Settled {
        Some(OodsError::WrongPhase)
    } else if b.claimed {
        Some(OodsError::AlreadyClaimed)
    } else if l.settlement_price == 0 {
        Some(OodsError::InvalidSettlement)
    } else if !accuracy_fits(b.breakpoint as int, l.settlement_price as int) {
        Some(OodsError::ArithmeticOverflow)
    } else {
        None
    }
}

/// Tokens a settled bet earns: its reward weight, capped at the participant
/// pool.
pub open spec fn claim_tokens_of(l: Launch, b: Bet) -> int {
    let weight = reward_weight_of(
        b.amount as int,
        accuracy_score(b.breakpoint as int, l.settlement_price as int, b.is_yes),
        b.multiplier as int,
    );
    let pool = participant_pool_of(l.total_supply as int);
    if weight < pool {
        weight
    } else {
        pool
    }
}

/// Scores a settled bet, marks it claimed, and returns the tokens to issue to
/// the bettor together with the bet's accuracy.
///
/// Each claim is capped against the whole participant pool, not against what
/// earlier claims have left of it, so the claims of a launch together are not
/// bounded by the pool.
pub fn claim_tokens(ctx: &mut ClaimTokens) -> (r: Result<TokensClaimed, OodsError>)
    ensures
        old(ctx).launch.may_become(final(ctx).launch),
        old(ctx).launch.wf() ==> final(ctx).launch.wf(),
        match r {
            Ok(ev) => {
                &&& claim_error(old(ctx).claimer, old(ctx).launch_key, old(ctx).launch, old(ctx).bet)
                    is None
                &&& final(ctx).bet == (Bet { claimed: true, ..old(ctx).bet })
                &&& final(ctx).launch == old(ctx).launch
                &&& final(ctx).claimer == old(ctx).claimer
                &&& final(ctx).launch_key == old(ctx).launch_key
                &&& ev.launch == old(ctx).launch_key
                &&& ev.claimer == old(ctx).claimer
                &&& ev.accuracy as int == accuracy_score(
                    old(ctx).bet.breakpoint as int,
                    old(ctx).launch.settlement_price as int,
                    old(ctx).bet.is_yes,
                )
                &&& ev.tokens as int == claim_tokens_of(old(ctx).launch, old(ctx).bet)
                &&& ev.tokens as int <= participant_pool_of(old(ctx).launch.total_supply as int)
            },
            Err(e) => claim_error(old(ctx).claimer, old(ctx).launch_key, old(ctx).launch, old(ctx).bet)
                == Some(e) && *final(ctx) == *old(ctx),
        },
{
    if ctx.bet.launch != ctx.launch_key {
        return Err(OodsError::LaunchMismatch);
    }
    if ctx.bet.bettor != ctx.claimer {
        return Err(OodsError::NotBettor);
    }
    if ctx.launch.phase != Phase::Settled {
        return Err(OodsError::WrongPhase);
    }
    if ctx.bet.claimed {
        return Err(OodsError::AlreadyClaimed);
    }
    if ctx.launch.settlement_price == 0 {
        return Err(OodsError::InvalidSettlement);
    }
    let accuracy = match calculate_accuracy(
        ctx.bet.breakpoint,
        ctx.launch.settlement_price,
        ctx.bet.is_yes,
    ) {
        Ok(a) => a,
        Err(e) => {
            return Err(e);
        },
    };
    let weight = reward_weight(ctx.bet.amount, accuracy, ctx.bet.multiplier);
    let pool = participant_pool(ctx.launch.total_supply);
    let capped = if weight < pool {
        weight
    } else {
        pool
    };
    ctx.bet.claimed = true;
    Ok(TokensClaimed {
        launch: ctx.launch_key,
        claimer: ctx.claimer,
        tokens: capped as u64,
        accuracy,
    })
}

} // verus!
