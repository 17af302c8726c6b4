use oods::{
    claim_tokens, initialize_launch, place_bet, settle, start_predict_phase, submit_vote, Bet,
    ClaimTokens, InitializeLaunch, Launch, OodsError, Phase, PlaceBet, Pubkey, Settle,
    StartPredictPhase, SubmitVote, Vote,
};

const WHOLE: u64 = 1_000_000_000;
const NOW: i64 = 1_700_000_000;

fn key(b: u8) -> Pubkey {
    Pubkey::new([b; 32])
}

fn blank_launch() -> Launch {
    Launch {
        authority: key(0),
        name: String::new(),
        symbol: String::new(),
        total_supply: 0,
        phase: Phase::Discovery,
        discovery_end: 0,
        predict_end: 0,
        total_votes: 0,
        median_mcap: 0,
        total_sol_locked: 0,
        settlement_price: 0,
        bump: 0,
    }
}

fn blank_vote() -> Vote {
    Vote { launch: key(0), voter: key(0), mcap_vote: 0, timestamp: 0, bump: 0 }
}

fn blank_bet() -> Bet {
    Bet {
        launch: key(0),
        bettor: key(0),
        breakpoint: 0,
        is_yes: false,
        amount: 0,
        multiplier: 0,
        timestamp: 0,
        claimed: false,
        bump: 0,
    }
}

fn init_ctx() -> InitializeLaunch {
    InitializeLaunch { authority: key(1), launch_key: key(9), launch: blank_launch(), launch_bump: 254 }
}

/// A launch created at NOW with 600 s of discovery and 3600 s of prediction.
fn created(total_supply: u64) -> Launch {
    let mut ctx = init_ctx();
    initialize_launch(&mut ctx, "Oods".to_string(), "OODS".to_string(), total_supply, 600, 3600, NOW)
        .unwrap();
    ctx.launch
}

fn in_predict(total_supply: u64) -> Launch {
    let mut ctx = StartPredictPhase { authority: key(1), launch_key: key(9), launch: created(total_supply) };
    start_predict_phase(&mut ctx, 5_000_000, NOW + 600).unwrap();
    ctx.launch
}

fn bet_on(launch: Launch, bettor: Pubkey, breakpoint: u64, is_yes: bool, amount: u64) -> (Launch, Bet) {
    let mut ctx = PlaceBet { bettor, launch_key: key(9), launch, bet: blank_bet(), bet_bump: 7 };
    place_bet(&mut ctx, breakpoint, is_yes, amount, NOW + 700).unwrap();
    (ctx.launch, ctx.bet)
}

fn settled(launch: Launch, price: u64) -> Launch {
    let mut ctx = Settle { authority: key(1), launch_key: key(9), launch };
    settle(&mut ctx, price, NOW + 4200).unwrap();
    ctx.launch
}

#[test]
fn create_sets_deadlines_and_discovery_phase() {
    let mut ctx = init_ctx();
    let ev = initialize_launch(&mut ctx, "Oods".to_string(), "OODS".to_string(), 1_000_000, 600, 3600, NOW)
        .unwrap();
    let l = &ctx.launch;
    assert_eq!(l.phase, Phase::Discovery);
    assert_eq!(l.discovery_end, NOW + 600);
    assert_eq!(l.predict_end, NOW + 4200);
    assert!(l.discovery_end < l.predict_end);
    assert_eq!(l.authority, key(1));
    assert_eq!(l.name, "Oods");
    assert_eq!(l.symbol, "OODS");
    assert_eq!(l.total_supply, 1_000_000);
    assert_eq!(l.total_votes, 0);
    assert_eq!(l.median_mcap, 0);
    assert_eq!(l.total_sol_locked, 0);
    assert_eq!(l.settlement_price, 0);
    assert_eq!(l.bump, 254);
    assert_eq!(ev.launch, key(9));
    assert_eq!(ev.name, "Oods");
    assert_eq!(ev.symbol, "OODS");
    assert_eq!(ev.discovery_end, NOW + 600);
    assert_eq!(ev.predict_end, NOW + 4200);
}

#[test]
fn create_accepts_largest_durations_and_lengths() {
    let mut ctx = init_ctx();
    let name = "n".repeat(32);
    let symbol = "s".repeat(10);
    let ev = initialize_launch(&mut ctx, name, symbol, 1, 3600, 86400, NOW).unwrap();
    assert_eq!(ev.discovery_end, NOW + 3600);
    assert_eq!(ev.predict_end, NOW + 3600 + 86400);
}

#[test]
fn create_rejects_long_name_and_symbol() {
    let mut ctx = init_ctx();
    let r = initialize_launch(&mut ctx, "n".repeat(33), "S".to_string(), 1, 600, 600, NOW);
    assert_eq!(r.unwrap_err(), OodsError::NameTooLong);
    // seventeen characters but thirty-four bytes
    let r = initialize_launch(&mut ctx, "é".repeat(17), "S".to_string(), 1, 600, 600, NOW);
    assert_eq!(r.unwrap_err(), OodsError::NameTooLong);
    let r = initialize_launch(&mut ctx, "Name".to_string(), "s".repeat(11), 1, 600, 600, NOW);
    assert_eq!(r.unwrap_err(), OodsError::SymbolTooLong);
    // six characters but thirteen bytes
    let r = initialize_launch(&mut ctx, "Name".to_string(), "ééééé€".to_string(), 1, 600, 600, NOW);
    assert_eq!(r.unwrap_err(), OodsError::SymbolTooLong);
    assert_eq!(ctx.launch.name, "");
}

#[test]
fn create_rejects_bad_durations() {
    let mut ctx = init_ctx();
    for (d, p) in [(0, 600), (-1, 600), (3601, 600), (600, 0), (600, -5), (600, 86401)] {
        let r = initialize_launch(&mut ctx, "Name".to_string(), "S".to_string(), 1, d, p, NOW);
        assert_eq!(r.unwrap_err(), OodsError::InvalidDuration);
    }
}

#[test]
fn create_rejects_deadline_overflow() {
    let mut ctx = init_ctx();
    let r = initialize_launch(&mut ctx, "Name".to_string(), "S".to_string(), 1, 600, 600, i64::MAX - 1000);
    assert_eq!(r.unwrap_err(), OodsError::ArithmeticOverflow);
    let ev = initialize_launch(&mut ctx, "Name".to_string(), "S".to_string(), 1, 600, 600, i64::MAX - 1200)
        .unwrap();
    assert_eq!(ev.predict_end, i64::MAX);
}

#[test]
fn vote_counts_and_records() {
    let mut ctx = SubmitVote { voter: key(2), launch_key: key(9), launch: created(1000), vote: blank_vote(), vote_bump: 3 };
    let ev = submit_vote(&mut ctx, 42, NOW + 10).unwrap();
    assert_eq!(ctx.launch.total_votes, 1);
    assert_eq!(ctx.vote.launch, key(9));
    assert_eq!(ctx.vote.voter, key(2));
    assert_eq!(ctx.vote.mcap_vote, 42);
    assert_eq!(ctx.vote.timestamp, NOW + 10);
    assert_eq!(ctx.vote.bump, 3);
    assert_eq!(ev.launch, key(9));
    assert_eq!(ev.voter, key(2));
    assert_eq!(ev.mcap_vote, 42);
    submit_vote(&mut ctx, 43, NOW + 599).unwrap();
    assert_eq!(ctx.launch.total_votes, 2);
}

#[test]
fn vote_rejected_outside_discovery() {
    let mut ctx = SubmitVote { voter: key(2), launch_key: key(9), launch: created(1000), vote: blank_vote(), vote_bump: 3 };
    assert_eq!(submit_vote(&mut ctx, 42, NOW + 600).unwrap_err(), OodsError::PhaseEnded);
    assert_eq!(submit_vote(&mut ctx, 0, NOW).unwrap_err(), OodsError::InvalidVote);
    assert_eq!(ctx.launch.total_votes, 0);
    ctx.launch = in_predict(1000);
    assert_eq!(submit_vote(&mut ctx, 42, NOW).unwrap_err(), OodsError::WrongPhase);
}

#[test]
fn vote_counter_overflow_is_reported() {
    let mut launch = created(1000);
    launch.total_votes = u32::MAX;
    let mut ctx = SubmitVote { voter: key(2), launch_key: key(9), launch, vote: blank_vote(), vote_bump: 3 };
    assert_eq!(submit_vote(&mut ctx, 42, NOW).unwrap_err(), OodsError::ArithmeticOverflow);
    assert_eq!(ctx.launch.total_votes, u32::MAX);
}

#[test]
fn predict_phase_starts_once() {
    let mut ctx = StartPredictPhase { authority: key(1), launch_key: key(9), launch: created(1000) };
    assert_eq!(start_predict_phase(&mut ctx, 5, NOW + 599).unwrap_err(), OodsError::PhaseNotEnded);
    assert_eq!(start_predict_phase(&mut ctx, 0, NOW + 600).unwrap_err(), OodsError::InvalidMedian);
    assert_eq!(ctx.launch.phase, Phase::Discovery);
    let ev = start_predict_phase(&mut ctx, 5, NOW + 600).unwrap();
    assert_eq!(ev.launch, key(9));
    assert_eq!(ev.median_mcap, 5);
    assert_eq!(ctx.launch.phase, Phase::Predict);
    assert_eq!(ctx.launch.median_mcap, 5);
    assert_eq!(start_predict_phase(&mut ctx, 6, NOW + 700).unwrap_err(), OodsError::WrongPhase);
    assert_eq!(ctx.launch.median_mcap, 5);
}

#[test]
fn predict_phase_needs_authority() {
    let mut ctx = StartPredictPhase { authority: key(5), launch_key: key(9), launch: created(1000) };
    assert_eq!(start_predict_phase(&mut ctx, 5, NOW + 600).unwrap_err(), OodsError::NotAuthority);
}

#[test]
fn bets_get_decreasing_multipliers() {
    let launch = in_predict(1000);
    let (launch, first) = bet_on(launch, key(3), 100, true, 100 * WHOLE);
    assert_eq!(first.multiplier, 150);
    assert_eq!(launch.total_sol_locked, 100 * WHOLE);
    let (launch, second) = bet_on(launch, key(4), 100, false, 1);
    assert_eq!(second.multiplier, 130);
    assert_eq!(launch.total_sol_locked, 100 * WHOLE + 1);
    assert_eq!(second.launch, key(9));
    assert_eq!(second.bettor, key(4));
    assert_eq!(second.breakpoint, 100);
    assert!(!second.is_yes);
    assert_eq!(second.amount, 1);
    assert_eq!(second.timestamp, NOW + 700);
    assert!(!second.claimed);
    assert_eq!(second.bump, 7);
}

#[test]
fn bet_event_carries_fields() {
    let mut ctx = PlaceBet { bettor: key(3), launch_key: key(9), launch: in_predict(1000), bet: blank_bet(), bet_bump: 7 };
    let ev = place_bet(&mut ctx, 250, true, 500 * WHOLE, NOW + 601).unwrap();
    assert_eq!(ev.launch, key(9));
    assert_eq!(ev.bettor, key(3));
    assert_eq!(ev.breakpoint, 250);
    assert!(ev.is_yes);
    assert_eq!(ev.amount, 500 * WHOLE);
    assert_eq!(ev.multiplier, 150);
}

#[test]
fn bet_rejections() {
    let mut ctx = PlaceBet { bettor: key(3), launch_key: key(9), launch: created(1000), bet: blank_bet(), bet_bump: 7 };
    assert_eq!(place_bet(&mut ctx, 100, true, 10, NOW).unwrap_err(), OodsError::WrongPhase);
    ctx.launch = in_predict(1000);
    assert_eq!(place_bet(&mut ctx, 100, true, 10, NOW + 4200).unwrap_err(), OodsError::PhaseEnded);
    assert_eq!(place_bet(&mut ctx, 100, true, 0, NOW + 700).unwrap_err(), OodsError::InvalidAmount);
    assert_eq!(place_bet(&mut ctx, 0, true, 10, NOW + 700).unwrap_err(), OodsError::InvalidBreakpoint);
    ctx.launch.total_sol_locked = u64::MAX - 5;
    assert_eq!(place_bet(&mut ctx, 100, true, 6, NOW + 700).unwrap_err(), OodsError::ArithmeticOverflow);
    assert_eq!(ctx.launch.total_sol_locked, u64::MAX - 5);
    assert_eq!(ctx.bet.amount, 0);
    place_bet(&mut ctx, 100, true, 5, NOW + 700).unwrap();
    assert_eq!(ctx.launch.total_sol_locked, u64::MAX);
    assert_eq!(ctx.bet.multiplier, 50);
}

#[test]
fn settle_transitions() {
    let mut ctx = Settle { authority: key(1), launch_key: key(9), launch: created(1000) };
    assert_eq!(settle(&mut ctx, 100, NOW + 5000).unwrap_err(), OodsError::WrongPhase);
    ctx.launch = in_predict(1000);
    ctx.launch.total_sol_locked = 77;
    assert_eq!(settle(&mut ctx, 100, NOW + 4199).unwrap_err(), OodsError::PhaseNotEnded);
    assert_eq!(settle(&mut ctx, 0, NOW + 4200).unwrap_err(), OodsError::InvalidSettlement);
    ctx.authority = key(8);
    assert_eq!(settle(&mut ctx, 100, NOW + 4200).unwrap_err(), OodsError::NotAuthority);
    ctx.authority = key(1);
    let ev = settle(&mut ctx, 100, NOW + 4200).unwrap();
    assert_eq!(ev.launch, key(9));
    assert_eq!(ev.settlement_price, 100);
    assert_eq!(ev.total_sol, 77);
    assert_eq!(ctx.launch.phase, Phase::Settled);
    assert_eq!(ctx.launch.settlement_price, 100);
    assert_eq!(settle(&mut ctx, 200, NOW + 4300).unwrap_err(), OodsError::WrongPhase);
    assert_eq!(ctx.launch.settlement_price, 100);
}

#[test]
fn claim_scores_and_marks_bet() {
    let (launch, bet) = bet_on(in_predict(1_000_000), key(3), 150, false, 1000);
    let launch = settled(launch, 100);
    let mut ctx = ClaimTokens { claimer: key(3), launch_key: key(9), launch, bet };
    let ev = claim_tokens(&mut ctx).unwrap();
    // accuracy 8000, weight 1000 * 8000 * 150 / 10000 / 100 = 1200
    assert_eq!(ev.accuracy, 8000);
    assert_eq!(ev.tokens, 1200);
    assert_eq!(ev.launch, key(9));
    assert_eq!(ev.claimer, key(3));
    assert!(ctx.bet.claimed);
    assert_eq!(claim_tokens(&mut ctx).unwrap_err(), OodsError::AlreadyClaimed);
}

#[test]
fn claim_capped_at_participant_pool() {
    let (launch, bet) = bet_on(in_predict(1000), key(3), 100, true, 1_000_000);
    let launch = settled(launch, 100);
    let mut ctx = ClaimTokens { claimer: key(3), launch_key: key(9), launch, bet };
    let ev = claim_tokens(&mut ctx).unwrap();
    // weight 1_000_000 * 10000 * 150 / 10^6 = 1_500_000, pool 800
    assert_eq!(ev.accuracy, 10000);
    assert_eq!(ev.tokens, 800);
}

#[test]
fn claim_rejections() {
    let (launch, bet) = bet_on(in_predict(1000), key(3), 100, true, 10);
    let mut ctx = ClaimTokens { claimer: key(3), launch_key: key(9), launch: launch.clone(), bet };
    assert_eq!(claim_tokens(&mut ctx).unwrap_err(), OodsError::WrongPhase);
    ctx.launch = settled(launch, 100);
    ctx.claimer = key(4);
    assert_eq!(claim_tokens(&mut ctx).unwrap_err(), OodsError::NotBettor);
    ctx.claimer = key(3);
    ctx.launch_key = key(10);
    assert_eq!(claim_tokens(&mut ctx).unwrap_err(), OodsError::LaunchMismatch);
    ctx.launch_key = key(9);
    ctx.bet.breakpoint = u64::MAX;
    ctx.launch.settlement_price = 1;
    assert_eq!(claim_tokens(&mut ctx).unwrap_err(), OodsError::ArithmeticOverflow);
    ctx.launch.settlement_price = 0;
    assert_eq!(claim_tokens(&mut ctx).unwrap_err(), OodsError::InvalidSettlement);
    assert!(!ctx.bet.claimed);
}

#[test]
fn counters_and_phase_never_move_back() {
    let l0 = created(1000);
    let mut vctx = SubmitVote { voter: key(2), launch_key: key(9), launch: l0, vote: blank_vote(), vote_bump: 0 };
    submit_vote(&mut vctx, 10, NOW).unwrap();
    let l1 = vctx.launch;
    let mut pctx = StartPredictPhase { authority: key(1), launch_key: key(9), launch: l1 };
    start_predict_phase(&mut pctx, 10, NOW + 600).unwrap();
    let l2 = pctx.launch;
    assert_eq!(l2.total_votes, 1);
    let (l3, _) = bet_on(l2, key(3), 10, true, 50);
    let mut vctx = SubmitVote { voter: key(4), launch_key: key(9), launch: l3, vote: blank_vote(), vote_bump: 0 };
    assert_eq!(submit_vote(&mut vctx, 10, NOW + 700).unwrap_err(), OodsError::WrongPhase);
    let l4 = settled(vctx.launch, 10);
    assert_eq!(l4.total_votes, 1);
    assert_eq!(l4.total_sol_locked, 50);
    assert_eq!(l4.median_mcap, 10);
    let mut bctx = PlaceBet { bettor: key(3), launch_key: key(9), launch: l4, bet: blank_bet(), bet_bump: 0 };
    assert_eq!(place_bet(&mut bctx, 10, true, 5, NOW + 4300).unwrap_err(), OodsError::WrongPhase);
    let mut pctx = StartPredictPhase { authority: key(1), launch_key: key(9), launch: bctx.launch };
    assert_eq!(start_predict_phase(&mut pctx, 10, NOW + 4300).unwrap_err(), OodsError::WrongPhase);
    assert_eq!(pctx.launch.phase, Phase::Settled);
    assert_eq!(pctx.launch.total_sol_locked, 50);
}

#[test]
fn keys_compare_by_bytes() {
    let mut b = [1u8; 32];
    assert_eq!(key(1), Pubkey::new(b));
    b[31] = 2;
    assert_ne!(key(1), Pubkey::new(b));
}
