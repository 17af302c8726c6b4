//! Records of the market: the launch itself, votes and bets, the errors the
//! operations report and the notifications they emit.
use vstd::prelude::*;

use crate::key::Pubkey;

verus! {

/// Longest display name, in bytes.
pub const MAX_NAME_LEN: usize = 32;

/// Longest symbol, in bytes.
pub const MAX_SYMBOL_LEN: usize = 10;

/// Number of bytes the UTF-8 encoding of `s` takes.
pub open spec fn byte_len(s: Seq<char>) -> nat {
    vstd::utf8::encode_utf8(s).len()
}

/// Phases of a launch; they only ever move forward.
#[derive(Clone, Copy, Debug, PartialEq, Eq, Structural)]
pub enum Phase {
    Discovery,
    Predict,
    Settled,
}

/// Position of a phase in the forward order.
pub open spec fn phase_rank(p: Phase) -> int {
    match p {
        Phase::Discovery => 0,
        Phase::Predict => 1,
        Phase::Settled => 2,
    }
}

/// Errors the market operations report.
#[derive(Clone, Copy, Debug, PartialEq, Eq, Structural)]
pub enum OodsError {
    NameTooLong,
    SymbolTooLong,
    InvalidDuration,
    WrongPhase,
    PhaseEnded,
    PhaseNotEnded,
    InvalidVote,
    InvalidMedian,
    InvalidAmount,
    InvalidBreakpoint,
    InvalidSettlement,
    AlreadyClaimed,
    NotBettor,
    /// The signer is not the launch's authority.
    NotAuthority,
    /// The bet belongs to another launch.
    LaunchMismatch,
    /// A counter, a timestamp or an intermediate product would not fit its width.
    ArithmeticOverflow,
}

/// State of one launch.
#[derive(Clone, Debug)]
pub struct Launch {
    pub authority: Pubkey,
    pub name: String,
    pub symbol: String,
    pub total_supply: u64,
    pub phase: Phase,
    pub discovery_end: i64,
    pub predict_end: i64,
    pub total_votes: u32,
    pub median_mcap: u64,
    pub total_sol_locked: u64,
    pub settlement_price: u64,
    pub bump: u8,
}

impl Launch {
    /// The launch's invariant: bounded name and symbol, ordered deadlines, and
    /// the phase-dependent values set exactly when their phase has begun.
    pub open spec fn wf(&self) -> bool {
        &&& byte_len(self.name@) <= MAX_NAME_LEN
        &&& byte_len(self.symbol@) <= MAX_SYMBOL_LEN
        &&& self.discovery_end < self.predict_end
        &&& match self.phase {
            Phase::Discovery => {
                &&& self.median_mcap == 0
                &&& self.total_sol_locked == 0
                &&& self.settlement_price == 0
            },
            Phase::Predict => self.median_mcap > 0 && self.settlement_price == 0,
            Phase::Settled => self.median_mcap > 0 && self.settlement_price > 0,
        }
    }

    /// `next` is a state this launch may be found in later: the identity and
    /// deadlines are unchanged, the phase has not moved back, the counters
    /// have not decreased, and values fixed by a past transition are kept.
    pub open spec fn may_become(&self, next: Launch) -> bool {
        &&& next.authority == self.authority
        &&& next.name@ == self.name@
        &&& next.symbol@ == self.symbol@
        &&& next.total_supply == self.total_supply
        &&& next.discovery_end == self.discovery_end
        &&& next.predict_end == self.predict_end
        &&& next.bump == self.bump
        &&& phase_rank(self.phase) <= phase_rank(next.phase)
        &&& self.total_votes <= next.total_votes
        &&& self.total_sol_locked <= next.total_sol_locked
        &&& self.phase != Phase::Discovery ==> next.median_mcap == self.median_mcap
        &&& self.phase == Phase::Settled ==> next.settlement_price == self.settlement_price
    }
}

/// One participant's valuation vote.
#[derive(Clone, Copy, Debug)]
pub struct Vote {
    pub launch: Pubkey,
    pub voter: Pubkey,
    pub mcap_vote: u64,
    pub timestamp: i64,
    pub bump: u8,
}

/// One stake on a breakpoint.
#[derive(Clone, Copy, Debug)]
pub struct Bet {
    pub launch: Pubkey,
    pub bettor: Pubkey,
    pub breakpoint: u64,
    pub is_yes: bool,
    pub amount: u64,
    pub multiplier: u16,
    pub timestamp: i64,
    pub claimed: bool,
    pub bump: u8,
}

/// Emitted when a launch is created.
#[derive(Clone, Debug)]
pub struct LaunchCreated {
    pub launch: Pubkey,
    pub name: String,
    pub symbol: String,
    pub discovery_end: i64,
    pub predict_end: i64,
}

/// Emitted when a vote is recorded.
#[derive(Clone, Copy, Debug)]
pub struct VoteSubmitted {
    pub launch: Pubkey,
    pub voter: Pubkey,
    pub mcap_vote: u64,
}

/// Emitted when the predict phase begins.
#[derive(Clone, Copy, Debug)]
pub struct PredictPhaseStarted {
    pub launch: Pubkey,
    pub median_mcap: u64,
}

/// Emitted when a bet is recorded.
#[derive(Clone, Copy, Debug)]
pub struct BetPlaced {
    pub launch: Pubkey,
    pub bettor: Pubkey,
    pub breakpoint: u64,
    pub is_yes: bool,
    pub amount: u64,
    pub multiplier: u16,
}

/// Emitted when a launch is settled.
#[derive(Clone, Copy, Debug)]
pub struct LaunchSettled {
    pub launch: Pubkey,
    pub settlement_price: u64,
    pub total_sol: u64,
}

/// Emitted when a bet's reward is claimed.
#[derive(Clone, Copy, Debug)]
pub struct TokensClaimed {
    pub launch: Pubkey,
    pub claimer: Pubkey,
    pub tokens: u64,
    pub accuracy: u16,
}

} // verus!
