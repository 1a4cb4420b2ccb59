use vstd::prelude::*;

verus! {

/// Seconds since the Unix epoch.
pub type UnixTimestamp = u32;

/// An amount of tokens in their smallest unit.
pub type TokensAmount = u128;

/// A period in seconds.
pub type Duration = u32;

/// Ceiling of `a / b`.
pub open spec fn ceil_div(a: int, b: int) -> int {
    a / b + (if a % b == 0 { 0int } else { 1int })
}

/// `a - b`, or 0 where `b` exceeds `a`.
pub open spec fn saturating_sub(a: int, b: int) -> int {
    if a >= b { a - b } else { 0 }
}

/// The amount that evaporates from `balance` per second of a `burn_period`:
/// the balance spread over the period, rounded up.
pub open spec fn burn_rate(balance: u128, burn_period: u32) -> int {
    ceil_div(balance as int, burn_period as int)
}

/// Computes the per-second evaporation rate of `balance` over `burn_period`.
pub fn get_burn_rate(balance: TokensAmount, burn_period: Duration) -> (rate: TokensAmount)
    requires
        burn_period > 0,
    ensures
        rate == burn_rate(balance, burn_period),
{
    let period: u128 = burn_period as u128;
    let quotient: u128 = balance / period;
    if balance % period == 0 {
        quotient
    } else {
        assert(quotient < balance) by (nonlinear_arith)
            requires
                quotient == balance / period,
                period >= 1,
                balance % period != 0,
        {
        }
        quotient + 1
    }
}

/// Balance of an account as reported to a client: only what can be claimed,
/// or also the total before evaporation.
#[derive(Debug, PartialEq, Eq, Clone, Copy)]
pub enum ClaimableBalanceView {
    Short(TokensAmount),
    Detailed { total: TokensAmount, available: TokensAmount },
}

impl ClaimableBalanceView {
    pub fn new(total: TokensAmount, available: TokensAmount, detailed: bool) -> (r: Self)
        ensures
            r == (if detailed {
                ClaimableBalanceView::Detailed { total, available }
            } else {
                ClaimableBalanceView::Short(available)
            }),
    {
        if detailed {
            ClaimableBalanceView::Detailed { total, available }
        } else {
            ClaimableBalanceView::Short(available)
        }
    }

    pub open spec fn available_of(self) -> TokensAmount {
        match self {
            ClaimableBalanceView::Short(amount) => amount,
            ClaimableBalanceView::Detailed { available, .. } => available,
        }
    }

    pub fn available_balance(&self) -> (r: TokensAmount)
        ensures
            r == self.available_of(),
    {
        match self {
            ClaimableBalanceView::Short(amount) => *amount,
            ClaimableBalanceView::Detailed { available, .. } => *available,
        }
    }
}

/// Whether an account can claim now.
#[derive(Debug, PartialEq, Eq, Clone, Copy)]
pub enum ClaimAvailabilityView {
    /// Claim is available. Wrapped number is the amount of claimable entries.
    Available(u16),
    /// Claim is not available. Wrapped tuple is the timestamp the last claim
    /// and the duration of the claim period.
    Unavailable((UnixTimestamp, Duration)),
    /// User is not registered in the contract.
    Unregistered,
}

/// The amount an account received from a claim.
#[derive(Debug, PartialEq, Eq, Clone, Copy)]
pub struct ClaimResultView {
    pub total: TokensAmount,
}

impl ClaimResultView {
    pub fn new(total: TokensAmount) -> (r: Self)
        ensures
            r.total == total,
    {
        ClaimResultView { total }
    }
}

/// What decides when an account's balance evaporates.
#[derive(Debug, PartialEq, Eq, Clone, Copy)]
pub struct BurnStatus {
    pub min_claimable_ts: Option<UnixTimestamp>,
    pub claim_period_refreshed_at: UnixTimestamp,
    pub burn_period: Duration,
}

/// Timestamp arithmetic used by the claim rules.
pub trait UnixTimestampExtension {
    /// Whether less than `period` seconds have passed from this timestamp to `now`.
    fn is_within_period(&self, now: UnixTimestamp, period: Duration) -> (r: bool)
        requires
            self.timestamp_at_most(now),
        ensures
            r == self.within_period(now, period),
    ;

    spec fn timestamp_at_most(&self, now: UnixTimestamp) -> bool;

    spec fn within_period(&self, now: UnixTimestamp, period: Duration) -> bool;
}

impl UnixTimestampExtension for UnixTimestamp {
    open spec fn timestamp_at_most(&self, now: UnixTimestamp) -> bool {
        *self <= now
    }

    open spec fn within_period(&self, now: UnixTimestamp, period: Duration) -> bool {
        now - *self < period
    }

    fn is_within_period(&self, now: UnixTimestamp, period: Duration) -> (r: bool) {
        now - *self < period
    }
}

} // verus!
