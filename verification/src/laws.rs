use crate::account_record::{balance_to_burn_of, burn_computable, AccountRecord};
use crate::burn::{burn_amount, burn_view, on_burn_view};
use crate::claim::{
    claim_amount, claim_availability, claim_moves_tokens, claim_rejection, claim_starts_transfer, claim_view,
    claimable_balance,
    evaporated, on_claim_result_view,
};
use crate::clean::{clean_all, clean_all_fits};
use crate::contract::{
    burn_period_check, claim_period_check, claimable_window_start, periods_valid, ContractView,
    MAX_PERIOD_SECS,
};
use crate::model::{burn_rate, ClaimAvailabilityView, ClaimableBalanceView, Duration, TokensAmount, UnixTimestamp};
use crate::migration::accrual_sum;
use crate::record::{record_or_fresh, record_step, record_step_burnt};
use crate::test_data::outcome;
use vstd::prelude::*;

verus! {

/// Every record's evaporation window starts no earlier than its last claim.
pub open spec fn records_ordered(v: ContractView) -> bool {
    forall|id: Seq<char>|
        #[trigger] v.accounts.contains_key(id) ==> v.accounts[id].burn_since
            >= v.accounts[id].claim_period_refreshed_at
}

/// The burn rate spreads a balance over the burn period: over the whole
/// period it covers the balance, and it exceeds the exact share by less than
/// one token per second.
pub proof fn law_burn_rate_covers_balance(balance: TokensAmount, burn_period: Duration)
    requires
        burn_period > 0,
    ensures
        burn_rate(balance, burn_period) * burn_period >= balance,
        burn_rate(balance, burn_period) * burn_period < balance + burn_period,
{
    let b = balance as int;
    let p = burn_period as int;
    let q = b / p;
    let r = b % p;
    assert(b == q * p + r && 0 <= r < p) by (nonlinear_arith)
        requires
            p > 0,
            q == b / p,
            r == b % p,
    {
    }
    if r == 0 {
        assert(burn_rate(balance, burn_period) * p == q * p);
    } else {
        assert((q + 1) * p == q * p + p) by (nonlinear_arith);
    }
}

/// The evaporated amount never exceeds the balance.
pub proof fn law_evaporation_bounded_by_balance(
    record: AccountRecord,
    burn_period: Duration,
    claimable_window_start: UnixTimestamp,
)
    requires
        burn_period > 0,
    ensures
        0 <= balance_to_burn_of(record, burn_period, claimable_window_start) <= record.balance,
{
    let rate = burn_rate(record.balance, burn_period);
    assert(rate >= 0) by (nonlinear_arith)
        requires
            rate == burn_rate(record.balance, burn_period),
            burn_period > 0,
    {
    }
    let seconds = if claimable_window_start >= record.burn_since {
        claimable_window_start - record.burn_since
    } else {
        0
    };
    assert(rate * seconds >= 0) by (nonlinear_arith)
        requires
            rate >= 0,
            seconds >= 0,
    {
    }
}

/// A balance that has waited a whole burn period since its window opened,
/// with no claim since the window start, has evaporated completely.
pub proof fn law_full_evaporation_after_burn_period(
    record: AccountRecord,
    burn_period: Duration,
    claimable_window_start: UnixTimestamp,
)
    requires
        burn_period > 0,
        record.claim_period_refreshed_at <= claimable_window_start,
        claimable_window_start - record.burn_since >= burn_period,
    ensures
        balance_to_burn_of(record, burn_period, claimable_window_start) == record.balance,
{
    law_burn_rate_covers_balance(record.balance, burn_period);
    let rate = burn_rate(record.balance, burn_period);
    let seconds = claimable_window_start - record.burn_since;
    assert(rate * seconds >= rate * burn_period) by (nonlinear_arith)
        requires
            rate >= 0,
            seconds >= burn_period,
    {
    }
}

/// Evaporation only grows as the claimable window start moves forward.
pub proof fn law_evaporation_monotone(
    record: AccountRecord,
    burn_period: Duration,
    earlier: UnixTimestamp,
    later: UnixTimestamp,
)
    requires
        burn_period > 0,
        earlier <= later,
    ensures
        balance_to_burn_of(record, burn_period, earlier) <= balance_to_burn_of(
            record,
            burn_period,
            later,
        ),
{
    law_evaporation_bounded_by_balance(record, burn_period, earlier);
    law_evaporation_bounded_by_balance(record, burn_period, later);
    let rate = burn_rate(record.balance, burn_period);
    law_burn_rate_covers_balance(record.balance, burn_period);
    let s1 = if earlier >= record.burn_since { earlier - record.burn_since } else { 0 };
    let s2 = if later >= record.burn_since { later - record.burn_since } else { 0 };
    assert(rate >= 0) by (nonlinear_arith)
        requires
            rate * burn_period >= record.balance,
            burn_period > 0,
            record.balance >= 0,
    {
    }
    assert(rate * s1 <= rate * s2) by (nonlinear_arith)
        requires
            rate >= 0,
            0 <= s1 <= s2,
    {
    }
}

/// Once a balance's evaporation window has opened, the claimable part falls
/// by exactly the burn rate per second since the window's start, never grows
/// as time passes, and is gone once a whole burn period has passed.
pub proof fn law_claimable_balance_falls_linearly(
    v: ContractView,
    id: Seq<char>,
    now: UnixTimestamp,
    later: UnixTimestamp,
)
    requires
        v.burn_period > 0,
        v.accounts.contains_key(id),
        v.accounts[id].claim_period_refreshed_at <= claimable_window_start(v, now),
        v.accounts[id].burn_since <= claimable_window_start(v, now),
        now <= later,
    ensures
        ({
            let record = v.accounts[id];
            let rate = burn_rate(record.balance, v.burn_period);
            let seconds = claimable_window_start(v, now) - record.burn_since;
            &&& rate * seconds <= record.balance ==> claimable_balance(v, id, false, now).available_of()
                == record.balance - rate * seconds
            &&& seconds >= v.burn_period ==> claimable_balance(v, id, false, now).available_of() == 0
            &&& claimable_balance(v, id, false, later).available_of() <= claimable_balance(
                v,
                id,
                false,
                now,
            ).available_of()
        }),
{
    let record = v.accounts[id];
    let ws = claimable_window_start(v, now);
    let ws_later = claimable_window_start(v, later);
    assert(ws <= ws_later);
    law_evaporation_bounded_by_balance(record, v.burn_period, ws);
    law_evaporation_bounded_by_balance(record, v.burn_period, ws_later);
    law_evaporation_monotone(record, v.burn_period, ws, ws_later);
    if ws - record.burn_since >= v.burn_period {
        law_full_evaporation_after_burn_period(record, v.burn_period, ws);
    }
}

/// Crediting an account moves exactly the evaporated part of its balance to
/// the balance to burn and adds exactly the credited amount to its balance;
/// no other account changes.
pub proof fn law_record_conserves_tokens(
    v: ContractView,
    id: Seq<char>,
    amount: TokensAmount,
    claimable_window_start: UnixTimestamp,
    now: UnixTimestamp,
)
    requires
        v.burn_period > 0,
        v.balance_to_burn + record_step_burnt(v, id, claimable_window_start, now) <= u128::MAX,
        record_or_fresh(v, id, now).balance - record_step_burnt(v, id, claimable_window_start, now)
            + amount <= u128::MAX,
    ensures
        ({
            let after = record_step(v, id, amount, claimable_window_start, now);
            &&& after.accounts[id].balance + (after.balance_to_burn - v.balance_to_burn)
                == record_or_fresh(v, id, now).balance + amount
            &&& forall|other: Seq<char>|
                other != id ==> #[trigger] after.accounts.get(other) == v.accounts.get(other)
        }),
{
    law_evaporation_bounded_by_balance(record_or_fresh(v, id, now), v.burn_period, claimable_window_start);
}

/// Right after an account is credited, everything it holds is claimable: the
/// claimable amount grows by exactly the credited amount, whatever had
/// evaporated before.
pub proof fn law_record_credits_claimable_balance(
    v: ContractView,
    id: Seq<char>,
    amount: TokensAmount,
    now: UnixTimestamp,
)
    requires
        v.burn_period > 0,
        v.accounts.contains_key(id),
        v.balance_to_burn + evaporated(v, id, now) <= u128::MAX,
        v.accounts[id].balance - evaporated(v, id, now) + amount <= u128::MAX,
    ensures
        ({
            let after = record_step(v, id, amount, claimable_window_start(v, now), now);
            claimable_balance(after, id, false, now) == ClaimableBalanceView::Short(
                (claimable_balance(v, id, false, now).available_of() + amount) as u128,
            )
        }),
{
    let ws = claimable_window_start(v, now);
    law_evaporation_bounded_by_balance(v.accounts[id], v.burn_period, ws);
    let after = record_step(v, id, amount, ws, now);
    let credited = after.accounts[id];
    assert(claimable_window_start(after, now) == ws);
    assert(credited.burn_since >= ws);
    assert(burn_rate(credited.balance, v.burn_period) * 0 == 0);
    assert(balance_to_burn_of(credited, v.burn_period, ws) == 0);
}

/// A claim whose transfer fails leaves the contract as it was before the
/// claim.
pub proof fn law_failed_claim_transfer_restores_state(
    v: ContractView,
    id: Seq<char>,
    now: UnixTimestamp,
    block_timestamp: UnixTimestamp,
)
    requires
        claim_starts_transfer(v, id, now),
        v.burn_period > 0,
    ensures
        on_claim_result_view(
            claim_view(v, id, now),
            now,
            id,
            claim_amount(v, id, now) as u128,
            evaporated(v, id, now) as u128,
            false,
            block_timestamp,
        ) == v,
{
    law_evaporation_bounded_by_balance(v.accounts[id], v.burn_period, claimable_window_start(v, now));
    let after = on_claim_result_view(
        claim_view(v, id, now),
        now,
        id,
        claim_amount(v, id, now) as u128,
        evaporated(v, id, now) as u128,
        false,
        block_timestamp,
    );
    assert(after.accounts[id] == v.accounts[id]);
    assert(after.accounts =~= v.accounts);
}

/// A claim whose transfer succeeds pays out the claimable part of the
/// balance and moves the evaporated rest to the balance to burn, which
/// together make up the whole balance; the account is left empty, unlocked,
/// and unable to claim again until the claim period has passed.
pub proof fn law_successful_claim_settles_balance(
    v: ContractView,
    id: Seq<char>,
    now: UnixTimestamp,
    block_timestamp: UnixTimestamp,
    later: UnixTimestamp,
)
    requires
        claim_starts_transfer(v, id, now),
        v.burn_period > 0,
        v.balance_to_burn + evaporated(v, id, now) <= u128::MAX,
        now <= later,
    ensures
        ({
            let after = on_claim_result_view(
                claim_view(v, id, now),
                now,
                id,
                claim_amount(v, id, now) as u128,
                evaporated(v, id, now) as u128,
                true,
                block_timestamp,
            );
            &&& claim_amount(v, id, now) + evaporated(v, id, now) == v.accounts[id].balance
            &&& after.accounts[id].balance == 0
            &&& !after.accounts[id].is_locked
            &&& after.balance_to_burn == v.balance_to_burn + evaporated(v, id, now)
            &&& claim_availability(after, id, later) == (if later - now < v.claim_period {
                ClaimAvailabilityView::Unavailable((now, v.claim_period))
            } else {
                ClaimAvailabilityView::Available(0)
            })
            &&& forall|other: Seq<char>|
                other != id ==> #[trigger] after.accounts.get(other) == v.accounts.get(other)
        }),
{
    law_evaporation_bounded_by_balance(v.accounts[id], v.burn_period, claimable_window_start(v, now));
}

/// A burn whose call fails leaves the contract as it was before the burn.
pub proof fn law_failed_burn_restores_state(v: ContractView, amount: Option<TokensAmount>)
    requires
        !v.is_service_call_running,
        burn_amount(v, amount) > 0,
    ensures
        on_burn_view(burn_view(v, amount), burn_amount(v, amount), false) == v,
{
}

/// A burn whose call succeeds takes from the balance to burn exactly the
/// amount burnt, which is at most the amount asked for, and ends the burn in
/// flight.
pub proof fn law_successful_burn_takes_burnt_amount(v: ContractView, amount: Option<TokensAmount>)
    requires
        !v.is_service_call_running,
    ensures
        ({
            let after = on_burn_view(burn_view(v, amount), burn_amount(v, amount), true);
            &&& after.balance_to_burn + burn_amount(v, amount) == v.balance_to_burn
            &&& amount matches Some(a) ==> burn_amount(v, amount) <= a
            &&& !after.is_service_call_running
        }),
{
}

/// An accepted change of either period keeps the periods valid.
pub proof fn law_accepted_period_change_keeps_periods_valid(v: ContractView, period: Duration)
    requires
        periods_valid(v.claim_period, v.burn_period),
    ensures
        claim_period_check(v, period) is Ok ==> periods_valid(period, v.burn_period),
        burn_period_check(v, period) is Ok ==> periods_valid(v.claim_period, period),
{
}

/// Only the configuration setters change the periods: crediting, claiming,
/// settling, burning and cleaning leave them as they are.
pub proof fn law_operations_keep_periods(
    v: ContractView,
    id: Seq<char>,
    amount: TokensAmount,
    claimable_window_start: UnixTimestamp,
    now: UnixTimestamp,
    amount_to_claim: TokensAmount,
    amount_to_burn: TokensAmount,
    is_success: bool,
    block_timestamp: UnixTimestamp,
    burn_request: Option<TokensAmount>,
    ids: Seq<String>,
)
    ensures
        ({
            let after = record_step(v, id, amount, claimable_window_start, now);
            after.claim_period == v.claim_period && after.burn_period == v.burn_period
        }),
        ({
            let after = on_claim_result_view(v, now, id, amount_to_claim, amount_to_burn, is_success, block_timestamp);
            after.claim_period == v.claim_period && after.burn_period == v.burn_period
        }),
        claim_view(v, id, now).claim_period == v.claim_period,
        claim_view(v, id, now).burn_period == v.burn_period,
        burn_view(v, burn_request).claim_period == v.claim_period,
        burn_view(v, burn_request).burn_period == v.burn_period,
        on_burn_view(v, amount_to_burn, is_success).claim_period == v.claim_period,
        on_burn_view(v, amount_to_burn, is_success).burn_period == v.burn_period,
        clean_all(v, ids).claim_period == v.claim_period,
        clean_all(v, ids).burn_period == v.burn_period,
    decreases ids.len(),
{
    if ids.len() > 0 {
        law_operations_keep_periods(
            v,
            id,
            amount,
            claimable_window_start,
            now,
            amount_to_claim,
            amount_to_burn,
            is_success,
            block_timestamp,
            burn_request,
            ids.drop_last(),
        );
    }
}

/// After cleaning, none of the cleaned accounts has a record.
pub proof fn law_clean_removes_accounts(v: ContractView, ids: Seq<String>)
    ensures
        forall|i: int| 0 <= i < ids.len() ==> !clean_all(v, ids).accounts.contains_key(#[trigger] ids[i]@),
    decreases ids.len(),
{
    if ids.len() > 0 {
        law_clean_removes_accounts(v, ids.drop_last());
        let prev = clean_all(v, ids.drop_last());
        assert forall|i: int| 0 <= i < ids.len() implies !clean_all(v, ids).accounts.contains_key(
            #[trigger] ids[i]@,
        ) by {
            if i < ids.len() - 1 {
                assert(ids.drop_last()[i] == ids[i]);
            }
        }
    }
}

/// Crediting an account, and settling a claim, keep every record's
/// evaporation window from starting before its last claim.
pub proof fn law_operations_keep_records_ordered(
    v: ContractView,
    id: Seq<char>,
    amount: TokensAmount,
    claimable_window_start: UnixTimestamp,
    now: UnixTimestamp,
    amount_to_claim: TokensAmount,
    amount_to_burn: TokensAmount,
    is_success: bool,
    block_timestamp: UnixTimestamp,
)
    requires
        records_ordered(v),
    ensures
        records_ordered(record_step(v, id, amount, claimable_window_start, now)),
        records_ordered(
            on_claim_result_view(v, now, id, amount_to_claim, amount_to_burn, is_success, block_timestamp),
        ),
        records_ordered(claim_view(v, id, now)),
{
    let a = record_step(v, id, amount, claimable_window_start, now);
    assert forall|k: Seq<char>| #[trigger] a.accounts.contains_key(k) implies a.accounts[k].burn_since
        >= a.accounts[k].claim_period_refreshed_at by {
        if k != id {
            assert(v.accounts.contains_key(k));
        }
    }
    let b = on_claim_result_view(v, now, id, amount_to_claim, amount_to_burn, is_success, block_timestamp);
    assert forall|k: Seq<char>| #[trigger] b.accounts.contains_key(k) implies b.accounts[k].burn_since
        >= b.accounts[k].claim_period_refreshed_at by {
        if k != id {
            assert(v.accounts.contains_key(k));
        }
    }
    let c = claim_view(v, id, now);
    if claim_view(v, id, now) != v {
        let record = v.accounts[id];
        let emptied = ContractView { accounts: v.accounts.insert(id, AccountRecord { balance: 0, ..record }), ..v };
        assert forall|k: Seq<char>| #[trigger] emptied.accounts.contains_key(k) implies emptied.accounts[k].burn_since
            >= emptied.accounts[k].claim_period_refreshed_at by {
            if k != id {
                assert(v.accounts.contains_key(k));
            }
        }
        let cb = on_claim_result_view(emptied, now, id, 0, evaporated(v, id, now) as u128, true, now);
        assert forall|k: Seq<char>| #[trigger] cb.accounts.contains_key(k) implies cb.accounts[k].burn_since
            >= cb.accounts[k].claim_period_refreshed_at by {
            if k != id {
                assert(emptied.accounts.contains_key(k));
            }
        }
        assert forall|k: Seq<char>| #[trigger] c.accounts.contains_key(k) implies c.accounts[k].burn_since
            >= c.accounts[k].claim_period_refreshed_at by {
            if k != id {
                assert(v.accounts.contains_key(k));
            }
        }
    }
}

/// A stored outcome is reported back for its name and leaves the other
/// names' outcomes alone; a name never set reports success.
pub proof fn law_test_outcome_read_back(
    m: Map<Seq<char>, bool>,
    name: Seq<char>,
    other: Seq<char>,
    success: bool,
)
    ensures
        outcome(m.insert(name, success), name) == success,
        other != name ==> outcome(m.insert(name, success), other) == outcome(m, other),
        outcome(Map::<Seq<char>, bool>::empty(), name),
{
}


/// For a registered account the short view reports the balance less what has
/// evaporated since the claimable window opened, and the detailed view
/// reports the whole balance as its total and exactly that same amount as
/// available: the detail flag changes the shape of the answer, never the
/// available amount. An unregistered account has nothing in either view.
pub proof fn law_detailed_view_only_adds_total(v: ContractView, id: Seq<char>, now: UnixTimestamp)
    ensures
        v.accounts.contains_key(id) ==> claimable_balance(v, id, false, now) == ClaimableBalanceView::Short(
            (v.accounts[id].balance - balance_to_burn_of(
                v.accounts[id],
                v.burn_period,
                claimable_window_start(v, now),
            )) as u128,
        ),
        v.accounts.contains_key(id) ==> claimable_balance(v, id, true, now) == (ClaimableBalanceView::Detailed {
            total: v.accounts[id].balance,
            available: claimable_balance(v, id, false, now).available_of(),
        }),
        !v.accounts.contains_key(id) ==> claimable_balance(v, id, false, now) == ClaimableBalanceView::Short(0),
        !v.accounts.contains_key(id) ==> claimable_balance(v, id, true, now) == (ClaimableBalanceView::Detailed {
            total: 0,
            available: 0,
        }),
{
}

/// A claim is accepted exactly when the account is registered, its last
/// claim is not after `now` and at least a claim period before it, it is
/// neither locked nor disabled, and, where it holds tokens, the evaporated
/// part can be computed and, if everything evaporated, added to the balance
/// to burn.
pub proof fn law_claim_accepted_exactly_when(v: ContractView, id: Seq<char>, now: UnixTimestamp)
    ensures
        claim_rejection(v, id, now) is None <==> ({
            let r = v.accounts[id];
            let ws = claimable_window_start(v, now);
            &&& v.accounts.contains_key(id)
            &&& r.claim_period_refreshed_at <= now
            &&& now - r.claim_period_refreshed_at >= v.claim_period
            &&& !r.is_locked
            &&& r.is_enabled
            &&& r.balance > 0 ==> burn_computable(r, v.burn_period, ws)
            &&& r.balance > 0 && r.balance == balance_to_burn_of(r, v.burn_period, ws) ==> v.balance_to_burn
                + r.balance <= u128::MAX
        }),
{
}

/// A claim that completes at once, because the whole balance has evaporated,
/// empties the record, unlocks it and restarts its claim period and its
/// evaporation at `now`; the record keeps every other field (whether the
/// account is enabled in particular), the evaporated balance goes to the
/// balance to burn, and nothing else changes.
pub proof fn law_instant_claim_keeps_account(v: ContractView, id: Seq<char>, now: UnixTimestamp)
    requires
        claim_moves_tokens(v, id, now),
        claim_amount(v, id, now) == 0,
    ensures
        ({
            let r = v.accounts[id];
            let after = claim_view(v, id, now);
            &&& after.accounts == v.accounts.insert(
                id,
                AccountRecord {
                    balance: 0,
                    burn_since: now,
                    claim_period_refreshed_at: now,
                    is_enabled: r.is_enabled,
                    is_locked: false,
                },
            )
            &&& after.accounts[id].is_enabled == r.is_enabled
            &&& after.balance_to_burn == v.balance_to_burn + r.balance
            &&& after.token_account_id == v.token_account_id
            &&& after.claim_period == v.claim_period
            &&& after.burn_period == v.burn_period
            &&& after.is_service_call_running == v.is_service_call_running
        }),
{
    let r = v.accounts[id];
    let after = claim_view(v, id, now);
    assert(after.accounts =~= v.accounts.insert(
        id,
        AccountRecord { balance: 0, burn_since: now, claim_period_refreshed_at: now, is_enabled: r.is_enabled, is_locked: false },
    ));
}

/// A claim that starts a transfer empties and locks the record and keeps
/// every other field of it; nothing else changes until the transfer's
/// outcome arrives.
pub proof fn law_transfer_claim_locks_account(v: ContractView, id: Seq<char>, now: UnixTimestamp)
    requires
        claim_starts_transfer(v, id, now),
    ensures
        ({
            let r = v.accounts[id];
            claim_view(v, id, now) == ContractView {
                accounts: v.accounts.insert(
                    id,
                    AccountRecord {
                        balance: 0,
                        burn_since: r.burn_since,
                        claim_period_refreshed_at: r.claim_period_refreshed_at,
                        is_enabled: r.is_enabled,
                        is_locked: true,
                    },
                ),
                ..v
            }
        }),
{
}

/// A claim that is refused, or that finds nothing to claim, changes nothing.
pub proof fn law_claim_without_tokens_changes_nothing(v: ContractView, id: Seq<char>, now: UnixTimestamp)
    requires
        claim_rejection(v, id, now) is Some || v.accounts[id].balance == 0,
    ensures
        claim_view(v, id, now) == v,
{
}

/// A claim period is accepted exactly when it does not exceed the maximum
/// and is shorter than the burn period.
pub proof fn law_claim_period_accepted_exactly_when(v: ContractView, period: Duration)
    ensures
        claim_period_check(v, period) is Ok <==> (period <= MAX_PERIOD_SECS && period < v.burn_period),
{
}

/// A burn period is accepted exactly when it is positive, does not exceed the
/// maximum and is longer than the claim period.
pub proof fn law_burn_period_accepted_exactly_when(v: ContractView, period: Duration)
    ensures
        burn_period_check(v, period) is Ok <==> (0 < period && period <= MAX_PERIOD_SECS && v.claim_period
            < period),
{
}

/// Cleaning one more account removes its record and moves exactly its whole
/// balance, whatever its flags, to the balance to burn; an account without a
/// record changes nothing.
pub proof fn law_clean_moves_whole_balance(v: ContractView, ids: Seq<String>, id: String)
    requires
        clean_all_fits(v, ids.push(id)),
    ensures
        ({
            let before = clean_all(v, ids);
            let after = clean_all(v, ids.push(id));
            &&& !after.accounts.contains_key(id@)
            &&& after.accounts == before.accounts.remove(id@)
            &&& after.balance_to_burn == before.balance_to_burn + (if before.accounts.contains_key(id@) {
                before.accounts[id@].balance as int
            } else {
                0
            })
            &&& after.token_account_id == before.token_account_id
            &&& after.claim_period == before.claim_period
            &&& after.burn_period == before.burn_period
            &&& after.is_service_call_running == before.is_service_call_running
        }),
{
    assert(ids.push(id).drop_last() =~= ids);
    assert(ids.push(id).last() == id);
    let before = clean_all(v, ids);
    if !before.accounts.contains_key(id@) {
        assert(before.accounts.remove(id@) =~= before.accounts);
    }
}

/// The sum of the amounts of `accruals`.
pub open spec fn accrual_total(accruals: Seq<(UnixTimestamp, TokensAmount)>) -> int
    decreases accruals.len(),
{
    if accruals.len() == 0 {
        0
    } else {
        accrual_total(accruals.drop_last()) + accruals.last().1
    }
}

/// One more accrual goes to the kept balance when less than the burn period
/// has passed from its timestamp to `now`, and to the burnt sum otherwise.
pub proof fn law_accrual_split_by_age(
    accruals: Seq<(UnixTimestamp, TokensAmount)>,
    accrual: (UnixTimestamp, TokensAmount),
    now: UnixTimestamp,
    burn_period: Duration,
)
    ensures
        accrual_sum(accruals.push(accrual), now, burn_period, true) == accrual_sum(
            accruals,
            now,
            burn_period,
            true,
        ) + (if now - accrual.0 < burn_period {
            accrual.1 as int
        } else {
            0
        }),
        accrual_sum(accruals.push(accrual), now, burn_period, false) == accrual_sum(
            accruals,
            now,
            burn_period,
            false,
        ) + (if now - accrual.0 >= burn_period {
            accrual.1 as int
        } else {
            0
        }),
{
    assert(accruals.push(accrual).drop_last() =~= accruals);
}

/// The kept balance and the burnt sum together make up every accrual: no
/// amount is lost or counted twice.
pub proof fn law_accrual_split_covers_all(
    accruals: Seq<(UnixTimestamp, TokensAmount)>,
    now: UnixTimestamp,
    burn_period: Duration,
)
    ensures
        accrual_sum(accruals, now, burn_period, true) + accrual_sum(accruals, now, burn_period, false)
            == accrual_total(accruals),
    decreases accruals.len(),
{
    if accruals.len() > 0 {
        law_accrual_split_covers_all(accruals.drop_last(), now, burn_period);
    }
}

/// Where every accrual is at least a burn period old, all of them are burnt
/// and none is kept; where every accrual is younger, all are kept.
pub proof fn law_accrual_split_by_uniform_age(
    accruals: Seq<(UnixTimestamp, TokensAmount)>,
    now: UnixTimestamp,
    burn_period: Duration,
)
    ensures
        (forall|i: int| 0 <= i < accruals.len() ==> now - #[trigger] accruals[i].0 >= burn_period) ==> ({
            &&& accrual_sum(accruals, now, burn_period, true) == 0
            &&& accrual_sum(accruals, now, burn_period, false) == accrual_total(accruals)
        }),
        (forall|i: int| 0 <= i < accruals.len() ==> now - #[trigger] accruals[i].0 < burn_period) ==> ({
            &&& accrual_sum(accruals, now, burn_period, true) == accrual_total(accruals)
            &&& accrual_sum(accruals, now, burn_period, false) == 0
        }),
    decreases accruals.len(),
{
    if accruals.len() > 0 {
        let prefix = accruals.drop_last();
        law_accrual_split_by_uniform_age(prefix, now, burn_period);
        assert forall|i: int| 0 <= i < prefix.len() implies #[trigger] prefix[i] == accruals[i] by {}
    }
}

/// Settling a transfer unlocks the record and keeps whether the account is
/// enabled. On success the claim period and the evaporation restart at the
/// claim's time, the balance (which may have been credited meanwhile) stays,
/// and the evaporated amount goes to the balance to burn; on failure both
/// amounts go back to the balance and nothing else changes.
pub proof fn law_claim_settlement_record(
    v: ContractView,
    now: UnixTimestamp,
    id: Seq<char>,
    amount_to_claim: TokensAmount,
    amount_to_burn: TokensAmount,
    block_timestamp: UnixTimestamp,
)
    requires
        v.accounts.contains_key(id),
    ensures
        ({
            let r = v.accounts[id];
            let ok = on_claim_result_view(v, now, id, amount_to_claim, amount_to_burn, true, block_timestamp);
            let failed = on_claim_result_view(v, now, id, amount_to_claim, amount_to_burn, false, block_timestamp);
            &&& ok.accounts == v.accounts.insert(
                id,
                AccountRecord {
                    balance: r.balance,
                    burn_since: now,
                    claim_period_refreshed_at: now,
                    is_enabled: r.is_enabled,
                    is_locked: false,
                },
            )
            &&& ok.balance_to_burn == (v.balance_to_burn + amount_to_burn) as u128
            &&& failed.accounts == v.accounts.insert(
                id,
                AccountRecord {
                    balance: (r.balance + amount_to_claim + amount_to_burn) as u128,
                    burn_since: r.burn_since,
                    claim_period_refreshed_at: r.claim_period_refreshed_at,
                    is_enabled: r.is_enabled,
                    is_locked: false,
                },
            )
            &&& failed.balance_to_burn == v.balance_to_burn
        }),
{
}

} // verus!
