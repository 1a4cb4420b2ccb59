use crate::contract::{Contract, ContractView};
use crate::model::TokensAmount;
use crate::record::ArithmeticOverflow;
use vstd::prelude::*;

verus! {

/// Why a burn was refused.
#[derive(Debug, PartialEq, Eq, Clone, Copy)]
pub enum BurnError {
    /// A burn is already in flight.
    AnotherServiceCallRunning,
}

/// What an accepted burn asks for next: nothing, with the amount burnt, or
/// burning `amount` tokens at the token contract, whose outcome is reported
/// to `on_burn_internal`.
#[derive(Debug, PartialEq, Eq, Clone, Copy)]
pub enum BurnStep {
    Done(TokensAmount),
    Burn(TokensAmount),
}

/// The amount that a burn of at most `amount` (everything, if `None`) takes
/// from the balance to burn.
pub open spec fn burn_amount(v: ContractView, amount: Option<TokensAmount>) -> TokensAmount {
    match amount {
        Some(a) => if a < v.balance_to_burn { a } else { v.balance_to_burn },
        None => v.balance_to_burn,
    }
}

/// The state after a burn request: refused while another burn is in flight;
/// otherwise, if there is anything to burn, it leaves the balance to burn and
/// a burn is in flight.
pub open spec fn burn_view(v: ContractView, amount: Option<TokensAmount>) -> ContractView {
    if v.is_service_call_running || burn_amount(v, amount) == 0 {
        v
    } else {
        ContractView {
            is_service_call_running: true,
            balance_to_burn: (v.balance_to_burn - burn_amount(v, amount)) as u128,
            ..v
        }
    }
}

/// The state after the outcome of a burn of `amount` arrives: no burn is in
/// flight, and a failed burn returns `amount` to the balance to burn.
pub open spec fn on_burn_view(v: ContractView, amount: TokensAmount, is_success: bool) -> ContractView {
    if is_success {
        ContractView { is_service_call_running: false, ..v }
    } else {
        ContractView {
            is_service_call_running: false,
            balance_to_burn: (v.balance_to_burn + amount) as u128,
            ..v
        }
    }
}

impl Contract {
    /// Burns at most `amount` of the evaporated tokens (all of them if
    /// `None`).
    pub fn burn(&mut self, amount: Option<TokensAmount>) -> (r: Result<BurnStep, BurnError>)
        ensures
            final(self)@ == burn_view(old(self)@, amount),
            final(self).accounts == old(self).accounts,
            old(self).is_service_call_running ==> r == Err::<BurnStep, BurnError>(
                BurnError::AnotherServiceCallRunning,
            ),
            !old(self).is_service_call_running ==> r == Ok::<BurnStep, BurnError>(
                if burn_amount(old(self)@, amount) > 0 {
                    BurnStep::Burn(burn_amount(old(self)@, amount))
                } else {
                    BurnStep::Done(0)
                },
            ),
    {
        if self.is_service_call_running {
            return Err(BurnError::AnotherServiceCallRunning);
        }
        let amount_to_burn: TokensAmount = match amount {
            Some(a) => if a < self.balance_to_burn { a } else { self.balance_to_burn },
            None => self.balance_to_burn,
        };
        if amount_to_burn > 0 {
            self.is_service_call_running = true;
            self.balance_to_burn = self.balance_to_burn - amount_to_burn;
            Ok(BurnStep::Burn(amount_to_burn))
        } else {
            Ok(BurnStep::Done(0))
        }
    }

    /// Settles a burn of `amount_to_burn` that succeeded or failed, and
    /// returns the amount burnt; where returning a failed amount would
    /// overflow the balance to burn, changes nothing and returns an error.
    pub fn on_burn_internal(&mut self, amount_to_burn: TokensAmount, is_success: bool) -> (r: Result<
        TokensAmount,
        ArithmeticOverflow,
    >)
        ensures
            r is Ok <==> (is_success || old(self).balance_to_burn + amount_to_burn <= u128::MAX),
            r is Ok ==> final(self)@ == on_burn_view(old(self)@, amount_to_burn, is_success),
            r matches Ok(burnt) ==> burnt == (if is_success { amount_to_burn } else { 0 }),
            r is Err ==> final(self)@ == old(self)@,
            final(self).accounts == old(self).accounts,
    {
        if is_success {
            self.is_service_call_running = false;
            return Ok(amount_to_burn);
        }
        match self.balance_to_burn.checked_add(amount_to_burn) {
            Some(total) => {
                self.is_service_call_running = false;
                self.balance_to_burn = total;
                Ok(0)
            },
            None => Err(ArithmeticOverflow),
        }
    }
}

} // verus!
