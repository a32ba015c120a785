//! Payment checks, price and expiry validation, authorization, and the
//! fee split of a sale.
use vstd::prelude::*;
use cosmwasm_std::{coin, Addr, Decimal, Uint128};
use cw_utils::PaymentError as Refused;
use crate::state::{Coin, ContractError, ExpiryRange, Params, PaymentError, Transfer};

verus! {

/// What `cw_utils::must_pay` decides of the funds sent with a call.
pub open spec fn must_pay_result(funds: Seq<Coin>, denom: Seq<char>) -> Result<u128, PaymentError> {
    if funds.len() == 0 {
        Err(PaymentError::NoFunds)
    } else if funds.len() > 1 {
        Err(PaymentError::MultipleDenoms)
    } else if funds[0].amount == 0 {
        Err(PaymentError::NoFunds)
    } else if funds[0].denom@ != denom {
        Err(PaymentError::MissingDenom)
    } else {
        Ok(funds[0].amount)
    }
}

/// Relies on cw_utils::must_pay: exactly one non-zero coin of `denom` must be
/// sent, and its amount is returned.
#[verifier::external_body]
pub(crate) fn must_pay(funds: &Vec<Coin>, denom: &String) -> (r: Result<u128, PaymentError>)
    ensures
        r == must_pay_result(funds@, denom@),
{
    let funds = funds.iter().map(|c| coin(c.amount, &c.denom)).collect();
    let info = cosmwasm_std::MessageInfo { sender: Addr::unchecked(""), funds };
    match cw_utils::must_pay(&info, denom) {
        Ok(amount) => Ok(amount.u128()),
        Err(Refused::MissingDenom(_)) => Err(PaymentError::MissingDenom),
        Err(Refused::ExtraDenom(_)) => Err(PaymentError::ExtraDenom),
        Err(Refused::MultipleDenoms {}) => Err(PaymentError::MultipleDenoms),
        Err(Refused::NoFunds {}) => Err(PaymentError::NoFunds),
        Err(Refused::NonPayable {}) => Err(PaymentError::NonPayable),
    }
}

/// What `cw_utils::nonpayable` decides of the funds sent with a call.
pub open spec fn nonpayable_result(funds: Seq<Coin>) -> Result<(), PaymentError> {
    if funds.len() == 0 {
        Ok(())
    } else {
        Err(PaymentError::NonPayable)
    }
}

/// Relies on cw_utils::nonpayable: a call may carry no funds at all.
#[verifier::external_body]
pub(crate) fn nonpayable(funds: &Vec<Coin>) -> (r: Result<(), PaymentError>)
    ensures
        r == nonpayable_result(funds@),
{
    let funds = funds.iter().map(|c| coin(c.amount, &c.denom)).collect();
    let info = cosmwasm_std::MessageInfo { sender: Addr::unchecked(""), funds };
    match cw_utils::nonpayable(&info) {
        Ok(()) => Ok(()),
        Err(_) => Err(PaymentError::NonPayable),
    }
}

/// Relies on cosmwasm_std's `Uint128 * Decimal::percent(percent)`: the exact
/// product, rounded down; it cannot overflow for a percentage up to 100.
#[verifier::external_body]
pub(crate) fn percent_of(amount: u128, percent: u64) -> (r: u128)
    requires
        percent <= 100,
    ensures
        r == amount * percent / 100,
{
    (Uint128::new(amount) * Decimal::percent(percent)).u128()
}

/// The marketplace's cut of a sale of `gross`.
pub open spec fn fee_of(gross: u128, percent: u64) -> u128 {
    (gross * percent / 100) as u128
}

pub open spec fn is_expired(expires_at: u64, now: u64) -> bool {
    expires_at <= now
}

pub open spec fn expiry_in_range(range: ExpiryRange, now: u64, expires_at: u64) -> bool {
    now <= expires_at && range.min <= expires_at - now <= range.max
}

impl ExpiryRange {
    /// A range is usable when its lower end does not exceed its upper end.
    pub fn validate(&self) -> (r: Result<(), ContractError>)
        ensures
            r == (if self.min <= self.max { Ok(()) } else { Err(ContractError::InvalidExpiryRange) }),
    {
        if self.min <= self.max {
            Ok(())
        } else {
            Err(ContractError::InvalidExpiryRange)
        }
    }

    /// A proposed expiry must lie between `min` and `max` seconds after `now`.
    pub fn is_valid(&self, now: u64, expires_at: u64) -> (r: Result<(), ContractError>)
        ensures
            r == (if expiry_in_range(*self, now, expires_at) {
                Ok(())
            } else {
                Err(ContractError::InvalidExpiration)
            }),
    {
        if now <= expires_at && self.min <= expires_at - now && expires_at - now <= self.max {
            Ok(())
        } else {
            Err(ContractError::InvalidExpiration)
        }
    }
}

/// A price is acceptable when it is in the settlement currency, non-zero and
/// not below the floor.
pub open spec fn price_result(price: Coin, params: Params) -> Result<(), ContractError> {
    if price.denom@ != params.denom@ {
        Err(ContractError::InvalidDenom)
    } else if price.amount == 0 || price.amount < params.min_price {
        Err(ContractError::PriceTooSmall(params.min_price))
    } else {
        Ok(())
    }
}

pub fn price_validate(price: &Coin, params: &Params) -> (r: Result<(), ContractError>)
    ensures
        r == price_result(*price, *params),
{
    if price.denom != params.denom {
        Err(ContractError::InvalidDenom)
    } else if price.amount == 0 || price.amount < params.min_price {
        Err(ContractError::PriceTooSmall(params.min_price))
    } else {
        Ok(())
    }
}

pub open spec fn is_operator(params: Params, sender: Seq<char>) -> bool {
    exists|i: int| 0 <= i < params.operators@.len() && (#[trigger] params.operators@[i])@ == sender
}

pub fn only_operator(sender: &String, params: &Params) -> (r: Result<(), ContractError>)
    ensures
        r == (if is_operator(*params, sender@) { Ok(()) } else { Err(ContractError::Unauthorized) }),
{
    let mut i: usize = 0;
    while i < params.operators.len()
        invariant
            i <= params.operators@.len(),
            forall|j: int| 0 <= j < i ==> (#[trigger] params.operators@[j])@ != sender@,
        decreases params.operators@.len() - i,
    {
        if params.operators[i] == *sender {
            return Ok(());
        }
        i = i + 1;
    }
    Err(ContractError::Unauthorized)
}

/// The transfers of a sale: the token to the buyer, the fee to the collector and
/// the rest to the recipient; a transfer of nothing is left out.
pub open spec fn sale_transfers(
    buyer: String,
    token_id: String,
    gross: u128,
    recipient: String,
    params: Params,
) -> Seq<Transfer> {
    let fee = fee_of(gross, params.trading_fee_percent);
    let nft = seq![Transfer::Nft { token_id: token_id, recipient: buyer }];
    let to_collector = if fee > 0 {
        seq![Transfer::Funds { recipient: params.collector_address, coin: Coin { denom: params.denom, amount: fee } }]
    } else {
        seq![]
    };
    let to_recipient = if gross - fee > 0 {
        seq![Transfer::Funds { recipient: recipient, coin: Coin { denom: params.denom, amount: (gross - fee) as u128 } }]
    } else {
        seq![]
    };
    nft + to_collector + to_recipient
}

/// Appends the transfers that settle a sale of `token_id` to `buyer` for `gross`.
pub fn finalize_sale(
    buyer: &String,
    token_id: &String,
    gross: u128,
    recipient: &String,
    params: &Params,
    out: &mut Vec<Transfer>,
)
    requires
        params.trading_fee_percent <= 100,
    ensures
        final(out)@ == old(out)@ + sale_transfers(*buyer, *token_id, gross, *recipient, *params),
{
    let fee = percent_of(gross, params.trading_fee_percent);
    proof {
        assert(gross * params.trading_fee_percent / 100 <= gross) by (nonlinear_arith)
            requires params.trading_fee_percent <= 100;
    }
    let ghost before = out@;
    out.push(Transfer::Nft { token_id: token_id.clone(), recipient: buyer.clone() });
    if fee > 0 {
        out.push(Transfer::Funds {
            recipient: params.collector_address.clone(),
            coin: Coin { denom: params.denom.clone(), amount: fee },
        });
    }
    let rest = gross - fee;
    if rest > 0 {
        out.push(Transfer::Funds {
            recipient: recipient.clone(),
            coin: Coin { denom: params.denom.clone(), amount: rest },
        });
    }
    assert(out@ =~= before + sale_transfers(*buyer, *token_id, gross, *recipient, *params));
}

} // verus!
