use vstd::prelude::*;

use crate::errors::IcoError;
use crate::state::{
    IcoAccount, PurchaseAccount, PurchaseEvent, Pubkey, RoundType, TokenPurchaseEvent, same_sale,
};

verus! {

/// Whether the sale accepts purchases at `now`: it has not been ended, and
/// `now` lies in the half-open window `[start_time, start_time + duration)`.
pub open spec fn sale_window_open(ico: IcoAccount, now: i64) -> bool {
    &&& ico.is_active
    &&& ico.start_time <= now
    &&& now < ico.end_time()
}

/// Whether the whitelist admits the buyer: it is consulted only during the
/// seed round, and any buyer passes in the other rounds.
pub open spec fn whitelist_admits(ico: IcoAccount, buyer: Pubkey) -> bool {
    ico.round_type == RoundType::SeedRound ==> ico.seed_investors@.contains(buyer)
}

/// Why `buy_tokens` refuses, or `None` where it accepts. The checks run in
/// this order and the first failure wins: the sale must be open at `now`,
/// the buyer must pass the whitelist, enough tokens must remain unsold, the
/// total cost `amount * token_price` must fit the payment type, and the
/// purchase counters must have room to grow.
pub open spec fn buy_error(ico: IcoAccount, buyer: Pubkey, amount: u64, now: i64) -> Option<
    IcoError,
> {
    if !sale_window_open(ico, now) {
        Some(IcoError::IcoNotActive)
    } else if !whitelist_admits(ico, buyer) {
        Some(IcoError::NotWhitelisted)
    } else if ico.tokens_sold + amount > ico.total_supply {
        Some(IcoError::InsufficientTokens)
    } else if amount * ico.token_price > u64::MAX {
        Some(IcoError::MathOverflow)
    } else if ico.purchase_counter == u64::MAX || ico.total_investors == u64::MAX {
        Some(IcoError::MathOverflow)
    } else {
        None
    }
}

/// The sale's step from `pre` to `post` on an accepted purchase of `amount`
/// by `buyer` at `now`: the units sold and both counters grow, the
/// configuration and the whitelist stay.
pub open spec fn buy_accepted(
    pre: IcoAccount,
    post: IcoAccount,
    buyer: Pubkey,
    amount: u64,
    now: i64,
) -> bool {
    &&& buy_error(pre, buyer, amount, now) is None
    &&& post.tokens_sold == pre.tokens_sold + amount
    &&& post.purchase_counter == pre.purchase_counter + 1
    &&& post.total_investors == pre.total_investors + 1
    &&& post.authority == pre.authority
    &&& post.token_mint == pre.token_mint
    &&& post.total_supply == pre.total_supply
    &&& post.token_price == pre.token_price
    &&& post.start_time == pre.start_time
    &&& post.duration == pre.duration
    &&& post.is_active == pre.is_active
    &&& post.round_type == pre.round_type
    &&& post.seed_investors@ == pre.seed_investors@
}

/// Accept a purchase of `amount` token units by `buyer` at time `now`, for
/// the sale the host keys by `ico_key`.
///
/// On success the sale's accounting is updated and the call returns the new
/// purchase record (not yet distributed), the total cost
/// `amount * token_price` the host must now debit from the buyer, and the
/// notification to emit. On refusal the error is exactly what `buy_error`
/// names for these inputs and the sale record does not change, so a buyer is
/// never charged without a matching ledger entry.
pub fn buy_tokens(ico: &mut IcoAccount, buyer: Pubkey, amount: u64, now: i64, ico_key: Pubkey) -> (
    result: Result<(PurchaseAccount, u64, TokenPurchaseEvent), IcoError>)
    requires
        old(ico).well_formed(),
    ensures
        final(ico).well_formed(),
        match result {
            Ok((purchase, total_cost, event)) => {
                &&& buy_accepted(*old(ico), *final(ico), buyer, amount, now)
                &&& total_cost == amount * old(ico).token_price
                &&& purchase.buyer == buyer
                &&& purchase.amount == amount
                &&& !purchase.is_distributed
                &&& purchase.timestamp == now
                &&& purchase.ico == ico_key
                &&& event == (TokenPurchaseEvent {
                    buyer,
                    amount,
                    price: old(ico).token_price,
                    timestamp: now,
                })
            },
            Err(e) => {
                &&& buy_error(*old(ico), buyer, amount, now) == Some(e)
                &&& same_sale(*final(ico), *old(ico))
            },
        },
{
    if !(ico.is_active && now >= ico.start_time && now < ico.start_time + ico.duration) {
        return Err(IcoError::IcoNotActive);
    }
    if ico.round_type == RoundType::SeedRound {
        if !crate::sale::whitelist_contains(&ico.seed_investors, buyer) {
            return Err(IcoError::NotWhitelisted);
        }
    }
    if amount > ico.total_supply - ico.tokens_sold {
        return Err(IcoError::InsufficientTokens);
    }
    let total_cost = match amount.checked_mul(ico.token_price) {
        Some(cost) => cost,
        None => {
            return Err(IcoError::MathOverflow);
        },
    };
    let next_counter = match ico.purchase_counter.checked_add(1) {
        Some(c) => c,
        None => {
            return Err(IcoError::MathOverflow);
        },
    };
    let next_investors = match ico.total_investors.checked_add(1) {
        Some(c) => c,
        None => {
            return Err(IcoError::MathOverflow);
        },
    };
    let purchase = PurchaseAccount {
        buyer,
        amount,
        is_distributed: false,
        timestamp: now,
        ico: ico_key,
    };
    ico.tokens_sold = ico.tokens_sold + amount;
    ico.purchase_counter = next_counter;
    ico.total_investors = next_investors;
    let event = TokenPurchaseEvent { buyer, amount, price: ico.token_price, timestamp: now };
    Ok((purchase, total_cost, event))
}

/// Why `distribute_tokens` refuses, or `None` where it accepts: only the
/// sale's authority settles, a record is settled at most once, and the
/// record must belong to the sale being settled.
pub open spec fn distribute_error(
    ico: IcoAccount,
    purchase: PurchaseAccount,
    caller: Pubkey,
    ico_key: Pubkey,
) -> Option<IcoError> {
    if caller != ico.authority {
        Some(IcoError::Unauthorized)
    } else if purchase.is_distributed {
        Some(IcoError::AlreadyDistributed)
    } else if purchase.ico != ico_key {
        Some(IcoError::InvalidPurchase)
    } else {
        None
    }
}

/// Settle one purchase of the sale the host keys by `ico_key`: mark the
/// record distributed and return how many token units the host must now move
/// from the treasury to the buyer, with the notification to emit.
///
/// Distribution does not wait for the sale to end: a purchase may be settled
/// while the sale is still open. On refusal the error is exactly what
/// `distribute_error` names and the record does not change — in particular a
/// record already settled is refused with `AlreadyDistributed`, so no
/// purchase is ever paid out twice.
pub fn distribute_tokens(
    ico: &IcoAccount,
    purchase: &mut PurchaseAccount,
    caller: Pubkey,
    ico_key: Pubkey,
) -> (result: Result<(u64, PurchaseEvent), IcoError>)
    ensures
        match result {
            Ok((amount, event)) => {
                &&& distribute_error(*ico, *old(purchase), caller, ico_key) is None
                &&& amount == old(purchase).amount
                &&& *final(purchase) == (PurchaseAccount {
                    is_distributed: true,
                    ..*old(purchase)
                })
                &&& event == (PurchaseEvent {
                    buyer: old(purchase).buyer,
                    amount: old(purchase).amount,
                    is_distributed: true,
                })
            },
            Err(e) => {
                &&& distribute_error(*ico, *old(purchase), caller, ico_key) == Some(e)
                &&& *final(purchase) == *old(purchase)
            },
        },
{
    if caller != ico.authority {
        return Err(IcoError::Unauthorized);
    }
    if purchase.is_distributed {
        return Err(IcoError::AlreadyDistributed);
    }
    if purchase.ico != ico_key {
        return Err(IcoError::InvalidPurchase);
    }
    purchase.is_distributed = true;
    let event = PurchaseEvent {
        buyer: purchase.buyer,
        amount: purchase.amount,
        is_distributed: true,
    };
    Ok((purchase.amount, event))
}

/// Law: distribution is idempotent-safe. Once a distribute call has settled
/// a record, a second call on the settled record — same sale, same caller —
/// is refused with `AlreadyDistributed`; by `distribute_tokens`'s contract a
/// refused call leaves the record, and so the ledger, unchanged.
pub proof fn lemma_distribute_second_call_rejected(
    ico: IcoAccount,
    before: PurchaseAccount,
    after: PurchaseAccount,
    caller: Pubkey,
    ico_key: Pubkey,
)
    requires
        distribute_error(ico, before, caller, ico_key) is None,
        after == (PurchaseAccount { is_distributed: true, ..before }),
    ensures
        distribute_error(ico, after, caller, ico_key) == Some(IcoError::AlreadyDistributed),
{
}

/// The sum of a sequence of purchase amounts, as a mathematical integer.
pub open spec fn sum_amounts(amounts: Seq<u64>) -> int
    decreases amounts.len(),
{
    if amounts.len() == 0 {
        0
    } else {
        amounts[0] + sum_amounts(amounts.drop_first())
    }
}

/// The sale ran from `pre` to `post` through exactly the accepted purchases
/// of `amounts`, in order, by whichever buyers at whichever times.
pub open spec fn buy_trace(pre: IcoAccount, post: IcoAccount, amounts: Seq<u64>) -> bool
    decreases amounts.len(),
{
    if amounts.len() == 0 {
        same_sale(post, pre)
    } else {
        exists|mid: IcoAccount, buyer: Pubkey, now: i64|
            buy_accepted(pre, mid, buyer, amounts[0], now) && buy_trace(
                mid,
                post,
                amounts.drop_first(),
            )
    }
}

/// Law: over any run of accepted purchases, the units sold grow by exactly
/// the sum of the accepted amounts, one purchase record is counted per
/// accepted purchase, the supply never changes, and the units sold never
/// exceed it. Started from a fresh sale (zero sold), the units sold
/// therefore always equal the sum of all accepted purchase amounts.
pub proof fn lemma_units_sold_accounting(pre: IcoAccount, post: IcoAccount, amounts: Seq<u64>)
    requires
        pre.well_formed(),
        buy_trace(pre, post, amounts),
    ensures
        post.tokens_sold == pre.tokens_sold + sum_amounts(amounts),
        post.purchase_counter == pre.purchase_counter + amounts.len(),
        post.total_investors == pre.total_investors + amounts.len(),
        post.total_supply == pre.total_supply,
        post.tokens_sold <= post.total_supply,
    decreases amounts.len(),
{
    if amounts.len() == 0 {
    } else {
        let (mid, buyer, now) = choose|mid: IcoAccount, buyer: Pubkey, now: i64|
            buy_accepted(pre, mid, buyer, amounts[0], now) && buy_trace(
                mid,
                post,
                amounts.drop_first(),
            );
        assert(mid.well_formed());
        lemma_units_sold_accounting(mid, post, amounts.drop_first());
    }
}

} // verus!
