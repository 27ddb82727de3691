use vstd::prelude::*;

use crate::errors::IcoError;
use crate::state::{IcoAccount, Pubkey, RoundType, same_sale, MAX_SEED_INVESTORS};

verus! {

/// The value an optional parameter patches in, or the current value where
/// none was given.
pub open spec fn opt_or<T>(patch: Option<T>, current: T) -> T {
    match patch {
        Some(v) => v,
        None => current,
    }
}

/// Why `add_seed_investor` refuses, or `None` where it accepts: only the
/// authority may add, an investor may be listed once, and the whitelist is
/// bounded.
pub open spec fn add_investor_error(ico: IcoAccount, caller: Pubkey, investor: Pubkey) -> Option<
    IcoError,
> {
    if caller != ico.authority {
        Some(IcoError::Unauthorized)
    } else if ico.seed_investors@.contains(investor) {
        Some(IcoError::InvestorAlreadyExists)
    } else if ico.seed_investors@.len() >= MAX_SEED_INVESTORS {
        Some(IcoError::CapacityExceeded)
    } else {
        None
    }
}

/// Why `end_ico` refuses, or `None` where it accepts: the sale can be ended
/// only once its window has closed.
pub open spec fn end_error(ico: IcoAccount, now: i64) -> Option<IcoError> {
    if now < ico.end_time() {
        Some(IcoError::IcoStillActive)
    } else {
        None
    }
}

/// Create a sale record. The whole configuration comes from the caller; no
/// tokens are sold yet and the sale starts out active. The window bounds in
/// the precondition are the sale invariant: a span of non-negative epoch
/// seconds whose end fits the time type.
pub fn initialize(
    authority: Pubkey,
    token_mint: Pubkey,
    total_supply: u64,
    token_price: u64,
    start_time: i64,
    duration: i64,
    round_type: RoundType,
) -> (ico: IcoAccount)
    requires
        0 <= start_time,
        0 <= duration,
        start_time + duration <= i64::MAX,
    ensures
        ico.authority == authority,
        ico.token_mint == token_mint,
        ico.total_supply == total_supply,
        ico.token_price == token_price,
        ico.tokens_sold == 0,
        ico.start_time == start_time,
        ico.duration == duration,
        ico.is_active,
        ico.round_type == round_type,
        ico.seed_investors@.len() == 0,
        ico.total_investors == 0,
        ico.purchase_counter == 0,
        ico.well_formed(),
{
    IcoAccount {
        authority,
        token_mint,
        total_supply,
        token_price,
        tokens_sold: 0,
        start_time,
        duration,
        is_active: true,
        round_type,
        seed_investors: Vec::new(),
        total_investors: 0,
        purchase_counter: 0,
    }
}

/// Patch the sale's configuration: each parameter given as `Some` replaces
/// the stored value, the rest stay. Only the authority may update; any other
/// caller is refused with `Unauthorized` and nothing changes. The
/// precondition asks of an authorized patch only that it keep the sale
/// invariant: the new supply covers what is already sold, and the new window
/// is well defined.
pub fn update_ico_parameters(
    ico: &mut IcoAccount,
    caller: Pubkey,
    total_supply: Option<u64>,
    token_price: Option<u64>,
    start_time: Option<i64>,
    duration: Option<i64>,
    round_type: Option<RoundType>,
) -> (result: Result<(), IcoError>)
    requires
        old(ico).well_formed(),
        caller == old(ico).authority ==> {
            &&& old(ico).tokens_sold <= opt_or(total_supply, old(ico).total_supply)
            &&& 0 <= opt_or(start_time, old(ico).start_time)
            &&& 0 <= opt_or(duration, old(ico).duration)
            &&& opt_or(start_time, old(ico).start_time) + opt_or(duration, old(ico).duration)
                <= i64::MAX
        },
    ensures
        final(ico).well_formed(),
        match result {
            Ok(()) => {
                &&& caller == old(ico).authority
                &&& final(ico).total_supply == opt_or(total_supply, old(ico).total_supply)
                &&& final(ico).token_price == opt_or(token_price, old(ico).token_price)
                &&& final(ico).start_time == opt_or(start_time, old(ico).start_time)
                &&& final(ico).duration == opt_or(duration, old(ico).duration)
                &&& final(ico).round_type == opt_or(round_type, old(ico).round_type)
                &&& final(ico).authority == old(ico).authority
                &&& final(ico).token_mint == old(ico).token_mint
                &&& final(ico).tokens_sold == old(ico).tokens_sold
                &&& final(ico).is_active == old(ico).is_active
                &&& final(ico).seed_investors@ == old(ico).seed_investors@
                &&& final(ico).total_investors == old(ico).total_investors
                &&& final(ico).purchase_counter == old(ico).purchase_counter
            },
            Err(e) => {
                &&& e == IcoError::Unauthorized
                &&& caller != old(ico).authority
                &&& same_sale(*final(ico), *old(ico))
            },
        },
{
    if caller != ico.authority {
        return Err(IcoError::Unauthorized);
    }
    if let Some(supply) = total_supply {
        ico.total_supply = supply;
    }
    if let Some(price) = token_price {
        ico.token_price = price;
    }
    if let Some(start) = start_time {
        ico.start_time = start;
    }
    if let Some(dur) = duration {
        ico.duration = dur;
    }
    if let Some(round) = round_type {
        ico.round_type = round;
    }
    Ok(())
}

/// Whether the whitelist holds the given investor.
pub(crate) fn whitelist_contains(investors: &Vec<Pubkey>, investor: Pubkey) -> (found: bool)
    ensures
        found == investors@.contains(investor),
{
    let n = investors.len();
    let mut i: usize = 0;
    while i < n
        invariant
            i <= n,
            n == investors@.len(),
            forall|k: int| 0 <= k < i ==> investors@[k] != investor,
        decreases n - i,
    {
        if investors[i] == investor {
            assert(investors@[i as int] == investor);
            return true;
        }
        i = i + 1;
    }
    false
}

/// Append an investor to the seed-round whitelist. Only the authority may
/// add; an investor already listed is refused with `InvestorAlreadyExists`,
/// and a full whitelist with `CapacityExceeded`. On refusal nothing changes.
pub fn add_seed_investor(ico: &mut IcoAccount, caller: Pubkey, investor: Pubkey) -> (result:
    Result<(), IcoError>)
    requires
        old(ico).well_formed(),
    ensures
        final(ico).well_formed(),
        match result {
            Ok(()) => {
                &&& add_investor_error(*old(ico), caller, investor) is None
                &&& final(ico).seed_investors@ == old(ico).seed_investors@.push(investor)
                &&& final(ico).authority == old(ico).authority
                &&& final(ico).token_mint == old(ico).token_mint
                &&& final(ico).total_supply == old(ico).total_supply
                &&& final(ico).token_price == old(ico).token_price
                &&& final(ico).tokens_sold == old(ico).tokens_sold
                &&& final(ico).start_time == old(ico).start_time
                &&& final(ico).duration == old(ico).duration
                &&& final(ico).is_active == old(ico).is_active
                &&& final(ico).round_type == old(ico).round_type
                &&& final(ico).total_investors == old(ico).total_investors
                &&& final(ico).purchase_counter == old(ico).purchase_counter
            },
            Err(e) => {
                &&& add_investor_error(*old(ico), caller, investor) == Some(e)
                &&& same_sale(*final(ico), *old(ico))
            },
        },
{
    if caller != ico.authority {
        return Err(IcoError::Unauthorized);
    }
    if whitelist_contains(&ico.seed_investors, investor) {
        return Err(IcoError::InvestorAlreadyExists);
    }
    if ico.seed_investors.len() >= MAX_SEED_INVESTORS {
        return Err(IcoError::CapacityExceeded);
    }
    ico.seed_investors.push(investor);
    proof {
        let s = old(ico).seed_investors@;
        assert forall|p: int, q: int|
            0 <= p < q < s.push(investor).len() implies s.push(investor)[p] != s.push(investor)[q]
        by {
            if q < s.len() {
            } else {
                assert(s.push(investor)[q] == investor);
                assert(s.push(investor)[p] == s[p]);
                assert(!s.contains(investor));
            }
        }
    }
    Ok(())
}

/// Drop an investor from the seed-round whitelist. Only the authority may
/// remove. Removing an identity that is not listed succeeds as a no-op; a
/// listed identity leaves the list entirely, the order of the others kept.
#[verifier::loop_isolation(false)]
pub fn remove_seed_investor(ico: &mut IcoAccount, caller: Pubkey, investor: Pubkey) -> (result:
    Result<(), IcoError>)
    requires
        old(ico).well_formed(),
    ensures
        final(ico).well_formed(),
        match result {
            Ok(()) => {
                &&& caller == old(ico).authority
                &&& !final(ico).seed_investors@.contains(investor)
                &&& (if old(ico).seed_investors@.contains(investor) {
                    final(ico).seed_investors@ == old(ico).seed_investors@.remove(
                        old(ico).seed_investors@.index_of(investor),
                    )
                } else {
                    final(ico).seed_investors@ == old(ico).seed_investors@
                })
                &&& final(ico).authority == old(ico).authority
                &&& final(ico).token_mint == old(ico).token_mint
                &&& final(ico).total_supply == old(ico).total_supply
                &&& final(ico).token_price == old(ico).token_price
                &&& final(ico).tokens_sold == old(ico).tokens_sold
                &&& final(ico).start_time == old(ico).start_time
                &&& final(ico).duration == old(ico).duration
                &&& final(ico).is_active == old(ico).is_active
                &&& final(ico).round_type == old(ico).round_type
                &&& final(ico).total_investors == old(ico).total_investors
                &&& final(ico).purchase_counter == old(ico).purchase_counter
            },
            Err(e) => {
                &&& e == IcoError::Unauthorized
                &&& caller != old(ico).authority
                &&& same_sale(*final(ico), *old(ico))
            },
        },
{
    if caller != ico.authority {
        return Err(IcoError::Unauthorized);
    }
    let n = ico.seed_investors.len();
    let mut i: usize = 0;
    while i < n
        invariant
            i <= n,
            n == ico.seed_investors@.len(),
            same_sale(*ico, *old(ico)),
            forall|k: int| 0 <= k < i ==> ico.seed_investors@[k] != investor,
        decreases n - i,
    {
        if ico.seed_investors[i] == investor {
            let ghost s = ico.seed_investors@;
            ico.seed_investors.remove(i);
            proof {
                lemma_remove_unique(s, investor, i as int);
            }
            return Ok(());
        }
        i = i + 1;
    }
    Ok(())
}

/// A sequence without duplicates loses its only occurrence of `x` when the
/// index holding `x` is removed, and the index found is the one `index_of`
/// names.
proof fn lemma_remove_unique(s: Seq<Pubkey>, x: Pubkey, i: int)
    requires
        s.no_duplicates(),
        0 <= i < s.len(),
        s[i] == x,
    ensures
        !s.remove(i).contains(x),
        s.remove(i).no_duplicates(),
        i == s.index_of(x),
        s.remove(i).len() == s.len() - 1,
{
    let r = s.remove(i);
    assert forall|k: int| 0 <= k < r.len() implies r[k] != x by {
        if k < i {
            assert(r[k] == s[k]);
        } else {
            assert(r[k] == s[k + 1]);
        }
    }
    assert forall|p: int, q: int| 0 <= p < q < r.len() implies r[p] != r[q] by {
        let sp = if p < i { p } else { p + 1 };
        let sq = if q < i { q } else { q + 1 };
        assert(r[p] == s[sp]);
        assert(r[q] == s[sq]);
    }
    assert(s.contains(x));
    let j = s.index_of(x);
    assert(0 <= j < s.len() && s[j] == x);
    assert(i == j);
}

/// Close the sale. Anyone may end it, but only once its window has closed;
/// before that the call is refused with `IcoStillActive` and nothing
/// changes. Ending only clears the active flag — sold tokens and the rest of
/// the record stay as they are, and nothing ever sets the flag again.
pub fn end_ico(ico: &mut IcoAccount, now: i64) -> (result: Result<(), IcoError>)
    requires
        old(ico).well_formed(),
    ensures
        final(ico).well_formed(),
        match result {
            Ok(()) => {
                &&& end_error(*old(ico), now) is None
                &&& !final(ico).is_active
                &&& final(ico).authority == old(ico).authority
                &&& final(ico).token_mint == old(ico).token_mint
                &&& final(ico).total_supply == old(ico).total_supply
                &&& final(ico).token_price == old(ico).token_price
                &&& final(ico).tokens_sold == old(ico).tokens_sold
                &&& final(ico).start_time == old(ico).start_time
                &&& final(ico).duration == old(ico).duration
                &&& final(ico).round_type == old(ico).round_type
                &&& final(ico).seed_investors@ == old(ico).seed_investors@
                &&& final(ico).total_investors == old(ico).total_investors
                &&& final(ico).purchase_counter == old(ico).purchase_counter
            },
            Err(e) => {
                &&& end_error(*old(ico), now) == Some(e)
                &&& same_sale(*final(ico), *old(ico))
            },
        },
{
    if now < ico.start_time + ico.duration {
        return Err(IcoError::IcoStillActive);
    }
    ico.is_active = false;
    Ok(())
}

/// Law: ending the sale is final in effect. Once one end call has gone
/// through, the sale is inactive; a later end call is also accepted, and
/// however many follow, none reactivates the sale.
pub proof fn lemma_end_sale_is_final(pre: IcoAccount, mid: IcoAccount, now1: i64, now2: i64)
    requires
        end_error(pre, now1) is None,
        !mid.is_active,
        mid.start_time == pre.start_time,
        mid.duration == pre.duration,
        now1 <= now2,
    ensures
        end_error(mid, now2) is None,
        !mid.is_active,
{
}

/// Enumerate the whitelist: a copy of the seed investors, in the order they
/// were added.
pub fn get_seed_investors(ico: &IcoAccount) -> (investors: Vec<Pubkey>)
    ensures
        investors@ == ico.seed_investors@,
{
    let n = ico.seed_investors.len();
    let mut investors: Vec<Pubkey> = Vec::new();
    let mut i: usize = 0;
    while i < n
        invariant
            i <= n,
            n == ico.seed_investors@.len(),
            investors@ == ico.seed_investors@.subrange(0, i as int),
        decreases n - i,
    {
        investors.push(ico.seed_investors[i]);
        proof {
            assert(investors@ =~= ico.seed_investors@.subrange(0, i + 1));
        }
        i = i + 1;
    }
    proof {
        assert(investors@ =~= ico.seed_investors@);
    }
    investors
}

} // verus!
