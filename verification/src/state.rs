use vstd::prelude::*;

verus! {

/// A participant identity on the host chain. The sale logic reads nothing of
/// an identity but whether two are the same, so it is modeled as a plain
/// integer key; the host glue maps real account addresses to these keys.
#[derive(Clone, Copy, Debug, Hash, PartialEq, Eq, Structural)]
pub struct Pubkey {
    pub id: u64,
}

/// The fundraising round the sale is currently in. Only the seed round
/// consults the investor whitelist.
#[derive(Clone, Copy, Debug, PartialEq, Eq, Structural)]
pub enum RoundType {
    SeedRound,
    PreICO,
    PublicICO,
}

impl Default for RoundType {
    fn default() -> (round: Self)
        ensures
            round == RoundType::SeedRound,
    {
        RoundType::SeedRound
    }
}

/// The most investors the whitelist may hold; the host allocates the sale
/// record with room for exactly this many entries.
pub const MAX_SEED_INVESTORS: usize = 100;

/// One sale instance: its configuration, its whitelist and its running
/// counters.
#[derive(Clone, Debug)]
pub struct IcoAccount {
    /// The identity permitted to administer the sale.
    pub authority: Pubkey,
    /// The token being sold.
    pub token_mint: Pubkey,
    /// How many token units the sale may sell in total.
    pub total_supply: u64,
    /// The cost of one token unit, in payment units.
    pub token_price: u64,
    /// How many token units have been sold so far; never exceeds
    /// `total_supply`.
    pub tokens_sold: u64,
    /// When the sale window opens, in epoch seconds.
    pub start_time: i64,
    /// How long the sale window stays open, in seconds; the window is
    /// `[start_time, start_time + duration)`.
    pub duration: i64,
    /// True from creation until the sale is explicitly ended.
    pub is_active: bool,
    /// The current fundraising round.
    pub round_type: RoundType,
    /// The whitelist consulted during the seed round.
    pub seed_investors: Vec<Pubkey>,
    /// How many purchases have been accepted (one buyer per purchase).
    pub total_investors: u64,
    /// A running purchase sequence number; the host keys each purchase
    /// record by it.
    pub purchase_counter: u64,
}

/// One accepted purchase, awaiting settlement.
#[derive(Clone, Copy, Debug, PartialEq, Eq, Structural)]
pub struct PurchaseAccount {
    /// Who bought.
    pub buyer: Pubkey,
    /// How many token units were bought.
    pub amount: u64,
    /// Whether the bought tokens have been handed out; set true exactly
    /// once, never reset.
    pub is_distributed: bool,
    /// When the purchase was accepted, in epoch seconds.
    pub timestamp: i64,
    /// The sale this purchase belongs to.
    pub ico: Pubkey,
}

/// The notification a successful purchase emits for observers.
#[derive(Clone, Copy, Debug, PartialEq, Eq, Structural)]
pub struct TokenPurchaseEvent {
    pub buyer: Pubkey,
    pub amount: u64,
    pub price: u64,
    pub timestamp: i64,
}

/// The notification a successful distribution emits for observers.
#[derive(Clone, Copy, Debug, PartialEq, Eq, Structural)]
pub struct PurchaseEvent {
    pub buyer: Pubkey,
    pub amount: u64,
    pub is_distributed: bool,
}

impl IcoAccount {
    /// The sale record's invariant: sales never exceed the supply, the sale
    /// window is a well-defined span of non-negative epoch seconds, and the
    /// whitelist holds each investor once and fits its allocation. Every
    /// constructor establishes it and every operation preserves it.
    pub open spec fn well_formed(self) -> bool {
        &&& self.tokens_sold <= self.total_supply
        &&& 0 <= self.start_time
        &&& 0 <= self.duration
        &&& self.start_time + self.duration <= i64::MAX
        &&& self.seed_investors@.no_duplicates()
        &&& self.seed_investors@.len() <= MAX_SEED_INVESTORS
    }

    /// When the sale window closes: `start_time + duration`, as a
    /// mathematical integer.
    pub open spec fn end_time(self) -> int {
        self.start_time + self.duration
    }
}

/// Two sale records hold exactly the same state, field for field.
pub open spec fn same_sale(a: IcoAccount, b: IcoAccount) -> bool {
    &&& a.authority == b.authority
    &&& a.token_mint == b.token_mint
    &&& a.total_supply == b.total_supply
    &&& a.token_price == b.token_price
    &&& a.tokens_sold == b.tokens_sold
    &&& a.start_time == b.start_time
    &&& a.duration == b.duration
    &&& a.is_active == b.is_active
    &&& a.round_type == b.round_type
    &&& a.seed_investors@ == b.seed_investors@
    &&& a.total_investors == b.total_investors
    &&& a.purchase_counter == b.purchase_counter
}

/// Decide whether a sale record satisfies its invariant. Unverified callers
/// use this before handing a record they built themselves to the library.
pub fn check_well_formed(ico: &IcoAccount) -> (ok: bool)
    ensures
        ok == ico.well_formed(),
{
    if ico.tokens_sold > ico.total_supply {
        return false;
    }
    if ico.start_time < 0 || ico.duration < 0 {
        return false;
    }
    if ico.duration > i64::MAX - ico.start_time {
        return false;
    }
    if ico.seed_investors.len() > MAX_SEED_INVESTORS {
        return false;
    }
    let n = ico.seed_investors.len();
    let mut i: usize = 0;
    while i < n
        invariant
            i <= n,
            n == ico.seed_investors@.len(),
            forall|p: int, q: int|
                0 <= p < q < ico.seed_investors@.len() && p < i ==> ico.seed_investors@[p]
                    != ico.seed_investors@[q],
        decreases n - i,
    {
        let mut j: usize = i + 1;
        while j < n
            invariant
                i < j <= n,
                n == ico.seed_investors@.len(),
                forall|q: int| i < q < j ==> ico.seed_investors@[i as int] != ico.seed_investors@[q],
            decreases n - j,
        {
            if ico.seed_investors[i] == ico.seed_investors[j] {
                return false;
            }
            j = j + 1;
        }
        i = i + 1;
    }
    true
}

} // verus!
