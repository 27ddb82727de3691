use ico_sale::errors::IcoError;
use ico_sale::sale::{
    add_seed_investor, end_ico, get_seed_investors, initialize, remove_seed_investor,
    update_ico_parameters,
};
use ico_sale::state::{check_well_formed, IcoAccount, Pubkey, RoundType, MAX_SEED_INVESTORS};

fn key(id: u64) -> Pubkey {
    Pubkey { id }
}

fn fresh_sale(round: RoundType) -> IcoAccount {
    initialize(key(1), key(2), 100, 10, 1000, 1000, round)
}

#[test]
fn initialize_sets_every_field() {
    let ico = fresh_sale(RoundType::PreICO);
    assert_eq!(ico.authority, key(1));
    assert_eq!(ico.token_mint, key(2));
    assert_eq!(ico.total_supply, 100);
    assert_eq!(ico.token_price, 10);
    assert_eq!(ico.tokens_sold, 0);
    assert_eq!(ico.start_time, 1000);
    assert_eq!(ico.duration, 1000);
    assert!(ico.is_active);
    assert_eq!(ico.round_type, RoundType::PreICO);
    assert!(ico.seed_investors.is_empty());
    assert_eq!(ico.total_investors, 0);
    assert_eq!(ico.purchase_counter, 0);
    assert!(check_well_formed(&ico));
}

#[test]
fn default_round_is_seed() {
    assert_eq!(RoundType::default(), RoundType::SeedRound);
}

#[test]
fn add_then_duplicate_add_fails() {
    let mut ico = fresh_sale(RoundType::SeedRound);
    let x = key(7);
    assert_eq!(add_seed_investor(&mut ico, key(1), x), Ok(()));
    assert_eq!(ico.seed_investors, vec![x]);
    assert_eq!(
        add_seed_investor(&mut ico, key(1), x),
        Err(IcoError::InvestorAlreadyExists)
    );
    assert_eq!(ico.seed_investors, vec![x]);
}

#[test]
fn remove_absent_investor_is_a_noop() {
    let mut ico = fresh_sale(RoundType::SeedRound);
    assert_eq!(add_seed_investor(&mut ico, key(1), key(7)), Ok(()));
    assert_eq!(remove_seed_investor(&mut ico, key(1), key(8)), Ok(()));
    assert_eq!(ico.seed_investors, vec![key(7)]);
}

#[test]
fn remove_present_investor_keeps_order() {
    let mut ico = fresh_sale(RoundType::SeedRound);
    for id in [7, 8, 9] {
        assert_eq!(add_seed_investor(&mut ico, key(1), key(id)), Ok(()));
    }
    assert_eq!(remove_seed_investor(&mut ico, key(1), key(8)), Ok(()));
    assert_eq!(ico.seed_investors, vec![key(7), key(9)]);
}

#[test]
fn whitelist_is_bounded() {
    let mut ico = fresh_sale(RoundType::SeedRound);
    for id in 0..MAX_SEED_INVESTORS as u64 {
        assert_eq!(add_seed_investor(&mut ico, key(1), key(100 + id)), Ok(()));
    }
    assert_eq!(ico.seed_investors.len(), MAX_SEED_INVESTORS);
    assert_eq!(
        add_seed_investor(&mut ico, key(1), key(5000)),
        Err(IcoError::CapacityExceeded)
    );
    assert_eq!(ico.seed_investors.len(), MAX_SEED_INVESTORS);
}

#[test]
fn only_the_authority_manages_the_whitelist() {
    let mut ico = fresh_sale(RoundType::SeedRound);
    let stranger = key(99);
    assert_eq!(
        add_seed_investor(&mut ico, stranger, key(7)),
        Err(IcoError::Unauthorized)
    );
    assert_eq!(add_seed_investor(&mut ico, key(1), key(7)), Ok(()));
    assert_eq!(
        remove_seed_investor(&mut ico, stranger, key(7)),
        Err(IcoError::Unauthorized)
    );
    assert_eq!(ico.seed_investors, vec![key(7)]);
}

#[test]
fn update_patches_only_the_given_fields() {
    let mut ico = fresh_sale(RoundType::SeedRound);
    assert_eq!(
        update_ico_parameters(
            &mut ico,
            key(1),
            Some(500),
            None,
            None,
            Some(2000),
            Some(RoundType::PublicICO),
        ),
        Ok(())
    );
    assert_eq!(ico.total_supply, 500);
    assert_eq!(ico.token_price, 10);
    assert_eq!(ico.start_time, 1000);
    assert_eq!(ico.duration, 2000);
    assert_eq!(ico.round_type, RoundType::PublicICO);
}

#[test]
fn update_by_a_stranger_fails() {
    let mut ico = fresh_sale(RoundType::SeedRound);
    assert_eq!(
        update_ico_parameters(&mut ico, key(99), Some(500), None, None, None, None),
        Err(IcoError::Unauthorized)
    );
    assert_eq!(ico.total_supply, 100);
}

#[test]
fn end_before_the_window_closes_fails() {
    let mut ico = fresh_sale(RoundType::SeedRound);
    assert_eq!(end_ico(&mut ico, 1999), Err(IcoError::IcoStillActive));
    assert!(ico.is_active);
}

#[test]
fn end_at_the_window_close_succeeds_and_is_final() {
    let mut ico = fresh_sale(RoundType::SeedRound);
    assert_eq!(end_ico(&mut ico, 2000), Ok(()));
    assert!(!ico.is_active);
    assert_eq!(end_ico(&mut ico, 3000), Ok(()));
    assert!(!ico.is_active);
}

#[test]
fn get_seed_investors_lists_in_insertion_order() {
    let mut ico = fresh_sale(RoundType::SeedRound);
    for id in [5, 3, 4] {
        assert_eq!(add_seed_investor(&mut ico, key(1), key(id)), Ok(()));
    }
    assert_eq!(get_seed_investors(&ico), vec![key(5), key(3), key(4)]);
}

#[test]
fn error_messages_name_the_failure() {
    assert_eq!(
        IcoError::IcoNotActive.message(),
        "ICO is not currently active"
    );
    assert_eq!(
        IcoError::NotWhitelisted.message(),
        "Investor is not whitelisted for the seed round"
    );
    assert_eq!(
        IcoError::MathOverflow.message(),
        "Mathematical overflow occurred"
    );
}

#[test]
fn check_well_formed_rejects_a_broken_record() {
    let mut ico = fresh_sale(RoundType::SeedRound);
    ico.tokens_sold = 101;
    assert!(!check_well_formed(&ico));
    ico.tokens_sold = 0;
    ico.seed_investors = vec![key(7), key(7)];
    assert!(!check_well_formed(&ico));
}
