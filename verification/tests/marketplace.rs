use nft_marketplace::ledger::Ledger;
use nft_marketplace::storage_types::{
    Address, AddressKind, DataKey, Listing, MarketError, NFTToken, TokenMetadata,
};
use nft_marketplace::StellarNFTMarketplace;

fn account(n: u128) -> Address {
    Address { kind: AddressKind::Account, high: 0, low: n }
}

fn contract(n: u128) -> Address {
    Address { kind: AddressKind::Contract, high: n, low: 0 }
}

fn text(s: &str) -> String {
    String::from(s)
}

fn set_up(env: &mut Ledger, admin: Address, royalty: u32, r: Address, fee: u32, p: Address) {
    let done = StellarNFTMarketplace::initialize(
        env,
        admin,
        text("Stellar Birds"),
        text("BIRD"),
        text("Birds of the ledger"),
        text("ipfs://birds/"),
        royalty,
        r,
        fee,
        p,
    );
    assert_eq!(done, Ok(()));
}

#[test]
fn sale_splits_price_and_moves_token() {
    let (admin, r, p, a, b) = (account(1), account(2), contract(3), account(4), account(5));
    let mut env = Ledger::new();
    set_up(&mut env, admin, 250, r, 100, p);
    let id = StellarNFTMarketplace::mint(&mut env, a, text("ipfs://birds/0"));
    assert_eq!(id, 0);
    let listing = StellarNFTMarketplace::list_token(&mut env, a, 0, 1_000_000);
    assert_eq!(listing, Ok(Listing { token_id: 0, price: 1_000_000, seller: a }));
    let split = StellarNFTMarketplace::buy_token(&mut env, b, 0).unwrap();
    assert_eq!(nft_marketplace::balance::get_token_owner(&env, 0), Ok(b));
    assert_eq!(split.price, 1_000_000);
    assert_eq!(split.royalty_amount, 25_000);
    assert_eq!(split.platform_fee_amount, 10_000);
    assert_eq!(split.seller_amount, 965_000);
    assert_eq!(split.royalty_recipient, r);
    assert_eq!(split.platform_address, p);
    assert_eq!(split.seller, a);
    assert!(!StellarNFTMarketplace::is_token_listed(&env, 0));
    assert_eq!(StellarNFTMarketplace::get_token_listing(&env, 0), None);
}

#[test]
fn approved_delegate_transfers_token_it_never_owned() {
    let (a, c, d) = (account(10), account(11), account(12));
    let mut env = Ledger::new();
    assert_eq!(StellarNFTMarketplace::mint(&mut env, a, text("u0")), 0);
    assert_eq!(StellarNFTMarketplace::approve(&mut env, a, d, 0), Ok(()));
    assert!(StellarNFTMarketplace::is_approved(&env, 0, d));
    assert_eq!(StellarNFTMarketplace::transfer(&mut env, d, c, 0), Ok(()));
    assert_eq!(nft_marketplace::balance::get_token_owner(&env, 0), Ok(c));
}

#[test]
fn transfer_uses_up_the_approval_of_the_sender() {
    let (a, c, d, e) = (account(10), account(11), account(12), account(13));
    let mut env = Ledger::new();
    StellarNFTMarketplace::mint(&mut env, a, text("u0"));
    assert_eq!(StellarNFTMarketplace::approve(&mut env, a, d, 0), Ok(()));
    assert_eq!(StellarNFTMarketplace::approve(&mut env, a, e, 0), Ok(()));
    assert_eq!(StellarNFTMarketplace::transfer(&mut env, d, c, 0), Ok(()));
    assert!(!StellarNFTMarketplace::is_approved(&env, 0, d));
    assert!(StellarNFTMarketplace::is_approved(&env, 0, e));
    assert_eq!(StellarNFTMarketplace::transfer(&mut env, d, a, 0), Err(MarketError::Unauthorized));
    assert_eq!(nft_marketplace::balance::get_token_owner(&env, 0), Ok(c));
    assert_eq!(StellarNFTMarketplace::transfer(&mut env, e, a, 0), Ok(()));
    assert_eq!(nft_marketplace::balance::get_token_owner(&env, 0), Ok(a));
}

#[test]
fn revoking_withdraws_one_approval() {
    let (a, d, e) = (account(10), account(12), account(13));
    let mut env = Ledger::new();
    StellarNFTMarketplace::mint(&mut env, a, text("u0"));
    StellarNFTMarketplace::mint(&mut env, a, text("u1"));
    nft_marketplace::allowance::set_approval(&mut env, 0, &d);
    nft_marketplace::allowance::set_approval(&mut env, 0, &e);
    nft_marketplace::allowance::set_approval(&mut env, 1, &d);
    nft_marketplace::allowance::set_approval(&mut env, 0, &d);
    nft_marketplace::allowance::revoke_approval(&mut env, 0, &d);
    assert!(!nft_marketplace::allowance::check_approval(&env, 0, &d));
    assert!(nft_marketplace::allowance::check_approval(&env, 0, &e));
    assert!(nft_marketplace::allowance::check_approval(&env, 1, &d));
    nft_marketplace::allowance::revoke_approval(&mut env, 0, &d);
    nft_marketplace::allowance::revoke_approval(&mut env, 7, &a);
    assert!(!nft_marketplace::allowance::check_approval(&env, 0, &d));
    assert!(nft_marketplace::allowance::check_approval(&env, 0, &e));
}

#[test]
fn owner_is_known_exactly_below_the_supply() {
    let a = account(1);
    let mut env = Ledger::new();
    assert_eq!(StellarNFTMarketplace::get_token_count(&env), 0);
    assert_eq!(nft_marketplace::balance::get_token_owner(&env, 0), Err(MarketError::TokenNotFound));
    assert_eq!(StellarNFTMarketplace::get_token(&env, 0), Err(MarketError::TokenNotFound));
    for n in 0..3u64 {
        assert_eq!(StellarNFTMarketplace::mint(&mut env, a, text("u")), n);
    }
    for id in 0..3u64 {
        assert_eq!(nft_marketplace::balance::get_token_owner(&env, id), Ok(a));
        assert!(nft_marketplace::balance::token_exists(&env, id));
    }
    for id in [3u64, 4, 1000, u64::MAX] {
        assert_eq!(
            nft_marketplace::balance::get_token_owner(&env, id),
            Err(MarketError::TokenNotFound)
        );
        assert!(!nft_marketplace::balance::token_exists(&env, id));
        assert_eq!(StellarNFTMarketplace::get_token(&env, id), Err(MarketError::TokenNotFound));
    }
}

#[test]
fn mint_adds_one_token_with_owner_and_uri() {
    let (a, b) = (account(1), account(2));
    let mut env = Ledger::new();
    StellarNFTMarketplace::mint(&mut env, a, text("first"));
    let before = StellarNFTMarketplace::get_token_count(&env);
    let k = StellarNFTMarketplace::mint(&mut env, b, text("ipfs://second"));
    assert_eq!(k, before);
    assert_eq!(StellarNFTMarketplace::get_token_count(&env), before + 1);
    assert_eq!(nft_marketplace::balance::get_token_owner(&env, k), Ok(b));
    assert_eq!(nft_marketplace::metadata::get_token_uri(&env, k), "ipfs://second");
    assert_eq!(
        StellarNFTMarketplace::get_token(&env, k),
        Ok(NFTToken { token_id: k, owner: b, uri: text("ipfs://second") })
    );
    assert_eq!(nft_marketplace::balance::get_token_owner(&env, 0), Ok(a));
    assert_eq!(nft_marketplace::metadata::get_token_uri(&env, 0), "first");
}

#[test]
fn refused_transfer_changes_no_owner() {
    let (a, b, c) = (account(1), account(2), account(3));
    let mut env = Ledger::new();
    StellarNFTMarketplace::mint(&mut env, a, text("u"));
    assert_eq!(StellarNFTMarketplace::transfer(&mut env, b, c, 0), Err(MarketError::Unauthorized));
    assert_eq!(nft_marketplace::balance::get_token_owner(&env, 0), Ok(a));
    assert_eq!(StellarNFTMarketplace::transfer(&mut env, a, c, 1), Err(MarketError::TokenNotFound));
    assert_eq!(nft_marketplace::balance::get_token_owner(&env, 0), Ok(a));
    assert_eq!(
        nft_marketplace::balance::get_token_owner(&env, 1),
        Err(MarketError::TokenNotFound)
    );
    StellarNFTMarketplace::list_token(&mut env, a, 0, 5).unwrap();
    assert_eq!(
        StellarNFTMarketplace::transfer(&mut env, a, c, 0),
        Err(MarketError::TokenCurrentlyListed)
    );
    assert_eq!(nft_marketplace::balance::get_token_owner(&env, 0), Ok(a));
    assert_eq!(StellarNFTMarketplace::get_token_count(&env), 1);
}

#[test]
fn owner_transfers_its_token() {
    let (a, b) = (account(1), account(2));
    let mut env = Ledger::new();
    StellarNFTMarketplace::mint(&mut env, a, text("u"));
    assert_eq!(StellarNFTMarketplace::transfer(&mut env, a, b, 0), Ok(()));
    assert_eq!(nft_marketplace::balance::get_token_owner(&env, 0), Ok(b));
    assert_eq!(StellarNFTMarketplace::transfer(&mut env, a, b, 0), Err(MarketError::Unauthorized));
}

#[test]
fn listed_token_is_frozen_until_cancelled() {
    let (a, b) = (account(1), account(2));
    let mut env = Ledger::new();
    StellarNFTMarketplace::mint(&mut env, a, text("u"));
    StellarNFTMarketplace::list_token(&mut env, a, 0, 77).unwrap();
    assert_eq!(
        StellarNFTMarketplace::transfer(&mut env, a, b, 0),
        Err(MarketError::TokenCurrentlyListed)
    );
    StellarNFTMarketplace::mint(&mut env, b, text("v"));
    assert_eq!(
        StellarNFTMarketplace::transfer(&mut env, a, b, 0),
        Err(MarketError::TokenCurrentlyListed)
    );
    assert_eq!(StellarNFTMarketplace::cancel_listing(&mut env, a, 0), Ok(()));
    assert!(!StellarNFTMarketplace::is_token_listed(&env, 0));
    assert_eq!(StellarNFTMarketplace::transfer(&mut env, a, b, 0), Ok(()));
    assert_eq!(nft_marketplace::balance::get_token_owner(&env, 0), Ok(b));
}

#[test]
fn listed_token_is_frozen_until_bought() {
    let (a, b, c) = (account(1), account(2), account(3));
    let mut env = Ledger::new();
    StellarNFTMarketplace::mint(&mut env, a, text("u"));
    StellarNFTMarketplace::approve(&mut env, a, c, 0).unwrap();
    StellarNFTMarketplace::list_token(&mut env, a, 0, 77).unwrap();
    assert_eq!(
        StellarNFTMarketplace::transfer(&mut env, c, b, 0),
        Err(MarketError::TokenCurrentlyListed)
    );
    StellarNFTMarketplace::buy_token(&mut env, b, 0).unwrap();
    assert_eq!(StellarNFTMarketplace::transfer(&mut env, b, a, 0), Ok(()));
    assert_eq!(nft_marketplace::balance::get_token_owner(&env, 0), Ok(a));
}

#[test]
fn second_purchase_is_refused() {
    let (a, b, c) = (account(1), account(2), account(3));
    let mut env = Ledger::new();
    StellarNFTMarketplace::mint(&mut env, a, text("u"));
    StellarNFTMarketplace::list_token(&mut env, a, 0, 10).unwrap();
    assert!(StellarNFTMarketplace::buy_token(&mut env, b, 0).is_ok());
    assert_eq!(StellarNFTMarketplace::buy_token(&mut env, b, 0), Err(MarketError::NotListed));
    assert_eq!(StellarNFTMarketplace::buy_token(&mut env, c, 0), Err(MarketError::NotListed));
    assert_eq!(nft_marketplace::balance::get_token_owner(&env, 0), Ok(b));
}

#[test]
fn parts_of_a_sale_add_up_to_the_price() {
    let (admin, r, p, a, b) = (account(1), account(2), account(3), account(4), account(5));
    let rates: [(u32, u32); 6] =
        [(0, 0), (250, 100), (10000, 0), (0, 10000), (3333, 3333), (10000, 10000)];
    let prices: [i128; 6] = [1, 3, 9_999, 10_001, 123_456_789, i128::MAX];
    for (royalty, fee) in rates {
        for price in prices {
            let mut env = Ledger::new();
            set_up(&mut env, admin, royalty, r, fee, p);
            StellarNFTMarketplace::mint(&mut env, a, text("u"));
            StellarNFTMarketplace::list_token(&mut env, a, 0, price).unwrap();
            let split = StellarNFTMarketplace::buy_token(&mut env, b, 0).unwrap();
            assert_eq!(split.price, price);
            assert_eq!(
                split.royalty_amount + (split.platform_fee_amount + split.seller_amount),
                price
            );
            assert!(0 <= split.royalty_amount && split.royalty_amount <= price);
            assert!(0 <= split.platform_fee_amount && split.platform_fee_amount <= price);
        }
    }
}

#[test]
fn fees_round_down() {
    let (admin, r, p, a, b) = (account(1), account(2), account(3), account(4), account(5));
    let mut env = Ledger::new();
    set_up(&mut env, admin, 250, r, 100, p);
    StellarNFTMarketplace::mint(&mut env, a, text("u"));
    StellarNFTMarketplace::list_token(&mut env, a, 0, 9_999).unwrap();
    let split = StellarNFTMarketplace::buy_token(&mut env, b, 0).unwrap();
    assert_eq!(split.royalty_amount, 249);
    assert_eq!(split.platform_fee_amount, 99);
    assert_eq!(split.seller_amount, 9_651);
    StellarNFTMarketplace::list_token(&mut env, b, 0, 39).unwrap();
    let split = StellarNFTMarketplace::buy_token(&mut env, a, 0).unwrap();
    assert_eq!(split.royalty_amount, 0);
    assert_eq!(split.platform_fee_amount, 0);
    assert_eq!(split.seller_amount, 39);
}

#[test]
fn fee_amount_takes_the_rate_of_the_price() {
    assert_eq!(nft_marketplace::fees::fee_amount(1_000_000, 250), 25_000);
    assert_eq!(nft_marketplace::fees::fee_amount(1_000_000, 100), 10_000);
    assert_eq!(nft_marketplace::fees::fee_amount(1, 9_999), 0);
    assert_eq!(nft_marketplace::fees::fee_amount(1, 10_000), 1);
    assert_eq!(nft_marketplace::fees::fee_amount(19_999, 5_000), 9_999);
    assert_eq!(nft_marketplace::fees::fee_amount(i128::MAX, 10_000), i128::MAX);
    assert_eq!(nft_marketplace::fees::fee_amount(i128::MAX, 0), 0);
    assert_eq!(
        nft_marketplace::fees::fee_amount(i128::MAX, 1),
        17_014_118_346_046_923_173_168_730_371_588_410
    );
}

#[test]
fn sale_without_configuration_uses_defaults() {
    let (a, b) = (account(4), account(5));
    let mut env = Ledger::new();
    StellarNFTMarketplace::mint(&mut env, a, text("u"));
    StellarNFTMarketplace::list_token(&mut env, a, 0, 20_000).unwrap();
    let split = StellarNFTMarketplace::buy_token(&mut env, b, 0).unwrap();
    assert_eq!(split.royalty_amount, 500);
    assert_eq!(split.platform_fee_amount, 200);
    assert_eq!(split.seller_amount, 19_300);
    assert_eq!(split.royalty_recipient, a);
    assert_eq!(split.platform_address, a);
    assert_eq!(split.seller, a);
}

#[test]
fn all_listings_are_the_listed_tokens_in_ascending_order() {
    let (a, b) = (account(1), account(2));
    let mut env = Ledger::new();
    assert_eq!(StellarNFTMarketplace::get_all_listings(&env), vec![]);
    for _ in 0..5 {
        StellarNFTMarketplace::mint(&mut env, a, text("u"));
    }
    StellarNFTMarketplace::list_token(&mut env, a, 3, 30).unwrap();
    StellarNFTMarketplace::list_token(&mut env, a, 1, 10).unwrap();
    StellarNFTMarketplace::list_token(&mut env, a, 4, 40).unwrap();
    assert_eq!(
        StellarNFTMarketplace::get_all_listings(&env),
        vec![
            Listing { token_id: 1, price: 10, seller: a },
            Listing { token_id: 3, price: 30, seller: a },
            Listing { token_id: 4, price: 40, seller: a },
        ]
    );
    StellarNFTMarketplace::cancel_listing(&mut env, a, 3).unwrap();
    StellarNFTMarketplace::buy_token(&mut env, b, 4).unwrap();
    StellarNFTMarketplace::list_token(&mut env, a, 0, 5).unwrap();
    StellarNFTMarketplace::list_token(&mut env, b, 4, 44).unwrap();
    let all = StellarNFTMarketplace::get_all_listings(&env);
    assert_eq!(
        all,
        vec![
            Listing { token_id: 0, price: 5, seller: a },
            Listing { token_id: 1, price: 10, seller: a },
            Listing { token_id: 4, price: 44, seller: b },
        ]
    );
    for id in 0..5u64 {
        let listed = StellarNFTMarketplace::is_token_listed(&env, id);
        assert_eq!(listed, all.iter().any(|l| l.token_id == id));
        assert_eq!(
            StellarNFTMarketplace::get_token_listing(&env, id),
            all.iter().find(|l| l.token_id == id).copied()
        );
    }
}

#[test]
fn tokens_by_owner_are_found_by_scan() {
    let (a, b, c) = (account(1), account(2), account(3));
    let mut env = Ledger::new();
    assert_eq!(StellarNFTMarketplace::get_tokens_by_owner(&env, a), Ok(vec![]));
    StellarNFTMarketplace::mint(&mut env, a, text("zero"));
    StellarNFTMarketplace::mint(&mut env, b, text("one"));
    StellarNFTMarketplace::mint(&mut env, a, text("two"));
    StellarNFTMarketplace::transfer(&mut env, a, b, 0).unwrap();
    assert_eq!(
        StellarNFTMarketplace::get_tokens_by_owner(&env, b),
        Ok(vec![
            NFTToken { token_id: 0, owner: b, uri: text("zero") },
            NFTToken { token_id: 1, owner: b, uri: text("one") },
        ])
    );
    assert_eq!(
        StellarNFTMarketplace::get_tokens_by_owner(&env, a),
        Ok(vec![NFTToken { token_id: 2, owner: a, uri: text("two") }])
    );
    assert_eq!(StellarNFTMarketplace::get_tokens_by_owner(&env, c), Ok(vec![]));
}

#[test]
fn tokens_by_owner_fail_where_an_owner_is_missing() {
    let a = account(1);
    let mut env = Ledger::new();
    env.set_token_count(2);
    nft_marketplace::balance::set_token_owner(&mut env, 0, &a);
    assert_eq!(
        StellarNFTMarketplace::get_tokens_by_owner(&env, a),
        Err(MarketError::TokenNotFound)
    );
    assert_eq!(StellarNFTMarketplace::get_token(&env, 1), Err(MarketError::TokenNotFound));
    assert_eq!(
        StellarNFTMarketplace::transfer(&mut env, a, a, 1),
        Err(MarketError::TokenNotFound)
    );
}

#[test]
fn setup_is_refused_the_second_time() {
    let (admin, r, p) = (account(1), account(2), account(3));
    let mut env = Ledger::new();
    set_up(&mut env, admin, 250, r, 100, p);
    let again = StellarNFTMarketplace::initialize(
        &mut env,
        account(9),
        text("n"),
        text("s"),
        text("d"),
        text("b"),
        1,
        r,
        1,
        p,
    );
    assert_eq!(again, Err(MarketError::AlreadyInitialized));
    assert_eq!(nft_marketplace::admin::read_administrator(&env), Ok(admin));
    assert_eq!(env.royalty(), Some(250));
    let overfull = StellarNFTMarketplace::initialize(
        &mut env,
        account(9),
        text("n"),
        text("s"),
        text("d"),
        text("b"),
        10_001,
        r,
        10_001,
        p,
    );
    assert_eq!(overfull, Err(MarketError::AlreadyInitialized));
}

#[test]
fn setup_refuses_a_rate_above_the_whole() {
    let (admin, r, p) = (account(1), account(2), account(3));
    for (royalty, fee) in [(10_001u32, 0u32), (0, 10_001), (u32::MAX, u32::MAX)] {
        let mut env = Ledger::new();
        let done = StellarNFTMarketplace::initialize(
            &mut env,
            admin,
            text("n"),
            text("s"),
            text("d"),
            text("b"),
            royalty,
            r,
            fee,
            p,
        );
        assert_eq!(done, Err(MarketError::InvalidFeePercentage));
        assert!(!nft_marketplace::admin::has_administrator(&env));
        assert_eq!(
            nft_marketplace::admin::read_administrator(&env),
            Err(MarketError::NotInitialized)
        );
        assert_eq!(StellarNFTMarketplace::get_token_metadata(&env), Err(MarketError::NotInitialized));
        assert!(!env.has(&DataKey::TokenCount));
    }
    let mut env = Ledger::new();
    set_up(&mut env, admin, 10_000, r, 10_000, p);
    assert_eq!(env.royalty(), Some(10_000));
    assert_eq!(env.platform_fee(), Some(10_000));
}

#[test]
fn setup_writes_configuration_and_zero_supply() {
    let (admin, r, p) = (account(1), account(2), contract(3));
    let mut env = Ledger::new();
    set_up(&mut env, admin, 300, r, 50, p);
    assert!(nft_marketplace::admin::has_administrator(&env));
    assert_eq!(nft_marketplace::admin::read_administrator(&env), Ok(admin));
    assert!(nft_marketplace::admin::check_admin(&env, &admin));
    assert!(!nft_marketplace::admin::check_admin(&env, &r));
    let expected = TokenMetadata {
        name: text("Stellar Birds"),
        symbol: text("BIRD"),
        description: text("Birds of the ledger"),
        base_uri: text("ipfs://birds/"),
    };
    assert_eq!(StellarNFTMarketplace::get_token_metadata(&env), Ok(expected.clone()));
    assert_eq!(nft_marketplace::metadata::get_metadata(&env), Ok(expected));
    assert_eq!(env.royalty(), Some(300));
    assert_eq!(env.royalty_recipient(), Some(r));
    assert_eq!(env.platform_fee(), Some(50));
    assert_eq!(env.platform_address(), Some(p));
    assert_eq!(env.token_count(), Some(0));
    assert_eq!(StellarNFTMarketplace::get_token_count(&env), 0);
}

#[test]
fn setup_after_a_mint_starts_the_count_again() {
    let (admin, a) = (account(1), account(2));
    let mut env = Ledger::new();
    StellarNFTMarketplace::mint(&mut env, a, text("early"));
    set_up(&mut env, admin, 250, admin, 100, admin);
    assert_eq!(StellarNFTMarketplace::get_token_count(&env), 0);
    assert_eq!(StellarNFTMarketplace::get_token(&env, 0), Err(MarketError::TokenNotFound));
    assert_eq!(nft_marketplace::balance::get_token_owner(&env, 0), Ok(a));
    assert_eq!(StellarNFTMarketplace::mint(&mut env, admin, text("late")), 0);
    assert_eq!(nft_marketplace::balance::get_token_owner(&env, 0), Ok(admin));
}

#[test]
fn only_the_administrator_changes_configuration() {
    let (admin, r, p, x, y) = (account(1), account(2), account(3), account(8), account(9));
    let mut env = Ledger::new();
    assert_eq!(
        StellarNFTMarketplace::update_royalty(&mut env, admin, 1, r),
        Err(MarketError::Unauthorized)
    );
    assert_eq!(nft_marketplace::admin::verify_admin(&env, &admin), Err(MarketError::Unauthorized));
    set_up(&mut env, admin, 250, r, 100, p);
    assert_eq!(nft_marketplace::admin::verify_admin(&env, &admin), Ok(()));
    assert_eq!(nft_marketplace::admin::verify_admin(&env, &x), Err(MarketError::Unauthorized));
    assert_eq!(
        StellarNFTMarketplace::update_royalty(&mut env, x, 1, x),
        Err(MarketError::Unauthorized)
    );
    assert_eq!(
        StellarNFTMarketplace::update_platform_fee(&mut env, x, 1, x),
        Err(MarketError::Unauthorized)
    );
    assert_eq!(StellarNFTMarketplace::update_admin(&mut env, x, x), Err(MarketError::Unauthorized));
    assert_eq!(
        StellarNFTMarketplace::update_royalty(&mut env, x, 10_001, x),
        Err(MarketError::Unauthorized)
    );
    assert_eq!(
        StellarNFTMarketplace::update_royalty(&mut env, admin, 10_001, x),
        Err(MarketError::InvalidFeePercentage)
    );
    assert_eq!(
        StellarNFTMarketplace::update_platform_fee(&mut env, admin, 10_001, x),
        Err(MarketError::InvalidFeePercentage)
    );
    assert_eq!(env.royalty(), Some(250));
    assert_eq!(env.royalty_recipient(), Some(r));
    assert_eq!(env.platform_fee(), Some(100));
    assert_eq!(env.platform_address(), Some(p));
    assert_eq!(StellarNFTMarketplace::update_royalty(&mut env, admin, 500, x), Ok(()));
    assert_eq!(StellarNFTMarketplace::update_platform_fee(&mut env, admin, 0, y), Ok(()));
    assert_eq!(env.royalty(), Some(500));
    assert_eq!(env.royalty_recipient(), Some(x));
    assert_eq!(env.platform_fee(), Some(0));
    assert_eq!(env.platform_address(), Some(y));
    assert_eq!(StellarNFTMarketplace::update_admin(&mut env, admin, x), Ok(()));
    assert_eq!(nft_marketplace::admin::read_administrator(&env), Ok(x));
    assert_eq!(
        StellarNFTMarketplace::update_admin(&mut env, admin, admin),
        Err(MarketError::Unauthorized)
    );
    assert_eq!(StellarNFTMarketplace::update_royalty(&mut env, x, 10_000, r), Ok(()));
}

#[test]
fn updated_rates_are_used_by_the_next_sale() {
    let (admin, r, p, a, b) = (account(1), account(2), account(3), account(4), account(5));
    let mut env = Ledger::new();
    set_up(&mut env, admin, 250, r, 100, p);
    StellarNFTMarketplace::update_royalty(&mut env, admin, 1_000, a).unwrap();
    StellarNFTMarketplace::update_platform_fee(&mut env, admin, 5, b).unwrap();
    StellarNFTMarketplace::mint(&mut env, a, text("u"));
    StellarNFTMarketplace::list_token(&mut env, a, 0, 200_000).unwrap();
    let split = StellarNFTMarketplace::buy_token(&mut env, b, 0).unwrap();
    assert_eq!(split.royalty_amount, 20_000);
    assert_eq!(split.royalty_recipient, a);
    assert_eq!(split.platform_fee_amount, 100);
    assert_eq!(split.platform_address, b);
    assert_eq!(split.seller_amount, 179_900);
}

#[test]
fn listing_is_refused_for_each_reason_in_turn() {
    let (a, b) = (account(1), account(2));
    let mut env = Ledger::new();
    StellarNFTMarketplace::mint(&mut env, a, text("u"));
    assert_eq!(
        StellarNFTMarketplace::list_token(&mut env, a, 0, 0),
        Err(MarketError::InvalidPrice)
    );
    assert_eq!(
        StellarNFTMarketplace::list_token(&mut env, a, 0, -1),
        Err(MarketError::InvalidPrice)
    );
    assert_eq!(
        StellarNFTMarketplace::list_token(&mut env, b, 7, i128::MIN),
        Err(MarketError::InvalidPrice)
    );
    assert_eq!(
        StellarNFTMarketplace::list_token(&mut env, a, 7, 1),
        Err(MarketError::TokenNotFound)
    );
    assert_eq!(
        StellarNFTMarketplace::list_token(&mut env, b, 0, 1),
        Err(MarketError::NotTokenOwner)
    );
    assert!(!StellarNFTMarketplace::is_token_listed(&env, 0));
    assert_eq!(
        StellarNFTMarketplace::list_token(&mut env, a, 0, 1),
        Ok(Listing { token_id: 0, price: 1, seller: a })
    );
    assert_eq!(
        StellarNFTMarketplace::list_token(&mut env, a, 0, 2),
        Err(MarketError::AlreadyListed)
    );
    assert_eq!(
        StellarNFTMarketplace::get_token_listing(&env, 0),
        Some(Listing { token_id: 0, price: 1, seller: a })
    );
}

#[test]
fn only_the_seller_cancels_a_listing() {
    let (a, b) = (account(1), account(2));
    let mut env = Ledger::new();
    StellarNFTMarketplace::mint(&mut env, a, text("u"));
    assert_eq!(StellarNFTMarketplace::cancel_listing(&mut env, a, 0), Err(MarketError::NotListed));
    StellarNFTMarketplace::list_token(&mut env, a, 0, 9).unwrap();
    assert_eq!(
        StellarNFTMarketplace::cancel_listing(&mut env, b, 0),
        Err(MarketError::Unauthorized)
    );
    assert!(StellarNFTMarketplace::is_token_listed(&env, 0));
    assert_eq!(StellarNFTMarketplace::cancel_listing(&mut env, a, 0), Ok(()));
    assert_eq!(StellarNFTMarketplace::cancel_listing(&mut env, a, 0), Err(MarketError::NotListed));
    assert!(!env.has(&DataKey::Listed(0)));
    assert!(!env.has(&DataKey::ListingPrice(0)));
    assert!(!env.has(&DataKey::ListedBy(0)));
}

#[test]
fn seller_cannot_buy_its_own_token() {
    let a = account(1);
    let mut env = Ledger::new();
    StellarNFTMarketplace::mint(&mut env, a, text("u"));
    assert_eq!(StellarNFTMarketplace::buy_token(&mut env, a, 0), Err(MarketError::NotListed));
    StellarNFTMarketplace::list_token(&mut env, a, 0, 9).unwrap();
    assert_eq!(StellarNFTMarketplace::buy_token(&mut env, a, 0), Err(MarketError::SelfPurchase));
    assert!(StellarNFTMarketplace::is_token_listed(&env, 0));
    assert_eq!(nft_marketplace::balance::get_token_owner(&env, 0), Ok(a));
}

#[test]
fn approval_is_given_by_the_owner_only() {
    let (a, b, d) = (account(1), account(2), account(3));
    let mut env = Ledger::new();
    assert_eq!(
        StellarNFTMarketplace::approve(&mut env, a, d, 0),
        Err(MarketError::TokenNotFound)
    );
    StellarNFTMarketplace::mint(&mut env, a, text("u"));
    assert_eq!(
        StellarNFTMarketplace::approve(&mut env, b, d, 0),
        Err(MarketError::NotTokenOwner)
    );
    assert!(!StellarNFTMarketplace::is_approved(&env, 0, d));
    assert_eq!(StellarNFTMarketplace::approve(&mut env, a, d, 0), Ok(()));
    assert_eq!(StellarNFTMarketplace::approve(&mut env, a, b, 0), Ok(()));
    assert_eq!(StellarNFTMarketplace::approve(&mut env, a, d, 0), Ok(()));
    assert!(StellarNFTMarketplace::is_approved(&env, 0, d));
    assert!(StellarNFTMarketplace::is_approved(&env, 0, b));
    assert!(!StellarNFTMarketplace::is_approved(&env, 0, a));
    assert!(!StellarNFTMarketplace::is_approved(&env, 1, d));
    assert!(nft_marketplace::allowance::check_approval(&env, 0, &d));
    nft_marketplace::allowance::clear_approval(&mut env, 0);
    assert!(nft_marketplace::allowance::check_approval(&env, 0, &d));
    assert!(nft_marketplace::allowance::check_approval(&env, 0, &b));
}

#[test]
fn addresses_differ_by_kind_and_key() {
    let mut env = Ledger::new();
    let a = Address { kind: AddressKind::Account, high: 1, low: 2 };
    let same_key_contract = Address { kind: AddressKind::Contract, high: 1, low: 2 };
    let other_half = Address { kind: AddressKind::Account, high: 2, low: 2 };
    StellarNFTMarketplace::mint(&mut env, a, text("u"));
    assert_eq!(
        StellarNFTMarketplace::transfer(&mut env, same_key_contract, a, 0),
        Err(MarketError::Unauthorized)
    );
    assert_eq!(
        StellarNFTMarketplace::transfer(&mut env, other_half, a, 0),
        Err(MarketError::Unauthorized)
    );
    nft_marketplace::allowance::set_approval(&mut env, 0, &same_key_contract);
    assert!(!StellarNFTMarketplace::is_approved(&env, 0, other_half));
    assert_eq!(StellarNFTMarketplace::transfer(&mut env, same_key_contract, other_half, 0), Ok(()));
    assert_eq!(nft_marketplace::balance::get_token_owner(&env, 0), Ok(other_half));
}

#[test]
fn ledger_entries_are_present_once_written() {
    let (a, b) = (account(1), account(2));
    let mut env = Ledger::new();
    let keys = [
        DataKey::Admin,
        DataKey::TokenMetadata,
        DataKey::Balance(0),
        DataKey::TokenURI(0),
        DataKey::TokenCount,
        DataKey::Approval(0, b),
        DataKey::Listed(0),
        DataKey::ListingPrice(0),
        DataKey::ListedBy(0),
        DataKey::Royalty,
        DataKey::RoyaltyRecipient,
        DataKey::PlatformFee,
        DataKey::PlatformAddress,
    ];
    for key in keys.iter() {
        assert!(!env.has(key));
    }
    assert_eq!(nft_marketplace::metadata::get_token_uri(&env, 0), "");
    assert_eq!(env.uri(0), None);
    set_up(&mut env, a, 1, a, 2, a);
    StellarNFTMarketplace::mint(&mut env, a, text("u"));
    StellarNFTMarketplace::approve(&mut env, a, b, 0).unwrap();
    StellarNFTMarketplace::list_token(&mut env, a, 0, 3).unwrap();
    for key in keys.iter() {
        assert!(env.has(key));
    }
    assert!(!env.has(&DataKey::Balance(1)));
    assert!(!env.has(&DataKey::TokenURI(1)));
    assert!(!env.has(&DataKey::Approval(0, a)));
    assert!(!env.has(&DataKey::Approval(1, b)));
    assert!(!env.has(&DataKey::Listed(1)));
    nft_marketplace::metadata::set_token_uri(&mut env, 5, &text("later"));
    assert_eq!(nft_marketplace::metadata::get_token_uri(&env, 5), "later");
    assert_eq!(nft_marketplace::metadata::get_token_uri(&env, 0), "u");
    nft_marketplace::admin::write_administrator(&mut env, &b);
    assert_eq!(env.admin(), Some(b));
    env.set_listing(0, 8, b);
    assert_eq!(env.listing(0), Some(Listing { token_id: 0, price: 8, seller: b }));
    env.remove_listing(0);
    env.remove_listing(0);
    assert_eq!(env.listing(0), None);
    assert_eq!(env.owner(0), Some(a));
}
