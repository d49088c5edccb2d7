use slydr::{
    create_content, initialize, purchase_content, rent_content, resell_content, subscribe,
    update_content, Address, Content, CreateContent, ErrorCode, Initialize, Platform, Purchase,
    PurchaseContent, PurchaseType, RentContent, ResellContent, Subscribe, Subscription, Transfer,
    UpdateContent, SUBSCRIPTION_PERIOD,
};

const AUTHORITY: Address = Address { bytes: [1; 32] };
const CREATOR: Address = Address { bytes: [2; 32] };
const BUYER: Address = Address { bytes: [3; 32] };
const OTHER: Address = Address { bytes: [4; 32] };
const PLATFORM_KEY: Address = Address { bytes: [10; 32] };
const CONTENT_KEY: Address = Address { bytes: [11; 32] };

fn platform(fee: u64) -> Platform {
    Platform {
        authority: AUTHORITY,
        platform_fee: fee,
        total_content_count: 3,
        total_sales_volume: 500,
    }
}

fn content() -> Content {
    Content {
        id: "song1".to_string(),
        creator: CREATOR,
        arweave_id: "ar123".to_string(),
        price: 10000,
        royalty_percentage: 10,
        sales_count: 7,
        active: true,
        created_at: 50,
        rental_enabled: true,
        rental_price: 2500,
        rental_duration: 3600,
        subscription_tier: 0,
    }
}

fn license() -> Purchase {
    Purchase {
        buyer: BUYER,
        content: CONTENT_KEY,
        price: 10000,
        timestamp: 60,
        resale_rights: true,
        purchase_type: PurchaseType::FullPurchase,
        expiration: None,
    }
}

fn purchase_accounts() -> PurchaseContent {
    PurchaseContent {
        content: content(),
        content_key: CONTENT_KEY,
        buyer: BUYER,
        creator: CREATOR,
        platform: platform(1000),
        platform_key: PLATFORM_KEY,
        purchase: None,
    }
}

fn rent_accounts() -> RentContent {
    RentContent {
        content: content(),
        content_key: CONTENT_KEY,
        renter: BUYER,
        creator: CREATOR,
        platform: platform(1000),
        platform_key: PLATFORM_KEY,
        rental: None,
    }
}

fn resell_accounts() -> ResellContent {
    ResellContent {
        content: content(),
        content_key: CONTENT_KEY,
        seller: BUYER,
        buyer: OTHER,
        creator: CREATOR,
        platform: platform(1000),
        platform_key: PLATFORM_KEY,
        seller_purchase: license(),
        buyer_purchase: None,
    }
}

fn list(
    accounts: &mut CreateContent,
    id: &str,
    locator: &str,
    price: u64,
    royalty: u8,
    rental: (bool, u64, i64),
) -> Result<slydr::ContentCreated, ErrorCode> {
    create_content(
        accounts,
        id.to_string(),
        locator.to_string(),
        price,
        royalty,
        rental.0,
        rental.1,
        rental.2,
        1,
        77,
    )
}

#[test]
fn initialize_fills_the_platform() {
    let mut accounts = Initialize { platform: None, authority: AUTHORITY };
    let event = initialize(&mut accounts, 1, -5).unwrap();
    assert_eq!(event.authority, AUTHORITY);
    assert_eq!(event.platform_fee, 1);
    assert_eq!(event.timestamp, -5);
    assert_eq!(
        accounts.platform,
        Some(Platform {
            authority: AUTHORITY,
            platform_fee: 1,
            total_content_count: 0,
            total_sales_volume: 0,
        })
    );
    assert_eq!(accounts.authority, AUTHORITY);
}

#[test]
fn initialize_refuses_a_fee_of_zero() {
    let mut accounts = Initialize { platform: None, authority: AUTHORITY };
    assert_eq!(initialize(&mut accounts, 0, 10), Err(ErrorCode::InvalidFeeAmount));
    assert_eq!(accounts, Initialize { platform: None, authority: AUTHORITY });
}

#[test]
fn initialize_happens_once() {
    let mut accounts = Initialize { platform: None, authority: AUTHORITY };
    initialize(&mut accounts, 1000, 10).unwrap();
    let set_up = accounts;
    accounts.authority = OTHER;
    let expected = accounts;
    assert_eq!(initialize(&mut accounts, 2000, 20), Err(ErrorCode::AccountAlreadyInUse));
    assert_eq!(accounts, expected);
    assert_eq!(accounts.platform, set_up.platform);
    assert_eq!(initialize(&mut accounts, 0, 20), Err(ErrorCode::AccountAlreadyInUse));
}

#[test]
fn create_content_fills_the_record_and_counts_it() {
    let mut accounts = CreateContent { content: None, creator: CREATOR, platform: platform(1000) };
    let event = list(&mut accounts, "song1", "ar123", 10000, 100, (true, 1, 1)).unwrap();
    assert_eq!(
        accounts.content,
        Some(Content {
            id: "song1".to_string(),
            creator: CREATOR,
            arweave_id: "ar123".to_string(),
            price: 10000,
            royalty_percentage: 100,
            sales_count: 0,
            active: true,
            created_at: 77,
            rental_enabled: true,
            rental_price: 1,
            rental_duration: 1,
            subscription_tier: 1,
        })
    );
    assert_eq!(accounts.platform, Platform { total_content_count: 4, ..platform(1000) });
    assert_eq!(accounts.creator, CREATOR);
    assert_eq!(event.content_id, "song1");
    assert_eq!(event.creator, CREATOR);
    assert_eq!(event.price, 10000);
    assert_eq!(event.royalty_percentage, 100);
    assert!(event.rental_enabled);
    assert_eq!(event.subscription_tier, 1);
    assert_eq!(event.timestamp, 77);
}

#[test]
fn create_content_ignores_rental_terms_when_rental_is_off() {
    let mut accounts = CreateContent { content: None, creator: CREATOR, platform: platform(1000) };
    list(&mut accounts, "song1", "ar123", 1, 0, (false, 0, -3)).unwrap();
    let listed = accounts.content.unwrap();
    assert!(!listed.rental_enabled);
    assert_eq!(listed.rental_price, 0);
    assert_eq!(listed.rental_duration, -3);
    assert_eq!(listed.royalty_percentage, 0);
}

#[test]
fn create_content_refuses_bad_terms() {
    let fresh = CreateContent { content: None, creator: CREATOR, platform: platform(1000) };
    let cases = [
        (("", "ar123", 10000, 10, (false, 0, 0)), ErrorCode::InvalidContentId),
        (("song1", "", 10000, 10, (false, 0, 0)), ErrorCode::InvalidArweaveId),
        (("song1", "ar123", 0, 10, (false, 0, 0)), ErrorCode::InvalidPrice),
        (("song1", "ar123", 10000, 101, (false, 0, 0)), ErrorCode::InvalidRoyaltyPercentage),
        (("song1", "ar123", 10000, 10, (true, 0, 60)), ErrorCode::InvalidRentalPrice),
        (("song1", "ar123", 10000, 10, (true, 5, 0)), ErrorCode::InvalidRentalDuration),
        (("song1", "ar123", 10000, 10, (true, 5, -1)), ErrorCode::InvalidRentalDuration),
    ];
    for ((id, locator, price, royalty, rental), expected) in cases {
        let mut accounts = fresh.clone();
        assert_eq!(list(&mut accounts, id, locator, price, royalty, rental), Err(expected));
        assert_eq!(accounts, fresh);
    }
}

#[test]
fn create_content_reports_the_first_fault() {
    let mut accounts = CreateContent { content: None, creator: CREATOR, platform: platform(1000) };
    assert_eq!(
        list(&mut accounts, "", "", 0, 200, (true, 0, 0)),
        Err(ErrorCode::InvalidContentId)
    );
    assert_eq!(
        list(&mut accounts, "song1", "", 0, 200, (true, 0, 0)),
        Err(ErrorCode::InvalidArweaveId)
    );
    assert_eq!(
        list(&mut accounts, "song1", "ar123", 0, 200, (true, 0, 0)),
        Err(ErrorCode::InvalidPrice)
    );
    assert_eq!(
        list(&mut accounts, "song1", "ar123", 5, 200, (true, 0, 0)),
        Err(ErrorCode::InvalidRoyaltyPercentage)
    );
    assert_eq!(
        list(&mut accounts, "song1", "ar123", 5, 20, (true, 0, 0)),
        Err(ErrorCode::InvalidRentalPrice)
    );
}

#[test]
fn create_content_takes_an_identifier_once() {
    let mut accounts = CreateContent { content: None, creator: CREATOR, platform: platform(1000) };
    list(&mut accounts, "song1", "ar123", 10000, 10, (false, 0, 0)).unwrap();
    let listed = accounts.clone();
    assert_eq!(
        list(&mut accounts, "song1", "ar999", 5, 5, (false, 0, 0)),
        Err(ErrorCode::AccountAlreadyInUse)
    );
    assert_eq!(accounts, listed);
    assert_eq!(accounts.platform.total_content_count, 4);
}

#[test]
fn update_content_changes_what_is_given() {
    let mut accounts = UpdateContent { content: content(), creator: CREATOR };
    let event = update_content(
        &mut accounts,
        Some(1),
        Some(false),
        Some(false),
        Some(9),
        Some(60),
        Some(3),
        99,
    )
    .unwrap();
    assert_eq!(
        accounts.content,
        Content {
            price: 1,
            active: false,
            rental_enabled: false,
            rental_price: 9,
            rental_duration: 60,
            subscription_tier: 3,
            ..content()
        }
    );
    assert_eq!(event.content_id, "song1");
    assert_eq!(event.creator, CREATOR);
    assert_eq!(event.price, 1);
    assert!(!event.active);
    assert!(!event.rental_enabled);
    assert_eq!(event.timestamp, 99);
}

#[test]
fn update_content_with_nothing_given_changes_nothing() {
    let mut accounts = UpdateContent { content: content(), creator: CREATOR };
    let event = update_content(&mut accounts, None, None, None, None, None, None, 99).unwrap();
    assert_eq!(accounts.content, content());
    assert_eq!(event.price, 10000);
    assert!(event.active);
    assert!(event.rental_enabled);
}

#[test]
fn update_content_changes_one_field_alone() {
    let mut accounts = UpdateContent { content: content(), creator: CREATOR };
    update_content(&mut accounts, None, None, None, Some(7), None, None, 99).unwrap();
    assert_eq!(accounts.content, Content { rental_price: 7, ..content() });
    update_content(&mut accounts, None, None, None, None, None, Some(0), 99).unwrap();
    assert_eq!(accounts.content, Content { rental_price: 7, subscription_tier: 0, ..content() });
}

#[test]
fn update_content_refuses_bad_values_and_strangers() {
    let fresh = UpdateContent { content: content(), creator: CREATOR };

    let mut accounts = UpdateContent { content: content(), creator: OTHER };
    let before = accounts.clone();
    assert_eq!(
        update_content(&mut accounts, Some(5), None, None, None, None, None, 99),
        Err(ErrorCode::NotAuthorized)
    );
    assert_eq!(accounts, before);

    let mut accounts = fresh.clone();
    assert_eq!(
        update_content(&mut accounts, Some(0), Some(false), None, None, None, None, 99),
        Err(ErrorCode::InvalidPrice)
    );
    assert_eq!(accounts, fresh);

    assert_eq!(
        update_content(&mut accounts, Some(5), None, None, Some(0), Some(0), None, 99),
        Err(ErrorCode::InvalidRentalPrice)
    );
    assert_eq!(accounts, fresh);

    assert_eq!(
        update_content(&mut accounts, Some(5), None, None, Some(1), Some(0), None, 99),
        Err(ErrorCode::InvalidRentalDuration)
    );
    assert_eq!(accounts, fresh);

    assert_eq!(
        update_content(&mut accounts, None, None, None, None, Some(-60), None, 99),
        Err(ErrorCode::InvalidRentalDuration)
    );
    assert_eq!(accounts, fresh);
}

#[test]
fn purchase_splits_the_price_and_issues_a_license() {
    let mut accounts = purchase_accounts();
    let (transfers, event) = purchase_content(&mut accounts, 1234).unwrap();
    assert_eq!(
        transfers,
        vec![
            Transfer { from: BUYER, to: CREATOR, lamports: 9000 },
            Transfer { from: BUYER, to: PLATFORM_KEY, lamports: 1000 },
        ]
    );
    assert_eq!(
        accounts,
        PurchaseContent {
            content: Content { sales_count: 8, ..content() },
            platform: Platform { total_sales_volume: 10500, ..platform(1000) },
            purchase: Some(Purchase { timestamp: 1234, ..license() }),
            ..purchase_accounts()
        }
    );
    assert_eq!(event.content_id, "song1");
    assert_eq!(event.buyer, BUYER);
    assert_eq!(event.creator, CREATOR);
    assert_eq!(event.price, 10000);
    assert_eq!(event.timestamp, 1234);
}

#[test]
fn purchase_needs_a_price_above_the_fee() {
    let mut accounts = purchase_accounts();
    accounts.platform.platform_fee = 10000;
    let before = accounts.clone();
    assert_eq!(purchase_content(&mut accounts, 1), Err(ErrorCode::InsufficientFunds));
    assert_eq!(accounts, before);

    accounts.platform.platform_fee = 10001;
    assert_eq!(purchase_content(&mut accounts, 1), Err(ErrorCode::InsufficientFunds));

    accounts.platform.platform_fee = 9999;
    let (transfers, _) = purchase_content(&mut accounts, 1).unwrap();
    assert_eq!(transfers[0].lamports, 1);
    assert_eq!(transfers[1].lamports, 9999);
}

#[test]
fn purchase_refusals_come_in_order() {
    let mut accounts = purchase_accounts();
    accounts.creator = OTHER;
    accounts.purchase = Some(license());
    accounts.content.active = false;
    accounts.platform.platform_fee = 20000;
    let before = accounts.clone();
    assert_eq!(purchase_content(&mut accounts, 1), Err(ErrorCode::NotAuthorized));
    assert_eq!(accounts, before);
    accounts.creator = CREATOR;
    assert_eq!(purchase_content(&mut accounts, 1), Err(ErrorCode::AccountAlreadyInUse));
    accounts.purchase = None;
    assert_eq!(purchase_content(&mut accounts, 1), Err(ErrorCode::ContentNotActive));
    accounts.content.active = true;
    assert_eq!(purchase_content(&mut accounts, 1), Err(ErrorCode::InsufficientFunds));
}

#[test]
fn purchase_happens_once_for_a_buyer() {
    let mut accounts = purchase_accounts();
    purchase_content(&mut accounts, 1).unwrap();
    let bought = accounts.clone();
    assert_eq!(purchase_content(&mut accounts, 2), Err(ErrorCode::AccountAlreadyInUse));
    assert_eq!(accounts, bought);
}

#[test]
fn rent_splits_the_rental_price_and_sets_the_expiration() {
    let mut accounts = rent_accounts();
    let (transfers, event) = rent_content(&mut accounts, 5000).unwrap();
    assert_eq!(
        transfers,
        vec![
            Transfer { from: BUYER, to: CREATOR, lamports: 1500 },
            Transfer { from: BUYER, to: PLATFORM_KEY, lamports: 1000 },
        ]
    );
    assert_eq!(
        accounts,
        RentContent {
            platform: Platform { total_sales_volume: 3000, ..platform(1000) },
            rental: Some(Purchase {
                buyer: BUYER,
                content: CONTENT_KEY,
                price: 2500,
                timestamp: 5000,
                resale_rights: false,
                purchase_type: PurchaseType::Rental,
                expiration: Some(8600),
            }),
            ..rent_accounts()
        }
    );
    assert_eq!(event.content_id, "song1");
    assert_eq!(event.renter, BUYER);
    assert_eq!(event.creator, CREATOR);
    assert_eq!(event.price, 2500);
    assert_eq!(event.expiration, 8600);
    assert_eq!(event.timestamp, 5000);
}

#[test]
fn rent_refusals_come_in_order() {
    let mut accounts = rent_accounts();
    accounts.creator = OTHER;
    accounts.rental = Some(license());
    accounts.content.active = false;
    accounts.content.rental_enabled = false;
    accounts.content.rental_price = 1000;
    let before = accounts.clone();
    assert_eq!(rent_content(&mut accounts, 1), Err(ErrorCode::NotAuthorized));
    assert_eq!(accounts, before);
    accounts.creator = CREATOR;
    assert_eq!(rent_content(&mut accounts, 1), Err(ErrorCode::AccountAlreadyInUse));
    accounts.rental = None;
    assert_eq!(rent_content(&mut accounts, 1), Err(ErrorCode::ContentNotActive));
    accounts.content.active = true;
    assert_eq!(rent_content(&mut accounts, 1), Err(ErrorCode::RentalNotEnabled));
    accounts.content.rental_enabled = true;
    let before = accounts.clone();
    assert_eq!(rent_content(&mut accounts, 1), Err(ErrorCode::InsufficientFunds));
    assert_eq!(accounts, before);
}

#[test]
fn subscribe_charges_the_tier_and_runs_thirty_days() {
    assert_eq!(SUBSCRIPTION_PERIOD, 2_592_000);
    for (tier, price) in [(1u8, 100_000_000u64), (2, 200_000_000), (3, 500_000_000)] {
        let mut accounts =
            Subscribe { subscriber: BUYER, platform_key: PLATFORM_KEY, subscription: None };
        let (transfers, event) = subscribe(&mut accounts, tier, 1_000).unwrap();
        assert_eq!(transfers, vec![Transfer { from: BUYER, to: PLATFORM_KEY, lamports: price }]);
        assert_eq!(
            accounts.subscription,
            Some(Subscription {
                subscriber: BUYER,
                tier,
                start_time: 1_000,
                expiration_time: 2_593_000,
                active: true,
            })
        );
        assert_eq!(event.subscriber, BUYER);
        assert_eq!(event.tier, tier);
        assert_eq!(event.price, price);
        assert_eq!(event.expiration, 2_593_000);
        assert_eq!(event.timestamp, 1_000);
    }
}

#[test]
fn subscribe_refuses_other_tiers() {
    for tier in [0u8, 4, 255] {
        let mut accounts =
            Subscribe { subscriber: BUYER, platform_key: PLATFORM_KEY, subscription: None };
        assert_eq!(subscribe(&mut accounts, tier, 1_000), Err(ErrorCode::InvalidSubscriptionTier));
        assert_eq!(
            accounts,
            Subscribe { subscriber: BUYER, platform_key: PLATFORM_KEY, subscription: None }
        );
    }
}

#[test]
fn subscribing_again_replaces_the_subscription() {
    let mut accounts =
        Subscribe { subscriber: BUYER, platform_key: PLATFORM_KEY, subscription: None };
    subscribe(&mut accounts, 1, 1_000).unwrap();
    let (transfers, _) = subscribe(&mut accounts, 3, 2_000).unwrap();
    assert_eq!(transfers, vec![Transfer { from: BUYER, to: PLATFORM_KEY, lamports: 500_000_000 }]);
    assert_eq!(
        accounts.subscription,
        Some(Subscription {
            subscriber: BUYER,
            tier: 3,
            start_time: 2_000,
            expiration_time: 2_594_000,
            active: true,
        })
    );
}

#[test]
fn resale_rounds_the_royalty_down() {
    let mut accounts = resell_accounts();
    accounts.platform.platform_fee = 100;
    let (transfers, event) = resell_content(&mut accounts, 999, 70).unwrap();
    assert_eq!(
        transfers,
        vec![
            Transfer { from: OTHER, to: CREATOR, lamports: 99 },
            Transfer { from: OTHER, to: BUYER, lamports: 800 },
            Transfer { from: OTHER, to: PLATFORM_KEY, lamports: 100 },
        ]
    );
    assert_eq!(event.royalty_amount, 99);
    assert_eq!(transfers.iter().map(|transfer| transfer.lamports).sum::<u64>(), 999);
    assert_eq!(accounts.platform.total_sales_volume, 1499);
}

#[test]
fn resale_of_the_largest_price_does_not_overflow() {
    let mut accounts = resell_accounts();
    accounts.content.royalty_percentage = 99;
    accounts.platform.platform_fee = 1;
    accounts.platform.total_sales_volume = 0;
    let (transfers, _) = resell_content(&mut accounts, u64::MAX, 70).unwrap();
    assert_eq!(transfers[0].lamports, 18_262_276_632_972_456_098);
    assert_eq!(transfers[1].lamports, 184_467_440_737_095_516);
    assert_eq!(transfers[2].lamports, 1);
    assert_eq!(accounts.platform.total_sales_volume, u64::MAX);
}

#[test]
fn resale_needs_a_price_above_royalty_and_fee() {
    let mut accounts = resell_accounts();
    let before = accounts.clone();
    // 10 % of 1111 is 111; with the fee of 1000 that is the whole price.
    assert_eq!(resell_content(&mut accounts, 1111, 70), Err(ErrorCode::InsufficientFunds));
    assert_eq!(accounts, before);
    let (transfers, _) = resell_content(&mut accounts, 1112, 70).unwrap();
    assert_eq!(transfers[0].lamports, 111);
    assert_eq!(transfers[1].lamports, 1);
    assert_eq!(transfers[2].lamports, 1000);
}

#[test]
fn resale_with_a_royalty_above_the_price_is_refused() {
    let mut accounts = resell_accounts();
    accounts.content.royalty_percentage = 255;
    accounts.platform.platform_fee = 1;
    assert_eq!(resell_content(&mut accounts, u64::MAX, 70), Err(ErrorCode::InsufficientFunds));
}

#[test]
fn resale_refuses_a_license_without_resale_rights() {
    let mut accounts = resell_accounts();
    accounts.seller_purchase.resale_rights = false;
    let before = accounts.clone();
    assert_eq!(resell_content(&mut accounts, 5000, 70), Err(ErrorCode::NoResaleRights));
    assert_eq!(accounts, before);
}

#[test]
fn resale_refuses_a_license_that_has_ended() {
    let mut accounts = resell_accounts();
    accounts.seller_purchase.expiration = Some(70);
    let before = accounts.clone();
    assert_eq!(resell_content(&mut accounts, 5000, 70), Err(ErrorCode::PurchaseExpired));
    assert_eq!(accounts, before);
    assert_eq!(resell_content(&mut accounts, 5000, 71), Err(ErrorCode::PurchaseExpired));
    let (_, event) = resell_content(&mut accounts, 5000, 69).unwrap();
    assert_eq!(event.royalty_amount, 500);
    assert_eq!(accounts.buyer_purchase.unwrap().expiration, Some(70));
}

#[test]
fn resale_refusals_come_in_order() {
    let mut accounts = resell_accounts();
    accounts.creator = OTHER;
    accounts.seller_purchase.buyer = OTHER;
    accounts.seller_purchase.content = PLATFORM_KEY;
    accounts.buyer_purchase = Some(license());
    accounts.content.active = false;
    accounts.seller_purchase.resale_rights = false;
    accounts.seller_purchase.expiration = Some(0);
    let before = accounts.clone();
    assert_eq!(resell_content(&mut accounts, 0, 70), Err(ErrorCode::NotAuthorized));
    assert_eq!(accounts, before);
    accounts.creator = CREATOR;
    assert_eq!(resell_content(&mut accounts, 0, 70), Err(ErrorCode::NotAuthorized));
    accounts.seller_purchase.buyer = BUYER;
    assert_eq!(resell_content(&mut accounts, 0, 70), Err(ErrorCode::NotAuthorized));
    accounts.seller_purchase.content = CONTENT_KEY;
    assert_eq!(resell_content(&mut accounts, 0, 70), Err(ErrorCode::AccountAlreadyInUse));
    accounts.buyer_purchase = None;
    assert_eq!(resell_content(&mut accounts, 0, 70), Err(ErrorCode::ContentNotActive));
    accounts.content.active = true;
    assert_eq!(resell_content(&mut accounts, 0, 70), Err(ErrorCode::InvalidPrice));
    assert_eq!(resell_content(&mut accounts, 1000, 70), Err(ErrorCode::NoResaleRights));
    accounts.seller_purchase.resale_rights = true;
    assert_eq!(resell_content(&mut accounts, 1000, 70), Err(ErrorCode::PurchaseExpired));
    accounts.seller_purchase.expiration = None;
    assert_eq!(resell_content(&mut accounts, 1000, 70), Err(ErrorCode::InsufficientFunds));
}

#[test]
fn resale_to_oneself_is_refused() {
    let mut accounts = resell_accounts();
    accounts.buyer = BUYER;
    let before = accounts.clone();
    assert_eq!(resell_content(&mut accounts, 5000, 70), Err(ErrorCode::AccountAlreadyInUse));
    assert_eq!(accounts, before);
}

#[test]
fn resale_leaves_content_and_seller_license_alone() {
    let mut accounts = resell_accounts();
    resell_content(&mut accounts, 5000, 70).unwrap();
    assert_eq!(accounts.content, content());
    assert_eq!(accounts.seller_purchase, license());
    assert_eq!(
        accounts.buyer_purchase,
        Some(Purchase { buyer: OTHER, price: 5000, timestamp: 70, ..license() })
    );
    let sold = accounts.clone();
    assert_eq!(resell_content(&mut accounts, 6000, 80), Err(ErrorCode::AccountAlreadyInUse));
    assert_eq!(accounts, sold);
}
