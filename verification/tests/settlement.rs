use oxmart_payment::address::Address;
use oxmart_payment::admin::{
    add_supported_token, initialize, pause, remove_supported_token, unpause, Initialize,
    UpdateConfig, UpdateToken,
};
use oxmart_payment::derivation::{config_address, order_address, token_address, Derived};
use oxmart_payment::error::ErrorCode;
use oxmart_payment::settlement::{
    process_batch_payment, process_payment, settle_payment, BatchPaymentProcessed,
    PaymentAddresses, PaymentProcessed, ProcessPayment,
};
use oxmart_payment::state::{Allocation, Entity, OrderRecord, ProductReference};
use oxmart_payment::store::Store;
use oxmart_payment::token::{TokenAccount, Transfer};

fn addr(n: u8) -> Address {
    Address::new([n; 32])
}

fn pid() -> Address {
    addr(7)
}

fn authority() -> Address {
    addr(10)
}

fn hot_wallet() -> Address {
    addr(11)
}

fn buyer() -> Address {
    addr(12)
}

fn mint() -> Address {
    addr(13)
}

fn affiliate() -> Address {
    addr(14)
}

fn token_program() -> Address {
    Address::new(spl_token::id().to_bytes())
}

fn config() -> Address {
    config_address(&pid()).unwrap().address
}

fn admin_ctx() -> UpdateConfig {
    UpdateConfig { config: config(), authority: authority(), authority_is_signer: true }
}

fn store_with_fee(fee_bps: u16) -> Store {
    let mut store = Store::new();
    let ctx = Initialize { config: config(), authority: authority(), authority_is_signer: true };
    assert_eq!(initialize(&mut store, &pid(), &ctx, hot_wallet(), fee_bps), Ok(()));
    store
}

fn payment_ctx(order_id: &[u8; 32]) -> ProcessPayment {
    ProcessPayment {
        config: config(),
        order_record: order_address(&pid(), order_id).unwrap().address,
        records_product: true,
        buyer: buyer(),
        buyer_is_signer: true,
        buyer_token_account: TokenAccount { address: addr(20), mint: mint(), owner: buyer() },
        hot_wallet_token_account: TokenAccount {
            address: addr(21),
            mint: mint(),
            owner: hot_wallet(),
        },
        supported_token: None,
        token_program: token_program(),
    }
}

fn pay(store: &mut Store, ctx: &ProcessPayment, order_id: [u8; 32], amount: u64, bps: u16)
    -> Result<oxmart_payment::settlement::PaymentOutcome, ErrorCode> {
    process_payment(store, &pid(), ctx, order_id, amount, String::from("sku-1"), affiliate(), bps, 1_700_000_000)
}

#[test]
fn single_payment_example() {
    let mut store = store_with_fee(250);
    let order_id = [1u8; 32];
    let ctx = payment_ctx(&order_id);
    let out = process_payment(
        &mut store,
        &pid(),
        &ctx,
        order_id,
        1_000_000,
        String::from("sku-1"),
        affiliate(),
        500,
        1_700_000_000,
    )
    .unwrap();
    assert_eq!(
        out.transfer,
        Transfer { source: addr(20), destination: addr(21), authority: buyer(), amount: 975_000 }
    );
    assert_eq!(
        out.event,
        PaymentProcessed {
            order_id,
            buyer: buyer(),
            token_mint: mint(),
            amount: 1_000_000,
            platform_fee: 25_000,
            api_key_owner: affiliate(),
            commission: 50_000,
            product_id: String::from("sku-1"),
            timestamp: 1_700_000_000,
        }
    );
    assert_eq!(out.instruction.program_id, token_program());
    assert_eq!(out.instruction.data, vec![3u8, 0x98, 0xe0, 0x0e, 0, 0, 0, 0, 0]);
    let derived = order_address(&pid(), &order_id).unwrap();
    assert_eq!(
        store.get(&ctx.order_record),
        Some(&Allocation {
            address: derived.address,
            payer: buyer(),
            space: 217,
            entity: Entity::Order(OrderRecord {
                order_id,
                buyer: buyer(),
                token_mint: mint(),
                amount: 1_000_000,
                platform_fee: 25_000,
                commission: 50_000,
                commission_bps: 500,
                api_key_owner: affiliate(),
                product: ProductReference::Single(String::from("sku-1")),
                timestamp: 1_700_000_000,
                bump: derived.bump,
            }),
        })
    );
}

#[test]
fn batch_payment_example() {
    let mut store = store_with_fee(100);
    let order_id = [2u8; 32];
    let ctx = payment_ctx(&order_id);
    let products = vec![String::from("a"), String::from("b"), String::from("c")];
    let out = process_batch_payment(
        &mut store,
        &pid(),
        &ctx,
        order_id,
        3_000_000,
        products,
        affiliate(),
        0,
        42,
    )
    .unwrap();
    assert_eq!(out.transfer.amount, 2_970_000);
    assert_eq!(
        out.event,
        BatchPaymentProcessed {
            order_id,
            buyer: buyer(),
            token_mint: mint(),
            total_amount: 3_000_000,
            platform_fee: 30_000,
            api_key_owner: affiliate(),
            commission: 0,
            product_count: 3,
            timestamp: 42,
        }
    );
    let allocation = store.get(&ctx.order_record).unwrap();
    assert_eq!(allocation.space, 225);
    match &allocation.entity {
        Entity::Order(record) => {
            assert_eq!(record.product, ProductReference::Batch { count: 3 });
            assert_eq!(record.product.count(), 3);
            assert_eq!(&record.pack().unwrap()[167..172], b"BATCH");
            assert_eq!(record.amount, 3_000_000);
            assert_eq!(record.platform_fee, 30_000);
        }
        other => panic!("not an order record: {:?}", other),
    }
}

#[test]
fn second_attempt_on_an_order_is_rejected_and_moves_nothing() {
    let mut store = store_with_fee(250);
    let order_id = [3u8; 32];
    let ctx = payment_ctx(&order_id);
    assert!(pay(&mut store, &ctx, order_id, 1_000_000, 500).is_ok());
    let record = store.get(&ctx.order_record).cloned();
    let config_before = store.config_at(&config());
    assert_eq!(pay(&mut store, &ctx, order_id, 1_000_000, 500).err(), Some(ErrorCode::OrderAlreadyProcessed));
    assert_eq!(pay(&mut store, &ctx, order_id, 5, 0).err(), Some(ErrorCode::OrderAlreadyProcessed));
    let batch = process_batch_payment(
        &mut store,
        &pid(),
        &ctx,
        order_id,
        9,
        vec![String::from("a")],
        affiliate(),
        0,
        1,
    );
    assert_eq!(batch.err(), Some(ErrorCode::OrderAlreadyProcessed));
    assert_eq!(store.get(&ctx.order_record).cloned(), record);
    assert_eq!(store.config_at(&config()), config_before);
}

#[test]
fn another_order_settles_after_the_first() {
    let mut store = store_with_fee(250);
    let first = [4u8; 32];
    let second = [5u8; 32];
    assert!(pay(&mut store, &payment_ctx(&first), first, 10, 0).is_ok());
    assert!(pay(&mut store, &payment_ctx(&second), second, 10, 0).is_ok());
    assert!(store.contains(&payment_ctx(&first).order_record));
    assert!(store.contains(&payment_ctx(&second).order_record));
}

#[test]
fn paused_rejects_single_and_batch() {
    let mut store = store_with_fee(250);
    assert_eq!(pause(&mut store, &pid(), &admin_ctx()), Ok(()));
    let order_id = [6u8; 32];
    let ctx = payment_ctx(&order_id);
    assert_eq!(pay(&mut store, &ctx, order_id, 1_000_000, 500).err(), Some(ErrorCode::ProgramPaused));
    let batch = process_batch_payment(
        &mut store,
        &pid(),
        &ctx,
        order_id,
        1_000_000,
        vec![String::from("a")],
        affiliate(),
        500,
        1,
    );
    assert_eq!(batch.err(), Some(ErrorCode::ProgramPaused));
    assert!(!store.contains(&ctx.order_record));
    assert_eq!(unpause(&mut store, &pid(), &admin_ctx()), Ok(()));
    assert!(pay(&mut store, &ctx, order_id, 1_000_000, 500).is_ok());
}

#[test]
fn paused_comes_before_every_other_check() {
    let mut store = store_with_fee(250);
    assert_eq!(pause(&mut store, &pid(), &admin_ctx()), Ok(()));
    let order_id = [6u8; 32];
    let mut ctx = payment_ctx(&order_id);
    ctx.buyer_is_signer = false;
    ctx.order_record = addr(99);
    ctx.token_program = addr(98);
    assert_eq!(pay(&mut store, &ctx, order_id, 0, 10_001).err(), Some(ErrorCode::ProgramPaused));
}

#[test]
fn checks_fail_in_their_order() {
    let mut store = store_with_fee(250);
    let order_id = [8u8; 32];
    let good = payment_ctx(&order_id);
    let mut ctx = good;
    ctx.buyer_is_signer = false;
    ctx.buyer_token_account.owner = addr(50);
    ctx.hot_wallet_token_account.owner = addr(51);
    ctx.token_program = addr(52);
    ctx.order_record = addr(53);
    assert_eq!(pay(&mut store, &ctx, order_id, 0, 10_001).err(), Some(ErrorCode::InvalidCommission));
    assert_eq!(pay(&mut store, &ctx, order_id, 0, 10_000).err(), Some(ErrorCode::InvalidAmount));
    assert_eq!(pay(&mut store, &ctx, order_id, 1, 10_000).err(), Some(ErrorCode::InvalidSeeds));
    ctx.order_record = good.order_record;
    assert_eq!(
        pay(&mut store, &ctx, order_id, 1, 10_000).err(),
        Some(ErrorCode::MissingRequiredSignature)
    );
    ctx.buyer_is_signer = true;
    assert_eq!(pay(&mut store, &ctx, order_id, 1, 10_000).err(), Some(ErrorCode::InvalidTokenAccount));
    ctx.buyer_token_account.owner = buyer();
    assert_eq!(pay(&mut store, &ctx, order_id, 1, 10_000).err(), Some(ErrorCode::InvalidHotWallet));
    ctx.hot_wallet_token_account.owner = hot_wallet();
    assert_eq!(pay(&mut store, &ctx, order_id, 1, 10_000).err(), Some(ErrorCode::IncorrectProgramId));
    ctx.token_program = token_program();
    assert!(!store.contains(&ctx.order_record));
    assert!(pay(&mut store, &ctx, order_id, 1, 10_000).is_ok());
}

#[test]
fn empty_batch_is_rejected_after_the_amount() {
    let mut store = store_with_fee(250);
    let order_id = [9u8; 32];
    let ctx = payment_ctx(&order_id);
    let empty = process_batch_payment(&mut store, &pid(), &ctx, order_id, 10, vec![], affiliate(), 0, 1);
    assert_eq!(empty.err(), Some(ErrorCode::NoProducts));
    let zero = process_batch_payment(&mut store, &pid(), &ctx, order_id, 0, vec![], affiliate(), 0, 1);
    assert_eq!(zero.err(), Some(ErrorCode::InvalidAmount));
    assert!(!store.contains(&ctx.order_record));
}

#[test]
fn wrong_config_address_is_invalid_seeds() {
    let mut store = store_with_fee(250);
    let order_id = [1u8; 32];
    let mut ctx = payment_ctx(&order_id);
    ctx.config = addr(77);
    assert_eq!(pay(&mut store, &ctx, order_id, 10, 0).err(), Some(ErrorCode::InvalidSeeds));
}

#[test]
fn settlement_before_initialize_finds_no_config() {
    let mut store = Store::new();
    let order_id = [1u8; 32];
    let ctx = payment_ctx(&order_id);
    assert_eq!(pay(&mut store, &ctx, order_id, 10, 0).err(), Some(ErrorCode::UninitializedAccount));
}

#[test]
fn product_reference_is_bounded() {
    let mut store = store_with_fee(250);
    let order_id = [1u8; 32];
    let ctx = payment_ctx(&order_id);
    let long = "x".repeat(51);
    let r = process_payment(&mut store, &pid(), &ctx, order_id, 10, long, affiliate(), 0, 1);
    assert_eq!(r.err(), Some(ErrorCode::AccountDidNotSerialize));
    assert!(!store.contains(&ctx.order_record));
    let fits = "x".repeat(50);
    assert!(process_payment(&mut store, &pid(), &ctx, order_id, 10, fits, affiliate(), 0, 1).is_ok());
}

#[test]
fn commission_is_recorded_but_not_deducted() {
    let mut store = store_with_fee(1000);
    let order_id = [1u8; 32];
    let ctx = payment_ctx(&order_id);
    let out = pay(&mut store, &ctx, order_id, 1_000_000, 10_000).unwrap();
    assert_eq!(out.event.platform_fee, 100_000);
    assert_eq!(out.event.commission, 1_000_000);
    assert_eq!(out.transfer.amount, 900_000);
    assert!(out.event.platform_fee + out.event.commission > out.event.amount);
}

#[test]
fn largest_amount_settles_without_overflow() {
    let mut store = store_with_fee(1000);
    let order_id = [1u8; 32];
    let ctx = payment_ctx(&order_id);
    let out = pay(&mut store, &ctx, order_id, u64::MAX, 10_000).unwrap();
    assert_eq!(out.event.platform_fee, u64::MAX / 10);
    assert_eq!(out.event.commission, u64::MAX);
    assert_eq!(out.transfer.amount, u64::MAX - u64::MAX / 10);
}

#[test]
fn batch_count_is_the_number_of_products() {
    for n in [1usize, 255, 256, 257, 70_000] {
        let mut store = store_with_fee(0);
        let order_id = [1u8; 32];
        let ctx = payment_ctx(&order_id);
        let products: Vec<String> = (0..n).map(|i| format!("p{}", i)).collect();
        let out = process_batch_payment(
            &mut store,
            &pid(),
            &ctx,
            order_id,
            10,
            products,
            affiliate(),
            0,
            1,
        )
        .unwrap();
        assert_eq!(out.event.product_count, n as u64);
        match &store.get(&ctx.order_record).unwrap().entity {
            Entity::Order(record) => {
                assert_eq!(record.product, ProductReference::Batch { count: n as u64 })
            }
            other => panic!("not an order record: {:?}", other),
        }
    }
}

#[test]
fn a_record_without_room_for_the_reference_is_the_base_fields() {
    let mut store = store_with_fee(250);
    let order_id = [1u8; 32];
    let mut ctx = payment_ctx(&order_id);
    ctx.records_product = false;
    let long = "x".repeat(500);
    let out = process_payment(
        &mut store,
        &pid(),
        &ctx,
        order_id,
        1_000_000,
        long.clone(),
        affiliate(),
        500,
        9,
    )
    .unwrap();
    assert_eq!(out.event.product_id, long);
    let derived = order_address(&pid(), &order_id).unwrap();
    let allocation = store.get(&ctx.order_record).unwrap();
    assert_eq!(
        allocation,
        &Allocation {
            address: derived.address,
            payer: buyer(),
            space: 163,
            entity: Entity::Order(OrderRecord {
                order_id,
                buyer: buyer(),
                token_mint: mint(),
                amount: 1_000_000,
                platform_fee: 25_000,
                commission: 50_000,
                commission_bps: 500,
                api_key_owner: affiliate(),
                product: ProductReference::Unrecorded,
                timestamp: 9,
                bump: derived.bump,
            }),
        }
    );
    assert_eq!(allocation.entity.pack().unwrap().len(), 163);
}

fn token_ctx(mint: &Address) -> UpdateToken {
    UpdateToken {
        config: config(),
        authority: authority(),
        authority_is_signer: true,
        supported_token: token_address(&pid(), mint).unwrap().address,
    }
}

#[test]
fn registry_gates_the_payment_when_an_entry_is_named() {
    let mut store = store_with_fee(250);
    let order_id = [1u8; 32];
    let mut ctx = payment_ctx(&order_id);
    let entry = token_address(&pid(), &mint()).unwrap().address;
    ctx.supported_token = Some(entry);
    assert_eq!(pay(&mut store, &ctx, order_id, 10, 0).err(), Some(ErrorCode::TokenNotSupported));
    assert_eq!(add_supported_token(&mut store, &pid(), &token_ctx(&mint()), mint()), Ok(()));
    let mut wrong = ctx;
    wrong.supported_token = Some(addr(60));
    assert_eq!(pay(&mut store, &wrong, order_id, 10, 0).err(), Some(ErrorCode::InvalidSeeds));
    assert_eq!(remove_supported_token(&mut store, &pid(), &token_ctx(&mint())), Ok(()));
    assert_eq!(pay(&mut store, &ctx, order_id, 10, 0).err(), Some(ErrorCode::TokenNotSupported));
    assert_eq!(add_supported_token(&mut store, &pid(), &token_ctx(&mint()), mint()), Ok(()));
    assert!(pay(&mut store, &ctx, order_id, 10, 0).is_ok());
}

#[test]
fn registry_entry_of_another_token_does_not_admit() {
    let mut store = store_with_fee(250);
    let other = addr(61);
    assert_eq!(add_supported_token(&mut store, &pid(), &token_ctx(&other), other), Ok(()));
    let order_id = [1u8; 32];
    let mut ctx = payment_ctx(&order_id);
    ctx.supported_token = Some(token_address(&pid(), &other).unwrap().address);
    assert_eq!(pay(&mut store, &ctx, order_id, 10, 0).err(), Some(ErrorCode::InvalidSeeds));
}

#[test]
fn settle_payment_against_given_addresses() {
    let mut store = Store::new();
    let cfg = addr(1);
    let ord = addr(2);
    let derived_config = Some(Derived { address: cfg, bump: 254 });
    let init = Initialize { config: cfg, authority: authority(), authority_is_signer: true };
    assert_eq!(
        oxmart_payment::admin::apply_initialize(&mut store, &init, &derived_config, hot_wallet(), 250),
        Ok(())
    );
    let mut ctx = payment_ctx(&[0u8; 32]);
    ctx.config = cfg;
    ctx.order_record = ord;
    let derived = PaymentAddresses {
        config: derived_config,
        order: Some(Derived { address: ord, bump: 200 }),
        token: None,
    };
    let out = settle_payment(
        &mut store,
        &ctx,
        &derived,
        [0u8; 32],
        1_000_000,
        String::from("sku"),
        affiliate(),
        500,
        5,
    )
    .unwrap();
    assert_eq!(out.transfer.amount, 975_000);
    match &store.get(&ord).unwrap().entity {
        Entity::Order(record) => assert_eq!(record.bump, 200),
        other => panic!("not an order record: {:?}", other),
    }
    let none = PaymentAddresses { config: derived_config, order: None, token: None };
    ctx.order_record = addr(3);
    let r = settle_payment(&mut store, &ctx, &none, [0u8; 32], 1, String::new(), affiliate(), 0, 5);
    assert_eq!(r.err(), Some(ErrorCode::InvalidSeeds));
}
