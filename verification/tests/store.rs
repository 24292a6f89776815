use oxmart_payment::address::Address;
use oxmart_payment::state::{
    Allocation, Config, Entity, OrderRecord, ProductReference, SupportedToken,
};
use oxmart_payment::store::Store;

fn addr(n: u8) -> Address {
    Address::new([n; 32])
}

fn sample_config() -> Config {
    Config {
        authority: addr(1),
        hot_wallet: addr(2),
        platform_fee_bps: 250,
        max_platform_fee_bps: 1000,
        max_commission_bps: 10000,
        paused: false,
        bump: 255,
    }
}

fn sample_order() -> OrderRecord {
    OrderRecord {
        order_id: [9u8; 32],
        buyer: addr(3),
        token_mint: addr(4),
        amount: 100,
        platform_fee: 2,
        commission: 5,
        commission_bps: 500,
        api_key_owner: addr(5),
        product: ProductReference::Single(String::from("sku")),
        timestamp: 7,
        bump: 254,
    }
}

#[test]
fn a_new_store_holds_nothing() {
    let store = Store::new();
    assert!(!store.contains(&addr(1)));
    assert_eq!(store.get(&addr(1)), None);
    assert_eq!(store.config_at(&addr(1)), None);
    assert_eq!(store.token_at(&addr(1)), None);
}

#[test]
fn allocation_is_first_use_only() {
    let mut store = Store::new();
    assert!(store.allocate(addr(20), addr(1), Entity::Config(sample_config())));
    let mut other = sample_config();
    other.platform_fee_bps = 1;
    assert!(!store.allocate(addr(20), addr(2), Entity::Config(other)));
    assert_eq!(
        store.get(&addr(20)),
        Some(&Allocation {
            address: addr(20),
            payer: addr(1),
            space: 72,
            entity: Entity::Config(sample_config()),
        })
    );
}

#[test]
fn allocations_are_sized_to_their_layouts() {
    let mut store = Store::new();
    let token = SupportedToken { mint: addr(4), is_supported: true, bump: 1 };
    assert!(store.allocate(addr(20), addr(1), Entity::Config(sample_config())));
    assert!(store.allocate(addr(21), addr(1), Entity::Token(token)));
    assert!(store.allocate(addr(22), addr(1), Entity::Order(sample_order())));
    assert_eq!(store.get(&addr(20)).unwrap().space, 72);
    assert_eq!(store.get(&addr(21)).unwrap().space, 34);
    assert_eq!(store.get(&addr(22)).unwrap().space, 217);
    assert_eq!(Entity::Order(sample_order()).layout_len(), 217);
    let mut bare = sample_order();
    bare.product = ProductReference::Unrecorded;
    assert!(store.allocate(addr(23), addr(1), Entity::Order(bare)));
    assert_eq!(store.get(&addr(23)).unwrap().space, 163);
    let mut batch = sample_order();
    batch.product = ProductReference::Batch { count: 300 };
    assert!(store.allocate(addr(24), addr(1), Entity::Order(batch)));
    assert_eq!(store.get(&addr(24)).unwrap().space, 225);
}

#[test]
fn overwriting_needs_a_record_of_the_same_kind() {
    let mut store = Store::new();
    let token = SupportedToken { mint: addr(4), is_supported: true, bump: 1 };
    assert!(store.allocate(addr(20), addr(1), Entity::Config(sample_config())));
    assert!(store.allocate(addr(22), addr(1), Entity::Order(sample_order())));
    assert!(!store.put_token(&addr(20), token));
    assert!(!store.put_token(&addr(30), token));
    assert!(!store.put_config(&addr(22), sample_config()));
    assert!(!store.put_config(&addr(30), sample_config()));
    let mut changed = sample_config();
    changed.paused = true;
    assert!(store.put_config(&addr(20), changed));
    assert_eq!(store.config_at(&addr(20)), Some(changed));
    assert_eq!(store.get(&addr(20)).unwrap().payer, addr(1));
    assert_eq!(store.get(&addr(22)).unwrap().entity, Entity::Order(sample_order()));
}

#[test]
fn typed_reads_see_only_their_kind() {
    let mut store = Store::new();
    assert!(store.allocate(addr(22), addr(1), Entity::Order(sample_order())));
    assert!(store.contains(&addr(22)));
    assert_eq!(store.config_at(&addr(22)), None);
    assert_eq!(store.token_at(&addr(22)), None);
}

#[test]
fn well_formedness_tests() {
    let mut c = sample_config();
    assert!(c.is_wf());
    c.platform_fee_bps = 1001;
    assert!(!c.is_wf());
    c.platform_fee_bps = 0;
    c.max_platform_fee_bps = 999;
    assert!(!c.is_wf());
    let mut o = sample_order();
    assert!(o.is_wf());
    o.product = ProductReference::Single("é".repeat(25));
    assert!(o.is_wf());
    o.product = ProductReference::Single("é".repeat(26));
    assert!(!o.is_wf());
    assert!(!Entity::Order(o.clone()).is_wf());
    o.product = ProductReference::Unrecorded;
    assert!(o.is_wf());
    o.product = ProductReference::Batch { count: u64::MAX };
    assert!(o.is_wf());
}
