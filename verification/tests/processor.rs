use oxmart_payment::address::Address;
use oxmart_payment::derivation::{config_address, order_address, order_id_of, token_address};
use oxmart_payment::error::ProgramFailure;
use oxmart_payment::instruction::PaymentInstruction;
use oxmart_payment::processor::{Account, Processed, Processor};
use oxmart_payment::state::{Entity, ProductReference};
use oxmart_payment::store::Store;

fn addr(n: u8) -> Address {
    Address::new([n; 32])
}

fn pid() -> Address {
    addr(7)
}

fn plain(key: Address) -> Account {
    Account { key, is_signer: false, holder: None }
}

fn signer(key: Address) -> Account {
    Account { key, is_signer: true, holder: None }
}

fn holding(key: Address, holder: Address) -> Account {
    Account { key, is_signer: false, holder: Some(holder) }
}

fn config() -> Address {
    config_address(&pid()).unwrap().address
}

fn token_program() -> Address {
    Address::new(spl_token::id().to_bytes())
}

fn run(store: &mut Store, accounts: &[Account], instruction: &PaymentInstruction)
    -> Result<Processed, ProgramFailure> {
    Processor::process(store, &pid(), accounts, &instruction.pack().unwrap(), 1_700_000_000)
}

fn admin_accounts() -> Vec<Account> {
    vec![signer(addr(10)), plain(config())]
}

fn initialized() -> Store {
    let mut store = Store::new();
    let accounts = vec![signer(addr(10)), plain(config()), plain(addr(0))];
    let r = run(&mut store, &accounts, &PaymentInstruction::Initialize { hot_wallet: addr(11) });
    assert_eq!(r, Ok(Processed::Initialized));
    store
}

fn payment_accounts(order: &str, mint: Address) -> Vec<Account> {
    let order_id = order_id_of(order);
    vec![
        signer(addr(12)),
        holding(addr(20), addr(12)),
        holding(addr(21), addr(11)),
        plain(mint),
        plain(config()),
        plain(token_address(&pid(), &mint).unwrap().address),
        plain(order_address(&pid(), &order_id).unwrap().address),
        plain(addr(14)),
        plain(token_program()),
        plain(addr(0)),
    ]
}

fn register(store: &mut Store, mint: Address) {
    let accounts = vec![
        signer(addr(10)),
        plain(config()),
        plain(token_address(&pid(), &mint).unwrap().address),
        plain(mint),
        plain(addr(0)),
    ];
    let r = run(store, &accounts, &PaymentInstruction::AddSupportedToken { token_mint: mint });
    assert_eq!(r, Ok(Processed::TokenAdded));
}

#[test]
fn initialize_starts_with_no_fee() {
    let store = initialized();
    let c = store.config_at(&config()).unwrap();
    assert_eq!(c.platform_fee_bps, 0);
    assert_eq!(c.authority, addr(10));
    assert_eq!(c.hot_wallet, addr(11));
    assert_eq!(c.max_platform_fee_bps, 1000);
    assert_eq!(c.max_commission_bps, 10000);
}

#[test]
fn bytes_that_decode_to_nothing_are_invalid_instruction() {
    let mut store = initialized();
    let r = Processor::process(&mut store, &pid(), &admin_accounts(), &[42], 0);
    assert_eq!(r, Err(ProgramFailure::Custom(0)));
    let r = Processor::process(&mut store, &pid(), &admin_accounts(), &[], 0);
    assert_eq!(r, Err(ProgramFailure::Custom(0)));
    let r = Processor::process(&mut store, &pid(), &admin_accounts(), &[6, 6], 0);
    assert_eq!(r, Err(ProgramFailure::Custom(0)));
}

#[test]
fn payment_through_the_front_end() {
    let mut store = initialized();
    let mint = addr(13);
    register(&mut store, mint);
    let fee = PaymentInstruction::UpdatePlatformFee { new_fee_bps: 250 };
    assert_eq!(run(&mut store, &admin_accounts(), &fee), Ok(Processed::PlatformFeeUpdated));
    let accounts = payment_accounts("order-1", mint);
    let instruction = PaymentInstruction::ProcessPayment {
        order_id: String::from("order-1"),
        amount: 1_000_000,
        product_id: String::from("sku"),
        commission_bps: 500,
    };
    let outcome = match run(&mut store, &accounts, &instruction) {
        Ok(Processed::Payment(outcome)) => outcome,
        other => panic!("not a payment: {:?}", other),
    };
    assert_eq!(outcome.transfer.amount, 975_000);
    assert_eq!(outcome.transfer.source, addr(20));
    assert_eq!(outcome.transfer.destination, addr(21));
    assert_eq!(outcome.transfer.authority, addr(12));
    assert_eq!(outcome.event.order_id, order_id_of("order-1"));
    assert_eq!(outcome.event.token_mint, mint);
    assert_eq!(outcome.event.api_key_owner, addr(14));
    assert_eq!(outcome.event.platform_fee, 25_000);
    assert_eq!(outcome.event.commission, 50_000);
    assert_eq!(outcome.event.timestamp, 1_700_000_000);
    let allocation = store.get(&accounts[6].key).unwrap();
    assert_eq!(allocation.space, 163);
    assert_eq!(allocation.payer, addr(12));
    match &allocation.entity {
        Entity::Order(record) => {
            assert_eq!(record.order_id, order_id_of("order-1"));
            assert_eq!(record.buyer, addr(12));
            assert_eq!(record.token_mint, mint);
            assert_eq!(record.api_key_owner, addr(14));
            assert_eq!(record.amount, 1_000_000);
            assert_eq!(record.product, ProductReference::Unrecorded);
            assert_eq!(record.commission_bps, 500);
            assert_eq!(record.timestamp, 1_700_000_000);
            assert_eq!(record.bump, order_address(&pid(), &order_id_of("order-1")).unwrap().bump);
            assert_eq!(record.pack().unwrap().len(), 163);
        }
        other => panic!("not an order record: {:?}", other),
    }
    assert_eq!(run(&mut store, &accounts, &instruction), Err(ProgramFailure::Custom(4)));
}

#[test]
fn batch_through_the_front_end() {
    let mut store = initialized();
    let mint = addr(13);
    register(&mut store, mint);
    let accounts = payment_accounts("cart-1", mint);
    let instruction = PaymentInstruction::ProcessBatchPayment {
        order_id: String::from("cart-1"),
        total_amount: 3_000_000,
        product_ids: vec![String::from("a"), String::from("b"), String::from("c")],
        commission_bps: 0,
    };
    match run(&mut store, &accounts, &instruction) {
        Ok(Processed::BatchPayment(outcome)) => {
            assert_eq!(outcome.event.product_count, 3);
            assert_eq!(outcome.transfer.amount, 3_000_000);
        }
        other => panic!("not a batch: {:?}", other),
    }
    let allocation = store.get(&accounts[6].key).unwrap();
    assert_eq!(allocation.space, 225);
    match &allocation.entity {
        Entity::Order(record) => assert_eq!(record.product, ProductReference::Batch { count: 3 }),
        other => panic!("not an order record: {:?}", other),
    }
    let empty = PaymentInstruction::ProcessBatchPayment {
        order_id: String::from("cart-2"),
        total_amount: 1,
        product_ids: vec![],
        commission_bps: 0,
    };
    assert_eq!(
        run(&mut store, &payment_accounts("cart-2", mint), &empty),
        Err(ProgramFailure::Custom(11))
    );
}

#[test]
fn the_registry_always_gates_the_front_end() {
    let mut store = initialized();
    let mint = addr(13);
    let accounts = payment_accounts("order-1", mint);
    let instruction = PaymentInstruction::ProcessPayment {
        order_id: String::from("order-1"),
        amount: 10,
        product_id: String::from("sku"),
        commission_bps: 0,
    };
    assert_eq!(run(&mut store, &accounts, &instruction), Err(ProgramFailure::Custom(5)));
    register(&mut store, mint);
    let remove = vec![signer(addr(10)), plain(config()), accounts[5]];
    assert_eq!(
        run(&mut store, &remove, &PaymentInstruction::RemoveSupportedToken),
        Ok(Processed::TokenRemoved)
    );
    assert_eq!(run(&mut store, &accounts, &instruction), Err(ProgramFailure::Custom(5)));
}

#[test]
fn failures_are_reported_in_the_front_end_codes() {
    let mut store = initialized();
    let mint = addr(13);
    register(&mut store, mint);
    let stranger = vec![signer(addr(66)), plain(config())];
    assert_eq!(run(&mut store, &stranger, &PaymentInstruction::Pause), Err(ProgramFailure::Custom(1)));
    let unsigned = vec![plain(addr(10)), plain(config())];
    assert_eq!(
        run(&mut store, &unsigned, &PaymentInstruction::Pause),
        Err(ProgramFailure::MissingRequiredSignature)
    );
    let elsewhere = vec![signer(addr(10)), plain(addr(1))];
    assert_eq!(
        run(&mut store, &elsewhere, &PaymentInstruction::Pause),
        Err(ProgramFailure::InvalidSeeds)
    );
    let fee = PaymentInstruction::UpdatePlatformFee { new_fee_bps: 1001 };
    assert_eq!(run(&mut store, &admin_accounts(), &fee), Err(ProgramFailure::Custom(10)));
    let again = vec![signer(addr(10)), plain(config()), plain(addr(0))];
    assert_eq!(
        run(&mut store, &again, &PaymentInstruction::Initialize { hot_wallet: addr(1) }),
        Err(ProgramFailure::Custom(2))
    );
    assert_eq!(run(&mut store, &admin_accounts(), &PaymentInstruction::Pause), Ok(Processed::Paused));
    let payment = PaymentInstruction::ProcessPayment {
        order_id: String::from("o"),
        amount: 0,
        product_id: String::new(),
        commission_bps: 10_001,
    };
    let accounts = payment_accounts("o", mint);
    assert_eq!(run(&mut store, &accounts, &payment), Err(ProgramFailure::Custom(8)));
    assert_eq!(
        run(&mut store, &admin_accounts(), &PaymentInstruction::Unpause),
        Ok(Processed::Unpaused)
    );
    assert_eq!(run(&mut store, &accounts, &payment), Err(ProgramFailure::Custom(7)));
    let payment = PaymentInstruction::ProcessPayment {
        order_id: String::from("o"),
        amount: 0,
        product_id: String::new(),
        commission_bps: 10_000,
    };
    assert_eq!(run(&mut store, &accounts, &payment), Err(ProgramFailure::Custom(6)));
}

#[test]
fn a_product_reference_of_any_length_is_accepted() {
    let mut store = initialized();
    let mint = addr(13);
    register(&mut store, mint);
    let accounts = payment_accounts("o", mint);
    let payment = PaymentInstruction::ProcessPayment {
        order_id: String::from("o"),
        amount: 1,
        product_id: "x".repeat(51),
        commission_bps: 0,
    };
    match run(&mut store, &accounts, &payment) {
        Ok(Processed::Payment(outcome)) => assert_eq!(outcome.event.product_id, "x".repeat(51)),
        other => panic!("not a payment: {:?}", other),
    }
    assert_eq!(store.get(&accounts[6].key).unwrap().space, 163);
}

#[test]
fn too_few_accounts() {
    let mut store = initialized();
    let one = vec![signer(addr(10))];
    assert_eq!(
        run(&mut store, &one, &PaymentInstruction::Pause),
        Err(ProgramFailure::NotEnoughAccountKeys)
    );
    assert_eq!(
        run(&mut store, &admin_accounts(), &PaymentInstruction::RemoveSupportedToken),
        Err(ProgramFailure::NotEnoughAccountKeys)
    );
    assert_eq!(
        run(&mut store, &admin_accounts(), &PaymentInstruction::Initialize { hot_wallet: addr(1) }),
        Err(ProgramFailure::NotEnoughAccountKeys)
    );
    let mut accounts = payment_accounts("o", addr(13));
    accounts.pop();
    let payment = PaymentInstruction::ProcessPayment {
        order_id: String::from("o"),
        amount: 1,
        product_id: String::new(),
        commission_bps: 0,
    };
    assert_eq!(run(&mut store, &accounts, &payment), Err(ProgramFailure::NotEnoughAccountKeys));
    assert_eq!(
        run(&mut store, &admin_accounts(), &PaymentInstruction::EmergencyWithdraw { amount: 1 }),
        Err(ProgramFailure::NotEnoughAccountKeys)
    );
}

#[test]
fn holding_accounts_must_be_holding_accounts() {
    let mut store = initialized();
    let mint = addr(13);
    register(&mut store, mint);
    let mut accounts = payment_accounts("o", mint);
    accounts[2].holder = None;
    let payment = PaymentInstruction::ProcessPayment {
        order_id: String::from("o"),
        amount: 1,
        product_id: String::new(),
        commission_bps: 0,
    };
    assert_eq!(run(&mut store, &accounts, &payment), Err(ProgramFailure::InvalidAccountData));
    accounts[2].holder = Some(addr(99));
    assert_eq!(run(&mut store, &accounts, &payment), Err(ProgramFailure::Custom(13)));
    accounts[2].holder = Some(addr(11));
    accounts[1].holder = Some(addr(99));
    assert_eq!(run(&mut store, &accounts, &payment), Err(ProgramFailure::Custom(12)));
}

#[test]
fn the_transfer_must_go_to_the_token_program() {
    let mut store = initialized();
    let mint = addr(13);
    register(&mut store, mint);
    let mut accounts = payment_accounts("o", mint);
    accounts[8] = plain(addr(1));
    let payment = PaymentInstruction::ProcessPayment {
        order_id: String::from("o"),
        amount: 1,
        product_id: String::new(),
        commission_bps: 0,
    };
    assert_eq!(run(&mut store, &accounts, &payment), Err(ProgramFailure::IncorrectProgramId));
    assert!(!store.contains(&accounts[6].key));
}

#[test]
fn hot_wallet_update_and_withdrawal_through_the_front_end() {
    let mut store = initialized();
    let update = PaymentInstruction::UpdateHotWallet { new_hot_wallet: addr(30) };
    match run(&mut store, &admin_accounts(), &update) {
        Ok(Processed::HotWalletUpdated(event)) => {
            assert_eq!(event.old_hot_wallet, addr(11));
            assert_eq!(event.new_hot_wallet, addr(30));
            assert_eq!(event.authority, addr(10));
        }
        other => panic!("not an update: {:?}", other),
    }
    let accounts = vec![
        signer(addr(10)),
        plain(config()),
        plain(addr(40)),
        plain(addr(41)),
        plain(token_program()),
    ];
    match run(&mut store, &accounts, &PaymentInstruction::EmergencyWithdraw { amount: 500 }) {
        Ok(Processed::Withdrawn(w)) => {
            assert_eq!(w.transfer.source, addr(40));
            assert_eq!(w.transfer.destination, addr(41));
            assert_eq!(w.transfer.authority, config());
            assert_eq!(w.transfer.amount, 500);
        }
        other => panic!("not a withdrawal: {:?}", other),
    }
    assert_eq!(
        run(&mut store, &accounts, &PaymentInstruction::EmergencyWithdraw { amount: 0 }),
        Err(ProgramFailure::Custom(6))
    );
}
