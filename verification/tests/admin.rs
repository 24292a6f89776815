use oxmart_payment::address::Address;
use oxmart_payment::admin::{
    add_supported_token, emergency_withdraw, initialize, pause, remove_supported_token, unpause,
    update_hot_wallet, update_platform_fee, EmergencyWithdraw, HotWalletUpdated, Initialize,
    UpdateConfig, UpdateToken,
};
use oxmart_payment::derivation::{config_address, token_address};
use oxmart_payment::error::ErrorCode;
use oxmart_payment::state::{Allocation, Config, Entity, SupportedToken};
use oxmart_payment::store::Store;
use oxmart_payment::token::Transfer;

fn addr(n: u8) -> Address {
    Address::new([n; 32])
}

fn pid() -> Address {
    addr(7)
}

fn authority() -> Address {
    addr(10)
}

fn hot_wallet() -> Address {
    addr(11)
}

fn stranger() -> Address {
    addr(66)
}

fn token_program() -> Address {
    Address::new(spl_token::id().to_bytes())
}

fn config() -> Address {
    config_address(&pid()).unwrap().address
}

fn by(who: Address) -> UpdateConfig {
    UpdateConfig { config: config(), authority: who, authority_is_signer: true }
}

fn initialized(fee_bps: u16) -> Store {
    let mut store = Store::new();
    let ctx = Initialize { config: config(), authority: authority(), authority_is_signer: true };
    assert_eq!(initialize(&mut store, &pid(), &ctx, hot_wallet(), fee_bps), Ok(()));
    store
}

#[test]
fn initialize_creates_the_configuration() {
    let store = initialized(250);
    let derived = config_address(&pid()).unwrap();
    let expected = Config {
        authority: authority(),
        hot_wallet: hot_wallet(),
        platform_fee_bps: 250,
        max_platform_fee_bps: 1000,
        max_commission_bps: 10000,
        paused: false,
        bump: derived.bump,
    };
    assert_eq!(store.config_at(&config()), Some(expected));
    assert_eq!(
        store.get(&config()),
        Some(&Allocation {
            address: derived.address,
            payer: authority(),
            space: 72,
            entity: Entity::Config(expected),
        })
    );
}

#[test]
fn initialize_happens_once() {
    let mut store = initialized(250);
    let before = store.config_at(&config());
    let ctx = Initialize { config: config(), authority: stranger(), authority_is_signer: true };
    assert_eq!(
        initialize(&mut store, &pid(), &ctx, stranger(), 0),
        Err(ErrorCode::AlreadyInitialized)
    );
    assert_eq!(store.config_at(&config()), before);
}

#[test]
fn initialize_checks_address_signature_and_fee() {
    let mut store = Store::new();
    let good = Initialize { config: config(), authority: authority(), authority_is_signer: true };
    let mut ctx = good;
    ctx.config = addr(1);
    assert_eq!(initialize(&mut store, &pid(), &ctx, hot_wallet(), 0), Err(ErrorCode::InvalidSeeds));
    ctx = good;
    ctx.authority_is_signer = false;
    assert_eq!(
        initialize(&mut store, &pid(), &ctx, hot_wallet(), 0),
        Err(ErrorCode::MissingRequiredSignature)
    );
    assert_eq!(initialize(&mut store, &pid(), &good, hot_wallet(), 1001), Err(ErrorCode::FeeTooHigh));
    assert!(!store.contains(&config()));
    assert_eq!(initialize(&mut store, &pid(), &good, hot_wallet(), 1000), Ok(()));
}

#[test]
fn hot_wallet_update_by_the_authority() {
    let mut store = initialized(250);
    let r = update_hot_wallet(&mut store, &pid(), &by(authority()), addr(30));
    assert_eq!(
        r,
        Ok(HotWalletUpdated {
            old_hot_wallet: hot_wallet(),
            new_hot_wallet: addr(30),
            authority: authority(),
        })
    );
    assert_eq!(store.config_at(&config()).unwrap().hot_wallet, addr(30));
}

#[test]
fn every_admin_operation_turns_a_stranger_away() {
    let mut store = initialized(250);
    let before = store.config_at(&config());
    let ctx = by(stranger());
    assert_eq!(
        update_hot_wallet(&mut store, &pid(), &ctx, addr(30)),
        Err(ErrorCode::Unauthorized)
    );
    assert_eq!(update_platform_fee(&mut store, &pid(), &ctx, 10), Err(ErrorCode::Unauthorized));
    assert_eq!(update_platform_fee(&mut store, &pid(), &ctx, 5000), Err(ErrorCode::Unauthorized));
    assert_eq!(pause(&mut store, &pid(), &ctx), Err(ErrorCode::Unauthorized));
    assert_eq!(unpause(&mut store, &pid(), &ctx), Err(ErrorCode::Unauthorized));
    let withdraw = EmergencyWithdraw {
        config: config(),
        authority: stranger(),
        authority_is_signer: true,
        program_token_account: addr(40),
        authority_token_account: addr(41),
        token_program: token_program(),
    };
    assert_eq!(
        emergency_withdraw(&store, &pid(), &withdraw, 5).err(),
        Some(ErrorCode::Unauthorized)
    );
    assert_eq!(
        emergency_withdraw(&store, &pid(), &withdraw, 0).err(),
        Some(ErrorCode::Unauthorized)
    );
    let mint = addr(13);
    let token = UpdateToken {
        config: config(),
        authority: stranger(),
        authority_is_signer: true,
        supported_token: token_address(&pid(), &mint).unwrap().address,
    };
    assert_eq!(add_supported_token(&mut store, &pid(), &token, mint), Err(ErrorCode::Unauthorized));
    assert_eq!(remove_supported_token(&mut store, &pid(), &token), Err(ErrorCode::Unauthorized));
    assert_eq!(store.config_at(&config()), before);
    assert!(!store.contains(&token.supported_token));
}

#[test]
fn the_authority_must_have_signed() {
    let mut store = initialized(250);
    let mut ctx = by(authority());
    ctx.authority_is_signer = false;
    assert_eq!(pause(&mut store, &pid(), &ctx), Err(ErrorCode::MissingRequiredSignature));
    assert_eq!(store.config_at(&config()).unwrap().paused, false);
}

#[test]
fn admin_operations_check_the_config_address() {
    let mut store = initialized(250);
    let mut ctx = by(authority());
    ctx.config = addr(1);
    assert_eq!(pause(&mut store, &pid(), &ctx), Err(ErrorCode::InvalidSeeds));
    let mut empty = Store::new();
    assert_eq!(pause(&mut empty, &pid(), &by(authority())), Err(ErrorCode::UninitializedAccount));
}

#[test]
fn platform_fee_is_bounded_by_the_cap() {
    let mut store = initialized(250);
    let ctx = by(authority());
    assert_eq!(update_platform_fee(&mut store, &pid(), &ctx, 1001), Err(ErrorCode::FeeTooHigh));
    assert_eq!(update_platform_fee(&mut store, &pid(), &ctx, u16::MAX), Err(ErrorCode::FeeTooHigh));
    assert_eq!(store.config_at(&config()).unwrap().platform_fee_bps, 250);
    assert_eq!(update_platform_fee(&mut store, &pid(), &ctx, 1000), Ok(()));
    assert_eq!(store.config_at(&config()).unwrap().platform_fee_bps, 1000);
    assert_eq!(update_platform_fee(&mut store, &pid(), &ctx, 0), Ok(()));
    assert_eq!(store.config_at(&config()).unwrap().platform_fee_bps, 0);
}

#[test]
fn pause_and_unpause_flip_the_flag() {
    let mut store = initialized(250);
    let ctx = by(authority());
    assert_eq!(pause(&mut store, &pid(), &ctx), Ok(()));
    assert!(store.config_at(&config()).unwrap().paused);
    assert_eq!(pause(&mut store, &pid(), &ctx), Ok(()));
    assert!(store.config_at(&config()).unwrap().paused);
    assert_eq!(unpause(&mut store, &pid(), &ctx), Ok(()));
    assert!(!store.config_at(&config()).unwrap().paused);
}

#[test]
fn emergency_withdraw_is_signed_by_the_program() {
    let store = initialized(250);
    let ctx = EmergencyWithdraw {
        config: config(),
        authority: authority(),
        authority_is_signer: true,
        program_token_account: addr(40),
        authority_token_account: addr(41),
        token_program: token_program(),
    };
    let w = emergency_withdraw(&store, &pid(), &ctx, u64::MAX).unwrap();
    assert_eq!(
        w.transfer,
        Transfer { source: addr(40), destination: addr(41), authority: config(), amount: u64::MAX }
    );
    assert_eq!(w.bump, config_address(&pid()).unwrap().bump);
    assert_eq!(w.instruction.data, vec![3u8, 255, 255, 255, 255, 255, 255, 255, 255]);
    assert_eq!(w.instruction.accounts[2].pubkey, config());
    assert!(w.instruction.accounts[2].is_signer);
    assert_eq!(emergency_withdraw(&store, &pid(), &ctx, 0).err(), Some(ErrorCode::InvalidAmount));
    let mut other = ctx;
    other.token_program = addr(1);
    assert_eq!(
        emergency_withdraw(&store, &pid(), &other, 1).err(),
        Some(ErrorCode::IncorrectProgramId)
    );
}

#[test]
fn registry_entries_are_created_overwritten_and_disabled() {
    let mut store = initialized(250);
    let mint = addr(13);
    let derived = token_address(&pid(), &mint).unwrap();
    let ctx = UpdateToken {
        config: config(),
        authority: authority(),
        authority_is_signer: true,
        supported_token: derived.address,
    };
    assert_eq!(remove_supported_token(&mut store, &pid(), &ctx), Err(ErrorCode::UninitializedAccount));
    assert_eq!(add_supported_token(&mut store, &pid(), &ctx, mint), Ok(()));
    let enabled = SupportedToken { mint, is_supported: true, bump: derived.bump };
    assert_eq!(
        store.get(&derived.address),
        Some(&Allocation {
            address: derived.address,
            payer: authority(),
            space: 34,
            entity: Entity::Token(enabled),
        })
    );
    assert_eq!(add_supported_token(&mut store, &pid(), &ctx, mint), Ok(()));
    assert_eq!(store.token_at(&derived.address), Some(enabled));
    assert_eq!(remove_supported_token(&mut store, &pid(), &ctx), Ok(()));
    assert_eq!(
        store.token_at(&derived.address),
        Some(SupportedToken { mint, is_supported: false, bump: derived.bump })
    );
    assert_eq!(remove_supported_token(&mut store, &pid(), &ctx), Ok(()));
    assert_eq!(add_supported_token(&mut store, &pid(), &ctx, mint), Ok(()));
    assert_eq!(store.token_at(&derived.address), Some(enabled));
}

#[test]
fn registry_checks_the_entry_address() {
    let mut store = initialized(250);
    let mint = addr(13);
    let ctx = UpdateToken {
        config: config(),
        authority: authority(),
        authority_is_signer: true,
        supported_token: token_address(&pid(), &addr(14)).unwrap().address,
    };
    assert_eq!(add_supported_token(&mut store, &pid(), &ctx, mint), Err(ErrorCode::InvalidSeeds));
    assert!(!store.contains(&ctx.supported_token));
}
