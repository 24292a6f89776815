//! Configuration and administration: creating the configuration singleton, rotating the
//! hot wallet, bounding the platform fee, the pause switch, the token registry and the
//! emergency withdrawal. Every operation but the first is reserved to the authority.

use vstd::prelude::*;
use crate::address::Address;
use crate::derivation::{
    config_address,
    derived_view,
    expect_address,
    spec_config_address,
    spec_expect_address,
    spec_token_address,
    token_address,
    Derived,
};
use crate::error::ErrorCode;
use crate::fees::{MAX_COMMISSION_BPS, MAX_PLATFORM_FEE_BPS};
use crate::state::{Allocation, Config, Entity, SupportedToken, CONFIG_LEN, SUPPORTED_TOKEN_LEN};
use crate::store::Store;
use crate::token::{token_program_id, transfer_instruction, Transfer, TransferInstruction};

verus! {

/// The accounts of `initialize`.
#[derive(Clone, Copy, Debug, PartialEq, Eq)]
pub struct Initialize {
    /// Supplied address of the configuration's storage.
    pub config: Address,
    /// Who becomes the authority, and pays for the storage.
    pub authority: Address,
    pub authority_is_signer: bool,
}

/// The accounts of an operation reserved to the authority.
#[derive(Clone, Copy, Debug, PartialEq, Eq)]
pub struct UpdateConfig {
    /// Supplied address of the configuration's storage.
    pub config: Address,
    /// The caller.
    pub authority: Address,
    pub authority_is_signer: bool,
}

/// The accounts of a registry operation.
#[derive(Clone, Copy, Debug, PartialEq, Eq)]
pub struct UpdateToken {
    /// Supplied address of the configuration's storage.
    pub config: Address,
    /// The caller.
    pub authority: Address,
    pub authority_is_signer: bool,
    /// Supplied address of the registry entry's storage.
    pub supported_token: Address,
}

/// The accounts of `emergency_withdraw`.
#[derive(Clone, Copy, Debug, PartialEq, Eq)]
pub struct EmergencyWithdraw {
    /// Supplied address of the configuration's storage.
    pub config: Address,
    /// The caller.
    pub authority: Address,
    pub authority_is_signer: bool,
    /// Address of the vault: the holding account in the program's custody.
    pub program_token_account: Address,
    /// Address of the holding account where the authority wants the funds.
    pub authority_token_account: Address,
    /// The program that is to perform the transfer.
    pub token_program: Address,
}

/// Notice that the hot wallet changed.
#[derive(Clone, Copy, Debug, PartialEq, Eq)]
pub struct HotWalletUpdated {
    pub old_hot_wallet: Address,
    pub new_hot_wallet: Address,
    pub authority: Address,
}

/// A transfer out of the vault, which the program authorizes itself by signing for its
/// configuration address with this bump.
#[derive(Clone, Debug, PartialEq, Eq)]
pub struct Withdrawal {
    pub transfer: Transfer,
    pub instruction: TransferInstruction,
    pub bump: u8,
}

/// The configuration that an operation works on: the one stored at the supplied address,
/// where that address is the derived one.
pub open spec fn spec_load_config(store: Store, config: Seq<u8>, derived: Option<(Seq<u8>, u8)>)
    -> Result<Config, ErrorCode> {
    match spec_expect_address(config, derived) {
        Err(e) => Err(e),
        Ok(_) => match store.spec_config_at(config) {
            None => Err(ErrorCode::UninitializedAccount),
            Some(c) => Ok(c),
        },
    }
}

/// What every operation reserved to the authority checks first: the configuration is
/// loaded, the caller has signed, and the caller is the stored authority.
pub open spec fn spec_authorize(
    store: Store,
    config: Seq<u8>,
    authority: Seq<u8>,
    signed: bool,
    derived: Option<(Seq<u8>, u8)>,
) -> Result<Config, ErrorCode> {
    match spec_load_config(store, config, derived) {
        Err(e) => Err(e),
        Ok(c) => if !signed {
            Err(ErrorCode::MissingRequiredSignature)
        } else if c.authority@ != authority {
            Err(ErrorCode::Unauthorized)
        } else {
            Ok(c)
        },
    }
}

/// `post` is `pre` with the configuration at `k` overwritten by `c`.
pub open spec fn config_replaced(pre: Store, post: Store, k: Seq<u8>, c: Config) -> bool {
    &&& post@ == pre@.insert(k, Allocation { entity: Entity::Config(c), ..pre@[k] })
    &&& post.spec_config_at(k) == Some(c)
}

/// Loads the configuration stored at the supplied address.
pub fn load_config(store: &Store, config: &Address, derived: &Option<Derived>) -> (r: Result<
    Config,
    ErrorCode,
>)
    requires
        store.wf(),
    ensures
        r == spec_load_config(*store, config@, derived_view(*derived)),
        r matches Ok(c) ==> c.wf(),
{
    match expect_address(config, derived) {
        Err(e) => Err(e),
        Ok(_) => match store.config_at(config) {
            None => Err(ErrorCode::UninitializedAccount),
            Some(c) => Ok(c),
        },
    }
}

/// Checks that the caller may administer: the configuration it loaded, or the failure.
pub fn authorize(
    store: &Store,
    config: &Address,
    authority: &Address,
    signed: bool,
    derived: &Option<Derived>,
) -> (r: Result<Config, ErrorCode>)
    requires
        store.wf(),
    ensures
        r == spec_authorize(*store, config@, authority@, signed, derived_view(*derived)),
        r matches Ok(c) ==> c.wf(),
{
    match load_config(store, config, derived) {
        Err(e) => Err(e),
        Ok(c) => if !signed {
            Err(ErrorCode::MissingRequiredSignature)
        } else if c.authority != *authority {
            Err(ErrorCode::Unauthorized)
        } else {
            Ok(c)
        },
    }
}

/// An operation reserved to the authority fails with `Unauthorized` for every signer that
/// is not the stored authority, and is open to the stored authority.
pub proof fn lemma_authority_only(
    store: Store,
    config: Seq<u8>,
    authority: Seq<u8>,
    derived: Option<(Seq<u8>, u8)>,
)
    requires
        spec_load_config(store, config, derived) is Ok,
    ensures
        authority != spec_load_config(store, config, derived)->Ok_0.authority@ ==> spec_authorize(
            store,
            config,
            authority,
            true,
            derived,
        ) == Err::<Config, ErrorCode>(ErrorCode::Unauthorized),
        authority == spec_load_config(store, config, derived)->Ok_0.authority@ ==> spec_authorize(
            store,
            config,
            authority,
            true,
            derived,
        ) == spec_load_config(store, config, derived),
{
}

/// The checks of `initialize`, in their order, and the bump of the configuration's address.
pub open spec fn spec_initialize_gate(
    store: Store,
    ctx: Initialize,
    platform_fee_bps: u16,
    derived: Option<(Seq<u8>, u8)>,
) -> Result<u8, ErrorCode> {
    match spec_expect_address(ctx.config@, derived) {
        Err(e) => Err(e),
        Ok(bump) => if !ctx.authority_is_signer {
            Err(ErrorCode::MissingRequiredSignature)
        } else if store@.contains_key(ctx.config@) {
            Err(ErrorCode::AlreadyInitialized)
        } else if platform_fee_bps > MAX_PLATFORM_FEE_BPS {
            Err(ErrorCode::FeeTooHigh)
        } else {
            Ok(bump)
        },
    }
}

/// The contract of `initialize`, over the derived address it was held against.
pub open spec fn initialized(
    pre: Store,
    post: Store,
    ctx: Initialize,
    derived: Option<(Seq<u8>, u8)>,
    hot_wallet: Address,
    platform_fee_bps: u16,
    r: Result<(), ErrorCode>,
) -> bool {
    match spec_initialize_gate(pre, ctx, platform_fee_bps, derived) {
        Err(e) => r == Err::<(), ErrorCode>(e) && post@ == pre@,
        Ok(bump) => {
            let c = Config {
                authority: ctx.authority,
                hot_wallet,
                platform_fee_bps,
                max_platform_fee_bps: MAX_PLATFORM_FEE_BPS,
                max_commission_bps: MAX_COMMISSION_BPS,
                paused: false,
                bump,
            };
            &&& r == Ok::<(), ErrorCode>(())
            &&& post@ == pre@.insert(
                ctx.config@,
                Allocation {
                    address: ctx.config,
                    payer: ctx.authority,
                    space: CONFIG_LEN,
                    entity: Entity::Config(c),
                },
            )
            &&& post.spec_config_at(ctx.config@) == Some(c)
        },
    }
}

/// Creates the configuration against the derived address `derived`.
pub fn apply_initialize(
    store: &mut Store,
    ctx: &Initialize,
    derived: &Option<Derived>,
    hot_wallet: Address,
    platform_fee_bps: u16,
) -> (r: Result<(), ErrorCode>)
    requires
        old(store).wf(),
    ensures
        final(store).wf(),
        old(store).orders_kept_by(final(store)),
        initialized(
            *old(store),
            *final(store),
            *ctx,
            derived_view(*derived),
            hot_wallet,
            platform_fee_bps,
            r,
        ),
{
    let bump: u8 = match expect_address(&ctx.config, derived) {
        Err(e) => {
            return Err(e);
        },
        Ok(bump) => bump,
    };
    if !ctx.authority_is_signer {
        return Err(ErrorCode::MissingRequiredSignature);
    }
    if store.contains(&ctx.config) {
        return Err(ErrorCode::AlreadyInitialized);
    }
    if platform_fee_bps > MAX_PLATFORM_FEE_BPS {
        return Err(ErrorCode::FeeTooHigh);
    }
    let c = Config {
        authority: ctx.authority,
        hot_wallet,
        platform_fee_bps,
        max_platform_fee_bps: MAX_PLATFORM_FEE_BPS,
        max_commission_bps: MAX_COMMISSION_BPS,
        paused: false,
        bump,
    };
    let created: bool = store.allocate(ctx.config, ctx.authority, Entity::Config(c));
    assert(created);
    Ok(())
}

/// Creates the configuration singleton under `program_id`: the signer becomes the
/// authority. Fails with `InvalidSeeds` for another address than the derived one, with
/// `AlreadyInitialized` where storage exists there, with `FeeTooHigh` above the cap.
pub fn initialize(
    store: &mut Store,
    program_id: &Address,
    ctx: &Initialize,
    hot_wallet: Address,
    platform_fee_bps: u16,
) -> (r: Result<(), ErrorCode>)
    requires
        old(store).wf(),
    ensures
        final(store).wf(),
        old(store).orders_kept_by(final(store)),
        initialized(
            *old(store),
            *final(store),
            *ctx,
            spec_config_address(program_id@),
            hot_wallet,
            platform_fee_bps,
            r,
        ),
{
    let derived: Option<Derived> = config_address(program_id);
    apply_initialize(store, ctx, &derived, hot_wallet, platform_fee_bps)
}

/// The contract of `update_hot_wallet`, over the derived address it was held against.
pub open spec fn hot_wallet_updated(
    pre: Store,
    post: Store,
    ctx: UpdateConfig,
    derived: Option<(Seq<u8>, u8)>,
    new_hot_wallet: Address,
    r: Result<HotWalletUpdated, ErrorCode>,
) -> bool {
    match spec_authorize(pre, ctx.config@, ctx.authority@, ctx.authority_is_signer, derived) {
        Err(e) => r == Err::<HotWalletUpdated, ErrorCode>(e) && post@ == pre@,
        Ok(c) => {
            &&& r == Ok::<HotWalletUpdated, ErrorCode>(
                HotWalletUpdated {
                    old_hot_wallet: c.hot_wallet,
                    new_hot_wallet,
                    authority: ctx.authority,
                },
            )
            &&& config_replaced(pre, post, ctx.config@, Config { hot_wallet: new_hot_wallet, ..c })
        },
    }
}

/// Overwrites the hot wallet against the derived address `derived`.
pub fn apply_hot_wallet(
    store: &mut Store,
    ctx: &UpdateConfig,
    derived: &Option<Derived>,
    new_hot_wallet: Address,
) -> (r: Result<HotWalletUpdated, ErrorCode>)
    requires
        old(store).wf(),
    ensures
        final(store).wf(),
        old(store).orders_kept_by(final(store)),
        hot_wallet_updated(
            *old(store),
            *final(store),
            *ctx,
            derived_view(*derived),
            new_hot_wallet,
            r,
        ),
{
    let c: Config = match authorize(
        store,
        &ctx.config,
        &ctx.authority,
        ctx.authority_is_signer,
        derived,
    ) {
        Err(e) => {
            return Err(e);
        },
        Ok(c) => c,
    };
    let updated = Config { hot_wallet: new_hot_wallet, ..c };
    let written: bool = store.put_config(&ctx.config, updated);
    assert(written);
    Ok(
        HotWalletUpdated {
            old_hot_wallet: c.hot_wallet,
            new_hot_wallet,
            authority: ctx.authority,
        },
    )
}

/// Points settlements at another hot wallet: an unconditional overwrite by the authority,
/// reported with the old and the new value.
pub fn update_hot_wallet(
    store: &mut Store,
    program_id: &Address,
    ctx: &UpdateConfig,
    new_hot_wallet: Address,
) -> (r: Result<HotWalletUpdated, ErrorCode>)
    requires
        old(store).wf(),
    ensures
        final(store).wf(),
        old(store).orders_kept_by(final(store)),
        hot_wallet_updated(
            *old(store),
            *final(store),
            *ctx,
            spec_config_address(program_id@),
            new_hot_wallet,
            r,
        ),
{
    let derived: Option<Derived> = config_address(program_id);
    apply_hot_wallet(store, ctx, &derived, new_hot_wallet)
}

/// The contract of `update_platform_fee`, over the derived address it was held against.
pub open spec fn platform_fee_updated(
    pre: Store,
    post: Store,
    ctx: UpdateConfig,
    derived: Option<(Seq<u8>, u8)>,
    new_fee_bps: u16,
    r: Result<(), ErrorCode>,
) -> bool {
    match spec_authorize(pre, ctx.config@, ctx.authority@, ctx.authority_is_signer, derived) {
        Err(e) => r == Err::<(), ErrorCode>(e) && post@ == pre@,
        Ok(c) => if new_fee_bps > c.max_platform_fee_bps {
            r == Err::<(), ErrorCode>(ErrorCode::FeeTooHigh) && post@ == pre@
        } else {
            &&& r == Ok::<(), ErrorCode>(())
            &&& config_replaced(pre, post, ctx.config@, Config { platform_fee_bps: new_fee_bps, ..c })
        },
    }
}

/// Overwrites the platform fee against the derived address `derived`.
pub fn apply_platform_fee(
    store: &mut Store,
    ctx: &UpdateConfig,
    derived: &Option<Derived>,
    new_fee_bps: u16,
) -> (r: Result<(), ErrorCode>)
    requires
        old(store).wf(),
    ensures
        final(store).wf(),
        old(store).orders_kept_by(final(store)),
        platform_fee_updated(
            *old(store),
            *final(store),
            *ctx,
            derived_view(*derived),
            new_fee_bps,
            r,
        ),
{
    let c: Config = match authorize(
        store,
        &ctx.config,
        &ctx.authority,
        ctx.authority_is_signer,
        derived,
    ) {
        Err(e) => {
            return Err(e);
        },
        Ok(c) => c,
    };
    if new_fee_bps > c.max_platform_fee_bps {
        return Err(ErrorCode::FeeTooHigh);
    }
    let updated = Config { platform_fee_bps: new_fee_bps, ..c };
    let written: bool = store.put_config(&ctx.config, updated);
    assert(written);
    Ok(())
}

/// Sets the platform fee: `FeeTooHigh` above the cap, else an overwrite by the authority.
pub fn update_platform_fee(
    store: &mut Store,
    program_id: &Address,
    ctx: &UpdateConfig,
    new_fee_bps: u16,
) -> (r: Result<(), ErrorCode>)
    requires
        old(store).wf(),
    ensures
        final(store).wf(),
        old(store).orders_kept_by(final(store)),
        platform_fee_updated(
            *old(store),
            *final(store),
            *ctx,
            spec_config_address(program_id@),
            new_fee_bps,
            r,
        ),
{
    let derived: Option<Derived> = config_address(program_id);
    apply_platform_fee(store, ctx, &derived, new_fee_bps)
}

/// The contract of `pause` and `unpause`, over the derived address they were held against.
pub open spec fn pause_set(
    pre: Store,
    post: Store,
    ctx: UpdateConfig,
    derived: Option<(Seq<u8>, u8)>,
    paused: bool,
    r: Result<(), ErrorCode>,
) -> bool {
    match spec_authorize(pre, ctx.config@, ctx.authority@, ctx.authority_is_signer, derived) {
        Err(e) => r == Err::<(), ErrorCode>(e) && post@ == pre@,
        Ok(c) => {
            &&& r == Ok::<(), ErrorCode>(())
            &&& config_replaced(pre, post, ctx.config@, Config { paused, ..c })
        },
    }
}

/// Sets the pause flag against the derived address `derived`.
pub fn apply_pause(
    store: &mut Store,
    ctx: &UpdateConfig,
    derived: &Option<Derived>,
    paused: bool,
) -> (r: Result<(), ErrorCode>)
    requires
        old(store).wf(),
    ensures
        final(store).wf(),
        old(store).orders_kept_by(final(store)),
        pause_set(*old(store), *final(store), *ctx, derived_view(*derived), paused, r),
{
    let c: Config = match authorize(
        store,
        &ctx.config,
        &ctx.authority,
        ctx.authority_is_signer,
        derived,
    ) {
        Err(e) => {
            return Err(e);
        },
        Ok(c) => c,
    };
    let updated = Config { paused, ..c };
    let written: bool = store.put_config(&ctx.config, updated);
    assert(written);
    Ok(())
}

/// Switches settlement off.
pub fn pause(store: &mut Store, program_id: &Address, ctx: &UpdateConfig) -> (r: Result<
    (),
    ErrorCode,
>)
    requires
        old(store).wf(),
    ensures
        final(store).wf(),
        old(store).orders_kept_by(final(store)),
        pause_set(*old(store), *final(store), *ctx, spec_config_address(program_id@), true, r),
{
    let derived: Option<Derived> = config_address(program_id);
    apply_pause(store, ctx, &derived, true)
}

/// Switches settlement back on.
pub fn unpause(store: &mut Store, program_id: &Address, ctx: &UpdateConfig) -> (r: Result<
    (),
    ErrorCode,
>)
    requires
        old(store).wf(),
    ensures
        final(store).wf(),
        old(store).orders_kept_by(final(store)),
        pause_set(*old(store), *final(store), *ctx, spec_config_address(program_id@), false, r),
{
    let derived: Option<Derived> = config_address(program_id);
    apply_pause(store, ctx, &derived, false)
}

/// The transfer that `emergency_withdraw` asks for and the bump to sign with, or why it
/// refuses, over the derived address it was held against.
pub open spec fn spec_withdrawal(
    store: Store,
    ctx: EmergencyWithdraw,
    derived: Option<(Seq<u8>, u8)>,
    amount: u64,
) -> Result<(Transfer, u8), ErrorCode> {
    match spec_authorize(store, ctx.config@, ctx.authority@, ctx.authority_is_signer, derived) {
        Err(e) => Err(e),
        Ok(c) => if amount == 0 {
            Err(ErrorCode::InvalidAmount)
        } else if ctx.token_program@ != token_program_id() {
            Err(ErrorCode::IncorrectProgramId)
        } else {
            Ok(
                (
                    Transfer {
                        source: ctx.program_token_account,
                        destination: ctx.authority_token_account,
                        authority: ctx.config,
                        amount,
                    },
                    c.bump,
                ),
            )
        },
    }
}

/// The contract of `emergency_withdraw`, over the derived address it was held against.
pub open spec fn withdrawal_authorized(
    store: Store,
    ctx: EmergencyWithdraw,
    derived: Option<(Seq<u8>, u8)>,
    amount: u64,
    r: Result<Withdrawal, ErrorCode>,
) -> bool {
    match spec_withdrawal(store, ctx, derived, amount) {
        Err(e) => r == Err::<Withdrawal, ErrorCode>(e),
        Ok((transfer, bump)) => {
            &&& r matches Ok(w)
            &&& w.transfer == transfer
            &&& w.bump == bump
            &&& w.instruction.carries(ctx.token_program@, transfer)
        },
    }
}

/// Authorizes a withdrawal against the derived address `derived`.
pub fn apply_withdrawal(
    store: &Store,
    ctx: &EmergencyWithdraw,
    derived: &Option<Derived>,
    amount: u64,
) -> (r: Result<Withdrawal, ErrorCode>)
    requires
        store.wf(),
    ensures
        withdrawal_authorized(*store, *ctx, derived_view(*derived), amount, r),
{
    let c: Config = match authorize(
        store,
        &ctx.config,
        &ctx.authority,
        ctx.authority_is_signer,
        derived,
    ) {
        Err(e) => {
            return Err(e);
        },
        Ok(c) => c,
    };
    if amount == 0 {
        return Err(ErrorCode::InvalidAmount);
    }
    let transfer = Transfer {
        source: ctx.program_token_account,
        destination: ctx.authority_token_account,
        authority: ctx.config,
        amount,
    };
    match transfer_instruction(&ctx.token_program, &transfer) {
        Err(e) => Err(e),
        Ok(instruction) => Ok(Withdrawal { transfer, instruction, bump: c.bump }),
    }
}

/// The authority's escape hatch: asks for a transfer of `amount` out of the vault to the
/// holding account that the authority names, signed for by the program itself. The amount
/// must be positive and has no cap but the vault's balance. The store is only read.
pub fn emergency_withdraw(
    store: &Store,
    program_id: &Address,
    ctx: &EmergencyWithdraw,
    amount: u64,
) -> (r: Result<Withdrawal, ErrorCode>)
    requires
        store.wf(),
    ensures
        withdrawal_authorized(*store, *ctx, spec_config_address(program_id@), amount, r),
{
    let derived: Option<Derived> = config_address(program_id);
    apply_withdrawal(store, ctx, &derived, amount)
}

/// The contract of `add_supported_token`, over the derived addresses it was held against.
pub open spec fn token_added(
    pre: Store,
    post: Store,
    ctx: UpdateToken,
    derived_config: Option<(Seq<u8>, u8)>,
    derived_token: Option<(Seq<u8>, u8)>,
    token_mint: Address,
    r: Result<(), ErrorCode>,
) -> bool {
    match spec_authorize(pre, ctx.config@, ctx.authority@, ctx.authority_is_signer, derived_config) {
        Err(e) => r == Err::<(), ErrorCode>(e) && post@ == pre@,
        Ok(_) => match spec_expect_address(ctx.supported_token@, derived_token) {
            Err(e) => r == Err::<(), ErrorCode>(e) && post@ == pre@,
            Ok(bump) => {
                let entry = SupportedToken { mint: token_mint, is_supported: true, bump };
                if !pre@.contains_key(ctx.supported_token@) {
                    &&& r == Ok::<(), ErrorCode>(())
                    &&& post@ == pre@.insert(
                        ctx.supported_token@,
                        Allocation {
                            address: ctx.supported_token,
                            payer: ctx.authority,
                            space: SUPPORTED_TOKEN_LEN,
                            entity: Entity::Token(entry),
                        },
                    )
                    &&& post.spec_token_at(ctx.supported_token@) == Some(entry)
                } else if pre.spec_token_at(ctx.supported_token@) is Some {
                    &&& r == Ok::<(), ErrorCode>(())
                    &&& post@ == pre@.insert(
                        ctx.supported_token@,
                        Allocation { entity: Entity::Token(entry), ..pre@[ctx.supported_token@] },
                    )
                    &&& post.spec_token_at(ctx.supported_token@) == Some(entry)
                } else {
                    r == Err::<(), ErrorCode>(ErrorCode::UninitializedAccount) && post@ == pre@
                }
            },
        },
    }
}

/// Registers a token type against the derived addresses.
pub fn apply_add_token(
    store: &mut Store,
    ctx: &UpdateToken,
    derived_config: &Option<Derived>,
    derived_token: &Option<Derived>,
    token_mint: Address,
) -> (r: Result<(), ErrorCode>)
    requires
        old(store).wf(),
    ensures
        final(store).wf(),
        old(store).orders_kept_by(final(store)),
        token_added(
            *old(store),
            *final(store),
            *ctx,
            derived_view(*derived_config),
            derived_view(*derived_token),
            token_mint,
            r,
        ),
{
    match authorize(store, &ctx.config, &ctx.authority, ctx.authority_is_signer, derived_config) {
        Err(e) => {
            return Err(e);
        },
        Ok(_) => {},
    }
    let bump: u8 = match expect_address(&ctx.supported_token, derived_token) {
        Err(e) => {
            return Err(e);
        },
        Ok(bump) => bump,
    };
    let entry = SupportedToken { mint: token_mint, is_supported: true, bump };
    if store.contains(&ctx.supported_token) {
        if store.put_token(&ctx.supported_token, entry) {
            Ok(())
        } else {
            Err(ErrorCode::UninitializedAccount)
        }
    } else {
        let created: bool = store.allocate(ctx.supported_token, ctx.authority, Entity::Token(entry));
        assert(created);
        Ok(())
    }
}

/// Registers the token type `token_mint`, or enables it again: the entry is created where
/// absent and overwritten where present, and ends enabled either way.
pub fn add_supported_token(
    store: &mut Store,
    program_id: &Address,
    ctx: &UpdateToken,
    token_mint: Address,
) -> (r: Result<(), ErrorCode>)
    requires
        old(store).wf(),
    ensures
        final(store).wf(),
        old(store).orders_kept_by(final(store)),
        token_added(
            *old(store),
            *final(store),
            *ctx,
            spec_config_address(program_id@),
            spec_token_address(program_id@, token_mint@),
            token_mint,
            r,
        ),
{
    let derived_config: Option<Derived> = config_address(program_id);
    let derived_token: Option<Derived> = token_address(program_id, &token_mint);
    apply_add_token(store, ctx, &derived_config, &derived_token, token_mint)
}

/// The contract of `remove_supported_token`, over the derived addresses it was held
/// against: the entry stays, disabled.
pub open spec fn token_removed(
    pre: Store,
    post: Store,
    ctx: UpdateToken,
    derived_config: Option<(Seq<u8>, u8)>,
    derived_token: Option<(Seq<u8>, u8)>,
    r: Result<(), ErrorCode>,
) -> bool {
    match spec_authorize(pre, ctx.config@, ctx.authority@, ctx.authority_is_signer, derived_config) {
        Err(e) => r == Err::<(), ErrorCode>(e) && post@ == pre@,
        Ok(_) => match pre.spec_token_at(ctx.supported_token@) {
            None => r == Err::<(), ErrorCode>(ErrorCode::UninitializedAccount) && post@ == pre@,
            Some(t) => match spec_expect_address(ctx.supported_token@, derived_token) {
                Err(e) => r == Err::<(), ErrorCode>(e) && post@ == pre@,
                Ok(_) => {
                    let entry = SupportedToken { is_supported: false, ..t };
                    &&& r == Ok::<(), ErrorCode>(())
                    &&& post@ == pre@.insert(
                        ctx.supported_token@,
                        Allocation { entity: Entity::Token(entry), ..pre@[ctx.supported_token@] },
                    )
                    &&& post.spec_token_at(ctx.supported_token@) == Some(entry)
                },
            },
        },
    }
}

/// Disables a registry entry against the derived addresses; `derived_token` is the address
/// derived for the token type that the entry holds.
pub fn apply_remove_token(
    store: &mut Store,
    ctx: &UpdateToken,
    derived_config: &Option<Derived>,
    derived_token: &Option<Derived>,
) -> (r: Result<(), ErrorCode>)
    requires
        old(store).wf(),
    ensures
        final(store).wf(),
        old(store).orders_kept_by(final(store)),
        token_removed(
            *old(store),
            *final(store),
            *ctx,
            derived_view(*derived_config),
            derived_view(*derived_token),
            r,
        ),
{
    match authorize(store, &ctx.config, &ctx.authority, ctx.authority_is_signer, derived_config) {
        Err(e) => {
            return Err(e);
        },
        Ok(_) => {},
    }
    let t: SupportedToken = match store.token_at(&ctx.supported_token) {
        None => {
            return Err(ErrorCode::UninitializedAccount);
        },
        Some(t) => t,
    };
    match expect_address(&ctx.supported_token, derived_token) {
        Err(e) => {
            return Err(e);
        },
        Ok(_) => {},
    }
    let entry = SupportedToken { is_supported: false, ..t };
    let written: bool = store.put_token(&ctx.supported_token, entry);
    assert(written);
    Ok(())
}

/// The address derived for the token type of the entry stored at `entry`, where one is.
pub open spec fn spec_stored_token_address(store: Store, program_id: Seq<u8>, entry: Seq<u8>)
    -> Option<(Seq<u8>, u8)> {
    match store.spec_token_at(entry) {
        Some(t) => spec_token_address(program_id, t.mint@),
        None => None,
    }
}

/// Disables the token type whose entry is stored at the supplied address. The entry is
/// kept, so that the address stays taken.
pub fn remove_supported_token(store: &mut Store, program_id: &Address, ctx: &UpdateToken) -> (r:
    Result<(), ErrorCode>)
    requires
        old(store).wf(),
    ensures
        final(store).wf(),
        old(store).orders_kept_by(final(store)),
        token_removed(
            *old(store),
            *final(store),
            *ctx,
            spec_config_address(program_id@),
            spec_stored_token_address(*old(store), program_id@, ctx.supported_token@),
            r,
        ),
{
    let derived_config: Option<Derived> = config_address(program_id);
    let derived_token: Option<Derived> = match store.token_at(&ctx.supported_token) {
        Some(t) => token_address(program_id, &t.mint),
        None => None,
    };
    apply_remove_token(store, ctx, &derived_config, &derived_token)
}


} // verus!
