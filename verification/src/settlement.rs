//! The settlement engine: admission of a payment, its fees, the transfer it asks for and
//! the order record that makes it final.
//!
//! A settlement either commits (one new order record, one transfer to perform, one
//! event) or is rejected with one error and leaves the store as it was. The record's
//! existence at the order's derived address is the replay guard.
//!
//! The engine does not move funds. A committed settlement hands the transfer to the host,
//! and the host keeps the changed store only where the transfer went through: record and
//! transfer stand or fall together on the host's side.
//!
//! Known gap, kept on purpose: the commission is a share of the gross amount, is only
//! recorded for a later payout, and is bounded by its own cap alone. It is not held
//! against what is left after the platform fee, so fee and commission together can exceed
//! the amount.

use vstd::prelude::*;
use crate::address::Address;
use crate::admin::{load_config, spec_load_config};
use crate::derivation::{
    config_address,
    derived_view,
    expect_address,
    order_address,
    spec_config_address,
    spec_expect_address,
    spec_order_address,
    spec_token_address,
    token_address,
    Derived,
};
use crate::error::ErrorCode;
use crate::fees::{compute_fees, fee_breakdown, FeeBreakdown};
use crate::state::{
    utf8_len,
    Allocation,
    Config,
    Entity,
    OrderRecord,
    ProductReference,
    MAX_PRODUCT_ID_LEN,
};
use crate::store::Store;
use crate::token::{
    token_program_id,
    transfer_instruction,
    TokenAccount,
    Transfer,
    TransferInstruction,
};

verus! {

/// The accounts of a settlement.
#[derive(Clone, Copy, Debug, PartialEq, Eq)]
pub struct ProcessPayment {
    /// Supplied address of the configuration's storage.
    pub config: Address,
    /// Supplied address of the order record's storage.
    pub order_record: Address,
    /// Whether the storage of a single payment's record has room for the product
    /// reference. Where it has none the record is the base fields alone and the reference
    /// is not kept.
    pub records_product: bool,
    /// Who pays, and funds the record's storage.
    pub buyer: Address,
    pub buyer_is_signer: bool,
    /// The buyer's holding account.
    pub buyer_token_account: TokenAccount,
    /// The hot wallet's holding account.
    pub hot_wallet_token_account: TokenAccount,
    /// Supplied address of the registry entry of the payment's token type, where the
    /// registry gates the payment.
    pub supported_token: Option<Address>,
    /// The program that is to perform the transfer.
    pub token_program: Address,
}

/// The derived addresses that a settlement is held against.
#[derive(Clone, Copy, Debug, PartialEq, Eq)]
pub struct PaymentAddresses {
    pub config: Option<Derived>,
    pub order: Option<Derived>,
    pub token: Option<Derived>,
}

/// Notice of a settled payment.
#[derive(Clone, Debug, PartialEq, Eq)]
pub struct PaymentProcessed {
    pub order_id: [u8; 32],
    pub buyer: Address,
    pub token_mint: Address,
    pub amount: u64,
    pub platform_fee: u64,
    pub api_key_owner: Address,
    pub commission: u64,
    pub product_id: String,
    pub timestamp: i64,
}

/// Notice of a settled batch.
#[derive(Clone, Copy, Debug, PartialEq, Eq)]
pub struct BatchPaymentProcessed {
    pub order_id: [u8; 32],
    pub buyer: Address,
    pub token_mint: Address,
    pub total_amount: u64,
    pub platform_fee: u64,
    pub api_key_owner: Address,
    pub commission: u64,
    pub product_count: u64,
    pub timestamp: i64,
}

/// What a settled payment asks of its host: perform the transfer, emit the event.
#[derive(Clone, Debug, PartialEq, Eq)]
pub struct PaymentOutcome {
    pub transfer: Transfer,
    pub instruction: TransferInstruction,
    pub event: PaymentProcessed,
}

/// What a settled batch asks of its host: perform the transfer, emit the event.
#[derive(Clone, Debug, PartialEq, Eq)]
pub struct BatchPaymentOutcome {
    pub transfer: Transfer,
    pub instruction: TransferInstruction,
    pub event: BatchPaymentProcessed,
}

/// What admission establishes: the configuration in force, the bump of the order's
/// address and the fees.
#[derive(Clone, Copy, Debug, PartialEq, Eq)]
pub struct Admission {
    pub config: Config,
    pub bump: u8,
    pub fees: FeeBreakdown,
}

/// Whether the product reference of a single payment fits its record: always where the
/// record keeps none, else where it is at most 50 bytes.
pub open spec fn reference_fits(ctx: ProcessPayment, product_id: Seq<char>) -> bool {
    ctx.records_product ==> utf8_len(product_id) <= MAX_PRODUCT_ID_LEN
}

/// What the record of a single payment says of the product: the reference, or nothing
/// where the record keeps none.
pub open spec fn recorded_product(ctx: ProcessPayment, product_id: String) -> ProductReference {
    if ctx.records_product {
        ProductReference::Single(product_id)
    } else {
        ProductReference::Unrecorded
    }
}

/// The registry check: none where no entry is named; else the named entry is at the
/// address derived for the payment's token type, and is enabled for it.
pub open spec fn spec_token_gate(
    store: Store,
    ctx: ProcessPayment,
    derived_token: Option<(Seq<u8>, u8)>,
) -> Result<(), ErrorCode> {
    match ctx.supported_token {
        None => Ok(()),
        Some(entry) => match spec_expect_address(entry@, derived_token) {
            Err(e) => Err(e),
            Ok(_) => match store.spec_token_at(entry@) {
                Some(t) => if t.is_supported && t.mint@ == ctx.buyer_token_account.mint@ {
                    Ok(())
                } else {
                    Err(ErrorCode::TokenNotSupported)
                },
                None => Err(ErrorCode::TokenNotSupported),
            },
        },
    }
}

/// Admission of a settlement: the checks in their order, each a hard failure, and what
/// they establish. `has_products` is false for an empty batch only; `reference_fits` is
/// whether the product reference fits the record's layout.
pub open spec fn spec_admission(
    store: Store,
    ctx: ProcessPayment,
    amount: u64,
    commission_bps: u16,
    has_products: bool,
    reference_fits: bool,
    derived_config: Option<(Seq<u8>, u8)>,
    derived_order: Option<(Seq<u8>, u8)>,
    derived_token: Option<(Seq<u8>, u8)>,
) -> Result<Admission, ErrorCode> {
    match spec_load_config(store, ctx.config@, derived_config) {
        Err(e) => Err(e),
        Ok(c) => if c.paused {
            Err(ErrorCode::ProgramPaused)
        } else if commission_bps > c.max_commission_bps {
            Err(ErrorCode::InvalidCommission)
        } else if amount == 0 {
            Err(ErrorCode::InvalidAmount)
        } else if !has_products {
            Err(ErrorCode::NoProducts)
        } else {
            match spec_token_gate(store, ctx, derived_token) {
                Err(e) => Err(e),
                Ok(_) => match spec_expect_address(ctx.order_record@, derived_order) {
                    Err(e) => Err(e),
                    Ok(bump) => if store@.contains_key(ctx.order_record@) {
                        Err(ErrorCode::OrderAlreadyProcessed)
                    } else if !ctx.buyer_is_signer {
                        Err(ErrorCode::MissingRequiredSignature)
                    } else if ctx.buyer_token_account.owner@ != ctx.buyer@ {
                        Err(ErrorCode::InvalidTokenAccount)
                    } else if ctx.hot_wallet_token_account.owner@ != c.hot_wallet@ {
                        Err(ErrorCode::InvalidHotWallet)
                    } else {
                        match fee_breakdown(amount, c.platform_fee_bps, commission_bps) {
                            None => Err(ErrorCode::ArithmeticOverflow),
                            Some(fees) => if ctx.token_program@ != token_program_id() {
                                Err(ErrorCode::IncorrectProgramId)
                            } else if !reference_fits {
                                Err(ErrorCode::AccountDidNotSerialize)
                            } else {
                                Ok(Admission { config: c, bump, fees })
                            },
                        }
                    },
                },
            }
        },
    }
}

/// The transfer of a settlement: the net amount, from the buyer's holding account to the
/// hot wallet's, authorized by the buyer.
pub open spec fn spec_transfer(ctx: ProcessPayment, net_amount: u64) -> Transfer {
    Transfer {
        source: ctx.buyer_token_account.address,
        destination: ctx.hot_wallet_token_account.address,
        authority: ctx.buyer,
        amount: net_amount,
    }
}

/// The allocation of an order record: at the supplied address, funded by the buyer, as
/// large as the record's layout: 163 bytes without a product reference, 217 with one, 225
/// for a batch.
pub open spec fn order_allocation(ctx: ProcessPayment, record: OrderRecord) -> Allocation {
    Allocation {
        address: ctx.order_record,
        payer: ctx.buyer,
        space: record.space(),
        entity: Entity::Order(record),
    }
}

/// The contract of a single settlement, over the derived addresses it was held against.
pub open spec fn payment_settled(
    pre: Store,
    post: Store,
    ctx: ProcessPayment,
    derived_config: Option<(Seq<u8>, u8)>,
    derived_order: Option<(Seq<u8>, u8)>,
    derived_token: Option<(Seq<u8>, u8)>,
    order_id: [u8; 32],
    amount: u64,
    product_id: String,
    api_key_owner: Address,
    commission_bps: u16,
    timestamp: i64,
    r: Result<PaymentOutcome, ErrorCode>,
) -> bool {
    match spec_admission(
        pre,
        ctx,
        amount,
        commission_bps,
        true,
        reference_fits(ctx, product_id@),
        derived_config,
        derived_order,
        derived_token,
    ) {
        Err(e) => r == Err::<PaymentOutcome, ErrorCode>(e) && post@ == pre@,
        Ok(a) => {
            &&& r matches Ok(out)
            &&& out.transfer == spec_transfer(ctx, a.fees.net_amount)
            &&& out.instruction.carries(ctx.token_program@, out.transfer)
            &&& out.event == PaymentProcessed {
                order_id,
                buyer: ctx.buyer,
                token_mint: ctx.buyer_token_account.mint,
                amount,
                platform_fee: a.fees.platform_fee,
                api_key_owner,
                commission: a.fees.commission,
                product_id,
                timestamp,
            }
            &&& post@ == pre@.insert(
                ctx.order_record@,
                order_allocation(
                    ctx,
                    OrderRecord {
                        order_id,
                        buyer: ctx.buyer,
                        token_mint: ctx.buyer_token_account.mint,
                        amount,
                        platform_fee: a.fees.platform_fee,
                        commission: a.fees.commission,
                        commission_bps,
                        api_key_owner,
                        product: recorded_product(ctx, product_id),
                        timestamp,
                        bump: a.bump,
                    },
                ),
            )
        },
    }
}

/// The contract of a batch settlement, over the derived addresses it was held against.
/// The record is that of a batch, and record and event hold the number of products.
pub open spec fn batch_settled(
    pre: Store,
    post: Store,
    ctx: ProcessPayment,
    derived_config: Option<(Seq<u8>, u8)>,
    derived_order: Option<(Seq<u8>, u8)>,
    derived_token: Option<(Seq<u8>, u8)>,
    order_id: [u8; 32],
    total_amount: u64,
    product_count: nat,
    api_key_owner: Address,
    commission_bps: u16,
    timestamp: i64,
    r: Result<BatchPaymentOutcome, ErrorCode>,
) -> bool {
    match spec_admission(
        pre,
        ctx,
        total_amount,
        commission_bps,
        product_count > 0,
        true,
        derived_config,
        derived_order,
        derived_token,
    ) {
        Err(e) => r == Err::<BatchPaymentOutcome, ErrorCode>(e) && post@ == pre@,
        Ok(a) => {
            &&& r matches Ok(out)
            &&& out.transfer == spec_transfer(ctx, a.fees.net_amount)
            &&& out.instruction.carries(ctx.token_program@, out.transfer)
            &&& out.event == BatchPaymentProcessed {
                order_id,
                buyer: ctx.buyer,
                token_mint: ctx.buyer_token_account.mint,
                total_amount,
                platform_fee: a.fees.platform_fee,
                api_key_owner,
                commission: a.fees.commission,
                product_count: product_count as u64,
                timestamp,
            }
            &&& out.event.product_count == product_count
            &&& post@ == pre@.insert(
                ctx.order_record@,
                order_allocation(
                    ctx,
                    OrderRecord {
                        order_id,
                        buyer: ctx.buyer,
                        token_mint: ctx.buyer_token_account.mint,
                        amount: total_amount,
                        platform_fee: a.fees.platform_fee,
                        commission: a.fees.commission,
                        commission_bps,
                        api_key_owner,
                        product: ProductReference::Batch { count: product_count as u64 },
                        timestamp,
                        bump: a.bump,
                    },
                ),
            )
        },
    }
}

/// The derived addresses of a settlement under `program_id`: the registry entry's only
/// where the settlement names one.
pub open spec fn spec_payment_addresses(program_id: Seq<u8>, ctx: ProcessPayment, order_id: Seq<u8>)
    -> (Option<(Seq<u8>, u8)>, Option<(Seq<u8>, u8)>, Option<(Seq<u8>, u8)>) {
    (
        spec_config_address(program_id),
        spec_order_address(program_id, order_id),
        if ctx.supported_token is Some {
            spec_token_address(program_id, ctx.buyer_token_account.mint@)
        } else {
            None
        },
    )
}

fn token_gate(store: &Store, ctx: &ProcessPayment, derived_token: &Option<Derived>) -> (r: Result<
    (),
    ErrorCode,
>)
    requires
        store.wf(),
    ensures
        r == spec_token_gate(*store, *ctx, derived_view(*derived_token)),
{
    match &ctx.supported_token {
        None => Ok(()),
        Some(entry) => match expect_address(entry, derived_token) {
            Err(e) => Err(e),
            Ok(_) => match store.token_at(entry) {
                Some(t) => if t.is_supported && t.mint == ctx.buyer_token_account.mint {
                    Ok(())
                } else {
                    Err(ErrorCode::TokenNotSupported)
                },
                None => Err(ErrorCode::TokenNotSupported),
            },
        },
    }
}

/// Runs the admission checks in their order and names the first that fails. An admitted
/// settlement comes with the instruction for its transfer.
pub fn check_admission(
    store: &Store,
    ctx: &ProcessPayment,
    derived: &PaymentAddresses,
    amount: u64,
    commission_bps: u16,
    has_products: bool,
    reference_fits: bool,
) -> (r: Result<(Admission, TransferInstruction), ErrorCode>)
    requires
        store.wf(),
    ensures
        match spec_admission(
            *store,
            *ctx,
            amount,
            commission_bps,
            has_products,
            reference_fits,
            derived_view(derived.config),
            derived_view(derived.order),
            derived_view(derived.token),
        ) {
            Err(e) => r == Err::<(Admission, TransferInstruction), ErrorCode>(e),
            Ok(a) => r matches Ok((admission, instruction)) && admission == a
                && instruction.carries(ctx.token_program@, spec_transfer(*ctx, a.fees.net_amount)),
        },
{
    let c: Config = match load_config(store, &ctx.config, &derived.config) {
        Err(e) => {
            return Err(e);
        },
        Ok(c) => c,
    };
    if c.paused {
        return Err(ErrorCode::ProgramPaused);
    }
    if commission_bps > c.max_commission_bps {
        return Err(ErrorCode::InvalidCommission);
    }
    if amount == 0 {
        return Err(ErrorCode::InvalidAmount);
    }
    if !has_products {
        return Err(ErrorCode::NoProducts);
    }
    match token_gate(store, ctx, &derived.token) {
        Err(e) => {
            return Err(e);
        },
        Ok(_) => {},
    }
    let bump: u8 = match expect_address(&ctx.order_record, &derived.order) {
        Err(e) => {
            return Err(e);
        },
        Ok(bump) => bump,
    };
    if store.contains(&ctx.order_record) {
        return Err(ErrorCode::OrderAlreadyProcessed);
    }
    if !ctx.buyer_is_signer {
        return Err(ErrorCode::MissingRequiredSignature);
    }
    if ctx.buyer_token_account.owner != ctx.buyer {
        return Err(ErrorCode::InvalidTokenAccount);
    }
    if ctx.hot_wallet_token_account.owner != c.hot_wallet {
        return Err(ErrorCode::InvalidHotWallet);
    }
    let fees: FeeBreakdown = match compute_fees(amount, c.platform_fee_bps, commission_bps) {
        Err(e) => {
            return Err(e);
        },
        Ok(fees) => fees,
    };
    let transfer = Transfer {
        source: ctx.buyer_token_account.address,
        destination: ctx.hot_wallet_token_account.address,
        authority: ctx.buyer,
        amount: fees.net_amount,
    };
    let instruction: TransferInstruction = match transfer_instruction(
        &ctx.token_program,
        &transfer,
    ) {
        Err(e) => {
            return Err(e);
        },
        Ok(instruction) => instruction,
    };
    if !reference_fits {
        return Err(ErrorCode::AccountDidNotSerialize);
    }
    Ok((Admission { config: c, bump, fees }, instruction))
}

/// Settles one payment against the derived addresses `derived`.
pub fn settle_payment(
    store: &mut Store,
    ctx: &ProcessPayment,
    derived: &PaymentAddresses,
    order_id: [u8; 32],
    amount: u64,
    product_id: String,
    api_key_owner: Address,
    commission_bps: u16,
    timestamp: i64,
) -> (r: Result<PaymentOutcome, ErrorCode>)
    requires
        old(store).wf(),
    ensures
        final(store).wf(),
        old(store).orders_kept_by(final(store)),
        payment_settled(
            *old(store),
            *final(store),
            *ctx,
            derived_view(derived.config),
            derived_view(derived.order),
            derived_view(derived.token),
            order_id,
            amount,
            product_id,
            api_key_owner,
            commission_bps,
            timestamp,
            r,
        ),
{
    let reference: &[u8] = product_id.as_str().as_bytes();
    let reference_fits: bool = !ctx.records_product || reference.len() <= MAX_PRODUCT_ID_LEN;
    let (a, instruction) = match check_admission(
        store,
        ctx,
        derived,
        amount,
        commission_bps,
        true,
        reference_fits,
    ) {
        Err(e) => {
            return Err(e);
        },
        Ok(admitted) => admitted,
    };
    let record = OrderRecord {
        order_id,
        buyer: ctx.buyer,
        token_mint: ctx.buyer_token_account.mint,
        amount,
        platform_fee: a.fees.platform_fee,
        commission: a.fees.commission,
        commission_bps,
        api_key_owner,
        product: if ctx.records_product {
            ProductReference::Single(product_id.clone())
        } else {
            ProductReference::Unrecorded
        },
        timestamp,
        bump: a.bump,
    };
    let created: bool = store.allocate(ctx.order_record, ctx.buyer, Entity::Order(record));
    assert(created);
    Ok(
        PaymentOutcome {
            transfer: Transfer {
                source: ctx.buyer_token_account.address,
                destination: ctx.hot_wallet_token_account.address,
                authority: ctx.buyer,
                amount: a.fees.net_amount,
            },
            instruction,
            event: PaymentProcessed {
                order_id,
                buyer: ctx.buyer,
                token_mint: ctx.buyer_token_account.mint,
                amount,
                platform_fee: a.fees.platform_fee,
                api_key_owner,
                commission: a.fees.commission,
                product_id,
                timestamp,
            },
        },
    )
}

/// Settles one batch against the derived addresses `derived`.
pub fn settle_batch_payment(
    store: &mut Store,
    ctx: &ProcessPayment,
    derived: &PaymentAddresses,
    order_id: [u8; 32],
    total_amount: u64,
    product_ids: &Vec<String>,
    api_key_owner: Address,
    commission_bps: u16,
    timestamp: i64,
) -> (r: Result<BatchPaymentOutcome, ErrorCode>)
    requires
        old(store).wf(),
    ensures
        final(store).wf(),
        old(store).orders_kept_by(final(store)),
        batch_settled(
            *old(store),
            *final(store),
            *ctx,
            derived_view(derived.config),
            derived_view(derived.order),
            derived_view(derived.token),
            order_id,
            total_amount,
            product_ids@.len(),
            api_key_owner,
            commission_bps,
            timestamp,
            r,
        ),
{
    let (a, instruction) = match check_admission(
        store,
        ctx,
        derived,
        total_amount,
        commission_bps,
        product_ids.len() > 0,
        true,
    ) {
        Err(e) => {
            return Err(e);
        },
        Ok(admitted) => admitted,
    };
    let product_count: u64 = product_ids.len() as u64;
    let record = OrderRecord {
        order_id,
        buyer: ctx.buyer,
        token_mint: ctx.buyer_token_account.mint,
        amount: total_amount,
        platform_fee: a.fees.platform_fee,
        commission: a.fees.commission,
        commission_bps,
        api_key_owner,
        product: ProductReference::Batch { count: product_count },
        timestamp,
        bump: a.bump,
    };
    let created: bool = store.allocate(ctx.order_record, ctx.buyer, Entity::Order(record));
    assert(created);
    Ok(
        BatchPaymentOutcome {
            transfer: Transfer {
                source: ctx.buyer_token_account.address,
                destination: ctx.hot_wallet_token_account.address,
                authority: ctx.buyer,
                amount: a.fees.net_amount,
            },
            instruction,
            event: BatchPaymentProcessed {
                order_id,
                buyer: ctx.buyer,
                token_mint: ctx.buyer_token_account.mint,
                total_amount,
                platform_fee: a.fees.platform_fee,
                api_key_owner,
                commission: a.fees.commission,
                product_count,
                timestamp,
            },
        },
    )
}

fn payment_addresses(program_id: &Address, ctx: &ProcessPayment, order_id: &[u8; 32]) -> (d:
    PaymentAddresses)
    ensures
        (derived_view(d.config), derived_view(d.order), derived_view(d.token))
            == spec_payment_addresses(program_id@, *ctx, order_id@),
{
    let token: Option<Derived> = match &ctx.supported_token {
        Some(_) => token_address(program_id, &ctx.buyer_token_account.mint),
        None => None,
    };
    PaymentAddresses {
        config: config_address(program_id),
        order: order_address(program_id, order_id),
        token,
    }
}

/// Settles one payment under `program_id` at the time `timestamp`.
///
/// The checks run in this order: the configuration is at its derived address and exists;
/// not paused; commission within its cap; amount positive; the token registry, where an
/// entry is named; the order record is at its derived address and does not exist yet; the
/// buyer has signed; the holding accounts belong to the buyer and to the hot wallet; the
/// fees fit; the transfer goes to the token program; the product reference fits the
/// record, where the record keeps it. On success the record is stored and the result
/// names the transfer of the net amount, the instruction that carries it and the event.
pub fn process_payment(
    store: &mut Store,
    program_id: &Address,
    ctx: &ProcessPayment,
    order_id: [u8; 32],
    amount: u64,
    product_id: String,
    api_key_owner: Address,
    commission_bps: u16,
    timestamp: i64,
) -> (r: Result<PaymentOutcome, ErrorCode>)
    requires
        old(store).wf(),
    ensures
        final(store).wf(),
        old(store).orders_kept_by(final(store)),
        payment_settled(
            *old(store),
            *final(store),
            *ctx,
            spec_payment_addresses(program_id@, *ctx, order_id@).0,
            spec_payment_addresses(program_id@, *ctx, order_id@).1,
            spec_payment_addresses(program_id@, *ctx, order_id@).2,
            order_id,
            amount,
            product_id,
            api_key_owner,
            commission_bps,
            timestamp,
            r,
        ),
{
    let derived: PaymentAddresses = payment_addresses(program_id, ctx, &order_id);
    settle_payment(
        store,
        ctx,
        &derived,
        order_id,
        amount,
        product_id,
        api_key_owner,
        commission_bps,
        timestamp,
    )
}

/// Settles one batch under `program_id` at the time `timestamp`: as `process_payment` on
/// the total amount, and an empty product list is rejected with `NoProducts` after the
/// amount is checked. The record is that of a batch and holds the number of products.
pub fn process_batch_payment(
    store: &mut Store,
    program_id: &Address,
    ctx: &ProcessPayment,
    order_id: [u8; 32],
    total_amount: u64,
    product_ids: Vec<String>,
    api_key_owner: Address,
    commission_bps: u16,
    timestamp: i64,
) -> (r: Result<BatchPaymentOutcome, ErrorCode>)
    requires
        old(store).wf(),
    ensures
        final(store).wf(),
        old(store).orders_kept_by(final(store)),
        batch_settled(
            *old(store),
            *final(store),
            *ctx,
            spec_payment_addresses(program_id@, *ctx, order_id@).0,
            spec_payment_addresses(program_id@, *ctx, order_id@).1,
            spec_payment_addresses(program_id@, *ctx, order_id@).2,
            order_id,
            total_amount,
            product_ids@.len(),
            api_key_owner,
            commission_bps,
            timestamp,
            r,
        ),
{
    let derived: PaymentAddresses = payment_addresses(program_id, ctx, &order_id);
    settle_batch_payment(
        store,
        ctx,
        &derived,
        order_id,
        total_amount,
        &product_ids,
        api_key_owner,
        commission_bps,
        timestamp,
    )
}

} // verus!
