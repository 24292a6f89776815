//! What holds of the engine as a whole: on which requests a settlement is owed and what
//! it then charges, moves and records; at-most-once settlement; the pause gate; the
//! authority gate; the fee bound. All of it is proved from the contracts of the operations.

use vstd::prelude::*;
use crate::address::Address;
use crate::admin::{
    hot_wallet_updated,
    pause_set,
    platform_fee_updated,
    spec_load_config,
    spec_withdrawal,
    EmergencyWithdraw,
    HotWalletUpdated,
    UpdateConfig,
};
use crate::error::ErrorCode;
use crate::fees::{lemma_platform_fee_within_cap, MAX_PLATFORM_FEE_BPS};
use crate::derivation::{sha256, spec_expect_address, spec_order_address};
use crate::error::ProgramFailure;
use crate::processor::{payment_processed, Account, Processed};
use crate::settlement::{
    batch_settled,
    payment_settled,
    reference_fits,
    spec_admission,
    spec_token_gate,
    Admission,
    BatchPaymentOutcome,
    PaymentOutcome,
    ProcessPayment,
};
use crate::state::{Allocation, Config, Entity, ProductReference};
use crate::store::Store;
use crate::token::{token_program_id, Transfer};

verus! {

/// Idempotency. Once a settlement was admitted and its record stored, the same settlement
/// offered again is rejected with `OrderAlreadyProcessed`.
pub proof fn lemma_second_attempt_rejected(
    pre: Store,
    post: Store,
    ctx: ProcessPayment,
    amount: u64,
    commission_bps: u16,
    has_products: bool,
    reference_fits: bool,
    derived_config: Option<(Seq<u8>, u8)>,
    derived_order: Option<(Seq<u8>, u8)>,
    derived_token: Option<(Seq<u8>, u8)>,
    record: Allocation,
)
    requires
        spec_admission(
            pre,
            ctx,
            amount,
            commission_bps,
            has_products,
            reference_fits,
            derived_config,
            derived_order,
            derived_token,
        ) is Ok,
        post@ == pre@.insert(ctx.order_record@, record),
    ensures
        spec_admission(
            post,
            ctx,
            amount,
            commission_bps,
            has_products,
            reference_fits,
            derived_config,
            derived_order,
            derived_token,
        ) == Err::<Admission, ErrorCode>(ErrorCode::OrderAlreadyProcessed),
{
    assert(pre@.contains_key(ctx.config@));
    assert(!pre@.contains_key(ctx.order_record@));
    assert(post.spec_config_at(ctx.config@) == pre.spec_config_at(ctx.config@));
    if ctx.supported_token is Some {
        let entry = ctx.supported_token->0;
        assert(pre@.contains_key(entry@));
        assert(post.spec_token_at(entry@) == pre.spec_token_at(entry@));
    }
}

/// Idempotency of `process_payment`. Where one call settled an order, a second call with
/// the same arguments fails with `OrderAlreadyProcessed`: it returns no transfer, and the
/// store stays as the first call left it.
pub proof fn lemma_payment_settles_once(
    before: Store,
    between: Store,
    after: Store,
    ctx: ProcessPayment,
    derived_config: Option<(Seq<u8>, u8)>,
    derived_order: Option<(Seq<u8>, u8)>,
    derived_token: Option<(Seq<u8>, u8)>,
    order_id: [u8; 32],
    amount: u64,
    product_id: String,
    api_key_owner: Address,
    commission_bps: u16,
    first_time: i64,
    second_time: i64,
    first: Result<PaymentOutcome, ErrorCode>,
    second: Result<PaymentOutcome, ErrorCode>,
)
    requires
        first is Ok,
        payment_settled(
            before,
            between,
            ctx,
            derived_config,
            derived_order,
            derived_token,
            order_id,
            amount,
            product_id,
            api_key_owner,
            commission_bps,
            first_time,
            first,
        ),
        payment_settled(
            between,
            after,
            ctx,
            derived_config,
            derived_order,
            derived_token,
            order_id,
            amount,
            product_id,
            api_key_owner,
            commission_bps,
            second_time,
            second,
        ),
    ensures
        second == Err::<PaymentOutcome, ErrorCode>(ErrorCode::OrderAlreadyProcessed),
        after@ == between@,
{
    lemma_second_attempt_rejected(
        before,
        between,
        ctx,
        amount,
        commission_bps,
        true,
        reference_fits(ctx, product_id@),
        derived_config,
        derived_order,
        derived_token,
        between@[ctx.order_record@],
    );
}

/// Idempotency of `process_batch_payment`. Where one call settled an order, a second call
/// with the same arguments fails with `OrderAlreadyProcessed`: it returns no transfer, and
/// the store stays as the first call left it.
pub proof fn lemma_batch_settles_once(
    before: Store,
    between: Store,
    after: Store,
    ctx: ProcessPayment,
    derived_config: Option<(Seq<u8>, u8)>,
    derived_order: Option<(Seq<u8>, u8)>,
    derived_token: Option<(Seq<u8>, u8)>,
    order_id: [u8; 32],
    total_amount: u64,
    product_count: nat,
    api_key_owner: Address,
    commission_bps: u16,
    first_time: i64,
    second_time: i64,
    first: Result<BatchPaymentOutcome, ErrorCode>,
    second: Result<BatchPaymentOutcome, ErrorCode>,
)
    requires
        first is Ok,
        batch_settled(
            before,
            between,
            ctx,
            derived_config,
            derived_order,
            derived_token,
            order_id,
            total_amount,
            product_count,
            api_key_owner,
            commission_bps,
            first_time,
            first,
        ),
        batch_settled(
            between,
            after,
            ctx,
            derived_config,
            derived_order,
            derived_token,
            order_id,
            total_amount,
            product_count,
            api_key_owner,
            commission_bps,
            second_time,
            second,
        ),
    ensures
        second == Err::<BatchPaymentOutcome, ErrorCode>(ErrorCode::OrderAlreadyProcessed),
        after@ == between@,
{
    lemma_second_attempt_rejected(
        before,
        between,
        ctx,
        total_amount,
        commission_bps,
        product_count > 0,
        true,
        derived_config,
        derived_order,
        derived_token,
        between@[ctx.order_record@],
    );
}

/// The replay guard. While storage exists at an order's address, no settlement that names
/// that address is admitted, whatever else it holds.
pub proof fn lemma_processed_order_never_settles(
    store: Store,
    ctx: ProcessPayment,
    amount: u64,
    commission_bps: u16,
    has_products: bool,
    reference_fits: bool,
    derived_config: Option<(Seq<u8>, u8)>,
    derived_order: Option<(Seq<u8>, u8)>,
    derived_token: Option<(Seq<u8>, u8)>,
)
    requires
        store@.contains_key(ctx.order_record@),
    ensures
        spec_admission(
            store,
            ctx,
            amount,
            commission_bps,
            has_products,
            reference_fits,
            derived_config,
            derived_order,
            derived_token,
        ) is Err,
{
}

/// The pause gate. While the configuration is paused, every settlement, single or batch,
/// is rejected with `ProgramPaused`, whatever else it holds.
pub proof fn lemma_paused_rejects_settlement(
    store: Store,
    ctx: ProcessPayment,
    amount: u64,
    commission_bps: u16,
    has_products: bool,
    reference_fits: bool,
    derived_config: Option<(Seq<u8>, u8)>,
    derived_order: Option<(Seq<u8>, u8)>,
    derived_token: Option<(Seq<u8>, u8)>,
)
    requires
        spec_load_config(store, ctx.config@, derived_config) is Ok,
        spec_load_config(store, ctx.config@, derived_config)->Ok_0.paused,
    ensures
        spec_admission(
            store,
            ctx,
            amount,
            commission_bps,
            has_products,
            reference_fits,
            derived_config,
            derived_order,
            derived_token,
        ) == Err::<Admission, ErrorCode>(ErrorCode::ProgramPaused),
{
}

/// The pause gate on the operations. While the configuration is paused,
/// `process_payment` and `process_batch_payment` fail with `ProgramPaused` and change
/// nothing, whatever their other arguments are.
pub proof fn lemma_paused_operations_rejected(
    pre: Store,
    post: Store,
    ctx: ProcessPayment,
    derived_config: Option<(Seq<u8>, u8)>,
    derived_order: Option<(Seq<u8>, u8)>,
    derived_token: Option<(Seq<u8>, u8)>,
    order_id: [u8; 32],
    amount: u64,
    product_id: String,
    product_count: nat,
    api_key_owner: Address,
    commission_bps: u16,
    timestamp: i64,
    single: Result<PaymentOutcome, ErrorCode>,
    batch: Result<BatchPaymentOutcome, ErrorCode>,
)
    requires
        spec_load_config(pre, ctx.config@, derived_config) is Ok,
        spec_load_config(pre, ctx.config@, derived_config)->Ok_0.paused,
    ensures
        payment_settled(
            pre,
            post,
            ctx,
            derived_config,
            derived_order,
            derived_token,
            order_id,
            amount,
            product_id,
            api_key_owner,
            commission_bps,
            timestamp,
            single,
        ) ==> single == Err::<PaymentOutcome, ErrorCode>(ErrorCode::ProgramPaused) && post@
            == pre@,
        batch_settled(
            pre,
            post,
            ctx,
            derived_config,
            derived_order,
            derived_token,
            order_id,
            amount,
            product_count,
            api_key_owner,
            commission_bps,
            timestamp,
            batch,
        ) ==> batch == Err::<BatchPaymentOutcome, ErrorCode>(ErrorCode::ProgramPaused) && post@
            == pre@,
{
}

/// The authority gate on `update_hot_wallet`: a signer that is not the stored authority is
/// turned away with `Unauthorized` and nothing changes; the stored authority succeeds, and
/// the configuration then holds the new hot wallet.
pub proof fn lemma_hot_wallet_by_authority_only(
    pre: Store,
    post: Store,
    ctx: UpdateConfig,
    derived: Option<(Seq<u8>, u8)>,
    new_hot_wallet: Address,
    r: Result<HotWalletUpdated, ErrorCode>,
)
    requires
        spec_load_config(pre, ctx.config@, derived) is Ok,
        ctx.authority_is_signer,
        hot_wallet_updated(pre, post, ctx, derived, new_hot_wallet, r),
    ensures
        ({
            let c = spec_load_config(pre, ctx.config@, derived)->Ok_0;
            if ctx.authority@ != c.authority@ {
                r == Err::<HotWalletUpdated, ErrorCode>(ErrorCode::Unauthorized) && post@ == pre@
            } else {
                r is Ok && post.spec_config_at(ctx.config@) == Some(
                    Config { hot_wallet: new_hot_wallet, ..c },
                )
            }
        }),
{
}

/// The authority gate and the fee bound on `update_platform_fee`: a signer that is not the
/// stored authority is turned away with `Unauthorized`; for the stored authority a fee
/// above 1000 basis points fails with `FeeTooHigh`, and any other is stored. A failure
/// changes nothing.
pub proof fn lemma_platform_fee_bound(
    pre: Store,
    post: Store,
    ctx: UpdateConfig,
    derived: Option<(Seq<u8>, u8)>,
    new_fee_bps: u16,
    r: Result<(), ErrorCode>,
)
    requires
        pre.wf(),
        spec_load_config(pre, ctx.config@, derived) is Ok,
        ctx.authority_is_signer,
        platform_fee_updated(pre, post, ctx, derived, new_fee_bps, r),
    ensures
        ({
            let c = spec_load_config(pre, ctx.config@, derived)->Ok_0;
            if ctx.authority@ != c.authority@ {
                r == Err::<(), ErrorCode>(ErrorCode::Unauthorized) && post@ == pre@
            } else if new_fee_bps > 1000 {
                r == Err::<(), ErrorCode>(ErrorCode::FeeTooHigh) && post@ == pre@
            } else {
                r is Ok && post.spec_config_at(ctx.config@) == Some(
                    Config { platform_fee_bps: new_fee_bps, ..c },
                )
            }
        }),
{
    pre.lemma_entry(ctx.config@);
}

/// The authority gate on `pause` and `unpause`: a signer that is not the stored authority
/// is turned away with `Unauthorized` and nothing changes; the stored authority succeeds,
/// and the configuration then holds the flag.
pub proof fn lemma_pause_by_authority_only(
    pre: Store,
    post: Store,
    ctx: UpdateConfig,
    derived: Option<(Seq<u8>, u8)>,
    paused: bool,
    r: Result<(), ErrorCode>,
)
    requires
        spec_load_config(pre, ctx.config@, derived) is Ok,
        ctx.authority_is_signer,
        pause_set(pre, post, ctx, derived, paused, r),
    ensures
        ({
            let c = spec_load_config(pre, ctx.config@, derived)->Ok_0;
            if ctx.authority@ != c.authority@ {
                r == Err::<(), ErrorCode>(ErrorCode::Unauthorized) && post@ == pre@
            } else {
                r is Ok && post.spec_config_at(ctx.config@) == Some(Config { paused, ..c })
            }
        }),
{
}

/// The authority gate on `emergency_withdraw`: a signer that is not the stored authority
/// is turned away with `Unauthorized`, whatever the amount. The stored authority gets one
/// transfer by the token program of any positive amount, in full and uncapped, from the
/// vault to the holding account it names, authorized by the configuration's derived
/// address and to be signed for with the stored bump.
pub proof fn lemma_withdrawal_by_authority_only(
    store: Store,
    ctx: EmergencyWithdraw,
    derived: Option<(Seq<u8>, u8)>,
    amount: u64,
)
    requires
        spec_load_config(store, ctx.config@, derived) is Ok,
        ctx.authority_is_signer,
    ensures
        ({
            let c = spec_load_config(store, ctx.config@, derived)->Ok_0;
            let r = spec_withdrawal(store, ctx, derived, amount);
            if ctx.authority@ != c.authority@ {
                r == Err::<(Transfer, u8), ErrorCode>(ErrorCode::Unauthorized)
            } else if amount == 0 {
                r == Err::<(Transfer, u8), ErrorCode>(ErrorCode::InvalidAmount)
            } else if ctx.token_program@ == token_program_id() {
                r == Ok::<(Transfer, u8), ErrorCode>(
                    (
                        Transfer {
                            source: ctx.program_token_account,
                            destination: ctx.authority_token_account,
                            authority: ctx.config,
                            amount,
                        },
                        c.bump,
                    ),
                )
            } else {
                r == Err::<(Transfer, u8), ErrorCode>(ErrorCode::IncorrectProgramId)
            }
        }),
{
}

/// What is stored is within the caps: every configuration in a well-formed store has a
/// platform fee of at most 1000 basis points, the cap, and operations keep stores well
/// formed.
pub proof fn lemma_stored_fee_within_cap(store: Store, address: Seq<u8>)
    requires
        store.wf(),
        store.spec_config_at(address) is Some,
    ensures
        store.spec_config_at(address)->0.platform_fee_bps <= store.spec_config_at(
            address,
        )->0.max_platform_fee_bps,
        store.spec_config_at(address)->0.max_platform_fee_bps == MAX_PLATFORM_FEE_BPS,
{
    store.lemma_entry(address);
}

/// The fees of an admitted settlement. Against a well-formed store, a settlement that is
/// admitted charges `floor(amount * fee / 10000)` at the stored fee, which is at most 1000
/// basis points, moves the amount less that fee, which is never more than the amount, and
/// records `floor(amount * commission_bps / 10000)` as commission, which depends on the
/// amount and its own rate alone and is not deducted from what moves.
pub proof fn lemma_admitted_fees(
    store: Store,
    ctx: ProcessPayment,
    amount: u64,
    commission_bps: u16,
    has_products: bool,
    reference_fits: bool,
    derived_config: Option<(Seq<u8>, u8)>,
    derived_order: Option<(Seq<u8>, u8)>,
    derived_token: Option<(Seq<u8>, u8)>,
)
    requires
        store.wf(),
        spec_admission(
            store,
            ctx,
            amount,
            commission_bps,
            has_products,
            reference_fits,
            derived_config,
            derived_order,
            derived_token,
        ) is Ok,
    ensures
        ({
            let a = spec_admission(
                store,
                ctx,
                amount,
                commission_bps,
                has_products,
                reference_fits,
                derived_config,
                derived_order,
                derived_token,
            )->Ok_0;
            &&& amount > 0
            &&& a.config.platform_fee_bps <= 1000
            &&& commission_bps <= 10000
            &&& a.fees.platform_fee == amount * a.config.platform_fee_bps / 10000
            &&& a.fees.net_amount == amount - a.fees.platform_fee
            &&& a.fees.net_amount <= amount
            &&& a.fees.commission == amount * commission_bps / 10000
        }),
{
    store.lemma_entry(ctx.config@);
    let c = spec_load_config(store, ctx.config@, derived_config)->Ok_0;
    lemma_platform_fee_within_cap(amount, c.platform_fee_bps, commission_bps);
}

/// Against a well-formed store no settlement fails for arithmetic: the stored fee and the
/// admitted commission are within their caps, so every part of the breakdown fits.
pub proof fn lemma_settlement_never_overflows(
    store: Store,
    ctx: ProcessPayment,
    amount: u64,
    commission_bps: u16,
    has_products: bool,
    reference_fits: bool,
    derived_config: Option<(Seq<u8>, u8)>,
    derived_order: Option<(Seq<u8>, u8)>,
    derived_token: Option<(Seq<u8>, u8)>,
)
    requires
        store.wf(),
    ensures
        spec_admission(
            store,
            ctx,
            amount,
            commission_bps,
            has_products,
            reference_fits,
            derived_config,
            derived_order,
            derived_token,
        ) != Err::<Admission, ErrorCode>(ErrorCode::ArithmeticOverflow),
{
    if spec_load_config(store, ctx.config@, derived_config) is Ok {
        store.lemma_entry(ctx.config@);
        let c = spec_load_config(store, ctx.config@, derived_config)->Ok_0;
        if commission_bps <= c.max_commission_bps {
            lemma_platform_fee_within_cap(amount, c.platform_fee_bps, commission_bps);
        }
    }
}

/// Everything that a settlement needs: the configuration is stored at its derived address
/// and is not paused, the commission is within its cap, the amount is positive, a batch
/// names a product, the token type passes the registry where an entry is named, the order
/// record is at its derived address and does not exist yet, the buyer has signed, the
/// holding accounts belong to the buyer and to the hot wallet, the transfer goes to the
/// token program, and the product reference fits the record.
pub open spec fn settlement_in_order(
    store: Store,
    ctx: ProcessPayment,
    amount: u64,
    commission_bps: u16,
    has_products: bool,
    reference_fits: bool,
    derived_config: Option<(Seq<u8>, u8)>,
    derived_order: Option<(Seq<u8>, u8)>,
    derived_token: Option<(Seq<u8>, u8)>,
) -> bool {
    &&& spec_load_config(store, ctx.config@, derived_config) matches Ok(c)
    &&& !c.paused
    &&& ctx.hot_wallet_token_account.owner@ == c.hot_wallet@
    &&& commission_bps <= 10000
    &&& amount > 0
    &&& has_products
    &&& spec_token_gate(store, ctx, derived_token) is Ok
    &&& spec_expect_address(ctx.order_record@, derived_order) is Ok
    &&& !store@.contains_key(ctx.order_record@)
    &&& ctx.buyer_is_signer
    &&& ctx.buyer_token_account.owner@ == ctx.buyer@
    &&& ctx.token_program@ == token_program_id()
    &&& reference_fits
}

/// When a settlement is owed. Against a well-formed store a settlement is admitted on
/// exactly the requests that are in order, and then with the stored configuration, the
/// bump of the order's derived address, the platform fee `floor(amount * fee / 10000)`,
/// the commission `floor(amount * commission_bps / 10000)`, and a net amount that is the
/// amount less the fee, between nine tenths of the amount and the amount.
pub proof fn lemma_settlement_owed(
    store: Store,
    ctx: ProcessPayment,
    amount: u64,
    commission_bps: u16,
    has_products: bool,
    reference_fits: bool,
    derived_config: Option<(Seq<u8>, u8)>,
    derived_order: Option<(Seq<u8>, u8)>,
    derived_token: Option<(Seq<u8>, u8)>,
)
    requires
        store.wf(),
    ensures
        ({
            let admitted = spec_admission(
                store,
                ctx,
                amount,
                commission_bps,
                has_products,
                reference_fits,
                derived_config,
                derived_order,
                derived_token,
            );
            &&& admitted is Ok <==> settlement_in_order(
                store,
                ctx,
                amount,
                commission_bps,
                has_products,
                reference_fits,
                derived_config,
                derived_order,
                derived_token,
            )
            &&& admitted matches Ok(a) ==> {
                &&& Ok::<Config, ErrorCode>(a.config) == spec_load_config(
                    store,
                    ctx.config@,
                    derived_config,
                )
                &&& Ok::<u8, ErrorCode>(a.bump) == spec_expect_address(
                    ctx.order_record@,
                    derived_order,
                )
                &&& a.config.platform_fee_bps <= 1000
                &&& a.fees.platform_fee == amount * a.config.platform_fee_bps / 10000
                &&& a.fees.commission == amount * commission_bps / 10000
                &&& a.fees.commission <= amount
                &&& a.fees.net_amount == amount - a.fees.platform_fee
                &&& amount - amount / 10 <= a.fees.net_amount <= amount
            }
        }),
{
    if spec_load_config(store, ctx.config@, derived_config) is Ok {
        store.lemma_entry(ctx.config@);
        let c = spec_load_config(store, ctx.config@, derived_config)->Ok_0;
        if commission_bps <= c.max_commission_bps {
            lemma_platform_fee_within_cap(amount, c.platform_fee_bps, commission_bps);
            crate::fees::lemma_share_bounded(amount as int, commission_bps as int);
        }
    }
}

/// A payment that is in order succeeds. The result names one transfer, from the buyer's
/// holding account to the hot wallet's, authorized by the buyer, of the amount less
/// `floor(amount * fee / 10000)`. The store gains one allocation, at the order's address
/// and paid by the buyer, whose record holds the gross amount, that fee, the commission
/// `floor(amount * commission_bps / 10000)`, the affiliate, the time and the derived bump;
/// it is 163 bytes without the product reference and 217 with it. Nothing else in the
/// store changes.
pub proof fn lemma_payment_succeeds(
    pre: Store,
    post: Store,
    ctx: ProcessPayment,
    derived_config: Option<(Seq<u8>, u8)>,
    derived_order: Option<(Seq<u8>, u8)>,
    derived_token: Option<(Seq<u8>, u8)>,
    order_id: [u8; 32],
    amount: u64,
    product_id: String,
    api_key_owner: Address,
    commission_bps: u16,
    timestamp: i64,
    r: Result<PaymentOutcome, ErrorCode>,
)
    requires
        pre.wf(),
        settlement_in_order(
            pre,
            ctx,
            amount,
            commission_bps,
            true,
            reference_fits(ctx, product_id@),
            derived_config,
            derived_order,
            derived_token,
        ),
        payment_settled(
            pre,
            post,
            ctx,
            derived_config,
            derived_order,
            derived_token,
            order_id,
            amount,
            product_id,
            api_key_owner,
            commission_bps,
            timestamp,
            r,
        ),
    ensures
        ({
            let c = spec_load_config(pre, ctx.config@, derived_config)->Ok_0;
            let fee = amount * c.platform_fee_bps / 10000;
            let stored = post@[ctx.order_record@];
            &&& r matches Ok(out)
            &&& out.transfer == Transfer {
                source: ctx.buyer_token_account.address,
                destination: ctx.hot_wallet_token_account.address,
                authority: ctx.buyer,
                amount: (amount - fee) as u64,
            }
            &&& amount - amount / 10 <= out.transfer.amount <= amount
            &&& out.event.platform_fee == fee
            &&& out.event.commission == amount * commission_bps / 10000
            &&& post@.dom() == pre@.dom().insert(ctx.order_record@)
            &&& forall|k: Seq<u8>| pre@.contains_key(k) ==> post@[k] == pre@[k]
            &&& stored.address == ctx.order_record
            &&& stored.payer == ctx.buyer
            &&& stored.space == if ctx.records_product {
                217u64
            } else {
                163u64
            }
            &&& stored.entity matches Entity::Order(record)
            &&& record.order_id == order_id
            &&& record.buyer == ctx.buyer
            &&& record.token_mint == ctx.buyer_token_account.mint
            &&& record.amount == amount
            &&& record.platform_fee == fee
            &&& record.commission == amount * commission_bps / 10000
            &&& record.commission <= amount
            &&& record.commission_bps == commission_bps
            &&& record.api_key_owner == api_key_owner
            &&& record.timestamp == timestamp
            &&& Ok::<u8, ErrorCode>(record.bump) == spec_expect_address(
                ctx.order_record@,
                derived_order,
            )
        }),
{
    lemma_settlement_owed(
        pre,
        ctx,
        amount,
        commission_bps,
        true,
        reference_fits(ctx, product_id@),
        derived_config,
        derived_order,
        derived_token,
    );
    assert(post@.dom() =~= pre@.dom().insert(ctx.order_record@));
}

/// A batch that is in order succeeds. The fee is taken once on the total, the one
/// transfer is of the total less that fee, and the commission is a share of the total
/// whatever the fee and the number of products are. The store gains one allocation of
/// 225 bytes whose record is that of a batch: record and event hold the number of
/// products itself.
pub proof fn lemma_batch_succeeds(
    pre: Store,
    post: Store,
    ctx: ProcessPayment,
    derived_config: Option<(Seq<u8>, u8)>,
    derived_order: Option<(Seq<u8>, u8)>,
    derived_token: Option<(Seq<u8>, u8)>,
    order_id: [u8; 32],
    total_amount: u64,
    product_count: nat,
    api_key_owner: Address,
    commission_bps: u16,
    timestamp: i64,
    r: Result<BatchPaymentOutcome, ErrorCode>,
)
    requires
        pre.wf(),
        settlement_in_order(
            pre,
            ctx,
            total_amount,
            commission_bps,
            product_count >= 1,
            true,
            derived_config,
            derived_order,
            derived_token,
        ),
        batch_settled(
            pre,
            post,
            ctx,
            derived_config,
            derived_order,
            derived_token,
            order_id,
            total_amount,
            product_count,
            api_key_owner,
            commission_bps,
            timestamp,
            r,
        ),
    ensures
        ({
            let c = spec_load_config(pre, ctx.config@, derived_config)->Ok_0;
            let fee = total_amount * c.platform_fee_bps / 10000;
            let stored = post@[ctx.order_record@];
            &&& r matches Ok(out)
            &&& out.transfer == Transfer {
                source: ctx.buyer_token_account.address,
                destination: ctx.hot_wallet_token_account.address,
                authority: ctx.buyer,
                amount: (total_amount - fee) as u64,
            }
            &&& out.transfer.amount <= total_amount
            &&& out.event.platform_fee == fee
            &&& out.event.commission == total_amount * commission_bps / 10000
            &&& out.event.product_count == product_count
            &&& post@.dom() == pre@.dom().insert(ctx.order_record@)
            &&& forall|k: Seq<u8>| pre@.contains_key(k) ==> post@[k] == pre@[k]
            &&& stored.address == ctx.order_record
            &&& stored.payer == ctx.buyer
            &&& stored.space == 225
            &&& stored.entity matches Entity::Order(record)
            &&& record.amount == total_amount
            &&& record.platform_fee == fee
            &&& record.commission == total_amount * commission_bps / 10000
            &&& record.api_key_owner == api_key_owner
            &&& record.product matches ProductReference::Batch { count }
            &&& count == product_count
        }),
{
    lemma_settlement_owed(
        pre,
        ctx,
        total_amount,
        commission_bps,
        product_count >= 1,
        true,
        derived_config,
        derived_order,
        derived_token,
    );
    assert(post@.dom() =~= pre@.dom().insert(ctx.order_record@));
}

/// What a payment through the manual-validation front end leaves behind. Where it
/// succeeds, the store gains one allocation of exactly 163 bytes, at the address of the
/// seventh account and paid by the buyer, whose record holds the digest of the order
/// string, the buyer, the token type, the affiliate, the gross amount, the time, and the
/// bump of the address derived for the order. Everything that was stored before, the
/// configuration and the registry entry among it, stays as it was.
pub proof fn lemma_front_end_payment_record(
    pre: Store,
    post: Store,
    program_id: Seq<u8>,
    accounts: Seq<Account>,
    order: Seq<char>,
    amount: u64,
    product_id: String,
    commission_bps: u16,
    timestamp: i64,
    r: Result<Processed, ProgramFailure>,
)
    requires
        pre.wf(),
        r is Ok,
        payment_processed(
            pre,
            post,
            program_id,
            accounts,
            order,
            amount,
            product_id,
            commission_bps,
            timestamp,
            r,
        ),
    ensures
        ({
            let stored = post@[accounts[6].key@];
            &&& accounts.len() >= 10
            &&& post@.dom() == pre@.dom().insert(accounts[6].key@)
            &&& forall|k: Seq<u8>| pre@.contains_key(k) ==> post@[k] == pre@[k]
            &&& stored.address == accounts[6].key
            &&& stored.payer == accounts[0].key
            &&& stored.space == 163
            &&& stored.entity matches Entity::Order(record)
            &&& record.product == ProductReference::Unrecorded
            &&& record.order_id@ == sha256(vstd::utf8::encode_utf8(order))
            &&& record.buyer == accounts[0].key
            &&& record.token_mint == accounts[3].key
            &&& record.api_key_owner == accounts[7].key
            &&& record.amount == amount
            &&& record.commission_bps == commission_bps
            &&& record.timestamp == timestamp
            &&& Some((accounts[6].key@, record.bump)) == spec_order_address(
                program_id,
                record.order_id@,
            )
        }),
{
    assert(post@.dom() =~= pre@.dom().insert(accounts[6].key@));
}

} // verus!
