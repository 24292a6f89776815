//! The manual-validation front end: an instruction in bytes and a positional list of
//! accounts are decoded, held against what each operation expects, and handed to the
//! engine. Failures are reported in the front end's own codes.

use vstd::prelude::*;
use vstd::string::StringSliceAdditionalSpecFns;
use crate::address::Address;
use crate::admin::{
    add_supported_token,
    emergency_withdraw,
    hot_wallet_updated,
    initialize,
    initialized,
    pause,
    pause_set,
    platform_fee_updated,
    remove_supported_token,
    spec_stored_token_address,
    token_added,
    token_removed,
    unpause,
    update_hot_wallet,
    update_platform_fee,
    withdrawal_authorized,
    EmergencyWithdraw,
    HotWalletUpdated,
    Initialize,
    UpdateConfig,
    UpdateToken,
    Withdrawal,
};
use crate::derivation::{order_id_of, sha256, spec_config_address, spec_token_address};
use crate::error::{failure_of, spec_failure_of, ErrorCode, ProgramFailure};
use crate::instruction::{spec_decode, PaymentInstruction};
use crate::settlement::{
    batch_settled,
    payment_settled,
    process_batch_payment,
    process_payment,
    spec_payment_addresses,
    BatchPaymentOutcome,
    PaymentOutcome,
    ProcessPayment,
};
use crate::store::Store;
use crate::token::TokenAccount;

verus! {

/// What the logic reads of an account handed to an instruction.
#[derive(Clone, Copy, Debug, PartialEq, Eq)]
pub struct Account {
    /// The account's address.
    pub key: Address,
    /// Whether the account's identity has signed the request.
    pub is_signer: bool,
    /// For a holding account, the identity that owns its balance.
    pub holder: Option<Address>,
}

/// What a processed instruction asks of the host, beyond keeping the store.
#[derive(Clone, Debug, PartialEq, Eq)]
pub enum Processed {
    Initialized,
    Payment(PaymentOutcome),
    BatchPayment(BatchPaymentOutcome),
    TokenAdded,
    TokenRemoved,
    HotWalletUpdated(HotWalletUpdated),
    PlatformFeeUpdated,
    Paused,
    Unpaused,
    Withdrawn(Withdrawal),
}

/// The instruction processor.
pub struct Processor;

/// The accounts of `Initialize`: the authority, then the configuration.
pub open spec fn spec_initialize_accounts(accounts: Seq<Account>) -> Initialize {
    Initialize {
        config: accounts[1].key,
        authority: accounts[0].key,
        authority_is_signer: accounts[0].is_signer,
    }
}

/// The accounts of an operation on the configuration: the authority, then the
/// configuration.
pub open spec fn spec_config_accounts(accounts: Seq<Account>) -> UpdateConfig {
    UpdateConfig {
        config: accounts[1].key,
        authority: accounts[0].key,
        authority_is_signer: accounts[0].is_signer,
    }
}

/// The accounts of a registry operation: the authority, the configuration, the entry.
pub open spec fn spec_token_accounts(accounts: Seq<Account>) -> UpdateToken {
    UpdateToken {
        config: accounts[1].key,
        authority: accounts[0].key,
        authority_is_signer: accounts[0].is_signer,
        supported_token: accounts[2].key,
    }
}

/// The accounts of a settlement: the buyer, the buyer's holding account, the hot wallet's
/// holding account, the token type, the configuration, the registry entry, the order
/// record, the affiliate, the token program, the system program.
pub open spec fn spec_payment_accounts(accounts: Seq<Account>) -> ProcessPayment {
    ProcessPayment {
        config: accounts[4].key,
        order_record: accounts[6].key,
        records_product: false,
        buyer: accounts[0].key,
        buyer_is_signer: accounts[0].is_signer,
        buyer_token_account: TokenAccount {
            address: accounts[1].key,
            mint: accounts[3].key,
            owner: accounts[1].holder->0,
        },
        hot_wallet_token_account: TokenAccount {
            address: accounts[2].key,
            mint: accounts[3].key,
            owner: accounts[2].holder->0,
        },
        supported_token: Some(accounts[5].key),
        token_program: accounts[8].key,
    }
}

/// The accounts of `EmergencyWithdraw`: the authority, the configuration, the vault, the
/// destination, the token program.
pub open spec fn spec_withdraw_accounts(accounts: Seq<Account>) -> EmergencyWithdraw {
    EmergencyWithdraw {
        config: accounts[1].key,
        authority: accounts[0].key,
        authority_is_signer: accounts[0].is_signer,
        program_token_account: accounts[2].key,
        authority_token_account: accounts[3].key,
        token_program: accounts[4].key,
    }
}

/// The front end's report of an engine result without a value.
pub open spec fn lift_unit(inner: Result<(), ErrorCode>, done: Processed) -> Result<
    Processed,
    ProgramFailure,
> {
    match inner {
        Ok(_) => Ok(done),
        Err(e) => Err(spec_failure_of(e)),
    }
}

/// The front end's report of a settlement.
pub open spec fn lift_payment(inner: Result<PaymentOutcome, ErrorCode>) -> Result<
    Processed,
    ProgramFailure,
> {
    match inner {
        Ok(outcome) => Ok(Processed::Payment(outcome)),
        Err(e) => Err(spec_failure_of(e)),
    }
}

/// The front end's report of a batch settlement.
pub open spec fn lift_batch(inner: Result<BatchPaymentOutcome, ErrorCode>) -> Result<
    Processed,
    ProgramFailure,
> {
    match inner {
        Ok(outcome) => Ok(Processed::BatchPayment(outcome)),
        Err(e) => Err(spec_failure_of(e)),
    }
}

/// The front end's report of a hot-wallet update.
pub open spec fn lift_hot_wallet(inner: Result<HotWalletUpdated, ErrorCode>) -> Result<
    Processed,
    ProgramFailure,
> {
    match inner {
        Ok(event) => Ok(Processed::HotWalletUpdated(event)),
        Err(e) => Err(spec_failure_of(e)),
    }
}

/// The front end's report of a withdrawal.
pub open spec fn lift_withdrawal(inner: Result<Withdrawal, ErrorCode>) -> Result<
    Processed,
    ProgramFailure,
> {
    match inner {
        Ok(withdrawal) => Ok(Processed::Withdrawn(withdrawal)),
        Err(e) => Err(spec_failure_of(e)),
    }
}

/// Too few accounts: the report, and nothing changes.
pub open spec fn short_of_accounts(pre: Store, post: Store, r: Result<Processed, ProgramFailure>)
    -> bool {
    r == Err::<Processed, ProgramFailure>(ProgramFailure::NotEnoughAccountKeys) && post@ == pre@
}

/// The contract of a settlement through the front end. The order identifier is the
/// SHA-256 digest of the order string; the token type is the one of the fourth account;
/// the registry always gates the payment; the record of a single payment is the base
/// fields alone, 163 bytes, so a product reference of any length is accepted.
pub open spec fn payment_processed(
    pre: Store,
    post: Store,
    program_id: Seq<u8>,
    accounts: Seq<Account>,
    order: Seq<char>,
    amount: u64,
    product_id: String,
    commission_bps: u16,
    timestamp: i64,
    r: Result<Processed, ProgramFailure>,
) -> bool {
    if accounts.len() < 10 {
        short_of_accounts(pre, post, r)
    } else if accounts[1].holder is None || accounts[2].holder is None {
        r == Err::<Processed, ProgramFailure>(ProgramFailure::InvalidAccountData) && post@ == pre@
    } else {
        let ctx = spec_payment_accounts(accounts);
        exists|order_id: [u8; 32], inner: Result<PaymentOutcome, ErrorCode>|
            {
                &&& order_id@ == sha256(vstd::utf8::encode_utf8(order))
                &&& #[trigger] payment_settled(
                    pre,
                    post,
                    ctx,
                    spec_payment_addresses(program_id, ctx, order_id@).0,
                    spec_payment_addresses(program_id, ctx, order_id@).1,
                    spec_payment_addresses(program_id, ctx, order_id@).2,
                    order_id,
                    amount,
                    product_id,
                    accounts[7].key,
                    commission_bps,
                    timestamp,
                    inner,
                )
                &&& r == lift_payment(inner)
            }
    }
}

/// The contract of a batch settlement through the front end.
pub open spec fn batch_processed(
    pre: Store,
    post: Store,
    program_id: Seq<u8>,
    accounts: Seq<Account>,
    order: Seq<char>,
    total_amount: u64,
    product_count: nat,
    commission_bps: u16,
    timestamp: i64,
    r: Result<Processed, ProgramFailure>,
) -> bool {
    if accounts.len() < 10 {
        short_of_accounts(pre, post, r)
    } else if accounts[1].holder is None || accounts[2].holder is None {
        r == Err::<Processed, ProgramFailure>(ProgramFailure::InvalidAccountData) && post@ == pre@
    } else {
        let ctx = spec_payment_accounts(accounts);
        exists|order_id: [u8; 32], inner: Result<BatchPaymentOutcome, ErrorCode>|
            {
                &&& order_id@ == sha256(vstd::utf8::encode_utf8(order))
                &&& #[trigger] batch_settled(
                    pre,
                    post,
                    ctx,
                    spec_payment_addresses(program_id, ctx, order_id@).0,
                    spec_payment_addresses(program_id, ctx, order_id@).1,
                    spec_payment_addresses(program_id, ctx, order_id@).2,
                    order_id,
                    total_amount,
                    product_count,
                    accounts[7].key,
                    commission_bps,
                    timestamp,
                    inner,
                )
                &&& r == lift_batch(inner)
            }
    }
}

/// The contract of `Initialize` through the front end: the platform fee starts at zero.
pub open spec fn initialize_processed(
    pre: Store,
    post: Store,
    program_id: Seq<u8>,
    accounts: Seq<Account>,
    hot_wallet: Address,
    r: Result<Processed, ProgramFailure>,
) -> bool {
    if accounts.len() < 3 {
        short_of_accounts(pre, post, r)
    } else {
        exists|inner: Result<(), ErrorCode>|
            #[trigger] initialized(
                pre,
                post,
                spec_initialize_accounts(accounts),
                spec_config_address(program_id),
                hot_wallet,
                0,
                inner,
            ) && r == lift_unit(inner, Processed::Initialized)
    }
}

/// The contract of `AddSupportedToken` through the front end.
pub open spec fn add_token_processed(
    pre: Store,
    post: Store,
    program_id: Seq<u8>,
    accounts: Seq<Account>,
    token_mint: Address,
    r: Result<Processed, ProgramFailure>,
) -> bool {
    if accounts.len() < 5 {
        short_of_accounts(pre, post, r)
    } else {
        exists|inner: Result<(), ErrorCode>|
            #[trigger] token_added(
                pre,
                post,
                spec_token_accounts(accounts),
                spec_config_address(program_id),
                spec_token_address(program_id, token_mint@),
                token_mint,
                inner,
            ) && r == lift_unit(inner, Processed::TokenAdded)
    }
}

/// The contract of `RemoveSupportedToken` through the front end.
pub open spec fn remove_token_processed(
    pre: Store,
    post: Store,
    program_id: Seq<u8>,
    accounts: Seq<Account>,
    r: Result<Processed, ProgramFailure>,
) -> bool {
    if accounts.len() < 3 {
        short_of_accounts(pre, post, r)
    } else {
        exists|inner: Result<(), ErrorCode>|
            #[trigger] token_removed(
                pre,
                post,
                spec_token_accounts(accounts),
                spec_config_address(program_id),
                spec_stored_token_address(pre, program_id, accounts[2].key@),
                inner,
            ) && r == lift_unit(inner, Processed::TokenRemoved)
    }
}

/// The contract of `UpdateHotWallet` through the front end.
pub open spec fn hot_wallet_processed(
    pre: Store,
    post: Store,
    program_id: Seq<u8>,
    accounts: Seq<Account>,
    new_hot_wallet: Address,
    r: Result<Processed, ProgramFailure>,
) -> bool {
    if accounts.len() < 2 {
        short_of_accounts(pre, post, r)
    } else {
        exists|inner: Result<HotWalletUpdated, ErrorCode>|
            #[trigger] hot_wallet_updated(
                pre,
                post,
                spec_config_accounts(accounts),
                spec_config_address(program_id),
                new_hot_wallet,
                inner,
            ) && r == lift_hot_wallet(inner)
    }
}

/// The contract of `UpdatePlatformFee` through the front end.
pub open spec fn platform_fee_processed(
    pre: Store,
    post: Store,
    program_id: Seq<u8>,
    accounts: Seq<Account>,
    new_fee_bps: u16,
    r: Result<Processed, ProgramFailure>,
) -> bool {
    if accounts.len() < 2 {
        short_of_accounts(pre, post, r)
    } else {
        exists|inner: Result<(), ErrorCode>|
            #[trigger] platform_fee_updated(
                pre,
                post,
                spec_config_accounts(accounts),
                spec_config_address(program_id),
                new_fee_bps,
                inner,
            ) && r == lift_unit(inner, Processed::PlatformFeeUpdated)
    }
}

/// The contract of `Pause` and `Unpause` through the front end.
pub open spec fn pause_processed(
    pre: Store,
    post: Store,
    program_id: Seq<u8>,
    accounts: Seq<Account>,
    paused: bool,
    r: Result<Processed, ProgramFailure>,
) -> bool {
    if accounts.len() < 2 {
        short_of_accounts(pre, post, r)
    } else {
        exists|inner: Result<(), ErrorCode>|
            #[trigger] pause_set(
                pre,
                post,
                spec_config_accounts(accounts),
                spec_config_address(program_id),
                paused,
                inner,
            ) && r == lift_unit(
                inner,
                if paused {
                    Processed::Paused
                } else {
                    Processed::Unpaused
                },
            )
    }
}

/// The contract of `EmergencyWithdraw` through the front end.
pub open spec fn withdraw_processed(
    pre: Store,
    post: Store,
    program_id: Seq<u8>,
    accounts: Seq<Account>,
    amount: u64,
    r: Result<Processed, ProgramFailure>,
) -> bool {
    if accounts.len() < 5 {
        short_of_accounts(pre, post, r)
    } else {
        post@ == pre@ && exists|inner: Result<Withdrawal, ErrorCode>|
            #[trigger] withdrawal_authorized(
                pre,
                spec_withdraw_accounts(accounts),
                spec_config_address(program_id),
                amount,
                inner,
            ) && r == lift_withdrawal(inner)
    }
}

/// The contract of the front end for one decoded instruction: what the engine's operation
/// promises for the accounts in their places, reported in the front end's codes.
pub open spec fn processed(
    pre: Store,
    post: Store,
    program_id: Seq<u8>,
    accounts: Seq<Account>,
    instruction: PaymentInstruction,
    timestamp: i64,
    r: Result<Processed, ProgramFailure>,
) -> bool {
    match instruction {
        PaymentInstruction::Initialize { hot_wallet } => initialize_processed(
            pre,
            post,
            program_id,
            accounts,
            hot_wallet,
            r,
        ),
        PaymentInstruction::ProcessPayment { order_id, amount, product_id, commission_bps } =>
            payment_processed(
            pre,
            post,
            program_id,
            accounts,
            order_id@,
            amount,
            product_id,
            commission_bps,
            timestamp,
            r,
        ),
        PaymentInstruction::AddSupportedToken { token_mint } => add_token_processed(
            pre,
            post,
            program_id,
            accounts,
            token_mint,
            r,
        ),
        PaymentInstruction::RemoveSupportedToken => remove_token_processed(
            pre,
            post,
            program_id,
            accounts,
            r,
        ),
        PaymentInstruction::UpdateHotWallet { new_hot_wallet } => hot_wallet_processed(
            pre,
            post,
            program_id,
            accounts,
            new_hot_wallet,
            r,
        ),
        PaymentInstruction::UpdatePlatformFee { new_fee_bps } => platform_fee_processed(
            pre,
            post,
            program_id,
            accounts,
            new_fee_bps,
            r,
        ),
        PaymentInstruction::Pause => pause_processed(pre, post, program_id, accounts, true, r),
        PaymentInstruction::Unpause => pause_processed(pre, post, program_id, accounts, false, r),
        PaymentInstruction::ProcessBatchPayment {
            order_id,
            total_amount,
            product_ids,
            commission_bps,
        } => batch_processed(
            pre,
            post,
            program_id,
            accounts,
            order_id@,
            total_amount,
            product_ids@.len(),
            commission_bps,
            timestamp,
            r,
        ),
        PaymentInstruction::EmergencyWithdraw { amount } => withdraw_processed(
            pre,
            post,
            program_id,
            accounts,
            amount,
            r,
        ),
    }
}

fn initialize_accounts(accounts: &[Account]) -> (ctx: Initialize)
    requires
        accounts@.len() >= 2,
    ensures
        ctx == spec_initialize_accounts(accounts@),
{
    Initialize {
        config: accounts[1].key,
        authority: accounts[0].key,
        authority_is_signer: accounts[0].is_signer,
    }
}

fn withdraw_accounts(accounts: &[Account]) -> (ctx: EmergencyWithdraw)
    requires
        accounts@.len() >= 5,
    ensures
        ctx == spec_withdraw_accounts(accounts@),
{
    EmergencyWithdraw {
        config: accounts[1].key,
        authority: accounts[0].key,
        authority_is_signer: accounts[0].is_signer,
        program_token_account: accounts[2].key,
        authority_token_account: accounts[3].key,
        token_program: accounts[4].key,
    }
}

fn config_accounts(accounts: &[Account]) -> (ctx: UpdateConfig)
    requires
        accounts@.len() >= 2,
    ensures
        ctx == spec_config_accounts(accounts@),
{
    UpdateConfig {
        config: accounts[1].key,
        authority: accounts[0].key,
        authority_is_signer: accounts[0].is_signer,
    }
}

fn token_accounts(accounts: &[Account]) -> (ctx: UpdateToken)
    requires
        accounts@.len() >= 3,
    ensures
        ctx == spec_token_accounts(accounts@),
{
    UpdateToken {
        config: accounts[1].key,
        authority: accounts[0].key,
        authority_is_signer: accounts[0].is_signer,
        supported_token: accounts[2].key,
    }
}

fn payment_accounts(accounts: &[Account]) -> (r: Option<ProcessPayment>)
    requires
        accounts@.len() >= 10,
    ensures
        r is None <==> accounts@[1].holder is None || accounts@[2].holder is None,
        r matches Some(ctx) ==> ctx == spec_payment_accounts(accounts@),
{
    let buyer_holder: Address = match accounts[1].holder {
        None => {
            return None;
        },
        Some(h) => h,
    };
    let hot_wallet_holder: Address = match accounts[2].holder {
        None => {
            return None;
        },
        Some(h) => h,
    };
    Some(
        ProcessPayment {
            config: accounts[4].key,
            order_record: accounts[6].key,
            records_product: false,
            buyer: accounts[0].key,
            buyer_is_signer: accounts[0].is_signer,
            buyer_token_account: TokenAccount {
                address: accounts[1].key,
                mint: accounts[3].key,
                owner: buyer_holder,
            },
            hot_wallet_token_account: TokenAccount {
                address: accounts[2].key,
                mint: accounts[3].key,
                owner: hot_wallet_holder,
            },
            supported_token: Some(accounts[5].key),
            token_program: accounts[8].key,
        },
    )
}

impl Processor {
    /// Decodes `instruction_data` and carries the instruction out on `store` under
    /// `program_id`, for the accounts in their places, at the time `timestamp`. Bytes that
    /// decode to no instruction are reported as the custom failure `InvalidInstruction`.
    pub fn process(
        store: &mut Store,
        program_id: &Address,
        accounts: &[Account],
        instruction_data: &[u8],
        timestamp: i64,
    ) -> (r: Result<Processed, ProgramFailure>)
        requires
            old(store).wf(),
        ensures
            final(store).wf(),
            old(store).orders_kept_by(final(store)),
            match spec_decode(instruction_data@) {
                None => r == Err::<Processed, ProgramFailure>(ProgramFailure::Custom(0))
                    && final(store)@ == old(store)@,
                Some(decoded) => exists|instruction: PaymentInstruction|
                    instruction@ == decoded && #[trigger] processed(
                        *old(store),
                        *final(store),
                        program_id@,
                        accounts@,
                        instruction,
                        timestamp,
                        r,
                    ),
            },
    {
        match PaymentInstruction::try_from_slice(instruction_data) {
            Err(e) => Err(failure_of(e)),
            Ok(instruction) => Self::dispatch(store, program_id, accounts, instruction, timestamp),
        }
    }

    /// Carries out one decoded instruction.
    pub fn dispatch(
        store: &mut Store,
        program_id: &Address,
        accounts: &[Account],
        instruction: PaymentInstruction,
        timestamp: i64,
    ) -> (r: Result<Processed, ProgramFailure>)
        requires
            old(store).wf(),
        ensures
            final(store).wf(),
            old(store).orders_kept_by(final(store)),
            processed(
                *old(store),
                *final(store),
                program_id@,
                accounts@,
                instruction,
                timestamp,
                r,
            ),
    {
        match instruction {
            PaymentInstruction::Initialize { hot_wallet } => Self::process_initialize(
                store,
                program_id,
                accounts,
                hot_wallet,
            ),
            PaymentInstruction::ProcessPayment { order_id, amount, product_id, commission_bps } =>
                Self::process_payment(
                store,
                program_id,
                accounts,
                order_id,
                amount,
                product_id,
                commission_bps,
                timestamp,
            ),
            PaymentInstruction::AddSupportedToken { token_mint } =>
                Self::process_add_supported_token(store, program_id, accounts, token_mint),
            PaymentInstruction::RemoveSupportedToken => Self::process_remove_supported_token(
                store,
                program_id,
                accounts,
            ),
            PaymentInstruction::UpdateHotWallet { new_hot_wallet } =>
                Self::process_update_hot_wallet(store, program_id, accounts, new_hot_wallet),
            PaymentInstruction::UpdatePlatformFee { new_fee_bps } =>
                Self::process_update_platform_fee(store, program_id, accounts, new_fee_bps),
            PaymentInstruction::Pause => Self::process_pause(store, program_id, accounts),
            PaymentInstruction::Unpause => Self::process_unpause(store, program_id, accounts),
            PaymentInstruction::ProcessBatchPayment {
                order_id,
                total_amount,
                product_ids,
                commission_bps,
            } => Self::process_batch_payment(
                store,
                program_id,
                accounts,
                order_id,
                total_amount,
                product_ids,
                commission_bps,
                timestamp,
            ),
            PaymentInstruction::EmergencyWithdraw { amount } => Self::process_emergency_withdraw(
                store,
                program_id,
                accounts,
                amount,
            ),
        }
    }

    fn process_initialize(
        store: &mut Store,
        program_id: &Address,
        accounts: &[Account],
        hot_wallet: Address,
    ) -> (r: Result<Processed, ProgramFailure>)
        requires
            old(store).wf(),
        ensures
            final(store).wf(),
            old(store).orders_kept_by(final(store)),
            initialize_processed(*old(store), *final(store), program_id@, accounts@, hot_wallet, r),
    {
        if accounts.len() < 3 {
            return Err(ProgramFailure::NotEnoughAccountKeys);
        }
        let ctx: Initialize = initialize_accounts(accounts);
        let inner: Result<(), ErrorCode> = initialize(store, program_id, &ctx, hot_wallet, 0);
        match inner {
            Ok(_) => Ok(Processed::Initialized),
            Err(e) => Err(failure_of(e)),
        }
    }

    fn process_payment(
        store: &mut Store,
        program_id: &Address,
        accounts: &[Account],
        order_id: String,
        amount: u64,
        product_id: String,
        commission_bps: u16,
        timestamp: i64,
    ) -> (r: Result<Processed, ProgramFailure>)
        requires
            old(store).wf(),
        ensures
            final(store).wf(),
            old(store).orders_kept_by(final(store)),
            payment_processed(
                *old(store),
                *final(store),
                program_id@,
                accounts@,
                order_id@,
                amount,
                product_id,
                commission_bps,
                timestamp,
                r,
            ),
    {
        if accounts.len() < 10 {
            return Err(ProgramFailure::NotEnoughAccountKeys);
        }
        let ctx: ProcessPayment = match payment_accounts(accounts) {
            None => {
                return Err(ProgramFailure::InvalidAccountData);
            },
            Some(ctx) => ctx,
        };
        let order_id_hash: [u8; 32] = order_id_of(order_id.as_str());
        match process_payment(
            store,
            program_id,
            &ctx,
            order_id_hash,
            amount,
            product_id,
            accounts[7].key,
            commission_bps,
            timestamp,
        ) {
            Ok(outcome) => Ok(Processed::Payment(outcome)),
            Err(e) => Err(failure_of(e)),
        }
    }

    fn process_batch_payment(
        store: &mut Store,
        program_id: &Address,
        accounts: &[Account],
        order_id: String,
        total_amount: u64,
        product_ids: Vec<String>,
        commission_bps: u16,
        timestamp: i64,
    ) -> (r: Result<Processed, ProgramFailure>)
        requires
            old(store).wf(),
        ensures
            final(store).wf(),
            old(store).orders_kept_by(final(store)),
            batch_processed(
                *old(store),
                *final(store),
                program_id@,
                accounts@,
                order_id@,
                total_amount,
                product_ids@.len(),
                commission_bps,
                timestamp,
                r,
            ),
    {
        if accounts.len() < 10 {
            return Err(ProgramFailure::NotEnoughAccountKeys);
        }
        let ctx: ProcessPayment = match payment_accounts(accounts) {
            None => {
                return Err(ProgramFailure::InvalidAccountData);
            },
            Some(ctx) => ctx,
        };
        let order_id_hash: [u8; 32] = order_id_of(order_id.as_str());
        match process_batch_payment(
            store,
            program_id,
            &ctx,
            order_id_hash,
            total_amount,
            product_ids,
            accounts[7].key,
            commission_bps,
            timestamp,
        ) {
            Ok(outcome) => Ok(Processed::BatchPayment(outcome)),
            Err(e) => Err(failure_of(e)),
        }
    }

    fn process_add_supported_token(
        store: &mut Store,
        program_id: &Address,
        accounts: &[Account],
        token_mint: Address,
    ) -> (r: Result<Processed, ProgramFailure>)
        requires
            old(store).wf(),
        ensures
            final(store).wf(),
            old(store).orders_kept_by(final(store)),
            add_token_processed(*old(store), *final(store), program_id@, accounts@, token_mint, r),
    {
        if accounts.len() < 5 {
            return Err(ProgramFailure::NotEnoughAccountKeys);
        }
        let ctx: UpdateToken = token_accounts(accounts);
        let inner: Result<(), ErrorCode> = add_supported_token(store, program_id, &ctx, token_mint);
        match inner {
            Ok(_) => Ok(Processed::TokenAdded),
            Err(e) => Err(failure_of(e)),
        }
    }

    fn process_remove_supported_token(
        store: &mut Store,
        program_id: &Address,
        accounts: &[Account],
    ) -> (r: Result<Processed, ProgramFailure>)
        requires
            old(store).wf(),
        ensures
            final(store).wf(),
            old(store).orders_kept_by(final(store)),
            remove_token_processed(*old(store), *final(store), program_id@, accounts@, r),
    {
        if accounts.len() < 3 {
            return Err(ProgramFailure::NotEnoughAccountKeys);
        }
        let ctx: UpdateToken = token_accounts(accounts);
        let inner: Result<(), ErrorCode> = remove_supported_token(store, program_id, &ctx);
        match inner {
            Ok(_) => Ok(Processed::TokenRemoved),
            Err(e) => Err(failure_of(e)),
        }
    }

    fn process_update_hot_wallet(
        store: &mut Store,
        program_id: &Address,
        accounts: &[Account],
        new_hot_wallet: Address,
    ) -> (r: Result<Processed, ProgramFailure>)
        requires
            old(store).wf(),
        ensures
            final(store).wf(),
            old(store).orders_kept_by(final(store)),
            hot_wallet_processed(
                *old(store),
                *final(store),
                program_id@,
                accounts@,
                new_hot_wallet,
                r,
            ),
    {
        if accounts.len() < 2 {
            return Err(ProgramFailure::NotEnoughAccountKeys);
        }
        let ctx: UpdateConfig = config_accounts(accounts);
        let inner: Result<HotWalletUpdated, ErrorCode> = update_hot_wallet(
            store,
            program_id,
            &ctx,
            new_hot_wallet,
        );
        match inner {
            Ok(event) => Ok(Processed::HotWalletUpdated(event)),
            Err(e) => Err(failure_of(e)),
        }
    }

    fn process_update_platform_fee(
        store: &mut Store,
        program_id: &Address,
        accounts: &[Account],
        new_fee_bps: u16,
    ) -> (r: Result<Processed, ProgramFailure>)
        requires
            old(store).wf(),
        ensures
            final(store).wf(),
            old(store).orders_kept_by(final(store)),
            platform_fee_processed(
                *old(store),
                *final(store),
                program_id@,
                accounts@,
                new_fee_bps,
                r,
            ),
    {
        if accounts.len() < 2 {
            return Err(ProgramFailure::NotEnoughAccountKeys);
        }
        let ctx: UpdateConfig = config_accounts(accounts);
        let inner: Result<(), ErrorCode> = update_platform_fee(store, program_id, &ctx, new_fee_bps);
        match inner {
            Ok(_) => Ok(Processed::PlatformFeeUpdated),
            Err(e) => Err(failure_of(e)),
        }
    }

    fn process_pause(store: &mut Store, program_id: &Address, accounts: &[Account]) -> (r: Result<
        Processed,
        ProgramFailure,
    >)
        requires
            old(store).wf(),
        ensures
            final(store).wf(),
            old(store).orders_kept_by(final(store)),
            pause_processed(*old(store), *final(store), program_id@, accounts@, true, r),
    {
        if accounts.len() < 2 {
            return Err(ProgramFailure::NotEnoughAccountKeys);
        }
        let ctx: UpdateConfig = config_accounts(accounts);
        let inner: Result<(), ErrorCode> = pause(store, program_id, &ctx);
        match inner {
            Ok(_) => Ok(Processed::Paused),
            Err(e) => Err(failure_of(e)),
        }
    }

    fn process_unpause(store: &mut Store, program_id: &Address, accounts: &[Account]) -> (r:
        Result<Processed, ProgramFailure>)
        requires
            old(store).wf(),
        ensures
            final(store).wf(),
            old(store).orders_kept_by(final(store)),
            pause_processed(*old(store), *final(store), program_id@, accounts@, false, r),
    {
        if accounts.len() < 2 {
            return Err(ProgramFailure::NotEnoughAccountKeys);
        }
        let ctx: UpdateConfig = config_accounts(accounts);
        let inner: Result<(), ErrorCode> = unpause(store, program_id, &ctx);
        match inner {
            Ok(_) => Ok(Processed::Unpaused),
            Err(e) => Err(failure_of(e)),
        }
    }

    fn process_emergency_withdraw(
        store: &mut Store,
        program_id: &Address,
        accounts: &[Account],
        amount: u64,
    ) -> (r: Result<Processed, ProgramFailure>)
        requires
            old(store).wf(),
        ensures
            final(store).wf(),
            old(store).orders_kept_by(final(store)),
            withdraw_processed(*old(store), *final(store), program_id@, accounts@, amount, r),
    {
        if accounts.len() < 5 {
            return Err(ProgramFailure::NotEnoughAccountKeys);
        }
        let ctx: EmergencyWithdraw = withdraw_accounts(accounts);
        let inner: Result<Withdrawal, ErrorCode> = emergency_withdraw(store, program_id, &ctx, amount);
        match inner {
            Ok(withdrawal) => Ok(Processed::Withdrawn(withdrawal)),
            Err(e) => Err(failure_of(e)),
        }
    }
}

} // verus!
