//! The instruction wire format: one tag byte, then the fields of the operation in order.
//! Identities are 32 bytes, integers little-endian, a string is its byte length in four
//! bytes and then its UTF-8 bytes, a list is its item count in four bytes and then its
//! items. Nothing may follow the last field.

use vstd::prelude::*;
use crate::address::Address;
use crate::error::ErrorCode;
use crate::wire::{
    le_bytes_u16,
    le_bytes_u64,
    lemma_string_list_read,
    lemma_string_list_written,
    lemma_string_read,
    lemma_string_written,
    lemma_u16_le,
    lemma_u64_le,
    read_address,
    read_string,
    read_string_list,
    read_u16,
    read_u64,
    spec_address_at,
    spec_pack_string,
    spec_pack_string_list,
    spec_string_at,
    spec_string_list_at,
    spec_u16_at,
    spec_u64_at,
    string_fits,
    string_list_fits,
    strings_view,
    write_address,
    write_string,
    write_string_list,
    write_u16,
    write_u64,
};

verus! {

/// An operation with its arguments.
#[derive(Clone, Debug, PartialEq, Eq)]
pub enum PaymentInstruction {
    /// Tag 0: create the configuration.
    Initialize { hot_wallet: Address },
    /// Tag 1: settle one payment.
    ProcessPayment { order_id: String, amount: u64, product_id: String, commission_bps: u16 },
    /// Tag 2: register a token type.
    AddSupportedToken { token_mint: Address },
    /// Tag 3: disable a token type.
    RemoveSupportedToken,
    /// Tag 4: point settlements at another hot wallet.
    UpdateHotWallet { new_hot_wallet: Address },
    /// Tag 5: set the platform fee.
    UpdatePlatformFee { new_fee_bps: u16 },
    /// Tag 6: switch settlement off.
    Pause,
    /// Tag 7: switch settlement back on.
    Unpause,
    /// Tag 8: settle one payment for several products.
    ProcessBatchPayment {
        order_id: String,
        total_amount: u64,
        product_ids: Vec<String>,
        commission_bps: u16,
    },
    /// Tag 9: move funds out of the vault.
    EmergencyWithdraw { amount: u64 },
}

/// An instruction as mathematical values.
pub ghost enum InstructionView {
    Initialize { hot_wallet: Seq<u8> },
    ProcessPayment { order_id: Seq<char>, amount: u64, product_id: Seq<char>, commission_bps: u16 },
    AddSupportedToken { token_mint: Seq<u8> },
    RemoveSupportedToken,
    UpdateHotWallet { new_hot_wallet: Seq<u8> },
    UpdatePlatformFee { new_fee_bps: u16 },
    Pause,
    Unpause,
    ProcessBatchPayment {
        order_id: Seq<char>,
        total_amount: u64,
        product_ids: Seq<Seq<char>>,
        commission_bps: u16,
    },
    EmergencyWithdraw { amount: u64 },
}

impl View for PaymentInstruction {
    type V = InstructionView;

    open spec fn view(&self) -> InstructionView {
        match self {
            PaymentInstruction::Initialize { hot_wallet } => InstructionView::Initialize {
                hot_wallet: hot_wallet@,
            },
            PaymentInstruction::ProcessPayment { order_id, amount, product_id, commission_bps } =>
                InstructionView::ProcessPayment {
                order_id: order_id@,
                amount: *amount,
                product_id: product_id@,
                commission_bps: *commission_bps,
            },
            PaymentInstruction::AddSupportedToken { token_mint } =>
                InstructionView::AddSupportedToken { token_mint: token_mint@ },
            PaymentInstruction::RemoveSupportedToken => InstructionView::RemoveSupportedToken,
            PaymentInstruction::UpdateHotWallet { new_hot_wallet } =>
                InstructionView::UpdateHotWallet { new_hot_wallet: new_hot_wallet@ },
            PaymentInstruction::UpdatePlatformFee { new_fee_bps } =>
                InstructionView::UpdatePlatformFee { new_fee_bps: *new_fee_bps },
            PaymentInstruction::Pause => InstructionView::Pause,
            PaymentInstruction::Unpause => InstructionView::Unpause,
            PaymentInstruction::ProcessBatchPayment {
                order_id,
                total_amount,
                product_ids,
                commission_bps,
            } => InstructionView::ProcessBatchPayment {
                order_id: order_id@,
                total_amount: *total_amount,
                product_ids: strings_view(product_ids@),
                commission_bps: *commission_bps,
            },
            PaymentInstruction::EmergencyWithdraw { amount } => InstructionView::EmergencyWithdraw {
                amount: *amount,
            },
        }
    }
}

/// The fields of a single payment from `pos` on.
pub open spec fn spec_payment_at(data: Seq<u8>, pos: int) -> Option<(InstructionView, int)> {
    match spec_string_at(data, pos) {
        None => None,
        Some((order_id, p1)) => match spec_u64_at(data, p1) {
            None => None,
            Some((amount, p2)) => match spec_string_at(data, p2) {
                None => None,
                Some((product_id, p3)) => match spec_u16_at(data, p3) {
                    None => None,
                    Some((commission_bps, p4)) => Some(
                        (
                            InstructionView::ProcessPayment {
                                order_id,
                                amount,
                                product_id,
                                commission_bps,
                            },
                            p4,
                        ),
                    ),
                },
            },
        },
    }
}

/// The fields of a batch payment from `pos` on.
pub open spec fn spec_batch_at(data: Seq<u8>, pos: int) -> Option<(InstructionView, int)> {
    match spec_string_at(data, pos) {
        None => None,
        Some((order_id, p1)) => match spec_u64_at(data, p1) {
            None => None,
            Some((total_amount, p2)) => match spec_string_list_at(data, p2) {
                None => None,
                Some((product_ids, p3)) => match spec_u16_at(data, p3) {
                    None => None,
                    Some((commission_bps, p4)) => Some(
                        (
                            InstructionView::ProcessBatchPayment {
                                order_id,
                                total_amount,
                                product_ids,
                                commission_bps,
                            },
                            p4,
                        ),
                    ),
                },
            },
        },
    }
}

/// The instruction that `data` starts with and the position behind it.
pub open spec fn spec_instruction_at(data: Seq<u8>) -> Option<(InstructionView, int)> {
    if data.len() == 0 {
        None
    } else if data[0] == 0 {
        match spec_address_at(data, 1) {
            Some((hot_wallet, end)) => Some((InstructionView::Initialize { hot_wallet }, end)),
            None => None,
        }
    } else if data[0] == 1 {
        spec_payment_at(data, 1)
    } else if data[0] == 2 {
        match spec_address_at(data, 1) {
            Some((token_mint, end)) => Some(
                (InstructionView::AddSupportedToken { token_mint }, end),
            ),
            None => None,
        }
    } else if data[0] == 3 {
        Some((InstructionView::RemoveSupportedToken, 1))
    } else if data[0] == 4 {
        match spec_address_at(data, 1) {
            Some((new_hot_wallet, end)) => Some(
                (InstructionView::UpdateHotWallet { new_hot_wallet }, end),
            ),
            None => None,
        }
    } else if data[0] == 5 {
        match spec_u16_at(data, 1) {
            Some((new_fee_bps, end)) => Some(
                (InstructionView::UpdatePlatformFee { new_fee_bps }, end),
            ),
            None => None,
        }
    } else if data[0] == 6 {
        Some((InstructionView::Pause, 1))
    } else if data[0] == 7 {
        Some((InstructionView::Unpause, 1))
    } else if data[0] == 8 {
        spec_batch_at(data, 1)
    } else if data[0] == 9 {
        match spec_u64_at(data, 1) {
            Some((amount, end)) => Some((InstructionView::EmergencyWithdraw { amount }, end)),
            None => None,
        }
    } else {
        None
    }
}

/// The instruction that `data` encodes: the one it starts with, where nothing follows it.
pub open spec fn spec_decode(data: Seq<u8>) -> Option<InstructionView> {
    match spec_instruction_at(data) {
        Some((instruction, end)) => if end == data.len() {
            Some(instruction)
        } else {
            None
        },
        None => None,
    }
}

/// The instruction can be written: its identities are 32 bytes, and the lengths of its
/// strings and of its list fit four bytes each.
pub open spec fn encodable(i: InstructionView) -> bool {
    match i {
        InstructionView::Initialize { hot_wallet } => hot_wallet.len() == 32,
        InstructionView::ProcessPayment { order_id, product_id, .. } => string_fits(order_id)
            && string_fits(product_id),
        InstructionView::AddSupportedToken { token_mint } => token_mint.len() == 32,
        InstructionView::UpdateHotWallet { new_hot_wallet } => new_hot_wallet.len() == 32,
        InstructionView::ProcessBatchPayment { order_id, product_ids, .. } => string_fits(
            order_id,
        ) && string_list_fits(product_ids),
        _ => true,
    }
}

/// The bytes of an instruction: its tag, then its fields in order.
pub open spec fn spec_encode(i: InstructionView) -> Seq<u8> {
    match i {
        InstructionView::Initialize { hot_wallet } => seq![0u8] + hot_wallet,
        InstructionView::ProcessPayment { order_id, amount, product_id, commission_bps } =>
            seq![1u8] + spec_pack_string(order_id) + le_bytes_u64(amount) + spec_pack_string(
            product_id,
        ) + le_bytes_u16(commission_bps),
        InstructionView::AddSupportedToken { token_mint } => seq![2u8] + token_mint,
        InstructionView::RemoveSupportedToken => seq![3u8],
        InstructionView::UpdateHotWallet { new_hot_wallet } => seq![4u8] + new_hot_wallet,
        InstructionView::UpdatePlatformFee { new_fee_bps } => seq![5u8] + le_bytes_u16(
            new_fee_bps,
        ),
        InstructionView::Pause => seq![6u8],
        InstructionView::Unpause => seq![7u8],
        InstructionView::ProcessBatchPayment {
            order_id,
            total_amount,
            product_ids,
            commission_bps,
        } => seq![8u8] + spec_pack_string(order_id) + le_bytes_u64(total_amount)
            + spec_pack_string_list(product_ids) + le_bytes_u16(commission_bps),
        InstructionView::EmergencyWithdraw { amount } => seq![9u8] + le_bytes_u64(amount),
    }
}

#[verifier::rlimit(40)]
proof fn lemma_payment_written(
    order_id: Seq<char>,
    amount: u64,
    product_id: Seq<char>,
    commission_bps: u16,
)
    requires
        string_fits(order_id),
        string_fits(product_id),
    ensures
        ({
            let i = InstructionView::ProcessPayment { order_id, amount, product_id, commission_bps };
            spec_payment_at(spec_encode(i), 1) == Some((i, spec_encode(i).len() as int))
        }),
{
    let i = InstructionView::ProcessPayment { order_id, amount, product_id, commission_bps };
    let data = spec_encode(i);
    let s1 = spec_pack_string(order_id);
    let s2 = spec_pack_string(product_id);
    let p1 = 1 + s1.len() as int;
    let p2 = p1 + 8;
    let p3 = p2 + s2.len() as int;
    assert(data.len() == p3 + 2);
    assert(data.subrange(1, p1) =~= s1);
    lemma_string_written(data, 1, order_id);
    assert(spec_string_at(data, 1) == Some((order_id, p1)));
    assert(data.subrange(p1, p2) =~= le_bytes_u64(amount));
    lemma_u64_le(amount, le_bytes_u64(amount));
    assert(spec_u64_at(data, p1) == Some((amount, p2)));
    assert(data.subrange(p2, p3) =~= s2);
    lemma_string_written(data, p2, product_id);
    assert(spec_string_at(data, p2) == Some((product_id, p3)));
    assert(data.subrange(p3, p3 + 2) =~= le_bytes_u16(commission_bps));
    lemma_u16_le(commission_bps, le_bytes_u16(commission_bps));
    assert(spec_u16_at(data, p3) == Some((commission_bps, p3 + 2)));
}

#[verifier::rlimit(40)]
proof fn lemma_batch_written(
    order_id: Seq<char>,
    total_amount: u64,
    product_ids: Seq<Seq<char>>,
    commission_bps: u16,
)
    requires
        string_fits(order_id),
        string_list_fits(product_ids),
    ensures
        ({
            let i = InstructionView::ProcessBatchPayment {
                order_id,
                total_amount,
                product_ids,
                commission_bps,
            };
            spec_batch_at(spec_encode(i), 1) == Some((i, spec_encode(i).len() as int))
        }),
{
    let i = InstructionView::ProcessBatchPayment {
        order_id,
        total_amount,
        product_ids,
        commission_bps,
    };
    let data = spec_encode(i);
    let s1 = spec_pack_string(order_id);
    let s2 = spec_pack_string_list(product_ids);
    let p1 = 1 + s1.len() as int;
    let p2 = p1 + 8;
    let p3 = p2 + s2.len() as int;
    assert(data.len() == p3 + 2);
    assert(data.subrange(1, p1) =~= s1);
    lemma_string_written(data, 1, order_id);
    assert(spec_string_at(data, 1) == Some((order_id, p1)));
    assert(data.subrange(p1, p2) =~= le_bytes_u64(total_amount));
    lemma_u64_le(total_amount, le_bytes_u64(total_amount));
    assert(spec_u64_at(data, p1) == Some((total_amount, p2)));
    assert(data.subrange(p2, p3) =~= s2);
    lemma_string_list_written(data, p2, product_ids);
    assert(spec_string_list_at(data, p2) == Some((product_ids, p3)));
    assert(data.subrange(p3, p3 + 2) =~= le_bytes_u16(commission_bps));
    lemma_u16_le(commission_bps, le_bytes_u16(commission_bps));
    assert(spec_u16_at(data, p3) == Some((commission_bps, p3 + 2)));
}

proof fn lemma_address_written(tag: u8, key: Seq<u8>)
    requires
        key.len() == 32,
    ensures
        (seq![tag] + key).len() == 33,
        (seq![tag] + key)[0] == tag,
        spec_address_at(seq![tag] + key, 1) == Some((key, 33int)),
{
    let data = seq![tag] + key;
    assert(data.subrange(1, 33) =~= key);
}

proof fn lemma_rate_written(tag: u8, rate: u16)
    ensures
        (seq![tag] + le_bytes_u16(rate)).len() == 3,
        (seq![tag] + le_bytes_u16(rate))[0] == tag,
        spec_u16_at(seq![tag] + le_bytes_u16(rate), 1) == Some((rate, 3int)),
{
    let data = seq![tag] + le_bytes_u16(rate);
    assert(data.subrange(1, 3) =~= le_bytes_u16(rate));
    lemma_u16_le(rate, le_bytes_u16(rate));
}

proof fn lemma_amount_written(tag: u8, amount: u64)
    ensures
        (seq![tag] + le_bytes_u64(amount)).len() == 9,
        (seq![tag] + le_bytes_u64(amount))[0] == tag,
        spec_u64_at(seq![tag] + le_bytes_u64(amount), 1) == Some((amount, 9int)),
{
    let data = seq![tag] + le_bytes_u64(amount);
    assert(data.subrange(1, 9) =~= le_bytes_u64(amount));
    lemma_u64_le(amount, le_bytes_u64(amount));
}

/// Decoding is the inverse of encoding: the bytes of an instruction decode to that
/// instruction.
pub proof fn lemma_decode_encode(i: InstructionView)
    requires
        encodable(i),
    ensures
        spec_decode(spec_encode(i)) == Some(i),
{
    let data = spec_encode(i);
    match i {
        InstructionView::Initialize { hot_wallet } => {
            lemma_address_written(0, hot_wallet);
            assert(spec_instruction_at(data) == Some((i, 33int)));
        },
        InstructionView::ProcessPayment { order_id, amount, product_id, commission_bps } => {
            lemma_payment_written(order_id, amount, product_id, commission_bps);
            assert(data[0] == 1);
            assert(spec_instruction_at(data) == Some((i, data.len() as int)));
        },
        InstructionView::AddSupportedToken { token_mint } => {
            lemma_address_written(2, token_mint);
            assert(spec_instruction_at(data) == Some((i, 33int)));
        },
        InstructionView::RemoveSupportedToken => {
            assert(spec_instruction_at(data) == Some((i, 1int)));
        },
        InstructionView::UpdateHotWallet { new_hot_wallet } => {
            lemma_address_written(4, new_hot_wallet);
            assert(spec_instruction_at(data) == Some((i, 33int)));
        },
        InstructionView::UpdatePlatformFee { new_fee_bps } => {
            lemma_rate_written(5, new_fee_bps);
            assert(spec_instruction_at(data) == Some((i, 3int)));
        },
        InstructionView::Pause => {
            assert(spec_instruction_at(data) == Some((i, 1int)));
        },
        InstructionView::Unpause => {
            assert(spec_instruction_at(data) == Some((i, 1int)));
        },
        InstructionView::ProcessBatchPayment {
            order_id,
            total_amount,
            product_ids,
            commission_bps,
        } => {
            lemma_batch_written(order_id, total_amount, product_ids, commission_bps);
            assert(data[0] == 8);
            assert(spec_instruction_at(data) == Some((i, data.len() as int)));
        },
        InstructionView::EmergencyWithdraw { amount } => {
            lemma_amount_written(9, amount);
            assert(spec_instruction_at(data) == Some((i, 9int)));
        },
    }
}

#[verifier::rlimit(40)]
proof fn lemma_payment_read(data: Seq<u8>)
    requires
        data.len() > 0,
        data[0] == 1,
        spec_payment_at(data, 1) matches Some((_, end)) && end == data.len(),
    ensures
        spec_payment_at(data, 1) matches Some((i, _)) && encodable(i) && spec_encode(i) == data,
{
    let (order_id, p1) = spec_string_at(data, 1)->0;
    lemma_string_read(data, 1);
    let (amount, p2) = spec_u64_at(data, p1)->0;
    lemma_u64_le(0, data.subrange(p1, p1 + 8));
    let (product_id, p3) = spec_string_at(data, p2)->0;
    lemma_string_read(data, p2);
    let (commission_bps, p4) = spec_u16_at(data, p3)->0;
    lemma_u16_le(0, data.subrange(p3, p3 + 2));
    assert(data =~= seq![1u8] + data.subrange(1, p1) + data.subrange(p1, p2) + data.subrange(
        p2,
        p3,
    ) + data.subrange(p3, p4));
}

#[verifier::rlimit(40)]
proof fn lemma_batch_read(data: Seq<u8>)
    requires
        data.len() > 0,
        data[0] == 8,
        spec_batch_at(data, 1) matches Some((_, end)) && end == data.len(),
    ensures
        spec_batch_at(data, 1) matches Some((i, _)) && encodable(i) && spec_encode(i) == data,
{
    let (order_id, p1) = spec_string_at(data, 1)->0;
    lemma_string_read(data, 1);
    let (total_amount, p2) = spec_u64_at(data, p1)->0;
    lemma_u64_le(0, data.subrange(p1, p1 + 8));
    let (product_ids, p3) = spec_string_list_at(data, p2)->0;
    lemma_string_list_read(data, p2);
    let (commission_bps, p4) = spec_u16_at(data, p3)->0;
    lemma_u16_le(0, data.subrange(p3, p3 + 2));
    assert(data =~= seq![8u8] + data.subrange(1, p1) + data.subrange(p1, p2) + data.subrange(
        p2,
        p3,
    ) + data.subrange(p3, p4));
}

/// Encoding is the inverse of decoding: bytes that decode to an instruction are the bytes
/// of that instruction, so no two buffers decode to the same instruction.
pub proof fn lemma_encode_decode(data: Seq<u8>)
    requires
        spec_decode(data) is Some,
    ensures
        encodable(spec_decode(data)->0),
        spec_encode(spec_decode(data)->0) == data,
{
    let i = spec_decode(data)->0;
    let tag = data[0];
    assert(spec_instruction_at(data) == Some((i, data.len() as int)));
    if tag == 0 {
        assert(i == InstructionView::Initialize { hot_wallet: data.subrange(1, 33) });
        assert(data =~= seq![0u8] + data.subrange(1, 33));
    } else if tag == 1 {
        lemma_payment_read(data);
    } else if tag == 2 {
        assert(i == InstructionView::AddSupportedToken { token_mint: data.subrange(1, 33) });
        assert(data =~= seq![2u8] + data.subrange(1, 33));
    } else if tag == 3 {
        assert(data =~= seq![3u8]);
    } else if tag == 4 {
        assert(i == InstructionView::UpdateHotWallet { new_hot_wallet: data.subrange(1, 33) });
        assert(data =~= seq![4u8] + data.subrange(1, 33));
    } else if tag == 5 {
        lemma_u16_le(0, data.subrange(1, 3));
        assert(data =~= seq![5u8] + data.subrange(1, 3));
    } else if tag == 6 {
        assert(data =~= seq![6u8]);
    } else if tag == 7 {
        assert(data =~= seq![7u8]);
    } else if tag == 8 {
        lemma_batch_read(data);
    } else {
        assert(tag == 9);
        lemma_u64_le(0, data.subrange(1, 9));
        assert(data =~= seq![9u8] + data.subrange(1, 9));
    }
}

fn read_payment(data: &[u8], pos: usize) -> (r: Option<(PaymentInstruction, usize)>)
    ensures
        match r {
            Some((x, end)) => spec_payment_at(data@, pos as int) == Some((x@, end as int)) && end
                <= data@.len(),
            None => spec_payment_at(data@, pos as int) is None,
        },
{
    let (order_id, p1) = match read_string(data, pos) {
        None => {
            return None;
        },
        Some(x) => x,
    };
    let (amount, p2) = match read_u64(data, p1) {
        None => {
            return None;
        },
        Some(x) => x,
    };
    let (product_id, p3) = match read_string(data, p2) {
        None => {
            return None;
        },
        Some(x) => x,
    };
    let (commission_bps, p4) = match read_u16(data, p3) {
        None => {
            return None;
        },
        Some(x) => x,
    };
    Some((PaymentInstruction::ProcessPayment { order_id, amount, product_id, commission_bps }, p4))
}

fn read_batch(data: &[u8], pos: usize) -> (r: Option<(PaymentInstruction, usize)>)
    ensures
        match r {
            Some((x, end)) => spec_batch_at(data@, pos as int) == Some((x@, end as int)) && end
                <= data@.len(),
            None => spec_batch_at(data@, pos as int) is None,
        },
{
    let (order_id, p1) = match read_string(data, pos) {
        None => {
            return None;
        },
        Some(x) => x,
    };
    let (total_amount, p2) = match read_u64(data, p1) {
        None => {
            return None;
        },
        Some(x) => x,
    };
    let (product_ids, p3) = match read_string_list(data, p2) {
        None => {
            return None;
        },
        Some(x) => x,
    };
    let (commission_bps, p4) = match read_u16(data, p3) {
        None => {
            return None;
        },
        Some(x) => x,
    };
    Some(
        (
            PaymentInstruction::ProcessBatchPayment {
                order_id,
                total_amount,
                product_ids,
                commission_bps,
            },
            p4,
        ),
    )
}

fn read_instruction(data: &[u8]) -> (r: Option<(PaymentInstruction, usize)>)
    ensures
        match r {
            Some((x, end)) => spec_instruction_at(data@) == Some((x@, end as int)),
            None => spec_instruction_at(data@) is None,
        },
{
    if data.len() == 0 {
        return None;
    }
    let tag: u8 = data[0];
    if tag == 0 {
        match read_address(data, 1) {
            Some((hot_wallet, end)) => Some((PaymentInstruction::Initialize { hot_wallet }, end)),
            None => None,
        }
    } else if tag == 1 {
        read_payment(data, 1)
    } else if tag == 2 {
        match read_address(data, 1) {
            Some((token_mint, end)) => Some(
                (PaymentInstruction::AddSupportedToken { token_mint }, end),
            ),
            None => None,
        }
    } else if tag == 3 {
        Some((PaymentInstruction::RemoveSupportedToken, 1))
    } else if tag == 4 {
        match read_address(data, 1) {
            Some((new_hot_wallet, end)) => Some(
                (PaymentInstruction::UpdateHotWallet { new_hot_wallet }, end),
            ),
            None => None,
        }
    } else if tag == 5 {
        match read_u16(data, 1) {
            Some((new_fee_bps, end)) => Some(
                (PaymentInstruction::UpdatePlatformFee { new_fee_bps }, end),
            ),
            None => None,
        }
    } else if tag == 6 {
        Some((PaymentInstruction::Pause, 1))
    } else if tag == 7 {
        Some((PaymentInstruction::Unpause, 1))
    } else if tag == 8 {
        read_batch(data, 1)
    } else if tag == 9 {
        match read_u64(data, 1) {
            Some((amount, end)) => Some((PaymentInstruction::EmergencyWithdraw { amount }, end)),
            None => None,
        }
    } else {
        None
    }
}

impl PaymentInstruction {
    /// Encodes the instruction, or fails with `InvalidInstruction` where a length does not
    /// fit its four-byte prefix.
    pub fn pack(&self) -> (r: Result<Vec<u8>, ErrorCode>)
        ensures
            match r {
                Ok(out) => encodable(self@) && out@ == spec_encode(self@),
                Err(e) => e == ErrorCode::InvalidInstruction && !encodable(self@),
            },
    {
        broadcast use vstd::array::group_array_axioms;

        let mut out: Vec<u8> = Vec::new();
        match self {
            PaymentInstruction::Initialize { hot_wallet } => {
                out.push(0);
                write_address(&mut out, hot_wallet);
            },
            PaymentInstruction::ProcessPayment { order_id, amount, product_id, commission_bps } => {
                out.push(1);
                if !write_string(&mut out, order_id.as_str()) {
                    return Err(ErrorCode::InvalidInstruction);
                }
                write_u64(&mut out, *amount);
                if !write_string(&mut out, product_id.as_str()) {
                    return Err(ErrorCode::InvalidInstruction);
                }
                write_u16(&mut out, *commission_bps);
            },
            PaymentInstruction::AddSupportedToken { token_mint } => {
                out.push(2);
                write_address(&mut out, token_mint);
            },
            PaymentInstruction::RemoveSupportedToken => {
                out.push(3);
            },
            PaymentInstruction::UpdateHotWallet { new_hot_wallet } => {
                out.push(4);
                write_address(&mut out, new_hot_wallet);
            },
            PaymentInstruction::UpdatePlatformFee { new_fee_bps } => {
                out.push(5);
                write_u16(&mut out, *new_fee_bps);
            },
            PaymentInstruction::Pause => {
                out.push(6);
            },
            PaymentInstruction::Unpause => {
                out.push(7);
            },
            PaymentInstruction::ProcessBatchPayment {
                order_id,
                total_amount,
                product_ids,
                commission_bps,
            } => {
                out.push(8);
                if !write_string(&mut out, order_id.as_str()) {
                    return Err(ErrorCode::InvalidInstruction);
                }
                write_u64(&mut out, *total_amount);
                if !write_string_list(&mut out, product_ids) {
                    return Err(ErrorCode::InvalidInstruction);
                }
                write_u16(&mut out, *commission_bps);
            },
            PaymentInstruction::EmergencyWithdraw { amount } => {
                out.push(9);
                write_u64(&mut out, *amount);
            },
        }
        assert(out@ =~= spec_encode(self@));
        Ok(out)
    }

    /// Decodes an instruction from the whole of `data`, or fails with
    /// `InvalidInstruction`: on an empty buffer, an unknown tag, a field cut short, a
    /// string that is not UTF-8, or bytes left over.
    pub fn try_from_slice(data: &[u8]) -> (r: Result<PaymentInstruction, ErrorCode>)
        ensures
            match r {
                Ok(instruction) => spec_decode(data@) == Some(instruction@),
                Err(e) => e == ErrorCode::InvalidInstruction && spec_decode(data@) is None,
            },
    {
        match read_instruction(data) {
            Some((instruction, end)) => if end == data.len() {
                Ok(instruction)
            } else {
                Err(ErrorCode::InvalidInstruction)
            },
            None => Err(ErrorCode::InvalidInstruction),
        }
    }
}

} // verus!
