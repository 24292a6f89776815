use oxmart_payment::address::Address;
use oxmart_payment::error::ErrorCode;
use oxmart_payment::instruction::PaymentInstruction;

fn addr(n: u8) -> Address {
    Address::new([n; 32])
}

fn decode(data: &[u8]) -> Result<PaymentInstruction, ErrorCode> {
    PaymentInstruction::try_from_slice(data)
}

fn string_bytes(s: &str) -> Vec<u8> {
    borsh::to_vec(&s.to_string()).unwrap()
}

#[test]
fn decodes_initialize() {
    let mut data = vec![0u8];
    data.extend_from_slice(&[5u8; 32]);
    assert_eq!(decode(&data), Ok(PaymentInstruction::Initialize { hot_wallet: addr(5) }));
}

#[test]
fn decodes_process_payment() {
    let mut data = vec![1u8];
    data.extend_from_slice(&[7, 0, 0, 0]);
    data.extend_from_slice(b"order-1");
    data.extend_from_slice(&1_000_000u64.to_le_bytes());
    data.extend_from_slice(&[3, 0, 0, 0]);
    data.extend_from_slice(b"sku");
    data.extend_from_slice(&[0xf4, 0x01]);
    assert_eq!(
        decode(&data),
        Ok(PaymentInstruction::ProcessPayment {
            order_id: String::from("order-1"),
            amount: 1_000_000,
            product_id: String::from("sku"),
            commission_bps: 500,
        })
    );
}

#[test]
fn decodes_the_fieldless_operations() {
    assert_eq!(decode(&[3]), Ok(PaymentInstruction::RemoveSupportedToken));
    assert_eq!(decode(&[6]), Ok(PaymentInstruction::Pause));
    assert_eq!(decode(&[7]), Ok(PaymentInstruction::Unpause));
}

#[test]
fn decodes_the_admin_operations() {
    let mut data = vec![2u8];
    data.extend_from_slice(&[9u8; 32]);
    assert_eq!(decode(&data), Ok(PaymentInstruction::AddSupportedToken { token_mint: addr(9) }));
    data[0] = 4;
    assert_eq!(decode(&data), Ok(PaymentInstruction::UpdateHotWallet { new_hot_wallet: addr(9) }));
    assert_eq!(
        decode(&[5, 0xe8, 0x03]),
        Ok(PaymentInstruction::UpdatePlatformFee { new_fee_bps: 1000 })
    );
    assert_eq!(
        decode(&[9, 1, 2, 3, 4, 5, 6, 7, 8]),
        Ok(PaymentInstruction::EmergencyWithdraw { amount: 0x0807_0605_0403_0201 })
    );
}

#[test]
fn decodes_process_batch_payment() {
    let mut data = vec![8u8];
    data.extend_from_slice(&string_bytes("cart-9"));
    data.extend_from_slice(&3_000_000u64.to_le_bytes());
    data.extend_from_slice(
        &borsh::to_vec(&vec!["a".to_string(), "bb".to_string(), String::new()]).unwrap(),
    );
    data.extend_from_slice(&100u16.to_le_bytes());
    assert_eq!(
        decode(&data),
        Ok(PaymentInstruction::ProcessBatchPayment {
            order_id: String::from("cart-9"),
            total_amount: 3_000_000,
            product_ids: vec![String::from("a"), String::from("bb"), String::new()],
            commission_bps: 100,
        })
    );
}

#[test]
fn decodes_an_empty_batch_list() {
    let mut data = vec![8u8];
    data.extend_from_slice(&string_bytes(""));
    data.extend_from_slice(&1u64.to_le_bytes());
    data.extend_from_slice(&[0, 0, 0, 0]);
    data.extend_from_slice(&[0, 0]);
    assert_eq!(
        decode(&data),
        Ok(PaymentInstruction::ProcessBatchPayment {
            order_id: String::new(),
            total_amount: 1,
            product_ids: vec![],
            commission_bps: 0,
        })
    );
}

#[test]
fn rejects_an_empty_buffer_and_unknown_tags() {
    assert_eq!(decode(&[]), Err(ErrorCode::InvalidInstruction));
    assert_eq!(decode(&[10]), Err(ErrorCode::InvalidInstruction));
    assert_eq!(decode(&[255]), Err(ErrorCode::InvalidInstruction));
}

#[test]
fn rejects_fields_cut_short() {
    let mut data = vec![0u8];
    data.extend_from_slice(&[5u8; 31]);
    assert_eq!(decode(&data), Err(ErrorCode::InvalidInstruction));
    assert_eq!(decode(&[5, 1]), Err(ErrorCode::InvalidInstruction));
    assert_eq!(decode(&[9, 1, 2, 3, 4, 5, 6, 7]), Err(ErrorCode::InvalidInstruction));
    assert_eq!(decode(&[1, 4, 0, 0, 0, b'a', b'b', b'c']), Err(ErrorCode::InvalidInstruction));
    assert_eq!(decode(&[1, 255, 255, 255, 255]), Err(ErrorCode::InvalidInstruction));
    assert_eq!(decode(&[8, 0, 0, 0, 0, 1, 0, 0, 0, 0, 0, 0, 0, 255, 255, 255, 255]), Err(ErrorCode::InvalidInstruction));
}

#[test]
fn rejects_bytes_left_over() {
    assert_eq!(decode(&[6, 0]), Err(ErrorCode::InvalidInstruction));
    assert_eq!(decode(&[5, 1, 0, 0]), Err(ErrorCode::InvalidInstruction));
    let mut data = vec![0u8];
    data.extend_from_slice(&[5u8; 33]);
    assert_eq!(decode(&data), Err(ErrorCode::InvalidInstruction));
}

#[test]
fn rejects_strings_that_are_not_utf8() {
    let mut data = vec![1u8];
    data.extend_from_slice(&[2, 0, 0, 0, 0xc3, 0x28]);
    data.extend_from_slice(&1u64.to_le_bytes());
    data.extend_from_slice(&[0, 0, 0, 0]);
    data.extend_from_slice(&[0, 0]);
    assert_eq!(decode(&data), Err(ErrorCode::InvalidInstruction));
    data[5] = 0xc3;
    data[6] = 0xa9;
    assert_eq!(
        decode(&data),
        Ok(PaymentInstruction::ProcessPayment {
            order_id: String::from("é"),
            amount: 1,
            product_id: String::new(),
            commission_bps: 0,
        })
    );
}

fn samples() -> Vec<PaymentInstruction> {
    vec![
        PaymentInstruction::Initialize { hot_wallet: addr(1) },
        PaymentInstruction::ProcessPayment {
            order_id: String::from("order-é-1"),
            amount: u64::MAX,
            product_id: String::from("sku"),
            commission_bps: 10_000,
        },
        PaymentInstruction::AddSupportedToken { token_mint: addr(2) },
        PaymentInstruction::RemoveSupportedToken,
        PaymentInstruction::UpdateHotWallet { new_hot_wallet: addr(3) },
        PaymentInstruction::UpdatePlatformFee { new_fee_bps: 65_535 },
        PaymentInstruction::Pause,
        PaymentInstruction::Unpause,
        PaymentInstruction::ProcessBatchPayment {
            order_id: String::from("cart"),
            total_amount: 77,
            product_ids: vec![String::from("a"), String::from("日本"), String::new()],
            commission_bps: 1,
        },
        PaymentInstruction::EmergencyWithdraw { amount: 12345 },
    ]
}

#[test]
fn pack_then_decode_gives_the_instruction_back() {
    for (tag, instruction) in samples().into_iter().enumerate() {
        let bytes = instruction.pack().unwrap();
        assert_eq!(bytes[0] as usize, [0usize, 1, 2, 3, 4, 5, 6, 7, 8, 9][tag]);
        assert_eq!(decode(&bytes), Ok(instruction));
    }
}

#[test]
fn pack_writes_the_wire_format() {
    let payment = PaymentInstruction::ProcessPayment {
        order_id: String::from("ab"),
        amount: 258,
        product_id: String::from("c"),
        commission_bps: 513,
    };
    assert_eq!(
        payment.pack().unwrap(),
        vec![1u8, 2, 0, 0, 0, b'a', b'b', 2, 1, 0, 0, 0, 0, 0, 0, 1, 0, 0, 0, b'c', 1, 2]
    );
    let batch = PaymentInstruction::ProcessBatchPayment {
        order_id: String::new(),
        total_amount: 1,
        product_ids: vec![String::from("x"), String::from("yz")],
        commission_bps: 0,
    };
    let mut expected = vec![8u8];
    expected.extend_from_slice(&string_bytes(""));
    expected.extend_from_slice(&borsh::to_vec(&1u64).unwrap());
    expected.extend_from_slice(&borsh::to_vec(&vec!["x".to_string(), "yz".to_string()]).unwrap());
    expected.extend_from_slice(&borsh::to_vec(&0u16).unwrap());
    assert_eq!(batch.pack().unwrap(), expected);
}
