use oxmart_payment::address::Address;
use oxmart_payment::error::ErrorCode;
use oxmart_payment::token::{transfer_instruction, AccountMeta, Transfer};

fn token_program() -> Address {
    Address::new(spl_token::id().to_bytes())
}

#[test]
fn token_program_id_bytes() {
    let expected: [u8; 32] = [
        6, 221, 246, 225, 215, 101, 161, 147, 217, 203, 225, 70, 206, 235, 121, 172, 28, 180, 133,
        237, 95, 91, 55, 145, 58, 140, 245, 133, 126, 255, 0, 169,
    ];
    assert_eq!(token_program().bytes, expected);
}

#[test]
fn transfer_instruction_carries_the_transfer() {
    let t = Transfer {
        source: Address::new([1u8; 32]),
        destination: Address::new([2u8; 32]),
        authority: Address::new([3u8; 32]),
        amount: 975_000,
    };
    let ix = transfer_instruction(&token_program(), &t).unwrap();
    assert_eq!(ix.program_id, token_program());
    assert_eq!(ix.accounts.len(), 3);
    let metas: Vec<(Address, bool, bool)> =
        ix.accounts.iter().map(|m: &AccountMeta| (m.pubkey, m.is_signer, m.is_writable)).collect();
    assert_eq!(
        metas,
        vec![(t.source, false, true), (t.destination, false, true), (t.authority, true, false)]
    );
    assert_eq!(ix.data, vec![3u8, 0x98, 0xe0, 0x0e, 0, 0, 0, 0, 0]);
}

#[test]
fn transfer_instruction_amount_is_little_endian() {
    let t = Transfer {
        source: Address::new([1u8; 32]),
        destination: Address::new([2u8; 32]),
        authority: Address::new([3u8; 32]),
        amount: 0x0102_0304_0506_0708,
    };
    let ix = transfer_instruction(&token_program(), &t).unwrap();
    assert_eq!(ix.data, vec![3u8, 8, 7, 6, 5, 4, 3, 2, 1]);
}

#[test]
fn transfer_instruction_refuses_another_program() {
    let t = Transfer {
        source: Address::new([1u8; 32]),
        destination: Address::new([2u8; 32]),
        authority: Address::new([3u8; 32]),
        amount: 1,
    };
    let r = transfer_instruction(&Address::new([0u8; 32]), &t);
    assert_eq!(r.err(), Some(ErrorCode::IncorrectProgramId));
}
