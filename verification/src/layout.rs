//! The fixed layouts of the persisted records: fields in order, integers little-endian,
//! a flag as one byte that is 0 or 1. An order record is 163 bytes; one that carries its
//! product reference is 54 bytes more; one of a batch carries the sentinel as its
//! reference and the product count in eight bytes more.

use vstd::prelude::*;
use vstd::slice::slice_subrange;
use vstd::string::StringExecFns;
use vstd::utf8::encode_utf8;
use crate::address::{lemma_address_ext, Address};
use crate::error::ErrorCode;
use crate::state::{
    utf8_len,
    Config,
    Entity,
    OrderRecord,
    ProductReference,
    SupportedToken,
    CONFIG_LEN,
    MAX_PRODUCT_ID_LEN,
    ORDER_RECORD_BASE_LEN,
    PRODUCT_REFERENCE_LEN,
    SUPPORTED_TOKEN_LEN,
};
use crate::store::Store;
use crate::wire::{
    le_bytes_u16,
    le_bytes_u32,
    le_bytes_u64,
    lemma_u16_le,
    lemma_u32_le,
    lemma_u64_le,
    read_address,
    read_string,
    read_u16,
    read_u64,
    spec_string_at,
    spec_u32_le,
    write_address,
    write_bytes,
    write_u16,
    write_u32,
    write_u64,
};

verus! {

/// The byte of a flag.
pub open spec fn bool_byte(b: bool) -> u8 {
    if b {
        1
    } else {
        0
    }
}

/// The 72 bytes of a configuration: authority, hot wallet, platform fee, fee cap,
/// commission cap, pause flag, bump.
pub open spec fn spec_pack_config(c: Config) -> Seq<u8> {
    c.authority@ + c.hot_wallet@ + le_bytes_u16(c.platform_fee_bps) + le_bytes_u16(
        c.max_platform_fee_bps,
    ) + le_bytes_u16(c.max_commission_bps) + seq![bool_byte(c.paused), c.bump]
}

/// The 34 bytes of a registry entry: token type, flag, bump.
pub open spec fn spec_pack_token(t: SupportedToken) -> Seq<u8> {
    t.mint@ + seq![bool_byte(t.is_supported), t.bump]
}

fn read_flag(data: &[u8], pos: usize) -> (r: Option<bool>)
    requires
        pos < data@.len(),
    ensures
        match r {
            Some(b) => data@[pos as int] == bool_byte(b),
            None => data@[pos as int] > 1,
        },
{
    let byte: u8 = data[pos];
    if byte == 0 {
        Some(false)
    } else if byte == 1 {
        Some(true)
    } else {
        None
    }
}

fn flag_byte(b: bool) -> (r: u8)
    ensures
        r == bool_byte(b),
{
    if b {
        1
    } else {
        0
    }
}

impl Config {
    /// The bytes of the configuration in its layout.
    pub fn pack(&self) -> (out: Vec<u8>)
        ensures
            out@ == spec_pack_config(*self),
            out@.len() == CONFIG_LEN,
    {
        broadcast use vstd::array::group_array_axioms;

        let mut out: Vec<u8> = Vec::new();
        write_address(&mut out, &self.authority);
        write_address(&mut out, &self.hot_wallet);
        write_u16(&mut out, self.platform_fee_bps);
        write_u16(&mut out, self.max_platform_fee_bps);
        write_u16(&mut out, self.max_commission_bps);
        out.push(flag_byte(self.paused));
        out.push(self.bump);
        assert(out@ =~= spec_pack_config(*self));
        out
    }

    /// The configuration that `data` is the layout of, or `InvalidAccountData` where it is
    /// the layout of none.
    pub fn unpack(data: &[u8]) -> (r: Result<Config, ErrorCode>)
        ensures
            match r {
                Ok(c) => spec_pack_config(c) == data@,
                Err(e) => e == ErrorCode::InvalidAccountData && forall|c: Config|
                    spec_pack_config(c) != data@,
            },
    {
        broadcast use vstd::array::group_array_axioms;

        if data.len() != 72 {
            assert forall|c: Config| spec_pack_config(c) != data@ by {
                assert(spec_pack_config(c).len() == 72);
            }
            return Err(ErrorCode::InvalidAccountData);
        }
        let paused: bool = match read_flag(data, 70) {
            None => {
                assert forall|c: Config| spec_pack_config(c) != data@ by {
                    assert(spec_pack_config(c)[70] == bool_byte(c.paused));
                }
                return Err(ErrorCode::InvalidAccountData);
            },
            Some(b) => b,
        };
        let (authority, _) = read_address(data, 0).unwrap();
        let (hot_wallet, _) = read_address(data, 32).unwrap();
        let (platform_fee_bps, _) = read_u16(data, 64).unwrap();
        let (max_platform_fee_bps, _) = read_u16(data, 66).unwrap();
        let (max_commission_bps, _) = read_u16(data, 68).unwrap();
        let c = Config {
            authority,
            hot_wallet,
            platform_fee_bps,
            max_platform_fee_bps,
            max_commission_bps,
            paused,
            bump: data[71],
        };
        proof {
            lemma_u16_le(0, data@.subrange(64, 66));
            lemma_u16_le(0, data@.subrange(66, 68));
            lemma_u16_le(0, data@.subrange(68, 70));
            assert(spec_pack_config(c) =~= data@);
        }
        Ok(c)
    }
}

impl SupportedToken {
    /// The bytes of the entry in its layout.
    pub fn pack(&self) -> (out: Vec<u8>)
        ensures
            out@ == spec_pack_token(*self),
            out@.len() == SUPPORTED_TOKEN_LEN,
    {
        broadcast use vstd::array::group_array_axioms;

        let mut out: Vec<u8> = Vec::new();
        write_address(&mut out, &self.mint);
        out.push(flag_byte(self.is_supported));
        out.push(self.bump);
        assert(out@ =~= spec_pack_token(*self));
        out
    }

    /// The entry that `data` is the layout of, or `InvalidAccountData` where it is the
    /// layout of none.
    pub fn unpack(data: &[u8]) -> (r: Result<SupportedToken, ErrorCode>)
        ensures
            match r {
                Ok(t) => spec_pack_token(t) == data@,
                Err(e) => e == ErrorCode::InvalidAccountData && forall|t: SupportedToken|
                    spec_pack_token(t) != data@,
            },
    {
        broadcast use vstd::array::group_array_axioms;

        if data.len() != 34 {
            assert forall|t: SupportedToken| spec_pack_token(t) != data@ by {
                assert(spec_pack_token(t).len() == 34);
            }
            return Err(ErrorCode::InvalidAccountData);
        }
        let is_supported: bool = match read_flag(data, 32) {
            None => {
                assert forall|t: SupportedToken| spec_pack_token(t) != data@ by {
                    assert(spec_pack_token(t)[32] == bool_byte(t.is_supported));
                }
                return Err(ErrorCode::InvalidAccountData);
            },
            Some(b) => b,
        };
        let (mint, _) = read_address(data, 0).unwrap();
        let t = SupportedToken { mint, is_supported, bump: data[33] };
        assert(spec_pack_token(t) =~= data@);
        Ok(t)
    }
}

/// A layout belongs to one configuration only.
pub proof fn lemma_pack_config_injective(a: Config, b: Config)
    requires
        spec_pack_config(a) == spec_pack_config(b),
    ensures
        a == b,
{
    broadcast use vstd::array::group_array_axioms;

    let p = spec_pack_config(a);
    let q = spec_pack_config(b);
    assert(p.subrange(0, 32) =~= a.authority@);
    assert(q.subrange(0, 32) =~= b.authority@);
    assert(p.subrange(32, 64) =~= a.hot_wallet@);
    assert(q.subrange(32, 64) =~= b.hot_wallet@);
    assert(p.subrange(64, 66) =~= le_bytes_u16(a.platform_fee_bps));
    assert(q.subrange(64, 66) =~= le_bytes_u16(b.platform_fee_bps));
    assert(p.subrange(66, 68) =~= le_bytes_u16(a.max_platform_fee_bps));
    assert(q.subrange(66, 68) =~= le_bytes_u16(b.max_platform_fee_bps));
    assert(p.subrange(68, 70) =~= le_bytes_u16(a.max_commission_bps));
    assert(q.subrange(68, 70) =~= le_bytes_u16(b.max_commission_bps));
    assert(p[70] == bool_byte(a.paused) && q[70] == bool_byte(b.paused));
    assert(p[71] == a.bump && q[71] == b.bump);
    lemma_u16_le(a.platform_fee_bps, p.subrange(64, 66));
    lemma_u16_le(b.platform_fee_bps, p.subrange(64, 66));
    lemma_u16_le(a.max_platform_fee_bps, p.subrange(64, 66));
    lemma_u16_le(b.max_platform_fee_bps, p.subrange(64, 66));
    lemma_u16_le(a.max_commission_bps, p.subrange(64, 66));
    lemma_u16_le(b.max_commission_bps, p.subrange(64, 66));
    lemma_address_ext(a.authority, b.authority);
    lemma_address_ext(a.hot_wallet, b.hot_wallet);
}

/// A layout belongs to one registry entry only.
pub proof fn lemma_pack_token_injective(a: SupportedToken, b: SupportedToken)
    requires
        spec_pack_token(a) == spec_pack_token(b),
    ensures
        a == b,
{
    broadcast use vstd::array::group_array_axioms;

    let p = spec_pack_token(a);
    let q = spec_pack_token(b);
    assert(p.subrange(0, 32) =~= a.mint@);
    assert(q.subrange(0, 32) =~= b.mint@);
    assert(p[32] == bool_byte(a.is_supported) && q[32] == bool_byte(b.is_supported));
    assert(p[33] == a.bump && q[33] == b.bump);
    lemma_address_ext(a.mint, b.mint);
}

/// The 64 bits of a signed number in two's complement.
pub open spec fn i64_bits(t: i64) -> u64 {
    if t >= 0 {
        t as u64
    } else {
        (t + 0x1_0000_0000_0000_0000) as u64
    }
}

/// `n` zero bytes.
pub open spec fn zeros(n: int) -> Seq<u8> {
    Seq::new(n as nat, |i: int| 0u8)
}

/// The product reference that the record of a batch holds.
pub open spec fn batch_sentinel() -> Seq<char> {
    seq!['B', 'A', 'T', 'C', 'H']
}

/// The 54 bytes of a product reference: its byte length, its UTF-8 bytes, zeros up to the
/// longest reference.
pub open spec fn spec_pack_reference(product_id: Seq<char>) -> Seq<u8> {
    le_bytes_u32(utf8_len(product_id) as u32) + encode_utf8(product_id) + zeros(
        MAX_PRODUCT_ID_LEN - utf8_len(product_id),
    )
}

/// What a record's product reference adds to the base fields: nothing, the 54 bytes of
/// the reference, or for a batch the 54 bytes of the sentinel and the count in eight.
pub open spec fn spec_pack_product(p: ProductReference) -> Seq<u8> {
    match p {
        ProductReference::Unrecorded => Seq::empty(),
        ProductReference::Single(s) => spec_pack_reference(s@),
        ProductReference::Batch { count } => spec_pack_reference(batch_sentinel()) + le_bytes_u64(
            count,
        ),
    }
}

/// A product reference fits the bytes reserved for it.
pub open spec fn product_fits(p: ProductReference) -> bool {
    p matches ProductReference::Single(s) ==> utf8_len(s@) <= MAX_PRODUCT_ID_LEN
}

/// Two product references say the same: both nothing, the same characters, or the same
/// count.
pub open spec fn same_product(a: ProductReference, b: ProductReference) -> bool {
    match (a, b) {
        (ProductReference::Unrecorded, ProductReference::Unrecorded) => true,
        (ProductReference::Single(x), ProductReference::Single(y)) => x@ == y@,
        (ProductReference::Batch { count: x }, ProductReference::Batch { count: y }) => x == y,
        _ => false,
    }
}

/// The 163 bytes of the base fields of an order record: order identifier, buyer, token
/// type, amount, platform fee, affiliate, commission, commission rate, timestamp, bump.
pub open spec fn spec_pack_order_base(o: OrderRecord) -> Seq<u8> {
    o.order_id@ + o.buyer@ + o.token_mint@ + le_bytes_u64(o.amount) + le_bytes_u64(o.platform_fee)
        + o.api_key_owner@ + le_bytes_u64(o.commission) + le_bytes_u16(o.commission_bps)
        + le_bytes_u64(i64_bits(o.timestamp)) + seq![o.bump]
}

/// The bytes of an order record: the base fields, then what its product reference adds.
/// They are 163 for a record without a reference, 217 with one, 225 for a batch.
pub open spec fn spec_pack_order(o: OrderRecord) -> Seq<u8> {
    spec_pack_order_base(o) + spec_pack_product(o.product)
}

/// Where the parts of a product reference lie in its layout.
pub proof fn lemma_reference_layout(product_id: Seq<char>)
    requires
        utf8_len(product_id) <= MAX_PRODUCT_ID_LEN,
    ensures
        spec_pack_reference(product_id).len() == PRODUCT_REFERENCE_LEN,
        spec_pack_reference(product_id).subrange(0, 4) == le_bytes_u32(
            utf8_len(product_id) as u32,
        ),
        spec_pack_reference(product_id).subrange(4, 4 + utf8_len(product_id) as int)
            == encode_utf8(product_id),
        forall|j: int|
            4 + utf8_len(product_id) <= j < 54 ==> #[trigger] spec_pack_reference(product_id)[j]
                == 0,
{
    let r = spec_pack_reference(product_id);
    let n = utf8_len(product_id) as int;
    assert(r.subrange(0, 4) =~= le_bytes_u32(n as u32));
    assert(r.subrange(4, 4 + n) =~= encode_utf8(product_id));
}

/// A layout belongs to one product reference only.
pub proof fn lemma_reference_injective(a: Seq<char>, b: Seq<char>)
    requires
        utf8_len(a) <= MAX_PRODUCT_ID_LEN,
        utf8_len(b) <= MAX_PRODUCT_ID_LEN,
        spec_pack_reference(a) == spec_pack_reference(b),
    ensures
        a == b,
{
    lemma_reference_layout(a);
    lemma_reference_layout(b);
    let w = spec_pack_reference(a);
    lemma_u32_le(utf8_len(a) as u32, w.subrange(0, 4));
    lemma_u32_le(utf8_len(b) as u32, w.subrange(0, 4));
    assert(utf8_len(a) == utf8_len(b));
    vstd::utf8::encode_utf8_decode_utf8(a);
    vstd::utf8::encode_utf8_decode_utf8(b);
}

/// The sentinel is five bytes: the ASCII codes of its letters.
pub proof fn lemma_sentinel_bytes()
    ensures
        encode_utf8(batch_sentinel()) == seq![66u8, 65, 84, 67, 72],
        utf8_len(batch_sentinel()) == 5,
{
    let s = batch_sentinel();
    assert(vstd::utf8::is_ascii_chars(s));
    vstd::utf8::is_ascii_chars_encode_utf8(s);
    assert(encode_utf8(s) =~= seq![66u8, 65, 84, 67, 72]);
}

/// How many bytes a product reference adds.
pub proof fn lemma_product_len(p: ProductReference)
    requires
        product_fits(p),
    ensures
        p is Unrecorded ==> spec_pack_product(p).len() == 0,
        p is Single ==> spec_pack_product(p).len() == 54,
        p is Batch ==> spec_pack_product(p).len() == 62,
{
    match p {
        ProductReference::Unrecorded => {},
        ProductReference::Single(s) => {
            lemma_reference_layout(s@);
        },
        ProductReference::Batch { count } => {
            lemma_sentinel_bytes();
            lemma_reference_layout(batch_sentinel());
        },
    }
}

/// A layout belongs to one product reference only, whatever it adds.
pub proof fn lemma_product_injective(a: ProductReference, b: ProductReference)
    requires
        product_fits(a),
        product_fits(b),
        spec_pack_product(a) == spec_pack_product(b),
    ensures
        same_product(a, b),
{
    lemma_product_len(a);
    lemma_product_len(b);
    match (a, b) {
        (ProductReference::Single(x), ProductReference::Single(y)) => {
            lemma_reference_injective(x@, y@);
        },
        (ProductReference::Batch { count: x }, ProductReference::Batch { count: y }) => {
            let w = spec_pack_product(a);
            assert(w.subrange(54, 62) =~= le_bytes_u64(x));
            assert(w.subrange(54, 62) =~= le_bytes_u64(y));
            lemma_u64_le(x, w.subrange(54, 62));
            lemma_u64_le(y, w.subrange(54, 62));
        },
        _ => {},
    }
}

/// Where each base field of an order record lies in its layout.
#[verifier::rlimit(40)]
pub proof fn lemma_order_base_layout(o: OrderRecord)
    ensures
        spec_pack_order_base(o).len() == ORDER_RECORD_BASE_LEN,
        spec_pack_order_base(o).subrange(0, 32) == o.order_id@,
        spec_pack_order_base(o).subrange(32, 64) == o.buyer@,
        spec_pack_order_base(o).subrange(64, 96) == o.token_mint@,
        spec_pack_order_base(o).subrange(96, 104) == le_bytes_u64(o.amount),
        spec_pack_order_base(o).subrange(104, 112) == le_bytes_u64(o.platform_fee),
        spec_pack_order_base(o).subrange(112, 144) == o.api_key_owner@,
        spec_pack_order_base(o).subrange(144, 152) == le_bytes_u64(o.commission),
        spec_pack_order_base(o).subrange(152, 154) == le_bytes_u16(o.commission_bps),
        spec_pack_order_base(o).subrange(154, 162) == le_bytes_u64(i64_bits(o.timestamp)),
        spec_pack_order_base(o)[162] == o.bump,
{
    broadcast use vstd::array::group_array_axioms;

    let p = spec_pack_order_base(o);
    assert(p.len() == 163);
    assert(p.subrange(0, 32) =~= o.order_id@);
    assert(p.subrange(32, 64) =~= o.buyer@);
    assert(p.subrange(64, 96) =~= o.token_mint@);
    assert(p.subrange(96, 104) =~= le_bytes_u64(o.amount));
    assert(p.subrange(104, 112) =~= le_bytes_u64(o.platform_fee));
    assert(p.subrange(112, 144) =~= o.api_key_owner@);
    assert(p.subrange(144, 152) =~= le_bytes_u64(o.commission));
    assert(p.subrange(152, 154) =~= le_bytes_u16(o.commission_bps));
    assert(p.subrange(154, 162) =~= le_bytes_u64(i64_bits(o.timestamp)));
}

/// The layout of a well-formed order record is as large as the record's size says, and
/// is the base fields followed by what the product reference adds.
pub proof fn lemma_order_layout(o: OrderRecord)
    requires
        o.wf(),
    ensures
        spec_pack_order(o).len() == o.space(),
        spec_pack_order(o).subrange(0, 163) == spec_pack_order_base(o),
        spec_pack_order(o).subrange(163, o.space() as int) == spec_pack_product(o.product),
{
    lemma_order_base_layout(o);
    lemma_product_len(o.product);
    let p = spec_pack_order(o);
    assert(p.subrange(0, 163) =~= spec_pack_order_base(o));
    assert(p.subrange(163, o.space() as int) =~= spec_pack_product(o.product));
}

/// Reads a product reference from the 54 bytes of its layout.
fn read_reference(window: &[u8]) -> (r: Option<String>)
    requires
        window@.len() == 54,
    ensures
        match r {
            Some(s) => utf8_len(s@) <= MAX_PRODUCT_ID_LEN && spec_pack_reference(s@) == window@,
            None => forall|chars: Seq<char>|
                utf8_len(chars) <= MAX_PRODUCT_ID_LEN ==> spec_pack_reference(chars) != window@,
        },
{
    let (product_id, end) = match read_string(window, 0) {
        None => {
            assert forall|chars: Seq<char>| utf8_len(chars) <= MAX_PRODUCT_ID_LEN implies
                spec_pack_reference(chars) != window@ by {
                if spec_pack_reference(chars) == window@ {
                    lemma_reference_layout(chars);
                    lemma_u32_le(utf8_len(chars) as u32, window@.subrange(0, 4));
                    vstd::utf8::encode_utf8_valid_utf8(chars);
                    assert(spec_string_at(window@, 0) is Some);
                }
            }
            return None;
        },
        Some(x) => x,
    };
    let ghost n = spec_u32_le(window@.subrange(0, 4)) as int;
    let ghost bytes = window@.subrange(4, 4 + n);
    proof {
        vstd::utf8::decode_utf8_encode_utf8(bytes);
        lemma_u32_le(0, window@.subrange(0, 4));
    }
    let mut i: usize = end;
    while i < 54
        invariant
            end <= i <= 54,
            window@.len() == 54,
            end == 4 + spec_u32_le(window@.subrange(0, 4)),
            forall|j: int| end <= j < i ==> window@[j] == 0,
        decreases 54 - i,
    {
        if window[i] != 0 {
            assert forall|chars: Seq<char>| utf8_len(chars) <= MAX_PRODUCT_ID_LEN implies
                spec_pack_reference(chars) != window@ by {
                if spec_pack_reference(chars) == window@ {
                    lemma_reference_layout(chars);
                    lemma_u32_le(utf8_len(chars) as u32, window@.subrange(0, 4));
                    assert(spec_pack_reference(chars)[i as int] == 0);
                }
            }
            return None;
        }
        i = i + 1;
    }
    assert(utf8_len(product_id@) == n);
    assert(spec_pack_reference(product_id@) =~= window@);
    Some(product_id)
}

/// Appends the 54 bytes of a product reference whose UTF-8 bytes are `bytes`.
fn write_reference(out: &mut Vec<u8>, bytes: &[u8])
    requires
        bytes@.len() <= MAX_PRODUCT_ID_LEN,
    ensures
        final(out)@ == old(out)@ + (le_bytes_u32(bytes@.len() as u32) + bytes@ + zeros(
            MAX_PRODUCT_ID_LEN - bytes@.len(),
        )),
{
    write_u32(out, bytes.len() as u32);
    write_bytes(out, bytes);
    let ghost filled = out@;
    let mut i: usize = bytes.len();
    assert(filled + zeros(0) =~= filled);
    while i < MAX_PRODUCT_ID_LEN
        invariant
            bytes@.len() <= i <= MAX_PRODUCT_ID_LEN,
            out@ == filled + zeros(i - bytes@.len()),
        decreases MAX_PRODUCT_ID_LEN - i,
    {
        out.push(0);
        assert(out@ =~= filled + zeros(i + 1 - bytes@.len()));
        i = i + 1;
    }
    assert(out@ =~= old(out)@ + (le_bytes_u32(bytes@.len() as u32) + bytes@ + zeros(
        MAX_PRODUCT_ID_LEN - bytes@.len(),
    )));
}

/// Whether `s` is the batch sentinel.
fn is_sentinel(s: &String) -> (r: bool)
    ensures
        r == (s@ == batch_sentinel()),
{
    let sentinel: String = String::from_str("BATCH");
    proof {
        reveal_strlit("BATCH");
        assert(sentinel@ =~= batch_sentinel());
    }
    *s == sentinel
}

/// Reads what the product reference adds, from the bytes behind the base fields.
fn read_product(tail: &[u8]) -> (r: Option<ProductReference>)
    requires
        tail@.len() == 0 || tail@.len() == 54 || tail@.len() == 62,
    ensures
        match r {
            Some(p) => product_fits(p) && spec_pack_product(p) == tail@,
            None => forall|p: ProductReference|
                product_fits(p) ==> spec_pack_product(p) != tail@,
        },
{
    proof {
        assert forall|p: ProductReference| product_fits(p) implies (p is Unrecorded ==> spec_pack_product(
            p,
        ).len() == 0) && (p is Single ==> spec_pack_product(p).len() == 54) && (p is Batch
            ==> spec_pack_product(p).len() == 62) by {
            lemma_product_len(p);
        }
    }
    if tail.len() == 0 {
        assert(spec_pack_product(ProductReference::Unrecorded) =~= tail@);
        return Some(ProductReference::Unrecorded);
    }
    let reference: Option<String> = read_reference(slice_subrange(tail, 0, 54));
    if tail.len() == 54 {
        assert(tail@.subrange(0, 54) =~= tail@);
        return match reference {
            Some(s) => Some(ProductReference::Single(s)),
            None => None,
        };
    }
    proof {
        lemma_sentinel_bytes();
        assert forall|p: ProductReference| product_fits(p) && spec_pack_product(p) == tail@
            implies p is Batch && tail@.subrange(0, 54) == spec_pack_reference(batch_sentinel()) by {
            lemma_reference_layout(batch_sentinel());
            assert(spec_pack_product(p).subrange(0, 54) =~= spec_pack_reference(batch_sentinel()));
        }
    }
    let s: String = match reference {
        None => {
            return None;
        },
        Some(s) => s,
    };
    if !is_sentinel(&s) {
        proof {
            assert forall|p: ProductReference| product_fits(p) implies spec_pack_product(p)
                != tail@ by {
                if spec_pack_product(p) == tail@ {
                    lemma_reference_injective(s@, batch_sentinel());
                }
            }
        }
        return None;
    }
    let (count, _) = read_u64(tail, 54).unwrap();
    proof {
        lemma_u64_le(0, tail@.subrange(54, 62));
        assert(spec_pack_product(ProductReference::Batch { count }) =~= tail@);
    }
    Some(ProductReference::Batch { count })
}

fn timestamp_bits(t: i64) -> (u: u64)
    ensures
        u == i64_bits(t),
{
    if t >= 0 {
        t as u64
    } else {
        let wide: i128 = t as i128;
        (wide + 0x1_0000_0000_0000_0000) as u64
    }
}

fn timestamp_of(u: u64) -> (t: i64)
    ensures
        i64_bits(t) == u,
{
    if u < 0x8000_0000_0000_0000 {
        u as i64
    } else {
        let wide: i128 = u as i128;
        (wide - 0x1_0000_0000_0000_0000) as i64
    }
}

/// Appends the 163 bytes of the base fields of `o`.
fn write_order_base(out: &mut Vec<u8>, o: &OrderRecord)
    ensures
        final(out)@ == old(out)@ + spec_pack_order_base(*o),
{
    broadcast use vstd::array::group_array_axioms;

    let mut base: Vec<u8> = Vec::new();
    write_bytes(&mut base, o.order_id.as_slice());
    write_address(&mut base, &o.buyer);
    write_address(&mut base, &o.token_mint);
    write_u64(&mut base, o.amount);
    write_u64(&mut base, o.platform_fee);
    write_address(&mut base, &o.api_key_owner);
    write_u64(&mut base, o.commission);
    write_u16(&mut base, o.commission_bps);
    write_u64(&mut base, timestamp_bits(o.timestamp));
    base.push(o.bump);
    assert(base@ =~= spec_pack_order_base(*o));
    write_bytes(out, base.as_slice());
}

/// Reads the base fields of an order record from the 163 bytes of their layout, and
/// joins `product` to them.
fn read_order_base(base: &[u8], product: ProductReference) -> (o: OrderRecord)
    requires
        base@.len() == 163,
    ensures
        o.product == product,
        spec_pack_order_base(o) == base@,
{
    broadcast use vstd::array::group_array_axioms;

    let (id, _) = read_address(base, 0).unwrap();
    let (buyer, _) = read_address(base, 32).unwrap();
    let (token_mint, _) = read_address(base, 64).unwrap();
    let (amount, _) = read_u64(base, 96).unwrap();
    let (platform_fee, _) = read_u64(base, 104).unwrap();
    let (api_key_owner, _) = read_address(base, 112).unwrap();
    let (commission, _) = read_u64(base, 144).unwrap();
    let (commission_bps, _) = read_u16(base, 152).unwrap();
    let (bits, _) = read_u64(base, 154).unwrap();
    let o = OrderRecord {
        order_id: id.bytes,
        buyer,
        token_mint,
        amount,
        platform_fee,
        commission,
        commission_bps,
        api_key_owner,
        product,
        timestamp: timestamp_of(bits),
        bump: base[162],
    };
    proof {
        lemma_u64_le(0, base@.subrange(96, 104));
        lemma_u64_le(0, base@.subrange(104, 112));
        lemma_u64_le(0, base@.subrange(144, 152));
        lemma_u16_le(0, base@.subrange(152, 154));
        lemma_u64_le(0, base@.subrange(154, 162));
        assert(spec_pack_order_base(o) =~= base@);
    }
    o
}

/// Appends what the product reference adds, or appends nothing and gives `false` where
/// the reference is longer than the layout allows.
fn write_product(out: &mut Vec<u8>, product: &ProductReference) -> (written: bool)
    ensures
        written == product_fits(*product),
        written ==> final(out)@ == old(out)@ + spec_pack_product(*product),
        !written ==> final(out)@ == old(out)@,
{
    match product {
        ProductReference::Unrecorded => {
            assert(out@ =~= old(out)@ + spec_pack_product(*product));
            true
        },
        ProductReference::Single(s) => {
            let reference: &[u8] = s.as_str().as_bytes();
            if reference.len() > MAX_PRODUCT_ID_LEN {
                return false;
            }
            write_reference(out, reference);
            true
        },
        ProductReference::Batch { count } => {
            let sentinel: [u8; 5] = [66, 65, 84, 67, 72];
            proof {
                lemma_sentinel_bytes();
                assert(sentinel@ =~= encode_utf8(batch_sentinel()));
            }
            write_reference(out, sentinel.as_slice());
            write_u64(out, *count);
            assert(out@ =~= old(out)@ + spec_pack_product(*product));
            true
        },
    }
}

impl OrderRecord {
    /// The bytes of the record in its layout, or `AccountDidNotSerialize` where the
    /// product reference is longer than the layout allows.
    pub fn pack(&self) -> (r: Result<Vec<u8>, ErrorCode>)
        ensures
            match r {
                Ok(out) => self.wf() && out@ == spec_pack_order(*self) && out@.len()
                    == self.space(),
                Err(e) => e == ErrorCode::AccountDidNotSerialize && !self.wf(),
            },
    {
        let mut out: Vec<u8> = Vec::new();
        write_order_base(&mut out, self);
        if !write_product(&mut out, &self.product) {
            return Err(ErrorCode::AccountDidNotSerialize);
        }
        proof {
            assert(out@ =~= spec_pack_order(*self));
            lemma_order_layout(*self);
        }
        Ok(out)
    }

    /// The record that `data` is the layout of, or `InvalidAccountData` where it is the
    /// layout of none. What the record says of its products is told by the length of
    /// `data`: 163 bytes hold no reference, 217 a reference, 225 a batch.
    pub fn unpack(data: &[u8]) -> (r: Result<OrderRecord, ErrorCode>)
        ensures
            match r {
                Ok(o) => o.wf() && spec_pack_order(o) == data@,
                Err(e) => e == ErrorCode::InvalidAccountData && forall|o: OrderRecord|
                    o.wf() ==> spec_pack_order(o) != data@,
            },
    {
        proof {
            assert forall|o: OrderRecord| o.wf() && spec_pack_order(o) == data@ implies (data@.len()
                == 163 || data@.len() == 217 || data@.len() == 225) && product_fits(o.product)
                && spec_pack_product(o.product) == data@.subrange(163, data@.len() as int) by {
                lemma_order_layout(o);
            }
        }
        let len: usize = data.len();
        if len != 163 && len != 217 && len != 225 {
            return Err(ErrorCode::InvalidAccountData);
        }
        let product: ProductReference = match read_product(slice_subrange(data, 163, len)) {
            None => {
                return Err(ErrorCode::InvalidAccountData);
            },
            Some(p) => p,
        };
        let o: OrderRecord = read_order_base(slice_subrange(data, 0, 163), product);
        assert(spec_pack_order(o) =~= data@);
        Ok(o)
    }
}

/// A layout belongs to one order record only: two well-formed records with the same
/// layout agree in every field, and say the same of their products.
pub proof fn lemma_pack_order_injective(a: OrderRecord, b: OrderRecord)
    requires
        a.wf(),
        b.wf(),
        spec_pack_order(a) == spec_pack_order(b),
    ensures
        same_product(a.product, b.product),
        a == (OrderRecord { product: a.product, ..b }),
{
    broadcast use vstd::array::group_array_axioms;

    lemma_order_layout(a);
    lemma_order_layout(b);
    lemma_order_base_layout(a);
    lemma_order_base_layout(b);
    lemma_product_len(a.product);
    lemma_product_len(b.product);
    lemma_product_injective(a.product, b.product);
    let p = spec_pack_order_base(a);
    assert(p == spec_pack_order_base(b));
    lemma_u64_le(a.amount, p.subrange(96, 104));
    lemma_u64_le(b.amount, p.subrange(96, 104));
    lemma_u64_le(a.platform_fee, p.subrange(96, 104));
    lemma_u64_le(b.platform_fee, p.subrange(96, 104));
    lemma_u64_le(a.commission, p.subrange(96, 104));
    lemma_u64_le(b.commission, p.subrange(96, 104));
    lemma_u64_le(i64_bits(a.timestamp), p.subrange(96, 104));
    lemma_u64_le(i64_bits(b.timestamp), p.subrange(96, 104));
    lemma_u16_le(a.commission_bps, p.subrange(152, 154));
    lemma_u16_le(b.commission_bps, p.subrange(152, 154));
    lemma_address_ext(a.buyer, b.buyer);
    lemma_address_ext(a.token_mint, b.token_mint);
    lemma_address_ext(a.api_key_owner, b.api_key_owner);
    assert(a.order_id =~= b.order_id);
}

/// The bytes of a record in the layout of its kind.
pub open spec fn spec_pack_entity(e: Entity) -> Seq<u8> {
    match e {
        Entity::Config(c) => spec_pack_config(c),
        Entity::Token(t) => spec_pack_token(t),
        Entity::Order(o) => spec_pack_order(o),
    }
}

/// The record has a layout: for an order record, its product reference fits.
pub open spec fn has_layout(e: Entity) -> bool {
    e matches Entity::Order(o) ==> o.wf()
}

impl Entity {
    /// The bytes of the record in its layout, or `AccountDidNotSerialize` where it has
    /// none.
    pub fn pack(&self) -> (r: Result<Vec<u8>, ErrorCode>)
        ensures
            match r {
                Ok(out) => has_layout(*self) && out@ == spec_pack_entity(*self) && out@.len()
                    == self.space(),
                Err(e) => e == ErrorCode::AccountDidNotSerialize && !has_layout(*self),
            },
    {
        match self {
            Entity::Config(c) => Ok(c.pack()),
            Entity::Token(t) => Ok(t.pack()),
            Entity::Order(o) => o.pack(),
        }
    }

    /// The record that `data` is the layout of, its kind told by the length of `data`, or
    /// `InvalidAccountData` where `data` is the layout of none.
    pub fn unpack(data: &[u8]) -> (r: Result<Entity, ErrorCode>)
        ensures
            match r {
                Ok(e) => has_layout(e) && spec_pack_entity(e) == data@,
                Err(e) => e == ErrorCode::InvalidAccountData && forall|e: Entity|
                    has_layout(e) ==> spec_pack_entity(e) != data@,
            },
    {
        broadcast use vstd::array::group_array_axioms;

        proof {
            assert forall|e: Entity| has_layout(e) implies spec_pack_entity(e).len() == e.space() by {
                lemma_entity_len(e);
            }
        }
        if data.len() == 72 {
            match Config::unpack(data) {
                Ok(c) => Ok(Entity::Config(c)),
                Err(e) => Err(e),
            }
        } else if data.len() == 34 {
            match SupportedToken::unpack(data) {
                Ok(t) => Ok(Entity::Token(t)),
                Err(e) => Err(e),
            }
        } else {
            match OrderRecord::unpack(data) {
                Ok(o) => Ok(Entity::Order(o)),
                Err(e) => Err(e),
            }
        }
    }
}

impl Store {
    /// Puts back storage that was kept as bytes: the record that `data` is the layout of,
    /// at `address`. Fails with `InvalidAccountData` where `data` is the layout of no well
    /// formed record, and with `AlreadyInitialized` where storage exists at the address;
    /// a failure changes nothing.
    pub fn restore(&mut self, address: Address, payer: Address, data: &[u8]) -> (r: Result<
        (),
        ErrorCode,
    >)
        requires
            old(self).wf(),
        ensures
            final(self).wf(),
            old(self).orders_kept_by(final(self)),
            match r {
                Ok(_) => !old(self)@.contains_key(address@) && final(self)@.contains_key(address@)
                    && final(self)@ == old(self)@.insert(address@, final(self)@[address@]) && ({
                    let a = final(self)@[address@];
                    &&& a.address == address
                    &&& a.payer == payer
                    &&& a.space == a.entity.space()
                    &&& a.entity.wf()
                    &&& spec_pack_entity(a.entity) == data@
                }),
                Err(e) => final(self)@ == old(self)@ && if e == ErrorCode::InvalidAccountData {
                    forall|e: Entity| e.wf() ==> spec_pack_entity(e) != data@
                } else {
                    e == ErrorCode::AlreadyInitialized && old(self)@.contains_key(address@)
                },
            },
    {
        let entity: Entity = match Entity::unpack(data) {
            Err(e) => {
                return Err(e);
            },
            Ok(entity) => entity,
        };
        if !entity.is_wf() {
            proof {
                assert forall|e: Entity| e.wf() implies spec_pack_entity(e) != data@ by {
                    if spec_pack_entity(e) == data@ {
                        lemma_pack_entity_injective(e, entity);
                    }
                }
            }
            return Err(ErrorCode::InvalidAccountData);
        }
        if self.allocate(address, payer, entity) {
            Ok(())
        } else {
            Err(ErrorCode::AlreadyInitialized)
        }
    }
}

/// A record's bytes are as many as the size of its layout.
pub proof fn lemma_entity_len(e: Entity)
    requires
        has_layout(e),
    ensures
        spec_pack_entity(e).len() == e.space(),
{
    broadcast use vstd::array::group_array_axioms;

    match e {
        Entity::Config(c) => {
            assert(spec_pack_config(c).len() == 72);
        },
        Entity::Token(t) => {
            assert(spec_pack_token(t).len() == 34);
        },
        Entity::Order(o) => {
            lemma_order_layout(o);
        },
    }
}

/// A layout belongs to one record only: two records with the same layout are of the same
/// kind, agree in every field and say the same of their products, so that both are well
/// formed or neither is.
pub proof fn lemma_pack_entity_injective(a: Entity, b: Entity)
    requires
        has_layout(a),
        has_layout(b),
        spec_pack_entity(a) == spec_pack_entity(b),
    ensures
        a.wf() == b.wf(),
        a is Config ==> b == a,
        a is Token ==> b == a,
        a matches Entity::Order(x) ==> b matches Entity::Order(y) && same_product(
            x.product,
            y.product,
        ) && x == (OrderRecord { product: x.product, ..y }),
{
    lemma_entity_len(a);
    lemma_entity_len(b);
    match a {
        Entity::Config(x) => {
            match b {
                Entity::Config(y) => {
                    lemma_pack_config_injective(x, y);
                },
                _ => {},
            }
        },
        Entity::Token(x) => {
            match b {
                Entity::Token(y) => {
                    lemma_pack_token_injective(x, y);
                },
                _ => {},
            }
        },
        Entity::Order(x) => {
            match b {
                Entity::Order(y) => {
                    lemma_pack_order_injective(x, y);
                },
                _ => {},
            }
        },
    }
}

} // verus!
