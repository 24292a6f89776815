//! Bytes on the wire: little-endian integers, 32-byte identities, length-prefixed UTF-8
//! strings and count-prefixed lists, read at a position that moves on behind each field.

use vstd::prelude::*;
use vstd::slice::{slice_subrange, slice_to_vec};
use vstd::utf8::{decode_utf8, encode_utf8, valid_utf8};
use crate::address::Address;

verus! {

/// The strings of a list as sequences of characters.
pub open spec fn strings_view(v: Seq<String>) -> Seq<Seq<char>> {
    v.map_values(|s: String| s@)
}

/// The `n` bytes of `data` from `pos` on, where there are that many.
pub open spec fn spec_take(data: Seq<u8>, pos: int, n: int) -> Option<Seq<u8>> {
    if 0 <= pos && 0 <= n && pos + n <= data.len() {
        Some(data.subrange(pos, pos + n))
    } else {
        None
    }
}

/// The value of two little-endian bytes.
pub open spec fn spec_u16_le(b: Seq<u8>) -> u16 {
    (b[0] + b[1] * 0x100) as u16
}

/// The value of four little-endian bytes.
pub open spec fn spec_u32_le(b: Seq<u8>) -> u32 {
    (b[0] + b[1] * 0x100 + b[2] * 0x1_0000 + b[3] * 0x100_0000) as u32
}

/// The value of eight little-endian bytes.
pub open spec fn spec_u64_le(b: Seq<u8>) -> u64 {
    (b[0] + b[1] * 0x100 + b[2] * 0x1_0000 + b[3] * 0x100_0000 + b[4] * 0x1_0000_0000 + b[5]
        * 0x100_0000_0000 + b[6] * 0x1_0000_0000_0000 + b[7] * 0x100_0000_0000_0000) as u64
}

/// The two-byte integer at `pos` and the position behind it.
pub open spec fn spec_u16_at(data: Seq<u8>, pos: int) -> Option<(u16, int)> {
    match spec_take(data, pos, 2) {
        Some(b) => Some((spec_u16_le(b), pos + 2)),
        None => None,
    }
}

/// The four-byte integer at `pos` and the position behind it.
pub open spec fn spec_u32_at(data: Seq<u8>, pos: int) -> Option<(u32, int)> {
    match spec_take(data, pos, 4) {
        Some(b) => Some((spec_u32_le(b), pos + 4)),
        None => None,
    }
}

/// The eight-byte integer at `pos` and the position behind it.
pub open spec fn spec_u64_at(data: Seq<u8>, pos: int) -> Option<(u64, int)> {
    match spec_take(data, pos, 8) {
        Some(b) => Some((spec_u64_le(b), pos + 8)),
        None => None,
    }
}

/// The identity at `pos` and the position behind it.
pub open spec fn spec_address_at(data: Seq<u8>, pos: int) -> Option<(Seq<u8>, int)> {
    match spec_take(data, pos, 32) {
        Some(b) => Some((b, pos + 32)),
        None => None,
    }
}

/// The string at `pos` and the position behind it: a length, then that many bytes of
/// valid UTF-8.
pub open spec fn spec_string_at(data: Seq<u8>, pos: int) -> Option<(Seq<char>, int)> {
    match spec_u32_at(data, pos) {
        None => None,
        Some((n, start)) => match spec_take(data, start, n as int) {
            None => None,
            Some(b) => if valid_utf8(b) {
                Some((decode_utf8(b), start + n))
            } else {
                None
            },
        },
    }
}

/// The `count` strings from `pos` on and the position behind them.
pub open spec fn spec_strings_at(data: Seq<u8>, pos: int, count: nat) -> Option<
    (Seq<Seq<char>>, int),
>
    decreases count,
{
    if count == 0 {
        Some((Seq::empty(), pos))
    } else {
        match spec_string_at(data, pos) {
            None => None,
            Some((s, next)) => match spec_strings_at(data, next, (count - 1) as nat) {
                None => None,
                Some((rest, end)) => Some((seq![s] + rest, end)),
            },
        }
    }
}

/// The list of strings at `pos` and the position behind it: a count, then the strings.
pub open spec fn spec_string_list_at(data: Seq<u8>, pos: int) -> Option<(Seq<Seq<char>>, int)> {
    match spec_u32_at(data, pos) {
        None => None,
        Some((count, start)) => spec_strings_at(data, start, count as nat),
    }
}

/// Calls `String::from_utf8` of std, which succeeds on valid UTF-8 and on nothing else, and
/// gives the string that the bytes encode.
#[verifier::external_body]
pub(crate) fn string_from_utf8(bytes: Vec<u8>) -> (r: Option<String>)
    ensures
        r is Some <==> valid_utf8(bytes@),
        r matches Some(s) ==> s@ == decode_utf8(bytes@),
{
    match String::from_utf8(bytes) {
        Ok(s) => Some(s),
        Err(_) => None,
    }
}

/// The `n` bytes of `data` from `pos` on, where there are that many.
pub fn take<'a>(data: &'a [u8], pos: usize, n: usize) -> (r: Option<&'a [u8]>)
    ensures
        match r {
            Some(b) => spec_take(data@, pos as int, n as int) == Some(b@) && b@.len() == n && pos
                + n <= data@.len() <= usize::MAX,
            None => spec_take(data@, pos as int, n as int) is None,
        },
{
    if pos <= data.len() && data.len() - pos >= n {
        Some(slice_subrange(data, pos, pos + n))
    } else {
        None
    }
}

/// Reads a two-byte little-endian integer at `pos`.
pub fn read_u16(data: &[u8], pos: usize) -> (r: Option<(u16, usize)>)
    ensures
        match r {
            Some((x, end)) => spec_u16_at(data@, pos as int) == Some((x, end as int)) && end
                <= data@.len(),
            None => spec_u16_at(data@, pos as int) is None,
        },
{
    match take(data, pos, 2) {
        None => None,
        Some(b) => {
            let x: u16 = (b[0] as u16) + (b[1] as u16) * 0x100;
            Some((x, pos + 2))
        },
    }
}

/// Reads a four-byte little-endian integer at `pos`.
pub fn read_u32(data: &[u8], pos: usize) -> (r: Option<(u32, usize)>)
    ensures
        match r {
            Some((x, end)) => spec_u32_at(data@, pos as int) == Some((x, end as int)) && end
                <= data@.len(),
            None => spec_u32_at(data@, pos as int) is None,
        },
{
    match take(data, pos, 4) {
        None => None,
        Some(b) => {
            let x: u32 = (b[0] as u32) + (b[1] as u32) * 0x100 + (b[2] as u32) * 0x1_0000 + (
            b[3] as u32) * 0x100_0000;
            Some((x, pos + 4))
        },
    }
}

/// Reads an eight-byte little-endian integer at `pos`.
pub fn read_u64(data: &[u8], pos: usize) -> (r: Option<(u64, usize)>)
    ensures
        match r {
            Some((x, end)) => spec_u64_at(data@, pos as int) == Some((x, end as int)) && end
                <= data@.len(),
            None => spec_u64_at(data@, pos as int) is None,
        },
{
    match take(data, pos, 8) {
        None => None,
        Some(b) => {
            let x: u64 = (b[0] as u64) + (b[1] as u64) * 0x100 + (b[2] as u64) * 0x1_0000 + (
            b[3] as u64) * 0x100_0000 + (b[4] as u64) * 0x1_0000_0000 + (b[5] as u64)
                * 0x100_0000_0000 + (b[6] as u64) * 0x1_0000_0000_0000 + (b[7] as u64)
                * 0x100_0000_0000_0000;
            Some((x, pos + 8))
        },
    }
}

/// Reads a 32-byte identity at `pos`.
pub fn read_address(data: &[u8], pos: usize) -> (r: Option<(Address, usize)>)
    ensures
        match r {
            Some((a, end)) => spec_address_at(data@, pos as int) == Some((a@, end as int)) && end
                <= data@.len(),
            None => spec_address_at(data@, pos as int) is None,
        },
{
    match take(data, pos, 32) {
        None => None,
        Some(b) => {
            let mut bytes: [u8; 32] = [0u8; 32];
            let mut i: usize = 0;
            while i < 32
                invariant
                    i <= 32,
                    b@.len() == 32,
                    forall|j: int| 0 <= j < i ==> bytes@[j] == b@[j],
                decreases 32 - i,
            {
                bytes[i] = b[i];
                i = i + 1;
            }
            assert(bytes@ =~= b@);
            Some((Address { bytes }, pos + 32))
        },
    }
}

/// Reads a length-prefixed UTF-8 string at `pos`.
pub fn read_string(data: &[u8], pos: usize) -> (r: Option<(String, usize)>)
    ensures
        match r {
            Some((s, end)) => spec_string_at(data@, pos as int) == Some((s@, end as int)) && end
                <= data@.len(),
            None => spec_string_at(data@, pos as int) is None,
        },
{
    let (n, start) = match read_u32(data, pos) {
        None => {
            return None;
        },
        Some(header) => header,
    };
    let b: &[u8] = match take(data, start, n as usize) {
        None => {
            return None;
        },
        Some(b) => b,
    };
    match string_from_utf8(slice_to_vec(b)) {
        None => None,
        Some(s) => Some((s, start + n as usize)),
    }
}

/// What is read of a list once `done` strings are taken and `rest` is the outcome from
/// there on.
spec fn joined(done: Seq<Seq<char>>, rest: Option<(Seq<Seq<char>>, int)>) -> Option<
    (Seq<Seq<char>>, int),
> {
    match rest {
        Some((more, end)) => Some((done + more, end)),
        None => None,
    }
}

/// Reads a count-prefixed list of strings at `pos`.
pub fn read_string_list(data: &[u8], pos: usize) -> (r: Option<(Vec<String>, usize)>)
    ensures
        match r {
            Some((v, end)) => spec_string_list_at(data@, pos as int) == Some(
                (strings_view(v@), end as int),
            ) && end <= data@.len(),
            None => spec_string_list_at(data@, pos as int) is None,
        },
{
    let (count, start) = match read_u32(data, pos) {
        None => {
            return None;
        },
        Some(header) => header,
    };
    let mut items: Vec<String> = Vec::new();
    let mut at: usize = start;
    let mut i: u32 = 0;
    proof {
        match spec_strings_at(data@, start as int, count as nat) {
            Some((all, _)) => {
                assert(strings_view(items@) + all =~= all);
            },
            None => {},
        }
    }
    while i < count
        invariant
            i <= count,
            at <= data@.len(),
            spec_u32_at(data@, pos as int) == Some((count, start as int)),
            spec_strings_at(data@, start as int, count as nat) == joined(
                strings_view(items@),
                spec_strings_at(data@, at as int, (count - i) as nat),
            ),
        decreases count - i,
    {
        let ghost before = strings_view(items@);
        match read_string(data, at) {
            None => {
                assert(spec_strings_at(data@, at as int, (count - i) as nat) is None);
                assert(spec_string_list_at(data@, pos as int) is None);
                return None;
            },
            Some((s, next)) => {
                proof {
                    match spec_strings_at(data@, next as int, (count - i - 1) as nat) {
                        Some((more, _)) => {
                            assert(before + (seq![s@] + more) =~= strings_view(items@.push(s))
                                + more);
                        },
                        None => {},
                    }
                }
                items.push(s);
                at = next;
                i = i + 1;
            },
        }
    }
    assert(strings_view(items@) + Seq::<Seq<char>>::empty() =~= strings_view(items@));
    Some((items, at))
}

/// The two bytes of `x`, least significant first.
pub open spec fn le_bytes_u16(x: u16) -> Seq<u8> {
    seq![(x % 0x100) as u8, (x / 0x100 % 0x100) as u8]
}

/// The four bytes of `x`, least significant first.
pub open spec fn le_bytes_u32(x: u32) -> Seq<u8> {
    seq![
        (x % 0x100) as u8,
        (x / 0x100 % 0x100) as u8,
        (x / 0x1_0000 % 0x100) as u8,
        (x / 0x100_0000 % 0x100) as u8,
    ]
}

/// The eight bytes of `x`, least significant first.
pub open spec fn le_bytes_u64(x: u64) -> Seq<u8> {
    seq![
        (x % 0x100) as u8,
        (x / 0x100 % 0x100) as u8,
        (x / 0x1_0000 % 0x100) as u8,
        (x / 0x100_0000 % 0x100) as u8,
        (x / 0x1_0000_0000 % 0x100) as u8,
        (x / 0x100_0000_0000 % 0x100) as u8,
        (x / 0x1_0000_0000_0000 % 0x100) as u8,
        (x / 0x100_0000_0000_0000 % 0x100) as u8,
    ]
}

/// Reading the bytes of a number gives the number, and writing the number read from
/// bytes gives the bytes: two bytes.
pub proof fn lemma_u16_le(x: u16, b: Seq<u8>)
    requires
        b.len() == 2,
    ensures
        spec_u16_le(le_bytes_u16(x)) == x,
        le_bytes_u16(spec_u16_le(b)) == b,
{
    assert(le_bytes_u16(spec_u16_le(b)) =~= b);
}

/// Reading the bytes of a number gives the number, and writing the number read from
/// bytes gives the bytes: four bytes.
pub proof fn lemma_u32_le(x: u32, b: Seq<u8>)
    requires
        b.len() == 4,
    ensures
        spec_u32_le(le_bytes_u32(x)) == x,
        le_bytes_u32(spec_u32_le(b)) == b,
{
    assert(x == (x % 0x100) + (x / 0x100 % 0x100) * 0x100 + (x / 0x1_0000 % 0x100) * 0x1_0000 + (x
        / 0x100_0000 % 0x100) * 0x100_0000) by (bit_vector);
    let (b0, b1, b2, b3) = (b[0], b[1], b[2], b[3]);
    let v: u32 = spec_u32_le(b);
    assert(v == b0 + b1 * 0x100 + b2 * 0x1_0000 + b3 * 0x100_0000);
    assert(v % 0x100 == b0 && v / 0x100 % 0x100 == b1 && v / 0x1_0000 % 0x100 == b2 && v
        / 0x100_0000 % 0x100 == b3) by (bit_vector)
        requires
            v == (b0 as u32) + (b1 as u32) * 0x100 + (b2 as u32) * 0x1_0000 + (b3 as u32)
                * 0x100_0000,
    ;
    assert(le_bytes_u32(v) =~= b);
}

/// Reading the bytes of a number gives the number, and writing the number read from
/// bytes gives the bytes: eight bytes.
pub proof fn lemma_u64_le(x: u64, b: Seq<u8>)
    requires
        b.len() == 8,
    ensures
        spec_u64_le(le_bytes_u64(x)) == x,
        le_bytes_u64(spec_u64_le(b)) == b,
{
    assert(x == (x % 0x100) + (x / 0x100 % 0x100) * 0x100 + (x / 0x1_0000 % 0x100) * 0x1_0000 + (x
        / 0x100_0000 % 0x100) * 0x100_0000 + (x / 0x1_0000_0000 % 0x100) * 0x1_0000_0000 + (x
        / 0x100_0000_0000 % 0x100) * 0x100_0000_0000 + (x / 0x1_0000_0000_0000 % 0x100)
        * 0x1_0000_0000_0000 + (x / 0x100_0000_0000_0000 % 0x100) * 0x100_0000_0000_0000)
        by (bit_vector);
    let (b0, b1, b2, b3) = (b[0], b[1], b[2], b[3]);
    let (b4, b5, b6, b7) = (b[4], b[5], b[6], b[7]);
    let v: u64 = spec_u64_le(b);
    assert(v == b0 + b1 * 0x100 + b2 * 0x1_0000 + b3 * 0x100_0000 + b4 * 0x1_0000_0000 + b5
        * 0x100_0000_0000 + b6 * 0x1_0000_0000_0000 + b7 * 0x100_0000_0000_0000);
    assert(v % 0x100 == b0 && v / 0x100 % 0x100 == b1 && v / 0x1_0000 % 0x100 == b2 && v
        / 0x100_0000 % 0x100 == b3 && v / 0x1_0000_0000 % 0x100 == b4 && v / 0x100_0000_0000
        % 0x100 == b5 && v / 0x1_0000_0000_0000 % 0x100 == b6 && v / 0x100_0000_0000_0000 % 0x100
        == b7) by (bit_vector)
        requires
            v == (b0 as u64) + (b1 as u64) * 0x100 + (b2 as u64) * 0x1_0000 + (b3 as u64)
                * 0x100_0000 + (b4 as u64) * 0x1_0000_0000 + (b5 as u64) * 0x100_0000_0000 + (
            b6 as u64) * 0x1_0000_0000_0000 + (b7 as u64) * 0x100_0000_0000_0000,
    ;
    assert(le_bytes_u64(v) =~= b);
}

/// Appends the two bytes of `x`.
pub fn write_u16(out: &mut Vec<u8>, x: u16)
    ensures
        final(out)@ == old(out)@ + le_bytes_u16(x),
{
    out.push((x % 0x100) as u8);
    out.push((x / 0x100 % 0x100) as u8);
    assert(out@ =~= old(out)@ + le_bytes_u16(x));
}

/// Appends the four bytes of `x`.
pub fn write_u32(out: &mut Vec<u8>, x: u32)
    ensures
        final(out)@ == old(out)@ + le_bytes_u32(x),
{
    out.push((x % 0x100) as u8);
    out.push((x / 0x100 % 0x100) as u8);
    out.push((x / 0x1_0000 % 0x100) as u8);
    out.push((x / 0x100_0000 % 0x100) as u8);
    assert(out@ =~= old(out)@ + le_bytes_u32(x));
}

/// Appends the eight bytes of `x`.
pub fn write_u64(out: &mut Vec<u8>, x: u64)
    ensures
        final(out)@ == old(out)@ + le_bytes_u64(x),
{
    out.push((x % 0x100) as u8);
    out.push((x / 0x100 % 0x100) as u8);
    out.push((x / 0x1_0000 % 0x100) as u8);
    out.push((x / 0x100_0000 % 0x100) as u8);
    out.push((x / 0x1_0000_0000 % 0x100) as u8);
    out.push((x / 0x100_0000_0000 % 0x100) as u8);
    out.push((x / 0x1_0000_0000_0000 % 0x100) as u8);
    out.push((x / 0x100_0000_0000_0000 % 0x100) as u8);
    assert(out@ =~= old(out)@ + le_bytes_u64(x));
}

/// Appends `bytes`.
pub fn write_bytes(out: &mut Vec<u8>, bytes: &[u8])
    ensures
        final(out)@ == old(out)@ + bytes@,
{
    let mut i: usize = 0;
    while i < bytes.len()
        invariant
            i <= bytes@.len(),
            out@ == old(out)@ + bytes@.subrange(0, i as int),
        decreases bytes@.len() - i,
    {
        out.push(bytes[i]);
        assert(out@ =~= old(out)@ + bytes@.subrange(0, i + 1));
        i = i + 1;
    }
    assert(bytes@.subrange(0, bytes@.len() as int) =~= bytes@);
}

/// Appends the 32 bytes of `address`.
pub fn write_address(out: &mut Vec<u8>, address: &Address)
    ensures
        final(out)@ == old(out)@ + address@,
{
    write_bytes(out, address.bytes.as_slice());
}

/// The bytes of a string on the wire: its byte length in four bytes, then its UTF-8
/// bytes.
pub open spec fn spec_pack_string(s: Seq<char>) -> Seq<u8> {
    le_bytes_u32(encode_utf8(s).len() as u32) + encode_utf8(s)
}

/// The bytes of the strings of a list, one after the other.
pub open spec fn spec_pack_strings(v: Seq<Seq<char>>) -> Seq<u8>
    decreases v.len(),
{
    if v.len() == 0 {
        Seq::empty()
    } else {
        spec_pack_string(v[0]) + spec_pack_strings(v.drop_first())
    }
}

/// The bytes of a list of strings on the wire: its count in four bytes, then the strings.
pub open spec fn spec_pack_string_list(v: Seq<Seq<char>>) -> Seq<u8> {
    le_bytes_u32(v.len() as u32) + spec_pack_strings(v)
}

/// The string's byte length fits the four bytes of its prefix.
pub open spec fn string_fits(s: Seq<char>) -> bool {
    encode_utf8(s).len() <= u32::MAX
}

/// The list's count and the byte length of each of its strings fit their prefixes.
pub open spec fn string_list_fits(v: Seq<Seq<char>>) -> bool {
    &&& v.len() <= u32::MAX
    &&& forall|i: int| 0 <= i < v.len() ==> string_fits(#[trigger] v[i])
}

/// What was written is read back: a string.
pub proof fn lemma_string_written(data: Seq<u8>, pos: int, s: Seq<char>)
    requires
        string_fits(s),
        0 <= pos,
        pos + spec_pack_string(s).len() <= data.len(),
        data.subrange(pos, pos + spec_pack_string(s).len()) == spec_pack_string(s),
    ensures
        spec_pack_string(s).len() == 4 + encode_utf8(s).len(),
        spec_string_at(data, pos) == Some((s, pos + spec_pack_string(s).len())),
{
    let n = encode_utf8(s).len() as int;
    let packed = spec_pack_string(s);
    assert(data.subrange(pos, pos + 4) =~= packed.subrange(0, 4));
    assert(packed.subrange(0, 4) =~= le_bytes_u32(n as u32));
    lemma_u32_le(n as u32, data.subrange(pos, pos + 4));
    assert(data.subrange(pos + 4, pos + 4 + n) =~= packed.subrange(4, 4 + n));
    assert(packed.subrange(4, 4 + n) =~= encode_utf8(s));
    vstd::utf8::encode_utf8_valid_utf8(s);
    vstd::utf8::encode_utf8_decode_utf8(s);
}

/// What was written is read back: the strings of a list.
pub proof fn lemma_strings_written(data: Seq<u8>, pos: int, v: Seq<Seq<char>>)
    requires
        forall|i: int| 0 <= i < v.len() ==> string_fits(#[trigger] v[i]),
        0 <= pos,
        pos + spec_pack_strings(v).len() <= data.len(),
        data.subrange(pos, pos + spec_pack_strings(v).len()) == spec_pack_strings(v),
    ensures
        spec_strings_at(data, pos, v.len()) == Some((v, pos + spec_pack_strings(v).len())),
    decreases v.len(),
{
    if v.len() > 0 {
        let first = spec_pack_string(v[0]);
        let rest = v.drop_first();
        let all = spec_pack_strings(v);
        assert(all == first + spec_pack_strings(rest));
        assert(data.subrange(pos, pos + first.len()) =~= all.subrange(0, first.len() as int));
        assert(all.subrange(0, first.len() as int) =~= first);
        lemma_string_written(data, pos, v[0]);
        let next = pos + first.len();
        assert(data.subrange(next, next + spec_pack_strings(rest).len()) =~= all.subrange(
            first.len() as int,
            all.len() as int,
        ));
        assert(all.subrange(first.len() as int, all.len() as int) =~= spec_pack_strings(rest));
        assert forall|i: int| 0 <= i < rest.len() implies string_fits(#[trigger] rest[i]) by {
            assert(rest[i] == v[i + 1]);
        }
        lemma_strings_written(data, next, rest);
        assert(seq![v[0]] + rest =~= v);
    }
}

/// What was written is read back: a list of strings.
pub proof fn lemma_string_list_written(data: Seq<u8>, pos: int, v: Seq<Seq<char>>)
    requires
        string_list_fits(v),
        0 <= pos,
        pos + spec_pack_string_list(v).len() <= data.len(),
        data.subrange(pos, pos + spec_pack_string_list(v).len()) == spec_pack_string_list(v),
    ensures
        spec_string_list_at(data, pos) == Some((v, pos + spec_pack_string_list(v).len())),
{
    let packed = spec_pack_string_list(v);
    assert(data.subrange(pos, pos + 4) =~= packed.subrange(0, 4));
    assert(packed.subrange(0, 4) =~= le_bytes_u32(v.len() as u32));
    lemma_u32_le(v.len() as u32, data.subrange(pos, pos + 4));
    assert(data.subrange(pos + 4, pos + packed.len()) =~= packed.subrange(4, packed.len() as int));
    assert(packed.subrange(4, packed.len() as int) =~= spec_pack_strings(v));
    lemma_strings_written(data, pos + 4, v);
}

/// What is read was written: a string read at `pos` is the one whose bytes lie there.
pub proof fn lemma_string_read(data: Seq<u8>, pos: int)
    requires
        spec_string_at(data, pos) is Some,
    ensures
        ({
            let (s, end) = spec_string_at(data, pos)->0;
            &&& string_fits(s)
            &&& 0 <= pos <= end <= data.len()
            &&& data.subrange(pos, end) == spec_pack_string(s)
        }),
{
    let (s, end) = spec_string_at(data, pos)->0;
    let n = spec_u32_le(data.subrange(pos, pos + 4)) as int;
    let bytes = data.subrange(pos + 4, pos + 4 + n);
    vstd::utf8::decode_utf8_encode_utf8(bytes);
    lemma_u32_le(0, data.subrange(pos, pos + 4));
    assert(data.subrange(pos, end) =~= spec_pack_string(s));
}

/// What is read was written: the strings read from `pos` on are those whose bytes lie
/// there.
pub proof fn lemma_strings_read(data: Seq<u8>, pos: int, count: nat)
    requires
        0 <= pos <= data.len(),
        spec_strings_at(data, pos, count) is Some,
    ensures
        ({
            let (v, end) = spec_strings_at(data, pos, count)->0;
            &&& v.len() == count
            &&& forall|i: int| 0 <= i < v.len() ==> string_fits(#[trigger] v[i])
            &&& pos <= end <= data.len()
            &&& data.subrange(pos, end) == spec_pack_strings(v)
        }),
    decreases count,
{
    let (v, end) = spec_strings_at(data, pos, count)->0;
    if count == 0 {
        assert(data.subrange(pos, end) =~= spec_pack_strings(v));
    } else {
        let (s, next) = spec_string_at(data, pos)->0;
        lemma_string_read(data, pos);
        lemma_strings_read(data, next, (count - 1) as nat);
        let (rest, _) = spec_strings_at(data, next, (count - 1) as nat)->0;
        assert(v == seq![s] + rest);
        assert(v.drop_first() =~= rest);
        assert(v[0] == s);
        assert forall|i: int| 0 <= i < v.len() implies string_fits(#[trigger] v[i]) by {
            if i > 0 {
                assert(v[i] == rest[i - 1]);
            }
        }
        assert(data.subrange(pos, end) =~= data.subrange(pos, next) + data.subrange(next, end));
    }
}

/// What is read was written: a list read at `pos` is the one whose bytes lie there.
pub proof fn lemma_string_list_read(data: Seq<u8>, pos: int)
    requires
        spec_string_list_at(data, pos) is Some,
    ensures
        ({
            let (v, end) = spec_string_list_at(data, pos)->0;
            &&& string_list_fits(v)
            &&& 0 <= pos <= end <= data.len()
            &&& data.subrange(pos, end) == spec_pack_string_list(v)
        }),
{
    let (v, end) = spec_string_list_at(data, pos)->0;
    let count = spec_u32_le(data.subrange(pos, pos + 4));
    lemma_strings_read(data, pos + 4, count as nat);
    lemma_u32_le(0, data.subrange(pos, pos + 4));
    assert(data.subrange(pos, end) =~= data.subrange(pos, pos + 4) + data.subrange(pos + 4, end));
}

/// The strings of a list are written one after the other.
pub proof fn lemma_pack_strings_push(v: Seq<Seq<char>>, s: Seq<char>)
    ensures
        spec_pack_strings(v.push(s)) == spec_pack_strings(v) + spec_pack_string(s),
    decreases v.len(),
{
    if v.len() == 0 {
        assert(v.push(s).drop_first() =~= Seq::<Seq<char>>::empty());
        assert(spec_pack_strings(Seq::<Seq<char>>::empty()) =~= Seq::<u8>::empty());
        assert(v.push(s)[0] == s);
        assert(spec_pack_strings(v.push(s)) =~= spec_pack_string(s));
        assert(spec_pack_strings(v) + spec_pack_string(s) =~= spec_pack_string(s));
    } else {
        assert(v.push(s).drop_first() =~= v.drop_first().push(s));
        lemma_pack_strings_push(v.drop_first(), s);
        assert(spec_pack_string(v[0]) + (spec_pack_strings(v.drop_first()) + spec_pack_string(s))
            =~= spec_pack_strings(v) + spec_pack_string(s));
    }
}

/// Appends a string: its byte length, then its bytes. `false`, and nothing appended,
/// where the length does not fit four bytes.
pub fn write_string(out: &mut Vec<u8>, s: &str) -> (written: bool)
    ensures
        written == string_fits(s@),
        written ==> final(out)@ == old(out)@ + spec_pack_string(s@),
        !written ==> final(out)@ == old(out)@,
{
    let bytes: &[u8] = s.as_bytes();
    if bytes.len() > 0xffff_ffff {
        return false;
    }
    write_u32(out, bytes.len() as u32);
    write_bytes(out, bytes);
    assert(out@ =~= old(out)@ + spec_pack_string(s@));
    true
}

/// Appends a list of strings: its count, then the strings. `false`, and nothing appended,
/// where the count or a length does not fit four bytes.
pub fn write_string_list(out: &mut Vec<u8>, v: &Vec<String>) -> (written: bool)
    ensures
        written == string_list_fits(strings_view(v@)),
        written ==> final(out)@ == old(out)@ + spec_pack_string_list(strings_view(v@)),
        !written ==> final(out)@ == old(out)@,
{
    if v.len() > 0xffff_ffff {
        return false;
    }
    let mut packed: Vec<u8> = Vec::new();
    write_u32(&mut packed, v.len() as u32);
    let ghost start = packed@;
    let ghost all = strings_view(v@);
    let mut i: usize = 0;
    assert(all.subrange(0, 0) =~= Seq::<Seq<char>>::empty());
    assert(start + spec_pack_strings(all.subrange(0, 0)) =~= start);
    while i < v.len()
        invariant
            i <= v@.len(),
            all == strings_view(v@),
            packed@ == start + spec_pack_strings(all.subrange(0, i as int)),
            forall|j: int| 0 <= j < i ==> string_fits(#[trigger] all[j]),
        decreases v@.len() - i,
    {
        if !write_string(&mut packed, v[i].as_str()) {
            assert(!string_fits(all[i as int]));
            return false;
        }
        proof {
            lemma_pack_strings_push(all.subrange(0, i as int), all[i as int]);
            assert(all.subrange(0, i as int).push(all[i as int]) =~= all.subrange(0, i + 1));
            assert(packed@ =~= start + spec_pack_strings(all.subrange(0, i + 1)));
        }
        i = i + 1;
    }
    assert(all.subrange(0, v@.len() as int) =~= all);
    assert(packed@ =~= spec_pack_string_list(all));
    write_bytes(out, packed.as_slice());
    true
}

} // verus!
