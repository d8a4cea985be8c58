//! The binary form of group keys: how one value of each type is laid out in
//! bytes, and how it is read back.
//!
//! Integers are little-endian and as wide as their type, signed ones in two's
//! complement. A boolean is one byte, zero for false. A string is its length
//! as an unsigned LEB128 number of at most ten bytes, followed by its bytes.

use vstd::prelude::*;
use vstd::arithmetic::power2::lemma2_to64;
use vstd::arithmetic::power2::lemma2_to64_rest;
use vstd::arithmetic::power2::lemma_pow2_adds;
use vstd::arithmetic::power2::lemma_pow2_strictly_increases;
use vstd::arithmetic::power2::pow2;
use vstd::slice::slice_subrange;
use vstd::slice::slice_to_vec;
use crate::datavalues::DataType;
use crate::datavalues::Scalar;
use crate::datavalues::Value;
use crate::error::ErrorCode;
use crate::error::ErrorKind;

verus! {

/// The number that `bytes` spell in little-endian order.
pub open spec fn le_value(bytes: Seq<u8>) -> nat
    decreases bytes.len(),
{
    if bytes.len() == 0 {
        0
    } else {
        bytes[0] as nat + 256 * le_value(bytes.drop_first())
    }
}

/// The integer that the unsigned number `value` of `width` bytes stands for in
/// two's complement.
pub open spec fn twos_complement(value: nat, width: nat) -> int {
    if 2 * value >= pow2(8 * width) {
        value - pow2(8 * width)
    } else {
        value as int
    }
}

/// The number that `bytes` start with in unsigned LEB128, and how many bytes
/// it takes: seven bits a byte, the low ones first, the high bit set on every
/// byte but the last. Nothing where `bytes` end before the number does.
pub open spec fn uvarint(bytes: Seq<u8>) -> Option<(nat, nat)>
    decreases bytes.len(),
{
    if bytes.len() == 0 {
        None
    } else if bytes[0] < 128 {
        Some((bytes[0] as nat, 1))
    } else {
        match uvarint(bytes.drop_first()) {
            Some((value, len)) => Some(((bytes[0] - 128) as nat + 128 * value, len + 1)),
            None => None,
        }
    }
}

/// The `width` low bytes of `value`, the least significant first.
pub open spec fn le_bytes(value: nat, width: nat) -> Seq<u8>
    decreases width,
{
    if width == 0 {
        Seq::empty()
    } else {
        seq![(value % 256) as u8] + le_bytes(value / 256, (width - 1) as nat)
    }
}

/// Whether `data_type` is one of the signed integer types.
pub open spec fn is_signed(data_type: DataType) -> bool {
    data_type == DataType::Int8 || data_type == DataType::Int16 || data_type == DataType::Int32
        || data_type == DataType::Int64
}

/// The value of `data_type` that `bytes` start with, and how many bytes it
/// takes. Nothing where `bytes` are too short, or where a string's length does
/// not fit ten bytes or sixty-four bits.
pub open spec fn decode_field(data_type: DataType, bytes: Seq<u8>) -> Option<(Value, nat)> {
    match data_type {
        DataType::String => match uvarint(bytes) {
            Some((len, n)) => if n <= 10 && len <= u64::MAX && n + len <= bytes.len() {
                Some((Value::Bytes(bytes.subrange(n as int, (n + len) as int)), n + len))
            } else {
                None
            },
            None => None,
        },
        DataType::Boolean => if bytes.len() >= 1 {
            Some((Value::Boolean(bytes[0] != 0), 1))
        } else {
            None
        },
        _ => {
            let width = data_type.spec_numeric_byte_size()->0;
            if bytes.len() >= width {
                let value = le_value(bytes.subrange(0, width as int));
                if is_signed(data_type) {
                    Some((Value::Integer(twos_complement(value, width)), width))
                } else {
                    Some((Value::Integer(value as int), width))
                }
            } else {
                None
            }
        },
    }
}

/// A little-endian number of `n` bytes is below two to the power of `8 n`.
pub proof fn lemma_le_value_bound(bytes: Seq<u8>)
    ensures
        le_value(bytes) < pow2(8 * bytes.len()),
    decreases bytes.len(),
{
    lemma2_to64();
    if bytes.len() > 0 {
        let rest = bytes.drop_first();
        lemma_le_value_bound(rest);
        lemma_pow2_adds(8, 8 * rest.len());
        assert(8 + 8 * rest.len() == 8 * bytes.len());
        assert(pow2(8 * bytes.len()) == 256 * pow2(8 * rest.len()));
    }
}

/// An unsigned LEB128 number takes at least one byte, no more bytes than there
/// are, and is below two to the power of seven times its length.
pub proof fn lemma_uvarint_bound(bytes: Seq<u8>)
    ensures
        uvarint(bytes) matches Some((value, len)) ==> 1 <= len <= bytes.len() && value < pow2(
            7 * len,
        ),
    decreases bytes.len(),
{
    lemma2_to64();
    if bytes.len() > 0 && bytes[0] >= 128 {
        let rest = bytes.drop_first();
        lemma_uvarint_bound(rest);
        if let Some((value, len)) = uvarint(rest) {
            lemma_pow2_adds(7, 7 * len);
            assert(7 + 7 * len == 7 * (len + 1));
            assert(pow2(7 * (len + 1)) == 128 * pow2(7 * len));
        }
    }
}

/// Bytes with the high bit set only put off the end of an unsigned LEB128
/// number: behind `i` of them, the number ends where it ends in what follows.
pub proof fn lemma_uvarint_continues(bytes: Seq<u8>, i: nat)
    requires
        i <= bytes.len(),
        forall|k: int| 0 <= k < i ==> bytes[k] >= 128,
    ensures
        uvarint(bytes) is Some <==> uvarint(bytes.skip(i as int)) is Some,
        uvarint(bytes) matches Some((_, len)) ==> (uvarint(bytes.skip(i as int)) matches Some(
            (_, rest_len),
        ) && len == rest_len + i),
    decreases i,
{
    if i == 0 {
        assert(bytes.skip(0) =~= bytes);
    } else {
        let rest = bytes.drop_first();
        assert(rest.skip(i - 1) =~= bytes.skip(i as int));
        assert forall|k: int| 0 <= k < i - 1 implies rest[k] >= 128 by {
            assert(rest[k] == bytes[k + 1]);
        }
        lemma_uvarint_continues(rest, (i - 1) as nat);
    }
}

/// A number that fits `width` bytes, written in little-endian order and read
/// back, is the same number.
pub proof fn lemma_le_round_trip(value: nat, width: nat)
    requires
        value < pow2(8 * width),
    ensures
        le_bytes(value, width).len() == width,
        le_value(le_bytes(value, width)) == value,
    decreases width,
{
    lemma2_to64();
    if width > 0 {
        let rest = (width - 1) as nat;
        lemma_pow2_adds(8, 8 * rest);
        assert(8 + 8 * rest == 8 * width);
        assert(pow2(8 * width) == 256 * pow2(8 * rest));
        lemma_le_round_trip(value / 256, rest);
        assert(le_bytes(value, width).drop_first() =~= le_bytes(value / 256, rest));
    }
}

/// Writes the `width` low bytes of `value`, the least significant first.
pub fn write_le(value: u64, width: usize) -> (bytes: Vec<u8>)
    requires
        width <= 8,
    ensures
        bytes@ == le_bytes(value as nat, width as nat),
{
    let mut bytes: Vec<u8> = Vec::new();
    let mut left: u64 = value;
    let mut i: usize = 0;
    while i < width
        invariant
            i <= width,
            bytes@.len() == i,
            bytes@ + le_bytes(left as nat, (width - i) as nat) == le_bytes(
                value as nat,
                width as nat,
            ),
        decreases width - i,
    {
        let ghost before = bytes@;
        bytes.push((left % 256) as u8);
        proof {
            let tail = le_bytes((left / 256) as nat, (width - i - 1) as nat);
            assert(le_bytes(left as nat, (width - i) as nat) == seq![(left % 256) as u8] + tail);
            assert(bytes@ + tail =~= before + (seq![(left % 256) as u8] + tail));
        }
        left = left / 256;
        i += 1;
    }
    assert(bytes@ + Seq::<u8>::empty() =~= bytes@);
    bytes
}

/// Reads the little-endian number in the `width` bytes of `key` from `pos` on.
pub fn read_le(key: &[u8], pos: usize, width: usize) -> (value: u64)
    requires
        width <= 8,
        pos + width <= key@.len(),
    ensures
        value == le_value(key@.subrange(pos as int, pos + width)),
{
    let total = key.len();
    let mut acc: u64 = 0;
    let mut i: usize = width;
    while i > 0
        invariant
            i <= width,
            width <= 8,
            pos + width <= key@.len(),
            key@.len() == total,
            acc == le_value(key@.subrange(pos + i, pos + width)),
        decreases i,
    {
        i -= 1;
        proof {
            let rest = key@.subrange(pos + i + 1, pos + width);
            lemma_le_value_bound(rest);
            lemma2_to64_rest();
            if 8 * rest.len() < 56 {
                lemma_pow2_strictly_increases(8 * rest.len(), 56);
            }
            assert(key@.subrange(pos + i, pos + width).drop_first() =~= rest);
        }
        acc = acc * 256 + key[pos + i] as u64;
    }
    acc
}

/// Reads the unsigned LEB128 number that starts at `pos` in `key`, and says
/// where it ends. Nothing where `key` ends first, where the number takes more
/// than ten bytes, and where it does not fit sixty-four bits.
pub fn read_uvarint(key: &[u8], pos: usize) -> (r: Option<(u64, usize)>)
    requires
        pos <= key@.len(),
    ensures
        match uvarint(key@.skip(pos as int)) {
            Some((value, len)) => if len <= 10 && value <= u64::MAX {
                r == Some((value as u64, (pos + len) as usize))
            } else {
                r is None
            },
            None => r is None,
        },
{
    let ghost bytes = key@.skip(pos as int);
    let mut n: usize = 0;
    while n < 10 && n < key.len() - pos && key[pos + n] >= 128
        invariant
            n <= 10,
            pos + n <= key@.len(),
            bytes == key@.skip(pos as int),
            forall|k: int| 0 <= k < n ==> bytes[k] >= 128,
        decreases 10 - n,
    {
        n += 1;
    }
    proof {
        lemma_uvarint_continues(bytes, n as nat);
        lemma_uvarint_bound(bytes.skip(n as int));
        assert(bytes.skip(n as int) =~= key@.skip(pos + n));
    }
    if n == 10 || n == key.len() - pos {
        return None;
    }
    let total = key.len();
    let mut acc: u128 = key[pos + n] as u128;
    let mut k: usize = n;
    proof {
        lemma2_to64();
    }
    while k > 0
        invariant
            k <= n < 10,
            pos + n < key@.len(),
            key@.len() == total,
            bytes == key@.skip(pos as int),
            forall|j: int| 0 <= j < n ==> bytes[j] >= 128,
            uvarint(bytes.skip(k as int)) == Some((acc as nat, (n - k + 1) as nat)),
            acc < pow2((7 * (n - k + 1)) as nat),
        decreases k,
    {
        k -= 1;
        proof {
            let len = (n - k) as nat;
            lemma2_to64();
            lemma_pow2_adds(7, 7 * len);
            assert(7 + 7 * len == 7 * (len + 1));
            assert(pow2(7 * (len + 1)) == 128 * pow2(7 * len));
            lemma_pow2_adds(64, 6);
            if 7 * len < 70 {
                lemma_pow2_strictly_increases(7 * len, 70);
            }
            assert(bytes.skip(k as int).drop_first() =~= bytes.skip(k + 1));
            assert(bytes.skip(k as int)[0] == bytes[k as int]);
            assert(bytes[k as int] == key[pos + k]);
        }
        acc = (key[pos + k] - 128) as u128 + 128 * acc;
    }
    proof {
        assert(bytes.skip(0) =~= bytes);
    }
    if acc <= u64::MAX as u128 {
        Some((acc as u64, pos + n + 1))
    } else {
        None
    }
}

/// The error for a key that ends before the value of a field does, or whose
/// string length cannot be read.
fn key_too_short() -> (e: ErrorCode)
    ensures
        e.kind == ErrorKind::InputError,
        e.message@ == "group key ends before its last field"@,
{
    ErrorCode::create(ErrorKind::InputError, "group key ends before its last field")
}

/// Reads the value of `data_type` that starts at `pos` in `key`, and says
/// where it ends. A key that is too short for the value, and a string length
/// that cannot be read, is an `InputError`.
pub fn de_binary(data_type: DataType, key: &[u8], pos: usize) -> (r: Result<
    (Scalar, usize),
    ErrorCode,
>)
    requires
        pos <= key@.len(),
    ensures
        match decode_field(data_type, key@.skip(pos as int)) {
            Some((value, len)) => r matches Ok((scalar, next)) && scalar@ == value
                && scalar.spec_data_type() == data_type && next == pos + len,
            None => r matches Err(e) && e.kind == ErrorKind::InputError && e.message@
                == "group key ends before its last field"@,
        },
{
    let ghost bytes = key@.skip(pos as int);
    let left = key.len() - pos;
    match data_type {
        DataType::String => {
            match read_uvarint(key, pos) {
                None => Err(key_too_short()),
                Some((len, start)) => {
                    proof {
                        lemma_uvarint_bound(bytes);
                    }
                    if len > (key.len() - start) as u64 {
                        return Err(key_too_short());
                    }
                    let end = start + len as usize;
                    let value = slice_to_vec(slice_subrange(key, start, end));
                    assert(value@ =~= bytes.subrange(start - pos, start - pos + len));
                    Ok((Scalar::String(value), end))
                },
            }
        },
        DataType::Boolean => {
            if left < 1 {
                return Err(key_too_short());
            }
            Ok((Scalar::Boolean(key[pos] != 0), pos + 1))
        },
        _ => {
            let width = match data_type.numeric_byte_size() {
                Some(width) => width,
                None => 0,
            };
            if left < width {
                return Err(key_too_short());
            }
            let raw = read_le(key, pos, width);
            proof {
                assert(key@.subrange(pos as int, pos + width) =~= bytes.subrange(0, width as int));
                lemma_le_value_bound(bytes.subrange(0, width as int));
                lemma2_to64();
                lemma2_to64_rest();
            }
            let scalar = match data_type {
                DataType::UInt8 => Scalar::UInt8(raw as u8),
                DataType::UInt16 => Scalar::UInt16(raw as u16),
                DataType::UInt32 => Scalar::UInt32(raw as u32),
                DataType::UInt64 => Scalar::UInt64(raw),
                DataType::Int8 => Scalar::Int8(
                    if raw >= 0x80 {
                        (raw as i64 - 0x100) as i8
                    } else {
                        raw as i8
                    },
                ),
                DataType::Int16 => Scalar::Int16(
                    if raw >= 0x8000 {
                        (raw as i64 - 0x1_0000) as i16
                    } else {
                        raw as i16
                    },
                ),
                DataType::Int32 => Scalar::Int32(
                    if raw >= 0x8000_0000 {
                        (raw as i64 - 0x1_0000_0000) as i32
                    } else {
                        raw as i32
                    },
                ),
                _ => Scalar::Int64(
                    if raw >= 0x8000_0000_0000_0000 {
                        (raw - 0x8000_0000_0000_0000) as i64 + i64::MIN
                    } else {
                        raw as i64
                    },
                ),
            };
            Ok((scalar, pos + width))
        },
    }
}

} // verus!
