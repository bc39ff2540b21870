//! Parameter codec: little-endian byte encodings of the payload element types.
//!
//! Signed integers travel as two's-complement little-endian bytes; the codec
//! states that by reinterpreting each signed value as its unsigned bit pattern
//! and reusing the unsigned little-endian encodings of `vstd::bytes`.
use vstd::bytes::*;
use vstd::prelude::*;
use vstd::string::StrSliceExecFns;
use vstd::utf8::{decode_utf8, encode_utf8, valid_utf8};

use crate::rawcommand::CommandError;

verus! {

// ---------------------------------------------------------------------------
// Signed / unsigned reinterpretation (two's complement).
// ---------------------------------------------------------------------------
pub open spec fn u8_of_i8(v: i8) -> u8 {
    if v >= 0 {
        v as u8
    } else {
        (v + 0x100) as u8
    }
}

pub open spec fn i8_of_u8(x: u8) -> i8 {
    if x < 0x80 {
        x as i8
    } else {
        (x - 0x100) as i8
    }
}

pub open spec fn u16_of_i16(v: i16) -> u16 {
    if v >= 0 {
        v as u16
    } else {
        (v + 0x1_0000) as u16
    }
}

pub open spec fn i16_of_u16(x: u16) -> i16 {
    if x < 0x8000 {
        x as i16
    } else {
        (x - 0x1_0000) as i16
    }
}

pub fn i8_to_u8(v: i8) -> (r: u8)
    ensures
        r == u8_of_i8(v),
{
    if v >= 0 {
        v as u8
    } else {
        ((v as i16) + 0x100) as u8
    }
}

pub fn u8_to_i8(x: u8) -> (r: i8)
    ensures
        r == i8_of_u8(x),
{
    if x < 0x80 {
        x as i8
    } else {
        ((x as i16) - 0x100) as i8
    }
}

pub fn i16_to_u16(v: i16) -> (r: u16)
    ensures
        r == u16_of_i16(v),
{
    if v >= 0 {
        v as u16
    } else {
        ((v as i32) + 0x1_0000) as u16
    }
}

pub fn u16_to_i16(x: u16) -> (r: i16)
    ensures
        r == i16_of_u16(x),
{
    if x < 0x8000 {
        x as i16
    } else {
        ((x as i32) - 0x1_0000) as i16
    }
}

pub proof fn lemma_i8_u8_round(v: i8)
    ensures
        i8_of_u8(u8_of_i8(v)) == v,
{
}

pub proof fn lemma_i16_u16_round(v: i16)
    ensures
        i16_of_u16(u16_of_i16(v)) == v,
{
}

// ---------------------------------------------------------------------------
// Scalar little-endian encodings.
// ---------------------------------------------------------------------------
pub open spec fn spec_i8_le(v: i8) -> Seq<u8> {
    seq![u8_of_i8(v)]
}

pub open spec fn spec_i8_from_le(s: Seq<u8>) -> i8
    recommends
        s.len() == 1,
{
    i8_of_u8(s[0])
}

pub open spec fn spec_i16_le(v: i16) -> Seq<u8> {
    spec_u16_to_le_bytes(u16_of_i16(v))
}

pub open spec fn spec_i16_from_le(s: Seq<u8>) -> i16
    recommends
        s.len() == 2,
{
    i16_of_u16(spec_u16_from_le_bytes(s))
}

pub fn i16_le(v: i16) -> (r: Vec<u8>)
    ensures
        r@ == spec_i16_le(v),
        r@.len() == 2,
{
    proof {
        lemma_auto_spec_u16_to_from_le_bytes();
    }
    u16_to_le_bytes(i16_to_u16(v))
}

pub fn i16_from_le(s: &[u8]) -> (r: i16)
    requires
        s@.len() == 2,
    ensures
        r == spec_i16_from_le(s@),
{
    u16_to_i16(u16_from_le_bytes(s))
}

pub proof fn lemma_i16_le_round(v: i16)
    ensures
        spec_i16_le(v).len() == 2,
        spec_i16_from_le(spec_i16_le(v)) == v,
{
    lemma_auto_spec_u16_to_from_le_bytes();
    let x = u16_of_i16(v);
    assert(spec_u16_to_le_bytes(x).len() == 2);
    assert(spec_u16_from_le_bytes(spec_u16_to_le_bytes(x)) == x);
    lemma_i16_u16_round(v);
}

pub open spec fn u32_of_i32(v: i32) -> u32 {
    if v >= 0 {
        v as u32
    } else {
        (v + 0x1_0000_0000) as u32
    }
}

pub open spec fn i32_of_u32(x: u32) -> i32 {
    if x < 0x8000_0000 {
        x as i32
    } else {
        (x - 0x1_0000_0000) as i32
    }
}

pub fn i32_to_u32(v: i32) -> (r: u32)
    ensures
        r == u32_of_i32(v),
{
    if v >= 0 {
        v as u32
    } else {
        ((v as i64) + 0x1_0000_0000) as u32
    }
}

pub fn u32_to_i32(x: u32) -> (r: i32)
    ensures
        r == i32_of_u32(x),
{
    if x < 0x8000_0000 {
        x as i32
    } else {
        ((x as i64) - 0x1_0000_0000) as i32
    }
}

pub proof fn lemma_i32_u32_round(v: i32)
    ensures
        i32_of_u32(u32_of_i32(v)) == v,
{
}

pub open spec fn spec_i32_le(v: i32) -> Seq<u8> {
    spec_u32_to_le_bytes(u32_of_i32(v))
}

pub open spec fn spec_i32_from_le(s: Seq<u8>) -> i32
    recommends
        s.len() == 4,
{
    i32_of_u32(spec_u32_from_le_bytes(s))
}

pub fn i32_le(v: i32) -> (r: Vec<u8>)
    ensures
        r@ == spec_i32_le(v),
        r@.len() == 4,
{
    proof {
        lemma_auto_spec_u32_to_from_le_bytes();
    }
    u32_to_le_bytes(i32_to_u32(v))
}

pub fn i32_from_le(s: &[u8]) -> (r: i32)
    requires
        s@.len() == 4,
    ensures
        r == spec_i32_from_le(s@),
{
    u32_to_i32(u32_from_le_bytes(s))
}

pub proof fn lemma_i32_le_round(v: i32)
    ensures
        spec_i32_le(v).len() == 4,
        spec_i32_from_le(spec_i32_le(v)) == v,
{
    lemma_auto_spec_u32_to_from_le_bytes();
    let x = u32_of_i32(v);
    assert(spec_u32_to_le_bytes(x).len() == 4);
    assert(spec_u32_from_le_bytes(spec_u32_to_le_bytes(x)) == x);
    lemma_i32_u32_round(v);
}

pub open spec fn u64_of_i64(v: i64) -> u64 {
    if v >= 0 {
        v as u64
    } else {
        (v + 0x1_0000_0000_0000_0000) as u64
    }
}

pub open spec fn i64_of_u64(x: u64) -> i64 {
    if x < 0x8000_0000_0000_0000 {
        x as i64
    } else {
        (x - 0x1_0000_0000_0000_0000) as i64
    }
}

pub fn i64_to_u64(v: i64) -> (r: u64)
    ensures
        r == u64_of_i64(v),
{
    if v >= 0 {
        v as u64
    } else {
        ((v as i128) + 0x1_0000_0000_0000_0000) as u64
    }
}

pub fn u64_to_i64(x: u64) -> (r: i64)
    ensures
        r == i64_of_u64(x),
{
    if x < 0x8000_0000_0000_0000 {
        x as i64
    } else {
        ((x as i128) - 0x1_0000_0000_0000_0000) as i64
    }
}

pub proof fn lemma_i64_u64_round(v: i64)
    ensures
        i64_of_u64(u64_of_i64(v)) == v,
{
}

pub open spec fn spec_i64_le(v: i64) -> Seq<u8> {
    spec_u64_to_le_bytes(u64_of_i64(v))
}

pub open spec fn spec_i64_from_le(s: Seq<u8>) -> i64
    recommends
        s.len() == 8,
{
    i64_of_u64(spec_u64_from_le_bytes(s))
}

pub fn i64_le(v: i64) -> (r: Vec<u8>)
    ensures
        r@ == spec_i64_le(v),
        r@.len() == 8,
{
    proof {
        lemma_auto_spec_u64_to_from_le_bytes();
    }
    u64_to_le_bytes(i64_to_u64(v))
}

pub fn i64_from_le(s: &[u8]) -> (r: i64)
    requires
        s@.len() == 8,
    ensures
        r == spec_i64_from_le(s@),
{
    u64_to_i64(u64_from_le_bytes(s))
}

pub proof fn lemma_i64_le_round(v: i64)
    ensures
        spec_i64_le(v).len() == 8,
        spec_i64_from_le(spec_i64_le(v)) == v,
{
    lemma_auto_spec_u64_to_from_le_bytes();
    let x = u64_of_i64(v);
    assert(spec_u64_to_le_bytes(x).len() == 8);
    assert(spec_u64_from_le_bytes(spec_u64_to_le_bytes(x)) == x);
    lemma_i64_u64_round(v);
}

// ---------------------------------------------------------------------------
// Sequence payloads: the concatenation of the elements' scalar encodings,
// with no separator or count; the byte length divided by the element width
// gives the element count.
// ---------------------------------------------------------------------------
pub open spec fn spec_i8_seq_le(vs: Seq<i8>) -> Seq<u8> {
    Seq::new(vs.len(), |k: int| u8_of_i8(vs[k]))
}

pub open spec fn spec_i8_seq_from_le(s: Seq<u8>) -> Seq<i8> {
    Seq::new(s.len(), |k: int| i8_of_u8(s[k]))
}

pub proof fn lemma_i8_seq_round(vs: Seq<i8>)
    ensures
        spec_i8_seq_le(vs).len() == vs.len(),
        spec_i8_seq_from_le(spec_i8_seq_le(vs)) == vs,
{
    let b = spec_i8_seq_le(vs);
    assert forall|k: int| 0 <= k < vs.len() implies spec_i8_seq_from_le(b)[k] == vs[k] by {
        lemma_i8_u8_round(vs[k]);
    }
    assert(spec_i8_seq_from_le(b) =~= vs);
}

pub fn encode_i8s(vs: &Vec<i8>) -> (r: Vec<u8>)
    ensures
        r@ == spec_i8_seq_le(vs@),
{
    let mut out: Vec<u8> = Vec::new();
    let mut i: usize = 0;
    while i < vs.len()
        invariant
            i <= vs@.len(),
            out@.len() == i,
            forall|k: int| 0 <= k < i ==> out@[k] == u8_of_i8(vs@[k]),
        decreases vs@.len() - i,
    {
        out.push(i8_to_u8(vs[i]));
        i = i + 1;
    }
    proof {
        assert(out@ =~= spec_i8_seq_le(vs@));
    }
    out
}

pub fn decode_i8s(data: &[u8]) -> (r: Vec<i8>)
    ensures
        r@ == spec_i8_seq_from_le(data@),
{
    let mut out: Vec<i8> = Vec::new();
    let mut i: usize = 0;
    while i < data.len()
        invariant
            i <= data@.len(),
            out@.len() == i,
            forall|k: int| 0 <= k < i ==> out@[k] == i8_of_u8(data@[k]),
        decreases data@.len() - i,
    {
        out.push(u8_to_i8(data[i]));
        i = i + 1;
    }
    proof {
        assert(out@ =~= spec_i8_seq_from_le(data@));
    }
    out
}

pub open spec fn spec_i16_seq_le(vs: Seq<i16>) -> Seq<u8> {
    Seq::new((vs.len() * 2) as nat, |k: int| spec_i16_le(vs[k / 2])[k % 2])
}

pub open spec fn spec_i16_seq_from_le(s: Seq<u8>) -> Seq<i16>
    recommends
        s.len() % 2 == 0,
{
    Seq::new((s.len() / 2) as nat, |j: int| spec_i16_from_le(s.subrange(2 * j, 2 * j + 2)))
}

pub proof fn lemma_i16_seq_round(vs: Seq<i16>)
    ensures
        spec_i16_seq_le(vs).len() == vs.len() * 2,
        spec_i16_seq_le(vs).len() % 2 == 0,
        spec_i16_seq_from_le(spec_i16_seq_le(vs)) == vs,
{
    let b = spec_i16_seq_le(vs);
    assert forall|j: int| 0 <= j < vs.len() implies spec_i16_seq_from_le(b)[j] == vs[j] by {
        lemma_i16_le_round(vs[j]);
        assert forall|k: int| 0 <= k < 2 implies b.subrange(2 * j, 2 * j + 2)[k] == spec_i16_le(
            vs[j],
        )[k] by {
            assert(b.subrange(2 * j, 2 * j + 2)[k] == b[2 * j + k]);
            assert((2 * j + k) / 2 == j);
            assert((2 * j + k) % 2 == k);
        }
        assert(b.subrange(2 * j, 2 * j + 2) =~= spec_i16_le(vs[j]));
    }
    assert(spec_i16_seq_from_le(b) =~= vs);
}

pub fn encode_i16s(vs: &Vec<i16>) -> (r: Vec<u8>)
    ensures
        r@ == spec_i16_seq_le(vs@),
{
    let mut out: Vec<u8> = Vec::new();
    let mut i: usize = 0;
    while i < vs.len()
        invariant
            i <= vs@.len(),
            out@.len() == i * 2,
            forall|k: int| 0 <= k < i * 2 ==> out@[k] == spec_i16_le(vs@[k / 2])[k % 2],
        decreases vs@.len() - i,
    {
        let b = i16_le(vs[i]);
        out.push(b[0]);
        out.push(b[1]);
        proof {
            assert forall|k: int| 0 <= k < (i + 1) * 2 implies out@[k] == spec_i16_le(
                vs@[k / 2],
            )[k % 2] by {
                if k >= i * 2 {
                    assert(k / 2 == i as int && (k % 2 == 0 || k % 2 == 1));
                }
            }
        }
        i = i + 1;
    }
    proof {
        assert(out@ =~= spec_i16_seq_le(vs@));
    }
    out
}

pub fn decode_i16s(data: &[u8]) -> (r: Result<Vec<i16>, CommandError>)
    ensures
        match r {
            Ok(vs) => data@.len() % 2 == 0 && vs@ == spec_i16_seq_from_le(data@),
            Err(e) => e == CommandError::LengthMismatch && data@.len() % 2 != 0,
        },
{
    if data.len() % 2 != 0 {
        return Err(CommandError::LengthMismatch);
    }
    let n = data.len() / 2;
    let mut out: Vec<i16> = Vec::new();
    let mut j: usize = 0;
    while j < n
        invariant
            data@.len() <= usize::MAX,
            data@.len() % 2 == 0,
            n == data@.len() / 2,
            j <= n,
            out@.len() == j,
            forall|t: int|
                0 <= t < j ==> out@[t] == spec_i16_from_le(data@.subrange(2 * t, 2 * t + 2)),
        decreases n - j,
    {
        proof {
            assert(2 * n <= data@.len());
            assert(2 * (j as int) + 2 <= data@.len());
        }
        let chunk = vstd::slice::slice_subrange(data, 2 * j, 2 * j + 2);
        out.push(i16_from_le(chunk));
        j = j + 1;
    }
    proof {
        assert(out@ =~= spec_i16_seq_from_le(data@));
    }
    Ok(out)
}

pub open spec fn spec_i32_seq_le(vs: Seq<i32>) -> Seq<u8> {
    Seq::new((vs.len() * 4) as nat, |k: int| spec_i32_le(vs[k / 4])[k % 4])
}

pub open spec fn spec_i32_seq_from_le(s: Seq<u8>) -> Seq<i32>
    recommends
        s.len() % 4 == 0,
{
    Seq::new((s.len() / 4) as nat, |j: int| spec_i32_from_le(s.subrange(4 * j, 4 * j + 4)))
}

pub proof fn lemma_i32_seq_round(vs: Seq<i32>)
    ensures
        spec_i32_seq_le(vs).len() == vs.len() * 4,
        spec_i32_seq_le(vs).len() % 4 == 0,
        spec_i32_seq_from_le(spec_i32_seq_le(vs)) == vs,
{
    let b = spec_i32_seq_le(vs);
    assert forall|j: int| 0 <= j < vs.len() implies spec_i32_seq_from_le(b)[j] == vs[j] by {
        lemma_i32_le_round(vs[j]);
        assert forall|k: int| 0 <= k < 4 implies b.subrange(4 * j, 4 * j + 4)[k] == spec_i32_le(
            vs[j],
        )[k] by {
            assert(b.subrange(4 * j, 4 * j + 4)[k] == b[4 * j + k]);
            assert((4 * j + k) / 4 == j);
            assert((4 * j + k) % 4 == k);
        }
        assert(b.subrange(4 * j, 4 * j + 4) =~= spec_i32_le(vs[j]));
    }
    assert(spec_i32_seq_from_le(b) =~= vs);
}

pub fn encode_i32s(vs: &Vec<i32>) -> (r: Vec<u8>)
    ensures
        r@ == spec_i32_seq_le(vs@),
{
    let mut out: Vec<u8> = Vec::new();
    let mut i: usize = 0;
    while i < vs.len()
        invariant
            i <= vs@.len(),
            out@.len() == i * 4,
            forall|k: int| 0 <= k < i * 4 ==> out@[k] == spec_i32_le(vs@[k / 4])[k % 4],
        decreases vs@.len() - i,
    {
        let b = i32_le(vs[i]);
        out.push(b[0]);
        out.push(b[1]);
        out.push(b[2]);
        out.push(b[3]);
        proof {
            assert forall|k: int| 0 <= k < (i + 1) * 4 implies out@[k] == spec_i32_le(
                vs@[k / 4],
            )[k % 4] by {
                if k >= i * 4 {
                    assert(k / 4 == i as int && k % 4 == k - i * 4);
                }
            }
        }
        i = i + 1;
    }
    proof {
        assert(out@ =~= spec_i32_seq_le(vs@));
    }
    out
}

pub fn decode_i32s(data: &[u8]) -> (r: Result<Vec<i32>, CommandError>)
    ensures
        match r {
            Ok(vs) => data@.len() % 4 == 0 && vs@ == spec_i32_seq_from_le(data@),
            Err(e) => e == CommandError::LengthMismatch && data@.len() % 4 != 0,
        },
{
    if data.len() % 4 != 0 {
        return Err(CommandError::LengthMismatch);
    }
    let n = data.len() / 4;
    let mut out: Vec<i32> = Vec::new();
    let mut j: usize = 0;
    while j < n
        invariant
            data@.len() <= usize::MAX,
            data@.len() % 4 == 0,
            n == data@.len() / 4,
            j <= n,
            out@.len() == j,
            forall|t: int|
                0 <= t < j ==> out@[t] == spec_i32_from_le(data@.subrange(4 * t, 4 * t + 4)),
        decreases n - j,
    {
        proof {
            assert(4 * n <= data@.len());
            assert(4 * (j as int) + 4 <= data@.len());
        }
        let chunk = vstd::slice::slice_subrange(data, 4 * j, 4 * j + 4);
        out.push(i32_from_le(chunk));
        j = j + 1;
    }
    proof {
        assert(out@ =~= spec_i32_seq_from_le(data@));
    }
    Ok(out)
}

pub open spec fn spec_i64_seq_le(vs: Seq<i64>) -> Seq<u8> {
    Seq::new((vs.len() * 8) as nat, |k: int| spec_i64_le(vs[k / 8])[k % 8])
}

pub open spec fn spec_i64_seq_from_le(s: Seq<u8>) -> Seq<i64>
    recommends
        s.len() % 8 == 0,
{
    Seq::new((s.len() / 8) as nat, |j: int| spec_i64_from_le(s.subrange(8 * j, 8 * j + 8)))
}

pub proof fn lemma_i64_seq_round(vs: Seq<i64>)
    ensures
        spec_i64_seq_le(vs).len() == vs.len() * 8,
        spec_i64_seq_le(vs).len() % 8 == 0,
        spec_i64_seq_from_le(spec_i64_seq_le(vs)) == vs,
{
    let b = spec_i64_seq_le(vs);
    assert forall|j: int| 0 <= j < vs.len() implies spec_i64_seq_from_le(b)[j] == vs[j] by {
        lemma_i64_le_round(vs[j]);
        assert forall|k: int| 0 <= k < 8 implies b.subrange(8 * j, 8 * j + 8)[k] == spec_i64_le(
            vs[j],
        )[k] by {
            assert(b.subrange(8 * j, 8 * j + 8)[k] == b[8 * j + k]);
            assert((8 * j + k) / 8 == j);
            assert((8 * j + k) % 8 == k);
        }
        assert(b.subrange(8 * j, 8 * j + 8) =~= spec_i64_le(vs[j]));
    }
    assert(spec_i64_seq_from_le(b) =~= vs);
}

pub fn encode_i64s(vs: &Vec<i64>) -> (r: Vec<u8>)
    ensures
        r@ == spec_i64_seq_le(vs@),
{
    let mut out: Vec<u8> = Vec::new();
    let mut i: usize = 0;
    while i < vs.len()
        invariant
            i <= vs@.len(),
            out@.len() == i * 8,
            forall|k: int| 0 <= k < i * 8 ==> out@[k] == spec_i64_le(vs@[k / 8])[k % 8],
        decreases vs@.len() - i,
    {
        let b = i64_le(vs[i]);
        let mut t: usize = 0;
        while t < 8
            invariant
                t <= 8,
                b@ == spec_i64_le(vs@[i as int]),
                b@.len() == 8,
                i < vs@.len(),
                out@.len() == i * 8 + t,
                forall|k: int| 0 <= k < i * 8 ==> out@[k] == spec_i64_le(vs@[k / 8])[k % 8],
                forall|k: int| i * 8 <= k < i * 8 + t ==> out@[k] == b@[k - i * 8],
            decreases 8 - t,
        {
            out.push(b[t]);
            t = t + 1;
        }
        proof {
            assert forall|k: int| 0 <= k < (i + 1) * 8 implies out@[k] == spec_i64_le(
                vs@[k / 8],
            )[k % 8] by {
                if k >= i * 8 {
                    assert(k / 8 == i as int && k % 8 == k - i * 8);
                }
            }
        }
        i = i + 1;
    }
    proof {
        assert(out@ =~= spec_i64_seq_le(vs@));
    }
    out
}

pub fn decode_i64s(data: &[u8]) -> (r: Result<Vec<i64>, CommandError>)
    ensures
        match r {
            Ok(vs) => data@.len() % 8 == 0 && vs@ == spec_i64_seq_from_le(data@),
            Err(e) => e == CommandError::LengthMismatch && data@.len() % 8 != 0,
        },
{
    if data.len() % 8 != 0 {
        return Err(CommandError::LengthMismatch);
    }
    let n = data.len() / 8;
    let mut out: Vec<i64> = Vec::new();
    let mut j: usize = 0;
    while j < n
        invariant
            data@.len() <= usize::MAX,
            data@.len() % 8 == 0,
            n == data@.len() / 8,
            j <= n,
            out@.len() == j,
            forall|t: int|
                0 <= t < j ==> out@[t] == spec_i64_from_le(data@.subrange(8 * t, 8 * t + 8)),
        decreases n - j,
    {
        proof {
            assert(8 * n <= data@.len());
            assert(8 * (j as int) + 8 <= data@.len());
        }
        let chunk = vstd::slice::slice_subrange(data, 8 * j, 8 * j + 8);
        out.push(i64_from_le(chunk));
        j = j + 1;
    }
    proof {
        assert(out@ =~= spec_i64_seq_from_le(data@));
    }
    Ok(out)
}

// ---------------------------------------------------------------------------
// Text payloads: raw UTF-8 bytes, no length prefix or terminator.
// ---------------------------------------------------------------------------
/// The UTF-8 bytes of a text payload.
pub fn string_to_bytes(s: &String) -> (r: Vec<u8>)
    ensures
        r@ == encode_utf8(s@),
{
    s.as_str().as_bytes_vec()
}

/// Relies on std's `String::from_utf8`: it succeeds exactly on valid UTF-8
/// input, and then returns the character sequence that the bytes encode.
#[verifier::external_body]
pub fn string_from_utf8(v: Vec<u8>) -> (r: Option<String>)
    ensures
        match r {
            Some(s) => valid_utf8(v@) && s@ == decode_utf8(v@),
            None => !valid_utf8(v@),
        },
{
    match String::from_utf8(v) {
        Ok(s) => Some(s),
        Err(_) => None,
    }
}

/// A text payload decodes from its own encoding to the same characters.
pub proof fn lemma_text_round(chars: Seq<char>)
    ensures
        valid_utf8(encode_utf8(chars)),
        decode_utf8(encode_utf8(chars)) == chars,
{
    vstd::utf8::encode_utf8_valid_utf8(chars);
    vstd::utf8::encode_utf8_decode_utf8(chars);
}

// ---------------------------------------------------------------------------
// Fixed-point: 16-bit signed, 5 integer bits (sign included) and 11 fraction
// bits, so one unit stands for 1/2048 of the represented ratio. A value is
// handled as its raw count of 1/2048 units; a count outside the signed
// 16-bit range is unrepresentable and encoding it must fail, not clamp.
// ---------------------------------------------------------------------------
/// The raw fixed-point value for a count of 1/2048 units, or `RangeError`
/// exactly when the count does not fit the 16-bit format.
pub fn fixed16_from_scaled(units: i32) -> (r: Result<i16, CommandError>)
    ensures
        match r {
            Ok(v) => -0x8000 <= units <= 0x7fff && v == units,
            Err(e) => e == CommandError::RangeError && (units < -0x8000 || units > 0x7fff),
        },
{
    if units < -0x8000 || units > 0x7fff {
        Err(CommandError::RangeError)
    } else {
        Ok(units as i16)
    }
}

} // verus!
