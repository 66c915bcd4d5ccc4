//! The binary codec for the two stored payloads.
//!
//! Both payloads use the same self-describing scheme: an 8-byte
//! little-endian count, then the elements in order.  A keypoint element
//! is its four 32-bit fields, little-endian, in declaration order
//! (sixteen bytes per keypoint); a descriptor element is one raw byte.
//! Decoding accepts exactly the byte strings this scheme produces and
//! rejects everything else with `DecodeError`.

use vstd::prelude::*;
use vstd::bytes::*;
use vstd::slice::slice_subrange;

use crate::StoreError;
use crate::records::KeyPointData;

verus! {

/// The sixteen bytes one keypoint encodes to.
pub open spec fn kp_bytes(k: KeyPointData) -> Seq<u8> {
    spec_u32_to_le_bytes(k.x_bits) + spec_u32_to_le_bytes(k.y_bits)
        + spec_u32_to_le_bytes(k.size_bits) + spec_u32_to_le_bytes(k.angle_bits)
}

/// The keypoint a sixteen-byte chunk decodes to.
pub open spec fn kp_of_bytes(s: Seq<u8>) -> KeyPointData {
    KeyPointData {
        x_bits: spec_u32_from_le_bytes(s.subrange(0, 4)),
        y_bits: spec_u32_from_le_bytes(s.subrange(4, 8)),
        size_bits: spec_u32_from_le_bytes(s.subrange(8, 12)),
        angle_bits: spec_u32_from_le_bytes(s.subrange(12, 16)),
    }
}

/// The body of a keypoint encoding: the chunks of all keypoints in order.
pub open spec fn keypoints_payload(kps: Seq<KeyPointData>) -> Seq<u8>
    decreases kps.len(),
{
    if kps.len() == 0 {
        Seq::<u8>::empty()
    } else {
        keypoints_payload(kps.drop_last()) + kp_bytes(kps.last())
    }
}

/// What `encode_keypoints` returns: count, then the payload.
pub open spec fn encode_keypoints_spec(kps: Seq<KeyPointData>) -> Seq<u8> {
    spec_u64_to_le_bytes(kps.len() as u64) + keypoints_payload(kps)
}

/// What `encode_bytes` returns: count, then the bytes themselves.
pub open spec fn encode_bytes_spec(d: Seq<u8>) -> Seq<u8> {
    spec_u64_to_le_bytes(d.len() as u64) + d
}

/// What `decode_bytes` accepts and returns.
pub open spec fn decode_bytes_spec(b: Seq<u8>) -> Option<Seq<u8>> {
    if b.len() >= 8 && spec_u64_from_le_bytes(b.subrange(0, 8)) == b.len() - 8 {
        Some(b.subrange(8, b.len() as int))
    } else {
        None
    }
}

/// What `decode_keypoints` accepts and returns.
pub open spec fn decode_keypoints_spec(b: Seq<u8>) -> Option<Seq<KeyPointData>> {
    if b.len() >= 8 && 16 * spec_u64_from_le_bytes(b.subrange(0, 8)) == b.len() - 8 {
        Some(
            Seq::new(
                spec_u64_from_le_bytes(b.subrange(0, 8)) as nat,
                |i: int| kp_of_bytes(b.subrange(8 + 16 * i, 24 + 16 * i)),
            ),
        )
    } else {
        None
    }
}

pub proof fn lemma_payload_len(kps: Seq<KeyPointData>)
    ensures
        keypoints_payload(kps).len() == 16 * kps.len(),
    decreases kps.len(),
{
    lemma_auto_spec_u32_to_from_le_bytes();
    if kps.len() > 0 {
        lemma_payload_len(kps.drop_last());
    }
}

/// Chunk `i` of the payload is the encoding of keypoint `i`.
pub proof fn lemma_payload_chunk(kps: Seq<KeyPointData>, i: int)
    requires
        0 <= i < kps.len(),
    ensures
        keypoints_payload(kps).subrange(16 * i, 16 * i + 16) == kp_bytes(kps[i]),
    decreases kps.len(),
{
    lemma_payload_len(kps);
    lemma_payload_len(kps.drop_last());
    lemma_auto_spec_u32_to_from_le_bytes();
    if i == kps.len() - 1 {
        assert(keypoints_payload(kps).subrange(16 * i, 16 * i + 16) =~= kp_bytes(kps[i]));
    } else {
        lemma_payload_chunk(kps.drop_last(), i);
        assert(keypoints_payload(kps).subrange(16 * i, 16 * i + 16) =~= keypoints_payload(
            kps.drop_last(),
        ).subrange(16 * i, 16 * i + 16));
    }
}

/// A keypoint survives its own chunk round trip.
pub proof fn lemma_kp_round_trip(k: KeyPointData)
    ensures
        kp_bytes(k).len() == 16,
        kp_of_bytes(kp_bytes(k)) == k,
{
    lemma_auto_spec_u32_to_from_le_bytes();
    assert(kp_bytes(k).subrange(0, 4) =~= spec_u32_to_le_bytes(k.x_bits));
    assert(kp_bytes(k).subrange(4, 8) =~= spec_u32_to_le_bytes(k.y_bits));
    assert(kp_bytes(k).subrange(8, 12) =~= spec_u32_to_le_bytes(k.size_bits));
    assert(kp_bytes(k).subrange(12, 16) =~= spec_u32_to_le_bytes(k.angle_bits));
}

/// Round trip for byte payloads: decoding an encoding gives back the
/// original sequence, for every byte sequence a vector can hold.
pub proof fn lemma_bytes_round_trip(d: Seq<u8>)
    requires
        d.len() <= u64::MAX,
    ensures
        decode_bytes_spec(encode_bytes_spec(d)) == Some(d),
{
    lemma_auto_spec_u64_to_from_le_bytes();
    let b = encode_bytes_spec(d);
    assert(b.subrange(0, 8) =~= spec_u64_to_le_bytes(d.len() as u64));
    assert(b.subrange(8, b.len() as int) =~= d);
}

/// Round trip for keypoint payloads: decoding an encoding gives back the
/// original sequence, for every sequence a vector can hold.
pub proof fn lemma_keypoints_round_trip(kps: Seq<KeyPointData>)
    requires
        kps.len() <= u64::MAX,
    ensures
        decode_keypoints_spec(encode_keypoints_spec(kps)) == Some(kps),
{
    lemma_auto_spec_u64_to_from_le_bytes();
    lemma_payload_len(kps);
    let b = encode_keypoints_spec(kps);
    assert(b.subrange(0, 8) =~= spec_u64_to_le_bytes(kps.len() as u64));
    let n = spec_u64_from_le_bytes(b.subrange(0, 8));
    assert(n == kps.len());
    let dec = Seq::new(n as nat, |i: int| kp_of_bytes(b.subrange(8 + 16 * i, 24 + 16 * i)));
    assert forall|i: int| 0 <= i < kps.len() implies dec[i] == kps[i] by {
        lemma_payload_chunk(kps, i);
        assert(b.subrange(8 + 16 * i, 24 + 16 * i) =~= keypoints_payload(kps).subrange(
            16 * i,
            16 * i + 16,
        ));
        lemma_kp_round_trip(kps[i]);
    }
    assert(dec =~= kps);
}

/// Only encodings decode: a byte string that decodes is the encoding of
/// what it decodes to.  So the encoding is canonical.
pub proof fn lemma_bytes_canonical(b: Seq<u8>, d: Seq<u8>)
    requires
        decode_bytes_spec(b) == Some(d),
    ensures
        encode_bytes_spec(d) == b,
{
    lemma_auto_spec_u64_to_from_le_bytes();
    assert(spec_u64_to_le_bytes(spec_u64_from_le_bytes(b.subrange(0, 8))) == b.subrange(0, 8));
    assert(encode_bytes_spec(d) =~= b);
}

/// A sixteen-byte chunk survives the reverse round trip.
pub proof fn lemma_kp_bytes_of(s: Seq<u8>)
    requires
        s.len() == 16,
    ensures
        kp_bytes(kp_of_bytes(s)) == s,
{
    lemma_auto_spec_u32_to_from_le_bytes();
    assert(spec_u32_to_le_bytes(spec_u32_from_le_bytes(s.subrange(0, 4))) == s.subrange(0, 4));
    assert(spec_u32_to_le_bytes(spec_u32_from_le_bytes(s.subrange(4, 8))) == s.subrange(4, 8));
    assert(spec_u32_to_le_bytes(spec_u32_from_le_bytes(s.subrange(8, 12))) == s.subrange(8, 12));
    assert(spec_u32_to_le_bytes(spec_u32_from_le_bytes(s.subrange(12, 16))) == s.subrange(12, 16));
    assert(kp_bytes(kp_of_bytes(s)) =~= s);
}

/// Only encodings decode, keypoint form: the encoding is canonical.
pub proof fn lemma_keypoints_canonical(b: Seq<u8>, kps: Seq<KeyPointData>)
    requires
        decode_keypoints_spec(b) == Some(kps),
    ensures
        encode_keypoints_spec(kps) == b,
{
    lemma_auto_spec_u64_to_from_le_bytes();
    let n = spec_u64_from_le_bytes(b.subrange(0, 8));
    assert(kps.len() == n);
    assert(spec_u64_to_le_bytes(kps.len() as u64) == b.subrange(0, 8));
    lemma_payload_len(kps);
    let body = keypoints_payload(kps);
    assert forall|m: int| 0 <= m < body.len() implies body[m] == b[8 + m] by {
        let i = m / 16;
        let j = m % 16;
        assert(m == 16 * i + j && 0 <= j < 16 && 0 <= i < kps.len()) by (nonlinear_arith)
            requires
                0 <= m < 16 * kps.len(),
                i == m / 16,
                j == m % 16,
        ;
        lemma_payload_chunk(kps, i);
        let chunk = b.subrange(8 + 16 * i, 24 + 16 * i);
        lemma_kp_bytes_of(chunk);
        assert(kps[i] == kp_of_bytes(chunk));
        assert(body.subrange(16 * i, 16 * i + 16) == chunk);
        assert(body[16 * i + j] == body.subrange(16 * i, 16 * i + 16)[j]);
        assert(chunk[j] == b[8 + 16 * i + j]);
    }
    assert(encode_keypoints_spec(kps) =~= b);
}

fn read_u32_at(b: &Vec<u8>, off: usize) -> (r: u32)
    requires
        off + 4 <= b@.len(),
    ensures
        r == spec_u32_from_le_bytes(b@.subrange(off as int, off as int + 4)),
{
    let sl = b.as_slice();
    let len: usize = sl.len();
    proof {
        assert(b@.len() == len);
    }
    u32_from_le_bytes(slice_subrange(sl, off, off + 4))
}

/// Encode a descriptor byte sequence: count, then the bytes.
pub fn encode_bytes(d: &Vec<u8>) -> (r: Vec<u8>)
    ensures
        r@ == encode_bytes_spec(d@),
{
    let mut out: Vec<u8> = u64_to_le_bytes(d.len() as u64);
    let mut i: usize = 0;
    while i < d.len()
        invariant
            i <= d@.len(),
            out@ == spec_u64_to_le_bytes(d@.len() as u64) + d@.take(i as int),
        decreases d@.len() - i,
    {
        let x = d[i];
        out.push(x);
        proof {
            assert(d@.take(i + 1) =~= d@.take(i as int).push(d@[i as int]));
            assert(out@ =~= spec_u64_to_le_bytes(d@.len() as u64) + d@.take(i + 1));
        }
        i = i + 1;
    }
    proof {
        assert(d@.take(d@.len() as int) =~= d@);
    }
    out
}

/// Encode a keypoint sequence: count, then sixteen bytes per keypoint.
pub fn encode_keypoints(kps: &Vec<KeyPointData>) -> (r: Vec<u8>)
    ensures
        r@ == encode_keypoints_spec(kps@),
{
    let mut out: Vec<u8> = u64_to_le_bytes(kps.len() as u64);
    let mut i: usize = 0;
    while i < kps.len()
        invariant
            i <= kps@.len(),
            out@ == spec_u64_to_le_bytes(kps@.len() as u64) + keypoints_payload(
                kps@.take(i as int),
            ),
        decreases kps@.len() - i,
    {
        let k = kps[i];
        let mut bx = u32_to_le_bytes(k.x_bits);
        out.append(&mut bx);
        let mut by = u32_to_le_bytes(k.y_bits);
        out.append(&mut by);
        let mut bs = u32_to_le_bytes(k.size_bits);
        out.append(&mut bs);
        let mut ba = u32_to_le_bytes(k.angle_bits);
        out.append(&mut ba);
        proof {
            assert(kps@.take(i + 1).drop_last() =~= kps@.take(i as int));
            assert(kps@.take(i + 1).last() == kps@[i as int]);
            assert(out@ =~= spec_u64_to_le_bytes(kps@.len() as u64) + keypoints_payload(
                kps@.take(i + 1),
            ));
        }
        i = i + 1;
    }
    proof {
        assert(kps@.take(kps@.len() as int) =~= kps@);
    }
    out
}

/// Decode a descriptor payload; rejects everything but a well-formed
/// encoding with `DecodeError`.
pub fn decode_bytes(b: &Vec<u8>) -> (r: Result<Vec<u8>, StoreError>)
    ensures
        match r {
            Ok(d) => decode_bytes_spec(b@) == Some(d@),
            Err(e) => e == StoreError::DecodeError && decode_bytes_spec(b@) is None,
        },
{
    if b.len() < 8 {
        return Err(StoreError::DecodeError);
    }
    let n = u64_from_le_bytes(slice_subrange(b.as_slice(), 0, 8));
    let rem: usize = b.len() - 8;
    if n != rem as u64 {
        return Err(StoreError::DecodeError);
    }
    let mut out: Vec<u8> = Vec::new();
    let mut i: usize = 0;
    while i < rem
        invariant
            i <= rem,
            rem + 8 == b@.len(),
            rem + 8 <= usize::MAX,
            out@ == b@.subrange(8, 8 + i as int),
        decreases rem - i,
    {
        let x = b[8 + i];
        out.push(x);
        proof {
            assert(b@.subrange(8, 8 + (i + 1)) =~= b@.subrange(8, 8 + i as int).push(
                b@[8 + i as int],
            ));
        }
        i = i + 1;
    }
    proof {
        assert(out@ =~= b@.subrange(8, b@.len() as int));
    }
    Ok(out)
}

/// Decode a keypoint payload; rejects everything but a well-formed
/// encoding with `DecodeError`.
pub fn decode_keypoints(b: &Vec<u8>) -> (r: Result<Vec<KeyPointData>, StoreError>)
    ensures
        match r {
            Ok(kps) => decode_keypoints_spec(b@) == Some(kps@),
            Err(e) => e == StoreError::DecodeError && decode_keypoints_spec(b@) is None,
        },
{
    if b.len() < 8 {
        return Err(StoreError::DecodeError);
    }
    let n = u64_from_le_bytes(slice_subrange(b.as_slice(), 0, 8));
    let rem: usize = b.len() - 8;
    if rem as u64 % 16 != 0 || n != rem as u64 / 16 {
        proof {
            assert(rem as int == 16 * (rem as int / 16) + rem as int % 16);
        }
        return Err(StoreError::DecodeError);
    }
    let count: usize = rem / 16;
    proof {
        assert(rem as int == 16 * (rem as int / 16) + rem as int % 16);
        assert(16 * n == b@.len() - 8);
    }
    let mut out: Vec<KeyPointData> = Vec::new();
    let mut i: usize = 0;
    while i < count
        invariant
            i <= count,
            16 * count + 8 == b@.len(),
            16 * count + 8 <= usize::MAX,
            out@.len() == i,
            forall|j: int|
                0 <= j < i ==> out@[j] == kp_of_bytes(b@.subrange(8 + 16 * j, 24 + 16 * j)),
        decreases count - i,
    {
        let off: usize = 8 + 16 * i;
        let x = read_u32_at(b, off);
        let y = read_u32_at(b, off + 4);
        let s = read_u32_at(b, off + 8);
        let a = read_u32_at(b, off + 12);
        proof {
            let chunk = b@.subrange(8 + 16 * (i as int), 24 + 16 * (i as int));
            assert(chunk.subrange(0, 4) =~= b@.subrange(off as int, off as int + 4));
            assert(chunk.subrange(4, 8) =~= b@.subrange(off as int + 4, off as int + 8));
            assert(chunk.subrange(8, 12) =~= b@.subrange(off as int + 8, off as int + 12));
            assert(chunk.subrange(12, 16) =~= b@.subrange(off as int + 12, off as int + 16));
        }
        out.push(KeyPointData { x_bits: x, y_bits: y, size_bits: s, angle_bits: a });
        i = i + 1;
    }
    proof {
        assert(out@ =~= Seq::new(
            spec_u64_from_le_bytes(b@.subrange(0, 8)) as nat,
            |j: int| kp_of_bytes(b@.subrange(8 + 16 * j, 24 + 16 * j)),
        ));
    }
    Ok(out)
}

} // verus!
