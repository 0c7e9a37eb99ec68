//! The binary layout contract shared with the device program.
//!
//! A body crosses the host/device boundary as a 32-byte record: position at
//! offset 0, velocity at offset 8, mass at offset 16, then 12 bytes of
//! padding, each component one little-endian 32-bit lane in the device's
//! number format. Parameters are a 16-byte record: dt at 0, softening at 4,
//! gravitational constant at 8, 4 bytes of padding. These offsets are a
//! compatibility contract, not an implementation detail; the lemmas below
//! pin them and prove the encoding invertible.
use vstd::prelude::*;

verus! {

/// Bytes per body record on the wire.
pub const BODY_STRIDE: usize = 32;

/// Bytes per parameter record on the wire.
pub const PARAMS_BYTES: usize = 16;

/// Wire-format body record: one 32-bit lane per component, holding the bit
/// pattern of the device's number format.
#[derive(Clone, Copy, Debug, PartialEq)]
pub struct BodyRecord {
    pub position: [u32; 2],
    pub velocity: [u32; 2],
    pub mass: u32,
}

/// Wire-format parameter record.
#[derive(Clone, Copy, Debug, PartialEq)]
pub struct ParamsRecord {
    pub dt: u32,
    pub epsilon: u32,
    pub g_constant: u32,
}

/// The four little-endian bytes of one 32-bit lane.
pub open spec fn word_bytes_s(v: u32) -> Seq<u8> {
    seq![
        (v % 256) as u8,
        ((v / 256) % 256) as u8,
        ((v / 65536) % 256) as u8,
        (v / 16777216) as u8,
    ]
}

/// The 32-bit lane read from four little-endian bytes.
pub open spec fn word_of_s(b0: u8, b1: u8, b2: u8, b3: u8) -> u32 {
    (b0 + b1 * 256 + b2 * 65536 + b3 * 16777216) as u32
}

/// The 32 bytes of one body record.
pub open spec fn body_bytes_s(r: BodyRecord) -> Seq<u8> {
    word_bytes_s(r.position[0]) + word_bytes_s(r.position[1]) + word_bytes_s(r.velocity[0])
        + word_bytes_s(r.velocity[1]) + word_bytes_s(r.mass) + Seq::new(12, |i: int| 0u8)
}

/// The 16 bytes of one parameter record.
pub open spec fn params_bytes_s(r: ParamsRecord) -> Seq<u8> {
    word_bytes_s(r.dt) + word_bytes_s(r.epsilon) + word_bytes_s(r.g_constant) + Seq::new(
        4,
        |i: int| 0u8,
    )
}

/// Reading back the four bytes of a lane restores the lane.
pub proof fn lemma_word_roundtrip(v: u32)
    ensures
        word_of_s(
            (v % 256) as u8,
            ((v / 256) % 256) as u8,
            ((v / 65536) % 256) as u8,
            (v / 16777216) as u8,
        ) == v,
{
    assert(v % 256 + ((v / 256) % 256) * 256 + ((v / 65536) % 256) * 65536 + (v / 16777216)
        * 16777216 == v) by (bit_vector);
}

/// The layout self-check: a body record is 32 bytes; its components stand
/// at offsets 0, 4, 8, 12 and 16, and the 12 trailing bytes are zero.
pub proof fn lemma_body_layout(r: BodyRecord)
    ensures
        body_bytes_s(r).len() == 32,
        word_of_s(body_bytes_s(r)[0], body_bytes_s(r)[1], body_bytes_s(r)[2], body_bytes_s(r)[3])
            == r.position[0],
        word_of_s(body_bytes_s(r)[4], body_bytes_s(r)[5], body_bytes_s(r)[6], body_bytes_s(r)[7])
            == r.position[1],
        word_of_s(
            body_bytes_s(r)[8],
            body_bytes_s(r)[9],
            body_bytes_s(r)[10],
            body_bytes_s(r)[11],
        ) == r.velocity[0],
        word_of_s(
            body_bytes_s(r)[12],
            body_bytes_s(r)[13],
            body_bytes_s(r)[14],
            body_bytes_s(r)[15],
        ) == r.velocity[1],
        word_of_s(
            body_bytes_s(r)[16],
            body_bytes_s(r)[17],
            body_bytes_s(r)[18],
            body_bytes_s(r)[19],
        ) == r.mass,
        forall|k: int| 20 <= k < 32 ==> body_bytes_s(r)[k] == 0,
{
    lemma_word_roundtrip(r.position[0]);
    lemma_word_roundtrip(r.position[1]);
    lemma_word_roundtrip(r.velocity[0]);
    lemma_word_roundtrip(r.velocity[1]);
    lemma_word_roundtrip(r.mass);
}

/// The layout self-check for parameters: 16 bytes, components at offsets
/// 0, 4 and 8, padding zero.
pub proof fn lemma_params_layout(r: ParamsRecord)
    ensures
        params_bytes_s(r).len() == 16,
        word_of_s(
            params_bytes_s(r)[0],
            params_bytes_s(r)[1],
            params_bytes_s(r)[2],
            params_bytes_s(r)[3],
        ) == r.dt,
        word_of_s(
            params_bytes_s(r)[4],
            params_bytes_s(r)[5],
            params_bytes_s(r)[6],
            params_bytes_s(r)[7],
        ) == r.epsilon,
        word_of_s(
            params_bytes_s(r)[8],
            params_bytes_s(r)[9],
            params_bytes_s(r)[10],
            params_bytes_s(r)[11],
        ) == r.g_constant,
        forall|k: int| 12 <= k < 16 ==> params_bytes_s(r)[k] == 0,
{
    lemma_word_roundtrip(r.dt);
    lemma_word_roundtrip(r.epsilon);
    lemma_word_roundtrip(r.g_constant);
}

/// Append the four little-endian bytes of one lane.
pub fn push_word(out: &mut Vec<u8>, v: u32)
    ensures
        final(out)@ == old(out)@ + word_bytes_s(v),
{
    out.push((v % 256) as u8);
    out.push(((v / 256) % 256) as u8);
    out.push(((v / 65536) % 256) as u8);
    out.push((v / 16777216) as u8);
    proof {
        assert(out@ =~= old(out)@ + word_bytes_s(v));
    }
}

/// Read one lane from four little-endian bytes.
pub fn read_word(bytes: &Vec<u8>, off: usize) -> (v: u32)
    requires
        off + 4 <= bytes@.len(),
    ensures
        v == word_of_s(bytes@[off as int], bytes@[off + 1], bytes@[off + 2], bytes@[off + 3]),
{
    let blen = bytes.len();
    proof {
        assert(off + 4 <= blen);
    }
    (bytes[off] as u32) + (bytes[off + 1] as u32) * 256 + (bytes[off + 2] as u32) * 65536 + (
    bytes[off + 3] as u32) * 16777216
}

/// Encode one body record into its 32 wire bytes.
pub fn encode_body(r: &BodyRecord, out: &mut Vec<u8>)
    ensures
        final(out)@ == old(out)@ + body_bytes_s(*r),
{
    push_word(out, r.position[0]);
    push_word(out, r.position[1]);
    push_word(out, r.velocity[0]);
    push_word(out, r.velocity[1]);
    push_word(out, r.mass);
    let mut k: usize = 0;
    while k < 12
        invariant
            k <= 12,
            out@ =~= old(out)@ + word_bytes_s(r.position[0]) + word_bytes_s(r.position[1])
                + word_bytes_s(r.velocity[0]) + word_bytes_s(r.velocity[1]) + word_bytes_s(r.mass)
                + Seq::new(k as nat, |i: int| 0u8),
        decreases 12 - k,
    {
        out.push(0);
        proof {
            assert(Seq::new((k + 1) as nat, |i: int| 0u8) =~= Seq::new(k as nat, |i: int| 0u8)
                + seq![0u8]);
        }
        k = k + 1;
    }
    proof {
        assert(out@ =~= old(out)@ + body_bytes_s(*r));
    }
}

/// Encode a whole generation: 32 bytes per body, in index order.
pub fn encode_bodies(rs: &Vec<BodyRecord>) -> (out: Vec<u8>)
    requires
        rs@.len() * 32 <= usize::MAX,
    ensures
        out@.len() == rs@.len() * 32,
        forall|i: int|
            0 <= i < rs@.len() ==> out@.subrange(32 * i, 32 * i + 32) == body_bytes_s(
                #[trigger] rs@[i],
            ),
{
    let mut out: Vec<u8> = Vec::new();
    let mut i: usize = 0;
    while i < rs.len()
        invariant
            i <= rs@.len(),
            rs@.len() * 32 <= usize::MAX,
            out@.len() == i * 32,
            forall|k: int|
                0 <= k < i ==> out@.subrange(32 * k, 32 * k + 32) == body_bytes_s(
                    #[trigger] rs@[k],
                ),
        decreases rs@.len() - i,
    {
        let ghost prev = out@;
        let r = rs[i];
        encode_body(&r, &mut out);
        proof {
            assert(body_bytes_s(r).len() == 32);
            assert forall|k: int| 0 <= k < i + 1 implies out@.subrange(32 * k, 32 * k + 32)
                == body_bytes_s(#[trigger] rs@[k]) by {
                if k < i {
                    assert(out@.subrange(32 * k, 32 * k + 32) =~= prev.subrange(
                        32 * k,
                        32 * k + 32,
                    ));
                } else {
                    assert(out@.subrange(32 * k, 32 * k + 32) =~= body_bytes_s(rs@[k]));
                }
            }
        }
        i = i + 1;
    }
    out
}

/// Decode one body record from its 32 wire bytes at `off`.
pub fn decode_body(bytes: &Vec<u8>, off: usize) -> (r: BodyRecord)
    requires
        off + 32 <= bytes@.len(),
    ensures
        r.position[0] == word_of_s(
            bytes@[off as int],
            bytes@[off + 1],
            bytes@[off + 2],
            bytes@[off + 3],
        ),
        r.position[1] == word_of_s(
            bytes@[off + 4],
            bytes@[off + 5],
            bytes@[off + 6],
            bytes@[off + 7],
        ),
        r.velocity[0] == word_of_s(
            bytes@[off + 8],
            bytes@[off + 9],
            bytes@[off + 10],
            bytes@[off + 11],
        ),
        r.velocity[1] == word_of_s(
            bytes@[off + 12],
            bytes@[off + 13],
            bytes@[off + 14],
            bytes@[off + 15],
        ),
        r.mass == word_of_s(
            bytes@[off + 16],
            bytes@[off + 17],
            bytes@[off + 18],
            bytes@[off + 19],
        ),
{
    let blen = bytes.len();
    proof {
        assert(off + 32 <= blen);
    }
    BodyRecord {
        position: [read_word(bytes, off), read_word(bytes, off + 4)],
        velocity: [read_word(bytes, off + 8), read_word(bytes, off + 12)],
        mass: read_word(bytes, off + 16),
    }
}

/// Decode a whole generation of `n` body records.
pub fn decode_bodies(bytes: &Vec<u8>, n: usize) -> (rs: Vec<BodyRecord>)
    requires
        n * 32 <= bytes@.len(),
    ensures
        rs@.len() == n,
        forall|i: int|
            0 <= i < n ==> {
                let base = 32 * i;
                &&& (#[trigger] rs@[i]).position[0] == word_of_s(
                    bytes@[base],
                    bytes@[base + 1],
                    bytes@[base + 2],
                    bytes@[base + 3],
                )
                &&& rs@[i].position[1] == word_of_s(
                    bytes@[base + 4],
                    bytes@[base + 5],
                    bytes@[base + 6],
                    bytes@[base + 7],
                )
                &&& rs@[i].velocity[0] == word_of_s(
                    bytes@[base + 8],
                    bytes@[base + 9],
                    bytes@[base + 10],
                    bytes@[base + 11],
                )
                &&& rs@[i].velocity[1] == word_of_s(
                    bytes@[base + 12],
                    bytes@[base + 13],
                    bytes@[base + 14],
                    bytes@[base + 15],
                )
                &&& rs@[i].mass == word_of_s(
                    bytes@[base + 16],
                    bytes@[base + 17],
                    bytes@[base + 18],
                    bytes@[base + 19],
                )
            },
{
    let mut rs: Vec<BodyRecord> = Vec::new();
    let mut i: usize = 0;
    while i < n
        invariant
            i <= n,
            n * 32 <= bytes@.len(),
            rs@.len() == i,
            forall|k: int|
                0 <= k < i ==> {
                    let base = 32 * k;
                    &&& (#[trigger] rs@[k]).position[0] == word_of_s(
                        bytes@[base],
                        bytes@[base + 1],
                        bytes@[base + 2],
                        bytes@[base + 3],
                    )
                    &&& rs@[k].position[1] == word_of_s(
                        bytes@[base + 4],
                        bytes@[base + 5],
                        bytes@[base + 6],
                        bytes@[base + 7],
                    )
                    &&& rs@[k].velocity[0] == word_of_s(
                        bytes@[base + 8],
                        bytes@[base + 9],
                        bytes@[base + 10],
                        bytes@[base + 11],
                    )
                    &&& rs@[k].velocity[1] == word_of_s(
                        bytes@[base + 12],
                        bytes@[base + 13],
                        bytes@[base + 14],
                        bytes@[base + 15],
                    )
                    &&& rs@[k].mass == word_of_s(
                        bytes@[base + 16],
                        bytes@[base + 17],
                        bytes@[base + 18],
                        bytes@[base + 19],
                    )
                },
        decreases n - i,
    {
        let blen = bytes.len();
        proof {
            assert((i + 1) * 32 <= n * 32) by (nonlinear_arith)
                requires
                    i < n,
            ;
            assert(i * 32 + 32 <= blen);
            assert(32 * (i as int) == (i as int) * 32);
        }
        let r = decode_body(bytes, i * 32);
        rs.push(r);
        i = i + 1;
    }
    rs
}

/// Encode one parameter record into its 16 wire bytes.
pub fn encode_params(r: &ParamsRecord) -> (out: Vec<u8>)
    ensures
        out@ == params_bytes_s(*r),
        out@.len() == 16,
{
    let mut out: Vec<u8> = Vec::new();
    push_word(&mut out, r.dt);
    push_word(&mut out, r.epsilon);
    push_word(&mut out, r.g_constant);
    out.push(0);
    out.push(0);
    out.push(0);
    out.push(0);
    proof {
        assert(out@ =~= params_bytes_s(*r));
    }
    out
}

/// Encode the body-count uniform as one little-endian lane.
pub fn encode_count(n: u32) -> (out: Vec<u8>)
    ensures
        out@ == word_bytes_s(n),
        out@.len() == 4,
{
    let mut out: Vec<u8> = Vec::new();
    push_word(&mut out, n);
    proof {
        assert(out@ =~= word_bytes_s(n));
    }
    out
}

} // verus!
