//! Identifiers of monitoring sessions, benchmarks and anomalies, built from
//! the ledger time (and sequence) in big-endian byte order.
use vstd::prelude::*;

verus! {

/// Byte `i` (0 = most significant) of the big-endian form of `x`.
pub open spec fn be_byte(x: u64, i: int) -> u8 {
    ((x >> ((7 - i) * 8) as u64) & 0xff) as u8
}

/// Byte `i` (0 = most significant) of the big-endian form of `x`.
pub open spec fn be_byte32(x: u32, i: int) -> u8 {
    ((x >> ((3 - i) * 8) as u32) & 0xff) as u8
}

/// Writes the big-endian bytes of `x` at `at..at + 8`.
pub fn put_u64_be(data: &mut [u8; 32], at: usize, x: u64)
    requires
        at + 8 <= 32,
    ensures
        forall|j: int|
            0 <= j < 32 ==> #[trigger] final(data)@[j] == (if at <= j < at + 8 {
                be_byte(x, j - at)
            } else {
                old(data)@[j]
            }),
{
    let mut k: usize = 0;
    while k < 8
        invariant
            k <= 8,
            at + 8 <= 32,
            forall|j: int|
                0 <= j < 32 ==> #[trigger] data@[j] == (if at <= j < at + k {
                    be_byte(x, j - at)
                } else {
                    old(data)@[j]
                }),
        decreases 8 - k,
    {
        let shift: u64 = ((7 - k) * 8) as u64;
        let b: u8 = ((x >> shift) & 0xff) as u8;
        data[at + k] = b;
        k += 1;
    }
}

/// Writes the big-endian bytes of `x` at `at..at + 4`.
pub fn put_u32_be(data: &mut [u8; 32], at: usize, x: u32)
    requires
        at + 4 <= 32,
    ensures
        forall|j: int|
            0 <= j < 32 ==> #[trigger] final(data)@[j] == (if at <= j < at + 4 {
                be_byte32(x, j - at)
            } else {
                old(data)@[j]
            }),
{
    let mut k: usize = 0;
    while k < 4
        invariant
            k <= 4,
            at + 4 <= 32,
            forall|j: int|
                0 <= j < 32 ==> #[trigger] data@[j] == (if at <= j < at + k {
                    be_byte32(x, j - at)
                } else {
                    old(data)@[j]
                }),
        decreases 4 - k,
    {
        let shift: u32 = ((3 - k) * 8) as u32;
        let b: u8 = ((x >> shift) & 0xff) as u8;
        data[at + k] = b;
        k += 1;
    }
}

/// Identifier of a monitoring session: the ledger time's bytes, then the
/// ledger sequence's bytes, then zeros.
pub open spec fn monitoring_id_spec(now: u64, sequence: u32, j: int) -> u8 {
    if 0 <= j < 8 {
        be_byte(now, j)
    } else if 8 <= j < 12 {
        be_byte32(sequence, j - 8)
    } else {
        0
    }
}

/// Builds a monitoring session's identifier.
pub fn monitoring_id(now: u64, sequence: u32) -> (r: [u8; 32])
    ensures
        forall|j: int| 0 <= j < 32 ==> #[trigger] r@[j] == monitoring_id_spec(now, sequence, j),
{
    let mut data: [u8; 32] = [0u8; 32];
    put_u64_be(&mut data, 0, now);
    put_u32_be(&mut data, 8, sequence);
    data
}

/// Identifier of a benchmark: the ledger time's bytes, then the marker 0xBE,
/// then zeros.
pub open spec fn benchmark_id_spec(now: u64, j: int) -> u8 {
    if 0 <= j < 8 {
        be_byte(now, j)
    } else if j == 8 {
        0xBE
    } else {
        0
    }
}

/// Builds a benchmark's identifier.
pub fn benchmark_id(now: u64) -> (r: [u8; 32])
    ensures
        forall|j: int| 0 <= j < 32 ==> #[trigger] r@[j] == benchmark_id_spec(now, j),
{
    let mut data: [u8; 32] = [0u8; 32];
    put_u64_be(&mut data, 0, now);
    data[8] = 0xBE;
    data
}

/// Identifier of an anomaly: the marker 0xAF, then the ledger time's bytes,
/// then zeros.
pub open spec fn anomaly_id_spec(now: u64, j: int) -> u8 {
    if j == 0 {
        0xAF
    } else if 1 <= j < 9 {
        be_byte(now, j - 1)
    } else {
        0
    }
}

/// Builds an anomaly's identifier.
pub fn anomaly_id(now: u64) -> (r: [u8; 32])
    ensures
        forall|j: int| 0 <= j < 32 ==> #[trigger] r@[j] == anomaly_id_spec(now, j),
{
    let mut data: [u8; 32] = [0u8; 32];
    put_u64_be(&mut data, 1, now);
    data[0] = 0xAF;
    data
}

/// Identifier of a recommendation: the marker 0x4F, then the ledger time's
/// bytes, then zeros.
pub open spec fn recommendation_id_spec(now: u64, j: int) -> u8 {
    if j == 0 {
        0x4F
    } else if 1 <= j < 9 {
        be_byte(now, j - 1)
    } else {
        0
    }
}

/// Builds a recommendation's identifier.
pub fn recommendation_id(now: u64) -> (r: [u8; 32])
    ensures
        forall|j: int| 0 <= j < 32 ==> #[trigger] r@[j] == recommendation_id_spec(now, j),
{
    let mut data: [u8; 32] = [0u8; 32];
    put_u64_be(&mut data, 1, now);
    data[0] = 0x4F;
    data
}

/// Identifier of a resource analysis: the marker 0x52, then the ledger time's
/// bytes, then zeros.
pub open spec fn resource_id_spec(now: u64, j: int) -> u8 {
    if j == 0 {
        0x52
    } else if 1 <= j < 9 {
        be_byte(now, j - 1)
    } else {
        0
    }
}

/// Builds a resource analysis's identifier.
pub fn resource_id(now: u64) -> (r: [u8; 32])
    ensures
        forall|j: int| 0 <= j < 32 ==> #[trigger] r@[j] == resource_id_spec(now, j),
{
    let mut data: [u8; 32] = [0u8; 32];
    put_u64_be(&mut data, 1, now);
    data[0] = 0x52;
    data
}

/// Identifier made of a marker byte, then the ledger time's bytes, then zeros.
pub open spec fn marked_id_spec(marker: u8, now: u64, j: int) -> u8 {
    if j == 0 {
        marker
    } else if 1 <= j < 9 {
        be_byte(now, j - 1)
    } else {
        0
    }
}

/// Builds an identifier from a marker byte and the ledger time.
pub fn marked_id(marker: u8, now: u64) -> (r: [u8; 32])
    ensures
        forall|j: int| 0 <= j < 32 ==> #[trigger] r@[j] == marked_id_spec(marker, now, j),
{
    let mut data: [u8; 32] = [0u8; 32];
    put_u64_be(&mut data, 1, now);
    data[0] = marker;
    data
}

} // verus!
