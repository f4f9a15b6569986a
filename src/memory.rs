//! Memory amounts, normalised from bytes to gibibytes.

use vstd::prelude::*;

verus! {

/// Bytes in one gibibyte (1024 * 1024 * 1024).
pub const GIB: u64 = 1073741824;

/// An amount of memory in gibibytes, held exactly: a whole number of
/// gibibytes and the bytes that are left over.
#[derive(Clone, Copy, Debug, PartialEq, Eq, Structural)]
pub struct Gibibytes {
    pub whole: u64,
    pub rem_bytes: u64,
}

/// The exact gibibyte amount of a byte count.
pub open spec fn gib_of(bytes: u64) -> Gibibytes {
    Gibibytes { whole: (bytes / GIB) as u64, rem_bytes: (bytes % GIB) as u64 }
}

impl Gibibytes {
    /// The remainder is below one gibibyte and the amount fits in 64-bit bytes.
    pub open spec fn wf(self) -> bool {
        &&& self.rem_bytes < GIB
        &&& self.bytes() <= u64::MAX
    }

    /// The number of bytes this amount stands for.
    pub open spec fn bytes(self) -> int {
        self.whole * GIB + self.rem_bytes
    }

    /// A number that orders amounts as `le` does, whether or not they are in
    /// normal form: the whole part weighs more than any remainder.
    pub open spec fn order_key(self) -> int {
        self.whole * 0x1_0000_0000_0000_0000int + self.rem_bytes
    }

    /// Orders two amounts by size.
    pub open spec fn le(self, other: Gibibytes) -> bool {
        self.whole < other.whole || (self.whole == other.whole && self.rem_bytes <= other.rem_bytes)
    }

    /// The byte count back, `whole * 2^30 + rem_bytes`.
    pub fn to_bytes(&self) -> (r: u64)
        requires
            self.wf(),
        ensures
            r == self.bytes(),
    {
        self.whole * GIB + self.rem_bytes
    }

    /// Whether this amount is at least as large as `other`.
    pub fn at_least(&self, other: &Gibibytes) -> (r: bool)
        ensures
            r == other.le(*self),
            r == (other.order_key() <= self.order_key()),
    {
        proof {
            lemma_le_iff_order_key(*other, *self);
        }
        other.whole < self.whole || (other.whole == self.whole && other.rem_bytes <= self.rem_bytes)
    }
}

/// `le` is the order of `order_key`.
pub proof fn lemma_le_iff_order_key(a: Gibibytes, b: Gibibytes)
    ensures
        a.le(b) <==> a.order_key() <= b.order_key(),
{
    let w: int = 0x1_0000_0000_0000_0000int;
    if a.whole < b.whole {
        assert(a.whole * w + w <= b.whole * w) by (nonlinear_arith)
            requires a.whole < b.whole, w > 0;
    } else if a.whole > b.whole {
        assert(b.whole * w + w <= a.whole * w) by (nonlinear_arith)
            requires b.whole < a.whole, w > 0;
    }
}

/// Amounts in normal form order by `order_key` as by their byte counts.
pub proof fn lemma_order_key_iff_bytes(a: Gibibytes, b: Gibibytes)
    requires
        a.wf(),
        b.wf(),
    ensures
        a.order_key() <= b.order_key() <==> a.bytes() <= b.bytes(),
        a.order_key() == b.order_key() <==> a.bytes() == b.bytes(),
{
    lemma_le_iff_order_key(a, b);
    lemma_le_iff_order_key(b, a);
    lemma_le_iff_bytes(a, b);
    lemma_le_iff_bytes(b, a);
}

/// Amounts in normal form compare as their byte counts do.
pub proof fn lemma_le_iff_bytes(a: Gibibytes, b: Gibibytes)
    requires
        a.wf(),
        b.wf(),
    ensures
        a.le(b) <==> a.bytes() <= b.bytes(),
{
    if a.whole < b.whole {
        assert(a.whole * GIB + GIB <= b.whole * GIB) by (nonlinear_arith)
            requires a.whole < b.whole;
    } else if a.whole > b.whole {
        assert(b.whole * GIB + GIB <= a.whole * GIB) by (nonlinear_arith)
            requires b.whole < a.whole;
    }
}

/// The conversion of a byte count is exact (it stands for `bytes / 2^30` with
/// no rounding) and preserves order: more bytes never give fewer gibibytes.
pub proof fn lemma_format_memory_exact_monotonic(a: u64, b: u64)
    ensures
        gib_of(a).wf(),
        gib_of(a).bytes() == a,
        a <= b ==> gib_of(a).le(gib_of(b)),
{
    assert(gib_of(a).bytes() == a) by (nonlinear_arith);
    assert(gib_of(b).bytes() == b) by (nonlinear_arith);
    lemma_le_iff_bytes(gib_of(a), gib_of(b));
}

/// Memory and swap of the host, in gibibytes.
#[derive(Clone, Copy, Debug, PartialEq, Eq, Structural)]
pub struct MemoryData {
    pub total_memory: Gibibytes,
    pub total_swap: Gibibytes,
    pub used_memory: Gibibytes,
    pub used_swap: Gibibytes,
}

impl MemoryData {
    /// Builds the sample from the four byte counts the host reports.
    pub fn new(total_memory: u64, total_swap: u64, used_memory: u64, used_swap: u64) -> (r:
        MemoryData)
        ensures
            r.total_memory == gib_of(total_memory),
            r.total_swap == gib_of(total_swap),
            r.used_memory == gib_of(used_memory),
            r.used_swap == gib_of(used_swap),
    {
        MemoryData {
            total_memory: MemoryData::format_memory(total_memory),
            total_swap: MemoryData::format_memory(total_swap),
            used_memory: MemoryData::format_memory(used_memory),
            used_swap: MemoryData::format_memory(used_swap),
        }
    }

    /// Converts a byte count to gibibytes (divides by 1024^3), exactly.
    pub fn format_memory(bytes: u64) -> (r: Gibibytes)
        ensures
            r == gib_of(bytes),
            r.wf(),
            r.bytes() == bytes,
    {
        proof {
            lemma_format_memory_exact_monotonic(bytes, bytes);
        }
        Gibibytes { whole: bytes / GIB, rem_bytes: bytes % GIB }
    }
}

} // verus!
