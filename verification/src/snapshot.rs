//! One immutable reading of machine state: host name, per-core CPU
//! utilization, and memory usage.
//!
//! Utilization is carried in hundredths of a percent (`0` to `10000`), and
//! memory is converted for display into hundredths of a gibibyte; both avoid
//! rounding surprises by always rounding down, which keeps `used <= total`
//! true through the unit conversion.

use vstd::prelude::*;

verus! {

/// Bytes in one gibibyte.
pub const BYTES_PER_GIB: u64 = 0x40000000;

/// Full utilization of one core, in hundredths of a percent.
pub const MAX_CENTI_PERCENT: u32 = 10000;

/// A byte count in hundredths of a gibibyte, rounded down.
pub open spec fn spec_centi_gib(bytes: nat) -> nat {
    bytes * 100 / 0x40000000
}

/// Converts a byte count to hundredths of a gibibyte, rounding down.
pub fn to_centi_gib(bytes: u64) -> (c: u64)
    ensures
        c == spec_centi_gib(bytes as nat),
{
    proof {
        assert(bytes as int * 100 < 0x20000000000 * 0x40000000) by (nonlinear_arith)
            requires
                (bytes as int) < 0x10000000000000000,
        ;
        vstd::arithmetic::div_mod::lemma_multiply_divide_lt(
            bytes as int * 100,
            0x40000000,
            0x20000000000,
        );
        vstd::arithmetic::div_mod::lemma_div_pos_is_pos(bytes as int * 100, 0x40000000);
        vstd::arithmetic::mul::lemma_mul_nonnegative(bytes as int, 100);
    }
    let wide: u128 = (bytes as u128) * 100 / 0x40000000;
    wide as u64
}

/// Law: converting to display units keeps order. If `a <= b` in bytes, then
/// `a` is at most `b` in hundredths of a gibibyte too; rounding down can
/// never make a smaller byte count display as the larger value.
pub proof fn lemma_centi_gib_monotone(a: nat, b: nat)
    requires
        a <= b,
    ensures
        spec_centi_gib(a) <= spec_centi_gib(b),
{
    vstd::arithmetic::mul::lemma_mul_inequality(a as int, b as int, 100);
    vstd::arithmetic::div_mod::lemma_div_is_ordered(a as int * 100, b as int * 100, 0x40000000);
}

/// One immutable reading of machine state at a sampling instant. Replaced
/// wholesale on every refresh, never mutated in place.
pub struct Snapshot {
    /// Host name, set once at startup.
    pub host: String,
    /// Per-core utilization in hundredths of a percent, in stable core order.
    pub cpus: Vec<u32>,
    /// Total memory in bytes.
    pub total_memory: u64,
    /// Used memory in bytes.
    pub used_memory: u64,
}

impl Snapshot {
    /// Invariant: used memory never exceeds total memory, and every per-core
    /// utilization is a percentage between 0 and 100.
    pub open spec fn wf(self) -> bool {
        &&& self.used_memory <= self.total_memory
        &&& forall|i: int| 0 <= i < self.cpus.len() ==> #[trigger] self.cpus[i] <= 10000
    }

    /// Number of cores in this reading.
    pub open spec fn core_count(self) -> nat {
        self.cpus.len() as nat
    }

    /// Builds a snapshot from raw readings, clamping out-of-range values
    /// into the invariant: a utilization above 100% is reported as exactly
    /// 100%, and used memory above total is reported as exactly total.
    pub fn new(host: String, cpus: Vec<u32>, total_memory: u64, used_memory: u64) -> (s: Snapshot)
        ensures
            s.wf(),
            s.host == host,
            s.cpus.len() == cpus.len(),
            forall|i: int|
                0 <= i < cpus.len() ==> #[trigger] s.cpus[i] == (if cpus[i] > 10000 {
                    10000u32
                } else {
                    cpus[i]
                }),
            s.total_memory == total_memory,
            s.used_memory == (if used_memory > total_memory {
                total_memory
            } else {
                used_memory
            }),
    {
        let mut clamped: Vec<u32> = Vec::new();
        let mut i: usize = 0;
        while i < cpus.len()
            invariant
                i <= cpus.len(),
                clamped.len() == i,
                forall|j: int|
                    0 <= j < i ==> #[trigger] clamped[j] == (if cpus[j] > 10000 {
                        10000u32
                    } else {
                        cpus[j]
                    }),
            decreases cpus.len() - i,
        {
            let c = cpus[i];
            if c > 10000 {
                clamped.push(10000);
            } else {
                clamped.push(c);
            }
            i = i + 1;
        }
        let used = if used_memory > total_memory {
            total_memory
        } else {
            used_memory
        };
        Snapshot { host, cpus: clamped, total_memory, used_memory: used }
    }

    /// The memory reading converted for display: `(used, total)` in
    /// hundredths of a gibibyte. The conversion preserves the ordering
    /// `used <= total`.
    pub fn memory_centi_gib(&self) -> (r: (u64, u64))
        requires
            self.wf(),
        ensures
            r.0 == spec_centi_gib(self.used_memory as nat),
            r.1 == spec_centi_gib(self.total_memory as nat),
            r.0 <= r.1,
    {
        let u = to_centi_gib(self.used_memory);
        let t = to_centi_gib(self.total_memory);
        proof {
            lemma_centi_gib_monotone(self.used_memory as nat, self.total_memory as nat);
        }
        (u, t)
    }
}

} // verus!
