use vstd::prelude::*;
use vstd::arithmetic::div_mod::{lemma_add_mod_noop, lemma_mul_mod_noop_left};

verus! {

/// The limit, in MiB, when `-max-memory` is not given.
pub const DEFAULT_MAX_MEMORY_MIB: u64 = 4096;

/// `2^64`, the modulus of `u64` arithmetic.
pub open spec fn u64_modulus() -> nat {
    0x1_0000_0000_0000_0000nat
}

/// The default limit in MiB: 4096, or half of the physical memory (`phys`
/// bytes) when that is lower, but at least 1 MiB.
pub open spec fn spec_default_max_memory(phys: Option<u64>) -> u64 {
    match phys {
        None => DEFAULT_MAX_MEMORY_MIB,
        Some(b) => {
            let half_mib = b as nat / 0x20_0000;
            if half_mib < 1 {
                1
            } else if half_mib > 4096 {
                4096
            } else {
                half_mib as u64
            }
        },
    }
}

/// The memory limit of a run in MiB, `None` for no limit: `-max-memory 0`
/// turns it off, another value is taken as it is, and without the flag the
/// default applies where the platform can set a limit.
pub open spec fn spec_resolve_max_memory(flag: Option<u64>, phys: Option<u64>, limit_supported: bool) -> Option<u64> {
    match flag {
        Some(m) => if m == 0 { None } else { Some(m) },
        None => if limit_supported { Some(spec_default_max_memory(phys)) } else { None },
    }
}

/// Decides the memory limit in MiB (`None`: no limit) from `-max-memory`,
/// the physical memory in bytes when it is known, and whether this platform
/// can set a limit at all.
pub fn resolve_max_memory(flag: Option<u64>, phys: Option<u64>, limit_supported: bool) -> (r: Option<u64>)
    ensures
        r == spec_resolve_max_memory(flag, phys, limit_supported),
        r matches Some(m) ==> m > 0,
        flag is None && r is Some ==> 1 <= r->0 <= DEFAULT_MAX_MEMORY_MIB,
{
    match flag {
        Some(m) => if m == 0 { None } else { Some(m) },
        None => if limit_supported {
            Some(
                match phys {
                    None => DEFAULT_MAX_MEMORY_MIB,
                    Some(b) => {
                        let half_mib = b >> 21;
                        assert(half_mib == b / 0x20_0000) by (bit_vector)
                            requires half_mib == b >> 21;
                        if half_mib < 1 {
                            1
                        } else if half_mib > DEFAULT_MAX_MEMORY_MIB {
                            DEFAULT_MAX_MEMORY_MIB
                        } else {
                            half_mib
                        }
                    },
                },
            )
        } else {
            None
        },
    }
}

/// `a * b`, or `u64::MAX` when the product does not fit.
pub open spec fn sat_mul_u64(a: nat, b: nat) -> nat {
    if a * b > u64::MAX { u64::MAX as nat } else { a * b }
}

/// `a.saturating_mul(b)`.
pub fn saturating_mul_u64(a: u64, b: u64) -> (r: u64)
    ensures
        r == sat_mul_u64(a as nat, b as nat),
{
    match a.checked_mul(b) {
        Some(p) => p,
        None => u64::MAX,
    }
}

/// The limit in bytes for `mib` MiB, capped at `u64::MAX`.
pub fn memory_limit_bytes(mib: u64) -> (r: u64)
    ensures
        r == sat_mul_u64(mib as nat, 0x10_0000),
{
    saturating_mul_u64(mib, 0x10_0000)
}

/// The page size used to turn the page count of `/proc/self/statm` into
/// bytes: what the system reports, but at least 4096.
pub fn statm_page_size(reported: i64) -> (r: u64)
    ensures
        r == (if reported < 4096 { 4096 } else { reported as int }),
{
    if reported < 4096 {
        4096
    } else {
        reported as u64
    }
}

/// The physical memory in bytes from the page count and page size that the
/// system reports, when both are positive (the product wraps as `u64`).
pub fn physical_bytes(pages: i64, page_size: i64) -> (r: Option<u64>)
    ensures
        r == (if pages > 0 && page_size > 0 {
            Some(((pages as nat * page_size as nat) % u64_modulus()) as u64)
        } else {
            None
        }),
{
    if pages > 0 && page_size > 0 {
        Some((pages as u64).wrapping_mul(page_size as u64))
    } else {
        None
    }
}

/// An ASCII decimal digit, as a byte.
pub open spec fn is_digit_byte(b: u8) -> bool {
    0x30 <= b <= 0x39
}

/// The number that ASCII digit bytes spell, most significant first.
pub open spec fn byte_decimal_value(s: Seq<u8>) -> nat
    decreases s.len(),
{
    if s.len() == 0 {
        0
    } else {
        byte_decimal_value(s.drop_last()) * 10 + (s.last() - 0x30) as nat
    }
}

/// How many of the bytes at the start of `s` are ASCII digits.
pub open spec fn leading_digit_count(s: Seq<u8>) -> nat
    decreases s.len(),
{
    if s.len() == 0 || !is_digit_byte(s[0]) {
        0
    } else {
        1 + leading_digit_count(s.drop_first())
    }
}

/// The size of the address space from what was read of `/proc/self/statm`:
/// the first `read` bytes of `buf` (none when `read` is negative) start
/// with the page count in decimal. `None` when they start with no digit;
/// else the count times `page_size`, both wrapping as `u64`.
pub open spec fn spec_statm_bytes(buf: Seq<u8>, read: int, page_size: u64) -> Option<u64> {
    let avail = if read < 0 { 0 } else if read > buf.len() { buf.len() as int } else { read };
    let text = buf.take(avail);
    let k = leading_digit_count(text);
    if k == 0 {
        None
    } else {
        let pages = byte_decimal_value(text.take(k as int)) % u64_modulus();
        Some(((pages * page_size as nat) % u64_modulus()) as u64)
    }
}

proof fn lemma_count_when_stopped(s: Seq<u8>, i: int)
    requires
        0 <= i <= s.len(),
        forall|j: int| 0 <= j < i ==> is_digit_byte(#[trigger] s[j]),
        i == s.len() || !is_digit_byte(s[i]),
    ensures
        leading_digit_count(s) == i,
    decreases s.len(),
{
    if i > 0 {
        assert(is_digit_byte(s[0]));
        assert forall|j: int| 0 <= j < i - 1 implies is_digit_byte(#[trigger] s.drop_first()[j]) by {
            assert(s.drop_first()[j] == s[j + 1]);
        }
        if i < s.len() {
            assert(s.drop_first()[i - 1] == s[i]);
        }
        lemma_count_when_stopped(s.drop_first(), i - 1);
    }
}

/// Reads the address-space size from the start of `/proc/self/statm`; it
/// allocates nothing, so a signal handler may call it.
pub fn statm_bytes(buf: &[u8], read: isize, page_size: u64) -> (r: Option<u64>)
    ensures
        r == spec_statm_bytes(buf@, read as int, page_size),
{
    let avail: usize = if read < 0 {
        0
    } else if read as usize > buf.len() {
        buf.len()
    } else {
        read as usize
    };
    let ghost text = buf@.take(avail as int);
    let mut pages: u64 = 0;
    let mut i: usize = 0;
    while i < avail && 0x30 <= buf[i] && buf[i] <= 0x39
        invariant
            avail <= buf.len(),
            text == buf@.take(avail as int),
            i <= avail,
            forall|j: int| 0 <= j < i ==> is_digit_byte(#[trigger] text[j]),
            pages == byte_decimal_value(text.take(i as int)) % u64_modulus(),
        decreases avail - i,
    {
        let d: u64 = (buf[i] - 0x30) as u64;
        let ghost prev = byte_decimal_value(text.take(i as int));
        proof {
            assert(text.take(i as int + 1).drop_last() =~= text.take(i as int));
            assert(text.take(i as int + 1).last() == buf[i as int]);
            lemma_mul_mod_noop_left(prev as int, 10, u64_modulus() as int);
            lemma_add_mod_noop(prev as int * 10, d as int, u64_modulus() as int);
            lemma_add_mod_noop((prev % u64_modulus()) as int * 10, d as int, u64_modulus() as int);
        }
        pages = pages.wrapping_mul(10).wrapping_add(d);
        i = i + 1;
    }
    proof {
        lemma_count_when_stopped(text, i as int);
    }
    if i == 0 {
        None
    } else {
        Some(pages.wrapping_mul(page_size))
    }
}

/// Whether a crash under a memory limit of `limit` bytes counts as running
/// out of memory: the address space (`vm_bytes`, when it could be read)
/// was within a third of the limit. Unknown counts as out of memory.
pub open spec fn spec_crash_is_oom(vm_bytes: Option<u64>, limit: u64) -> bool {
    match vm_bytes {
        None => true,
        Some(v) => sat_mul_u64(v as nat, 3) >= sat_mul_u64(limit as nat, 2),
    }
}

/// Decides whether a crash was probably an allocation failure.
pub fn crash_is_oom(vm_bytes: Option<u64>, limit: u64) -> (r: bool)
    ensures
        r == spec_crash_is_oom(vm_bytes, limit),
{
    match vm_bytes {
        None => true,
        Some(v) => saturating_mul_u64(v, 3) >= saturating_mul_u64(limit, 2),
    }
}

} // verus!
