use vstd::prelude::*;

verus! {

/// Whole megabytes in `bytes`: the bytes divided by 1024 twice, dropping the
/// fraction at each step.
pub open spec fn megabytes(bytes: nat) -> nat {
    bytes / 1024 / 1024
}

/// The share of memory in use, in percent: whole megabytes used times 100,
/// divided by whole megabytes in all, rounded down. With less than one whole
/// megabyte in all there is no share to give, and it is 0.
pub open spec fn memory_share(used_bytes: nat, total_bytes: nat) -> nat {
    if megabytes(total_bytes) == 0 {
        0
    } else {
        megabytes(used_bytes) * 100 / megabytes(total_bytes)
    }
}

/// Converts bytes to whole megabytes, dropping the fraction at each step.
pub fn byte_to_megabyte(number: u64) -> (r: u64)
    ensures
        r == megabytes(number as nat),
{
    number / 1024 / 1024
}

/// The share of memory in use, in percent, from bytes used and bytes in all.
pub fn memory_percent(used_bytes: u64, total_bytes: u64) -> (r: u64)
    ensures
        r == memory_share(used_bytes as nat, total_bytes as nat),
{
    let used = byte_to_megabyte(used_bytes);
    let total = byte_to_megabyte(total_bytes);
    if total == 0 {
        0
    } else {
        assert(used * 100 <= u64::MAX) by (nonlinear_arith)
            requires
                used == megabytes(used_bytes as nat),
                used_bytes <= u64::MAX,
        ;
        used * 100 / total
    }
}

/// With no more memory in use than there is, the share lies within 0 and 100,
/// and with all of it in use (at least one whole megabyte) it is exactly 100.
pub proof fn lemma_memory_share_bounded(used_bytes: nat, total_bytes: nat)
    requires
        used_bytes <= total_bytes,
    ensures
        memory_share(used_bytes, total_bytes) <= 100,
        used_bytes == total_bytes && total_bytes >= 1024 * 1024 ==> memory_share(
            used_bytes,
            total_bytes,
        ) == 100,
{
    let u = megabytes(used_bytes);
    let t = megabytes(total_bytes);
    assert(used_bytes / 1024 <= total_bytes / 1024) by (nonlinear_arith)
        requires
            used_bytes <= total_bytes,
    ;
    assert(u <= t) by (nonlinear_arith)
        requires
            used_bytes / 1024 <= total_bytes / 1024,
            u == used_bytes / 1024 / 1024,
            t == total_bytes / 1024 / 1024,
    ;
    if t > 0 {
        assert(u * 100 / t <= 100) by (nonlinear_arith)
            requires
                u <= t,
                t > 0,
        ;
    }
    if used_bytes == total_bytes && total_bytes >= 1024 * 1024 {
        assert(t >= 1) by (nonlinear_arith)
            requires
                total_bytes >= 1024 * 1024,
                t == total_bytes / 1024 / 1024,
        ;
        assert(t * 100 / t == 100) by (nonlinear_arith)
            requires
                t >= 1,
        ;
    }
}

} // verus!
