//! Facts about the status flags that the contracts of the instructions rest on.

use vstd::prelude::*;
use crate::cpu_state::{
    adc_result, adc_status, carry_in, compare_status, flag, sub8, with_nz, CARRY, NEGATIVE,
    OVERFLOW, ZERO,
};
use crate::registers::with_flag;

verus! {

/// `mask` names exactly one flag.
pub open spec fn single_flag(mask: u8) -> bool {
    mask == 0x01 || mask == 0x02 || mask == 0x04 || mask == 0x08 || mask == 0x10 || mask == 0x20
        || mask == 0x40 || mask == 0x80
}

/// A flag reads back as it was last set.
pub proof fn flag_reads_back(status: u8, mask: u8, on: bool)
    requires
        single_flag(mask),
    ensures
        flag(with_flag(status, mask, on), mask) == on,
{
    assert(mask != 0 ==> (status | mask) & mask != 0 && (status & !mask) & mask == 0)
        by (bit_vector);
}

/// Setting one flag leaves every other flag as it was.
pub proof fn flag_keeps_others(status: u8, mask: u8, on: bool, other: u8)
    requires
        single_flag(mask),
        single_flag(other),
        mask != other,
    ensures
        flag(with_flag(status, mask, on), other) == flag(status, other),
{
    assert(mask & other == 0) by (bit_vector)
        requires
            single_flag(mask),
            single_flag(other),
            mask != other,
    ;
    assert(mask & other == 0 ==> (status | mask) & other == status & other && (status & !mask)
        & other == status & other) by (bit_vector);
}

/// The zero and negative flags of `status` say that `value` is 0, and that
/// bit 7 of `value` is set.
pub open spec fn reflects(status: u8, value: u8) -> bool {
    &&& flag(status, ZERO) == (value == 0)
    &&& flag(status, NEGATIVE) == (value >= 128)
}

/// After the flags have been set from `value`, zero says that it is 0 and
/// negative that its bit 7 is set; carry and overflow are as before.
pub proof fn nz_reflects_value(status: u8, value: u8)
    ensures
        reflects(with_nz(status, value), value),
        flag(with_nz(status, value), CARRY) == flag(status, CARRY),
        flag(with_nz(status, value), OVERFLOW) == flag(status, OVERFLOW),
{
    let z = with_flag(status, ZERO, value == 0);
    flag_reads_back(status, ZERO, value == 0);
    flag_keeps_others(status, ZERO, value == 0, CARRY);
    flag_keeps_others(status, ZERO, value == 0, OVERFLOW);
    flag_reads_back(z, NEGATIVE, value & 0x80 != 0);
    flag_keeps_others(z, NEGATIVE, value & 0x80 != 0, ZERO);
    flag_keeps_others(z, NEGATIVE, value & 0x80 != 0, CARRY);
    flag_keeps_others(z, NEGATIVE, value & 0x80 != 0, OVERFLOW);
    assert((value & 0x80 != 0) == (value >= 128)) by (bit_vector);
}

/// After a comparison of a register `r` with an operand `m`, carry says that
/// `r >= m`, zero that `r == m`, and negative is bit 7 of `r - m` modulo 256.
pub proof fn compare_sets_flags(status: u8, r: u8, m: u8)
    ensures
        flag(compare_status(status, r, m), CARRY) == (r >= m),
        flag(compare_status(status, r, m), ZERO) == (r == m),
        flag(compare_status(status, r, m), NEGATIVE) == (sub8(r, m) >= 128),
        flag(compare_status(status, r, m), OVERFLOW) == flag(status, OVERFLOW),
{
    let d = sub8(r, m);
    nz_reflects_value(status, d);
    let n = with_nz(status, d);
    flag_reads_back(n, CARRY, r >= m);
    flag_keeps_others(n, CARRY, r >= m, ZERO);
    flag_keeps_others(n, CARRY, r >= m, NEGATIVE);
    flag_keeps_others(n, CARRY, r >= m, OVERFLOW);
}

/// An addition with carry of `m` to `a`, with `s = a + m + c` for the carry
/// `c` that comes in: the accumulator takes `s` modulo 256, carry says that
/// `s > 255`, overflow is bit 7 of `!(a ^ m) & (a ^ result)`, and zero and
/// negative follow the result.
pub proof fn adc_sets_result_and_flags(status: u8, a: u8, m: u8)
    ensures
        adc_result(a, m, status) == (a + m + carry_in(status)) % 256,
        carry_in(status) == 0 || carry_in(status) == 1,
        flag(adc_status(a, m, status), CARRY) == (a + m + carry_in(status) > 255),
        flag(adc_status(a, m, status), OVERFLOW) == ((!(a ^ m) & (a ^ adc_result(a, m, status)))
            & 0x80 != 0),
        reflects(adc_status(a, m, status), adc_result(a, m, status)),
{
    let r = adc_result(a, m, status);
    let c = a + m + carry_in(status) > 255;
    let v = (!(a ^ m) & (a ^ r)) & 0x80 != 0;
    let s1 = with_flag(status, CARRY, c);
    let s2 = with_flag(s1, OVERFLOW, v);
    flag_reads_back(status, CARRY, c);
    flag_keeps_others(s1, OVERFLOW, v, CARRY);
    flag_reads_back(s1, OVERFLOW, v);
    nz_reflects_value(s2, r);
}

} // verus!
