//! Register bitfields: a field is a contiguous run of bits described by a
//! shift and an unshifted mask, as in a `register_bitfields!` declaration.
use vstd::prelude::*;

verus! {

/// The value held by a field of `reg`.
pub open spec fn field_of(reg: u32, shift: u32, mask: u32) -> u32 {
    (reg & (mask << shift)) >> shift
}

/// `reg` with the field replaced by `value` (truncated to the field's width).
pub open spec fn with_field(reg: u32, shift: u32, mask: u32, value: u32) -> u32 {
    (reg & !(mask << shift)) | ((value & mask) << shift)
}

/// Whether any bit of the field is set in `reg`.
pub open spec fn field_is_set(reg: u32, shift: u32, mask: u32) -> bool {
    (reg & (mask << shift)) != 0
}

/// A field whose mask fits in the register when shifted into place.
pub open spec fn field_wf(shift: u32, mask: u32) -> bool {
    &&& shift < 32
    &&& (mask << shift) >> shift == mask
}

/// Sets a one-bit field; the result reads as set.
pub fn set_flag(reg: u32, shift: u32) -> (r: u32)
    requires
        shift < 32,
    ensures
        r == with_field(reg, shift, 1, 1),
        field_is_set(r, shift, 1),
{
    proof {
        lemma_flag(reg, shift);
    }
    write_field(reg, shift, 1, 1)
}

/// Clears a one-bit field; the result reads as clear.
pub fn clear_flag(reg: u32, shift: u32) -> (r: u32)
    requires
        shift < 32,
    ensures
        r == with_field(reg, shift, 1, 0),
        !field_is_set(r, shift, 1),
{
    proof {
        lemma_flag(reg, shift);
    }
    write_field(reg, shift, 1, 0)
}

/// Setting a one-bit field makes it read as set; clearing it makes it read as clear.
pub proof fn lemma_flag(reg: u32, shift: u32)
    requires
        shift < 32,
    ensures
        field_is_set(with_field(reg, shift, 1, 1), shift, 1),
        !field_is_set(with_field(reg, shift, 1, 0), shift, 1),
        field_of(with_field(reg, shift, 1, 1), shift, 1) == 1,
        field_of(with_field(reg, shift, 1, 0), shift, 1) == 0,
{
    assert(field_is_set(with_field(reg, shift, 1, 1), shift, 1)) by (bit_vector)
        requires
            shift < 32,
    ;
    assert(!field_is_set(with_field(reg, shift, 1, 0), shift, 1)) by (bit_vector)
        requires
            shift < 32,
    ;
    assert(field_of(with_field(reg, shift, 1, 1), shift, 1) == 1) by (bit_vector)
        requires
            shift < 32,
    ;
    assert(field_of(with_field(reg, shift, 1, 0), shift, 1) == 0) by (bit_vector)
        requires
            shift < 32,
    ;
}

/// Values that fit in a mask of low ones are unchanged by it.
pub proof fn lemma_small_masks()
    ensures
        forall|v: u32| v <= 3 ==> #[trigger] (v & 3) == v,
        forall|v: u32| v <= 7 ==> #[trigger] (v & 7) == v,
        forall|v: u32| v <= 15 ==> #[trigger] (v & 15) == v,
        forall|v: u32| v <= 31 ==> #[trigger] (v & 31) == v,
        forall|v: u32| v <= 127 ==> #[trigger] (v & 127) == v,
        forall|v: u32| v & 3 <= 3,
        forall|v: u32| v & 7 <= 7,
        forall|v: u32| v & 15 <= 15,
        forall|v: u32| v & 31 <= 31,
        forall|v: u32| v & 127 <= 127,
{
    assert(forall|v: u32| v <= 3 ==> #[trigger] (v & 3) == v) by (bit_vector);
    assert(forall|v: u32| v <= 7 ==> #[trigger] (v & 7) == v) by (bit_vector);
    assert(forall|v: u32| v <= 15 ==> #[trigger] (v & 15) == v) by (bit_vector);
    assert(forall|v: u32| v <= 31 ==> #[trigger] (v & 31) == v) by (bit_vector);
    assert(forall|v: u32| v <= 127 ==> #[trigger] (v & 127) == v) by (bit_vector);
    assert(forall|v: u32| #[trigger] (v & 3) <= 3) by (bit_vector);
    assert(forall|v: u32| #[trigger] (v & 7) <= 7) by (bit_vector);
    assert(forall|v: u32| #[trigger] (v & 15) <= 15) by (bit_vector);
    assert(forall|v: u32| #[trigger] (v & 31) <= 31) by (bit_vector);
    assert(forall|v: u32| #[trigger] (v & 127) <= 127) by (bit_vector);
}

/// Reads a field of a register value.
pub fn read_field(reg: u32, shift: u32, mask: u32) -> (r: u32)
    requires
        shift < 32,
    ensures
        r == field_of(reg, shift, mask),
{
    (reg & (mask << shift)) >> shift
}

/// Writes a field of a register value, leaving the other bits as they were.
pub fn write_field(reg: u32, shift: u32, mask: u32, value: u32) -> (r: u32)
    requires
        shift < 32,
    ensures
        r == with_field(reg, shift, mask, value),
{
    (reg & !(mask << shift)) | ((value & mask) << shift)
}

/// Tests whether any bit of a field is set.
pub fn is_field_set(reg: u32, shift: u32, mask: u32) -> (r: bool)
    requires
        shift < 32,
    ensures
        r == field_is_set(reg, shift, mask),
{
    (reg & (mask << shift)) != 0
}

/// Reading a field back after writing it gives the written value, truncated
/// to the field's width.
pub proof fn lemma_read_after_write(reg: u32, shift: u32, mask: u32, value: u32)
    requires
        field_wf(shift, mask),
    ensures
        field_of(with_field(reg, shift, mask, value), shift, mask) == value & mask,
{
    assert(field_of(with_field(reg, shift, mask, value), shift, mask) == value & mask)
        by (bit_vector)
        requires
            shift < 32,
            (mask << shift) >> shift == mask,
    ;
}

/// Writing a field leaves every bit outside it unchanged.
pub proof fn lemma_write_frame(reg: u32, shift: u32, mask: u32, value: u32)
    requires
        shift < 32,
    ensures
        with_field(reg, shift, mask, value) & !(mask << shift) == reg & !(mask << shift),
{
    assert(with_field(reg, shift, mask, value) & !(mask << shift) == reg & !(mask << shift))
        by (bit_vector)
        requires
            shift < 32,
    ;
}

/// Writing one field leaves the value of a disjoint field unchanged.
pub proof fn lemma_write_other_field(
    reg: u32,
    shift: u32,
    mask: u32,
    value: u32,
    other_shift: u32,
    other_mask: u32,
)
    requires
        shift < 32,
        other_shift < 32,
        (mask << shift) & (other_mask << other_shift) == 0,
    ensures
        field_of(with_field(reg, shift, mask, value), other_shift, other_mask) == field_of(
            reg,
            other_shift,
            other_mask,
        ),
{
    assert(field_of(with_field(reg, shift, mask, value), other_shift, other_mask) == field_of(
        reg,
        other_shift,
        other_mask,
    )) by (bit_vector)
        requires
            shift < 32,
            other_shift < 32,
            (mask << shift) & (other_mask << other_shift) == 0,
    ;
}

/// A field is set exactly when the value it holds is not zero.
pub proof fn lemma_is_set_iff_nonzero(reg: u32, shift: u32, mask: u32)
    requires
        field_wf(shift, mask),
    ensures
        field_is_set(reg, shift, mask) == (field_of(reg, shift, mask) != 0),
{
    assert(field_is_set(reg, shift, mask) == (field_of(reg, shift, mask) != 0)) by (bit_vector)
        requires
            shift < 32,
            (mask << shift) >> shift == mask,
    ;
}

} // verus!
