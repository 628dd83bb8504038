use vstd::prelude::*;

verus! {

/// VT_I4: a VARIANT that holds a 32-bit signed integer.
pub const VT_I4: u16 = 3;

/// A compartment value stored as a VARIANT: its type tag and its integer.
#[derive(PartialEq, Eq, Structural, Clone, Copy, Debug)]
pub struct VariantI4 {
    pub vt: u16,
    pub lval: i32,
}

/// Why a compartment's value could not be read.
#[derive(PartialEq, Eq, Structural, Clone, Copy, Debug)]
pub enum CompartmentError {
    /// The compartment holds something other than a 32-bit integer
    /// (ERROR_INVALID_PARAMETER).
    InvalidParameter,
}

/// The VARIANT written for the value `value`: a 32-bit integer with the same
/// bits.
pub fn variant_of_value(value: u32) -> (r: VariantI4)
    ensures
        r.vt == VT_I4,
        r.lval == value as i32,
{
    VariantI4 { vt: VT_I4, lval: value as i32 }
}

/// The value held by a VARIANT read back from a compartment: its integer,
/// with the same bits, where it holds a 32-bit integer.
pub fn value_of_variant(variant: VariantI4) -> (r: Result<u32, CompartmentError>)
    ensures
        variant.vt == VT_I4 ==> r == Ok::<u32, CompartmentError>(variant.lval as u32),
        variant.vt != VT_I4 ==> r == Err::<u32, CompartmentError>(
            CompartmentError::InvalidParameter,
        ),
{
    if variant.vt == VT_I4 {
        Ok(variant.lval as u32)
    } else {
        Err(CompartmentError::InvalidParameter)
    }
}

/// The value stored for a flag: 1 for on, 0 for off.
pub fn value_of_bool(flag: bool) -> (r: u32)
    ensures
        r == (if flag {
            1u32
        } else {
            0u32
        }),
{
    if flag {
        1
    } else {
        0
    }
}

/// A stored value read as a flag: on unless it is 0.
pub fn bool_of_value(value: u32) -> (r: bool)
    ensures
        r == (value != 0),
{
    value != 0
}

/// A value written to a compartment reads back unchanged, and so does a flag.
pub proof fn lemma_compartment_round_trip(value: u32, flag: bool)
    ensures
        (value as i32) as u32 == value,
        ((if flag {
            1u32
        } else {
            0u32
        }) != 0) == flag,
{
    assert((value as i32) as u32 == value) by (bit_vector);
}

} // verus!
