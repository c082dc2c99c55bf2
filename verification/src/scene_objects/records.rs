use vstd::prelude::*;
use crate::single::POSITIVE_ZERO;

verus! {

/// Number of 32-bit slots in the record that carries an object's geometry.
pub const FLOAT_RECORD_LEN: usize = 16;

/// Number of bytes in the record that carries an object's type and colour.
pub const INTEGER_RECORD_LEN: usize = 8;

/// The slot that carries the reflectivity: the last one.
pub const REFLECTIVITY_SLOT: usize = 15;

/// The record of an object's type and colour, as the kernel reads it.
pub type IntegerRecord = [u8; INTEGER_RECORD_LEN];

/// The record of an object's geometry and reflectivity, as the kernel reads
/// it: each slot holds the 32 bits of a single-precision value.
pub type FloatRecord = [u32; FLOAT_RECORD_LEN];

/// The byte record of an object of type `tag` and colour `color`: the tag, the
/// three colour channels, then zeros.
pub open spec fn integer_record(tag: u8, color: (u8, u8, u8)) -> Seq<u8> {
    seq![tag, color.0, color.1, color.2, 0u8, 0u8, 0u8, 0u8]
}

/// The slot record of an object: its geometry from slot 0 on, its reflectivity
/// in the last slot, and positive zero in every slot between.
pub open spec fn float_record(geometry: Seq<u32>, reflectivity: u32) -> Seq<u32> {
    Seq::new(
        FLOAT_RECORD_LEN as nat,
        |i: int|
            if i < geometry.len() {
                geometry[i]
            } else if i == REFLECTIVITY_SLOT {
                reflectivity
            } else {
                POSITIVE_ZERO
            },
    )
}

/// Builds the byte record of an object from its type tag and colour.
pub fn make_integer_record(tag: u8, color: (u8, u8, u8)) -> (r: IntegerRecord)
    ensures
        r@ == integer_record(tag, color),
{
    let r: IntegerRecord = [tag, color.0, color.1, color.2, 0, 0, 0, 0];
    assert(r@ =~= integer_record(tag, color));
    r
}

} // verus!
