use vstd::prelude::*;
use crate::scene_objects::records::{
    float_record, integer_record, make_integer_record, FloatRecord, IntegerRecord,
};

verus! {

/// Type tag of a floor plane.
pub const FLOORPLANE_KEY: u8 = 1;

/// An unbounded horizontal plane at `height`. Every scalar is a
/// single-precision value, held as its 32 bits.
#[derive(Clone, Copy, Debug, PartialEq, Eq)]
pub struct FloorPlane {
    pub height: u32,
    pub color: (u8, u8, u8),
    pub reflectivity: u32,
}

impl FloorPlane {
    /// The scalars that describe the shape, in the order of their slots.
    pub open spec fn geometry(self) -> Seq<u32> {
        seq![self.height]
    }

    pub fn new(height: u32, color: (u8, u8, u8), reflectivity: u32) -> (r: Self)
        ensures
            r == (FloorPlane { height, color, reflectivity }),
    {
        FloorPlane { height, color, reflectivity }
    }

    /// The type tag of a floor plane.
    pub fn get_type(&self) -> (r: u8)
        ensures
            r == FLOORPLANE_KEY,
    {
        FLOORPLANE_KEY
    }

    /// The colour: red, green, blue.
    pub fn get_color(&self) -> (r: (u8, u8, u8))
        ensures
            r == self.color,
    {
        self.color
    }

    /// The slot record: the geometry, zeros, and the reflectivity in the last
    /// slot.
    pub fn get_float_data(&self) -> (r: FloatRecord)
        ensures
            r@ == float_record(self.geometry(), self.reflectivity),
    {
        let r: FloatRecord = [
            self.height,
            0,
            0,
            0,
            0,
            0,
            0,
            0,
            0,
            0,
            0,
            0,
            0,
            0,
            0,
            self.reflectivity,
        ];
        assert(r@ =~= float_record(self.geometry(), self.reflectivity));
        r
    }

    /// The byte record: the type tag, the colour, zeros.
    pub fn get_integer_data(&self) -> (r: IntegerRecord)
        ensures
            r@ == integer_record(FLOORPLANE_KEY, self.color),
    {
        make_integer_record(FLOORPLANE_KEY, self.color)
    }
}

} // verus!
