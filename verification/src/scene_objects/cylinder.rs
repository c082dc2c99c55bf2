use vstd::prelude::*;
use crate::scene_objects::records::{
    float_record, integer_record, make_integer_record, FloatRecord, IntegerRecord,
};

verus! {

/// Type tag of a cylinder.
pub const CYLINDER_KEY: u8 = 3;

/// A round bar of radius `radius` whose axis runs from `position1` to
/// `position2`, cut flat at both ends. Every scalar is a single-precision
/// value, held as its 32 bits.
#[derive(Clone, Copy, Debug, PartialEq, Eq)]
pub struct Cylinder {
    pub position1: (u32, u32, u32),
    pub position2: (u32, u32, u32),
    pub radius: u32,
    pub color: (u8, u8, u8),
    pub reflectivity: u32,
}

impl Cylinder {
    /// The scalars that describe the shape, in the order of their slots.
    pub open spec fn geometry(self) -> Seq<u32> {
        seq![
            self.position1.0,
            self.position1.1,
            self.position1.2,
            self.position2.0,
            self.position2.1,
            self.position2.2,
            self.radius,
        ]
    }

    pub fn new(
        position1: (u32, u32, u32),
        position2: (u32, u32, u32),
        radius: u32,
        color: (u8, u8, u8),
        reflectivity: u32,
    ) -> (r: Self)
        ensures
            r == (Cylinder { position1, position2, radius, color, reflectivity }),
    {
        Cylinder { position1, position2, radius, color, reflectivity }
    }

    /// The type tag of a cylinder.
    pub fn get_type(&self) -> (r: u8)
        ensures
            r == CYLINDER_KEY,
    {
        CYLINDER_KEY
    }

    /// The colour: red, green, blue.
    pub fn get_color(&self) -> (r: (u8, u8, u8))
        ensures
            r == self.color,
    {
        self.color
    }

    /// The slot record: the geometry, zeros, and the reflectivity in the last
    /// slot.
    pub fn get_float_data(&self) -> (r: FloatRecord)
        ensures
            r@ == float_record(self.geometry(), self.reflectivity),
    {
        let r: FloatRecord = [
            self.position1.0,
            self.position1.1,
            self.position1.2,
            self.position2.0,
            self.position2.1,
            self.position2.2,
            self.radius,
            0,
            0,
            0,
            0,
            0,
            0,
            0,
            0,
            self.reflectivity,
        ];
        assert(r@ =~= float_record(self.geometry(), self.reflectivity));
        r
    }

    /// The byte record: the type tag, the colour, zeros.
    pub fn get_integer_data(&self) -> (r: IntegerRecord)
        ensures
            r@ == integer_record(CYLINDER_KEY, self.color),
    {
        make_integer_record(CYLINDER_KEY, self.color)
    }
}

} // verus!
