use vstd::prelude::*;
use crate::scene_objects::records::{
    float_record, integer_record, make_integer_record, FloatRecord, IntegerRecord,
};

verus! {

/// Type tag of a box.
pub const BOX_KEY: u8 = 4;

/// A box centred at `position`, with half extents `scale`, turned by the three
/// angles of `rotation`. Every scalar is a single-precision value, held as its
/// 32 bits.
#[derive(Clone, Copy, Debug, PartialEq, Eq)]
pub struct Boxx {
    pub position: (u32, u32, u32),
    pub scale: (u32, u32, u32),
    pub rotation: (u32, u32, u32),
    pub color: (u8, u8, u8),
    pub reflectivity: u32,
}

impl Boxx {
    /// The scalars that describe the shape, in the order of their slots.
    pub open spec fn geometry(self) -> Seq<u32> {
        seq![
            self.position.0,
            self.position.1,
            self.position.2,
            self.scale.0,
            self.scale.1,
            self.scale.2,
            self.rotation.0,
            self.rotation.1,
            self.rotation.2,
        ]
    }

    pub fn new(
        position: (u32, u32, u32),
        scale: (u32, u32, u32),
        rotation: (u32, u32, u32),
        color: (u8, u8, u8),
        reflectivity: u32,
    ) -> (r: Self)
        ensures
            r == (Boxx { position, scale, rotation, color, reflectivity }),
    {
        Boxx { position, scale, rotation, color, reflectivity }
    }

    /// The type tag of a box.
    pub fn get_type(&self) -> (r: u8)
        ensures
            r == BOX_KEY,
    {
        BOX_KEY
    }

    /// The colour: red, green, blue.
    pub fn get_color(&self) -> (r: (u8, u8, u8))
        ensures
            r == self.color,
    {
        self.color
    }

    /// The slot record: the geometry, zeros, and the reflectivity in the last
    /// slot.
    pub fn get_float_data(&self) -> (r: FloatRecord)
        ensures
            r@ == float_record(self.geometry(), self.reflectivity),
    {
        let r: FloatRecord = [
            self.position.0,
            self.position.1,
            self.position.2,
            self.scale.0,
            self.scale.1,
            self.scale.2,
            self.rotation.0,
            self.rotation.1,
            self.rotation.2,
            0,
            0,
            0,
            0,
            0,
            0,
            self.reflectivity,
        ];
        assert(r@ =~= float_record(self.geometry(), self.reflectivity));
        r
    }

    /// The byte record: the type tag, the colour, zeros.
    pub fn get_integer_data(&self) -> (r: IntegerRecord)
        ensures
            r@ == integer_record(BOX_KEY, self.color),
    {
        make_integer_record(BOX_KEY, self.color)
    }
}

} // verus!
