use vstd::prelude::*;
use crate::scene_objects::boxx::{Boxx, BOX_KEY};
use crate::scene_objects::capsule::{Capsule, CAPSULE_KEY};
use crate::scene_objects::cylinder::{Cylinder, CYLINDER_KEY};
use crate::scene_objects::floor_plane::{FloorPlane, FLOORPLANE_KEY};
use crate::scene_objects::records::{
    float_record, integer_record, FloatRecord, IntegerRecord, REFLECTIVITY_SLOT,
};
use crate::scene_objects::sphere::{Sphere, SPHERE_KEY};

verus! {

/// One primitive of a scene: the closed set of shapes that can be drawn.
#[derive(Clone, Copy, Debug, PartialEq, Eq)]
pub enum SceneObject {
    Sphere(Sphere),
    FloorPlane(FloorPlane),
    Capsule(Capsule),
    Cylinder(Cylinder),
    Boxx(Boxx),
}

impl SceneObject {
    /// The small integer that tells the shape.
    pub open spec fn type_tag(self) -> u8 {
        match self {
            SceneObject::Sphere(_) => SPHERE_KEY,
            SceneObject::FloorPlane(_) => FLOORPLANE_KEY,
            SceneObject::Capsule(_) => CAPSULE_KEY,
            SceneObject::Cylinder(_) => CYLINDER_KEY,
            SceneObject::Boxx(_) => BOX_KEY,
        }
    }

    /// The three colour channels: red, green, blue.
    pub open spec fn color(self) -> (u8, u8, u8) {
        match self {
            SceneObject::Sphere(s) => s.color,
            SceneObject::FloorPlane(s) => s.color,
            SceneObject::Capsule(s) => s.color,
            SceneObject::Cylinder(s) => s.color,
            SceneObject::Boxx(s) => s.color,
        }
    }

    /// How much of the light that reaches the surface is mirrored.
    pub open spec fn reflectivity(self) -> u32 {
        match self {
            SceneObject::Sphere(s) => s.reflectivity,
            SceneObject::FloorPlane(s) => s.reflectivity,
            SceneObject::Capsule(s) => s.reflectivity,
            SceneObject::Cylinder(s) => s.reflectivity,
            SceneObject::Boxx(s) => s.reflectivity,
        }
    }

    /// The scalars that describe the shape, in the order of their slots.
    pub open spec fn geometry(self) -> Seq<u32> {
        match self {
            SceneObject::Sphere(s) => s.geometry(),
            SceneObject::FloorPlane(s) => s.geometry(),
            SceneObject::Capsule(s) => s.geometry(),
            SceneObject::Cylinder(s) => s.geometry(),
            SceneObject::Boxx(s) => s.geometry(),
        }
    }

    /// The 8 bytes that carry the object's type and colour.
    pub open spec fn integer_data(self) -> Seq<u8> {
        integer_record(self.type_tag(), self.color())
    }

    /// The 16 slots that carry the object's geometry and reflectivity.
    pub open spec fn float_data(self) -> Seq<u32> {
        float_record(self.geometry(), self.reflectivity())
    }

    /// The type tag of the object's shape.
    pub fn get_type(&self) -> (r: u8)
        ensures
            r == self.type_tag(),
    {
        match self {
            SceneObject::Sphere(s) => s.get_type(),
            SceneObject::FloorPlane(s) => s.get_type(),
            SceneObject::Capsule(s) => s.get_type(),
            SceneObject::Cylinder(s) => s.get_type(),
            SceneObject::Boxx(s) => s.get_type(),
        }
    }

    /// The object's colour.
    pub fn get_color(&self) -> (r: (u8, u8, u8))
        ensures
            r == self.color(),
    {
        match self {
            SceneObject::Sphere(s) => s.get_color(),
            SceneObject::FloorPlane(s) => s.get_color(),
            SceneObject::Capsule(s) => s.get_color(),
            SceneObject::Cylinder(s) => s.get_color(),
            SceneObject::Boxx(s) => s.get_color(),
        }
    }

    /// The slot record of the object: its geometry, zeros, its reflectivity.
    pub fn get_float_data(&self) -> (r: FloatRecord)
        ensures
            r@ == self.float_data(),
    {
        match self {
            SceneObject::Sphere(s) => s.get_float_data(),
            SceneObject::FloorPlane(s) => s.get_float_data(),
            SceneObject::Capsule(s) => s.get_float_data(),
            SceneObject::Cylinder(s) => s.get_float_data(),
            SceneObject::Boxx(s) => s.get_float_data(),
        }
    }

    /// The byte record of the object: its type tag, its colour, zeros.
    pub fn get_integer_data(&self) -> (r: IntegerRecord)
        ensures
            r@ == self.integer_data(),
    {
        match self {
            SceneObject::Sphere(s) => s.get_integer_data(),
            SceneObject::FloorPlane(s) => s.get_integer_data(),
            SceneObject::Capsule(s) => s.get_integer_data(),
            SceneObject::Cylinder(s) => s.get_integer_data(),
            SceneObject::Boxx(s) => s.get_integer_data(),
        }
    }

    /// Reads an object back from its two records. It answers `None` where no
    /// object has these records: the tag names no shape, or a byte or a slot
    /// that every object leaves at zero holds something else.
    pub fn decode(integers: &IntegerRecord, floats: &FloatRecord) -> (r: Option<SceneObject>)
        ensures
            r == decoded(integers@, floats@),
    {
        let tag = integers[0];
        let color = (integers[1], integers[2], integers[3]);
        let reflectivity = floats[REFLECTIVITY_SLOT];
        let found = if integers[4] != 0 || integers[5] != 0 || integers[6] != 0 || integers[7]
            != 0 {
            None
        } else if tag == SPHERE_KEY {
            if slots_are_zero(floats, 4) {
                Some(
                    SceneObject::Sphere(
                        Sphere::new((floats[0], floats[1], floats[2]), floats[3], color, reflectivity),
                    ),
                )
            } else {
                None
            }
        } else if tag == FLOORPLANE_KEY {
            if slots_are_zero(floats, 1) {
                Some(SceneObject::FloorPlane(FloorPlane::new(floats[0], color, reflectivity)))
            } else {
                None
            }
        } else if tag == CAPSULE_KEY {
            if slots_are_zero(floats, 7) {
                Some(
                    SceneObject::Capsule(
                        Capsule::new(
                            (floats[0], floats[1], floats[2]),
                            (floats[3], floats[4], floats[5]),
                            floats[6],
                            color,
                            reflectivity,
                        ),
                    ),
                )
            } else {
                None
            }
        } else if tag == CYLINDER_KEY {
            if slots_are_zero(floats, 7) {
                Some(
                    SceneObject::Cylinder(
                        Cylinder::new(
                            (floats[0], floats[1], floats[2]),
                            (floats[3], floats[4], floats[5]),
                            floats[6],
                            color,
                            reflectivity,
                        ),
                    ),
                )
            } else {
                None
            }
        } else if tag == BOX_KEY {
            if slots_are_zero(floats, 9) {
                Some(
                    SceneObject::Boxx(
                        Boxx::new(
                            (floats[0], floats[1], floats[2]),
                            (floats[3], floats[4], floats[5]),
                            (floats[6], floats[7], floats[8]),
                            color,
                            reflectivity,
                        ),
                    ),
                )
            } else {
                None
            }
        } else {
            None
        };
        proof {
            match found {
                Some(object) => {
                    assert(object.integer_data() =~= integers@);
                    assert(object.float_data() =~= floats@);
                    assert(is_encoding_of(object, integers@, floats@));
                    encoding_is_injective(object, decoded(integers@, floats@).unwrap());
                },
                None => {
                    assert forall|o: SceneObject| !is_encoding_of(o, integers@, floats@) by {
                        if is_encoding_of(o, integers@, floats@) {
                            record_shape(o);
                        }
                    }
                },
            }
        }
        found
    }
}

/// Whether `integers` and `floats` are the two records of `object`.
pub open spec fn is_encoding_of(object: SceneObject, integers: Seq<u8>, floats: Seq<u32>) -> bool {
    object.integer_data() == integers && object.float_data() == floats
}

/// The object that a pair of records stands for, if there is one.
pub open spec fn decoded(integers: Seq<u8>, floats: Seq<u32>) -> Option<SceneObject> {
    if exists|o: SceneObject| is_encoding_of(o, integers, floats) {
        Some(choose|o: SceneObject| is_encoding_of(o, integers, floats))
    } else {
        None
    }
}

/// Whether every slot from `from` up to the reflectivity slot holds positive
/// zero.
fn slots_are_zero(floats: &FloatRecord, from: usize) -> (r: bool)
    requires
        from <= REFLECTIVITY_SLOT,
    ensures
        r == (forall|i: int| from <= i < REFLECTIVITY_SLOT ==> floats@[i] == 0),
{
    let mut i: usize = from;
    while i < REFLECTIVITY_SLOT
        invariant
            from <= i <= REFLECTIVITY_SLOT,
            forall|j: int| from <= j < i ==> floats@[j] == 0,
        decreases REFLECTIVITY_SLOT - i,
    {
        if floats[i] != 0 {
            return false;
        }
        i += 1;
    }
    true
}

/// What the records of any object look like: the tag is one of the five known
/// ones, the last four bytes are zero, and so is every slot between the
/// geometry and the reflectivity.
pub proof fn record_shape(object: SceneObject)
    ensures
        object.integer_data().len() == 8,
        object.float_data().len() == 16,
        object.integer_data()[0] == object.type_tag(),
        object.type_tag() <= BOX_KEY,
        (object.integer_data()[1], object.integer_data()[2], object.integer_data()[3])
            == object.color(),
        forall|i: int| 4 <= i < 8 ==> object.integer_data()[i] == 0,
        object.geometry().len() <= REFLECTIVITY_SLOT,
        forall|i: int|
            0 <= i < object.geometry().len() ==> object.float_data()[i] == object.geometry()[i],
        forall|i: int|
            object.geometry().len() <= i < REFLECTIVITY_SLOT ==> object.float_data()[i] == 0,
        object.float_data()[REFLECTIVITY_SLOT as int] == object.reflectivity(),
{
}

/// No two objects share both records: the records tell the object.
pub proof fn encoding_is_injective(a: SceneObject, b: SceneObject)
    requires
        a.integer_data() == b.integer_data(),
        a.float_data() == b.float_data(),
    ensures
        a == b,
{
    record_shape(a);
    record_shape(b);
    assert(a.type_tag() == b.type_tag());
    assert(a.color() == b.color());
    assert(a.reflectivity() == b.reflectivity());
    let ga = a.geometry();
    let gb = b.geometry();
    assert(ga.len() == gb.len());
    assert forall|i: int| 0 <= i < ga.len() implies ga[i] == gb[i] by {
        assert(a.float_data()[i] == b.float_data()[i]);
    }
    match (a, b) {
        (SceneObject::Sphere(x), SceneObject::Sphere(y)) => {
            assert(ga[0] == gb[0] && ga[1] == gb[1] && ga[2] == gb[2] && ga[3] == gb[3]);
            assert(x == y);
        },
        (SceneObject::FloorPlane(x), SceneObject::FloorPlane(y)) => {
            assert(ga[0] == gb[0]);
            assert(x == y);
        },
        (SceneObject::Capsule(x), SceneObject::Capsule(y)) => {
            assert(ga[0] == gb[0] && ga[1] == gb[1] && ga[2] == gb[2] && ga[3] == gb[3]);
            assert(ga[4] == gb[4] && ga[5] == gb[5] && ga[6] == gb[6]);
            assert(x == y);
        },
        (SceneObject::Cylinder(x), SceneObject::Cylinder(y)) => {
            assert(ga[0] == gb[0] && ga[1] == gb[1] && ga[2] == gb[2] && ga[3] == gb[3]);
            assert(ga[4] == gb[4] && ga[5] == gb[5] && ga[6] == gb[6]);
            assert(x == y);
        },
        (SceneObject::Boxx(x), SceneObject::Boxx(y)) => {
            assert(ga[0] == gb[0] && ga[1] == gb[1] && ga[2] == gb[2] && ga[3] == gb[3]);
            assert(ga[4] == gb[4] && ga[5] == gb[5] && ga[6] == gb[6]);
            assert(ga[7] == gb[7] && ga[8] == gb[8]);
            assert(x == y);
        },
        _ => {},
    }
}

/// Decoding the records of an object gives that object back: its type, its
/// colour, its geometry and its reflectivity, bit for bit.
pub proof fn decode_recovers_object(object: SceneObject)
    ensures
        decoded(object.integer_data(), object.float_data()) == Some(object),
{
    assert(is_encoding_of(object, object.integer_data(), object.float_data()));
    encoding_is_injective(
        object,
        decoded(object.integer_data(), object.float_data()).unwrap(),
    );
}

/// A pair of records decodes to an object exactly where they are the two
/// records of that object: decoding undoes encoding, and nothing else
/// decodes.
pub proof fn decodes_exactly_the_encodings(
    object: SceneObject,
    integers: Seq<u8>,
    floats: Seq<u32>,
)
    ensures
        decoded(integers, floats) == Some(object) <==> is_encoding_of(object, integers, floats),
{
    if is_encoding_of(object, integers, floats) {
        decode_recovers_object(object);
    }
}

} // verus!
