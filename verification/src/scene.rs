use vstd::prelude::*;
use crate::scene_objects::records::{FloatRecord, IntegerRecord};
use crate::scene_objects::scene_object::{decode_recovers_object, decoded, SceneObject};

verus! {

/// The objects to draw, in the order in which they were pushed.
#[derive(Debug, PartialEq, Eq)]
pub struct Scene {
    scene_objects: Vec<SceneObject>,
}

impl View for Scene {
    type V = Seq<SceneObject>;

    /// The objects, first pushed first.
    closed spec fn view(&self) -> Seq<SceneObject> {
        self.scene_objects@
    }
}

/// The byte records of `objects`, one for each, in their order.
pub open spec fn integer_records(objects: Seq<SceneObject>) -> Seq<Seq<u8>> {
    Seq::new(objects.len(), |i: int| objects[i].integer_data())
}

/// The slot records of `objects`, one for each, in their order.
pub open spec fn float_records(objects: Seq<SceneObject>) -> Seq<Seq<u32>> {
    Seq::new(objects.len(), |i: int| objects[i].float_data())
}

/// What a buffer of fixed-size records holds: the content of each record.
pub open spec fn contents<T, const N: usize>(buffer: Seq<[T; N]>) -> Seq<Seq<T>> {
    Seq::new(buffer.len(), |i: int| buffer[i]@)
}

/// The objects that two buffers of records stand for, record by record. There
/// are none where the buffers differ in length or a pair of records is the
/// encoding of no object.
pub open spec fn decoded_objects(integers: Seq<Seq<u8>>, floats: Seq<Seq<u32>>) -> Option<
    Seq<SceneObject>,
> {
    if integers.len() == floats.len() && forall|i: int|
        0 <= i < integers.len() ==> (#[trigger] decoded(integers[i], floats[i])) is Some {
        Some(Seq::new(integers.len(), |i: int| decoded(integers[i], floats[i]).unwrap()))
    } else {
        None
    }
}

impl Scene {
    pub fn new() -> (r: Self)
        ensures
            r@ == Seq::<SceneObject>::empty(),
    {
        Scene { scene_objects: Vec::new() }
    }

    /// Number of objects in the scene.
    pub fn len(&self) -> (r: usize)
        ensures
            r == self@.len(),
    {
        self.scene_objects.len()
    }

    /// The object that was pushed as number `index`, counting from zero, if
    /// there were that many.
    pub fn get(&self, index: usize) -> (r: Option<SceneObject>)
        ensures
            r == if index < self@.len() {
                Some(self@[index as int])
            } else {
                None
            },
    {
        if index < self.scene_objects.len() {
            Some(self.scene_objects[index])
        } else {
            None
        }
    }

    /// Adds `obj` behind the objects that are there.
    pub fn push(&mut self, obj: SceneObject)
        ensures
            final(self)@ == old(self)@.push(obj),
    {
        self.scene_objects.push(obj);
    }

    /// The two parallel buffers that describe the scene: for each object its
    /// byte record and its slot record, in push order.
    pub fn to_ocl_format(&self) -> (r: (Vec<IntegerRecord>, Vec<FloatRecord>))
        ensures
            r.0@.len() == self@.len(),
            r.1@.len() == self@.len(),
            forall|i: int| 0 <= i < self@.len() ==> r.0@[i]@ == self@[i].integer_data(),
            forall|i: int| 0 <= i < self@.len() ==> r.1@[i]@ == self@[i].float_data(),
            contents(r.0@) == integer_records(self@),
            contents(r.1@) == float_records(self@),
    {
        let n = self.scene_objects.len();
        let mut object_integers: Vec<IntegerRecord> = Vec::with_capacity(n);
        let mut object_floats: Vec<FloatRecord> = Vec::with_capacity(n);
        let mut i: usize = 0;
        while i < n
            invariant
                n == self.scene_objects@.len(),
                0 <= i <= n,
                object_integers@.len() == i,
                object_floats@.len() == i,
                forall|j: int|
                    0 <= j < i ==> object_integers@[j]@ == self.scene_objects@[j].integer_data(),
                forall|j: int|
                    0 <= j < i ==> object_floats@[j]@ == self.scene_objects@[j].float_data(),
            decreases n - i,
        {
            object_integers.push(self.scene_objects[i].get_integer_data());
            object_floats.push(self.scene_objects[i].get_float_data());
            i += 1;
        }
        assert(contents(object_integers@) =~= integer_records(self@));
        assert(contents(object_floats@) =~= float_records(self@));
        (object_integers, object_floats)
    }

    /// What is handed to the kernel for the scene: the number of objects as a
    /// 32-bit count, then the two buffers of `to_ocl_format`. The count is the
    /// number of objects cut to its low 32 bits.
    pub fn to_ocl_buffer(&self) -> (r: (u32, Vec<IntegerRecord>, Vec<FloatRecord>))
        ensures
            r.0 == self@.len() % 0x1_0000_0000,
            self@.len() <= u32::MAX ==> r.0 == self@.len(),
            r.1@.len() == self@.len(),
            r.2@.len() == self@.len(),
            forall|i: int| 0 <= i < self@.len() ==> r.1@[i]@ == self@[i].integer_data(),
            forall|i: int| 0 <= i < self@.len() ==> r.2@[i]@ == self@[i].float_data(),
            contents(r.1@) == integer_records(self@),
            contents(r.2@) == float_records(self@),
    {
        let (object_integers, object_floats) = self.to_ocl_format();
        let n: u64 = self.scene_objects.len() as u64;
        let count: u32 = #[verifier::truncate] (n as u32);
        assert(count == n % 0x1_0000_0000) by (bit_vector)
            requires
                count == n as u32,
        ;
        (count, object_integers, object_floats)
    }

    /// Reads a scene back from its two buffers. It answers `None` where the
    /// buffers differ in length or some pair of records is the encoding of no
    /// object.
    pub fn decode(integers: &Vec<IntegerRecord>, floats: &Vec<FloatRecord>) -> (r: Option<Scene>)
        ensures
            match r {
                Some(scene) => decoded_objects(contents(integers@), contents(floats@)) == Some(
                    scene@,
                ),
                None => decoded_objects(contents(integers@), contents(floats@)) is None,
            },
    {
        let n = integers.len();
        if floats.len() != n {
            return None;
        }
        let ghost ints = contents(integers@);
        let ghost flts = contents(floats@);
        let mut scene = Scene::new();
        let mut i: usize = 0;
        while i < n
            invariant
                n == integers@.len(),
                n == floats@.len(),
                ints == contents(integers@),
                flts == contents(floats@),
                0 <= i <= n,
                scene@.len() == i,
                forall|j: int| 0 <= j < i ==> decoded(ints[j], flts[j]) == Some(scene@[j]),
            decreases n - i,
        {
            match SceneObject::decode(&integers[i], &floats[i]) {
                Some(object) => {
                    scene.push(object);
                },
                None => {
                    assert(decoded(ints[i as int], flts[i as int]) is None);
                    return None;
                },
            }
            i += 1;
        }
        assert(scene@ =~= decoded_objects(ints, flts).unwrap());
        Some(scene)
    }
}

/// Decoding the buffers of a scene gives its objects back, each with its exact
/// type, colour, geometry and reflectivity, in the same order.
pub proof fn decode_recovers_scene(objects: Seq<SceneObject>)
    ensures
        decoded_objects(integer_records(objects), float_records(objects)) == Some(objects),
{
    let ints = integer_records(objects);
    let flts = float_records(objects);
    assert forall|i: int| 0 <= i < ints.len() implies (#[trigger] decoded(ints[i], flts[i]))
        == Some(objects[i]) by {
        decode_recovers_object(objects[i]);
    }
    assert(decoded_objects(ints, flts).unwrap() =~= objects);
}

/// Pushing an object adds its two records behind those that were there, and
/// changes none of them: the buffers keep the order of the pushes.
pub proof fn push_appends_records(objects: Seq<SceneObject>, object: SceneObject)
    ensures
        integer_records(objects.push(object)) == integer_records(objects).push(
            object.integer_data(),
        ),
        float_records(objects.push(object)) == float_records(objects).push(object.float_data()),
{
    assert(integer_records(objects.push(object)) =~= integer_records(objects).push(
        object.integer_data(),
    ));
    assert(float_records(objects.push(object)) =~= float_records(objects).push(
        object.float_data(),
    ));
}

} // verus!
