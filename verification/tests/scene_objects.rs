use raymarcher::scene_objects::boxx::Boxx;
use raymarcher::scene_objects::capsule::Capsule;
use raymarcher::scene_objects::cylinder::Cylinder;
use raymarcher::scene_objects::floor_plane::FloorPlane;
use raymarcher::scene_objects::scene_object::SceneObject;
use raymarcher::scene_objects::sphere::Sphere;

fn b(x: f32) -> u32 {
    x.to_bits()
}

fn b3(x: f32, y: f32, z: f32) -> (u32, u32, u32) {
    (x.to_bits(), y.to_bits(), z.to_bits())
}

fn floats(record: [u32; 16]) -> Vec<f32> {
    record.iter().map(|w| f32::from_bits(*w)).collect()
}

fn sample_objects() -> Vec<SceneObject> {
    vec![
        SceneObject::Sphere(Sphere::new(b3(-6., 3., 10.), b(3.), (255, 0, 0), b(1.))),
        SceneObject::FloorPlane(FloorPlane::new(b(0.), (255, 255, 255), b(0.))),
        SceneObject::Capsule(Capsule::new(
            b3(0., 3., 10.),
            b3(0., 10., 15.),
            b(3.),
            (0, 255, 0),
            b(0.3),
        )),
        SceneObject::Cylinder(Cylinder::new(
            b3(-13., 1., 9.),
            b3(0., 1., 3.),
            b(0.5),
            (0, 0, 255),
            b(0.),
        )),
        SceneObject::Boxx(Boxx::new(
            b3(4., 4., 4.),
            b3(1., 1., 1.),
            b3(0.25, 0.5, 0.75),
            (255, 0, 255),
            b(1.),
        )),
    ]
}

#[test]
fn sphere_encodes_to_its_two_records() {
    let s = Sphere::new(b3(1., 2., 3.), b(4.), (10, 20, 30), b(0.5));
    assert_eq!(s.get_integer_data(), [0, 10, 20, 30, 0, 0, 0, 0]);
    assert_eq!(
        floats(s.get_float_data()),
        vec![1., 2., 3., 4., 0., 0., 0., 0., 0., 0., 0., 0., 0., 0., 0., 0.5]
    );
    assert_eq!(s.get_type(), 0);
    assert_eq!(s.get_color(), (10, 20, 30));
}

#[test]
fn sphere_zero_slots_are_positive_zero() {
    let s = Sphere::new(b3(1., 2., 3.), b(4.), (10, 20, 30), b(0.5));
    let record = s.get_float_data();
    for i in 4..15 {
        assert_eq!(record[i], 0);
    }
    assert_eq!(record[15], 0.5f32.to_bits());
}

#[test]
fn floor_plane_encodes_to_its_two_records() {
    let p = FloorPlane::new(b(2.), (1, 2, 3), b(0.));
    assert_eq!(p.get_integer_data(), [1, 1, 2, 3, 0, 0, 0, 0]);
    assert_eq!(
        floats(p.get_float_data()),
        vec![2., 0., 0., 0., 0., 0., 0., 0., 0., 0., 0., 0., 0., 0., 0., 0.]
    );
    assert_eq!(p.get_float_data()[0], 2.0f32.to_bits());
    assert_eq!(p.get_type(), 1);
    assert_eq!(p.get_color(), (1, 2, 3));
}

#[test]
fn capsule_encodes_to_its_two_records() {
    let c = Capsule::new(b3(1., 2., 3.), b3(4., 5., 6.), b(7.), (9, 8, 7), b(0.25));
    assert_eq!(c.get_integer_data(), [2, 9, 8, 7, 0, 0, 0, 0]);
    assert_eq!(
        floats(c.get_float_data()),
        vec![1., 2., 3., 4., 5., 6., 7., 0., 0., 0., 0., 0., 0., 0., 0., 0.25]
    );
    assert_eq!(c.get_type(), 2);
    assert_eq!(c.get_color(), (9, 8, 7));
}

#[test]
fn cylinder_encodes_to_its_two_records() {
    let c = Cylinder::new(b3(-13., 1., 9.), b3(0., 1., 3.), b(0.5), (0, 0, 255), b(0.));
    assert_eq!(c.get_integer_data(), [3, 0, 0, 255, 0, 0, 0, 0]);
    assert_eq!(
        floats(c.get_float_data()),
        vec![-13., 1., 9., 0., 1., 3., 0.5, 0., 0., 0., 0., 0., 0., 0., 0., 0.]
    );
    assert_eq!(c.get_type(), 3);
    assert_eq!(c.get_color(), (0, 0, 255));
}

#[test]
fn box_encodes_to_its_two_records() {
    let x = Boxx::new(
        b3(4., 5., 6.),
        b3(1., 2., 3.),
        b3(0.25, 0.5, 0.75),
        (255, 0, 255),
        b(1.),
    );
    assert_eq!(x.get_integer_data(), [4, 255, 0, 255, 0, 0, 0, 0]);
    assert_eq!(
        floats(x.get_float_data()),
        vec![4., 5., 6., 1., 2., 3., 0.25, 0.5, 0.75, 0., 0., 0., 0., 0., 0., 1.]
    );
    assert_eq!(x.get_type(), 4);
    assert_eq!(x.get_color(), (255, 0, 255));
}

#[test]
fn new_keeps_every_field() {
    let s = Sphere::new((1, 2, 3), 4, (5, 6, 7), 8);
    assert_eq!(
        s,
        Sphere { position: (1, 2, 3), radius: 4, color: (5, 6, 7), reflectivity: 8 }
    );
    let p = FloorPlane::new(1, (2, 3, 4), 5);
    assert_eq!(p, FloorPlane { height: 1, color: (2, 3, 4), reflectivity: 5 });
    let c = Capsule::new((1, 2, 3), (4, 5, 6), 7, (8, 9, 10), 11);
    assert_eq!(
        c,
        Capsule {
            position1: (1, 2, 3),
            position2: (4, 5, 6),
            radius: 7,
            color: (8, 9, 10),
            reflectivity: 11
        }
    );
    let y = Cylinder::new((1, 2, 3), (4, 5, 6), 7, (8, 9, 10), 11);
    assert_eq!(
        y,
        Cylinder {
            position1: (1, 2, 3),
            position2: (4, 5, 6),
            radius: 7,
            color: (8, 9, 10),
            reflectivity: 11
        }
    );
    let x = Boxx::new((1, 2, 3), (4, 5, 6), (7, 8, 9), (10, 11, 12), 13);
    assert_eq!(
        x,
        Boxx {
            position: (1, 2, 3),
            scale: (4, 5, 6),
            rotation: (7, 8, 9),
            color: (10, 11, 12),
            reflectivity: 13
        }
    );
}

#[test]
fn object_records_are_those_of_its_shape() {
    let s = Sphere::new(b3(1., 2., 3.), b(4.), (10, 20, 30), b(0.5));
    let o = SceneObject::Sphere(s);
    assert_eq!(o.get_type(), s.get_type());
    assert_eq!(o.get_color(), s.get_color());
    assert_eq!(o.get_integer_data(), s.get_integer_data());
    assert_eq!(o.get_float_data(), s.get_float_data());
    let x = Boxx::new(b3(4., 5., 6.), b3(1., 2., 3.), b3(0.25, 0.5, 0.75), (1, 2, 3), b(1.));
    let o = SceneObject::Boxx(x);
    assert_eq!(o.get_type(), 4);
    assert_eq!(o.get_color(), (1, 2, 3));
    assert_eq!(o.get_integer_data(), x.get_integer_data());
    assert_eq!(o.get_float_data(), x.get_float_data());
}

#[test]
fn type_tags_are_zero_to_four() {
    let tags: Vec<u8> = sample_objects().iter().map(|o| o.get_type()).collect();
    assert_eq!(tags, vec![0, 1, 2, 3, 4]);
}

#[test]
fn reflectivity_sits_in_the_last_slot() {
    for o in sample_objects() {
        let record = o.get_float_data();
        let mirrored = match o {
            SceneObject::Sphere(s) => s.reflectivity,
            SceneObject::FloorPlane(s) => s.reflectivity,
            SceneObject::Capsule(s) => s.reflectivity,
            SceneObject::Cylinder(s) => s.reflectivity,
            SceneObject::Boxx(s) => s.reflectivity,
        };
        assert_eq!(record[15], mirrored);
    }
}

#[test]
fn decode_recovers_every_shape() {
    for o in sample_objects() {
        let integers = o.get_integer_data();
        let floats = o.get_float_data();
        assert_eq!(SceneObject::decode(&integers, &floats), Some(o));
    }
}

#[test]
fn decode_recovers_bits_that_are_no_number() {
    let nan = f32::NAN.to_bits() | 0x1234;
    let s = SceneObject::Sphere(Sphere::new(
        (nan, (-0.0f32).to_bits(), f32::INFINITY.to_bits()),
        0,
        (0, 0, 0),
        u32::MAX,
    ));
    assert_eq!(SceneObject::decode(&s.get_integer_data(), &s.get_float_data()), Some(s));
}

#[test]
fn decode_reads_the_fields_from_their_places() {
    let integers = [0u8, 10, 20, 30, 0, 0, 0, 0];
    let mut floats = [0u32; 16];
    floats[0] = b(1.);
    floats[1] = b(2.);
    floats[2] = b(3.);
    floats[3] = b(4.);
    floats[15] = b(0.5);
    assert_eq!(
        SceneObject::decode(&integers, &floats),
        Some(SceneObject::Sphere(Sphere::new(
            b3(1., 2., 3.),
            b(4.),
            (10, 20, 30),
            b(0.5)
        )))
    );
}

#[test]
fn decode_tells_capsule_from_cylinder() {
    let c = Capsule::new(b3(1., 2., 3.), b3(4., 5., 6.), b(7.), (9, 8, 7), b(0.25));
    let y = Cylinder::new(b3(1., 2., 3.), b3(4., 5., 6.), b(7.), (9, 8, 7), b(0.25));
    assert_eq!(c.get_float_data(), y.get_float_data());
    assert_eq!(
        SceneObject::decode(&c.get_integer_data(), &c.get_float_data()),
        Some(SceneObject::Capsule(c))
    );
    assert_eq!(
        SceneObject::decode(&y.get_integer_data(), &y.get_float_data()),
        Some(SceneObject::Cylinder(y))
    );
}

#[test]
fn decode_refuses_an_unknown_tag() {
    let floats = [0u32; 16];
    assert_eq!(SceneObject::decode(&[5, 0, 0, 0, 0, 0, 0, 0], &floats), None);
    assert_eq!(SceneObject::decode(&[255, 1, 2, 3, 0, 0, 0, 0], &floats), None);
}

#[test]
fn decode_refuses_a_byte_that_should_be_zero() {
    let s = Sphere::new(b3(1., 2., 3.), b(4.), (10, 20, 30), b(0.5));
    for i in 4..8 {
        let mut integers = s.get_integer_data();
        integers[i] = 1;
        assert_eq!(SceneObject::decode(&integers, &s.get_float_data()), None);
    }
}

#[test]
fn decode_refuses_a_slot_that_should_be_zero() {
    for o in sample_objects() {
        let used = match o {
            SceneObject::Sphere(_) => 4,
            SceneObject::FloorPlane(_) => 1,
            SceneObject::Capsule(_) => 7,
            SceneObject::Cylinder(_) => 7,
            SceneObject::Boxx(_) => 9,
        };
        for i in used..15 {
            let mut floats = o.get_float_data();
            floats[i] = b(1.);
            assert_eq!(SceneObject::decode(&o.get_integer_data(), &floats), None);
            floats[i] = (-0.0f32).to_bits();
            assert_eq!(SceneObject::decode(&o.get_integer_data(), &floats), None);
        }
    }
}

#[test]
fn decode_then_encode_gives_the_records_back() {
    let integers = [4u8, 1, 2, 3, 0, 0, 0, 0];
    let mut floats = [0u32; 16];
    for i in 0..9 {
        floats[i] = b(i as f32 + 0.5);
    }
    floats[15] = b(0.125);
    let o = SceneObject::decode(&integers, &floats).unwrap();
    assert_eq!(o.get_integer_data(), integers);
    assert_eq!(o.get_float_data(), floats);
}

#[test]
fn degenerate_geometry_is_encoded_as_it_is() {
    let nan = f32::NAN.to_bits();
    let s = Sphere::new((nan, nan, nan), b(0.), (0, 0, 0), b(-1.));
    let record = s.get_float_data();
    assert_eq!(record[0], nan);
    assert_eq!(record[1], nan);
    assert_eq!(record[2], nan);
    assert_eq!(record[3], 0);
    assert_eq!(record[15], (-1.0f32).to_bits());
    assert_eq!(s.get_integer_data(), [0, 0, 0, 0, 0, 0, 0, 0]);
    let c = Capsule::new(b3(1., 1., 1.), b3(1., 1., 1.), b(0.), (1, 1, 1), b(2.));
    assert_eq!(
        floats(c.get_float_data()),
        vec![1., 1., 1., 1., 1., 1., 0., 0., 0., 0., 0., 0., 0., 0., 0., 2.]
    );
}
