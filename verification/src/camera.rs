use vstd::prelude::*;
use crate::single::POSITIVE_ZERO;

verus! {

/// Number of scalars in the record that carries the camera's state.
pub const CAMERA_RECORD_LEN: usize = 8;

/// The record of the camera's state, as the kernel reads it: each slot holds
/// the 32 bits of a single-precision value.
pub type CameraRecord = [u32; CAMERA_RECORD_LEN];

/// The state of the viewpoint that is sent to the kernel: where it stands, how
/// it is turned, and the two scalars of the projection. Every scalar is a
/// single-precision value, held as its 32 bits. `rotation` is pitch, yaw and
/// roll, in radians. The directions that the camera looks along follow from
/// `rotation` by trigonometry, which is done where the scalars are numbers;
/// nothing here computes with them.
#[derive(Clone, Copy, Debug, PartialEq, Eq)]
pub struct Camera {
    pub position: (u32, u32, u32),
    pub rotation: (u32, u32, u32),
    pub frame_distance: u32,
    pub scale: u32,
}

impl Camera {
    /// The record of eight scalars that the kernel reads: position, rotation,
    /// frame distance, scale.
    pub open spec fn data(self) -> Seq<u32> {
        seq![
            self.position.0,
            self.position.1,
            self.position.2,
            self.rotation.0,
            self.rotation.1,
            self.rotation.2,
            self.frame_distance,
            self.scale,
        ]
    }

    pub fn new(
        position: (u32, u32, u32),
        rotation: (u32, u32, u32),
        frame_distance: u32,
        scale: u32,
    ) -> (r: Self)
        ensures
            r == (Camera { position, rotation, frame_distance, scale }),
    {
        Camera { position, rotation, frame_distance, scale }
    }

    /// Puts the camera at `pos`. The rotation stays.
    pub fn set_position(&mut self, pos: (u32, u32, u32))
        ensures
            *final(self) == (Camera { position: pos, ..*old(self) }),
    {
        self.position = pos;
    }

    /// Sets the pitch to `rad`. Yaw and roll stay.
    pub fn set_x(&mut self, rad: u32)
        ensures
            *final(self) == (Camera {
                rotation: (rad, old(self).rotation.1, old(self).rotation.2),
                ..*old(self)
            }),
    {
        self.rotation.0 = rad;
    }

    /// Sets the yaw to `rad`. Pitch and roll stay.
    pub fn set_y(&mut self, rad: u32)
        ensures
            *final(self) == (Camera {
                rotation: (old(self).rotation.0, rad, old(self).rotation.2),
                ..*old(self)
            }),
    {
        self.rotation.1 = rad;
    }

    /// Sets the roll to `rad`. Pitch and yaw stay.
    pub fn set_z(&mut self, rad: u32)
        ensures
            *final(self) == (Camera {
                rotation: (old(self).rotation.0, old(self).rotation.1, rad),
                ..*old(self)
            }),
    {
        self.rotation.2 = rad;
    }

    /// Sets pitch, yaw and roll to `rads`.
    pub fn set_rotation(&mut self, rads: (u32, u32, u32))
        ensures
            *final(self) == (Camera { rotation: rads, ..*old(self) }),
    {
        self.rotation = rads;
    }

    /// The record of eight scalars that the kernel reads.
    pub fn get_data(&self) -> (r: CameraRecord)
        ensures
            r@ == self.data(),
    {
        let r: CameraRecord = [
            self.position.0,
            self.position.1,
            self.position.2,
            self.rotation.0,
            self.rotation.1,
            self.rotation.2,
            self.frame_distance,
            self.scale,
        ];
        assert(r@ =~= self.data());
        r
    }
}

/// The part of `v` that lies in the horizontal plane: `v` with its second
/// component, the one that points up, set to positive zero.
pub fn horizontal(v: (u32, u32, u32)) -> (r: (u32, u32, u32))
    ensures
        r == (v.0, POSITIVE_ZERO, v.2),
{
    (v.0, POSITIVE_ZERO, v.2)
}

} // verus!
