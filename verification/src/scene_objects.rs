pub mod boxx;
pub mod capsule;
pub mod cylinder;
pub mod floor_plane;
pub mod records;
pub mod scene_object;
pub mod sphere;
