pub mod camera;
pub mod glam_ext;
pub mod hittable;
pub mod material;
pub mod ray;
pub mod texture;
