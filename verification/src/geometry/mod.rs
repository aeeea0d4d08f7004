pub mod vector;
pub mod vector3;
