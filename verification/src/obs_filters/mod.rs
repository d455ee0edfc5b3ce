//! OBS filters: the 3D transform cameras.
pub mod three_d_transform;
