pub mod codec;
pub mod input;
pub mod laws;
pub mod params;
pub mod session;
pub mod spawn;
pub mod vec2;
