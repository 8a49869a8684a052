pub mod laws;
pub mod render;
pub mod session;
pub mod text;
