pub mod app;
pub mod render;
