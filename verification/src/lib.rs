pub mod devices;
pub mod house;
pub mod providers;
pub mod render;
