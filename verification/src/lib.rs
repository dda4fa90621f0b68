pub mod button;
pub mod state;
pub mod transition;
pub mod world;
