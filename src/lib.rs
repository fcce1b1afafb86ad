//! A Gray-Scott reaction-diffusion simulator on a toroidal grid: the checked
//! run settings, the grid geometry, the seed layout, the buffer schedule and
//! the text rendering.

pub mod grid;
pub mod driver;
pub mod render;
