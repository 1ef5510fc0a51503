//! A spinning cube, described for a GPU: the mesh, the state of the renderer,
//! the commands of each frame and the life cycle of the application that shows
//! it.
pub mod app;
pub mod command;
pub mod cube;
pub mod geometry;
pub mod overlay;
pub mod recording;
