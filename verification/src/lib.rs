//! A retained recorder of draw commands.
//!
//! Drawing calls reserve slots in an ordered command log, in-progress
//! primitives are configured through builders, and the finished log is
//! drained once per frame for a renderer to interpret.
//!
//! Real-valued quantities (matrix entries, coordinates, colour channels) are
//! carried as the 32-bit patterns of their single-precision encoding. The
//! recorder stores and compares them and never does arithmetic on them.

pub mod background;
pub mod command;
pub mod context;
pub mod draw;
pub mod drawing;
pub mod indirect;
pub mod instanced;
pub mod laws;
pub mod lemmas;
pub mod material;
pub mod model;
pub mod primitive;
pub mod render;
pub mod sampler;
pub mod scratch;
pub mod script;
pub mod state;
pub mod table;
pub mod theme;
pub mod value;
