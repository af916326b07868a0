//! Generation of an OpenGL function loader from the text of the core API header.
//!
//! The library finds the declared entry points in the header's text, derives
//! the names the loader uses for each, orders them, and renders the loader's
//! declarations and implementation as text. Reading the header and writing
//! the rendered files is left to the caller, whom `acquire` tells what to
//! read and `config` what to write.

pub mod acquire;
pub mod config;
pub mod emit;
pub mod extract;
pub mod layout;
pub mod order;
pub mod symbol;

pub use crate::acquire::{Phase, Report, Request};
pub use crate::config::{Artifact, Gl3wExec, Gl3wPath};
pub use crate::emit::{gen_gl3w_c, gen_gl3w_h, gen_gl3w_single, Boilerplate};
pub use crate::extract::ExtractError;
pub use crate::symbol::Proc;
