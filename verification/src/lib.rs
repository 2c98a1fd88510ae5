//! Shader programs that can be reloaded while they are in use, the geometry
//! that is drawn with them, and the queue of file changes that triggers a reload.
//!
//! The library decides and the caller performs. Each operation returns a batch
//! of [`command::Command`]s; whoever holds the graphics context carries the
//! batch out and, where the operation goes on, hands the reply of the last
//! command back. A [`load::Load`] turns two source files into a linked program
//! this way, a [`geometry::Upload`] puts a geometry on the GPU, and
//! [`geometry::Geometry::render`] and [`shader::ShaderProgram::activate`]
//! return what is to be carried out for one draw or one scope.
//!
//! What is proved is stated over these commands: which calls are made and in
//! which order, that a load releases every shader object it creates, that a
//! failed reload leaves the running program untouched, that a scope always
//! ends with no program bound, and that polling lets writes through and
//! nothing else.

pub mod command;
pub mod coordinator;
pub mod error;
pub mod geometry;
pub mod hotloader;
pub mod laws;
pub mod ledger;
pub mod load;
pub mod shader;
pub mod text;
