//! Turns the description of an agent into the files of a Python project.
//!
//! A description is a YAML text that names an agent, the tools it can use and
//! the model it runs on. [`parse`] reads and validates one, [`render`] makes
//! the four files of its project, and [`generate`] does both in one step.
//! Nothing in this library reads or writes a file: a caller puts the files on
//! disk, asking [`output::check_overwrite`] before each one.
//!
//! Two outside crates do work that is taken on trust: `serde_yaml_ng` reads
//! the YAML, and `tera` fills the template of the agent definition. What is
//! assumed of them stands in the contracts of the private functions of
//! [`yaml`] and [`renderer`] that call them.

pub mod agent;
pub mod document;
pub mod error;
pub mod generator;
pub mod loader;
pub mod output;
pub mod renderer;
pub mod templates;
pub mod vocabulary;
pub mod yaml;

pub use agent::{Agent, Spec};
pub use error::{GenerateError, ParseError, RenderError, WriteError};
pub use generator::{generate, Project};
pub use loader::parse;
pub use output::OutputFile;
pub use renderer::{render, render_agent_py};
pub use vocabulary::{Model, Tool};
