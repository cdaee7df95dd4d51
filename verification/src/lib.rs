//! Scaffolding for named recipes: the text of the generated files and the
//! order in which a recipe's directory tree is laid down on disk.
//!
//! [`start`] begins the creation of a recipe and [`step`] takes it from one
//! operation on the file system to the next. The caller carries the
//! operations out. [`template`] holds the substitution of placeholders,
//! [`recipe`] the files of a recipe, [`generator`] the order of the
//! operations, and [`tree`] a model of the file system with what is proved of
//! whole runs.

pub mod generator;
pub mod recipe;
pub mod template;
pub mod tree;

pub use generator::{start, start_in, step, Action, Error, Event, Generator, Notice, Stage};
pub use recipe::{GeneratedFile, Recipe};
pub use template::{render, Context};
