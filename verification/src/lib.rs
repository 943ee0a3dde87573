//! Scaffolding of a research-project directory: the names, the texts and the
//! ordered list of steps that make up a new project, with their contracts.

pub mod author;
pub mod excerpt;
pub mod master;
pub mod names;
pub mod plan;
pub mod project;
pub mod resolve;
pub mod run;
pub mod stamp;
pub mod templates;
pub mod text;
