//! Template helpers and the variable-definition schema of a project scaffolder.
pub mod inflect;
pub mod paths;
pub mod helpers;
pub mod yaml;
pub mod variable_def;
