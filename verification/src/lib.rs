//! A template materialization engine: a directory of template files plus a
//! small declarative descriptor is turned into a parameter-substituted
//! project tree.
//!
//! The library holds the engine's logic: resolving a typed parameter set
//! into concrete values, compiling exclusion rules, rendering file paths and
//! contents through a templating evaluator, and deciding how conflicts with
//! an existing target directory are handled. Terminal prompting, filesystem
//! traversal and the actual reads and writes are left to the calling
//! program, which hands plain values in and takes plain values back.

pub mod errors;
pub mod values;
pub mod paths;
pub mod render;
pub mod exclude;
pub mod resolver;
pub mod materialize;
