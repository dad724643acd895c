//! Host ISA capability resolution for a code-generation backend, plus the
//! option-group handling of the command-line front end around it.

pub mod backend;
pub mod options;
pub mod probes;
pub mod resolver;
