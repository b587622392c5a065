//! The filter as the user wrote it, and the checks it has to pass.

pub mod argument_parser;
