//! A file organizer library: a path-template language with a variable
//! resolution context, a replication strategy chain, and the per-file
//! sort decision pipeline that ties them together.

pub mod context;
pub mod datescan;
pub mod pathname;
pub mod replicator;
pub mod sort;
pub mod strings;
pub mod template;
pub mod value_parser;
pub mod variables;
pub mod watch;
