//! Declarative dotfile management: a mapping of target paths to source paths
//! is reconciled against the filesystem, and a directory of symbolic links can
//! be read back into such a mapping.
pub mod model;
pub mod errors;
pub mod paths;
pub mod checksum;
pub mod files;
pub mod mutate;
pub mod import;
pub mod parser;
