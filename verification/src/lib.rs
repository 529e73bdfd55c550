//! Workspace file indexing and mutation for an image organiser.
//!
//! The crate decides and computes; it performs no file system access of its
//! own. A scan is computed from what a walk of the workspace tree found
//! ([`scan`]). A move, a rename, a deletion and the setting up of a workspace
//! are operations that ask their caller for one effect at a time and go on
//! with what came of it ([`operation`], [`mutate`], [`workspace`]). Paths are
//! handled as character sequences with a portable relative form ([`path`]).
//! What holds of all this is proved in the modules whose names end in
//! `_laws`.

pub mod error;
pub mod model;
pub mod mutate;
pub mod operation;
pub mod operation_laws;
pub mod path;
pub mod path_laws;
pub mod scan;
pub mod scan_laws;
pub mod text;
pub mod time;
pub mod workspace;
