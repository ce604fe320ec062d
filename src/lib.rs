//! Hands values computed by a build script to the crate being built, as source-level
//! declarations: expressions, nested container types, perfect-hash tables and the
//! artifact files that carry them from one phase to the other.

pub mod literal;
pub mod expr;
pub mod dims;
pub mod source;
pub mod artifact;
pub mod emit;
pub mod tables;
pub mod builders;

pub use phf;

pub use artifact::allow_export_error;
pub use builders::{BuildError, MapBuilder, OrderedMapBuilder, OrderedSetBuilder, SetBuilder};
pub use expr::Value;
pub use tables::{OrderedMap, OrderedSet, StaticMap, StaticSet};
