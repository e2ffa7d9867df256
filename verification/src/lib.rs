//! Type realization for a C#-flavoured binding generator.
//!
//! Given a tree-shaped, language-neutral description of a value type, this
//! library renders the concrete strings that generated C# source needs for
//! that type: its surface syntax name, a collision-free canonical (mangled)
//! name used to key shared helper code, the rendering of a literal default
//! value, and the rendering of "no value supplied" defaults.
//!
//! The library covers the compound shapes (optional, sequence, map) and the
//! two fixed-identity shapes (timestamp, duration). Scalar leaf types are
//! rendered by the surrounding generator; their renderings enter this
//! library as plain string values carried on the leaves of the type tree.

pub mod canonical;
pub mod compounds;
pub mod laws;
pub mod miscellany;
pub mod realize;
pub mod types;

pub use compounds::MapCodeType;
pub use compounds::OptionalCodeType;
pub use compounds::SequenceCodeType;
pub use miscellany::DurationCodeType;
pub use miscellany::TimestampCodeType;
pub use types::DefaultValue;
pub use types::Literal;
pub use types::RealizeError;
pub use types::ScalarShape;
pub use types::Type;
