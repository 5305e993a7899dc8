//! Renders descriptions of data types as PureScript source text.
//!
//! A [`PursType`] describes one data type: a record, a single constructor or
//! a union. It is built from [`PursConstructor`] values, which are names
//! applied to type arguments. A [`PursModule`] collects declarations under a
//! module name together with the imports they need, and renders them as one
//! source file.
//!
//! Every rendering function states the text it returns, character for
//! character, over the mathematical view of its argument.

pub mod purs_constructor;
pub mod purs_import;
pub mod purs_import_laws;
pub mod purs_module;
pub mod purs_type;

pub use crate::purs_constructor::{AsPursConstructor, PursConstructor};
pub use crate::purs_import::{resolve_imports, ImportRule, ImportTable, PursImport};
pub use crate::purs_module::{assemble, PursModule};
pub use crate::purs_type::{AsPursType, PursType};
