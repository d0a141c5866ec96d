//! Decisions behind two code-generating attributes for Python-exposed types:
//! which fields a generated constructor takes, in what order and with what
//! defaults, and which class options an exposed struct or enum receives.
use vstd::prelude::*;

pub mod decl;
pub mod constructor;
pub mod pyclass;

pub use decl::{DataShape, FieldsShape, NamedField, TypeDecl, TypeShape};
pub use constructor::{with_new, Constructor, DeriveError, Param};
pub use pyclass::{with_pyclass, ItemKind, PyclassError, PyclassOption};
