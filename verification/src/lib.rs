//! Generation of conversions from annotated error enumerations to protocol
//! statuses.
//!
//! An error enumeration is described by a [`Declaration`]: its name and, for
//! each variant, the annotations written on it. Every variant must carry a
//! `code` annotation that names one status code, as in `#[code(NotFound)]`.
//! [`impl_tonic_thiserror`] checks the declaration and returns either a
//! [`GeneratedConversion`], with one arm per variant, or the [`Diagnostic`] of
//! the first variant that is wrongly annotated. [`tonic_thiserror_derive`]
//! gives the conversion as source text.

pub mod model;
pub mod diagnostic;
pub mod annotation;
pub mod conversion;
pub mod synth;
pub mod derive;
pub mod laws;
pub mod example;

pub use crate::annotation::{find_code_annotation, parse_code_attr};
pub use crate::conversion::{Arm, ErrorValue, GeneratedConversion, ProtocolStatus, StatusCode};
pub use crate::derive::tonic_thiserror_derive;
pub use crate::diagnostic::{Diagnostic, DiagnosticKind, Fault, Site};
pub use crate::example::MathsError;
pub use crate::model::{
    Annotation, AnnotationShape, Declaration, DeclarationShape, NestedItem, Variant,
};
pub use crate::synth::{impl_tonic_thiserror, variant_arm};
