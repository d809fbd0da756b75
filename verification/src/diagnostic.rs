//! What the generator reports when it refuses a declaration.
use vstd::prelude::*;
use vstd::string::*;

verus! {

/// The four kinds of refusal.
#[derive(Clone, Copy, Debug, PartialEq, Eq, Structural)]
pub enum DiagnosticKind {
    /// The declaration is not an enumeration.
    NotAnEnum,
    /// A variant has no `code` annotation.
    MissingCodeAnnotation,
    /// The `code` annotation is not a list of exactly one item.
    MalformedCodeAnnotation,
    /// The one item is not a bare identifier.
    UnsupportedCodeExpression,
}

/// The precise finding behind a refusal. Each fault has its own message.
#[derive(Clone, Copy, Debug, PartialEq, Eq, Structural)]
pub enum Fault {
    /// The declaration is not an enumeration.
    NotAnEnum,
    /// No annotation of the variant is tagged `code`.
    MissingCode,
    /// The `code` annotation is not a parenthesized list.
    NotAList,
    /// The list holds no item, or more than one.
    WrongItemCount,
    /// The item is a path, but no bare identifier: it begins with `::` or
    /// has more or fewer segments than one.
    PathNotBare,
    /// The item is not a path at all.
    NotAPath,
}

/// The construct that a diagnostic is attributed to. Variants and
/// annotations are counted from zero in written order.
#[derive(Clone, Copy, Debug, PartialEq, Eq, Structural)]
pub enum Site {
    /// The declaration as a whole.
    Declaration,
    /// A variant.
    Variant { variant: usize },
    /// An annotation of a variant.
    Annotation { variant: usize, annotation: usize },
    /// The item inside an annotation's list.
    CodeItem { variant: usize, annotation: usize },
}

/// A refusal: what was found, and where.
#[derive(Clone, Copy, Debug, PartialEq, Eq, Structural)]
pub struct Diagnostic {
    pub fault: Fault,
    pub site: Site,
}

/// The kind that a fault belongs to.
pub open spec fn kind_of(fault: Fault) -> DiagnosticKind {
    match fault {
        Fault::NotAnEnum => DiagnosticKind::NotAnEnum,
        Fault::MissingCode => DiagnosticKind::MissingCodeAnnotation,
        Fault::NotAList => DiagnosticKind::MalformedCodeAnnotation,
        Fault::WrongItemCount => DiagnosticKind::MalformedCodeAnnotation,
        Fault::PathNotBare => DiagnosticKind::UnsupportedCodeExpression,
        Fault::NotAPath => DiagnosticKind::UnsupportedCodeExpression,
    }
}

/// The text shown for a fault.
pub open spec fn message_of(fault: Fault) -> Seq<char> {
    match fault {
        Fault::NotAnEnum => "TonicThisError can only be used on enums"@,
        Fault::MissingCode => "Missing `code` attribute"@,
        Fault::NotAList => "Expected `code` attribute to be a list"@,
        Fault::WrongItemCount => "Expected exactly one `code`"@,
        Fault::PathNotBare => "Expected tonic::Code variant"@,
        Fault::NotAPath => "Expected tonic::Code variant for `code` attribute"@,
    }
}

/// Where a fault found in annotation `annotation` of variant `variant` is
/// reported: a path that is no bare identifier at the item itself, every
/// other fault at the annotation.
pub open spec fn annotation_site(fault: Fault, variant: usize, annotation: usize) -> Site {
    if fault == Fault::PathNotBare {
        Site::CodeItem { variant, annotation }
    } else {
        Site::Annotation { variant, annotation }
    }
}

impl Site {
    /// The variant that the site lies in, if it lies in one.
    pub open spec fn variant_index(self) -> Option<usize> {
        match self {
            Site::Declaration => None,
            Site::Variant { variant } => Some(variant),
            Site::Annotation { variant, .. } => Some(variant),
            Site::CodeItem { variant, .. } => Some(variant),
        }
    }

    /// The site of a fault found in an annotation.
    pub fn in_annotation(fault: Fault, variant: usize, annotation: usize) -> (site: Site)
        ensures
            site == annotation_site(fault, variant, annotation),
    {
        match fault {
            Fault::PathNotBare => Site::CodeItem { variant, annotation },
            _ => Site::Annotation { variant, annotation },
        }
    }

    /// The variant that the site lies in, if it lies in one.
    pub fn variant(&self) -> (index: Option<usize>)
        ensures
            index == self.variant_index(),
    {
        match self {
            Site::Declaration => None,
            Site::Variant { variant } => Some(*variant),
            Site::Annotation { variant, .. } => Some(*variant),
            Site::CodeItem { variant, .. } => Some(*variant),
        }
    }
}

impl Fault {
    /// The kind that the fault belongs to.
    pub fn kind(&self) -> (kind: DiagnosticKind)
        ensures
            kind == kind_of(*self),
    {
        match self {
            Fault::NotAnEnum => DiagnosticKind::NotAnEnum,
            Fault::MissingCode => DiagnosticKind::MissingCodeAnnotation,
            Fault::NotAList => DiagnosticKind::MalformedCodeAnnotation,
            Fault::WrongItemCount => DiagnosticKind::MalformedCodeAnnotation,
            Fault::PathNotBare => DiagnosticKind::UnsupportedCodeExpression,
            Fault::NotAPath => DiagnosticKind::UnsupportedCodeExpression,
        }
    }

    /// The text shown for the fault.
    pub fn message(&self) -> (text: String)
        ensures
            text@ == message_of(*self),
    {
        match self {
            Fault::NotAnEnum => String::from_str("TonicThisError can only be used on enums"),
            Fault::MissingCode => String::from_str("Missing `code` attribute"),
            Fault::NotAList => String::from_str("Expected `code` attribute to be a list"),
            Fault::WrongItemCount => String::from_str("Expected exactly one `code`"),
            Fault::PathNotBare => String::from_str("Expected tonic::Code variant"),
            Fault::NotAPath => String::from_str(
                "Expected tonic::Code variant for `code` attribute",
            ),
        }
    }
}

impl Diagnostic {
    /// The kind of the refusal.
    pub fn kind(&self) -> (kind: DiagnosticKind)
        ensures
            kind == kind_of(self.fault),
    {
        self.fault.kind()
    }

    /// The text of the refusal.
    pub fn message(&self) -> (text: String)
        ensures
            text@ == message_of(self.fault),
    {
        self.fault.message()
    }
}

} // verus!
