//! A small error enumeration with its annotations, and what its conversion
//! gives.
use vstd::prelude::*;
use vstd::string::*;
use crate::annotation::{first_code_is_position, has_code_tag};
use crate::conversion::{status_of, ArmView, ConversionView, ErrorValue, ProtocolStatus, StatusCode, StatusView};
use crate::diagnostic::Diagnostic;
use crate::model::{
    Annotation, AnnotationShape, Declaration, DeclarationShape, DeclarationView, ItemView,
    NestedItem, ShapeView, Variant,
};
use crate::synth::{accepted, variant_outcome, well_annotated};

verus! {

/// The errors of an arithmetic service.
///
/// Its one variant is displayed as `Division by zero` and annotated with
/// the status code `InvalidArgument`.
#[derive(Clone, Copy, Debug, PartialEq, Eq, Structural)]
pub enum MathsError {
    DivisionByZero,
}

/// Whether `declaration` is the declaration of [`MathsError`]: an
/// enumeration of that name whose one variant, `DivisionByZero`, carries an
/// `error` annotation with its display text and the annotation
/// `code(InvalidArgument)`.
pub open spec fn declares_maths_error(declaration: DeclarationView) -> bool {
    &&& declaration.name == "MathsError"@
    &&& declaration.is_enumeration()
    &&& declaration.variants().len() == 1
    &&& declaration.variants()[0].name == "DivisionByZero"@
    &&& declaration.variants()[0].annotations.len() == 2
    &&& declaration.variants()[0].annotations[0].path == "error"@
    &&& declaration.variants()[0].annotations[0].shape matches ShapeView::List { items }
    &&& items.len() == 1
    &&& items[0] is Literal
    &&& declaration.variants()[0].annotations[1].path == "code"@
    &&& declaration.variants()[0].annotations[1].shape matches ShapeView::List { items }
    &&& items.len() == 1
    &&& items[0] matches ItemView::Path { leading_colon, segments }
    &&& !leading_colon
    &&& segments.len() == 1
    &&& segments[0] == "InvalidArgument"@
}

impl MathsError {
    /// The number of the value's variant in declaration order.
    pub open spec fn variant_index(self) -> int {
        match self {
            MathsError::DivisionByZero => 0,
        }
    }

    /// The display text of the value.
    pub open spec fn display_text(self) -> Seq<char> {
        match self {
            MathsError::DivisionByZero => "Division by zero"@,
        }
    }

    /// The status that the value is converted to.
    pub open spec fn status(self) -> StatusView {
        match self {
            MathsError::DivisionByZero => StatusView {
                code: "InvalidArgument"@,
                message: "Division by zero"@,
            },
        }
    }

    /// The declaration of the enumeration with its annotations.
    pub fn declaration() -> (declaration: Declaration)
        ensures
            declares_maths_error(declaration@),
    {
        let display = Annotation {
            path: String::from_str("error"),
            shape: AnnotationShape::List { items: vec![NestedItem::Literal] },
        };
        let code = Annotation {
            path: String::from_str("code"),
            shape: AnnotationShape::List {
                items: vec![
                    NestedItem::Path {
                        leading_colon: false,
                        segments: vec![String::from_str("InvalidArgument")],
                    },
                ],
            },
        };
        let variant = Variant {
            name: String::from_str("DivisionByZero"),
            annotations: vec![display, code],
        };
        Declaration {
            name: String::from_str("MathsError"),
            shape: DeclarationShape::Enumeration { variants: vec![variant] },
        }
    }

    /// The display text of the value.
    pub fn message(&self) -> (text: String)
        ensures
            text@ == self.display_text(),
    {
        match self {
            MathsError::DivisionByZero => String::from_str("Division by zero"),
        }
    }

    /// The value as a conversion sees it: its variant and its display text.
    pub fn value(&self) -> (value: ErrorValue)
        ensures
            value.variant as int == self.variant_index(),
            value.display@ == self.display_text(),
    {
        match self {
            MathsError::DivisionByZero => ErrorValue { variant: 0, display: self.message() },
        }
    }

    /// The status that the value is converted to: the code that its variant
    /// is annotated with, and its display text as the message.
    pub fn to_status(&self) -> (status: ProtocolStatus)
        ensures
            status@ == self.status(),
    {
        match self {
            MathsError::DivisionByZero => ProtocolStatus {
                code: StatusCode { ident: String::from_str("InvalidArgument") },
                message: self.message(),
            },
        }
    }

    /// The declaration of [`MathsError`] is well annotated, and its
    /// conversion gives every value the status that
    /// [`MathsError::to_status`] gives it.
    pub proof fn conversion_agrees(
        self,
        declaration: DeclarationView,
        conversion: ConversionView,
    )
        requires
            declares_maths_error(declaration),
        ensures
            well_annotated(declaration),
            accepted(declaration, conversion) ==> status_of(
                conversion,
                self.variant_index(),
                self.display_text(),
            ) == Some(self.status()),
    {
        reveal_strlit("error");
        reveal_strlit("code");
        let variant = declaration.variants()[0];
        assert(!has_code_tag(variant.annotations[0])) by {
            assert("error"@.len() != "code"@.len());
        }
        first_code_is_position(variant.annotations, 1);
        assert(variant_outcome(variant, 0) is Ok);
        if accepted(declaration, conversion) {
            let i: int = 0;
            assert(variant_outcome(declaration.variants()[i], i as usize) == Ok::<
                ArmView,
                Diagnostic,
            >(conversion.arms[i]));
        }
    }
}

} // verus!
