//! What holds of every declaration and of every generated conversion.
use vstd::prelude::*;
use crate::annotation::{
    code_position, first_code_exists, first_code_is_position, has_code_tag, is_first_code,
    lacks_code, shape_code,
};
use crate::conversion::{status_of, ArmView, ConversionView};
use crate::diagnostic::{kind_of, Diagnostic, DiagnosticKind, Fault, Site};
use crate::model::{AnnotationView, DeclarationView, ItemView, ShapeView};
use crate::synth::{accepted, all_valid_before, rejected, variant_outcome, well_annotated};

verus! {

/// Whether a form is a list of exactly one item.
pub open spec fn is_single_item_list(shape: ShapeView) -> bool {
    shape matches ShapeView::List { items } && items.len() == 1
}

/// Whether a form is a list whose one item is the bare identifier `code`.
pub open spec fn names_code(shape: ShapeView, code: Seq<char>) -> bool {
    &&& shape matches ShapeView::List { items }
    &&& items.len() == 1
    &&& items[0] matches ItemView::Path { leading_colon, segments }
    &&& !leading_colon
    &&& segments.len() == 1
    &&& segments[0] == code
}

/// The conversion of an accepted enumeration gives every value of every
/// variant a status, whatever the value's display text.
pub proof fn conversion_is_total(
    declaration: DeclarationView,
    conversion: ConversionView,
    variant: int,
    text: Seq<char>,
)
    requires
        accepted(declaration, conversion),
        0 <= variant < declaration.variants().len(),
    ensures
        status_of(conversion, variant, text) is Some,
{
}

/// A form yields a code exactly when it is a list whose one item is a
/// bare identifier, and the code is that identifier.
pub proof fn code_is_the_identifier(shape: ShapeView, code: Seq<char>)
    ensures
        shape_code(shape) == Ok::<Seq<char>, Fault>(code) <==> names_code(shape, code),
{
}

/// In the conversion of an accepted enumeration, a value of a variant whose
/// first `code` annotation names `code` gets a status with exactly that
/// code.
pub proof fn status_has_the_annotated_code(
    declaration: DeclarationView,
    conversion: ConversionView,
    variant: int,
    position: int,
    code: Seq<char>,
    text: Seq<char>,
)
    requires
        declaration.representable(),
        accepted(declaration, conversion),
        0 <= variant < declaration.variants().len(),
        is_first_code(declaration.variants()[variant].annotations, position),
        names_code(declaration.variants()[variant].annotations[position].shape, code),
    ensures
        status_of(conversion, variant, text) matches Some(status) && status.code == code,
{
    let v = declaration.variants()[variant];
    first_code_is_position(v.annotations, position);
    assert(variant_outcome(v, variant as usize) == Ok::<ArmView, Diagnostic>(
        conversion.arms[variant],
    ));
}

/// The message of a status is the display text of the value, unchanged.
pub proof fn status_has_the_display_text(conversion: ConversionView, variant: int, text: Seq<char>)
    ensures
        status_of(conversion, variant, text) matches Some(status) ==> status.message == text,
{
}

/// A declaration that is no enumeration has no conversion, and its one
/// refusal is the finding that it is no enumeration, at the declaration.
pub proof fn non_enumeration_is_refused(
    declaration: DeclarationView,
    conversion: ConversionView,
    diagnostic: Diagnostic,
)
    requires
        !declaration.is_enumeration(),
    ensures
        !well_annotated(declaration),
        !accepted(declaration, conversion),
        rejected(declaration, diagnostic) <==> diagnostic == (Diagnostic {
            fault: Fault::NotAnEnum,
            site: Site::Declaration,
        }),
        rejected(declaration, diagnostic) ==> kind_of(diagnostic.fault)
            == DiagnosticKind::NotAnEnum,
{
}

/// A variant without a `code` annotation contributes the diagnostic of a
/// missing annotation, at the variant, and the enumeration that holds it has
/// no conversion, whatever its other variants are.
pub proof fn missing_code_is_refused(
    declaration: DeclarationView,
    conversion: ConversionView,
    variant: int,
)
    requires
        declaration.representable(),
        declaration.is_enumeration(),
        0 <= variant < declaration.variants().len(),
        lacks_code(declaration.variants()[variant].annotations),
    ensures
        variant_outcome(declaration.variants()[variant], variant as usize) == Err::<
            ArmView,
            Diagnostic,
        >(Diagnostic { fault: Fault::MissingCode, site: Site::Variant { variant: variant as usize } }),
        kind_of(Fault::MissingCode) == DiagnosticKind::MissingCodeAnnotation,
        !well_annotated(declaration),
        !accepted(declaration, conversion),
{
    let outcome = variant_outcome(declaration.variants()[variant], variant as usize);
    assert(outcome is Err);
}

/// A form is refused as malformed exactly when it is not a list of
/// exactly one item: a bare tag, a key-value pair, an empty list, a list of
/// two or more items and a form that is none of these are all malformed.
pub proof fn malformed_shapes_are_refused(shape: ShapeView)
    ensures
        !is_single_item_list(shape) <==> (shape_code(shape) matches Err(fault) && kind_of(fault)
            == DiagnosticKind::MalformedCodeAnnotation),
{
}

/// A list of exactly one item is refused as an unsupported expression
/// exactly when the item is no bare identifier: a path of several segments,
/// a path that begins with `::`, a literal and a nested form are all
/// unsupported.
pub proof fn unsupported_items_are_refused(shape: ShapeView)
    requires
        is_single_item_list(shape),
    ensures
        (forall|code: Seq<char>| !names_code(shape, code)) <==> (shape_code(shape) matches Err(
            fault,
        ) && kind_of(fault) == DiagnosticKind::UnsupportedCodeExpression),
{
    match shape_code(shape) {
        Ok(code) => {
            assert(names_code(shape, code));
        },
        Err(_) => {},
    }
}

/// A path that begins with `::` names no code, however many segments it
/// has: as the one item of a list it is refused as a path that is no bare
/// identifier.
pub proof fn leading_separator_is_refused(shape: ShapeView)
    requires
        shape matches ShapeView::List { items } && items.len() == 1 && (items[0] matches ItemView::Path {
            leading_colon,
            ..
        } && leading_colon),
    ensures
        shape_code(shape) == Err::<Seq<char>, Fault>(Fault::PathNotBare),
        kind_of(Fault::PathNotBare) == DiagnosticKind::UnsupportedCodeExpression,
{
}

/// The diagnostic of a variant lies in that variant.
pub proof fn diagnostic_lies_in_its_variant(declaration: DeclarationView, variant: int)
    requires
        declaration.representable(),
        0 <= variant < declaration.variants().len(),
    ensures
        variant_outcome(declaration.variants()[variant], variant as usize) matches Err(diagnostic)
            ==> diagnostic.site.variant_index() == Some(variant as usize),
{
}

/// Generation stops at the first variant that is wrongly annotated: where
/// every variant before `variant` contributes an arm and `variant` does
/// not, the enumeration has no conversion, and its one refusal is that
/// variant's diagnostic, whatever the later variants hold.
pub proof fn first_failure_is_reported(
    declaration: DeclarationView,
    conversion: ConversionView,
    variant: int,
    diagnostic: Diagnostic,
    other: Diagnostic,
)
    requires
        declaration.representable(),
        declaration.is_enumeration(),
        0 <= variant < declaration.variants().len(),
        all_valid_before(declaration.variants(), variant),
        variant_outcome(declaration.variants()[variant], variant as usize) == Err::<
            ArmView,
            Diagnostic,
        >(diagnostic),
    ensures
        !well_annotated(declaration),
        !accepted(declaration, conversion),
        rejected(declaration, other) <==> other == diagnostic,
{
    let variants = declaration.variants();
    let failed = variant_outcome(variants[variant], variant as usize);
    assert(failed is Err);
    diagnostic_lies_in_its_variant(declaration, variant);
    if rejected(declaration, other) {
        let i = other.site.variant_index().unwrap();
        if i < variant {
            assert(variant_outcome(variants[i as int], (i as int) as usize) is Ok);
        }
        if variant < i {
            assert(variant_outcome(variants[variant], variant as usize) is Ok);
        }
    }
}

/// A declaration has at most one conversion and at most one refusal, and
/// never both: it has a conversion exactly when it is well annotated.
pub proof fn outcome_is_unique(
    declaration: DeclarationView,
    first: ConversionView,
    second: ConversionView,
    diagnostic: Diagnostic,
    other: Diagnostic,
)
    requires
        declaration.representable(),
    ensures
        accepted(declaration, first) && accepted(declaration, second) ==> first == second,
        rejected(declaration, diagnostic) && rejected(declaration, other) ==> diagnostic == other,
        accepted(declaration, first) ==> well_annotated(declaration) && !rejected(
            declaration,
            diagnostic,
        ),
        rejected(declaration, diagnostic) ==> !well_annotated(declaration),
{
    let variants = declaration.variants();
    if accepted(declaration, first) {
        assert forall|k: int| 0 <= k < variants.len() implies (#[trigger] variant_outcome(
            variants[k],
            k as usize,
        )) is Ok by {
            assert(variant_outcome(variants[k], k as usize) == Ok::<ArmView, Diagnostic>(
                first.arms[k],
            ));
        }
        if accepted(declaration, second) {
            assert forall|k: int| 0 <= k < variants.len() implies first.arms[k]
                == second.arms[k] by {
                assert(variant_outcome(variants[k], k as usize) == Ok::<ArmView, Diagnostic>(
                    first.arms[k],
                ));
                assert(variant_outcome(variants[k], k as usize) == Ok::<ArmView, Diagnostic>(
                    second.arms[k],
                ));
            }
            assert(first.arms =~= second.arms);
        }
    }
    if rejected(declaration, diagnostic) && declaration.is_enumeration() {
        let i = diagnostic.site.variant_index().unwrap();
        assert(variant_outcome(variants[i as int], (i as int) as usize) is Err);
        if rejected(declaration, other) {
            first_failure_is_reported(declaration, first, i as int, diagnostic, other);
        }
    }
}

/// The first annotation tagged `code` decides: the code position is that
/// annotation, whatever follows it, and there is none exactly when no
/// annotation carries the tag.
pub proof fn first_code_annotation_decides(annotations: Seq<AnnotationView>)
    ensures
        match code_position(annotations) {
            Some(j) => is_first_code(annotations, j),
            None => lacks_code(annotations),
        },
{
    if !lacks_code(annotations) {
        let n = choose|n: int|
            0 <= n < annotations.len() && has_code_tag(#[trigger] annotations[n]);
        first_code_exists(annotations, n);
    }
}

} // verus!
